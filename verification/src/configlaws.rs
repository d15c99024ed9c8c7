//! What a configuration of keys changes, said of the rows of the keymap.
use vstd::prelude::*;

use crate::command;
use crate::command::{Command, Context, Mode};
use crate::data;
use crate::keymap::{
    bound_in, mode_has, not_bound_in, places, read_seqs, read_seq, rows_for, runs, KeyChord, SpecActionKeys,
    SpecBinding, SpecGroup, SpecGroupLabel, SpecKeymap, SpecKeyParseError, SpecKeySeq,
};

verus! {

/// The text at each place is read as the sequence at that place, or the first
/// that cannot be read is named.
pub proof fn sequences_are_read_in_order(texts: Seq<Seq<char>>, leader: KeyChord)
    ensures
        read_seqs(texts, leader) matches Ok(seqs) ==> {
            &&& seqs.len() == texts.len()
            &&& forall|i: int|
                0 <= i < texts.len() ==> read_seq(#[trigger] texts[i], Some(leader)) == Ok::<
                    SpecKeySeq,
                    SpecKeyParseError,
                >(seqs[i])
        },
        read_seqs(texts, leader) matches Err(e) ==> exists|i: int|
            0 <= i < texts.len() && read_seq(#[trigger] texts[i], Some(leader)) == Err::<SpecKeySeq, SpecKeyParseError>(
                e,
            ) && forall|j: int| 0 <= j < i ==> read_seq(#[trigger] texts[j], Some(leader)) is Ok,
    decreases texts.len(),
{
    if texts.len() > 0 {
        let before = texts.drop_last();
        sequences_are_read_in_order(before, leader);
        match read_seqs(before, leader) {
            Err(e) => {
                let i = choose|i: int|
                    0 <= i < before.len() && read_seq(#[trigger] before[i], Some(leader)) == Err::<
                        SpecKeySeq,
                        SpecKeyParseError,
                    >(e) && forall|j: int| 0 <= j < i ==> read_seq(#[trigger] before[j], Some(leader)) is Ok;
                assert(texts[i] == before[i]);
                assert forall|j: int| 0 <= j < i implies read_seq(#[trigger] texts[j], Some(leader)) is Ok by {
                    assert(before[j] == texts[j]);
                }
            },
            Ok(seqs) => {
                assert forall|j: int| 0 <= j < before.len() implies read_seq(
                    #[trigger] texts[j],
                    Some(leader),
                ) == Ok::<
                    SpecKeySeq,
                    SpecKeyParseError,
                >(seqs[j]) by {
                    assert(before[j] == texts[j]);
                }
                assert(texts[texts.len() - 1] == texts.last());
            },
        }
    }
}

/// One of the places is the context.
pub open spec fn place_in(at: Seq<(Context, bool)>, context: Context) -> bool {
    exists|p: int| 0 <= p < at.len() && (#[trigger] at[p]).0 == context
}

proof fn lemma_runs(at: Seq<(Context, bool)>, context: Context)
    ensures
        place_in(runs(at), context) <==> place_in(at, context),
    decreases at.len(),
{
    if at.len() > 0 {
        let rest = at.drop_last();
        lemma_runs(rest, context);
        lemma_runs(rest, at.last().0);
        let before = runs(rest);
        let all = runs(at);
        if place_in(at, context) {
            let p = choose|p: int| 0 <= p < at.len() && (#[trigger] at[p]).0 == context;
            if p < rest.len() {
                assert(rest[p].0 == context);
                let q = choose|q: int| 0 <= q < before.len() && (#[trigger] before[q]).0 == context;
                assert(all[q].0 == context);
            } else {
                assert(all.last().0 == context);
                assert(all[all.len() - 1].0 == context);
            }
        }
        if place_in(all, context) {
            let q = choose|q: int| 0 <= q < all.len() && (#[trigger] all[q]).0 == context;
            if q < before.len() {
                assert(before[q].0 == context);
                let p = choose|p: int| 0 <= p < rest.len() && (#[trigger] rest[p]).0 == context;
                assert(at[p].0 == context);
            } else {
                assert(at[at.len() - 1].0 == context);
            }
        }
    }
}

/// The command has a row in the context, which the mode has.
pub open spec fn bound_at(bindings: Seq<SpecBinding>, command: Command, mode: Mode, context: Context) -> bool {
    mode_has(mode, context) && exists|i: int|
        0 <= i < bindings.len() && (#[trigger] bindings[i]).command == command && bindings[i].context == context
}

proof fn lemma_places(bindings: Seq<SpecBinding>, command: Command, mode: Mode, context: Context)
    ensures
        place_in(places(bindings, command, mode), context) <==> bound_at(bindings, command, mode, context) || ((forall|
            c: Context,
        |
            !#[trigger] bound_at(bindings, command, mode, c)) && context == (if mode == Mode::Insert {
            Context::Composer
        } else {
            Context::Global
        })),
{
    let rows = bindings.filter(bound_in(command, mode));
    let at = rows.map_values(|b: SpecBinding| (b.context, b.primary));
    let now = runs(at);
    assert forall|c: Context| #[trigger] bound_at(bindings, command, mode, c) == place_in(now, c) by {
        lemma_runs(at, c);
        if bound_at(bindings, command, mode, c) {
            let i = choose|i: int|
                0 <= i < bindings.len() && (#[trigger] bindings[i]).command == command && bindings[i].context == c;
            data::lemma_filter_has(bindings, bound_in(command, mode), bindings[i]);
            assert(bindings.contains(bindings[i]));
            assert(bound_in(command, mode)(bindings[i]));
            let k = choose|k: int| 0 <= k < rows.len() && rows[k] == bindings[i];
            assert(at[k].0 == c);
        }
        if place_in(at, c) {
            let k = choose|k: int| 0 <= k < at.len() && (#[trigger] at[k]).0 == c;
            data::lemma_filter_has(bindings, bound_in(command, mode), rows[k]);
            assert(rows.contains(rows[k]));
            assert(bound_in(command, mode)(rows[k]));
            let i = choose|i: int| 0 <= i < bindings.len() && bindings[i] == rows[k];
            assert(bindings[i].context == c);
        }
    }
    assert(bound_at(bindings, command, mode, context) == place_in(now, context));
    if now.len() > 0 {
        let c = now[0].0;
        assert(place_in(now, c));
        assert(bound_at(bindings, command, mode, c));
    } else {
        let only = places(bindings, command, mode);
        assert(only[0].0 == (if mode == Mode::Insert {
            Context::Composer
        } else {
            Context::Global
        }));
        assert forall|c: Context| !#[trigger] bound_at(bindings, command, mode, c) by {
            assert(!place_in(now, c));
        }
    }
}

/// The row binds one of the sequences at one of the places; only the first
/// sequence can be the primary one.
pub open spec fn row_for(
    seqs: Seq<SpecKeySeq>,
    at: Seq<(Context, bool)>,
    command: Command,
    b: SpecBinding,
    k: int,
    p: int,
) -> bool {
    &&& 0 <= k < seqs.len()
    &&& 0 <= p < at.len()
    &&& b == (SpecBinding { context: at[p].0, keys: seqs[k], command, primary: at[p].1 && k == 0 })
}

proof fn lemma_rows_for(seqs: Seq<SpecKeySeq>, at: Seq<(Context, bool)>, command: Command, b: SpecBinding)
    ensures
        rows_for(seqs, at, command).contains(b) <==> exists|k: int, p: int| #[trigger]
            row_for(seqs, at, command, b, k, p),
    decreases seqs.len(),
{
    if seqs.len() > 0 {
        let before = seqs.drop_last();
        lemma_rows_for(before, at, command, b);
        let f = |p: (Context, bool)|
            SpecBinding { context: p.0, keys: seqs.last(), command, primary: p.1 && seqs.len() == 1 };
        let last = at.map_values(f);
        let all = rows_for(seqs, at, command);
        assert(all == rows_for(before, at, command) + last);
        vstd::seq_lib::lemma_seq_concat_contains_all_elements(rows_for(before, at, command), last, b);
        if rows_for(before, at, command).contains(b) {
            let (k, p) = choose|k: int, p: int| #[trigger] row_for(before, at, command, b, k, p);
            assert(row_for(seqs, at, command, b, k, p));
        }
        if last.contains(b) {
            let p = choose|p: int| 0 <= p < last.len() && last[p] == b;
            assert(f(at[p]) == b);
            assert(row_for(seqs, at, command, b, seqs.len() - 1, p));
        }
        if exists|k: int, p: int| #[trigger] row_for(seqs, at, command, b, k, p) {
            let (k, p) = choose|k: int, p: int| #[trigger] row_for(seqs, at, command, b, k, p);
            if k < before.len() {
                assert(row_for(before, at, command, b, k, p));
            } else {
                assert(last[p] == b);
            }
        }
    }
}

/// A configured action is bound to exactly the keys given for it, in every
/// context of the mode where it was bound, or in the mode's own where it was
/// not; the rows of every other command and mode stay.
pub proof fn configured_keys_replace_those_of_the_mode(
    map: SpecKeymap,
    mode: Mode,
    action: SpecActionKeys,
    command: Command,
    seqs: Seq<SpecKeySeq>,
    context: Context,
    keys: SpecKeySeq,
    b: SpecBinding,
)
    requires
        data::found(
            command::all_commands(),
            command::goes_by(command::normal_name(action.action)),
        ) == Some(command),
        command::command_modes(command).contains(mode),
        read_seqs(action.keys, map.leader) == Ok::<Seq<SpecKeySeq>, SpecKeyParseError>(seqs),
    ensures
        ({
            let out = map.with_action(mode, action)->Ok_0;
            let unbound = forall|c: Context| !#[trigger] bound_at(map.bindings, command, mode, c);
            let home = if mode == Mode::Insert {
                Context::Composer
            } else {
                Context::Global
            };
            let here = bound_at(map.bindings, command, mode, context) || (unbound && context == home);
            &&& map.with_action(mode, action) is Ok
            &&& mode_has(mode, context) && (exists|i: int|
                0 <= i < out.bindings.len() && (#[trigger] out.bindings[i]).command == command && out.bindings[i].context
                    == context && out.bindings[i].keys == keys) ==> here && seqs.contains(keys)
            &&& here && seqs.contains(keys) ==> exists|i: int|
                0 <= i < out.bindings.len() && (#[trigger] out.bindings[i]).command == command && out.bindings[i].context
                    == context && out.bindings[i].keys == keys
            &&& b.command != command ==> (out.bindings.contains(b) <==> map.bindings.contains(b))
            &&& out.leader == map.leader
            &&& out.groups == map.groups
        }),
{
    reveal(SpecKeymap::with_action);
    let at = places(map.bindings, command, mode);
    let kept = map.bindings.filter(not_bound_in(command, mode));
    let rows = rows_for(seqs, at, command);
    let out = map.with_action(mode, action)->Ok_0;
    assert(out.bindings == kept + rows);
    lemma_places(map.bindings, command, mode, context);
    vstd::seq_lib::lemma_seq_concat_contains_all_elements(kept, rows, b);
    data::lemma_filter_has(map.bindings, not_bound_in(command, mode), b);
    lemma_rows_for(seqs, at, command, b);
    assert(not_bound_in(command, mode)(b) == !(b.command == command && mode_has(mode, b.context)));
    let here = place_in(at, context);
    if here && seqs.contains(keys) {
        let p = choose|p: int| 0 <= p < at.len() && (#[trigger] at[p]).0 == context;
        let k = choose|k: int| 0 <= k < seqs.len() && seqs[k] == keys;
        let row = SpecBinding { context, keys, command, primary: at[p].1 && k == 0 };
        lemma_rows_for(seqs, at, command, row);
        assert(row_for(seqs, at, command, row, k, p));
        vstd::seq_lib::lemma_seq_concat_contains_all_elements(kept, rows, row);
        let i = choose|i: int| 0 <= i < out.bindings.len() && out.bindings[i] == row;
        assert(out.bindings[i].command == command);
    }
    if mode_has(mode, context) && exists|i: int|
        0 <= i < out.bindings.len() && (#[trigger] out.bindings[i]).command == command && out.bindings[i].context
            == context && out.bindings[i].keys == keys {
        let i = choose|i: int|
            0 <= i < out.bindings.len() && (#[trigger] out.bindings[i]).command == command && out.bindings[i].context
                == context && out.bindings[i].keys == keys;
        let row = out.bindings[i];
        assert(out.bindings.contains(row));
        vstd::seq_lib::lemma_seq_concat_contains_all_elements(kept, rows, row);
        data::lemma_filter_has(map.bindings, not_bound_in(command, mode), row);
        assert(!not_bound_in(command, mode)(row));
        lemma_rows_for(seqs, at, command, row);
        let (k, p) = choose|k: int, p: int| #[trigger] row_for(seqs, at, command, row, k, p);
        assert(at[p].0 == context);
        assert(seqs[k] == keys);
    }
}

/// A configured label replaces the one its prefix had, and no other.
pub proof fn labels_are_of_their_prefix(map: SpecKeymap, group: SpecGroupLabel, g: SpecGroup)
    ensures
        map.with_group(group) is Ok <==> read_seq(group.prefix, Some(map.leader)) is Ok,
        map.with_group(group) matches Ok(out) ==> {
            let prefix = read_seq(group.prefix, Some(map.leader))->Ok_0;
            &&& out.groups.contains(g) <==> g == (SpecGroup { prefix, label: group.label }) || (map.groups.contains(g)
                && g.prefix != prefix)
            &&& out.bindings == map.bindings
            &&& out.leader == map.leader
        },
{
    if let Ok(prefix) = read_seq(group.prefix, Some(map.leader)) {
        let p = |x: SpecGroup| x.prefix != prefix;
        data::lemma_filter_has(map.groups, p, g);
        vstd::seq_lib::lemma_seq_contains_after_push(
            map.groups.filter(p),
            SpecGroup { prefix, label: group.label },
            g,
        );
    }
}

} // verus!
