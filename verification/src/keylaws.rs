//! What holds of every keymap: what the hint bar and the controls show, which
//! rows an override leaves, which configs are accepted, and what the reported
//! conflicts are.
use vstd::prelude::*;

use crate::command;
use crate::command::{Command, Context, Mode};
use crate::data;
use crate::keymap::{
    clash, conflict_on, conflicts_in, first_hints, hint_for, in_context, leader_of, mode_names, not_bound, noted,
    noted_all, noted_within, ranked, read_seq, read_seqs, with_command, KeyChord, SpecActionKeys, SpecBinding,
    SpecConflict, SpecGroupLabel, SpecHint, SpecKeyParseError, SpecKeySeq, SpecKeymap, SpecKeysConfig, SpecKeysError,
    SpecModeKeys, SpecOverride,
};
use crate::keytable;

verus! {

pub open spec fn row_of(command: Command) -> spec_fn(SpecBinding) -> bool {
    |b: SpecBinding| b.command == command
}

// ---- hints ----------------------------------------------------------------

/// No command is hinted at twice.
pub open spec fn hinted_once(hints: Seq<SpecHint>) -> bool {
    forall|i: int, j: int|
        0 <= i < j < hints.len() ==> (#[trigger] hints[i]).command != (#[trigger] hints[j]).command
}

/// `hints` holds the hint of the row of each command, one per command that
/// has one, and no other.
pub open spec fn hints_are(hints: Seq<SpecHint>, row: spec_fn(Command) -> Option<SpecBinding>) -> bool {
    &&& hinted_once(hints)
    &&& forall|i: int|
        0 <= i < hints.len() ==> row((#[trigger] hints[i]).command) is Some && hints[i] == row(
            hints[i].command,
        )->0.hint()
    &&& forall|command: Command| (#[trigger] row(command)) is Some ==> data::some_where(hints, hint_for(command))
}

/// One hint per command among `rows`: that of its first row.
proof fn lemma_first_hints(rows: Seq<SpecBinding>)
    ensures
        hints_are(first_hints(rows), |c: Command| data::found(rows, row_of(c))),
    decreases rows.len(),
{
    let row = |c: Command| data::found(rows, row_of(c));
    let hints = first_hints(rows);
    if rows.len() == 0 {
        assert forall|c: Command| (#[trigger] row(c)) is Some implies data::some_where(hints, hint_for(c)) by {
            data::lemma_found(rows, row_of(c));
        }
    } else {
        let rest = rows.drop_last();
        let last = rows.last();
        let before = first_hints(rest);
        let row_before = |c: Command| data::found(rest, row_of(c));
        lemma_first_hints(rest);
        assert(rest.push(last) =~= rows);
        assert forall|c: Command| #[trigger] row(c) == (if row_before(c) is Some {
            row_before(c)
        } else if last.command == c {
            Some(last)
        } else {
            None
        }) by {
            data::lemma_found_last(rest, last, row_of(c));
        }
        assert forall|c: Command| (#[trigger] row(c)) is Some implies data::some_where(hints, hint_for(c)) by {
            if row_before(c) is Some {
                let i = choose|i: int| 0 <= i < before.len() && #[trigger] hint_for(c)(before[i]);
                assert(hint_for(c)(hints[i]));
            } else if !data::some_where(before, hint_for(c)) {
                assert(hint_for(c)(hints[hints.len() - 1]));
            }
        }
        if !data::some_where(before, hint_for(last.command)) {
            assert forall|i: int| 0 <= i < before.len() implies (#[trigger] before[i]).command != last.command by {
                assert(!hint_for(last.command)(before[i]));
            }
            if row_before(last.command) is Some {
                assert(data::some_where(before, hint_for(last.command)));
            }
        }
    }
}

proof fn lemma_hints_alike(
    hints: Seq<SpecHint>,
    row: spec_fn(Command) -> Option<SpecBinding>,
    other: spec_fn(Command) -> Option<SpecBinding>,
)
    requires
        hints_are(hints, row),
        forall|c: Command| #[trigger] row(c) == other(c),
    ensures
        hints_are(hints, other),
{
    assert forall|c: Command| (#[trigger] other(c)) is Some implies data::some_where(hints, hint_for(c)) by {
        assert(row(c) == other(c));
    }
}

/// The row the controls show for a command: its first global one, else its
/// first.
pub open spec fn chrome_row(bindings: Seq<SpecBinding>, command: Command) -> Option<SpecBinding> {
    match data::found(bindings, |b: SpecBinding| b.context == Context::Global && b.command == command) {
        Some(b) => Some(b),
        None => data::found(bindings, row_of(command)),
    }
}

/// The controls get exactly one hint per bound command, with the keys of its
/// first global row, else of its first row; an unbound command gets none.
pub proof fn chrome_shows_every_bound_command_once(map: SpecKeymap)
    ensures
        hints_are(map.chrome(), |c: Command| chrome_row(map.bindings, c)),
{
    let global = map.bindings.filter(in_context(Context::Global));
    let rows = global + map.bindings;
    let row = |c: Command| data::found(rows, row_of(c));
    let shown = |c: Command| chrome_row(map.bindings, c);
    lemma_first_hints(rows);
    assert forall|c: Command| #[trigger] row(c) == shown(c) by {
        let wanted = |b: SpecBinding| b.context == Context::Global && b.command == c;
        data::lemma_found_in_both(global, map.bindings, row_of(c));
        data::lemma_found_filtered(map.bindings, in_context(Context::Global), row_of(c));
        data::lemma_found_alike(map.bindings, data::both(in_context(Context::Global), row_of(c)), wanted);
    }
    lemma_hints_alike(map.chrome(), row, shown);
}

pub open spec fn primary_in(context: Context, command: Command) -> spec_fn(SpecBinding) -> bool {
    |b: SpecBinding| b.primary && b.context == context && b.command == command
}

/// The row the hint bar shows for a command in `context`: the first primary
/// one of the context, else the first primary global one.
pub open spec fn hint_row(bindings: Seq<SpecBinding>, context: Context, command: Command) -> Option<SpecBinding> {
    match data::found(bindings, primary_in(context, command)) {
        Some(b) => Some(b),
        None => data::found(bindings, primary_in(Context::Global, command)),
    }
}

/// Where a hinted command stands: those of the context, those that are only
/// global, the help.
pub open spec fn hint_rank(bindings: Seq<SpecBinding>, context: Context, command: Command) -> int {
    if command == Command::ToggleHelp {
        2
    } else if data::found(bindings, primary_in(context, command)) is Some {
        0
    } else {
        1
    }
}

/// What follows the hints of `a` in those of `a + b` is for commands of `b`
/// that `a` has no row of.
proof fn lemma_hints_grow(a: Seq<SpecBinding>, b: Seq<SpecBinding>)
    ensures
        first_hints(a).len() <= first_hints(a + b).len(),
        forall|i: int|
            0 <= i < first_hints(a).len() ==> #[trigger] first_hints(a + b)[i] == first_hints(a)[i],
        forall|i: int|
            first_hints(a).len() <= i < first_hints(a + b).len() ==> data::some_where(
                b,
                row_of((#[trigger] first_hints(a + b)[i]).command),
            ) && !data::some_where(first_hints(a), hint_for(first_hints(a + b)[i].command)),
    decreases b.len(),
{
    if b.len() == 0 {
        assert(a + b =~= a);
    } else {
        let rest = b.drop_last();
        let before = first_hints(a + rest);
        let hints = first_hints(a + b);
        assert((a + b).drop_last() =~= a + rest);
        assert((a + b).last() == b.last());
        lemma_hints_grow(a, rest);
        assert forall|i: int| first_hints(a).len() <= i < hints.len() implies data::some_where(
            b,
            row_of((#[trigger] hints[i]).command),
        ) && !data::some_where(first_hints(a), hint_for(hints[i].command)) by {
            let c = hints[i].command;
            if i < before.len() {
                assert(hints[i] == before[i]);
                let k = choose|k: int| 0 <= k < rest.len() && #[trigger] row_of(c)(rest[k]);
                assert(row_of(c)(b[k]));
            } else {
                assert(c == b.last().command);
                assert(row_of(c)(b[b.len() - 1]));
                if data::some_where(first_hints(a), hint_for(c)) {
                    let k = choose|k: int| 0 <= k < first_hints(a).len() && #[trigger] hint_for(c)(first_hints(a)[k]);
                    assert(before[k] == first_hints(a)[k]);
                    assert(hint_for(c)(before[k]));
                }
            }
        }
    }
}

/// The rows of one rank: those of the context or the global ones, with or
/// without the help.
pub open spec fn ranked_row(
    bindings: Seq<SpecBinding>,
    context: Context,
    rank: nat,
    command: Command,
) -> Option<SpecBinding> {
    if (rank >= 2) != (command == Command::ToggleHelp) {
        None
    } else if rank == 1 || rank == 3 {
        data::found(bindings, primary_in(Context::Global, command))
    } else if context == Context::Global {
        None
    } else {
        data::found(bindings, primary_in(context, command))
    }
}

proof fn lemma_ranked_in(bindings: Seq<SpecBinding>, context: Context, rank: nat, command: Command)
    requires
        rank < 4,
    ensures
        data::found(bindings.filter(in_context(context)), data::both(ranked(rank), row_of(command))) == (if (rank >= 2)
            != (command == Command::ToggleHelp) || (rank == 1 || rank == 3) != (context == Context::Global) {
            None
        } else {
            data::found(bindings, primary_in(context, command))
        }),
{
    let p = data::both(ranked(rank), row_of(command));
    let q = data::both(in_context(context), p);
    data::lemma_found_filtered(bindings, in_context(context), p);
    if (rank >= 2) != (command == Command::ToggleHelp) || (rank == 1 || rank == 3) != (context == Context::Global) {
        data::lemma_found(bindings, q);
    } else {
        data::lemma_found_alike(bindings, q, primary_in(context, command));
    }
}

proof fn lemma_ranked(map: SpecKeymap, context: Context, rank: nat, command: Command)
    requires
        rank < 4,
    ensures
        data::found(map.applicable(context).filter(ranked(rank)), row_of(command)) == ranked_row(
            map.bindings,
            context,
            rank,
            command,
        ),
{
    let own = map.bindings.filter(in_context(context));
    let global = if context == Context::Global {
        Seq::empty()
    } else {
        map.bindings.filter(in_context(Context::Global))
    };
    let p = data::both(ranked(rank), row_of(command));
    data::lemma_found_filtered(own + global, ranked(rank), row_of(command));
    data::lemma_found_in_both(own, global, p);
    lemma_ranked_in(map.bindings, context, rank, command);
    if context == Context::Global {
        data::lemma_found(global, p);
    } else {
        lemma_ranked_in(map.bindings, Context::Global, rank, command);
    }
}

/// The hint bar of a context shows exactly one hint per command with a
/// primary row there or among the global ones, with the keys of the first
/// such row of the context, else of the first global one. The commands of the
/// context come first, those that are only global next, the help last.
pub proof fn hints_are_ordered_and_complete(map: SpecKeymap, context: Context)
    ensures
        hints_are(map.hints(context), |c: Command| hint_row(map.bindings, context, c)),
        forall|i: int, j: int|
            0 <= i < j < map.hints(context).len() ==> hint_rank(
                map.bindings,
                context,
                (#[trigger] map.hints(context)[i]).command,
            ) <= hint_rank(map.bindings, context, (#[trigger] map.hints(context)[j]).command),
{
    let rows = map.applicable(context);
    let r0 = rows.filter(ranked(0));
    let r1 = rows.filter(ranked(1));
    let r2 = rows.filter(ranked(2));
    let r3 = rows.filter(ranked(3));
    let all = r0 + r1 + r2 + r3;
    let hints = map.hints(context);
    let row = |c: Command| data::found(all, row_of(c));
    let shown = |c: Command| hint_row(map.bindings, context, c);
    lemma_first_hints(all);
    assert forall|c: Command| #[trigger] row(c) == shown(c) by {
        data::lemma_found_in_both(r0 + r1 + r2, r3, row_of(c));
        data::lemma_found_in_both(r0 + r1, r2, row_of(c));
        data::lemma_found_in_both(r0, r1, row_of(c));
        lemma_ranked(map, context, 0, c);
        lemma_ranked(map, context, 1, c);
        lemma_ranked(map, context, 2, c);
        lemma_ranked(map, context, 3, c);
    }
    lemma_hints_alike(hints, row, shown);
    let first = first_hints(r0);
    let second = first_hints(r0 + r1);
    lemma_first_hints(r0);
    lemma_hints_grow(r0, r1);
    lemma_hints_grow(r0 + r1, r2 + r3);
    assert(all =~= r0 + r1 + (r2 + r3));
    assert forall|i: int| 0 <= i < hints.len() implies hint_rank(
        map.bindings,
        context,
        (#[trigger] hints[i]).command,
    ) == (if i < first.len() {
        0int
    } else if i >= second.len() {
        2int
    } else if context == Context::Global {
        0int
    } else {
        1int
    }) by {
        let c = hints[i].command;
        lemma_ranked(map, context, 0, c);
        lemma_ranked(map, context, 1, c);
        lemma_ranked(map, context, 2, c);
        lemma_ranked(map, context, 3, c);
        let in_first = |c: Command| data::found(r0, row_of(c));
        assert(hints_are(first, in_first));
        if i < first.len() {
            assert(second[i] == first[i]);
            assert(hints[i] == second[i]);
            assert(in_first(first[i].command) is Some);
        } else if i < second.len() {
            assert(hints[i] == second[i]);
            data::lemma_found(r1, row_of(c));
            assert(in_first(c) is None) by {
                if in_first(c) is Some {
                    assert(data::some_where(first, hint_for(c)));
                }
            }
        } else {
            data::lemma_found(r2 + r3, row_of(c));
            data::lemma_found_in_both(r2, r3, row_of(c));
        }
    }
}

// ---- overrides ------------------------------------------------------------

/// The last of `overrides` that names the command in that context.
pub open spec fn deciding(
    overrides: Seq<SpecOverride>,
    context: Context,
    command: Command,
) -> Option<SpecOverride>
    decreases overrides.len(),
{
    if overrides.len() == 0 {
        None
    } else if overrides.last().context == context && overrides.last().command == command {
        Some(overrides.last())
    } else {
        deciding(overrides.drop_last(), context, command)
    }
}

/// Rows whose command no override names in their context.
pub open spec fn unnamed(overrides: Seq<SpecOverride>) -> spec_fn(SpecBinding) -> bool {
    |b: SpecBinding| deciding(overrides, b.context, b.command) is None
}

pub open spec fn rows_at(context: Context, command: Command) -> spec_fn(SpecBinding) -> bool {
    |b: SpecBinding| b.context == context && b.command == command
}

/// The rows an override leaves its command in its context: one, or none where
/// it unbinds it.
pub open spec fn overriding_rows(o: SpecOverride) -> Seq<SpecBinding> {
    match o.keys {
        Some(keys) => seq![
            SpecBinding { context: o.context, keys, command: o.command, primary: o.primary },
        ],
        None => Seq::empty(),
    }
}

/// Whatever list of overrides is applied: rows that none names stay, in
/// their order; a command named in a context has there exactly the one row
/// the last override that names it gives it, or none where that one unbinds
/// it; what is marked as overridden is what was, and what is named.
pub proof fn the_last_override_decides(map: SpecKeymap, overrides: Seq<SpecOverride>)
    ensures
        map.with_overrides(overrides).bindings.filter(unnamed(overrides)) == map.bindings.filter(
            unnamed(overrides),
        ),
        forall|context: Context, command: Command|
            (#[trigger] deciding(overrides, context, command)) is Some ==> map.with_overrides(
                overrides,
            ).bindings.filter(rows_at(context, command)) == overriding_rows(
                deciding(overrides, context, command)->0,
            ),
        forall|context: Context, command: Command|
            #[trigger] map.with_overrides(overrides).overridden.contains((context, command)) <==> (
            map.overridden.contains((context, command)) || deciding(overrides, context, command) is Some),
        map.with_overrides(overrides).leader == map.leader,
        map.with_overrides(overrides).groups == map.groups,
    decreases overrides.len(),
{
    if overrides.len() > 0 {
        let rest = overrides.drop_last();
        let o = overrides.last();
        let before = map.with_overrides(rest);
        let after = map.with_overrides(overrides);
        let others = before.bindings.filter(not_bound(o.context, o.command));
        let new = SpecBinding { context: o.context, keys: o.keys->0, command: o.command, primary: o.primary };
        the_last_override_decides(map, rest);
        // rows that no override names
        let free = unnamed(overrides);
        let free_before = unnamed(rest);
        assert(after.bindings.filter(free) == map.bindings.filter(free)) by {
            data::lemma_filter_both(before.bindings, not_bound(o.context, o.command), free);
            data::lemma_filter_both(before.bindings, free_before, free);
            data::lemma_filter_both(map.bindings, free_before, free);
            data::lemma_filter_alike(
                before.bindings,
                data::both(not_bound(o.context, o.command), free),
                data::both(free_before, free),
            );
            data::lemma_filter_alike(map.bindings, data::both(free_before, free), free);
            data::lemma_filter_last(others, new, free);
        }
        // rows that some override names
        assert forall|context: Context, command: Command|
            (#[trigger] deciding(overrides, context, command)) is Some implies after.bindings.filter(
            rows_at(context, command),
        ) == overriding_rows(deciding(overrides, context, command)->0) by {
            let at = rows_at(context, command);
            data::lemma_filter_both(before.bindings, not_bound(o.context, o.command), at);
            data::lemma_filter_last(others, new, at);
            if o.context == context && o.command == command {
                assert(others.filter(at) =~= Seq::empty()) by {
                    if others.filter(at).len() > 0 {
                        let x = others.filter(at)[0];
                        assert(others.filter(at).contains(x));
                        data::lemma_filter_has(others, at, x);
                        data::lemma_filter_has(before.bindings, not_bound(o.context, o.command), x);
                    }
                }
                assert(after.bindings.filter(at) =~= overriding_rows(o));
            } else {
                assert(deciding(rest, context, command) is Some);
                data::lemma_filter_alike(
                    before.bindings,
                    data::both(not_bound(o.context, o.command), at),
                    at,
                );
            }
        }
        // what is marked
        assert forall|context: Context, command: Command|
            #[trigger] after.overridden.contains((context, command)) <==> (map.overridden.contains(
                (context, command),
            ) || deciding(overrides, context, command) is Some) by {
            vstd::seq_lib::lemma_seq_contains_after_push(
                before.overridden,
                (o.context, o.command),
                (context, command),
            );
            assert(before.overridden.contains((context, command)) <==> (map.overridden.contains(
                (context, command),
            ) || deciding(rest, context, command) is Some));
        }
    }
}

// ---- configs --------------------------------------------------------------

/// The command an action of a config names.
pub open spec fn named(action: SpecActionKeys) -> Option<Command> {
    data::found(command::all_commands(), command::goes_by(command::normal_name(action.action)))
}

/// Every text reads as a sequence under `leader`.
pub open spec fn all_read(texts: Seq<Seq<char>>, leader: KeyChord) -> bool {
    forall|i: int| 0 <= i < texts.len() ==> (#[trigger] read_seq(texts[i], Some(leader))) is Ok
}

/// One action of one mode is in order: its name is a command's, the command
/// goes with the mode, and its sequences read.
pub open spec fn action_reads(mode: Mode, action: SpecActionKeys, leader: KeyChord) -> bool {
    named(action) is Some && command::command_modes(named(action)->0).contains(mode) && all_read(action.keys, leader)
}

pub open spec fn mode_reads(keys: SpecModeKeys, leader: KeyChord) -> bool {
    forall|i: int|
        0 <= i < keys.actions.len() ==> action_reads(keys.mode, #[trigger] keys.actions[i], leader)
}

pub open spec fn modes_read(modes: Seq<SpecModeKeys>, leader: KeyChord) -> bool {
    forall|i: int| 0 <= i < modes.len() ==> mode_reads(#[trigger] modes[i], leader)
}

pub open spec fn groups_read(groups: Seq<SpecGroupLabel>, leader: KeyChord) -> bool {
    forall|i: int|
        0 <= i < groups.len() ==> read_seq((#[trigger] groups[i]).prefix, Some(leader)) is Ok
}

/// `error` is what is wrong with one action of one mode.
pub open spec fn action_fault(mode: Mode, action: SpecActionKeys, leader: KeyChord, error: SpecKeysError) -> bool {
    match error {
        SpecKeysError::UnknownAction(name) => name == action.action && named(action) is None,
        SpecKeysError::WrongMode {
            action: name,
            mode: given,
            valid,
        } => name == action.action && given == mode
            && named(action) is Some && !command::command_modes(named(action)->0).contains(mode) && valid
            == mode_names(command::command_modes(named(action)->0)),
        SpecKeysError::BadKeys { action: name, source } => name == action.action && named(action) is Some
            && command::command_modes(named(action)->0).contains(mode) && unreadable(action.keys, leader, source),
        _ => false,
    }
}

/// `source` is why the first text that does not read under `leader` does not.
pub open spec fn unreadable(texts: Seq<Seq<char>>, leader: KeyChord, source: SpecKeyParseError) -> bool {
    exists|i: int|
        0 <= i < texts.len() && (#[trigger] read_seq(texts[i], Some(leader))) == Err::<SpecKeySeq, SpecKeyParseError>(
            source,
        ) && all_read(texts.take(i), leader)
}

pub open spec fn mode_fault(keys: SpecModeKeys, leader: KeyChord, error: SpecKeysError) -> bool {
    exists|i: int|
        0 <= i < keys.actions.len() && action_fault(keys.mode, #[trigger] keys.actions[i], leader, error)
}

pub open spec fn modes_fault(modes: Seq<SpecModeKeys>, leader: KeyChord, error: SpecKeysError) -> bool {
    exists|i: int| 0 <= i < modes.len() && mode_fault(#[trigger] modes[i], leader, error)
}

pub open spec fn group_fault(group: SpecGroupLabel, leader: KeyChord, error: SpecKeysError) -> bool {
    match error {
        SpecKeysError::BadGroup { prefix, source } => prefix == group.prefix && read_seq(prefix, Some(leader))
            == Err::<SpecKeySeq, SpecKeyParseError>(source),
        _ => false,
    }
}

pub open spec fn groups_fault(groups: Seq<SpecGroupLabel>, leader: KeyChord, error: SpecKeysError) -> bool {
    exists|i: int| 0 <= i < groups.len() && group_fault(#[trigger] groups[i], leader, error)
}

proof fn lemma_all_read_last(texts: Seq<Seq<char>>, leader: KeyChord)
    requires
        texts.len() > 0,
    ensures
        all_read(texts, leader) <==> all_read(texts.drop_last(), leader) && read_seq(texts.last(), Some(leader)) is Ok,
{
    let rest = texts.drop_last();
    if all_read(texts, leader) {
        assert forall|i: int| 0 <= i < rest.len() implies (#[trigger] read_seq(rest[i], Some(leader))) is Ok by {
            assert(rest[i] == texts[i]);
        }
        assert(read_seq(texts[texts.len() - 1], Some(leader)) is Ok);
    }
    if all_read(rest, leader) && read_seq(texts.last(), Some(leader)) is Ok {
        assert forall|i: int| 0 <= i < texts.len() implies (#[trigger] read_seq(texts[i], Some(leader))) is Ok by {
            if i < rest.len() {
                assert(rest[i] == texts[i]);
            }
        }
    }
}

proof fn lemma_read_seqs(texts: Seq<Seq<char>>, leader: KeyChord)
    ensures
        read_seqs(texts, leader) is Ok <==> all_read(texts, leader),
        read_seqs(texts, leader) is Err ==> unreadable(texts, leader, read_seqs(texts, leader)->Err_0),
    decreases texts.len(),
{
    if texts.len() > 0 {
        let rest = texts.drop_last();
        lemma_read_seqs(rest, leader);
        lemma_all_read_last(texts, leader);
        match read_seqs(rest, leader) {
            Err(source) => {
                let i = choose|i: int|
                    0 <= i < rest.len() && (#[trigger] read_seq(rest[i], Some(leader))) == Err::<
                        SpecKeySeq,
                        SpecKeyParseError,
                    >(source) && all_read(rest.take(i), leader);
                assert(rest[i] == texts[i]);
                assert(rest.take(i) =~= texts.take(i));
                assert(read_seq(texts[i], Some(leader)) is Err);
            },
            Ok(_) => {
                let last = texts.len() - 1;
                assert(texts.take(last) =~= rest);
                assert(texts[last] == texts.last());
                if read_seq(texts[last], Some(leader)) is Err {
                    assert(unreadable(texts, leader, read_seq(texts[last], Some(leader))->Err_0));
                }
            },
        }
    }
}

proof fn lemma_with_action(map: SpecKeymap, mode: Mode, action: SpecActionKeys)
    ensures
        match map.with_action(mode, action) {
            Ok(r) => action_reads(mode, action, map.leader) && r.leader == map.leader && r.groups == map.groups,
            Err(e) => !action_reads(mode, action, map.leader) && action_fault(mode, action, map.leader, e),
        },
{
    reveal(SpecKeymap::with_action);
    lemma_read_seqs(action.keys, map.leader);
}

proof fn lemma_with_actions(map: SpecKeymap, mode: Mode, actions: Seq<SpecActionKeys>)
    ensures
        match map.with_actions(mode, actions) {
            Ok(r) => mode_reads(
                SpecModeKeys { mode, actions },
                map.leader,
            ) && r.leader == map.leader && r.groups
                == map.groups,
            Err(e) => !mode_reads(SpecModeKeys { mode, actions }, map.leader) && mode_fault(
                SpecModeKeys { mode, actions },
                map.leader,
                e,
            ),
        },
    decreases actions.len(),
{
    if actions.len() > 0 {
        let rest = actions.drop_last();
        let all = SpecModeKeys { mode, actions };
        let some = SpecModeKeys { mode, actions: rest };
        lemma_with_actions(map, mode, rest);
        assert(forall|i: int| 0 <= i < rest.len() ==> #[trigger] some.actions[i] == all.actions[i]);
        assert(all.actions[actions.len() - 1] == actions.last());
        match map.with_actions(mode, rest) {
            Err(e) => {
                let i = choose|i: int|
                    0 <= i < rest.len() && action_fault(mode, #[trigger] some.actions[i], map.leader, e);
                assert(action_fault(mode, all.actions[i], map.leader, e));
                let j = choose|j: int|
                    0 <= j < rest.len() && !action_reads(mode, #[trigger] some.actions[j], map.leader);
                assert(!action_reads(mode, all.actions[j], map.leader));
            },
            Ok(before) => {
                lemma_with_action(before, mode, actions.last());
                assert forall|i: int| 0 <= i < rest.len() implies action_reads(
                    mode,
                    #[trigger] all.actions[i],
                    map.leader,
                ) by {
                    assert(some.actions[i] == all.actions[i]);
                }
            },
        }
    }
}

proof fn lemma_with_modes(map: SpecKeymap, modes: Seq<SpecModeKeys>)
    ensures
        match map.with_modes(modes) {
            Ok(r) => modes_read(modes, map.leader) && r.leader == map.leader && r.groups == map.groups,
            Err(e) => !modes_read(modes, map.leader) && modes_fault(modes, map.leader, e),
        },
    decreases modes.len(),
{
    if modes.len() > 0 {
        let rest = modes.drop_last();
        lemma_with_modes(map, rest);
        assert(forall|i: int| 0 <= i < rest.len() ==> #[trigger] rest[i] == modes[i]);
        assert(modes[modes.len() - 1] == modes.last());
        match map.with_modes(rest) {
            Err(e) => {
                let i = choose|i: int| 0 <= i < rest.len() && mode_fault(#[trigger] rest[i], map.leader, e);
                assert(mode_fault(modes[i], map.leader, e));
                let j = choose|j: int| 0 <= j < rest.len() && !mode_reads(#[trigger] rest[j], map.leader);
                assert(!mode_reads(modes[j], map.leader));
            },
            Ok(before) => {
                let last = modes.last();
                lemma_with_actions(before, last.mode, last.actions);
                assert(SpecModeKeys { mode: last.mode, actions: last.actions } == last);
                assert forall|i: int| 0 <= i < rest.len() implies mode_reads(#[trigger] modes[i], map.leader) by {
                    assert(rest[i] == modes[i]);
                }
            },
        }
    }
}

proof fn lemma_with_groups(map: SpecKeymap, groups: Seq<SpecGroupLabel>)
    ensures
        match map.with_groups(groups) {
            Ok(r) => groups_read(groups, map.leader) && r.leader == map.leader && r.bindings == map.bindings
                && r.overridden == map.overridden,
            Err(e) => !groups_read(groups, map.leader) && groups_fault(groups, map.leader, e),
        },
    decreases groups.len(),
{
    if groups.len() > 0 {
        let rest = groups.drop_last();
        lemma_with_groups(map, rest);
        assert(forall|i: int| 0 <= i < rest.len() ==> #[trigger] rest[i] == groups[i]);
        assert(groups[groups.len() - 1] == groups.last());
        match map.with_groups(rest) {
            Err(e) => {
                let i = choose|i: int| 0 <= i < rest.len() && group_fault(#[trigger] rest[i], map.leader, e);
                assert(rest[i] == groups[i]);
                assert(read_seq(groups[i].prefix, Some(map.leader)) is Err);
            },
            Ok(before) => {
                assert forall|i: int| 0 <= i < rest.len() implies read_seq(
                    (#[trigger] groups[i]).prefix,
                    Some(map.leader),
                ) is Ok by {
                    assert(rest[i] == groups[i]);
                }
            },
        }
    }
}

/// A config is accepted exactly where its leader is one chord or absent,
/// every action it lists is named like a command that goes with the mode it
/// is listed under and has only sequences that read under the leader, and
/// every group's prefix reads. What is refused is refused for a fault it has:
/// first the leader's, then an action's, then a group's.
pub proof fn configs_are_accepted_or_name_their_fault(config: SpecKeysConfig)
    ensures
        SpecKeymap::configured(config) is Ok <==> leader_of(config) is Ok && modes_read(
            config.bindings,
            leader_of(config)->Ok_0,
        ) && groups_read(config.groups, leader_of(config)->Ok_0),
        match SpecKeymap::configured(config) {
            Ok(map) => map.leader == leader_of(config)->Ok_0,
            Err(e) => match leader_of(config) {
                Err(fault) => e == fault,
                Ok(leader) => if modes_read(config.bindings, leader) {
                    groups_fault(config.groups, leader, e)
                } else {
                    modes_fault(config.bindings, leader, e)
                },
            },
        },
{
    match leader_of(config) {
        Err(_) => {},
        Ok(leader) => {
            let map = SpecKeymap::default_with(leader);
            lemma_with_modes(map, config.bindings);
            match map.with_modes(config.bindings) {
                Err(_) => {},
                Ok(before) => {
                    lemma_with_groups(before, config.groups);
                },
            }
        },
    }
}

// ---- conflicts ------------------------------------------------------------

/// The shorter of the sequences of two rows.
pub open spec fn shorter(a: SpecBinding, b: SpecBinding) -> SpecKeySeq {
    if a.keys.chords.len() <= b.keys.chords.len() {
        a.keys
    } else {
        b.keys
    }
}

/// The pair is what a conflict of `context` under `keys` is about.
pub open spec fn about(pair: (SpecBinding, SpecBinding), context: Context, keys: SpecKeySeq) -> bool {
    pair.0.context == context && pair.1.context == context && shorter(pair.0, pair.1) == keys
}

/// The pair is about that conflict and `command` is one of its commands.
pub open spec fn brings(
    pair: (SpecBinding, SpecBinding),
    context: Context,
    keys: SpecKeySeq,
    command: Command,
) -> bool {
    about(pair, context, keys) && (pair.0.command == command || pair.1.command == command)
}

/// `out` holds one conflict per context and sequence that `pairs` are about,
/// with the commands of those pairs, each once.
pub open spec fn covers(out: Seq<SpecConflict>, pairs: Set<(SpecBinding, SpecBinding)>) -> bool {
    &&& forall|i: int, j: int|
        0 <= i < j < out.len() ==> !((#[trigger] out[i]).context == (#[trigger] out[j]).context && out[i].keys
            == out[j].keys)
    &&& forall|i: int|
        0 <= i < out.len() ==> (#[trigger] out[i]).commands.no_duplicates() && exists|pair: (SpecBinding, SpecBinding)|
            #[trigger] pairs.contains(pair) && about(pair, out[i].context, out[i].keys)
    &&& forall|i: int, command: Command|
        0 <= i < out.len() ==> (#[trigger] out[i].commands.contains(command) <==> exists|
            pair: (SpecBinding, SpecBinding),
        | #[trigger] pairs.contains(pair) && brings(pair, out[i].context, out[i].keys, command))
    &&& forall|pair: (SpecBinding, SpecBinding)| #[trigger]
        pairs.contains(pair) ==> data::some_where(out, conflict_on(pair.0.context, shorter(pair.0, pair.1)))
}

proof fn lemma_with_command(commands: Seq<Command>, command: Command)
    requires
        commands.no_duplicates(),
    ensures
        with_command(commands, command).no_duplicates(),
        forall|c: Command| #[trigger]
            with_command(commands, command).contains(c) <==> commands.contains(c) || c == command,
{
    assert forall|c: Command| #[trigger] with_command(commands, command).contains(c) <==> commands.contains(c) || c
        == command by {
        if !commands.contains(command) {
            vstd::seq_lib::lemma_seq_contains_after_push(commands, command, c);
        }
    }
}

proof fn lemma_noted(
    out: Seq<SpecConflict>,
    pairs: Set<(SpecBinding, SpecBinding)>,
    a: SpecBinding,
    b: SpecBinding,
)
    requires
        covers(out, pairs),
        a.context == b.context,
        a.command != b.command,
    ensures
        covers(noted(out, a, b), pairs.insert((a, b))),
{
    let keys = shorter(a, b);
    let context = a.context;
    let new = noted(out, a, b);
    let more = pairs.insert((a, b));
    let here = conflict_on(context, keys);
    assert(about((a, b), context, keys));
    assert(more.contains((a, b)));
    assert(forall|pair: (SpecBinding, SpecBinding)| #[trigger] pairs.contains(pair) ==> more.contains(pair));
    data::lemma_first_where(out, here);
    match data::first_where(out, here) {
        Some(k) => {
            assert(here(out[k]));
            lemma_with_command(out[k].commands, a.command);
            lemma_with_command(with_command(out[k].commands, a.command), b.command);
            assert forall|i: int, command: Command| 0 <= i < new.len() implies (
            #[trigger] new[i].commands.contains(command) <==> exists|pair: (SpecBinding, SpecBinding)| #[trigger]
                more.contains(pair) && brings(pair, new[i].context, new[i].keys, command)) by {
                let had = exists|pair: (SpecBinding, SpecBinding)| #[trigger]
                    pairs.contains(pair) && brings(pair, out[i].context, out[i].keys, command);
                assert(out[i].commands.contains(command) <==> had);
                if i == k {
                    if new[i].commands.contains(command) {
                        if had {
                            let pair = choose|pair: (SpecBinding, SpecBinding)| #[trigger]
                                pairs.contains(pair) && brings(pair, out[i].context, out[i].keys, command);
                            assert(more.contains(pair));
                        } else {
                            assert(brings((a, b), new[i].context, new[i].keys, command));
                        }
                    }
                } else {
                    assert(new[i] == out[i]);
                    if i < k {
                        assert(!here(out[i]));
                    } else {
                        assert(!(out[k].context == out[i].context && out[k].keys == out[i].keys));
                    }
                    assert(!about((a, b), new[i].context, new[i].keys));
                    if had {
                        let pair = choose|pair: (SpecBinding, SpecBinding)| #[trigger]
                            pairs.contains(pair) && brings(pair, out[i].context, out[i].keys, command);
                        assert(more.contains(pair));
                    }
                }
            }
            assert forall|i: int| 0 <= i < new.len() implies (#[trigger] new[i]).commands.no_duplicates() && exists|
                pair: (SpecBinding, SpecBinding),
            | #[trigger] more.contains(pair) && about(pair, new[i].context, new[i].keys) by {
                let pair = choose|pair: (SpecBinding, SpecBinding)| #[trigger]
                    pairs.contains(pair) && about(pair, out[i].context, out[i].keys);
                assert(out[i].commands.no_duplicates());
                assert(more.contains(pair));
            }
            assert forall|pair: (SpecBinding, SpecBinding)| #[trigger] more.contains(pair) implies data::some_where(
                new,
                conflict_on(pair.0.context, shorter(pair.0, pair.1)),
            ) by {
                let wanted = conflict_on(pair.0.context, shorter(pair.0, pair.1));
                if pair == (a, b) {
                    assert(wanted(new[k]));
                } else {
                    let i = choose|i: int| 0 <= i < out.len() && #[trigger] wanted(out[i]);
                    assert(wanted(new[i]));
                }
            }
        },
        None => {
            let n = out.len() as int;
            assert(new[n].commands =~= seq![a.command, b.command]);
            assert(forall|i: int| 0 <= i < n ==> new[i] == out[i] && !#[trigger] here(out[i]));
            assert forall|i: int, command: Command| 0 <= i < new.len() implies (
            #[trigger] new[i].commands.contains(command) <==> exists|pair: (SpecBinding, SpecBinding)| #[trigger]
                more.contains(pair) && brings(pair, new[i].context, new[i].keys, command)) by {
                if i < n {
                    let had = exists|pair: (SpecBinding, SpecBinding)| #[trigger]
                        pairs.contains(pair) && brings(pair, out[i].context, out[i].keys, command);
                    assert(out[i].commands.contains(command) <==> had);
                    assert(!here(out[i]));
                    assert(!about((a, b), new[i].context, new[i].keys));
                    if had {
                        let pair = choose|pair: (SpecBinding, SpecBinding)| #[trigger]
                            pairs.contains(pair) && brings(pair, out[i].context, out[i].keys, command);
                        assert(more.contains(pair));
                    }
                } else {
                    let has = exists|pair: (SpecBinding, SpecBinding)| #[trigger]
                        more.contains(pair) && brings(pair, context, keys, command);
                    if has {
                        let pair = choose|pair: (SpecBinding, SpecBinding)| #[trigger]
                            more.contains(pair) && brings(pair, context, keys, command);
                        if pair != (a, b) {
                            assert(pairs.contains(pair));
                            let i = choose|i: int| 0 <= i < out.len() && #[trigger] here(out[i]);
                            assert(false);
                        }
                        assert(new[n].commands[0] == a.command && new[n].commands[1] == b.command);
                    }
                    if new[n].commands.contains(command) {
                        assert(brings((a, b), context, keys, command));
                        assert(has);
                    }
                }
            }
            assert forall|i: int| 0 <= i < new.len() implies (#[trigger] new[i]).commands.no_duplicates() && exists|
                pair: (SpecBinding, SpecBinding),
            | #[trigger] more.contains(pair) && about(pair, new[i].context, new[i].keys) by {
                if i < n {
                    let pair = choose|pair: (SpecBinding, SpecBinding)| #[trigger]
                        pairs.contains(pair) && about(pair, out[i].context, out[i].keys);
                    assert(out[i].commands.no_duplicates());
                    assert(more.contains(pair));
                }
            }
            assert forall|pair: (SpecBinding, SpecBinding)| #[trigger] more.contains(pair) implies data::some_where(
                new,
                conflict_on(pair.0.context, shorter(pair.0, pair.1)),
            ) by {
                let wanted = conflict_on(pair.0.context, shorter(pair.0, pair.1));
                if pair == (a, b) {
                    assert(wanted(new[n]));
                } else {
                    let i = choose|i: int| 0 <= i < out.len() && #[trigger] wanted(out[i]);
                    assert(wanted(new[i]));
                }
            }
            assert forall|i: int, j: int| 0 <= i < j < new.len() implies !((#[trigger] new[i]).context
                == (#[trigger] new[j]).context && new[i].keys == new[j].keys) by {
                if j == n {
                    assert(!here(out[i]));
                }
            }
        },
    }
}

/// The pairs of `a` with those of `rows` it clashes with.
pub open spec fn pairs_with(a: SpecBinding, rows: Seq<SpecBinding>) -> Set<(SpecBinding, SpecBinding)> {
    Set::new(|pair: (SpecBinding, SpecBinding)| pair.0 == a && rows.contains(pair.1) && clash(a, pair.1))
}

proof fn lemma_noted_all(
    out: Seq<SpecConflict>,
    pairs: Set<(SpecBinding, SpecBinding)>,
    a: SpecBinding,
    rows: Seq<SpecBinding>,
)
    requires
        covers(out, pairs),
        forall|i: int| 0 <= i < rows.len() ==> (#[trigger] rows[i]).context == a.context,
    ensures
        covers(noted_all(out, a, rows), pairs.union(pairs_with(a, rows))),
    decreases rows.len(),
{
    let all = pairs.union(pairs_with(a, rows));
    if rows.len() == 0 {
        assert(all =~= pairs);
    } else {
        let rest = rows.drop_last();
        let last = rows.last();
        let before = pairs.union(pairs_with(a, rest));
        lemma_noted_all(out, pairs, a, rest);
        assert(rest.push(last) =~= rows);
        assert forall|b: SpecBinding| #[trigger] rows.contains(b) <==> rest.contains(b) || b == last by {
            vstd::seq_lib::lemma_seq_contains_after_push(rest, last, b);
        }
        if clash(a, last) {
            lemma_noted(noted_all(out, a, rest), before, a, last);
            assert(all =~= before.insert((a, last)));
        } else {
            assert(all =~= before);
        }
    }
}

/// The clashing pairs whose first row is one of the first `n` of `rows` and
/// whose second follows it.
pub open spec fn pairs_within(rows: Seq<SpecBinding>, n: nat) -> Set<(SpecBinding, SpecBinding)>
    decreases n,
{
    if n == 0 || n > rows.len() {
        Set::empty()
    } else {
        pairs_within(rows, (n - 1) as nat).union(pairs_with(rows[n - 1], rows.skip(n as int)))
    }
}

proof fn lemma_noted_within(
    out: Seq<SpecConflict>,
    pairs: Set<(SpecBinding, SpecBinding)>,
    rows: Seq<SpecBinding>,
    context: Context,
    n: nat,
)
    requires
        covers(out, pairs),
        n <= rows.len(),
        forall|i: int| 0 <= i < rows.len() ==> (#[trigger] rows[i]).context == context,
    ensures
        covers(noted_within(out, rows, n), pairs.union(pairs_within(rows, n))),
    decreases n,
{
    if n == 0 {
        assert(pairs.union(pairs_within(rows, n)) =~= pairs);
    } else {
        let m = (n - 1) as nat;
        let after = rows.skip(n as int);
        lemma_noted_within(out, pairs, rows, context, m);
        lemma_noted_all(noted_within(out, rows, m), pairs.union(pairs_within(rows, m)), rows[n - 1], after);
        assert(pairs.union(pairs_within(rows, n)) =~= pairs.union(pairs_within(rows, m)).union(
            pairs_with(rows[n - 1], after),
        ));
    }
}

/// Which pairs those are: one row, and a later one it clashes with.
proof fn lemma_pairs_within(rows: Seq<SpecBinding>, n: nat, pair: (SpecBinding, SpecBinding))
    requires
        n <= rows.len(),
    ensures
        pairs_within(rows, n).contains(pair) <==> clash(pair.0, pair.1) && exists|i: int, j: int|
            0 <= i < j < rows.len() && i < n && pair.0 == #[trigger] rows[i] && pair.1 == #[trigger] rows[j],
    decreases n,
{
    if n > 0 {
        let m = (n - 1) as nat;
        let after = rows.skip(n as int);
        lemma_pairs_within(rows, m, pair);
        if pairs_with(rows[n - 1], after).contains(pair) {
            let k = choose|k: int| 0 <= k < after.len() && after[k] == pair.1;
            assert(rows[n + k] == pair.1);
        }
        if clash(pair.0, pair.1) && exists|i: int, j: int|
            0 <= i < j < rows.len() && i < n && pair.0 == #[trigger] rows[i] && pair.1 == #[trigger] rows[j] {
            let (i, j) = choose|i: int, j: int|
                0 <= i < j < rows.len() && i < n && pair.0 == #[trigger] rows[i] && pair.1 == #[trigger] rows[j];
            if i == m {
                assert(after[j - n] == pair.1);
            }
        }
    }
}

/// Two rows of the table clash: same context, different commands, and the
/// keys of one are the start of those of the other or the same.
pub open spec fn clashing(bindings: Seq<SpecBinding>, a: SpecBinding, b: SpecBinding) -> bool {
    bindings.contains(a) && bindings.contains(b) && a.context == b.context && clash(a, b)
}

/// The pairs found in one context: rows of it that clash, each two of them in
/// one order or the other.
proof fn lemma_pairs_of_context(bindings: Seq<SpecBinding>, context: Context)
    ensures
        ({
            let rows = bindings.filter(in_context(context));
            let pairs = pairs_within(rows, rows.len());
            &&& forall|pair: (SpecBinding, SpecBinding)| #[trigger]
                pairs.contains(pair) ==> pair.0.context == context && clashing(bindings, pair.0, pair.1)
            &&& forall|a: SpecBinding, b: SpecBinding|
                a.context == context && #[trigger] clashing(bindings, a, b) ==> pairs.contains((a, b))
                    || pairs.contains((b, a))
        }),
{
    let here = in_context(context);
    let rows = bindings.filter(here);
    let pairs = pairs_within(rows, rows.len());
    assert forall|pair: (SpecBinding, SpecBinding)| #[trigger] pairs.contains(pair) implies pair.0.context == context
        && clashing(bindings, pair.0, pair.1) by {
        lemma_pairs_within(rows, rows.len(), pair);
        data::lemma_filter_has(bindings, here, pair.0);
        data::lemma_filter_has(bindings, here, pair.1);
    }
    assert forall|a: SpecBinding, b: SpecBinding|
        a.context == context && #[trigger] clashing(bindings, a, b) implies pairs.contains((a, b)) || pairs.contains(
        (b, a),
    ) by {
        data::lemma_filter_has(bindings, here, a);
        data::lemma_filter_has(bindings, here, b);
        let i = choose|i: int| 0 <= i < rows.len() && rows[i] == a;
        let j = choose|j: int| 0 <= j < rows.len() && rows[j] == b;
        lemma_pairs_within(rows, rows.len(), (a, b));
        lemma_pairs_within(rows, rows.len(), (b, a));
        assert(rows[i] == a && rows[j] == b);
        assert(i != j);
    }
}

proof fn lemma_conflicts_in(bindings: Seq<SpecBinding>, contexts: Seq<Context>) -> (pairs: Set<
    (SpecBinding, SpecBinding),
>)
    ensures
        covers(conflicts_in(bindings, contexts), pairs),
        forall|pair: (SpecBinding, SpecBinding)| #[trigger]
            pairs.contains(pair) ==> clashing(bindings, pair.0, pair.1),
        forall|a: SpecBinding, b: SpecBinding|
            contexts.contains(a.context) && #[trigger] clashing(bindings, a, b) ==> pairs.contains((a, b))
                || pairs.contains((b, a)),
    decreases contexts.len(),
{
    if contexts.len() == 0 {
        Set::empty()
    } else {
        let rest = contexts.drop_last();
        let last = contexts.last();
        let rows = bindings.filter(in_context(last));
        let before = lemma_conflicts_in(bindings, rest);
        assert forall|i: int| 0 <= i < rows.len() implies (#[trigger] rows[i]).context == last by {
            assert(rows.contains(rows[i]));
            data::lemma_filter_has(bindings, in_context(last), rows[i]);
        }
        lemma_noted_within(conflicts_in(bindings, rest), before, rows, last, rows.len());
        lemma_pairs_of_context(bindings, last);
        assert(rest.push(last) =~= contexts);
        assert forall|a: SpecBinding, b: SpecBinding|
            contexts.contains(a.context) && #[trigger] clashing(bindings, a, b) implies before.union(
            pairs_within(rows, rows.len()),
        ).contains((a, b)) || before.union(pairs_within(rows, rows.len())).contains((b, a)) by {
            vstd::seq_lib::lemma_seq_contains_after_push(rest, last, a.context);
        }
        before.union(pairs_within(rows, rows.len()))
    }
}

proof fn lemma_all_contexts(context: Context)
    ensures
        command::all_contexts().contains(context),
{
    let all = command::all_contexts();
    match context {
        Context::Global => assert(all[0] == context),
        Context::ReviewList => assert(all[1] == context),
        Context::Tree => assert(all[2] == context),
        Context::Diff => assert(all[3] == context),
        Context::Thread => assert(all[4] == context),
        Context::Requests => assert(all[5] == context),
        Context::Composer => assert(all[6] == context),
        Context::CommitStepper => assert(all[7] == context),
        Context::Help => assert(all[8] == context),
    }
}

/// Two clashing rows have one shorter sequence, whichever is named first.
proof fn lemma_shorter(a: SpecBinding, b: SpecBinding)
    requires
        clash(a, b),
    ensures
        shorter(a, b) == shorter(b, a),
        clash(b, a),
{
    if a.keys.chords.len() == b.keys.chords.len() {
        assert(a.keys.chords =~= b.keys.chords);
    }
}

/// Two rows of that context that clash with `keys` as the shorter sequence.
pub open spec fn clash_on(
    bindings: Seq<SpecBinding>,
    context: Context,
    keys: SpecKeySeq,
    a: SpecBinding,
    b: SpecBinding,
) -> bool {
    clashing(bindings, a, b) && a.context == context && shorter(a, b) == keys
}

/// The conflicts reported are exactly those of the table: one per context and
/// sequence that is the shorter one of two clashing rows there; it lists,
/// each once, the commands of all such rows; and there is none exactly where
/// no two rows clash.
pub proof fn conflicts_are_the_clashing_rows(map: SpecKeymap)
    ensures
        forall|i: int, j: int|
            0 <= i < j < map.conflicts().len() ==> !((#[trigger] map.conflicts()[i]).context == (
            #[trigger] map.conflicts()[j]).context && map.conflicts()[i].keys == map.conflicts()[j].keys),
        forall|i: int|
            0 <= i < map.conflicts().len() ==> (#[trigger] map.conflicts()[i]).commands.no_duplicates(),
        forall|i: int, command: Command|
            0 <= i < map.conflicts().len() ==> (#[trigger] map.conflicts()[i].commands.contains(command) <==> exists|
                a: SpecBinding,
                b: SpecBinding,
            | #[trigger]
                clash_on(map.bindings, map.conflicts()[i].context, map.conflicts()[i].keys, a, b) && a.command
                    == command),
        forall|context: Context, keys: SpecKeySeq| #[trigger]
            data::some_where(map.conflicts(), conflict_on(context, keys)) <==> exists|
                a: SpecBinding,
                b: SpecBinding,
            | #[trigger] clash_on(map.bindings, context, keys, a, b),
        map.conflicts().len() == 0 <==> forall|a: SpecBinding, b: SpecBinding| !#[trigger]
            clashing(map.bindings, a, b),
{
    let out = map.conflicts();
    let bindings = map.bindings;
    let pairs = lemma_conflicts_in(bindings, command::all_contexts());
    assert forall|a: SpecBinding, b: SpecBinding| #[trigger] clashing(bindings, a, b) implies (pairs.contains((a, b))
        || pairs.contains((b, a))) && shorter(a, b) == shorter(b, a) && clashing(bindings, b, a) by {
        lemma_all_contexts(a.context);
        lemma_shorter(a, b);
    }
    assert forall|i: int, command: Command| 0 <= i < out.len() implies (#[trigger] out[i].commands.contains(command)
        <==> exists|a: SpecBinding, b: SpecBinding| #[trigger]
        clash_on(bindings, out[i].context, out[i].keys, a, b) && a.command == command) by {
        let context = out[i].context;
        let keys = out[i].keys;
        if out[i].commands.contains(command) {
            let pair = choose|pair: (SpecBinding, SpecBinding)| #[trigger]
                pairs.contains(pair) && brings(pair, context, keys, command);
            assert(clashing(bindings, pair.0, pair.1));
            assert(clash_on(bindings, context, keys, pair.0, pair.1));
            assert(clash_on(bindings, context, keys, pair.1, pair.0));
        }
        if exists|a: SpecBinding, b: SpecBinding| #[trigger]
            clash_on(bindings, context, keys, a, b) && a.command == command {
            let (a, b) = choose|a: SpecBinding, b: SpecBinding| #[trigger]
                clash_on(bindings, context, keys, a, b) && a.command == command;
            assert(clashing(bindings, a, b));
            if pairs.contains((a, b)) {
                assert(brings((a, b), context, keys, command));
            } else {
                assert(brings((b, a), context, keys, command));
            }
        }
    }
    assert forall|context: Context, keys: SpecKeySeq| #[trigger]
        data::some_where(
            out,
            conflict_on(context, keys),
        ) <==> exists|a: SpecBinding, b: SpecBinding| #[trigger]
        clash_on(bindings, context, keys, a, b) by {
        let here = conflict_on(context, keys);
        if data::some_where(out, here) {
            let i = choose|i: int| 0 <= i < out.len() && #[trigger] here(out[i]);
            let pair = choose|pair: (SpecBinding, SpecBinding)| #[trigger]
                pairs.contains(pair) && about(pair, out[i].context, out[i].keys);
            assert(clash_on(bindings, context, keys, pair.0, pair.1));
        }
        if exists|a: SpecBinding, b: SpecBinding| #[trigger] clash_on(bindings, context, keys, a, b) {
            let (a, b) = choose|a: SpecBinding, b: SpecBinding| #[trigger] clash_on(bindings, context, keys, a, b);
            assert(clashing(bindings, a, b));
        }
    }
    if out.len() == 0 {
        assert forall|a: SpecBinding, b: SpecBinding| !#[trigger] clashing(bindings, a, b) by {
            if clashing(bindings, a, b) {
                assert(clash_on(bindings, a.context, shorter(a, b), a, b));
                assert(data::some_where(out, conflict_on(a.context, shorter(a, b))));
            }
        }
    } else {
        let here = conflict_on(out[0].context, out[0].keys);
        assert(here(out[0]));
        assert(data::some_where(out, here));
        let (a, b) = choose|a: SpecBinding, b: SpecBinding| #[trigger]
            clash_on(bindings, out[0].context, out[0].keys, a, b);
        assert(clashing(bindings, a, b));
    }
}

// ---- the built-in table ---------------------------------------------------

broadcast proof fn lemma_some_row(rows: Seq<SpecBinding>, row: SpecBinding, p: spec_fn(SpecBinding) -> bool)
    ensures
        #[trigger] data::some_where(rows.push(row), p) == (data::some_where(rows, p) || p(row)),
{
    let all = rows.push(row);
    if data::some_where(rows, p) {
        let i = choose|i: int| 0 <= i < rows.len() && #[trigger] p(rows[i]);
        assert(p(all[i]));
    }
    if p(row) {
        assert(p(all[rows.len() as int]));
    }
    if data::some_where(all, p) {
        let i = choose|i: int| 0 <= i < all.len() && #[trigger] p(all[i]);
        if i < rows.len() {
            assert(p(rows[i]));
        }
    }
}

proof fn lemma_with_global(table: Seq<SpecBinding>, leader: KeyChord, p: spec_fn(SpecBinding) -> bool)
    ensures
        data::some_where(table, p) ==> data::some_where(keytable::with_global(table, leader), p),
        p == primary_in(Context::Global, Command::ToggleHelp) ==> data::some_where(
            keytable::with_global(table, leader),
            p,
        ),
        forall|c: Command|
            p == #[trigger] row_of(c) && (
                c == Command::NextFile || c == Command::PrevFile || c == Command::NextPanel
                || c == Command::FileSearch || c == Command::ToggleLayout
                || c == Command::ToggleWhitespace || c == Command::ToggleHelp || c == Command::TabFiles
                || c == Command::TabConversation || c == Command::TabBrowse
                || c == Command::ContentSearch || c == Command::ActionPalette || c == Command::FocusTree
                || c == Command::FocusDiff || c == Command::FocusThreads || c == Command::FocusRequests
                || c == Command::FocusCommits
            ) ==> data::some_where(
                keytable::with_global(table, leader),
                p,
            ),
{
    broadcast use lemma_some_row;

}

proof fn lemma_with_leader_tree(table: Seq<SpecBinding>, leader: KeyChord, p: spec_fn(SpecBinding) -> bool)
    ensures
        data::some_where(table, p) ==> data::some_where(keytable::with_leader_tree(table, leader), p),
        forall|c: Command|
            p == #[trigger] row_of(c) && (
                c == Command::Back || c == Command::ReviewFinding || c == Command::InformationalNote
                || c == Command::ToggleSidebar || c == Command::Connect || c == Command::Disconnect
                || c == Command::Commits || c == Command::ScopeAll || c == Command::ScopeByCommit
                || c == Command::ScopeWorktree || c == Command::GoHome || c == Command::CheckCurrent
                || c == Command::CheckRequested || c == Command::CheckpointDelta
            ) ==> data::some_where(
                keytable::with_leader_tree(table, leader),
                p,
            ),
{
    broadcast use lemma_some_row;

}

proof fn lemma_with_review_list(table: Seq<SpecBinding>, leader: KeyChord, p: spec_fn(SpecBinding) -> bool)
    ensures
        data::some_where(table, p) ==> data::some_where(keytable::with_review_list(table, leader), p),
        forall|c: Command|
            p == #[trigger] row_of(c) && (
                c == Command::MoveDown || c == Command::MoveUp || c == Command::GoTop
                || c == Command::GoBottom || c == Command::Open || c == Command::CopyCheckout
                || c == Command::NewReview || c == Command::Refresh
            ) ==> data::some_where(
                keytable::with_review_list(table, leader),
                p,
            ),
{
    broadcast use lemma_some_row;

}

proof fn lemma_with_tree(table: Seq<SpecBinding>, leader: KeyChord, p: spec_fn(SpecBinding) -> bool)
    ensures
        data::some_where(table, p) ==> data::some_where(keytable::with_tree(table, leader), p),
        forall|c: Command|
            p == #[trigger] row_of(c) && (
                c == Command::NextHunk || c == Command::PrevHunk || c == Command::ToggleViewed
                || c == Command::Comment || c == Command::CopyPath || c == Command::CollapseParent
                || c == Command::CollapseAll
            ) ==> data::some_where(
                keytable::with_tree(table, leader),
                p,
            ),
{
    broadcast use lemma_some_row;

}

proof fn lemma_with_diff(table: Seq<SpecBinding>, leader: KeyChord, p: spec_fn(SpecBinding) -> bool)
    ensures
        data::some_where(table, p) ==> data::some_where(keytable::with_diff(table, leader), p),
        forall|c: Command|
            p == #[trigger] row_of(c) && (
                c == Command::PageDown || c == Command::PageUp || c == Command::NextComment
                || c == Command::PrevComment || c == Command::ExpandContext
                || c == Command::ToggleFileCollapse || c == Command::ExpandFile
                || c == Command::VisualMode || c == Command::ExpandUp || c == Command::ExpandDown
                || c == Command::CommentOnFile || c == Command::SideBase || c == Command::SideHead
                || c == Command::CenterView || c == Command::ViewTop || c == Command::ViewBottom
            ) ==> data::some_where(
                keytable::with_diff(table, leader),
                p,
            ),
{
    broadcast use lemma_some_row;

}

proof fn lemma_with_requests(table: Seq<SpecBinding>, leader: KeyChord, p: spec_fn(SpecBinding) -> bool)
    ensures
        data::some_where(table, p) ==> data::some_where(keytable::with_requests(table, leader), p),
{
    broadcast use lemma_some_row;

}

proof fn lemma_with_thread(table: Seq<SpecBinding>, leader: KeyChord, p: spec_fn(SpecBinding) -> bool)
    ensures
        data::some_where(table, p) ==> data::some_where(keytable::with_thread(table, leader), p),
        forall|c: Command|
            p == #[trigger] row_of(c) && (
                c == Command::Reply || c == Command::Delete || c == Command::ApplySuggestion
                || c == Command::ToggleResolved || c == Command::DeferFinding
                || c == Command::CopyReference || c == Command::NextReply || c == Command::PrevReply
            ) ==> data::some_where(
                keytable::with_thread(table, leader),
                p,
            ),
{
    broadcast use lemma_some_row;

}

proof fn lemma_with_composer(table: Seq<SpecBinding>, leader: KeyChord, p: spec_fn(SpecBinding) -> bool)
    ensures
        data::some_where(table, p) ==> data::some_where(keytable::with_composer(table, leader), p),
        forall|c: Command|
            p == #[trigger] row_of(c) && (c == Command::Submit) ==> data::some_where(
                keytable::with_composer(table, leader),
                p,
            ),
{
    broadcast use lemma_some_row;

}

proof fn lemma_with_commit_stepper(table: Seq<SpecBinding>, leader: KeyChord, p: spec_fn(SpecBinding) -> bool)
    ensures
        data::some_where(table, p) ==> data::some_where(keytable::with_commit_stepper(table, leader), p),
{
    broadcast use lemma_some_row;

}

proof fn lemma_with_help(table: Seq<SpecBinding>, leader: KeyChord, p: spec_fn(SpecBinding) -> bool)
    ensures
        data::some_where(table, p) ==> data::some_where(keytable::with_help(table, leader), p),
{
    broadcast use lemma_some_row;

}

/// The help is bound everywhere, and every command somewhere.
proof fn lemma_default_table(leader: KeyChord, p: spec_fn(SpecBinding) -> bool)
    ensures
        p == primary_in(Context::Global, Command::ToggleHelp) ==> data::some_where(
            keytable::default_bindings(leader),
            p,
        ),
        forall|c: Command|
            p == #[trigger] row_of(c) ==> data::some_where(keytable::default_bindings(leader), p),
{
    let t0 = Seq::<SpecBinding>::empty();
    lemma_with_global(t0, leader, p);
    let t1 = keytable::with_global(t0, leader);
    lemma_with_leader_tree(t1, leader, p);
    let t2 = keytable::with_leader_tree(t1, leader);
    lemma_with_review_list(t2, leader, p);
    let t3 = keytable::with_review_list(t2, leader);
    lemma_with_tree(t3, leader, p);
    let t4 = keytable::with_tree(t3, leader);
    lemma_with_diff(t4, leader, p);
    let t5 = keytable::with_diff(t4, leader);
    lemma_with_requests(t5, leader, p);
    let t6 = keytable::with_requests(t5, leader);
    lemma_with_thread(t6, leader, p);
    let t7 = keytable::with_thread(t6, leader);
    lemma_with_composer(t7, leader, p);
    let t8 = keytable::with_composer(t7, leader);
    lemma_with_commit_stepper(t8, leader, p);
    let t9 = keytable::with_commit_stepper(t8, leader);
    lemma_with_help(t9, leader, p);
}

/// The controls of the built-in table have a hint for every command.
pub proof fn the_default_chrome_has_every_command(leader: KeyChord, command: Command)
    ensures
        data::some_where(SpecKeymap::default_with(leader).chrome(), hint_for(command)),
{
    let map = SpecKeymap::default_with(leader);
    let row = |c: Command| chrome_row(map.bindings, c);
    chrome_shows_every_bound_command_once(map);
    lemma_default_table(leader, row_of(command));
    data::lemma_found(map.bindings, row_of(command));
    assert(row(command) is Some);
}

/// In every context the hint bar of the built-in table ends in the help, and
/// no hint is without a label.
pub proof fn the_default_hints_end_in_help(leader: KeyChord, context: Context)
    ensures
        ({
            let hints = SpecKeymap::default_with(leader).hints(context);
            &&& hints.len() > 0
            &&& hints.last().command == Command::ToggleHelp
            &&& forall|i: int| 0 <= i < hints.len() ==> (#[trigger] hints[i]).label.len() > 0
        }),
{
    let map = SpecKeymap::default_with(leader);
    let hints = map.hints(context);
    let row = |c: Command| hint_row(map.bindings, context, c);
    let help = Command::ToggleHelp;
    hints_are_ordered_and_complete(map, context);
    lemma_default_table(leader, primary_in(Context::Global, help));
    data::lemma_found(map.bindings, primary_in(Context::Global, help));
    assert(row(help) is Some);
    let i = choose|i: int| 0 <= i < hints.len() && #[trigger] hint_for(help)(hints[i]);
    if i < hints.len() - 1 {
        let last = hints[hints.len() - 1];
        assert(hints[i].command == help);
        assert(hint_rank(map.bindings, context, hints[i].command) <= hint_rank(map.bindings, context, last.command));
        assert(hints[i].command != last.command);
    }
    assert forall|i: int| 0 <= i < hints.len() implies (#[trigger] hints[i]).label.len() > 0 by {
        let c = row(hints[i].command)->0.command;
        command::labels_tell_commands_apart(c, c);
    }
}

} // verus!
