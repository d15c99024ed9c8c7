//! What a key does, said of the table of bindings and of what was pressed.
use vstd::prelude::*;

use crate::client::{SpecClientCore, SpecCoreError, SpecResolved};
use crate::command::{Command, Context};
use crate::data;
use crate::flow::{SpecEffect, SpecErrand};
use crate::keymap::{
    applies, chords_text, continuations, continues, exactly, in_context, rest_hint, same_hint, KeyChord, Lookup,
    SpecBinding, SpecGroup, SpecHint, SpecKeymap,
};
use crate::view::LastKey;

verus! {

// ---- the table ------------------------------------------------------------

/// The row at `i` is the first of the context with exactly those keys.
pub open spec fn first_row(rows: Seq<SpecBinding>, context: Context, pressed: Seq<KeyChord>, i: int) -> bool {
    &&& 0 <= i < rows.len()
    &&& rows[i].context == context
    &&& rows[i].keys.chords == pressed
    &&& forall|j: int| 0 <= j < i ==> !((#[trigger] rows[j]).context == context && rows[j].keys.chords == pressed)
}

/// Some row of the context has exactly those keys.
pub open spec fn is_bound(rows: Seq<SpecBinding>, context: Context, pressed: Seq<KeyChord>) -> bool {
    exists|i: int| 0 <= i < rows.len() && (#[trigger] rows[i]).context == context && rows[i].keys.chords == pressed
}

/// The row at `i` applies in the context and begins with those keys, and has
/// more.
pub open spec fn goes_on(rows: Seq<SpecBinding>, context: Context, pressed: Seq<KeyChord>, i: int) -> bool {
    &&& 0 <= i < rows.len()
    &&& rows[i].context == context || rows[i].context is Global
    &&& pressed.len() < rows[i].keys.chords.len()
    &&& forall|k: int| 0 <= k < pressed.len() ==> #[trigger] pressed[k] == rows[i].keys.chords[k]
}

proof fn lemma_row(rows: Seq<SpecBinding>, context: Context, pressed: Seq<KeyChord>)
    ensures
        match data::found(rows, exactly(context, pressed)) {
            Some(b) => is_bound(rows, context, pressed) && exists|i: int| #[trigger]
                first_row(rows, context, pressed, i) && b == rows[i],
            None => !is_bound(rows, context, pressed),
        },
        forall|i: int| #[trigger]
            first_row(rows, context, pressed, i) ==> data::found(
                rows,
                exactly(context, pressed),
            ) == Some(rows[i]),
{
    let p = exactly(context, pressed);
    data::lemma_first_where(rows, p);
    match data::first_where(rows, p) {
        Some(i) => {
            assert(p(rows[i]));
            assert forall|j: int| 0 <= j < i implies !((#[trigger] rows[j]).context == context && rows[j].keys.chords
                == pressed) by {
                assert(!p(rows[j]));
            }
            assert(first_row(rows, context, pressed, i));
            assert forall|k: int| #[trigger] first_row(rows, context, pressed, k) implies k == i by {
                if k < i {
                    assert(!p(rows[k]));
                }
                if i < k {
                    assert(rows[i].context == context && rows[i].keys.chords == pressed);
                }
            }
        },
        None => {
            assert forall|j: int| 0 <= j < rows.len() implies !((#[trigger] rows[j]).context == context
                && rows[j].keys.chords == pressed) by {
                assert(!p(rows[j]));
            }
        },
    }
}

/// Keys mean the command bound to exactly them where they are pressed, else
/// the one bound everywhere; else they begin a longer sequence that applies
/// here, or mean nothing.
pub proof fn keys_mean_what_they_are_bound_to(map: SpecKeymap, context: Context, pressed: Seq<KeyChord>)
    ensures
        forall|i: int| #[trigger]
            first_row(map.bindings, context, pressed, i) ==> map.lookup(context, pressed) == Lookup::Command(
                map.bindings[i].command,
            ),
        !is_bound(map.bindings, context, pressed) ==> {
            &&& forall|i: int| #[trigger]
                first_row(map.bindings, Context::Global, pressed, i) ==> map.lookup(context, pressed)
                    == Lookup::Command(map.bindings[i].command)
            &&& !is_bound(map.bindings, Context::Global, pressed) ==> {
                let longer = exists|i: int| #[trigger] goes_on(map.bindings, context, pressed, i);
                &&& longer ==> map.lookup(context, pressed) is Prefix
                &&& !longer ==> map.lookup(context, pressed) is Unbound
            }
        },
{
    let rows = map.bindings;
    lemma_row(rows, context, pressed);
    lemma_row(rows, Context::Global, pressed);
    let p = |b: SpecBinding| applies(context)(b) && continues(b, pressed);
    assert forall|i: int| 0 <= i < rows.len() implies (p(#[trigger] rows[i]) <==> goes_on(rows, context, pressed, i)) by {
        let chords = rows[i].keys.chords;
        if pressed.is_prefix_of(chords) {
            assert forall|k: int| 0 <= k < pressed.len() implies #[trigger] pressed[k] == chords[k] by {
                assert(chords.subrange(0, pressed.len() as int)[k] == chords[k]);
            }
        }
        if goes_on(rows, context, pressed, i) {
            assert(pressed =~= chords.subrange(0, pressed.len() as int));
        }
    }
    if data::some_where(rows, p) {
        let i = choose|i: int| 0 <= i < rows.len() && #[trigger] p(rows[i]);
        assert(goes_on(rows, context, pressed, i));
    }
    if exists|i: int| #[trigger] goes_on(rows, context, pressed, i) {
        let i = choose|i: int| #[trigger] goes_on(rows, context, pressed, i);
        assert(p(rows[i]));
    }
}

/// The bindings that apply in a context are its own, then those that apply
/// everywhere.
pub proof fn bindings_apply_in_their_context_and_everywhere(map: SpecKeymap, context: Context, b: SpecBinding)
    ensures
        map.applicable(context).contains(b) <==> map.bindings.contains(b) && (b.context == context
            || b.context is Global),
        forall|i: int, j: int|
            0 <= i < j < map.applicable(context).len() && !(context is Global) && (#[trigger] map.applicable(
                context,
            )[i]).context is Global ==> (#[trigger] map.applicable(context)[j]).context is Global,
{
    let own = map.bindings.filter(in_context(context));
    let global = map.bindings.filter(in_context(Context::Global));
    data::lemma_filter_has(map.bindings, in_context(context), b);
    data::lemma_filter_has(map.bindings, in_context(Context::Global), b);
    let all = map.applicable(context);
    if context is Global {
        assert(all =~= own);
    } else {
        vstd::seq_lib::lemma_seq_concat_contains_all_elements(own, global, b);
        assert forall|i: int, j: int|
            0 <= i < j < all.len() && (#[trigger] all[i]).context is Global implies (
        #[trigger] all[j]).context is Global by {
            if i < own.len() {
                assert(own.contains(own[i]));
                data::lemma_filter_has(map.bindings, in_context(context), own[i]);
            }
            assert(global.contains(global[j - own.len()]));
            data::lemma_filter_has(map.bindings, in_context(Context::Global), global[j - own.len()]);
        }
    }
}

/// While a sequence is in progress the hints are its continuations: the keys
/// still to press, each with the command they lead to, and each once.
pub proof fn pending_hints_show_the_keys_still_to_press(
    rows: Seq<SpecBinding>,
    pressed: Seq<KeyChord>,
    h: SpecHint,
)
    ensures
        continuations(rows, pressed).contains(h) ==> exists|i: int|
            0 <= i < rows.len() && continues(#[trigger] rows[i], pressed) && h == rest_hint(rows[i], pressed),
        forall|i: int|
            0 <= i < rows.len() && continues(#[trigger] rows[i], pressed) ==> offers(
                continuations(rows, pressed),
                rest_hint(rows[i], pressed),
            ),
    decreases rows.len(),
{
    if rows.len() > 0 {
        let rest = rows.drop_last();
        let last = rows.last();
        pending_hints_show_the_keys_still_to_press(rest, pressed, h);
        let before = continuations(rest, pressed);
        let out = continuations(rows, pressed);
        let new = rest_hint(last, pressed);
        let p = same_hint(new);
        assert(data::some_where(before, p) <==> offers(before, new)) by {
            if data::some_where(before, p) {
                let k = choose|k: int| 0 <= k < before.len() && #[trigger] p(before[k]);
                assert(before[k].keys == new.keys && before[k].command == new.command);
            }
            if offers(before, new) {
                let k = choose|k: int|
                    0 <= k < before.len() && (#[trigger] before[k]).keys == new.keys && before[k].command
                        == new.command;
                assert(p(before[k]));
            }
        }
        vstd::seq_lib::lemma_seq_contains_after_push(before, new, h);
        if out.contains(h) {
            if before.contains(h) {
                let i = choose|i: int|
                    0 <= i < rest.len() && continues(#[trigger] rest[i], pressed) && h == rest_hint(rest[i], pressed);
                assert(rows[i] == rest[i]);
            } else {
                assert(h == new);
                assert(continues(rows[rows.len() - 1], pressed));
            }
        }
        assert forall|i: int| 0 <= i < rows.len() && continues(#[trigger] rows[i], pressed) implies offers(
            out,
            rest_hint(rows[i], pressed),
        ) by {
            let want = rest_hint(rows[i], pressed);
            if i < rest.len() {
                assert(rest[i] == rows[i]);
                assert(offers(before, want));
            }
            if offers(before, want) {
                let k = choose|k: int|
                    0 <= k < before.len() && (#[trigger] before[k]).keys == want.keys && before[k].command
                        == want.command;
                assert(out[k] == before[k]);
            } else {
                assert(out[before.len() as int] == new);
            }
        }
    }
}

/// The hints have one for those keys and that command.
pub open spec fn offers(hints: Seq<SpecHint>, h: SpecHint) -> bool {
    exists|k: int| 0 <= k < hints.len() && (#[trigger] hints[k]).keys == h.keys && hints[k].command == h.command
}

/// A hint shows the keys of its binding, or those still to press, and names
/// its command.
pub proof fn hints_show_keys_and_name_the_command(b: SpecBinding, pressed: Seq<KeyChord>)
    ensures
        b.hint().keys == chords_text(b.keys.chords),
        b.hint().command == b.command,
        b.hint().label == crate::command::label_text(b.command),
        rest_hint(b, pressed).keys == chords_text(b.keys.chords.skip(pressed.len() as int)),
        rest_hint(b, pressed).command == b.command,
        rest_hint(b, pressed).label == crate::command::label_text(b.command),
{
}

/// The help of a context lists its own bindings in order and then those that
/// apply everywhere; each says whether it was overridden.
pub proof fn help_lists_the_bindings_in_order(map: SpecKeymap, context: Context) -> (at: Seq<int>)
    ensures
        data::rising(at, map.bindings.len()),
        forall|i: int|
            0 <= i < map.bindings.len() ==> (at.contains(i) <==> (#[trigger] map.bindings[i]).context == context),
        map.help_group(context).context == context,
        map.help_group(context).entries.len() == at.len(),
        forall|k: int|
            0 <= k < at.len() ==> {
                let e = #[trigger] map.help_group(context).entries[k];
                let b = map.bindings[at[k]];
                &&& e.keys == chords_text(b.keys.chords)
                &&& e.command == b.command
                &&& e.label == crate::command::label_text(b.command)
                &&& e.primary == b.primary
                &&& e.overridden == map.overridden.contains((context, b.command))
            },
        context is Global ==> map.help(context).groups == seq![map.help_group(context)],
        !(context is Global) ==> map.help(context).groups == seq![
            map.help_group(context),
            map.help_group(Context::Global),
        ],
        map.help(context).conflicts == map.conflicts(),
{
    let p = in_context(context);
    let at = data::lemma_kept(map.bindings, p);
    assert forall|i: int| 0 <= i < map.bindings.len() implies (at.contains(i) <==> (
    #[trigger] map.bindings[i]).context == context) by {
        assert(p(map.bindings[i]) <==> map.bindings[i].context == context);
    }
    at
}

/// A sequence in progress is labelled by the first group with exactly its
/// keys.
pub proof fn pending_sequences_are_labelled_by_their_group(map: SpecKeymap, pressed: Seq<KeyChord>, i: int)
    ensures
        0 <= i < map.groups.len() && map.groups[i].prefix.chords == pressed && (forall|j: int|
            0 <= j < i ==> (#[trigger] map.groups[j]).prefix.chords != pressed) ==> map.pending_label(pressed) == Some(
            map.groups[i].label,
        ),
        (forall|j: int| 0 <= j < map.groups.len() ==> (#[trigger] map.groups[j]).prefix.chords != pressed)
            ==> map.pending_label(pressed) is None,
{
    let p = |g: SpecGroup| g.prefix.chords == pressed;
    data::lemma_first_where(map.groups, p);
    if let Some(k) = data::first_where(map.groups, p) {
        assert(p(map.groups[k]));
        if 0 <= i < k {
            assert(!p(map.groups[i]));
        }
    } else if 0 <= i < map.groups.len() {
        assert(!p(map.groups[i]));
    }
}

// ---- pressing -------------------------------------------------------------

/// A key that begins or continues a sequence waits for the next one and does
/// nothing else. One that completes a command runs it and ends the sequence.
/// One that means nothing ends it; it is refused only where nothing was
/// pressed before and no editor has the keys.
pub proof fn keys_continue_run_or_end_a_sequence(core: SpecClientCore, chord: KeyChord, target: SpecResolved)
    ensures
        ({
            let (out, command, refused) = core.keyed(chord, target);
            let pressed = core.keys.chords.push(chord);
            match core.keys.keymap.lookup(core.view.focus.spec_context(), pressed) {
                Lookup::Prefix => {
                    &&& out.keys.chords == pressed
                    &&& out.keys.last_chord == core.now
                    &&& out.view == core.view
                    &&& out.flow == core.flow
                    &&& command is None
                    &&& refused is None
                },
                Lookup::Command(c) => {
                    let fresh = core.with_chords(Seq::empty());
                    match target {
                        SpecResolved::Action { action } => match fresh.acted(action) {
                            Ok(done) => out == done && command == Some(c) && refused is None,
                            Err(e) => out == fresh && command is None && refused == Some(e),
                        },
                        SpecResolved::Nowhere { reason } => out == fresh && command is None && refused == Some(
                            SpecCoreError::NoTarget(reason),
                        ),
                    }
                },
                Lookup::Unbound => {
                    &&& out.keys.chords.len() == 0
                    &&& out.view == core.view
                    &&& out.flow == core.flow
                    &&& command is None
                    &&& refused is Some <==> core.keys.chords.len() == 0 && !(core.view.focus is Composer)
                },
            }
        }),
{
    reveal(SpecClientCore::keyed);
    reveal(SpecClientCore::continued);
    reveal(SpecClientCore::ran);
}

/// Every key is counted, and the last one is remembered with the command it
/// ran, if it ran one.
pub proof fn every_key_is_counted(core: SpecClientCore, chord: KeyChord, target: SpecResolved)
    requires
        core.keys.keys_handled < u64::MAX,
    ensures
        ({
            let out = core.pressed(chord, target).0;
            let (_, command, refused) = core.counted().keyed(chord, target);
            &&& out.keys.last_key == Some(LastKey { seq: (core.keys.keys_handled + 1) as u64, command })
            &&& core.pressed(chord, target).1 == refused
            &&& core.counted().keys.keys_handled == core.keys.keys_handled + 1
        }),
{
    reveal(SpecClientCore::pressed);
    reveal(SpecClientCore::judged);
}

/// The clock never goes back.
pub proof fn the_clock_never_goes_back(core: SpecClientCore, ms: u64)
    ensures
        core.at(ms).now >= core.now,
        core.at(ms).now >= ms,
        core.at(ms).now == core.now || core.at(ms).now == ms,
        core.at(ms).view == core.view,
        core.at(ms).keys == core.keys,
{
}

/// Errands become the effects they are, in order.
pub proof fn errands_are_carried_out_in_order(core: SpecClientCore, i: int)
    requires
        0 <= i < core.flow.out.len(),
    ensures
        i < core.due().len(),
        match (core.flow.out[i], core.due()[i]) {
            (SpecErrand::Connect, SpecEffect::Connect) => true,
            (SpecErrand::Disconnect, SpecEffect::Disconnect) => true,
            (SpecErrand::Send(a), SpecEffect::Send(b)) => a == b,
            (
                SpecErrand::Persist { key: a, value: x },
                SpecEffect::Persist { key: b, value: y },
            ) => a == b && x == y,
            (SpecErrand::Load { key: a }, SpecEffect::Load { key: b }) => a == b,
            (SpecErrand::Remove { key: a }, SpecEffect::Remove { key: b }) => a == b,
            (
                SpecErrand::ManageDaemon { id: a, request: x },
                SpecEffect::ManageDaemon { id: b, request: y },
            ) => a == b && x == y,
            _ => false,
        },
{
    reveal(SpecClientCore::due);
}

} // verus!
