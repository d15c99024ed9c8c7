//! Deriving settles the view: doing it again changes nothing more.
use vstd::prelude::*;

use crate::client::SpecClientCore;
use crate::command::Mode;
use crate::derived;
use crate::explorer::{Progress, SpecTreeView};
use crate::flow::SpecFlow;
use crate::home;
use crate::home::{HomeRow, SpecHomeView};
use crate::keymap;
use crate::keymap::SpecHelpView;
use crate::protocol::{SpecRepoPath, SpecReviewRequest};
use crate::ref_selector::SpecRefSelectorView;
use crate::view::SpecViewModel;

verus! {

// ---- what is derived ------------------------------------------------------

pub open spec fn shown_selector(core: SpecClientCore) -> Option<SpecRefSelectorView> {
    match core.ref_selector {
        Some(s) => Some(s.view),
        None => None,
    }
}

pub open spec fn shown_requests(core: SpecClientCore) -> Seq<SpecReviewRequest> {
    match core.view.review {
        Some(open) => open.snapshot.requests,
        None => Seq::empty(),
    }
}

pub open spec fn shown_rows(core: SpecClientCore) -> Seq<HomeRow> {
    home::home_rows(core.view.workspaces, core.view.home.expanded, core.view.reviews)
}

pub open spec fn shown_target(core: SpecClientCore) -> Option<SpecRepoPath> {
    match core.view.target_file(core.view.focus) {
        Some(f) => Some(f.path),
        None => None,
    }
}

pub open spec fn shown_chords(core: SpecClientCore) -> Seq<char> {
    if core.keys.chords.len() == 0 {
        Seq::empty()
    } else {
        keymap::chords_text(core.keys.chords)
    }
}

pub open spec fn shown_label(core: SpecClientCore) -> Option<Seq<char>> {
    if core.keys.chords.len() == 0 {
        None
    } else {
        core.keys.keymap.pending_label(core.keys.chords)
    }
}

pub open spec fn shown_mode(core: SpecClientCore) -> Mode {
    if core.view.focus.spec_context() is Composer {
        Mode::Insert
    } else if core.keys.visual_anchor is Some {
        Mode::Visual
    } else {
        Mode::Normal
    }
}

pub open spec fn shown_help(core: SpecClientCore) -> Option<SpecHelpView> {
    match core.keys.help_context {
        Some(context) => Some(core.keys.keymap.help(context)),
        None => None,
    }
}

// ---- what it is derived from ----------------------------------------------

/// The core but for its view and the sections named.
pub open spec fn behind(core: SpecClientCore) -> SpecClientCore {
    SpecClientCore {
        view: SpecViewModel::empty(),
        flow: SpecFlow { touched: Seq::empty(), ..core.flow },
        ..core
    }
}

/// The view but for what is derived of the keys.
pub open spec fn keyless(view: SpecViewModel) -> SpecViewModel {
    let blank = SpecViewModel::empty();
    SpecViewModel {
        pending_keys: blank.pending_keys,
        pending_label: blank.pending_label,
        mode: blank.mode,
        hints: blank.hints,
        chrome: blank.chrome,
        bindings: blank.bindings,
        last_key: blank.last_key,
        leader: blank.leader,
        help: blank.help,
        ..view
    }
}

/// The view but for what is derived from the focus on.
pub open spec fn placeless(view: SpecViewModel) -> SpecViewModel {
    let blank = SpecViewModel::empty();
    SpecViewModel {
        browse: blank.browse,
        copy_target: blank.copy_target,
        copy_reference: blank.copy_reference,
        visual: blank.visual,
        ..keyless(view)
    }
}

/// What nothing derived is in.
pub open spec fn ground(view: SpecViewModel) -> SpecViewModel {
    let blank = SpecViewModel::empty();
    SpecViewModel {
        ref_selector: blank.ref_selector,
        tree: blank.tree,
        progress: blank.progress,
        diff: blank.diff,
        diffs: blank.diffs,
        requests: blank.requests,
        threads: blank.threads,
        conversation: blank.conversation,
        stepper: blank.stepper,
        scope: blank.scope,
        home: SpecHomeView { rows: Seq::empty(), ..view.home },
        focus: blank.focus,
        ..placeless(view)
    }
}

proof fn lemma_behind(a: SpecClientCore, b: SpecClientCore)
    requires
        behind(a) == behind(b),
    ensures
        b == (SpecClientCore {
            view: b.view,
            flow: SpecFlow { touched: b.flow.touched, ..a.flow },
            ..a
        }),
{
    let x = behind(a);
    let y = behind(b);
    assert(x.flow.content == y.flow.content && x.flow.wire == y.flow.wire && x.flow.out == y.flow.out);
    assert(x.config == y.config && x.connection == y.connection && x.now == y.now && x.deferred == y.deferred);
    assert(x.committed == y.committed && x.pending == y.pending && x.explorer == y.explorer);
    assert(x.stepper == y.stepper && x.prefs_loaded == y.prefs_loaded && x.keys == y.keys);
    assert(x.by_commit_pending == y.by_commit_pending && x.file_collapse == y.file_collapse);
    assert(x.browse == y.browse && x.browse_attempt == y.browse_attempt && x.browse_repo == y.browse_repo);
    assert(x.realign == y.realign && x.ref_selector == y.ref_selector && x.suggestions == y.suggestions);
    assert(x.recovery == y.recovery && x.next_management == y.next_management);
    assert(x.management_request == y.management_request && x.pending_reference == y.pending_reference);
}

/// What is derived of the review depends on nothing derived.
proof fn lemma_same_review(a: SpecClientCore, b: SpecClientCore)
    requires
        behind(a) == behind(b),
        ground(a.view) == ground(b.view),
    ensures
        shown_selector(a) == shown_selector(b),
        a.explored() == b.explored(),
        a.awaited_row() == b.awaited_row(),
        a.shown_diff() == b.shown_diff(),
        a.shown_diffs() == b.shown_diffs(),
        shown_requests(a) == shown_requests(b),
        a.shown_threads() == b.shown_threads(),
        a.stepper == b.stepper,
        a.scope() == b.scope(),
        shown_rows(a) == shown_rows(b),
{
    lemma_behind(a, b);
    let x = ground(a.view);
    let y = ground(b.view);
    assert(x.review == y.review && x.tab == y.tab && x.workspaces == y.workspaces && x.reviews == y.reviews);
    assert(x.home.expanded == y.home.expanded && x.draft == y.draft && x.open_review == y.open_review);
    reveal(SpecClientCore::explored);
    reveal(SpecClientCore::explorer_inputs);
    reveal(SpecClientCore::shown_diff);
    reveal(SpecClientCore::shown_diffs);
    reveal(SpecClientCore::shown_threads);
    reveal(SpecClientCore::pending_ids);
    reveal(SpecClientCore::decorated);
}

/// What is derived from the focus on depends on nothing derived later.
proof fn lemma_same_place(a: SpecClientCore, b: SpecClientCore)
    requires
        behind(a) == behind(b),
        placeless(a.view) == placeless(b.view),
    ensures
        a.browse_shown() == b.browse_shown(),
        shown_target(a) == shown_target(b),
        a.view.focused_reference() == b.view.focused_reference(),
        a.selected_rows() == b.selected_rows(),
        a.focused_well() == b.focused_well(),
        shown_mode(a) == shown_mode(b),
        a.shown_hints() == b.shown_hints(),
        a.view.focus == b.view.focus,
{
    lemma_behind(a, b);
    let x = placeless(a.view);
    let y = placeless(b.view);
    assert(x.review == y.review && x.focus == y.focus && x.tree == y.tree && x.diff == y.diff);
    assert(x.threads == y.threads && x.requests == y.requests && x.stepper == y.stepper && x.home == y.home);
    assert(x.focused_comment == y.focused_comment);
    reveal(SpecClientCore::shown_hints);
    reveal(SpecViewModel::focused_reference);
}

// ---- one step at a time ---------------------------------------------------

proof fn derived_selector_shows(core: SpecClientCore)
    ensures
        core.derived_selector().view == (SpecViewModel { ref_selector: shown_selector(core), ..core.view }),
        behind(core.derived_selector()) == behind(core),
        shown_selector(core) == core.view.ref_selector ==> core.derived_selector() == core,
{
    reveal(SpecClientCore::derived_selector);
}

proof fn derived_requests_shows(core: SpecClientCore)
    ensures
        core.derived_requests().view == (SpecViewModel { requests: shown_requests(core), ..core.view }),
        behind(core.derived_requests()) == behind(core),
        shown_requests(core) == core.view.requests ==> core.derived_requests() == core,
{
    reveal(SpecClientCore::derived_requests);
}

proof fn derived_stepper_shows(core: SpecClientCore)
    ensures
        core.derived_stepper().view == (SpecViewModel { stepper: core.stepper, ..core.view }),
        behind(core.derived_stepper()) == behind(core),
        core.stepper == core.view.stepper ==> core.derived_stepper() == core,
{
    reveal(SpecClientCore::derived_stepper);
}

proof fn derived_scope_shows(core: SpecClientCore)
    ensures
        core.derived_scope().view == (SpecViewModel { scope: core.scope(), ..core.view }),
        behind(core.derived_scope()) == behind(core),
        core.scope() == core.view.scope ==> core.derived_scope() == core,
{
    reveal(SpecClientCore::derived_scope);
}

proof fn with_tree_shows(core: SpecClientCore, tree: SpecTreeView)
    ensures
        core.with_tree(tree).view == (SpecViewModel { tree: tree, ..core.view }),
        behind(core.with_tree(tree)) == behind(core),
        tree == core.view.tree ==> core.with_tree(tree) == core,
{
    reveal(SpecClientCore::with_tree);
}

proof fn with_progress_shows(core: SpecClientCore, progress: Progress)
    ensures
        core.with_progress(progress).view == (SpecViewModel { progress: progress, ..core.view }),
        behind(core.with_progress(progress)) == behind(core),
        progress == core.view.progress ==> core.with_progress(progress) == core,
{
    reveal(SpecClientCore::with_progress);
}

proof fn derived_diffs_shows(core: SpecClientCore)
    ensures
        core.derived_diffs().view == (SpecViewModel {
            diff: core.shown_diff(),
            diffs: core.shown_diffs(),
            ..core.view
        }),
        behind(core.derived_diffs()) == behind(core),
        core.shown_diff() == core.view.diff && core.shown_diffs() == core.view.diffs ==> core.derived_diffs() == core,
{
    reveal(SpecClientCore::derived_diffs);
}

proof fn derived_threads_shows(core: SpecClientCore)
    ensures
        core.derived_threads().view == (SpecViewModel {
            threads: core.shown_threads(),
            conversation: core.derived_threads().view.conversation,
            ..core.view
        }),
        behind(core.derived_threads()) == behind(core),
        core.shown_threads() == core.view.threads ==> core.derived_threads() == core,
{
    reveal(SpecClientCore::derived_threads);
    reveal(SpecClientCore::with_conversation);
}

proof fn derived_home_shows(core: SpecClientCore)
    ensures
        core.derived_home().view == (SpecViewModel {
            home: SpecHomeView { rows: shown_rows(core), ..core.view.home },
            ..core.view
        }),
        behind(core.derived_home()) == behind(core),
        shown_rows(core) == core.view.home.rows ==> core.derived_home() == core,
{
    reveal(SpecClientCore::derived_home);
}

proof fn derived_focus_shows(core: SpecClientCore)
    ensures
        core.derived_focus().view == (SpecViewModel {
            focus: core.view.clamp(core.view.focus),
            ..core.view
        }),
        behind(core.derived_focus()) == behind(core),
        core.focused_well() ==> core.derived_focus() == core,
        core.derived_focus().focused_well(),
{
    reveal(SpecClientCore::derived_focus);
    derived::clamping_is_done_once(core.view, core.view.focus);
}

/// Following a line leaves the selector and the explorer alone, and is done
/// with.
proof fn realigned_shows(core: SpecClientCore)
    ensures
        core.realigned().awaited_row() is None,
        core.awaited_row() is None ==> core.realigned() == core,
        core.realigned().view == (SpecViewModel {
            focus: core.realigned().view.focus,
            review: core.realigned().view.review,
            ..core.view
        }),
        shown_selector(core.realigned()) == shown_selector(core),
        core.realigned().explored() == core.explored(),
        core.realigned().keys == core.keys,
{
    reveal(SpecClientCore::realigned);
    reveal(SpecClientCore::followed);
    reveal(SpecClientCore::explored);
    reveal(SpecClientCore::explorer_inputs);
}

proof fn derived_browse_shows(core: SpecClientCore)
    ensures
        core.derived_browse().view == (SpecViewModel { browse: core.browse_shown(), ..core.view }),
        behind(core.derived_browse()) == behind(core),
        core.browse_shown() == core.view.browse ==> core.derived_browse() == core,
{
    reveal(SpecClientCore::derived_browse);
}

proof fn derived_target_shows(core: SpecClientCore)
    ensures
        core.derived_target().view == (SpecViewModel { copy_target: shown_target(core), ..core.view }),
        behind(core.derived_target()) == behind(core),
        shown_target(core) == core.view.copy_target ==> core.derived_target() == core,
{
    reveal(SpecClientCore::derived_target);
}

proof fn derived_reference_shows(core: SpecClientCore)
    ensures
        core.derived_reference().view == (SpecViewModel { copy_reference: core.view.focused_reference(), ..core.view }),
        behind(core.derived_reference()) == behind(core),
        core.view.focused_reference() == core.view.copy_reference ==> core.derived_reference() == core,
{
    reveal(SpecClientCore::derived_reference);
}

proof fn derived_visual_shows(core: SpecClientCore)
    ensures
        core.derived_visual().view == (SpecViewModel { visual: core.selected_rows(), ..core.view }),
        behind(core.derived_visual()) == behind(core),
        core.selected_rows() == core.view.visual ==> core.derived_visual() == core,
{
    reveal(SpecClientCore::derived_visual);
}

proof fn derived_pending_keys_shows(core: SpecClientCore)
    ensures
        core.derived_pending_keys().view == (SpecViewModel { pending_keys: shown_chords(core), ..core.view }),
        behind(core.derived_pending_keys()) == behind(core),
        shown_chords(core) == core.view.pending_keys ==> core.derived_pending_keys() == core,
{
    reveal(SpecClientCore::derived_pending_keys);
}

proof fn derived_pending_label_shows(core: SpecClientCore)
    ensures
        core.derived_pending_label().view == (SpecViewModel { pending_label: shown_label(core), ..core.view }),
        behind(core.derived_pending_label()) == behind(core),
        shown_label(core) == core.view.pending_label ==> core.derived_pending_label() == core,
{
    reveal(SpecClientCore::derived_pending_label);
}

proof fn derived_mode_shows(core: SpecClientCore)
    ensures
        core.derived_mode().view == (SpecViewModel { mode: shown_mode(core), ..core.view }),
        behind(core.derived_mode()) == behind(core),
        shown_mode(core) == core.view.mode ==> core.derived_mode() == core,
{
    reveal(SpecClientCore::derived_mode);
}

proof fn derived_hints_shows(core: SpecClientCore)
    ensures
        core.derived_hints().view == (SpecViewModel { hints: core.shown_hints(), ..core.view }),
        behind(core.derived_hints()) == behind(core),
        core.shown_hints() == core.view.hints ==> core.derived_hints() == core,
{
    reveal(SpecClientCore::derived_hints);
}

proof fn derived_chrome_shows(core: SpecClientCore)
    ensures
        core.derived_chrome().view == (SpecViewModel { chrome: core.keys.keymap.chrome(), ..core.view }),
        behind(core.derived_chrome()) == behind(core),
        core.keys.keymap.chrome() == core.view.chrome ==> core.derived_chrome() == core,
{
    reveal(SpecClientCore::derived_chrome);
}

proof fn derived_bindings_shows(core: SpecClientCore)
    ensures
        core.derived_bindings().view == (SpecViewModel { bindings: core.keys.keymap.applicable_bindings(core.view.focus.spec_context()), ..core.view }),
        behind(core.derived_bindings()) == behind(core),
        core.keys.keymap.applicable_bindings(
            core.view.focus.spec_context(),
        ) == core.view.bindings ==> core.derived_bindings() == core,
{
    reveal(SpecClientCore::derived_bindings);
}

proof fn derived_last_key_shows(core: SpecClientCore)
    ensures
        core.derived_last_key().view == (SpecViewModel { last_key: core.keys.last_key, ..core.view }),
        behind(core.derived_last_key()) == behind(core),
        core.keys.last_key == core.view.last_key ==> core.derived_last_key() == core,
{
    reveal(SpecClientCore::derived_last_key);
}

proof fn derived_leader_shows(core: SpecClientCore)
    ensures
        core.derived_leader().view == (SpecViewModel { leader: keymap::chord_text(core.keys.keymap.leader), ..core.view }),
        behind(core.derived_leader()) == behind(core),
        keymap::chord_text(core.keys.keymap.leader) == core.view.leader ==> core.derived_leader() == core,
{
    reveal(SpecClientCore::derived_leader);
}

proof fn derived_help_shows(core: SpecClientCore)
    ensures
        core.derived_help().view == (SpecViewModel { help: shown_help(core), ..core.view }),
        behind(core.derived_help()) == behind(core),
        shown_help(core) == core.view.help ==> core.derived_help() == core,
{
    reveal(SpecClientCore::derived_help);
}

// ---- stage by stage -------------------------------------------------------

/// What is derived of the review is shown.
pub open spec fn review_is_shown(core: SpecClientCore) -> bool {
    &&& shown_selector(core) == core.view.ref_selector
    &&& core.explored() == (core.view.tree, core.view.progress)
    &&& core.awaited_row() is None
    &&& core.shown_diff() == core.view.diff
    &&& core.shown_diffs() == core.view.diffs
    &&& shown_requests(core) == core.view.requests
    &&& core.shown_threads() == core.view.threads
    &&& core.stepper == core.view.stepper
    &&& core.scope() == core.view.scope
    &&& shown_rows(core) == core.view.home.rows
}

/// What is derived from the focus on is shown.
pub open spec fn place_is_shown(core: SpecClientCore) -> bool {
    &&& core.focused_well()
    &&& core.browse_shown() == core.view.browse
    &&& shown_target(core) == core.view.copy_target
    &&& core.view.focused_reference() == core.view.copy_reference
    &&& core.selected_rows() == core.view.visual
}

/// What is derived of the keys is shown.
pub open spec fn keys_are_shown(core: SpecClientCore) -> bool {
    &&& shown_chords(core) == core.view.pending_keys
    &&& shown_label(core) == core.view.pending_label
    &&& shown_mode(core) == core.view.mode
    &&& core.shown_hints() == core.view.hints
    &&& core.keys.keymap.chrome() == core.view.chrome
    &&& core.keys.keymap.applicable_bindings(core.view.focus.spec_context()) == core.view.bindings
    &&& core.keys.last_key == core.view.last_key
    &&& keymap::chord_text(core.keys.keymap.leader) == core.view.leader
    &&& shown_help(core) == core.view.help
}

proof fn lemma_review_is_shown(core: SpecClientCore)
    ensures
        review_is_shown(core.derived_review()),
        core.derived_review().keys == core.keys,
{
    reveal(SpecClientCore::derived_review);
    let a = core.derived_selector();
    derived_selector_shows(core);
    lemma_same_review(core, a);
    let t = a.with_tree(a.explored().0);
    with_tree_shows(a, a.explored().0);
    let b = t.with_progress(a.explored().1);
    with_progress_shows(t, a.explored().1);
    lemma_same_review(a, b);
    let c = b.realigned();
    realigned_shows(b);
    let d = c.derived_diffs();
    derived_diffs_shows(c);
    let e = d.derived_requests();
    derived_requests_shows(d);
    let f = e.derived_threads();
    derived_threads_shows(e);
    let g = f.derived_stepper();
    derived_stepper_shows(f);
    let h = g.derived_scope();
    derived_scope_shows(g);
    let i = h.derived_home();
    derived_home_shows(h);
    lemma_same_review(c, d);
    lemma_same_review(d, e);
    lemma_same_review(e, f);
    lemma_same_review(f, g);
    lemma_same_review(g, h);
    lemma_same_review(h, i);
    assert(behind(a).keys == behind(core).keys && behind(t).keys == behind(a).keys && behind(b).keys == behind(t).keys);
    assert(behind(d).keys == behind(c).keys && behind(e).keys == behind(d).keys && behind(f).keys == behind(e).keys);
    assert(behind(g).keys == behind(f).keys && behind(h).keys == behind(g).keys && behind(i).keys == behind(h).keys);
}

proof fn lemma_review_stays(core: SpecClientCore)
    requires
        review_is_shown(core),
    ensures
        core.derived_review() == core,
{
    reveal(SpecClientCore::derived_review);
    derived_selector_shows(core);
    with_tree_shows(core, core.explored().0);
    with_progress_shows(core, core.explored().1);
    realigned_shows(core);
    derived_diffs_shows(core);
    derived_requests_shows(core);
    derived_threads_shows(core);
    derived_stepper_shows(core);
    derived_scope_shows(core);
    derived_home_shows(core);
}

proof fn lemma_place_is_shown(core: SpecClientCore)
    requires
        review_is_shown(core),
    ensures
        place_is_shown(core.derived_place()),
        review_is_shown(core.derived_place()),
        core.derived_place().keys == core.keys,
{
    reveal(SpecClientCore::derived_place);
    let a = core.derived_focus();
    derived_focus_shows(core);
    let b = a.derived_browse();
    derived_browse_shows(a);
    let c = b.derived_target();
    derived_target_shows(b);
    let d = c.derived_reference();
    derived_reference_shows(c);
    let e = d.derived_visual();
    derived_visual_shows(d);
    lemma_same_place(a, b);
    lemma_same_place(b, c);
    lemma_same_place(c, d);
    lemma_same_place(d, e);
    lemma_same_review(core, e);
}

proof fn lemma_place_stays(core: SpecClientCore)
    requires
        place_is_shown(core),
    ensures
        core.derived_place() == core,
{
    reveal(SpecClientCore::derived_place);
    derived_focus_shows(core);
    derived_browse_shows(core);
    derived_target_shows(core);
    derived_reference_shows(core);
    derived_visual_shows(core);
}

proof fn lemma_keys_are_shown(core: SpecClientCore)
    requires
        review_is_shown(core),
        place_is_shown(core),
    ensures
        keys_are_shown(core.derived_keys()),
        place_is_shown(core.derived_keys()),
        review_is_shown(core.derived_keys()),
        core.derived_keys().keys == core.keys,
{
    reveal(SpecClientCore::derived_keys);
    let a = core.derived_pending_keys();
    derived_pending_keys_shows(core);
    let b = a.derived_pending_label();
    derived_pending_label_shows(a);
    let c = b.derived_mode();
    derived_mode_shows(b);
    let d = c.derived_hints();
    derived_hints_shows(c);
    let e = d.derived_chrome();
    derived_chrome_shows(d);
    let f = e.derived_bindings();
    derived_bindings_shows(e);
    let g = f.derived_last_key();
    derived_last_key_shows(f);
    let h = g.derived_leader();
    derived_leader_shows(g);
    let i = h.derived_help();
    derived_help_shows(h);
    lemma_same_place(core, a);
    lemma_behind(core, a);
    lemma_same_place(a, b);
    lemma_behind(a, b);
    lemma_same_place(b, c);
    lemma_behind(b, c);
    lemma_same_place(c, d);
    lemma_behind(c, d);
    lemma_same_place(d, e);
    lemma_behind(d, e);
    lemma_same_place(e, f);
    lemma_behind(e, f);
    lemma_same_place(f, g);
    lemma_behind(f, g);
    lemma_same_place(g, h);
    lemma_behind(g, h);
    lemma_same_place(h, i);
    lemma_behind(h, i);
    lemma_same_review(core, i);
}

proof fn lemma_keys_stay(core: SpecClientCore)
    requires
        keys_are_shown(core),
    ensures
        core.derived_keys() == core,
{
    reveal(SpecClientCore::derived_keys);
    derived_pending_keys_shows(core);
    derived_pending_label_shows(core);
    derived_mode_shows(core);
    derived_hints_shows(core);
    derived_chrome_shows(core);
    derived_bindings_shows(core);
    derived_last_key_shows(core);
    derived_leader_shows(core);
    derived_help_shows(core);
}

/// Deriving shows the keys pressed and leaves them.
pub proof fn deriving_keeps_the_keys(core: SpecClientCore)
    ensures
        core.derived().keys == core.keys,
{
    reveal(SpecClientCore::derived);
    let r = core.derived_review();
    lemma_review_is_shown(core);
    lemma_place_is_shown(r);
    lemma_keys_are_shown(r.derived_place());
}

/// What is derived is shown.
pub proof fn deriving_shows_the_core(core: SpecClientCore)
    ensures
        review_is_shown(core.derived()),
        place_is_shown(core.derived()),
        keys_are_shown(core.derived()),
{
    reveal(SpecClientCore::derived);
    let r = core.derived_review();
    lemma_review_is_shown(core);
    lemma_place_is_shown(r);
    lemma_keys_are_shown(r.derived_place());
}

/// Deriving a second time changes nothing more: no part of the view, and no
/// section is named.
pub proof fn deriving_twice_is_deriving_once(core: SpecClientCore)
    ensures
        core.derived().derived() == core.derived(),
{
    reveal(SpecClientCore::derived);
    let r = core.derived_review();
    let p = r.derived_place();
    let k = p.derived_keys();
    lemma_review_is_shown(core);
    lemma_place_is_shown(r);
    lemma_keys_are_shown(p);
    lemma_review_stays(k);
    lemma_place_stays(k);
    lemma_keys_stay(k);
}

} // verus!
