//! What the view shows, said of what the core knows.
use vstd::prelude::*;

use crate::cache::TreeKey;
use crate::client::{SpecClientCore, SpecFolded, STACK_ROWS_CAP};
use crate::command::Command;
use crate::data;
use crate::derived::{
    anchored_on, cached_tree, counted, drafted_on, folded, head_tree, named_repo, offered, repo_names, resolvable, row_with, shifted,
    stacked,
};
use crate::diff::{diff_of, on_review, SpecDiffRow, SpecDiffView, SpecFileRef, SpecThreadView};
use crate::difflaws::{cell_line, diffs_need_their_header, rows_are_the_lines_of_their_cells};
use crate::eventlaws::{lemma_comment_at, named_comment};
use crate::explorer::{no_progress, progress_of, SpecFileStat, SpecRepoName};
use crate::focus::Focus;
use crate::home::home_rows;
use crate::keymap::{chord_text, chords_text, SpecHint};
use crate::protocol::{
    ResolvedTarget, SpecAnchor, SpecRenderContent, SpecReviewSnapshot, SpecThread, SpecTreeSnapshot, SpecWorkspace,
};
use crate::reading::folded_file;
use crate::settling::deriving_shows_the_core;
use crate::view::SpecOpenReview;

verus! {

// ---- what is shown --------------------------------------------------------

/// The view shows what the core holds: the invitations of the open review,
/// the commits listed, the scope, the selector, the rows of the home list,
/// the help and the keys pressed.
pub proof fn the_view_shows_what_the_core_holds(core: SpecClientCore)
    ensures
        ({
            let c = core.derived();
            &&& c.view.requests == (match c.view.review {
                Some(open) => open.snapshot.requests,
                None => Seq::empty(),
            })
            &&& c.view.stepper == c.stepper
            &&& c.view.ref_selector is Some <==> c.ref_selector is Some
            &&& c.ref_selector matches Some(s) ==> c.view.ref_selector == Some(s.view)
            &&& c.view.home.rows == home_rows(c.view.workspaces, c.view.home.expanded, c.view.reviews)
            &&& c.view.last_key == c.keys.last_key
            &&& c.view.leader == chord_text(c.keys.keymap.leader)
            &&& c.view.pending_keys == (if c.keys.chords.len() == 0 {
                Seq::empty()
            } else {
                chords_text(c.keys.chords)
            })
            &&& c.view.help is Some <==> c.keys.help_context is Some
            &&& c.keys.help_context matches Some(context) ==> c.view.help == Some(c.keys.keymap.help(context))
            &&& c.view.review matches Some(open) ==> c.view.scope == open.scope
            &&& c.view.review is None ==> c.view.diff is None && c.view.diffs.len() == 0 && c.view.threads.len() == 0
        }),
{
    deriving_shows_the_core(core);
    reveal(SpecClientCore::shown_diff);
    reveal(SpecClientCore::shown_diffs);
    reveal(SpecClientCore::shown_threads);
}

/// The diff shown is of the open file, at the rows it is open at, with the
/// lines that are being commented on, and marked where it is a recorded one;
/// without the file's header there is none.
pub proof fn the_diff_is_of_the_open_file(core: SpecClientCore)
    ensures
        ({
            let c = core.derived();
            let open = c.view.review->0;
            let f = open.open_file->0;
            let header = c.flow.content.cache.header(f.render);
            &&& c.view.diff is Some <==> c.view.review is Some && open.open_file is Some && header is Some
            &&& c.view.diff matches Some(d) ==> {
                let plain = diff_of(
                    c.flow.content.cache,
                    open.snapshot,
                    c.config.author,
                    f.render,
                    f.first_row,
                    f.last_row,
                    match c.view.draft {
                        Some(draft) => draft.anchor.lines_on(f.render),
                        None => None,
                    },
                );
                &&& plain is Some
                &&& d.file.repo_id == f.render.repo_id
                &&& d.file.path == f.render.path
                &&& d.rows == (plain->0).rows
                &&& d.missing == (plain->0).missing
                &&& d.first_row == (plain->0).first_row
                &&& d.last_row == (plain->0).last_row
                &&& d.file_threads == (plain->0).file_threads
                &&& d.viewed == (plain->0).viewed
                &&& d.original <==> open.original == Some(f.render)
            }
        }),
{
    deriving_shows_the_core(core);
    let c = core.derived();
    reveal(SpecClientCore::shown_diff);
    if let Some(open) = c.view.review {
        if let Some(f) = open.open_file {
            diffs_need_their_header(
                c.flow.content.cache,
                open.snapshot,
                c.config.author,
                f.render,
                f.first_row,
                f.last_row,
                match c.view.draft {
                    Some(draft) => draft.anchor.lines_on(f.render),
                    None => None,
                },
            );
        }
    }
}

/// The stack shows every listed file whose header is cached, in the order of
/// the list, and no other.
pub proof fn the_stack_shows_the_listed_files(core: SpecClientCore) -> (at: Seq<int>)
    requires
        core.derived().view.review is Some,
    ensures
        ({
            let c = core.derived();
            let open = c.view.review->0;
            &&& at.len() == c.view.diffs.len()
            &&& data::rising(at, open.files.len())
            &&& forall|k: int|
                0 <= k < at.len() ==> {
                    let render = open.files[#[trigger] at[k]];
                    &&& c.view.diffs[k].file.repo_id == render.repo_id
                    &&& c.view.diffs[k].file.path == render.path
                    &&& c.flow.content.cache.header(render) is Some
                }
            &&& forall|i: int|
                0 <= i < open.files.len() && c.flow.content.cache.header(#[trigger] open.files[i]) is Some
                    ==> at.contains(i)
        }),
{
    deriving_shows_the_core(core);
    let c = core.derived();
    reveal(SpecClientCore::shown_diffs);
    let open = c.view.review->0;
    let f = stacked(c.flow.content.cache, open, c.config.author, c.view.draft_anchor(), c.file_collapse);
    let at = data::lemma_images(open.files, f);
    assert forall|i: int| 0 <= i < open.files.len() implies {
        let render = open.files[i];
        &&& (#[trigger] f(open.files[i])) is Some <==> c.flow.content.cache.header(render) is Some
        &&& f(open.files[i]) is Some ==> (f(open.files[i])->0).file == (SpecFileRef {
            repo_id: render.repo_id,
            path: render.path,
        })
    } by {
        let render = open.files[i];
        let (first, last) = if open.open_render() == Some(render) {
            ((open.open_file->0).first_row, (open.open_file->0).last_row)
        } else {
            (0u32, (STACK_ROWS_CAP - 1) as u32)
        };
        let drafted = drafted_on(c.view.draft_anchor(), render);
        diffs_need_their_header(
            c.flow.content.cache,
            open.snapshot,
            c.config.author,
            render,
            first,
            last,
            drafted,
        );
        if let Some(d) = diff_of(c.flow.content.cache, open.snapshot, c.config.author, render, first, last, drafted) {
            files_are_folded_by_hand_or_when_viewed(d, c.file_collapse, 0);
        }
    }
    assert forall|k: int| 0 <= k < at.len() implies {
        let render = open.files[#[trigger] at[k]];
        &&& c.view.diffs[k].file.repo_id == render.repo_id
        &&& c.view.diffs[k].file.path == render.path
        &&& c.flow.content.cache.header(render) is Some
    } by {
        assert(f(open.files[at[k]]) == Some(c.view.diffs[k]));
    }
    at
}

/// While a review is open the explorer and the progress are of it; otherwise
/// both are empty.
pub proof fn the_explorer_is_of_the_open_review(core: SpecClientCore)
    ensures
        ({
            let c = core.derived();
            let open = c.view.review->0;
            let shown = c.view.review is Some && c.committed is Some;
            &&& shown ==> c.view.tree == c.explorer_inputs(open).explorer()
            &&& shown ==> c.view.progress == progress_of(
                open.snapshot,
                c.config.author,
                open.files,
                c.file_stats(open),
            )
            &&& !shown ==> c.view.tree.roots.len() == 0 && c.view.progress == no_progress()
        }),
{
    deriving_shows_the_core(core);
    reveal(SpecClientCore::explored);
}

/// The mode is insert while an editor has the keys, visual while lines are
/// selected, and normal otherwise.
pub proof fn modes_say_where_the_keys_go(core: SpecClientCore)
    ensures
        ({
            let c = core.derived();
            &&& c.view.mode is Insert <==> c.view.focus is Composer
            &&& c.view.mode is Visual <==> !(c.view.focus is Composer) && c.keys.visual_anchor is Some
        }),
{
    deriving_shows_the_core(core);
}

/// The rows selected are those between where the selection started and the
/// row that has the focus, on the side it started on.
pub proof fn selections_span_from_their_start_to_the_focus(core: SpecClientCore)
    ensures
        ({
            let c = core.derived();
            &&& c.view.visual is Some <==> c.keys.visual_anchor is Some && c.view.focus is Diff
            &&& c.view.visual matches Some(v) ==> {
                let start = c.keys.visual_anchor->0;
                let row = c.view.focus->Diff_row;
                &&& v.start <= v.end
                &&& (v.start == start.row && v.end == row) || (v.start == row && v.end == start.row)
                &&& v.side == start.side
            }
        }),
{
    deriving_shows_the_core(core);
}

/// What a copy takes is the path of the file under the focus.
pub proof fn copies_take_the_path_under_the_focus(core: SpecClientCore)
    ensures
        ({
            let c = core.derived();
            &&& c.view.copy_target is Some <==> c.view.target_file(c.view.focus) is Some
            &&& c.view.target_file(c.view.focus) matches Some(f) ==> c.view.copy_target == Some(f.path)
        }),
{
    deriving_shows_the_core(core);
}

/// The hints are those of the keymap for where the keys go, or for the keys
/// already pressed. Resolving is offered only on a thread that can be
/// resolved.
pub proof fn hints_are_for_where_the_keys_go(core: SpecClientCore, h: SpecHint)
    ensures
        ({
            let c = core.derived();
            let all = if c.keys.chords.len() == 0 {
                c.keys.keymap.hints(c.view.focus.spec_context())
            } else {
                c.keys.keymap.pending_hints(c.view.focus.spec_context(), c.keys.chords)
            };
            let can_resolve = c.view.focus is Thread && c.view.focus->Thread_index < c.view.threads.len() && !(
            c.view.threads[c.view.focus->Thread_index as int].status is Informational);
            c.view.hints.contains(h) <==> all.contains(h) && (h.command == Command::ToggleResolved ==> can_resolve)
        }),
{
    deriving_shows_the_core(core);
    reveal(SpecClientCore::shown_hints);
    let c = core.derived();
    let all = if c.keys.chords.len() == 0 {
        c.keys.keymap.hints(c.view.focus.spec_context())
    } else {
        c.keys.keymap.pending_hints(c.view.focus.spec_context(), c.keys.chords)
    };
    data::lemma_filter_has(all, offered(resolvable(c.view.threads, c.view.focus)), h);
}

// ---- the explorer's inputs ------------------------------------------------

/// The tree is the one browsed or, elsewhere, that of a current head, and it
/// is cached.
pub open spec fn shows_tree(core: SpecClientCore, open: SpecOpenReview, key: TreeKey) -> bool {
    if core.view.tab is Browse && core.browse is Some {
        key.repo_id == (core.browse->0).target.repo_id && key.root == (core.browse->0).root
    } else {
        exists|i: int| #[trigger] is_head(open.current_targets(), key, i)
    }
}

/// The key is the tree at the head of the target at `i`.
pub open spec fn is_head(targets: Seq<ResolvedTarget>, key: TreeKey, i: int) -> bool {
    0 <= i < targets.len() && key.repo_id == targets[i].repo_id && key.root == targets[i].head.tree
}

/// The explorer is made from the shown snapshot, the cached trees of the
/// heads or the browsed one, and the changed files unless a revision is
/// browsed; outside the browse tab it lists only what changed.
pub proof fn the_explorer_is_made_from_what_is_shown(
    core: SpecClientCore,
    open: SpecOpenReview,
    tree: SpecTreeSnapshot,
)
    ensures
        ({
            let inputs = core.explorer_inputs(open);
            &&& inputs.snapshot == open.snapshot
            &&& inputs.viewer == core.config.author
            &&& inputs.state == core.explorer
            &&& inputs.changed_only <==> !(core.view.tab is Browse)
            &&& core.view.tab is Browse && core.browse is Some ==> inputs.files.len() == 0
            &&& !(core.view.tab is Browse && core.browse is Some) ==> inputs.files == open.files
            &&& inputs.open_file is Some <==> open.open_file is Some
            &&& open.open_file matches Some(f) ==> inputs.open_file == Some(
                SpecFileRef { repo_id: f.render.repo_id, path: f.render.path },
            )
            &&& inputs.trees.contains(tree) <==> exists|key: TreeKey| #[trigger]
                shows_tree(core, open, key) && core.flow.content.cache.tree(key) == Some(tree)
        }),
{
    reveal(SpecClientCore::explorer_inputs);
    let cache = core.flow.content.cache;
    let targets = open.current_targets();
    let heads = match core.browsed() {
        Some(k) => seq![k],
        None => targets.map_values(head_tree()),
    };
    let f = cached_tree(cache);
    data::lemma_images_has(heads, f, tree);
    let inputs = core.explorer_inputs(open);
    if inputs.trees.contains(tree) {
        let i = choose|i: int| 0 <= i < heads.len() && f(#[trigger] heads[i]) == Some(tree);
        if core.browsed() is None {
            assert(is_head(targets, heads[i], i));
        }
        assert(shows_tree(core, open, heads[i]));
    }
    if exists|key: TreeKey| #[trigger] shows_tree(core, open, key) && cache.tree(key) == Some(tree) {
        let key = choose|key: TreeKey| #[trigger] shows_tree(core, open, key) && cache.tree(key) == Some(tree);
        if core.browsed() is Some {
            assert(heads[0] == key);
        } else {
            let i = choose|i: int| #[trigger] is_head(targets, key, i);
            assert(heads[i] == key);
        }
    }
}

/// The counts of a file are those of its header, once that is cached; a
/// binary file has none.
pub proof fn counts_come_from_the_headers(core: SpecClientCore, open: SpecOpenReview, s: SpecFileStat)
    ensures
        core.file_stats(open).contains(s) <==> exists|i: int| #[trigger] has_counts(core, open, s, i),
{
    let f = counted(core.flow.content.cache);
    data::lemma_images_has(open.files, f, s);
    if core.file_stats(open).contains(s) {
        let i = choose|i: int| 0 <= i < open.files.len() && f(#[trigger] open.files[i]) == Some(s);
        assert(has_counts(core, open, s, i));
    }
    if exists|i: int| #[trigger] has_counts(core, open, s, i) {
        let i = choose|i: int| #[trigger] has_counts(core, open, s, i);
        assert(f(open.files[i]) == Some(s));
    }
}

/// The file at `i` has a cached header with those counts.
pub open spec fn has_counts(core: SpecClientCore, open: SpecOpenReview, s: SpecFileStat, i: int) -> bool {
    &&& 0 <= i < open.files.len()
    &&& s.file.repo_id == open.files[i].repo_id
    &&& s.file.path == open.files[i].path
    &&& core.flow.content.cache.header(open.files[i]) is Some
    &&& (core.flow.content.cache.header(open.files[i])->0).content matches SpecRenderContent::Text {
        additions,
        deletions,
        ..
    } && s.additions == additions && s.deletions == deletions
}

/// A thread counts for the file its root is anchored to, on lines or as a
/// whole; one on the review counts for none.
pub proof fn threads_count_for_the_file_they_are_on(snapshot: SpecReviewSnapshot, t: SpecThread, r: int)
    requires
        named_comment(snapshot.comments, t.root, r),
    ensures
        match snapshot.comments[r].anchor {
            SpecAnchor::Review => anchored_on(snapshot)(t) is None,
            SpecAnchor::File { repo_id, path, .. } => anchored_on(snapshot)(t) == Some(SpecFileRef { repo_id, path }),
            SpecAnchor::Lines { repo_id, path, .. } => anchored_on(snapshot)(t) == Some(
                SpecFileRef { repo_id, path },
            ),
        },
{
    lemma_comment_at(snapshot.comments, t.root);
}

/// The repository at `k` of workspace `w` has that name.
pub open spec fn names_repo(workspaces: Seq<SpecWorkspace>, n: SpecRepoName, w: int, k: int) -> bool {
    &&& 0 <= w < workspaces.len()
    &&& 0 <= k < workspaces[w].repos.len()
    &&& workspaces[w].repos[k].id == n.id
    &&& workspaces[w].repos[k].display_name == n.name
}

/// Repositories are called what the workspaces call them.
pub proof fn repositories_are_called_by_their_name(workspaces: Seq<SpecWorkspace>, n: SpecRepoName)
    ensures
        repo_names(workspaces).contains(n) <==> exists|w: int, k: int| #[trigger] names_repo(workspaces, n, w, k),
    decreases workspaces.len(),
{
    if workspaces.len() > 0 {
        let rest = workspaces.drop_last();
        let last = workspaces.last();
        repositories_are_called_by_their_name(rest, n);
        let more = last.repos.map_values(named_repo());
        vstd::seq_lib::lemma_seq_concat_contains_all_elements(repo_names(rest), more, n);
        if repo_names(rest).contains(n) {
            let (w, k) = choose|w: int, k: int| #[trigger] names_repo(rest, n, w, k);
            assert(names_repo(workspaces, n, w, k));
        }
        if more.contains(n) {
            let k = choose|k: int| 0 <= k < more.len() && more[k] == n;
            assert(names_repo(workspaces, n, workspaces.len() - 1, k));
        }
        if exists|w: int, k: int| #[trigger] names_repo(workspaces, n, w, k) {
            let (w, k) = choose|w: int, k: int| #[trigger] names_repo(workspaces, n, w, k);
            if w < rest.len() {
                assert(names_repo(rest, n, w, k));
            } else {
                assert(more[k] == n);
            }
        }
    }
}

// ---- diffs ----------------------------------------------------------------

/// A file is folded as it was set by hand, else exactly when it is viewed;
/// nothing else of its diff changes.
pub proof fn files_are_folded_by_hand_or_when_viewed(d: SpecDiffView, folds: Seq<SpecFolded>, i: int)
    ensures
        0 <= i < folds.len() && folds[i].file == d.file && (forall|j: int|
            0 <= j < i ==> (#[trigger] folds[j]).file != d.file) ==> folded(d, folds).collapsed == folds[i].folded,
        (forall|j: int| 0 <= j < folds.len() ==> (#[trigger] folds[j]).file != d.file) ==> folded(d, folds).collapsed
            == (d.viewed is Viewed),
        folded(d, folds).rows == d.rows,
        folded(d, folds).file == d.file,
        folded(d, folds).viewed == d.viewed,
        folded(d, folds).missing == d.missing,
{
    let p = folded_file(d.file);
    data::lemma_first_where(folds, p);
    if 0 <= i < folds.len() && folds[i].file == d.file && (forall|j: int|
        0 <= j < i ==> (#[trigger] folds[j]).file != d.file) {
        assert(p(folds[i]));
        let k = data::first_where(folds, p)->0;
        assert(p(folds[k]));
        if i < k {
            assert(!p(folds[i]));
        }
    }
    if forall|j: int| 0 <= j < folds.len() ==> (#[trigger] folds[j]).file != d.file {
        if let Some(k) = data::first_where(folds, p) {
            assert(p(folds[k]));
        }
    }
}

/// When a wider render comes, the cursor goes to the row whose cell is the
/// line it was on, and the viewport moves with it.
pub proof fn the_cursor_stays_on_its_line(core: SpecClientCore, now: SpecDiffRow)
    requires
        core.awaited_row() == Some(now),
        core.view.focus matches Focus::Diff { row, .. } && row == (core.realign->0).row,
        now.index != (core.realign->0).row,
    ensures
        cell_line(now.row, (core.realign->0).side) == Some((core.realign->0).line),
        ({
            let out = core.realigned();
            let from = (core.realign->0).row;
            &&& out.realign is None
            &&& (out.view.focus matches Focus::Diff { row, side } && row == now.index && side
                == core.view.focus->Diff_side)
            &&& core.view.review is Some && (core.view.review->0).open_file is Some ==> {
                let a = (core.view.review->0).open_file->0;
                &&& out.view.review is Some
                &&& (out.view.review->0).open_file is Some
                &&& ((out.view.review->0).open_file->0).render == a.render
                &&& 0 <= a.first_row + now.index - from <= u32::MAX ==> (
                (out.view.review->0).open_file->0).first_row == a.first_row + now.index - from
                &&& 0 <= a.last_row + now.index - from <= u32::MAX ==> ((out.view.review->0).open_file->0).last_row
                    == a.last_row + now.index - from
            }
        }),
{
    reveal(SpecClientCore::realigned);
    reveal(SpecClientCore::followed);
    let want = core.realign->0;
    let open = core.view.review->0;
    let rows = crate::diff::every_row(core.flow.content.cache, open.snapshot, want.render);
    let p = row_with(want.side, want.line);
    data::lemma_first_where(rows, p);
    let k = data::first_where(rows, p)->0;
    assert(p(rows[k]));
    rows_are_the_lines_of_their_cells(now.row);
}

/// A row moves as its line did; one that would leave the file is the first.
pub proof fn rows_shift_with_their_line(n: u32, from: u32, to: u32)
    ensures
        0 <= n + to - from <= u32::MAX ==> shifted(n, from, to) == n + to - from,
        !(0 <= n + to - from <= u32::MAX) ==> shifted(n, from, to) == 0,
        shifted(from, from, to) == to,
        shifted(n, from, from) == n,
{
}

/// The conversation is what changes with the threads: those on the review.
pub proof fn the_conversation_is_the_threads_on_the_review(core: SpecClientCore, v: SpecThreadView)
    requires
        core.shown_threads() != core.view.threads,
    ensures
        core.derived_threads().view.threads == core.shown_threads(),
        core.derived_threads().view.conversation.contains(v) <==> core.shown_threads().contains(v) && v.place is Review,
{
    reveal(SpecClientCore::derived_threads);
    reveal(SpecClientCore::with_conversation);
    data::lemma_filter_has(core.shown_threads(), on_review(), v);
}

} // verus!
