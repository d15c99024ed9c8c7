//! What looking around does, said of the parts it changes.
use vstd::prelude::*;

use crate::cache::SpecRenderKey;
use crate::client::{ScopeChoice, SearchKind, SpecClientCore, SpecCoreError, SpecFolded};
use crate::data;
use crate::diff::{SpecFileRef, SpecThreadPlace};
use crate::difflaws::{cell_line, rows_are_the_lines_of_their_cells};
use crate::eventlaws::{lemma_comment_at, lemma_thread_at, named_comment, named_thread};
use crate::explorer::{dirs, visible, SpecDirKey, SpecTreeNode};
use crate::explorerlaws::{first_changed, lemma_first_changed};
use crate::flow::{SpecErrand, SpecKey, SpecPersisted};
use crate::focus::{within, Focus, SpecRealign};
use crate::protocol::{
    DiffScope, ExpandDir, Expansion, Gap, RepoId, RequestId, ResolvedTarget, SpecAnchor, SpecClientMsg,
    SpecCommentContext, SpecExpansions, SpecRenderContent, SpecRenderOpts, SpecRenderTarget, SpecRepoPath,
    SpecRequest, ThreadId,
};
use crate::reading::{
    dir_of, folded_file, from_worktree, gap_is, other_dir, other_fold, page_end, page_start, parent, row_at, toggled,
    widened, with_dirs, Widening,
};
use crate::text;
use crate::view::{ScrollAlign, SpecViewModel, Tab, ViewPrefs};

verus! {

// ---- the focus ------------------------------------------------------------

/// A row that is there keeps the focus; one that is not gives it to the last
/// row there is.
pub proof fn lists_keep_the_focus_on_a_row(index: usize, len: nat)
    ensures
        index < len ==> within(index, len) == index,
        0 < len <= index ==> within(index, len) == len - 1,
        len == 0 ==> within(index, len) == 0,
{
}

/// The focus stays in its list, on a row that list has.
pub proof fn the_focus_stays_in_its_list(view: SpecViewModel, focus: Focus)
    ensures
        view.clamp(focus).spec_context() == focus.spec_context(),
        focus matches Focus::ReviewList { index } ==> view.clamp(focus) == (Focus::ReviewList {
            index: within(index, view.home.rows.len()),
        }),
        focus matches Focus::Tree { index } ==> view.clamp(focus) == (Focus::Tree {
            index: within(index, visible(view.tree.roots).len()),
        }),
        focus matches Focus::Thread { index } ==> view.clamp(focus) == (Focus::Thread {
            index: within(index, view.threads.len()),
        }),
        focus matches Focus::ReviewRequest { index } ==> view.clamp(focus) == (Focus::ReviewRequest {
            index: within(index, view.requests.len()),
        }),
        focus matches Focus::Diff { row, side } ==> (view.clamp(focus) matches Focus::Diff { row: r, side: s } && {
            &&& s == side
            &&& view.diff is None ==> r == row
            &&& view.diff matches Some(d) ==> (d.content matches SpecRenderContent::Text { total_rows, .. } ==> {
                &&& row < total_rows ==> r == row
                &&& 0 < total_rows <= row ==> r == total_rows - 1
            })
        }),
{
}

/// Each place has the keys of its own context.
pub proof fn places_have_their_own_keys(focus: Focus)
    ensures
        focus is ReviewList <==> focus.spec_context() is ReviewList,
        focus is Tree <==> focus.spec_context() is Tree,
        focus is Diff <==> focus.spec_context() is Diff,
        focus is Thread <==> focus.spec_context() is Thread,
        focus is ReviewRequest <==> focus.spec_context() is Requests,
        focus is Composer <==> focus.spec_context() is Composer,
        focus is CommitStepper <==> focus.spec_context() is CommitStepper,
        focus is Help <==> focus.spec_context() is Help,
{
}

/// The file under the focus is the one its row is, or is about.
pub proof fn the_focus_is_on_the_file_of_its_row(view: SpecViewModel, focus: Focus)
    ensures
        focus matches Focus::Tree { index } ==> {
            &&& index >= visible(view.tree.roots).len() ==> view.target_file(focus) is None
            &&& index < visible(view.tree.roots).len() ==> match visible(view.tree.roots)[index as int] {
                SpecTreeNode::File { repo_id, path, .. } => view.target_file(focus) == Some(
                    SpecFileRef { repo_id, path },
                ) && view.target_repo(focus) == Some(repo_id),
                SpecTreeNode::Dir { repo_id, .. } => view.target_file(focus) is None && view.target_repo(focus)
                    == Some(repo_id),
            }
        },
        focus is Diff ==> (view.target_file(focus) is Some <==> view.diff is Some) && (view.diff matches Some(d)
            ==> view.target_file(focus) == Some(d.file) && view.target_repo(focus) == Some(d.file.repo_id)),
        focus matches Focus::Thread { index } ==> {
            &&& index >= view.threads.len() ==> view.target_file(focus) is None
            &&& index < view.threads.len() ==> match view.threads[index as int].place {
                SpecThreadPlace::Review => view.target_file(focus) is None,
                SpecThreadPlace::File { file } => view.target_file(focus) == Some(file),
                SpecThreadPlace::Lines { file, .. } => view.target_file(focus) == Some(file),
            }
        },
        focus is ReviewList || focus is ReviewRequest || focus is Composer || focus is Help ==> view.target_file(
            focus,
        ) is None && view.target_repo(focus) is None,
        focus is CommitStepper ==> view.target_file(focus) is None && (view.stepper matches Some(s)
            ==> view.target_repo(focus) == Some(s.repo_id)),
{
}

// ---- pages ----------------------------------------------------------------

/// A page holds the row it is opened for, in its middle where there is room,
/// and sixty rows in all.
pub proof fn pages_hold_their_row(row: u32)
    ensures
        page_start(row) <= row <= page_end(page_start(row)),
        row >= 30 ==> page_start(row) == row - 30,
        row < 30 ==> page_start(row) == 0,
        page_start(row) <= u32::MAX - 59 ==> page_end(page_start(row)) == page_start(row) + 59,
{
}

// ---- directories ----------------------------------------------------------

/// Toggling a directory flips it and no other; twice leaves all as they were.
pub proof fn toggling_flips_one_directory(set: Seq<SpecDirKey>, key: SpecDirKey, other: SpecDirKey)
    ensures
        toggled(set, key).contains(key) <==> !set.contains(key),
        other != key ==> (toggled(set, key).contains(other) <==> set.contains(other)),
        toggled(toggled(set, key), key).contains(other) <==> set.contains(other),
{
    lemma_toggled(set, key, key);
    lemma_toggled(set, key, other);
    lemma_toggled(toggled(set, key), key, other);
}

proof fn lemma_toggled(set: Seq<SpecDirKey>, key: SpecDirKey, other: SpecDirKey)
    ensures
        toggled(set, key).contains(other) <==> (if other == key { !set.contains(key) } else { set.contains(other) }),
{
    data::lemma_filter_has(set, other_dir(key), other);
    vstd::seq_lib::lemma_seq_contains_after_push(set, key, other);
}

/// A set with directories added has those and the ones it had.
pub proof fn directories_are_added_to_the_set(set: Seq<SpecDirKey>, keys: Seq<SpecDirKey>, other: SpecDirKey)
    ensures
        with_dirs(set, keys).contains(other) <==> set.contains(other) || keys.contains(other),
    decreases keys.len(),
{
    if keys.len() > 0 {
        let rest = keys.drop_last();
        directories_are_added_to_the_set(set, rest, other);
        assert(keys =~= rest.push(keys.last()));
        vstd::seq_lib::lemma_seq_contains_after_push(rest, keys.last(), other);
        vstd::seq_lib::lemma_seq_contains_after_push(with_dirs(set, rest), keys.last(), other);
    }
}

/// While browsing, what is toggled is what is open; elsewhere it is what is
/// closed. The other set stays.
pub proof fn directories_are_toggled_where_they_are_shown(core: SpecClientCore, key: SpecDirKey)
    ensures
        core.toggle_dir(key) is Ok <==> core.view.review is Some,
        core.toggle_dir(key) matches Ok(out) ==> {
            &&& core.view.tab is Browse ==> {
                &&& out.explorer.expanded.contains(key) <==> !core.explorer.expanded.contains(key)
                &&& out.explorer.collapsed == core.explorer.collapsed
            }
            &&& !(core.view.tab is Browse) ==> {
                &&& out.explorer.collapsed.contains(key) <==> !core.explorer.collapsed.contains(key)
                &&& out.explorer.expanded == core.explorer.expanded
            }
            &&& out.explorer.search == core.explorer.search
            &&& out.view == core.view
            &&& out.flow == core.flow
        },
{
    reveal(SpecClientCore::toggle_dir);
    toggling_flips_one_directory(core.explorer.expanded, key, key);
    toggling_flips_one_directory(core.explorer.collapsed, key, key);
}

/// A file or directory is in the directory its path names before the last
/// name; one without such is in the root of the repository.
pub proof fn paths_are_in_the_directory_before_their_name(dir: Seq<char>, name: Seq<char>)
    requires
        forall|i: int| 0 <= i < name.len() ==> #[trigger] name[i] != '/',
    ensures
        parent(Some(SpecRepoPath { text: dir + seq!['/'] + name })) == (if text::is_path(dir) {
            Some(SpecRepoPath { text: dir })
        } else {
            None
        }),
        parent(Some(SpecRepoPath { text: name })) is None,
        parent(None) is None,
{
    lemma_before_last(dir, name);
    lemma_no_last(name);
}

proof fn lemma_before_last(dir: Seq<char>, name: Seq<char>)
    requires
        forall|i: int| 0 <= i < name.len() ==> #[trigger] name[i] != '/',
    ensures
        text::before_last(dir + seq!['/'] + name, '/') == Some(dir),
    decreases name.len(),
{
    let s = dir + seq!['/'] + name;
    if name.len() == 0 {
        assert(s.drop_last() =~= dir);
    } else {
        let rest = name.drop_last();
        assert(s.drop_last() =~= dir + seq!['/'] + rest);
        assert(s.last() == name[name.len() - 1]);
        lemma_before_last(dir, rest);
    }
}

proof fn lemma_no_last(name: Seq<char>)
    requires
        forall|i: int| 0 <= i < name.len() ==> #[trigger] name[i] != '/',
    ensures
        text::before_last(name, '/') is None,
    decreases name.len(),
{
    if name.len() > 0 {
        assert(name.last() == name[name.len() - 1]);
        lemma_no_last(name.drop_last());
    }
}

/// An open directory collapses itself; anything else collapses the directory
/// it is in.
pub proof fn nodes_collapse_their_directory(node: SpecTreeNode)
    ensures
        node matches SpecTreeNode::Dir { repo_id, path, expanded, .. } ==> {
            &&& node.to_collapse().repo_id == repo_id
            &&& expanded ==> node.to_collapse().path == path
            &&& !expanded ==> node.to_collapse().path == parent(path)
        },
        node matches SpecTreeNode::File { repo_id, path, .. } ==> node.to_collapse().repo_id == repo_id
            && node.to_collapse().path == parent(Some(path)),
{
}

/// A directory that is closed is shown closed, and every other as before.
pub proof fn closing_a_directory_closes_it_alone(core: SpecClientCore, key: SpecDirKey, other: SpecDirKey)
    ensures
        ({
            let out = core.dir_closed(key);
            &&& core.view.tab is Browse ==> {
                &&& out.explorer.expanded.contains(other) <==> core.explorer.expanded.contains(other) && other != key
                &&& out.explorer.collapsed == core.explorer.collapsed
            }
            &&& !(core.view.tab is Browse) ==> {
                &&& out.explorer.collapsed.contains(other) <==> core.explorer.collapsed.contains(other) || other == key
                &&& out.explorer.expanded == core.explorer.expanded
            }
            &&& out.view == core.view
        }),
{
    data::lemma_filter_has(core.explorer.expanded, other_dir(key), other);
    vstd::seq_lib::lemma_seq_contains_after_push(core.explorer.collapsed, key, other);
}

/// Collapsing closes the directory of the node that has the focus, and the
/// focus goes to that directory.
pub proof fn collapsing_moves_to_the_directory(core: SpecClientCore, index: usize)
    requires
        core.view.review is Some,
        core.view.focus == (Focus::Tree { index }),
        index < visible(core.view.tree.roots).len(),
    ensures
        core.collapse_parent() is Ok,
        ({
            let nodes = visible(core.view.tree.roots);
            let key = nodes[index as int].to_collapse();
            let out = core.collapse_parent()->Ok_0;
            &&& out.explorer == core.dir_closed(key).explorer
            &&& forall|i: int|
                0 <= i < nodes.len() && i <= usize::MAX && is_dir_node(#[trigger] nodes[i], key) && (forall|j: int|
                    0 <= j < i ==> !is_dir_node(#[trigger] nodes[j], key)) ==> out.view.focus == (Focus::Tree {
                    index: i as usize,
                })
            &&& (forall|j: int| 0 <= j < nodes.len() ==> !is_dir_node(#[trigger] nodes[j], key)) ==> out.view.focus
                == core.view.focus
        }),
{
    reveal(SpecClientCore::collapse_parent);
    let nodes = visible(core.view.tree.roots);
    let key = nodes[index as int].to_collapse();
    let p = dir_of(key);
    data::lemma_first_where(nodes, p);
    assert forall|i: int|
        0 <= i < nodes.len() && is_dir_node(#[trigger] nodes[i], key) && (forall|j: int|
            0 <= j < i ==> !is_dir_node(#[trigger] nodes[j], key)) implies data::first_where(nodes, p) == Some(i) by {
        assert(p(nodes[i]));
        let k = data::first_where(nodes, p)->0;
        assert(p(nodes[k]));
        assert(is_dir_node(nodes[k], key));
        if i < k {
            assert(!p(nodes[i]));
        }
    }
    if forall|j: int| 0 <= j < nodes.len() ==> !is_dir_node(#[trigger] nodes[j], key) {
        if let Some(k) = data::first_where(nodes, p) {
            assert(p(nodes[k]));
            assert(is_dir_node(nodes[k], key));
        }
    }
}

/// The node is that directory.
pub open spec fn is_dir_node(node: SpecTreeNode, key: SpecDirKey) -> bool {
    node matches SpecTreeNode::Dir { repo_id, path, .. } && (repo_id == key.repo_id && path == key.path)
}

/// Collapsing everything closes every directory of the tree.
pub proof fn collapsing_all_closes_every_directory(core: SpecClientCore, key: SpecDirKey)
    requires
        core.view.review is Some,
    ensures
        core.collapse_all() is Ok,
        ({
            let out = core.collapse_all()->Ok_0;
            &&& core.view.tab is Browse ==> !out.explorer.expanded.contains(key) && out.explorer.collapsed
                == core.explorer.collapsed
            &&& !(core.view.tab is Browse) ==> (out.explorer.collapsed.contains(key)
                <==> core.explorer.collapsed.contains(key) || dirs(core.view.tree.roots).contains(key))
            &&& core.view.focus is Tree ==> out.view.focus == (Focus::Tree { index: 0 })
            &&& !(core.view.focus is Tree) ==> out.view.focus == core.view.focus
        }),
{
    reveal(SpecClientCore::collapse_all);
    directories_are_added_to_the_set(core.explorer.collapsed, dirs(core.view.tree.roots), key);
}

/// What is visible of a tree is each node in turn, and below a directory that
/// is open what is visible of it.
pub proof fn open_directories_show_what_is_in_them(nodes: Seq<SpecTreeNode>, node: SpecTreeNode)
    ensures
        visible(Seq::empty()).len() == 0,
        visible(nodes.push(node)) == visible(nodes) + seq![node] + (match node {
            SpecTreeNode::Dir { expanded: true, children, .. } => visible(children),
            _ => Seq::empty(),
        }),
        dirs(Seq::empty()).len() == 0,
        dirs(nodes.push(node)) == dirs(nodes) + (match node {
            SpecTreeNode::Dir { repo_id, path, children, .. } => seq![SpecDirKey { repo_id, path }] + dirs(children),
            SpecTreeNode::File { .. } => Seq::empty(),
        }),
{
    assert(nodes.push(node).subrange(0, nodes.len() as int) =~= nodes);
}

// ---- renders --------------------------------------------------------------

/// The gap at `i` is the first under that number.
pub open spec fn named_gap(open: Seq<Expansion>, gap: Gap, i: int) -> bool {
    &&& 0 <= i < open.len()
    &&& open[i].gap == gap
    &&& forall|j: int| 0 <= j < i ==> (#[trigger] open[j]).gap != gap
}

/// A gap opens a step further on the side asked for; the other side and the
/// other gaps stay.
pub proof fn gaps_open_a_step_further(e: SpecExpansions, gap: Gap, dir: ExpandDir, step: u32)
    ensures
        ({
            let out = e.opened(gap, dir, step).open;
            &&& forall|i: int| #[trigger]
                named_gap(e.open, gap, i) ==> {
                    &&& out.len() == e.open.len()
                    &&& forall|j: int| 0 <= j < out.len() && j != i ==> #[trigger] out[j] == e.open[j]
                    &&& out[i].gap == gap
                    &&& dir is Up ==> out[i].down == e.open[i].down && (e.open[i].up + step <= u32::MAX ==> out[i].up
                        == e.open[i].up + step)
                    &&& dir is Down ==> out[i].up == e.open[i].up && (e.open[i].down + step <= u32::MAX
                        ==> out[i].down == e.open[i].down + step)
                }
            &&& (forall|j: int| 0 <= j < e.open.len() ==> (#[trigger] e.open[j]).gap != gap) ==> {
                &&& out.len() == e.open.len() + 1
                &&& forall|j: int| 0 <= j < e.open.len() ==> #[trigger] out[j] == e.open[j]
                &&& out.last().gap == gap
                &&& dir is Up ==> out.last().up == step && out.last().down == 0
                &&& dir is Down ==> out.last().down == step && out.last().up == 0
            }
        }),
{
    let p = gap_is(gap);
    data::lemma_first_where(e.open, p);
    assert forall|i: int| #[trigger] named_gap(e.open, gap, i) implies data::first_where(e.open, p) == Some(i) by {
        assert(p(e.open[i]));
        let k = data::first_where(e.open, p)->0;
        assert(p(e.open[k]));
        if k < i {
            assert(e.open[k].gap != gap);
        }
        if i < k {
            assert(!p(e.open[i]));
        }
    }
    if forall|j: int| 0 <= j < e.open.len() ==> (#[trigger] e.open[j]).gap != gap {
        if let Some(k) = data::first_where(e.open, p) {
            assert(p(e.open[k]));
        }
    }
}

/// More context is twenty lines more, or the whole file; either way the gaps
/// that were opened are counted anew, and how whitespace is treated stays.
pub proof fn context_widens_by_twenty_lines(opts: SpecRenderOpts)
    ensures
        opts.widened(Widening::Step).expanded.open.len() == 0,
        opts.context_lines <= u32::MAX - 20 ==> opts.widened(Widening::Step).context_lines == opts.context_lines + 20,
        opts.widened(Widening::Step).ignore_whitespace == opts.ignore_whitespace,
        opts.widened(Widening::Full).expanded.open.len() == 0,
        opts.widened(Widening::Full).context_lines == 1_000_000,
        opts.widened(Widening::Full).ignore_whitespace == opts.ignore_whitespace,
        forall|gap: Gap, dir: ExpandDir|
            (#[trigger] opts.widened(Widening::Gap { gap, dir })).context_lines == opts.context_lines && opts.widened(
                Widening::Gap { gap, dir },
            ).expanded == opts.expanded.opened(gap, dir, 20) && opts.widened(
                Widening::Gap { gap, dir },
            ).ignore_whitespace == opts.ignore_whitespace,
{
}

/// A widened file is rendered with its own new options; the other files stay,
/// and the file stays open if it was.
pub proof fn files_are_rendered_anew_alone(core: SpecClientCore, file: SpecFileRef, by: Widening, i: int)
    requires
        core.connection is Subscribed,
        core.view.review is Some,
        first_changed((core.view.review->0).files, file.repo_id, file.path, i),
    ensures
        core.re_render(file, by) is Ok,
        ({
            let open = core.view.review->0;
            let out = core.re_render(file, by)->Ok_0;
            let new_key = SpecRenderKey { opts: open.files[i].opts.widened(by), ..open.files[i] };
            &&& out.view.review is Some
            &&& (out.view.review->0).files.len() == open.files.len()
            &&& (out.view.review->0).files[i] == new_key
            &&& forall|j: int|
                0 <= j < open.files.len() && j != i ==> #[trigger] (out.view.review->0).files[j] == open.files[j]
            &&& open.open_file is Some && (open.open_file->0).render == open.files[i] ==> (
            out.view.review->0).open_file is Some && ((out.view.review->0).open_file->0).render == new_key
            &&& open.open_file is None || (open.open_file->0).render != open.files[i] ==> (
            out.view.review->0).open_file == open.open_file
            &&& (out.view.review->0).snapshot == open.snapshot
            &&& out.view.focus == core.view.focus
        }),
{
    reveal(SpecClientCore::re_render);
    reveal(SpecClientCore::rekeyed);
    let open = core.view.review->0;
    lemma_first_changed(open.files, file.repo_id, file.path);
    let p = crate::explorer::file_of(file.repo_id, file.path);
    data::lemma_first_where(open.files, p);
    assert(data::first_where(open.files, p) == Some(i)) by {
        assert(p(open.files[i]));
        let k = data::first_where(open.files, p)->0;
        assert(p(open.files[k]));
        if k < i {
            assert(!(open.files[k].repo_id == file.repo_id && open.files[k].path == file.path));
        }
        if i < k {
            assert(!p(open.files[i]));
        }
    }
    let new_key = SpecRenderKey { opts: open.files[i].opts.widened(by), ..open.files[i] };
    crate::fetchlaws::lemma_want_open_render(
        core.rekeyed(i, new_key),
        open.snapshot.review.id,
        new_key,
    );
}

/// The line the cursor is on is that of its row's cell on its side.
pub proof fn the_cursor_is_on_the_line_of_its_cell(core: SpecClientCore, render: SpecRenderKey, k: int)
    requires
        core.view.focus is Diff,
        core.open_render() == Some(render),
        core.view.diff is Some,
        0 <= k < (core.view.diff->0).rows.len(),
        (core.view.diff->0).rows[k].index == core.view.focus->Diff_row,
        forall|j: int| 0 <= j < k ==> (#[trigger] (core.view.diff->0).rows[j]).index != core.view.focus->Diff_row,
    ensures
        match cell_line((core.view.diff->0).rows[k].row, core.view.focus->Diff_side) {
            Some(line) => core.focused_line(render, render) == Some(
                SpecRealign {
                    render,
                    side: core.view.focus->Diff_side,
                    line,
                    row: core.view.focus->Diff_row,
                },
            ),
            None => core.focused_line(render, render) is None,
        },
{
    let rows = (core.view.diff->0).rows;
    let p = row_at(core.view.focus->Diff_row);
    data::lemma_first_where(rows, p);
    assert(p(rows[k]));
    let i = data::first_where(rows, p)->0;
    assert(p(rows[i]));
    if k < i {
        assert(!p(rows[k]));
    }
    rows_are_the_lines_of_their_cells(rows[k].row);
}

/// Scrolling names the row and where it should sit, under a new number so that
/// the same scroll can be asked for again.
pub proof fn scrolls_name_their_row(core: SpecClientCore, row: u32, align: ScrollAlign)
    ensures
        core.scrolled(row, align).view.scroll is Some,
        (core.scrolled(row, align).view.scroll->0).row == row,
        (core.scrolled(row, align).view.scroll->0).align == align,
        core.view.scroll matches Some(s) ==> (core.scrolled(row, align).view.scroll->0).seq != s.seq,
        core.scrolled(row, align).view.focus == core.view.focus,
        core.scroll_view(align) is Ok <==> core.view.focus is Diff,
        core.scroll_view(align) matches Ok(out) ==> out.view.scroll is Some && (out.view.scroll->0).row
            == core.view.focus->Diff_row && (out.view.scroll->0).align == align,
{
    reveal(SpecClientCore::scrolled);
    reveal(SpecClientCore::scroll_view);
}

// ---- preferences, tabs, folds ---------------------------------------------

/// New preferences are shown, and stored if asked. Only if they change how
/// files are rendered are the files listed anew.
pub proof fn preferences_change_what_they_name(core: SpecClientCore, prefs: ViewPrefs, save: bool)
    ensures
        ({
            let out = core.apply_prefs(prefs, save);
            let same = prefs.ignore_whitespace == core.view.prefs.ignore_whitespace && prefs.context_lines
                == core.view.prefs.context_lines;
            let told = SpecErrand::Persist { key: SpecKey::Prefs, value: SpecPersisted::Prefs { prefs } };
            &&& out.view.prefs == prefs
            &&& same ==> out.view.review == core.view.review
            &&& same && save ==> out.flow.out == core.flow.out.push(told)
            &&& same && !save ==> out.flow.out == core.flow.out
            &&& !same ==> out.flow.content.config.render_opts.ignore_whitespace == prefs.ignore_whitespace
                && out.flow.content.config.render_opts.context_lines == prefs.context_lines
            &&& !same && core.view.review is Some ==> out.view.review is Some && (out.view.review->0).files.len() == 0
                && (out.view.review->0).open_file is None && (out.view.review->0).snapshot == (
            core.view.review->0).snapshot
            &&& out.view.focus == core.view.focus
            &&& out.pending == core.pending
        }),
{
    reveal(SpecClientCore::apply_prefs);
    reveal(SpecClientCore::reoptioned);
    reveal(SpecClientCore::unlisted);
    reveal(crate::flow::SpecFlow::request);
}

/// A tab is shown once it is chosen; invitations keep the focus only on the
/// conversation tab.
pub proof fn tabs_are_shown_when_chosen(core: SpecClientCore, tab: Tab)
    ensures
        core.set_tab(tab).view.tab == tab,
        core.view.tab == tab ==> core.set_tab(tab) == core,
        !(core.view.focus is ReviewRequest) || tab is Conversation ==> core.set_tab(tab).view.focus == core.view.focus,
        core.view.focus is ReviewRequest && !(tab is Conversation) && core.view.tab != tab ==> core.set_tab(
            tab,
        ).view.focus is Diff,
        core.set_tab(tab).view.review == core.view.review,
{
    reveal(SpecClientCore::set_tab);
}

/// Folding a file by hand flips how it is shown and no other; from then on it
/// is what was set by hand.
pub proof fn folding_flips_one_file(core: SpecClientCore, file: SpecFileRef, other: SpecFileRef)
    requires
        core.view.review is Some,
        other != file,
    ensures
        core.toggle_file_collapse(file) is Ok,
        core.toggle_file_collapse(file)->Ok_0.is_folded(file) == !core.is_folded(file),
        core.toggle_file_collapse(file)->Ok_0.is_folded(other) == core.is_folded(other),
        core.toggle_file_collapse(file)->Ok_0.view == core.view,
{
    reveal(SpecClientCore::toggle_file_collapse);
    let rest = core.file_collapse.filter(other_fold(file));
    let new = SpecFolded { file, folded: !core.is_folded(file) };
    let all = rest.push(new);
    let mine = folded_file(file);
    let theirs = folded_file(other);
    assert forall|i: int| 0 <= i < rest.len() implies !mine(#[trigger] rest[i]) by {
        assert(rest.contains(rest[i]));
        data::lemma_filter_has(core.file_collapse, other_fold(file), rest[i]);
    }
    data::lemma_first_where(all, mine);
    assert(mine(all[rest.len() as int]));
    assert(data::first_where(all, mine) == Some(rest.len() as int)) by {
        let k = data::first_where(all, mine)->0;
        assert(mine(all[k]));
        if k < rest.len() {
            assert(all[k] == rest[k]);
        }
    }
    assert(data::found(all, mine) == Some(new));
    assert(data::found(rest, theirs) == data::found(core.file_collapse, theirs)) by {
        data::lemma_found_filtered(core.file_collapse, other_fold(file), theirs);
        data::lemma_found_alike(core.file_collapse, data::both(other_fold(file), theirs), theirs);
    }
    assert(data::found(all, theirs) == data::found(rest, theirs)) by {
        data::lemma_first_where(all, theirs);
        data::lemma_first_where(rest, theirs);
        match data::first_where(rest, theirs) {
            Some(k) => {
                assert(theirs(all[k]));
                let m = data::first_where(all, theirs)->0;
                assert(theirs(all[m]));
                if m < k {
                    assert(all[m] == rest[m]);
                    assert(!theirs(rest[m]));
                }
                if k < m {
                    assert(!theirs(all[k]));
                }
            },
            None => {
                if let Some(m) = data::first_where(all, theirs) {
                    assert(theirs(all[m]));
                    if m < rest.len() {
                        assert(all[m] == rest[m]);
                        assert(!theirs(rest[m]));
                    }
                }
            },
        }
    }
}

// ---- scopes ---------------------------------------------------------------

/// Another scope forgets the files of the one before and asks for its own;
/// the same scope changes nothing.
pub proof fn scopes_list_their_own_files(core: SpecClientCore, scope: DiffScope)
    requires
        core.view.review is Some,
    ensures
        (core.view.review->0).scope == scope ==> core.apply_scope(scope) == core,
        (core.view.review->0).scope != scope ==> {
            let out = core.apply_scope(scope);
            &&& out.view.review is Some
            &&& (out.view.review->0).scope == scope
            &&& (out.view.review->0).files.len() == 0
            &&& (out.view.review->0).open_file is None
            &&& out.committed == core.committed
            &&& out.pending == core.pending
            &&& core.connection is Subscribed ==> out.flow.out == core.flow.out.push(
                SpecErrand::Send(
                    SpecClientMsg::Request {
                        id: RequestId(core.flow.wire.next_request),
                        request: SpecRequest::ListFiles {
                            review_id: (core.view.review->0).snapshot.review.id,
                            scope,
                        },
                    },
                ),
            )
            &&& !(core.connection is Subscribed) ==> out.flow.out == core.flow.out
        },
{
    reveal(SpecClientCore::apply_scope);
    reveal(SpecClientCore::rebased);
    reveal(crate::flow::SpecFlow::request);
}

/// Each choice of scope is that scope; stepping by commits starts at the
/// working tree, else at the newest commit.
pub proof fn choices_of_scope_are_that_scope(core: SpecClientCore)
    requires
        core.connection is Subscribed,
        core.view.review is Some,
    ensures
        core.set_scope(ScopeChoice::All) == Ok::<SpecClientCore, SpecCoreError>(
            core.apply_scope(DiffScope::All),
        ),
        core.set_scope(ScopeChoice::Committed) == Ok::<SpecClientCore, SpecCoreError>(
            core.apply_scope(DiffScope::Committed),
        ),
        forall|repo_id: RepoId, oid: crate::protocol::CommitOid| #[trigger]
            core.set_scope(ScopeChoice::Commit { repo_id, oid }) == Ok::<SpecClientCore, SpecCoreError>(
                core.apply_scope(DiffScope::Commit { repo_id, oid }),
            ),
        forall|repo_id: RepoId| #[trigger]
            core.set_scope(ScopeChoice::Worktree { repo_id }) == Ok::<SpecClientCore, SpecCoreError>(
                core.apply_scope(DiffScope::Worktree { repo_id }),
            ),
{
    reveal(SpecClientCore::set_scope);
}

/// The target at `i` is of the repository, and its head is the working tree.
pub open spec fn has_worktree(targets: Seq<ResolvedTarget>, repo_id: RepoId, i: int) -> bool {
    0 <= i < targets.len() && targets[i].repo_id == repo_id && targets[i].head.source is WorkingTree
}

/// Stepping starts at the working tree where the head is one, else at the
/// newest commit listed.
pub proof fn steps_start_at_the_newest(core: SpecClientCore, repo_id: RepoId)
    requires
        core.view.review is Some,
    ensures
        ({
            let resolved = (core.view.review->0).snapshot.resolved;
            let dirty = resolved is Some && exists|i: int| #[trigger] has_worktree(resolved->0, repo_id, i);
            &&& dirty ==> core.first_step(repo_id) == Some(DiffScope::Worktree { repo_id })
            &&& !dirty && core.stepper is Some && (core.stepper->0).repo_id == repo_id && (
            core.stepper->0).commits.len() > 0 ==> core.first_step(repo_id) == Some(
                DiffScope::Commit { repo_id, oid: (core.stepper->0).commits[0].oid },
            )
            &&& !dirty && !(core.stepper is Some && (core.stepper->0).repo_id == repo_id && (
            core.stepper->0).commits.len() > 0) ==> core.first_step(repo_id) is None
        }),
{
    if let Some(targets) = (core.view.review->0).snapshot.resolved {
        let p = from_worktree(repo_id);
        if data::some_where(targets, p) {
            let i = choose|i: int| 0 <= i < targets.len() && #[trigger] p(targets[i]);
            assert(has_worktree(targets, repo_id, i));
        }
        if exists|i: int| #[trigger] has_worktree(targets, repo_id, i) {
            let i = choose|i: int| #[trigger] has_worktree(targets, repo_id, i);
            assert(p(targets[i]));
        }
    }
}

/// A step is the commit listed there, or the working tree.
pub proof fn steps_are_the_commits_listed(core: SpecClientCore, selected: Option<usize>)
    requires
        core.stepper is Some,
        core.view.review is Some,
        (core.view.review->0).scope is Commit || (core.view.review->0).scope is Worktree,
    ensures
        ({
            let st = core.stepper->0;
            &&& selected matches Some(i) ==> {
                &&& i >= st.commits.len() ==> core.step_commit(selected) is Err
                &&& i < st.commits.len() ==> core.step_commit(selected) == Ok::<SpecClientCore, SpecCoreError>(
                    core.apply_scope(
                        DiffScope::Commit { repo_id: st.repo_id, oid: st.commits[i as int].oid },
                    ),
                )
            }
            &&& selected is None ==> core.step_commit(selected) == Ok::<SpecClientCore, SpecCoreError>(
                core.apply_scope(DiffScope::Worktree { repo_id: st.repo_id }),
            )
        }),
{
    reveal(SpecClientCore::step_commit);
}

/// What a comment was made on is what its thread's root recorded: the change
/// or the blob, of the file it is anchored to, on its side.
pub proof fn originals_are_what_was_recorded(core: SpecClientCore, id: ThreadId, t: int, r: int)
    requires
        core.view.review is Some,
        named_thread((core.view.review->0).snapshot.threads, id, t),
        named_comment(
            (core.view.review->0).snapshot.comments,
            (core.view.review->0).snapshot.threads[t].root,
            r,
        ),
    ensures
        ({
            let root = (core.view.review->0).snapshot.comments[r];
            match core.recorded(id) {
                Ok((render, side)) => {
                    &&& match root.context {
                        Some(SpecCommentContext::Diff { change }) => render.target == (SpecRenderTarget::Diff {
                            change,
                        }),
                        Some(SpecCommentContext::Browse { oid }) => render.target == (SpecRenderTarget::Blob { oid }),
                        None => false,
                    }
                    &&& match root.anchor {
                        SpecAnchor::File { repo_id, path, .. } => render.repo_id == repo_id && render.path == path
                            && side is Head,
                        SpecAnchor::Lines { repo_id, path, side: s, .. } => render.repo_id == repo_id && render.path
                            == path && side == s,
                        SpecAnchor::Review => false,
                    }
                },
                Err(_) => root.context is None || root.anchor is Review,
            }
        }),
{
    let snapshot = (core.view.review->0).snapshot;
    lemma_thread_at(snapshot.threads, id);
    lemma_comment_at(snapshot.comments, snapshot.threads[t].root);
}

// ---- searches -------------------------------------------------------------

/// A content search asks for what was typed, in the scope that is shown, as
/// soon as there is something to ask; only the latest answer is waited for.
pub proof fn content_searches_ask_for_what_was_typed(core: SpecClientCore, query: Seq<char>, all_files: bool)
    requires
        core.view.review is Some,
        core.connection is Subscribed,
    ensures
        core.content_search(Some(query), all_files) is Ok,
        ({
            let out = core.content_search(Some(query), all_files)->Ok_0;
            let ask = text::trimmed(query).len() > 0;
            &&& out.view.content_search is Some
            &&& (out.view.content_search->0).query == query
            &&& (out.view.content_search->0).all_files == all_files
            &&& (out.view.content_search->0).hits.len() == 0
            &&& (out.view.content_search->0).selected == 0
            &&& (out.view.content_search->0).pending == ask
            &&& ask ==> out.flow.wire.latest_search == Some(RequestId(core.flow.wire.next_request))
            &&& ask ==> out.flow.out == core.flow.out.push(
                SpecErrand::Send(
                    SpecClientMsg::Request {
                        id: RequestId(core.flow.wire.next_request),
                        request: SpecRequest::Search {
                            review_id: (core.view.review->0).snapshot.review.id,
                            query,
                            all_files,
                            scope: (core.view.review->0).scope,
                        },
                    },
                ),
            )
            &&& !ask ==> out.flow.wire.latest_search is None && out.flow.out == core.flow.out
        }),
        core.content_search(None, all_files) is Ok,
        core.content_search(None, all_files)->Ok_0.view.content_search is None,
        core.content_search(None, all_files)->Ok_0.flow.wire.latest_search is None,
{
    reveal(SpecClientCore::content_search);
    reveal(crate::flow::SpecFlow::request);
}

/// The file search starts at its first hit.
pub proof fn file_searches_start_at_the_first_hit(core: SpecClientCore, query: Option<Seq<char>>)
    ensures
        core.file_search(query) is Ok <==> core.view.review is Some,
        core.file_search(query) matches Ok(out) ==> {
            &&& out.explorer.search == query
            &&& out.explorer.search_selected == 0
            &&& out.explorer.expanded == core.explorer.expanded
            &&& out.explorer.collapsed == core.explorer.collapsed
            &&& out.view == core.view
        },
{
    reveal(SpecClientCore::file_search);
}

/// A step moves among the hits, by as many as asked, and stops at the ends.
pub proof fn search_steps_stay_among_the_hits(core: SpecClientCore, delta: i32)
    ensures
        core.view.content_search matches Some(s) ==> (s.selected < s.hits.len() && s.hits.len() <= usize::MAX
            ==> (core.search_step(SearchKind::Content, delta) matches Ok(out) && {
            &&& out.view.content_search is Some
            &&& (out.view.content_search->0).hits == s.hits
            &&& (out.view.content_search->0).selected < s.hits.len()
            &&& 0 <= s.selected + delta < s.hits.len() ==> (out.view.content_search->0).selected == s.selected + delta
            &&& s.selected + delta < 0 ==> (out.view.content_search->0).selected == 0
            &&& s.selected + delta >= s.hits.len() ==> (out.view.content_search->0).selected == s.hits.len() - 1
        })),
        core.view.tree.search matches Some(s) ==> (s.selected < s.hits.len() && s.hits.len() <= usize::MAX ==> (
        core.search_step(SearchKind::Files, delta) matches Ok(out) && {
            &&& out.explorer.search_selected < s.hits.len()
            &&& 0 <= s.selected + delta < s.hits.len() ==> out.explorer.search_selected == s.selected + delta
            &&& s.selected + delta < 0 ==> out.explorer.search_selected == 0
            &&& s.selected + delta >= s.hits.len() ==> out.explorer.search_selected == s.hits.len() - 1
        })),
        core.view.content_search is None ==> core.search_step(SearchKind::Content, delta) is Err,
        core.view.tree.search is None ==> core.search_step(SearchKind::Files, delta) is Err,
{
    reveal(SpecClientCore::search_step);
}

/// The result opened is the selected hit of what was asked, around its line;
/// an answer to another query, or one still awaited, opens nothing.
pub proof fn results_open_the_selected_hit(core: SpecClientCore, query: Seq<char>)
    ensures
        core.search_target(SearchKind::Content, query) matches Some((file, first, last)) ==> {
            let s = core.view.content_search->0;
            let hit = s.hits[s.selected as int];
            &&& core.view.content_search is Some
            &&& s.query == query
            &&& !s.pending
            &&& s.selected < s.hits.len()
            &&& file.repo_id == hit.repo_id
            &&& file.path == hit.path
            &&& first <= hit.line <= last
        },
        core.view.content_search matches Some(s) ==> (s.query == query && !s.pending && s.selected < s.hits.len()
            ==> core.search_target(SearchKind::Content, query) is Some),
        core.search_target(SearchKind::Files, query) matches Some((file, first, last)) ==> {
            let s = core.view.tree.search->0;
            &&& core.view.tree.search is Some
            &&& s.query == query
            &&& s.selected < s.hits.len()
            &&& file == s.hits[s.selected as int].file
            &&& first == 0
        },
        core.view.tree.search matches Some(s) ==> (s.query == query && s.selected < s.hits.len()
            ==> core.search_target(SearchKind::Files, query) is Some),
{
}

} // verus!
