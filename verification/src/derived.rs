//! The parts of the view that are functions of the rest of the core. They
//! are computed after every input; what changed is rendered.
use vstd::prelude::*;

use crate::cache::{RenderKey, SpecContentCache, SpecRenderKey, TreeKey};
use crate::client::{ClientCore, Folded, SpecClientCore, SpecFolded, STACK_ROWS_CAP};
use crate::command::{Command, Context, Mode};
use crate::data;
use crate::data::Value;
use crate::diff;
use crate::diff::{
    DiffRow, DiffView, FileRef, SpecFileRef, SideRange, SpecDiffRow, SpecDiffView, SpecThreadView,
    ThreadStatus, ThreadView, ViewedState,
};
use crate::events;
use crate::explorer;
use crate::explorer::{
    ExplorerInputs, FileStat, Progress, RepoName, SpecExplorerInputs, SpecFileStat, SpecRepoName,
    SpecTreeView, TreeView,
};
use crate::focus;
use crate::focus::Focus;
use crate::home;
use crate::keymap;
use crate::keymap::{Hint, KeySeq, SpecHint};
use crate::protocol::{
    Anchor, DiffScope, RenderContent, SpecRenderContent, Repo, ResolvedTarget, ReviewSnapshot, Side, SpecAnchor,
    SpecAuthor, SpecRepo, SpecReviewSnapshot, SpecThread, SpecTreeSnapshot, SpecWorkspace, Thread,
    TreeSnapshot, ViewSection, Workspace,
};
use crate::reading;
use crate::view::{OpenReview, SpecOpenFile, SpecOpenReview, SpecViewModel, ViewModel, VisualView};
use crate::home::SpecHomeView;

verus! {

pub open spec fn head_tree() -> spec_fn(ResolvedTarget) -> TreeKey {
    |t: ResolvedTarget| TreeKey { repo_id: t.repo_id, root: t.head.tree }
}

pub open spec fn cached_tree(cache: SpecContentCache) -> spec_fn(TreeKey) -> Option<SpecTreeSnapshot> {
    |k: TreeKey| cache.tree(k)
}

pub open spec fn named_repo() -> spec_fn(SpecRepo) -> SpecRepoName {
    |r: SpecRepo| SpecRepoName { id: r.id, name: r.display_name }
}

/// What the repositories of all workspaces are called.
pub open spec fn repo_names(workspaces: Seq<SpecWorkspace>) -> Seq<SpecRepoName>
    decreases workspaces.len(),
{
    if workspaces.len() == 0 {
        Seq::empty()
    } else {
        repo_names(workspaces.drop_last()) + workspaces.last().repos.map_values(named_repo())
    }
}

/// A file's line counts, once its header is cached.
pub open spec fn counted(cache: SpecContentCache) -> spec_fn(SpecRenderKey) -> Option<SpecFileStat> {
    |k: SpecRenderKey|
        match cache.header(k) {
            Some(header) => match header.content {
                SpecRenderContent::Text { additions, deletions, .. } => Some(
                    SpecFileStat { file: k.file(), additions, deletions },
                ),
                SpecRenderContent::Binary => None,
            },
            None => None,
        }
}

/// The file a thread is on, when it is on one.
pub open spec fn anchored_on(snapshot: SpecReviewSnapshot) -> spec_fn(SpecThread) -> Option<SpecFileRef> {
    |t: SpecThread|
        match snapshot.comment(t.root) {
            Some(root) => match root.anchor {
                SpecAnchor::File { repo_id, path, .. } => Some(SpecFileRef { repo_id, path }),
                SpecAnchor::Lines { repo_id, path, .. } => Some(SpecFileRef { repo_id, path }),
                SpecAnchor::Review => None,
            },
            None => None,
        }
}

/// The lines an open draft covers on a render.
pub open spec fn drafted_on(draft: Option<SpecAnchor>, render: SpecRenderKey) -> Option<SideRange> {
    match draft {
        Some(anchor) => anchor.lines_on(render),
        None => None,
    }
}

/// One file of the stacked diff: the open one over its viewport, any other
/// from the top.
pub open spec fn stacked(
    cache: SpecContentCache,
    open: SpecOpenReview,
    viewer: SpecAuthor,
    draft: Option<SpecAnchor>,
    folds: Seq<SpecFolded>,
) -> spec_fn(SpecRenderKey) -> Option<SpecDiffView> {
    |render: SpecRenderKey|
        {
            let (first, last) = if open.open_render() == Some(render) {
                (open.open_file->0.first_row, open.open_file->0.last_row)
            } else {
                (0u32, (STACK_ROWS_CAP - 1) as u32)
            };
            match diff::diff_of(cache, open.snapshot, viewer, render, first, last, drafted_on(draft, render)) {
                Some(d) => Some(folded(d, folds)),
                None => None,
            }
        }
}

/// A file is folded as the user said, else when it was viewed.
pub open spec fn folded(d: SpecDiffView, folds: Seq<SpecFolded>) -> SpecDiffView {
    SpecDiffView {
        collapsed: match data::found(folds, reading::folded_file(d.file)) {
            Some(f) => f.folded,
            None => d.viewed is Viewed,
        },
        ..d
    }
}

pub open spec fn row_with(side: Side, line: u32) -> spec_fn(SpecDiffRow) -> bool {
    |r: SpecDiffRow| r.row.line_on(side) == Some(line)
}

/// `n` moved as a row moved from `from` to `to`; a row that would be out of
/// range is the first.
pub open spec fn shifted(n: u32, from: u32, to: u32) -> u32 {
    let v = n + to - from;
    if 0 <= v <= u32::MAX {
        v as u32
    } else {
        0
    }
}

/// Whether the focused thread can be resolved or reopened.
pub open spec fn resolvable(threads: Seq<SpecThreadView>, focus: Focus) -> bool {
    match focus {
        Focus::Thread { index } => index < threads.len() && !(threads[index as int].status is Informational),
        _ => false,
    }
}

pub open spec fn offered(toggle: bool) -> spec_fn(SpecHint) -> bool {
    |h: SpecHint| h.command != Command::ToggleResolved || toggle
}

impl SpecViewModel {
    pub open spec fn draft_anchor(self) -> Option<SpecAnchor> {
        match self.draft {
            Some(d) => Some(d.anchor),
            None => None,
        }
    }
}

impl SpecClientCore {
    #[verifier::opaque]
    pub open spec fn derived_selector(self) -> SpecClientCore {
        let shown = match self.ref_selector {
            Some(s) => Some(s.view),
            None => None,
        };
        if shown == self.view.ref_selector {
            self
        } else {
            self.with_view(
                SpecViewModel { ref_selector: shown, ..self.view },
            ).touch(seq![ViewSection::RefSelector])
        }
    }

    /// The tree the Browse tab shows in place of the review's heads.
    pub open spec fn browsed(self) -> Option<TreeKey> {
        match self.browse {
            Some(b) => if self.view.tab is Browse {
                Some(TreeKey { repo_id: b.target.repo_id, root: b.root })
            } else {
                None
            },
            None => None,
        }
    }

    pub open spec fn file_stats(self, open: SpecOpenReview) -> Seq<SpecFileStat> {
        open.files.filter_map(counted(self.flow.content.cache))
    }

    #[verifier::opaque]
    pub open spec fn explorer_inputs(self, open: SpecOpenReview) -> SpecExplorerInputs {
        let heads = match self.browsed() {
            Some(k) => seq![k],
            None => open.current_targets().map_values(head_tree()),
        };
        SpecExplorerInputs {
            snapshot: open.snapshot,
            repo_names: repo_names(self.view.workspaces),
            trees: heads.filter_map(cached_tree(self.flow.content.cache)),
            files: if self.browsed() is Some {
                Seq::empty()
            } else {
                open.files
            },
            open_file: match open.open_file {
                Some(f) => Some(f.render.file()),
                None => None,
            },
            viewer: self.config.author,
            state: self.explorer,
            stats: self.file_stats(open),
            anchored: open.snapshot.threads.filter_map(anchored_on(open.snapshot)),
            changed_only: !(self.view.tab is Browse),
        }
    }

    /// The explorer and the reading progress.
    #[verifier::opaque]
    pub open spec fn explored(self) -> (SpecTreeView, Progress) {
        match (self.view.review, self.committed) {
            (Some(open), Some(_)) => (
                self.explorer_inputs(open).explorer(),
                explorer::progress_of(open.snapshot, self.config.author, open.files, self.file_stats(open)),
            ),
            _ => (SpecTreeView::empty(), explorer::no_progress()),
        }
    }

    #[verifier::opaque]
    pub open spec fn with_tree(self, tree: SpecTreeView) -> SpecClientCore {
        if tree == self.view.tree {
            self
        } else {
            self.with_view(SpecViewModel { tree, ..self.view }).touch(seq![ViewSection::Tree])
        }
    }

    #[verifier::opaque]
    pub open spec fn with_progress(self, progress: Progress) -> SpecClientCore {
        if progress == self.view.progress {
            self
        } else {
            self.with_view(SpecViewModel { progress, ..self.view }).touch(seq![ViewSection::Progress])
        }
    }

    pub open spec fn derived_tree(self) -> SpecClientCore {
        self.with_tree(self.explored().0).with_progress(self.explored().1)
    }

    /// The row the awaited line is on now.
    pub open spec fn awaited_row(self) -> Option<SpecDiffRow> {
        match (self.realign, self.view.review) {
            (Some(want), Some(open)) => if open.open_render() == Some(want.render) {
                data::found(
                    diff::every_row(self.flow.content.cache, open.snapshot, want.render),
                    row_with(want.side, want.line),
                )
            } else {
                None
            },
            _ => None,
        }
    }

    /// The cursor and the viewport follow the line from one row to another.
    #[verifier::opaque]
    pub open spec fn followed(self, from: u32, to: u32) -> SpecClientCore {
        let c = match self.view.focus {
            Focus::Diff { row, side } => self.with_focus(Focus::Diff { row: shifted(row, from, to), side }),
            _ => self,
        };
        match c.view.review {
            Some(open) => match open.open_file {
                Some(f) => c.with_open(
                    SpecOpenReview {
                        open_file: Some(
                            SpecOpenFile {
                                first_row: shifted(f.first_row, from, to),
                                last_row: shifted(f.last_row, from, to),
                                ..f
                            },
                        ),
                        ..open
                    },
                ),
                None => c,
            },
            None => c,
        }
    }

    /// A wider render came: the cursor stays on its line.
    #[verifier::opaque]
    pub open spec fn realigned(self) -> SpecClientCore {
        match self.awaited_row() {
            Some(now) => {
                let want = self.realign->0;
                let c = SpecClientCore { realign: None, ..self };
                if now.index == want.row {
                    c
                } else {
                    c.touch(seq![ViewSection::Focus]).followed(want.row, now.index)
                }
            },
            None => self,
        }
    }

    /// The open file's diff.
    #[verifier::opaque]
    pub open spec fn shown_diff(self) -> Option<SpecDiffView> {
        match self.view.review {
            Some(open) => match open.open_file {
                Some(f) => match diff::diff_of(
                    self.flow.content.cache,
                    open.snapshot,
                    self.config.author,
                    f.render,
                    f.first_row,
                    f.last_row,
                    drafted_on(self.view.draft_anchor(), f.render),
                ) {
                    Some(d) => Some(
                        if open.original == Some(f.render) {
                            SpecDiffView { original: true, ..d }
                        } else {
                            d
                        },
                    ),
                    None => None,
                },
                None => None,
            },
            None => None,
        }
    }

    /// The diffs of all changed files.
    #[verifier::opaque]
    pub open spec fn shown_diffs(self) -> Seq<SpecDiffView> {
        match self.view.review {
            Some(open) => open.files.filter_map(
                stacked(
                    self.flow.content.cache,
                    open,
                    self.config.author,
                    self.view.draft_anchor(),
                    self.file_collapse,
                ),
            ),
            None => Seq::empty(),
        }
    }

    #[verifier::opaque]
    pub open spec fn derived_diffs(self) -> SpecClientCore {
        if self.shown_diff() == self.view.diff && self.shown_diffs() == self.view.diffs {
            self
        } else {
            self.with_view(
                SpecViewModel { diff: self.shown_diff(), diffs: self.shown_diffs(), ..self.view },
            ).touch(seq![ViewSection::Diff])
        }
    }

    #[verifier::opaque]
    pub open spec fn derived_requests(self) -> SpecClientCore {
        let requests = match self.view.review {
            Some(open) => open.snapshot.requests,
            None => Seq::empty(),
        };
        if requests == self.view.requests {
            self
        } else {
            self.with_view(SpecViewModel { requests, ..self.view }).touch(seq![ViewSection::Conversation])
        }
    }

    /// Every thread, each with the reference to it.
    #[verifier::opaque]
    pub open spec fn shown_threads(self) -> Seq<SpecThreadView> {
        match self.view.review {
            Some(open) => self.decorated(diff::thread_views(open.snapshot, self.pending_ids())),
            None => Seq::empty(),
        }
    }

    #[verifier::opaque]
    pub open spec fn with_conversation(self, conversation: Seq<SpecThreadView>) -> SpecClientCore {
        if conversation == self.view.conversation {
            self
        } else {
            self.with_view(SpecViewModel { conversation, ..self.view }).touch(seq![ViewSection::Conversation])
        }
    }

    #[verifier::opaque]
    pub open spec fn derived_threads(self) -> SpecClientCore {
        let threads = self.shown_threads();
        if threads == self.view.threads {
            self
        } else {
            let c = self.with_conversation(threads.filter(diff::on_review()));
            c.with_view(SpecViewModel { threads, ..c.view }).touch(seq![ViewSection::Threads])
        }
    }

    #[verifier::opaque]
    pub open spec fn derived_stepper(self) -> SpecClientCore {
        if self.stepper == self.view.stepper {
            self
        } else {
            self.with_view(SpecViewModel { stepper: self.stepper, ..self.view }).touch(
                seq![ViewSection::CommitStepper],
            )
        }
    }

    #[verifier::opaque]
    pub open spec fn derived_scope(self) -> SpecClientCore {
        if self.scope() == self.view.scope {
            self
        } else {
            self.with_view(
                SpecViewModel { scope: self.scope(), ..self.view },
            ).touch(seq![ViewSection::ReviewList])
        }
    }

    #[verifier::opaque]
    pub open spec fn derived_browse(self) -> SpecClientCore {
        if self.browse_shown() == self.view.browse {
            self
        } else {
            self.with_view(SpecViewModel { browse: self.browse_shown(), ..self.view }).touch(
                seq![ViewSection::ReviewList],
            )
        }
    }

    #[verifier::opaque]
    pub open spec fn derived_home(self) -> SpecClientCore {
        let rows = home::home_rows(self.view.workspaces, self.view.home.expanded, self.view.reviews);
        if rows == self.view.home.rows {
            self
        } else {
            self.with_view(SpecViewModel { home: SpecHomeView { rows, ..self.view.home }, ..self.view }).touch(
                seq![ViewSection::ReviewList],
            )
        }
    }

    #[verifier::opaque]
    pub open spec fn derived_focus(self) -> SpecClientCore {
        let focus = self.view.clamp(self.view.focus);
        if focus == self.view.focus {
            self
        } else {
            self.with_focus(focus).touch(seq![ViewSection::Focus])
        }
    }

    /// What a copy would take from where the focus is.
    #[verifier::opaque]
    pub open spec fn derived_target(self) -> SpecClientCore {
        let copy_target = match self.view.target_file(self.view.focus) {
            Some(f) => Some(f.path),
            None => None,
        };
        if copy_target == self.view.copy_target {
            self
        } else {
            self.with_view(SpecViewModel { copy_target, ..self.view }).touch(seq![ViewSection::Focus])
        }
    }

    #[verifier::opaque]
    pub open spec fn derived_reference(self) -> SpecClientCore {
        let copy_reference = self.view.focused_reference();
        if copy_reference == self.view.copy_reference {
            self
        } else {
            self.with_view(SpecViewModel { copy_reference, ..self.view }).touch(seq![ViewSection::Focus])
        }
    }

    /// The selected rows, between where it started and the focused row.
    pub open spec fn selected_rows(self) -> Option<VisualView> {
        match (self.keys.visual_anchor, self.view.focus) {
            (Some(anchor), Focus::Diff { row, .. }) => Some(
                VisualView {
                    start: if anchor.row <= row {
                        anchor.row
                    } else {
                        row
                    },
                    end: if anchor.row <= row {
                        row
                    } else {
                        anchor.row
                    },
                    side: anchor.side,
                },
            ),
            _ => None,
        }
    }

    #[verifier::opaque]
    pub open spec fn derived_visual(self) -> SpecClientCore {
        if self.selected_rows() == self.view.visual {
            self
        } else {
            self.with_view(
                SpecViewModel { visual: self.selected_rows(), ..self.view },
            ).touch(seq![ViewSection::Diff])
        }
    }

    #[verifier::opaque]
    pub open spec fn derived_pending_keys(self) -> SpecClientCore {
        let pending_keys = if self.keys.chords.len() == 0 {
            Seq::empty()
        } else {
            keymap::chords_text(self.keys.chords)
        };
        if pending_keys == self.view.pending_keys {
            self
        } else {
            self.with_view(SpecViewModel { pending_keys, ..self.view }).touch(seq![ViewSection::Hints])
        }
    }

    #[verifier::opaque]
    pub open spec fn derived_pending_label(self) -> SpecClientCore {
        let pending_label = if self.keys.chords.len() == 0 {
            None
        } else {
            self.keys.keymap.pending_label(self.keys.chords)
        };
        if pending_label == self.view.pending_label {
            self
        } else {
            self.with_view(SpecViewModel { pending_label, ..self.view }).touch(seq![ViewSection::Hints])
        }
    }

    /// Insert while a text editor has the keys, Visual while a line
    /// selection is on.
    #[verifier::opaque]
    pub open spec fn derived_mode(self) -> SpecClientCore {
        let mode = if self.view.focus.spec_context() is Composer {
            Mode::Insert
        } else if self.keys.visual_anchor is Some {
            Mode::Visual
        } else {
            Mode::Normal
        };
        if mode == self.view.mode {
            self
        } else {
            self.with_view(SpecViewModel { mode, ..self.view }).touch(seq![ViewSection::Hints])
        }
    }

    /// The keys worth showing here, or those that continue the sequence in
    /// progress. Resolving is not offered where it means nothing.
    #[verifier::opaque]
    pub open spec fn shown_hints(self) -> Seq<SpecHint> {
        let context = self.view.focus.spec_context();
        let hints = if self.keys.chords.len() == 0 {
            self.keys.keymap.hints(context)
        } else {
            self.keys.keymap.pending_hints(context, self.keys.chords)
        };
        hints.filter(offered(resolvable(self.view.threads, self.view.focus)))
    }

    #[verifier::opaque]
    pub open spec fn derived_hints(self) -> SpecClientCore {
        if self.shown_hints() == self.view.hints {
            self
        } else {
            self.with_view(
                SpecViewModel { hints: self.shown_hints(), ..self.view },
            ).touch(seq![ViewSection::Hints])
        }
    }

    #[verifier::opaque]
    pub open spec fn derived_chrome(self) -> SpecClientCore {
        let chrome = self.keys.keymap.chrome();
        if chrome == self.view.chrome {
            self
        } else {
            self.with_view(SpecViewModel { chrome, ..self.view }).touch(seq![ViewSection::Hints])
        }
    }

    #[verifier::opaque]
    pub open spec fn derived_bindings(self) -> SpecClientCore {
        let bindings = self.keys.keymap.applicable_bindings(self.view.focus.spec_context());
        if bindings == self.view.bindings {
            self
        } else {
            self.with_view(SpecViewModel { bindings, ..self.view }).touch(seq![ViewSection::Hints])
        }
    }

    #[verifier::opaque]
    pub open spec fn derived_last_key(self) -> SpecClientCore {
        if self.keys.last_key == self.view.last_key {
            self
        } else {
            self.with_view(SpecViewModel { last_key: self.keys.last_key, ..self.view }).touch(
                seq![ViewSection::Hints],
            )
        }
    }

    #[verifier::opaque]
    pub open spec fn derived_leader(self) -> SpecClientCore {
        let leader = keymap::chord_text(self.keys.keymap.leader);
        if leader == self.view.leader {
            self
        } else {
            self.with_view(SpecViewModel { leader, ..self.view }).touch(seq![ViewSection::Hints])
        }
    }

    #[verifier::opaque]
    pub open spec fn derived_help(self) -> SpecClientCore {
        let help = match self.keys.help_context {
            Some(context) => Some(self.keys.keymap.help(context)),
            None => None,
        };
        if help == self.view.help {
            self
        } else {
            self.with_view(SpecViewModel { help, ..self.view }).touch(seq![ViewSection::Help])
        }
    }

    /// What is derived of the review.
    #[verifier::opaque]
    pub open spec fn derived_review(self) -> SpecClientCore {
        self.derived_selector().derived_tree().realigned().derived_diffs().derived_requests().derived_threads()
            .derived_stepper().derived_scope().derived_home()
    }

    /// What is derived of the focus.
    #[verifier::opaque]
    pub open spec fn derived_place(self) -> SpecClientCore {
        self.derived_focus().derived_browse().derived_target().derived_reference().derived_visual()
    }

    /// What is derived of the keys.
    #[verifier::opaque]
    pub open spec fn derived_keys(self) -> SpecClientCore {
        self.derived_pending_keys().derived_pending_label().derived_mode().derived_hints().derived_chrome()
            .derived_bindings().derived_last_key().derived_leader().derived_help()
    }

    /// The core with every derived part of its view up to date.
    #[verifier::opaque]
    pub open spec fn derived(self) -> SpecClientCore {
        self.derived_review().derived_place().derived_keys()
    }
}

fn name_repos(workspaces: &Vec<Workspace>) -> (r: Vec<RepoName>)
    ensures
        r.deep_view() == repo_names(workspaces.deep_view()),
{
    let n: usize = workspaces.len();
    let ghost all = workspaces.deep_view();
    let mut out: Vec<RepoName> = data::empty();
    assert(all.take(0) =~= Seq::empty());
    for i in 0..n
        invariant
            n == workspaces@.len(),
            all == workspaces.deep_view(),
            out.deep_view() == repo_names(all.take(i as int)),
    {
        assert(all.take(i + 1).drop_last() =~= all.take(i as int));
        assert(all.take(i + 1).last() == workspaces@[i as int].deep_view());
        let names = data::map(
            &workspaces[i].repos,
            |r: &Repo| -> (n: RepoName)
                ensures
                    n.deep_view() == named_repo()(r.deep_view())
            { RepoName { id: r.id, name: r.display_name.dup() } },
            Ghost(named_repo()),
        );
        data::append(&mut out, names);
    }
    assert(all.take(n as int) =~= all);
    out
}

fn anchored(snapshot: &ReviewSnapshot) -> (r: Vec<FileRef>)
    ensures
        r.deep_view() == snapshot.deep_view().threads.filter_map(anchored_on(snapshot.deep_view())),
{
    let ghost s = snapshot.deep_view();
    data::filter_map(
        &snapshot.threads,
        |t: &Thread| -> (f: Option<FileRef>)
            ensures
                f.deep_view() == anchored_on(s)(t.deep_view())
        {
            match events::find_comment(&snapshot.comments, t.root) {
                Some(root) => match &root.anchor {
                    Anchor::File { repo_id, path, .. } => Some(
                        FileRef { repo_id: *repo_id, path: path.dup() },
                    ),
                    Anchor::Lines { repo_id, path, .. } => Some(
                        FileRef { repo_id: *repo_id, path: path.dup() },
                    ),
                    Anchor::Review => None,
                },
                None => None,
            }
        },
        Ghost(anchored_on(s)),
    )
}

fn shift(n: u32, from: u32, to: u32) -> (r: u32)
    ensures
        r == shifted(n, from, to),
{
    let v: i64 = n as i64 + to as i64 - from as i64;
    if v >= 0 && v <= 0xffff_ffff {
        v as u32
    } else {
        0
    }
}

fn fold(d: DiffView, folds: &Vec<Folded>) -> (r: DiffView)
    ensures
        r.deep_view() == folded(d.deep_view(), folds.deep_view()),
{
    let mut d = d;
    let ghost file = d.file.deep_view();
    d.collapsed = match data::find(
        folds,
        |f: &Folded| -> (b: bool)
            ensures
                b == reading::folded_file(file)(f.deep_view())
        { f.file.same(&d.file) },
        Ghost(reading::folded_file(file)),
    ) {
        Some(f) => f.folded,
        None => match d.viewed {
            ViewedState::Viewed => true,
            _ => false,
        },
    };
    d
}

fn draft_range(view: &ViewModel, render: &RenderKey) -> (r: Option<SideRange>)
    ensures
        r == drafted_on(view.deep_view().draft_anchor(), render.deep_view()),
{
    match view.draft() {
        Some(d) => diff::lines_on(&d.anchor, render),
        None => None,
    }
}

impl ClientCore {
    fn derive_selector(&mut self)
        ensures
            final(self).deep_view() == old(self).deep_view().derived_selector(),
    {
        proof {
            reveal(ClientCore::model);
            reveal(SpecClientCore::derived_selector);
        }
        let shown = match &self.ref_selector {
            Some(s) => Some(s.view.dup()),
            None => None,
        };
        if !shown.same(self.view.ref_selector()) {
            self.view.set_ref_selector(shown);
            self.flow.touch(ViewSection::RefSelector);
        }
    }

    fn browsed(&self) -> (r: Option<TreeKey>)
        ensures
            r == self.deep_view().browsed(),
    {
        proof {
            reveal(ClientCore::model);
        }
        match &self.browse {
            Some(b) => match self.view.tab() {
                crate::view::Tab::Browse => Some(TreeKey { repo_id: b.target.repo_id, root: b.root }),
                _ => None,
            },
            None => None,
        }
    }

    fn file_stats(&self, open: &OpenReview) -> (r: Vec<FileStat>)
        ensures
            r.deep_view() == self.deep_view().file_stats(open.deep_view()),
    {
        proof {
            reveal(ClientCore::model);
        }
        let cache = &self.flow.content.cache;
        let ghost c = cache.deep_view();
        data::filter_map(
            &open.files,
            |k: &RenderKey| -> (s: Option<FileStat>)
                ensures
                    s.deep_view() == counted(c)(k.deep_view())
            {
                match cache.peek_header(k) {
                    Some(header) => match header.content {
                        RenderContent::Text { additions, deletions, .. } => Some(
                            FileStat { file: k.file(), additions, deletions },
                        ),
                        RenderContent::Binary => None,
                    },
                    None => None,
                }
            },
            Ghost(counted(c)),
        )
    }

    fn head_trees(&self, open: &OpenReview) -> (r: Vec<TreeSnapshot>)
        ensures
            r.deep_view() == self.deep_view().explorer_inputs(open.deep_view()).trees,
    {
        proof {
            reveal(ClientCore::model);
            reveal(SpecClientCore::explorer_inputs);
        }
        let heads = match self.browsed() {
            Some(k) => data::one(k),
            None => {
                let targets = open.current_targets();
                data::map(
                    &targets,
                    |t: &ResolvedTarget| -> (k: TreeKey)
                        ensures
                            k.deep_view() == head_tree()(t.deep_view())
                    { TreeKey { repo_id: t.repo_id, root: t.head.tree } },
                    Ghost(head_tree()),
                )
            },
        };
        let cache = &self.flow.content.cache;
        let ghost c = cache.deep_view();
        data::filter_map(
            &heads,
            |k: &TreeKey| -> (s: Option<TreeSnapshot>)
                ensures
                    s.deep_view() == cached_tree(c)(k.deep_view())
            {
                match cache.peek_tree(*k) {
                    Some(s) => Some(s.dup()),
                    None => None,
                }
            },
            Ghost(cached_tree(c)),
        )
    }

    fn explorer_inputs(&self, open: &OpenReview) -> (r: ExplorerInputs)
        ensures
            r.deep_view() == self.deep_view().explorer_inputs(open.deep_view()),
    {
        proof {
            reveal(ClientCore::model);
            reveal(SpecClientCore::explorer_inputs);
        }
        ExplorerInputs {
            snapshot: open.snapshot.dup(),
            repo_names: name_repos(self.view.workspaces()),
            trees: self.head_trees(open),
            files: if self.browsed().is_some() {
                data::empty()
            } else {
                open.files.dup()
            },
            open_file: match &open.open_file {
                Some(f) => Some(f.render.file()),
                None => None,
            },
            viewer: self.config.author.dup(),
            state: self.explorer.dup(),
            stats: self.file_stats(open),
            anchored: anchored(&open.snapshot),
            changed_only: match self.view.tab() {
                crate::view::Tab::Browse => false,
                _ => true,
            },
        }
    }

    fn explore(&self) -> (r: (TreeView, Progress))
        ensures
            r.0.deep_view() == self.deep_view().explored().0,
            r.1 == self.deep_view().explored().1,
    {
        proof {
            reveal(ClientCore::model);
            reveal(SpecClientCore::explored);
        }
        match (self.view.review(), &self.committed) {
            (Some(open), Some(_)) => {
                let stats = self.file_stats(open);
                let tree = self.explorer_inputs(open).build();
                let progress = explorer::progress(&open.snapshot, &self.config.author, &open.files, &stats);
                (tree, progress)
            },
            _ => (TreeView::default(), Progress::default()),
        }
    }

    fn set_tree(&mut self, tree: TreeView)
        ensures
            final(self).deep_view() == old(self).deep_view().with_tree(tree.deep_view()),
    {
        proof {
            reveal(ClientCore::model);
            reveal(SpecClientCore::with_tree);
        }
        if !tree.same(self.view.tree()) {
            self.view.set_tree(tree);
            self.flow.touch(ViewSection::Tree);
        }
    }

    fn set_progress(&mut self, progress: Progress)
        ensures
            final(self).deep_view() == old(self).deep_view().with_progress(progress),
    {
        proof {
            reveal(ClientCore::model);
            reveal(SpecClientCore::with_progress);
        }
        if progress != self.view.progress() {
            self.view.set_progress(progress);
            self.flow.touch(ViewSection::Progress);
        }
    }

    fn derive_tree(&mut self)
        ensures
            final(self).deep_view() == old(self).deep_view().derived_tree(),
    {
        let (tree, progress) = self.explore();
        self.set_tree(tree);
        self.set_progress(progress);
    }

    fn awaited_row(&self) -> (r: Option<u32>)
        ensures
            match r {
                Some(index) => self.deep_view().awaited_row() is Some && self.deep_view().awaited_row()->0.index
                    == index,
                None => self.deep_view().awaited_row() is None,
            },
    {
        proof {
            reveal(ClientCore::model);
        }
        let want = match &self.realign {
            Some(want) => want,
            None => {
                return None;
            },
        };
        let open = match self.view.review() {
            Some(open) => open,
            None => {
                return None;
            },
        };
        let here = match &open.open_file {
            Some(f) => f.render.same(&want.render),
            None => false,
        };
        if !here {
            return None;
        }
        let rows = diff::all_rows(&self.flow.content.cache, &open.snapshot, &want.render);
        let side = want.side;
        let line: u32 = want.line;
        match data::find(
            &rows,
            |r: &DiffRow| -> (b: bool)
                ensures
                    b == row_with(side, line)(r.deep_view())
            { diff::line_on(&r.row, side) == Some(line) },
            Ghost(row_with(side, line)),
        ) {
            Some(r) => Some(r.index),
            None => None,
        }
    }

    fn follow(&mut self, from: u32, to: u32)
        ensures
            final(self).deep_view() == old(self).deep_view().followed(from, to),
    {
        proof {
            reveal(ClientCore::model);
            reveal(SpecClientCore::followed);
        }
        match self.view.focus() {
            Focus::Diff { row, side } => {
                self.view.set_focus(Focus::Diff { row: shift(row, from, to), side });
            },
            _ => {},
        }
        match self.view.take_review() {
            Some(open) => {
                let mut open = open;
                match open.open_file.take() {
                    Some(f) => {
                        let mut f = f;
                        f.first_row = shift(f.first_row, from, to);
                        f.last_row = shift(f.last_row, from, to);
                        open.open_file = Some(f);
                    },
                    None => {},
                }
                self.view.set_review(Some(open));
            },
            None => {},
        }
    }

    fn apply_realign(&mut self)
        ensures
            final(self).deep_view() == old(self).deep_view().realigned(),
    {
        proof {
            reveal(ClientCore::model);
            reveal(SpecClientCore::realigned);
        }
        let to: u32 = match self.awaited_row() {
            Some(index) => index,
            None => {
                return ;
            },
        };
        match self.realign.take() {
            Some(want) => {
                if to != want.row {
                    self.flow.touch(ViewSection::Focus);
                    self.follow(want.row, to);
                }
            },
            None => {},
        }
    }

    fn show_diff(&self) -> (r: Option<DiffView>)
        ensures
            r.deep_view() == self.deep_view().shown_diff(),
    {
        proof {
            reveal(ClientCore::model);
            reveal(SpecClientCore::shown_diff);
        }
        let open = match self.view.review() {
            Some(open) => open,
            None => {
                return None;
            },
        };
        let f = match &open.open_file {
            Some(f) => f,
            None => {
                return None;
            },
        };
        match diff::diff_view(
            &self.flow.content.cache,
            &open.snapshot,
            &self.config.author,
            &f.render,
            f.first_row,
            f.last_row,
            draft_range(&self.view, &f.render),
        ) {
            Some(d) => {
                let mut d = d;
                let original = match &open.original {
                    Some(o) => o.same(&f.render),
                    None => false,
                };
                if original {
                    d.original = true;
                }
                Some(d)
            },
            None => None,
        }
    }

    fn stack(&self, open: &OpenReview, render: &RenderKey) -> (r: Option<DiffView>)
        ensures
            r.deep_view() == stacked(
                self.deep_view().flow.content.cache,
                open.deep_view(),
                self.deep_view().config.author,
                self.deep_view().view.draft_anchor(),
                self.deep_view().file_collapse,
            )(render.deep_view()),
    {
        proof {
            reveal(ClientCore::model);
        }
        let (first, last) = match &open.open_file {
            Some(f) => if f.render.same(render) {
                (f.first_row, f.last_row)
            } else {
                (0, STACK_ROWS_CAP - 1)
            },
            None => (0, STACK_ROWS_CAP - 1),
        };
        match diff::diff_view(
            &self.flow.content.cache,
            &open.snapshot,
            &self.config.author,
            render,
            first,
            last,
            draft_range(&self.view, render),
        ) {
            Some(d) => Some(fold(d, &self.file_collapse)),
            None => None,
        }
    }

    fn show_diffs(&self) -> (r: Vec<DiffView>)
        ensures
            r.deep_view() == self.deep_view().shown_diffs(),
    {
        proof {
            reveal(ClientCore::model);
            reveal(SpecClientCore::shown_diffs);
        }
        match self.view.review() {
            Some(open) => {
                let ghost of = stacked(
                    self.deep_view().flow.content.cache,
                    open.deep_view(),
                    self.deep_view().config.author,
                    self.deep_view().view.draft_anchor(),
                    self.deep_view().file_collapse,
                );
                data::filter_map(
                    &open.files,
                    |render: &RenderKey| -> (d: Option<DiffView>)
                        ensures
                            d.deep_view() == of(render.deep_view())
                    { self.stack(open, render) },
                    Ghost(of),
                )
            },
            None => data::empty(),
        }
    }

    fn derive_diffs(&mut self)
        ensures
            final(self).deep_view() == old(self).deep_view().derived_diffs(),
    {
        proof {
            reveal(ClientCore::model);
            reveal(SpecClientCore::derived_diffs);
        }
        let diff = self.show_diff();
        let diffs = self.show_diffs();
        if !(diff.same(self.view.diff()) && diffs.same(self.view.diffs())) {
            self.view.set_diff(diff);
            self.view.set_diffs(diffs);
            self.flow.touch(ViewSection::Diff);
        }
    }

    fn derive_requests(&mut self)
        ensures
            final(self).deep_view() == old(self).deep_view().derived_requests(),
    {
        proof {
            reveal(ClientCore::model);
            reveal(SpecClientCore::derived_requests);
        }
        let requests = match self.view.review() {
            Some(open) => open.snapshot.requests.dup(),
            None => data::empty(),
        };
        if !requests.same(self.view.requests()) {
            self.view.set_requests(requests);
            self.flow.touch(ViewSection::Conversation);
        }
    }

    fn show_threads(&self) -> (r: Vec<ThreadView>)
        ensures
            r.deep_view() == self.deep_view().shown_threads(),
    {
        proof {
            reveal(ClientCore::model);
            reveal(SpecClientCore::shown_threads);
        }
        match self.view.review() {
            Some(open) => {
                let ids = self.pending_ids();
                self.decorate_references(diff::threads(&open.snapshot, &ids))
            },
            None => data::empty(),
        }
    }

    fn set_conversation(&mut self, conversation: Vec<ThreadView>)
        ensures
            final(self).deep_view() == old(self).deep_view().with_conversation(conversation.deep_view()),
    {
        proof {
            reveal(ClientCore::model);
            reveal(SpecClientCore::with_conversation);
        }
        if !conversation.same(self.view.conversation()) {
            self.view.set_conversation(conversation);
            self.flow.touch(ViewSection::Conversation);
        }
    }

    fn derive_threads(&mut self)
        ensures
            final(self).deep_view() == old(self).deep_view().derived_threads(),
    {
        proof {
            reveal(ClientCore::model);
            reveal(SpecClientCore::derived_threads);
        }
        let threads = self.show_threads();
        if !threads.same(self.view.threads()) {
            self.set_conversation(diff::conversation(&threads));
            self.view.set_threads(threads);
            self.flow.touch(ViewSection::Threads);
        }
    }

    fn derive_stepper(&mut self)
        ensures
            final(self).deep_view() == old(self).deep_view().derived_stepper(),
    {
        proof {
            reveal(ClientCore::model);
            reveal(SpecClientCore::derived_stepper);
        }
        if !self.stepper.same(self.view.stepper()) {
            self.view.set_stepper(self.stepper.dup());
            self.flow.touch(ViewSection::CommitStepper);
        }
    }

    fn derive_scope(&mut self)
        ensures
            final(self).deep_view() == old(self).deep_view().derived_scope(),
    {
        proof {
            reveal(ClientCore::model);
            reveal(SpecClientCore::derived_scope);
        }
        let scope = match self.view.review() {
            Some(open) => open.scope,
            None => DiffScope::All,
        };
        if scope != self.view.scope() {
            self.view.set_scope(scope);
            self.flow.touch(ViewSection::ReviewList);
        }
    }

    fn derive_browse(&mut self)
        ensures
            final(self).deep_view() == old(self).deep_view().derived_browse(),
    {
        proof {
            reveal(ClientCore::model);
            reveal(SpecClientCore::derived_browse);
        }
        let browse = self.browse_view();
        if !browse.same(self.view.browse()) {
            self.view.set_browse(browse);
            self.flow.touch(ViewSection::ReviewList);
        }
    }

    fn derive_home(&mut self)
        ensures
            final(self).deep_view() == old(self).deep_view().derived_home(),
    {
        proof {
            reveal(ClientCore::model);
            reveal(SpecClientCore::derived_home);
        }
        let rows = home::rows(&self.view);
        if !rows.same(&self.view.home().rows) {
            let mut home = self.view.home().dup();
            home.rows = rows;
            self.view.set_home(home);
            self.flow.touch(ViewSection::ReviewList);
        }
    }

    fn derive_focus(&mut self)
        ensures
            final(self).deep_view() == old(self).deep_view().derived_focus(),
    {
        proof {
            reveal(ClientCore::model);
            reveal(SpecClientCore::derived_focus);
        }
        let focus = focus::clamp(&self.view, self.view.focus());
        if focus != self.view.focus() {
            self.view.set_focus(focus);
            self.flow.touch(ViewSection::Focus);
        }
    }

    fn derive_target(&mut self)
        ensures
            final(self).deep_view() == old(self).deep_view().derived_target(),
    {
        proof {
            reveal(ClientCore::model);
            reveal(SpecClientCore::derived_target);
        }
        let copy_target = match focus::target_file_of(&self.view, self.view.focus()) {
            Some(f) => Some(f.path),
            None => None,
        };
        if !copy_target.same(self.view.copy_target()) {
            self.view.set_copy_target(copy_target);
            self.flow.touch(ViewSection::Focus);
        }
    }

    fn derive_reference(&mut self)
        ensures
            final(self).deep_view() == old(self).deep_view().derived_reference(),
    {
        proof {
            reveal(ClientCore::model);
            reveal(SpecClientCore::derived_reference);
        }
        let copy_reference = self.focused_reference();
        if !copy_reference.same(self.view.copy_reference()) {
            self.view.set_copy_reference(copy_reference);
            self.flow.touch(ViewSection::Focus);
        }
    }

    fn derive_visual(&mut self)
        ensures
            final(self).deep_view() == old(self).deep_view().derived_visual(),
    {
        proof {
            reveal(ClientCore::model);
            reveal(SpecClientCore::derived_visual);
        }
        let visual = match (self.keys.visual_anchor, self.view.focus()) {
            (Some(anchor), Focus::Diff { row, .. }) => Some(
                VisualView {
                    start: if anchor.row <= row {
                        anchor.row
                    } else {
                        row
                    },
                    end: if anchor.row <= row {
                        row
                    } else {
                        anchor.row
                    },
                    side: anchor.side,
                },
            ),
            _ => None,
        };
        if visual != self.view.visual() {
            self.view.set_visual(visual);
            self.flow.touch(ViewSection::Diff);
        }
    }

    fn derive_pending_keys(&mut self)
        ensures
            final(self).deep_view() == old(self).deep_view().derived_pending_keys(),
    {
        proof {
            reveal(ClientCore::model);
            reveal(SpecClientCore::derived_pending_keys);
        }
        assert(self.keys.chords.deep_view() =~= self.keys.chords@);
        let chords = self.keys.chords.dup();
        assert(chords.deep_view() =~= chords@);
        let pending_keys = match KeySeq::new(chords) {
            Ok(keys) => keys.to_string(),
            Err(_) => String::new(),
        };
        assert(self.keys.chords.len() == 0 ==> pending_keys@ =~= Seq::empty());
        if !pending_keys.same(self.view.pending_keys()) {
            self.view.set_pending_keys(pending_keys);
            self.flow.touch(ViewSection::Hints);
        }
    }

    fn derive_pending_label(&mut self)
        ensures
            final(self).deep_view() == old(self).deep_view().derived_pending_label(),
    {
        proof {
            reveal(ClientCore::model);
            reveal(SpecClientCore::derived_pending_label);
        }
        assert(self.keys.chords.deep_view() =~= self.keys.chords@);
        let pending_label = if self.keys.chords.len() == 0 {
            None
        } else {
            self.keys.keymap.pending_label(self.keys.chords.as_slice())
        };
        if !pending_label.same(self.view.pending_label()) {
            self.view.set_pending_label(pending_label);
            self.flow.touch(ViewSection::Hints);
        }
    }

    fn derive_mode(&mut self)
        ensures
            final(self).deep_view() == old(self).deep_view().derived_mode(),
    {
        proof {
            reveal(ClientCore::model);
            reveal(SpecClientCore::derived_mode);
        }
        let mode = if self.view.focus().context() == Context::Composer {
            Mode::Insert
        } else if self.keys.visual_anchor.is_some() {
            Mode::Visual
        } else {
            Mode::Normal
        };
        if mode != self.view.mode() {
            self.view.set_mode(mode);
            self.flow.touch(ViewSection::Hints);
        }
    }

    fn resolvable(&self) -> (b: bool)
        ensures
            b == resolvable(self.deep_view().view.threads, self.deep_view().view.focus),
    {
        proof {
            reveal(ClientCore::model);
        }
        match self.view.focus() {
            Focus::Thread { index } => {
                let threads = self.view.threads();
                assert(threads.deep_view().len() == threads@.len());
                if index < threads.len() {
                    assert(threads.deep_view()[index as int] == threads@[index as int].deep_view());
                    match threads[index].status {
                        ThreadStatus::Informational => false,
                        _ => true,
                    }
                } else {
                    false
                }
            },
            _ => false,
        }
    }

    fn show_hints(&self) -> (r: Vec<Hint>)
        ensures
            r.deep_view() == self.deep_view().shown_hints(),
    {
        proof {
            reveal(ClientCore::model);
            reveal(SpecClientCore::shown_hints);
        }
        assert(self.keys.chords.deep_view() =~= self.keys.chords@);
        let context = self.view.focus().context();
        let mut hints = if self.keys.chords.len() == 0 {
            self.keys.keymap.hints(context)
        } else {
            self.keys.keymap.pending_hints(context, self.keys.chords.as_slice())
        };
        let toggle = self.resolvable();
        data::retain(
            &mut hints,
            |h: &Hint| -> (b: bool)
                ensures
                    b == offered(toggle)(h.deep_view())
            { h.command != Command::ToggleResolved || toggle },
            Ghost(offered(toggle)),
        );
        hints
    }

    fn derive_hints(&mut self)
        ensures
            final(self).deep_view() == old(self).deep_view().derived_hints(),
    {
        proof {
            reveal(ClientCore::model);
            reveal(SpecClientCore::derived_hints);
        }
        let hints = self.show_hints();
        if !hints.same(self.view.hints()) {
            self.view.set_hints(hints);
            self.flow.touch(ViewSection::Hints);
        }
    }

    fn derive_chrome(&mut self)
        ensures
            final(self).deep_view() == old(self).deep_view().derived_chrome(),
    {
        proof {
            reveal(ClientCore::model);
            reveal(SpecClientCore::derived_chrome);
        }
        let chrome = self.keys.keymap.chrome();
        if !chrome.same(self.view.chrome()) {
            self.view.set_chrome(chrome);
            self.flow.touch(ViewSection::Hints);
        }
    }

    fn derive_bindings(&mut self)
        ensures
            final(self).deep_view() == old(self).deep_view().derived_bindings(),
    {
        proof {
            reveal(ClientCore::model);
            reveal(SpecClientCore::derived_bindings);
        }
        let bindings = self.keys.keymap.applicable_bindings(self.view.focus().context());
        if !bindings.same(self.view.bindings()) {
            self.view.set_bindings(bindings);
            self.flow.touch(ViewSection::Hints);
        }
    }

    fn derive_last_key(&mut self)
        ensures
            final(self).deep_view() == old(self).deep_view().derived_last_key(),
    {
        proof {
            reveal(ClientCore::model);
            reveal(SpecClientCore::derived_last_key);
        }
        if self.keys.last_key != self.view.last_key() {
            self.view.set_last_key(self.keys.last_key);
            self.flow.touch(ViewSection::Hints);
        }
    }

    fn derive_leader(&mut self)
        ensures
            final(self).deep_view() == old(self).deep_view().derived_leader(),
    {
        proof {
            reveal(ClientCore::model);
            reveal(SpecClientCore::derived_leader);
        }
        let leader = self.keys.keymap.leader().to_string();
        if !leader.same(self.view.leader()) {
            self.view.set_leader(leader);
            self.flow.touch(ViewSection::Hints);
        }
    }

    fn derive_help(&mut self)
        ensures
            final(self).deep_view() == old(self).deep_view().derived_help(),
    {
        proof {
            reveal(ClientCore::model);
            reveal(SpecClientCore::derived_help);
        }
        let help = match self.keys.help_context {
            Some(context) => Some(self.keys.keymap.help(context)),
            None => None,
        };
        if !help.same(self.view.help()) {
            self.view.set_help(help);
            self.flow.touch(ViewSection::Help);
        }
    }

    fn derive_review(&mut self)
        ensures
            final(self).deep_view() == old(self).deep_view().derived_review(),
    {
        proof {
            reveal(SpecClientCore::derived_review);
        }
        self.derive_selector();
        self.derive_tree();
        self.apply_realign();
        self.derive_diffs();
        self.derive_requests();
        self.derive_threads();
        self.derive_stepper();
        self.derive_scope();
        self.derive_home();
    }

    fn derive_place(&mut self)
        ensures
            final(self).deep_view() == old(self).deep_view().derived_place(),
    {
        proof {
            reveal(SpecClientCore::derived_place);
        }
        self.derive_focus();
        self.derive_browse();
        self.derive_target();
        self.derive_reference();
        self.derive_visual();
    }

    fn derive_keys(&mut self)
        ensures
            final(self).deep_view() == old(self).deep_view().derived_keys(),
    {
        proof {
            reveal(SpecClientCore::derived_keys);
        }
        self.derive_pending_keys();
        self.derive_pending_label();
        self.derive_mode();
        self.derive_hints();
        self.derive_chrome();
        self.derive_bindings();
        self.derive_last_key();
        self.derive_leader();
        self.derive_help();
    }

    /// Bring every derived part of the view up to date.
    pub(crate) fn derive(&mut self)
        ensures
            final(self).deep_view() == old(self).deep_view().derived(),
    {
        proof {
            reveal(SpecClientCore::derived);
        }
        self.derive_review();
        self.derive_place();
        self.derive_keys();
    }
}

/// Clamping a focus twice is clamping it once.
pub proof fn clamping_is_done_once(view: SpecViewModel, focus: Focus)
    ensures
        view.clamp(view.clamp(focus)) == view.clamp(focus),
{
}

impl SpecClientCore {
    /// The focus is on something that is there.
    pub open spec fn focused_well(self) -> bool {
        self.view.clamp(self.view.focus) == self.view.focus
    }
}

proof fn lemma_place_keeps_the_focus(core: SpecClientCore)
    ensures
        core.derived_place().focused_well(),
{
    reveal(SpecClientCore::derived_place);
    clamping_is_done_once(core.view, core.view.focus);
    let a = core.derived_focus();
    assert(a.focused_well()) by {
        reveal(SpecClientCore::derived_focus);
    }
    let browsing = a.derived_browse();
    assert(browsing.focused_well()) by {
        reveal(SpecClientCore::derived_browse);
    }
    let b = browsing.derived_target();
    assert(b.focused_well()) by {
        reveal(SpecClientCore::derived_target);
    }
    let c = b.derived_reference();
    assert(c.focused_well()) by {
        reveal(SpecClientCore::derived_reference);
    }
    let d = c.derived_visual();
    assert(d.focused_well()) by {
        reveal(SpecClientCore::derived_visual);
    }
}

proof fn lemma_keys_keep_the_focus(core: SpecClientCore)
    requires
        core.focused_well(),
    ensures
        core.derived_keys().focused_well(),
{
    reveal(SpecClientCore::derived_keys);
    let a = core.derived_pending_keys();
    assert(a.focused_well()) by {
        reveal(SpecClientCore::derived_pending_keys);
    }
    let b = a.derived_pending_label();
    assert(b.focused_well()) by {
        reveal(SpecClientCore::derived_pending_label);
    }
    let c = b.derived_mode();
    assert(c.focused_well()) by {
        reveal(SpecClientCore::derived_mode);
    }
    let d = c.derived_hints();
    assert(d.focused_well()) by {
        reveal(SpecClientCore::derived_hints);
    }
    let e = d.derived_chrome();
    assert(e.focused_well()) by {
        reveal(SpecClientCore::derived_chrome);
    }
    let f = e.derived_bindings();
    assert(f.focused_well()) by {
        reveal(SpecClientCore::derived_bindings);
    }
    let g = f.derived_last_key();
    assert(g.focused_well()) by {
        reveal(SpecClientCore::derived_last_key);
    }
    let h = g.derived_leader();
    assert(h.focused_well()) by {
        reveal(SpecClientCore::derived_leader);
    }
    let i = h.derived_help();
    assert(i.focused_well()) by {
        reveal(SpecClientCore::derived_help);
    }
}

/// Once everything is derived, the focus is on something that is there.
pub proof fn the_focus_is_always_valid(core: SpecClientCore)
    ensures
        core.derived().focused_well(),
{
    reveal(SpecClientCore::derived);
    lemma_place_keeps_the_focus(core.derived_review());
    lemma_keys_keep_the_focus(core.derived_review().derived_place());
}

// ---- laws: deriving asks for nothing --------------------------------------

/// From `a` to `b` nothing is asked of anyone; sections may be named.
pub open spec fn asks_for_nothing(a: SpecClientCore, b: SpecClientCore) -> bool {
    b.flow.out == a.flow.out && b.flow.content == a.flow.content && b.flow.wire == a.flow.wire
}

broadcast proof fn derived_selector_asks_for_nothing(core: SpecClientCore)
    ensures
        asks_for_nothing(core, #[trigger] core.derived_selector()),
{
    reveal(SpecClientCore::derived_selector);
}

broadcast proof fn with_tree_asks_for_nothing(core: SpecClientCore, tree: SpecTreeView)
    ensures
        asks_for_nothing(core, #[trigger] core.with_tree(tree)),
{
    reveal(SpecClientCore::with_tree);
}

broadcast proof fn with_progress_asks_for_nothing(core: SpecClientCore, progress: Progress)
    ensures
        asks_for_nothing(core, #[trigger] core.with_progress(progress)),
{
    reveal(SpecClientCore::with_progress);
}

broadcast proof fn followed_asks_for_nothing(core: SpecClientCore, from: u32, to: u32)
    ensures
        asks_for_nothing(core, #[trigger] core.followed(from, to)),
{
    reveal(SpecClientCore::followed);
}

broadcast proof fn realigned_asks_for_nothing(core: SpecClientCore)
    ensures
        asks_for_nothing(core, #[trigger] core.realigned()),
{
    reveal(SpecClientCore::realigned);
    broadcast use followed_asks_for_nothing;
}

broadcast proof fn derived_diffs_asks_for_nothing(core: SpecClientCore)
    ensures
        asks_for_nothing(core, #[trigger] core.derived_diffs()),
{
    reveal(SpecClientCore::derived_diffs);
}

broadcast proof fn derived_requests_asks_for_nothing(core: SpecClientCore)
    ensures
        asks_for_nothing(core, #[trigger] core.derived_requests()),
{
    reveal(SpecClientCore::derived_requests);
}

broadcast proof fn with_conversation_asks_for_nothing(core: SpecClientCore, conversation: Seq<SpecThreadView>)
    ensures
        asks_for_nothing(core, #[trigger] core.with_conversation(conversation)),
{
    reveal(SpecClientCore::with_conversation);
}

broadcast proof fn derived_threads_asks_for_nothing(core: SpecClientCore)
    ensures
        asks_for_nothing(core, #[trigger] core.derived_threads()),
{
    reveal(SpecClientCore::derived_threads);
    broadcast use with_conversation_asks_for_nothing;
}

broadcast proof fn derived_stepper_asks_for_nothing(core: SpecClientCore)
    ensures
        asks_for_nothing(core, #[trigger] core.derived_stepper()),
{
    reveal(SpecClientCore::derived_stepper);
}

broadcast proof fn derived_scope_asks_for_nothing(core: SpecClientCore)
    ensures
        asks_for_nothing(core, #[trigger] core.derived_scope()),
{
    reveal(SpecClientCore::derived_scope);
}

broadcast proof fn derived_browse_asks_for_nothing(core: SpecClientCore)
    ensures
        asks_for_nothing(core, #[trigger] core.derived_browse()),
{
    reveal(SpecClientCore::derived_browse);
}

broadcast proof fn derived_home_asks_for_nothing(core: SpecClientCore)
    ensures
        asks_for_nothing(core, #[trigger] core.derived_home()),
{
    reveal(SpecClientCore::derived_home);
}

broadcast proof fn derived_review_asks_for_nothing(core: SpecClientCore)
    ensures
        asks_for_nothing(core, #[trigger] core.derived_review()),
{
    reveal(SpecClientCore::derived_review);
    broadcast use {
        derived_selector_asks_for_nothing,
        with_tree_asks_for_nothing,
        with_progress_asks_for_nothing,
        realigned_asks_for_nothing,
        derived_diffs_asks_for_nothing,
        derived_requests_asks_for_nothing,
        derived_threads_asks_for_nothing,
        derived_stepper_asks_for_nothing,
        derived_scope_asks_for_nothing,
        derived_home_asks_for_nothing,
    };
}

broadcast proof fn derived_focus_asks_for_nothing(core: SpecClientCore)
    ensures
        asks_for_nothing(core, #[trigger] core.derived_focus()),
{
    reveal(SpecClientCore::derived_focus);
}

broadcast proof fn derived_target_asks_for_nothing(core: SpecClientCore)
    ensures
        asks_for_nothing(core, #[trigger] core.derived_target()),
{
    reveal(SpecClientCore::derived_target);
}

broadcast proof fn derived_reference_asks_for_nothing(core: SpecClientCore)
    ensures
        asks_for_nothing(core, #[trigger] core.derived_reference()),
{
    reveal(SpecClientCore::derived_reference);
}

broadcast proof fn derived_visual_asks_for_nothing(core: SpecClientCore)
    ensures
        asks_for_nothing(core, #[trigger] core.derived_visual()),
{
    reveal(SpecClientCore::derived_visual);
}

broadcast proof fn derived_place_asks_for_nothing(core: SpecClientCore)
    ensures
        asks_for_nothing(core, #[trigger] core.derived_place()),
{
    reveal(SpecClientCore::derived_place);
    broadcast use {
        derived_focus_asks_for_nothing,
        derived_browse_asks_for_nothing,
        derived_target_asks_for_nothing,
        derived_reference_asks_for_nothing,
        derived_visual_asks_for_nothing,
    };
}

broadcast proof fn derived_pending_keys_asks_for_nothing(core: SpecClientCore)
    ensures
        asks_for_nothing(core, #[trigger] core.derived_pending_keys()),
{
    reveal(SpecClientCore::derived_pending_keys);
}

broadcast proof fn derived_pending_label_asks_for_nothing(core: SpecClientCore)
    ensures
        asks_for_nothing(core, #[trigger] core.derived_pending_label()),
{
    reveal(SpecClientCore::derived_pending_label);
}

broadcast proof fn derived_mode_asks_for_nothing(core: SpecClientCore)
    ensures
        asks_for_nothing(core, #[trigger] core.derived_mode()),
{
    reveal(SpecClientCore::derived_mode);
}

broadcast proof fn derived_hints_asks_for_nothing(core: SpecClientCore)
    ensures
        asks_for_nothing(core, #[trigger] core.derived_hints()),
{
    reveal(SpecClientCore::derived_hints);
}

broadcast proof fn derived_chrome_asks_for_nothing(core: SpecClientCore)
    ensures
        asks_for_nothing(core, #[trigger] core.derived_chrome()),
{
    reveal(SpecClientCore::derived_chrome);
}

broadcast proof fn derived_bindings_asks_for_nothing(core: SpecClientCore)
    ensures
        asks_for_nothing(core, #[trigger] core.derived_bindings()),
{
    reveal(SpecClientCore::derived_bindings);
}

broadcast proof fn derived_last_key_asks_for_nothing(core: SpecClientCore)
    ensures
        asks_for_nothing(core, #[trigger] core.derived_last_key()),
{
    reveal(SpecClientCore::derived_last_key);
}

broadcast proof fn derived_leader_asks_for_nothing(core: SpecClientCore)
    ensures
        asks_for_nothing(core, #[trigger] core.derived_leader()),
{
    reveal(SpecClientCore::derived_leader);
}

broadcast proof fn derived_help_asks_for_nothing(core: SpecClientCore)
    ensures
        asks_for_nothing(core, #[trigger] core.derived_help()),
{
    reveal(SpecClientCore::derived_help);
}

broadcast proof fn derived_keys_asks_for_nothing(core: SpecClientCore)
    ensures
        asks_for_nothing(core, #[trigger] core.derived_keys()),
{
    reveal(SpecClientCore::derived_keys);
    broadcast use {
        derived_pending_keys_asks_for_nothing,
        derived_pending_label_asks_for_nothing,
        derived_mode_asks_for_nothing,
        derived_hints_asks_for_nothing,
        derived_chrome_asks_for_nothing,
        derived_bindings_asks_for_nothing,
        derived_last_key_asks_for_nothing,
        derived_leader_asks_for_nothing,
        derived_help_asks_for_nothing,
    };
}

/// Bringing the view up to date sends nothing, stores nothing and fetches
/// nothing.
pub proof fn deriving_asks_for_nothing(core: SpecClientCore)
    ensures
        asks_for_nothing(core, core.derived()),
{
    reveal(SpecClientCore::derived);
    broadcast use {
        derived_review_asks_for_nothing,
        derived_place_asks_for_nothing,
        derived_keys_asks_for_nothing,
    };
}

} // verus!
