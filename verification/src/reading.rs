//! What the user does to look around: files, the explorer, scopes, searches
//! and preferences.
use vstd::prelude::*;

use crate::cache::{RenderKey, SpecRenderKey};
use crate::client;
use crate::client::{
    ClientCore, CoreError, Folded, InputKind, ScopeChoice, SearchKind, SpecClientCore,
    SpecCoreError, SpecFolded, SpecKeys, EXPAND_STEP, FULL_CONTEXT,
};
use crate::command::Command;
use crate::data;
use crate::data::Value;
use crate::diff;
use crate::diff::{DiffRow, DiffView, FileRef, SpecDiffRow, SpecDiffView, SpecFileRef, ViewedState};
use crate::events;
use crate::explorer;
use crate::explorer::{DirKey, SpecDirKey, SpecExplorerState, SpecTreeNode, TreeNode};
use crate::flow::{
    Errand, InFlight, Key, Persisted, SpecErrand, SpecInFlight, SpecKey, SpecPersisted, SpecWire,
};
use crate::focus;
use crate::focus::{Focus, NoTarget, Realign, SpecRealign, PAGE_ROWS};
use crate::protocol::{
    Anchor, CommentContext, DiffScope, ExpandDir, Expansion, Expansions, Gap, RenderOpts,
    RenderTarget, RepoId, RepoPath, Request, ResolvedSource, ResolvedTarget, ReviewId, Side,
    SpecAnchor, SpecCommentContext, SpecExpansions, SpecRenderOpts, SpecRenderTarget, SpecRepoPath,
    SpecRequest, ThreadId, ViewSection,
};
use crate::ref_selector;
use crate::text;
use crate::view;
use crate::view::{
    ContentSearchView, Landing, OpenFile, ScrollAlign, ScrollIntent, SpecContentSearchView,
    SpecOpenFile, SpecOpenReview, SpecViewModel, Tab, ViewPrefs,
};

verus! {

/// The first row of a page around `row`.
pub open spec fn page_start(row: u32) -> u32 {
    if row >= PAGE_ROWS / 2 {
        (row - PAGE_ROWS / 2) as u32
    } else {
        0
    }
}

/// The last row of a page that starts at `first`.
pub open spec fn page_end(first: u32) -> u32 {
    explorer::sat(first, (PAGE_ROWS - 1) as u32)
}

pub(crate) fn page(row: u32) -> (r: (u32, u32))
    ensures
        r == (page_start(row), page_end(page_start(row))),
{
    let first: u32 = if row >= PAGE_ROWS / 2 {
        row - PAGE_ROWS / 2
    } else {
        0
    };
    (first, first.saturating_add(PAGE_ROWS - 1))
}

/// Every directory of a set but one.
pub open spec fn other_dir(key: SpecDirKey) -> spec_fn(SpecDirKey) -> bool {
    |k: SpecDirKey| k != key
}

/// The set with `key` in it if it was not, and without it if it was.
pub open spec fn toggled(set: Seq<SpecDirKey>, key: SpecDirKey) -> Seq<SpecDirKey> {
    if set.contains(key) {
        set.filter(other_dir(key))
    } else {
        set.push(key)
    }
}

/// The set with `key` in it.
pub open spec fn with_dir(set: Seq<SpecDirKey>, key: SpecDirKey) -> Seq<SpecDirKey> {
    if set.contains(key) {
        set
    } else {
        set.push(key)
    }
}

/// The set with every key in it.
pub open spec fn with_dirs(set: Seq<SpecDirKey>, keys: Seq<SpecDirKey>) -> Seq<SpecDirKey>
    decreases keys.len(),
{
    if keys.len() == 0 {
        set
    } else {
        with_dir(with_dirs(set, keys.drop_last()), keys.last())
    }
}

/// The directory a path is in; a path without one is in the root.
pub open spec fn parent(path: Option<SpecRepoPath>) -> Option<SpecRepoPath> {
    match path {
        Some(p) => match text::before_last(p.text, '/') {
            Some(dir) => if text::is_path(dir) {
                Some(SpecRepoPath { text: dir })
            } else {
                None
            },
            None => None,
        },
        None => None,
    }
}

impl SpecTreeNode {
    /// The directory that collapsing this node closes: itself if it is an
    /// open directory, else the one it is in.
    pub open spec fn to_collapse(self) -> SpecDirKey {
        match self {
            SpecTreeNode::Dir { repo_id, path, expanded, .. } => SpecDirKey {
                repo_id,
                path: if expanded {
                    path
                } else {
                    parent(path)
                },
            },
            SpecTreeNode::File { repo_id, path, .. } => SpecDirKey { repo_id, path: parent(Some(path)) },
        }
    }
}

pub open spec fn dir_of(key: SpecDirKey) -> spec_fn(SpecTreeNode) -> bool {
    |n: SpecTreeNode|
        match n {
            SpecTreeNode::Dir { repo_id, path, .. } => repo_id == key.repo_id && path == key.path,
            SpecTreeNode::File { .. } => false,
        }
}

pub open spec fn folded_file(file: SpecFileRef) -> spec_fn(SpecFolded) -> bool {
    |f: SpecFolded| f.file == file
}

pub open spec fn other_fold(file: SpecFileRef) -> spec_fn(SpecFolded) -> bool {
    |f: SpecFolded| f.file != file
}

pub open spec fn diff_on(file: SpecFileRef) -> spec_fn(SpecDiffView) -> bool {
    |d: SpecDiffView| d.file == file
}

pub open spec fn row_at(index: u32) -> spec_fn(SpecDiffRow) -> bool {
    |r: SpecDiffRow| r.index == index
}

pub open spec fn from_worktree(repo_id: RepoId) -> spec_fn(ResolvedTarget) -> bool {
    |t: ResolvedTarget| t.repo_id == repo_id && t.head.source is WorkingTree
}

pub open spec fn gap_is(gap: Gap) -> spec_fn(Expansion) -> bool {
    |e: Expansion| e.gap == gap
}

/// One gap opened a step further.
pub open spec fn widened(e: Expansion, dir: ExpandDir, step: u32) -> Expansion {
    match dir {
        ExpandDir::Up => Expansion { up: explorer::sat(e.up, step), ..e },
        ExpandDir::Down => Expansion { down: explorer::sat(e.down, step), ..e },
    }
}

impl SpecExpansions {
    /// The gap opened a step further; the others stay.
    pub open spec fn opened(self, gap: Gap, dir: ExpandDir, step: u32) -> SpecExpansions {
        SpecExpansions {
            open: match data::first_where(self.open, gap_is(gap)) {
                Some(i) => self.open.update(i, widened(self.open[i], dir, step)),
                None => self.open.push(widened(Expansion { gap, up: 0, down: 0 }, dir, step)),
            },
        }
    }
}

fn widen(e: Expansion, dir: ExpandDir, step: u32) -> (r: Expansion)
    ensures
        r == widened(e, dir, step),
{
    match dir {
        ExpandDir::Up => Expansion { up: e.up.saturating_add(step), ..e },
        ExpandDir::Down => Expansion { down: e.down.saturating_add(step), ..e },
    }
}

impl Expansions {
    /// The gap opened a step further; the others stay.
    pub fn opened(&self, gap: Gap, dir: ExpandDir, step: u32) -> (r: Expansions)
        ensures
            r.deep_view() == self.deep_view().opened(gap, dir, step),
    {
        let mut open = self.open.dup();
        match data::position(
            &open,
            |e: &Expansion| -> (b: bool)
                ensures
                    b == gap_is(gap)(e.deep_view())
            { e.gap == gap },
            Ghost(gap_is(gap)),
        ) {
            Some(i) => {
                assert(open.deep_view()[i as int] == open@[i as int].deep_view());
                let e = widen(open[i], dir, step);
                data::set(&mut open, i, e);
            },
            None => {
                data::push(&mut open, widen(Expansion { gap, up: 0, down: 0 }, dir, step));
            },
        }
        Expansions { open }
    }
}

/// How a file's render is widened.
#[derive(Debug, Clone, Copy, PartialEq, Eq, Structural)]
pub enum Widening {
    /// A step more context everywhere.
    Step,
    /// The whole file.
    Full,
    /// A step more of one hidden run.
    Gap { gap: Gap, dir: ExpandDir },
}

impl DeepView for Widening {
    type V = Widening;

    open spec fn deep_view(&self) -> Widening {
        *self
    }
}

impl Value for Widening {
    fn dup(&self) -> (r: Self) {
        *self
    }

    fn same(&self, other: &Self) -> (b: bool) {
        *self == *other
    }
}


impl SpecRenderOpts {
    /// The options after a widening. Widening the context renumbers the
    /// gaps, so what was opened by number is forgotten.
    pub open spec fn widened(self, by: Widening) -> SpecRenderOpts {
        match by {
            Widening::Step => SpecRenderOpts {
                context_lines: explorer::sat(self.context_lines, EXPAND_STEP),
                expanded: view::no_expansions(),
                ..self
            },
            Widening::Full => SpecRenderOpts {
                context_lines: FULL_CONTEXT,
                expanded: view::no_expansions(),
                ..self
            },
            Widening::Gap { gap, dir } => SpecRenderOpts {
                expanded: self.expanded.opened(gap, dir, EXPAND_STEP),
                ..self
            },
        }
    }
}

impl RenderOpts {
    /// The options after a widening.
    pub fn widened(&self, by: Widening) -> (r: RenderOpts)
        ensures
            r.deep_view() == self.deep_view().widened(by),
    {
        match by {
            Widening::Step => RenderOpts {
                ignore_whitespace: self.ignore_whitespace,
                context_lines: self.context_lines.saturating_add(EXPAND_STEP),
                expanded: Expansions { open: data::empty() },
            },
            Widening::Full => RenderOpts {
                ignore_whitespace: self.ignore_whitespace,
                context_lines: FULL_CONTEXT,
                expanded: Expansions { open: data::empty() },
            },
            Widening::Gap { gap, dir } => RenderOpts {
                ignore_whitespace: self.ignore_whitespace,
                context_lines: self.context_lines,
                expanded: self.expanded.opened(gap, dir, EXPAND_STEP),
            },
        }
    }
}

impl SpecClientCore {
    /// Where the view should sit around `row`.
    #[verifier::opaque]
    pub open spec fn scrolled(self, row: u32, align: ScrollAlign) -> SpecClientCore {
        let seq: u32 = match self.view.scroll {
            Some(s) => if s.seq == u32::MAX {
                0
            } else {
                (s.seq + 1) as u32
            },
            None => 1,
        };
        self.with_view(SpecViewModel { scroll: Some(ScrollIntent { row, align, seq }), ..self.view })
    }

    #[verifier::opaque]
    pub open spec fn open_file_at(self, file: SpecFileRef, row: u32, side: Side, landing: Landing) -> Result<
        SpecClientCore,
        SpecCoreError,
    > {
        match self.viewport(file, page_start(row), page_end(page_start(row))) {
            Ok(c) => {
                let c = c.with_focus(Focus::Diff { row, side });
                Ok(
                    (if landing is Pin {
                        c.scrolled(row, ScrollAlign::Top)
                    } else {
                        c
                    }).touch(seq![ViewSection::Focus]),
                )
            },
            Err(e) => Err(e),
        }
    }

    pub open spec fn without_visual(self) -> SpecClientCore {
        self.with_keys(SpecKeys { visual_anchor: None, ..self.keys })
    }

    pub open spec fn file_closed(self) -> Result<SpecClientCore, SpecCoreError> {
        match self.close_file() {
            Ok(c) => Ok(c.without_visual()),
            Err(e) => Err(e),
        }
    }

    /// A directory opens or closes. What was toggled while browsing is kept
    /// apart from what was toggled elsewhere.
    #[verifier::opaque]
    pub open spec fn toggle_dir(self, key: SpecDirKey) -> Result<SpecClientCore, SpecCoreError> {
        if self.view.review is None {
            Err(SpecCoreError::NoOpenReview)
        } else if self.view.tab is Browse {
            Ok(
                SpecClientCore {
                    explorer: SpecExplorerState {
                        expanded: toggled(self.explorer.expanded, key),
                        ..self.explorer
                    },
                    ..self
                },
            )
        } else {
            Ok(
                SpecClientCore {
                    explorer: SpecExplorerState {
                        collapsed: toggled(self.explorer.collapsed, key),
                        ..self.explorer
                    },
                    ..self
                },
            )
        }
    }

    #[verifier::opaque]
    pub open spec fn file_search(self, query: Option<Seq<char>>) -> Result<SpecClientCore, SpecCoreError> {
        if self.view.review is None {
            Err(SpecCoreError::NoOpenReview)
        } else {
            Ok(
                SpecClientCore {
                    explorer: SpecExplorerState { search: query, search_selected: 0, ..self.explorer },
                    ..self
                },
            )
        }
    }

    /// The review has no files and no open file until they are listed again.
    #[verifier::opaque]
    pub open spec fn unlisted(self) -> SpecClientCore {
        match self.view.review {
            Some(open) => self.with_open(
                SpecOpenReview { files: Seq::empty(), open_file: None, original: None, ..open },
            ),
            None => self,
        }
    }

    /// The preferences change. New render options re-key every render, so
    /// the open review's files are listed again.
    #[verifier::opaque]
    pub open spec fn apply_prefs(self, prefs: ViewPrefs, save: bool) -> SpecClientCore {
        let before = self.view.prefs;
        let c = self.with_view(SpecViewModel { prefs, ..self.view });
        let c = if save {
            c.with_flow(
                c.flow.emit(
                    SpecErrand::Persist { key: SpecKey::Prefs, value: SpecPersisted::Prefs { prefs } },
                ),
            )
        } else {
            c
        };
        let c = if prefs.opts() != before.opts() {
            c.reoptioned(prefs.opts())
        } else {
            c
        };
        c.touch(seq![ViewSection::Diff])
    }

    #[verifier::opaque]
    pub open spec fn reoptioned(self, opts: SpecRenderOpts) -> SpecClientCore {
        let content = self.flow.content;
        let c = self.with_content(
            crate::content::SpecContent {
                config: crate::content::SpecCacheConfig { render_opts: opts, ..content.config },
                ..content
            },
        ).unlisted();
        match c.open_id() {
            Some(review_id) => if c.subscribed() {
                c.list_files(review_id)
            } else {
                c
            },
            None => c,
        }
    }

    #[verifier::opaque]
    pub open spec fn set_tab(self, tab: Tab) -> SpecClientCore {
        if self.view.tab == tab {
            self
        } else {
            let c = self.with_view(SpecViewModel { tab, ..self.view });
            let c = if c.view.focus is ReviewRequest && !(tab is Conversation) {
                c.with_focus(c.view.clamp(Focus::Diff { row: 0, side: Side::Head }))
            } else {
                c
            };
            c.touch(seq![ViewSection::Focus])
        }
    }

    /// Whether a file of the stacked diff is folded: as it was set by hand,
    /// else when it is viewed.
    pub open spec fn is_folded(self, file: SpecFileRef) -> bool {
        match data::found(self.file_collapse, folded_file(file)) {
            Some(f) => f.folded,
            None => match data::found(self.view.diffs, diff_on(file)) {
                Some(d) => d.viewed is Viewed,
                None => false,
            },
        }
    }

    #[verifier::opaque]
    pub open spec fn toggle_file_collapse(self, file: SpecFileRef) -> Result<SpecClientCore, SpecCoreError> {
        if self.view.review is None {
            Err(SpecCoreError::NoOpenReview)
        } else {
            Ok(
                SpecClientCore {
                    file_collapse: self.file_collapse.filter(other_fold(file)).push(
                        SpecFolded { file, folded: !self.is_folded(file) },
                    ),
                    ..self
                },
            )
        }
    }

    /// The directory is closed.
    pub open spec fn dir_closed(self, key: SpecDirKey) -> SpecClientCore {
        SpecClientCore {
            explorer: if self.view.tab is Browse {
                SpecExplorerState { expanded: self.explorer.expanded.filter(other_dir(key)), ..self.explorer }
            } else {
                SpecExplorerState { collapsed: with_dir(self.explorer.collapsed, key), ..self.explorer }
            },
            ..self
        }
    }

    #[verifier::opaque]
    pub open spec fn collapse_parent(self) -> Result<SpecClientCore, SpecCoreError> {
        if self.view.review is None {
            Err(SpecCoreError::NoOpenReview)
        } else {
            match self.view.focus {
                Focus::Tree { index } => {
                    let nodes = self.view.visible_nodes();
                    if index < nodes.len() {
                        let key = nodes[index as int].to_collapse();
                        let c = self.dir_closed(key);
                        match data::first_where(nodes, dir_of(key)) {
                            Some(i) => Ok(c.with_focus(Focus::Tree { index: i as usize })),
                            None => Ok(c),
                        }
                    } else {
                        Ok(self)
                    }
                },
                _ => Ok(self),
            }
        }
    }

    #[verifier::opaque]
    pub open spec fn collapse_all(self) -> Result<SpecClientCore, SpecCoreError> {
        if self.view.review is None {
            Err(SpecCoreError::NoOpenReview)
        } else {
            let c = SpecClientCore {
                explorer: if self.view.tab is Browse {
                    SpecExplorerState { expanded: Seq::empty(), ..self.explorer }
                } else {
                    SpecExplorerState {
                        collapsed: with_dirs(self.explorer.collapsed, explorer::dirs(self.view.tree.roots)),
                        ..self.explorer
                    }
                },
                ..self
            };
            if c.view.focus is Tree {
                Ok(c.with_focus(Focus::Tree { index: 0 }))
            } else {
                Ok(c)
            }
        }
    }

    #[verifier::opaque]
    pub open spec fn scroll_view(self, align: ScrollAlign) -> Result<SpecClientCore, SpecCoreError> {
        match self.view.focus {
            Focus::Diff { row, .. } => Ok(self.scrolled(row, align).touch(seq![ViewSection::Focus])),
            _ => Err(SpecCoreError::NoTarget(NoTarget::Nothing(Command::CenterView))),
        }
    }

    #[verifier::opaque]
    pub open spec fn list_commits(self, repo_id: RepoId) -> Result<SpecClientCore, SpecCoreError> {
        match self.open_id() {
            None => Err(SpecCoreError::NoOpenReview),
            Some(review_id) => if !self.subscribed() {
                Err(self.wrong_state(InputKind::User))
            } else {
                Ok(
                    self.request(
                        SpecRequest::ListCommits { review_id, repo_id },
                        SpecInFlight::ListCommits { repo_id },
                    ),
                )
            },
        }
    }

    /// The open review shows another diff; its files are listed again.
    #[verifier::opaque]
    pub open spec fn apply_scope(self, scope: DiffScope) -> SpecClientCore {
        match self.view.review {
            Some(open) => if open.scope == scope {
                self
            } else {
                let c = self.with_open(
                    SpecOpenReview {
                        scope,
                        scoped_targets: Seq::empty(),
                        files: Seq::empty(),
                        open_file: None,
                        original: None,
                        ..open
                    },
                ).rebased();
                let c = if c.subscribed() {
                    c.list_files(open.snapshot.review.id)
                } else {
                    c
                };
                c.touch(seq![ViewSection::ReviewList, ViewSection::Diff])
            },
            None => self,
        }
    }

    /// The step commit stepping starts at: the working tree when the head
    /// is one, else the newest commit.
    pub open spec fn first_step(self, repo_id: RepoId) -> Option<DiffScope> {
        match self.view.review {
            Some(open) => if open.snapshot.resolved is Some && data::some_where(
                open.snapshot.resolved->0,
                from_worktree(repo_id),
            ) {
                Some(DiffScope::Worktree { repo_id })
            } else {
                match self.stepper {
                    Some(st) => if st.repo_id == repo_id && st.commits.len() > 0 {
                        Some(DiffScope::Commit { repo_id, oid: st.commits[0].oid })
                    } else {
                        None
                    },
                    None => None,
                }
            },
            None => None,
        }
    }

    /// In commit stepping the step is the diff.
    #[verifier::opaque]
    pub open spec fn step_commit(self, selected: Option<usize>) -> Result<SpecClientCore, SpecCoreError> {
        match self.stepper {
            None => Err(SpecCoreError::NoStepper),
            Some(st) => if selected is Some && selected->0 >= st.commits.len() {
                Err(SpecCoreError::CommitOutOfRange(selected->0))
            } else if self.view.review is Some && (self.scope() is Commit || self.scope() is Worktree) {
                Ok(
                    self.apply_scope(
                        match selected {
                            Some(i) => DiffScope::Commit {
                                repo_id: st.repo_id,
                                oid: st.commits[i as int].oid,
                            },
                            None => DiffScope::Worktree { repo_id: st.repo_id },
                        },
                    ),
                )
            } else {
                Ok(self)
            },
        }
    }

    #[verifier::opaque]
    pub open spec fn set_scope(self, scope: ScopeChoice) -> Result<SpecClientCore, SpecCoreError> {
        if !self.subscribed() {
            Err(self.wrong_state(InputKind::User))
        } else {
            match self.view.review {
                None => Err(SpecCoreError::NoOpenReview),
                Some(open) => match scope {
                    ScopeChoice::All => Ok(self.apply_scope(DiffScope::All)),
                    ScopeChoice::Committed => Ok(self.apply_scope(DiffScope::Committed)),
                    ScopeChoice::Commit { repo_id, oid } => Ok(
                        self.apply_scope(DiffScope::Commit { repo_id, oid }),
                    ),
                    ScopeChoice::Worktree { repo_id } => Ok(
                        self.apply_scope(DiffScope::Worktree { repo_id }),
                    ),
                    ScopeChoice::ByCommit => if open.snapshot.review.targets.len() == 0 {
                        Err(SpecCoreError::NoStepper)
                    } else {
                        self.by_commit(open.snapshot.review.id, open.snapshot.review.targets[0].repo_id)
                    },
                },
            }
        }
    }

    /// Commit stepping is entered, once the commit list is there.
    #[verifier::opaque]
    pub open spec fn by_commit(self, review_id: ReviewId, repo_id: RepoId) -> Result<SpecClientCore, SpecCoreError> {
        if self.stepper is Some && self.stepper->0.repo_id == repo_id {
            match self.first_step(repo_id) {
                Some(scope) => Ok(self.apply_scope(scope)),
                None => Err(SpecCoreError::NoStepper),
            }
        } else {
            Ok(
                (SpecClientCore { by_commit_pending: true, ..self }).request(
                    SpecRequest::ListCommits { review_id, repo_id },
                    SpecInFlight::ListCommits { repo_id },
                ),
            )
        }
    }

    /// The render a thread's root comment recorded, and the side it is on.
    pub open spec fn recorded(self, thread_id: ThreadId) -> Result<(SpecRenderKey, Side), SpecCoreError> {
        match self.view.review {
            None => Err(SpecCoreError::NoOpenReview),
            Some(open) => match open.snapshot.root_of(thread_id) {
                None => Err(SpecCoreError::UnknownThread(thread_id)),
                Some(root) => match root.context {
                    None => Err(SpecCoreError::NoOriginalDiff(thread_id)),
                    Some(context) => {
                        let (target, opts) = match context {
                            SpecCommentContext::Diff { change } => (
                                SpecRenderTarget::Diff { change },
                                self.flow.content.config.render_opts,
                            ),
                            SpecCommentContext::Browse { oid } => (
                                SpecRenderTarget::Blob { oid },
                                ViewPrefs::spec_default().opts(),
                            ),
                        };
                        match root.anchor {
                            SpecAnchor::File { repo_id, path, .. } => Ok(
                                (SpecRenderKey { repo_id, path, target, opts }, Side::Head),
                            ),
                            SpecAnchor::Lines { repo_id, path, side, .. } => Ok(
                                (SpecRenderKey { repo_id, path, target, opts }, side),
                            ),
                            SpecAnchor::Review => Err(SpecCoreError::NoOriginalDiff(thread_id)),
                        }
                    },
                },
            },
        }
    }

    /// The render is the open file and the recorded original.
    #[verifier::opaque]
    pub open spec fn original_opened(self, render: SpecRenderKey) -> SpecClientCore {
        match self.view.review {
            Some(open) => self.with_open(
                SpecOpenReview {
                    original: Some(render),
                    open_file: Some(SpecOpenFile { render, first_row: 0, last_row: (PAGE_ROWS - 1) as u32 }),
                    ..open
                },
            ),
            None => self,
        }
    }

    /// What a comment was made on is opened.
    #[verifier::opaque]
    pub open spec fn open_original(self, thread_id: ThreadId) -> Result<SpecClientCore, SpecCoreError> {
        if !self.subscribed() {
            Err(self.wrong_state(InputKind::User))
        } else {
            match self.recorded(thread_id) {
                Err(e) => Err(e),
                Ok((render, side)) => Ok(
                    self.original_opened(render).with_focus(Focus::Diff { row: 0, side }).want_open_render(
                        self.open_id()->0,
                        render,
                    ).touch(seq![ViewSection::Focus, ViewSection::Diff]),
                ),
            }
        }
    }

    /// The line the cursor is on in `render`, if that is the open file.
    pub open spec fn focused_line(self, render: SpecRenderKey, waiting_for: SpecRenderKey) -> Option<SpecRealign> {
        match self.view.focus {
            Focus::Diff { row, side } => if self.open_render() == Some(render) {
                match self.view.diff {
                    Some(d) => match data::found(d.rows, row_at(row)) {
                        Some(r) => match r.row.line_on(side) {
                            Some(line) => Some(SpecRealign { render: waiting_for, side, line, row }),
                            None => None,
                        },
                        None => None,
                    },
                    None => None,
                }
            } else {
                None
            },
            _ => None,
        }
    }

    /// The line to keep the cursor on when `old` becomes `new`. A second
    /// widening before the first is here carries the line over.
    pub open spec fn line_to_keep(self, old_key: SpecRenderKey, new_key: SpecRenderKey) -> Option<SpecRealign> {
        match self.focused_line(old_key, new_key) {
            Some(r) => Some(r),
            None => match self.realign {
                Some(p) => if p.render == old_key {
                    Some(SpecRealign { render: new_key, ..p })
                } else {
                    None
                },
                None => None,
            },
        }
    }

    /// The `i`-th file is rendered as `new`.
    #[verifier::opaque]
    pub open spec fn rekeyed(self, i: int, new_key: SpecRenderKey) -> SpecClientCore {
        match self.view.review {
            Some(open) => {
                let old_key = open.files[i];
                let c = SpecClientCore { realign: self.line_to_keep(old_key, new_key), ..self };
                c.with_open(
                    SpecOpenReview {
                        files: open.files.update(i, new_key),
                        open_file: match open.open_file {
                            Some(f) => if f.render == old_key {
                                Some(SpecOpenFile { render: new_key, ..f })
                            } else {
                                Some(f)
                            },
                            None => None,
                        },
                        ..open
                    },
                )
            },
            None => self,
        }
    }

    /// One file is rendered with other options.
    #[verifier::opaque]
    pub open spec fn re_render(self, file: SpecFileRef, by: Widening) -> Result<SpecClientCore, SpecCoreError> {
        if !self.subscribed() {
            Err(self.wrong_state(InputKind::User))
        } else {
            match self.view.review {
                None => Err(SpecCoreError::NoOpenReview),
                Some(open) => match data::first_where(open.files, explorer::file_of(file.repo_id, file.path)) {
                    None => Err(SpecCoreError::UnknownFile(file)),
                    Some(i) => {
                        let old_key = open.files[i];
                        let new_key = SpecRenderKey { opts: old_key.opts.widened(by), ..old_key };
                        if new_key == old_key {
                            Ok(self)
                        } else {
                            Ok(
                                self.rekeyed(i, new_key).want_open_render(open.snapshot.review.id, new_key).touch(
                                    seq![ViewSection::Diff],
                                ),
                            )
                        }
                    },
                },
            }
        }
    }

    pub open spec fn with_latest_search(self, latest_search: Option<crate::protocol::RequestId>) -> SpecClientCore {
        self.with_flow(self.flow.with_wire(SpecWire { latest_search, ..self.flow.wire }))
    }

    pub open spec fn with_search(self, search: Option<SpecContentSearchView>) -> SpecClientCore {
        self.with_view(SpecViewModel { content_search: search, ..self.view })
    }

    /// The content search opens, asks again, or closes.
    #[verifier::opaque]
    pub open spec fn content_search(self, query: Option<Seq<char>>, all_files: bool) -> Result<
        SpecClientCore,
        SpecCoreError,
    > {
        match self.view.review {
            None => Err(SpecCoreError::NoOpenReview),
            Some(open) => match query {
                None => Ok(self.with_latest_search(None).with_search(None).touch(seq![ViewSection::Search])),
                Some(query) => {
                    let ask = text::trimmed(query).len() > 0;
                    if ask && !self.subscribed() {
                        Err(self.wrong_state(InputKind::User))
                    } else {
                        let c = self.with_latest_search(None).with_search(
                            Some(
                                SpecContentSearchView {
                                    query,
                                    all_files,
                                    hits: Seq::empty(),
                                    truncated: false,
                                    pending: ask,
                                    selected: 0,
                                },
                            ),
                        );
                        let c = if ask {
                            c.request(
                                SpecRequest::Search {
                                    review_id: open.snapshot.review.id,
                                    query,
                                    all_files,
                                    scope: open.scope,
                                },
                                SpecInFlight::Search,
                            )
                        } else {
                            c
                        };
                        Ok(c.touch(seq![ViewSection::Search]))
                    }
                },
            },
        }
    }

    #[verifier::opaque]
    pub open spec fn set_palette(self, open: bool) -> SpecClientCore {
        if self.view.action_palette == open {
            self
        } else {
            self.with_view(
                SpecViewModel { action_palette: open, ..self.view },
            ).touch(seq![ViewSection::Search])
        }
    }

    #[verifier::opaque]
    pub open spec fn search_first(self, search: SearchKind) -> Result<SpecClientCore, SpecCoreError> {
        match search {
            SearchKind::Files => if self.explorer.search is None {
                Err(SpecCoreError::NoTarget(NoTarget::Nothing(Command::MoveDown)))
            } else {
                Ok(
                    SpecClientCore {
                        explorer: SpecExplorerState { search_selected: 0, ..self.explorer },
                        ..self
                    },
                )
            },
            SearchKind::Content => match self.view.content_search {
                None => Err(SpecCoreError::NoTarget(NoTarget::Nothing(Command::MoveDown))),
                Some(s) => Ok(
                    self.with_search(Some(SpecContentSearchView { selected: 0, ..s })).touch(
                        seq![ViewSection::Search],
                    ),
                ),
            },
        }
    }

    #[verifier::opaque]
    pub open spec fn search_step(self, search: SearchKind, delta: i32) -> Result<SpecClientCore, SpecCoreError> {
        match search {
            SearchKind::Files => match self.view.tree.search {
                None => Err(SpecCoreError::NoTarget(NoTarget::Nothing(Command::MoveDown))),
                Some(s) => Ok(
                    SpecClientCore {
                        explorer: SpecExplorerState {
                            search_selected: ref_selector::moved(
                                s.selected as int,
                                delta as int,
                                s.hits.len(),
                            ) as usize,
                            ..self.explorer
                        },
                        ..self
                    },
                ),
            },
            SearchKind::Content => match self.view.content_search {
                None => Err(SpecCoreError::NoTarget(NoTarget::Nothing(Command::MoveDown))),
                Some(s) => Ok(
                    self.with_search(
                        Some(
                            SpecContentSearchView {
                                selected: ref_selector::moved(
                                    s.selected as int,
                                    delta as int,
                                    s.hits.len(),
                                ) as usize,
                                ..s
                            },
                        ),
                    ).touch(seq![ViewSection::Search]),
                ),
            },
        }
    }

    /// Where the selected result is, if `query` is what it answers.
    pub open spec fn search_target(self, search: SearchKind, query: Seq<char>) -> Option<(SpecFileRef, u32, u32)> {
        match search {
            SearchKind::Files => match self.view.tree.search {
                Some(s) => if s.query == query && s.selected < s.hits.len() {
                    Some((s.hits[s.selected as int].file, 0, 59))
                } else {
                    None
                },
                None => None,
            },
            SearchKind::Content => match self.view.content_search {
                Some(s) => if s.query == query && !s.pending && s.selected < s.hits.len() {
                    let hit = s.hits[s.selected as int];
                    Some(
                        (
                            SpecFileRef { repo_id: hit.repo_id, path: hit.path },
                            page_start(hit.line),
                            explorer::sat(hit.line, 30),
                        ),
                    )
                } else {
                    None
                },
                None => None,
            },
        }
    }

    /// The selected result is opened.
    #[verifier::opaque]
    pub open spec fn open_search_result(self, search: SearchKind, query: Seq<char>) -> Result<
        SpecClientCore,
        SpecCoreError,
    > {
        match self.search_target(search, query) {
            None => Ok(self),
            Some((file, first_row, last_row)) => match self.viewport(file, first_row, last_row) {
                Err(e) => Err(e),
                Ok(c) => if search is Content {
                    Ok(c.with_search(None).with_latest_search(None).touch(seq![ViewSection::Search]))
                } else {
                    Ok(c)
                },
            },
        }
    }
}

fn parent_of(path: &Option<RepoPath>) -> (r: Option<RepoPath>)
    ensures
        r.deep_view() == parent(path.deep_view()),
{
    match path {
        Some(p) => match text::split_last(p.text.as_str(), '/') {
            Some(dir) => RepoPath::new(dir),
            None => None,
        },
        None => None,
    }
}

fn dir_to_collapse(node: &TreeNode) -> (r: DirKey)
    ensures
        r.deep_view() == node.deep_view().to_collapse(),
{
    match node {
        TreeNode::Dir { repo_id, path, expanded, .. } => DirKey {
            repo_id: *repo_id,
            path: if *expanded {
                path.dup()
            } else {
                parent_of(path)
            },
        },
        TreeNode::File { repo_id, path, .. } => DirKey {
            repo_id: *repo_id,
            path: parent_of(&Some(path.dup())),
        },
    }
}

fn drop_dir(set: &mut Vec<DirKey>, key: &DirKey)
    ensures
        final(set).deep_view() == old(set).deep_view().filter(other_dir(key.deep_view())),
{
    data::retain(
        set,
        |k: &DirKey| -> (b: bool)
            ensures
                b == other_dir(key.deep_view())(k.deep_view())
        { !k.same(key) },
        Ghost(other_dir(key.deep_view())),
    );
}

fn toggle(set: &mut Vec<DirKey>, key: DirKey)
    ensures
        final(set).deep_view() == toggled(old(set).deep_view(), key.deep_view()),
{
    if data::contains(set, &key) {
        drop_dir(set, &key);
    } else {
        data::push(set, key);
    }
}

fn add_dir(set: &mut Vec<DirKey>, key: DirKey)
    ensures
        final(set).deep_view() == with_dir(old(set).deep_view(), key.deep_view()),
{
    if !data::contains(set, &key) {
        data::push(set, key);
    }
}

fn add_dirs(set: &mut Vec<DirKey>, keys: &Vec<DirKey>)
    ensures
        final(set).deep_view() == with_dirs(old(set).deep_view(), keys.deep_view()),
{
    let n: usize = keys.len();
    let ghost all = keys.deep_view();
    let ghost start = set.deep_view();
    for i in 0..n
        invariant
            n == keys@.len(),
            all == keys.deep_view(),
            set.deep_view() == with_dirs(start, all.take(i as int)),
    {
        assert(all.take(i + 1).drop_last() =~= all.take(i as int));
        assert(all.take(i + 1).last() == keys@[i as int].deep_view());
        add_dir(set, keys[i].dup());
    }
    assert(all.take(n as int) =~= all);
}

impl ClientCore {
    fn scroll_to(&mut self, row: u32, align: ScrollAlign)
        ensures
            final(self).deep_view() == old(self).deep_view().scrolled(row, align),
    {
        proof {
            reveal(ClientCore::model);
            reveal(SpecClientCore::scrolled);
        }
        let seq: u32 = match self.view.scroll() {
            Some(s) => s.seq.wrapping_add(1),
            None => 1,
        };
        self.view.set_scroll(Some(ScrollIntent { row, align, seq }));
    }

    pub(crate) fn open_file_at(&mut self, file: FileRef, row: u32, side: Side, landing: Landing) -> (r: Result<
        (),
        CoreError,
    >)
        ensures
            client::settled(
                old(self).deep_view(),
                final(self).deep_view(),
                r,
                old(self).deep_view().open_file_at(file.deep_view(), row, side, landing),
            ),
    {
        proof {
            reveal(ClientCore::model);
            reveal(SpecClientCore::open_file_at);
        }
        let (first_row, last_row) = page(row);
        match self.viewport(file, first_row, last_row) {
            Ok(_) => {
                self.view.set_focus(Focus::Diff { row, side });
                if landing == Landing::Pin {
                    self.scroll_to(row, ScrollAlign::Top);
                }
                self.flow.touch(ViewSection::Focus);
                Ok(())
            },
            Err(e) => Err(e),
        }
    }

    pub(crate) fn file_closed(&mut self) -> (r: Result<(), CoreError>)
        ensures
            client::settled(
                old(self).deep_view(),
                final(self).deep_view(),
                r,
                old(self).deep_view().file_closed(),
            ),
    {
        proof {
            reveal(ClientCore::model);
        }
        match self.close_file() {
            Ok(_) => {
                self.keys.visual_anchor = None;
                Ok(())
            },
            Err(e) => Err(e),
        }
    }

    pub(crate) fn toggle_dir(&mut self, repo_id: RepoId, path: Option<RepoPath>) -> (r: Result<(), CoreError>)
        ensures
            client::settled(
                old(self).deep_view(),
                final(self).deep_view(),
                r,
                old(self).deep_view().toggle_dir(SpecDirKey { repo_id, path: path.deep_view() }),
            ),
    {
        proof {
            reveal(ClientCore::model);
            reveal(SpecClientCore::toggle_dir);
        }
        if self.view.review().is_none() {
            return Err(CoreError::NoOpenReview);
        }
        let key = DirKey { repo_id, path };
        if self.view.tab() == Tab::Browse {
            toggle(&mut self.explorer.expanded, key);
        } else {
            toggle(&mut self.explorer.collapsed, key);
        }
        Ok(())
    }

    pub(crate) fn file_search(&mut self, query: Option<String>) -> (r: Result<(), CoreError>)
        ensures
            client::settled(
                old(self).deep_view(),
                final(self).deep_view(),
                r,
                old(self).deep_view().file_search(query.deep_view()),
            ),
    {
        proof {
            reveal(ClientCore::model);
            reveal(SpecClientCore::file_search);
        }
        if self.view.review().is_none() {
            return Err(CoreError::NoOpenReview);
        }
        self.explorer.search = query;
        self.explorer.search_selected = 0;
        Ok(())
    }

    fn unlist(&mut self)
        ensures
            final(self).deep_view() == old(self).deep_view().unlisted(),
    {
        proof {
            reveal(ClientCore::model);
            reveal(SpecClientCore::unlisted);
        }
        match self.view.take_review() {
            Some(open) => {
                let mut open = open;
                open.files = data::empty();
                open.open_file = None;
                open.original = None;
                self.view.set_review(Some(open));
            },
            None => {},
        }
    }

    fn reoption(&mut self, opts: RenderOpts)
        ensures
            final(self).deep_view() == old(self).deep_view().reoptioned(opts.deep_view()),
    {
        proof {
            reveal(ClientCore::model);
            reveal(SpecClientCore::reoptioned);
        }
        self.flow.content.config.render_opts = opts;
        self.unlist();
        if let Some(review_id) = self.open_id() {
            if self.is_subscribed() {
                self.list_files(review_id);
            }
        }
    }

    /// Install preferences, keeping them in the host's store when `save`.
    pub(crate) fn apply_prefs(&mut self, prefs: ViewPrefs, save: bool)
        ensures
            final(self).deep_view() == old(self).deep_view().apply_prefs(prefs, save),
    {
        proof {
            reveal(ClientCore::model);
            reveal(SpecClientCore::apply_prefs);
        }
        let before = self.view.prefs();
        self.view.set_prefs(prefs);
        if save {
            self.flow.emit(Errand::Persist { key: Key::Prefs, value: Persisted::Prefs { prefs } });
        }
        let opts = prefs.render_opts();
        if !opts.same(&before.render_opts()) {
            self.reoption(opts);
        }
        self.flow.touch(ViewSection::Diff);
    }

    pub(crate) fn set_tab(&mut self, tab: Tab)
        ensures
            final(self).deep_view() == old(self).deep_view().set_tab(tab),
    {
        proof {
            reveal(ClientCore::model);
            reveal(SpecClientCore::set_tab);
        }
        if self.view.tab() == tab {
            return ;
        }
        self.view.set_tab(tab);
        let on_request = match self.view.focus() {
            Focus::ReviewRequest { .. } => true,
            _ => false,
        };
        if on_request && tab != Tab::Conversation {
            let focus = focus::clamp(&self.view, Focus::Diff { row: 0, side: Side::Head });
            self.view.set_focus(focus);
        }
        self.flow.touch(ViewSection::Focus);
    }

    fn is_folded(&self, file: &FileRef) -> (b: bool)
        ensures
            b == self.deep_view().is_folded(file.deep_view()),
    {
        proof {
            reveal(ClientCore::model);
        }
        match data::find(
            &self.file_collapse,
            |f: &Folded| -> (b: bool)
                ensures
                    b == folded_file(file.deep_view())(f.deep_view())
            { f.file.same(file) },
            Ghost(folded_file(file.deep_view())),
        ) {
            Some(f) => f.folded,
            None => match data::find(
                self.view.diffs(),
                |d: &DiffView| -> (b: bool)
                    ensures
                        b == diff_on(file.deep_view())(d.deep_view())
                { d.file.same(file) },
                Ghost(diff_on(file.deep_view())),
            ) {
                Some(d) => d.viewed == ViewedState::Viewed,
                None => false,
            },
        }
    }

    pub(crate) fn toggle_file_collapse(&mut self, file: FileRef) -> (r: Result<(), CoreError>)
        ensures
            client::settled(
                old(self).deep_view(),
                final(self).deep_view(),
                r,
                old(self).deep_view().toggle_file_collapse(file.deep_view()),
            ),
    {
        proof {
            reveal(ClientCore::model);
            reveal(SpecClientCore::toggle_file_collapse);
        }
        if self.view.review().is_none() {
            return Err(CoreError::NoOpenReview);
        }
        let folded = !self.is_folded(&file);
        data::retain(
            &mut self.file_collapse,
            |f: &Folded| -> (b: bool)
                ensures
                    b == other_fold(file.deep_view())(f.deep_view())
            { !f.file.same(&file) },
            Ghost(other_fold(file.deep_view())),
        );
        data::push(&mut self.file_collapse, Folded { file, folded });
        Ok(())
    }

    fn close_dir(&mut self, key: DirKey)
        ensures
            final(self).deep_view() == old(self).deep_view().dir_closed(key.deep_view()),
    {
        proof {
            reveal(ClientCore::model);
        }
        if self.view.tab() == Tab::Browse {
            drop_dir(&mut self.explorer.expanded, &key);
        } else {
            add_dir(&mut self.explorer.collapsed, key);
        }
    }

    pub(crate) fn collapse_parent(&mut self) -> (r: Result<(), CoreError>)
        ensures
            client::settled(
                old(self).deep_view(),
                final(self).deep_view(),
                r,
                old(self).deep_view().collapse_parent(),
            ),
    {
        proof {
            reveal(ClientCore::model);
            reveal(SpecClientCore::collapse_parent);
        }
        if self.view.review().is_none() {
            return Err(CoreError::NoOpenReview);
        }
        let index: usize = match self.view.focus() {
            Focus::Tree { index } => index,
            _ => {
                return Ok(());
            },
        };
        let nodes = focus::visible_nodes(&self.view);
        assert(nodes.deep_view().len() == nodes@.len());
        if index >= nodes.len() {
            return Ok(());
        }
        assert(nodes.deep_view()[index as int] == nodes@[index as int].deep_view());
        let key = dir_to_collapse(nodes[index]);
        let at = data::position(
            &nodes,
            |n: &&TreeNode| -> (b: bool)
                ensures
                    b == dir_of(key.deep_view())(n.deep_view())
            {
                match *n {
                    TreeNode::Dir { repo_id, path, .. } => *repo_id == key.repo_id && path.same(&key.path),
                    TreeNode::File { .. } => false,
                }
            },
            Ghost(dir_of(key.deep_view())),
        );
        self.close_dir(key);
        if let Some(i) = at {
            self.view.set_focus(Focus::Tree { index: i });
        }
        Ok(())
    }

    pub(crate) fn collapse_all(&mut self) -> (r: Result<(), CoreError>)
        ensures
            client::settled(
                old(self).deep_view(),
                final(self).deep_view(),
                r,
                old(self).deep_view().collapse_all(),
            ),
    {
        proof {
            reveal(ClientCore::model);
            reveal(SpecClientCore::collapse_all);
        }
        if self.view.review().is_none() {
            return Err(CoreError::NoOpenReview);
        }
        if self.view.tab() == Tab::Browse {
            self.explorer.expanded = data::empty();
        } else {
            let keys = explorer::dirs_in(&self.view.tree().roots);
            add_dirs(&mut self.explorer.collapsed, &keys);
        }
        match self.view.focus() {
            Focus::Tree { .. } => {
                self.view.set_focus(Focus::Tree { index: 0 });
            },
            _ => {},
        }
        Ok(())
    }

    pub(crate) fn scroll_view(&mut self, align: ScrollAlign) -> (r: Result<(), CoreError>)
        ensures
            client::settled(
                old(self).deep_view(),
                final(self).deep_view(),
                r,
                old(self).deep_view().scroll_view(align),
            ),
    {
        proof {
            reveal(ClientCore::model);
            reveal(SpecClientCore::scroll_view);
        }
        match self.view.focus() {
            Focus::Diff { row, .. } => {
                self.scroll_to(row, align);
                self.flow.touch(ViewSection::Focus);
                Ok(())
            },
            _ => Err(CoreError::NoTarget(NoTarget::Nothing(Command::CenterView))),
        }
    }

    pub(crate) fn list_commits(&mut self, repo_id: RepoId) -> (r: Result<(), CoreError>)
        ensures
            client::settled(
                old(self).deep_view(),
                final(self).deep_view(),
                r,
                old(self).deep_view().list_commits(repo_id),
            ),
    {
        proof {
            reveal(ClientCore::model);
            reveal(SpecClientCore::list_commits);
        }
        match self.open_id() {
            None => Err(CoreError::NoOpenReview),
            Some(review_id) => {
                if !self.is_subscribed() {
                    return Err(self.wrong_state(InputKind::User));
                }
                self.flow.request(
                    Request::ListCommits { review_id, repo_id },
                    InFlight::ListCommits { repo_id },
                );
                Ok(())
            },
        }
    }

    /// Show another diff of the open review.
    pub(crate) fn apply_scope(&mut self, scope: DiffScope)
        ensures
            final(self).deep_view() == old(self).deep_view().apply_scope(scope),
    {
        proof {
            reveal(ClientCore::model);
            reveal(SpecClientCore::apply_scope);
        }
        match self.view.review() {
            Some(open) => {
                if open.scope == scope {
                    return ;
                }
            },
            None => {
                return ;
            },
        }
        let ghost start = self.deep_view();
        match self.view.take_review() {
            Some(open) => {
                let mut open = open;
                let review_id = open.snapshot.review.id;
                open.scope = scope;
                open.scoped_targets = data::empty();
                open.files = data::empty();
                open.open_file = None;
                open.original = None;
                self.view.set_review(Some(open));
                let ghost mid = self.deep_view();
                let _ = self.rebase();
                assert(self.deep_view() == mid.rebased());
                if self.is_subscribed() {
                    self.list_files(review_id);
                }
                self.flow.touch_all(data::two(ViewSection::ReviewList, ViewSection::Diff));
            },
            None => {},
        }
    }

    /// The step commit stepping starts at.
    pub(crate) fn default_by_commit_scope(&self, repo_id: RepoId) -> (r: Option<DiffScope>)
        ensures
            r == self.deep_view().first_step(repo_id),
    {
        proof {
            reveal(ClientCore::model);
        }
        match self.view.review() {
            Some(open) => {
                let worktree = match &open.snapshot.resolved {
                    Some(resolved) => data::any(
                        resolved,
                        |t: &ResolvedTarget| -> (b: bool)
                            ensures
                                b == from_worktree(repo_id)(t.deep_view())
                        { t.repo_id == repo_id && t.head.source == ResolvedSource::WorkingTree },
                        Ghost(from_worktree(repo_id)),
                    ),
                    None => false,
                };
                if worktree {
                    return Some(DiffScope::Worktree { repo_id });
                }
                match &self.stepper {
                    Some(st) => {
                        assert(st.commits.deep_view().len() == st.commits@.len());
                        if st.repo_id == repo_id && st.commits.len() > 0 {
                            Some(DiffScope::Commit { repo_id, oid: st.commits[0].oid })
                        } else {
                            None
                        }
                    },
                    None => None,
                }
            },
            None => None,
        }
    }

    pub(crate) fn step_commit(&mut self, selected: Option<usize>) -> (r: Result<(), CoreError>)
        ensures
            client::settled(
                old(self).deep_view(),
                final(self).deep_view(),
                r,
                old(self).deep_view().step_commit(selected),
            ),
    {
        proof {
            reveal(ClientCore::model);
            reveal(SpecClientCore::step_commit);
        }
        let scope = match &self.stepper {
            None => {
                return Err(CoreError::NoStepper);
            },
            Some(st) => {
                assert(st.commits.deep_view().len() == st.commits@.len());
                match selected {
                    Some(i) => {
                        if i >= st.commits.len() {
                            return Err(CoreError::CommitOutOfRange(i));
                        }
                        DiffScope::Commit { repo_id: st.repo_id, oid: st.commits[i].oid }
                    },
                    None => DiffScope::Worktree { repo_id: st.repo_id },
                }
            },
        };
        let stepping = match self.view.review() {
            Some(open) => match open.scope {
                DiffScope::Commit { .. } => true,
                DiffScope::Worktree { .. } => true,
                _ => false,
            },
            None => false,
        };
        if stepping {
            self.apply_scope(scope);
        }
        Ok(())
    }

    fn by_commit(&mut self, review_id: ReviewId, repo_id: RepoId) -> (r: Result<(), CoreError>)
        ensures
            client::settled(
                old(self).deep_view(),
                final(self).deep_view(),
                r,
                old(self).deep_view().by_commit(review_id, repo_id),
            ),
    {
        proof {
            reveal(ClientCore::model);
            reveal(SpecClientCore::by_commit);
        }
        let have = match &self.stepper {
            Some(st) => st.repo_id == repo_id,
            None => false,
        };
        if have {
            match self.default_by_commit_scope(repo_id) {
                Some(scope) => {
                    self.apply_scope(scope);
                    Ok(())
                },
                None => Err(CoreError::NoStepper),
            }
        } else {
            self.by_commit_pending = true;
            self.flow.request(Request::ListCommits { review_id, repo_id }, InFlight::ListCommits { repo_id });
            Ok(())
        }
    }

    pub(crate) fn set_scope(&mut self, scope: ScopeChoice) -> (r: Result<(), CoreError>)
        ensures
            client::settled(
                old(self).deep_view(),
                final(self).deep_view(),
                r,
                old(self).deep_view().set_scope(scope),
            ),
    {
        proof {
            reveal(ClientCore::model);
            reveal(SpecClientCore::set_scope);
        }
        if !self.is_subscribed() {
            return Err(self.wrong_state(InputKind::User));
        }
        let (review_id, first) = match self.view.review() {
            Some(open) => {
                let targets = &open.snapshot.review.targets;
                assert(targets.deep_view().len() == targets@.len());
                (
                    open.snapshot.review.id,
                    if targets.len() > 0 {
                        Some(targets[0].repo_id)
                    } else {
                        None
                    },
                )
            },
            None => {
                return Err(CoreError::NoOpenReview);
            },
        };
        let wire = match scope {
            ScopeChoice::All => DiffScope::All,
            ScopeChoice::Committed => DiffScope::Committed,
            ScopeChoice::Commit { repo_id, oid } => DiffScope::Commit { repo_id, oid },
            ScopeChoice::Worktree { repo_id } => DiffScope::Worktree { repo_id },
            ScopeChoice::ByCommit => {
                return match first {
                    Some(repo_id) => self.by_commit(review_id, repo_id),
                    None => Err(CoreError::NoStepper),
                };
            },
        };
        self.apply_scope(wire);
        Ok(())
    }

    fn recorded(&self, thread_id: ThreadId) -> (r: Result<(RenderKey, Side), CoreError>)
        ensures
            match r {
                Ok(k) => self.deep_view().recorded(thread_id) == Ok::<(SpecRenderKey, Side), SpecCoreError>(
                    (k.0.deep_view(), k.1),
                ),
                Err(e) => self.deep_view().recorded(thread_id) == Err::<(SpecRenderKey, Side), SpecCoreError>(
                    e.deep_view(),
                ),
            },
    {
        proof {
            reveal(ClientCore::model);
        }
        let open = match self.view.review() {
            Some(open) => open,
            None => {
                return Err(CoreError::NoOpenReview);
            },
        };
        let root = match events::find_thread(&open.snapshot.threads, thread_id) {
            Some(t) => match events::find_comment(&open.snapshot.comments, t.root) {
                Some(c) => c,
                None => {
                    return Err(CoreError::UnknownThread(thread_id));
                },
            },
            None => {
                return Err(CoreError::UnknownThread(thread_id));
            },
        };
        let (target, opts) = match &root.context {
            Some(CommentContext::Diff { change }) => (
                RenderTarget::Diff { change: change.dup() },
                self.flow.content.config.render_opts.dup(),
            ),
            Some(CommentContext::Browse { oid }) => (RenderTarget::Blob { oid: *oid }, RenderOpts::default()),
            None => {
                return Err(CoreError::NoOriginalDiff(thread_id));
            },
        };
        match &root.anchor {
            Anchor::File { repo_id, path, .. } => Ok(
                (RenderKey { repo_id: *repo_id, path: path.dup(), target, opts }, Side::Head),
            ),
            Anchor::Lines { repo_id, path, side, .. } => Ok(
                (RenderKey { repo_id: *repo_id, path: path.dup(), target, opts }, *side),
            ),
            Anchor::Review => Err(CoreError::NoOriginalDiff(thread_id)),
        }
    }

    fn show_original(&mut self, render: &RenderKey)
        ensures
            final(self).deep_view() == old(self).deep_view().original_opened(render.deep_view()),
    {
        proof {
            reveal(ClientCore::model);
            reveal(SpecClientCore::original_opened);
        }
        match self.view.take_review() {
            Some(open) => {
                let mut open = open;
                open.original = Some(render.dup());
                open.open_file = Some(
                    OpenFile { render: render.dup(), first_row: 0, last_row: PAGE_ROWS - 1 },
                );
                self.view.set_review(Some(open));
            },
            None => {},
        }
    }

    pub(crate) fn open_original(&mut self, thread_id: ThreadId) -> (r: Result<(), CoreError>)
        ensures
            client::settled(
                old(self).deep_view(),
                final(self).deep_view(),
                r,
                old(self).deep_view().open_original(thread_id),
            ),
    {
        proof {
            reveal(ClientCore::model);
            reveal(SpecClientCore::open_original);
        }
        if !self.is_subscribed() {
            return Err(self.wrong_state(InputKind::User));
        }
        let review_id = self.open_id();
        match self.recorded(thread_id) {
            Err(e) => Err(e),
            Ok(k) => {
                let (render, side) = k;
                self.show_original(&render);
                self.view.set_focus(Focus::Diff { row: 0, side });
                if let Some(review_id) = review_id {
                    self.want_open_render(review_id, &render);
                }
                self.flow.touch_all(data::two(ViewSection::Focus, ViewSection::Diff));
                Ok(())
            },
        }
    }

    fn focused_line(&self, render: &RenderKey, waiting_for: &RenderKey) -> (r: Option<Realign>)
        ensures
            r.deep_view() == self.deep_view().focused_line(render.deep_view(), waiting_for.deep_view()),
    {
        proof {
            reveal(ClientCore::model);
        }
        match self.view.focus() {
            Focus::Diff { row, side } => {
                let shown = match self.view.review() {
                    Some(open) => open.shows(render),
                    None => false,
                };
                if !shown {
                    return None;
                }
                match self.view.diff() {
                    Some(d) => match data::find(
                        &d.rows,
                        |r: &DiffRow| -> (b: bool)
                            ensures
                                b == row_at(row)(r.deep_view())
                        { r.index == row },
                        Ghost(row_at(row)),
                    ) {
                        Some(r) => match diff::line_on(&r.row, side) {
                            Some(line) => Some(Realign { render: waiting_for.dup(), side, line, row }),
                            None => None,
                        },
                        None => None,
                    },
                    None => None,
                }
            },
            _ => None,
        }
    }

    fn line_to_keep(&self, old_key: &RenderKey, new_key: &RenderKey) -> (r: Option<Realign>)
        ensures
            r.deep_view() == self.deep_view().line_to_keep(old_key.deep_view(), new_key.deep_view()),
    {
        proof {
            reveal(ClientCore::model);
        }
        match self.focused_line(old_key, new_key) {
            Some(r) => Some(r),
            None => match &self.realign {
                Some(p) => if p.render.same(old_key) {
                    Some(Realign { render: new_key.dup(), side: p.side, line: p.line, row: p.row })
                } else {
                    None
                },
                None => None,
            },
        }
    }

    fn rekey(&mut self, i: usize, old_key: &RenderKey, new_key: &RenderKey)
        requires
            old(self).deep_view().view.review is Some,
            i < old(self).deep_view().view.review->0.files.len(),
            old_key.deep_view() == old(self).deep_view().view.review->0.files[i as int],
        ensures
            final(self).deep_view() == old(self).deep_view().rekeyed(i as int, new_key.deep_view()),
    {
        proof {
            reveal(ClientCore::model);
            reveal(SpecClientCore::rekeyed);
        }
        let realign = self.line_to_keep(old_key, new_key);
        match self.view.take_review() {
            Some(open) => {
                let mut open = open;
                assert(open.files.deep_view().len() == open.files@.len());
                data::set(&mut open.files, i, new_key.dup());
                open.open_file = match open.open_file {
                    Some(f) => if f.render.same(old_key) {
                        Some(OpenFile { render: new_key.dup(), first_row: f.first_row, last_row: f.last_row })
                    } else {
                        Some(f)
                    },
                    None => None,
                };
                self.view.set_review(Some(open));
            },
            None => {},
        }
        self.realign = realign;
    }

    pub(crate) fn re_render(&mut self, file: FileRef, by: Widening) -> (r: Result<(), CoreError>)
        ensures
            client::settled(
                old(self).deep_view(),
                final(self).deep_view(),
                r,
                old(self).deep_view().re_render(file.deep_view(), by),
            ),
    {
        proof {
            reveal(ClientCore::model);
            reveal(SpecClientCore::re_render);
        }
        if !self.is_subscribed() {
            return Err(self.wrong_state(InputKind::User));
        }
        let open = match self.view.review() {
            Some(open) => open,
            None => {
                return Err(CoreError::NoOpenReview);
            },
        };
        let review_id = open.snapshot.review.id;
        let repo_id = file.repo_id;
        let path = &file.path;
        let i: usize = match data::position(
            &open.files,
            |k: &RenderKey| -> (b: bool)
                ensures
                    b == explorer::file_of(repo_id, path.deep_view())(k.deep_view())
            { k.is_of(repo_id, path) },
            Ghost(explorer::file_of(repo_id, path.deep_view())),
        ) {
            Some(i) => i,
            None => {
                return Err(CoreError::UnknownFile(file));
            },
        };
        assert(open.files.deep_view().len() == open.files@.len());
        assert(open.files.deep_view()[i as int] == open.files@[i as int].deep_view());
        let old_key = open.files[i].dup();
        let new_key = RenderKey {
            repo_id: old_key.repo_id,
            path: old_key.path.dup(),
            target: old_key.target.dup(),
            opts: old_key.opts.widened(by),
        };
        if new_key.same(&old_key) {
            return Ok(());
        }
        self.rekey(i, &old_key, &new_key);
        self.want_open_render(review_id, &new_key);
        self.flow.touch(ViewSection::Diff);
        Ok(())
    }

    pub(crate) fn content_search(
        &mut self,
        query: Option<String>,
        all_files: bool,
    ) -> (r: Result<(), CoreError>)
        ensures
            client::settled(
                old(self).deep_view(),
                final(self).deep_view(),
                r,
                old(self).deep_view().content_search(query.deep_view(), all_files),
            ),
    {
        proof {
            reveal(ClientCore::model);
            reveal(SpecClientCore::content_search);
        }
        let (review_id, scope) = match self.view.review() {
            Some(open) => (open.snapshot.review.id, open.scope),
            None => {
                return Err(CoreError::NoOpenReview);
            },
        };
        match query {
            None => {
                self.flow.wire.latest_search = None;
                self.view.set_content_search(None);
                self.flow.touch(ViewSection::Search);
                Ok(())
            },
            Some(query) => {
                let trimmed = text::trim(query.as_str());
                let ask = !trimmed.as_str().is_empty();
                if ask && !self.is_subscribed() {
                    return Err(self.wrong_state(InputKind::User));
                }
                self.flow.wire.latest_search = None;
                self.view.set_content_search(
                    Some(
                        ContentSearchView {
                            query: query.dup(),
                            all_files,
                            hits: data::empty(),
                            truncated: false,
                            pending: ask,
                            selected: 0,
                        },
                    ),
                );
                if ask {
                    self.flow.request(
                        Request::Search { review_id, query, all_files, scope },
                        InFlight::Search,
                    );
                }
                self.flow.touch(ViewSection::Search);
                Ok(())
            },
        }
    }

    pub(crate) fn set_palette(&mut self, open: bool)
        ensures
            final(self).deep_view() == old(self).deep_view().set_palette(open),
    {
        proof {
            reveal(ClientCore::model);
            reveal(SpecClientCore::set_palette);
        }
        if self.view.action_palette() == open {
            return ;
        }
        self.view.set_action_palette(open);
        self.flow.touch(ViewSection::Search);
    }

    pub(crate) fn search_first(&mut self, search: SearchKind) -> (r: Result<(), CoreError>)
        ensures
            client::settled(
                old(self).deep_view(),
                final(self).deep_view(),
                r,
                old(self).deep_view().search_first(search),
            ),
    {
        proof {
            reveal(ClientCore::model);
            reveal(SpecClientCore::search_first);
        }
        match search {
            SearchKind::Files => {
                if self.explorer.search.is_none() {
                    return Err(CoreError::NoTarget(NoTarget::Nothing(Command::MoveDown)));
                }
                self.explorer.search_selected = 0;
                Ok(())
            },
            SearchKind::Content => match self.view.take_content_search() {
                None => Err(CoreError::NoTarget(NoTarget::Nothing(Command::MoveDown))),
                Some(s) => {
                    let mut s = s;
                    s.selected = 0;
                    self.view.set_content_search(Some(s));
                    self.flow.touch(ViewSection::Search);
                    Ok(())
                },
            },
        }
    }

    pub(crate) fn search_step(&mut self, search: SearchKind, delta: i32) -> (r: Result<(), CoreError>)
        ensures
            client::settled(
                old(self).deep_view(),
                final(self).deep_view(),
                r,
                old(self).deep_view().search_step(search, delta),
            ),
    {
        proof {
            reveal(ClientCore::model);
            reveal(SpecClientCore::search_step);
        }
        match search {
            SearchKind::Files => {
                let selected: usize = match &self.view.tree().search {
                    Some(s) => {
                        assert(s.hits.deep_view().len() == s.hits@.len());
                        ref_selector::step(s.selected, delta, s.hits.len())
                    },
                    None => {
                        return Err(CoreError::NoTarget(NoTarget::Nothing(Command::MoveDown)));
                    },
                };
                self.explorer.search_selected = selected;
                Ok(())
            },
            SearchKind::Content => match self.view.take_content_search() {
                None => Err(CoreError::NoTarget(NoTarget::Nothing(Command::MoveDown))),
                Some(s) => {
                    let mut s = s;
                    assert(s.hits.deep_view().len() == s.hits@.len());
                    s.selected = ref_selector::step(s.selected, delta, s.hits.len());
                    self.view.set_content_search(Some(s));
                    self.flow.touch(ViewSection::Search);
                    Ok(())
                },
            },
        }
    }

    fn search_target(&self, search: SearchKind, query: &String) -> (r: Option<(FileRef, u32, u32)>)
        ensures
            match r {
                Some(t) => self.deep_view().search_target(search, query@) == Some((t.0.deep_view(), t.1, t.2)),
                None => self.deep_view().search_target(search, query@) is None,
            },
    {
        proof {
            reveal(ClientCore::model);
        }
        match search {
            SearchKind::Files => match &self.view.tree().search {
                Some(s) => {
                    assert(s.hits.deep_view().len() == s.hits@.len());
                    if s.query.same(query) && s.selected < s.hits.len() {
                        Some((s.hits[s.selected].file.dup(), 0, 59))
                    } else {
                        None
                    }
                },
                None => None,
            },
            SearchKind::Content => match self.view.content_search() {
                Some(s) => {
                    assert(s.hits.deep_view().len() == s.hits@.len());
                    if s.query.same(query) && !s.pending && s.selected < s.hits.len() {
                        let hit = &s.hits[s.selected];
                        Some(
                            (
                                FileRef { repo_id: hit.repo_id, path: hit.path.dup() },
                                page(hit.line).0,
                                hit.line.saturating_add(30),
                            ),
                        )
                    } else {
                        None
                    }
                },
                None => None,
            },
        }
    }

    pub(crate) fn open_search_result(
        &mut self,
        search: SearchKind,
        query: String,
    ) -> (r: Result<(), CoreError>)
        ensures
            client::settled(
                old(self).deep_view(),
                final(self).deep_view(),
                r,
                old(self).deep_view().open_search_result(search, query@),
            ),
    {
        proof {
            reveal(ClientCore::model);
            reveal(SpecClientCore::open_search_result);
        }
        match self.search_target(search, &query) {
            None => Ok(()),
            Some(t) => {
                let (file, first_row, last_row) = t;
                match self.viewport(file, first_row, last_row) {
                    Err(e) => Err(e),
                    Ok(_) => {
                        if search == SearchKind::Content {
                            self.view.set_content_search(None);
                            self.flow.wire.latest_search = None;
                            self.flow.touch(ViewSection::Search);
                        }
                        Ok(())
                    },
                }
            },
        }
    }
}

} // verus!
