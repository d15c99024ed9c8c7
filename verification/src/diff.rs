//! Diff, thread, conversation and commit views: functions of the open
//! review, the cache and the viewport.
//!
//! A comment on lines lands on the last row whose cell on the anchored side
//! is inside the range and whose blob matches what is rendered; a comment on
//! a file is listed above the rows; a comment on the review goes to the
//! conversation. Outdated comments are placed by their last good anchor and
//! flagged; deleted ones are not placed at all.
use vstd::prelude::*;

use crate::cache::{ContentCache, RenderKey, SpecContentCache, SpecRenderKey};
use crate::data;
use crate::data::Value;
use crate::events::find_comment;
use crate::protocol::{
    Anchor, Author, BlobOid, ChunkIndex, Comment, CommentContext, CommentId, CommentKind,
    CommentState, CommitInfo, CommitOid, RenderChunk, RenderContent, SpecRenderContent, RenderTarget, RepoId, RepoPath,
    ReviewReference, ReviewSnapshot, Row, Side, SpecAnchor, SpecAuthor, SpecComment,
    SpecCommentContext, SpecCommentState, SpecCommitInfo, SpecRenderTarget, SpecRepoPath,
    SpecReviewReference, SpecReviewSnapshot, SpecRow, SpecThread, SpecThreadResolution,
    SpecViewedMark, Thread, ThreadId, ThreadResolution, Timestamp, ViewedContent, ViewedMark,
};
use crate::text;

verus! {

/// A file of the open review.
#[derive(Debug, PartialEq, Eq)]
pub struct FileRef {
    pub repo_id: RepoId,
    pub path: RepoPath,
}

/// Model of [`FileRef`].
#[verifier::ext_equal]
pub struct SpecFileRef {
    pub repo_id: RepoId,
    pub path: SpecRepoPath,
}

impl DeepView for FileRef {
    type V = SpecFileRef;

    open spec fn deep_view(&self) -> SpecFileRef {
        SpecFileRef {
            repo_id: self.repo_id,
            path: self.path.deep_view(),
        }
    }
}

impl Value for FileRef {
    fn dup(&self) -> (r: Self) {
        FileRef {
            repo_id: self.repo_id,
            path: self.path.dup(),
        }
    }

    fn same(&self, other: &Self) -> (b: bool) {
        self.repo_id == other.repo_id
            && self.path.same(&other.path)
    }
}

/// Where a thread is anchored.
#[derive(Debug, PartialEq, Eq)]
pub enum ThreadPlace {
    Review,
    File { file: FileRef },
    /// First and last line, counted from one.
    Lines { file: FileRef, side: Side, start: u32, end: u32 },
}

/// Model of [`ThreadPlace`].
#[verifier::ext_equal]
pub enum SpecThreadPlace {
    Review,
    File { file: SpecFileRef },
    Lines { file: SpecFileRef, side: Side, start: u32, end: u32 },
}

impl DeepView for ThreadPlace {
    type V = SpecThreadPlace;

    open spec fn deep_view(&self) -> SpecThreadPlace {
        match self {
            ThreadPlace::Review => SpecThreadPlace::Review,
            ThreadPlace::File { file } => SpecThreadPlace::File {
                file: file.deep_view(),
            },
            ThreadPlace::Lines { file, side, start, end } => SpecThreadPlace::Lines {
                file: file.deep_view(),
                side: *side,
                start: *start,
                end: *end,
            },
        }
    }
}

impl Value for ThreadPlace {
    fn dup(&self) -> (r: Self) {
        match self {
            ThreadPlace::Review => ThreadPlace::Review,
            ThreadPlace::File { file } => ThreadPlace::File {
                file: file.dup(),
            },
            ThreadPlace::Lines { file, side, start, end } => ThreadPlace::Lines {
                file: file.dup(),
                side: *side,
                start: *start,
                end: *end,
            },
        }
    }

    fn same(&self, other: &Self) -> (b: bool) {
        match (self, other) {
            (ThreadPlace::Review, ThreadPlace::Review) => true,
            (ThreadPlace::File { file: a0 }, ThreadPlace::File { file: b0 }) => a0.same(b0),
            (ThreadPlace::Lines { file: a0, side: a1, start: a2, end: a3 }, ThreadPlace::Lines { file: b0, side: b1, start: b2, end: b3 }) => a0.same(b0) && *a1 == *b1 && *a2 == *b2 && *a3 == *b3,
            _ => false,
        }
    }
}

/// Whether a thread asks for something.
#[derive(Debug, Clone, Copy, PartialEq, Eq, Structural)]
pub enum ThreadStatus {
    Open,
    Resolved,
    Informational,
}

impl DeepView for ThreadStatus {
    type V = ThreadStatus;

    open spec fn deep_view(&self) -> ThreadStatus {
        *self
    }
}

impl Value for ThreadStatus {
    fn dup(&self) -> (r: Self) {
        *self
    }

    fn same(&self, other: &Self) -> (b: bool) {
        *self == *other
    }
}

/// One comment as the thread panel shows it.
#[derive(Debug, PartialEq, Eq)]
pub struct CommentView {
    pub id: CommentId,
    pub author: Author,
    pub created: Timestamp,
    pub body: String,
    /// Still awaiting the daemon.
    pub pending: bool,
    pub reference: Option<ReviewReference>,
}

/// Model of [`CommentView`].
#[verifier::ext_equal]
pub struct SpecCommentView {
    pub id: CommentId,
    pub author: SpecAuthor,
    pub created: Timestamp,
    pub body: Seq<char>,
    pub pending: bool,
    pub reference: Option<SpecReviewReference>,
}

impl DeepView for CommentView {
    type V = SpecCommentView;

    open spec fn deep_view(&self) -> SpecCommentView {
        SpecCommentView {
            id: self.id,
            author: self.author.deep_view(),
            created: self.created,
            body: self.body.deep_view(),
            pending: self.pending,
            reference: self.reference.deep_view(),
        }
    }
}

impl Value for CommentView {
    fn dup(&self) -> (r: Self) {
        CommentView {
            id: self.id,
            author: self.author.dup(),
            created: self.created,
            body: self.body.dup(),
            pending: self.pending,
            reference: self.reference.dup(),
        }
    }

    fn same(&self, other: &Self) -> (b: bool) {
        self.id == other.id
            && self.author.same(&other.author)
            && self.created == other.created
            && self.body.same(&other.body)
            && self.pending == other.pending
            && self.reference.same(&other.reference)
    }
}

/// One thread as the thread list shows it.
#[derive(Debug, PartialEq, Eq)]
pub struct ThreadView {
    pub id: ThreadId,
    pub root: CommentId,
    pub author: Author,
    pub created: Timestamp,
    /// First line of the root comment.
    pub summary: String,
    pub replies: u32,
    pub status: ThreadStatus,
    pub place: ThreadPlace,
    /// The root could not be re-anchored after the head moved.
    pub outdated: bool,
    /// Some comment in the thread is still awaiting the daemon.
    pub pending: bool,
    /// The root is a patch that can be applied.
    pub suggestion: bool,
    /// Root, then replies; deleted comments are omitted.
    pub comments: Vec<CommentView>,
    /// What the root was made on, when recorded.
    pub context: Option<CommentContext>,
    pub reference: Option<ReviewReference>,
}

/// Model of [`ThreadView`].
#[verifier::ext_equal]
pub struct SpecThreadView {
    pub id: ThreadId,
    pub root: CommentId,
    pub author: SpecAuthor,
    pub created: Timestamp,
    pub summary: Seq<char>,
    pub replies: u32,
    pub status: ThreadStatus,
    pub place: SpecThreadPlace,
    pub outdated: bool,
    pub pending: bool,
    pub suggestion: bool,
    pub comments: Seq<SpecCommentView>,
    pub context: Option<SpecCommentContext>,
    pub reference: Option<SpecReviewReference>,
}

impl DeepView for ThreadView {
    type V = SpecThreadView;

    open spec fn deep_view(&self) -> SpecThreadView {
        SpecThreadView {
            id: self.id,
            root: self.root,
            author: self.author.deep_view(),
            created: self.created,
            summary: self.summary.deep_view(),
            replies: self.replies,
            status: self.status,
            place: self.place.deep_view(),
            outdated: self.outdated,
            pending: self.pending,
            suggestion: self.suggestion,
            comments: self.comments.deep_view(),
            context: self.context.deep_view(),
            reference: self.reference.deep_view(),
        }
    }
}

impl Value for ThreadView {
    fn dup(&self) -> (r: Self) {
        ThreadView {
            id: self.id,
            root: self.root,
            author: self.author.dup(),
            created: self.created,
            summary: self.summary.dup(),
            replies: self.replies,
            status: self.status,
            place: self.place.dup(),
            outdated: self.outdated,
            pending: self.pending,
            suggestion: self.suggestion,
            comments: self.comments.dup(),
            context: self.context.dup(),
            reference: self.reference.dup(),
        }
    }

    fn same(&self, other: &Self) -> (b: bool) {
        self.id == other.id
            && self.root == other.root
            && self.author.same(&other.author)
            && self.created == other.created
            && self.summary.same(&other.summary)
            && self.replies == other.replies
            && self.status == other.status
            && self.place.same(&other.place)
            && self.outdated == other.outdated
            && self.pending == other.pending
            && self.suggestion == other.suggestion
            && self.comments.same(&other.comments)
            && self.context.same(&other.context)
            && self.reference.same(&other.reference)
    }
}

/// What a row is to an anchored range: its last line, or a line inside.
#[derive(Debug, Clone, Copy, PartialEq, Eq, Structural)]
pub enum RowPlace {
    Anchor,
    Inside,
}

impl DeepView for RowPlace {
    type V = RowPlace;

    open spec fn deep_view(&self) -> RowPlace {
        *self
    }
}

impl Value for RowPlace {
    fn dup(&self) -> (r: Self) {
        *self
    }

    fn same(&self, other: &Self) -> (b: bool) {
        *self == *other
    }
}

/// A thread placed on one half of a row.
#[derive(Debug, Clone, Copy, PartialEq, Eq, Structural)]
pub struct RowThread {
    pub thread: ThreadId,
    pub side: Side,
    pub place: RowPlace,
}

impl DeepView for RowThread {
    type V = RowThread;

    open spec fn deep_view(&self) -> RowThread {
        *self
    }
}

impl Value for RowThread {
    fn dup(&self) -> (r: Self) {
        *self
    }

    fn same(&self, other: &Self) -> (b: bool) {
        *self == *other
    }
}

/// A row of a file with the threads placed on it.
#[derive(Debug, PartialEq, Eq)]
pub struct DiffRow {
    /// Index into the file's rows, across chunks.
    pub index: u32,
    pub row: Row,
    pub threads: Vec<RowThread>,
    /// Where the open draft's range covers this row.
    pub drafted: Option<(RowPlace, Side)>,
}

/// Model of [`DiffRow`].
#[verifier::ext_equal]
pub struct SpecDiffRow {
    pub index: u32,
    pub row: SpecRow,
    pub threads: Seq<RowThread>,
    pub drafted: Option<(RowPlace, Side)>,
}

impl DeepView for DiffRow {
    type V = SpecDiffRow;

    open spec fn deep_view(&self) -> SpecDiffRow {
        SpecDiffRow {
            index: self.index,
            row: self.row.deep_view(),
            threads: self.threads.deep_view(),
            drafted: self.drafted,
        }
    }
}

impl Value for DiffRow {
    fn dup(&self) -> (r: Self) {
        DiffRow {
            index: self.index,
            row: self.row.dup(),
            threads: self.threads.dup(),
            drafted: self.drafted,
        }
    }

    fn same(&self, other: &Self) -> (b: bool) {
        self.index == other.index
            && self.row.same(&other.row)
            && self.threads.same(&other.threads)
            && self.drafted.same(&other.drafted)
    }
}

/// Whether the viewer has seen a file as it is now.
#[derive(Debug, Clone, Copy, PartialEq, Eq, Structural)]
pub enum ViewedState {
    Viewed,
    /// Marked viewed earlier; the file changed since.
    ChangedSinceViewed,
    Unviewed,
}

impl DeepView for ViewedState {
    type V = ViewedState;

    open spec fn deep_view(&self) -> ViewedState {
        *self
    }
}

impl Value for ViewedState {
    fn dup(&self) -> (r: Self) {
        *self
    }

    fn same(&self, other: &Self) -> (b: bool) {
        *self == *other
    }
}

/// A file over a window of its rows.
#[derive(Debug, PartialEq, Eq)]
pub struct DiffView {
    /// What is rendered, so that hosts can tell when it moved.
    pub target: RenderTarget,
    pub file: FileRef,
    pub lang: Option<String>,
    pub content: RenderContent,
    pub viewed: ViewedState,
    pub first_row: u32,
    pub last_row: u32,
    /// Rows of the window that are cached, in order.
    pub rows: Vec<DiffRow>,
    /// Chunks of the window still on their way.
    pub missing: Vec<ChunkIndex>,
    /// Threads anchored to the whole file.
    pub file_threads: Vec<ThreadId>,
    /// Folded in the stacked view.
    pub collapsed: bool,
    /// A comment's recorded original, opened read-only.
    pub original: bool,
}

/// Model of [`DiffView`].
#[verifier::ext_equal]
pub struct SpecDiffView {
    pub target: SpecRenderTarget,
    pub file: SpecFileRef,
    pub lang: Option<Seq<char>>,
    pub content: SpecRenderContent,
    pub viewed: ViewedState,
    pub first_row: u32,
    pub last_row: u32,
    pub rows: Seq<SpecDiffRow>,
    pub missing: Seq<ChunkIndex>,
    pub file_threads: Seq<ThreadId>,
    pub collapsed: bool,
    pub original: bool,
}

impl DeepView for DiffView {
    type V = SpecDiffView;

    open spec fn deep_view(&self) -> SpecDiffView {
        SpecDiffView {
            target: self.target.deep_view(),
            file: self.file.deep_view(),
            lang: self.lang.deep_view(),
            content: self.content.deep_view(),
            viewed: self.viewed,
            first_row: self.first_row,
            last_row: self.last_row,
            rows: self.rows.deep_view(),
            missing: self.missing.deep_view(),
            file_threads: self.file_threads.deep_view(),
            collapsed: self.collapsed,
            original: self.original,
        }
    }
}

impl Value for DiffView {
    fn dup(&self) -> (r: Self) {
        DiffView {
            target: self.target.dup(),
            file: self.file.dup(),
            lang: self.lang.dup(),
            content: self.content.dup(),
            viewed: self.viewed,
            first_row: self.first_row,
            last_row: self.last_row,
            rows: self.rows.dup(),
            missing: self.missing.dup(),
            file_threads: self.file_threads.dup(),
            collapsed: self.collapsed,
            original: self.original,
        }
    }

    fn same(&self, other: &Self) -> (b: bool) {
        self.target.same(&other.target)
            && self.file.same(&other.file)
            && self.lang.same(&other.lang)
            && self.content.same(&other.content)
            && self.viewed == other.viewed
            && self.first_row == other.first_row
            && self.last_row == other.last_row
            && self.rows.same(&other.rows)
            && self.missing.same(&other.missing)
            && self.file_threads.same(&other.file_threads)
            && self.collapsed == other.collapsed
            && self.original == other.original
    }
}

/// One commit of the stepper.
#[derive(Debug, PartialEq, Eq)]
pub struct StepperCommit {
    pub oid: CommitOid,
    pub parents: Vec<CommitOid>,
    pub subject: String,
    /// Everything after the subject.
    pub body: String,
    pub author: String,
    pub time: Timestamp,
    pub committer: String,
    pub committer_time: Timestamp,
}

/// Model of [`StepperCommit`].
#[verifier::ext_equal]
pub struct SpecStepperCommit {
    pub oid: CommitOid,
    pub parents: Seq<CommitOid>,
    pub subject: Seq<char>,
    pub body: Seq<char>,
    pub author: Seq<char>,
    pub time: Timestamp,
    pub committer: Seq<char>,
    pub committer_time: Timestamp,
}

impl DeepView for StepperCommit {
    type V = SpecStepperCommit;

    open spec fn deep_view(&self) -> SpecStepperCommit {
        SpecStepperCommit {
            oid: self.oid,
            parents: self.parents.deep_view(),
            subject: self.subject.deep_view(),
            body: self.body.deep_view(),
            author: self.author.deep_view(),
            time: self.time,
            committer: self.committer.deep_view(),
            committer_time: self.committer_time,
        }
    }
}

impl Value for StepperCommit {
    fn dup(&self) -> (r: Self) {
        StepperCommit {
            oid: self.oid,
            parents: self.parents.dup(),
            subject: self.subject.dup(),
            body: self.body.dup(),
            author: self.author.dup(),
            time: self.time,
            committer: self.committer.dup(),
            committer_time: self.committer_time,
        }
    }

    fn same(&self, other: &Self) -> (b: bool) {
        self.oid == other.oid
            && self.parents.same(&other.parents)
            && self.subject.same(&other.subject)
            && self.body.same(&other.body)
            && self.author.same(&other.author)
            && self.time == other.time
            && self.committer.same(&other.committer)
            && self.committer_time == other.committer_time
    }
}

/// Commits of one repository of the review, newest first.
#[derive(Debug, PartialEq, Eq)]
pub struct CommitStepper {
    pub repo_id: RepoId,
    pub commits: Vec<StepperCommit>,
    /// Whether there is a working-tree step after the commits.
    pub has_worktree: bool,
}

/// Model of [`CommitStepper`].
#[verifier::ext_equal]
pub struct SpecCommitStepper {
    pub repo_id: RepoId,
    pub commits: Seq<SpecStepperCommit>,
    pub has_worktree: bool,
}

impl DeepView for CommitStepper {
    type V = SpecCommitStepper;

    open spec fn deep_view(&self) -> SpecCommitStepper {
        SpecCommitStepper {
            repo_id: self.repo_id,
            commits: self.commits.deep_view(),
            has_worktree: self.has_worktree,
        }
    }
}

impl Value for CommitStepper {
    fn dup(&self) -> (r: Self) {
        CommitStepper {
            repo_id: self.repo_id,
            commits: self.commits.dup(),
            has_worktree: self.has_worktree,
        }
    }

    fn same(&self, other: &Self) -> (b: bool) {
        self.repo_id == other.repo_id
            && self.commits.same(&other.commits)
            && self.has_worktree == other.has_worktree
    }
}

/// What the pending mutations touch.
#[derive(Debug, PartialEq, Eq)]
pub struct PendingIds {
    pub comments: Vec<CommentId>,
    pub threads: Vec<ThreadId>,
}

/// Model of [`PendingIds`].
#[verifier::ext_equal]
pub struct SpecPendingIds {
    pub comments: Seq<CommentId>,
    pub threads: Seq<ThreadId>,
}

impl DeepView for PendingIds {
    type V = SpecPendingIds;

    open spec fn deep_view(&self) -> SpecPendingIds {
        SpecPendingIds {
            comments: self.comments.deep_view(),
            threads: self.threads.deep_view(),
        }
    }
}

impl Value for PendingIds {
    fn dup(&self) -> (r: Self) {
        PendingIds {
            comments: self.comments.dup(),
            threads: self.threads.dup(),
        }
    }

    fn same(&self, other: &Self) -> (b: bool) {
        self.comments.same(&other.comments)
            && self.threads.same(&other.threads)
    }
}

/// A range of lines on one side.
#[derive(Debug, Clone, Copy, PartialEq, Eq, Structural)]
pub struct SideRange {
    pub side: Side,
    pub start: u32,
    pub end: u32,
}

impl DeepView for SideRange {
    type V = SideRange;

    open spec fn deep_view(&self) -> SideRange {
        *self
    }
}

impl Value for SideRange {
    fn dup(&self) -> (r: Self) {
        *self
    }

    fn same(&self, other: &Self) -> (b: bool) {
        *self == *other
    }
}

/// Where a thread is on a render: on the whole file, or on lines.
#[derive(Debug, Clone, Copy, PartialEq, Eq, Structural)]
pub struct Placement {
    pub thread: ThreadId,
    pub lines: Option<SideRange>,
}

impl DeepView for Placement {
    type V = Placement;

    open spec fn deep_view(&self) -> Placement {
        *self
    }
}

impl Value for Placement {
    fn dup(&self) -> (r: Self) {
        *self
    }

    fn same(&self, other: &Self) -> (b: bool) {
        *self == *other
    }
}


// ---- the commit stepper ---------------------------------------------------

impl SpecCommitInfo {
    pub open spec fn step(self) -> SpecStepperCommit {
        SpecStepperCommit {
            oid: self.oid,
            parents: self.parents,
            subject: self.subject,
            body: self.body,
            author: self.author.name,
            time: self.author.time,
            committer: self.committer.name,
            committer_time: self.committer.time,
        }
    }
}

impl CommitStepper {
    pub fn from_commits(repo_id: RepoId, commits: &Vec<CommitInfo>, has_worktree: bool) -> (r: Self)
        ensures
            r.deep_view() == (SpecCommitStepper {
                repo_id,
                commits: commits.deep_view().map_values(|c: SpecCommitInfo| c.step()),
                has_worktree,
            }),
    {
        let commits = data::map(
            commits,
            |c: &CommitInfo| -> (s: StepperCommit)
                ensures
                    s.deep_view() == c.deep_view().step()
            {
                StepperCommit {
                    oid: c.oid,
                    parents: c.parents.dup(),
                    subject: c.subject.dup(),
                    body: c.body.dup(),
                    author: c.author.name.dup(),
                    time: c.author.time,
                    committer: c.committer.name.dup(),
                    committer_time: c.committer.time,
                }
            },
            Ghost(|c: SpecCommitInfo| c.step()),
        );
        CommitStepper { repo_id, commits, has_worktree }
    }
}

impl SpecCommitStepper {
    /// Selectable rows: all changes, the commits, then the working tree.
    pub open spec fn row_count(self) -> nat {
        1 + self.commits.len() + (if self.has_worktree {
            1nat
        } else {
            0nat
        })
    }
}

// ---- threads --------------------------------------------------------------

impl SpecComment {
    /// The anchor the comment is shown at, and whether it is a stale one.
    pub open spec fn placed(self) -> Option<(SpecAnchor, bool)> {
        match self.state {
            SpecCommentState::Live => Some((self.anchor, false)),
            SpecCommentState::Outdated { last_good_anchor } => Some((last_good_anchor, true)),
            SpecCommentState::Deleted => None,
        }
    }

    pub open spec fn shown(self, pending: SpecPendingIds) -> SpecCommentView {
        SpecCommentView {
            id: self.id,
            author: self.author,
            created: self.created,
            body: self.body,
            pending: pending.comments.contains(self.id),
            reference: None,
        }
    }
}

impl Comment {
    fn placed(&self) -> (r: Option<(&Anchor, bool)>)
        ensures
            match r {
                Some(p) => self.deep_view().placed() == Some((p.0.deep_view(), p.1)),
                None => self.deep_view().placed() is None,
            },
    {
        match &self.state {
            CommentState::Live => Some((&self.anchor, false)),
            CommentState::Outdated { last_good_anchor } => Some((last_good_anchor, true)),
            CommentState::Deleted => None,
        }
    }
}

impl SpecAnchor {
    pub open spec fn place(self) -> SpecThreadPlace {
        match self {
            SpecAnchor::Review => SpecThreadPlace::Review,
            SpecAnchor::File { repo_id, path, .. } => SpecThreadPlace::File { file: SpecFileRef { repo_id, path } },
            SpecAnchor::Lines { repo_id, path, side, lines, .. } => SpecThreadPlace::Lines {
                file: SpecFileRef { repo_id, path },
                side,
                start: lines.start,
                end: lines.end,
            },
        }
    }
}

fn place_of(anchor: &Anchor) -> (r: ThreadPlace)
    ensures
        r.deep_view() == anchor.deep_view().place(),
{
    match anchor {
        Anchor::Review => ThreadPlace::Review,
        Anchor::File { repo_id, path, .. } => ThreadPlace::File {
            file: FileRef { repo_id: *repo_id, path: path.dup() },
        },
        Anchor::Lines { repo_id, path, side, lines, .. } => ThreadPlace::Lines {
            file: FileRef { repo_id: *repo_id, path: path.dup() },
            side: *side,
            start: lines.start,
            end: lines.end,
        },
    }
}

impl SpecThread {
    /// The root, then the replies.
    pub open spec fn comment_ids(self) -> Seq<CommentId> {
        seq![self.root] + self.replies
    }
}

/// The comment `id` names, as it is shown, unless it was deleted.
pub open spec fn shown_comment(
    snapshot: SpecReviewSnapshot,
    pending: SpecPendingIds,
    id: CommentId,
) -> Option<
    SpecCommentView,
> {
    match snapshot.comment(id) {
        Some(c) => if c.state is Deleted {
            None
        } else {
            Some(c.shown(pending))
        },
        None => None,
    }
}

/// A count that fits, or the largest that does.
pub open spec fn clipped(n: nat) -> u32 {
    if n <= u32::MAX {
        n as u32
    } else {
        u32::MAX
    }
}

/// A thread as the list shows it; `None` while its root is missing or was
/// deleted.
pub open spec fn thread_view(snapshot: SpecReviewSnapshot, t: SpecThread, pending: SpecPendingIds) -> Option<
    SpecThreadView,
> {
    match snapshot.comment(t.root) {
        None => None,
        Some(root) => match root.placed() {
            None => None,
            Some((anchor, outdated)) => Some(
                SpecThreadView {
                    id: t.id,
                    root: root.id,
                    author: root.author,
                    created: root.created,
                    summary: text::first_line(root.body),
                    replies: clipped(t.replies.len()),
                    status: match t.resolution {
                        SpecThreadResolution::Open => ThreadStatus::Open,
                        SpecThreadResolution::Resolved { .. } => ThreadStatus::Resolved,
                        SpecThreadResolution::Informational => ThreadStatus::Informational,
                    },
                    place: anchor.place(),
                    outdated,
                    pending: data::some_where(pending.comments, |id: CommentId| t.comment_ids().contains(id))
                        || pending.threads.contains(t.id),
                    suggestion: root.kind is Suggestion,
                    comments: t.comment_ids().filter_map(|id: CommentId| shown_comment(snapshot, pending, id)),
                    context: root.context,
                    reference: None,
                },
            ),
        },
    }
}

pub open spec fn created_order() -> spec_fn(SpecThreadView, SpecThreadView) -> bool {
    |a: SpecThreadView, b: SpecThreadView| a.created.0 <= b.created.0
}

/// Every thread that can be shown, oldest root first.
pub open spec fn thread_views(snapshot: SpecReviewSnapshot, pending: SpecPendingIds) -> Seq<SpecThreadView> {
    data::sorted(
        snapshot.threads.filter_map(|t: SpecThread| thread_view(snapshot, t, pending)),
        created_order(),
    )
}

fn show_comment(snapshot: &ReviewSnapshot, pending: &PendingIds, id: CommentId) -> (r: Option<CommentView>)
    ensures
        r.deep_view() == shown_comment(snapshot.deep_view(), pending.deep_view(), id),
{
    match find_comment(&snapshot.comments, id) {
        Some(c) => {
            match c.state {
                CommentState::Deleted => {
                    return None;
                },
                _ => {},
            }
            Some(
                CommentView {
                    id: c.id,
                    author: c.author.dup(),
                    created: c.created,
                    body: c.body.dup(),
                    pending: data::contains(&pending.comments, &c.id),
                    reference: None,
                },
            )
        },
        None => None,
    }
}

fn show_thread(snapshot: &ReviewSnapshot, t: &Thread, pending: &PendingIds) -> (r: Option<ThreadView>)
    ensures
        r.deep_view() == thread_view(snapshot.deep_view(), t.deep_view(), pending.deep_view()),
{
    let root = match find_comment(&snapshot.comments, t.root) {
        Some(root) => root,
        None => {
            return None;
        },
    };
    let (anchor, outdated) = match root.placed() {
        Some(p) => p,
        None => {
            return None;
        },
    };
    let mut ids: Vec<CommentId> = data::one(t.root);
    data::append(&mut ids, t.replies.dup());
    let ghost model = t.deep_view();
    let touched = data::any(
        &pending.comments,
        |id: &CommentId| -> (b: bool)
            ensures
                b == model.comment_ids().contains(id.deep_view())
        { data::contains(&ids, id) },
        Ghost(|id: CommentId| model.comment_ids().contains(id)),
    );
    let ghost snap = snapshot.deep_view();
    let ghost pend = pending.deep_view();
    let comments = data::filter_map(
        &ids,
        |id: &CommentId| -> (c: Option<CommentView>)
            ensures
                c.deep_view() == shown_comment(snap, pend, id.deep_view())
        { show_comment(snapshot, pending, *id) },
        Ghost(|id: CommentId| shown_comment(snap, pend, id)),
    );
    assert(t.replies.deep_view().len() == t.replies@.len());
    let count: usize = t.replies.len();
    let replies: u32 = if count <= 0xffff_ffff {
        count as u32
    } else {
        u32::MAX
    };
    Some(
        ThreadView {
            id: t.id,
            root: root.id,
            author: root.author.dup(),
            created: root.created,
            summary: text::head_line(root.body.as_str()),
            replies,
            status: match t.resolution {
                ThreadResolution::Open => ThreadStatus::Open,
                ThreadResolution::Resolved { .. } => ThreadStatus::Resolved,
                ThreadResolution::Informational => ThreadStatus::Informational,
            },
            place: place_of(anchor),
            outdated,
            pending: touched || data::contains(&pending.threads, &t.id),
            suggestion: match root.kind {
                CommentKind::Suggestion { .. } => true,
                _ => false,
            },
            comments,
            context: root.context.dup(),
            reference: None,
        },
    )
}

/// The threads of a review, by creation of their root.
pub fn threads(snapshot: &ReviewSnapshot, pending: &PendingIds) -> (r: Vec<ThreadView>)
    ensures
        r.deep_view() == thread_views(snapshot.deep_view(), pending.deep_view()),
{
    let ghost snap = snapshot.deep_view();
    let ghost pend = pending.deep_view();
    let mut views = data::filter_map(
        &snapshot.threads,
        |t: &Thread| -> (v: Option<ThreadView>)
            ensures
                v.deep_view() == thread_view(snap, t.deep_view(), pend)
        { show_thread(snapshot, t, pending) },
        Ghost(|t: SpecThread| thread_view(snap, t, pend)),
    );
    data::sort(
        &mut views,
        |a: &ThreadView, b: &ThreadView| -> (r: bool)
            ensures
                r == created_order()(a.deep_view(), b.deep_view())
        { a.created.0 <= b.created.0 },
        Ghost(created_order()),
    );
    views
}

pub open spec fn on_review() -> spec_fn(SpecThreadView) -> bool {
    |t: SpecThreadView| t.place is Review
}

/// The threads anchored to the review itself.
pub fn conversation(threads: &Vec<ThreadView>) -> (r: Vec<ThreadView>)
    ensures
        r.deep_view() == threads.deep_view().filter(on_review()),
{
    data::filtered(
        threads,
        |t: &ThreadView| -> (b: bool)
            ensures
                b == on_review()(t.deep_view())
        {
            match t.place {
                ThreadPlace::Review => true,
                _ => false,
            }
        },
        Ghost(on_review()),
    )
}

// ---- placing comments on rows ---------------------------------------------

impl SpecRow {
    /// The row's line number on `side`, if it has one.
    pub open spec fn line_on(self, side: Side) -> Option<u32> {
        match self {
            SpecRow::Context { left, right } => Some(
                if side == Side::Base { left.line_no } else { right.line_no },
            ),
            SpecRow::Modified { left, right } => Some(
                if side == Side::Base { left.line_no } else { right.line_no },
            ),
            SpecRow::Removed { left } => if side == Side::Base { Some(left.line_no) } else { None },
            SpecRow::Added { right } => if side == Side::Head { Some(right.line_no) } else { None },
            SpecRow::HunkHeader { .. } => None,
            SpecRow::Expander { .. } => None,
            SpecRow::WhitespaceOnly => None,
        }
    }

    /// Where the row is in a range, if it is in it.
    pub open spec fn place_in(self, range: SideRange) -> Option<RowPlace> {
        match self.line_on(range.side) {
            Some(line) => if line == range.end {
                Some(RowPlace::Anchor)
            } else if range.start <= line < range.end {
                Some(RowPlace::Inside)
            } else {
                None
            },
            None => None,
        }
    }
}

pub fn line_on(row: &Row, side: Side) -> (r: Option<u32>)
    ensures
        r == row.deep_view().line_on(side),
{
    match row {
        Row::Context { left, right } => Some(if side == Side::Base { left.line_no } else { right.line_no }),
        Row::Modified { left, right } => Some(if side == Side::Base { left.line_no } else { right.line_no }),
        Row::Removed { left } => if side == Side::Base { Some(left.line_no) } else { None },
        Row::Added { right } => if side == Side::Head { Some(right.line_no) } else { None },
        Row::HunkHeader { .. } => None,
        Row::Expander { .. } => None,
        Row::WhitespaceOnly => None,
    }
}

fn place_in(row: &Row, range: SideRange) -> (r: Option<RowPlace>)
    ensures
        r == row.deep_view().place_in(range),
{
    match line_on(row, range.side) {
        Some(line) => if line == range.end {
            Some(RowPlace::Anchor)
        } else if range.start <= line && line < range.end {
            Some(RowPlace::Inside)
        } else {
            None
        },
        None => None,
    }
}

impl SpecAnchor {
    /// The lines this anchor covers on a render, if it is one on its lines.
    pub open spec fn lines_on(self, render: SpecRenderKey) -> Option<SideRange> {
        match self {
            SpecAnchor::Lines { repo_id, path, side, blob_oid, lines, .. } => if render.is_of(repo_id, path)
                && render.target.blob_on(side) == Some(blob_oid) {
                Some(SideRange { side, start: lines.start, end: lines.end })
            } else {
                None
            },
            _ => None,
        }
    }

    /// Whether this anchor is on the whole of a rendered file, at a blob of
    /// either side.
    pub open spec fn is_on_file(self, render: SpecRenderKey) -> bool {
        match self {
            SpecAnchor::File { repo_id, path, blob_oid } => render.is_of(repo_id, path) && (render.target.blob_on(
                Side::Head,
            ) == Some(blob_oid) || render.target.blob_on(Side::Base) == Some(blob_oid)),
            _ => false,
        }
    }
}

fn shows(target: &RenderTarget, side: Side, blob: BlobOid) -> (b: bool)
    ensures
        b == (target.deep_view().blob_on(side) == Some(blob)),
{
    match target.blob_on(side) {
        Some(oid) => oid == blob,
        None => false,
    }
}

pub fn lines_on(anchor: &Anchor, render: &RenderKey) -> (r: Option<SideRange>)
    ensures
        r == anchor.deep_view().lines_on(render.deep_view()),
{
    match anchor {
        Anchor::Lines { repo_id, path, side, blob_oid, lines, .. } => if render.is_of(*repo_id, path) && shows(
            &render.target,
            *side,
            *blob_oid,
        ) {
            Some(SideRange { side: *side, start: lines.start, end: lines.end })
        } else {
            None
        },
        _ => None,
    }
}

fn is_on_file(anchor: &Anchor, render: &RenderKey) -> (b: bool)
    ensures
        b == anchor.deep_view().is_on_file(render.deep_view()),
{
    match anchor {
        Anchor::File { repo_id, path, blob_oid } => render.is_of(*repo_id, path) && (shows(
            &render.target,
            Side::Head,
            *blob_oid,
        ) || shows(&render.target, Side::Base, *blob_oid)),
        _ => false,
    }
}

/// Where a thread is on a render, if it is on it.
pub open spec fn placement(snapshot: SpecReviewSnapshot, t: SpecThread, render: SpecRenderKey) -> Option<Placement> {
    match snapshot.comment(t.root) {
        None => None,
        Some(root) => match root.placed() {
            None => None,
            Some((anchor, _)) => if anchor.is_on_file(render) {
                Some(Placement { thread: t.id, lines: None })
            } else {
                match anchor.lines_on(render) {
                    Some(range) => Some(Placement { thread: t.id, lines: Some(range) }),
                    None => None,
                }
            },
        },
    }
}

pub open spec fn placements_on(snapshot: SpecReviewSnapshot, render: SpecRenderKey) -> Seq<Placement> {
    snapshot.threads.filter_map(|t: SpecThread| placement(snapshot, t, render))
}

fn place(snapshot: &ReviewSnapshot, t: &Thread, render: &RenderKey) -> (r: Option<Placement>)
    ensures
        r == placement(snapshot.deep_view(), t.deep_view(), render.deep_view()),
{
    match find_comment(&snapshot.comments, t.root) {
        None => None,
        Some(root) => match root.placed() {
            None => None,
            Some((anchor, _)) => if is_on_file(anchor, render) {
                Some(Placement { thread: t.id, lines: None })
            } else {
                match lines_on(anchor, render) {
                    Some(range) => Some(Placement { thread: t.id, lines: Some(range) }),
                    None => None,
                }
            },
        },
    }
}

pub fn placements(snapshot: &ReviewSnapshot, render: &RenderKey) -> (r: Vec<Placement>)
    ensures
        r.deep_view() == placements_on(snapshot.deep_view(), render.deep_view()),
{
    let ghost snap = snapshot.deep_view();
    let ghost key = render.deep_view();
    data::filter_map(
        &snapshot.threads,
        |t: &Thread| -> (p: Option<Placement>)
            ensures
                p.deep_view() == placement(snap, t.deep_view(), key)
        { place(snapshot, t, render) },
        Ghost(|t: SpecThread| placement(snap, t, key)),
    )
}

// ---- rows -----------------------------------------------------------------

/// The thread on a row, if the placement covers it.
pub open spec fn thread_on(row: SpecRow, p: Placement) -> Option<RowThread> {
    match p.lines {
        None => None,
        Some(range) => match row.place_in(range) {
            Some(place) => Some(RowThread { thread: p.thread, side: range.side, place }),
            None => None,
        },
    }
}

pub open spec fn draft_on(row: SpecRow, draft: Option<SideRange>) -> Option<(RowPlace, Side)> {
    match draft {
        None => None,
        Some(range) => match row.place_in(range) {
            Some(place) => Some((place, range.side)),
            None => None,
        },
    }
}

/// The rows of one chunk inside the window `first..=last`, the first of them
/// being row `base` of the file.
pub open spec fn rows_in(
    rows: Seq<SpecRow>,
    base: int,
    first: int,
    last: int,
    placements: Seq<Placement>,
    draft: Option<SideRange>,
) -> Seq<SpecDiffRow>
    decreases rows.len(),
{
    if rows.len() == 0 {
        Seq::empty()
    } else {
        let before = rows_in(rows.drop_last(), base, first, last, placements, draft);
        let index = base + rows.len() - 1;
        if first <= index <= last {
            before.push(
                SpecDiffRow {
                    index: index as u32,
                    row: rows.last(),
                    threads: placements.filter_map(|p: Placement| thread_on(rows.last(), p)),
                    drafted: draft_on(rows.last(), draft),
                },
            )
        } else {
            before
        }
    }
}

fn place_rows(
    chunk: &RenderChunk,
    base: u64,
    first_row: u32,
    last_row: u32,
    placements: &Vec<Placement>,
    draft: Option<SideRange>,
    out: &mut Vec<DiffRow>,
)
    requires
        base <= 0xffff_ffff_ffff,
    ensures
        final(out).deep_view() == old(out).deep_view() + rows_in(
            chunk.deep_view().rows,
            base as int,
            first_row as int,
            last_row as int,
            placements.deep_view(),
            draft,
        ),
{
    let ghost start = out.deep_view();
    let ghost rows = chunk.rows.deep_view();
    let ghost places = placements.deep_view();
    let n: usize = chunk.rows.len();
    assert(start + rows_in(rows.take(0), base as int, first_row as int, last_row as int, places, draft) =~= start);
    for i in 0..n
        invariant
            n == chunk.rows@.len(),
            rows == chunk.rows.deep_view(),
            places == placements.deep_view(),
            base <= 0xffff_ffff_ffff,
            out.deep_view() == start + rows_in(
                rows.take(i as int),
                base as int,
                first_row as int,
                last_row as int,
                places,
                draft,
            ),
    {
        assert(rows.take(i + 1).drop_last() =~= rows.take(i as int));
        assert(rows.take(i + 1).last() == chunk.rows@[i as int].deep_view());
        let row = &chunk.rows[i];
        let index: u128 = base as u128 + i as u128;
        if first_row as u128 <= index && index <= last_row as u128 {
            let threads = data::filter_map(
                placements,
                |p: &Placement| -> (t: Option<RowThread>)
                    ensures
                        t.deep_view() == thread_on(row.deep_view(), p.deep_view())
                {
                    match p.lines {
                        None => None,
                        Some(range) => match place_in(row, range) {
                            Some(place) => Some(RowThread { thread: p.thread, side: range.side, place }),
                            None => None,
                        },
                    }
                },
                Ghost(|p: Placement| thread_on(row.deep_view(), p)),
            );
            let drafted = match draft {
                None => None,
                Some(range) => match place_in(row, range) {
                    Some(place) => Some((place, range.side)),
                    None => None,
                },
            };
            let placed = DiffRow { index: index as u32, row: row.dup(), threads, drafted };
            let ghost before = out.deep_view();
            let ghost m = placed.deep_view();
            data::push(out, placed);
            proof {
                let so_far = rows_in(
                    rows.take(i as int),
                    base as int,
                    first_row as int,
                    last_row as int,
                    places,
                    draft,
                );
                assert(m.threads =~= places.filter_map(|p: Placement| thread_on(rows.take(i + 1).last(), p)));
                assert((start + so_far).push(m) =~= start + so_far.push(m));
            }
        }
    }
    assert(rows.take(n as int) =~= rows);
}

/// The cached rows of the chunks `from..from + n`, over a window of rows.
pub open spec fn cached_rows(
    cache: SpecContentCache,
    render: SpecRenderKey,
    chunk_rows: int,
    from: int,
    n: nat,
    first: int,
    last: int,
    placements: Seq<Placement>,
    draft: Option<SideRange>,
) -> Seq<SpecDiffRow>
    decreases n,
{
    if n == 0 {
        Seq::empty()
    } else {
        let before = cached_rows(
            cache,
            render,
            chunk_rows,
            from,
            (n - 1) as nat,
            first,
            last,
            placements,
            draft,
        );
        let ci = from + n - 1;
        match cache.chunk(render, ChunkIndex(ci as u32)) {
            Some(chunk) => before + rows_in(chunk.rows, ci * chunk_rows, first, last, placements, draft),
            None => before,
        }
    }
}

/// Which of the chunks `from..from + n` are not cached.
pub open spec fn missing_chunks(
    cache: SpecContentCache,
    render: SpecRenderKey,
    from: int,
    n: nat,
) -> Seq<ChunkIndex>
    decreases n,
{
    if n == 0 {
        Seq::empty()
    } else {
        let before = missing_chunks(cache, render, from, (n - 1) as nat);
        let index = ChunkIndex((from + n - 1) as u32);
        if cache.chunk(render, index) is Some {
            before
        } else {
            before.push(index)
        }
    }
}

/// Rows a render has, once its header is cached.
pub open spec fn total_rows(cache: SpecContentCache, render: SpecRenderKey) -> Option<u32> {
    match cache.header(render) {
        Some(header) => match header.content {
            SpecRenderContent::Text { total_rows, .. } => Some(total_rows),
            SpecRenderContent::Binary => None,
        },
        None => None,
    }
}

pub fn total_rows_of(cache: &ContentCache, render: &RenderKey) -> (r: Option<u32>)
    ensures
        r == total_rows(cache.deep_view(), render.deep_view()),
{
    match cache.peek_header(render) {
        Some(header) => match header.content {
            RenderContent::Text { total_rows, .. } => Some(total_rows),
            RenderContent::Binary => None,
        },
        None => None,
    }
}

/// Every cached row of a render with its threads.
pub open spec fn every_row(
    cache: SpecContentCache,
    snapshot: SpecReviewSnapshot,
    render: SpecRenderKey,
) -> Seq<
    SpecDiffRow,
> {
    match cache.header(render) {
        Some(header) => match header.content {
            SpecRenderContent::Text { chunk_rows, chunk_count, .. } => cached_rows(
                cache,
                render,
                chunk_rows as int,
                0,
                chunk_count as nat,
                0,
                u32::MAX as int,
                placements_on(snapshot, render),
                None,
            ),
            SpecRenderContent::Binary => Seq::empty(),
        },
        None => Seq::empty(),
    }
}

pub fn all_rows(cache: &ContentCache, snapshot: &ReviewSnapshot, render: &RenderKey) -> (r: Vec<DiffRow>)
    ensures
        r.deep_view() == every_row(cache.deep_view(), snapshot.deep_view(), render.deep_view()),
{
    let header = match cache.peek_header(render) {
        Some(header) => header,
        None => {
            return data::empty();
        },
    };
    match header.content {
        RenderContent::Binary => data::empty(),
        RenderContent::Text { chunk_rows, chunk_count, .. } => {
            let placed = placements(snapshot, render);
            let mut rows: Vec<DiffRow> = data::empty();
            for ci in 0..chunk_count
                invariant
                    rows.deep_view() == cached_rows(
                        cache.deep_view(),
                        render.deep_view(),
                        chunk_rows as int,
                        0,
                        ci as nat,
                        0,
                        u32::MAX as int,
                        placed.deep_view(),
                        None,
                    ),
            {
                if let Some(chunk) = cache.peek_chunk(render, ChunkIndex(ci)) {
                    assert(ci * chunk_rows <= 0xffff_ffff * 0xffff_ffff) by (nonlinear_arith)
                        requires
                            0 <= ci <= 0xffff_ffff,
                            0 <= chunk_rows <= 0xffff_ffff,
                    ;
                    let base: u64 = ci as u64 * chunk_rows as u64;
                    if base <= 0xffff_ffff {
                        place_rows(chunk, base, 0, u32::MAX, &placed, None, &mut rows);
                    } else {
                        proof {
                            lemma_rows_beyond(
                                chunk.deep_view().rows,
                                base as int,
                                0,
                                u32::MAX as int,
                                placed.deep_view(),
                                None,
                            );
                            assert(rows.deep_view() + Seq::<SpecDiffRow>::empty() =~= rows.deep_view());
                        }
                    }
                }
            }
            rows
        },
    }
}

/// A chunk that starts behind the window has no row in it.
proof fn lemma_rows_beyond(
    rows: Seq<SpecRow>,
    base: int,
    first: int,
    last: int,
    placements: Seq<Placement>,
    draft: Option<SideRange>,
)
    requires
        base > last,
    ensures
        rows_in(rows, base, first, last, placements, draft) == Seq::<SpecDiffRow>::empty(),
    decreases rows.len(),
{
    if rows.len() > 0 {
        lemma_rows_beyond(rows.drop_last(), base, first, last, placements, draft);
    }
}

// ---- viewed state ---------------------------------------------------------

pub open spec fn mark_of(repo_id: RepoId, path: SpecRepoPath, viewer: crate::protocol::SpecHuman) -> spec_fn(
    SpecViewedMark,
) -> bool {
    |v: SpecViewedMark| v.repo_id == repo_id && v.path == path && v.viewer == viewer
}

/// Whether `viewer` has seen a file as `content`. Agents never mark files.
pub open spec fn viewed_as(
    snapshot: SpecReviewSnapshot,
    viewer: SpecAuthor,
    repo_id: RepoId,
    path: SpecRepoPath,
    content: ViewedContent,
) -> ViewedState {
    match viewer.as_human() {
        None => ViewedState::Unviewed,
        Some(human) => match data::found(snapshot.viewed, mark_of(repo_id, path, human)) {
            None => ViewedState::Unviewed,
            Some(mark) => if mark.content == content {
                ViewedState::Viewed
            } else {
                ViewedState::ChangedSinceViewed
            },
        },
    }
}

/// Whether `viewer` has seen a file as `head_content`.
pub fn viewed_state(
    snapshot: &ReviewSnapshot,
    viewer: &Author,
    repo_id: RepoId,
    path: &RepoPath,
    head_content: ViewedContent,
) -> (r: ViewedState)
    ensures
        r == viewed_as(snapshot.deep_view(), viewer.deep_view(), repo_id, path.deep_view(), head_content),
{
    match viewer.as_human() {
        None => ViewedState::Unviewed,
        Some(human) => {
            let mark = data::find(
                &snapshot.viewed,
                |v: &ViewedMark| -> (b: bool)
                    ensures
                        b == mark_of(repo_id, path.deep_view(), human.deep_view())(v.deep_view())
                { v.repo_id == repo_id && v.path.same(path) && v.viewer.same(&human) },
                Ghost(mark_of(repo_id, path.deep_view(), human.deep_view())),
            );
            match mark {
                None => ViewedState::Unviewed,
                Some(mark) => if mark.content == head_content {
                    ViewedState::Viewed
                } else {
                    ViewedState::ChangedSinceViewed
                },
            }
        },
    }
}

// ---- the diff view --------------------------------------------------------

pub open spec fn smaller(a: u32, b: u32) -> u32 {
    if a <= b {
        a
    } else {
        b
    }
}

pub open spec fn larger(a: u32, b: u32) -> u32 {
    if a <= b {
        b
    } else {
        a
    }
}

pub open spec fn on_whole_file() -> spec_fn(Placement) -> Option<ThreadId> {
    |p: Placement|
        match p.lines {
            None => Some(p.thread),
            Some(_) => None,
        }
}

/// A file over rows `first..=last` of its render, as far as it is cached;
/// `None` until its header is. `draft` is the range of the open draft.
pub open spec fn diff_of(
    cache: SpecContentCache,
    snapshot: SpecReviewSnapshot,
    viewer: SpecAuthor,
    render: SpecRenderKey,
    first: u32,
    last: u32,
    draft: Option<SideRange>,
) -> Option<SpecDiffView> {
    match cache.header(render) {
        None => None,
        Some(header) => {
            let placed = placements_on(snapshot, render);
            let bare = SpecDiffView {
                target: header.target,
                file: SpecFileRef { repo_id: render.repo_id, path: render.path },
                lang: header.lang,
                content: header.content,
                viewed: viewed_as(
                    snapshot,
                    viewer,
                    render.repo_id,
                    render.path,
                    render.target.viewed_content(),
                ),
                first_row: first,
                last_row: last,
                rows: Seq::empty(),
                missing: Seq::empty(),
                file_threads: placed.filter_map(on_whole_file()),
                collapsed: false,
                original: false,
            };
            match header.content {
                SpecRenderContent::Binary => Some(bare),
                SpecRenderContent::Text {
                    total_rows,
                    chunk_rows,
                    chunk_count,
                    ..
                } => if chunk_rows == 0 || chunk_count == 0
                    || total_rows == 0 {
                    Some(bare)
                } else {
                    let last = smaller(last, (total_rows - 1) as u32);
                    let first = smaller(first, last);
                    let from = first as int / chunk_rows as int;
                    let end = if last as int / chunk_rows as int <= chunk_count - 1 {
                        last as int / chunk_rows as int
                    } else {
                        chunk_count - 1
                    };
                    let n = if from <= end {
                        (end - from + 1) as nat
                    } else {
                        0
                    };
                    Some(
                        SpecDiffView {
                            first_row: first,
                            last_row: last,
                            rows: cached_rows(
                                cache,
                                render,
                                chunk_rows as int,
                                from,
                                n,
                                first as int,
                                last as int,
                                placed,
                                draft,
                            ),
                            missing: missing_chunks(cache, render, from, n),
                            ..bare
                        },
                    )
                },
            }
        },
    }
}

/// Build the diff view of a render over rows `first_row..=last_row`.
pub fn diff_view(
    cache: &ContentCache,
    snapshot: &ReviewSnapshot,
    viewer: &Author,
    render: &RenderKey,
    first_row: u32,
    last_row: u32,
    draft: Option<SideRange>,
) -> (r: Option<DiffView>)
    ensures
        r.deep_view() == diff_of(
            cache.deep_view(),
            snapshot.deep_view(),
            viewer.deep_view(),
            render.deep_view(),
            first_row,
            last_row,
            draft,
        ),
{
    let header = match cache.peek_header(render) {
        Some(header) => header,
        None => {
            return None;
        },
    };
    let viewed = viewed_state(snapshot, viewer, render.repo_id, &render.path, render.target.viewed_content());
    let placed = placements(snapshot, render);
    let file_threads = data::filter_map(
        &placed,
        |p: &Placement| -> (t: Option<ThreadId>)
            ensures
                t.deep_view() == on_whole_file()(p.deep_view())
        {
            match p.lines {
                None => Some(p.thread),
                Some(_) => None,
            }
        },
        Ghost(on_whole_file()),
    );
    let mut view = DiffView {
        target: header.target.dup(),
        file: FileRef { repo_id: render.repo_id, path: render.path.dup() },
        lang: header.lang.dup(),
        content: header.content.dup(),
        viewed,
        first_row,
        last_row,
        rows: data::empty(),
        missing: data::empty(),
        file_threads,
        collapsed: false,
        original: false,
    };
    match header.content {
        RenderContent::Binary => {},
        RenderContent::Text { total_rows, chunk_rows, chunk_count, .. } => {
            if chunk_rows != 0 && chunk_count != 0 && total_rows != 0 {
                let last: u32 = if last_row <= total_rows - 1 {
                    last_row
                } else {
                    total_rows - 1
                };
                let first: u32 = if first_row <= last {
                    first_row
                } else {
                    last
                };
                let from: u32 = first / chunk_rows;
                let by_rows: u32 = last / chunk_rows;
                let end: u32 = if by_rows <= chunk_count - 1 {
                    by_rows
                } else {
                    chunk_count - 1
                };
                let (rows, missing) = window(
                    cache,
                    render,
                    chunk_rows,
                    from,
                    end,
                    first,
                    last,
                    &placed,
                    draft,
                );
                view.first_row = first;
                view.last_row = last;
                view.rows = rows;
                view.missing = missing;
            }
        },
    }
    Some(view)
}

fn window(
    cache: &ContentCache,
    render: &RenderKey,
    chunk_rows: u32,
    from: u32,
    end: u32,
    first: u32,
    last: u32,
    placed: &Vec<Placement>,
    draft: Option<SideRange>,
) -> (r: (Vec<DiffRow>, Vec<ChunkIndex>))
    requires
        chunk_rows > 0,
        end <= last / chunk_rows,
    ensures
        r.0.deep_view() == cached_rows(
            cache.deep_view(),
            render.deep_view(),
            chunk_rows as int,
            from as int,
            (if from <= end { end - from + 1 } else { 0 }) as nat,
            first as int,
            last as int,
            placed.deep_view(),
            draft,
        ),
        r.1.deep_view() == missing_chunks(
            cache.deep_view(),
            render.deep_view(),
            from as int,
            (if from <= end { end - from + 1 } else { 0 }) as nat,
        ),
{
    let mut rows: Vec<DiffRow> = data::empty();
    let mut missing: Vec<ChunkIndex> = data::empty();
    if from > end {
        return (rows, missing);
    }
    let n: u64 = (end - from) as u64 + 1;
    for k in 0..n
        invariant
            n == end - from + 1,
            from <= end,
            chunk_rows > 0,
            end <= last / chunk_rows,
            rows.deep_view() == cached_rows(
                cache.deep_view(),
                render.deep_view(),
                chunk_rows as int,
                from as int,
                k as nat,
                first as int,
                last as int,
                placed.deep_view(),
                draft,
            ),
            missing.deep_view() == missing_chunks(
                cache.deep_view(),
                render.deep_view(),
                from as int,
                k as nat,
            ),
    {
        let ci: u32 = from + k as u32;
        match cache.peek_chunk(render, ChunkIndex(ci)) {
            Some(chunk) => {
                assert(ci * chunk_rows <= 0xffff_ffff * 0xffff_ffff && (ci * chunk_rows <= last)) by (nonlinear_arith)
                    requires
                        0 <= ci <= last / chunk_rows,
                        0 < chunk_rows <= 0xffff_ffff,
                        0 <= last <= 0xffff_ffff,
                ;
                let base: u64 = ci as u64 * chunk_rows as u64;
                place_rows(chunk, base, first, last, placed, draft, &mut rows);
            },
            None => data::push(&mut missing, ChunkIndex(ci)),
        }
    }
    (rows, missing)
}

// ---- laws: where threads are placed ---------------------------------------

/// A thread whose root is deleted is placed nowhere.
pub proof fn deleted_comments_are_not_placed(
    snapshot: SpecReviewSnapshot,
    t: SpecThread,
    render: SpecRenderKey,
)
    requires
        snapshot.comment(t.root) matches Some(root) && root.state is Deleted,
    ensures
        placement(snapshot, t, render) is None,
{
}

/// A thread on the review as a whole is on no file.
pub proof fn remarks_on_the_review_are_on_no_file(
    snapshot: SpecReviewSnapshot,
    t: SpecThread,
    render: SpecRenderKey,
)
    requires
        snapshot.comment(t.root) matches Some(root) && root.state is Live && root.anchor is Review,
    ensures
        placement(snapshot, t, render) is None,
{
}

/// A thread is on the lines of a render only if the render shows the very
/// blob its root is anchored to, on that side.
pub proof fn lines_are_placed_on_their_own_blob(
    snapshot: SpecReviewSnapshot,
    t: SpecThread,
    render: SpecRenderKey,
)
    requires
        placement(snapshot, t, render) matches Some(p) && p.lines is Some,
    ensures
        match snapshot.comment(t.root) {
            Some(root) => match root.placed() {
                Some((SpecAnchor::Lines { repo_id, path, side, blob_oid, .. }, _)) => render.is_of(repo_id, path)
                    && render.target.blob_on(side) == Some(blob_oid),
                _ => false,
            },
            None => false,
        },
{
}

/// A comment that lost its place is shown where it last had one, and
/// flagged.
pub proof fn outdated_comments_keep_their_last_place(comment: SpecComment)
    requires
        comment.state is Outdated,
    ensures
        comment.placed() == Some((comment.state->last_good_anchor, true)),
{
}

} // verus!
