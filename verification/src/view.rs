//! What the UI renders. Hosts read it after each render effect, which names
//! the sections that changed.
use vstd::prelude::*;

use crate::browse::{BrowseView, SpecBrowseView};
use crate::cache::{RenderKey, SpecRenderKey};
use crate::command::{Command, Mode};
use crate::data;
use crate::data::Value;
use crate::diff::{
    CommitStepper, DiffView, SpecCommitStepper, SpecDiffView, SpecThreadView, ThreadView,
};
use crate::explorer;
use crate::explorer::{Progress, SpecTreeView, TreeView};
use crate::focus::Focus;
use crate::home::{DaemonContext, HomeView, SpecDaemonContext, SpecHomeView};
use crate::keymap::{HelpView, Hint, SpecHelpView, SpecHint};
use crate::lifecycle::{
    DaemonManagement, SpecDaemonManagement, SpecUpgradeOperation, UpgradeOperation,
};
use crate::protocol::{
    Anchor, ClientSeq, CommentContext, CommentId, CommentIntent, ContentHit, DiffScope, EventBody,
    Expansions, RenderOpts, RenderTarget, RepoId, RepoPath, ResolvedTarget, Review, ReviewId,
    ReviewReference, ReviewRequest, ReviewSnapshot, ReviewerCheckpoint, RpcError, Side, SpecAnchor,
    SpecCommentContext, SpecContentHit, SpecEventBody, SpecExpansions, SpecRenderOpts, SpecRepoPath,
    SpecReview, SpecReviewReference, SpecReviewRequest, SpecReviewSnapshot, SpecReviewerCheckpoint,
    SpecRpcError, SpecWorkspace, ThreadId, TreeOid, ViewSection, Workspace,
};
use crate::ref_selector::{RefSelectorView, SpecRefSelectorView};

verus! {

/// The sections of the [`ViewModel`] that changed, in first-touched order,
/// without duplicates.
#[derive(Debug, PartialEq, Eq)]
pub struct ViewDelta {
    pub sections: Vec<ViewSection>,
}

/// Model of [`ViewDelta`].
#[verifier::ext_equal]
pub struct SpecViewDelta {
    pub sections: Seq<ViewSection>,
}

impl DeepView for ViewDelta {
    type V = SpecViewDelta;

    open spec fn deep_view(&self) -> SpecViewDelta {
        SpecViewDelta {
            sections: self.sections.deep_view(),
        }
    }
}

impl Value for ViewDelta {
    fn dup(&self) -> (r: Self) {
        ViewDelta {
            sections: self.sections.dup(),
        }
    }

    fn same(&self, other: &Self) -> (b: bool) {
        self.sections.same(&other.sections)
    }
}

/// Connection state as the UI shows it.
#[derive(Debug, PartialEq, Eq)]
pub enum ConnectionView {
    Disconnected,
    Connecting,
    Subscribed,
    /// The daemon refused the handshake; shown until the next connect.
    Rejected { error: RpcError },
    /// The daemon announced that it is being replaced.
    Restarting { operation: UpgradeOperation },
    /// The replacement speaks a protocol this client does not.
    UpgradeRequired { client: u32, supported: Vec<u32> },
}

/// Model of [`ConnectionView`].
#[verifier::ext_equal]
pub enum SpecConnectionView {
    Disconnected,
    Connecting,
    Subscribed,
    Rejected { error: SpecRpcError },
    Restarting { operation: SpecUpgradeOperation },
    UpgradeRequired { client: u32, supported: Seq<u32> },
}

impl DeepView for ConnectionView {
    type V = SpecConnectionView;

    open spec fn deep_view(&self) -> SpecConnectionView {
        match self {
            ConnectionView::Disconnected => SpecConnectionView::Disconnected,
            ConnectionView::Connecting => SpecConnectionView::Connecting,
            ConnectionView::Subscribed => SpecConnectionView::Subscribed,
            ConnectionView::Rejected { error } => SpecConnectionView::Rejected {
                error: error.deep_view(),
            },
            ConnectionView::Restarting { operation } => SpecConnectionView::Restarting {
                operation: operation.deep_view(),
            },
            ConnectionView::UpgradeRequired { client, supported } => SpecConnectionView::UpgradeRequired {
                client: *client,
                supported: supported.deep_view(),
            },
        }
    }
}

impl Value for ConnectionView {
    fn dup(&self) -> (r: Self) {
        match self {
            ConnectionView::Disconnected => ConnectionView::Disconnected,
            ConnectionView::Connecting => ConnectionView::Connecting,
            ConnectionView::Subscribed => ConnectionView::Subscribed,
            ConnectionView::Rejected { error } => ConnectionView::Rejected {
                error: error.dup(),
            },
            ConnectionView::Restarting { operation } => ConnectionView::Restarting {
                operation: operation.dup(),
            },
            ConnectionView::UpgradeRequired { client, supported } => ConnectionView::UpgradeRequired {
                client: *client,
                supported: supported.dup(),
            },
        }
    }

    fn same(&self, other: &Self) -> (b: bool) {
        match (self, other) {
            (ConnectionView::Disconnected, ConnectionView::Disconnected) => true,
            (ConnectionView::Connecting, ConnectionView::Connecting) => true,
            (ConnectionView::Subscribed, ConnectionView::Subscribed) => true,
            (ConnectionView::Rejected { error: a0 }, ConnectionView::Rejected { error: b0 }) => a0.same(b0),
            (ConnectionView::Restarting { operation: a0 }, ConnectionView::Restarting { operation: b0 }) => a0.same(b0),
            (ConnectionView::UpgradeRequired { client: a0, supported: a1 }, ConnectionView::UpgradeRequired { client: b0, supported: b1 }) => *a0 == *b0 && a1.same(b1),
            _ => false,
        }
    }
}

/// What an open editor is for.
#[derive(Debug, PartialEq, Eq)]
pub enum DraftPurpose {
    Comment {
        intent: CommentIntent,
        /// Captured when the editor opens, whatever is shown later.
        context: Option<CommentContext>,
    },
    Reply { thread_id: ThreadId },
    /// Putting a finding off.
    Defer { thread_id: ThreadId },
}

/// Model of [`DraftPurpose`].
#[verifier::ext_equal]
pub enum SpecDraftPurpose {
    Comment { intent: CommentIntent, context: Option<SpecCommentContext> },
    Reply { thread_id: ThreadId },
    Defer { thread_id: ThreadId },
}

impl DeepView for DraftPurpose {
    type V = SpecDraftPurpose;

    open spec fn deep_view(&self) -> SpecDraftPurpose {
        match self {
            DraftPurpose::Comment { intent, context } => SpecDraftPurpose::Comment {
                intent: *intent,
                context: context.deep_view(),
            },
            DraftPurpose::Reply { thread_id } => SpecDraftPurpose::Reply {
                thread_id: *thread_id,
            },
            DraftPurpose::Defer { thread_id } => SpecDraftPurpose::Defer {
                thread_id: *thread_id,
            },
        }
    }
}

impl Value for DraftPurpose {
    fn dup(&self) -> (r: Self) {
        match self {
            DraftPurpose::Comment { intent, context } => DraftPurpose::Comment {
                intent: *intent,
                context: context.dup(),
            },
            DraftPurpose::Reply { thread_id } => DraftPurpose::Reply {
                thread_id: *thread_id,
            },
            DraftPurpose::Defer { thread_id } => DraftPurpose::Defer {
                thread_id: *thread_id,
            },
        }
    }

    fn same(&self, other: &Self) -> (b: bool) {
        match (self, other) {
            (DraftPurpose::Comment { intent: a0, context: a1 }, DraftPurpose::Comment { intent: b0, context: b1 }) => *a0 == *b0 && a1.same(b1),
            (DraftPurpose::Reply { thread_id: a0 }, DraftPurpose::Reply { thread_id: b0 }) => *a0 == *b0,
            (DraftPurpose::Defer { thread_id: a0 }, DraftPurpose::Defer { thread_id: b0 }) => *a0 == *b0,
            _ => false,
        }
    }
}

/// An editor is open at `anchor`. Its text stays in the host.
#[derive(Debug, PartialEq, Eq)]
pub struct Draft {
    /// Why the last submission was refused; the editor stays open.
    pub submission_error: Option<String>,
    pub anchor: Anchor,
    pub purpose: DraftPurpose,
}

/// Model of [`Draft`].
#[verifier::ext_equal]
pub struct SpecDraft {
    pub submission_error: Option<Seq<char>>,
    pub anchor: SpecAnchor,
    pub purpose: SpecDraftPurpose,
}

impl DeepView for Draft {
    type V = SpecDraft;

    open spec fn deep_view(&self) -> SpecDraft {
        SpecDraft {
            submission_error: self.submission_error.deep_view(),
            anchor: self.anchor.deep_view(),
            purpose: self.purpose.deep_view(),
        }
    }
}

impl Value for Draft {
    fn dup(&self) -> (r: Self) {
        Draft {
            submission_error: self.submission_error.dup(),
            anchor: self.anchor.dup(),
            purpose: self.purpose.dup(),
        }
    }

    fn same(&self, other: &Self) -> (b: bool) {
        self.submission_error.same(&other.submission_error)
            && self.anchor.same(&other.anchor)
            && self.purpose.same(&other.purpose)
    }
}

/// The file the user is looking at and where. Rows are indices into the
/// render model.
#[derive(Debug, PartialEq, Eq)]
pub struct OpenFile {
    pub render: RenderKey,
    pub first_row: u32,
    pub last_row: u32,
}

/// Model of [`OpenFile`].
#[verifier::ext_equal]
pub struct SpecOpenFile {
    pub render: SpecRenderKey,
    pub first_row: u32,
    pub last_row: u32,
}

impl DeepView for OpenFile {
    type V = SpecOpenFile;

    open spec fn deep_view(&self) -> SpecOpenFile {
        SpecOpenFile {
            render: self.render.deep_view(),
            first_row: self.first_row,
            last_row: self.last_row,
        }
    }
}

impl Value for OpenFile {
    fn dup(&self) -> (r: Self) {
        OpenFile {
            render: self.render.dup(),
            first_row: self.first_row,
            last_row: self.last_row,
        }
    }

    fn same(&self, other: &Self) -> (b: bool) {
        self.render.same(&other.render)
            && self.first_row == other.first_row
            && self.last_row == other.last_row
    }
}

/// A mutation this client applied locally that the daemon has not echoed.
#[derive(Debug, PartialEq, Eq)]
pub struct PendingEvent {
    pub client_seq: ClientSeq,
    pub body: EventBody,
}

/// Model of [`PendingEvent`].
#[verifier::ext_equal]
pub struct SpecPendingEvent {
    pub client_seq: ClientSeq,
    pub body: SpecEventBody,
}

impl DeepView for PendingEvent {
    type V = SpecPendingEvent;

    open spec fn deep_view(&self) -> SpecPendingEvent {
        SpecPendingEvent {
            client_seq: self.client_seq,
            body: self.body.deep_view(),
        }
    }
}

impl Value for PendingEvent {
    fn dup(&self) -> (r: Self) {
        PendingEvent {
            client_seq: self.client_seq,
            body: self.body.dup(),
        }
    }

    fn same(&self, other: &Self) -> (b: bool) {
        self.client_seq == other.client_seq
            && self.body.same(&other.body)
    }
}

/// The review on screen. Content lives in the cache; this names what of it
/// belongs to the review.
#[derive(Debug, PartialEq, Eq)]
pub struct OpenReview {
    /// Committed state plus every pending mutation applied on top.
    pub snapshot: ReviewSnapshot,
    pub pending: Vec<PendingEvent>,
    /// Tree roots of the resolved targets (base and head per repository).
    pub trees: Vec<TreeOid>,
    /// Changed files, in daemon order; one render key each.
    pub files: Vec<RenderKey>,
    pub open_file: Option<OpenFile>,
    /// Which diff of the review is on screen.
    pub scope: DiffScope,
    /// A comment's recorded original diff, open read-only.
    pub original: Option<RenderKey>,
    /// What `scope` resolved to, from the last file list; empty until
    /// answered, and always empty for the whole review.
    pub scoped_targets: Vec<ResolvedTarget>,
}

/// Model of [`OpenReview`].
#[verifier::ext_equal]
pub struct SpecOpenReview {
    pub snapshot: SpecReviewSnapshot,
    pub pending: Seq<SpecPendingEvent>,
    pub trees: Seq<TreeOid>,
    pub files: Seq<SpecRenderKey>,
    pub open_file: Option<SpecOpenFile>,
    pub scope: DiffScope,
    pub original: Option<SpecRenderKey>,
    pub scoped_targets: Seq<ResolvedTarget>,
}

impl DeepView for OpenReview {
    type V = SpecOpenReview;

    open spec fn deep_view(&self) -> SpecOpenReview {
        SpecOpenReview {
            snapshot: self.snapshot.deep_view(),
            pending: self.pending.deep_view(),
            trees: self.trees.deep_view(),
            files: self.files.deep_view(),
            open_file: self.open_file.deep_view(),
            scope: self.scope,
            original: self.original.deep_view(),
            scoped_targets: self.scoped_targets.deep_view(),
        }
    }
}

impl Value for OpenReview {
    fn dup(&self) -> (r: Self) {
        OpenReview {
            snapshot: self.snapshot.dup(),
            pending: self.pending.dup(),
            trees: self.trees.dup(),
            files: self.files.dup(),
            open_file: self.open_file.dup(),
            scope: self.scope,
            original: self.original.dup(),
            scoped_targets: self.scoped_targets.dup(),
        }
    }

    fn same(&self, other: &Self) -> (b: bool) {
        self.snapshot.same(&other.snapshot)
            && self.pending.same(&other.pending)
            && self.trees.same(&other.trees)
            && self.files.same(&other.files)
            && self.open_file.same(&other.open_file)
            && self.scope == other.scope
            && self.original.same(&other.original)
            && self.scoped_targets.same(&other.scoped_targets)
    }
}

/// Which center tab is shown.
#[derive(Debug, Clone, Copy, PartialEq, Eq, Structural)]
pub enum Tab {
    FilesChanged,
    Conversation,
    Browse,
}

impl DeepView for Tab {
    type V = Tab;

    open spec fn deep_view(&self) -> Tab {
        *self
    }
}

impl Value for Tab {
    fn dup(&self) -> (r: Self) {
        *self
    }

    fn same(&self, other: &Self) -> (b: bool) {
        *self == *other
    }
}

/// How diff rows are laid out.
#[derive(Debug, Clone, Copy, PartialEq, Eq, Structural)]
pub enum Layout {
    Unified,
    Split,
}

impl DeepView for Layout {
    type V = Layout;

    open spec fn deep_view(&self) -> Layout {
        *self
    }
}

impl Value for Layout {
    fn dup(&self) -> (r: Self) {
        *self
    }

    fn same(&self, other: &Self) -> (b: bool) {
        *self == *other
    }
}

/// User preferences, kept in the host's store. `ignore_whitespace` and
/// `context_lines` are the render options every request uses.
#[derive(Debug, Clone, Copy, PartialEq, Eq, Structural)]
pub struct ViewPrefs {
    pub layout: Layout,
    pub ignore_whitespace: bool,
    pub context_lines: u32,
    /// Whole sidebar hidden.
    pub sidebar_hidden: bool,
}

impl DeepView for ViewPrefs {
    type V = ViewPrefs;

    open spec fn deep_view(&self) -> ViewPrefs {
        *self
    }
}

impl Value for ViewPrefs {
    fn dup(&self) -> (r: Self) {
        *self
    }

    fn same(&self, other: &Self) -> (b: bool) {
        *self == *other
    }
}

/// Where the host should put a row of the diff.
#[derive(Debug, Clone, Copy, PartialEq, Eq, Structural)]
pub enum ScrollAlign {
    Center,
    Top,
    Bottom,
}

impl DeepView for ScrollAlign {
    type V = ScrollAlign;

    open spec fn deep_view(&self) -> ScrollAlign {
        *self
    }
}

impl Value for ScrollAlign {
    fn dup(&self) -> (r: Self) {
        *self
    }

    fn same(&self, other: &Self) -> (b: bool) {
        *self == *other
    }
}

/// How the view should land on a file being opened.
#[derive(Debug, Clone, Copy, PartialEq, Eq, Structural)]
pub enum Landing {
    /// A motion walked over the file boundary: scroll as little as possible.
    Follow,
    /// A deliberate jump: the file's header goes to the top.
    Pin,
}

impl DeepView for Landing {
    type V = Landing;

    open spec fn deep_view(&self) -> Landing {
        *self
    }
}

impl Value for Landing {
    fn dup(&self) -> (r: Self) {
        *self
    }

    fn same(&self, other: &Self) -> (b: bool) {
        *self == *other
    }
}

/// A reposition the host has not performed yet. `seq` counts them.
#[derive(Debug, Clone, Copy, PartialEq, Eq, Structural)]
pub struct ScrollIntent {
    pub row: u32,
    pub align: ScrollAlign,
    pub seq: u32,
}

impl DeepView for ScrollIntent {
    type V = ScrollIntent;

    open spec fn deep_view(&self) -> ScrollIntent {
        *self
    }
}

impl Value for ScrollIntent {
    fn dup(&self) -> (r: Self) {
        *self
    }

    fn same(&self, other: &Self) -> (b: bool) {
        *self == *other
    }
}

/// What the core made of one key: which key, counted from one, and the
/// command it resolved to.
#[derive(Debug, Clone, Copy, PartialEq, Eq, Structural)]
pub struct LastKey {
    pub seq: u64,
    pub command: Option<Command>,
}

impl DeepView for LastKey {
    type V = LastKey;

    open spec fn deep_view(&self) -> LastKey {
        *self
    }
}

impl Value for LastKey {
    fn dup(&self) -> (r: Self) {
        *self
    }

    fn same(&self, other: &Self) -> (b: bool) {
        *self == *other
    }
}

/// The line selection: rows of the open file, ordered, both ends inclusive.
#[derive(Debug, Clone, Copy, PartialEq, Eq, Structural)]
pub struct VisualView {
    pub start: u32,
    pub end: u32,
    pub side: Side,
}

impl DeepView for VisualView {
    type V = VisualView;

    open spec fn deep_view(&self) -> VisualView {
        *self
    }
}

impl Value for VisualView {
    fn dup(&self) -> (r: Self) {
        *self
    }

    fn same(&self, other: &Self) -> (b: bool) {
        *self == *other
    }
}

/// The content-search palette.
#[derive(Debug, PartialEq, Eq)]
pub struct ContentSearchView {
    pub query: String,
    /// Search every file of the head trees, not just the changed ones.
    pub all_files: bool,
    pub hits: Vec<ContentHit>,
    /// More matches exist than are listed.
    pub truncated: bool,
    /// A query is on its way to the daemon.
    pub pending: bool,
    pub selected: usize,
}

/// Model of [`ContentSearchView`].
#[verifier::ext_equal]
pub struct SpecContentSearchView {
    pub query: Seq<char>,
    pub all_files: bool,
    pub hits: Seq<SpecContentHit>,
    pub truncated: bool,
    pub pending: bool,
    pub selected: usize,
}

impl DeepView for ContentSearchView {
    type V = SpecContentSearchView;

    open spec fn deep_view(&self) -> SpecContentSearchView {
        SpecContentSearchView {
            query: self.query.deep_view(),
            all_files: self.all_files,
            hits: self.hits.deep_view(),
            truncated: self.truncated,
            pending: self.pending,
            selected: self.selected,
        }
    }
}

impl Value for ContentSearchView {
    fn dup(&self) -> (r: Self) {
        ContentSearchView {
            query: self.query.dup(),
            all_files: self.all_files,
            hits: self.hits.dup(),
            truncated: self.truncated,
            pending: self.pending,
            selected: self.selected,
        }
    }

    fn same(&self, other: &Self) -> (b: bool) {
        self.query.same(&other.query)
            && self.all_files == other.all_files
            && self.hits.same(&other.hits)
            && self.truncated == other.truncated
            && self.pending == other.pending
            && self.selected == other.selected
    }
}

/// Everything the UI needs, kept identical across hosts.
#[derive(Debug, PartialEq, Eq)]
pub struct ViewModel {
    pub home: HomeView,
    pub daemon_context: Option<DaemonContext>,
    pub active_repo: Option<RepoId>,
    /// Absolute path on the selected daemon.
    pub copy_checkout: Option<String>,
    pub prefs: ViewPrefs,
    /// Explorer over the open review's head trees; empty otherwise.
    pub tree: TreeView,
    pub progress: Progress,
    /// The open file over its viewport, with comment overlays.
    pub diff: Option<DiffView>,
    /// One diff per changed file, from whatever chunks are cached.
    pub diffs: Vec<DiffView>,
    /// Every thread of the open review, oldest first.
    pub threads: Vec<ThreadView>,
    /// Review-level threads.
    pub conversation: Vec<ThreadView>,
    /// Review invitations.
    pub requests: Vec<ReviewRequest>,
    pub checkpoints: Vec<ReviewerCheckpoint>,
    /// Current target and displayed content have finished their refresh.
    pub check_current_ready: bool,
    pub stepper: Option<CommitStepper>,
    /// Where keys go. Always valid for the current lists.
    pub focus: Focus,
    pub tab: Tab,
    /// The last reposition, for the host to act on.
    pub scroll: Option<ScrollIntent>,
    pub mode: Mode,
    /// Label of the pending key group, when it has one.
    pub pending_label: Option<String>,
    /// Primary bindings for the focused context, or the pending group's
    /// keys.
    pub hints: Vec<Hint>,
    /// The pending sequence in text form, empty when none.
    pub pending_keys: String,
    /// The leader chord in text form.
    pub leader: String,
    /// One hint per bound command, for tooltips.
    pub chrome: Vec<Hint>,
    /// Every binding that applies where the focus is.
    pub bindings: Vec<Hint>,
    /// What the core made of the last key it acted on.
    pub last_key: Option<LastKey>,
    /// The help overlay while open.
    pub help: Option<HelpView>,
    /// What a copy would take from where the focus is.
    pub copy_target: Option<RepoPath>,
    /// Portable reference of what has the focus.
    pub copy_reference: Option<ReviewReference>,
    /// Exact reply to highlight in the expanded thread.
    pub focused_comment: Option<CommentId>,
    pub connection: ConnectionView,
    /// Last request error the daemon returned; cleared on subscribe.
    pub last_error: Option<RpcError>,
    /// Mutations whose outcome the daemon has not told.
    pub uncertain_mutations: Vec<ClientSeq>,
    pub daemon_management: DaemonManagement,
    /// Workspaces and their repositories.
    pub workspaces: Vec<Workspace>,
    pub reviews: Vec<Review>,
    /// Which of `reviews` is open.
    pub open_review: Option<ReviewId>,
    /// The open review's resolved base and head per repository under the
    /// current scope; empty until the daemon has resolved.
    pub resolved_targets: Vec<ResolvedTarget>,
    /// Which diff of the open review is on screen.
    pub scope: DiffScope,
    /// The Browse tab's controls.
    pub browse: Option<BrowseView>,
    /// The content-search palette while open.
    pub content_search: Option<ContentSearchView>,
    /// The actions palette while open; its entries are `chrome`.
    pub action_palette: bool,
    /// Base/head selector while open.
    pub ref_selector: Option<RefSelectorView>,
    /// Rows of the open file selected in Visual mode.
    pub visual: Option<VisualView>,
    /// The raw open-review state; it is never pushed to the UI.
    pub review: Option<OpenReview>,
    pub draft: Option<Draft>,
    /// A refresh arrived while `draft` was open and is held back.
    pub pending_refresh: bool,
}

/// Model of [`ViewModel`].
pub struct SpecViewModel {
    pub home: SpecHomeView,
    pub daemon_context: Option<SpecDaemonContext>,
    pub active_repo: Option<RepoId>,
    pub copy_checkout: Option<Seq<char>>,
    pub prefs: ViewPrefs,
    pub tree: SpecTreeView,
    pub progress: Progress,
    pub diff: Option<SpecDiffView>,
    pub diffs: Seq<SpecDiffView>,
    pub threads: Seq<SpecThreadView>,
    pub conversation: Seq<SpecThreadView>,
    pub requests: Seq<SpecReviewRequest>,
    pub checkpoints: Seq<SpecReviewerCheckpoint>,
    pub check_current_ready: bool,
    pub stepper: Option<SpecCommitStepper>,
    pub focus: Focus,
    pub tab: Tab,
    pub scroll: Option<ScrollIntent>,
    pub mode: Mode,
    pub pending_label: Option<Seq<char>>,
    pub hints: Seq<SpecHint>,
    pub pending_keys: Seq<char>,
    pub leader: Seq<char>,
    pub chrome: Seq<SpecHint>,
    pub bindings: Seq<SpecHint>,
    pub last_key: Option<LastKey>,
    pub help: Option<SpecHelpView>,
    pub copy_target: Option<SpecRepoPath>,
    pub copy_reference: Option<SpecReviewReference>,
    pub focused_comment: Option<CommentId>,
    pub connection: SpecConnectionView,
    pub last_error: Option<SpecRpcError>,
    pub uncertain_mutations: Seq<ClientSeq>,
    pub daemon_management: SpecDaemonManagement,
    pub workspaces: Seq<SpecWorkspace>,
    pub reviews: Seq<SpecReview>,
    pub open_review: Option<ReviewId>,
    pub resolved_targets: Seq<ResolvedTarget>,
    pub scope: DiffScope,
    pub browse: Option<SpecBrowseView>,
    pub content_search: Option<SpecContentSearchView>,
    pub action_palette: bool,
    pub ref_selector: Option<SpecRefSelectorView>,
    pub visual: Option<VisualView>,
    pub review: Option<SpecOpenReview>,
    pub draft: Option<SpecDraft>,
    pub pending_refresh: bool,
}

impl DeepView for ViewModel {
    type V = SpecViewModel;

    open spec fn deep_view(&self) -> SpecViewModel {
        self.model()
    }
}

impl ViewModel {
    /// What the fields stand for.
    #[verifier::opaque]
    pub open spec fn model(&self) -> SpecViewModel {
        SpecViewModel {
            home: self.home.deep_view(),
            daemon_context: self.daemon_context.deep_view(),
            active_repo: self.active_repo,
            copy_checkout: self.copy_checkout.deep_view(),
            prefs: self.prefs,
            tree: self.tree.deep_view(),
            progress: self.progress,
            diff: self.diff.deep_view(),
            diffs: self.diffs.deep_view(),
            threads: self.threads.deep_view(),
            conversation: self.conversation.deep_view(),
            requests: self.requests.deep_view(),
            checkpoints: self.checkpoints.deep_view(),
            check_current_ready: self.check_current_ready,
            stepper: self.stepper.deep_view(),
            focus: self.focus,
            tab: self.tab,
            scroll: self.scroll,
            mode: self.mode,
            pending_label: self.pending_label.deep_view(),
            hints: self.hints.deep_view(),
            pending_keys: self.pending_keys.deep_view(),
            leader: self.leader.deep_view(),
            chrome: self.chrome.deep_view(),
            bindings: self.bindings.deep_view(),
            last_key: self.last_key,
            help: self.help.deep_view(),
            copy_target: self.copy_target.deep_view(),
            copy_reference: self.copy_reference.deep_view(),
            focused_comment: self.focused_comment,
            connection: self.connection.deep_view(),
            last_error: self.last_error.deep_view(),
            uncertain_mutations: self.uncertain_mutations.deep_view(),
            daemon_management: self.daemon_management.deep_view(),
            workspaces: self.workspaces.deep_view(),
            reviews: self.reviews.deep_view(),
            open_review: self.open_review,
            resolved_targets: self.resolved_targets.deep_view(),
            scope: self.scope,
            browse: self.browse.deep_view(),
            content_search: self.content_search.deep_view(),
            action_palette: self.action_palette,
            ref_selector: self.ref_selector.deep_view(),
            visual: self.visual,
            review: self.review.deep_view(),
            draft: self.draft.deep_view(),
            pending_refresh: self.pending_refresh,
        }
    }
}

impl ViewModel {
    pub(crate) fn home(&self) -> (r: &HomeView)
        ensures
            r.deep_view() == self.deep_view().home,
    {
        proof {
            reveal(ViewModel::model);
        }
        &self.home
    }

    pub(crate) fn set_home(&mut self, home: HomeView)
        ensures
            final(self).deep_view() == (SpecViewModel { home: home.deep_view(), ..old(self).deep_view() }),
    {
        proof {
            reveal(ViewModel::model);
        }
        self.home = home;
    }

    pub(crate) fn daemon_context(&self) -> (r: &Option<DaemonContext>)
        ensures
            r.deep_view() == self.deep_view().daemon_context,
    {
        proof {
            reveal(ViewModel::model);
        }
        &self.daemon_context
    }

    pub(crate) fn set_daemon_context(&mut self, daemon_context: Option<DaemonContext>)
        ensures
            final(self).deep_view() == (SpecViewModel { daemon_context: daemon_context.deep_view(), ..old(self).deep_view() }),
    {
        proof {
            reveal(ViewModel::model);
        }
        self.daemon_context = daemon_context;
    }

    pub(crate) fn active_repo(&self) -> (r: Option<RepoId>)
        ensures
            r == self.deep_view().active_repo,
    {
        proof {
            reveal(ViewModel::model);
        }
        self.active_repo
    }

    pub(crate) fn set_active_repo(&mut self, active_repo: Option<RepoId>)
        ensures
            final(self).deep_view() == (SpecViewModel { active_repo: active_repo, ..old(self).deep_view() }),
    {
        proof {
            reveal(ViewModel::model);
        }
        self.active_repo = active_repo;
    }

    pub(crate) fn copy_checkout(&self) -> (r: &Option<String>)
        ensures
            r.deep_view() == self.deep_view().copy_checkout,
    {
        proof {
            reveal(ViewModel::model);
        }
        &self.copy_checkout
    }

    pub(crate) fn set_copy_checkout(&mut self, copy_checkout: Option<String>)
        ensures
            final(self).deep_view() == (SpecViewModel { copy_checkout: copy_checkout.deep_view(), ..old(self).deep_view() }),
    {
        proof {
            reveal(ViewModel::model);
        }
        self.copy_checkout = copy_checkout;
    }

    pub(crate) fn prefs(&self) -> (r: ViewPrefs)
        ensures
            r == self.deep_view().prefs,
    {
        proof {
            reveal(ViewModel::model);
        }
        self.prefs
    }

    pub(crate) fn set_prefs(&mut self, prefs: ViewPrefs)
        ensures
            final(self).deep_view() == (SpecViewModel { prefs: prefs, ..old(self).deep_view() }),
    {
        proof {
            reveal(ViewModel::model);
        }
        self.prefs = prefs;
    }

    pub(crate) fn tree(&self) -> (r: &TreeView)
        ensures
            r.deep_view() == self.deep_view().tree,
    {
        proof {
            reveal(ViewModel::model);
        }
        &self.tree
    }

    pub(crate) fn set_tree(&mut self, tree: TreeView)
        ensures
            final(self).deep_view() == (SpecViewModel { tree: tree.deep_view(), ..old(self).deep_view() }),
    {
        proof {
            reveal(ViewModel::model);
        }
        self.tree = tree;
    }

    pub(crate) fn progress(&self) -> (r: Progress)
        ensures
            r == self.deep_view().progress,
    {
        proof {
            reveal(ViewModel::model);
        }
        self.progress
    }

    pub(crate) fn set_progress(&mut self, progress: Progress)
        ensures
            final(self).deep_view() == (SpecViewModel { progress: progress, ..old(self).deep_view() }),
    {
        proof {
            reveal(ViewModel::model);
        }
        self.progress = progress;
    }

    pub(crate) fn diff(&self) -> (r: &Option<DiffView>)
        ensures
            r.deep_view() == self.deep_view().diff,
    {
        proof {
            reveal(ViewModel::model);
        }
        &self.diff
    }

    pub(crate) fn set_diff(&mut self, diff: Option<DiffView>)
        ensures
            final(self).deep_view() == (SpecViewModel { diff: diff.deep_view(), ..old(self).deep_view() }),
    {
        proof {
            reveal(ViewModel::model);
        }
        self.diff = diff;
    }

    pub(crate) fn diffs(&self) -> (r: &Vec<DiffView>)
        ensures
            r.deep_view() == self.deep_view().diffs,
    {
        proof {
            reveal(ViewModel::model);
        }
        &self.diffs
    }

    pub(crate) fn set_diffs(&mut self, diffs: Vec<DiffView>)
        ensures
            final(self).deep_view() == (SpecViewModel { diffs: diffs.deep_view(), ..old(self).deep_view() }),
    {
        proof {
            reveal(ViewModel::model);
        }
        self.diffs = diffs;
    }

    pub(crate) fn threads(&self) -> (r: &Vec<ThreadView>)
        ensures
            r.deep_view() == self.deep_view().threads,
    {
        proof {
            reveal(ViewModel::model);
        }
        &self.threads
    }

    pub(crate) fn set_threads(&mut self, threads: Vec<ThreadView>)
        ensures
            final(self).deep_view() == (SpecViewModel { threads: threads.deep_view(), ..old(self).deep_view() }),
    {
        proof {
            reveal(ViewModel::model);
        }
        self.threads = threads;
    }

    pub(crate) fn conversation(&self) -> (r: &Vec<ThreadView>)
        ensures
            r.deep_view() == self.deep_view().conversation,
    {
        proof {
            reveal(ViewModel::model);
        }
        &self.conversation
    }

    pub(crate) fn set_conversation(&mut self, conversation: Vec<ThreadView>)
        ensures
            final(self).deep_view() == (SpecViewModel { conversation: conversation.deep_view(), ..old(self).deep_view() }),
    {
        proof {
            reveal(ViewModel::model);
        }
        self.conversation = conversation;
    }

    pub(crate) fn requests(&self) -> (r: &Vec<ReviewRequest>)
        ensures
            r.deep_view() == self.deep_view().requests,
    {
        proof {
            reveal(ViewModel::model);
        }
        &self.requests
    }

    pub(crate) fn set_requests(&mut self, requests: Vec<ReviewRequest>)
        ensures
            final(self).deep_view() == (SpecViewModel { requests: requests.deep_view(), ..old(self).deep_view() }),
    {
        proof {
            reveal(ViewModel::model);
        }
        self.requests = requests;
    }

    pub(crate) fn checkpoints(&self) -> (r: &Vec<ReviewerCheckpoint>)
        ensures
            r.deep_view() == self.deep_view().checkpoints,
    {
        proof {
            reveal(ViewModel::model);
        }
        &self.checkpoints
    }

    pub(crate) fn set_checkpoints(&mut self, checkpoints: Vec<ReviewerCheckpoint>)
        ensures
            final(self).deep_view() == (SpecViewModel { checkpoints: checkpoints.deep_view(), ..old(self).deep_view() }),
    {
        proof {
            reveal(ViewModel::model);
        }
        self.checkpoints = checkpoints;
    }

    pub(crate) fn check_current_ready(&self) -> (r: bool)
        ensures
            r == self.deep_view().check_current_ready,
    {
        proof {
            reveal(ViewModel::model);
        }
        self.check_current_ready
    }

    pub(crate) fn set_check_current_ready(&mut self, check_current_ready: bool)
        ensures
            final(self).deep_view() == (SpecViewModel { check_current_ready: check_current_ready, ..old(self).deep_view() }),
    {
        proof {
            reveal(ViewModel::model);
        }
        self.check_current_ready = check_current_ready;
    }

    pub(crate) fn stepper(&self) -> (r: &Option<CommitStepper>)
        ensures
            r.deep_view() == self.deep_view().stepper,
    {
        proof {
            reveal(ViewModel::model);
        }
        &self.stepper
    }

    pub(crate) fn set_stepper(&mut self, stepper: Option<CommitStepper>)
        ensures
            final(self).deep_view() == (SpecViewModel { stepper: stepper.deep_view(), ..old(self).deep_view() }),
    {
        proof {
            reveal(ViewModel::model);
        }
        self.stepper = stepper;
    }

    pub(crate) fn focus(&self) -> (r: Focus)
        ensures
            r == self.deep_view().focus,
    {
        proof {
            reveal(ViewModel::model);
        }
        self.focus
    }

    pub(crate) fn set_focus(&mut self, focus: Focus)
        ensures
            final(self).deep_view() == (SpecViewModel { focus: focus, ..old(self).deep_view() }),
    {
        proof {
            reveal(ViewModel::model);
        }
        self.focus = focus;
    }

    pub(crate) fn tab(&self) -> (r: Tab)
        ensures
            r == self.deep_view().tab,
    {
        proof {
            reveal(ViewModel::model);
        }
        self.tab
    }

    pub(crate) fn set_tab(&mut self, tab: Tab)
        ensures
            final(self).deep_view() == (SpecViewModel { tab: tab, ..old(self).deep_view() }),
    {
        proof {
            reveal(ViewModel::model);
        }
        self.tab = tab;
    }

    pub(crate) fn scroll(&self) -> (r: Option<ScrollIntent>)
        ensures
            r == self.deep_view().scroll,
    {
        proof {
            reveal(ViewModel::model);
        }
        self.scroll
    }

    pub(crate) fn set_scroll(&mut self, scroll: Option<ScrollIntent>)
        ensures
            final(self).deep_view() == (SpecViewModel { scroll: scroll, ..old(self).deep_view() }),
    {
        proof {
            reveal(ViewModel::model);
        }
        self.scroll = scroll;
    }

    pub(crate) fn mode(&self) -> (r: Mode)
        ensures
            r == self.deep_view().mode,
    {
        proof {
            reveal(ViewModel::model);
        }
        self.mode
    }

    pub(crate) fn set_mode(&mut self, mode: Mode)
        ensures
            final(self).deep_view() == (SpecViewModel { mode: mode, ..old(self).deep_view() }),
    {
        proof {
            reveal(ViewModel::model);
        }
        self.mode = mode;
    }

    pub(crate) fn pending_label(&self) -> (r: &Option<String>)
        ensures
            r.deep_view() == self.deep_view().pending_label,
    {
        proof {
            reveal(ViewModel::model);
        }
        &self.pending_label
    }

    pub(crate) fn set_pending_label(&mut self, pending_label: Option<String>)
        ensures
            final(self).deep_view() == (SpecViewModel { pending_label: pending_label.deep_view(), ..old(self).deep_view() }),
    {
        proof {
            reveal(ViewModel::model);
        }
        self.pending_label = pending_label;
    }

    pub(crate) fn hints(&self) -> (r: &Vec<Hint>)
        ensures
            r.deep_view() == self.deep_view().hints,
    {
        proof {
            reveal(ViewModel::model);
        }
        &self.hints
    }

    pub(crate) fn set_hints(&mut self, hints: Vec<Hint>)
        ensures
            final(self).deep_view() == (SpecViewModel { hints: hints.deep_view(), ..old(self).deep_view() }),
    {
        proof {
            reveal(ViewModel::model);
        }
        self.hints = hints;
    }

    pub(crate) fn pending_keys(&self) -> (r: &String)
        ensures
            r.deep_view() == self.deep_view().pending_keys,
    {
        proof {
            reveal(ViewModel::model);
        }
        &self.pending_keys
    }

    pub(crate) fn set_pending_keys(&mut self, pending_keys: String)
        ensures
            final(self).deep_view() == (SpecViewModel { pending_keys: pending_keys.deep_view(), ..old(self).deep_view() }),
    {
        proof {
            reveal(ViewModel::model);
        }
        self.pending_keys = pending_keys;
    }

    pub(crate) fn leader(&self) -> (r: &String)
        ensures
            r.deep_view() == self.deep_view().leader,
    {
        proof {
            reveal(ViewModel::model);
        }
        &self.leader
    }

    pub(crate) fn set_leader(&mut self, leader: String)
        ensures
            final(self).deep_view() == (SpecViewModel { leader: leader.deep_view(), ..old(self).deep_view() }),
    {
        proof {
            reveal(ViewModel::model);
        }
        self.leader = leader;
    }

    pub(crate) fn chrome(&self) -> (r: &Vec<Hint>)
        ensures
            r.deep_view() == self.deep_view().chrome,
    {
        proof {
            reveal(ViewModel::model);
        }
        &self.chrome
    }

    pub(crate) fn set_chrome(&mut self, chrome: Vec<Hint>)
        ensures
            final(self).deep_view() == (SpecViewModel { chrome: chrome.deep_view(), ..old(self).deep_view() }),
    {
        proof {
            reveal(ViewModel::model);
        }
        self.chrome = chrome;
    }

    pub(crate) fn bindings(&self) -> (r: &Vec<Hint>)
        ensures
            r.deep_view() == self.deep_view().bindings,
    {
        proof {
            reveal(ViewModel::model);
        }
        &self.bindings
    }

    pub(crate) fn set_bindings(&mut self, bindings: Vec<Hint>)
        ensures
            final(self).deep_view() == (SpecViewModel { bindings: bindings.deep_view(), ..old(self).deep_view() }),
    {
        proof {
            reveal(ViewModel::model);
        }
        self.bindings = bindings;
    }

    pub(crate) fn last_key(&self) -> (r: Option<LastKey>)
        ensures
            r == self.deep_view().last_key,
    {
        proof {
            reveal(ViewModel::model);
        }
        self.last_key
    }

    pub(crate) fn set_last_key(&mut self, last_key: Option<LastKey>)
        ensures
            final(self).deep_view() == (SpecViewModel { last_key: last_key, ..old(self).deep_view() }),
    {
        proof {
            reveal(ViewModel::model);
        }
        self.last_key = last_key;
    }

    pub(crate) fn help(&self) -> (r: &Option<HelpView>)
        ensures
            r.deep_view() == self.deep_view().help,
    {
        proof {
            reveal(ViewModel::model);
        }
        &self.help
    }

    pub(crate) fn set_help(&mut self, help: Option<HelpView>)
        ensures
            final(self).deep_view() == (SpecViewModel { help: help.deep_view(), ..old(self).deep_view() }),
    {
        proof {
            reveal(ViewModel::model);
        }
        self.help = help;
    }

    pub(crate) fn copy_target(&self) -> (r: &Option<RepoPath>)
        ensures
            r.deep_view() == self.deep_view().copy_target,
    {
        proof {
            reveal(ViewModel::model);
        }
        &self.copy_target
    }

    pub(crate) fn set_copy_target(&mut self, copy_target: Option<RepoPath>)
        ensures
            final(self).deep_view() == (SpecViewModel { copy_target: copy_target.deep_view(), ..old(self).deep_view() }),
    {
        proof {
            reveal(ViewModel::model);
        }
        self.copy_target = copy_target;
    }

    pub(crate) fn copy_reference(&self) -> (r: &Option<ReviewReference>)
        ensures
            r.deep_view() == self.deep_view().copy_reference,
    {
        proof {
            reveal(ViewModel::model);
        }
        &self.copy_reference
    }

    pub(crate) fn set_copy_reference(&mut self, copy_reference: Option<ReviewReference>)
        ensures
            final(self).deep_view() == (SpecViewModel { copy_reference: copy_reference.deep_view(), ..old(self).deep_view() }),
    {
        proof {
            reveal(ViewModel::model);
        }
        self.copy_reference = copy_reference;
    }

    pub(crate) fn focused_comment(&self) -> (r: Option<CommentId>)
        ensures
            r == self.deep_view().focused_comment,
    {
        proof {
            reveal(ViewModel::model);
        }
        self.focused_comment
    }

    pub(crate) fn set_focused_comment(&mut self, focused_comment: Option<CommentId>)
        ensures
            final(self).deep_view() == (SpecViewModel { focused_comment: focused_comment, ..old(self).deep_view() }),
    {
        proof {
            reveal(ViewModel::model);
        }
        self.focused_comment = focused_comment;
    }

    pub(crate) fn connection(&self) -> (r: &ConnectionView)
        ensures
            r.deep_view() == self.deep_view().connection,
    {
        proof {
            reveal(ViewModel::model);
        }
        &self.connection
    }

    pub(crate) fn set_connection(&mut self, connection: ConnectionView)
        ensures
            final(self).deep_view() == (SpecViewModel { connection: connection.deep_view(), ..old(self).deep_view() }),
    {
        proof {
            reveal(ViewModel::model);
        }
        self.connection = connection;
    }

    pub(crate) fn last_error(&self) -> (r: &Option<RpcError>)
        ensures
            r.deep_view() == self.deep_view().last_error,
    {
        proof {
            reveal(ViewModel::model);
        }
        &self.last_error
    }

    pub(crate) fn set_last_error(&mut self, last_error: Option<RpcError>)
        ensures
            final(self).deep_view() == (SpecViewModel { last_error: last_error.deep_view(), ..old(self).deep_view() }),
    {
        proof {
            reveal(ViewModel::model);
        }
        self.last_error = last_error;
    }

    pub(crate) fn uncertain_mutations(&self) -> (r: &Vec<ClientSeq>)
        ensures
            r.deep_view() == self.deep_view().uncertain_mutations,
    {
        proof {
            reveal(ViewModel::model);
        }
        &self.uncertain_mutations
    }

    pub(crate) fn set_uncertain_mutations(&mut self, uncertain_mutations: Vec<ClientSeq>)
        ensures
            final(self).deep_view() == (SpecViewModel { uncertain_mutations: uncertain_mutations.deep_view(), ..old(self).deep_view() }),
    {
        proof {
            reveal(ViewModel::model);
        }
        self.uncertain_mutations = uncertain_mutations;
    }

    pub(crate) fn daemon_management(&self) -> (r: &DaemonManagement)
        ensures
            r.deep_view() == self.deep_view().daemon_management,
    {
        proof {
            reveal(ViewModel::model);
        }
        &self.daemon_management
    }

    pub(crate) fn set_daemon_management(&mut self, daemon_management: DaemonManagement)
        ensures
            final(self).deep_view() == (SpecViewModel { daemon_management: daemon_management.deep_view(), ..old(self).deep_view() }),
    {
        proof {
            reveal(ViewModel::model);
        }
        self.daemon_management = daemon_management;
    }

    pub(crate) fn workspaces(&self) -> (r: &Vec<Workspace>)
        ensures
            r.deep_view() == self.deep_view().workspaces,
    {
        proof {
            reveal(ViewModel::model);
        }
        &self.workspaces
    }

    pub(crate) fn set_workspaces(&mut self, workspaces: Vec<Workspace>)
        ensures
            final(self).deep_view() == (SpecViewModel { workspaces: workspaces.deep_view(), ..old(self).deep_view() }),
    {
        proof {
            reveal(ViewModel::model);
        }
        self.workspaces = workspaces;
    }

    pub(crate) fn reviews(&self) -> (r: &Vec<Review>)
        ensures
            r.deep_view() == self.deep_view().reviews,
    {
        proof {
            reveal(ViewModel::model);
        }
        &self.reviews
    }

    pub(crate) fn set_reviews(&mut self, reviews: Vec<Review>)
        ensures
            final(self).deep_view() == (SpecViewModel { reviews: reviews.deep_view(), ..old(self).deep_view() }),
    {
        proof {
            reveal(ViewModel::model);
        }
        self.reviews = reviews;
    }

    pub(crate) fn open_review(&self) -> (r: Option<ReviewId>)
        ensures
            r == self.deep_view().open_review,
    {
        proof {
            reveal(ViewModel::model);
        }
        self.open_review
    }

    pub(crate) fn set_open_review(&mut self, open_review: Option<ReviewId>)
        ensures
            final(self).deep_view() == (SpecViewModel { open_review: open_review, ..old(self).deep_view() }),
    {
        proof {
            reveal(ViewModel::model);
        }
        self.open_review = open_review;
    }

    pub(crate) fn resolved_targets(&self) -> (r: &Vec<ResolvedTarget>)
        ensures
            r.deep_view() == self.deep_view().resolved_targets,
    {
        proof {
            reveal(ViewModel::model);
        }
        &self.resolved_targets
    }

    pub(crate) fn set_resolved_targets(&mut self, resolved_targets: Vec<ResolvedTarget>)
        ensures
            final(self).deep_view() == (SpecViewModel { resolved_targets: resolved_targets.deep_view(), ..old(self).deep_view() }),
    {
        proof {
            reveal(ViewModel::model);
        }
        self.resolved_targets = resolved_targets;
    }

    pub(crate) fn scope(&self) -> (r: DiffScope)
        ensures
            r == self.deep_view().scope,
    {
        proof {
            reveal(ViewModel::model);
        }
        self.scope
    }

    pub(crate) fn set_scope(&mut self, scope: DiffScope)
        ensures
            final(self).deep_view() == (SpecViewModel { scope: scope, ..old(self).deep_view() }),
    {
        proof {
            reveal(ViewModel::model);
        }
        self.scope = scope;
    }

    pub(crate) fn browse(&self) -> (r: &Option<BrowseView>)
        ensures
            r.deep_view() == self.deep_view().browse,
    {
        proof {
            reveal(ViewModel::model);
        }
        &self.browse
    }

    pub(crate) fn set_browse(&mut self, browse: Option<BrowseView>)
        ensures
            final(self).deep_view() == (SpecViewModel { browse: browse.deep_view(), ..old(self).deep_view() }),
    {
        proof {
            reveal(ViewModel::model);
        }
        self.browse = browse;
    }

    pub(crate) fn content_search(&self) -> (r: &Option<ContentSearchView>)
        ensures
            r.deep_view() == self.deep_view().content_search,
    {
        proof {
            reveal(ViewModel::model);
        }
        &self.content_search
    }

    pub(crate) fn set_content_search(&mut self, content_search: Option<ContentSearchView>)
        ensures
            final(self).deep_view() == (SpecViewModel { content_search: content_search.deep_view(), ..old(self).deep_view() }),
    {
        proof {
            reveal(ViewModel::model);
        }
        self.content_search = content_search;
    }

    pub(crate) fn take_content_search(&mut self) -> (r: Option<ContentSearchView>)
        ensures
            r.deep_view() == old(self).deep_view().content_search,
            final(self).deep_view() == (SpecViewModel { content_search: None, ..old(self).deep_view() }),
    {
        proof {
            reveal(ViewModel::model);
        }
        self.content_search.take()
    }

    pub(crate) fn action_palette(&self) -> (r: bool)
        ensures
            r == self.deep_view().action_palette,
    {
        proof {
            reveal(ViewModel::model);
        }
        self.action_palette
    }

    pub(crate) fn set_action_palette(&mut self, action_palette: bool)
        ensures
            final(self).deep_view() == (SpecViewModel { action_palette: action_palette, ..old(self).deep_view() }),
    {
        proof {
            reveal(ViewModel::model);
        }
        self.action_palette = action_palette;
    }

    pub(crate) fn ref_selector(&self) -> (r: &Option<RefSelectorView>)
        ensures
            r.deep_view() == self.deep_view().ref_selector,
    {
        proof {
            reveal(ViewModel::model);
        }
        &self.ref_selector
    }

    pub(crate) fn set_ref_selector(&mut self, ref_selector: Option<RefSelectorView>)
        ensures
            final(self).deep_view() == (SpecViewModel { ref_selector: ref_selector.deep_view(), ..old(self).deep_view() }),
    {
        proof {
            reveal(ViewModel::model);
        }
        self.ref_selector = ref_selector;
    }

    pub(crate) fn visual(&self) -> (r: Option<VisualView>)
        ensures
            r == self.deep_view().visual,
    {
        proof {
            reveal(ViewModel::model);
        }
        self.visual
    }

    pub(crate) fn set_visual(&mut self, visual: Option<VisualView>)
        ensures
            final(self).deep_view() == (SpecViewModel { visual: visual, ..old(self).deep_view() }),
    {
        proof {
            reveal(ViewModel::model);
        }
        self.visual = visual;
    }

    pub(crate) fn review(&self) -> (r: &Option<OpenReview>)
        ensures
            r.deep_view() == self.deep_view().review,
    {
        proof {
            reveal(ViewModel::model);
        }
        &self.review
    }

    pub(crate) fn set_review(&mut self, review: Option<OpenReview>)
        ensures
            final(self).deep_view() == (SpecViewModel { review: review.deep_view(), ..old(self).deep_view() }),
    {
        proof {
            reveal(ViewModel::model);
        }
        self.review = review;
    }

    pub(crate) fn take_review(&mut self) -> (r: Option<OpenReview>)
        ensures
            r.deep_view() == old(self).deep_view().review,
            final(self).deep_view() == (SpecViewModel { review: None, ..old(self).deep_view() }),
    {
        proof {
            reveal(ViewModel::model);
        }
        self.review.take()
    }

    pub(crate) fn draft(&self) -> (r: &Option<Draft>)
        ensures
            r.deep_view() == self.deep_view().draft,
    {
        proof {
            reveal(ViewModel::model);
        }
        &self.draft
    }

    pub(crate) fn set_draft(&mut self, draft: Option<Draft>)
        ensures
            final(self).deep_view() == (SpecViewModel { draft: draft.deep_view(), ..old(self).deep_view() }),
    {
        proof {
            reveal(ViewModel::model);
        }
        self.draft = draft;
    }

    pub(crate) fn pending_refresh(&self) -> (r: bool)
        ensures
            r == self.deep_view().pending_refresh,
    {
        proof {
            reveal(ViewModel::model);
        }
        self.pending_refresh
    }

    pub(crate) fn set_pending_refresh(&mut self, pending_refresh: bool)
        ensures
            final(self).deep_view() == (SpecViewModel { pending_refresh: pending_refresh, ..old(self).deep_view() }),
    {
        proof {
            reveal(ViewModel::model);
        }
        self.pending_refresh = pending_refresh;
    }

}

impl Value for ViewModel {
    fn dup(&self) -> (r: Self) {
        proof {
            reveal(ViewModel::model);
        }
        ViewModel {
            home: self.home.dup(),
            daemon_context: self.daemon_context.dup(),
            active_repo: self.active_repo,
            copy_checkout: self.copy_checkout.dup(),
            prefs: self.prefs,
            tree: self.tree.dup(),
            progress: self.progress,
            diff: self.diff.dup(),
            diffs: self.diffs.dup(),
            threads: self.threads.dup(),
            conversation: self.conversation.dup(),
            requests: self.requests.dup(),
            checkpoints: self.checkpoints.dup(),
            check_current_ready: self.check_current_ready,
            stepper: self.stepper.dup(),
            focus: self.focus,
            tab: self.tab,
            scroll: self.scroll,
            mode: self.mode,
            pending_label: self.pending_label.dup(),
            hints: self.hints.dup(),
            pending_keys: self.pending_keys.dup(),
            leader: self.leader.dup(),
            chrome: self.chrome.dup(),
            bindings: self.bindings.dup(),
            last_key: self.last_key,
            help: self.help.dup(),
            copy_target: self.copy_target.dup(),
            copy_reference: self.copy_reference.dup(),
            focused_comment: self.focused_comment,
            connection: self.connection.dup(),
            last_error: self.last_error.dup(),
            uncertain_mutations: self.uncertain_mutations.dup(),
            daemon_management: self.daemon_management.dup(),
            workspaces: self.workspaces.dup(),
            reviews: self.reviews.dup(),
            open_review: self.open_review,
            resolved_targets: self.resolved_targets.dup(),
            scope: self.scope,
            browse: self.browse.dup(),
            content_search: self.content_search.dup(),
            action_palette: self.action_palette,
            ref_selector: self.ref_selector.dup(),
            visual: self.visual,
            review: self.review.dup(),
            draft: self.draft.dup(),
            pending_refresh: self.pending_refresh,
        }
    }

    fn same(&self, other: &Self) -> (b: bool) {
        proof {
            reveal(ViewModel::model);
        }
        self.home.same(&other.home)
            && self.daemon_context.same(&other.daemon_context)
            && self.active_repo.same(&other.active_repo)
            && self.copy_checkout.same(&other.copy_checkout)
            && self.prefs == other.prefs
            && self.tree.same(&other.tree)
            && self.progress == other.progress
            && self.diff.same(&other.diff)
            && self.diffs.same(&other.diffs)
            && self.threads.same(&other.threads)
            && self.conversation.same(&other.conversation)
            && self.requests.same(&other.requests)
            && self.checkpoints.same(&other.checkpoints)
            && self.check_current_ready == other.check_current_ready
            && self.stepper.same(&other.stepper)
            && self.focus == other.focus
            && self.tab == other.tab
            && self.scroll.same(&other.scroll)
            && self.mode == other.mode
            && self.pending_label.same(&other.pending_label)
            && self.hints.same(&other.hints)
            && self.pending_keys.same(&other.pending_keys)
            && self.leader.same(&other.leader)
            && self.chrome.same(&other.chrome)
            && self.bindings.same(&other.bindings)
            && self.last_key.same(&other.last_key)
            && self.help.same(&other.help)
            && self.copy_target.same(&other.copy_target)
            && self.copy_reference.same(&other.copy_reference)
            && self.focused_comment.same(&other.focused_comment)
            && self.connection.same(&other.connection)
            && self.last_error.same(&other.last_error)
            && self.uncertain_mutations.same(&other.uncertain_mutations)
            && self.daemon_management.same(&other.daemon_management)
            && self.workspaces.same(&other.workspaces)
            && self.reviews.same(&other.reviews)
            && self.open_review.same(&other.open_review)
            && self.resolved_targets.same(&other.resolved_targets)
            && self.scope == other.scope
            && self.browse.same(&other.browse)
            && self.content_search.same(&other.content_search)
            && self.action_palette == other.action_palette
            && self.ref_selector.same(&other.ref_selector)
            && self.visual.same(&other.visual)
            && self.review.same(&other.review)
            && self.draft.same(&other.draft)
            && self.pending_refresh == other.pending_refresh
    }
}


/// Each section once, where it first stands.
pub open spec fn deduped(sections: Seq<ViewSection>) -> Seq<ViewSection>
    decreases sections.len(),
{
    if sections.len() == 0 {
        Seq::empty()
    } else {
        let out = deduped(sections.drop_last());
        if out.contains(sections.last()) {
            out
        } else {
            out.push(sections.last())
        }
    }
}

impl ViewDelta {
    pub fn new(sections: &Vec<ViewSection>) -> (r: Self)
        ensures
            r.deep_view() == (SpecViewDelta { sections: deduped(sections.deep_view()) }),
    {
        let n: usize = sections.len();
        let ghost all = sections.deep_view();
        let mut out: Vec<ViewSection> = data::empty();
        for i in 0..n
            invariant
                n == sections@.len(),
                all == sections.deep_view(),
                out.deep_view() == deduped(all.take(i as int)),
        {
            assert(all.take(i + 1).drop_last() =~= all.take(i as int));
            assert(all.take(i + 1).last() == sections@[i as int].deep_view());
            let s = sections[i];
            if !data::contains(&out, &s) {
                data::push(&mut out, s);
            }
        }
        assert(all.take(n as int) =~= all);
        ViewDelta { sections: out }
    }
}

/// A delta names no section twice and exactly the sections it was made of.
pub proof fn deltas_name_each_section_once(sections: Seq<ViewSection>)
    ensures
        deduped(sections).no_duplicates(),
        forall|s: ViewSection| #[trigger] deduped(sections).contains(s) <==> sections.contains(s),
    decreases sections.len(),
{
    if sections.len() > 0 {
        let rest = sections.drop_last();
        deltas_name_each_section_once(rest);
        assert(sections =~= rest.push(sections.last()));
        let out = deduped(rest);
        assert forall|s: ViewSection| #[trigger] deduped(sections).contains(s) <==> sections.contains(s) by {
            if rest.contains(s) {
                let i = choose|i: int| 0 <= i < rest.len() && rest[i] == s;
                assert(sections[i] == s);
            }
            if out.contains(s) && !out.contains(sections.last()) {
                let i = choose|i: int| 0 <= i < out.len() && out[i] == s;
                assert(out.push(sections.last())[i] == s);
            }
            if s == sections.last() {
                assert(sections[sections.len() - 1] == s);
                if !out.contains(s) {
                    assert(out.push(s)[out.len() as int] == s);
                }
            }
        }
        if !out.contains(sections.last()) {
            assert(out.push(sections.last()).no_duplicates());
        }
    }
}

/// First touches keep their order: what an earlier prefix named comes first.
pub proof fn deltas_keep_first_touched_order(earlier: Seq<ViewSection>, later: Seq<ViewSection>)
    ensures
        deduped(earlier).len() <= deduped(earlier + later).len(),
        deduped(earlier + later).take(deduped(earlier).len() as int) == deduped(earlier),
    decreases later.len(),
{
    if later.len() == 0 {
        assert(earlier + later =~= earlier);
        assert(deduped(earlier).take(deduped(earlier).len() as int) =~= deduped(earlier));
    } else {
        deltas_keep_first_touched_order(earlier, later.drop_last());
        assert((earlier + later).drop_last() =~= earlier + later.drop_last());
        let before = deduped(earlier + later.drop_last());
        let n = deduped(earlier).len() as int;
        assert(before.push((earlier + later).last()).take(n) =~= before.take(n));
    }
}

impl SpecOpenReview {
    pub open spec fn new(snapshot: SpecReviewSnapshot) -> SpecOpenReview {
        SpecOpenReview {
            snapshot,
            pending: Seq::empty(),
            trees: Seq::empty(),
            files: Seq::empty(),
            open_file: None,
            scope: DiffScope::All,
            original: None,
            scoped_targets: Seq::empty(),
        }
    }

    /// The render that is open.
    /// The targets its header shows: those of a narrower scope, else those
    /// that are committed.
    pub open spec fn heads(self, committed: SpecReviewSnapshot) -> Seq<ResolvedTarget> {
        if self.scope is All {
            match committed.resolved {
                Some(r) => r,
                None => Seq::empty(),
            }
        } else {
            self.scoped_targets
        }
    }

    pub open spec fn open_render(self) -> Option<SpecRenderKey> {
        match self.open_file {
            Some(f) => Some(f.render),
            None => None,
        }
    }

    /// The recorded original diff, only while it is what is open.
    pub open spec fn original_render(self) -> Option<SpecRenderKey> {
        if self.original is Some && self.open_render() == self.original {
            self.original
        } else {
            None
        }
    }

    /// The targets of the current scope.
    pub open spec fn current_targets(self) -> Seq<ResolvedTarget> {
        if self.scope is All {
            match self.snapshot.resolved {
                Some(r) => r,
                None => Seq::empty(),
            }
        } else {
            self.scoped_targets
        }
    }
}

impl OpenReview {
    pub fn new(snapshot: ReviewSnapshot) -> (r: Self)
        ensures
            r.deep_view() == SpecOpenReview::new(snapshot.deep_view()),
    {
        OpenReview {
            snapshot,
            pending: data::empty(),
            trees: data::empty(),
            files: data::empty(),
            open_file: None,
            scope: DiffScope::All,
            original: None,
            scoped_targets: data::empty(),
        }
    }

    /// Whether `render` is what is open.
    pub fn shows(&self, render: &RenderKey) -> (b: bool)
        ensures
            b == (self.deep_view().open_render() == Some(render.deep_view())),
    {
        match &self.open_file {
            Some(f) => f.render.same(render),
            None => false,
        }
    }

    /// The recorded original diff, only while it is the open viewport.
    pub fn original_render(&self) -> (r: Option<&RenderKey>)
        ensures
            match r {
                Some(k) => self.deep_view().original_render() == Some(k.deep_view()),
                None => self.deep_view().original_render() is None,
            },
    {
        match &self.original {
            Some(k) => if self.shows(k) {
                Some(k)
            } else {
                None
            },
            None => None,
        }
    }

    /// A recorded diff is read-only; a recorded blob can be commented on.
    pub fn original_is_read_only(&self) -> (b: bool)
        ensures
            b == (match self.deep_view().original_render() {
                Some(k) => k.target is Diff,
                None => false,
            }),
    {
        match self.original_render() {
            Some(k) => match &k.target {
                RenderTarget::Diff { .. } => true,
                RenderTarget::Blob { .. } => false,
            },
            None => false,
        }
    }

    /// The targets of the current scope: the snapshot's for the whole
    /// review, else what the last scoped file list reported.
    pub fn current_targets(&self) -> (r: Vec<ResolvedTarget>)
        ensures
            r.deep_view() == self.deep_view().current_targets(),
    {
        match self.scope {
            DiffScope::All => match &self.snapshot.resolved {
                Some(r) => r.dup(),
                None => data::empty(),
            },
            _ => self.scoped_targets.dup(),
        }
    }
}

/// No gap is opened.
pub open spec fn no_expansions() -> SpecExpansions {
    SpecExpansions { open: Seq::empty() }
}

impl ViewPrefs {
    pub open spec fn spec_default() -> ViewPrefs {
        ViewPrefs {
            layout: Layout::Unified,
            ignore_whitespace: false,
            context_lines: 3,
            sidebar_hidden: false,
        }
    }

    pub open spec fn opts(self) -> SpecRenderOpts {
        SpecRenderOpts {
            ignore_whitespace: self.ignore_whitespace,
            context_lines: self.context_lines,
            expanded: no_expansions(),
        }
    }

    /// The options every render uses. Expansions belong to one file.
    pub fn render_opts(self) -> (r: RenderOpts)
        ensures
            r.deep_view() == self.opts(),
    {
        RenderOpts {
            ignore_whitespace: self.ignore_whitespace,
            context_lines: self.context_lines,
            expanded: Expansions { open: data::empty() },
        }
    }
}

impl Default for ViewPrefs {
    fn default() -> (r: Self)
        ensures
            r == ViewPrefs::spec_default(),
    {
        ViewPrefs {
            layout: Layout::Unified,
            ignore_whitespace: false,
            context_lines: 3,
            sidebar_hidden: false,
        }
    }
}

impl Default for RenderOpts {
    fn default() -> (r: Self)
        ensures
            r.deep_view() == ViewPrefs::spec_default().opts(),
    {
        ViewPrefs::default().render_opts()
    }
}

impl SpecTreeView {
    pub open spec fn empty() -> SpecTreeView {
        SpecTreeView { roots: Seq::empty(), breadcrumbs: Seq::empty(), search: None }
    }
}

impl Default for TreeView {
    fn default() -> (r: Self)
        ensures
            r.deep_view() == SpecTreeView::empty(),
    {
        let r = TreeView { roots: data::empty(), breadcrumbs: data::empty(), search: None };
        r
    }
}

impl Default for HomeView {
    fn default() -> (r: Self)
        ensures
            r.deep_view() == (SpecHomeView {
                rows: Seq::empty(),
                selected_workspace: None,
                expanded: Seq::empty(),
                creating: None,
            }),
    {
        HomeView { rows: data::empty(), selected_workspace: None, expanded: data::empty(), creating: None }
    }
}

impl Default for Progress {
    fn default() -> (r: Self)
        ensures
            r == explorer::no_progress(),
    {
        Progress { viewed: 0, changed_since_viewed: 0, total: 0, additions: 0, deletions: 0 }
    }
}

impl SpecViewModel {
    /// The view before anything happened.
    pub open spec fn empty() -> SpecViewModel {
        SpecViewModel {
            home: SpecHomeView {
                rows: Seq::empty(),
                selected_workspace: None,
                expanded: Seq::empty(),
                creating: None,
            },
            daemon_context: None,
            active_repo: None,
            copy_checkout: None,
            prefs: ViewPrefs::spec_default(),
            tree: SpecTreeView::empty(),
            progress: explorer::no_progress(),
            diff: None,
            diffs: Seq::empty(),
            threads: Seq::empty(),
            conversation: Seq::empty(),
            requests: Seq::empty(),
            checkpoints: Seq::empty(),
            check_current_ready: false,
            stepper: None,
            focus: Focus::ReviewList { index: 0 },
            tab: Tab::FilesChanged,
            scroll: None,
            mode: Mode::Normal,
            pending_label: None,
            hints: Seq::empty(),
            pending_keys: Seq::empty(),
            leader: Seq::empty(),
            chrome: Seq::empty(),
            bindings: Seq::empty(),
            last_key: None,
            help: None,
            copy_target: None,
            copy_reference: None,
            focused_comment: None,
            connection: SpecConnectionView::Disconnected,
            last_error: None,
            uncertain_mutations: Seq::empty(),
            daemon_management: SpecDaemonManagement::Idle,
            workspaces: Seq::empty(),
            reviews: Seq::empty(),
            open_review: None,
            resolved_targets: Seq::empty(),
            scope: DiffScope::All,
            browse: None,
            content_search: None,
            action_palette: false,
            ref_selector: None,
            visual: None,
            review: None,
            draft: None,
            pending_refresh: false,
        }
    }
}

/// The empty text.
pub fn no_text() -> (r: String)
    ensures
        r@ == Seq::<char>::empty(),
{
    proof {
        reveal_strlit("");
    }
    assert(""@ =~= Seq::<char>::empty());
    "".to_owned()
}

impl Default for ViewModel {
    fn default() -> (r: Self)
        ensures
            r.deep_view() == SpecViewModel::empty(),
    {
        proof {
            reveal(ViewModel::model);
        }
        ViewModel {
            home: HomeView::default(),
            daemon_context: None,
            active_repo: None,
            copy_checkout: None,
            prefs: ViewPrefs::default(),
            tree: TreeView::default(),
            progress: Progress::default(),
            diff: None,
            diffs: data::empty(),
            threads: data::empty(),
            conversation: data::empty(),
            requests: data::empty(),
            checkpoints: data::empty(),
            check_current_ready: false,
            stepper: None,
            focus: Focus::ReviewList { index: 0 },
            tab: Tab::FilesChanged,
            scroll: None,
            mode: Mode::Normal,
            pending_label: None,
            hints: data::empty(),
            pending_keys: no_text(),
            leader: no_text(),
            chrome: data::empty(),
            bindings: data::empty(),
            last_key: None,
            help: None,
            copy_target: None,
            copy_reference: None,
            focused_comment: None,
            connection: ConnectionView::Disconnected,
            last_error: None,
            uncertain_mutations: data::empty(),
            daemon_management: DaemonManagement::Idle,
            workspaces: data::empty(),
            reviews: data::empty(),
            open_review: None,
            resolved_targets: data::empty(),
            scope: DiffScope::All,
            browse: None,
            content_search: None,
            action_palette: false,
            ref_selector: None,
            visual: None,
            review: None,
            draft: None,
            pending_refresh: false,
        }
    }
}

} // verus!
