//! The client state machine: the host feeds it every input and acts on the
//! effects it returns. It never touches a socket, a disk or a clock.
use vstd::prelude::*;

use crate::browse::{Browse, BrowseAttempt, SpecBrowse, SpecBrowseAttempt};
use crate::cache::{CacheValue, SpecCacheValue};
use crate::command::{Command, Context};
use crate::content::{CacheConfig, Content, SpecCacheConfig, SpecContent};
use crate::creation::{
    CreationEdit, CreationReconcile, CreationResume, CreationTargetId, ReviewCreation,
    SpecCreationEdit, SpecReviewCreation,
};
use crate::data;
use crate::data::Value;
use crate::diff::{CommitStepper, FileRef, SpecCommitStepper, SpecFileRef};
use crate::events::MutationError;
use crate::explorer::{ExplorerState, SpecExplorerState};
use crate::flow::{Flow, Key, SpecFlow, SpecKey, SpecWire};
use crate::focus::{Focus, NoTarget, Realign, SpecRealign, VisualAnchor};
use crate::home::{DaemonContext, SpecDaemonContext};
use crate::keymap::{KeyChord, Keymap, KeysConfig, SpecKeymap, SpecKeysConfig};
use crate::lifecycle::{
    ManagementReply, ManagementRequest, ManagementRequestId, Recovery, SpecManagementReply,
    SpecRecovery, SpecUpgradeOperation, UpgradeOperation,
};
use crate::protocol::{
    Anchor, Author, BuildInfo, ClientId, ClientSeq, CommentId, CommitOid, Event, EventBody,
    EventSeq, ExpandDir, Gap, Mutation, ReferenceContext, RefSpec, RepoId, RepoPath, RequestId,
    ReviewId, ReviewReference, ReviewSnapshot, ReviewTarget, RpcError, ServerMsg, Side, SpecAnchor,
    SpecAuthor, SpecBuildInfo, SpecEvent, SpecEventBody, SpecMutation, SpecReferenceContext,
    SpecRefSpec, SpecRepoPath, SpecReviewReference, SpecReviewSnapshot, SpecReviewTarget,
    SpecRpcError, SpecServerMsg, ThreadId, Timestamp, ViewSection, WorkspaceId,
};
use crate::ref_selector::{RefSelector, RefSelectorPurpose, SpecRefSelector};
use crate::suggestion::{SpecSuggestionState, SuggestionState};
use crate::view::{
    Landing, LastKey, Layout, OpenReview, ScrollAlign, SpecOpenReview, SpecViewModel, Tab,
    ViewModel, ViewPrefs,
};

verus! {

/// Where the connection is, and the last event seen over it.
#[derive(Debug, Clone, Copy, PartialEq, Eq, Structural)]
pub enum Connection {
    Disconnected { last_seq: Option<EventSeq> },
    Connecting { hello_sent: bool, last_seq: Option<EventSeq> },
    Subscribed { last_seq: EventSeq },
}

impl DeepView for Connection {
    type V = Connection;

    open spec fn deep_view(&self) -> Connection {
        *self
    }
}

impl Value for Connection {
    fn dup(&self) -> (r: Self) {
        *self
    }

    fn same(&self, other: &Self) -> (b: bool) {
        *self == *other
    }
}

#[derive(Debug, Clone, Copy, PartialEq, Eq, Structural)]
pub enum ConnectionKind {
    Disconnected,
    Connecting,
    Subscribed,
}

impl DeepView for ConnectionKind {
    type V = ConnectionKind;

    open spec fn deep_view(&self) -> ConnectionKind {
        *self
    }
}

impl Value for ConnectionKind {
    fn dup(&self) -> (r: Self) {
        *self
    }

    fn same(&self, other: &Self) -> (b: bool) {
        *self == *other
    }
}

/// What the transport layer observed.
#[derive(Debug, Clone, Copy, PartialEq, Eq, Structural)]
pub enum TransportEvent {
    /// The connection the core asked for is up.
    Connected,
    /// The connection dropped, or the dial failed.
    Disconnected,
}

impl DeepView for TransportEvent {
    type V = TransportEvent;

    open spec fn deep_view(&self) -> TransportEvent {
        *self
    }
}

impl Value for TransportEvent {
    fn dup(&self) -> (r: Self) {
        *self
    }

    fn same(&self, other: &Self) -> (b: bool) {
        *self == *other
    }
}

/// Which search supplies the result being activated.
#[derive(Debug, Clone, Copy, PartialEq, Eq, Structural)]
pub enum SearchKind {
    Files,
    Content,
}

impl DeepView for SearchKind {
    type V = SearchKind;

    open spec fn deep_view(&self) -> SearchKind {
        *self
    }
}

impl Value for SearchKind {
    fn dup(&self) -> (r: Self) {
        *self
    }

    fn same(&self, other: &Self) -> (b: bool) {
        *self == *other
    }
}

/// What the user asked the scope to become. `ByCommit` enters commit
/// stepping, fetching the commit list first when needed.
#[derive(Debug, Clone, Copy, PartialEq, Eq, Structural)]
pub enum ScopeChoice {
    All,
    Committed,
    ByCommit,
    Commit { repo_id: RepoId, oid: CommitOid },
    Worktree { repo_id: RepoId },
}

impl DeepView for ScopeChoice {
    type V = ScopeChoice;

    open spec fn deep_view(&self) -> ScopeChoice {
        *self
    }
}

impl Value for ScopeChoice {
    fn dup(&self) -> (r: Self) {
        *self
    }

    fn same(&self, other: &Self) -> (b: bool) {
        *self == *other
    }
}

/// A user intent. Ids of things that come to be are minted by the host.
#[derive(Debug, PartialEq, Eq)]
pub enum Action {
    Connect,
    Disconnect,
    /// Refresh the workspace list and, on its answer, every review list.
    ListWorkspaces,
    ListReviews { workspace_id: WorkspaceId },
    /// Create a review. Not optimistic: the event adds it to the list.
    CreateReview { review_id: ReviewId, workspace_id: WorkspaceId, title: String, targets: Vec<ReviewTarget> },
    OpenReview { review_id: ReviewId },
    CloseReview,
    /// Start a review-level note without a lifecycle.
    InformationalNoteOpened,
    /// The user started writing a finding at `anchor`.
    DraftOpened { anchor: Anchor },
    DraftSubmitted { comment_id: CommentId, body: String },
    DraftDiscarded,
    /// The user started writing a reply.
    ReplyOpened { thread_id: ThreadId },
    SetFocus { focus: Focus },
    ToggleHelp,
    Reply { thread_id: ThreadId, comment_id: CommentId, body: String },
    EditComment { comment_id: CommentId, body: String },
    DeleteComment { comment_id: CommentId },
    ResolveThread { thread_id: ThreadId },
    UnresolveThread { thread_id: ThreadId },
    /// Look at a suggestion against the working tree, without writing.
    PreviewSuggestion { comment_id: CommentId },
    /// Write a suggestion's patch to the working tree. Not optimistic.
    ApplySuggestion { comment_id: CommentId },
    /// The host shows rows `first_row..=last_row` of `file`.
    Viewport { file: FileRef, first_row: u32, last_row: u32 },
    /// Open `file` around `row` and focus that half of it.
    OpenFileAt { file: FileRef, row: u32, side: Side, landing: Landing },
    CloseFile,
    /// Expand or collapse a directory (`None` is the repository root).
    ToggleDir { repo_id: RepoId, path: Option<RepoPath> },
    /// Open (`Some`) or close (`None`) the fuzzy file search.
    FileSearch { query: Option<String> },
    SetLayout { layout: Layout },
    /// Open a comment draft on a line range of `file`.
    CommentLines { file: FileRef, side: Side, start_line: u32, end_line: u32 },
    /// Open a comment draft on the whole file.
    CommentFile { file: FileRef },
    SetTab { tab: Tab },
    /// The focused file's path was copied; the clipboard is the shell's.
    CopyPath { path: RepoPath },
    /// Reposition the view around the focused row.
    ScrollView { align: ScrollAlign },
    /// Hide or show the sidebar.
    ToggleSidebar,
    /// Fold or unfold one file of the stacked diff.
    ToggleFileCollapse { file: FileRef },
    /// Collapse the focused node's directory; the focus moves to it.
    CollapseParent,
    /// Collapse every directory.
    CollapseAll,
    /// Change the render options; every render is fetched again.
    SetRenderOpts { ignore_whitespace: bool, context_lines: u32 },
    MarkViewed { file: FileRef },
    UnmarkViewed { file: FileRef },
    /// Fetch the commits of one repository for the stepper.
    ListCommits { repo_id: RepoId },
    /// Step the by-commit diff; `None` is the working-tree step.
    StepCommit { selected: Option<usize> },
    SetScope { scope: ScopeChoice },
    /// Open the diff a comment was made on.
    OpenOriginalDiff { thread_id: ThreadId },
    /// Reveal a step more of one hidden run, in one direction.
    ExpandGap { file: FileRef, gap: Gap, dir: ExpandDir },
    /// Widen the whole file's context.
    ExpandContext { file: FileRef, full: bool },
    /// Browse a repository at a revision; `None` returns to the head trees.
    SetBrowseRef { repo_id: RepoId, ref_spec: Option<RefSpec> },
    /// Open, re-query or (`None`) close the content search.
    ContentSearch { query: Option<String>, all_files: bool },
    /// Open or close the actions palette.
    ActionPalette { open: bool },
    /// Enter line selection at the focused row.
    EnterVisual,
    LeaveVisual,
    /// Enter a search's result list at its first result.
    SearchFirst { search: SearchKind },
    SearchStep { search: SearchKind, delta: i32 },
    /// Open the selected result, if `query` is still what it answers.
    OpenSearchResult { search: SearchKind, query: String },
    OpenRefSelector { repo_id: RepoId, purpose: RefSelectorPurpose },
    RefSelectorQuery { query: String },
    RefSelectorStep { delta: i32 },
    SelectRef { index: usize },
    /// Select the highlighted option.
    SelectCurrentRef,
    CloseRefSelector,
    /// Open what a portable reference points at.
    OpenReference { reference: ReferenceText },
    /// Open the review creation form.
    StartCreation { workspace_id: WorkspaceId, review_id: ReviewId },
    EditCreation { review_id: ReviewId, edit: CreationEdit },
    SelectCreationTarget { review_id: ReviewId, target_id: CreationTargetId },
    AddCreationTarget { review_id: ReviewId },
    RemoveCreationTarget { review_id: ReviewId },
    SubmitCreation { review_id: ReviewId },
    ReconcileCreation { review_id: ReviewId, next: CreationReconcile },
    RestoreCreation { creation: ReviewCreation, resume: CreationResume },
    ManageDaemon { request: ManagementRequest },
}

/// Model of [`Action`].
#[verifier::ext_equal]
pub enum SpecAction {
    Connect,
    Disconnect,
    ListWorkspaces,
    ListReviews { workspace_id: WorkspaceId },
    CreateReview { review_id: ReviewId, workspace_id: WorkspaceId, title: Seq<char>, targets: Seq<SpecReviewTarget> },
    OpenReview { review_id: ReviewId },
    CloseReview,
    InformationalNoteOpened,
    DraftOpened { anchor: SpecAnchor },
    DraftSubmitted { comment_id: CommentId, body: Seq<char> },
    DraftDiscarded,
    ReplyOpened { thread_id: ThreadId },
    SetFocus { focus: Focus },
    ToggleHelp,
    Reply { thread_id: ThreadId, comment_id: CommentId, body: Seq<char> },
    EditComment { comment_id: CommentId, body: Seq<char> },
    DeleteComment { comment_id: CommentId },
    ResolveThread { thread_id: ThreadId },
    UnresolveThread { thread_id: ThreadId },
    PreviewSuggestion { comment_id: CommentId },
    ApplySuggestion { comment_id: CommentId },
    Viewport { file: SpecFileRef, first_row: u32, last_row: u32 },
    OpenFileAt { file: SpecFileRef, row: u32, side: Side, landing: Landing },
    CloseFile,
    ToggleDir { repo_id: RepoId, path: Option<SpecRepoPath> },
    FileSearch { query: Option<Seq<char>> },
    SetLayout { layout: Layout },
    CommentLines { file: SpecFileRef, side: Side, start_line: u32, end_line: u32 },
    CommentFile { file: SpecFileRef },
    SetTab { tab: Tab },
    CopyPath { path: SpecRepoPath },
    ScrollView { align: ScrollAlign },
    ToggleSidebar,
    ToggleFileCollapse { file: SpecFileRef },
    CollapseParent,
    CollapseAll,
    SetRenderOpts { ignore_whitespace: bool, context_lines: u32 },
    MarkViewed { file: SpecFileRef },
    UnmarkViewed { file: SpecFileRef },
    ListCommits { repo_id: RepoId },
    StepCommit { selected: Option<usize> },
    SetScope { scope: ScopeChoice },
    OpenOriginalDiff { thread_id: ThreadId },
    ExpandGap { file: SpecFileRef, gap: Gap, dir: ExpandDir },
    ExpandContext { file: SpecFileRef, full: bool },
    SetBrowseRef { repo_id: RepoId, ref_spec: Option<SpecRefSpec> },
    ContentSearch { query: Option<Seq<char>>, all_files: bool },
    ActionPalette { open: bool },
    EnterVisual,
    LeaveVisual,
    SearchFirst { search: SearchKind },
    SearchStep { search: SearchKind, delta: i32 },
    OpenSearchResult { search: SearchKind, query: Seq<char> },
    OpenRefSelector { repo_id: RepoId, purpose: RefSelectorPurpose },
    RefSelectorQuery { query: Seq<char> },
    RefSelectorStep { delta: i32 },
    SelectRef { index: usize },
    SelectCurrentRef,
    CloseRefSelector,
    OpenReference { reference: SpecReferenceText },
    StartCreation { workspace_id: WorkspaceId, review_id: ReviewId },
    EditCreation { review_id: ReviewId, edit: SpecCreationEdit },
    SelectCreationTarget { review_id: ReviewId, target_id: CreationTargetId },
    AddCreationTarget { review_id: ReviewId },
    RemoveCreationTarget { review_id: ReviewId },
    SubmitCreation { review_id: ReviewId },
    ReconcileCreation { review_id: ReviewId, next: CreationReconcile },
    RestoreCreation { creation: SpecReviewCreation, resume: CreationResume },
    ManageDaemon { request: ManagementRequest },
}

impl DeepView for Action {
    type V = SpecAction;

    open spec fn deep_view(&self) -> SpecAction {
        match self {
            Action::Connect => SpecAction::Connect,
            Action::Disconnect => SpecAction::Disconnect,
            Action::ListWorkspaces => SpecAction::ListWorkspaces,
            Action::ListReviews { workspace_id } => SpecAction::ListReviews {
                workspace_id: *workspace_id,
            },
            Action::CreateReview { review_id, workspace_id, title, targets } => SpecAction::CreateReview {
                review_id: *review_id,
                workspace_id: *workspace_id,
                title: title.deep_view(),
                targets: targets.deep_view(),
            },
            Action::OpenReview { review_id } => SpecAction::OpenReview {
                review_id: *review_id,
            },
            Action::CloseReview => SpecAction::CloseReview,
            Action::InformationalNoteOpened => SpecAction::InformationalNoteOpened,
            Action::DraftOpened { anchor } => SpecAction::DraftOpened {
                anchor: anchor.deep_view(),
            },
            Action::DraftSubmitted { comment_id, body } => SpecAction::DraftSubmitted {
                comment_id: *comment_id,
                body: body.deep_view(),
            },
            Action::DraftDiscarded => SpecAction::DraftDiscarded,
            Action::ReplyOpened { thread_id } => SpecAction::ReplyOpened {
                thread_id: *thread_id,
            },
            Action::SetFocus { focus } => SpecAction::SetFocus {
                focus: *focus,
            },
            Action::ToggleHelp => SpecAction::ToggleHelp,
            Action::Reply { thread_id, comment_id, body } => SpecAction::Reply {
                thread_id: *thread_id,
                comment_id: *comment_id,
                body: body.deep_view(),
            },
            Action::EditComment { comment_id, body } => SpecAction::EditComment {
                comment_id: *comment_id,
                body: body.deep_view(),
            },
            Action::DeleteComment { comment_id } => SpecAction::DeleteComment {
                comment_id: *comment_id,
            },
            Action::ResolveThread { thread_id } => SpecAction::ResolveThread {
                thread_id: *thread_id,
            },
            Action::UnresolveThread { thread_id } => SpecAction::UnresolveThread {
                thread_id: *thread_id,
            },
            Action::PreviewSuggestion { comment_id } => SpecAction::PreviewSuggestion {
                comment_id: *comment_id,
            },
            Action::ApplySuggestion { comment_id } => SpecAction::ApplySuggestion {
                comment_id: *comment_id,
            },
            Action::Viewport { file, first_row, last_row } => SpecAction::Viewport {
                file: file.deep_view(),
                first_row: *first_row,
                last_row: *last_row,
            },
            Action::OpenFileAt { file, row, side, landing } => SpecAction::OpenFileAt {
                file: file.deep_view(),
                row: *row,
                side: *side,
                landing: *landing,
            },
            Action::CloseFile => SpecAction::CloseFile,
            Action::ToggleDir { repo_id, path } => SpecAction::ToggleDir {
                repo_id: *repo_id,
                path: path.deep_view(),
            },
            Action::FileSearch { query } => SpecAction::FileSearch {
                query: query.deep_view(),
            },
            Action::SetLayout { layout } => SpecAction::SetLayout {
                layout: *layout,
            },
            Action::CommentLines { file, side, start_line, end_line } => SpecAction::CommentLines {
                file: file.deep_view(),
                side: *side,
                start_line: *start_line,
                end_line: *end_line,
            },
            Action::CommentFile { file } => SpecAction::CommentFile {
                file: file.deep_view(),
            },
            Action::SetTab { tab } => SpecAction::SetTab {
                tab: *tab,
            },
            Action::CopyPath { path } => SpecAction::CopyPath {
                path: path.deep_view(),
            },
            Action::ScrollView { align } => SpecAction::ScrollView {
                align: *align,
            },
            Action::ToggleSidebar => SpecAction::ToggleSidebar,
            Action::ToggleFileCollapse { file } => SpecAction::ToggleFileCollapse {
                file: file.deep_view(),
            },
            Action::CollapseParent => SpecAction::CollapseParent,
            Action::CollapseAll => SpecAction::CollapseAll,
            Action::SetRenderOpts { ignore_whitespace, context_lines } => SpecAction::SetRenderOpts {
                ignore_whitespace: *ignore_whitespace,
                context_lines: *context_lines,
            },
            Action::MarkViewed { file } => SpecAction::MarkViewed {
                file: file.deep_view(),
            },
            Action::UnmarkViewed { file } => SpecAction::UnmarkViewed {
                file: file.deep_view(),
            },
            Action::ListCommits { repo_id } => SpecAction::ListCommits {
                repo_id: *repo_id,
            },
            Action::StepCommit { selected } => SpecAction::StepCommit {
                selected: *selected,
            },
            Action::SetScope { scope } => SpecAction::SetScope {
                scope: *scope,
            },
            Action::OpenOriginalDiff { thread_id } => SpecAction::OpenOriginalDiff {
                thread_id: *thread_id,
            },
            Action::ExpandGap { file, gap, dir } => SpecAction::ExpandGap {
                file: file.deep_view(),
                gap: *gap,
                dir: *dir,
            },
            Action::ExpandContext { file, full } => SpecAction::ExpandContext {
                file: file.deep_view(),
                full: *full,
            },
            Action::SetBrowseRef { repo_id, ref_spec } => SpecAction::SetBrowseRef {
                repo_id: *repo_id,
                ref_spec: ref_spec.deep_view(),
            },
            Action::ContentSearch { query, all_files } => SpecAction::ContentSearch {
                query: query.deep_view(),
                all_files: *all_files,
            },
            Action::ActionPalette { open } => SpecAction::ActionPalette {
                open: *open,
            },
            Action::EnterVisual => SpecAction::EnterVisual,
            Action::LeaveVisual => SpecAction::LeaveVisual,
            Action::SearchFirst { search } => SpecAction::SearchFirst {
                search: *search,
            },
            Action::SearchStep { search, delta } => SpecAction::SearchStep {
                search: *search,
                delta: *delta,
            },
            Action::OpenSearchResult { search, query } => SpecAction::OpenSearchResult {
                search: *search,
                query: query.deep_view(),
            },
            Action::OpenRefSelector { repo_id, purpose } => SpecAction::OpenRefSelector {
                repo_id: *repo_id,
                purpose: *purpose,
            },
            Action::RefSelectorQuery { query } => SpecAction::RefSelectorQuery {
                query: query.deep_view(),
            },
            Action::RefSelectorStep { delta } => SpecAction::RefSelectorStep {
                delta: *delta,
            },
            Action::SelectRef { index } => SpecAction::SelectRef {
                index: *index,
            },
            Action::SelectCurrentRef => SpecAction::SelectCurrentRef,
            Action::CloseRefSelector => SpecAction::CloseRefSelector,
            Action::OpenReference { reference } => SpecAction::OpenReference {
                reference: reference.deep_view(),
            },
            Action::StartCreation { workspace_id, review_id } => SpecAction::StartCreation {
                workspace_id: *workspace_id,
                review_id: *review_id,
            },
            Action::EditCreation { review_id, edit } => SpecAction::EditCreation {
                review_id: *review_id,
                edit: edit.deep_view(),
            },
            Action::SelectCreationTarget { review_id, target_id } => SpecAction::SelectCreationTarget {
                review_id: *review_id,
                target_id: *target_id,
            },
            Action::AddCreationTarget { review_id } => SpecAction::AddCreationTarget {
                review_id: *review_id,
            },
            Action::RemoveCreationTarget { review_id } => SpecAction::RemoveCreationTarget {
                review_id: *review_id,
            },
            Action::SubmitCreation { review_id } => SpecAction::SubmitCreation {
                review_id: *review_id,
            },
            Action::ReconcileCreation { review_id, next } => SpecAction::ReconcileCreation {
                review_id: *review_id,
                next: *next,
            },
            Action::RestoreCreation { creation, resume } => SpecAction::RestoreCreation {
                creation: creation.deep_view(),
                resume: *resume,
            },
            Action::ManageDaemon { request } => SpecAction::ManageDaemon {
                request: *request,
            },
        }
    }
}

/// What a command means where the focus is, as the host resolved it.
#[derive(Debug, PartialEq, Eq)]
pub enum Resolved {
    Action { action: Action },
    Nowhere { reason: NoTarget },
}

/// Model of [`Resolved`].
#[verifier::ext_equal]
pub enum SpecResolved {
    Action { action: SpecAction },
    Nowhere { reason: NoTarget },
}

impl DeepView for Resolved {
    type V = SpecResolved;

    open spec fn deep_view(&self) -> SpecResolved {
        match self {
            Resolved::Action { action } => SpecResolved::Action {
                action: action.deep_view(),
            },
            Resolved::Nowhere { reason } => SpecResolved::Nowhere {
                reason: *reason,
            },
        }
    }
}

/// What the host's store holds under a key.
#[derive(Debug, PartialEq, Eq)]
pub enum Stored {
    /// Nothing.
    Absent,
    /// Something that cannot be read.
    Unreadable,
    Prefs { prefs: ViewPrefs },
    Keys { config: KeysConfig },
    /// A value, the bytes it was read from, and those it takes when it is
    /// encoded again: the disk counts the former, memory the latter.
    Content { value: CacheValue, stored: u64, len: u64 },
}

/// Model of [`Stored`].
#[verifier::ext_equal]
pub enum SpecStored {
    Absent,
    Unreadable,
    Prefs { prefs: ViewPrefs },
    Keys { config: SpecKeysConfig },
    Content { value: SpecCacheValue, stored: u64, len: u64 },
}

impl DeepView for Stored {
    type V = SpecStored;

    open spec fn deep_view(&self) -> SpecStored {
        match self {
            Stored::Absent => SpecStored::Absent,
            Stored::Unreadable => SpecStored::Unreadable,
            Stored::Prefs { prefs } => SpecStored::Prefs {
                prefs: *prefs,
            },
            Stored::Keys { config } => SpecStored::Keys {
                config: config.deep_view(),
            },
            Stored::Content { value, stored, len } => SpecStored::Content {
                value: value.deep_view(),
                stored: *stored,
                len: *len,
            },
        }
    }
}

/// Something the host tells the core.
#[derive(Debug, PartialEq, Eq)]
pub enum Input {
    User(Action),
    Server(ServerMsg),
    Transport(TransportEvent),
    /// Answer to a load.
    Stored { key: Key, value: Stored },
    /// The host's clock, in milliseconds.
    Tick(u64),
    /// A key press, and what the command it completes would do.
    Key { chord: KeyChord, target: Resolved },
    /// A command by name, and what it would do.
    Run { command: Command, target: Resolved },
    /// The daemon announced its replacement.
    RestartNotice { operation: UpgradeOperation },
    /// The reply to a management request.
    Managed { id: ManagementRequestId, reply: ManagementReply },
}

/// Model of [`Input`].
#[verifier::ext_equal]
pub enum SpecInput {
    User(SpecAction),
    Server(SpecServerMsg),
    Transport(TransportEvent),
    Stored { key: SpecKey, value: SpecStored },
    Tick(u64),
    Key { chord: KeyChord, target: SpecResolved },
    Run { command: Command, target: SpecResolved },
    RestartNotice { operation: SpecUpgradeOperation },
    Managed { id: ManagementRequestId, reply: SpecManagementReply },
}

impl DeepView for Input {
    type V = SpecInput;

    open spec fn deep_view(&self) -> SpecInput {
        match self {
            Input::User(a) => SpecInput::User(a.deep_view()),
            Input::Server(a) => SpecInput::Server(a.deep_view()),
            Input::Transport(a) => SpecInput::Transport(*a),
            Input::Stored { key, value } => SpecInput::Stored {
                key: key.deep_view(),
                value: value.deep_view(),
            },
            Input::Tick(a) => SpecInput::Tick(*a),
            Input::Key { chord, target } => SpecInput::Key {
                chord: *chord,
                target: target.deep_view(),
            },
            Input::Run { command, target } => SpecInput::Run {
                command: *command,
                target: target.deep_view(),
            },
            Input::RestartNotice { operation } => SpecInput::RestartNotice {
                operation: operation.deep_view(),
            },
            Input::Managed { id, reply } => SpecInput::Managed {
                id: *id,
                reply: reply.deep_view(),
            },
        }
    }
}

#[derive(Debug, Clone, Copy, PartialEq, Eq, Structural)]
pub enum InputKind {
    User,
    Server,
    Transport,
    Stored,
    Tick,
    Key,
}

impl DeepView for InputKind {
    type V = InputKind;

    open spec fn deep_view(&self) -> InputKind {
        *self
    }
}

impl Value for InputKind {
    fn dup(&self) -> (r: Self) {
        *self
    }

    fn same(&self, other: &Self) -> (b: bool) {
        *self == *other
    }
}

/// Why an input was rejected.
#[derive(Debug, PartialEq, Eq)]
pub enum CoreError {
    WrongConnectionState { input: InputKind, state: ConnectionKind },
    UnknownRequest(RequestId),
    UnexpectedResponse { id: RequestId, expected: String, got: String },
    NoOpenReview,
    UnknownFile(FileRef),
    NoOpenFile,
    DraftAlreadyOpen,
    NoDraft,
    /// The daemon would reject the mutation; nothing was sent.
    Mutation(MutationError),
    /// Only humans mark files viewed.
    NotHuman,
    NoStepper,
    UnknownRepo(RepoId),
    NoRefSelector,
    NoSelectedRef,
    UnknownThread(ThreadId),
    NoOriginalDiff(ThreadId),
    FocusOutOfRange(Focus),
    UnboundKey(String),
    NoTarget(NoTarget),
    CommitOutOfRange(usize),
    UnknownKey(Key),
    Rejected(RpcError),
    StaleEvent { seq: EventSeq, last_seq: EventSeq },
    SuggestionNotReady(CommentId),
}

/// Model of [`CoreError`].
#[verifier::ext_equal]
pub enum SpecCoreError {
    WrongConnectionState { input: InputKind, state: ConnectionKind },
    UnknownRequest(RequestId),
    UnexpectedResponse { id: RequestId, expected: Seq<char>, got: Seq<char> },
    NoOpenReview,
    UnknownFile(SpecFileRef),
    NoOpenFile,
    DraftAlreadyOpen,
    NoDraft,
    Mutation(MutationError),
    NotHuman,
    NoStepper,
    UnknownRepo(RepoId),
    NoRefSelector,
    NoSelectedRef,
    UnknownThread(ThreadId),
    NoOriginalDiff(ThreadId),
    FocusOutOfRange(Focus),
    UnboundKey(Seq<char>),
    NoTarget(NoTarget),
    CommitOutOfRange(usize),
    UnknownKey(SpecKey),
    Rejected(SpecRpcError),
    StaleEvent { seq: EventSeq, last_seq: EventSeq },
    SuggestionNotReady(CommentId),
}

impl DeepView for CoreError {
    type V = SpecCoreError;

    open spec fn deep_view(&self) -> SpecCoreError {
        match self {
            CoreError::WrongConnectionState { input, state } => SpecCoreError::WrongConnectionState {
                input: *input,
                state: *state,
            },
            CoreError::UnknownRequest(a) => SpecCoreError::UnknownRequest(*a),
            CoreError::UnexpectedResponse { id, expected, got } => SpecCoreError::UnexpectedResponse {
                id: *id,
                expected: expected.deep_view(),
                got: got.deep_view(),
            },
            CoreError::NoOpenReview => SpecCoreError::NoOpenReview,
            CoreError::UnknownFile(a) => SpecCoreError::UnknownFile(a.deep_view()),
            CoreError::NoOpenFile => SpecCoreError::NoOpenFile,
            CoreError::DraftAlreadyOpen => SpecCoreError::DraftAlreadyOpen,
            CoreError::NoDraft => SpecCoreError::NoDraft,
            CoreError::Mutation(a) => SpecCoreError::Mutation(*a),
            CoreError::NotHuman => SpecCoreError::NotHuman,
            CoreError::NoStepper => SpecCoreError::NoStepper,
            CoreError::UnknownRepo(a) => SpecCoreError::UnknownRepo(*a),
            CoreError::NoRefSelector => SpecCoreError::NoRefSelector,
            CoreError::NoSelectedRef => SpecCoreError::NoSelectedRef,
            CoreError::UnknownThread(a) => SpecCoreError::UnknownThread(*a),
            CoreError::NoOriginalDiff(a) => SpecCoreError::NoOriginalDiff(*a),
            CoreError::FocusOutOfRange(a) => SpecCoreError::FocusOutOfRange(*a),
            CoreError::UnboundKey(a) => SpecCoreError::UnboundKey(a.deep_view()),
            CoreError::NoTarget(a) => SpecCoreError::NoTarget(*a),
            CoreError::CommitOutOfRange(a) => SpecCoreError::CommitOutOfRange(*a),
            CoreError::UnknownKey(a) => SpecCoreError::UnknownKey(a.deep_view()),
            CoreError::Rejected(a) => SpecCoreError::Rejected(a.deep_view()),
            CoreError::StaleEvent { seq, last_seq } => SpecCoreError::StaleEvent {
                seq: *seq,
                last_seq: *last_seq,
            },
            CoreError::SuggestionNotReady(a) => SpecCoreError::SuggestionNotReady(*a),
        }
    }
}

/// Fixed for the life of a core.
#[derive(Debug, PartialEq, Eq)]
pub struct Config {
    pub client_id: ClientId,
    pub client: BuildInfo,
    pub author: Author,
    pub cache: CacheConfig,
    /// The daemon, as the host knows it.
    pub daemon_context: Option<DaemonContext>,
    /// What references made here are relative to.
    pub reference_context: Option<ReferenceContext>,
}

/// Model of [`Config`].
#[verifier::ext_equal]
pub struct SpecConfig {
    pub client_id: ClientId,
    pub client: SpecBuildInfo,
    pub author: SpecAuthor,
    pub cache: SpecCacheConfig,
    pub daemon_context: Option<SpecDaemonContext>,
    pub reference_context: Option<SpecReferenceContext>,
}

impl DeepView for Config {
    type V = SpecConfig;

    open spec fn deep_view(&self) -> SpecConfig {
        SpecConfig {
            client_id: self.client_id,
            client: self.client.deep_view(),
            author: self.author.deep_view(),
            cache: self.cache.deep_view(),
            daemon_context: self.daemon_context.deep_view(),
            reference_context: self.reference_context.deep_view(),
        }
    }
}

/// A mutation applied locally and awaiting the daemon's echo.
#[derive(Debug, PartialEq, Eq)]
pub struct Pending {
    pub client_seq: ClientSeq,
    /// When it was applied locally.
    pub ts: Timestamp,
    pub mutation: Mutation,
    pub body: EventBody,
    /// `false` after a disconnect until it is sent again.
    pub sent: bool,
}

/// Model of [`Pending`].
#[verifier::ext_equal]
pub struct SpecPending {
    pub client_seq: ClientSeq,
    pub ts: Timestamp,
    pub mutation: SpecMutation,
    pub body: SpecEventBody,
    pub sent: bool,
}

impl DeepView for Pending {
    type V = SpecPending;

    open spec fn deep_view(&self) -> SpecPending {
        SpecPending {
            client_seq: self.client_seq,
            ts: self.ts,
            mutation: self.mutation.deep_view(),
            body: self.body.deep_view(),
            sent: self.sent,
        }
    }
}

impl Value for Pending {
    fn dup(&self) -> (r: Self) {
        Pending {
            client_seq: self.client_seq,
            ts: self.ts,
            mutation: self.mutation.dup(),
            body: self.body.dup(),
            sent: self.sent,
        }
    }

    fn same(&self, other: &Self) -> (b: bool) {
        self.client_seq == other.client_seq
            && self.ts == other.ts
            && self.mutation.same(&other.mutation)
            && self.body.same(&other.body)
            && self.sent == other.sent
    }
}

/// Keys and what is modal.
#[derive(Debug, PartialEq, Eq)]
pub struct Keys {
    pub keymap: Keymap,
    /// Chords of a sequence in progress, and when the last of them came.
    pub chords: Vec<KeyChord>,
    pub last_chord: u64,
    /// Context the open help describes.
    pub help_context: Option<Context>,
    /// Focus to return to when a modal panel closes.
    pub focus_return: Option<Focus>,
    /// Where the line selection started, while it is on.
    pub visual_anchor: Option<VisualAnchor>,
    /// Keys acted on, counted.
    pub keys_handled: u64,
    pub last_key: Option<LastKey>,
}

/// Model of [`Keys`].
#[verifier::ext_equal]
pub struct SpecKeys {
    pub keymap: SpecKeymap,
    pub chords: Seq<KeyChord>,
    pub last_chord: u64,
    pub help_context: Option<Context>,
    pub focus_return: Option<Focus>,
    pub visual_anchor: Option<VisualAnchor>,
    pub keys_handled: u64,
    pub last_key: Option<LastKey>,
}

impl DeepView for Keys {
    type V = SpecKeys;

    open spec fn deep_view(&self) -> SpecKeys {
        SpecKeys {
            keymap: self.keymap.deep_view(),
            chords: self.chords.deep_view(),
            last_chord: self.last_chord,
            help_context: self.help_context,
            focus_return: self.focus_return,
            visual_anchor: self.visual_anchor,
            keys_handled: self.keys_handled,
            last_key: self.last_key,
        }
    }
}

/// Whether one file of the stacked diff is folded.
#[derive(Debug, PartialEq, Eq)]
pub struct Folded {
    pub file: FileRef,
    pub folded: bool,
}

/// Model of [`Folded`].
#[verifier::ext_equal]
pub struct SpecFolded {
    pub file: SpecFileRef,
    pub folded: bool,
}

impl DeepView for Folded {
    type V = SpecFolded;

    open spec fn deep_view(&self) -> SpecFolded {
        SpecFolded {
            file: self.file.deep_view(),
            folded: self.folded,
        }
    }
}

/// The state of one suggestion.
#[derive(Debug, PartialEq, Eq)]
pub struct SuggestionEntry {
    pub comment_id: CommentId,
    pub state: SuggestionState,
}

/// Model of [`SuggestionEntry`].
#[verifier::ext_equal]
pub struct SpecSuggestionEntry {
    pub comment_id: CommentId,
    pub state: SpecSuggestionState,
}

impl DeepView for SuggestionEntry {
    type V = SpecSuggestionEntry;

    open spec fn deep_view(&self) -> SpecSuggestionEntry {
        SpecSuggestionEntry {
            comment_id: self.comment_id,
            state: self.state.deep_view(),
        }
    }
}

/// A portable reference as the host read it.
#[derive(Debug, PartialEq, Eq)]
pub enum ReferenceText {
    Parsed { reference: ReviewReference },
    Unreadable { message: String },
}

/// Model of [`ReferenceText`].
#[verifier::ext_equal]
pub enum SpecReferenceText {
    Parsed { reference: SpecReviewReference },
    Unreadable { message: Seq<char> },
}

impl DeepView for ReferenceText {
    type V = SpecReferenceText;

    open spec fn deep_view(&self) -> SpecReferenceText {
        match self {
            ReferenceText::Parsed { reference } => SpecReferenceText::Parsed {
                reference: reference.deep_view(),
            },
            ReferenceText::Unreadable { message } => SpecReferenceText::Unreadable {
                message: message.deep_view(),
            },
        }
    }
}

impl Value for ReferenceText {
    fn dup(&self) -> (r: Self) {
        match self {
            ReferenceText::Parsed { reference } => ReferenceText::Parsed {
                reference: reference.dup(),
            },
            ReferenceText::Unreadable { message } => ReferenceText::Unreadable {
                message: message.dup(),
            },
        }
    }

    fn same(&self, other: &Self) -> (b: bool) {
        match (self, other) {
            (ReferenceText::Parsed { reference: a0 }, ReferenceText::Parsed { reference: b0 }) => a0.same(b0),
            (ReferenceText::Unreadable { message: a0 }, ReferenceText::Unreadable { message: b0 }) => a0.same(b0),
            _ => false,
        }
    }
}

/// A reference that waits for its review, and the events seen meanwhile.
#[derive(Debug, PartialEq, Eq)]
pub struct PendingReference {
    pub reference: ReviewReference,
    pub events: Vec<Event>,
}

/// Model of [`PendingReference`].
#[verifier::ext_equal]
pub struct SpecPendingReference {
    pub reference: SpecReviewReference,
    pub events: Seq<SpecEvent>,
}

impl DeepView for PendingReference {
    type V = SpecPendingReference;

    open spec fn deep_view(&self) -> SpecPendingReference {
        SpecPendingReference {
            reference: self.reference.deep_view(),
            events: self.events.deep_view(),
        }
    }
}

/// The client state machine.
#[derive(Debug, PartialEq, Eq)]
pub struct ClientCore {
    pub(crate) config: Config,
    pub(crate) connection: Connection,
    pub(crate) view: ViewModel,
    pub(crate) now: u64,
    pub(crate) flow: Flow,
    /// Resolved targets held back while a draft is open.
    pub(crate) deferred: Vec<Event>,
    /// The open review as the daemon last confirmed it.
    pub(crate) committed: Option<ReviewSnapshot>,
    /// Mutations sent and not yet echoed, in send order.
    pub(crate) pending: Vec<Pending>,
    pub(crate) explorer: ExplorerState,
    pub(crate) stepper: Option<CommitStepper>,
    /// The preferences and the keys configuration were asked for.
    pub(crate) prefs_loaded: bool,
    pub(crate) keys: Keys,
    /// Commit stepping waits for its commit list.
    pub(crate) by_commit_pending: bool,
    /// Files folded or unfolded by hand.
    pub(crate) file_collapse: Vec<Folded>,
    pub(crate) browse: Option<Browse>,
    pub(crate) browse_attempt: Option<BrowseAttempt>,
    pub(crate) browse_repo: Option<RepoId>,
    /// A render that will renumber the rows is waited for.
    pub(crate) realign: Option<Realign>,
    pub(crate) ref_selector: Option<RefSelector>,
    pub(crate) suggestions: Vec<SuggestionEntry>,
    pub(crate) recovery: Recovery,
    pub(crate) next_management: u64,
    pub(crate) management_request: Option<ManagementRequestId>,
    pub(crate) pending_reference: Option<PendingReference>,
}

/// Model of [`ClientCore`].
pub struct SpecClientCore {
    pub config: SpecConfig,
    pub connection: Connection,
    pub view: SpecViewModel,
    pub now: u64,
    pub flow: SpecFlow,
    pub deferred: Seq<SpecEvent>,
    pub committed: Option<SpecReviewSnapshot>,
    pub pending: Seq<SpecPending>,
    pub explorer: SpecExplorerState,
    pub stepper: Option<SpecCommitStepper>,
    pub prefs_loaded: bool,
    pub keys: SpecKeys,
    pub by_commit_pending: bool,
    pub file_collapse: Seq<SpecFolded>,
    pub browse: Option<SpecBrowse>,
    pub browse_attempt: Option<SpecBrowseAttempt>,
    pub browse_repo: Option<RepoId>,
    pub realign: Option<SpecRealign>,
    pub ref_selector: Option<SpecRefSelector>,
    pub suggestions: Seq<SpecSuggestionEntry>,
    pub recovery: SpecRecovery,
    pub next_management: u64,
    pub management_request: Option<ManagementRequestId>,
    pub pending_reference: Option<SpecPendingReference>,
}

impl DeepView for ClientCore {
    type V = SpecClientCore;

    open spec fn deep_view(&self) -> SpecClientCore {
        self.model()
    }
}

impl ClientCore {
    /// What the fields stand for.
    #[verifier::opaque]
    pub open(crate) spec fn model(&self) -> SpecClientCore {
        SpecClientCore {
            config: self.config.deep_view(),
            connection: self.connection,
            view: self.view.deep_view(),
            now: self.now,
            flow: self.flow.deep_view(),
            deferred: self.deferred.deep_view(),
            committed: self.committed.deep_view(),
            pending: self.pending.deep_view(),
            explorer: self.explorer.deep_view(),
            stepper: self.stepper.deep_view(),
            prefs_loaded: self.prefs_loaded,
            keys: self.keys.deep_view(),
            by_commit_pending: self.by_commit_pending,
            file_collapse: self.file_collapse.deep_view(),
            browse: self.browse.deep_view(),
            browse_attempt: self.browse_attempt.deep_view(),
            browse_repo: self.browse_repo,
            realign: self.realign.deep_view(),
            ref_selector: self.ref_selector.deep_view(),
            suggestions: self.suggestions.deep_view(),
            recovery: self.recovery.deep_view(),
            next_management: self.next_management,
            management_request: self.management_request,
            pending_reference: self.pending_reference.deep_view(),
        }
    }
}


/// After this long without a further chord, a pending sequence (`g` of
/// `g g`) is dropped; in milliseconds.
pub const SEQ_TIMEOUT_MS: u64 = 800;

/// Rows a file that is not open contributes to the stacked diff.
pub const STACK_ROWS_CAP: u32 = 600;

/// How much one expansion step adds.
pub const EXPAND_STEP: u32 = 20;

/// As many context lines as to show the whole file.
pub const FULL_CONTEXT: u32 = 1_000_000;

impl Connection {
    pub open spec fn spec_kind(self) -> ConnectionKind {
        match self {
            Connection::Disconnected { .. } => ConnectionKind::Disconnected,
            Connection::Connecting { .. } => ConnectionKind::Connecting,
            Connection::Subscribed { .. } => ConnectionKind::Subscribed,
        }
    }

    pub fn kind(self) -> (r: ConnectionKind)
        ensures
            r == self.spec_kind(),
    {
        match self {
            Connection::Disconnected { .. } => ConnectionKind::Disconnected,
            Connection::Connecting { .. } => ConnectionKind::Connecting,
            Connection::Subscribed { .. } => ConnectionKind::Subscribed,
        }
    }

    pub open spec fn spec_last_seq(self) -> Option<EventSeq> {
        match self {
            Connection::Disconnected { last_seq } => last_seq,
            Connection::Connecting { last_seq, .. } => last_seq,
            Connection::Subscribed { last_seq } => Some(last_seq),
        }
    }

    /// The last event seen.
    pub fn last_seq(self) -> (r: Option<EventSeq>)
        ensures
            r == self.spec_last_seq(),
    {
        match self {
            Connection::Disconnected { last_seq } => last_seq,
            Connection::Connecting { last_seq, .. } => last_seq,
            Connection::Subscribed { last_seq } => Some(last_seq),
        }
    }
}

/// What an operation that can be refused did to the core: it came to what
/// it should, or nothing changed.
pub open spec fn settled(
    before: SpecClientCore,
    after: SpecClientCore,
    r: Result<(), CoreError>,
    goal: Result<SpecClientCore, SpecCoreError>,
) -> bool {
    match r {
        Ok(_) => goal == Ok::<SpecClientCore, SpecCoreError>(after),
        Err(e) => goal == Err::<SpecClientCore, SpecCoreError>(e.deep_view()) && after == before,
    }
}

impl SpecClientCore {
    pub open spec fn new(config: SpecConfig) -> SpecClientCore {
        SpecClientCore {
            config,
            connection: Connection::Disconnected { last_seq: None },
            view: SpecViewModel { daemon_context: config.daemon_context, ..SpecViewModel::empty() },
            now: 0,
            flow: SpecFlow {
                content: SpecContent::new(config.cache),
                wire: SpecWire::new(),
                out: Seq::empty(),
                touched: Seq::empty(),
            },
            deferred: Seq::empty(),
            committed: None,
            pending: Seq::empty(),
            explorer: SpecExplorerState {
                expanded: Seq::empty(),
                collapsed: Seq::empty(),
                search: None,
                search_selected: 0,
            },
            stepper: None,
            prefs_loaded: false,
            keys: SpecKeys {
                keymap: SpecKeymap::default_with(KeyChord::of_named(crate::keymap::NamedKey::Space)),
                chords: Seq::empty(),
                last_chord: 0,
                help_context: None,
                focus_return: None,
                visual_anchor: None,
                keys_handled: 0,
                last_key: None,
            },
            by_commit_pending: false,
            file_collapse: Seq::empty(),
            browse: None,
            browse_attempt: None,
            browse_repo: None,
            realign: None,
            ref_selector: None,
            suggestions: Seq::empty(),
            recovery: SpecRecovery::Idle,
            next_management: 0,
            management_request: None,
            pending_reference: None,
        }
    }

    pub open spec fn with_view(self, view: SpecViewModel) -> SpecClientCore {
        SpecClientCore { view, ..self }
    }

    pub open spec fn with_flow(self, flow: SpecFlow) -> SpecClientCore {
        SpecClientCore { flow, ..self }
    }

    pub open spec fn with_keys(self, keys: SpecKeys) -> SpecClientCore {
        SpecClientCore { keys, ..self }
    }

    /// The open review becomes `open`.
    pub open spec fn with_open(self, open: SpecOpenReview) -> SpecClientCore {
        self.with_view(SpecViewModel { review: Some(open), ..self.view })
    }

    pub open spec fn with_focus(self, focus: Focus) -> SpecClientCore {
        self.with_view(SpecViewModel { focus, ..self.view })
    }

    pub open spec fn touch(self, sections: Seq<ViewSection>) -> SpecClientCore {
        self.with_flow(self.flow.touch(sections))
    }

    pub open spec fn subscribed(self) -> bool {
        self.connection is Subscribed
    }

    pub open spec fn wrong_state(self, input: InputKind) -> SpecCoreError {
        SpecCoreError::WrongConnectionState { input, state: self.connection.spec_kind() }
    }

    /// The id of the open review.
    pub open spec fn open_id(self) -> Option<ReviewId> {
        match self.view.review {
            Some(open) => Some(open.snapshot.review.id),
            None => None,
        }
    }
}

impl ClientCore {
    pub fn new(config: Config) -> (r: Self)
        ensures
            r.deep_view() == SpecClientCore::new(config.deep_view()),
    {
        proof {
            reveal(ClientCore::model);
        }
        let content = Content::new(config.cache.dup());
        let mut view = ViewModel::default();
        view.set_daemon_context(config.daemon_context.dup());
        ClientCore {
            config,
            connection: Connection::Disconnected { last_seq: None },
            view,
            now: 0,
            flow: Flow::new(content),
            deferred: data::empty(),
            committed: None,
            pending: data::empty(),
            explorer: ExplorerState {
                expanded: data::empty(),
                collapsed: data::empty(),
                search: None,
                search_selected: 0,
            },
            stepper: None,
            prefs_loaded: false,
            keys: Keys {
                keymap: Keymap::default_table(),
                chords: data::empty(),
                last_chord: 0,
                help_context: None,
                focus_return: None,
                visual_anchor: None,
                keys_handled: 0,
                last_key: None,
            },
            by_commit_pending: false,
            file_collapse: data::empty(),
            browse: None,
            browse_attempt: None,
            browse_repo: None,
            realign: None,
            ref_selector: None,
            suggestions: data::empty(),
            recovery: Recovery::Idle,
            next_management: 0,
            management_request: None,
            pending_reference: None,
        }
    }

    pub(crate) fn wrong_state(&self, input: InputKind) -> (e: CoreError)
        ensures
            e.deep_view() == self.deep_view().wrong_state(input),
    {
        proof {
            reveal(ClientCore::model);
        }
        CoreError::WrongConnectionState { input, state: self.connection.kind() }
    }

    pub(crate) fn is_subscribed(&self) -> (b: bool)
        ensures
            b == self.deep_view().subscribed(),
    {
        proof {
            reveal(ClientCore::model);
        }
        match self.connection {
            Connection::Subscribed { .. } => true,
            _ => false,
        }
    }

    /// The id of the open review.
    pub(crate) fn open_id(&self) -> (r: Option<ReviewId>)
        ensures
            r == self.deep_view().open_id(),
    {
        proof {
            reveal(ClientCore::model);
        }
        match self.view.review() {
            Some(open) => Some(open.snapshot.review.id),
            None => None,
        }
    }

    pub fn client_id(&self) -> (r: ClientId)
        ensures
            r == self.deep_view().config.client_id,
    {
        proof {
            reveal(ClientCore::model);
        }
        self.config.client_id
    }

    pub fn author(&self) -> (r: &Author)
        ensures
            r.deep_view() == self.deep_view().config.author,
    {
        proof {
            reveal(ClientCore::model);
        }
        &self.config.author
    }

    pub fn keymap(&self) -> (r: &Keymap)
        ensures
            r.deep_view() == self.deep_view().keys.keymap,
    {
        proof {
            reveal(ClientCore::model);
        }
        &self.keys.keymap
    }

    /// Chords of the sequence in progress.
    pub fn pending_chords(&self) -> (r: &Vec<KeyChord>)
        ensures
            r.deep_view() == self.deep_view().keys.chords,
    {
        proof {
            reveal(ClientCore::model);
        }
        &self.keys.chords
    }

    /// Where the line selection started, while it is on.
    pub fn visual_anchor(&self) -> (r: Option<VisualAnchor>)
        ensures
            r == self.deep_view().keys.visual_anchor,
    {
        proof {
            reveal(ClientCore::model);
        }
        self.keys.visual_anchor
    }

    /// Mutations awaiting the daemon.
    pub fn pending_count(&self) -> (r: usize)
        ensures
            r == self.deep_view().pending.len(),
    {
        proof {
            reveal(ClientCore::model);
        }
        self.pending.len()
    }

    pub fn view(&self) -> (r: &ViewModel)
        ensures
            r.deep_view() == self.deep_view().view,
    {
        proof {
            reveal(ClientCore::model);
        }
        &self.view
    }

    pub fn connection(&self) -> (r: &Connection)
        ensures
            *r == self.deep_view().connection,
    {
        proof {
            reveal(ClientCore::model);
        }
        &self.connection
    }
}

} // verus!
