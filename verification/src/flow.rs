//! What goes out: requests to the daemon, values to the host's store, and
//! the sections to render. Every want for content takes one path: memory,
//! then the host's store, then the daemon, at most so many requests at once.
use vstd::prelude::*;

use crate::cache;
use crate::cache::{
    Bytes, CacheKey, CacheValue, Evicted, RenderKey, SpecCacheKey, SpecCacheValue, SpecEvicted,
    SpecRenderKey, TreeKey,
};
use crate::content;
use crate::content::{Content, Fetch, FetchState, SpecContent, SpecFetch, SpecFetchState};
use crate::data;
use crate::data::Value;
use crate::lifecycle::{ManagementRequest, ManagementRequestId};
use crate::protocol::{
    ChunkIndex, ClientMsg, ClientSeq, CommentId, DiffScope, RenderTarget, RepoId, Request,
    RequestId, ReviewId, ReviewRequest, RpcError, SpecClientMsg, SpecRenderTarget, SpecRequest,
    SpecReviewRequest, SpecRpcError, ViewSection, WorkspaceId,
};
use crate::view::{OpenReview, SpecOpenReview, SpecViewDelta, ViewDelta, ViewPrefs};

verus! {

/// Key in the host's store.
#[derive(Debug, PartialEq, Eq)]
pub enum Key {
    /// The preferences.
    Prefs,
    /// The keys configuration.
    Keymap,
    /// A cached value.
    Content { key: CacheKey },
}

/// Model of [`Key`].
#[verifier::ext_equal]
pub enum SpecKey {
    Prefs,
    Keymap,
    Content { key: SpecCacheKey },
}

impl DeepView for Key {
    type V = SpecKey;

    open spec fn deep_view(&self) -> SpecKey {
        match self {
            Key::Prefs => SpecKey::Prefs,
            Key::Keymap => SpecKey::Keymap,
            Key::Content { key } => SpecKey::Content {
                key: key.deep_view(),
            },
        }
    }
}

impl Value for Key {
    fn dup(&self) -> (r: Self) {
        match self {
            Key::Prefs => Key::Prefs,
            Key::Keymap => Key::Keymap,
            Key::Content { key } => Key::Content {
                key: key.dup(),
            },
        }
    }

    fn same(&self, other: &Self) -> (b: bool) {
        match (self, other) {
            (Key::Prefs, Key::Prefs) => true,
            (Key::Keymap, Key::Keymap) => true,
            (Key::Content { key: a0 }, Key::Content { key: b0 }) => a0.same(b0),
            _ => false,
        }
    }
}

/// What the host is asked to store.
#[derive(Debug, PartialEq, Eq)]
pub enum Persisted {
    Prefs { prefs: ViewPrefs },
    Content { value: CacheValue },
}

/// Model of [`Persisted`].
#[verifier::ext_equal]
pub enum SpecPersisted {
    Prefs { prefs: ViewPrefs },
    Content { value: SpecCacheValue },
}

impl DeepView for Persisted {
    type V = SpecPersisted;

    open spec fn deep_view(&self) -> SpecPersisted {
        match self {
            Persisted::Prefs { prefs } => SpecPersisted::Prefs {
                prefs: *prefs,
            },
            Persisted::Content { value } => SpecPersisted::Content {
                value: value.deep_view(),
            },
        }
    }
}

impl Value for Persisted {
    fn dup(&self) -> (r: Self) {
        match self {
            Persisted::Prefs { prefs } => Persisted::Prefs {
                prefs: *prefs,
            },
            Persisted::Content { value } => Persisted::Content {
                value: value.dup(),
            },
        }
    }

    fn same(&self, other: &Self) -> (b: bool) {
        match (self, other) {
            (Persisted::Prefs { prefs: a0 }, Persisted::Prefs { prefs: b0 }) => *a0 == *b0,
            (Persisted::Content { value: a0 }, Persisted::Content { value: b0 }) => a0.same(b0),
            _ => false,
        }
    }
}

/// What the core asks of the host, besides rendering.
#[derive(Debug, PartialEq, Eq)]
pub enum Errand {
    /// Dial the daemon; report the outcome as a transport event.
    Connect,
    /// Close the connection. The host still reports that it went down.
    Disconnect,
    Send(ClientMsg),
    Persist { key: Key, value: Persisted },
    Load { key: Key },
    /// Delete a key from the host's store.
    Remove { key: Key },
    /// Inspect or upgrade the daemon; report the reply under the same id.
    ManageDaemon { id: ManagementRequestId, request: ManagementRequest },
}

/// Model of [`Errand`].
#[verifier::ext_equal]
pub enum SpecErrand {
    Connect,
    Disconnect,
    Send(SpecClientMsg),
    Persist { key: SpecKey, value: SpecPersisted },
    Load { key: SpecKey },
    Remove { key: SpecKey },
    ManageDaemon { id: ManagementRequestId, request: ManagementRequest },
}

impl DeepView for Errand {
    type V = SpecErrand;

    open spec fn deep_view(&self) -> SpecErrand {
        match self {
            Errand::Connect => SpecErrand::Connect,
            Errand::Disconnect => SpecErrand::Disconnect,
            Errand::Send(a) => SpecErrand::Send(a.deep_view()),
            Errand::Persist { key, value } => SpecErrand::Persist {
                key: key.deep_view(),
                value: value.deep_view(),
            },
            Errand::Load { key } => SpecErrand::Load {
                key: key.deep_view(),
            },
            Errand::Remove { key } => SpecErrand::Remove {
                key: key.deep_view(),
            },
            Errand::ManageDaemon { id, request } => SpecErrand::ManageDaemon {
                id: *id,
                request: *request,
            },
        }
    }
}

impl Value for Errand {
    fn dup(&self) -> (r: Self) {
        match self {
            Errand::Connect => Errand::Connect,
            Errand::Disconnect => Errand::Disconnect,
            Errand::Send(a) => Errand::Send(a.dup()),
            Errand::Persist { key, value } => Errand::Persist {
                key: key.dup(),
                value: value.dup(),
            },
            Errand::Load { key } => Errand::Load {
                key: key.dup(),
            },
            Errand::Remove { key } => Errand::Remove {
                key: key.dup(),
            },
            Errand::ManageDaemon { id, request } => Errand::ManageDaemon {
                id: *id,
                request: *request,
            },
        }
    }

    fn same(&self, other: &Self) -> (b: bool) {
        match (self, other) {
            (Errand::Connect, Errand::Connect) => true,
            (Errand::Disconnect, Errand::Disconnect) => true,
            (Errand::Send(a0), Errand::Send(b0)) => a0.same(b0),
            (Errand::Persist { key: a0, value: a1 }, Errand::Persist { key: b0, value: b1 }) => a0.same(b0) && a1.same(b1),
            (Errand::Load { key: a0 }, Errand::Load { key: b0 }) => a0.same(b0),
            (Errand::Remove { key: a0 }, Errand::Remove { key: b0 }) => a0.same(b0),
            (Errand::ManageDaemon { id: a0, request: a1 }, Errand::ManageDaemon { id: b0, request: b1 }) => *a0 == *b0 && *a1 == *b1,
            _ => false,
        }
    }
}

/// Something the host must do for the core.
#[derive(Debug, PartialEq, Eq)]
pub enum Effect {
    /// Dial the daemon; report the outcome as a transport event.
    Connect,
    /// Close the connection. The host still reports that it went down.
    Disconnect,
    Send(ClientMsg),
    Persist { key: Key, value: Persisted },
    Load { key: Key },
    /// Delete a key from the host's store.
    Remove { key: Key },
    Render(ViewDelta),
    /// Inspect or upgrade the daemon; report the reply under the same id.
    ManageDaemon { id: ManagementRequestId, request: ManagementRequest },
}

/// Model of [`Effect`].
#[verifier::ext_equal]
pub enum SpecEffect {
    Connect,
    Disconnect,
    Send(SpecClientMsg),
    Persist { key: SpecKey, value: SpecPersisted },
    Load { key: SpecKey },
    Remove { key: SpecKey },
    Render(SpecViewDelta),
    ManageDaemon { id: ManagementRequestId, request: ManagementRequest },
}

impl DeepView for Effect {
    type V = SpecEffect;

    open spec fn deep_view(&self) -> SpecEffect {
        match self {
            Effect::Connect => SpecEffect::Connect,
            Effect::Disconnect => SpecEffect::Disconnect,
            Effect::Send(a) => SpecEffect::Send(a.deep_view()),
            Effect::Persist { key, value } => SpecEffect::Persist {
                key: key.deep_view(),
                value: value.deep_view(),
            },
            Effect::Load { key } => SpecEffect::Load {
                key: key.deep_view(),
            },
            Effect::Remove { key } => SpecEffect::Remove {
                key: key.deep_view(),
            },
            Effect::Render(a) => SpecEffect::Render(a.deep_view()),
            Effect::ManageDaemon { id, request } => SpecEffect::ManageDaemon {
                id: *id,
                request: *request,
            },
        }
    }
}

/// What a request is waiting for, so the reply can be routed.
#[derive(Debug, PartialEq, Eq)]
pub enum InFlight {
    Subscribe,
    ListWorkspaces,
    ListReviews { workspace_id: WorkspaceId },
    /// Streamed open: snapshot, trees, headers, first chunks.
    OpenReview { review_id: ReviewId },
    /// Piecewise open: the snapshot only, the rest by key.
    ReviewSnapshot { review_id: ReviewId },
    ListFiles { review_id: ReviewId },
    ListCommits { repo_id: RepoId },
    ListRefs { repo_id: RepoId },
    Search,
    TreeSnapshot { tree: TreeKey },
    /// A tree at an arbitrary revision; its root is known once it answers.
    BrowseTree { repo_id: RepoId },
    FileRender { render: RenderKey, stop_after: ChunkIndex },
    RenderChunk { render: RenderKey, index: ChunkIndex },
    Mutate { client_seq: ClientSeq },
    CreationDefault { review_id: ReviewId, repo_id: RepoId },
    CreateReview { review_id: ReviewId, client_seq: ClientSeq },
    CheckFailedCreation { review_id: ReviewId, error: RpcError },
    ReconcileCreation { review_id: ReviewId },
    PreviewSuggestion { review_id: ReviewId, comment_id: CommentId },
    ApplySuggestion { review_id: ReviewId, comment_id: CommentId },
}

/// Model of [`InFlight`].
#[verifier::ext_equal]
pub enum SpecInFlight {
    Subscribe,
    ListWorkspaces,
    ListReviews { workspace_id: WorkspaceId },
    OpenReview { review_id: ReviewId },
    ReviewSnapshot { review_id: ReviewId },
    ListFiles { review_id: ReviewId },
    ListCommits { repo_id: RepoId },
    ListRefs { repo_id: RepoId },
    Search,
    TreeSnapshot { tree: TreeKey },
    BrowseTree { repo_id: RepoId },
    FileRender { render: SpecRenderKey, stop_after: ChunkIndex },
    RenderChunk { render: SpecRenderKey, index: ChunkIndex },
    Mutate { client_seq: ClientSeq },
    CreationDefault { review_id: ReviewId, repo_id: RepoId },
    CreateReview { review_id: ReviewId, client_seq: ClientSeq },
    CheckFailedCreation { review_id: ReviewId, error: SpecRpcError },
    ReconcileCreation { review_id: ReviewId },
    PreviewSuggestion { review_id: ReviewId, comment_id: CommentId },
    ApplySuggestion { review_id: ReviewId, comment_id: CommentId },
}

impl DeepView for InFlight {
    type V = SpecInFlight;

    open spec fn deep_view(&self) -> SpecInFlight {
        match self {
            InFlight::Subscribe => SpecInFlight::Subscribe,
            InFlight::ListWorkspaces => SpecInFlight::ListWorkspaces,
            InFlight::ListReviews { workspace_id } => SpecInFlight::ListReviews {
                workspace_id: *workspace_id,
            },
            InFlight::OpenReview { review_id } => SpecInFlight::OpenReview {
                review_id: *review_id,
            },
            InFlight::ReviewSnapshot { review_id } => SpecInFlight::ReviewSnapshot {
                review_id: *review_id,
            },
            InFlight::ListFiles { review_id } => SpecInFlight::ListFiles {
                review_id: *review_id,
            },
            InFlight::ListCommits { repo_id } => SpecInFlight::ListCommits {
                repo_id: *repo_id,
            },
            InFlight::ListRefs { repo_id } => SpecInFlight::ListRefs {
                repo_id: *repo_id,
            },
            InFlight::Search => SpecInFlight::Search,
            InFlight::TreeSnapshot { tree } => SpecInFlight::TreeSnapshot {
                tree: *tree,
            },
            InFlight::BrowseTree { repo_id } => SpecInFlight::BrowseTree {
                repo_id: *repo_id,
            },
            InFlight::FileRender { render, stop_after } => SpecInFlight::FileRender {
                render: render.deep_view(),
                stop_after: *stop_after,
            },
            InFlight::RenderChunk { render, index } => SpecInFlight::RenderChunk {
                render: render.deep_view(),
                index: *index,
            },
            InFlight::Mutate { client_seq } => SpecInFlight::Mutate {
                client_seq: *client_seq,
            },
            InFlight::CreationDefault { review_id, repo_id } => SpecInFlight::CreationDefault {
                review_id: *review_id,
                repo_id: *repo_id,
            },
            InFlight::CreateReview { review_id, client_seq } => SpecInFlight::CreateReview {
                review_id: *review_id,
                client_seq: *client_seq,
            },
            InFlight::CheckFailedCreation { review_id, error } => SpecInFlight::CheckFailedCreation {
                review_id: *review_id,
                error: error.deep_view(),
            },
            InFlight::ReconcileCreation { review_id } => SpecInFlight::ReconcileCreation {
                review_id: *review_id,
            },
            InFlight::PreviewSuggestion { review_id, comment_id } => SpecInFlight::PreviewSuggestion {
                review_id: *review_id,
                comment_id: *comment_id,
            },
            InFlight::ApplySuggestion { review_id, comment_id } => SpecInFlight::ApplySuggestion {
                review_id: *review_id,
                comment_id: *comment_id,
            },
        }
    }
}

impl Value for InFlight {
    fn dup(&self) -> (r: Self) {
        match self {
            InFlight::Subscribe => InFlight::Subscribe,
            InFlight::ListWorkspaces => InFlight::ListWorkspaces,
            InFlight::ListReviews { workspace_id } => InFlight::ListReviews {
                workspace_id: *workspace_id,
            },
            InFlight::OpenReview { review_id } => InFlight::OpenReview {
                review_id: *review_id,
            },
            InFlight::ReviewSnapshot { review_id } => InFlight::ReviewSnapshot {
                review_id: *review_id,
            },
            InFlight::ListFiles { review_id } => InFlight::ListFiles {
                review_id: *review_id,
            },
            InFlight::ListCommits { repo_id } => InFlight::ListCommits {
                repo_id: *repo_id,
            },
            InFlight::ListRefs { repo_id } => InFlight::ListRefs {
                repo_id: *repo_id,
            },
            InFlight::Search => InFlight::Search,
            InFlight::TreeSnapshot { tree } => InFlight::TreeSnapshot {
                tree: *tree,
            },
            InFlight::BrowseTree { repo_id } => InFlight::BrowseTree {
                repo_id: *repo_id,
            },
            InFlight::FileRender { render, stop_after } => InFlight::FileRender {
                render: render.dup(),
                stop_after: *stop_after,
            },
            InFlight::RenderChunk { render, index } => InFlight::RenderChunk {
                render: render.dup(),
                index: *index,
            },
            InFlight::Mutate { client_seq } => InFlight::Mutate {
                client_seq: *client_seq,
            },
            InFlight::CreationDefault { review_id, repo_id } => InFlight::CreationDefault {
                review_id: *review_id,
                repo_id: *repo_id,
            },
            InFlight::CreateReview { review_id, client_seq } => InFlight::CreateReview {
                review_id: *review_id,
                client_seq: *client_seq,
            },
            InFlight::CheckFailedCreation { review_id, error } => InFlight::CheckFailedCreation {
                review_id: *review_id,
                error: error.dup(),
            },
            InFlight::ReconcileCreation { review_id } => InFlight::ReconcileCreation {
                review_id: *review_id,
            },
            InFlight::PreviewSuggestion { review_id, comment_id } => InFlight::PreviewSuggestion {
                review_id: *review_id,
                comment_id: *comment_id,
            },
            InFlight::ApplySuggestion { review_id, comment_id } => InFlight::ApplySuggestion {
                review_id: *review_id,
                comment_id: *comment_id,
            },
        }
    }

    fn same(&self, other: &Self) -> (b: bool) {
        match (self, other) {
            (InFlight::Subscribe, InFlight::Subscribe) => true,
            (InFlight::ListWorkspaces, InFlight::ListWorkspaces) => true,
            (InFlight::ListReviews { workspace_id: a0 }, InFlight::ListReviews { workspace_id: b0 }) => *a0 == *b0,
            (InFlight::OpenReview { review_id: a0 }, InFlight::OpenReview { review_id: b0 }) => *a0 == *b0,
            (InFlight::ReviewSnapshot { review_id: a0 }, InFlight::ReviewSnapshot { review_id: b0 }) => *a0 == *b0,
            (InFlight::ListFiles { review_id: a0 }, InFlight::ListFiles { review_id: b0 }) => *a0 == *b0,
            (InFlight::ListCommits { repo_id: a0 }, InFlight::ListCommits { repo_id: b0 }) => *a0 == *b0,
            (InFlight::ListRefs { repo_id: a0 }, InFlight::ListRefs { repo_id: b0 }) => *a0 == *b0,
            (InFlight::Search, InFlight::Search) => true,
            (InFlight::TreeSnapshot { tree: a0 }, InFlight::TreeSnapshot { tree: b0 }) => *a0 == *b0,
            (InFlight::BrowseTree { repo_id: a0 }, InFlight::BrowseTree { repo_id: b0 }) => *a0 == *b0,
            (InFlight::FileRender { render: a0, stop_after: a1 }, InFlight::FileRender { render: b0, stop_after: b1 }) => a0.same(b0) && *a1 == *b1,
            (InFlight::RenderChunk { render: a0, index: a1 }, InFlight::RenderChunk { render: b0, index: b1 }) => a0.same(b0) && *a1 == *b1,
            (InFlight::Mutate { client_seq: a0 }, InFlight::Mutate { client_seq: b0 }) => *a0 == *b0,
            (InFlight::CreationDefault { review_id: a0, repo_id: a1 }, InFlight::CreationDefault { review_id: b0, repo_id: b1 }) => *a0 == *b0 && *a1 == *b1,
            (InFlight::CreateReview { review_id: a0, client_seq: a1 }, InFlight::CreateReview { review_id: b0, client_seq: b1 }) => *a0 == *b0 && *a1 == *b1,
            (InFlight::CheckFailedCreation { review_id: a0, error: a1 }, InFlight::CheckFailedCreation { review_id: b0, error: b1 }) => *a0 == *b0 && a1.same(b1),
            (InFlight::ReconcileCreation { review_id: a0 }, InFlight::ReconcileCreation { review_id: b0 }) => *a0 == *b0,
            (InFlight::PreviewSuggestion { review_id: a0, comment_id: a1 }, InFlight::PreviewSuggestion { review_id: b0, comment_id: b1 }) => *a0 == *b0 && *a1 == *b1,
            (InFlight::ApplySuggestion { review_id: a0, comment_id: a1 }, InFlight::ApplySuggestion { review_id: b0, comment_id: b1 }) => *a0 == *b0 && *a1 == *b1,
            _ => false,
        }
    }
}

/// A request and what it is waiting for.
#[derive(Debug, PartialEq, Eq)]
pub struct Waiting {
    pub id: RequestId,
    pub what: InFlight,
}

/// Model of [`Waiting`].
#[verifier::ext_equal]
pub struct SpecWaiting {
    pub id: RequestId,
    pub what: SpecInFlight,
}

impl DeepView for Waiting {
    type V = SpecWaiting;

    open spec fn deep_view(&self) -> SpecWaiting {
        SpecWaiting {
            id: self.id,
            what: self.what.deep_view(),
        }
    }
}

impl Value for Waiting {
    fn dup(&self) -> (r: Self) {
        Waiting {
            id: self.id,
            what: self.what.dup(),
        }
    }

    fn same(&self, other: &Self) -> (b: bool) {
        self.id == other.id
            && self.what.same(&other.what)
    }
}

/// Invitations that arrived while a snapshot was on its way: its answer can
/// carry an older cursor than an event delivered ahead of it.
#[derive(Debug, PartialEq, Eq)]
pub struct SnapshotRequest {
    pub id: RequestId,
    pub review_id: ReviewId,
    pub requests: Vec<ReviewRequest>,
}

/// Model of [`SnapshotRequest`].
#[verifier::ext_equal]
pub struct SpecSnapshotRequest {
    pub id: RequestId,
    pub review_id: ReviewId,
    pub requests: Seq<SpecReviewRequest>,
}

impl DeepView for SnapshotRequest {
    type V = SpecSnapshotRequest;

    open spec fn deep_view(&self) -> SpecSnapshotRequest {
        SpecSnapshotRequest {
            id: self.id,
            review_id: self.review_id,
            requests: self.requests.deep_view(),
        }
    }
}

impl Value for SnapshotRequest {
    fn dup(&self) -> (r: Self) {
        SnapshotRequest {
            id: self.id,
            review_id: self.review_id,
            requests: self.requests.dup(),
        }
    }

    fn same(&self, other: &Self) -> (b: bool) {
        self.id == other.id
            && self.review_id == other.review_id
            && self.requests.same(&other.requests)
    }
}

/// The requests on their way to the daemon.
#[derive(Debug, PartialEq, Eq)]
pub struct Wire {
    pub next_request: u64,
    pub next_client_seq: u64,
    pub in_flight: Vec<Waiting>,
    pub snapshot_requests: Vec<SnapshotRequest>,
    /// Only this request may replace the content-search results.
    pub latest_search: Option<RequestId>,
}

/// Model of [`Wire`].
#[verifier::ext_equal]
pub struct SpecWire {
    pub next_request: u64,
    pub next_client_seq: u64,
    pub in_flight: Seq<SpecWaiting>,
    pub snapshot_requests: Seq<SpecSnapshotRequest>,
    pub latest_search: Option<RequestId>,
}

impl DeepView for Wire {
    type V = SpecWire;

    open spec fn deep_view(&self) -> SpecWire {
        SpecWire {
            next_request: self.next_request,
            next_client_seq: self.next_client_seq,
            in_flight: self.in_flight.deep_view(),
            snapshot_requests: self.snapshot_requests.deep_view(),
            latest_search: self.latest_search,
        }
    }
}

impl Value for Wire {
    fn dup(&self) -> (r: Self) {
        Wire {
            next_request: self.next_request,
            next_client_seq: self.next_client_seq,
            in_flight: self.in_flight.dup(),
            snapshot_requests: self.snapshot_requests.dup(),
            latest_search: self.latest_search,
        }
    }

    fn same(&self, other: &Self) -> (b: bool) {
        self.next_request == other.next_request
            && self.next_client_seq == other.next_client_seq
            && self.in_flight.same(&other.in_flight)
            && self.snapshot_requests.same(&other.snapshot_requests)
            && self.latest_search.same(&other.latest_search)
    }
}

/// Content, the wire, and what the current input has asked for so far.
#[derive(Debug, PartialEq, Eq)]
pub struct Flow {
    pub content: Content,
    pub wire: Wire,
    /// Effects, in order.
    pub out: Vec<Errand>,
    /// Sections touched, in order.
    pub touched: Vec<ViewSection>,
}

/// Model of [`Flow`].
pub struct SpecFlow {
    pub content: SpecContent,
    pub wire: SpecWire,
    pub out: Seq<SpecErrand>,
    pub touched: Seq<ViewSection>,
}

impl DeepView for Flow {
    type V = SpecFlow;

    open spec fn deep_view(&self) -> SpecFlow {
        SpecFlow {
            content: self.content.deep_view(),
            wire: self.wire.deep_view(),
            out: self.out.deep_view(),
            touched: self.touched.deep_view(),
        }
    }
}

impl Value for Flow {
    fn dup(&self) -> (r: Self) {
        Flow {
            content: self.content.dup(),
            wire: self.wire.dup(),
            out: self.out.dup(),
            touched: self.touched.dup(),
        }
    }

    fn same(&self, other: &Self) -> (b: bool) {
        self.content.same(&other.content)
            && self.wire.same(&other.wire)
            && self.out.same(&other.out)
            && self.touched.same(&other.touched)
    }
}


impl SpecInFlight {
    /// Whether this request counts against the limit on content requests.
    pub open spec fn is_content(self) -> bool {
        self is TreeSnapshot || self is FileRender || self is RenderChunk
    }

    /// The cache key this request fills, if it fills one.
    pub open spec fn key(self) -> Option<SpecCacheKey> {
        match self {
            SpecInFlight::TreeSnapshot { tree } => Some(SpecCacheKey::Tree { tree }),
            SpecInFlight::FileRender { render, .. } => Some(SpecCacheKey::Header { render }),
            SpecInFlight::RenderChunk { render, index } => Some(SpecCacheKey::Chunk { render, index }),
            _ => None,
        }
    }
}

impl InFlight {
    /// Whether this request counts against the limit on content requests.
    pub fn is_content(&self) -> (b: bool)
        ensures
            b == self.deep_view().is_content(),
    {
        match self {
            InFlight::TreeSnapshot { .. } => true,
            InFlight::FileRender { .. } => true,
            InFlight::RenderChunk { .. } => true,
            _ => false,
        }
    }

    /// The cache key this request fills, if it fills one.
    pub fn key(&self) -> (r: Option<CacheKey>)
        ensures
            r.deep_view() == self.deep_view().key(),
    {
        match self {
            InFlight::TreeSnapshot { tree } => Some(CacheKey::Tree { tree: *tree }),
            InFlight::FileRender { render, .. } => Some(CacheKey::Header { render: render.dup() }),
            InFlight::RenderChunk { render, index } => Some(
                CacheKey::Chunk { render: render.dup(), index: *index },
            ),
            _ => None,
        }
    }
}

/// The next count; it wraps around at its end.
pub open spec fn next(n: u64) -> u64 {
    if n == u64::MAX {
        0
    } else {
        (n + 1) as u64
    }
}

pub open spec fn waits(id: RequestId) -> spec_fn(SpecWaiting) -> bool {
    |w: SpecWaiting| w.id == id
}

pub open spec fn waits_otherwise(id: RequestId) -> spec_fn(SpecWaiting) -> bool {
    |w: SpecWaiting| w.id != id
}

pub open spec fn snapshot_otherwise(id: RequestId) -> spec_fn(SpecSnapshotRequest) -> bool {
    |s: SpecSnapshotRequest| s.id != id
}

pub open spec fn snapshot_for(id: RequestId) -> spec_fn(SpecSnapshotRequest) -> bool {
    |s: SpecSnapshotRequest| s.id == id
}

/// The review a request asks the snapshot of.
pub open spec fn snapshot_of(request: SpecRequest) -> Option<ReviewId> {
    match request {
        SpecRequest::OpenReview { review_id, .. } => Some(review_id),
        SpecRequest::ReviewSnapshot { review_id } => Some(review_id),
        _ => None,
    }
}

impl SpecWire {
    pub open spec fn new() -> SpecWire {
        SpecWire {
            next_request: 1,
            next_client_seq: 1,
            in_flight: Seq::empty(),
            snapshot_requests: Seq::empty(),
            latest_search: None,
        }
    }

    /// What the request with this id waits for.
    pub open spec fn waiting(self, id: RequestId) -> Option<SpecInFlight> {
        match data::found(self.in_flight, waits(id)) {
            Some(w) => Some(w.what),
            None => None,
        }
    }

    /// The request is answered.
    pub open spec fn answered(self, id: RequestId) -> SpecWire {
        SpecWire { in_flight: self.in_flight.filter(waits_otherwise(id)), ..self }
    }

    /// The snapshot is here, or will not come.
    pub open spec fn snapshot_done(self, id: RequestId) -> SpecWire {
        SpecWire { snapshot_requests: self.snapshot_requests.filter(snapshot_otherwise(id)), ..self }
    }

    /// A request goes out and waits.
    pub open spec fn requested(self, request: SpecRequest, what: SpecInFlight) -> SpecWire {
        let id = RequestId(self.next_request);
        SpecWire {
            next_request: next(self.next_request),
            next_client_seq: self.next_client_seq,
            in_flight: self.in_flight.filter(waits_otherwise(id)).push(SpecWaiting { id, what }),
            snapshot_requests: match snapshot_of(request) {
                Some(review_id) => self.snapshot_requests.filter(snapshot_otherwise(id)).push(
                    SpecSnapshotRequest { id, review_id, requests: Seq::empty() },
                ),
                None => self.snapshot_requests,
            },
            latest_search: if what is Search {
                Some(id)
            } else {
                self.latest_search
            },
        }
    }
}

impl Wire {
    pub fn new() -> (r: Self)
        ensures
            r.deep_view() == SpecWire::new(),
    {
        Wire {
            next_request: 1,
            next_client_seq: 1,
            in_flight: data::empty(),
            snapshot_requests: data::empty(),
            latest_search: None,
        }
    }

    /// What the request with this id waits for.
    pub fn waiting(&self, id: RequestId) -> (r: Option<InFlight>)
        ensures
            r.deep_view() == self.deep_view().waiting(id),
    {
        match data::find(
            &self.in_flight,
            |w: &Waiting| -> (b: bool)
                ensures
                    b == waits(id)(w.deep_view())
            { w.id == id },
            Ghost(waits(id)),
        ) {
            Some(w) => Some(w.what.dup()),
            None => None,
        }
    }

    /// The request is answered.
    pub fn answer(&mut self, id: RequestId)
        ensures
            final(self).deep_view() == old(self).deep_view().answered(id),
    {
        data::retain(
            &mut self.in_flight,
            |w: &Waiting| -> (b: bool)
                ensures
                    b == waits_otherwise(id)(w.deep_view())
            { w.id != id },
            Ghost(waits_otherwise(id)),
        );
    }

    /// The snapshot is here, or will not come.
    pub fn snapshot_done(&mut self, id: RequestId)
        ensures
            final(self).deep_view() == old(self).deep_view().snapshot_done(id),
    {
        data::retain(
            &mut self.snapshot_requests,
            |s: &SnapshotRequest| -> (b: bool)
                ensures
                    b == snapshot_otherwise(id)(s.deep_view())
            { s.id != id },
            Ghost(snapshot_otherwise(id)),
        );
    }
}

/// The keys leave the host's store.
pub open spec fn removals(keys: Seq<SpecCacheKey>) -> Seq<SpecErrand> {
    keys.map_values(|k: SpecCacheKey| SpecErrand::Remove { key: SpecKey::Content { key: k } })
}

/// How the daemon is asked for a fetch, while `open` is on screen. A
/// recorded original diff is not in the review's file list, so its change is
/// rendered directly.
pub open spec fn request_for(open: Option<SpecOpenReview>, fetch: SpecFetch) -> SpecRequest {
    match fetch {
        SpecFetch::Tree { repo_id, ref_spec, .. } => SpecRequest::TreeSnapshot { repo_id, ref_spec },
        SpecFetch::Chunk { render, index } => SpecRequest::RenderChunk {
            repo_id: render.repo_id,
            path: render.path,
            target: render.target,
            opts: render.opts,
            index,
        },
        SpecFetch::Render { review_id, render, first_chunk, .. } => {
            let shown = open is Some && open->0.snapshot.review.id == review_id;
            match render.target {
                SpecRenderTarget::Blob { oid } => SpecRequest::BlobRender {
                    repo_id: render.repo_id,
                    path: render.path,
                    blob_oid: oid,
                    first_chunk,
                },
                SpecRenderTarget::Diff { change } => if shown && open->0.original == Some(render) {
                    SpecRequest::ChangeRender {
                        repo_id: render.repo_id,
                        path: render.path,
                        change,
                        opts: render.opts,
                        first_chunk,
                    }
                } else {
                    SpecRequest::FileRender {
                        review_id,
                        repo_id: render.repo_id,
                        path: render.path,
                        opts: render.opts,
                        first_chunk,
                        scope: if shown {
                            open->0.scope
                        } else {
                            DiffScope::All
                        },
                    }
                },
            }
        },
    }
}

/// What a fetch waits for once it is sent.
pub open spec fn waiting_for(fetch: SpecFetch) -> SpecInFlight {
    match fetch {
        SpecFetch::Tree { repo_id, root, .. } => SpecInFlight::TreeSnapshot { tree: TreeKey { repo_id, root } },
        SpecFetch::Render { render, stop_after, .. } => SpecInFlight::FileRender { render, stop_after },
        SpecFetch::Chunk { render, index } => SpecInFlight::RenderChunk { render, index },
    }
}

impl SpecFlow {
    pub open spec fn with_content(self, content: SpecContent) -> SpecFlow {
        SpecFlow { content, ..self }
    }

    pub open spec fn with_wire(self, wire: SpecWire) -> SpecFlow {
        SpecFlow { wire, ..self }
    }

    /// An effect is added.
    pub open spec fn emit(self, effect: SpecErrand) -> SpecFlow {
        SpecFlow { out: self.out.push(effect), ..self }
    }

    /// Sections are to be rendered.
    pub open spec fn touch(self, sections: Seq<ViewSection>) -> SpecFlow {
        SpecFlow { touched: self.touched + sections, ..self }
    }

    /// A request goes out and waits.
    #[verifier::opaque]
    pub open spec fn request(self, request: SpecRequest, what: SpecInFlight) -> SpecFlow {
        SpecFlow {
            wire: self.wire.requested(request, what),
            out: self.out.push(
                SpecErrand::Send(SpecClientMsg::Request { id: RequestId(self.wire.next_request), request }),
            ),
            ..self
        }
    }

    pub open spec fn removed(self, keys: Seq<SpecCacheKey>) -> SpecFlow {
        SpecFlow { out: self.out + removals(keys), ..self }
    }

    /// One queued fetch goes to the daemon.
    #[verifier::opaque]
    pub open spec fn sent(self, open: Option<SpecOpenReview>, fetch: SpecFetch) -> SpecFlow {
        let content = self.content.noted(fetch.key(), SpecFetchState::Requested);
        self.with_content(
            SpecContent {
                queue: content.queue.drop_first(),
                in_flight: (content.in_flight + 1) as usize,
                ..content
            },
        ).request(request_for(open, fetch), waiting_for(fetch))
    }

    /// Queued fetches go to the daemon while slots are free.
    pub open spec fn drained(self, open: Option<SpecOpenReview>) -> SpecFlow
        decreases self.content.queue.len(),
    {
        if self.content.in_flight < self.content.config.max_in_flight && self.content.queue.len() > 0 {
            proof {
                reveal(SpecFlow::sent);
                reveal(SpecFlow::request);
            }
            self.sent(open, self.content.queue[0]).drained(open)
        } else {
            self
        }
    }

    #[verifier::opaque]
    pub open spec fn enqueued(self, open: Option<SpecOpenReview>, fetch: SpecFetch) -> SpecFlow {
        let content = self.content.noted(fetch.key(), SpecFetchState::Queued);
        self.with_content(SpecContent { queue: content.queue.push(fetch), ..content }).drained(open)
    }

    /// The key the fetch fills is or will be cached.
    #[verifier::opaque]
    pub open spec fn want(self, open: Option<SpecOpenReview>, fetch: SpecFetch) -> SpecFlow {
        let key = fetch.key();
        if self.content.cache.contains(key) || self.content.outstanding(key) {
            self
        } else if self.content.disk is Some {
            let content = self.content.noted(key, SpecFetchState::Loading { fetch });
            self.with_content(
                SpecContent { loads: content.loads.filter(cache::key_is_not(key)).push(key), ..content },
            ).emit(SpecErrand::Load { key: SpecKey::Content { key } })
        } else {
            self.enqueued(open, fetch)
        }
    }

    /// A content request finished.
    #[verifier::opaque]
    pub open spec fn content_done(self, open: Option<SpecOpenReview>) -> SpecFlow {
        self.with_content(
            SpecContent {
                in_flight: if self.content.in_flight > 0 {
                    (self.content.in_flight - 1) as usize
                } else {
                    0
                },
                ..self.content
            },
        ).drained(open)
    }

    /// The disk tier, when there is one, uses `key` now.
    #[verifier::opaque]
    pub open spec fn disk_touched(self, key: SpecCacheKey, size: Bytes) -> SpecFlow {
        match self.content.disk {
            Some(d) => {
                let (d, gone) = d.touched(key, size);
                self.with_content(SpecContent { disk: Some(d), ..self.content }).removed(gone)
            },
            None => self,
        }
    }

    /// A value goes to disk, when there is one, and the disk is trimmed.
    #[verifier::opaque]
    pub open spec fn persisted(self, key: SpecCacheKey, value: SpecCacheValue, size: Bytes) -> SpecFlow {
        if self.content.disk is Some {
            self.disk_touched(key, size).emit(
                SpecErrand::Persist {
                    key: SpecKey::Content { key },
                    value: SpecPersisted::Content { value },
                },
            )
        } else {
            self
        }
    }

    /// One value left memory. What is on disk already only counts as used;
    /// the rest is written.
    #[verifier::opaque]
    pub open spec fn wrote(self, e: SpecEvicted) -> SpecFlow {
        match self.content.disk {
            Some(d) => if d.knows(e.key) {
                self.disk_touched(e.key, e.size)
            } else {
                self.persisted(e.key, e.value, e.size)
            },
            None => self,
        }
    }

    pub open spec fn written_through(self, evicted: Seq<SpecEvicted>) -> SpecFlow
        decreases evicted.len(),
    {
        if evicted.len() == 0 {
            self
        } else {
            self.written_through(evicted.drop_last()).wrote(evicted.last())
        }
    }

    /// A value enters the cache; what leaves is written through.
    #[verifier::opaque]
    pub open spec fn inserted(self, key: SpecCacheKey, value: SpecCacheValue, size: Bytes) -> SpecFlow {
        let (cache, gone) = self.content.cache.inserted(key, value, size);
        self.with_content(SpecContent { cache, ..self.content }).written_through(gone)
    }

    /// Every pin `keep` rejects is released; what leaves is written through.
    #[verifier::opaque]
    pub open spec fn pins_kept(self, keep: spec_fn(SpecCacheKey) -> bool) -> SpecFlow {
        let (cache, gone) = self.content.cache.with_pins_kept(keep);
        self.with_content(SpecContent { cache, ..self.content }).written_through(gone)
    }

    /// The connection is down: nothing is in flight any more. Queued
    /// fetches stay queued.
    #[verifier::opaque]
    pub open spec fn cleared(self) -> SpecFlow {
        SpecFlow {
            content: SpecContent {
                pending: self.content.pending.filter(unfilled(self.wire.in_flight)),
                in_flight: 0,
                ..self.content
            },
            wire: SpecWire { in_flight: Seq::empty(), snapshot_requests: Seq::empty(), ..self.wire },
            ..self
        }
    }
}

pub open spec fn fills(key: SpecCacheKey) -> spec_fn(SpecWaiting) -> bool {
    |w: SpecWaiting| w.what.key() == Some(key)
}

/// What no waiting request fills.
pub open spec fn unfilled(waiting: Seq<SpecWaiting>) -> spec_fn(content::SpecOutstanding) -> bool {
    |o: content::SpecOutstanding| !data::some_where(waiting, fills(o.key))
}

impl Flow {
    pub fn new(content: Content) -> (r: Self)
        ensures
            r.deep_view() == (SpecFlow {
                content: content.deep_view(),
                wire: SpecWire::new(),
                out: Seq::empty(),
                touched: Seq::empty(),
            }),
    {
        Flow { content, wire: Wire::new(), out: data::empty(), touched: data::empty() }
    }

    pub fn emit(&mut self, effect: Errand)
        ensures
            final(self).deep_view() == old(self).deep_view().emit(effect.deep_view()),
    {
        data::push(&mut self.out, effect);
    }

    /// One section is to be rendered.
    pub fn touch(&mut self, section: ViewSection)
        ensures
            final(self).deep_view() == old(self).deep_view().touch(seq![section]),
    {
        data::push(&mut self.touched, section);
        assert(old(self).touched.deep_view().push(section) =~= old(self).touched.deep_view() + seq![section]);
    }

    /// Sections are to be rendered.
    pub fn touch_all(&mut self, sections: Vec<ViewSection>)
        ensures
            final(self).deep_view() == old(self).deep_view().touch(sections.deep_view()),
    {
        data::append(&mut self.touched, sections);
    }

    /// A request goes out and waits.
    pub fn request(&mut self, request: Request, what: InFlight)
        ensures
            final(self).deep_view() == old(self).deep_view().request(request.deep_view(), what.deep_view()),
    {
        proof {
            reveal(SpecFlow::request);
        }
        let id = RequestId(self.wire.next_request);
        self.wire.next_request = self.wire.next_request.wrapping_add(1);
        if let InFlight::Search = what {
            self.wire.latest_search = Some(id);
        }
        let snapshot = match &request {
            Request::OpenReview { review_id, .. } => Some(*review_id),
            Request::ReviewSnapshot { review_id } => Some(*review_id),
            _ => None,
        };
        if let Some(review_id) = snapshot {
            self.wire.snapshot_done(id);
            data::push(
                &mut self.wire.snapshot_requests,
                SnapshotRequest { id, review_id, requests: data::empty() },
            );
        }
        self.wire.answer(id);
        data::push(&mut self.wire.in_flight, Waiting { id, what });
        data::push(&mut self.out, Errand::Send(ClientMsg::Request { id, request }));
    }

    fn removed(&mut self, keys: Vec<CacheKey>)
        ensures
            final(self).deep_view() == old(self).deep_view().removed(keys.deep_view()),
    {
        let gone = data::map(
            &keys,
            |k: &CacheKey| -> (e: Errand)
                ensures
                    e.deep_view() == (SpecErrand::Remove { key: SpecKey::Content { key: k.deep_view() } })
            { Errand::Remove { key: Key::Content { key: k.dup() } } },
            Ghost(|k: SpecCacheKey| SpecErrand::Remove { key: SpecKey::Content { key: k } }),
        );
        data::append(&mut self.out, gone);
    }

    fn send(&mut self, open: &Option<OpenReview>)
        requires
            old(self).content.queue@.len() > 0,
            old(self).content.in_flight < usize::MAX,
        ensures
            final(self).deep_view() == old(self).deep_view().sent(
                open.deep_view(),
                old(self).deep_view().content.queue[0],
            ),
    {
        proof {
            reveal(SpecFlow::sent);
        }
        let fetch = data::remove(&mut self.content.queue, 0);
        assert(old(self).content.queue.deep_view().remove(0) =~= old(self).content.queue.deep_view().drop_first());
        self.content.note(fetch.key(), FetchState::Requested);
        self.content.in_flight = self.content.in_flight + 1;
        match fetch {
            Fetch::Tree { repo_id, ref_spec, root } => {
                self.request(
                    Request::TreeSnapshot { repo_id, ref_spec },
                    InFlight::TreeSnapshot { tree: TreeKey { repo_id, root } },
                );
            },
            Fetch::Chunk { render, index } => {
                self.request(
                    Request::RenderChunk {
                        repo_id: render.repo_id,
                        path: render.path.dup(),
                        target: render.target.dup(),
                        opts: render.opts.dup(),
                        index,
                    },
                    InFlight::RenderChunk { render, index },
                );
            },
            Fetch::Render { review_id, render, first_chunk, stop_after } => {
                let (original, scope) = match open {
                    Some(o) => if o.snapshot.review.id == review_id {
                        (
                            match &o.original {
                                Some(k) => k.same(&render),
                                None => false,
                            },
                            o.scope,
                        )
                    } else {
                        (false, DiffScope::All)
                    },
                    None => (false, DiffScope::All),
                };
                let repo_id = render.repo_id;
                let path = render.path.dup();
                let request = match &render.target {
                    RenderTarget::Blob { oid } => Request::BlobRender {
                        repo_id,
                        path,
                        blob_oid: *oid,
                        first_chunk,
                    },
                    RenderTarget::Diff { change } => if original {
                        Request::ChangeRender {
                            repo_id,
                            path,
                            change: change.dup(),
                            opts: render.opts.dup(),
                            first_chunk,
                        }
                    } else {
                        Request::FileRender {
                            review_id,
                            repo_id,
                            path,
                            opts: render.opts.dup(),
                            first_chunk,
                            scope,
                        }
                    },
                };
                self.request(request, InFlight::FileRender { render, stop_after });
            },
        }
    }

    /// Send queued fetches while slots are free.
    pub fn drain(&mut self, open: &Option<OpenReview>)
        ensures
            final(self).deep_view() == old(self).deep_view().drained(open.deep_view()),
    {
        let ghost goal = self.deep_view().drained(open.deep_view());
        while self.content.in_flight < self.content.config.max_in_flight && self.content.queue.len() > 0
            invariant
                self.deep_view().drained(open.deep_view()) == goal,
            decreases self.content.queue@.len(),
        {
            assert(self.content.queue.deep_view().len() == self.content.queue@.len());
            let ghost before = self.deep_view();
            self.send(open);
            proof {
                reveal(SpecFlow::sent);
                reveal(SpecFlow::request);
            }
            assert(self.deep_view().content.queue == before.content.queue.drop_first());
            assert(self.content.queue.deep_view().len() == self.content.queue@.len());
        }
        assert(self.content.queue.deep_view().len() == self.content.queue@.len());
    }

    pub fn enqueue(&mut self, open: &Option<OpenReview>, fetch: Fetch)
        ensures
            final(self).deep_view() == old(self).deep_view().enqueued(open.deep_view(), fetch.deep_view()),
    {
        proof {
            reveal(SpecFlow::enqueued);
        }
        self.content.note(fetch.key(), FetchState::Queued);
        data::push(&mut self.content.queue, fetch);
        self.drain(open);
    }

    /// Ensure the key the fetch fills is or will be cached. Tells whether
    /// it was already resident.
    pub fn want(&mut self, open: &Option<OpenReview>, fetch: Fetch) -> (resident: bool)
        ensures
            final(self).deep_view() == old(self).deep_view().want(open.deep_view(), fetch.deep_view()),
            resident == old(self).deep_view().content.cache.contains(fetch.deep_view().key()),
    {
        proof {
            reveal(SpecFlow::want);
        }
        let key = fetch.key();
        if self.content.cache.contains(&key) {
            return true;
        }
        if self.content.outstanding(&key) {
            return false;
        }
        if self.content.disk.is_some() {
            data::retain(
                &mut self.content.loads,
                |k: &CacheKey| -> (b: bool)
                    ensures
                        b == cache::key_is_not(key.deep_view())(k.deep_view())
                { !k.same(&key) },
                Ghost(cache::key_is_not(key.deep_view())),
            );
            data::push(&mut self.content.loads, key.dup());
            self.content.note(key.dup(), FetchState::Loading { fetch });
            self.emit(Errand::Load { key: Key::Content { key } });
        } else {
            self.enqueue(open, fetch);
        }
        false
    }

    /// A content request finished.
    pub fn content_done(&mut self, open: &Option<OpenReview>)
        ensures
            final(self).deep_view() == old(self).deep_view().content_done(open.deep_view()),
    {
        proof {
            reveal(SpecFlow::content_done);
        }
        if self.content.in_flight > 0 {
            self.content.in_flight = self.content.in_flight - 1;
        }
        self.drain(open);
    }

    /// The disk tier, when there is one, uses `key` now.
    pub fn disk_touch(&mut self, key: &CacheKey, size: Bytes)
        ensures
            final(self).deep_view() == old(self).deep_view().disk_touched(key.deep_view(), size),
    {
        proof {
            reveal(SpecFlow::disk_touched);
        }
        match self.content.disk.take() {
            Some(d) => {
                let mut d = d;
                let gone = d.touch(key, size);
                self.content.disk = Some(d);
                self.removed(gone);
            },
            None => {},
        }
    }

    /// Write a value to disk, when there is one, and trim the disk.
    pub fn persist(&mut self, key: &CacheKey, value: &CacheValue, size: Bytes)
        ensures
            final(self).deep_view() == old(self).deep_view().persisted(
                key.deep_view(),
                value.deep_view(),
                size,
            ),
    {
        proof {
            reveal(SpecFlow::persisted);
        }
        if self.content.disk.is_some() {
            self.disk_touch(key, size);
            self.emit(
                Errand::Persist {
                    key: Key::Content { key: key.dup() },
                    value: Persisted::Content { value: value.dup() },
                },
            );
        }
    }

    fn write(&mut self, e: &Evicted)
        ensures
            final(self).deep_view() == old(self).deep_view().wrote(e.deep_view()),
    {
        proof {
            reveal(SpecFlow::wrote);
            reveal(SpecFlow::persisted);
        }
        let known = match &self.content.disk {
            Some(d) => d.knows(&e.key),
            None => false,
        };
        if known {
            self.disk_touch(&e.key, e.size);
        } else {
            self.persist(&e.key, &e.value, e.size);
        }
    }

    /// Values left memory; write those through that the disk does not have.
    pub fn write_through(&mut self, evicted: Vec<Evicted>)
        ensures
            final(self).deep_view() == old(self).deep_view().written_through(evicted.deep_view()),
    {
        let n: usize = evicted.len();
        let ghost all = evicted.deep_view();
        let ghost start = self.deep_view();
        assert(all.take(0) =~= Seq::empty());
        for i in 0..n
            invariant
                n == evicted@.len(),
                all == evicted.deep_view(),
                self.deep_view() == start.written_through(all.take(i as int)),
        {
            assert(all.take(i + 1).drop_last() =~= all.take(i as int));
            assert(all.take(i + 1).last() == evicted@[i as int].deep_view());
            self.write(&evicted[i]);
        }
        assert(all.take(n as int) =~= all);
    }

    /// Put a value into the cache; write through what leaves.
    pub fn insert(&mut self, key: CacheKey, value: CacheValue, size: Bytes)
        ensures
            final(self).deep_view() == old(self).deep_view().inserted(
                key.deep_view(),
                value.deep_view(),
                size,
            ),
    {
        proof {
            reveal(SpecFlow::inserted);
        }
        let gone = self.content.cache.insert(key, value, size);
        self.write_through(gone);
    }

    /// Release every pin `keep` rejects; write through what leaves.
    pub(crate) fn keep_pins<F: Fn(&CacheKey) -> bool>(
        &mut self,
        keep: F,
        Ghost(p): Ghost<spec_fn(SpecCacheKey) -> bool>,
    )
        requires
            data::decides(keep, p),
        ensures
            final(self).deep_view() == old(self).deep_view().pins_kept(p),
    {
        proof {
            reveal(SpecFlow::pins_kept);
        }
        let gone = self.content.cache.retain_pins(keep);
        self.write_through(gone);
    }

    /// The connection is down.
    pub fn clear(&mut self)
        ensures
            final(self).deep_view() == old(self).deep_view().cleared(),
    {
        proof {
            reveal(SpecFlow::cleared);
        }
        let waiting = &self.wire.in_flight;
        data::retain(
            &mut self.content.pending,
            |o: &content::Outstanding| -> (b: bool)
                ensures
                    b == unfilled(waiting.deep_view())(o.deep_view())
            {
                !data::any(
                    waiting,
                    |w: &Waiting| -> (b: bool)
                        ensures
                            b == fills(o.key.deep_view())(w.deep_view())
                    {
                        match w.what.key() {
                            Some(k) => k.same(&o.key),
                            None => false,
                        }
                    },
                    Ghost(fills(o.key.deep_view())),
                )
            },
            Ghost(unfilled(waiting.deep_view())),
        );
        self.content.in_flight = 0;
        self.wire.in_flight = data::empty();
        self.wire.snapshot_requests = data::empty();
    }
}

// ---- soundness ------------------------------------------------------------

pub broadcast proof fn requesting_leaves_content_alone(
    flow: SpecFlow,
    request: SpecRequest,
    what: SpecInFlight,
)
    ensures
        (#[trigger] flow.request(request, what)).content == flow.content,
{
    reveal(SpecFlow::request);
}

pub broadcast proof fn draining_is_sound(flow: SpecFlow, open: Option<SpecOpenReview>)
    requires
        flow.content.sound(),
    ensures
        (#[trigger] flow.drained(open)).content.sound(),
    decreases flow.content.queue.len(),
{
    if flow.content.in_flight < flow.content.config.max_in_flight && flow.content.queue.len() > 0 {
        let fetch = flow.content.queue[0];
        let next = flow.sent(open, fetch);
        assert(next.content.sound() && next.content.queue.len() < flow.content.queue.len()) by {
            broadcast use content::noting_is_sound;
            reveal(SpecFlow::sent);
            reveal(SpecFlow::request);
            reveal(SpecContent::sound);
            assert(flow.content.noted(fetch.key(), SpecFetchState::Requested).sound());
        }
        draining_is_sound(next, open);
    }
}

pub broadcast proof fn enqueuing_is_sound(flow: SpecFlow, open: Option<SpecOpenReview>, fetch: SpecFetch)
    requires
        flow.content.sound(),
    ensures
        (#[trigger] flow.enqueued(open, fetch)).content.sound(),
{
    broadcast use content::noting_is_sound;
    reveal(SpecFlow::enqueued);
    reveal(SpecContent::sound);
    let noted = flow.content.noted(fetch.key(), SpecFetchState::Queued);
    assert(noted.sound());
    let next = flow.with_content(SpecContent { queue: noted.queue.push(fetch), ..noted });
    draining_is_sound(next, open);
}

pub broadcast proof fn wanting_is_sound(flow: SpecFlow, open: Option<SpecOpenReview>, fetch: SpecFetch)
    requires
        flow.content.sound(),
    ensures
        (#[trigger] flow.want(open, fetch)).content.sound(),
{
    broadcast use {content::noting_is_sound, enqueuing_is_sound};
    reveal(SpecFlow::want);
    reveal(SpecContent::sound);
    let noted = flow.content.noted(fetch.key(), SpecFetchState::Loading { fetch });
    assert(noted.sound());
}

pub broadcast proof fn finishing_is_sound(flow: SpecFlow, open: Option<SpecOpenReview>)
    requires
        flow.content.sound(),
    ensures
        (#[trigger] flow.content_done(open)).content.sound(),
{
    reveal(SpecFlow::content_done);
    reveal(SpecContent::sound);
    let next = flow.with_content(
        SpecContent {
            in_flight: if flow.content.in_flight > 0 {
                (flow.content.in_flight - 1) as usize
            } else {
                0
            },
            ..flow.content
        },
    );
    draining_is_sound(next, open);
}

pub broadcast proof fn using_the_disk_is_sound(flow: SpecFlow, key: SpecCacheKey, size: Bytes)
    requires
        flow.content.sound(),
    ensures
        (#[trigger] flow.disk_touched(key, size)).content.sound(),
{
    reveal(SpecFlow::disk_touched);
    reveal(SpecContent::sound);
}

pub broadcast proof fn persisting_is_sound(
    flow: SpecFlow,
    key: SpecCacheKey,
    value: SpecCacheValue,
    size: Bytes,
)
    requires
        flow.content.sound(),
    ensures
        (#[trigger] flow.persisted(key, value, size)).content.sound(),
{
    broadcast use using_the_disk_is_sound;
    reveal(SpecFlow::persisted);
}

pub broadcast proof fn writing_through_is_sound(flow: SpecFlow, evicted: Seq<SpecEvicted>)
    requires
        flow.content.sound(),
    ensures
        (#[trigger] flow.written_through(evicted)).content.sound(),
    decreases evicted.len(),
{
    if evicted.len() > 0 {
        writing_through_is_sound(flow, evicted.drop_last());
        broadcast use {using_the_disk_is_sound, persisting_is_sound};
        reveal(SpecFlow::wrote);
    }
}

pub broadcast proof fn inserting_is_sound(
    flow: SpecFlow,
    key: SpecCacheKey,
    value: SpecCacheValue,
    size: Bytes,
)
    requires
        flow.content.sound(),
    ensures
        (#[trigger] flow.inserted(key, value, size)).content.sound(),
{
    reveal(SpecFlow::inserted);
    reveal(SpecContent::sound);
    cache::insertions_keep_the_cache_sound(flow.content.cache, key, value, size);
    let (cache, gone) = flow.content.cache.inserted(key, value, size);
    writing_through_is_sound(flow.with_content(SpecContent { cache, ..flow.content }), gone);
}

pub broadcast proof fn keeping_pins_is_sound(flow: SpecFlow, keep: spec_fn(SpecCacheKey) -> bool)
    requires
        flow.content.sound(),
    ensures
        (#[trigger] flow.pins_kept(keep)).content.sound(),
{
    reveal(SpecFlow::pins_kept);
    reveal(SpecContent::sound);
    cache::releasing_pins_keeps_the_cache_sound(flow.content.cache, keep);
    let (cache, gone) = flow.content.cache.with_pins_kept(keep);
    writing_through_is_sound(flow.with_content(SpecContent { cache, ..flow.content }), gone);
}

pub broadcast proof fn clearing_is_sound(flow: SpecFlow)
    requires
        flow.content.sound(),
    ensures
        (#[trigger] flow.cleared()).content.sound(),
{
    reveal(SpecFlow::cleared);
    reveal(SpecContent::sound);
    content::lemma_filter_wanted_once(flow.content.pending, unfilled(flow.wire.in_flight));
}

/// Everything that is done to the content keeps it sound.
pub broadcast group group_content_stays_sound {
    content::forgetting_is_sound,
    content::noting_is_sound,
    content::pruning_is_sound,
    content::pinning_is_sound,
    requesting_leaves_content_alone,
    draining_is_sound,
    enqueuing_is_sound,
    wanting_is_sound,
    finishing_is_sound,
    using_the_disk_is_sound,
    persisting_is_sound,
    writing_through_is_sound,
    inserting_is_sound,
    keeping_pins_is_sound,
    clearing_is_sound,
}

// ---- laws: fetching names no section --------------------------------------

pub broadcast proof fn request_names_nothing(flow: SpecFlow, request: SpecRequest, what: SpecInFlight)
    ensures
        (#[trigger] flow.request(request, what)).touched == flow.touched,
{
    reveal(SpecFlow::request);
}

pub broadcast proof fn sent_names_nothing(flow: SpecFlow, open: Option<SpecOpenReview>, fetch: SpecFetch)
    ensures
        (#[trigger] flow.sent(open, fetch)).touched == flow.touched,
{
    reveal(SpecFlow::sent);
    broadcast use request_names_nothing;
}

pub broadcast proof fn drained_names_nothing(flow: SpecFlow, open: Option<SpecOpenReview>)
    ensures
        (#[trigger] flow.drained(open)).touched == flow.touched,
    decreases flow.content.queue.len(),
{
    broadcast use sent_names_nothing;
    if flow.content.in_flight < flow.content.config.max_in_flight && flow.content.queue.len() > 0 {
        assert(flow.sent(open, flow.content.queue[0]).content.queue.len() < flow.content.queue.len()) by {
            reveal(SpecFlow::sent);
            reveal(SpecFlow::request);
        }
        drained_names_nothing(flow.sent(open, flow.content.queue[0]), open);
    }
}

pub broadcast proof fn enqueued_names_nothing(flow: SpecFlow, open: Option<SpecOpenReview>, fetch: SpecFetch)
    ensures
        (#[trigger] flow.enqueued(open, fetch)).touched == flow.touched,
{
    reveal(SpecFlow::enqueued);
    broadcast use drained_names_nothing;
}

pub broadcast proof fn want_names_nothing(flow: SpecFlow, open: Option<SpecOpenReview>, fetch: SpecFetch)
    ensures
        (#[trigger] flow.want(open, fetch)).touched == flow.touched,
{
    reveal(SpecFlow::want);
    broadcast use enqueued_names_nothing;
}

pub broadcast proof fn content_done_names_nothing(flow: SpecFlow, open: Option<SpecOpenReview>)
    ensures
        (#[trigger] flow.content_done(open)).touched == flow.touched,
{
    reveal(SpecFlow::content_done);
    broadcast use drained_names_nothing;
}

pub broadcast proof fn disk_touched_names_nothing(flow: SpecFlow, key: SpecCacheKey, size: Bytes)
    ensures
        (#[trigger] flow.disk_touched(key, size)).touched == flow.touched,
{
    reveal(SpecFlow::disk_touched);
}

pub broadcast proof fn persisted_names_nothing(
    flow: SpecFlow,
    key: SpecCacheKey,
    value: SpecCacheValue,
    size: Bytes,
)
    ensures
        (#[trigger] flow.persisted(key, value, size)).touched == flow.touched,
{
    reveal(SpecFlow::persisted);
    broadcast use disk_touched_names_nothing;
}

pub broadcast proof fn wrote_names_nothing(flow: SpecFlow, e: SpecEvicted)
    ensures
        (#[trigger] flow.wrote(e)).touched == flow.touched,
{
    reveal(SpecFlow::wrote);
    broadcast use {disk_touched_names_nothing, persisted_names_nothing};
}

pub broadcast proof fn written_through_names_nothing(flow: SpecFlow, evicted: Seq<SpecEvicted>)
    ensures
        (#[trigger] flow.written_through(evicted)).touched == flow.touched,
    decreases evicted.len(),
{
    broadcast use wrote_names_nothing;
    if evicted.len() > 0 {
        written_through_names_nothing(flow, evicted.drop_last());
    }
}

pub broadcast proof fn inserted_names_nothing(
    flow: SpecFlow,
    key: SpecCacheKey,
    value: SpecCacheValue,
    size: Bytes,
)
    ensures
        (#[trigger] flow.inserted(key, value, size)).touched == flow.touched,
{
    reveal(SpecFlow::inserted);
    broadcast use written_through_names_nothing;
}

pub broadcast proof fn pins_kept_names_nothing(flow: SpecFlow, keep: spec_fn(SpecCacheKey) -> bool)
    ensures
        (#[trigger] flow.pins_kept(keep)).touched == flow.touched,
{
    reveal(SpecFlow::pins_kept);
    broadcast use written_through_names_nothing;
}

pub broadcast proof fn cleared_names_nothing(flow: SpecFlow)
    ensures
        (#[trigger] flow.cleared()).touched == flow.touched,
{
    reveal(SpecFlow::cleared);
}

/// Fetching content and keeping it names no section.
pub broadcast group group_content_is_fetched_silently {
    request_names_nothing,
    sent_names_nothing,
    drained_names_nothing,
    enqueued_names_nothing,
    want_names_nothing,
    content_done_names_nothing,
    disk_touched_names_nothing,
    persisted_names_nothing,
    wrote_names_nothing,
    written_through_names_nothing,
    inserted_names_nothing,
    pins_kept_names_nothing,
    cleared_names_nothing,
}

// ---- laws: where content comes from ---------------------------------------

/// Content that is in memory, or on its way already, is not asked for.
pub proof fn content_at_hand_is_not_asked_for(flow: SpecFlow, open: Option<SpecOpenReview>, fetch: SpecFetch)
    requires
        flow.content.cache.contains(fetch.key()) || flow.content.outstanding(fetch.key()),
    ensures
        flow.want(open, fetch) == flow,
{
    reveal(SpecFlow::want);
}

/// Other content is looked for on disk, when there is one, before the
/// daemon is asked.
pub proof fn content_is_looked_for_on_disk_first(
    flow: SpecFlow,
    open: Option<SpecOpenReview>,
    fetch: SpecFetch,
)
    requires
        !flow.content.cache.contains(fetch.key()),
        !flow.content.outstanding(fetch.key()),
        flow.content.disk is Some,
    ensures
        flow.want(open, fetch).out == flow.out.push(
            SpecErrand::Load { key: SpecKey::Content { key: fetch.key() } },
        ),
        flow.want(open, fetch).wire == flow.wire,
{
    reveal(SpecFlow::want);
}

/// What is written through comes after what was asked for before.
pub proof fn lemma_writing_through_adds(flow: SpecFlow, evicted: Seq<SpecEvicted>)
    ensures
        flow.out.is_prefix_of(flow.written_through(evicted).out),
    decreases evicted.len(),
{
    if evicted.len() > 0 {
        let before = flow.written_through(evicted.drop_last());
        lemma_writing_through_adds(flow, evicted.drop_last());
        reveal(SpecFlow::wrote);
        reveal(SpecFlow::persisted);
        reveal(SpecFlow::disk_touched);
        assert(before.out.is_prefix_of(before.wrote(evicted.last()).out));
    }
}

} // verus!
