//! What the daemon answers.
use vstd::prelude::*;

use crate::cache::{Bytes, CacheKey, CacheValue, SpecCacheKey, SpecCacheValue, TreeKey};
use crate::client;
use crate::client::{
    ClientCore, Connection, CoreError, InputKind, Pending, SpecClientCore, SpecCoreError,
    SpecPending,
};
use crate::creation::{CreationDefaultState, SpecCreationDefaultState};
use crate::data;
use crate::data::Value;
use crate::diff::{CommitStepper, SpecCommitStepper};
use crate::errors;
use crate::fetching::Arrival;
use crate::flow::{InFlight, SpecErrand, SpecFlow, SpecInFlight, SpecWire};
use crate::protocol::{
    ClientSeq, CommitInfo, ContentHit, DiffScope, Event, EventSeq, FileChange, RefCandidate,
    RefSpec, RenderChunk, RepoId, Request, RequestId, ResolvedTarget, Response, Review, ReviewId,
    ReviewSnapshot, ReviewTarget, SpecClientMsg, SpecCommitInfo, SpecContentHit, SpecEvent,
    SpecFileChange, SpecRefCandidate, SpecRenderChunk, SpecRequest, SpecResponse, SpecReview,
    SpecReviewSnapshot, SpecReviewTarget, SpecTreeSnapshot, SpecWorkspace, TreeSnapshot,
    ViewSection, Workspace, WorkspaceId,
};
use crate::cache::{RenderKey, SpecRenderKey};
use crate::protocol::ChunkIndex;
use crate::view::{
    ConnectionView, SpecConnectionView, SpecContentSearchView, SpecOpenReview, SpecViewModel,
};

verus! {

/// The sections a new snapshot of the open review touches.
pub open spec fn opened_sections() -> Seq<ViewSection> {
    seq![
        ViewSection::ReviewList,
        ViewSection::Diff,
        ViewSection::Threads,
        ViewSection::Conversation,
        ViewSection::Draft,
        ViewSection::Focus,
    ]
}

pub(crate) fn opened() -> (r: Vec<ViewSection>)
    ensures
        r.deep_view() == opened_sections(),
{
    let mut r = data::two(ViewSection::ReviewList, ViewSection::Diff);
    data::push(&mut r, ViewSection::Threads);
    data::push(&mut r, ViewSection::Conversation);
    data::push(&mut r, ViewSection::Draft);
    data::push(&mut r, ViewSection::Focus);
    assert(r.deep_view() =~= opened_sections());
    r
}

/// What an answer of another kind is refused with.
pub open spec fn unexpected(id: RequestId, expected: Seq<char>, got: Seq<char>) -> SpecCoreError {
    SpecCoreError::UnexpectedResponse { id, expected, got }
}

pub(crate) fn surprise(id: RequestId, expected: &str, got: &str) -> (r: CoreError)
    ensures
        r.deep_view() == unexpected(id, expected@, got@),
{
    CoreError::UnexpectedResponse { id, expected: expected.to_owned(), got: got.to_owned() }
}

impl SpecInFlight {
    /// What answers it.
    pub open spec fn expected(self) -> Seq<char> {
        match self {
            SpecInFlight::Subscribe => "Subscribed"@,
            SpecInFlight::ListWorkspaces => "Workspaces"@,
            SpecInFlight::ListReviews { .. } => "Reviews"@,
            SpecInFlight::OpenReview { .. } => "StreamItem"@,
            SpecInFlight::FileRender { .. } => "StreamItem"@,
            SpecInFlight::ReviewSnapshot { .. } => "ReviewSnapshot"@,
            SpecInFlight::ListFiles { .. } => "Files"@,
            SpecInFlight::ListCommits { .. } => "Commits"@,
            SpecInFlight::ListRefs { .. } => "Refs"@,
            SpecInFlight::Search => "Search"@,
            SpecInFlight::TreeSnapshot { .. } => "TreeSnapshot"@,
            SpecInFlight::BrowseTree { .. } => "TreeSnapshot"@,
            SpecInFlight::RenderChunk { .. } => "RenderChunk"@,
            SpecInFlight::Mutate { .. } => "Committed"@,
            SpecInFlight::CreateReview { .. } => "Committed"@,
            SpecInFlight::ApplySuggestion { .. } => "Committed"@,
            SpecInFlight::CreationDefault { .. } => "DefaultBase"@,
            SpecInFlight::CheckFailedCreation { .. } => "Review"@,
            SpecInFlight::ReconcileCreation { .. } => "Review"@,
            SpecInFlight::PreviewSuggestion { .. } => "SuggestionPreview"@,
        }
    }
}

fn expected(waiting: &InFlight) -> (r: &'static str)
    ensures
        r@ == waiting.deep_view().expected(),
{
    match waiting {
        InFlight::Subscribe => "Subscribed",
        InFlight::ListWorkspaces => "Workspaces",
        InFlight::ListReviews { .. } => "Reviews",
        InFlight::OpenReview { .. } => "StreamItem",
        InFlight::FileRender { .. } => "StreamItem",
        InFlight::ReviewSnapshot { .. } => "ReviewSnapshot",
        InFlight::ListFiles { .. } => "Files",
        InFlight::ListCommits { .. } => "Commits",
        InFlight::ListRefs { .. } => "Refs",
        InFlight::Search => "Search",
        InFlight::TreeSnapshot { .. } => "TreeSnapshot",
        InFlight::BrowseTree { .. } => "TreeSnapshot",
        InFlight::RenderChunk { .. } => "RenderChunk",
        InFlight::Mutate { .. } => "Committed",
        InFlight::CreateReview { .. } => "Committed",
        InFlight::ApplySuggestion { .. } => "Committed",
        InFlight::CreationDefault { .. } => "DefaultBase",
        InFlight::CheckFailedCreation { .. } => "Review",
        InFlight::ReconcileCreation { .. } => "Review",
        InFlight::PreviewSuggestion { .. } => "SuggestionPreview",
    }
}

pub open spec fn elsewhere(workspace_id: WorkspaceId) -> spec_fn(SpecReview) -> bool {
    |r: SpecReview| r.workspace_id != workspace_id
}

pub open spec fn review_order() -> spec_fn(SpecReview, SpecReview) -> bool {
    |a: SpecReview, b: SpecReview| a.created.0 <= b.created.0
}

/// A target whose head is the working tree of `repo_id`.
pub open spec fn worktree_head(repo_id: RepoId) -> spec_fn(SpecReviewTarget) -> bool {
    |t: SpecReviewTarget| t.repo_id == repo_id && t.head is WorkingTree
}

pub open spec fn all_sent() -> spec_fn(SpecPending) -> SpecPending {
    |p: SpecPending| SpecPending { sent: true, ..p }
}

pub open spec fn was_unsent() -> spec_fn(SpecPending) -> bool {
    |p: SpecPending| !p.sent
}

impl SpecClientCore {
    /// Mutations that went down with the connection are sent again, in
    /// order, each under its own number.
    pub open spec fn resent(self, pending: Seq<SpecPending>) -> SpecClientCore
        decreases pending.len(),
    {
        if pending.len() == 0 {
            self
        } else {
            let p = pending.last();
            self.resent(pending.drop_last()).request(
                SpecRequest::Mutate { client_seq: p.client_seq, mutation: p.mutation },
                SpecInFlight::Mutate { client_seq: p.client_seq },
            )
        }
    }

    #[verifier::opaque]
    pub open spec fn sent_again(self) -> SpecClientCore {
        SpecClientCore { pending: self.pending.map_values(all_sent()), ..self }.resent(
            self.pending.filter(was_unsent()),
        )
    }

    #[verifier::opaque]
    pub open spec fn came_up(self, last_seq: EventSeq) -> SpecClientCore {
        SpecClientCore {
            connection: Connection::Subscribed { last_seq },
            view: SpecViewModel {
                connection: SpecConnectionView::Subscribed,
                last_error: None,
                ..self.view
            },
            ..self
        }
    }

    /// The subscription is on.
    #[verifier::opaque]
    pub open spec fn answer_subscribed(self, seq: EventSeq) -> Result<SpecClientCore, SpecCoreError> {
        match self.connection {
            Connection::Connecting { last_seq, .. } => Ok(
                self.came_up(
                    match last_seq {
                        Some(s) => if s.0 > seq.0 {
                            s
                        } else {
                            seq
                        },
                        None => seq,
                    },
                ).sent_again().request(SpecRequest::ListWorkspaces, SpecInFlight::ListWorkspaces).touch(
                    seq![ViewSection::Connection],
                ).creation_reconnected().suggestions_reconnected(),
            ),
            _ => Err(self.wrong_state(InputKind::Server)),
        }
    }

    pub open spec fn reviews_asked(self, workspaces: Seq<SpecWorkspace>) -> SpecClientCore
        decreases workspaces.len(),
    {
        if workspaces.len() == 0 {
            self
        } else {
            self.reviews_asked(workspaces.drop_last()).ask_reviews(workspaces.last().id)
        }
    }

    #[verifier::opaque]
    pub open spec fn answer_workspaces(self, workspaces: Seq<SpecWorkspace>) -> SpecClientCore {
        self.with_workspaces(workspaces).reviews_asked(workspaces)
    }

    /// A workspace's reviews take the place of those known before.
    #[verifier::opaque]
    pub open spec fn answer_reviews(self, workspace_id: WorkspaceId, reviews: Seq<SpecReview>) -> SpecClientCore {
        self.with_reviews(
            data::sorted(self.view.reviews.filter(elsewhere(workspace_id)) + reviews, review_order()),
        ).touch(seq![ViewSection::ReviewList])
    }

    #[verifier::opaque]
    pub open spec fn answer_snapshot(
        self,
        id: RequestId,
        review_id: ReviewId,
        snapshot: SpecReviewSnapshot,
    ) -> Result<
        SpecClientCore,
        SpecCoreError,
    > {
        if snapshot.review.id != review_id {
            Err(
                unexpected(
                    id,
                    "ReviewSnapshot for the requested review"@,
                    "ReviewSnapshot for another review"@,
                ),
            )
        } else {
            Ok(
                self.installed(id, snapshot).review_trees(true).list_files(review_id).touch(
                    opened_sections(),
                ).landed_in(review_id),
            )
        }
    }

    /// The targets a scope resolved to.
    #[verifier::opaque]
    pub open spec fn rescoped(self, resolved: Seq<ResolvedTarget>) -> SpecClientCore {
        match self.view.review {
            Some(open) => if open.scope is All {
                self
            } else {
                let c = self.with_open(SpecOpenReview { scoped_targets: resolved, ..open });
                c.rebased().review_trees(true).touch(c.rebase_sections()).touch(seq![ViewSection::ReviewList])
            },
            None => self,
        }
    }

    #[verifier::opaque]
    pub open spec fn answer_files(
        self,
        review_id: ReviewId,
        files: Seq<SpecFileChange>,
        resolved: Seq<ResolvedTarget>,
    ) -> SpecClientCore {
        if self.open_id() == Some(review_id) {
            self.rescoped(resolved).review_files(review_id, files)
        } else {
            self
        }
    }

    #[verifier::opaque]
    pub open spec fn stepped_into(self, repo_id: RepoId) -> SpecClientCore {
        if self.by_commit_pending {
            let c = SpecClientCore { by_commit_pending: false, ..self };
            match c.first_step(repo_id) {
                Some(scope) => c.apply_scope(scope),
                None => c,
            }
        } else {
            self
        }
    }

    #[verifier::opaque]
    pub open spec fn answer_commits(self, repo_id: RepoId, commits: Seq<SpecCommitInfo>) -> SpecClientCore {
        match self.view.review {
            Some(open) => SpecClientCore {
                stepper: Some(
                    SpecCommitStepper {
                        repo_id,
                        commits: commits.map_values(|c: SpecCommitInfo| c.step()),
                        has_worktree: data::some_where(open.snapshot.review.targets, worktree_head(repo_id)),
                    },
                ),
                ..self
            }.stepped_into(repo_id),
            None => self,
        }
    }

    #[verifier::opaque]
    pub open spec fn answer_refs(
        self,
        id: RequestId,
        repo_id: RepoId,
        of: RepoId,
        refs: Seq<SpecRefCandidate>,
    ) -> Result<
        SpecClientCore,
        SpecCoreError,
    > {
        if repo_id != of {
            Err(unexpected(id, "Refs for the requested repo"@, "Refs for another repo"@))
        } else {
            Ok(
                match self.ref_selector {
                    Some(s) => if s.view.repo_id == repo_id {
                        self.with_selector(s.installed(refs))
                    } else {
                        self
                    },
                    None => self,
                },
            )
        }
    }

    /// Hits of the latest query; those of an earlier one are dropped.
    #[verifier::opaque]
    pub open spec fn answer_search(self, id: RequestId, hits: Seq<SpecContentHit>, truncated: bool) -> SpecClientCore {
        match self.view.content_search {
            Some(cs) => if self.flow.wire.latest_search == Some(id) {
                SpecClientCore {
                    view: SpecViewModel {
                        content_search: Some(
                            SpecContentSearchView {
                                hits,
                                selected: if hits.len() == 0 {
                                    0
                                } else if cs.selected >= hits.len() {
                                    (hits.len() - 1) as usize
                                } else {
                                    cs.selected
                                },
                                truncated,
                                pending: false,
                                ..cs
                            },
                        ),
                        ..self.view
                    },
                    flow: self.flow.with_wire(SpecWire { latest_search: None, ..self.flow.wire }),
                    ..self
                }.touch(seq![ViewSection::Search])
            } else {
                self
            },
            None => self,
        }
    }

    #[verifier::opaque]
    pub open spec fn answer_tree(
        self,
        id: RequestId,
        tree: TreeKey,
        snapshot: SpecTreeSnapshot,
        size: Bytes,
    ) -> Result<
        SpecClientCore,
        SpecCoreError,
    > {
        if snapshot.root_oid != tree.root {
            Err(unexpected(id, "TreeSnapshot of the requested root"@, "TreeSnapshot of another root"@))
        } else {
            Ok(
                self.arrived(
                    SpecCacheKey::Tree { tree },
                    SpecCacheValue::Tree { snapshot },
                    size,
                    Arrival::Response,
                ).content_done(),
            )
        }
    }

    #[verifier::opaque]
    pub open spec fn answer_chunk(
        self,
        id: RequestId,
        render: SpecRenderKey,
        index: ChunkIndex,
        chunk: SpecRenderChunk,
        size: Bytes,
    ) -> Result<SpecClientCore, SpecCoreError> {
        if chunk.index != index {
            Err(unexpected(id, "RenderChunk with the requested index"@, "RenderChunk with another index"@))
        } else {
            Ok(
                self.arrived(
                    SpecCacheKey::Chunk { render, index },
                    SpecCacheValue::Chunk { chunk },
                    size,
                    Arrival::Response,
                ).content_done(),
            )
        }
    }

    pub open spec fn with_last_seq(self, last_seq: EventSeq) -> SpecClientCore {
        SpecClientCore { connection: Connection::Subscribed { last_seq }, ..self }
    }

    /// The daemon took a mutation. The event is also broadcast; whichever
    /// comes first applies it, the other only retires the mutation.
    #[verifier::opaque]
    pub open spec fn answer_committed(self, client_seq: ClientSeq, event: SpecEvent) -> Result<
        SpecClientCore,
        SpecCoreError,
    > {
        match self.connection {
            Connection::Subscribed { last_seq } => Ok(
                if last_seq.0 >= event.seq.0 {
                    let c = self.retired(client_seq);
                    if c.pending.len() != self.pending.len() {
                        c.refreshed()
                    } else {
                        c
                    }
                } else {
                    self.with_last_seq(event.seq).applied(event)
                },
            ),
            _ => Err(self.wrong_state(InputKind::Server)),
        }
    }

    /// What a response to the listings and the review makes of the core.
    #[verifier::opaque]
    pub open spec fn response_to(
        self,
        id: RequestId,
        waiting: SpecInFlight,
        response: SpecResponse,
        size: Bytes,
    ) -> Result<
        SpecClientCore,
        SpecCoreError,
    > {
        match (waiting, response) {
            (SpecInFlight::Subscribe, SpecResponse::Subscribed { seq }) => self.answer_subscribed(seq),
            (SpecInFlight::ListWorkspaces, SpecResponse::Workspaces { workspaces }) => Ok(
                self.answer_workspaces(workspaces),
            ),
            (SpecInFlight::ListReviews { workspace_id }, SpecResponse::Reviews { reviews }) => Ok(
                self.answer_reviews(workspace_id, reviews),
            ),
            (SpecInFlight::ReviewSnapshot { review_id }, SpecResponse::ReviewSnapshot { snapshot }) => {
                self.answer_snapshot(id, review_id, snapshot)
            },
            (SpecInFlight::ListFiles { review_id }, SpecResponse::Files { files, resolved }) => Ok(
                self.answer_files(review_id, files, resolved),
            ),
            (SpecInFlight::ListCommits { repo_id }, SpecResponse::Commits { commits }) => Ok(
                self.answer_commits(repo_id, commits),
            ),
            (SpecInFlight::ListRefs { repo_id }, SpecResponse::Refs { repo_id: of, refs }) => {
                self.answer_refs(id, repo_id, of, refs)
            },
            (SpecInFlight::Search, SpecResponse::Search { hits, truncated }) => Ok(
                self.answer_search(id, hits, truncated),
            ),
            _ => self.content_response_to(id, waiting, response, size),
        }
    }

    /// What a response with content, or to a write, makes of the core.
    #[verifier::opaque]
    pub open spec fn content_response_to(
        self,
        id: RequestId,
        waiting: SpecInFlight,
        response: SpecResponse,
        size: Bytes,
    ) -> Result<SpecClientCore, SpecCoreError> {
        match (waiting, response) {
            (SpecInFlight::BrowseTree { repo_id }, SpecResponse::TreeSnapshot { snapshot }) => {
                self.browse_answer(id, repo_id, snapshot, size)
            },
            (SpecInFlight::TreeSnapshot { tree }, SpecResponse::TreeSnapshot { snapshot }) => {
                self.answer_tree(id, tree, snapshot, size)
            },
            (SpecInFlight::RenderChunk { render, index }, SpecResponse::RenderChunk { chunk }) => {
                self.answer_chunk(id, render, index, chunk, size)
            },
            (SpecInFlight::Mutate { client_seq }, SpecResponse::Committed { event }) => {
                self.answer_committed(client_seq, event)
            },
            (SpecInFlight::CreateReview { client_seq, .. }, SpecResponse::Committed { event }) => {
                self.answer_committed(client_seq, event)
            },
            (SpecInFlight::ApplySuggestion { review_id, comment_id }, SpecResponse::Committed { event }) => {
                self.suggestion_applied(id, review_id, comment_id, event)
            },
            (SpecInFlight::PreviewSuggestion { review_id, comment_id }, SpecResponse::SuggestionPreview { preview }) => {
                self.suggestion_previewed(id, review_id, comment_id, preview)
            },
            (SpecInFlight::CreationDefault { review_id, repo_id }, SpecResponse::DefaultBase { base }) => Ok(
                self.creation_default_answer(review_id, repo_id, SpecCreationDefaultState::Ready { base }),
            ),
            (SpecInFlight::CheckFailedCreation { .. }, SpecResponse::Review { review }) => Ok(
                self.creation_found(review),
            ),
            (SpecInFlight::ReconcileCreation { .. }, SpecResponse::Review { review }) => Ok(
                self.creation_found(review),
            ),
            _ => Err(unexpected(id, waiting.expected(), response.name())),
        }
    }

    /// The request is answered for good.
    #[verifier::opaque]
    pub open spec fn request_done(self, id: RequestId) -> SpecClientCore {
        self.with_flow(self.flow.with_wire(self.flow.wire.answered(id).snapshot_done(id)))
    }

    #[verifier::opaque]
    pub open spec fn responded(self, id: RequestId, response: SpecResponse, size: Bytes) -> Result<
        SpecClientCore,
        SpecCoreError,
    > {
        match self.flow.wire.waiting(id) {
            None => Err(SpecCoreError::UnknownRequest(id)),
            Some(waiting) => match self.response_to(id, waiting, response, size) {
                Ok(c) => Ok(c.request_done(id)),
                Err(e) => Err(e),
            },
        }
    }
}

impl ClientCore {
    fn resend(&mut self, pending: &Vec<Pending>)
        ensures
            final(self).deep_view() == old(self).deep_view().resent(pending.deep_view()),
    {
        let n: usize = pending.len();
        let ghost all = pending.deep_view();
        let ghost start = self.deep_view();
        assert(all.take(0) =~= Seq::empty());
        for i in 0..n
            invariant
                n == pending@.len(),
                all == pending.deep_view(),
                self.deep_view() == start.resent(all.take(i as int)),
        {
            proof {
                reveal(ClientCore::model);
            }
            assert(all.take(i + 1).drop_last() =~= all.take(i as int));
            assert(all.take(i + 1).last() == pending@[i as int].deep_view());
            let client_seq = pending[i].client_seq;
            self.flow.request(
                Request::Mutate { client_seq, mutation: pending[i].mutation.dup() },
                InFlight::Mutate { client_seq },
            );
        }
        assert(all.take(n as int) =~= all);
    }

    fn send_again(&mut self)
        ensures
            final(self).deep_view() == old(self).deep_view().sent_again(),
    {
        proof {
            reveal(ClientCore::model);
            reveal(SpecClientCore::sent_again);
        }
        let mut lost = data::map(
            &self.pending,
            |p: &Pending| -> (r: Pending)
                ensures
                    r.deep_view() == (|q: SpecPending| q)(p.deep_view())
            { p.dup() },
            Ghost(|q: SpecPending| q),
        );
        assert(lost.deep_view() =~= self.pending.deep_view());
        data::retain(
            &mut lost,
            |p: &Pending| -> (b: bool)
                ensures
                    b == was_unsent()(p.deep_view())
            { !p.sent },
            Ghost(was_unsent()),
        );
        self.pending = data::map(
            &self.pending,
            |p: &Pending| -> (r: Pending)
                ensures
                    r.deep_view() == all_sent()(p.deep_view())
            {
                let mut p = p.dup();
                p.sent = true;
                p
            },
            Ghost(all_sent()),
        );
        self.resend(&lost);
    }

    fn come_up(&mut self, last_seq: EventSeq)
        ensures
            final(self).deep_view() == old(self).deep_view().came_up(last_seq),
    {
        proof {
            reveal(ClientCore::model);
            reveal(SpecClientCore::came_up);
        }
        self.connection = Connection::Subscribed { last_seq };
        self.view.set_connection(ConnectionView::Subscribed);
        self.view.set_last_error(None);
    }

    /// Send a request and remember what waits for it.
    pub(crate) fn request(&mut self, request: Request, what: InFlight)
        ensures
            final(self).deep_view() == old(self).deep_view().request(request.deep_view(), what.deep_view()),
    {
        proof {
            reveal(ClientCore::model);
        }
        self.flow.request(request, what);
    }

    pub(crate) fn touch(&mut self, section: ViewSection)
        ensures
            final(self).deep_view() == old(self).deep_view().touch(seq![section]),
    {
        proof {
            reveal(ClientCore::model);
        }
        self.flow.touch(section);
    }

    pub(crate) fn touch_all(&mut self, sections: Vec<ViewSection>)
        ensures
            final(self).deep_view() == old(self).deep_view().touch(sections.deep_view()),
    {
        proof {
            reveal(ClientCore::model);
        }
        self.flow.touch_all(sections);
    }

    pub(crate) fn content_done(&mut self)
        ensures
            final(self).deep_view() == old(self).deep_view().content_done(),
    {
        proof {
            reveal(ClientCore::model);
        }
        self.flow.content_done(self.view.review());
    }

    pub(crate) fn get_connection(&self) -> (r: Connection)
        ensures
            r == self.deep_view().connection,
    {
        proof {
            reveal(ClientCore::model);
        }
        self.connection
    }

    pub(crate) fn set_last_seq(&mut self, last_seq: EventSeq)
        ensures
            final(self).deep_view() == old(self).deep_view().with_last_seq(last_seq),
    {
        proof {
            reveal(ClientCore::model);
        }
        self.connection = Connection::Subscribed { last_seq };
    }

    fn answer_subscribed(&mut self, seq: EventSeq) -> (r: Result<(), CoreError>)
        ensures
            client::settled(
                old(self).deep_view(),
                final(self).deep_view(),
                r,
                old(self).deep_view().answer_subscribed(seq),
            ),
    {
        proof {
            reveal(SpecClientCore::answer_subscribed);
        }
        let before = match self.get_connection() {
            Connection::Connecting { last_seq, .. } => last_seq,
            _ => {
                return Err(self.wrong_state(InputKind::Server));
            },
        };
        let last_seq = match before {
            Some(s) => if s.0 > seq.0 {
                s
            } else {
                seq
            },
            None => seq,
        };
        self.come_up(last_seq);
        self.send_again();
        self.request(Request::ListWorkspaces, InFlight::ListWorkspaces);
        self.touch(ViewSection::Connection);
        self.creation_reconnected();
        self.suggestions_reconnected();
        Ok(())
    }

    fn ask_all_reviews(&mut self, workspaces: &Vec<Workspace>)
        ensures
            final(self).deep_view() == old(self).deep_view().reviews_asked(workspaces.deep_view()),
    {
        let n: usize = workspaces.len();
        let ghost all = workspaces.deep_view();
        let ghost start = self.deep_view();
        assert(all.take(0) =~= Seq::empty());
        for i in 0..n
            invariant
                n == workspaces@.len(),
                all == workspaces.deep_view(),
                self.deep_view() == start.reviews_asked(all.take(i as int)),
        {
            assert(all.take(i + 1).drop_last() =~= all.take(i as int));
            assert(all.take(i + 1).last() == workspaces@[i as int].deep_view());
            self.ask_reviews(workspaces[i].id);
        }
        assert(all.take(n as int) =~= all);
    }

    fn answer_workspaces(&mut self, workspaces: Vec<Workspace>)
        ensures
            final(self).deep_view() == old(self).deep_view().answer_workspaces(workspaces.deep_view()),
    {
        proof {
            reveal(ClientCore::model);
            reveal(SpecClientCore::answer_workspaces);
        }
        let listed = workspaces.dup();
        let ghost before = self.deep_view();
        self.view.set_workspaces(workspaces);
        self.flow.touch(ViewSection::ReviewList);
        assert(self.deep_view() == before.with_workspaces(listed.deep_view()));
        self.ask_all_reviews(&listed);
    }

    fn answer_reviews(&mut self, workspace_id: WorkspaceId, reviews: Vec<Review>)
        ensures
            final(self).deep_view() == old(self).deep_view().answer_reviews(
                workspace_id,
                reviews.deep_view(),
            ),
    {
        proof {
            reveal(ClientCore::model);
            reveal(SpecClientCore::answer_reviews);
        }
        let mut all = self.view.reviews().dup();
        data::retain(
            &mut all,
            |r: &Review| -> (b: bool)
                ensures
                    b == elsewhere(workspace_id)(r.deep_view())
            { r.workspace_id != workspace_id },
            Ghost(elsewhere(workspace_id)),
        );
        data::append(&mut all, reviews);
        data::sort(
            &mut all,
            |a: &Review, b: &Review| -> (r: bool)
                ensures
                    r == review_order()(a.deep_view(), b.deep_view())
            { a.created.0 <= b.created.0 },
            Ghost(review_order()),
        );
        self.view.set_reviews(all);
        self.flow.touch(ViewSection::ReviewList);
    }

    fn answer_snapshot(&mut self, id: RequestId, review_id: ReviewId, snapshot: ReviewSnapshot) -> (r: Result<
        (),
        CoreError,
    >)
        ensures
            client::settled(
                old(self).deep_view(),
                final(self).deep_view(),
                r,
                old(self).deep_view().answer_snapshot(id, review_id, snapshot.deep_view()),
            ),
    {
        proof {
            reveal(SpecClientCore::answer_snapshot);
        }
        if snapshot.review.id != review_id {
            return Err(
                surprise(id, "ReviewSnapshot for the requested review", "ReviewSnapshot for another review"),
            );
        }
        self.install_snapshot(id, snapshot);
        self.review_trees(true);
        self.list_files(review_id);
        self.touch_all(opened());
        self.land_in(review_id);
        Ok(())
    }

    fn rescope(&mut self, resolved: Vec<ResolvedTarget>)
        ensures
            final(self).deep_view() == old(self).deep_view().rescoped(resolved.deep_view()),
    {
        proof {
            reveal(ClientCore::model);
            reveal(SpecClientCore::rescoped);
        }
        match self.view.take_review() {
            Some(open) => {
                let mut open = open;
                if let DiffScope::All = open.scope {
                    self.view.set_review(Some(open));
                    return ;
                }
                open.scoped_targets = resolved;
                self.view.set_review(Some(open));
                let sections = self.rebase();
                self.review_trees(true);
                self.touch_all(sections);
                self.touch(ViewSection::ReviewList);
            },
            None => {},
        }
    }

    fn answer_files(&mut self, review_id: ReviewId, files: Vec<FileChange>, resolved: Vec<ResolvedTarget>)
        ensures
            final(self).deep_view() == old(self).deep_view().answer_files(
                review_id,
                files.deep_view(),
                resolved.deep_view(),
            ),
    {
        proof {
            reveal(SpecClientCore::answer_files);
        }
        if self.open_id() == Some(review_id) {
            self.rescope(resolved);
            self.review_files(review_id, files);
        }
    }

    fn step_into(&mut self, repo_id: RepoId)
        ensures
            final(self).deep_view() == old(self).deep_view().stepped_into(repo_id),
    {
        proof {
            reveal(ClientCore::model);
            reveal(SpecClientCore::stepped_into);
        }
        if self.by_commit_pending {
            self.by_commit_pending = false;
            if let Some(scope) = self.default_by_commit_scope(repo_id) {
                self.apply_scope(scope);
            }
        }
    }

    fn answer_commits(&mut self, repo_id: RepoId, commits: &Vec<CommitInfo>)
        ensures
            final(self).deep_view() == old(self).deep_view().answer_commits(repo_id, commits.deep_view()),
    {
        proof {
            reveal(ClientCore::model);
            reveal(SpecClientCore::answer_commits);
        }
        let has_worktree = match self.view.review() {
            Some(open) => data::any(
                &open.snapshot.review.targets,
                |t: &ReviewTarget| -> (b: bool)
                    ensures
                        b == worktree_head(repo_id)(t.deep_view())
                {
                    t.repo_id == repo_id && match t.head {
                        RefSpec::WorkingTree => true,
                        _ => false,
                    }
                },
                Ghost(worktree_head(repo_id)),
            ),
            None => {
                return ;
            },
        };
        self.stepper = Some(CommitStepper::from_commits(repo_id, commits, has_worktree));
        self.step_into(repo_id);
    }

    fn answer_refs(&mut self, id: RequestId, repo_id: RepoId, of: RepoId, refs: Vec<RefCandidate>) -> (r: Result<
        (),
        CoreError,
    >)
        ensures
            client::settled(
                old(self).deep_view(),
                final(self).deep_view(),
                r,
                old(self).deep_view().answer_refs(id, repo_id, of, refs.deep_view()),
            ),
    {
        proof {
            reveal(ClientCore::model);
            reveal(SpecClientCore::answer_refs);
        }
        if repo_id != of {
            return Err(surprise(id, "Refs for the requested repo", "Refs for another repo"));
        }
        match self.ref_selector.take() {
            Some(selector) => {
                let mut selector = selector;
                let mine = selector.view.repo_id == repo_id;
                if mine {
                    selector.install(refs);
                }
                self.ref_selector = Some(selector);
                if mine {
                    self.flow.touch(ViewSection::RefSelector);
                }
            },
            None => {},
        }
        Ok(())
    }

    fn answer_search(&mut self, id: RequestId, hits: Vec<ContentHit>, truncated: bool)
        ensures
            final(self).deep_view() == old(self).deep_view().answer_search(id, hits.deep_view(), truncated),
    {
        proof {
            reveal(ClientCore::model);
            reveal(SpecClientCore::answer_search);
        }
        if self.flow.wire.latest_search != Some(id) {
            return ;
        }
        match self.view.take_content_search() {
            Some(cs) => {
                let mut cs = cs;
                assert(hits.deep_view().len() == hits@.len());
                if hits.len() == 0 {
                    cs.selected = 0;
                } else if cs.selected >= hits.len() {
                    cs.selected = hits.len() - 1;
                }
                cs.hits = hits;
                cs.truncated = truncated;
                cs.pending = false;
                self.view.set_content_search(Some(cs));
                self.flow.wire.latest_search = None;
                self.flow.touch(ViewSection::Search);
            },
            None => {},
        }
    }

    fn answer_tree(&mut self, id: RequestId, tree: TreeKey, snapshot: TreeSnapshot, size: Bytes) -> (r: Result<
        (),
        CoreError,
    >)
        ensures
            client::settled(
                old(self).deep_view(),
                final(self).deep_view(),
                r,
                old(self).deep_view().answer_tree(id, tree, snapshot.deep_view(), size),
            ),
    {
        proof {
            reveal(SpecClientCore::answer_tree);
        }
        if snapshot.root_oid != tree.root {
            return Err(surprise(id, "TreeSnapshot of the requested root", "TreeSnapshot of another root"));
        }
        self.arrived(CacheKey::Tree { tree }, CacheValue::Tree { snapshot }, size, Arrival::Response);
        self.content_done();
        Ok(())
    }

    fn answer_chunk(&mut self, id: RequestId, render: RenderKey, index: ChunkIndex, chunk: RenderChunk, size: Bytes) -> (r:
        Result<(), CoreError>)
        ensures
            client::settled(
                old(self).deep_view(),
                final(self).deep_view(),
                r,
                old(self).deep_view().answer_chunk(id, render.deep_view(), index, chunk.deep_view(), size),
            ),
    {
        proof {
            reveal(SpecClientCore::answer_chunk);
        }
        if chunk.index != index {
            return Err(
                surprise(id, "RenderChunk with the requested index", "RenderChunk with another index"),
            );
        }
        self.arrived(CacheKey::Chunk { render, index }, CacheValue::Chunk { chunk }, size, Arrival::Response);
        self.content_done();
        Ok(())
    }

    fn answer_committed(&mut self, client_seq: ClientSeq, event: Event) -> (r: Result<(), CoreError>)
        ensures
            client::settled(
                old(self).deep_view(),
                final(self).deep_view(),
                r,
                old(self).deep_view().answer_committed(client_seq, event.deep_view()),
            ),
    {
        proof {
            reveal(SpecClientCore::answer_committed);
        }
        match self.get_connection() {
            Connection::Subscribed { last_seq } => {
                if last_seq.0 >= event.seq.0 {
                    let there = self.retire_pending(client_seq);
                    if there {
                        self.refresh();
                    }
                } else {
                    self.set_last_seq(event.seq);
                    self.apply_event(event);
                }
                Ok(())
            },
            _ => Err(self.wrong_state(InputKind::Server)),
        }
    }

    fn response_to(&mut self, id: RequestId, waiting: InFlight, response: Response, size: Bytes) -> (r: Result<
        (),
        CoreError,
    >)
        ensures
            client::settled(
                old(self).deep_view(),
                final(self).deep_view(),
                r,
                old(self).deep_view().response_to(id, waiting.deep_view(), response.deep_view(), size),
            ),
    {
        proof {
            reveal(SpecClientCore::response_to);
        }
        match (waiting, response) {
            (InFlight::Subscribe, Response::Subscribed { seq }) => self.answer_subscribed(seq),
            (InFlight::ListWorkspaces, Response::Workspaces { workspaces }) => {
                self.answer_workspaces(workspaces);
                Ok(())
            },
            (InFlight::ListReviews { workspace_id }, Response::Reviews { reviews }) => {
                self.answer_reviews(workspace_id, reviews);
                Ok(())
            },
            (InFlight::ReviewSnapshot { review_id }, Response::ReviewSnapshot { snapshot }) => {
                self.answer_snapshot(id, review_id, snapshot)
            },
            (InFlight::ListFiles { review_id }, Response::Files { files, resolved }) => {
                self.answer_files(review_id, files, resolved);
                Ok(())
            },
            (InFlight::ListCommits { repo_id }, Response::Commits { commits }) => {
                self.answer_commits(repo_id, &commits);
                Ok(())
            },
            (InFlight::ListRefs { repo_id }, Response::Refs { repo_id: of, refs }) => {
                self.answer_refs(id, repo_id, of, refs)
            },
            (InFlight::Search, Response::Search { hits, truncated }) => {
                self.answer_search(id, hits, truncated);
                Ok(())
            },
            (waiting, response) => self.content_response_to(id, waiting, response, size),
        }
    }

    fn content_response_to(&mut self, id: RequestId, waiting: InFlight, response: Response, size: Bytes) -> (r: Result<
        (),
        CoreError,
    >)
        ensures
            client::settled(
                old(self).deep_view(),
                final(self).deep_view(),
                r,
                old(self).deep_view().content_response_to(
                    id,
                    waiting.deep_view(),
                    response.deep_view(),
                    size,
                ),
            ),
    {
        proof {
            reveal(SpecClientCore::content_response_to);
        }
        match (waiting, response) {
            (InFlight::BrowseTree { repo_id }, Response::TreeSnapshot { snapshot }) => {
                self.browse_answer(id, repo_id, snapshot, size)
            },
            (InFlight::TreeSnapshot { tree }, Response::TreeSnapshot { snapshot }) => {
                self.answer_tree(id, tree, snapshot, size)
            },
            (InFlight::RenderChunk { render, index }, Response::RenderChunk { chunk }) => {
                self.answer_chunk(id, render, index, chunk, size)
            },
            (InFlight::Mutate { client_seq }, Response::Committed { event }) => {
                self.answer_committed(client_seq, event)
            },
            (InFlight::CreateReview { client_seq, .. }, Response::Committed { event }) => {
                self.answer_committed(client_seq, event)
            },
            (InFlight::ApplySuggestion { review_id, comment_id }, Response::Committed { event }) => {
                self.suggestion_applied(id, review_id, comment_id, event)
            },
            (InFlight::PreviewSuggestion { review_id, comment_id }, Response::SuggestionPreview { preview }) => {
                self.suggestion_previewed(id, review_id, comment_id, preview)
            },
            (InFlight::CreationDefault { review_id, repo_id }, Response::DefaultBase { base }) => {
                self.creation_default_answer(review_id, repo_id, CreationDefaultState::Ready { base });
                Ok(())
            },
            (InFlight::CheckFailedCreation { .. }, Response::Review { review }) => {
                self.creation_found(&review);
                Ok(())
            },
            (InFlight::ReconcileCreation { .. }, Response::Review { review }) => {
                self.creation_found(&review);
                Ok(())
            },
            (waiting, response) => Err(surprise(id, expected(&waiting), errors::response_name(&response))),
        }
    }

    pub(crate) fn request_done(&mut self, id: RequestId)
        ensures
            final(self).deep_view() == old(self).deep_view().request_done(id),
    {
        proof {
            reveal(ClientCore::model);
            reveal(SpecClientCore::request_done);
        }
        self.flow.wire.answer(id);
        self.flow.wire.snapshot_done(id);
    }

    /// What waits for the answer to `id`.
    pub(crate) fn waiting(&self, id: RequestId) -> (r: Option<InFlight>)
        ensures
            r.deep_view() == self.deep_view().flow.wire.waiting(id),
    {
        proof {
            reveal(ClientCore::model);
        }
        self.flow.wire.waiting(id)
    }

    pub(crate) fn response(
        &mut self,
        id: RequestId,
        response: Response,
        size: Bytes,
    ) -> (r: Result<(), CoreError>)
        ensures
            client::settled(
                old(self).deep_view(),
                final(self).deep_view(),
                r,
                old(self).deep_view().responded(id, response.deep_view(), size),
            ),
    {
        proof {
            reveal(SpecClientCore::responded);
        }
        let waiting = match self.waiting(id) {
            Some(w) => w,
            None => {
                return Err(CoreError::UnknownRequest(id));
            },
        };
        match self.response_to(id, waiting, response, size) {
            Ok(()) => {
                self.request_done(id);
                Ok(())
            },
            Err(e) => Err(e),
        }
    }
}

// ---- laws -----------------------------------------------------------------

/// An errand that sends a pending mutation under its number.
pub open spec fn sends(e: SpecErrand, p: SpecPending) -> bool {
    e matches SpecErrand::Send(msg) && msg matches SpecClientMsg::Request { request, .. } && request == (
    SpecRequest::Mutate { client_seq: p.client_seq, mutation: p.mutation })
}

proof fn lemma_resent(core: SpecClientCore, pending: Seq<SpecPending>)
    ensures
        core.resent(pending).flow.out.len() == core.flow.out.len() + pending.len(),
        core.resent(pending).flow.out.take(core.flow.out.len() as int) == core.flow.out,
        core.resent(pending).pending == core.pending,
        forall|i: int|
            0 <= i < pending.len() ==> sends(
                core.resent(pending).flow.out[core.flow.out.len() + i],
                #[trigger] pending[i],
            ),
    decreases pending.len(),
{
    let before = core.flow.out;
    if pending.len() > 0 {
        lemma_resent(core, pending.drop_last());
        reveal(SpecFlow::request);
        let out = core.resent(pending.drop_last()).flow.out;
        let next = core.resent(pending).flow.out;
        assert(next.drop_last() =~= out);
        assert(next.take(before.len() as int) =~= out.take(before.len() as int));
        assert forall|i: int| 0 <= i < pending.len() implies sends(next[before.len() + i], #[trigger] pending[i]) by {
            if i < pending.len() - 1 {
                assert(next[before.len() + i] == out[before.len() + i]);
                assert(pending.drop_last()[i] == pending[i]);
            }
        }
    } else {
        assert(before.take(before.len() as int) =~= before);
    }
}

/// Mutations that went down with the connection are sent again in order,
/// once each, under the numbers they had; after that none is unsent.
pub proof fn lost_mutations_are_sent_again_once(core: SpecClientCore, i: int)
    requires
        0 <= i < core.pending.filter(was_unsent()).len(),
    ensures
        ({
            let lost = core.pending.filter(was_unsent());
            let out = core.sent_again().flow.out;
            &&& out.len() == core.flow.out.len() + lost.len()
            &&& out.take(core.flow.out.len() as int) == core.flow.out
            &&& sends(out[core.flow.out.len() + i], lost[i])
            &&& core.sent_again().pending == core.pending.map_values(all_sent())
        }),
{
    reveal(SpecClientCore::sent_again);
    let c = SpecClientCore { pending: core.pending.map_values(all_sent()), ..core };
    lemma_resent(c, core.pending.filter(was_unsent()));
}

} // verus!
