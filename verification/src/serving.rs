//! What the daemon sends: answers, streams, errors and events.
use vstd::prelude::*;

use crate::answering;
use crate::cache::{
    Bytes, CacheKey, CacheValue, RenderKey, SpecCacheKey, SpecCacheValue, SpecRenderKey, TreeKey,
};
use crate::client;
use crate::client::{
    ClientCore, Connection, CoreError, InputKind, Pending, SpecClientCore, SpecCoreError,
    SpecPending,
};
use crate::creation::{CreationDefaultState, SpecCreationDefaultState};
use crate::data;
use crate::data::Value;
use crate::errors;
use crate::fetching::Arrival;
use crate::flow::{InFlight, SpecInFlight};
use crate::protocol::{
    ClientSeq, Event, EventSeq, FileRenderHeader, Mutation, RenderChunk, RepoId, RepoPath, Request,
    RequestId, ReviewId, ReviewSnapshot, RpcError, ServerMsg, Since, SpecEvent,
    SpecFileRenderHeader, SpecRenderChunk, SpecRepoPath, SpecRequest, SpecReviewSnapshot,
    SpecRpcError, SpecServerMsg, SpecStreamItem, StreamItem, TreeSnapshot, ViewSection,
};
use crate::ref_selector::{
    RefSelectorStatus, SpecRefSelector, SpecRefSelectorStatus, SpecRefSelectorView,
};
use crate::view::{ConnectionView, SpecConnectionView, SpecViewModel};

verus! {

/// The pending change of a target that `client_seq` numbers.
pub open spec fn retargets(client_seq: ClientSeq) -> spec_fn(SpecPending) -> bool {
    |p: SpecPending| p.client_seq == client_seq && p.mutation is UpdateReviewTarget
}

pub open spec fn renders(repo_id: RepoId, path: SpecRepoPath) -> spec_fn(SpecRenderKey) -> bool {
    |k: SpecRenderKey| k.repo_id == repo_id && k.path == path
}

impl SpecClientCore {
    /// The daemon welcomed us: subscribe from where we left off.
    #[verifier::opaque]
    pub open spec fn welcomed(self) -> Result<SpecClientCore, SpecCoreError> {
        match self.connection {
            Connection::Connecting { hello_sent, last_seq } => if hello_sent {
                Ok(
                    self.request(
                        SpecRequest::Subscribe {
                            since: match last_seq {
                                Some(seq) => Since::After { seq },
                                None => Since::Now,
                            },
                        },
                        SpecInFlight::Subscribe,
                    ),
                )
            } else {
                Err(self.wrong_state(InputKind::Server))
            },
            _ => Err(self.wrong_state(InputKind::Server)),
        }
    }

    /// The daemon turned us away: we are down, and the view says why.
    #[verifier::opaque]
    pub open spec fn turned_away(self, error: SpecRpcError) -> SpecClientCore {
        SpecClientCore {
            connection: Connection::Disconnected { last_seq: self.connection.spec_last_seq() },
            ..self
        }.cleared().with_connection_view(SpecConnectionView::Rejected { error })
    }

    /// The key is wanted no more.
    #[verifier::opaque]
    pub open spec fn content_failed(self, key: SpecCacheKey) -> SpecClientCore {
        self.with_content(self.flow.content.forgot(key))
    }

    #[verifier::opaque]
    pub open spec fn opened_stream(self) -> SpecClientCore {
        if self.view.review is Some {
            self.auto_open_first().touch(seq![ViewSection::Diff])
        } else {
            self
        }
    }

    #[verifier::opaque]
    pub open spec fn stream_ended(self, id: RequestId) -> Result<SpecClientCore, SpecCoreError> {
        match self.flow.wire.waiting(id) {
            None => Err(SpecCoreError::UnknownRequest(id)),
            Some(SpecInFlight::OpenReview { .. }) => Ok(self.request_done(id).opened_stream()),
            Some(SpecInFlight::FileRender { render, .. }) => Ok(
                self.request_done(id).content_failed(SpecCacheKey::Header { render }).content_done(),
            ),
            Some(_) => Err(answering::unexpected(id, "Response"@, "StreamEnd"@)),
        }
    }

    #[verifier::opaque]
    pub open spec fn with_selector_status(self, status: SpecRefSelectorStatus) -> SpecClientCore {
        match self.ref_selector {
            Some(s) => self.with_selector(
                SpecRefSelector { view: SpecRefSelectorView { status, ..s.view }, ..s },
            ),
            None => self,
        }
    }

    /// The mutation is refused: what it did is undone.
    #[verifier::opaque]
    pub open spec fn mutation_refused(self, client_seq: ClientSeq, error: SpecRpcError) -> SpecClientCore {
        let c = self.retired(client_seq).refreshed().touch(seq![ViewSection::Threads]);
        if data::some_where(self.pending, retargets(client_seq)) {
            c.with_selector_status(error.selector_status())
        } else {
            c
        }
    }

    /// A reference that waits for the review no longer does.
    #[verifier::opaque]
    pub open spec fn reference_dropped(self, review_id: ReviewId) -> SpecClientCore {
        match self.pending_reference {
            Some(p) => if p.reference.review_id == review_id {
                SpecClientCore { pending_reference: None, ..self }
            } else {
                self
            },
            None => self,
        }
    }

    /// What a failed request leaves, by what it was.
    #[verifier::opaque]
    pub open spec fn failure_of(self, id: RequestId, waiting: SpecInFlight, error: SpecRpcError) -> SpecClientCore {
        match waiting {
            SpecInFlight::Subscribe => self.with_connection_view(SpecConnectionView::Connecting),
            SpecInFlight::Mutate { client_seq } => self.mutation_refused(client_seq, error),
            SpecInFlight::ListRefs { .. } => self.with_selector_status(
                SpecRefSelectorStatus::DaemonError { message: error.message() },
            ),
            SpecInFlight::BrowseTree { .. } => self.browse_failed(id, error),
            SpecInFlight::OpenReview { review_id } => self.reference_dropped(review_id),
            SpecInFlight::ReviewSnapshot { review_id } => self.reference_dropped(review_id),
            SpecInFlight::CreationDefault { review_id, repo_id } => self.creation_default_answer(
                review_id,
                repo_id,
                SpecCreationDefaultState::Failed { message: error.message() },
            ),
            SpecInFlight::CreateReview { review_id, .. } => self.creation_write_failed(review_id, error),
            SpecInFlight::CheckFailedCreation { review_id, error: original } => self.creation_failure_checked(
                review_id,
                original,
                error,
            ),
            SpecInFlight::ReconcileCreation { review_id } => self.creation_lookup_failed(review_id, error),
            SpecInFlight::PreviewSuggestion { review_id, comment_id } => self.suggestion_failed(
                id,
                review_id,
                comment_id,
                error,
            ),
            SpecInFlight::ApplySuggestion { review_id, comment_id } => self.suggestion_failed(
                id,
                review_id,
                comment_id,
                error,
            ),
            _ => self,
        }
    }

    /// Content that failed may be asked for again, and makes room.
    #[verifier::opaque]
    pub open spec fn content_lost(self, waiting: SpecInFlight) -> SpecClientCore {
        let c = match waiting.key() {
            Some(key) => self.content_failed(key),
            None => self,
        };
        if waiting.is_content() {
            c.content_done()
        } else {
            c
        }
    }

    #[verifier::opaque]
    pub open spec fn with_last_error(self, error: SpecRpcError) -> SpecClientCore {
        self.with_view(
            SpecViewModel { last_error: Some(error), ..self.view },
        ).touch(seq![ViewSection::Connection])
    }

    #[verifier::opaque]
    pub open spec fn request_failed(self, id: RequestId, error: SpecRpcError) -> Result<SpecClientCore, SpecCoreError> {
        match self.flow.wire.waiting(id) {
            None => Err(SpecCoreError::UnknownRequest(id)),
            Some(waiting) => Ok(
                self.request_done(id).with_last_error(error).failure_of(id, waiting, error).content_lost(waiting),
            ),
        }
    }

    pub open spec fn catching_up(self, seq: EventSeq) -> SpecClientCore {
        SpecClientCore {
            connection: Connection::Connecting { hello_sent: true, last_seq: Some(seq) },
            ..self
        }
    }

    /// Events come in order. Our own echo after its answer is expected; the
    /// daemon replays what was missed before it answers the subscription.
    #[verifier::opaque]
    pub open spec fn event_seen(self, event: SpecEvent) -> Result<SpecClientCore, SpecCoreError> {
        match self.connection {
            Connection::Subscribed { last_seq } => if event.seq == last_seq && event.client_id
                == self.config.client_id {
                Ok(self)
            } else if event.seq.0 <= last_seq.0 {
                Err(SpecCoreError::StaleEvent { seq: event.seq, last_seq })
            } else {
                Ok(self.with_last_seq(event.seq).applied(event))
            },
            Connection::Connecting { hello_sent, last_seq: Some(last_seq) } => if !hello_sent {
                Err(self.wrong_state(InputKind::Server))
            } else if event.seq.0 <= last_seq.0 {
                Err(SpecCoreError::StaleEvent { seq: event.seq, last_seq })
            } else {
                Ok(self.catching_up(event.seq).applied(event))
            },
            _ => Err(self.wrong_state(InputKind::Server)),
        }
    }

    #[verifier::opaque]
    pub open spec fn stream_snapshot(
        self,
        id: RequestId,
        review_id: ReviewId,
        snapshot: SpecReviewSnapshot,
    ) -> Result<
        SpecClientCore,
        SpecCoreError,
    > {
        if snapshot.review.id != review_id {
            Err(answering::unexpected(id, "ReviewSnapshot for the requested review"@, "ReviewSnapshot"@))
        } else {
            Ok(
                self.installed(id, snapshot).review_trees(false).touch(
                    answering::opened_sections(),
                ).landed_in(review_id),
            )
        }
    }

    #[verifier::opaque]
    pub open spec fn opening_chunk(
        self,
        id: RequestId,
        repo_id: RepoId,
        path: SpecRepoPath,
        chunk: SpecRenderChunk,
        size: Bytes,
    ) -> Result<SpecClientCore, SpecCoreError> {
        let render = match self.view.review {
            Some(open) => data::found(open.files, renders(repo_id, path)),
            None => None,
        };
        match render {
            Some(render) => Ok(
                self.arrived(
                    SpecCacheKey::Chunk { render, index: chunk.index },
                    SpecCacheValue::Chunk { chunk },
                    size,
                    Arrival::Stream,
                ),
            ),
            None => Err(answering::unexpected(id, "Chunk of a file whose header was streamed"@, "Chunk"@)),
        }
    }

    pub open spec fn stream_header(self, header: SpecFileRenderHeader, size: Bytes) -> SpecClientCore {
        self.arrived(
            SpecCacheKey::Header { render: header.render_key() },
            SpecCacheValue::Header { header },
            size,
            Arrival::Stream,
        )
    }

    #[verifier::opaque]
    pub open spec fn streamed(self, id: RequestId, item: SpecStreamItem, size: Bytes) -> Result<
        SpecClientCore,
        SpecCoreError,
    > {
        match self.flow.wire.waiting(id) {
            None => Err(SpecCoreError::UnknownRequest(id)),
            Some(SpecInFlight::OpenReview { review_id }) => match item {
                SpecStreamItem::ReviewSnapshot { snapshot } => self.stream_snapshot(id, review_id, snapshot),
                SpecStreamItem::TreeSnapshot { snapshot } => Ok(
                    self.arrived(
                        SpecCacheKey::Tree { tree: snapshot.tree_key() },
                        SpecCacheValue::Tree { snapshot },
                        size,
                        Arrival::Stream,
                    ),
                ),
                SpecStreamItem::Header { header } => Ok(self.stream_header(header, size)),
                SpecStreamItem::Chunk { repo_id, path, chunk } => self.opening_chunk(
                    id,
                    repo_id,
                    path,
                    chunk,
                    size,
                ),
            },
            Some(SpecInFlight::FileRender { render, stop_after }) => match item {
                SpecStreamItem::Header { header } => if header.render_key() != render {
                    Err(answering::unexpected(id, "Header of the requested file"@, "Header"@))
                } else {
                    Ok(self.stream_header(header, size))
                },
                SpecStreamItem::Chunk { repo_id, path, chunk } => if repo_id != render.repo_id || path
                    != render.path {
                    Err(answering::unexpected(id, "Chunk of the requested file"@, "Chunk"@))
                } else {
                    Ok(self.stream_chunk(id, render, stop_after, chunk, size))
                },
                _ => Err(answering::unexpected(id, "Header or Chunk"@, item.name())),
            },
            Some(_) => Err(answering::unexpected(id, "Response"@, item.name())),
        }
    }

    #[verifier::opaque]
    pub open spec fn tree_moved(self, delta: crate::protocol::SpecTreeDelta, size: Bytes) -> Result<
        SpecClientCore,
        SpecCoreError,
    > {
        if self.subscribed() {
            Ok(self.tree_delta(delta, size))
        } else {
            Err(self.wrong_state(InputKind::Server))
        }
    }

    /// What a message of the daemon makes of the core, and the error it is
    /// refused with. Being turned away is the one error that changes the
    /// core.
    #[verifier::opaque]
    pub open spec fn served(self, msg: SpecServerMsg) -> (SpecClientCore, Option<SpecCoreError>) {
        match msg {
            SpecServerMsg::Rejected { error } => if self.connection is Connecting {
                (self.turned_away(error), Some(SpecCoreError::Rejected(error)))
            } else {
                (self, Some(self.wrong_state(InputKind::Server)))
            },
            SpecServerMsg::Welcome => self.outcome_of(self.welcomed()),
            SpecServerMsg::Response { id, response, len } => self.outcome_of(
                self.responded(id, response, Bytes(len)),
            ),
            SpecServerMsg::StreamItem { id, item, len } => self.outcome_of(
                self.streamed(id, item, Bytes(len)),
            ),
            SpecServerMsg::StreamEnd { id } => self.outcome_of(self.stream_ended(id)),
            SpecServerMsg::Error { id, error } => self.outcome_of(self.request_failed(id, error)),
            SpecServerMsg::Event { event } => self.outcome_of(self.event_seen(event)),
            SpecServerMsg::TreeDelta { delta, len } => self.outcome_of(self.tree_moved(delta, Bytes(len))),
        }
    }

    /// A refused input changes nothing.
    pub open spec fn outcome_of(self, r: Result<SpecClientCore, SpecCoreError>) -> (
        SpecClientCore,
        Option<SpecCoreError>,
    ) {
        match r {
            Ok(c) => (c, None),
            Err(e) => (self, Some(e)),
        }
    }
}

/// The core is as `goal` says, and so is the error.
pub open spec fn concluded(
    after: SpecClientCore,
    r: Result<(), CoreError>,
    goal: (SpecClientCore, Option<SpecCoreError>),
) -> bool {
    match r {
        Ok(_) => goal == (after, None::<SpecCoreError>),
        Err(e) => goal == (after, Some(e.deep_view())),
    }
}

impl ClientCore {
    fn welcome(&mut self) -> (r: Result<(), CoreError>)
        ensures
            client::settled(
                old(self).deep_view(),
                final(self).deep_view(),
                r,
                old(self).deep_view().welcomed(),
            ),
    {
        proof {
            reveal(SpecClientCore::welcomed);
        }
        match self.get_connection() {
            Connection::Connecting { hello_sent, last_seq } => {
                if !hello_sent {
                    return Err(self.wrong_state(InputKind::Server));
                }
                let since = match last_seq {
                    Some(seq) => Since::After { seq },
                    None => Since::Now,
                };
                self.request(Request::Subscribe { since }, InFlight::Subscribe);
                Ok(())
            },
            _ => Err(self.wrong_state(InputKind::Server)),
        }
    }

    fn turn_away(&mut self, error: RpcError)
        ensures
            final(self).deep_view() == old(self).deep_view().turned_away(error.deep_view()),
    {
        proof {
            reveal(ClientCore::model);
            reveal(SpecClientCore::turned_away);
        }
        self.connection = Connection::Disconnected { last_seq: self.connection.last_seq() };
        self.clear_in_flight();
        self.view.set_connection(ConnectionView::Rejected { error });
    }

    fn content_failed(&mut self, key: &CacheKey)
        ensures
            final(self).deep_view() == old(self).deep_view().content_failed(key.deep_view()),
    {
        proof {
            reveal(ClientCore::model);
            reveal(SpecClientCore::content_failed);
        }
        self.flow.content.forget(key);
    }

    fn has_review(&self) -> (b: bool)
        ensures
            b == (self.deep_view().view.review is Some),
    {
        proof {
            reveal(ClientCore::model);
        }
        self.view.review().is_some()
    }

    fn stream_end(&mut self, id: RequestId) -> (r: Result<(), CoreError>)
        ensures
            client::settled(
                old(self).deep_view(),
                final(self).deep_view(),
                r,
                old(self).deep_view().stream_ended(id),
            ),
    {
        proof {
            reveal(SpecClientCore::stream_ended);
            reveal(SpecClientCore::opened_stream);
        }
        match self.waiting(id) {
            None => Err(CoreError::UnknownRequest(id)),
            Some(InFlight::OpenReview { .. }) => {
                self.request_done(id);
                if self.has_review() {
                    self.auto_open_first();
                    self.touch(ViewSection::Diff);
                }
                Ok(())
            },
            Some(InFlight::FileRender { render, .. }) => {
                self.request_done(id);
                self.content_failed(&CacheKey::Header { render });
                self.content_done();
                Ok(())
            },
            Some(_) => Err(answering::surprise(id, "Response", "StreamEnd")),
        }
    }

    fn set_selector_status(&mut self, status: RefSelectorStatus)
        ensures
            final(self).deep_view() == old(self).deep_view().with_selector_status(status.deep_view()),
    {
        proof {
            reveal(ClientCore::model);
            reveal(SpecClientCore::with_selector_status);
        }
        match self.ref_selector.take() {
            Some(selector) => {
                let mut selector = selector;
                selector.view.status = status;
                self.ref_selector = Some(selector);
                self.flow.touch(ViewSection::RefSelector);
            },
            None => {},
        }
    }

    fn retargets(&self, client_seq: ClientSeq) -> (b: bool)
        ensures
            b == data::some_where(self.deep_view().pending, retargets(client_seq)),
    {
        proof {
            reveal(ClientCore::model);
        }
        data::any(
            &self.pending,
            |p: &Pending| -> (b: bool)
                ensures
                    b == retargets(client_seq)(p.deep_view())
            {
                p.client_seq == client_seq && match p.mutation {
                    Mutation::UpdateReviewTarget { .. } => true,
                    _ => false,
                }
            },
            Ghost(retargets(client_seq)),
        )
    }

    fn refuse_mutation(&mut self, client_seq: ClientSeq, error: &RpcError)
        ensures
            final(self).deep_view() == old(self).deep_view().mutation_refused(client_seq, error.deep_view()),
    {
        proof {
            reveal(SpecClientCore::mutation_refused);
        }
        let target = self.retargets(client_seq);
        let _ = self.retire_pending(client_seq);
        self.refresh();
        self.touch(ViewSection::Threads);
        if target {
            self.set_selector_status(errors::selector_error(error));
        }
    }

    fn drop_reference(&mut self, review_id: ReviewId)
        ensures
            final(self).deep_view() == old(self).deep_view().reference_dropped(review_id),
    {
        proof {
            reveal(ClientCore::model);
            reveal(SpecClientCore::reference_dropped);
        }
        let mine = match &self.pending_reference {
            Some(p) => p.reference.review_id == review_id,
            None => false,
        };
        if mine {
            self.pending_reference = None;
        }
    }

    fn set_connection_view(&mut self, connection: ConnectionView)
        ensures
            final(self).deep_view() == old(self).deep_view().with_connection_view(connection.deep_view()),
    {
        proof {
            reveal(ClientCore::model);
        }
        self.view.set_connection(connection);
    }

    fn fail(&mut self, id: RequestId, waiting: &InFlight, error: &RpcError)
        ensures
            final(self).deep_view() == old(self).deep_view().failure_of(
                id,
                waiting.deep_view(),
                error.deep_view(),
            ),
    {
        proof {
            reveal(SpecClientCore::failure_of);
        }
        match waiting {
            InFlight::Subscribe => self.set_connection_view(ConnectionView::Connecting),
            InFlight::Mutate { client_seq } => self.refuse_mutation(*client_seq, error),
            InFlight::ListRefs { .. } => self.set_selector_status(
                RefSelectorStatus::DaemonError { message: errors::rpc_error_message(error) },
            ),
            InFlight::BrowseTree { .. } => self.browse_failed(id, error),
            InFlight::OpenReview { review_id } => self.drop_reference(*review_id),
            InFlight::ReviewSnapshot { review_id } => self.drop_reference(*review_id),
            InFlight::CreationDefault { review_id, repo_id } => self.creation_default_answer(
                *review_id,
                *repo_id,
                CreationDefaultState::Failed { message: errors::rpc_error_message(error) },
            ),
            InFlight::CreateReview { review_id, .. } => self.creation_write_failed(*review_id, error.dup()),
            InFlight::CheckFailedCreation { review_id, error: original } => self.creation_failure_checked(
                *review_id,
                original,
                error,
            ),
            InFlight::ReconcileCreation { review_id } => self.creation_lookup_failed(*review_id, error),
            InFlight::PreviewSuggestion { review_id, comment_id } => self.suggestion_failed(
                id,
                *review_id,
                *comment_id,
                error,
            ),
            InFlight::ApplySuggestion { review_id, comment_id } => self.suggestion_failed(
                id,
                *review_id,
                *comment_id,
                error,
            ),
            _ => {},
        }
    }

    fn lose_content(&mut self, waiting: &InFlight)
        ensures
            final(self).deep_view() == old(self).deep_view().content_lost(waiting.deep_view()),
    {
        proof {
            reveal(SpecClientCore::content_lost);
        }
        if let Some(key) = waiting.key() {
            self.content_failed(&key);
        }
        if waiting.is_content() {
            self.content_done();
        }
    }

    fn set_last_error(&mut self, error: RpcError)
        ensures
            final(self).deep_view() == old(self).deep_view().with_last_error(error.deep_view()),
    {
        proof {
            reveal(ClientCore::model);
            reveal(SpecClientCore::with_last_error);
        }
        self.view.set_last_error(Some(error));
        self.flow.touch(ViewSection::Connection);
    }

    fn request_failed(&mut self, id: RequestId, error: RpcError) -> (r: Result<(), CoreError>)
        ensures
            client::settled(
                old(self).deep_view(),
                final(self).deep_view(),
                r,
                old(self).deep_view().request_failed(id, error.deep_view()),
            ),
    {
        proof {
            reveal(SpecClientCore::request_failed);
        }
        let waiting = match self.waiting(id) {
            Some(w) => w,
            None => {
                return Err(CoreError::UnknownRequest(id));
            },
        };
        self.request_done(id);
        self.set_last_error(error.dup());
        self.fail(id, &waiting, &error);
        self.lose_content(&waiting);
        Ok(())
    }

    fn follow_to(&mut self, seq: EventSeq)
        ensures
            final(self).deep_view() == old(self).deep_view().catching_up(seq),
    {
        proof {
            reveal(ClientCore::model);
        }
        self.connection = Connection::Connecting { hello_sent: true, last_seq: Some(seq) };
    }

    fn own(&self, event: &Event) -> (b: bool)
        ensures
            b == (event.client_id == self.deep_view().config.client_id),
    {
        proof {
            reveal(ClientCore::model);
        }
        event.client_id == self.config.client_id
    }

    fn see_event(&mut self, event: Event) -> (r: Result<(), CoreError>)
        ensures
            client::settled(
                old(self).deep_view(),
                final(self).deep_view(),
                r,
                old(self).deep_view().event_seen(event.deep_view()),
            ),
    {
        proof {
            reveal(SpecClientCore::event_seen);
        }
        match self.get_connection() {
            Connection::Subscribed { last_seq } => {
                if event.seq == last_seq && self.own(&event) {
                    return Ok(());
                }
                if event.seq.0 <= last_seq.0 {
                    return Err(CoreError::StaleEvent { seq: event.seq, last_seq });
                }
                self.set_last_seq(event.seq);
                self.apply_event(event);
                Ok(())
            },
            Connection::Connecting { hello_sent, last_seq: Some(last_seq) } => {
                if !hello_sent {
                    return Err(self.wrong_state(InputKind::Server));
                }
                if event.seq.0 <= last_seq.0 {
                    return Err(CoreError::StaleEvent { seq: event.seq, last_seq });
                }
                self.follow_to(event.seq);
                self.apply_event(event);
                Ok(())
            },
            _ => Err(self.wrong_state(InputKind::Server)),
        }
    }

    fn stream_snapshot(&mut self, id: RequestId, review_id: ReviewId, snapshot: ReviewSnapshot) -> (r: Result<
        (),
        CoreError,
    >)
        ensures
            client::settled(
                old(self).deep_view(),
                final(self).deep_view(),
                r,
                old(self).deep_view().stream_snapshot(id, review_id, snapshot.deep_view()),
            ),
    {
        proof {
            reveal(SpecClientCore::stream_snapshot);
        }
        if snapshot.review.id != review_id {
            return Err(answering::surprise(id, "ReviewSnapshot for the requested review", "ReviewSnapshot"));
        }
        self.install_snapshot(id, snapshot);
        self.review_trees(false);
        self.touch_all(answering::opened());
        self.land_in(review_id);
        Ok(())
    }

    fn listed_render(&self, repo_id: RepoId, path: &RepoPath) -> (r: Option<RenderKey>)
        ensures
            r.deep_view() == (match self.deep_view().view.review {
                Some(open) => data::found(open.files, renders(repo_id, path.deep_view())),
                None => None,
            }),
    {
        proof {
            reveal(ClientCore::model);
        }
        let ghost p = path.deep_view();
        match self.view.review() {
            Some(open) => match data::find(
                &open.files,
                |k: &RenderKey| -> (b: bool)
                    ensures
                        b == renders(repo_id, p)(k.deep_view())
                { k.repo_id == repo_id && k.path.same(path) },
                Ghost(renders(repo_id, p)),
            ) {
                Some(k) => Some(k.dup()),
                None => None,
            },
            None => None,
        }
    }

    fn opening_chunk(&mut self, id: RequestId, repo_id: RepoId, path: &RepoPath, chunk: RenderChunk, size: Bytes) -> (r:
        Result<(), CoreError>)
        ensures
            client::settled(
                old(self).deep_view(),
                final(self).deep_view(),
                r,
                old(self).deep_view().opening_chunk(id, repo_id, path.deep_view(), chunk.deep_view(), size),
            ),
    {
        proof {
            reveal(SpecClientCore::opening_chunk);
        }
        match self.listed_render(repo_id, path) {
            Some(render) => {
                let index = chunk.index;
                self.arrived(
                    CacheKey::Chunk { render, index },
                    CacheValue::Chunk { chunk },
                    size,
                    Arrival::Stream,
                );
                Ok(())
            },
            None => Err(answering::surprise(id, "Chunk of a file whose header was streamed", "Chunk")),
        }
    }

    fn stream_header(&mut self, header: FileRenderHeader, size: Bytes)
        ensures
            final(self).deep_view() == old(self).deep_view().stream_header(header.deep_view(), size),
    {
        let render = RenderKey::of_header(&header);
        self.arrived(CacheKey::Header { render }, CacheValue::Header { header }, size, Arrival::Stream);
    }

    fn stream_item(&mut self, id: RequestId, item: StreamItem, size: Bytes) -> (r: Result<(), CoreError>)
        ensures
            client::settled(
                old(self).deep_view(),
                final(self).deep_view(),
                r,
                old(self).deep_view().streamed(id, item.deep_view(), size),
            ),
    {
        proof {
            reveal(SpecClientCore::streamed);
        }
        let waiting = match self.waiting(id) {
            Some(w) => w,
            None => {
                return Err(CoreError::UnknownRequest(id));
            },
        };
        match waiting {
            InFlight::OpenReview { review_id } => match item {
                StreamItem::ReviewSnapshot { snapshot } => self.stream_snapshot(id, review_id, snapshot),
                StreamItem::TreeSnapshot { snapshot } => {
                    let tree = TreeKey::of_snapshot(&snapshot);
                    self.arrived(
                        CacheKey::Tree { tree },
                        CacheValue::Tree { snapshot },
                        size,
                        Arrival::Stream,
                    );
                    Ok(())
                },
                StreamItem::Header { header } => {
                    self.stream_header(header, size);
                    Ok(())
                },
                StreamItem::Chunk { repo_id, path, chunk } => self.opening_chunk(
                    id,
                    repo_id,
                    &path,
                    chunk,
                    size,
                ),
            },
            InFlight::FileRender { render, stop_after } => match item {
                StreamItem::Header { header } => {
                    if !RenderKey::of_header(&header).same(&render) {
                        return Err(answering::surprise(id, "Header of the requested file", "Header"));
                    }
                    self.stream_header(header, size);
                    Ok(())
                },
                StreamItem::Chunk { repo_id, path, chunk } => {
                    if repo_id != render.repo_id || !path.same(&render.path) {
                        return Err(answering::surprise(id, "Chunk of the requested file", "Chunk"));
                    }
                    self.stream_chunk(id, render, stop_after, chunk, size);
                    Ok(())
                },
                item => Err(answering::surprise(id, "Header or Chunk", errors::stream_item_name(&item))),
            },
            _ => Err(answering::surprise(id, "Response", errors::stream_item_name(&item))),
        }
    }

    fn move_tree(&mut self, delta: &crate::protocol::TreeDelta, size: Bytes) -> (r: Result<(), CoreError>)
        ensures
            client::settled(
                old(self).deep_view(),
                final(self).deep_view(),
                r,
                old(self).deep_view().tree_moved(delta.deep_view(), size),
            ),
    {
        proof {
            reveal(SpecClientCore::tree_moved);
        }
        if !self.is_subscribed() {
            return Err(self.wrong_state(InputKind::Server));
        }
        self.tree_delta(delta, size);
        Ok(())
    }

    pub(crate) fn server(&mut self, msg: ServerMsg) -> (r: Result<(), CoreError>)
        ensures
            concluded(final(self).deep_view(), r, old(self).deep_view().served(msg.deep_view())),
    {
        proof {
            reveal(SpecClientCore::served);
        }
        match msg {
            ServerMsg::Rejected { error } => {
                let connecting = match self.get_connection() {
                    Connection::Connecting { .. } => true,
                    _ => false,
                };
                if connecting {
                    self.turn_away(error.dup());
                    Err(CoreError::Rejected(error))
                } else {
                    Err(self.wrong_state(InputKind::Server))
                }
            },
            ServerMsg::Welcome => self.welcome(),
            ServerMsg::Response { id, response, len } => self.response(id, response, Bytes(len)),
            ServerMsg::StreamItem { id, item, len } => self.stream_item(id, item, Bytes(len)),
            ServerMsg::StreamEnd { id } => self.stream_end(id),
            ServerMsg::Error { id, error } => self.request_failed(id, error),
            ServerMsg::Event { event } => self.see_event(event),
            ServerMsg::TreeDelta { delta, len } => self.move_tree(&delta, Bytes(len)),
        }
    }
}

// ---- laws -----------------------------------------------------------------

/// While subscribed, an event that is taken moves the position in the log
/// forward; only our own echo of the last event may repeat it.
pub proof fn events_are_taken_in_order(core: SpecClientCore, event: SpecEvent, last_seq: EventSeq)
    requires
        core.connection == (Connection::Subscribed { last_seq }),
        core.event_seen(event) is Ok,
    ensures
        event.seq.0 > last_seq.0 || (event.seq == last_seq && event.client_id == core.config.client_id
            && core.event_seen(event) == Ok::<SpecClientCore, SpecCoreError>(core)),
{
    reveal(SpecClientCore::event_seen);
}

/// An answer to a request that nobody waits for changes nothing.
pub proof fn unknown_answers_are_refused(core: SpecClientCore, msg: SpecServerMsg, id: RequestId)
    requires
        core.flow.wire.waiting(id) is None,
        match msg {
            SpecServerMsg::Response { id: of, .. } => of == id,
            SpecServerMsg::StreamItem { id: of, .. } => of == id,
            SpecServerMsg::StreamEnd { id: of } => of == id,
            SpecServerMsg::Error { id: of, .. } => of == id,
            _ => false,
        },
    ensures
        core.served(msg) == (core, Some(SpecCoreError::UnknownRequest(id))),
{
    reveal(SpecClientCore::served);
    reveal(SpecClientCore::responded);
    reveal(SpecClientCore::streamed);
    reveal(SpecClientCore::stream_ended);
    reveal(SpecClientCore::request_failed);
}

} // verus!
