//! The open review as it lives: committed by the daemon, with this client's
//! pending mutations on top.
use vstd::prelude::*;

use crate::client;
use crate::client::{
    ClientCore, CoreError, InputKind, Pending, SpecClientCore, SpecCoreError, SpecKeys, SpecPending,
    SpecPendingReference,
};
use crate::data;
use crate::data::Value;
use crate::events;
use crate::events::{EventMeta, SpecEventMeta};
use crate::flow;
use crate::flow::{InFlight, SnapshotRequest, SpecInFlight, SpecSnapshotRequest, SpecWire};
use crate::focus::Focus;
use crate::protocol::{
    Author, ClientSeq, DiffScope, Event, EventBody, EventSeq, Mutation, Repo, RepoId, Request,
    RequestId, Review, ReviewId, ReviewRequest, ReviewSnapshot, ReviewStatus, ReviewTarget,
    SpecAuthor, SpecEvent, SpecEventBody, SpecMutation, SpecRepo, SpecRequest, SpecReview,
    SpecReviewRequest, SpecReviewSnapshot, SpecReviewTarget, SpecWorkspace, Timestamp, ViewSection,
    Workspace, WorkspaceId,
};
use crate::view::{OpenReview, PendingEvent, SpecOpenReview, SpecPendingEvent, SpecViewModel};

verus! {

/// The snapshot with every pending mutation applied on top, and the
/// sections they touch.
pub open spec fn replayed(snapshot: SpecReviewSnapshot, author: SpecAuthor, pending: Seq<SpecPending>) -> (
    SpecReviewSnapshot,
    Seq<ViewSection>,
)
    decreases pending.len(),
{
    if pending.len() == 0 {
        (snapshot, Seq::empty())
    } else {
        let (shown, sections) = replayed(snapshot, author, pending.drop_last());
        let (shown, more) = shown.after_body(
            SpecEventMeta { author, ts: pending.last().ts },
            pending.last().body,
        );
        (shown, sections + more)
    }
}

/// How a pending mutation is shown.
pub open spec fn as_shown() -> spec_fn(SpecPending) -> SpecPendingEvent {
    |p: SpecPending| SpecPendingEvent { client_seq: p.client_seq, body: p.body }
}

pub open spec fn not_seq(client_seq: ClientSeq) -> spec_fn(SpecPending) -> bool {
    |p: SpecPending| p.client_seq != client_seq
}

pub open spec fn review_is(id: ReviewId) -> spec_fn(SpecReview) -> bool {
    |r: SpecReview| r.id == id
}

pub open spec fn review_is_not(id: ReviewId) -> spec_fn(SpecReview) -> bool {
    |r: SpecReview| r.id != id
}

pub open spec fn workspace_is(id: WorkspaceId) -> spec_fn(SpecWorkspace) -> bool {
    |w: SpecWorkspace| w.id == id
}

pub open spec fn workspace_is_not(id: WorkspaceId) -> spec_fn(SpecWorkspace) -> bool {
    |w: SpecWorkspace| w.id != id
}

pub open spec fn repo_is(id: RepoId) -> spec_fn(SpecRepo) -> bool {
    |r: SpecRepo| r.id == id
}

pub open spec fn repo_is_not(id: RepoId) -> spec_fn(SpecRepo) -> bool {
    |r: SpecRepo| r.id != id
}

/// Older invitations first.
pub open spec fn request_order() -> spec_fn(SpecReviewRequest, SpecReviewRequest) -> bool {
    |a: SpecReviewRequest, b: SpecReviewRequest| a.id.0.0 <= b.id.0.0
}

/// The invitations, and those of `more` that came after the snapshot.
pub open spec fn with_requests(
    have: Seq<SpecReviewRequest>,
    seq: EventSeq,
    more: Seq<SpecReviewRequest>,
) -> Seq<
    SpecReviewRequest,
>
    decreases more.len(),
{
    if more.len() == 0 {
        have
    } else {
        let out = with_requests(have, seq, more.drop_last());
        let r = more.last();
        if r.id.0.0 > seq.0 && !data::some_where(out, events::request_is(r.id)) {
            out.push(r)
        } else {
            out
        }
    }
}

/// The snapshot with the invitations that arrived ahead of it.
pub open spec fn caught_up(snapshot: SpecReviewSnapshot, wire: SpecWire, id: RequestId) -> SpecReviewSnapshot {
    match data::found(wire.snapshot_requests, flow::snapshot_for(id)) {
        Some(s) => SpecReviewSnapshot {
            requests: data::sorted(
                with_requests(snapshot.requests, snapshot.seq, s.requests),
                request_order(),
            ),
            ..snapshot
        },
        None => snapshot,
    }
}

/// An invitation is kept for a snapshot of its review that is on its way.
pub open spec fn invited(request: SpecReviewRequest) -> spec_fn(SpecSnapshotRequest) -> SpecSnapshotRequest {
    |s: SpecSnapshotRequest|
        if s.review_id == request.review_id && !data::some_where(s.requests, events::request_is(request.id)) {
            SpecSnapshotRequest { requests: s.requests.push(request), ..s }
        } else {
            s
        }
}

/// The reviews with one retitled.
pub open spec fn retitled(reviews: Seq<SpecReview>, id: ReviewId, title: Seq<char>, status: ReviewStatus) -> Seq<SpecReview> {
    match data::first_where(reviews, review_is(id)) {
        Some(i) => reviews.update(i, SpecReview { title, status, ..reviews[i] }),
        None => reviews,
    }
}

/// Whether the review is listed and has a target in this repository.
pub open spec fn has_target(reviews: Seq<SpecReview>, id: ReviewId, repo_id: RepoId) -> bool {
    match data::found(reviews, review_is(id)) {
        Some(r) => data::first_where(r.targets, events::target_of(repo_id)) is Some,
        None => false,
    }
}

/// The reviews with one retargeted.
pub open spec fn retargeted(reviews: Seq<SpecReview>, id: ReviewId, target: SpecReviewTarget) -> Seq<SpecReview> {
    match data::first_where(reviews, review_is(id)) {
        Some(i) => match data::first_where(reviews[i].targets, events::target_of(target.repo_id)) {
            Some(j) => reviews.update(
                i,
                SpecReview { targets: reviews[i].targets.update(j, target), ..reviews[i] },
            ),
            None => reviews,
        },
        None => reviews,
    }
}

/// The workspaces with one renamed.
pub open spec fn renamed(workspaces: Seq<SpecWorkspace>, id: WorkspaceId, name: Seq<char>) -> Seq<SpecWorkspace> {
    match data::first_where(workspaces, workspace_is(id)) {
        Some(i) => workspaces.update(i, SpecWorkspace { name, ..workspaces[i] }),
        None => workspaces,
    }
}

/// The workspaces with a repository taken out of one and, perhaps, put back
/// at its end.
pub open spec fn rewired(
    workspaces: Seq<SpecWorkspace>,
    id: WorkspaceId,
    repo_id: RepoId,
    repo: Option<SpecRepo>,
) -> Seq<
    SpecWorkspace,
> {
    match data::first_where(workspaces, workspace_is(id)) {
        Some(i) => {
            let rest = workspaces[i].repos.filter(repo_is_not(repo_id));
            workspaces.update(
                i,
                SpecWorkspace {
                    repos: match repo {
                        Some(r) => rest.push(r),
                        None => rest,
                    },
                    ..workspaces[i]
                },
            )
        },
        None => workspaces,
    }
}

impl SpecClientCore {
    pub open spec fn stamp(self) -> Timestamp {
        Timestamp(if self.now <= i64::MAX { self.now as i64 } else { i64::MAX })
    }

    /// What this client's own events carry, at the core's current time.
    pub open spec fn meta(self) -> SpecEventMeta {
        SpecEventMeta { author: self.config.author, ts: self.stamp() }
    }

    /// The sections a rebase touches: what the pending mutations touch, and
    /// the threads when the last one just went.
    pub open spec fn rebase_sections(self) -> Seq<ViewSection> {
        match (self.committed, self.view.review) {
            (Some(committed), Some(open)) => {
                let sections = replayed(committed, self.config.author, self.pending).1;
                if open.pending.len() > 0 && self.pending.len() == 0 {
                    sections.push(ViewSection::Threads)
                } else {
                    sections
                }
            },
            _ => Seq::empty(),
        }
    }

    /// The shown snapshot is the committed one plus every pending mutation.
    #[verifier::opaque]
    pub open spec fn rebased(self) -> SpecClientCore {
        match (self.committed, self.view.review) {
            (Some(committed), Some(open)) => self.with_view(
                SpecViewModel {
                    resolved_targets: open.heads(committed),
                    review: Some(
                        SpecOpenReview {
                            snapshot: replayed(committed, self.config.author, self.pending).0,
                            pending: self.pending.map_values(as_shown()),
                            ..open
                        },
                    ),
                    ..self.view
                },
            ),
            _ => self,
        }
    }

    /// Rebased, with the touched sections to be rendered.
    pub open spec fn refreshed(self) -> SpecClientCore {
        self.rebased().touch(self.rebase_sections())
    }

    /// No event of our own is held back.
    pub open spec fn holds_no_echo(self) -> bool {
        forall|i: int|
            0 <= i < self.deferred.len() ==> (#[trigger] self.deferred[i]).client_id != self.config.client_id
    }

    /// What is shown is what is committed with the pending mutations on
    /// top, under the targets it resolved to, and no event of our own is held
    /// back.
    #[verifier::opaque]
    pub open spec fn in_sync(self) -> bool {
        &&& match (self.committed, self.view.review) {
            (Some(committed), Some(open)) => open.snapshot == replayed(
                committed,
                self.config.author,
                self.pending,
            ).0
                && open.pending == self.pending.map_values(as_shown()) && self.view.resolved_targets == open.heads(
                committed,
            ),
            _ => true,
        }
        &&& self.holds_no_echo()
    }

    /// What is shown is in sync, and the content is sound.
    pub open spec fn sound(self) -> bool {
        self.in_sync() && self.flow.content.sound()
    }

    /// An echo of our own that answers a pending mutation is about the open
    /// review, and none is held back.
    pub open spec fn echo_fits(self, event: SpecEvent) -> bool {
        event.client_id == self.config.client_id ==> {
            &&& !self.holds(event)
            &&& self.retired(event.client_seq).pending != self.pending ==> (self.committed matches Some(committed)
                ==> event.body.review_id() == Some(committed.review.id))
        }
    }

    /// The pending mutation is answered.
    pub open spec fn retired(self, client_seq: ClientSeq) -> SpecClientCore {
        SpecClientCore { pending: self.pending.filter(not_seq(client_seq)), ..self }
    }

    pub open spec fn with_next_seq(self) -> SpecClientCore {
        self.with_flow(
            self.flow.with_wire(
                SpecWire { next_client_seq: flow::next(self.flow.wire.next_client_seq), ..self.flow.wire },
            ),
        )
    }

    /// A mutation is applied optimistically and sent.
    #[verifier::opaque]
    pub open spec fn mutated_with(self, mutation: SpecMutation, body: SpecEventBody) -> SpecClientCore {
        let client_seq = ClientSeq(self.flow.wire.next_client_seq);
        let c = self.with_next_seq();
        SpecClientCore {
            pending: c.pending.push(SpecPending { client_seq, ts: self.stamp(), mutation, body, sent: true }),
            ..c
        }.request(
            SpecRequest::Mutate { client_seq, mutation },
            SpecInFlight::Mutate { client_seq },
        ).refreshed()
    }

    /// A mutation is applied and sent, unless the daemon would reject it.
    #[verifier::opaque]
    pub open spec fn mutated(self, mutation: SpecMutation) -> Result<SpecClientCore, SpecCoreError> {
        if !self.subscribed() {
            Err(self.wrong_state(InputKind::User))
        } else {
            match self.view.review {
                None => Err(SpecCoreError::NoOpenReview),
                Some(open) => match open.snapshot.local_event(self.meta(), mutation) {
                    Ok(body) => Ok(self.mutated_with(mutation, body)),
                    Err(e) => Err(SpecCoreError::Mutation(e)),
                },
            }
        }
    }

    /// The open review and everything that belongs to it is dropped.
    #[verifier::opaque]
    pub open spec fn closed_review(self) -> SpecClientCore {
        SpecClientCore {
            view: SpecViewModel {
                review: None,
                open_review: None,
                resolved_targets: Seq::empty(),
                draft: None,
                pending_refresh: false,
                content_search: None,
                action_palette: false,
                focused_comment: None,
                ..self.view
            },
            flow: self.flow.with_wire(SpecWire { latest_search: None, ..self.flow.wire }),
            deferred: Seq::empty(),
            committed: None,
            pending: Seq::empty(),
            stepper: None,
            keys: SpecKeys { help_context: None, focus_return: None, visual_anchor: None, ..self.keys },
            by_commit_pending: false,
            browse: None,
            browse_attempt: None,
            browse_repo: None,
            ref_selector: None,
            suggestions: Seq::empty(),
            ..self
        }.review_closed()
    }

    /// The snapshot is the open review, with these mutations pending. Keys
    /// go to its explorer.
    #[verifier::opaque]
    pub open spec fn adopted(self, snapshot: SpecReviewSnapshot, pending: Seq<SpecPending>) -> SpecClientCore {
        (SpecClientCore {
            committed: Some(snapshot),
            view: SpecViewModel {
                open_review: Some(snapshot.review.id),
                review: Some(SpecOpenReview::new(snapshot)),
                ..self.view
            },
            pending,
            ..self
        }).rebased().with_focus(Focus::Tree { index: 0 })
    }

    /// A snapshot becomes the open review. Pending mutations for the same
    /// review survive.
    #[verifier::opaque]
    pub open spec fn installed(self, id: RequestId, snapshot: SpecReviewSnapshot) -> SpecClientCore {
        let snapshot = caught_up(snapshot, self.flow.wire, id);
        let pending = if self.committed is Some && self.committed->0.review.id == snapshot.review.id {
            self.pending
        } else {
            Seq::empty()
        };
        let c = self.with_flow(self.flow.with_wire(self.flow.wire.snapshot_done(id))).closed_review();
        let c = c.adopted(snapshot, pending);
        if snapshot.review.targets.len() > 0 {
            let repo_id = snapshot.review.targets[0].repo_id;
            c.request(
                SpecRequest::ListCommits { review_id: snapshot.review.id, repo_id },
                SpecInFlight::ListCommits { repo_id },
            )
        } else {
            c
        }
    }

    /// What waits for the event is told of it.
    #[verifier::opaque]
    pub open spec fn observed(self, event: SpecEvent) -> SpecClientCore {
        let c = match event.request() {
            Some(request) => self.with_flow(
                self.flow.with_wire(
                    SpecWire {
                        snapshot_requests: self.flow.wire.snapshot_requests.map_values(invited(request)),
                        ..self.flow.wire
                    },
                ),
            ),
            None => self,
        };
        match c.pending_reference {
            Some(p) => if event.body.review_id() == Some(p.reference.review_id) {
                SpecClientCore {
                    pending_reference: Some(SpecPendingReference { events: p.events.push(event), ..p }),
                    ..c
                }
            } else {
                c
            },
            None => c,
        }
    }

    pub open spec fn with_reviews(self, reviews: Seq<SpecReview>) -> SpecClientCore {
        self.with_view(SpecViewModel { reviews, ..self.view })
    }

    pub open spec fn with_workspaces(self, workspaces: Seq<SpecWorkspace>) -> SpecClientCore {
        self.with_view(SpecViewModel { workspaces, ..self.view }).touch(seq![ViewSection::ReviewList])
    }

    /// The review list and the workspaces after an event.
    #[verifier::opaque]
    pub open spec fn relisted(self, body: SpecEventBody) -> SpecClientCore {
        let reviews = self.view.reviews;
        let workspaces = self.view.workspaces;
        match body {
            SpecEventBody::ReviewCreated { review } => self.with_reviews(
                reviews.filter(review_is_not(review.id)).push(review),
            ).touch(seq![ViewSection::ReviewList]),
            SpecEventBody::ReviewUpdated { review_id, title, status } => if data::some_where(
                reviews,
                review_is(review_id),
            ) {
                self.with_reviews(
                    retitled(reviews, review_id, title, status),
                ).touch(seq![ViewSection::ReviewList])
            } else {
                self
            },
            SpecEventBody::ReviewTargetUpdated { review_id, target } => self.target_moved(review_id, target),
            SpecEventBody::ReviewDeleted { review_id } => self.review_deleted(review_id),
            SpecEventBody::WorkspaceCreated { workspace } => self.with_workspaces(
                workspaces.filter(workspace_is_not(workspace.id)).push(workspace),
            ),
            SpecEventBody::WorkspaceUpdated { workspace_id, name } => if data::some_where(
                workspaces,
                workspace_is(workspace_id),
            ) {
                self.with_workspaces(renamed(workspaces, workspace_id, name))
            } else {
                self
            },
            SpecEventBody::RepoAttached { workspace_id, repo } => if data::some_where(
                workspaces,
                workspace_is(workspace_id),
            ) {
                self.with_workspaces(rewired(workspaces, workspace_id, repo.id, Some(repo)))
            } else {
                self
            },
            SpecEventBody::RepoDetached { workspace_id, repo_id } => if data::some_where(
                workspaces,
                workspace_is(workspace_id),
            ) {
                self.with_workspaces(rewired(workspaces, workspace_id, repo_id, None))
            } else {
                self
            },
            _ => self,
        }
    }

    /// A target of a review moved; a selector that was choosing it closes.
    #[verifier::opaque]
    pub open spec fn target_moved(self, review_id: ReviewId, target: SpecReviewTarget) -> SpecClientCore {
        let c = if has_target(self.view.reviews, review_id, target.repo_id) {
            self.with_reviews(
                retargeted(self.view.reviews, review_id, target),
            ).touch(seq![ViewSection::ReviewList])
        } else {
            self
        };
        if c.ref_selector is Some && c.ref_selector->0.view.repo_id == target.repo_id && c.committed is Some
            && c.committed->0.review.id == review_id {
            (SpecClientCore { ref_selector: None, ..c }).touch(seq![ViewSection::RefSelector])
        } else {
            c
        }
    }

    /// A review is gone; if it was open, it closes.
    #[verifier::opaque]
    pub open spec fn review_deleted(self, review_id: ReviewId) -> SpecClientCore {
        let reviews = self.view.reviews.filter(review_is_not(review_id));
        let c = self.with_reviews(reviews);
        let c = if reviews.len() != self.view.reviews.len() {
            c.touch(seq![ViewSection::ReviewList])
        } else {
            c
        };
        if c.open_id() == Some(review_id) {
            c.closed_review().touch(
                seq![ViewSection::ReviewList, ViewSection::Diff, ViewSection::Threads, ViewSection::Draft],
            )
        } else {
            c
        }
    }

    /// The event is folded into the open review, if it is about it. New
    /// heads mean new trees and renders.
    #[verifier::opaque]
    pub open spec fn folded(self, event: SpecEvent) -> SpecClientCore {
        match self.committed {
            Some(committed) => if event.body.review_id() == Some(committed.review.id) {
                let (next, sections) = committed.after_event(event);
                let c = (SpecClientCore { committed: Some(next), ..self }).touch(sections).refreshed();
                match event.body {
                    SpecEventBody::ReviewTargetsResolved { review_id, .. } => c.touch(
                        seq![ViewSection::ReviewList],
                    ).review_trees(true).list_files(review_id),
                    _ => c,
                }
            } else {
                self
            },
            None => self,
        }
    }

    /// New resolved targets wait while a draft is open.
    pub open spec fn holds(self, event: SpecEvent) -> bool {
        match event.body {
            SpecEventBody::ReviewTargetsResolved { review_id, .. } => self.open_id() == Some(review_id)
                && self.view.draft is Some,
            _ => false,
        }
    }

    #[verifier::opaque]
    pub open spec fn held(self, event: SpecEvent) -> SpecClientCore {
        let c = SpecClientCore { deferred: self.deferred.push(event), ..self };
        if c.view.pending_refresh {
            c
        } else {
            c.with_view(SpecViewModel { pending_refresh: true, ..c.view }).touch(seq![ViewSection::Draft])
        }
    }

    /// A committed event: what waits is told, our own mutation is retired,
    /// the lists change, and then the open review.
    #[verifier::opaque]
    pub open spec fn applied(self, event: SpecEvent) -> SpecClientCore {
        let c = self.observed(event).creation_observed(event.body);
        let c = if event.client_id == c.config.client_id {
            c.retired(event.client_seq)
        } else {
            c
        };
        if c.holds(event) {
            c.held(event)
        } else {
            c.relisted(event.body).folded(event)
        }
    }

    pub open spec fn all_applied(self, events: Seq<SpecEvent>) -> SpecClientCore
        decreases events.len(),
    {
        if events.len() == 0 {
            self
        } else {
            self.all_applied(events.drop_last()).applied(events.last())
        }
    }

    /// The draft closed: what waited for that is applied.
    #[verifier::opaque]
    pub open spec fn undeferred(self) -> SpecClientCore {
        let c = SpecClientCore {
            deferred: Seq::empty(),
            view: SpecViewModel { pending_refresh: false, ..self.view },
            ..self
        };
        c.touch(seq![ViewSection::Draft, ViewSection::Focus]).all_applied(self.deferred)
    }
}

pub fn find_review<'a>(reviews: &'a Vec<Review>, id: ReviewId) -> (r: Option<usize>)
    ensures
        match r {
            Some(i) => i < reviews@.len() && data::first_where(
                reviews.deep_view(),
                review_is(id),
            ) == Some(i as int)
                && data::found(reviews.deep_view(), review_is(id)) == Some(reviews@[i as int].deep_view()),
            None => data::first_where(reviews.deep_view(), review_is(id)) is None,
        },
        (r is Some) == data::some_where(reviews.deep_view(), review_is(id)),
{
    data::position(
        reviews,
        |r: &Review| -> (b: bool)
            ensures
                b == review_is(id)(r.deep_view())
        { r.id == id },
        Ghost(review_is(id)),
    )
}

pub fn find_workspace(workspaces: &Vec<Workspace>, id: WorkspaceId) -> (r: Option<usize>)
    ensures
        match r {
            Some(i) => i < workspaces@.len() && data::first_where(workspaces.deep_view(), workspace_is(id)) == Some(
                i as int,
            ) && data::found(
                workspaces.deep_view(),
                workspace_is(id),
            ) == Some(workspaces@[i as int].deep_view()),
            None => data::first_where(workspaces.deep_view(), workspace_is(id)) is None && data::found(
                workspaces.deep_view(),
                workspace_is(id),
            ) is None,
        },
        (r is Some) == data::some_where(workspaces.deep_view(), workspace_is(id)),
{
    data::position(
        workspaces,
        |w: &Workspace| -> (b: bool)
            ensures
                b == workspace_is(id)(w.deep_view())
        { w.id == id },
        Ghost(workspace_is(id)),
    )
}

fn drop_review(reviews: &mut Vec<Review>, id: ReviewId)
    ensures
        final(reviews).deep_view() == old(reviews).deep_view().filter(review_is_not(id)),
{
    data::retain(
        reviews,
        |r: &Review| -> (b: bool)
            ensures
                b == review_is_not(id)(r.deep_view())
        { r.id != id },
        Ghost(review_is_not(id)),
    );
}

fn retitle(reviews: &mut Vec<Review>, id: ReviewId, title: &String, status: ReviewStatus) -> (there: bool)
    ensures
        final(reviews).deep_view() == retitled(old(reviews).deep_view(), id, title@, status),
        there == data::some_where(old(reviews).deep_view(), review_is(id)),
{
    match find_review(reviews, id) {
        Some(i) => {
            let mut r = reviews[i].dup();
            assert(reviews.deep_view()[i as int] == reviews@[i as int].deep_view());
            r.title = title.dup();
            r.status = status;
            data::set(reviews, i, r);
            true
        },
        None => false,
    }
}

fn retarget(reviews: &mut Vec<Review>, id: ReviewId, target: &ReviewTarget) -> (there: bool)
    ensures
        final(reviews).deep_view() == retargeted(old(reviews).deep_view(), id, target.deep_view()),
        there == has_target(old(reviews).deep_view(), id, target.repo_id),
{
    match find_review(reviews, id) {
        Some(i) => {
            let mut r = reviews[i].dup();
            assert(reviews.deep_view()[i as int] == reviews@[i as int].deep_view());
            match events::target_at(&r.targets, target.repo_id) {
                Some(j) => {
                    data::set(&mut r.targets, j, target.dup());
                    data::set(reviews, i, r);
                    true
                },
                None => false,
            }
        },
        None => false,
    }
}

fn rename(workspaces: &mut Vec<Workspace>, id: WorkspaceId, name: &String) -> (there: bool)
    ensures
        final(workspaces).deep_view() == renamed(old(workspaces).deep_view(), id, name@),
        there == data::some_where(old(workspaces).deep_view(), workspace_is(id)),
{
    match find_workspace(workspaces, id) {
        Some(i) => {
            let mut w = workspaces[i].dup();
            assert(workspaces.deep_view()[i as int] == workspaces@[i as int].deep_view());
            w.name = name.dup();
            data::set(workspaces, i, w);
            true
        },
        None => false,
    }
}

fn rewire(
    workspaces: &mut Vec<Workspace>,
    id: WorkspaceId,
    repo_id: RepoId,
    repo: Option<Repo>,
) -> (there: bool)
    ensures
        final(workspaces).deep_view() == rewired(old(workspaces).deep_view(), id, repo_id, repo.deep_view()),
        there == data::some_where(old(workspaces).deep_view(), workspace_is(id)),
{
    match find_workspace(workspaces, id) {
        Some(i) => {
            let mut w = workspaces[i].dup();
            assert(workspaces.deep_view()[i as int] == workspaces@[i as int].deep_view());
            data::retain(
                &mut w.repos,
                |r: &Repo| -> (b: bool)
                    ensures
                        b == repo_is_not(repo_id)(r.deep_view())
                { r.id != repo_id },
                Ghost(repo_is_not(repo_id)),
            );
            if let Some(r) = repo {
                data::push(&mut w.repos, r);
            }
            data::set(workspaces, i, w);
            true
        },
        None => false,
    }
}

fn replay(snapshot: &mut ReviewSnapshot, author: &Author, pending: &Vec<Pending>) -> (r: Vec<ViewSection>)
    ensures
        (final(snapshot).deep_view(), r.deep_view()) == replayed(
            old(snapshot).deep_view(),
            author.deep_view(),
            pending.deep_view(),
        ),
{
    let n: usize = pending.len();
    let ghost all = pending.deep_view();
    let ghost start = snapshot.deep_view();
    let mut out: Vec<ViewSection> = data::empty();
    for i in 0..n
        invariant
            n == pending@.len(),
            all == pending.deep_view(),
            (snapshot.deep_view(), out.deep_view()) == replayed(
                start,
                author.deep_view(),
                all.take(i as int),
            ),
    {
        assert(all.take(i + 1).drop_last() =~= all.take(i as int));
        assert(all.take(i + 1).last() == pending@[i as int].deep_view());
        let p = &pending[i];
        let meta = EventMeta { author: author.dup(), ts: p.ts };
        let more = events::apply_body(snapshot, &meta, &p.body);
        data::append(&mut out, more);
    }
    assert(all.take(n as int) =~= all);
    out
}

fn add_requests(have: &mut Vec<ReviewRequest>, seq: EventSeq, more: &Vec<ReviewRequest>)
    ensures
        final(have).deep_view() == with_requests(old(have).deep_view(), seq, more.deep_view()),
{
    let n: usize = more.len();
    let ghost all = more.deep_view();
    let ghost start = have.deep_view();
    for i in 0..n
        invariant
            n == more@.len(),
            all == more.deep_view(),
            have.deep_view() == with_requests(start, seq, all.take(i as int)),
    {
        assert(all.take(i + 1).drop_last() =~= all.take(i as int));
        assert(all.take(i + 1).last() == more@[i as int].deep_view());
        let r = &more[i];
        if r.id.0.0 > seq.0 && !events::has_request(have, r.id) {
            data::push(have, r.dup());
        }
    }
    assert(all.take(n as int) =~= all);
}

impl ClientCore {
    pub(crate) fn stamp(&self) -> (r: Timestamp)
        ensures
            r == self.deep_view().stamp(),
    {
        proof {
            reveal(ClientCore::model);
        }
        if self.now <= 0x7fff_ffff_ffff_ffff {
            Timestamp(self.now as i64)
        } else {
            Timestamp(i64::MAX)
        }
    }

    /// What this client's own events carry, at the core's current time.
    pub(crate) fn meta_now(&self) -> (r: EventMeta)
        ensures
            r.deep_view() == self.deep_view().meta(),
    {
        proof {
            reveal(ClientCore::model);
        }
        EventMeta { author: self.config.author.dup(), ts: self.stamp() }
    }

    /// Rebuild the shown snapshot; returns the sections the pending
    /// mutations touch.
    pub(crate) fn rebase(&mut self) -> (r: Vec<ViewSection>)
        ensures
            final(self).deep_view() == old(self).deep_view().rebased(),
            r.deep_view() == old(self).deep_view().rebase_sections(),
    {
        proof {
            reveal(ClientCore::model);
            reveal(SpecClientCore::rebased);
        }
        let committed = match &self.committed {
            Some(c) => c,
            None => {
                return data::empty();
            },
        };
        let open = match self.view.take_review() {
            Some(open) => open,
            None => {
                return data::empty();
            },
        };
        let mut open = open;
        let targets = match open.scope {
            DiffScope::All => match &committed.resolved {
                Some(r) => r.dup(),
                None => data::empty(),
            },
            _ => open.scoped_targets.dup(),
        };
        let mut shown = committed.dup();
        let mut sections = replay(&mut shown, &self.config.author, &self.pending);
        assert(open.pending.deep_view().len() == open.pending@.len());
        assert(self.pending.deep_view().len() == self.pending@.len());
        if open.pending.len() > 0 && self.pending.len() == 0 {
            data::push(&mut sections, ViewSection::Threads);
        }
        open.snapshot = shown;
        open.pending = data::map(
            &self.pending,
            |p: &Pending| -> (e: PendingEvent)
                ensures
                    e.deep_view() == as_shown()(p.deep_view())
            { PendingEvent { client_seq: p.client_seq, body: p.body.dup() } },
            Ghost(as_shown()),
        );
        self.view.set_resolved_targets(targets);
        self.view.set_review(Some(open));
        sections
    }

    /// Rebase and render what it touches.
    pub(crate) fn refresh(&mut self)
        ensures
            final(self).deep_view() == old(self).deep_view().refreshed(),
    {
        proof {
            reveal(ClientCore::model);
        }
        let sections = self.rebase();
        self.flow.touch_all(sections);
    }

    /// Retire the pending mutation the daemon has answered. Tells whether
    /// there was one.
    pub(crate) fn retire_pending(&mut self, client_seq: ClientSeq) -> (there: bool)
        ensures
            final(self).deep_view() == old(self).deep_view().retired(client_seq),
            there == (final(self).deep_view().pending.len() != old(self).deep_view().pending.len()),
    {
        proof {
            reveal(ClientCore::model);
        }
        let before: usize = self.pending.len();
        assert(self.pending.deep_view().len() == self.pending@.len());
        data::retain(
            &mut self.pending,
            |p: &Pending| -> (b: bool)
                ensures
                    b == not_seq(client_seq)(p.deep_view())
            { p.client_seq != client_seq },
            Ghost(not_seq(client_seq)),
        );
        assert(self.pending.deep_view().len() == self.pending@.len());
        self.pending.len() != before
    }

    pub(crate) fn next_seq(&mut self) -> (r: ClientSeq)
        ensures
            final(self).deep_view() == old(self).deep_view().with_next_seq(),
            r == ClientSeq(old(self).deep_view().flow.wire.next_client_seq),
    {
        proof {
            reveal(ClientCore::model);
        }
        let r = ClientSeq(self.flow.wire.next_client_seq);
        self.flow.wire.next_client_seq = self.flow.wire.next_client_seq.wrapping_add(1);
        r
    }

    /// Apply a mutation whose event is built and validated, and send it.
    pub(crate) fn mutate_with(&mut self, mutation: Mutation, body: EventBody)
        ensures
            final(self).deep_view() == old(self).deep_view().mutated_with(
                mutation.deep_view(),
                body.deep_view(),
            ),
    {
        proof {
            reveal(ClientCore::model);
            reveal(SpecClientCore::mutated_with);
        }
        let ts = self.stamp();
        let client_seq = self.next_seq();
        data::push(&mut self.pending, Pending { client_seq, ts, mutation: mutation.dup(), body, sent: true });
        self.flow.request(Request::Mutate { client_seq, mutation }, InFlight::Mutate { client_seq });
        self.refresh();
    }

    /// Apply a mutation optimistically and send it. Nothing happens when
    /// the daemon would reject it against the current view.
    pub(crate) fn mutate(&mut self, mutation: Mutation) -> (r: Result<(), CoreError>)
        ensures
            client::settled(
                old(self).deep_view(),
                final(self).deep_view(),
                r,
                old(self).deep_view().mutated(mutation.deep_view()),
            ),
    {
        proof {
            reveal(ClientCore::model);
            reveal(SpecClientCore::mutated);
        }
        if !self.is_subscribed() {
            return Err(self.wrong_state(InputKind::User));
        }
        let body = match self.view.review() {
            Some(open) => {
                let meta = self.meta_now();
                match events::local_event(&open.snapshot, &meta, &mutation) {
                    Ok(body) => body,
                    Err(e) => {
                        return Err(CoreError::Mutation(e));
                    },
                }
            },
            None => {
                return Err(CoreError::NoOpenReview);
            },
        };
        self.mutate_with(mutation, body);
        Ok(())
    }

    /// Drop the open review and everything that belongs to it.
    pub(crate) fn close_review(&mut self)
        ensures
            final(self).deep_view() == old(self).deep_view().closed_review(),
    {
        proof {
            reveal(ClientCore::model);
            reveal(SpecClientCore::closed_review);
        }
        self.view.set_review(None);
        self.view.set_open_review(None);
        self.view.set_resolved_targets(data::empty());
        self.view.set_draft(None);
        self.view.set_pending_refresh(false);
        self.view.set_content_search(None);
        self.view.set_action_palette(false);
        self.view.set_focused_comment(None);
        self.flow.wire.latest_search = None;
        self.deferred = data::empty();
        self.committed = None;
        self.pending = data::empty();
        self.stepper = None;
        self.keys.help_context = None;
        self.keys.focus_return = None;
        self.keys.visual_anchor = None;
        self.by_commit_pending = false;
        self.browse = None;
        self.browse_attempt = None;
        self.browse_repo = None;
        self.ref_selector = None;
        self.suggestions = data::empty();
        self.review_closed();
    }

    fn catch_up(&mut self, id: RequestId, snapshot: ReviewSnapshot) -> (r: ReviewSnapshot)
        ensures
            r.deep_view() == caught_up(snapshot.deep_view(), old(self).deep_view().flow.wire, id),
            final(self).deep_view() == old(self).deep_view().with_flow(
                old(self).deep_view().flow.with_wire(old(self).deep_view().flow.wire.snapshot_done(id)),
            ),
    {
        proof {
            reveal(ClientCore::model);
        }
        let mut snapshot = snapshot;
        match data::find(
            &self.flow.wire.snapshot_requests,
            |s: &SnapshotRequest| -> (b: bool)
                ensures
                    b == flow::snapshot_for(id)(s.deep_view())
            { s.id == id },
            Ghost(flow::snapshot_for(id)),
        ) {
            Some(s) => {
                add_requests(&mut snapshot.requests, snapshot.seq, &s.requests);
                data::sort(
                    &mut snapshot.requests,
                    |a: &ReviewRequest, b: &ReviewRequest| -> (r: bool)
                        ensures
                            r == request_order()(a.deep_view(), b.deep_view())
                    { a.id.0.0 <= b.id.0.0 },
                    Ghost(request_order()),
                );
            },
            None => {},
        }
        self.flow.wire.snapshot_done(id);
        snapshot
    }

    fn adopt(&mut self, snapshot: ReviewSnapshot, pending: Vec<Pending>)
        ensures
            final(self).deep_view() == old(self).deep_view().adopted(
                snapshot.deep_view(),
                pending.deep_view(),
            ),
    {
        proof {
            reveal(ClientCore::model);
            reveal(SpecClientCore::adopted);
        }
        let review_id = snapshot.review.id;
        let committed = Some(snapshot.dup());
        let open = Some(OpenReview::new(snapshot));
        self.view.set_open_review(Some(review_id));
        self.view.set_review(open);
        self.committed = committed;
        self.pending = pending;
        let ghost mid = self.deep_view();
        assert(mid.committed == Some(snapshot.deep_view()));
        let _ = self.rebase();
        assert(self.deep_view() == mid.rebased());
        self.view.set_focus(Focus::Tree { index: 0 });
    }

    /// A snapshot arrived: it becomes the open review.
    pub(crate) fn install_snapshot(&mut self, id: RequestId, snapshot: ReviewSnapshot)
        ensures
            final(self).deep_view() == old(self).deep_view().installed(id, snapshot.deep_view()),
    {
        proof {
            reveal(ClientCore::model);
            reveal(SpecClientCore::installed);
        }
        let snapshot = self.catch_up(id, snapshot);
        let same = match &self.committed {
            Some(c) => c.review.id == snapshot.review.id,
            None => false,
        };
        let pending = if same {
            self.pending.dup()
        } else {
            data::empty()
        };
        self.close_review();
        let review_id = snapshot.review.id;
        assert(snapshot.review.targets.deep_view().len() == snapshot.review.targets@.len());
        let first = if snapshot.review.targets.len() > 0 {
            Some(snapshot.review.targets[0].repo_id)
        } else {
            None
        };
        self.adopt(snapshot, pending);
        if let Some(repo_id) = first {
            self.flow.request(Request::ListCommits { review_id, repo_id }, InFlight::ListCommits { repo_id });
        }
    }

    fn observe(&mut self, event: &Event)
        ensures
            final(self).deep_view() == old(self).deep_view().observed(event.deep_view()),
    {
        proof {
            reveal(ClientCore::model);
            reveal(SpecClientCore::observed);
        }
        if let Some(request) = ReviewRequest::from_event(event) {
            self.flow.wire.snapshot_requests = data::map(
                &self.flow.wire.snapshot_requests,
                |s: &SnapshotRequest| -> (r: SnapshotRequest)
                    ensures
                        r.deep_view() == invited(request.deep_view())(s.deep_view())
                {
                    let mut s = s.dup();
                    if s.review_id == request.review_id && !events::has_request(&s.requests, request.id) {
                        data::push(&mut s.requests, request.dup());
                    }
                    s
                },
                Ghost(invited(request.deep_view())),
            );
        }
        match self.pending_reference.take() {
            Some(p) => {
                let mut p = p;
                if event.body.review_id() == Some(p.reference.review_id) {
                    data::push(&mut p.events, event.dup());
                }
                self.pending_reference = Some(p);
            },
            None => {},
        }
    }

    fn target_moved(&mut self, review_id: ReviewId, target: &ReviewTarget)
        ensures
            final(self).deep_view() == old(self).deep_view().target_moved(review_id, target.deep_view()),
    {
        proof {
            reveal(ClientCore::model);
            reveal(SpecClientCore::target_moved);
        }
        let mut reviews = self.view.reviews().dup();
        if retarget(&mut reviews, review_id, target) {
            self.view.set_reviews(reviews);
            self.flow.touch(ViewSection::ReviewList);
        }
        let close = match &self.ref_selector {
            Some(s) => s.view.repo_id == target.repo_id && match &self.committed {
                Some(c) => c.review.id == review_id,
                None => false,
            },
            None => false,
        };
        if close {
            self.ref_selector = None;
            self.flow.touch(ViewSection::RefSelector);
        }
    }

    fn review_deleted(&mut self, review_id: ReviewId)
        ensures
            final(self).deep_view() == old(self).deep_view().review_deleted(review_id),
    {
        proof {
            reveal(ClientCore::model);
            reveal(SpecClientCore::review_deleted);
        }
        let mut reviews = self.view.reviews().dup();
        assert(reviews.deep_view().len() == reviews@.len());
        let before: usize = reviews.len();
        drop_review(&mut reviews, review_id);
        assert(reviews.deep_view().len() == reviews@.len());
        let gone = reviews.len() != before;
        self.view.set_reviews(reviews);
        if gone {
            self.flow.touch(ViewSection::ReviewList);
        }
        if self.open_id() == Some(review_id) {
            self.close_review();
            let mut s = data::two(ViewSection::ReviewList, ViewSection::Diff);
            data::append(&mut s, data::two(ViewSection::Threads, ViewSection::Draft));
            assert(s.deep_view() =~= seq![
                ViewSection::ReviewList,
                ViewSection::Diff,
                ViewSection::Threads,
                ViewSection::Draft,
            ]);
            self.flow.touch_all(s);
        }
    }

    fn relist(&mut self, body: &EventBody)
        ensures
            final(self).deep_view() == old(self).deep_view().relisted(body.deep_view()),
    {
        proof {
            reveal(ClientCore::model);
            reveal(SpecClientCore::relisted);
        }
        match body {
            EventBody::ReviewCreated { review } => {
                let mut reviews = self.view.reviews().dup();
                drop_review(&mut reviews, review.id);
                data::push(&mut reviews, review.dup());
                self.view.set_reviews(reviews);
                self.flow.touch(ViewSection::ReviewList);
            },
            EventBody::ReviewUpdated { review_id, title, status } => {
                let mut reviews = self.view.reviews().dup();
                if retitle(&mut reviews, *review_id, title, *status) {
                    self.view.set_reviews(reviews);
                    self.flow.touch(ViewSection::ReviewList);
                }
            },
            EventBody::ReviewTargetUpdated { review_id, target } => {
                self.target_moved(*review_id, target);
            },
            EventBody::ReviewDeleted { review_id } => {
                self.review_deleted(*review_id);
            },
            EventBody::WorkspaceCreated { workspace } => {
                let id = workspace.id;
                let mut workspaces = self.view.workspaces().dup();
                data::retain(
                    &mut workspaces,
                    |w: &Workspace| -> (b: bool)
                        ensures
                            b == workspace_is_not(id)(w.deep_view())
                    { w.id != id },
                    Ghost(workspace_is_not(id)),
                );
                data::push(&mut workspaces, workspace.dup());
                self.view.set_workspaces(workspaces);
                self.flow.touch(ViewSection::ReviewList);
            },
            EventBody::WorkspaceUpdated { workspace_id, name } => {
                let mut workspaces = self.view.workspaces().dup();
                if rename(&mut workspaces, *workspace_id, name) {
                    self.view.set_workspaces(workspaces);
                    self.flow.touch(ViewSection::ReviewList);
                }
            },
            EventBody::RepoAttached { workspace_id, repo } => {
                let mut workspaces = self.view.workspaces().dup();
                if rewire(&mut workspaces, *workspace_id, repo.id, Some(repo.dup())) {
                    self.view.set_workspaces(workspaces);
                    self.flow.touch(ViewSection::ReviewList);
                }
            },
            EventBody::RepoDetached { workspace_id, repo_id } => {
                let mut workspaces = self.view.workspaces().dup();
                if rewire(&mut workspaces, *workspace_id, *repo_id, None) {
                    self.view.set_workspaces(workspaces);
                    self.flow.touch(ViewSection::ReviewList);
                }
            },
            _ => {},
        }
    }

    fn fold(&mut self, event: &Event)
        ensures
            final(self).deep_view() == old(self).deep_view().folded(event.deep_view()),
    {
        proof {
            reveal(ClientCore::model);
            reveal(SpecClientCore::folded);
        }
        match self.committed.take() {
            Some(committed) => {
                let mut committed = committed;
                if event.body.review_id() == Some(committed.review.id) {
                    let sections = events::apply_event(&mut committed, event);
                    self.committed = Some(committed);
                    self.flow.touch_all(sections);
                    self.refresh();
                    match &event.body {
                        EventBody::ReviewTargetsResolved { review_id, .. } => {
                            self.flow.touch(ViewSection::ReviewList);
                            self.review_trees(true);
                            self.list_files(*review_id);
                        },
                        _ => {},
                    }
                } else {
                    self.committed = Some(committed);
                }
            },
            None => {},
        }
    }

    fn hold(&mut self, event: Event)
        ensures
            final(self).deep_view() == old(self).deep_view().held(event.deep_view()),
    {
        proof {
            reveal(ClientCore::model);
            reveal(SpecClientCore::held);
        }
        data::push(&mut self.deferred, event);
        if !self.view.pending_refresh() {
            self.view.set_pending_refresh(true);
            self.flow.touch(ViewSection::Draft);
        }
    }

    /// Fold a committed event into the core.
    pub(crate) fn apply_event(&mut self, event: Event)
        ensures
            final(self).deep_view() == old(self).deep_view().applied(event.deep_view()),
    {
        proof {
            reveal(ClientCore::model);
            reveal(SpecClientCore::applied);
        }
        self.observe(&event);
        self.creation_observe(&event.body);
        if event.client_id == self.config.client_id {
            let _ = self.retire_pending(event.client_seq);
        }
        let held = match &event.body {
            EventBody::ReviewTargetsResolved { review_id, .. } => self.open_id() == Some(*review_id)
                && self.view.draft().is_some(),
            _ => false,
        };
        if held {
            self.hold(event);
        } else {
            self.relist(&event.body);
            self.fold(&event);
        }
    }

    /// Apply the refreshes held back during a draft.
    pub(crate) fn drain_deferred(&mut self)
        ensures
            final(self).deep_view() == old(self).deep_view().undeferred(),
    {
        proof {
            reveal(ClientCore::model);
            reveal(SpecClientCore::undeferred);
        }
        let deferred = self.deferred.dup();
        self.deferred = data::empty();
        self.view.set_pending_refresh(false);
        self.flow.touch_all(data::two(ViewSection::Draft, ViewSection::Focus));
        let n: usize = deferred.len();
        let ghost all = deferred.deep_view();
        let ghost start = self.deep_view();
        assert(all.take(0) =~= Seq::empty());
        for i in 0..n
            invariant
                n == deferred@.len(),
                all == deferred.deep_view(),
                self.deep_view() == start.all_applied(all.take(i as int)),
        {
            assert(all.take(i + 1).drop_last() =~= all.take(i as int));
            assert(all.take(i + 1).last() == deferred@[i as int].deep_view());
            self.apply_event(deferred[i].dup());
        }
        assert(all.take(n as int) =~= all);
    }
}

} // verus!
