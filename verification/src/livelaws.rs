//! What events and mutations do to the lists, the open review and what is
//! still on its way, said of the parts they change.
use vstd::prelude::*;

use crate::client::{SpecClientCore, SpecCoreError, SpecPending};
use crate::content::SpecFetch;
use crate::data;
use crate::events;
use crate::events::SpecEventMeta;
use crate::live::{
    not_seq, replayed, review_is, review_is_not, repo_is_not, with_requests, workspace_is, workspace_is_not,
};
use crate::fetching::{roots_of, tree_fetches};
use crate::flow::SpecErrand;
use crate::focus::Focus;
use crate::protocol::{
    ClientSeq, EventSeq, RequestId, ReviewId, ReviewStatus, SpecAuthor, SpecClientMsg, SpecEvent, SpecEventBody,
    SpecMutation, SpecRepo, SpecRequest, SpecReview, SpecReviewRequest, SpecReviewSnapshot, SpecReviewTarget,
    SpecWorkspace, ViewSection, WorkspaceId,
};
use crate::view::SpecOpenReview;

verus! {

// ---- reviews --------------------------------------------------------------

/// The review at `i` is the first with that id.
pub open spec fn named_review(reviews: Seq<SpecReview>, id: ReviewId, i: int) -> bool {
    &&& 0 <= i < reviews.len()
    &&& reviews[i].id == id
    &&& forall|j: int| 0 <= j < i ==> (#[trigger] reviews[j]).id != id
}

pub open spec fn lists_review(reviews: Seq<SpecReview>, id: ReviewId) -> bool {
    exists|i: int| 0 <= i < reviews.len() && (#[trigger] reviews[i]).id == id
}

/// The workspace at `i` is the first with that id.
pub open spec fn named_workspace(workspaces: Seq<SpecWorkspace>, id: WorkspaceId, i: int) -> bool {
    &&& 0 <= i < workspaces.len()
    &&& workspaces[i].id == id
    &&& forall|j: int| 0 <= j < i ==> (#[trigger] workspaces[j]).id != id
}

pub open spec fn lists_workspace(workspaces: Seq<SpecWorkspace>, id: WorkspaceId) -> bool {
    exists|i: int| 0 <= i < workspaces.len() && (#[trigger] workspaces[i]).id == id
}

proof fn lemma_review(reviews: Seq<SpecReview>, id: ReviewId, i: int)
    requires
        named_review(reviews, id, i),
    ensures
        data::first_where(reviews, review_is(id)) == Some(i),
        data::some_where(reviews, review_is(id)),
{
    let p = review_is(id);
    data::lemma_first_where(reviews, p);
    assert(p(reviews[i]));
    if let Some(k) = data::first_where(reviews, p) {
        assert(p(reviews[k]));
        if k < i {
            assert(reviews[k].id != id);
        }
        if i < k {
            assert(!p(reviews[i]));
        }
    }
}

proof fn lemma_no_review(reviews: Seq<SpecReview>, id: ReviewId)
    requires
        !lists_review(reviews, id),
    ensures
        data::first_where(reviews, review_is(id)) is None,
        data::found(reviews, review_is(id)) is None,
        !data::some_where(reviews, review_is(id)),
{
    let p = review_is(id);
    data::lemma_first_where(reviews, p);
    if let Some(k) = data::first_where(reviews, p) {
        assert(p(reviews[k]));
    }
}

proof fn lemma_workspace(workspaces: Seq<SpecWorkspace>, id: WorkspaceId, i: int)
    requires
        named_workspace(workspaces, id, i),
    ensures
        data::first_where(workspaces, workspace_is(id)) == Some(i),
        data::some_where(workspaces, workspace_is(id)),
{
    let p = workspace_is(id);
    data::lemma_first_where(workspaces, p);
    assert(p(workspaces[i]));
    if let Some(k) = data::first_where(workspaces, p) {
        assert(p(workspaces[k]));
        if k < i {
            assert(workspaces[k].id != id);
        }
        if i < k {
            assert(!p(workspaces[i]));
        }
    }
}

proof fn lemma_no_workspace(workspaces: Seq<SpecWorkspace>, id: WorkspaceId)
    requires
        !lists_workspace(workspaces, id),
    ensures
        !data::some_where(workspaces, workspace_is(id)),
{
    let p = workspace_is(id);
    if data::some_where(workspaces, p) {
        let k = choose|k: int| 0 <= k < workspaces.len() && #[trigger] p(workspaces[k]);
        assert(workspaces[k].id == id);
    }
}

/// The open review, and what is on its way to it, stay as they are.
pub open spec fn keeps_open(a: SpecClientCore, b: SpecClientCore) -> bool {
    &&& b.committed == a.committed
    &&& b.pending == a.pending
    &&& b.deferred == a.deferred
    &&& b.view.review == a.view.review
    &&& b.view.open_review == a.view.open_review
    &&& b.view.draft == a.view.draft
    &&& b.view.focus == a.view.focus
    &&& b.connection == a.connection
}

/// A review that is created is listed last; one listed under its id before is
/// replaced, and every other stays.
pub proof fn created_reviews_are_listed_last(core: SpecClientCore, review: SpecReview, r: SpecReview)
    ensures
        ({
            let out = core.relisted(SpecEventBody::ReviewCreated { review });
            &&& out.view.reviews.len() > 0
            &&& out.view.reviews.last() == review
            &&& out.view.reviews.contains(r) <==> r == review || (core.view.reviews.contains(r) && r.id != review.id)
            &&& out.view.workspaces == core.view.workspaces
            &&& keeps_open(core, out)
        }),
{
    reveal(SpecClientCore::relisted);
    let rest = core.view.reviews.filter(review_is_not(review.id));
    data::lemma_filter_has(core.view.reviews, review_is_not(review.id), r);
    vstd::seq_lib::lemma_seq_contains_after_push(rest, review, r);
}

/// An update gives the review its new title and status in place, and changes
/// no other.
pub proof fn updated_reviews_are_retitled(
    core: SpecClientCore,
    id: ReviewId,
    title: Seq<char>,
    status: ReviewStatus,
)
    ensures
        ({
            let out = core.relisted(SpecEventBody::ReviewUpdated { review_id: id, title, status });
            let (a, b) = (core.view.reviews, out.view.reviews);
            &&& b.len() == a.len()
            &&& !lists_review(a, id) ==> b == a
            &&& forall|i: int| #[trigger]
                named_review(a, id, i) ==> {
                    &&& b[i].title == title
                    &&& b[i].status == status
                    &&& b[i].id == id
                    &&& b[i].workspace_id == a[i].workspace_id
                    &&& b[i].targets == a[i].targets
                    &&& forall|j: int| 0 <= j < a.len() && j != i ==> #[trigger] b[j] == a[j]
                }
            &&& out.view.workspaces == core.view.workspaces
            &&& keeps_open(core, out)
        }),
{
    reveal(SpecClientCore::relisted);
    let a = core.view.reviews;
    data::lemma_first_where(a, review_is(id));
    if !lists_review(a, id) {
        lemma_no_review(a, id);
    }
    assert forall|i: int| #[trigger] named_review(a, id, i) implies data::first_where(a, review_is(id)) == Some(i)
        && data::some_where(a, review_is(id)) by {
        lemma_review(a, id, i);
    }
}

/// A deleted review is no longer listed, every other stays; it closes if it
/// was open, and only then.
pub proof fn deleted_reviews_are_listed_no_more(core: SpecClientCore, id: ReviewId, r: SpecReview)
    ensures
        ({
            let out = core.relisted(SpecEventBody::ReviewDeleted { review_id: id });
            &&& out.view.reviews.contains(r) <==> core.view.reviews.contains(r) && r.id != id
            &&& out.view.workspaces == core.view.workspaces
            &&& core.open_id() != Some(id) ==> keeps_open(core, out)
            &&& core.open_id() == Some(id) ==> out.view.review is None && out.committed is None && out.pending.len()
                == 0
        }),
{
    reveal(SpecClientCore::relisted);
    reveal(SpecClientCore::review_deleted);
    reveal(SpecClientCore::closed_review);
    reveal(SpecClientCore::review_closed);
    data::lemma_filter_has(core.view.reviews, review_is_not(id), r);
}

/// A target that moves replaces the one of its repository in the listed
/// review, and changes no other target or review.
pub proof fn moved_targets_are_listed(core: SpecClientCore, id: ReviewId, target: SpecReviewTarget)
    ensures
        ({
            let out = core.relisted(SpecEventBody::ReviewTargetUpdated { review_id: id, target });
            let (a, b) = (core.view.reviews, out.view.reviews);
            &&& b.len() == a.len()
            &&& !lists_review(a, id) ==> b == a
            &&& forall|i: int| #[trigger]
                named_review(a, id, i) ==> {
                    &&& b[i].id == id
                    &&& b[i].title == a[i].title
                    &&& b[i].status == a[i].status
                    &&& b[i].workspace_id == a[i].workspace_id
                    &&& b[i].targets.len() == a[i].targets.len()
                    &&& forall|k: int|
                        0 <= k < a[i].targets.len() ==> {
                            &&& (#[trigger] b[i].targets[k]).repo_id == a[i].targets[k].repo_id
                            &&& a[i].targets[k].repo_id != target.repo_id ==> b[i].targets[k] == a[i].targets[k]
                            &&& a[i].targets[k].repo_id == target.repo_id && (forall|m: int|
                                0 <= m < k ==> (#[trigger] a[i].targets[m]).repo_id != target.repo_id)
                                ==> b[i].targets[k] == target
                        }
                    &&& forall|j: int| 0 <= j < a.len() && j != i ==> #[trigger] b[j] == a[j]
                }
            &&& keeps_open(core, out)
        }),
{
    reveal(SpecClientCore::relisted);
    reveal(SpecClientCore::target_moved);
    let a = core.view.reviews;
    data::lemma_first_where(a, review_is(id));
    if !lists_review(a, id) {
        lemma_no_review(a, id);
    }
    assert forall|i: int| #[trigger] named_review(a, id, i) implies data::first_where(a, review_is(id)) == Some(i)
        && data::found(a, review_is(id)) == Some(a[i]) by {
        lemma_review(a, id, i);
    }
    let p = events::target_of(target.repo_id);
    assert forall|i: int| 0 <= i < a.len() implies match data::first_where((#[trigger] a[i]).targets, p) {
        Some(k) => 0 <= k < a[i].targets.len() && a[i].targets[k].repo_id == target.repo_id && forall|m: int|
            0 <= m < k ==> (#[trigger] a[i].targets[m]).repo_id != target.repo_id,
        None => forall|m: int| 0 <= m < a[i].targets.len() ==> (#[trigger] a[i].targets[m]).repo_id != target.repo_id,
    } by {
        let t = a[i].targets;
        data::lemma_first_where(t, p);
        match data::first_where(t, p) {
            Some(k) => {
                assert(p(t[k]));
                assert forall|m: int| 0 <= m < k implies (#[trigger] t[m]).repo_id != target.repo_id by {
                    assert(!p(t[m]));
                }
            },
            None => {
                assert forall|m: int| 0 <= m < t.len() implies (#[trigger] t[m]).repo_id != target.repo_id by {
                    assert(!p(t[m]));
                }
            },
        }
    }
}

/// A workspace that is created is listed last, in place of one with its id;
/// every other stays.
pub proof fn created_workspaces_are_listed_last(
    core: SpecClientCore,
    workspace: SpecWorkspace,
    w: SpecWorkspace,
)
    ensures
        ({
            let out = core.relisted(SpecEventBody::WorkspaceCreated { workspace });
            &&& out.view.workspaces.len() > 0
            &&& out.view.workspaces.last() == workspace
            &&& out.view.workspaces.contains(w) <==> w == workspace || (core.view.workspaces.contains(w) && w.id
                != workspace.id)
            &&& out.view.reviews == core.view.reviews
            &&& keeps_open(core, out)
        }),
{
    reveal(SpecClientCore::relisted);
    let rest = core.view.workspaces.filter(workspace_is_not(workspace.id));
    data::lemma_filter_has(core.view.workspaces, workspace_is_not(workspace.id), w);
    vstd::seq_lib::lemma_seq_contains_after_push(rest, workspace, w);
}

/// Only the workspace at `i` differs.
pub open spec fn other_workspaces_stay(a: Seq<SpecWorkspace>, b: Seq<SpecWorkspace>, i: int) -> bool {
    &&& b.len() == a.len()
    &&& b[i].id == a[i].id
    &&& forall|j: int| 0 <= j < a.len() && j != i ==> #[trigger] b[j] == a[j]
}

/// A workspace is renamed in place, and keeps its repositories.
pub proof fn updated_workspaces_are_renamed(core: SpecClientCore, id: WorkspaceId, name: Seq<char>)
    ensures
        ({
            let out = core.relisted(SpecEventBody::WorkspaceUpdated { workspace_id: id, name });
            let (a, b) = (core.view.workspaces, out.view.workspaces);
            &&& !lists_workspace(a, id) ==> b == a
            &&& forall|i: int| #[trigger]
                named_workspace(a, id, i) ==> other_workspaces_stay(a, b, i) && b[i].name == name && b[i].repos
                    == a[i].repos
            &&& out.view.reviews == core.view.reviews
            &&& keeps_open(core, out)
        }),
{
    reveal(SpecClientCore::relisted);
    let a = core.view.workspaces;
    if !lists_workspace(a, id) {
        lemma_no_workspace(a, id);
    }
    assert forall|i: int| #[trigger] named_workspace(a, id, i) implies data::first_where(a, workspace_is(id))
        == Some(i) && data::some_where(a, workspace_is(id)) by {
        lemma_workspace(a, id, i);
    }
}

/// An attached repository stands last in its workspace, in place of one with
/// its id; a detached one is gone. The other repositories and workspaces
/// stay.
pub proof fn repositories_are_attached_and_detached(
    core: SpecClientCore,
    id: WorkspaceId,
    repo: SpecRepo,
    r: SpecRepo,
)
    ensures
        ({
            let on = core.relisted(SpecEventBody::RepoAttached { workspace_id: id, repo });
            let off = core.relisted(SpecEventBody::RepoDetached { workspace_id: id, repo_id: repo.id });
            let a = core.view.workspaces;
            &&& !lists_workspace(a, id) ==> on.view.workspaces == a && off.view.workspaces == a
            &&& forall|i: int| #[trigger]
                named_workspace(a, id, i) ==> {
                    let x = on.view.workspaces;
                    let y = off.view.workspaces;
                    &&& other_workspaces_stay(a, x, i)
                    &&& x[i].name == a[i].name
                    &&& x[i].repos.len() > 0
                    &&& x[i].repos.last() == repo
                    &&& x[i].repos.contains(r) <==> r == repo || (a[i].repos.contains(r) && r.id != repo.id)
                    &&& other_workspaces_stay(a, y, i)
                    &&& y[i].name == a[i].name
                    &&& y[i].repos.contains(r) <==> a[i].repos.contains(r) && r.id != repo.id
                }
            &&& on.view.reviews == core.view.reviews
            &&& off.view.reviews == core.view.reviews
            &&& keeps_open(core, on)
            &&& keeps_open(core, off)
        }),
{
    reveal(SpecClientCore::relisted);
    let a = core.view.workspaces;
    if !lists_workspace(a, id) {
        lemma_no_workspace(a, id);
    }
    let p = repo_is_not(repo.id);
    assert forall|i: int| #[trigger] named_workspace(a, id, i) implies data::first_where(a, workspace_is(id))
        == Some(i) && data::some_where(a, workspace_is(id)) && (a[i].repos.filter(p).contains(r)
        <==> a[i].repos.contains(r) && r.id != repo.id) && (a[i].repos.filter(p).push(repo).contains(r) <==> r == repo
        || (a[i].repos.contains(r) && r.id != repo.id)) by {
        lemma_workspace(a, id, i);
        data::lemma_filter_has(a[i].repos, p, r);
        vstd::seq_lib::lemma_seq_contains_after_push(a[i].repos.filter(p), repo, r);
    }
}

/// Events about what is written in a review leave the lists as they are.
pub proof fn other_events_keep_the_lists(core: SpecClientCore, body: SpecEventBody)
    requires
        !(body is ReviewCreated),
        !(body is ReviewUpdated),
        !(body is ReviewTargetUpdated),
        !(body is ReviewDeleted),
        !(body is WorkspaceCreated),
        !(body is WorkspaceUpdated),
        !(body is RepoAttached),
        !(body is RepoDetached),
    ensures
        core.relisted(body) == core,
{
    reveal(SpecClientCore::relisted);
}

// ---- mutations on their way -----------------------------------------------

/// What is shown with one mutation more is what was shown before it, with
/// that mutation applied by this author at its time.
pub proof fn pending_mutations_are_shown_in_order(
    snapshot: SpecReviewSnapshot,
    author: SpecAuthor,
    pending: Seq<SpecPending>,
    last: SpecPending,
)
    ensures
        replayed(snapshot, author, Seq::empty()).0 == snapshot,
        replayed(snapshot, author, pending.push(last)).0 == replayed(snapshot, author, pending).0.after_body(
            SpecEventMeta { author, ts: last.ts },
            last.body,
        ).0,
{
    assert(pending.push(last).drop_last() =~= pending);
}

/// A mutation is sent under the next number and waits, last, for its answer;
/// those before it still do, and nothing committed changes.
pub proof fn mutations_are_sent_and_wait(core: SpecClientCore, mutation: SpecMutation, body: SpecEventBody)
    ensures
        ({
            let out = core.mutated_with(mutation, body);
            let n = core.pending.len() as int;
            let seq = ClientSeq(core.flow.wire.next_client_seq);
            &&& out.pending.len() == n + 1
            &&& forall|i: int| 0 <= i < n ==> #[trigger] out.pending[i] == core.pending[i]
            &&& out.pending[n].client_seq == seq
            &&& out.pending[n].mutation == mutation
            &&& out.pending[n].body == body
            &&& out.pending[n].sent
            &&& core.now <= i64::MAX ==> out.pending[n].ts.0 == core.now
            &&& out.flow.out.len() == core.flow.out.len() + 1
            &&& out.flow.out.last() == SpecErrand::Send(
                SpecClientMsg::Request {
                    id: RequestId(core.flow.wire.next_request),
                    request: SpecRequest::Mutate { client_seq: seq, mutation },
                },
            )
            &&& core.flow.wire.next_client_seq < u64::MAX ==> out.flow.wire.next_client_seq
                == core.flow.wire.next_client_seq + 1
            &&& out.committed == core.committed
            &&& out.deferred == core.deferred
            &&& out.view.draft == core.view.draft
            &&& out.view.focus == core.view.focus
        }),
{
    reveal(SpecClientCore::mutated_with);
    reveal(SpecClientCore::rebased);
    reveal(crate::flow::SpecFlow::request);
}

/// A mutation the daemon would reject is refused and changes nothing; so is
/// one without a connection or an open review.
pub proof fn mutations_are_refused_like_the_daemon_would(core: SpecClientCore, mutation: SpecMutation)
    ensures
        core.mutated(mutation) is Ok <==> core.connection is Subscribed && core.view.review is Some && (
        core.view.review->0).snapshot.local_event(core.meta(), mutation) is Ok,
        core.mutated(mutation) matches Ok(out) ==> out == core.mutated_with(
            mutation,
            (core.view.review->0).snapshot.local_event(core.meta(), mutation)->Ok_0,
        ),
        core.connection is Subscribed && core.view.review is None ==> core.mutated(mutation)
            == Err::<SpecClientCore, SpecCoreError>(SpecCoreError::NoOpenReview),
{
    reveal(SpecClientCore::mutated);
}

/// An answer takes away the mutation with its number and no other.
pub proof fn answers_retire_their_mutation(core: SpecClientCore, seq: ClientSeq, p: SpecPending)
    ensures
        core.retired(seq).pending.contains(p) <==> core.pending.contains(p) && p.client_seq != seq,
        core.retired(seq).committed == core.committed,
        core.retired(seq).view == core.view,
        core.retired(seq).flow == core.flow,
{
    data::lemma_filter_has(core.pending, not_seq(seq), p);
}

/// Nothing but what is fetched and sent differs.
pub open spec fn differs_in_flow(a: SpecClientCore, b: SpecClientCore) -> bool {
    b == (SpecClientCore { flow: b.flow, ..a })
}

pub proof fn lemma_planted(core: SpecClientCore, fetches: Seq<SpecFetch>, fetch: bool)
    ensures
        differs_in_flow(core, core.planted(fetches, fetch)),
    decreases fetches.len(),
{
    reveal_with_fuel(SpecClientCore::planted, 2);
    if fetches.len() > 0 {
        lemma_planted(core, fetches.drop_last(), fetch);
    }
}

proof fn lemma_review_trees(core: SpecClientCore, fetch: bool)
    ensures
        ({
            let out = core.review_trees(fetch);
            &&& out.committed == core.committed
            &&& out.pending == core.pending
            &&& out.deferred == core.deferred
        }),
{
    reveal(SpecClientCore::review_trees);
    reveal(SpecClientCore::retained);
    if let Some(open) = core.view.review {
        let fetches = tree_fetches(open.current_targets());
        let c = core.with_open(SpecOpenReview { trees: roots_of(fetches), ..open }).retained();
        lemma_planted(c, fetches, fetch);
    }
}

proof fn lemma_folded(core: SpecClientCore, event: SpecEvent)
    ensures
        ({
            let out = core.folded(event);
            &&& out.pending == core.pending
            &&& out.deferred == core.deferred
            &&& core.committed matches Some(committed) ==> out.committed == Some(
                if event.body.review_id() == Some(committed.review.id) {
                    committed.after_event(event).0
                } else {
                    committed
                },
            )
        }),
{
    reveal(SpecClientCore::folded);
    reveal(SpecClientCore::rebased);
    if let Some(committed) = core.committed {
        let (next, sections) = committed.after_event(event);
        let c = (SpecClientCore { committed: Some(next), ..core }).touch(sections).refreshed();
        lemma_review_trees(c.touch(seq![ViewSection::ReviewList]), true);
    }
}

/// What an event finds before it is folded in.
proof fn lemma_before_folding(core: SpecClientCore, event: SpecEvent)
    ensures
        ({
            let c = core.observed(event).creation_observed(event.body);
            &&& keeps_open(core, c)
            &&& c.config == core.config
            &&& c.view.reviews == core.view.reviews
            &&& c.view.workspaces == core.view.workspaces
        }),
{
    reveal(SpecClientCore::observed);
    reveal(SpecClientCore::creation_found);
    reveal(SpecClientCore::retained);
}

/// An event of our own answers the mutation it came from; one of others
/// answers none.
pub proof fn echoes_answer_our_mutations(core: SpecClientCore, event: SpecEvent, p: SpecPending)
    requires
        !(event.body is ReviewDeleted),
    ensures
        event.client_id == core.config.client_id ==> (core.applied(event).pending.contains(p)
            <==> core.pending.contains(p) && p.client_seq != event.client_seq),
        event.client_id != core.config.client_id ==> core.applied(event).pending == core.pending,
{
    reveal(SpecClientCore::applied);
    reveal(SpecClientCore::held);
    reveal(SpecClientCore::relisted);
    reveal(SpecClientCore::target_moved);
    lemma_before_folding(core, event);
    let c = core.observed(event).creation_observed(event.body);
    let c = if event.client_id == c.config.client_id {
        c.retired(event.client_seq)
    } else {
        c
    };
    lemma_folded(c.relisted(event.body), event);
    data::lemma_filter_has(core.pending, not_seq(event.client_seq), p);
}

/// An event about the open review is what the committed snapshot becomes; one
/// about another leaves it alone. New resolved targets wait for an open
/// draft.
pub proof fn events_commit_to_the_open_review(
    core: SpecClientCore,
    event: SpecEvent,
    committed: SpecReviewSnapshot,
)
    requires
        core.committed == Some(committed),
        !(event.body is ReviewDeleted),
    ensures
        ({
            let out = core.applied(event);
            let waits = event.body is ReviewTargetsResolved && core.view.draft is Some && core.view.review is Some
                && event.body.review_id() == Some((core.view.review->0).snapshot.review.id);
            &&& waits ==> out.committed == core.committed && out.deferred == core.deferred.push(event)
                && out.view.pending_refresh
            &&& !waits ==> out.deferred == core.deferred
            &&& !waits && event.body.review_id() == Some(committed.review.id) ==> out.committed == Some(
                committed.after_event(event).0,
            )
            &&& !waits && event.body.review_id() != Some(committed.review.id) ==> out.committed == core.committed
        }),
{
    reveal(SpecClientCore::applied);
    reveal(SpecClientCore::held);
    reveal(SpecClientCore::relisted);
    reveal(SpecClientCore::target_moved);
    lemma_before_folding(core, event);
    let c = core.observed(event).creation_observed(event.body);
    let c = if event.client_id == c.config.client_id {
        c.retired(event.client_seq)
    } else {
        c
    };
    lemma_folded(c.relisted(event.body), event);
}

/// What waited for the draft is applied in the order it came.
pub proof fn what_waited_is_applied_in_order(core: SpecClientCore, events: Seq<SpecEvent>, last: SpecEvent)
    ensures
        core.all_applied(Seq::empty()) == core,
        core.all_applied(events.push(last)) == core.all_applied(events).applied(last),
{
    assert(events.push(last).drop_last() =~= events);
}

// ---- opening and closing --------------------------------------------------

/// A closed review leaves nothing of itself behind; the lists stay.
pub proof fn closed_reviews_leave_nothing(core: SpecClientCore)
    ensures
        ({
            let out = core.closed_review();
            &&& out.view.review is None
            &&& out.view.open_review is None
            &&& out.view.draft is None
            &&& out.view.content_search is None
            &&& !out.view.pending_refresh
            &&& !out.view.action_palette
            &&& out.view.resolved_targets.len() == 0
            &&& out.committed is None
            &&& out.pending.len() == 0
            &&& out.deferred.len() == 0
            &&& out.ref_selector is None
            &&& out.browse is None
            &&& out.view.reviews == core.view.reviews
            &&& out.view.workspaces == core.view.workspaces
            &&& out.connection == core.connection
        }),
{
    reveal(SpecClientCore::closed_review);
    reveal(SpecClientCore::review_closed);
}

/// A snapshot that arrives becomes the open review, with the mutations still
/// on their way if they were of the same review; keys go to its explorer.
pub proof fn snapshots_become_the_open_review(
    core: SpecClientCore,
    id: RequestId,
    snapshot: SpecReviewSnapshot,
)
    ensures
        ({
            let out = core.installed(id, snapshot);
            &&& out.committed is Some
            &&& (out.committed->0).review == snapshot.review
            &&& (out.committed->0).comments == snapshot.comments
            &&& (out.committed->0).threads == snapshot.threads
            &&& (out.committed->0).viewed == snapshot.viewed
            &&& (out.committed->0).seq == snapshot.seq
            &&& out.view.open_review == Some(snapshot.review.id)
            &&& out.view.review is Some
            &&& out.view.focus == (Focus::Tree { index: 0 })
            &&& core.committed is Some && (core.committed->0).review.id == snapshot.review.id ==> out.pending
                == core.pending
            &&& !(core.committed is Some && (core.committed->0).review.id == snapshot.review.id) ==> out.pending.len()
                == 0
            &&& (out.view.review->0).snapshot == replayed(out.committed->0, core.config.author, out.pending).0
            &&& out.view.draft is None
        }),
{
    reveal(SpecClientCore::installed);
    reveal(SpecClientCore::adopted);
    reveal(SpecClientCore::rebased);
    reveal(SpecClientCore::closed_review);
    reveal(SpecClientCore::review_closed);
}

/// The invitation `r` is in `have`, or among those that came later.
pub open spec fn is_invitation(
    have: Seq<SpecReviewRequest>,
    seq: EventSeq,
    more: Seq<SpecReviewRequest>,
    r: SpecReviewRequest,
) -> bool {
    have.contains(r) || (more.contains(r) && r.id.0.0 > seq.0)
}

/// An invitation that came after the snapshot and is not in it yet is added
/// to it; none is lost, and nothing else is added.
pub proof fn late_invitations_are_not_lost(
    have: Seq<SpecReviewRequest>,
    seq: EventSeq,
    more: Seq<SpecReviewRequest>,
    r: SpecReviewRequest,
)
    ensures
        have.contains(r) ==> with_requests(have, seq, more).contains(r),
        with_requests(have, seq, more).contains(r) ==> is_invitation(have, seq, more, r),
        is_invitation(have, seq, more, r) ==> exists|k: int|
            0 <= k < with_requests(have, seq, more).len() && (#[trigger] with_requests(have, seq, more)[k]).id == r.id,
    decreases more.len(),
{
    if more.len() == 0 {
        if have.contains(r) {
            let k = choose|k: int| 0 <= k < have.len() && have[k] == r;
            assert(with_requests(have, seq, more)[k].id == r.id);
        }
    } else {
        let rest = more.drop_last();
        let last = more.last();
        late_invitations_are_not_lost(have, seq, rest, r);
        let before = with_requests(have, seq, rest);
        let out = with_requests(have, seq, more);
        let p = events::request_is(last.id);
        assert(more =~= rest.push(last));
        vstd::seq_lib::lemma_seq_contains_after_push(rest, last, r);
        vstd::seq_lib::lemma_seq_contains_after_push(before, last, r);
        if is_invitation(have, seq, more, r) {
            if is_invitation(have, seq, rest, r) {
                let k = choose|k: int| 0 <= k < before.len() && (#[trigger] before[k]).id == r.id;
                assert(out[k].id == r.id);
            } else {
                assert(r == last);
                if data::some_where(before, p) {
                    let k = choose|k: int| 0 <= k < before.len() && #[trigger] p(before[k]);
                    assert(out[k].id == r.id);
                } else {
                    assert(out[before.len() as int] == last);
                }
            }
        }
    }
}

} // verus!
