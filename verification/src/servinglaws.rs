//! What the daemon's messages and the references do, said of the parts they
//! change.
use vstd::prelude::*;

use crate::answering::{elsewhere, review_order, worktree_head};
use crate::client::{Connection, SpecClientCore, SpecPending};
use crate::data;
use crate::diff::{thread_views, SpecCommentView, SpecThreadView};
use crate::eventlaws::{
    has_comment, has_thread, lemma_comment_at, lemma_thread_at, named_comment, named_thread,
};
use crate::flow::SpecErrand;
use crate::focus::Focus;
use crate::live::not_seq;
use crate::protocol::{
    ClientSeq, CommentId, EventSeq, ReferenceTarget, RepoId, RequestId, ReviewId, Since, SpecClientMsg,
    SpecContentHit, SpecEvent, SpecEventBody, SpecReferenceContext, SpecRequest, SpecReview, SpecReviewReference,
    SpecReviewSnapshot, ThreadId, WorkspaceId, SpecRpcError,
};
use crate::referring::{
    landed, referred_comment, referred_thread, touched_comment, touched_thread, thread_view_is,
};

verus! {

// ---- coming up ------------------------------------------------------------

/// A welcome is answered with a subscription from the last event seen, and
/// only once the daemon was greeted.
pub proof fn welcomes_are_answered_from_the_last_event(core: SpecClientCore)
    ensures
        core.welcomed() is Ok <==> (core.connection matches Connection::Connecting { hello_sent, .. } && hello_sent),
        core.welcomed() matches Ok(out) ==> {
            &&& out.flow.out == core.flow.out.push(
                SpecErrand::Send(
                    SpecClientMsg::Request {
                        id: RequestId(core.flow.wire.next_request),
                        request: SpecRequest::Subscribe {
                            since: match core.connection.spec_last_seq() {
                                Some(seq) => Since::After { seq },
                                None => Since::Now,
                            },
                        },
                    },
                ),
            )
            &&& out.connection == core.connection
            &&& out.view == core.view
        },
{
    reveal(SpecClientCore::welcomed);
    reveal(crate::flow::SpecFlow::request);
}

/// The later of the last event seen and the one the subscription starts at is
/// where it goes on; an earlier error is forgotten.
pub proof fn subscriptions_go_on_from_the_later_event(core: SpecClientCore, last_seq: EventSeq)
    ensures
        ({
            let out = core.came_up(last_seq);
            &&& out.connection == (Connection::Subscribed { last_seq })
            &&& out.view.connection is Subscribed
            &&& out.view.last_error is None
            &&& out.pending == core.pending
            &&& out.view.review == core.view.review
        }),
{
    reveal(SpecClientCore::came_up);
}

/// Being turned away ends the connection and is shown; what was not answered
/// is kept to be sent again, and the last event seen is remembered.
pub proof fn turning_us_away_loses_nothing(core: SpecClientCore, error: SpecRpcError)
    ensures
        ({
            let out = core.turned_away(error);
            &&& out.connection is Disconnected
            &&& out.connection.spec_last_seq() == core.connection.spec_last_seq()
            &&& (out.view.connection matches crate::view::SpecConnectionView::Rejected { error: e } && e == error)
            &&& out.pending.len() == core.pending.len()
            &&& out.view.review == core.view.review
            &&& out.view.draft == core.view.draft
            &&& out.committed == core.committed
        }),
{
    reveal(SpecClientCore::turned_away);
    reveal(SpecClientCore::cleared);
}

// ---- answers --------------------------------------------------------------

/// The reviews of a workspace take the place of those listed for it before;
/// those of other workspaces stay. All are listed by when they were created.
pub proof fn listed_reviews_replace_their_workspace(
    core: SpecClientCore,
    workspace_id: WorkspaceId,
    reviews: Seq<SpecReview>,
    r: SpecReview,
)
    ensures
        ({
            let out = core.answer_reviews(workspace_id, reviews).view.reviews;
            &&& out.contains(r) <==> reviews.contains(r) || (core.view.reviews.contains(r) && r.workspace_id
                != workspace_id)
            &&& forall|i: int, j: int|
                0 <= i < j < out.len() ==> (#[trigger] out[i]).created.0 <= (#[trigger] out[j]).created.0
        }),
        core.answer_reviews(workspace_id, reviews).view.workspaces == core.view.workspaces,
        core.answer_reviews(workspace_id, reviews).view.review == core.view.review,
{
    reveal(SpecClientCore::answer_reviews);
    let rest = core.view.reviews.filter(elsewhere(workspace_id));
    let le = review_order();
    let all = rest + reviews;
    data::lemma_sorted(all, le);
    data::lemma_sorted_has(all, le, r);
    data::lemma_filter_has(core.view.reviews, elsewhere(workspace_id), r);
    vstd::seq_lib::lemma_seq_concat_contains_all_elements(rest, reviews, r);
    let out = core.answer_reviews(workspace_id, reviews).view.reviews;
    assert forall|i: int, j: int| 0 <= i < j < out.len() implies (#[trigger] out[i]).created.0 <= (
    #[trigger] out[j]).created.0 by {
        assert(le(out[i], out[j]));
    }
}

/// The workspaces listed are shown, and the reviews of each are asked for.
pub proof fn listed_workspaces_are_shown(
    core: SpecClientCore,
    workspaces: Seq<crate::protocol::SpecWorkspace>,
)
    ensures
        core.answer_workspaces(workspaces).view.workspaces == workspaces,
        core.answer_workspaces(workspaces).view.reviews == core.view.reviews,
        core.answer_workspaces(workspaces).flow.out.len() == core.flow.out.len() + workspaces.len(),
        forall|i: int|
            0 <= i < workspaces.len() ==> asks_reviews(
                #[trigger] core.answer_workspaces(workspaces).flow.out[core.flow.out.len() + i],
                workspaces[i].id,
            ),
{
    reveal(SpecClientCore::answer_workspaces);
    lemma_reviews_asked(core.with_workspaces(workspaces), workspaces);
}

/// The errand asks for the reviews of the workspace.
pub open spec fn asks_reviews(e: SpecErrand, workspace_id: WorkspaceId) -> bool {
    e matches SpecErrand::Send(
        SpecClientMsg::Request { request: SpecRequest::ListReviews { workspace_id: w }, .. },
    ) && w
        == workspace_id
}

proof fn lemma_reviews_asked(core: SpecClientCore, workspaces: Seq<crate::protocol::SpecWorkspace>)
    ensures
        ({
            let out = core.reviews_asked(workspaces);
            &&& out.view == core.view
            &&& out.flow.out.len() == core.flow.out.len() + workspaces.len()
            &&& forall|i: int| 0 <= i < core.flow.out.len() ==> #[trigger] out.flow.out[i] == core.flow.out[i]
            &&& forall|i: int|
                0 <= i < workspaces.len() ==> asks_reviews(
                    #[trigger] out.flow.out[core.flow.out.len() + i],
                    workspaces[i].id,
                )
        }),
    decreases workspaces.len(),
{
    reveal(crate::flow::SpecFlow::request);
    if workspaces.len() > 0 {
        let rest = workspaces.drop_last();
        lemma_reviews_asked(core, rest);
        let before = core.reviews_asked(rest);
        let out = core.reviews_asked(workspaces);
        assert forall|i: int| 0 <= i < workspaces.len() implies asks_reviews(
            #[trigger] out.flow.out[core.flow.out.len() + i],
            workspaces[i].id,
        ) by {
            if i < rest.len() {
                assert(before.flow.out[core.flow.out.len() + i] == out.flow.out[core.flow.out.len() + i]);
                assert(rest[i] == workspaces[i]);
            }
        }
    }
}

/// A snapshot of another review than was asked for is refused; the right one
/// becomes the open review.
pub proof fn snapshots_must_be_of_the_review_asked_for(
    core: SpecClientCore,
    id: RequestId,
    review_id: ReviewId,
    snapshot: SpecReviewSnapshot,
)
    ensures
        core.answer_snapshot(id, review_id, snapshot) is Ok <==> snapshot.review.id == review_id,
        core.stream_snapshot(id, review_id, snapshot) is Ok <==> snapshot.review.id == review_id,
{
    reveal(SpecClientCore::answer_snapshot);
    reveal(SpecClientCore::stream_snapshot);
}

/// The commits listed are stepped through in the order they came; the working
/// tree is a step where the target's head is one.
pub proof fn commits_are_stepped_through_as_listed(
    core: SpecClientCore,
    repo_id: RepoId,
    commits: Seq<crate::protocol::SpecCommitInfo>,
)
    requires
        core.view.review is Some,
        !core.by_commit_pending,
    ensures
        ({
            let out = core.answer_commits(repo_id, commits);
            let targets = (core.view.review->0).snapshot.review.targets;
            &&& out.stepper is Some
            &&& (out.stepper->0).repo_id == repo_id
            &&& (out.stepper->0).commits.len() == commits.len()
            &&& forall|i: int|
                0 <= i < commits.len() ==> (#[trigger] (out.stepper->0).commits[i]).oid == commits[i].oid
            &&& (out.stepper->0).has_worktree <==> exists|i: int|
                0 <= i < targets.len() && (#[trigger] targets[i]).repo_id == repo_id && targets[i].head is WorkingTree
            &&& out.view == core.view
        }),
{
    reveal(SpecClientCore::answer_commits);
    reveal(SpecClientCore::stepped_into);
    let targets = (core.view.review->0).snapshot.review.targets;
    let p = worktree_head(repo_id);
    if data::some_where(targets, p) {
        let i = choose|i: int| 0 <= i < targets.len() && #[trigger] p(targets[i]);
        assert(targets[i].repo_id == repo_id && targets[i].head is WorkingTree);
    }
    if exists|i: int|
        0 <= i < targets.len() && (#[trigger] targets[i]).repo_id == repo_id && targets[i].head is WorkingTree {
        let i = choose|i: int|
            0 <= i < targets.len() && (#[trigger] targets[i]).repo_id == repo_id && targets[i].head is WorkingTree;
        assert(p(targets[i]));
    }
}

/// Only the answer to the latest content search is shown; the selection stays
/// on a hit.
pub proof fn only_the_latest_search_is_shown(
    core: SpecClientCore,
    id: RequestId,
    hits: Seq<SpecContentHit>,
    truncated: bool,
)
    ensures
        core.flow.wire.latest_search != Some(id) || core.view.content_search is None ==> core.answer_search(
            id,
            hits,
            truncated,
        ) == core,
        core.flow.wire.latest_search == Some(id) && core.view.content_search is Some ==> {
            let out = core.answer_search(id, hits, truncated);
            let old_view = core.view.content_search->0;
            &&& out.view.content_search is Some
            &&& (out.view.content_search->0).hits == hits
            &&& (out.view.content_search->0).truncated == truncated
            &&& !(out.view.content_search->0).pending
            &&& (out.view.content_search->0).query == old_view.query
            &&& old_view.selected < hits.len() ==> (out.view.content_search->0).selected == old_view.selected
            &&& 0 < hits.len() <= old_view.selected && hits.len() <= usize::MAX ==> (
            out.view.content_search->0).selected == hits.len() - 1
            &&& hits.len() == 0 ==> (out.view.content_search->0).selected == 0
            &&& out.flow.wire.latest_search is None
        },
{
    reveal(SpecClientCore::answer_search);
}

/// A chunk or a tree other than was asked for is refused.
pub proof fn content_must_be_what_was_asked_for(
    core: SpecClientCore,
    id: RequestId,
    tree: crate::cache::TreeKey,
    snapshot: crate::protocol::SpecTreeSnapshot,
    render: crate::cache::SpecRenderKey,
    index: crate::protocol::ChunkIndex,
    chunk: crate::protocol::SpecRenderChunk,
    size: crate::cache::Bytes,
)
    ensures
        core.answer_tree(id, tree, snapshot, size) is Ok <==> snapshot.root_oid == tree.root,
        core.answer_chunk(id, render, index, chunk, size) is Ok <==> chunk.index == index,
{
    reveal(SpecClientCore::answer_tree);
    reveal(SpecClientCore::answer_chunk);
}

/// A mutation that was taken is retired. Its event is applied once: with the
/// answer, or before it when the broadcast came first.
pub proof fn taken_mutations_are_applied_once(
    core: SpecClientCore,
    client_seq: ClientSeq,
    event: SpecEvent,
    last_seq: EventSeq,
)
    requires
        core.connection == (Connection::Subscribed { last_seq }),
    ensures
        core.answer_committed(client_seq, event) is Ok,
        ({
            let out = core.answer_committed(client_seq, event)->Ok_0;
            &&& event.seq.0 > last_seq.0 ==> out == core.with_last_seq(event.seq).applied(event)
            &&& event.seq.0 <= last_seq.0 ==> {
                &&& out.committed == core.committed
                &&& out.connection == core.connection
                &&& out.pending == core.pending.filter(not_seq(client_seq))
            }
        }),
{
    reveal(SpecClientCore::answer_committed);
    reveal(SpecClientCore::rebased);
    if event.seq.0 <= last_seq.0 {
        data::lemma_filter_whole(core.pending, not_seq(client_seq));
    }
}

/// A refused mutation is taken back: it waits no more, and what is committed
/// stays.
pub proof fn refused_mutations_are_taken_back(
    core: SpecClientCore,
    client_seq: ClientSeq,
    error: SpecRpcError,
    p: SpecPending,
)
    ensures
        ({
            let out = core.mutation_refused(client_seq, error);
            &&& out.pending.contains(p) <==> core.pending.contains(p) && p.client_seq != client_seq
            &&& out.committed == core.committed
            &&& out.view.draft == core.view.draft
            &&& out.connection == core.connection
        }),
{
    reveal(SpecClientCore::mutation_refused);
    reveal(SpecClientCore::rebased);
    reveal(SpecClientCore::with_selector_status);
    data::lemma_filter_has(core.pending, not_seq(client_seq), p);
}

/// A failed request waits no more, and its error is shown.
pub proof fn failed_requests_show_their_error(core: SpecClientCore, error: SpecRpcError)
    ensures
        core.with_last_error(error).view.last_error == Some(error),
        core.with_last_error(error).view.review == core.view.review,
        core.with_last_error(error).pending == core.pending,
{
    reveal(SpecClientCore::with_last_error);
}

// ---- references -----------------------------------------------------------

/// A reference points at the review, at the root of its thread, or at its
/// comment; one that is not in the review points nowhere.
pub proof fn references_point_at_what_they_name(reference: SpecReviewReference, snapshot: SpecReviewSnapshot)
    ensures
        match reference.target {
            ReferenceTarget::Review => reference.resolve(snapshot) == Ok::<Option<CommentId>, Seq<char>>(None),
            ReferenceTarget::Thread { thread_id } => {
                &&& !has_thread(snapshot.threads, thread_id) ==> reference.resolve(snapshot) is Err
                &&& forall|t: int| #[trigger]
                    named_thread(snapshot.threads, thread_id, t) ==> reference.resolve(snapshot)
                        == Ok::<Option<CommentId>, Seq<char>>(Some(snapshot.threads[t].root))
            },
            ReferenceTarget::Comment { comment_id } => {
                &&& !has_comment(snapshot.comments, comment_id) ==> reference.resolve(snapshot) is Err
                &&& has_comment(snapshot.comments, comment_id) ==> reference.resolve(snapshot)
                    == Ok::<Option<CommentId>, Seq<char>>(Some(comment_id))
            },
        },
{
    match reference.target {
        ReferenceTarget::Review => {},
        ReferenceTarget::Thread { thread_id } => {
            lemma_thread_at(snapshot.threads, thread_id);
        },
        ReferenceTarget::Comment { comment_id } => {
            lemma_comment_at(snapshot.comments, comment_id);
        },
    }
}

/// A pending mutation touches the comment or the thread it is about.
pub proof fn mutations_touch_what_they_are_about(p: SpecPending)
    ensures
        p.body matches SpecEventBody::CommentCreated { comment } ==> touched_comment()(p) == Some(comment.id),
        p.body matches SpecEventBody::CommentEdited { comment_id, .. } ==> touched_comment()(p) == Some(comment_id),
        p.body matches SpecEventBody::CommentDeleted { comment_id, .. } ==> touched_comment()(p) == Some(comment_id),
        p.body matches SpecEventBody::CommentReanchored { comment_id, .. } ==> touched_comment()(p) == Some(
            comment_id,
        ),
        p.body matches SpecEventBody::ThreadResolved { thread_id, .. } ==> touched_thread()(p) == Some(thread_id)
            && touched_comment()(p) is None,
        p.body matches SpecEventBody::ThreadUnresolved { thread_id, .. } ==> touched_thread()(p) == Some(thread_id)
            && touched_comment()(p) is None,
{
}

/// What is marked as pending is exactly what a pending mutation touches.
pub proof fn what_is_touched_is_pending(core: SpecClientCore, c: CommentId, t: ThreadId)
    ensures
        core.pending_ids().comments.contains(c) <==> exists|i: int|
            0 <= i < core.pending.len() && touched_comment()(#[trigger] core.pending[i]) == Some(c),
        core.pending_ids().threads.contains(t) <==> exists|i: int|
            0 <= i < core.pending.len() && touched_thread()(#[trigger] core.pending[i]) == Some(t),
{
    reveal(SpecClientCore::pending_ids);
    data::lemma_images_has(core.pending, touched_comment(), c);
    data::lemma_images_has(core.pending, touched_thread(), t);
}

/// Events that came while a snapshot was on its way are folded into it, in
/// order and only if they are newer; a deletion leaves nothing.
pub proof fn newer_events_are_folded_in(snapshot: SpecReviewSnapshot, events: Seq<SpecEvent>, last: SpecEvent)
    ensures
        landed(snapshot, Seq::empty()) == Some(snapshot),
        landed(snapshot, events) is None ==> landed(snapshot, events.push(last)) is None,
        landed(snapshot, events) matches Some(s) ==> {
            &&& last.seq.0 <= s.seq.0 ==> landed(snapshot, events.push(last)) == Some(s)
            &&& last.seq.0 > s.seq.0 && last.body is ReviewDeleted ==> landed(snapshot, events.push(last)) is None
            &&& last.seq.0 > s.seq.0 && !(last.body is ReviewDeleted) ==> landed(snapshot, events.push(last)) == Some(
                SpecReviewSnapshot { seq: last.seq, ..s.after_event(last).0 },
            )
        },
{
    assert(events.push(last).drop_last() =~= events);
}

/// A comment that is there is shown in its thread, on the conversation tab,
/// and has the focus; one that is missing or deleted is reported, and nothing
/// moves.
pub proof fn comments_are_focused_in_their_thread(core: SpecClientCore, id: CommentId, r: int, k: int)
    requires
        core.view.review is Some,
        named_comment((core.view.review->0).snapshot.comments, id, r),
        !((core.view.review->0).snapshot.comments[r].state is Deleted),
        ({
            let threads = thread_views((core.view.review->0).snapshot, core.pending_ids());
            let thread_id = (core.view.review->0).snapshot.comments[r].thread_id;
            &&& 0 <= k < threads.len()
            &&& k <= usize::MAX
            &&& threads[k].id == thread_id
            &&& forall|j: int| 0 <= j < k ==> (#[trigger] threads[j]).id != thread_id
        }),
    ensures
        core.focus_comment(id) matches Ok(out) && {
            &&& out.view.tab is Conversation
            &&& out.view.focus == (Focus::Thread { index: k as usize })
            &&& out.view.focused_comment == Some(id)
            &&& out.view.last_error == core.view.last_error
        },
{
    reveal(SpecClientCore::focus_comment);
    let snapshot = (core.view.review->0).snapshot;
    lemma_comment_at(snapshot.comments, id);
    let threads = thread_views(snapshot, core.pending_ids());
    let p = thread_view_is(snapshot.comments[r].thread_id);
    data::lemma_first_where(threads, p);
    assert(p(threads[k]));
    let i = data::first_where(threads, p)->0;
    assert(p(threads[i]));
    if k < i {
        assert(!p(threads[k]));
    }
}

/// A comment that is missing or deleted is reported, and the focus stays.
pub proof fn missing_comments_are_reported(core: SpecClientCore, id: CommentId)
    requires
        core.view.review is Some,
        !has_comment((core.view.review->0).snapshot.comments, id) || exists|r: int| #[trigger]
            named_comment((core.view.review->0).snapshot.comments, id, r) && (
            core.view.review->0).snapshot.comments[r].state is Deleted,
    ensures
        core.focus_comment(id) matches Ok(out) && {
            &&& out.view.last_error is Some
            &&& out.view.focus == core.view.focus
            &&& out.view.tab == core.view.tab
            &&& out.view.focused_comment == core.view.focused_comment
        },
{
    reveal(SpecClientCore::focus_comment);
    reveal(SpecClientCore::reference_error);
    lemma_comment_at((core.view.review->0).snapshot.comments, id);
}

/// Each thread and comment is shown with the reference that names it.
pub proof fn references_name_what_they_are_shown_with(
    context: SpecReferenceContext,
    review_id: ReviewId,
    t: SpecThreadView,
    c: SpecCommentView,
)
    ensures
        ({
            let out = referred_comment(context, review_id)(c);
            &&& out.reference == Some(
                SpecReviewReference {
                    context,
                    review_id,
                    target: ReferenceTarget::Comment { comment_id: c.id },
                },
            )
            &&& out.body == c.body && out.id == c.id && out.author == c.author
        }),
        ({
            let out = referred_thread(context, review_id)(t);
            &&& out.reference == Some(
                SpecReviewReference {
                    context,
                    review_id,
                    target: ReferenceTarget::Thread { thread_id: t.id },
                },
            )
            &&& out.id == t.id && out.place == t.place && out.status == t.status
            &&& out.comments.len() == t.comments.len()
            &&& forall|i: int|
                0 <= i < t.comments.len() ==> #[trigger] out.comments[i] == referred_comment(context, review_id)(
                    t.comments[i],
                )
        }),
{
}

/// A reference to another daemon is reported, not followed; one of this daemon
/// opens its review and waits for it.
pub proof fn references_open_their_review(core: SpecClientCore, reference: SpecReviewReference)
    requires
        core.connection is Subscribed,
    ensures
        ({
            let text = crate::client::SpecReferenceText::Parsed { reference };
            &&& core.config.reference_context != Some(reference.context) ==> (core.open_reference(
                text,
            ) matches Ok(out) && {
                &&& out.view.last_error is Some
                &&& out.pending_reference == core.pending_reference
                &&& out.flow.out == core.flow.out
            })
            &&& core.config.reference_context == Some(reference.context) ==> (core.open_reference(
                text,
            ) matches Ok(out) && {
                &&& out.view.last_error is None
                &&& out.pending_reference is Some
                &&& (out.pending_reference->0).reference == reference
                &&& (out.pending_reference->0).events.len() == 0
                &&& out.flow.out.len() == core.flow.out.len() + 1
                &&& (out.flow.out.last() matches SpecErrand::Send(SpecClientMsg::Request { request, .. }) && match request {
                    SpecRequest::OpenReview { review_id, .. } => review_id == reference.review_id,
                    SpecRequest::ReviewSnapshot { review_id } => review_id == reference.review_id,
                    _ => false,
                })
            })
        }),
{
    reveal(SpecClientCore::open_reference);
    reveal(SpecClientCore::reference_error);
    reveal(SpecClientCore::open_review);
    reveal(crate::flow::SpecFlow::request);
}

} // verus!
