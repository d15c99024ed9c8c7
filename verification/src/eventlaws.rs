//! What each event does to a review, said of the comments, threads and marks
//! themselves, and what a mutation becomes.
use vstd::prelude::*;

use crate::data;
use crate::events::{comment_is, other_mark, request_is, target_of, thread_is, MutationError, SpecEventMeta};
use crate::protocol::{
    CommentId, RepoId, ReviewId, ReviewRequestId, ReviewStatus, ResolvedTarget, SpecAnchor, SpecComment,
    SpecCommentContext, SpecCommentKind, SpecCommentState, SpecEvent, SpecEventBody, SpecHuman, SpecMutation,
    SpecRepoPath, SpecReview, SpecReviewRequest, SpecReviewSnapshot, SpecReviewTarget, SpecReviewTargetUpdate,
    SpecTargetRevision, SpecThread, SpecThreadResolution, SpecViewedMark, ThreadId, ViewSection, ViewedContent,
};

verus! {

/// The comment at `i` is the one `id` names: the first with that id.
pub open spec fn named_comment(comments: Seq<SpecComment>, id: CommentId, i: int) -> bool {
    &&& 0 <= i < comments.len()
    &&& comments[i].id == id
    &&& forall|j: int| 0 <= j < i ==> (#[trigger] comments[j]).id != id
}

/// The thread at `i` is the one `id` names.
pub open spec fn named_thread(threads: Seq<SpecThread>, id: ThreadId, i: int) -> bool {
    &&& 0 <= i < threads.len()
    &&& threads[i].id == id
    &&& forall|j: int| 0 <= j < i ==> (#[trigger] threads[j]).id != id
}

pub open spec fn has_comment(comments: Seq<SpecComment>, id: CommentId) -> bool {
    exists|i: int| 0 <= i < comments.len() && (#[trigger] comments[i]).id == id
}

pub open spec fn has_thread(threads: Seq<SpecThread>, id: ThreadId) -> bool {
    exists|i: int| 0 <= i < threads.len() && (#[trigger] threads[i]).id == id
}

pub proof fn lemma_comment_at(comments: Seq<SpecComment>, id: CommentId)
    ensures
        match data::first_where(comments, comment_is(id)) {
            Some(i) => named_comment(comments, id, i) && has_comment(comments, id),
            None => !has_comment(comments, id),
        },
        forall|i: int| #[trigger] named_comment(comments, id, i) ==> data::first_where(comments, comment_is(id)) == Some(i),
        match data::found(comments, comment_is(id)) {
            Some(c) => exists|i: int| #[trigger] named_comment(comments, id, i) && c == comments[i],
            None => !has_comment(comments, id),
        },
{
    let p = comment_is(id);
    data::lemma_first_where(comments, p);
    match data::first_where(comments, p) {
        Some(i) => {
            assert(p(comments[i]));
            assert(forall|j: int| 0 <= j < i ==> !p(#[trigger] comments[j]));
            assert(named_comment(comments, id, i));
            assert forall|k: int| #[trigger] named_comment(comments, id, k) implies k == i by {
                if k < i {
                    assert(!p(comments[k]));
                }
                if i < k {
                    assert(comments[i].id != id);
                }
            }
        },
        None => {
            assert forall|k: int| 0 <= k < comments.len() implies (#[trigger] comments[k]).id != id by {
                assert(!p(comments[k]));
            }
        },
    }
}

pub proof fn lemma_thread_at(threads: Seq<SpecThread>, id: ThreadId)
    ensures
        match data::first_where(threads, thread_is(id)) {
            Some(i) => named_thread(threads, id, i) && has_thread(threads, id),
            None => !has_thread(threads, id),
        },
        forall|i: int| #[trigger] named_thread(threads, id, i) ==> data::first_where(threads, thread_is(id)) == Some(i),
{
    let p = thread_is(id);
    data::lemma_first_where(threads, p);
    match data::first_where(threads, p) {
        Some(i) => {
            assert(p(threads[i]));
            assert(forall|j: int| 0 <= j < i ==> !p(#[trigger] threads[j]));
            assert(named_thread(threads, id, i));
            assert forall|k: int| #[trigger] named_thread(threads, id, k) implies k == i by {
                if k < i {
                    assert(!p(threads[k]));
                }
                if i < k {
                    assert(threads[i].id != id);
                }
            }
        },
        None => {
            assert forall|k: int| 0 <= k < threads.len() implies (#[trigger] threads[k]).id != id by {
                assert(!p(threads[k]));
            }
        },
    }
}

// ---- comments -------------------------------------------------------------

/// An edit gives the comment it names the new text and the time of the edit.
/// Everything else about it, every other comment, and everything else about
/// the review stays; without that comment nothing changes.
pub proof fn edits_replace_the_text(
    snapshot: SpecReviewSnapshot,
    meta: SpecEventMeta,
    comment_id: CommentId,
    body: Seq<char>,
)
    ensures
        ({
            let review_id = snapshot.review.id;
            let (after, sections) = snapshot.after_body(
                meta,
                SpecEventBody::CommentEdited { review_id, comment_id, body },
            );
            &&& after == SpecReviewSnapshot { comments: after.comments, ..snapshot }
            &&& after.comments.len() == snapshot.comments.len()
            &&& forall|i: int|
                0 <= i < snapshot.comments.len() ==> #[trigger] after.comments[i] == (if named_comment(
                    snapshot.comments,
                    comment_id,
                    i,
                ) {
                    SpecComment { body, edited: Some(meta.ts), ..snapshot.comments[i] }
                } else {
                    snapshot.comments[i]
                })
            &&& has_comment(snapshot.comments, comment_id) ==> sections == seq![ViewSection::Threads]
            &&& !has_comment(snapshot.comments, comment_id) ==> after == snapshot && sections == Seq::<
                ViewSection,
            >::empty()
        }),
{
    reveal(SpecReviewSnapshot::after_body);
    lemma_comment_at(snapshot.comments, comment_id);
}

/// A deleted comment stays in its place, marked as deleted.
pub proof fn deletions_mark_the_comment(
    snapshot: SpecReviewSnapshot,
    meta: SpecEventMeta,
    comment_id: CommentId,
)
    ensures
        ({
            let review_id = snapshot.review.id;
            let (after, sections) = snapshot.after_body(
                meta,
                SpecEventBody::CommentDeleted { review_id, comment_id },
            );
            &&& after == SpecReviewSnapshot { comments: after.comments, ..snapshot }
            &&& after.comments.len() == snapshot.comments.len()
            &&& forall|i: int|
                0 <= i < snapshot.comments.len() ==> #[trigger] after.comments[i] == (if named_comment(
                    snapshot.comments,
                    comment_id,
                    i,
                ) {
                    SpecComment { state: SpecCommentState::Deleted, ..snapshot.comments[i] }
                } else {
                    snapshot.comments[i]
                })
            &&& has_comment(snapshot.comments, comment_id) ==> sections == seq![ViewSection::Threads]
            &&& !has_comment(snapshot.comments, comment_id) ==> after == snapshot && sections == Seq::<
                ViewSection,
            >::empty()
        }),
{
    reveal(SpecReviewSnapshot::after_body);
    lemma_comment_at(snapshot.comments, comment_id);
}

/// A comment that is anchored anew has the new anchor and state, and is
/// otherwise the same.
pub proof fn reanchored_comments_move(
    snapshot: SpecReviewSnapshot,
    meta: SpecEventMeta,
    comment_id: CommentId,
    anchor: SpecAnchor,
    state: SpecCommentState,
)
    ensures
        ({
            let review_id = snapshot.review.id;
            let (after, sections) = snapshot.after_body(
                meta,
                SpecEventBody::CommentReanchored { review_id, comment_id, anchor, state },
            );
            &&& after == SpecReviewSnapshot { comments: after.comments, ..snapshot }
            &&& after.comments.len() == snapshot.comments.len()
            &&& forall|i: int|
                0 <= i < snapshot.comments.len() ==> #[trigger] after.comments[i] == (if named_comment(
                    snapshot.comments,
                    comment_id,
                    i,
                ) {
                    SpecComment { anchor, state, ..snapshot.comments[i] }
                } else {
                    snapshot.comments[i]
                })
            &&& has_comment(snapshot.comments, comment_id) ==> sections == seq![ViewSection::Threads]
            &&& !has_comment(snapshot.comments, comment_id) ==> after == snapshot && sections == Seq::<
                ViewSection,
            >::empty()
        }),
{
    reveal(SpecReviewSnapshot::after_body);
    lemma_comment_at(snapshot.comments, comment_id);
}

/// A new comment comes last. It joins the end of the replies of the thread it
/// is in, or starts that thread as its root: open, unless it is
/// informational. All other comments and threads stay.
pub proof fn new_comments_join_their_thread(
    snapshot: SpecReviewSnapshot,
    meta: SpecEventMeta,
    comment: SpecComment,
)
    requires
        comment.review_id == snapshot.review.id,
        !has_comment(snapshot.comments, comment.id),
    ensures
        ({
            let (after, sections) = snapshot.after_body(meta, SpecEventBody::CommentCreated { comment });
            &&& after == SpecReviewSnapshot { comments: after.comments, threads: after.threads, ..snapshot }
            &&& after.comments == snapshot.comments.push(comment)
            &&& sections == seq![ViewSection::Threads]
            &&& has_thread(snapshot.threads, comment.thread_id) ==> {
                &&& after.threads.len() == snapshot.threads.len()
                &&& forall|i: int|
                    0 <= i < snapshot.threads.len() ==> #[trigger] after.threads[i] == (if named_thread(
                        snapshot.threads,
                        comment.thread_id,
                        i,
                    ) && snapshot.threads[i].root != comment.id && !snapshot.threads[i].replies.contains(comment.id) {
                        SpecThread {
                            replies: snapshot.threads[i].replies.push(comment.id),
                            ..snapshot.threads[i]
                        }
                    } else {
                        snapshot.threads[i]
                    })
            }
            &&& !has_thread(snapshot.threads, comment.thread_id) ==> after.threads == snapshot.threads.push(
                SpecThread {
                    id: comment.thread_id,
                    review_id: comment.review_id,
                    root: comment.id,
                    replies: Seq::empty(),
                    resolution: if comment.kind is Informational {
                        SpecThreadResolution::Informational
                    } else {
                        SpecThreadResolution::Open
                    },
                },
            )
        }),
{
    reveal(SpecReviewSnapshot::after_body);
    lemma_comment_at(snapshot.comments, comment.id);
    lemma_thread_at(snapshot.threads, comment.thread_id);
}

/// A comment that is there already is not posted again.
pub proof fn known_comments_are_not_posted_again(
    snapshot: SpecReviewSnapshot,
    meta: SpecEventMeta,
    comment: SpecComment,
)
    requires
        has_comment(snapshot.comments, comment.id),
    ensures
        snapshot.after_body(meta, SpecEventBody::CommentCreated { comment }) == (
            snapshot,
            Seq::<ViewSection>::empty(),
        ),
{
    reveal(SpecReviewSnapshot::after_body);
    lemma_comment_at(snapshot.comments, comment.id);
}

// ---- threads --------------------------------------------------------------

/// A resolved thread names who resolved it and when; a reopened one is open.
/// Nothing else changes.
pub proof fn threads_are_resolved_and_reopened(
    snapshot: SpecReviewSnapshot,
    meta: SpecEventMeta,
    thread_id: ThreadId,
)
    ensures
        ({
            let review_id = snapshot.review.id;
            let (resolved, sections) = snapshot.after_body(
                meta,
                SpecEventBody::ThreadResolved { review_id, thread_id },
            );
            let (reopened, same) = snapshot.after_body(
                meta,
                SpecEventBody::ThreadUnresolved { review_id, thread_id },
            );
            &&& resolved == SpecReviewSnapshot { threads: resolved.threads, ..snapshot }
            &&& reopened == SpecReviewSnapshot { threads: reopened.threads, ..snapshot }
            &&& resolved.threads.len() == snapshot.threads.len()
            &&& reopened.threads.len() == snapshot.threads.len()
            &&& forall|i: int|
                0 <= i < snapshot.threads.len() ==> #[trigger] resolved.threads[i] == (if named_thread(
                    snapshot.threads,
                    thread_id,
                    i,
                ) {
                    SpecThread {
                        resolution: SpecThreadResolution::Resolved { by: meta.author, at: meta.ts },
                        ..snapshot.threads[i]
                    }
                } else {
                    snapshot.threads[i]
                })
            &&& forall|i: int|
                0 <= i < snapshot.threads.len() ==> #[trigger] reopened.threads[i] == (if named_thread(
                    snapshot.threads,
                    thread_id,
                    i,
                ) {
                    SpecThread { resolution: SpecThreadResolution::Open, ..snapshot.threads[i] }
                } else {
                    snapshot.threads[i]
                })
            &&& sections == same
            &&& has_thread(snapshot.threads, thread_id) ==> sections == seq![ViewSection::Threads]
            &&& !has_thread(snapshot.threads, thread_id) ==> sections == Seq::<ViewSection>::empty()
        }),
{
    reveal(SpecReviewSnapshot::after_body);
    lemma_thread_at(snapshot.threads, thread_id);
}

// ---- marks ----------------------------------------------------------------

/// The mark is `viewer`'s on that file.
pub open spec fn marks(m: SpecViewedMark, repo_id: RepoId, path: SpecRepoPath, viewer: SpecHuman) -> bool {
    m.repo_id == repo_id && m.path == path && m.viewer == viewer
}

/// Marking a file replaces the viewer's earlier marks on it with one of the
/// content seen; unmarking it leaves none. All other marks stay, and so does
/// everything else.
pub proof fn marks_say_what_was_seen(
    snapshot: SpecReviewSnapshot,
    meta: SpecEventMeta,
    repo_id: RepoId,
    path: SpecRepoPath,
    viewer: SpecHuman,
    content: ViewedContent,
)
    ensures
        ({
            let review_id = snapshot.review.id;
            let (marked, sections) = snapshot.after_body(
                meta,
                SpecEventBody::FileViewed { review_id, repo_id, path, viewer, content },
            );
            let (unmarked, same) = snapshot.after_body(
                meta,
                SpecEventBody::FileUnviewed { review_id, repo_id, path, viewer },
            );
            let mark = SpecViewedMark { review_id, repo_id, path, viewer, content };
            &&& marked == SpecReviewSnapshot { viewed: marked.viewed, ..snapshot }
            &&& unmarked == SpecReviewSnapshot { viewed: unmarked.viewed, ..snapshot }
            &&& sections == seq![ViewSection::Progress]
            &&& same == seq![ViewSection::Progress]
            &&& unmarked.viewed == snapshot.viewed.filter(
                |m: SpecViewedMark| !(m.repo_id == repo_id && m.path == path && m.viewer == viewer),
            )
            &&& marked.viewed == unmarked.viewed.push(mark)
            &&& forall|m: SpecViewedMark| #[trigger]
                unmarked.viewed.contains(m) <==> snapshot.viewed.contains(m) && !marks(m, repo_id, path, viewer)
            &&& forall|m: SpecViewedMark|
                marks(m, repo_id, path, viewer) && #[trigger] marked.viewed.contains(m) ==> m == mark
        }),
{
    reveal(SpecReviewSnapshot::after_body);
    let p = other_mark(repo_id, path, viewer);
    let q = |m: SpecViewedMark| !(m.repo_id == repo_id && m.path == path && m.viewer == viewer);
    data::lemma_filter_alike(snapshot.viewed, p, q);
    let rest = snapshot.viewed.filter(p);
    let mark = SpecViewedMark { review_id: snapshot.review.id, repo_id, path, viewer, content };
    assert forall|m: SpecViewedMark| #[trigger] rest.contains(m) <==> snapshot.viewed.contains(m) && !marks(
        m,
        repo_id,
        path,
        viewer,
    ) by {
        data::lemma_filter_has(snapshot.viewed, p, m);
    }
    assert forall|m: SpecViewedMark|
        marks(m, repo_id, path, viewer) && #[trigger] rest.push(mark).contains(m) implies m == mark by {
        vstd::seq_lib::lemma_seq_contains_after_push(rest, mark, m);
    }
}

// ---- the review -----------------------------------------------------------

/// An update gives the review its title and status, and leaves the rest.
pub proof fn updates_rename_and_close(
    snapshot: SpecReviewSnapshot,
    meta: SpecEventMeta,
    title: Seq<char>,
    status: ReviewStatus,
)
    ensures
        snapshot.after_body(
            meta,
            SpecEventBody::ReviewUpdated { review_id: snapshot.review.id, title, status },
        ) == (
            SpecReviewSnapshot { review: SpecReview { title, status, ..snapshot.review }, ..snapshot },
            seq![ViewSection::Conversation],
        ),
{
    reveal(SpecReviewSnapshot::after_body);
}

/// What the targets resolved to is what the event says.
pub proof fn targets_are_what_they_resolved_to(
    snapshot: SpecReviewSnapshot,
    meta: SpecEventMeta,
    targets: Seq<ResolvedTarget>,
)
    ensures
        snapshot.after_body(
            meta,
            SpecEventBody::ReviewTargetsResolved { review_id: snapshot.review.id, targets },
        ) == (SpecReviewSnapshot { resolved: Some(targets), ..snapshot }, seq![ViewSection::Diff]),
{
    reveal(SpecReviewSnapshot::after_body);
}

/// The first target of a repository moves to what the event says; the others
/// stay, and so does everything else.
pub proof fn moved_targets_replace_their_repository(
    snapshot: SpecReviewSnapshot,
    meta: SpecEventMeta,
    target: SpecReviewTarget,
)
    ensures
        ({
            let before = snapshot.review.targets;
            let (after, sections) = snapshot.after_body(
                meta,
                SpecEventBody::ReviewTargetUpdated { review_id: snapshot.review.id, target },
            );
            let targets = after.review.targets;
            &&& after == SpecReviewSnapshot { review: SpecReview { targets, ..snapshot.review }, ..snapshot }
            &&& targets.len() == before.len()
            &&& forall|i: int|
                0 <= i < before.len() ==> #[trigger] targets[i] == (if before[i].repo_id == target.repo_id && (forall|
                    j: int,
                | 0 <= j < i ==> (#[trigger] before[j]).repo_id != target.repo_id) {
                    target
                } else {
                    before[i]
                })
            &&& sections == (if exists|i: int|
                0 <= i < before.len() && (#[trigger] before[i]).repo_id == target.repo_id {
                seq![ViewSection::ReviewList]
            } else {
                Seq::<ViewSection>::empty()
            })
        }),
{
    reveal(SpecReviewSnapshot::after_body);
    let before = snapshot.review.targets;
    let p = target_of(target.repo_id);
    data::lemma_first_where(before, p);
    match data::first_where(before, p) {
        Some(k) => {
            assert(p(before[k]));
            assert(forall|j: int| 0 <= j < k ==> !p(#[trigger] before[j]));
            assert(before[k].repo_id == target.repo_id);
        },
        None => {
            assert(forall|j: int| 0 <= j < before.len() ==> !p(#[trigger] before[j]));
        },
    }
}

/// An invitation joins the review's once, under the number of its event; an
/// applied suggestion and an invitation change nothing else.
pub proof fn invitations_join_once(snapshot: SpecReviewSnapshot, event: SpecEvent, reviewer: Seq<char>)
    requires
        event.body == (SpecEventBody::ReviewRequested { review_id: snapshot.review.id, reviewer }),
    ensures
        ({
            let (after, sections) = snapshot.after_event(event);
            let id = ReviewRequestId(event.seq);
            &&& after == SpecReviewSnapshot { requests: after.requests, ..snapshot }
            &&& sections == seq![ViewSection::Conversation]
            &&& after.requests == (if exists|i: int|
                0 <= i < snapshot.requests.len() && (#[trigger] snapshot.requests[i]).id == id {
                snapshot.requests
            } else {
                snapshot.requests.push(SpecReviewRequest { id, review_id: snapshot.review.id, reviewer })
            })
        }),
{
    reveal(SpecReviewSnapshot::after_event);
    reveal(SpecReviewSnapshot::after_body);
    let p = request_is(ReviewRequestId(event.seq));
    assert forall|i: int| 0 <= i < snapshot.requests.len() implies p(#[trigger] snapshot.requests[i]) == (
    snapshot.requests[i].id == ReviewRequestId(event.seq)) by {}
    if data::some_where(snapshot.requests, p) {
        let i = choose|i: int| 0 <= i < snapshot.requests.len() && #[trigger] p(snapshot.requests[i]);
        assert(snapshot.requests[i].id == ReviewRequestId(event.seq));
    } else {
        assert forall|i: int| 0 <= i < snapshot.requests.len() implies (#[trigger] snapshot.requests[i]).id
            != ReviewRequestId(event.seq) by {
            assert(!p(snapshot.requests[i]));
        }
    }
}

/// A committed event that is no invitation does what its body does, by its
/// author and at its time.
pub proof fn committed_events_do_what_they_say(snapshot: SpecReviewSnapshot, event: SpecEvent)
    requires
        !(event.body is ReviewRequested),
    ensures
        snapshot.after_event(event) == snapshot.after_body(
            SpecEventMeta { author: event.author, ts: event.ts },
            event.body,
        ),
{
    reveal(SpecReviewSnapshot::after_event);
}

/// Events on lists of reviews, on workspaces and on applied suggestions leave
/// the snapshot as it is.
pub proof fn lists_are_kept_elsewhere(snapshot: SpecReviewSnapshot, meta: SpecEventMeta, body: SpecEventBody)
    requires
        body is ReviewCreated || body is ReviewDeleted || body is ReviewRequested || body is SuggestionApplied
            || body is WorkspaceCreated || body is WorkspaceUpdated || body is RepoAttached || body is RepoDetached,
    ensures
        snapshot.after_body(meta, body).0 == snapshot,
        (body is WorkspaceCreated || body is WorkspaceUpdated || body is RepoAttached || body is RepoDetached)
            ==> snapshot.after_body(meta, body).1 == Seq::<ViewSection>::empty(),
        body matches SpecEventBody::SuggestionApplied { review_id, .. } ==> (review_id == snapshot.review.id
            ==> snapshot.after_body(meta, body).1 == seq![ViewSection::Conversation]),
{
    reveal(SpecReviewSnapshot::after_body);
}

/// The review an event is about.
pub open spec fn about_review(body: SpecEventBody, id: ReviewId) -> bool {
    match body {
        SpecEventBody::ReviewCreated { review } => review.id == id,
        SpecEventBody::ReviewUpdated { review_id, .. } => review_id == id,
        SpecEventBody::ReviewTargetUpdated { review_id, .. } => review_id == id,
        SpecEventBody::ReviewDeleted { review_id } => review_id == id,
        SpecEventBody::ReviewTargetsResolved { review_id, .. } => review_id == id,
        SpecEventBody::CommentCreated { comment } => comment.review_id == id,
        SpecEventBody::CommentEdited { review_id, .. } => review_id == id,
        SpecEventBody::CommentDeleted { review_id, .. } => review_id == id,
        SpecEventBody::CommentReanchored { review_id, .. } => review_id == id,
        SpecEventBody::ThreadResolved { review_id, .. } => review_id == id,
        SpecEventBody::ThreadUnresolved { review_id, .. } => review_id == id,
        SpecEventBody::FileViewed { review_id, .. } => review_id == id,
        SpecEventBody::FileUnviewed { review_id, .. } => review_id == id,
        SpecEventBody::ReviewRequested { review_id, .. } => review_id == id,
        SpecEventBody::SuggestionApplied { review_id, .. } => review_id == id,
        SpecEventBody::WorkspaceCreated { .. } => false,
        SpecEventBody::WorkspaceUpdated { .. } => false,
        SpecEventBody::RepoAttached { .. } => false,
        SpecEventBody::RepoDetached { .. } => false,
    }
}

/// An event names the review that it is about, and no other.
pub proof fn events_name_their_review(body: SpecEventBody, id: ReviewId)
    ensures
        body.review_id() == Some(id) <==> about_review(body, id),
{
}

/// An event that is not about this review leaves it as it is.
pub proof fn events_about_others_are_ignored(
    snapshot: SpecReviewSnapshot,
    meta: SpecEventMeta,
    body: SpecEventBody,
)
    requires
        !about_review(body, snapshot.review.id),
    ensures
        snapshot.after_body(meta, body) == (snapshot, Seq::<ViewSection>::empty()),
{
    reveal(SpecReviewSnapshot::after_body);
}

// ---- mutations ------------------------------------------------------------

/// A new comment is accepted unless its id is taken, or it is informational
/// and not on the review. It becomes the comment of its writer, at that time,
/// with the text, kind, anchor and context given, as the root of its thread.
pub proof fn comments_are_what_their_writer_wrote(
    snapshot: SpecReviewSnapshot,
    meta: SpecEventMeta,
    review_id: ReviewId,
    comment_id: CommentId,
    kind: SpecCommentKind,
    anchor: SpecAnchor,
    body: Seq<char>,
    context: Option<SpecCommentContext>,
)
    ensures
        snapshot.local_event(
            meta,
            SpecMutation::AddComment { review_id, comment_id, kind, anchor, body, context },
        ) == (if has_comment(snapshot.comments, comment_id) {
            Err::<SpecEventBody, MutationError>(MutationError::DuplicateComment(comment_id))
        } else if kind is Informational && anchor !is Review {
            Err(MutationError::InformationalAnchor)
        } else {
            Ok(
                SpecEventBody::CommentCreated {
                    comment: SpecComment {
                        id: comment_id,
                        review_id,
                        thread_id: ThreadId(comment_id.0),
                        author: meta.author,
                        kind,
                        anchor,
                        body,
                        created: meta.ts,
                        edited: None,
                        state: SpecCommentState::Live,
                        context,
                    },
                },
            )
        }),
{
    reveal(SpecReviewSnapshot::local_event);
    lemma_comment_at(snapshot.comments, comment_id);
}

/// A reply is anchored where the root of its thread is, in the root's state
/// and context, and is otherwise what its writer wrote.
pub proof fn replies_are_anchored_with_their_root(
    snapshot: SpecReviewSnapshot,
    meta: SpecEventMeta,
    review_id: ReviewId,
    thread_id: ThreadId,
    comment_id: CommentId,
    kind: SpecCommentKind,
    body: Seq<char>,
    t: int,
    r: int,
)
    requires
        named_thread(snapshot.threads, thread_id, t),
        named_comment(snapshot.comments, snapshot.threads[t].root, r),
        !has_comment(snapshot.comments, comment_id),
    ensures
        snapshot.local_event(
            meta,
            SpecMutation::Reply { review_id, thread_id, comment_id, kind, body },
        ) == Ok::<
            SpecEventBody,
            MutationError,
        >(
            SpecEventBody::CommentCreated {
                comment: SpecComment {
                    id: comment_id,
                    review_id,
                    thread_id,
                    author: meta.author,
                    kind,
                    anchor: snapshot.comments[r].anchor,
                    body,
                    created: meta.ts,
                    edited: None,
                    state: snapshot.comments[r].state,
                    context: snapshot.comments[r].context,
                },
            },
        ),
{
    reveal(SpecReviewSnapshot::local_event);
    lemma_comment_at(snapshot.comments, comment_id);
    lemma_comment_at(snapshot.comments, snapshot.threads[t].root);
    lemma_thread_at(snapshot.threads, thread_id);
}

/// A reply is refused if its id is taken, its thread is unknown, or the root
/// of the thread is missing.
pub proof fn replies_need_their_thread(
    snapshot: SpecReviewSnapshot,
    meta: SpecEventMeta,
    review_id: ReviewId,
    thread_id: ThreadId,
    comment_id: CommentId,
    kind: SpecCommentKind,
    body: Seq<char>,
)
    ensures
        ({
            let r = snapshot.local_event(
                meta,
                SpecMutation::Reply { review_id, thread_id, comment_id, kind, body },
            );
            &&& has_comment(snapshot.comments, comment_id) ==> r == Err::<SpecEventBody, MutationError>(
                MutationError::DuplicateComment(comment_id),
            )
            &&& !has_comment(snapshot.comments, comment_id) && !has_thread(snapshot.threads, thread_id) ==> r == Err::<
                SpecEventBody,
                MutationError,
            >(MutationError::UnknownThread(thread_id))
            &&& forall|t: int|
                !has_comment(snapshot.comments, comment_id) && #[trigger] named_thread(
                    snapshot.threads,
                    thread_id,
                    t,
                )
                    && !has_comment(snapshot.comments, snapshot.threads[t].root) ==> r == Err::<
                    SpecEventBody,
                    MutationError,
                >(MutationError::UnknownComment(snapshot.threads[t].root))
        }),
{
    reveal(SpecReviewSnapshot::local_event);
    lemma_comment_at(snapshot.comments, comment_id);
    lemma_thread_at(snapshot.threads, thread_id);
    assert forall|t: int| #[trigger] named_thread(
        snapshot.threads,
        thread_id,
        t,
    ) implies snapshot.thread(thread_id)
        == Some(snapshot.threads[t]) by {}
    if has_thread(snapshot.threads, thread_id) {
        lemma_comment_at(snapshot.comments, snapshot.thread(thread_id)->0.root);
    }
}

/// Only its author edits or deletes a comment, and it must be there.
pub proof fn only_authors_change_their_comments(
    snapshot: SpecReviewSnapshot,
    meta: SpecEventMeta,
    review_id: ReviewId,
    comment_id: CommentId,
    body: Seq<char>,
)
    ensures
        ({
            let edit = snapshot.local_event(meta, SpecMutation::EditComment { review_id, comment_id, body });
            let delete = snapshot.local_event(meta, SpecMutation::DeleteComment { review_id, comment_id });
            &&& !has_comment(snapshot.comments, comment_id) ==> edit == Err::<SpecEventBody, MutationError>(
                MutationError::UnknownComment(comment_id),
            ) && delete == Err::<SpecEventBody, MutationError>(MutationError::UnknownComment(comment_id))
            &&& forall|i: int| #[trigger]
                named_comment(snapshot.comments, comment_id, i) ==> if snapshot.comments[i].author == meta.author {
                    edit == Ok::<SpecEventBody, MutationError>(
                        SpecEventBody::CommentEdited { review_id, comment_id, body },
                    ) && delete == Ok::<SpecEventBody, MutationError>(
                        SpecEventBody::CommentDeleted { review_id, comment_id },
                    )
                } else {
                    edit == Err::<SpecEventBody, MutationError>(
                        MutationError::NotAuthor(comment_id),
                    ) && delete
                        == Err::<SpecEventBody, MutationError>(MutationError::NotAuthor(comment_id))
                }
        }),
{
    reveal(SpecReviewSnapshot::local_event);
    lemma_comment_at(snapshot.comments, comment_id);
}

/// An open thread can be resolved and a resolved one reopened; informational
/// threads, unknown ones and those that are so already cannot.
pub proof fn threads_are_resolved_once(
    snapshot: SpecReviewSnapshot,
    meta: SpecEventMeta,
    review_id: ReviewId,
    thread_id: ThreadId,
)
    ensures
        ({
            let resolve = snapshot.local_event(meta, SpecMutation::ResolveThread { review_id, thread_id });
            let reopen = snapshot.local_event(meta, SpecMutation::UnresolveThread { review_id, thread_id });
            &&& !has_thread(snapshot.threads, thread_id) ==> resolve == Err::<SpecEventBody, MutationError>(
                MutationError::UnknownThread(thread_id),
            ) && reopen == Err::<SpecEventBody, MutationError>(MutationError::UnknownThread(thread_id))
            &&& forall|i: int| #[trigger]
                named_thread(snapshot.threads, thread_id, i) ==> match snapshot.threads[i].resolution {
                    SpecThreadResolution::Open => resolve == Ok::<SpecEventBody, MutationError>(
                        SpecEventBody::ThreadResolved { review_id, thread_id },
                    ) && reopen == Err::<SpecEventBody, MutationError>(MutationError::NotResolved(thread_id)),
                    SpecThreadResolution::Resolved { .. } => reopen == Ok::<SpecEventBody, MutationError>(
                        SpecEventBody::ThreadUnresolved { review_id, thread_id },
                    ) && resolve == Err::<SpecEventBody, MutationError>(
                        MutationError::AlreadyResolved(thread_id),
                    ),
                    SpecThreadResolution::Informational => resolve == Err::<SpecEventBody, MutationError>(
                        MutationError::InformationalThread(thread_id),
                    ) && reopen == resolve,
                }
        }),
{
    reveal(SpecReviewSnapshot::local_event);
    lemma_thread_at(snapshot.threads, thread_id);
}

/// Moving one side of a repository's target keeps the other side.
pub proof fn targets_move_one_side(
    snapshot: SpecReviewSnapshot,
    meta: SpecEventMeta,
    review_id: ReviewId,
    update: SpecReviewTargetUpdate,
    i: int,
)
    requires
        0 <= i < snapshot.review.targets.len(),
        snapshot.review.targets[i].repo_id == update.repo_id,
        forall|j: int| 0 <= j < i ==> (#[trigger] snapshot.review.targets[j]).repo_id != update.repo_id,
    ensures
        match snapshot.local_event(meta, SpecMutation::UpdateReviewTarget { review_id, update }) {
            Ok(SpecEventBody::ReviewTargetUpdated { review_id: id, target }) => {
                &&& id == review_id
                &&& target.repo_id == update.repo_id
                &&& match update.revision {
                    SpecTargetRevision::Head { ref_spec } => target.head == ref_spec && target.base
                        == snapshot.review.targets[i].base,
                    SpecTargetRevision::Base { ref_spec } => target.base == ref_spec.to_ref() && target.head
                        == snapshot.review.targets[i].head,
                }
            },
            _ => false,
        },
{
    reveal(SpecReviewSnapshot::local_event);
    let p = target_of(update.repo_id);
    let all = snapshot.review.targets;
    data::lemma_first_where(all, p);
    assert(p(all[i]));
    let k = data::first_where(all, p)->0;
    assert(p(all[k]));
    if k < i {
        assert(all[k].repo_id != update.repo_id);
    }
    if i < k {
        assert(!p(all[i]));
    }
}

/// What is not shown before it is committed is refused by name; a rename and
/// a target of an unknown repository are what they say.
pub proof fn other_mutations_are_not_shown_early(
    snapshot: SpecReviewSnapshot,
    meta: SpecEventMeta,
    mutation: SpecMutation,
)
    ensures
        match mutation {
            SpecMutation::UpdateReview { review_id, title, status } => snapshot.local_event(meta, mutation) == Ok::<
                SpecEventBody,
                MutationError,
            >(SpecEventBody::ReviewUpdated { review_id, title, status }),
            SpecMutation::UpdateReviewTarget { update, .. } => (forall|i: int|
                0 <= i < snapshot.review.targets.len() ==> (#[trigger] snapshot.review.targets[i]).repo_id
                    != update.repo_id) ==> snapshot.local_event(meta, mutation) == Err::<SpecEventBody, MutationError>(
                MutationError::UnknownRepo(update.repo_id),
            ),
            SpecMutation::AddComment { .. } => true,
            SpecMutation::Reply { .. } => true,
            SpecMutation::EditComment { .. } => true,
            SpecMutation::DeleteComment { .. } => true,
            SpecMutation::ResolveThread { .. } => true,
            SpecMutation::UnresolveThread { .. } => true,
            _ => snapshot.local_event(meta, mutation) == Err::<SpecEventBody, MutationError>(
                MutationError::Unsupported(mutation.kind()),
            ),
        },
{
    reveal(SpecReviewSnapshot::local_event);
    if let SpecMutation::UpdateReviewTarget { update, .. } = mutation {
        let p = target_of(update.repo_id);
        data::lemma_first_where(snapshot.review.targets, p);
        if let Some(i) = data::first_where(snapshot.review.targets, p) {
            assert(p(snapshot.review.targets[i]));
        }
    }
}

} // verus!
