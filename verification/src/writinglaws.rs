//! What writing does, and what the connection does to it, said of the parts
//! they change.
use vstd::prelude::*;

use crate::client::{Connection, SpecClientCore, SpecCoreError};
use crate::data;
use crate::diff::SpecFileRef;
use crate::explorer::file_of;
use crate::explorerlaws::{first_changed, lemma_first_changed};
use crate::eventlaws::{lemma_comment_at, lemma_thread_at, named_comment, named_thread};
use crate::flow::{SpecErrand, SpecKey};
use crate::focus::Focus;
use crate::lifecycle::{
    ManagementRequest, SpecDaemonManagement, SpecManagementReply, SpecRecovery,
    SpecUpgradeOperation,
};
use crate::protocol::{
    BlobOid, CommentId, CommentIntent, RequestId, ReviewId, Side, SpecAnchor, SpecAuthor, SpecClientMsg,
    SpecCommentContext, SpecEventBody, SpecMutation, SpecRenderTarget, SpecRequest, SpecReviewTarget, ThreadId,
    WorkspaceId, PROTOCOL_CURRENT,
};
use crate::restarting::backoff;
use crate::view::{SpecConnectionView, SpecDraft, SpecDraftPurpose, SpecOpenReview};
use crate::writing::line_range;

verus! {

// ---- editors --------------------------------------------------------------

/// A range of lines holds both of its ends, whichever was given first, and
/// counts from one.
pub proof fn ranges_are_written_either_way(a: u32, b: u32)
    ensures
        line_range(a, b) == line_range(b, a),
        line_range(a, b).start <= line_range(a, b).end,
        1 <= line_range(a, b).start,
        1 <= a <= b ==> line_range(a, b).start == a && line_range(a, b).end == b,
        a == 0 ==> line_range(a, b).start == 1,
{
}

/// Nothing that is written or on its way differs.
pub open spec fn keeps_review(a: SpecClientCore, b: SpecClientCore) -> bool {
    &&& b.committed == a.committed
    &&& b.pending == a.pending
    &&& b.deferred == a.deferred
    &&& b.view.review == a.view.review
    &&& b.view.reviews == a.view.reviews
    &&& b.view.workspaces == a.view.workspaces
    &&& b.connection == a.connection
    &&& b.flow.out == a.flow.out
}

/// An editor opens only in a review and only while there is none; it has the
/// keys, and they go back to where they were.
pub proof fn editors_open_one_at_a_time(core: SpecClientCore, anchor: SpecAnchor, intent: CommentIntent)
    ensures
        core.open_draft(anchor, intent) is Ok <==> core.view.review is Some && core.view.draft is None,
        core.view.review is None ==> core.open_draft(anchor, intent) == Err::<SpecClientCore, SpecCoreError>(
            SpecCoreError::NoOpenReview,
        ),
        core.view.review is Some && core.view.draft is Some ==> core.open_draft(anchor, intent)
            == Err::<SpecClientCore, SpecCoreError>(SpecCoreError::DraftAlreadyOpen),
        core.open_draft(anchor, intent) matches Ok(out) ==> {
            &&& out.view.draft is Some
            &&& (out.view.draft->0).anchor == anchor
            &&& (out.view.draft->0).submission_error is None
            &&& ((out.view.draft->0).purpose matches SpecDraftPurpose::Comment { intent: i, .. } && i == intent)
            &&& out.view.focus is Composer
            &&& core.keys.focus_return is None ==> out.keys.focus_return == Some(core.view.focus)
            &&& core.keys.focus_return is Some ==> out.keys.focus_return == core.keys.focus_return
            &&& out.keys.visual_anchor is None
            &&& keeps_review(core, out)
        },
{
    reveal(SpecClientCore::open_draft);
    reveal(SpecClientCore::commenting);
    reveal(SpecClientCore::entered);
}

/// The file is on screen as that, or the review lists it as that.
pub open spec fn shows_file(open: SpecOpenReview, file: SpecFileRef, target: SpecRenderTarget) -> bool {
    if open.open_file is Some && (open.open_file->0).render.repo_id == file.repo_id && (
    open.open_file->0).render.path == file.path {
        target == (open.open_file->0).render.target
    } else {
        exists|i: int| #[trigger]
            first_changed(open.files, file.repo_id, file.path, i) && target == open.files[i].target
    }
}

/// A comment remembers what was on screen when it was made: the change of a
/// diff, or the blob that was browsed. One on the review remembers nothing.
pub proof fn comments_remember_what_was_on_screen(open: SpecOpenReview, anchor: SpecAnchor, file: SpecFileRef)
    requires
        match anchor {
            SpecAnchor::Review => true,
            SpecAnchor::File { repo_id, path, .. } => repo_id == file.repo_id && path == file.path,
            SpecAnchor::Lines { repo_id, path, .. } => repo_id == file.repo_id && path == file.path,
        },
    ensures
        anchor is Review ==> open.context_of(anchor) is None,
        !(anchor is Review) ==> match open.context_of(anchor) {
            Some(SpecCommentContext::Diff { change }) => shows_file(
                open,
                file,
                SpecRenderTarget::Diff { change },
            ),
            Some(SpecCommentContext::Browse { oid }) => shows_file(
                open,
                file,
                SpecRenderTarget::Blob { oid },
            ),
            None => !(exists|target: SpecRenderTarget| #[trigger] shows_file(open, file, target)),
        },
{
    lemma_first_changed(open.files, file.repo_id, file.path);
    if let Some(k) = data::found(open.files, file_of(file.repo_id, file.path)) {
        let p = file_of(file.repo_id, file.path);
        data::lemma_first_where(open.files, p);
        let i = data::first_where(open.files, p)->0;
        assert(p(open.files[i]));
        assert(open.files[i].repo_id == file.repo_id && open.files[i].path == file.path);
        let j = choose|j: int| #[trigger] first_changed(open.files, file.repo_id, file.path, j);
        assert(open.files[j] == k);
    }
}

/// The review lists the file, and it has that blob on that side.
pub open spec fn has_blob(core: SpecClientCore, file: SpecFileRef, side: Side, blob: BlobOid) -> bool {
    core.view.review is Some && exists|i: int| #[trigger]
        first_changed((core.view.review->0).files, file.repo_id, file.path, i) && crate::difflaws::shows_blob(
            (core.view.review->0).files[i].target,
            side,
            blob,
        )
}

proof fn lemma_blob(core: SpecClientCore, file: SpecFileRef, side: Side, blob: BlobOid)
    ensures
        core.blob_of(file, side) == Some(blob) <==> has_blob(core, file, side, blob),
{
    if let Some(open) = core.view.review {
        lemma_first_changed(open.files, file.repo_id, file.path);
        let p = file_of(file.repo_id, file.path);
        data::lemma_first_where(open.files, p);
        if let Some(k) = data::found(open.files, p) {
            let i = data::first_where(open.files, p)->0;
            assert(p(open.files[i]));
            assert(open.files[i].repo_id == file.repo_id && open.files[i].path == file.path);
            let j = choose|j: int| #[trigger] first_changed(open.files, file.repo_id, file.path, j);
            assert(open.files[j] == k);
        }
    }
}

/// A comment on lines is anchored to those lines of the file, on that side,
/// at the blob it has there; without such a blob there is none.
pub proof fn comments_on_lines_are_anchored_to_them(
    core: SpecClientCore,
    file: SpecFileRef,
    side: Side,
    start: u32,
    end: u32,
    blob: BlobOid,
)
    requires
        core.view.review is Some,
        core.view.draft is None,
    ensures
        has_blob(core, file, side, blob) ==> (core.comment_lines(file, side, start, end) matches Ok(out) && {
            &&& out.view.draft is Some
            &&& ((out.view.draft->0).anchor matches SpecAnchor::Lines {
                repo_id,
                path,
                side: s,
                blob_oid,
                lines,
                ..
            } && {
                &&& repo_id == file.repo_id
                &&& path == file.path
                &&& s == side
                &&& blob_oid == blob
                &&& lines == line_range(start, end)
            })
            &&& out.view.focus is Composer
            &&& keeps_review(core, out)
        }),
        has_blob(core, file, Side::Head, blob) ==> (core.comment_file(file) matches Ok(out) && {
            &&& out.view.draft is Some
            &&& (out.view.draft->0).anchor == (SpecAnchor::File {
                repo_id: file.repo_id,
                path: file.path,
                blob_oid: blob,
            })
            &&& out.view.focus is Composer
            &&& keeps_review(core, out)
        }),
        core.blob_of(file, side) is None ==> core.comment_lines(file, side, start, end)
            == Err::<SpecClientCore, SpecCoreError>(SpecCoreError::UnknownFile(file)),
        core.blob_of(file, Side::Head) is None ==> core.comment_file(file) == Err::<SpecClientCore, SpecCoreError>(
            SpecCoreError::UnknownFile(file),
        ),
{
    reveal(SpecClientCore::comment_lines);
    reveal(SpecClientCore::comment_file);
    reveal(SpecClientCore::commenting);
    reveal(SpecClientCore::entered);
    lemma_blob(core, file, side, blob);
    lemma_blob(core, file, Side::Head, blob);
}

/// What an editor sends is what was typed: a reply to its thread, or a comment
/// at its anchor with what was on screen.
pub proof fn editors_send_what_was_typed(
    draft: SpecDraft,
    review_id: ReviewId,
    comment_id: CommentId,
    body: Seq<char>,
)
    ensures
        match (draft.purpose, SpecClientCore::drafted(draft, review_id, comment_id, body)) {
            (SpecDraftPurpose::Reply { thread_id }, Some(SpecMutation::Reply {
                review_id: r,
                thread_id: t,
                comment_id: c,
                kind,
                body: b,
            })) => r == review_id && t == thread_id && c == comment_id && kind is Note && b == body,
            (SpecDraftPurpose::Comment { intent, context }, Some(SpecMutation::AddComment {
                review_id: r,
                comment_id: c,
                kind,
                anchor,
                body: b,
                context: x,
            })) => {
                &&& r == review_id
                &&& c == comment_id
                &&& b == body
                &&& anchor == draft.anchor
                &&& x == context
                &&& intent is Finding ==> kind is Note
                &&& intent is Informational ==> kind is Informational
            },
            (SpecDraftPurpose::Defer { .. }, None) => true,
            _ => false,
        },
{
}

/// Sending needs a review and an editor, and the mutation must be one the
/// daemon takes; the editor closes only then.
pub proof fn editors_close_once_sent(core: SpecClientCore, comment_id: CommentId, body: Seq<char>)
    ensures
        core.view.review is None ==> core.draft_submitted(comment_id, body) == Err::<SpecClientCore, SpecCoreError>(
            SpecCoreError::NoOpenReview,
        ),
        core.view.review is Some && core.view.draft is None ==> core.draft_submitted(comment_id, body)
            == Err::<SpecClientCore, SpecCoreError>(SpecCoreError::NoDraft),
        core.view.review is Some && core.view.draft is Some ==> match SpecClientCore::drafted(
            core.view.draft->0,
            (core.view.review->0).snapshot.review.id,
            comment_id,
            body,
        ) {
            Some(mutation) => match core.mutated(mutation) {
                Ok(c) => core.draft_submitted(comment_id, body) == Ok::<SpecClientCore, SpecCoreError>(
                    c.draft_closed(),
                ),
                Err(e) => core.draft_submitted(comment_id, body) == Err::<SpecClientCore, SpecCoreError>(e),
            },
            None => core.draft_submitted(comment_id, body) is Err,
        },
{
    reveal(SpecClientCore::draft_submitted);
}

/// A closed editor gives the keys back; while nothing waited for it, nothing
/// else changes.
pub proof fn closed_editors_give_the_keys_back(core: SpecClientCore)
    requires
        core.deferred.len() == 0,
    ensures
        ({
            let out = core.draft_closed();
            &&& out.view.draft is None
            &&& !out.view.pending_refresh
            &&& out.keys.visual_anchor is None
            &&& out.keys.focus_return is None
            &&& core.keys.focus_return matches Some(focus) ==> out.view.focus == focus
            &&& core.keys.focus_return is None ==> out.view.focus == core.view.focus
            &&& keeps_review(core, out)
        }),
        core.view.draft is None ==> core.draft_discarded() == Err::<SpecClientCore, SpecCoreError>(
            SpecCoreError::NoDraft,
        ),
        core.view.draft is Some ==> core.draft_discarded() == Ok::<SpecClientCore, SpecCoreError>(core.draft_closed()),
{
    reveal(SpecClientCore::draft_closed);
    reveal(SpecClientCore::draft_discarded);
    reveal(SpecClientCore::left);
    reveal(SpecClientCore::undeferred);
    assert(core.deferred =~= Seq::empty());
}

/// An editor for a reply is anchored where the root of its thread is; without
/// that thread there is none.
pub proof fn replies_open_where_their_thread_is(core: SpecClientCore, id: ThreadId, t: int, r: int)
    requires
        core.view.review is Some,
        core.view.draft is None,
        named_thread((core.view.review->0).snapshot.threads, id, t),
        named_comment(
            (core.view.review->0).snapshot.comments,
            (core.view.review->0).snapshot.threads[t].root,
            r,
        ),
    ensures
        core.reply_opened(id) matches Ok(out) && {
            &&& out.view.draft is Some
            &&& (out.view.draft->0).anchor == (core.view.review->0).snapshot.comments[r].anchor
            &&& (out.view.draft->0).purpose == (SpecDraftPurpose::Reply { thread_id: id })
            &&& out.view.focus is Composer
            &&& keeps_review(core, out)
        },
{
    reveal(SpecClientCore::reply_opened);
    reveal(SpecClientCore::entered);
    let snapshot = (core.view.review->0).snapshot;
    lemma_thread_at(snapshot.threads, id);
    lemma_comment_at(snapshot.comments, snapshot.threads[t].root);
}

/// Marking a file says which file and, at once, what of it was seen: the
/// content it has at head in the file list. Only a person marks files.
pub proof fn marks_name_what_the_list_shows(core: SpecClientCore, file: SpecFileRef, i: int)
    requires
        core.connection is Subscribed,
        core.view.review is Some,
        first_changed((core.view.review->0).files, file.repo_id, file.path, i),
    ensures
        ({
            let open = core.view.review->0;
            let review_id = open.snapshot.review.id;
            &&& core.config.author is Agent ==> core.mark_viewed(file, true) is Err && core.mark_viewed(file, false)
                is Err
            &&& core.config.author matches SpecAuthor::Human { human } ==> {
                &&& core.mark_viewed(file, true) == Ok::<SpecClientCore, SpecCoreError>(
                    core.mutated_with(
                        SpecMutation::MarkViewed { review_id, repo_id: file.repo_id, path: file.path },
                        SpecEventBody::FileViewed {
                            review_id,
                            repo_id: file.repo_id,
                            path: file.path,
                            viewer: human,
                            content: open.files[i].target.viewed_content(),
                        },
                    ),
                )
                &&& core.mark_viewed(file, false) == Ok::<SpecClientCore, SpecCoreError>(
                    core.mutated_with(
                        SpecMutation::UnmarkViewed { review_id, repo_id: file.repo_id, path: file.path },
                        SpecEventBody::FileUnviewed {
                            review_id,
                            repo_id: file.repo_id,
                            path: file.path,
                            viewer: human,
                        },
                    ),
                )
            }
        }),
{
    reveal(SpecClientCore::mark_viewed);
    lemma_first_changed((core.view.review->0).files, file.repo_id, file.path);
}

/// Help opens over what has the keys and gives them back when it closes.
pub proof fn help_gives_the_keys_back(core: SpecClientCore)
    requires
        core.keys.help_context is None,
        core.keys.focus_return is None,
    ensures
        core.toggle_help().view.focus is Help,
        core.toggle_help().keys.help_context == Some(core.view.focus.spec_context()),
        core.toggle_help().toggle_help().view.focus == core.view.focus,
        core.toggle_help().toggle_help().keys.help_context is None,
        core.toggle_help().toggle_help().keys.focus_return is None,
        keeps_review(core, core.toggle_help()),
{
    reveal(SpecClientCore::toggle_help);
    reveal(SpecClientCore::entered);
    reveal(SpecClientCore::left);
}

/// A line selection starts at the row that has the keys, and only in a diff.
pub proof fn selections_start_where_the_keys_are(core: SpecClientCore)
    requires
        core.view.review is Some,
    ensures
        core.enter_visual() is Ok <==> core.view.focus is Diff,
        core.view.focus matches Focus::Diff { row, side } ==> (core.enter_visual() matches Ok(out) && {
            &&& out.keys.visual_anchor is Some
            &&& (out.keys.visual_anchor->0).row == row
            &&& (out.keys.visual_anchor->0).side == side
            &&& out.view == core.view
            &&& out.flow == core.flow
        }),
        core.leave_visual() is Ok <==> core.keys.visual_anchor is Some,
        core.leave_visual() matches Ok(out) ==> out.keys.visual_anchor is None && out.view == core.view,
{
    reveal(SpecClientCore::enter_visual);
    reveal(SpecClientCore::leave_visual);
}

/// A new review is only asked for: it is sent as it was filled in, under the
/// next number, and nothing is shown before the daemon has it.
pub proof fn new_reviews_are_asked_for(
    core: SpecClientCore,
    review_id: ReviewId,
    workspace_id: WorkspaceId,
    title: Seq<char>,
    targets: Seq<SpecReviewTarget>,
)
    ensures
        core.create_review(review_id, workspace_id, title, targets) is Ok <==> core.connection is Subscribed,
        core.create_review(review_id, workspace_id, title, targets) matches Ok(out) ==> {
            &&& out.flow.out == core.flow.out.push(
                SpecErrand::Send(
                    SpecClientMsg::Request {
                        id: RequestId(core.flow.wire.next_request),
                        request: SpecRequest::Mutate {
                            client_seq: crate::protocol::ClientSeq(core.flow.wire.next_client_seq),
                            mutation: SpecMutation::CreateReview { review_id, workspace_id, title, targets },
                        },
                    },
                ),
            )
            &&& out.view == core.view
            &&& out.pending == core.pending
            &&& out.committed == core.committed
        },
{
    reveal(SpecClientCore::create_review);
    reveal(crate::flow::SpecFlow::request);
}

// ---- the connection -------------------------------------------------------

/// A connection is asked for only while there is none. The last event seen is
/// remembered, and what the host stored is asked for the first time.
pub proof fn connections_are_asked_for_once(core: SpecClientCore)
    ensures
        core.connect() is Ok <==> core.connection is Disconnected,
        core.disconnect() is Ok <==> !(core.connection is Disconnected),
        core.disconnect() matches Ok(out) ==> out.flow.out == core.flow.out.push(SpecErrand::Disconnect) && out.view
            == core.view,
        core.connect() matches Ok(out) ==> {
            &&& out.connection is Connecting
            &&& out.connection.spec_last_seq() == core.connection.spec_last_seq()
            &&& (out.connection matches Connection::Connecting { hello_sent, .. } && !hello_sent)
            &&& out.view.connection is Connecting
            &&& out.prefs_loaded
            &&& core.prefs_loaded ==> out.flow.out == core.flow.out.push(SpecErrand::Connect)
            &&& !core.prefs_loaded ==> out.flow.out == core.flow.out + seq![
                SpecErrand::Connect,
                SpecErrand::Load { key: SpecKey::Prefs },
                SpecErrand::Load { key: SpecKey::Keymap },
            ]
            &&& out.pending == core.pending
            &&& out.view.draft == core.view.draft
        },
{
    reveal(SpecClientCore::connect);
    reveal(SpecClientCore::disconnect);
    reveal(SpecClientCore::loaded_once);
}

/// The daemon is greeted once a connection that was asked for is up, and only
/// once: with who is there and the protocol that is spoken.
pub proof fn daemons_are_greeted_once(core: SpecClientCore)
    ensures
        core.connection matches Connection::Connecting { hello_sent, last_seq } ==> {
            &&& !hello_sent ==> {
                &&& core.greeted().flow.out == core.flow.out.push(
                    SpecErrand::Send(
                        SpecClientMsg::Hello {
                            client_id: core.config.client_id,
                            protocol: PROTOCOL_CURRENT,
                            client: core.config.client,
                            author: core.config.author,
                        },
                    ),
                )
                &&& core.greeted().connection == (Connection::Connecting { hello_sent: true, last_seq })
            }
            &&& hello_sent ==> core.greeted() == core
        },
        !(core.connection is Connecting) ==> core.greeted() == core,
        core.greeted().greeted() == core.greeted(),
        core.greeted().view == core.view,
        core.greeted().pending == core.pending,
{
    reveal(SpecClientCore::greeted);
}

/// With the connection nothing is in flight any more; what was not answered
/// stays, to be sent again, and nothing else that was written is lost.
pub proof fn unanswered_mutations_are_sent_again(core: SpecClientCore)
    ensures
        ({
            let out = core.cleared();
            &&& out.flow.wire.in_flight.len() == 0
            &&& out.flow.wire.snapshot_requests.len() == 0
            &&& out.flow.content.in_flight == 0
            &&& out.flow.content.cache == core.flow.content.cache
            &&& out.flow.wire.next_client_seq == core.flow.wire.next_client_seq
            &&& out.flow.wire.next_request == core.flow.wire.next_request
            &&& out.pending.len() == core.pending.len()
            &&& forall|i: int|
                0 <= i < core.pending.len() ==> {
                    &&& !(#[trigger] out.pending[i]).sent
                    &&& out.pending[i].client_seq == core.pending[i].client_seq
                    &&& out.pending[i].mutation == core.pending[i].mutation
                    &&& out.pending[i].body == core.pending[i].body
                    &&& out.pending[i].ts == core.pending[i].ts
                }
            &&& out.view == core.view
            &&& out.committed == core.committed
            &&& out.deferred == core.deferred
            &&& out.flow.out == core.flow.out
        }),
{
    reveal(SpecClientCore::cleared);
    reveal(crate::flow::SpecFlow::cleared);
}

/// The waits between attempts double from a quarter of a second up to four
/// seconds.
pub proof fn waits_double_up_to_a_limit(attempts: u8)
    ensures
        backoff(0) == 250,
        attempts < 4 ==> backoff((attempts + 1) as u8) == 2 * backoff(attempts),
        attempts >= 4 ==> backoff(attempts) == 4000,
{
}

/// A restart that is announced is waited for a minute, and tried first after
/// a tenth of a second.
pub proof fn announced_restarts_are_waited_for(core: SpecClientCore, operation: SpecUpgradeOperation)
    requires
        core.now <= u64::MAX - 60_000,
    ensures
        ({
            let out = core.restart_notice(operation);
            &&& out.recovery == (SpecRecovery::Restarting {
                operation,
                deadline: (core.now + 60_000) as u64,
                next_attempt: (core.now + 100) as u64,
                attempts: 0,
            })
            &&& out.view.connection == (SpecConnectionView::Restarting { operation })
            &&& out.connection == core.connection
            &&& out.pending == core.pending
            &&& out.view.draft == core.view.draft
            &&& out.flow.out == core.flow.out
        }),
{
    reveal(SpecClientCore::restart_notice);
}

/// While a restart is waited for, a new attempt is made when its time has come
/// and there is no connection; past the deadline the wait ends. Otherwise the
/// clock changes nothing.
pub proof fn restarts_are_tried_until_the_deadline(
    core: SpecClientCore,
    operation: SpecUpgradeOperation,
    deadline: u64,
    next_attempt: u64,
    attempts: u8,
)
    requires
        core.recovery == (SpecRecovery::Restarting { operation, deadline, next_attempt, attempts }),
        core.now <= u64::MAX - 4000,
    ensures
        ({
            let out = core.restart_tick();
            &&& core.now >= deadline ==> {
                &&& out.recovery is Idle
                &&& out.connection is Disconnected
                &&& out.connection.spec_last_seq() == core.connection.spec_last_seq()
                &&& out.view.connection is Rejected
                &&& out.flow.out == core.flow.out.push(SpecErrand::Disconnect)
            }
            &&& core.now < deadline && core.connection is Disconnected && core.now >= next_attempt ==> {
                &&& out.connection is Connecting
                &&& out.connection.spec_last_seq() == core.connection.spec_last_seq()
                &&& out.flow.out == core.flow.out.push(SpecErrand::Connect)
                &&& (out.recovery matches SpecRecovery::Restarting {
                    operation: o,
                    deadline: d,
                    next_attempt: n,
                    attempts: a,
                } && {
                    &&& o == operation
                    &&& d == deadline
                    &&& n == core.now + backoff(attempts)
                    &&& attempts < u8::MAX ==> a == attempts + 1
                })
            }
            &&& core.now < deadline && !(core.connection is Disconnected && core.now >= next_attempt) ==> out == core
            &&& out.pending.len() == core.pending.len()
            &&& out.view.draft == core.view.draft
            &&& out.view.review == core.view.review
        }),
{
    reveal(SpecClientCore::restart_tick);
    reveal(SpecClientCore::restart_overdue);
    reveal(SpecClientCore::restart_attempt);
    reveal(SpecClientCore::cleared);
    reveal(crate::flow::SpecFlow::cleared);
}

/// Without a restart to wait for the clock does nothing.
pub proof fn idle_clocks_do_nothing(core: SpecClientCore)
    requires
        core.recovery is Idle,
    ensures
        core.restart_tick() == core,
{
    reveal(SpecClientCore::restart_tick);
}

/// Once the connection drops, a restart is waited for only if the replacement
/// speaks the same protocol; else an upgrade is asked for.
pub proof fn replacements_must_speak_the_protocol(core: SpecClientCore)
    ensures
        core.recovery is Idle ==> core.restart_disconnected().view.connection is Disconnected
            && core.restart_disconnected().recovery is Idle,
        core.recovery matches SpecRecovery::Restarting { operation, .. } ==> {
            let out = core.restart_disconnected();
            &&& operation.protocol == PROTOCOL_CURRENT ==> out.view.connection == (SpecConnectionView::Restarting {
                operation,
            }) && out.recovery == core.recovery
            &&& operation.protocol != PROTOCOL_CURRENT ==> out.recovery is Idle && (
            out.view.connection matches SpecConnectionView::UpgradeRequired { client, supported } && client
                == PROTOCOL_CURRENT && supported == seq![operation.protocol])
        },
        core.restart_disconnected().pending == core.pending,
        core.restart_disconnected().view.review == core.view.review,
        core.restart_disconnected().view.draft == core.view.draft,
{
    reveal(SpecClientCore::restart_disconnected);
}

/// Only the reply to the latest request about the daemon counts, and it is
/// shown as what it says.
pub proof fn only_the_latest_reply_counts(
    core: SpecClientCore,
    request: ManagementRequest,
    id: crate::lifecycle::ManagementRequestId,
    reply: SpecManagementReply,
)
    ensures
        core.manage_daemon(request).management_request is Some,
        core.manage_daemon(request).flow.out == core.flow.out.push(
            SpecErrand::ManageDaemon { id: core.manage_daemon(request).management_request->0, request },
        ),
        request is Inspect ==> core.manage_daemon(request).view.daemon_management is Inspecting,
        request is Upgrade ==> core.manage_daemon(request).view.daemon_management is Upgrading,
        core.management_request != Some(id) ==> core.managed_daemon(id, reply) == core,
        core.management_request == Some(id) ==> {
            let out = core.managed_daemon(id, reply);
            &&& out.management_request is None
            &&& match reply {
                SpecManagementReply::Status { status } => out.view.daemon_management == (
                SpecDaemonManagement::Status { status }),
                SpecManagementReply::Upgrade { result } => out.view.daemon_management == (
                SpecDaemonManagement::Outcome { result }),
                SpecManagementReply::StatusFailed { message } => out.view.daemon_management == (
                SpecDaemonManagement::Unavailable { message }),
                SpecManagementReply::UpgradeFailed { message } => out.view.daemon_management == (
                SpecDaemonManagement::Unavailable { message }),
            }
            &&& out.view.review == core.view.review
            &&& out.pending == core.pending
            &&& out.flow.out == core.flow.out
        },
{
    reveal(SpecClientCore::manage_daemon);
    reveal(SpecClientCore::managed_daemon);
}

} // verus!
