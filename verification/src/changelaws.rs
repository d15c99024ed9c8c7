//! What suggestions, new reviews, browsing and the user's actions do, said of
//! the parts they change.
use vstd::prelude::*;

use crate::browse::{SpecBrowseAttemptState, SpecBrowseTarget};
use crate::client::{SpecAction, SpecClientCore, SpecCoreError, SpecSuggestionEntry};
use crate::creating::{next_repo, without_row};
use crate::creation::{
    default_for, row_of, CreationReconcile, SpecCreationDefaultState, SpecCreationStatus, SpecCreationSubmission,
    SpecCreationTarget, SpecReviewCreation,
};
use crate::data;
use crate::flow::SpecErrand;
use crate::protocol::{
    ClientSeq, CommentId, CommentIntent, RepoId, RequestId, ReviewId, SpecAnchor, SpecClientMsg, SpecCommentKind,
    SpecMutation, SpecRefSpec, SpecRepo, SpecRequest, SpecReview, SpecReviewTarget, SpecReviewTargetUpdate,
    SpecSuggestionInspection, SpecSuggestionRecord, SpecSuggestionWorktree, SpecTargetRevision, SuggestionOutcome,
    SuggestionReceipt, ThreadId, SpecRpcError,
};
use crate::ref_selector::{RefSelectorPurpose, RefSelectorSide};
use crate::suggestion::{
    entry_is, receipted, record_is, SpecStage, SpecSuggestionState, SpecSuggestionStatus,
};

verus! {

// ---- suggestions ----------------------------------------------------------

/// A suggestion with a receipt is applied, whatever else is known. Without
/// one, what is on its way or went wrong with it counts, and else what the
/// daemon found: it is ready only over the text it was made for.
pub proof fn suggestions_are_ready_over_their_own_text(s: SpecSuggestionState, record: SpecSuggestionRecord)
    ensures
        s.status(record) is Applied <==> record.outcome is Applied,
        s.status(record) is Loading <==> !(record.outcome is Applied) && s.stage is Checking,
        s.status(record) is Applying <==> !(record.outcome is Applied) && s.stage is Applying,
        s.status(record) is Ready <==> !(record.outcome is Applied) && s.stage is Idle && s.inspection == Some(
            SpecSuggestionInspection::Checked { worktree: SpecSuggestionWorktree::Original },
        ),
        s.status(record) is Stale <==> !(record.outcome is Applied) && s.stage is Idle && s.inspection == Some(
            SpecSuggestionInspection::Checked { worktree: SpecSuggestionWorktree::Changed },
        ),
        s.status(record) is Unloaded <==> !(record.outcome is Applied) && s.stage is Idle && s.inspection is None,
        !(record.outcome is Applied) ==> {
            &&& s.stage matches SpecStage::Uncertain { message } ==> s.status(record) == (
            SpecSuggestionStatus::Uncertain { message })
            &&& s.stage matches SpecStage::Rejected { message } ==> s.status(record) == (
            SpecSuggestionStatus::Rejected { message })
            &&& s.stage is Idle ==> (s.inspection matches Some(SpecSuggestionInspection::Rejected { reason })
                ==> s.status(record) == (SpecSuggestionStatus::Rejected { message: reason }))
            &&& s.stage is Idle && s.inspection == Some(
                SpecSuggestionInspection::Checked { worktree: SpecSuggestionWorktree::Proposed },
            ) ==> s.status(record) is Uncertain
        },
        s.shown(record).status == s.status(record),
        s.shown(record).record == record,
        s.shown(record).inspection == s.inspection,
        s.shown(record).notice == s.notice,
{
}

/// What is known of one suggestion is set without a change to the others.
pub proof fn suggestions_are_known_apart(
    core: SpecClientCore,
    id: CommentId,
    state: SpecSuggestionState,
    other: CommentId,
)
    requires
        other != id,
    ensures
        core.with_suggestion(id, state).suggestion(id) == Some(state),
        core.with_suggestion(id, state).suggestion(other) == core.suggestion(other),
        core.with_suggestion(id, state).view == core.view,
        core.with_suggestion(id, state).flow == core.flow,
{
    let a = core.suggestions;
    let b = core.with_suggestion(id, state).suggestions;
    let p = entry_is(id);
    let q = entry_is(other);
    data::lemma_first_where(a, p);
    data::lemma_first_where(b, p);
    data::lemma_first_where(a, q);
    data::lemma_first_where(b, q);
    let at = match data::first_where(a, p) {
        Some(i) => i,
        None => a.len() as int,
    };
    assert(b[at] == (SpecSuggestionEntry { comment_id: id, state }));
    assert(p(b[at]));
    assert forall|j: int| 0 <= j < a.len() && j != at implies b[j] == a[j] by {}
    assert(data::first_where(b, p) == Some(at)) by {
        let k = data::first_where(b, p)->0;
        assert(p(b[k]));
        if k < at {
            assert(b[k] == a[k]);
            assert(!p(a[k]));
        }
        if at < k {
            assert(!p(b[at]));
        }
    }
    match data::first_where(a, q) {
        Some(k) => {
            assert(q(a[k]));
            assert(k != at) by {
                if k == at {
                    assert(p(a[at]));
                }
            }
            assert(q(b[k]));
            let m = data::first_where(b, q)->0;
            assert(q(b[m]));
            if m < k {
                if m != at {
                    assert(!q(a[m]));
                }
            }
            if k < m {
                assert(!q(b[k]));
            }
        },
        None => {
            if let Some(m) = data::first_where(b, q) {
                assert(q(b[m]));
                if m != at {
                    assert(b[m] == a[m]);
                    assert(!q(a[m]));
                }
            }
        },
    }
}

/// The record at `i` is the first of the comment.
pub open spec fn named_record(records: Seq<SpecSuggestionRecord>, id: CommentId, i: int) -> bool {
    &&& 0 <= i < records.len()
    &&& records[i].comment_id == id
    &&& forall|j: int| 0 <= j < i ==> (#[trigger] records[j]).comment_id != id
}

/// A receipt is recorded in its own record, and gives way only to a later one;
/// nothing else changes.
pub proof fn receipts_give_way_only_to_later_ones(
    records: Seq<SpecSuggestionRecord>,
    id: CommentId,
    receipt: SuggestionReceipt,
    i: int,
)
    requires
        named_record(records, id, i),
    ensures
        ({
            let out = receipted(records, id, receipt);
            &&& out.len() == records.len()
            &&& forall|j: int| 0 <= j < out.len() && j != i ==> #[trigger] out[j] == records[j]
            &&& out[i].patch == records[i].patch && out[i].anchor == records[i].anchor && out[i].comment_id == id
            &&& records[i].outcome is Unapplied ==> out[i].outcome == (SuggestionOutcome::Applied { receipt })
            &&& records[i].outcome matches SuggestionOutcome::Applied { receipt: old_receipt } ==> out[i].outcome == (
            SuggestionOutcome::Applied {
                receipt: if receipt.seq.0 > old_receipt.seq.0 {
                    receipt
                } else {
                    old_receipt
                },
            })
        }),
{
    let p = record_is(id);
    data::lemma_first_where(records, p);
    assert(p(records[i]));
    let k = data::first_where(records, p)->0;
    assert(p(records[k]));
    if k < i {
        assert(records[k].comment_id != id);
    }
    if i < k {
        assert(!p(records[i]));
    }
}

/// A suggestion is applied only once it is ready; the daemon is asked then,
/// under the next number, and the suggestion waits for that answer.
pub proof fn ready_suggestions_are_sent(
    core: SpecClientCore,
    id: CommentId,
    review_id: ReviewId,
    state: SpecSuggestionState,
)
    ensures
        ({
            let out = core.suggestion_sent(id, review_id, state);
            &&& out.flow.out == core.flow.out.push(
                SpecErrand::Send(
                    SpecClientMsg::Request {
                        id: RequestId(core.flow.wire.next_request),
                        request: SpecRequest::Mutate {
                            client_seq: ClientSeq(core.flow.wire.next_client_seq),
                            mutation: SpecMutation::ApplySuggestion { review_id, comment_id: id },
                        },
                    },
                ),
            )
            &&& out.suggestion(id) is Some
            &&& (out.suggestion(id)->0).stage == (SpecStage::Applying {
                request_id: RequestId(core.flow.wire.next_request),
            })
            &&& (out.suggestion(id)->0).inspection == state.inspection
            &&& out.pending == core.pending
        }),
{
    reveal(SpecClientCore::suggestion_sent);
    reveal(crate::flow::SpecFlow::request);
    let stage = state.with_stage(SpecStage::Applying { request_id: RequestId(core.flow.wire.next_request) });
    suggestions_are_known_apart(core, id, stage, CommentId(if id.0 == 0 { 1 } else { 0 }));
}

/// A failed look is a rejection; a failed application may have written, and is
/// uncertain. An answer that nothing waits for changes nothing.
pub proof fn failed_applications_are_uncertain(
    core: SpecClientCore,
    request_id: RequestId,
    review_id: ReviewId,
    id: CommentId,
    error: SpecRpcError,
    s: SpecSuggestionState,
)
    requires
        core.view.open_review == Some(review_id),
        core.suggestion(id) == Some(s),
        !(core.suggestion_record(id) matches Ok(r) && r.outcome is Applied),
    ensures
        ({
            let out = core.suggestion_failed(request_id, review_id, id, error);
            &&& s.stage == (SpecStage::Applying { request_id }) ==> out.suggestion(id) is Some && (
            out.suggestion(id)->0).stage is Uncertain && (out.suggestion(id)->0).inspection == s.inspection
            &&& s.stage == (SpecStage::Checking { request_id }) ==> out.suggestion(id) is Some && (
            out.suggestion(id)->0).stage is Rejected
            &&& s.stage != (SpecStage::Applying { request_id }) && s.stage != (SpecStage::Checking { request_id })
                ==> out == core
        }),
        forall|other: ReviewId|
            core.view.open_review != Some(other) ==> #[trigger] core.suggestion_failed(request_id, other, id, error)
                == core,
{
    reveal(SpecClientCore::suggestion_failed);
    let other = CommentId(if id.0 == 0 { 1 } else { 0 });
    suggestions_are_known_apart(
        core,
        id,
        SpecSuggestionState {
            notice: Some(error.message()),
            stage: SpecStage::Uncertain { message: error.message() },
            ..s
        },
        other,
    );
    suggestions_are_known_apart(
        core,
        id,
        s.with_stage(SpecStage::Rejected { message: error.message() }),
        other,
    );
}

// ---- new reviews ----------------------------------------------------------

/// Some row is of the repository.
pub open spec fn has_row(rows: Seq<SpecCreationTarget>, repo_id: RepoId) -> bool {
    exists|i: int| 0 <= i < rows.len() && (#[trigger] rows[i]).repo_id == repo_id
}

proof fn lemma_has_row(rows: Seq<SpecCreationTarget>, repo_id: RepoId)
    ensures
        data::some_where(rows, row_of(repo_id)) <==> has_row(rows, repo_id),
{
    let p = row_of(repo_id);
    if data::some_where(rows, p) {
        let i = choose|i: int| 0 <= i < rows.len() && #[trigger] p(rows[i]);
        assert(rows[i].repo_id == repo_id);
    }
    if has_row(rows, repo_id) {
        let i = choose|i: int| 0 <= i < rows.len() && (#[trigger] rows[i]).repo_id == repo_id;
        assert(p(rows[i]));
    }
}

/// A further row is for the first repository that has none, and for the first
/// of all when each has one.
pub proof fn further_rows_are_for_the_next_repository(
    repos: Seq<SpecRepo>,
    rows: Seq<SpecCreationTarget>,
    i: int,
)
    ensures
        0 <= i < repos.len() && !has_row(rows, repos[i].id) && (forall|j: int|
            0 <= j < i ==> has_row(
                rows,
                (#[trigger] repos[j]).id,
            )) ==> next_repo(repos, rows) == Some(repos[i].id),
        repos.len() > 0 && (forall|j: int| 0 <= j < repos.len() ==> has_row(rows, (#[trigger] repos[j]).id))
            ==> next_repo(repos, rows) == Some(repos[0].id),
        repos.len() == 0 ==> next_repo(repos, rows) is None,
{
    let p = without_row(rows);
    data::lemma_first_where(repos, p);
    assert forall|j: int| 0 <= j < repos.len() implies (p(#[trigger] repos[j]) <==> !has_row(rows, repos[j].id)) by {
        lemma_has_row(rows, repos[j].id);
    }
}

/// A form is sent as its submission says, to its workspace, under the next
/// number, and waits; only a form of this daemon is sent.
pub proof fn forms_are_sent_as_submitted(
    core: SpecClientCore,
    review_id: ReviewId,
    submission: SpecCreationSubmission,
)
    ensures
        core.own_form(review_id) is None ==> core.send_creation(review_id, submission) == core,
        core.own_form(review_id) matches Some(c) ==> {
            let out = core.send_creation(review_id, submission);
            &&& out.flow.out == core.flow.out.push(
                SpecErrand::Send(
                    SpecClientMsg::Request {
                        id: RequestId(core.flow.wire.next_request),
                        request: SpecRequest::Mutate {
                            client_seq: ClientSeq(core.flow.wire.next_client_seq),
                            mutation: SpecMutation::CreateReview {
                                review_id,
                                workspace_id: c.workspace_id,
                                title: submission.title,
                                targets: submission.targets,
                            },
                        },
                    },
                ),
            )
            &&& out.view.home.creating is Some
            &&& (out.view.home.creating->0).status == (SpecCreationStatus::Pending { submission })
            &&& (out.view.home.creating->0).draft == c.draft
            &&& (out.view.home.creating->0).review_id == c.review_id
        },
{
    reveal(SpecClientCore::send_creation);
    reveal(crate::flow::SpecFlow::request);
}

/// Submitting sends what the form says, or says what is missing; what was
/// typed stays either way.
pub proof fn submitting_sends_or_says_what_is_missing(
    core: SpecClientCore,
    review_id: ReviewId,
    c: SpecReviewCreation,
)
    requires
        core.view.home.creating == Some(c),
        c.review_id == review_id,
        c.status is Editing || c.status is Failed,
    ensures
        match core.submission(c) {
            Ok(s) => core.submit_creation(review_id) == core.send_creation(review_id, s),
            Err(message) => {
                let out = core.submit_creation(review_id);
                &&& out.view.home.creating is Some
                &&& (out.view.home.creating->0).status == (SpecCreationStatus::Failed { message })
                &&& (out.view.home.creating->0).draft == c.draft
                &&& out.flow.out == core.flow.out
            },
        },
        core.submission(c) is Ok ==> core.connection is Subscribed && c.context == core.view.daemon_context
            && core.submission(c) == c.submission(),
{
    reveal(SpecClientCore::submit_creation);
}

/// A default base that was waited for is kept for its repository; no other
/// default changes, and an answer that comes late changes nothing.
pub proof fn defaults_are_kept_for_their_repository(
    core: SpecClientCore,
    review_id: ReviewId,
    repo_id: RepoId,
    state: SpecCreationDefaultState,
    c: SpecReviewCreation,
    i: int,
)
    requires
        core.own_form(review_id) == Some(c),
        0 <= i < c.defaults.len(),
        c.defaults[i].repo_id == repo_id,
        forall|j: int| 0 <= j < i ==> (#[trigger] c.defaults[j]).repo_id != repo_id,
    ensures
        ({
            let out = core.creation_default_answer(review_id, repo_id, state);
            &&& !(c.defaults[i].state is Loading) ==> out == core
            &&& c.defaults[i].state is Loading ==> {
                &&& out.view.home.creating is Some
                &&& (out.view.home.creating->0).defaults.len() == c.defaults.len()
                &&& (out.view.home.creating->0).defaults[i].repo_id == repo_id
                &&& (out.view.home.creating->0).defaults[i].state == state
                &&& forall|j: int|
                    0 <= j < c.defaults.len() && j != i ==> #[trigger] (out.view.home.creating->0).defaults[j]
                        == c.defaults[j]
                &&& (out.view.home.creating->0).draft == c.draft
                &&& (out.view.home.creating->0).status == c.status
            }
        }),
{
    reveal(SpecClientCore::creation_default_answer);
    let p = default_for(repo_id);
    data::lemma_first_where(c.defaults, p);
    assert(p(c.defaults[i]));
    let k = data::first_where(c.defaults, p)->0;
    assert(p(c.defaults[k]));
    if i < k {
        assert(!p(c.defaults[i]));
    }
}

/// A lookup that finds no review sends the same submission again only if a
/// retry was asked for; anything else leaves it uncertain.
pub proof fn only_a_retry_sends_again(
    core: SpecClientCore,
    review_id: ReviewId,
    error: SpecRpcError,
    c: SpecReviewCreation,
    submission: SpecCreationSubmission,
    next: CreationReconcile,
)
    requires
        core.view.home.creating == Some(c),
        c.review_id == review_id,
        c.status == (SpecCreationStatus::Reconciling { submission, next }),
    ensures
        ({
            let out = core.creation_lookup_failed(review_id, error);
            &&& error.no_review() && next is Retry ==> out == core.send_creation(review_id, submission)
            &&& !(error.no_review() && next is Retry) ==> {
                &&& out.view.home.creating is Some
                &&& ((out.view.home.creating->0).status matches SpecCreationStatus::Interrupted { submission: s, .. }
                    && s == submission)
                &&& (out.view.home.creating->0).draft == c.draft
                &&& out.flow.out == core.flow.out
            }
        }),
{
    reveal(SpecClientCore::creation_lookup_failed);
}

/// A review that exists settles only the form of its own identity, in its
/// workspace, and only once that was submitted.
pub proof fn found_reviews_settle_their_own_form(core: SpecClientCore, review: SpecReview)
    ensures
        ({
            let settles = core.view.home.creating is Some && (core.view.home.creating->0).review_id == review.id && (
            core.view.home.creating->0).context == core.view.daemon_context && (
            core.view.home.creating->0).workspace_id == review.workspace_id && (
            core.view.home.creating->0).submitted() is Some;
            let out = core.creation_found(review);
            &&& !settles ==> out == core
            &&& settles ==> out.view.home.creating == Some(
                (core.view.home.creating->0).matched(review.title, review.targets),
            )
            &&& out.view.reviews == core.view.reviews
            &&& out.pending == core.pending
        }),
{
    reveal(SpecClientCore::creation_found);
}

// ---- browsing -------------------------------------------------------------

/// A selector starts from the revision of the side it edits; while browsing,
/// from what is browsed of the repository, else from its head.
pub proof fn selectors_start_from_the_current_revision(core: SpecClientCore, target: SpecReviewTarget)
    ensures
        core.current_ref(target, RefSelectorPurpose::Review { side: RefSelectorSide::Base }) == target.base,
        core.current_ref(target, RefSelectorPurpose::Review { side: RefSelectorSide::Head }) == target.head,
        core.browse is Some && (core.browse->0).target.repo_id == target.repo_id ==> core.current_ref(
            target,
            RefSelectorPurpose::Browse,
        ) == (core.browse->0).target.ref_spec,
        !(core.browse is Some && (core.browse->0).target.repo_id == target.repo_id) ==> core.current_ref(
            target,
            RefSelectorPurpose::Browse,
        ) == target.head,
{
}

/// What is browsed is asked for; until it is here, what is visible stays.
pub proof fn browsed_revisions_are_asked_for(core: SpecClientCore, repo_id: RepoId, ref_spec: SpecRefSpec)
    ensures
        ({
            let out = core.browse_asked(repo_id, ref_spec);
            &&& out.browse == core.browse
            &&& out.view == core.view
            &&& out.browse_repo == Some(repo_id)
            &&& out.browse_attempt is Some
            &&& (out.browse_attempt->0).target == (SpecBrowseTarget { repo_id, ref_spec })
            &&& (out.browse_attempt->0).state == (SpecBrowseAttemptState::Loading {
                request_id: RequestId(core.flow.wire.next_request),
            })
            &&& out.flow.out == core.flow.out.push(
                SpecErrand::Send(
                    SpecClientMsg::Request {
                        id: RequestId(core.flow.wire.next_request),
                        request: SpecRequest::TreeSnapshot { repo_id, ref_spec },
                    },
                ),
            )
        }),
{
    reveal(SpecClientCore::browse_asked);
    reveal(crate::flow::SpecFlow::request);
}

/// A revision chosen on a side becomes the target's revision on that side.
pub proof fn chosen_revisions_become_the_target(
    core: SpecClientCore,
    repo_id: RepoId,
    revision: SpecTargetRevision,
)
    requires
        core.view.review is Some,
    ensures
        core.retarget(repo_id, revision) == core.mutated(
            SpecMutation::UpdateReviewTarget {
                review_id: (core.view.review->0).snapshot.review.id,
                update: SpecReviewTargetUpdate { repo_id, revision },
            },
        ),
{
    reveal(SpecClientCore::retarget);
}

// ---- actions --------------------------------------------------------------

/// What the user does to comments and threads is the mutation that says so, of
/// the open review.
pub proof fn actions_are_the_mutations_that_say_so(
    core: SpecClientCore,
    id: CommentId,
    thread_id: ThreadId,
    body: Seq<char>,
)
    requires
        core.view.review is Some,
    ensures
        ({
            let review_id = (core.view.review->0).snapshot.review.id;
            &&& core.acted(SpecAction::EditComment { comment_id: id, body }) == core.mutated(
                SpecMutation::EditComment { review_id, comment_id: id, body },
            )
            &&& core.acted(SpecAction::DeleteComment { comment_id: id }) == core.mutated(
                SpecMutation::DeleteComment { review_id, comment_id: id },
            )
            &&& core.acted(SpecAction::ResolveThread { thread_id }) == core.mutated(
                SpecMutation::ResolveThread { review_id, thread_id },
            )
            &&& core.acted(SpecAction::UnresolveThread { thread_id }) == core.mutated(
                SpecMutation::UnresolveThread { review_id, thread_id },
            )
            &&& core.acted(SpecAction::Reply { thread_id, comment_id: id, body }) == core.mutated(
                SpecMutation::Reply {
                    review_id,
                    thread_id,
                    comment_id: id,
                    kind: SpecCommentKind::Note,
                    body,
                },
            )
        }),
{
    reveal(SpecClientCore::acted);
    reveal(SpecClientCore::acted_on_prefs);
    reveal(SpecClientCore::acted_on_comments);
    reveal(SpecClientCore::on_review);
}

/// Marking marks, unmarking unmarks, and a layout or the sidebar changes only
/// that preference, which is stored.
pub proof fn actions_change_what_they_name(core: SpecClientCore, file: crate::diff::SpecFileRef)
    ensures
        core.acted(SpecAction::MarkViewed { file }) == core.mark_viewed(file, true),
        core.acted(SpecAction::UnmarkViewed { file }) == core.mark_viewed(file, false),
        forall|layout: crate::view::Layout| #[trigger]
            core.acted(SpecAction::SetLayout { layout }) == Ok::<SpecClientCore, SpecCoreError>(
                core.apply_prefs(crate::view::ViewPrefs { layout, ..core.view.prefs }, true),
            ),
        core.acted(SpecAction::ToggleSidebar) == Ok::<SpecClientCore, SpecCoreError>(
            core.apply_prefs(
                crate::view::ViewPrefs { sidebar_hidden: !core.view.prefs.sidebar_hidden, ..core.view.prefs },
                true,
            ),
        ),
        core.acted(SpecAction::InformationalNoteOpened) == core.open_draft(
            SpecAnchor::Review,
            CommentIntent::Informational,
        ),
        forall|anchor: SpecAnchor| #[trigger]
            core.acted(SpecAction::DraftOpened { anchor }) == core.open_draft(anchor, CommentIntent::Finding),
        core.acted(SpecAction::ExpandContext { file, full: true }) == core.re_render(
            file,
            crate::reading::Widening::Full,
        ),
        core.acted(SpecAction::ExpandContext { file, full: false }) == core.re_render(
            file,
            crate::reading::Widening::Step,
        ),
{
    reveal(SpecClientCore::acted);
    reveal(SpecClientCore::acted_on_prefs);
    reveal(SpecClientCore::acted_on_comments);
    reveal(SpecClientCore::acted_on_files);
}

} // verus!
