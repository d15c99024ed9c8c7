//! What answers, streams, suggestions and the focus do to the core, said of
//! the requests, the errands and what is shown.
use vstd::prelude::*;

use crate::cache::{one_per_key, Bytes, SpecCacheKey, SpecCacheValue, SpecEvicted, SpecRenderKey};
use crate::changelaws;
use crate::client::{SpecClientCore, SpecCoreError};
use crate::content::{SpecFetchState, SpecOutstanding};
use crate::data;
use crate::diff::SpecThreadView;
use crate::eventlaws::{about_review, events_name_their_review};
use crate::fetching::{render_of_change, Arrival};
use crate::fetchlaws;
use crate::flow::{snapshot_otherwise, waits_otherwise, SpecErrand, SpecFlow, SpecInFlight};
use crate::focus::Focus;
use crate::livelaws::differs_in_flow;
use crate::protocol::{
    ChunkIndex, CommentId, RepoId, RequestId, ResolvedTarget, ReviewId, SpecClientMsg, SpecEvent, SpecEventBody,
    SpecFileChange,
    SpecFileRenderHeader, SpecRefCandidate, SpecRenderChunk, SpecRenderTarget, SpecRepoPath, SpecRequest,
    SpecResponse, SpecReviewReference, SpecReviewSnapshot, SpecRpcError, SpecStreamItem, SpecSuggestionPreview,
    WorkspaceId,
};
use crate::ref_selector::SpecRefSelectorStatus;
use crate::serving::renders;
use crate::servinglaws;
use crate::storelaws;
use crate::suggestion::{comment_view_is, SpecStage, SpecSuggestionState};
use crate::view::{SpecOpenReview, SpecViewModel};

verus! {

// ---- answers --------------------------------------------------------------

/// The answer is of the kind that the request asks for.
pub open spec fn answers(waiting: SpecInFlight, response: SpecResponse) -> bool {
    match waiting {
        SpecInFlight::Subscribe => response is Subscribed,
        SpecInFlight::ListWorkspaces => response is Workspaces,
        SpecInFlight::ListReviews { .. } => response is Reviews,
        SpecInFlight::OpenReview { .. } => false,
        SpecInFlight::ReviewSnapshot { .. } => response is ReviewSnapshot,
        SpecInFlight::ListFiles { .. } => response is Files,
        SpecInFlight::ListCommits { .. } => response is Commits,
        SpecInFlight::ListRefs { .. } => response is Refs,
        SpecInFlight::Search => response is Search,
        SpecInFlight::TreeSnapshot { .. } => response is TreeSnapshot,
        SpecInFlight::BrowseTree { .. } => response is TreeSnapshot,
        SpecInFlight::FileRender { .. } => false,
        SpecInFlight::RenderChunk { .. } => response is RenderChunk,
        SpecInFlight::Mutate { .. } => response is Committed,
        SpecInFlight::CreationDefault { .. } => response is DefaultBase,
        SpecInFlight::CreateReview { .. } => response is Committed,
        SpecInFlight::CheckFailedCreation { .. } => response is Review,
        SpecInFlight::ReconcileCreation { .. } => response is Review,
        SpecInFlight::PreviewSuggestion { .. } => response is SuggestionPreview,
        SpecInFlight::ApplySuggestion { .. } => response is Committed,
    }
}

/// An answer is taken only to a request that waits for one of its kind, and
/// such lists are taken as they are; then the request waits no more.
pub proof fn answers_are_of_the_kind_asked_for(
    core: SpecClientCore,
    id: RequestId,
    response: SpecResponse,
    size: Bytes,
)
    ensures
        core.flow.wire.waiting(id) is None ==> core.responded(id, response, size) == Err::<SpecClientCore, SpecCoreError>(
            SpecCoreError::UnknownRequest(id),
        ),
        core.flow.wire.waiting(id) matches Some(waiting) ==> {
            let out = core.responded(id, response, size);
            &&& !answers(waiting, response) ==> (out matches Err(e) && e is UnexpectedResponse)
            &&& answers(waiting, response) && (waiting is ListWorkspaces || waiting is ListReviews || waiting is ListFiles
                || waiting is ListCommits || waiting is Search || waiting is CreationDefault
                || waiting is CheckFailedCreation || waiting is ReconcileCreation) ==> out is Ok
        },
        core.responded(id, response, size) matches Ok(out) ==> forall|i: int|
            0 <= i < out.flow.wire.in_flight.len() ==> (#[trigger] out.flow.wire.in_flight[i]).id != id,
        core.responded(id, response, size) matches Ok(out) ==> forall|i: int|
            0 <= i < out.flow.wire.snapshot_requests.len() ==> (#[trigger] out.flow.wire.snapshot_requests[i]).id != id,
{
    reveal(SpecClientCore::responded);
    reveal(SpecClientCore::response_to);
    reveal(SpecClientCore::content_response_to);
    reveal(SpecClientCore::request_done);
    if let Some(waiting) = core.flow.wire.waiting(id) {
        if let Ok(c) = core.response_to(id, waiting, response, size) {
            let out = c.request_done(id);
            let all = out.flow.wire.in_flight;
            assert forall|i: int| 0 <= i < all.len() implies (#[trigger] all[i]).id != id by {
                data::lemma_filter_has(c.flow.wire.in_flight, waits_otherwise(id), all[i]);
                assert(all.contains(all[i]));
                assert(waits_otherwise(id)(all[i]));
            }
            let asked = out.flow.wire.snapshot_requests;
            assert forall|i: int| 0 <= i < asked.len() implies (#[trigger] asked[i]).id != id by {
                data::lemma_filter_has(c.flow.wire.snapshot_requests, snapshot_otherwise(id), asked[i]);
                assert(asked.contains(asked[i]));
                assert(snapshot_otherwise(id)(asked[i]));
            }
        }
    }
}

/// The lists that were asked for are shown once they come.
pub proof fn lists_are_shown_as_they_come(
    core: SpecClientCore,
    id: RequestId,
    response: SpecResponse,
    size: Bytes,
    r: crate::protocol::SpecReview,
)
    ensures
        core.flow.wire.waiting(id) is Some && core.flow.wire.waiting(id)->0 is ListWorkspaces ==> (
        response matches SpecResponse::Workspaces { workspaces } ==> (core.responded(id, response, size) matches Ok(
            out,
        ) && out.view.workspaces == workspaces)),
        core.flow.wire.waiting(id) matches Some(SpecInFlight::ListReviews { workspace_id }) ==> (
        response matches SpecResponse::Reviews { reviews } ==> (core.responded(id, response, size) matches Ok(out)
            && (out.view.reviews.contains(r) <==> reviews.contains(r) || (core.view.reviews.contains(r)
            && r.workspace_id != workspace_id)))),
{
    reveal(SpecClientCore::responded);
    reveal(SpecClientCore::response_to);
    reveal(SpecClientCore::request_done);
    if let SpecResponse::Workspaces { workspaces } = response {
        servinglaws::listed_workspaces_are_shown(core, workspaces);
    }
    if let (Some(SpecInFlight::ListReviews { workspace_id }), SpecResponse::Reviews { reviews }) = (
        core.flow.wire.waiting(id),
        response,
    ) {
        servinglaws::listed_reviews_replace_their_workspace(core, workspace_id, reviews, r);
    }
}

/// References of another repository than the one asked about are refused;
/// those of a repository whose selector is not open change nothing.
pub proof fn references_are_of_the_repository_asked_about(
    core: SpecClientCore,
    id: RequestId,
    repo_id: RepoId,
    of: RepoId,
    refs: Seq<SpecRefCandidate>,
)
    ensures
        core.answer_refs(id, repo_id, of, refs) is Ok <==> repo_id == of,
        repo_id == of && !(core.ref_selector is Some && (core.ref_selector->0).view.repo_id == repo_id) ==> core.answer_refs(
            id,
            repo_id,
            of,
            refs,
        ) == Ok::<SpecClientCore, SpecCoreError>(core),
{
    reveal(SpecClientCore::answer_refs);
}

/// The lists are asked for only once subscribed.
pub proof fn lists_are_asked_for_once_subscribed(
    core: SpecClientCore,
    workspace_id: WorkspaceId,
    repo_id: RepoId,
)
    ensures
        core.list_workspaces() is Ok <==> core.connection is Subscribed,
        core.list_reviews(workspace_id) is Ok <==> core.connection is Subscribed,
        core.list_commits(repo_id) is Ok <==> core.connection is Subscribed && core.open_id() is Some,
        core.list_workspaces() matches Ok(out) ==> out.flow.out == core.flow.out.push(
            SpecErrand::Send(
                SpecClientMsg::Request {
                    id: RequestId(core.flow.wire.next_request),
                    request: SpecRequest::ListWorkspaces,
                },
            ),
        ),
        core.list_reviews(workspace_id) matches Ok(out) ==> out.flow.out == core.flow.out.push(
            SpecErrand::Send(
                SpecClientMsg::Request {
                    id: RequestId(core.flow.wire.next_request),
                    request: SpecRequest::ListReviews { workspace_id },
                },
            ),
        ),
        core.list_commits(repo_id) matches Ok(out) ==> out.flow.out == core.flow.out.push(
            SpecErrand::Send(
                SpecClientMsg::Request {
                    id: RequestId(core.flow.wire.next_request),
                    request: SpecRequest::ListCommits { review_id: core.open_id()->0, repo_id },
                },
            ),
        ),
{
    reveal(SpecClientCore::list_workspaces);
    reveal(SpecClientCore::list_reviews);
    reveal(SpecClientCore::list_commits);
    reveal(SpecFlow::request);
}

/// A review is opened as one stream, or, where there is a disk to look on,
/// by its snapshot first.
pub proof fn reviews_are_opened_whole_or_in_parts(core: SpecClientCore, review_id: ReviewId)
    ensures
        core.open_review(review_id) is Ok <==> core.connection is Subscribed,
        core.open_review(review_id) matches Ok(out) ==> {
            &&& out.view == core.view
            &&& out.flow.out == core.flow.out.push(
                SpecErrand::Send(
                    SpecClientMsg::Request {
                        id: RequestId(core.flow.wire.next_request),
                        request: if core.flow.content.config.disk is Disabled {
                            SpecRequest::OpenReview { review_id, opts: core.flow.content.config.render_opts }
                        } else {
                            SpecRequest::ReviewSnapshot { review_id }
                        },
                    },
                ),
            )
        },
{
    reveal(SpecClientCore::open_review);
    reveal(SpecFlow::request);
}

/// While a reference waits for its review, the events of that review wait
/// with it, in order; those of others do not.
pub proof fn events_wait_with_the_reference_to_their_review(core: SpecClientCore, event: SpecEvent)
    ensures
        core.pending_reference is None ==> core.observed(event).pending_reference is None,
        core.pending_reference matches Some(p) ==> {
            let out = core.observed(event).pending_reference;
            &&& out is Some
            &&& (out->0).reference == p.reference
            &&& about_review(event.body, p.reference.review_id) ==> (out->0).events == p.events.push(event)
            &&& !about_review(event.body, p.reference.review_id) ==> (out->0).events == p.events
        },
        core.observed(event).view == core.view,
        core.observed(event).committed == core.committed,
        core.observed(event).pending == core.pending,
{
    reveal(SpecClientCore::observed);
    if let Some(p) = core.pending_reference {
        events_name_their_review(event.body, p.reference.review_id);
    }
}

/// Going through a review by commit starts at once where the commits are
/// listed; otherwise they are asked for, and it starts when they come.
pub proof fn commits_are_listed_before_they_are_stepped(
    core: SpecClientCore,
    review_id: ReviewId,
    repo_id: RepoId,
)
    ensures
        ({
            let out = core.by_commit(review_id, repo_id);
            let listed = core.stepper is Some && (core.stepper->0).repo_id == repo_id;
            &&& listed && core.first_step(repo_id) is Some ==> out == Ok::<SpecClientCore, SpecCoreError>(
                core.apply_scope(core.first_step(repo_id)->0),
            )
            &&& listed && core.first_step(repo_id) is None ==> out is Err
            &&& !listed ==> (out matches Ok(c) && {
                &&& c.by_commit_pending
                &&& c.view == core.view
                &&& c.flow.out == core.flow.out.push(
                    SpecErrand::Send(
                        SpecClientMsg::Request {
                            id: RequestId(core.flow.wire.next_request),
                            request: SpecRequest::ListCommits { review_id, repo_id },
                        },
                    ),
                )
            })
        }),
{
    reveal(SpecClientCore::by_commit);
    reveal(SpecFlow::request);
}

/// A failed request for references is an error of the daemon in the open
/// selector; a failed opening drops the reference that waited for it, and no
/// other.
pub proof fn failures_are_shown_where_they_were_asked(
    core: SpecClientCore,
    id: RequestId,
    waiting: SpecInFlight,
    error: SpecRpcError,
    review_id: ReviewId,
)
    ensures
        waiting is ListRefs && core.ref_selector is Some ==> {
            let out = core.failure_of(id, waiting, error);
            &&& out.ref_selector is Some
            &&& (out.ref_selector->0).view.status == (SpecRefSelectorStatus::DaemonError { message: error.message() })
            &&& (out.ref_selector->0).view.query == (core.ref_selector->0).view.query
        },
        waiting == (SpecInFlight::OpenReview { review_id }) || waiting == (SpecInFlight::ReviewSnapshot { review_id })
            ==> {
            let out = core.failure_of(id, waiting, error);
            &&& core.pending_reference is Some && (core.pending_reference->0).reference.review_id == review_id
                ==> out.pending_reference is None
            &&& !(core.pending_reference is Some && (core.pending_reference->0).reference.review_id == review_id)
                ==> out == core
        },
        core.flow.wire.waiting(id) is None <==> core.request_failed(id, error) is Err,
{
    reveal(SpecClientCore::failure_of);
    reveal(SpecClientCore::with_selector_status);
    reveal(SpecClientCore::reference_dropped);
    reveal(SpecClientCore::request_failed);
}

// ---- streams --------------------------------------------------------------

/// The review lists a file of the repository at the path.
pub open spec fn lists_file(review: Option<SpecOpenReview>, repo_id: RepoId, path: SpecRepoPath) -> bool {
    review matches Some(open) && exists|i: int|
        0 <= i < open.files.len() && (#[trigger] open.files[i]).repo_id == repo_id && open.files[i].path == path
}

/// A stream brings only what was asked for: of a review its snapshot, trees,
/// headers, and chunks of files that it lists; of a file its own header and
/// chunks; of anything else nothing.
pub proof fn streams_bring_what_was_asked_for(
    core: SpecClientCore,
    id: RequestId,
    item: SpecStreamItem,
    size: Bytes,
)
    ensures
        core.streamed(id, item, size) is Ok <==> match core.flow.wire.waiting(id) {
            Some(SpecInFlight::OpenReview { review_id }) => match item {
                SpecStreamItem::ReviewSnapshot { snapshot } => snapshot.review.id == review_id,
                SpecStreamItem::TreeSnapshot { .. } => true,
                SpecStreamItem::Header { .. } => true,
                SpecStreamItem::Chunk { repo_id, path, .. } => lists_file(core.view.review, repo_id, path),
            },
            Some(SpecInFlight::FileRender { render, .. }) => match item {
                SpecStreamItem::Header { header } => header.repo_id == render.repo_id && header.path == render.path
                    && header.target == render.target && header.opts == render.opts,
                SpecStreamItem::Chunk { repo_id, path, .. } => repo_id == render.repo_id && path == render.path,
                _ => false,
            },
            _ => false,
        },
{
    reveal(SpecClientCore::streamed);
    reveal(SpecClientCore::opening_chunk);
    if let Some(SpecInFlight::OpenReview { review_id }) = core.flow.wire.waiting(id) {
        match item {
            SpecStreamItem::ReviewSnapshot { snapshot } => {
                servinglaws::snapshots_must_be_of_the_review_asked_for(core, id, review_id, snapshot);
            },
            SpecStreamItem::Chunk { repo_id, path, .. } => {
                if let Some(open) = core.view.review {
                    let p = renders(repo_id, path);
                    data::lemma_first_where(open.files, p);
                    assert forall|i: int| 0 <= i < open.files.len() implies #[trigger] p(open.files[i]) == (
                    open.files[i].repo_id == repo_id && open.files[i].path == path) by {}
                    if let Some(i) = data::first_where(open.files, p) {
                        assert(p(open.files[i]));
                    }
                    if lists_file(core.view.review, repo_id, path) {
                        let i = choose|i: int|
                            0 <= i < open.files.len() && (#[trigger] open.files[i]).repo_id == repo_id
                                && open.files[i].path == path;
                        assert(p(open.files[i]));
                    }
                }
            },
            _ => {},
        }
    }
}

/// A header that comes while a review is open is kept under the file it is
/// of, and the file is listed unless it is shown otherwise.
pub proof fn streamed_headers_list_their_file(core: SpecClientCore, header: SpecFileRenderHeader, size: Bytes)
    requires
        core.view.review is Some,
        one_per_key(core.flow.content.cache.entries),
    ensures
        ({
            let out = core.stream_header(header, size);
            let render = SpecRenderKey {
                repo_id: header.repo_id,
                path: header.path,
                target: header.target,
                opts: header.opts,
            };
            let open = core.view.review->0;
            let shown = open.original == Some(render) || (open.open_file is Some && (open.open_file->0).render
                == render);
            &&& out.flow.content.cache.entries.contains(
                SpecEvicted {
                    key: SpecCacheKey::Header { render },
                    value: SpecCacheValue::Header { header },
                    size,
                },
            )
            &&& out.view.review is Some
            &&& !shown ==> (out.view.review->0).files.contains(render)
            &&& open.files.contains(render) || shown ==> (out.view.review->0).files == open.files
            &&& !open.files.contains(render) && !shown ==> (out.view.review->0).files == open.files.push(render)
        }),
{
    let key = SpecCacheKey::Header { render: header.render_key() };
    let value = SpecCacheValue::Header { header };
    let new = SpecEvicted { key, value, size };
    storelaws::what_arrives_is_kept(
        core,
        key,
        value,
        size,
        Arrival::Stream,
        new,
        SpecOutstanding { key, state: SpecFetchState::Queued },
    );
    reveal(SpecClientCore::arrived);
    reveal(SpecClientCore::listed);
    let open = core.view.review->0;
    vstd::seq_lib::lemma_seq_contains_after_push(open.files, header.render_key(), header.render_key());
}

/// A stream of chunks is stopped with the chunk it was asked to stop after,
/// and with none before it.
pub proof fn streams_stop_after_their_last_chunk(
    core: SpecClientCore,
    id: RequestId,
    render: SpecRenderKey,
    stop: ChunkIndex,
    later: ChunkIndex,
    chunk: SpecRenderChunk,
    size: Bytes,
)
    requires
        stop.0 <= chunk.index.0,
        chunk.index.0 < later.0,
    ensures
        core.stream_chunk(id, render, stop, chunk, size).flow.out == core.stream_chunk(
            id,
            render,
            later,
            chunk,
            size,
        ).flow.out.push(SpecErrand::Send(SpecClientMsg::Cancel { id })),
        core.stream_chunk(id, render, stop, chunk, size).view == core.stream_chunk(
            id,
            render,
            later,
            chunk,
            size,
        ).view,
{
    reveal(SpecClientCore::stream_chunk);
}

/// A streamed chunk of the open file is kept under that file and its own
/// index.
pub proof fn streamed_chunks_are_kept_in_place(
    core: SpecClientCore,
    id: RequestId,
    render: SpecRenderKey,
    stop: ChunkIndex,
    chunk: SpecRenderChunk,
    size: Bytes,
)
    requires
        core.view.review is Some,
        (core.view.review->0).open_file is Some,
        ((core.view.review->0).open_file->0).render == render,
        one_per_key(core.flow.content.cache.entries),
    ensures
        core.stream_chunk(id, render, stop, chunk, size).flow.content.cache.entries.contains(
            SpecEvicted {
                key: SpecCacheKey::Chunk { render, index: chunk.index },
                value: SpecCacheValue::Chunk { chunk },
                size,
            },
        ),
{
    let key = SpecCacheKey::Chunk { render, index: chunk.index };
    let value = SpecCacheValue::Chunk { chunk };
    let new = SpecEvicted { key, value, size };
    storelaws::what_arrives_is_kept(
        core,
        key,
        value,
        size,
        Arrival::Stream,
        new,
        SpecOutstanding { key, state: SpecFetchState::Queued },
    );
    reveal(SpecClientCore::stream_chunk);
    reveal(SpecClientCore::arrived);
}

// ---- suggestions ----------------------------------------------------------

/// A check that is answered leaves its suggestion idle, with what the check
/// found; an answer to an earlier check changes nothing.
pub proof fn only_the_latest_check_counts(
    core: SpecClientCore,
    request_id: RequestId,
    review_id: ReviewId,
    id: CommentId,
    preview: SpecSuggestionPreview,
)
    requires
        core.view.open_review == Some(review_id),
        core.suggestion_record(id) is Ok,
    ensures
        ({
            let out = core.suggestion_previewed(request_id, review_id, id, preview);
            let record = core.suggestion_record(id)->Ok_0;
            let p = preview.suggestion;
            let its_own = p.review_id == review_id && p.comment_id == id && p.anchor == record.anchor && p.patch
                == record.patch;
            let awaited = core.suggestion(id) is Some && (core.suggestion(id)->0).stage == (SpecStage::Checking {
                request_id,
            });
            &&& out is Ok <==> its_own
            &&& its_own && !awaited ==> out == Ok::<SpecClientCore, SpecCoreError>(core)
            &&& its_own && awaited ==> {
                &&& (out->Ok_0).suggestion(id) is Some
                &&& ((out->Ok_0).suggestion(id)->0).inspection == Some(preview.inspection)
                &&& ((out->Ok_0).suggestion(id)->0).stage is Idle
                &&& (out->Ok_0).pending == core.pending
            }
        }),
        core.suggestion_settled(request_id, review_id, id).suggestion(id) == (match core.suggestion(id) {
            Some(s) => if s.stage == (SpecStage::Applying { request_id }) {
                Some(SpecSuggestionState { stage: SpecStage::Idle, ..s })
            } else {
                Some(s)
            },
            None => None,
        }),
{
    reveal(SpecClientCore::suggestion_previewed);
    reveal(SpecClientCore::suggestion_settled);
    reveal(SpecClientCore::receipt_seen);
    reveal(SpecClientCore::rebased);
    let other = CommentId(if id.0 == 0 {
        1u128
    } else {
        0u128
    });
    if let Some(s) = core.suggestion(id) {
        changelaws::suggestions_are_known_apart(
            core,
            id,
            SpecSuggestionState { inspection: Some(preview.inspection), stage: SpecStage::Idle, ..s },
            other,
        );
        changelaws::suggestions_are_known_apart(core, id, s.with_stage(SpecStage::Idle), other);
    }
}

/// A suggestion is checked by asking the daemon about it, once at a time.
pub proof fn suggestions_are_checked_once_at_a_time(core: SpecClientCore, id: CommentId)
    ensures
        core.preview_suggestion(id) is Ok <==> core.connection is Subscribed && core.suggestion_record(id) is Ok,
        core.preview_suggestion(id) matches Ok(out) ==> {
            let busy = core.suggestion(id) is Some && ((core.suggestion(id)->0).stage is Checking || (core.suggestion(
                id,
            )->0).stage is Applying);
            let request_id = RequestId(core.flow.wire.next_request);
            &&& busy ==> out.flow == core.flow && out.suggestion(id) == core.suggestion(id)
            &&& !busy ==> {
                &&& out.flow.out == core.flow.out.push(
                    SpecErrand::Send(
                        SpecClientMsg::Request {
                            id: request_id,
                            request: SpecRequest::PreviewSuggestion {
                                review_id: (core.suggestion_record(id)->Ok_0).review_id,
                                comment_id: id,
                            },
                        },
                    ),
                )
                &&& out.suggestion(id) is Some
                &&& (out.suggestion(id)->0).stage == (SpecStage::Checking { request_id })
            }
        },
{
    reveal(SpecClientCore::preview_suggestion);
    reveal(SpecClientCore::suggestion_focused);
    reveal(SpecFlow::request);
    let c = core.suggestion_focused(id);
    assert(c.suggestions == core.suggestions);
    assert(c.flow == core.flow);
    let other = CommentId(if id.0 == 0 {
        1u128
    } else {
        0u128
    });
    changelaws::suggestions_are_known_apart(
        c,
        id,
        c.suggestion_or_fresh(id).with_stage(
            SpecStage::Checking { request_id: RequestId(c.flow.wire.next_request) },
        ),
        other,
    );
}

/// An application is taken only where its own event was committed.
pub proof fn applications_are_committed_as_themselves(
    core: SpecClientCore,
    request_id: RequestId,
    review_id: ReviewId,
    id: CommentId,
    event: SpecEvent,
)
    ensures
        core.suggestion_applied(request_id, review_id, id, event) is Ok <==> event.body
            == (SpecEventBody::SuggestionApplied { review_id, comment_id: id }) && core.connection is Subscribed,
{
    reveal(SpecClientCore::suggestion_applied);
}

// ---- the focus ------------------------------------------------------------

/// The focus moves to a place that is shown, and only there. On an
/// invitation it shows the conversation.
pub proof fn the_focus_moves_to_what_is_shown(core: SpecClientCore, focus: Focus)
    ensures
        core.view.clamp(focus) != focus ==> core.set_focus(focus) == Err::<SpecClientCore, SpecCoreError>(
            SpecCoreError::FocusOutOfRange(focus),
        ),
        core.view.clamp(focus) == focus && !(focus is Diff) ==> (core.set_focus(focus) matches Ok(out) && {
            &&& out.view.focus == focus
            &&& out.view.review == core.view.review
            &&& focus is ReviewRequest ==> out.view.tab is Conversation
            &&& !(focus is ReviewRequest) ==> out.view.tab == core.view.tab
        }),
        core.view.clamp(focus) == focus ==> (focus matches Focus::Diff { row, .. } ==> {
            let open_file = (core.view.review->0).open_file;
            let shown = core.view.review is None || open_file is None || ((open_file->0).first_row <= row && row <= (
            open_file->0).last_row);
            &&& shown ==> (core.set_focus(focus) matches Ok(out) && out.view.focus == focus && out.view.review
                == core.view.review)
            &&& !shown ==> (core.set_focus(focus) matches Ok(out) ==> {
                &&& out.view.review is Some
                &&& (out.view.review->0).open_file is Some
                &&& ((out.view.review->0).open_file->0).first_row <= row
                &&& row <= ((out.view.review->0).open_file->0).last_row
            })
        }),
{
    reveal(SpecClientCore::set_focus);
    reveal(SpecClientCore::refocused);
    let c = core.refocused(focus);
    if let Some((file, row)) = c.row_out_of_view(focus) {
        fetchlaws::files_open_at_the_rows_shown(
            c,
            file,
            crate::reading::page_start(row),
            crate::reading::page_end(crate::reading::page_start(row)),
        );
        crate::readinglaws::pages_hold_their_row(row);
    }
}

/// The thread under the focus shows the comment at `c`, the first with that
/// id.
pub open spec fn shows_comment_at(t: SpecThreadView, id: CommentId, c: int) -> bool {
    &&& 0 <= c < t.comments.len()
    &&& t.comments[c].id == id
    &&& forall|j: int| 0 <= j < c ==> (#[trigger] t.comments[j]).id != id
}

/// What is referred to is the focused comment of the thread under the focus,
/// if it has a reference, and otherwise the thread; elsewhere nothing is.
pub proof fn references_are_to_what_is_focused(view: SpecViewModel)
    ensures
        !(view.focus is Thread) ==> view.focused_reference() is None,
        view.focus matches Focus::Thread { index } ==> {
            let t = view.threads[index as int];
            &&& index >= view.threads.len() ==> view.focused_reference() is None
            &&& index < view.threads.len() && view.focused_comment is None ==> view.focused_reference() == t.reference
            &&& index < view.threads.len() ==> (view.focused_comment matches Some(id) ==> {
                &&& (forall|c: int| !(#[trigger] shows_comment_at(t, id, c))) ==> view.focused_reference() == t.reference
                &&& forall|c: int| #[trigger]
                    shows_comment_at(t, id, c) ==> view.focused_reference() == (if t.comments[c].reference is Some {
                        t.comments[c].reference
                    } else {
                        t.reference
                    })
            })
        },
{
    reveal(SpecViewModel::focused_reference);
    if let (Focus::Thread { index }, Some(id)) = (view.focus, view.focused_comment) {
        if index < view.threads.len() {
            let t = view.threads[index as int];
            let p = comment_view_is(id);
            data::lemma_first_where(t.comments, p);
            match data::first_where(t.comments, p) {
                Some(i) => {
                    assert(p(t.comments[i]));
                    assert forall|j: int| 0 <= j < i implies (#[trigger] t.comments[j]).id != id by {
                        assert(!p(t.comments[j]));
                    }
                    assert(shows_comment_at(t, id, i));
                    assert forall|c: int| #[trigger] shows_comment_at(t, id, c) implies c == i by {
                        if c < i {
                            assert(t.comments[c].id != id);
                        } else if i < c {
                            assert(t.comments[i].id != id);
                        }
                    }
                },
                None => {
                    assert forall|c: int| !(#[trigger] shows_comment_at(t, id, c)) by {
                        if 0 <= c < t.comments.len() {
                            assert(!p(t.comments[c]));
                        }
                    }
                },
            }
        }
    }
}

/// A reference that cannot be followed says why; one to the review itself
/// changes nothing more.
pub proof fn lost_references_say_why(core: SpecClientCore, reference: SpecReviewReference, message: Seq<char>)
    requires
        core.view.review is Some,
    ensures
        reference.resolve((core.view.review->0).snapshot) == Err::<Option<CommentId>, Seq<char>>(message) ==> core.pointed(
            reference,
        ).view.last_error == Some(SpecRpcError::Invalid { reason: message }),
        reference.resolve((core.view.review->0).snapshot) == Ok::<Option<CommentId>, Seq<char>>(None) ==> core.pointed(
            reference,
        ) == core,
{
    reveal(SpecClientCore::pointed);
    reveal(SpecClientCore::reference_error);
}

// ---- the files of a review ------------------------------------------------

/// Each file of a review is asked for as its change, with the options in use.
pub proof fn files_are_rendered_as_their_change(opts: crate::protocol::SpecRenderOpts, f: SpecFileChange)
    ensures
        ({
            let render = render_of_change(opts)(f);
            &&& render.repo_id == f.repo_id
            &&& render.path == f.path
            &&& render.target == (SpecRenderTarget::Diff { change: f.kind })
            &&& render.opts == opts
        }),
{
}

proof fn lemma_all_prefetched(core: SpecClientCore, review_id: ReviewId, renders: Seq<SpecRenderKey>)
    ensures
        differs_in_flow(core, core.all_prefetched(review_id, renders)),
    decreases renders.len(),
{
    if renders.len() > 0 {
        lemma_all_prefetched(core, review_id, renders.drop_last());
        let before = core.all_prefetched(review_id, renders.drop_last());
        let render = renders.last();
        reveal(SpecClientCore::prefetched);
        reveal(SpecClientCore::want_chunks_for);
        reveal(SpecClientCore::want_viewport_chunks);
        let c = before.pin(SpecCacheKey::Header { render });
        if let Some(w) = c.viewport_window(render) {
            fetchlaws::lemma_want_chunks(c, render, w.in_order());
        }
    }
}

/// The files listed become those of the review, in order. The file that is
/// open stays open while it is among them or is a recorded one; otherwise the
/// first is opened.
pub proof fn files_listed_are_shown(core: SpecClientCore, review_id: ReviewId, files: Seq<SpecFileChange>)
    requires
        core.view.review is Some,
    ensures
        ({
            let out = core.review_files(review_id, files);
            let open = core.view.review->0;
            let now = (out.view.review->0).files;
            let stays = open.open_file is Some && (now.contains((open.open_file->0).render) || open.original == Some(
                (open.open_file->0).render,
            ));
            &&& out.view.review is Some
            &&& now.len() == files.len()
            &&& forall|i: int|
                0 <= i < files.len() ==> {
                    &&& (#[trigger] now[i]).repo_id == files[i].repo_id
                    &&& now[i].path == files[i].path
                    &&& now[i].target == (SpecRenderTarget::Diff { change: files[i].kind })
                    &&& now[i].opts == core.flow.content.config.render_opts
                }
            &&& stays ==> (out.view.review->0).open_file == open.open_file
            &&& !stays && files.len() == 0 ==> (out.view.review->0).open_file is None
            &&& (out.view.review->0).snapshot == open.snapshot
            &&& out.committed == core.committed
            &&& out.pending == core.pending
        }),
{
    reveal(SpecClientCore::review_files);
    reveal(SpecClientCore::retained);
    reveal(SpecClientCore::auto_open_first);
    let open = core.view.review->0;
    let renders = files.map_values(render_of_change(core.flow.content.config.render_opts));
    let stays = match open.open_render() {
        Some(r) => renders.contains(r) || open.original == Some(r),
        None => false,
    };
    let c = core.with_open(
        SpecOpenReview {
            files: renders,
            open_file: if stays {
                open.open_file
            } else {
                None
            },
            ..open
        },
    ).retained();
    lemma_all_prefetched(c, review_id, renders);
    let d = c.all_prefetched(review_id, renders);
    if renders.len() > 0 {
        fetchlaws::files_open_at_the_rows_shown(
            d,
            renders[0].file(),
            0,
            (crate::focus::PAGE_ROWS - 1) as u32,
        );
    }
}

/// A list of files is for the review that is open, or it is ignored.
pub proof fn files_of_other_reviews_are_ignored(
    core: SpecClientCore,
    review_id: ReviewId,
    files: Seq<SpecFileChange>,
    resolved: Seq<ResolvedTarget>,
)
    ensures
        !(core.view.review is Some && (core.view.review->0).snapshot.review.id == review_id) ==> core.answer_files(
            review_id,
            files,
            resolved,
        ) == core,
        core.view.review is Some && (core.view.review->0).snapshot.review.id == review_id && (
        core.view.review->0).scope is All ==> core.answer_files(review_id, files, resolved) == core.review_files(
            review_id,
            files,
        ),
{
    reveal(SpecClientCore::answer_files);
    reveal(SpecClientCore::rescoped);
}

/// The file list is of the review, in the scope that is shown.
pub proof fn files_are_listed_in_scope(core: SpecClientCore, review_id: ReviewId)
    ensures
        core.list_files(review_id).flow.out == core.flow.out.push(
            SpecErrand::Send(
                SpecClientMsg::Request {
                    id: RequestId(core.flow.wire.next_request),
                    request: SpecRequest::ListFiles {
                        review_id,
                        scope: match core.view.review {
                            Some(open) => open.scope,
                            None => crate::protocol::DiffScope::All,
                        },
                    },
                },
            ),
        ),
{
    reveal(SpecFlow::request);
}

/// The targets shown are those of the scope: all of them as committed, or
/// those of the commit looked at.
pub proof fn targets_are_those_of_the_scope(open: SpecOpenReview, committed: SpecReviewSnapshot)
    ensures
        open.scope is All && committed.resolved is Some ==> open.heads(committed) == committed.resolved->0,
        open.scope is All && committed.resolved is None ==> open.heads(committed).len() == 0,
        !(open.scope is All) ==> open.heads(committed) == open.scoped_targets,
        open.scope is All && open.snapshot.resolved is Some ==> open.current_targets() == open.snapshot.resolved->0,
        open.scope is All && open.snapshot.resolved is None ==> open.current_targets().len() == 0,
        !(open.scope is All) ==> open.current_targets() == open.scoped_targets,
{
}

} // verus!
