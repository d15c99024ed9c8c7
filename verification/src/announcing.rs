//! What every input tells: a part of the view that changes is named in the
//! render that is asked for.
use vstd::prelude::*;

use crate::data;
use crate::flow;
use crate::live;
use crate::view;
use crate::browse::SpecBrowseTarget;
use crate::cache::{Bytes, SpecCacheKey, SpecCacheValue, SpecRenderKey, TreeKey};
use crate::client::{
    Connection, ScopeChoice, SearchKind, SpecAction, SpecClientCore, SpecInput, SpecPending,
    SpecReferenceText, SpecResolved, SpecStored, TransportEvent,
};
use crate::content::SpecFetch;
use crate::creation::{
    CreationReconcile, CreationResume, CreationTargetId, SpecCreationDefaultState, SpecCreationEdit,
    SpecCreationSubmission, SpecReviewCreation,
};
use crate::diff::{SpecFileRef, SpecThreadView};
use crate::explorer::{Progress, SpecDirKey, SpecTreeView};
use crate::fetching::Arrival;
use crate::flow::{SpecEffect, SpecInFlight};
use crate::focus::Focus;
use crate::keymap::KeyChord;
use crate::lifecycle::{
    ManagementRequest, ManagementRequestId, SpecManagementReply, SpecUpgradeOperation,
};
use crate::patch::SpecViewPatch;
use crate::protocol::{
    ChunkIndex, ClientSeq, CommentId, CommentIntent, DiffScope, EventSeq, SpecRenderContent, RepoId,
    RequestId, ResolvedTarget, ReviewId, Side, SpecAnchor, SpecCommitInfo, SpecContentHit,
    SpecEvent, SpecEventBody, SpecFileChange, SpecMutation, SpecRefCandidate, SpecRefSpec,
    SpecRenderChunk, SpecRenderOpts, SpecRepoPath, SpecResponse, SpecReview, SpecReviewReference,
    SpecReviewSnapshot, SpecReviewTarget, SpecRpcError, SpecServerMsg, SpecStreamItem,
    SpecSuggestionPreview, SpecTargetRevision, SpecTreeDelta, SpecTreeSnapshot, SpecWorkspace,
    SuggestionOutcome, ThreadId, ViewSection, WorkspaceId,
};
use crate::reading::Widening;
use crate::ref_selector::{RefSelectorPurpose, SpecRefSelectorStatus};
use crate::suggestion::SpecSuggestionState;
use crate::view::{Landing, LastKey, ScrollAlign, SpecViewModel, Tab, ViewPrefs};

verus! {

/// What a host is pushed of one section.
#[verifier::opaque]
pub open spec fn shown_in(view: SpecViewModel, section: ViewSection) -> SpecViewPatch {
    view.patch(section)
}

/// Every section but the connection, the focus, the lists of reviews and the
/// searches.
pub open spec fn is_followed(section: ViewSection) -> bool {
    match section {
        ViewSection::Connection => false,
        ViewSection::ReviewList => false,
        ViewSection::Focus => false,
        ViewSection::Search => false,
        _ => true,
    }
}

/// What is followed and changes from `a` to `b` is named by then, and nothing
/// named is forgotten.
pub open spec fn told_followed(a: SpecClientCore, b: SpecClientCore) -> bool {
    forall|s: ViewSection|
        #![trigger b.flow.touched.contains(s)]
        is_followed(s) && !b.flow.touched.contains(s) ==> !a.flow.touched.contains(s) && shown_in(b.view, s)
            == shown_in(a.view, s)
}

/// The lists of reviews, once the header shows the targets it should.
#[verifier::opaque]
pub open spec fn listed(committed: Option<SpecReviewSnapshot>, view: SpecViewModel) -> SpecViewPatch {
    match (committed, view.review) {
        (Some(committed), Some(open)) => shown_in(
            SpecViewModel { resolved_targets: open.heads(committed), ..view },
            ViewSection::ReviewList,
        ),
        _ => shown_in(view, ViewSection::ReviewList),
    }
}

/// The header shows the targets it should.
#[verifier::opaque]
pub open spec fn headed(committed: Option<SpecReviewSnapshot>, view: SpecViewModel) -> bool {
    match (committed, view.review) {
        (Some(committed), Some(open)) => view.resolved_targets == open.heads(committed),
        _ => true,
    }
}

/// The lists of reviews are named by `b` if they change.
pub open spec fn told_lists(a: SpecClientCore, b: SpecClientCore) -> bool {
    !b.flow.touched.contains(ViewSection::ReviewList) ==> {
        &&& !a.flow.touched.contains(ViewSection::ReviewList)
        &&& listed(b.committed, b.view) == listed(a.committed, a.view)
        &&& headed(a.committed, a.view) ==> headed(b.committed, b.view)
    }
}

/// No search is open.
pub open spec fn searches_closed(view: SpecViewModel) -> bool {
    shown_in(view, ViewSection::Search) == (SpecViewPatch::Search { content_search: None, action_palette: false })
}

/// The searches are named by `b` if they change, unless they close with the
/// review.
pub open spec fn told_searches(a: SpecClientCore, b: SpecClientCore) -> bool {
    !b.flow.touched.contains(ViewSection::Search) ==> {
        &&& !a.flow.touched.contains(ViewSection::Search)
        &&& shown_in(b.view, ViewSection::Search) == shown_in(a.view, ViewSection::Search) || {
            &&& searches_closed(b.view)
            &&& b.flow.touched.contains(ViewSection::ReviewList)
            &&& b.flow.touched.contains(ViewSection::Draft)
        }
    }
}

/// What changes from `a` to `b` is named by then.
pub open spec fn told(a: SpecClientCore, b: SpecClientCore) -> bool {
    told_followed(a, b) && told_lists(a, b) && told_searches(a, b)
}

broadcast proof fn planting_keeps_the_view(core: SpecClientCore, fetches: Seq<SpecFetch>, fetch: bool)
    ensures
        (#[trigger] core.planted(fetches, fetch)).view == core.view,
    decreases fetches.len(),
{
    if fetches.len() > 0 {
        planting_keeps_the_view(core, fetches.drop_last(), fetch);
    }
}

broadcast proof fn trees_keep_the_draft(core: SpecClientCore, fetch: bool)
    ensures
        (#[trigger] core.review_trees(fetch)).view.draft == core.view.draft,
        core.review_trees(fetch).view.pending_refresh == core.view.pending_refresh,
{
    reveal(SpecClientCore::review_trees);
    reveal(SpecClientCore::retained);
    broadcast use planting_keeps_the_view;
}

broadcast group group_naming {
    flow::group_content_is_fetched_silently,
    vstd::seq_lib::lemma_seq_contains_after_push,
    vstd::seq_lib::lemma_seq_concat_contains_all_elements,
    vstd::seq_lib::lemma_seq_empty_contains_nothing,
}

broadcast proof fn tells_loaded_once(core: SpecClientCore)
    ensures
        told(core, #[trigger] core.loaded_once()),
{
    reveal(SpecClientCore::loaded_once);
    broadcast use group_naming;
}

broadcast proof fn tells_connect(core: SpecClientCore)
    ensures
        match #[trigger] core.connect() {
            Ok(c) => told(core, c),
            Err(_) => true,
        },
{
    reveal(SpecClientCore::connect);
    reveal(shown_in);
    reveal(listed);
    reveal(headed);
    broadcast use {group_naming, tells_loaded_once};
}

broadcast proof fn tells_disconnect(core: SpecClientCore)
    ensures
        match #[trigger] core.disconnect() {
            Ok(c) => told(core, c),
            Err(_) => true,
        },
{
    reveal(SpecClientCore::disconnect);
    broadcast use group_naming;
}

broadcast proof fn tells_list_workspaces(core: SpecClientCore)
    ensures
        match #[trigger] core.list_workspaces() {
            Ok(c) => told(core, c),
            Err(_) => true,
        },
{
    reveal(SpecClientCore::list_workspaces);
    broadcast use group_naming;
}

broadcast proof fn tells_list_reviews(core: SpecClientCore, workspace_id: WorkspaceId)
    ensures
        match #[trigger] core.list_reviews(workspace_id) {
            Ok(c) => told(core, c),
            Err(_) => true,
        },
{
    reveal(SpecClientCore::list_reviews);
    broadcast use group_naming;
}

broadcast proof fn tells_create_review(
    core: SpecClientCore,
    review_id: ReviewId,
    workspace_id: WorkspaceId,
    title: Seq<char>,
    targets: Seq<SpecReviewTarget>,
)
    ensures
        match #[trigger] core.create_review(review_id, workspace_id, title, targets) {
            Ok(c) => told(core, c),
            Err(_) => true,
        },
{
    reveal(SpecClientCore::create_review);
    broadcast use group_naming;
}

broadcast proof fn tells_open_review(core: SpecClientCore, review_id: ReviewId)
    ensures
        match #[trigger] core.open_review(review_id) {
            Ok(c) => told(core, c),
            Err(_) => true,
        },
{
    reveal(SpecClientCore::open_review);
    broadcast use group_naming;
}

broadcast proof fn tells_leave_review(core: SpecClientCore)
    ensures
        match #[trigger] core.leave_review() {
            Ok(c) => told(core, c),
            Err(_) => true,
        },
{
    reveal(SpecClientCore::leave_review);
    reveal(SpecClientCore::closed_review);
    reveal(SpecClientCore::review_closed);
    reveal(shown_in);
    reveal(listed);
    reveal(headed);
    broadcast use group_naming;
}

broadcast proof fn tells_reference_error(core: SpecClientCore, message: Seq<char>)
    ensures
        told(core, #[trigger] core.reference_error(message)),
{
    reveal(SpecClientCore::reference_error);
    reveal(shown_in);
    reveal(listed);
    reveal(headed);
    broadcast use group_naming;
}

broadcast proof fn tells_open_reference(core: SpecClientCore, text: SpecReferenceText)
    ensures
        match #[trigger] core.open_reference(text) {
            Ok(c) => told(core, c),
            Err(_) => true,
        },
{
    reveal(SpecClientCore::open_reference);
    reveal(shown_in);
    reveal(listed);
    reveal(headed);
    broadcast use {group_naming, tells_reference_error, tells_open_review};
}

broadcast proof fn tells_manage_daemon(core: SpecClientCore, request: ManagementRequest)
    ensures
        told(core, #[trigger] core.manage_daemon(request)),
{
    reveal(SpecClientCore::manage_daemon);
    reveal(shown_in);
    reveal(listed);
    reveal(headed);
    broadcast use group_naming;
}

broadcast proof fn tells_set_tab(core: SpecClientCore, tab: Tab)
    ensures
        told(core, #[trigger] core.set_tab(tab)),
{
    reveal(SpecClientCore::set_tab);
    reveal(shown_in);
    reveal(listed);
    reveal(headed);
    broadcast use group_naming;
}

broadcast proof fn tells_refocused(core: SpecClientCore, focus: Focus)
    ensures
        told(core, #[trigger] core.refocused(focus)),
{
    reveal(SpecClientCore::refocused);
    reveal(shown_in);
    reveal(listed);
    reveal(headed);
    broadcast use group_naming;
}

broadcast proof fn tells_placed(
    core: SpecClientCore,
    render: SpecRenderKey,
    first_row: u32,
    last_row: u32,
)
    ensures
        told(core, #[trigger] core.placed(render, first_row, last_row)),
{
    reveal(SpecClientCore::placed);
    reveal(shown_in);
    reveal(listed);
    reveal(headed);
    broadcast use group_naming;
}

broadcast proof fn tells_retained(core: SpecClientCore)
    ensures
        told(core, #[trigger] core.retained()),
{
    reveal(SpecClientCore::retained);
    broadcast use group_naming;
}

broadcast proof fn tells_took_over(core: SpecClientCore, render: SpecRenderKey, first_row: u32)
    ensures
        told(core, #[trigger] core.took_over(render, first_row)),
{
    reveal(SpecClientCore::took_over);
    reveal(shown_in);
    reveal(listed);
    reveal(headed);
    broadcast use {group_naming, tells_retained};
}

broadcast proof fn tells_windowed(core: SpecClientCore, render: SpecRenderKey)
    ensures
        told(core, #[trigger] core.windowed(render)),
{
    reveal(SpecClientCore::windowed);
    broadcast use group_naming;
}

broadcast proof fn tells_want_chunks(
    core: SpecClientCore,
    render: SpecRenderKey,
    indices: Seq<ChunkIndex>,
)
    ensures
        told(core, #[trigger] core.want_chunks(render, indices)),
    decreases indices.len(),
{
    broadcast use group_naming;
    if indices.len() > 0 {
        tells_want_chunks(core, render, indices.drop_last());
    }
}

broadcast proof fn tells_want_viewport_chunks(core: SpecClientCore, render: SpecRenderKey)
    ensures
        told(core, #[trigger] core.want_viewport_chunks(render)),
{
    reveal(SpecClientCore::want_viewport_chunks);
    broadcast use {group_naming, tells_want_chunks};
}

broadcast proof fn tells_want_render(
    core: SpecClientCore,
    review_id: ReviewId,
    render: SpecRenderKey,
)
    ensures
        told(core, #[trigger] core.want_render(review_id, render)),
{
    reveal(SpecClientCore::want_render);
    broadcast use {group_naming, tells_want_viewport_chunks};
}

broadcast proof fn tells_showing(
    core: SpecClientCore,
    render: SpecRenderKey,
    first_row: u32,
    last_row: u32,
)
    ensures
        told(core, #[trigger] core.showing(render, first_row, last_row)),
{
    reveal(SpecClientCore::showing);
    broadcast use {
        group_naming,
        tells_placed,
        tells_took_over,
        tells_windowed,
        tells_want_render,
    };
}

broadcast proof fn tells_viewport(
    core: SpecClientCore,
    file: SpecFileRef,
    first_row: u32,
    last_row: u32,
)
    ensures
        match #[trigger] core.viewport(file, first_row, last_row) {
            Ok(c) => told(core, c),
            Err(_) => true,
        },
{
    reveal(SpecClientCore::viewport);
    broadcast use {group_naming, tells_showing};
}

broadcast proof fn tells_set_focus(core: SpecClientCore, focus: Focus)
    ensures
        match #[trigger] core.set_focus(focus) {
            Ok(c) => told(core, c),
            Err(_) => true,
        },
{
    reveal(SpecClientCore::set_focus);
    broadcast use {group_naming, tells_refocused, tells_viewport};
}

broadcast proof fn tells_entered(core: SpecClientCore, focus: Focus)
    ensures
        told(core, #[trigger] core.entered(focus)),
{
    reveal(SpecClientCore::entered);
    reveal(shown_in);
    reveal(listed);
    reveal(headed);
    broadcast use group_naming;
}

broadcast proof fn tells_toggle_help(core: SpecClientCore)
    ensures
        told(core, #[trigger] core.toggle_help()),
{
    reveal(SpecClientCore::toggle_help);
    reveal(SpecClientCore::left);
    reveal(shown_in);
    reveal(listed);
    reveal(headed);
    broadcast use {group_naming, tells_entered};
}

broadcast proof fn tells_set_palette(core: SpecClientCore, open: bool)
    ensures
        told(core, #[trigger] core.set_palette(open)),
{
    reveal(SpecClientCore::set_palette);
    reveal(shown_in);
    reveal(listed);
    reveal(headed);
    broadcast use group_naming;
}

broadcast proof fn tells_unlisted(core: SpecClientCore)
    ensures
        told(core, #[trigger] core.unlisted()),
{
    reveal(SpecClientCore::unlisted);
    reveal(shown_in);
    reveal(listed);
    reveal(headed);
    broadcast use group_naming;
}

broadcast proof fn tells_reoptioned(core: SpecClientCore, opts: SpecRenderOpts)
    ensures
        told(core, #[trigger] core.reoptioned(opts)),
{
    reveal(SpecClientCore::reoptioned);
    broadcast use {group_naming, tells_unlisted};
}

broadcast proof fn tells_apply_prefs(core: SpecClientCore, prefs: ViewPrefs, save: bool)
    ensures
        told(core, #[trigger] core.apply_prefs(prefs, save)),
{
    reveal(SpecClientCore::apply_prefs);
    reveal(shown_in);
    reveal(listed);
    reveal(headed);
    broadcast use {group_naming, tells_reoptioned};
}

broadcast proof fn tells_commenting(core: SpecClientCore, anchor: SpecAnchor, intent: CommentIntent)
    ensures
        told(core, #[trigger] core.commenting(anchor, intent)),
{
    reveal(SpecClientCore::commenting);
    reveal(shown_in);
    reveal(listed);
    reveal(headed);
    broadcast use {group_naming, tells_entered};
}

broadcast proof fn tells_open_draft(core: SpecClientCore, anchor: SpecAnchor, intent: CommentIntent)
    ensures
        match #[trigger] core.open_draft(anchor, intent) {
            Ok(c) => told(core, c),
            Err(_) => true,
        },
{
    reveal(SpecClientCore::open_draft);
    broadcast use {group_naming, tells_commenting};
}

broadcast proof fn tells_mutated_with(
    core: SpecClientCore,
    mutation: SpecMutation,
    body: SpecEventBody,
)
    ensures
        told(core, #[trigger] core.mutated_with(mutation, body)),
{
    reveal(SpecClientCore::mutated_with);
    reveal(SpecClientCore::rebased);
    reveal(shown_in);
    reveal(listed);
    reveal(headed);
    broadcast use group_naming;
}

broadcast proof fn tells_mutated(core: SpecClientCore, mutation: SpecMutation)
    ensures
        match #[trigger] core.mutated(mutation) {
            Ok(c) => told(core, c),
            Err(_) => true,
        },
{
    reveal(SpecClientCore::mutated);
    broadcast use {group_naming, tells_mutated_with};
}

broadcast proof fn tells_observed(core: SpecClientCore, event: SpecEvent)
    ensures
        told(core, #[trigger] core.observed(event)),
{
    reveal(SpecClientCore::observed);
    broadcast use group_naming;
}

broadcast proof fn tells_creation_found(core: SpecClientCore, review: SpecReview)
    ensures
        told(core, #[trigger] core.creation_found(review)),
{
    reveal(SpecClientCore::creation_found);
    reveal(shown_in);
    reveal(listed);
    reveal(headed);
    broadcast use group_naming;
}

broadcast proof fn tells_held(core: SpecClientCore, event: SpecEvent)
    ensures
        told(core, #[trigger] core.held(event)),
{
    reveal(SpecClientCore::held);
    reveal(shown_in);
    reveal(listed);
    reveal(headed);
    broadcast use group_naming;
}

broadcast proof fn tells_target_moved(
    core: SpecClientCore,
    review_id: ReviewId,
    target: SpecReviewTarget,
)
    ensures
        told(core, #[trigger] core.target_moved(review_id, target)),
{
    reveal(SpecClientCore::target_moved);
    reveal(shown_in);
    reveal(listed);
    reveal(headed);
    broadcast use group_naming;
}

broadcast proof fn tells_review_deleted(core: SpecClientCore, review_id: ReviewId)
    ensures
        told(core, #[trigger] core.review_deleted(review_id)),
{
    data::lemma_filter_all(core.view.reviews, live::review_is_not(review_id));
    reveal(SpecClientCore::review_deleted);
    reveal(SpecClientCore::closed_review);
    reveal(SpecClientCore::review_closed);
    reveal(shown_in);
    reveal(listed);
    reveal(headed);
    broadcast use group_naming;
}

broadcast proof fn tells_relisted(core: SpecClientCore, body: SpecEventBody)
    ensures
        told(core, #[trigger] core.relisted(body)),
{
    reveal(SpecClientCore::relisted);
    reveal(shown_in);
    reveal(listed);
    reveal(headed);
    broadcast use {group_naming, tells_target_moved, tells_review_deleted};
}

broadcast proof fn tells_planted(core: SpecClientCore, fetches: Seq<SpecFetch>, fetch: bool)
    ensures
        told(core, #[trigger] core.planted(fetches, fetch)),
    decreases fetches.len(),
{
    broadcast use group_naming;
    if fetches.len() > 0 {
        tells_planted(core, fetches.drop_last(), fetch);
    }
}

broadcast proof fn tells_review_trees(core: SpecClientCore, fetch: bool)
    ensures
        told(core, #[trigger] core.review_trees(fetch)),
{
    reveal(SpecClientCore::review_trees);
    reveal(shown_in);
    reveal(listed);
    reveal(headed);
    broadcast use {group_naming, tells_retained, tells_planted};
}

/// Only an event that says so changes what the targets resolved to.
proof fn lemma_events_keep_the_heads(snapshot: SpecReviewSnapshot, event: SpecEvent)
    ensures
        !(event.body is ReviewTargetsResolved) ==> snapshot.after_event(event).0.resolved == snapshot.resolved,
{
    reveal(SpecReviewSnapshot::after_event);
    reveal(SpecReviewSnapshot::after_body);
}

broadcast proof fn tells_folded(core: SpecClientCore, event: SpecEvent)
    ensures
        told(core, #[trigger] core.folded(event)),
{
    if let Some(committed) = core.committed {
        lemma_events_keep_the_heads(committed, event);
    }
    reveal(SpecClientCore::folded);
    reveal(SpecClientCore::rebased);
    reveal(shown_in);
    reveal(listed);
    reveal(headed);
    broadcast use {group_naming, tells_review_trees};
}

broadcast proof fn tells_applied(core: SpecClientCore, event: SpecEvent)
    ensures
        told(core, #[trigger] core.applied(event)),
{
    reveal(SpecClientCore::applied);
    broadcast use {
        group_naming,
        tells_observed,
        tells_creation_found,
        tells_held,
        tells_relisted,
        tells_folded,
    };
}

broadcast proof fn tells_all_applied(core: SpecClientCore, events: Seq<SpecEvent>)
    ensures
        told(core, #[trigger] core.all_applied(events)),
    decreases events.len(),
{
    broadcast use {group_naming, tells_applied};
    if events.len() > 0 {
        tells_all_applied(core, events.drop_last());
    }
}

broadcast proof fn tells_draft_submitted(
    core: SpecClientCore,
    comment_id: CommentId,
    body: Seq<char>,
)
    ensures
        match #[trigger] core.draft_submitted(comment_id, body) {
            Ok(c) => told(core, c),
            Err(_) => true,
        },
{
    reveal(SpecClientCore::draft_submitted);
    reveal(SpecClientCore::draft_closed);
    reveal(SpecClientCore::left);
    reveal(SpecClientCore::undeferred);
    reveal(shown_in);
    reveal(listed);
    reveal(headed);
    broadcast use {group_naming, tells_mutated, tells_all_applied};
}

broadcast proof fn tells_draft_discarded(core: SpecClientCore)
    ensures
        match #[trigger] core.draft_discarded() {
            Ok(c) => told(core, c),
            Err(_) => true,
        },
{
    reveal(SpecClientCore::draft_discarded);
    reveal(SpecClientCore::draft_closed);
    reveal(SpecClientCore::left);
    reveal(SpecClientCore::undeferred);
    reveal(shown_in);
    reveal(listed);
    reveal(headed);
    broadcast use {group_naming, tells_all_applied};
}

broadcast proof fn tells_reply_opened(core: SpecClientCore, thread_id: ThreadId)
    ensures
        match #[trigger] core.reply_opened(thread_id) {
            Ok(c) => told(core, c),
            Err(_) => true,
        },
{
    reveal(SpecClientCore::reply_opened);
    reveal(shown_in);
    reveal(listed);
    reveal(headed);
    broadcast use {group_naming, tells_entered};
}

broadcast proof fn tells_on_review(core: SpecClientCore, mutation: SpecMutation)
    ensures
        match #[trigger] core.on_review(mutation) {
            Ok(c) => told(core, c),
            Err(_) => true,
        },
{
    reveal(SpecClientCore::on_review);
    broadcast use {group_naming, tells_mutated};
}

broadcast proof fn tells_suggestion_focused(core: SpecClientCore, id: CommentId)
    ensures
        told(core, #[trigger] core.suggestion_focused(id)),
{
    reveal(SpecClientCore::suggestion_focused);
    reveal(shown_in);
    reveal(listed);
    reveal(headed);
    broadcast use group_naming;
}

broadcast proof fn tells_preview_suggestion(core: SpecClientCore, id: CommentId)
    ensures
        match #[trigger] core.preview_suggestion(id) {
            Ok(c) => told(core, c),
            Err(_) => true,
        },
{
    reveal(SpecClientCore::preview_suggestion);
    broadcast use {group_naming, tells_suggestion_focused};
}

broadcast proof fn tells_suggestion_sent(
    core: SpecClientCore,
    id: CommentId,
    review_id: ReviewId,
    state: SpecSuggestionState,
)
    ensures
        told(core, #[trigger] core.suggestion_sent(id, review_id, state)),
{
    reveal(SpecClientCore::suggestion_sent);
    broadcast use group_naming;
}

broadcast proof fn tells_apply_suggestion(core: SpecClientCore, id: CommentId)
    ensures
        match #[trigger] core.apply_suggestion(id) {
            Ok(c) => told(core, c),
            Err(_) => true,
        },
{
    reveal(SpecClientCore::apply_suggestion);
    broadcast use {group_naming, tells_suggestion_focused, tells_suggestion_sent};
}

broadcast proof fn tells_comment_lines(
    core: SpecClientCore,
    file: SpecFileRef,
    side: Side,
    start: u32,
    end: u32,
)
    ensures
        match #[trigger] core.comment_lines(file, side, start, end) {
            Ok(c) => told(core, c),
            Err(_) => true,
        },
{
    reveal(SpecClientCore::comment_lines);
    broadcast use {group_naming, tells_commenting};
}

broadcast proof fn tells_comment_file(core: SpecClientCore, file: SpecFileRef)
    ensures
        match #[trigger] core.comment_file(file) {
            Ok(c) => told(core, c),
            Err(_) => true,
        },
{
    reveal(SpecClientCore::comment_file);
    broadcast use {group_naming, tells_commenting};
}

broadcast proof fn tells_mark_viewed(core: SpecClientCore, file: SpecFileRef, viewed: bool)
    ensures
        match #[trigger] core.mark_viewed(file, viewed) {
            Ok(c) => told(core, c),
            Err(_) => true,
        },
{
    reveal(SpecClientCore::mark_viewed);
    broadcast use {group_naming, tells_mutated_with};
}

broadcast proof fn tells_enter_visual(core: SpecClientCore)
    ensures
        match #[trigger] core.enter_visual() {
            Ok(c) => told(core, c),
            Err(_) => true,
        },
{
    reveal(SpecClientCore::enter_visual);
    broadcast use group_naming;
}

broadcast proof fn tells_leave_visual(core: SpecClientCore)
    ensures
        match #[trigger] core.leave_visual() {
            Ok(c) => told(core, c),
            Err(_) => true,
        },
{
    reveal(SpecClientCore::leave_visual);
    broadcast use group_naming;
}

broadcast proof fn tells_scrolled(core: SpecClientCore, row: u32, align: ScrollAlign)
    ensures
        told(core, #[trigger] core.scrolled(row, align)),
{
    reveal(SpecClientCore::scrolled);
    reveal(shown_in);
    reveal(listed);
    reveal(headed);
    broadcast use group_naming;
}

broadcast proof fn tells_open_file_at(
    core: SpecClientCore,
    file: SpecFileRef,
    row: u32,
    side: Side,
    landing: Landing,
)
    ensures
        match #[trigger] core.open_file_at(file, row, side, landing) {
            Ok(c) => told(core, c),
            Err(_) => true,
        },
{
    reveal(SpecClientCore::open_file_at);
    reveal(shown_in);
    reveal(listed);
    reveal(headed);
    broadcast use {group_naming, tells_viewport, tells_scrolled};
}

broadcast proof fn tells_close_file(core: SpecClientCore)
    ensures
        match #[trigger] core.close_file() {
            Ok(c) => told(core, c),
            Err(_) => true,
        },
{
    reveal(SpecClientCore::close_file);
    reveal(shown_in);
    reveal(listed);
    reveal(headed);
    broadcast use {group_naming, tells_retained};
}

broadcast proof fn tells_toggle_dir(core: SpecClientCore, key: SpecDirKey)
    ensures
        match #[trigger] core.toggle_dir(key) {
            Ok(c) => told(core, c),
            Err(_) => true,
        },
{
    reveal(SpecClientCore::toggle_dir);
    broadcast use group_naming;
}

broadcast proof fn tells_file_search(core: SpecClientCore, query: Option<Seq<char>>)
    ensures
        match #[trigger] core.file_search(query) {
            Ok(c) => told(core, c),
            Err(_) => true,
        },
{
    reveal(SpecClientCore::file_search);
    broadcast use group_naming;
}

broadcast proof fn tells_scroll_view(core: SpecClientCore, align: ScrollAlign)
    ensures
        match #[trigger] core.scroll_view(align) {
            Ok(c) => told(core, c),
            Err(_) => true,
        },
{
    reveal(SpecClientCore::scroll_view);
    broadcast use {group_naming, tells_scrolled};
}

broadcast proof fn tells_toggle_file_collapse(core: SpecClientCore, file: SpecFileRef)
    ensures
        match #[trigger] core.toggle_file_collapse(file) {
            Ok(c) => told(core, c),
            Err(_) => true,
        },
{
    reveal(SpecClientCore::toggle_file_collapse);
    broadcast use group_naming;
}

broadcast proof fn tells_collapse_parent(core: SpecClientCore)
    ensures
        match #[trigger] core.collapse_parent() {
            Ok(c) => told(core, c),
            Err(_) => true,
        },
{
    reveal(SpecClientCore::collapse_parent);
    reveal(shown_in);
    reveal(listed);
    reveal(headed);
    broadcast use group_naming;
}

broadcast proof fn tells_collapse_all(core: SpecClientCore)
    ensures
        match #[trigger] core.collapse_all() {
            Ok(c) => told(core, c),
            Err(_) => true,
        },
{
    reveal(SpecClientCore::collapse_all);
    reveal(shown_in);
    reveal(listed);
    reveal(headed);
    broadcast use group_naming;
}

broadcast proof fn tells_original_opened(core: SpecClientCore, render: SpecRenderKey)
    ensures
        told(core, #[trigger] core.original_opened(render)),
{
    reveal(SpecClientCore::original_opened);
    reveal(shown_in);
    reveal(listed);
    reveal(headed);
    broadcast use group_naming;
}

broadcast proof fn tells_want_open_render(
    core: SpecClientCore,
    review_id: ReviewId,
    render: SpecRenderKey,
)
    ensures
        told(core, #[trigger] core.want_open_render(review_id, render)),
{
    reveal(SpecClientCore::want_open_render);
    broadcast use {group_naming, tells_retained, tells_want_render};
}

broadcast proof fn tells_open_original(core: SpecClientCore, thread_id: ThreadId)
    ensures
        match #[trigger] core.open_original(thread_id) {
            Ok(c) => told(core, c),
            Err(_) => true,
        },
{
    reveal(SpecClientCore::open_original);
    reveal(shown_in);
    reveal(listed);
    reveal(headed);
    broadcast use {group_naming, tells_original_opened, tells_want_open_render};
}

broadcast proof fn tells_rekeyed(core: SpecClientCore, i: int, new_key: SpecRenderKey)
    ensures
        told(core, #[trigger] core.rekeyed(i, new_key)),
{
    reveal(SpecClientCore::rekeyed);
    reveal(shown_in);
    reveal(listed);
    reveal(headed);
    broadcast use group_naming;
}

broadcast proof fn tells_re_render(core: SpecClientCore, file: SpecFileRef, by: Widening)
    ensures
        match #[trigger] core.re_render(file, by) {
            Ok(c) => told(core, c),
            Err(_) => true,
        },
{
    reveal(SpecClientCore::re_render);
    broadcast use {group_naming, tells_rekeyed, tells_want_open_render};
}

broadcast proof fn tells_content_search(
    core: SpecClientCore,
    query: Option<Seq<char>>,
    all_files: bool,
)
    ensures
        match #[trigger] core.content_search(query, all_files) {
            Ok(c) => told(core, c),
            Err(_) => true,
        },
{
    reveal(SpecClientCore::content_search);
    reveal(shown_in);
    reveal(listed);
    reveal(headed);
    broadcast use group_naming;
}

broadcast proof fn tells_search_first(core: SpecClientCore, search: SearchKind)
    ensures
        match #[trigger] core.search_first(search) {
            Ok(c) => told(core, c),
            Err(_) => true,
        },
{
    reveal(SpecClientCore::search_first);
    reveal(shown_in);
    reveal(listed);
    reveal(headed);
    broadcast use group_naming;
}

broadcast proof fn tells_search_step(core: SpecClientCore, search: SearchKind, delta: i32)
    ensures
        match #[trigger] core.search_step(search, delta) {
            Ok(c) => told(core, c),
            Err(_) => true,
        },
{
    reveal(SpecClientCore::search_step);
    reveal(shown_in);
    reveal(listed);
    reveal(headed);
    broadcast use group_naming;
}

broadcast proof fn tells_open_search_result(
    core: SpecClientCore,
    search: SearchKind,
    query: Seq<char>,
)
    ensures
        match #[trigger] core.open_search_result(search, query) {
            Ok(c) => told(core, c),
            Err(_) => true,
        },
{
    reveal(SpecClientCore::open_search_result);
    reveal(shown_in);
    reveal(listed);
    reveal(headed);
    broadcast use {group_naming, tells_viewport};
}

broadcast proof fn tells_list_commits(core: SpecClientCore, repo_id: RepoId)
    ensures
        match #[trigger] core.list_commits(repo_id) {
            Ok(c) => told(core, c),
            Err(_) => true,
        },
{
    reveal(SpecClientCore::list_commits);
    broadcast use group_naming;
}

broadcast proof fn tells_apply_scope(core: SpecClientCore, scope: DiffScope)
    ensures
        told(core, #[trigger] core.apply_scope(scope)),
{
    reveal(SpecClientCore::apply_scope);
    reveal(SpecClientCore::rebased);
    reveal(shown_in);
    reveal(listed);
    reveal(headed);
    broadcast use group_naming;
}

broadcast proof fn tells_step_commit(core: SpecClientCore, selected: Option<usize>)
    ensures
        match #[trigger] core.step_commit(selected) {
            Ok(c) => told(core, c),
            Err(_) => true,
        },
{
    reveal(SpecClientCore::step_commit);
    broadcast use {group_naming, tells_apply_scope};
}

broadcast proof fn tells_by_commit(core: SpecClientCore, review_id: ReviewId, repo_id: RepoId)
    ensures
        match #[trigger] core.by_commit(review_id, repo_id) {
            Ok(c) => told(core, c),
            Err(_) => true,
        },
{
    reveal(SpecClientCore::by_commit);
    broadcast use {group_naming, tells_apply_scope};
}

broadcast proof fn tells_set_scope(core: SpecClientCore, scope: ScopeChoice)
    ensures
        match #[trigger] core.set_scope(scope) {
            Ok(c) => told(core, c),
            Err(_) => true,
        },
{
    reveal(SpecClientCore::set_scope);
    broadcast use {group_naming, tells_apply_scope, tells_by_commit};
}

broadcast proof fn tells_browse_asked(core: SpecClientCore, repo_id: RepoId, ref_spec: SpecRefSpec)
    ensures
        told(core, #[trigger] core.browse_asked(repo_id, ref_spec)),
{
    reveal(SpecClientCore::browse_asked);
    broadcast use group_naming;
}

broadcast proof fn tells_browse_reset(core: SpecClientCore, repo_id: RepoId)
    ensures
        told(core, #[trigger] core.browse_reset(repo_id)),
{
    reveal(SpecClientCore::browse_reset);
    reveal(shown_in);
    reveal(listed);
    reveal(headed);
    broadcast use {group_naming, tells_review_trees};
}

broadcast proof fn tells_set_browse_ref(
    core: SpecClientCore,
    repo_id: RepoId,
    ref_spec: Option<SpecRefSpec>,
)
    ensures
        match #[trigger] core.set_browse_ref(repo_id, ref_spec) {
            Ok(c) => told(core, c),
            Err(_) => true,
        },
{
    reveal(SpecClientCore::set_browse_ref);
    broadcast use {group_naming, tells_browse_asked, tells_browse_reset};
}

broadcast proof fn tells_open_ref_selector(
    core: SpecClientCore,
    repo_id: RepoId,
    purpose: RefSelectorPurpose,
)
    ensures
        match #[trigger] core.open_ref_selector(repo_id, purpose) {
            Ok(c) => told(core, c),
            Err(_) => true,
        },
{
    reveal(SpecClientCore::open_ref_selector);
    broadcast use group_naming;
}

broadcast proof fn tells_ref_selector_query(core: SpecClientCore, query: Seq<char>)
    ensures
        match #[trigger] core.ref_selector_query(query) {
            Ok(c) => told(core, c),
            Err(_) => true,
        },
{
    reveal(SpecClientCore::ref_selector_query);
    broadcast use group_naming;
}

broadcast proof fn tells_ref_selector_step(core: SpecClientCore, delta: i32)
    ensures
        match #[trigger] core.ref_selector_step(delta) {
            Ok(c) => told(core, c),
            Err(_) => true,
        },
{
    reveal(SpecClientCore::ref_selector_step);
    broadcast use group_naming;
}

broadcast proof fn tells_retarget(
    core: SpecClientCore,
    repo_id: RepoId,
    revision: SpecTargetRevision,
)
    ensures
        match #[trigger] core.retarget(repo_id, revision) {
            Ok(c) => told(core, c),
            Err(_) => true,
        },
{
    reveal(SpecClientCore::retarget);
    broadcast use {group_naming, tells_mutated};
}

broadcast proof fn tells_select_ref(core: SpecClientCore, index: usize)
    ensures
        match #[trigger] core.select_ref(index) {
            Ok(c) => told(core, c),
            Err(_) => true,
        },
{
    reveal(SpecClientCore::select_ref);
    broadcast use {group_naming, tells_set_browse_ref, tells_retarget};
}

broadcast proof fn tells_close_ref_selector(core: SpecClientCore)
    ensures
        match #[trigger] core.close_ref_selector() {
            Ok(c) => told(core, c),
            Err(_) => true,
        },
{
    reveal(SpecClientCore::close_ref_selector);
    broadcast use group_naming;
}

broadcast proof fn tells_creation_shown(core: SpecClientCore)
    ensures
        told(core, #[trigger] core.creation_shown()),
        core.creation_shown().flow.touched.contains(ViewSection::ReviewList),
{
    reveal(SpecClientCore::creation_shown);
    reveal(SpecClientCore::closed_review);
    reveal(SpecClientCore::review_closed);
    reveal(shown_in);
    reveal(listed);
    reveal(headed);
    broadcast use group_naming;
}

broadcast proof fn tells_defaults_requested(
    core: SpecClientCore,
    review_id: ReviewId,
    repos: Seq<RepoId>,
)
    ensures
        told(core, #[trigger] core.defaults_requested(review_id, repos)),
    decreases repos.len(),
{
    broadcast use group_naming;
    if repos.len() > 0 {
        tells_defaults_requested(core, review_id, repos.drop_last());
    }
}

broadcast proof fn tells_defaulted(core: SpecClientCore)
    ensures
        told_followed(core, #[trigger] core.defaulted()),
        told_searches(core, core.defaulted()),
{
    reveal(SpecClientCore::defaulted);
    reveal(shown_in);
    reveal(listed);
    reveal(headed);
    broadcast use {group_naming, tells_defaults_requested};
}

broadcast proof fn tells_start_creation(
    core: SpecClientCore,
    workspace_id: WorkspaceId,
    review_id: ReviewId,
)
    ensures
        match #[trigger] core.start_creation(workspace_id, review_id) {
            Ok(c) => told(core, c),
            Err(_) => true,
        },
{
    reveal(SpecClientCore::start_creation);
    reveal(shown_in);
    reveal(listed);
    reveal(headed);
    broadcast use {group_naming, tells_creation_shown, tells_defaulted};
}

broadcast proof fn tells_send_creation(
    core: SpecClientCore,
    review_id: ReviewId,
    submission: SpecCreationSubmission,
)
    ensures
        told(core, #[trigger] core.send_creation(review_id, submission)),
{
    reveal(SpecClientCore::send_creation);
    reveal(shown_in);
    reveal(listed);
    reveal(headed);
    broadcast use group_naming;
}

broadcast proof fn tells_submit_creation(core: SpecClientCore, review_id: ReviewId)
    ensures
        told(core, #[trigger] core.submit_creation(review_id)),
{
    reveal(SpecClientCore::submit_creation);
    reveal(shown_in);
    reveal(listed);
    reveal(headed);
    broadcast use {group_naming, tells_send_creation};
}

broadcast proof fn tells_reconcile_creation(
    core: SpecClientCore,
    review_id: ReviewId,
    next: CreationReconcile,
)
    ensures
        told(core, #[trigger] core.reconcile_creation(review_id, next)),
{
    reveal(SpecClientCore::reconcile_creation);
    reveal(shown_in);
    reveal(listed);
    reveal(headed);
    broadcast use group_naming;
}

broadcast proof fn tells_creation_disconnected(core: SpecClientCore)
    ensures
        told_followed(core, #[trigger] core.creation_disconnected()),
        (core.creation_disconnected().view.home.creating is Some) == (core.view.home.creating is Some),
        told_searches(core, core.creation_disconnected()),
{
    reveal(SpecClientCore::creation_disconnected);
    reveal(shown_in);
    reveal(listed);
    reveal(headed);
    broadcast use group_naming;
}

broadcast proof fn tells_creation_lost(core: SpecClientCore)
    ensures
        told(core, #[trigger] core.creation_lost()),
{
    reveal(SpecClientCore::creation_lost);
    reveal(SpecClientCore::creation_disconnected);
    reveal(shown_in);
    reveal(listed);
    reveal(headed);
    broadcast use group_naming;
}

broadcast proof fn tells_creation_reconnected(core: SpecClientCore)
    ensures
        told(core, #[trigger] core.creation_reconnected()),
        core.view.home.creating is Some ==> core.creation_reconnected().flow.touched.contains(
            ViewSection::ReviewList,
        ),
{
    reveal(SpecClientCore::creation_reconnected);
    broadcast use {group_naming, tells_defaulted, tells_reconcile_creation};
}

broadcast proof fn tells_restore_creation(
    core: SpecClientCore,
    creation: SpecReviewCreation,
    resume: CreationResume,
)
    ensures
        told(core, #[trigger] core.restore_creation(creation, resume)),
{
    reveal(SpecClientCore::restore_creation);
    reveal(shown_in);
    reveal(listed);
    reveal(headed);
    broadcast use {group_naming, tells_creation_disconnected, tells_creation_reconnected};
}

broadcast proof fn tells_edit_creation(
    core: SpecClientCore,
    review_id: ReviewId,
    edit: SpecCreationEdit,
)
    ensures
        told(core, #[trigger] core.edit_creation(review_id, edit)),
{
    reveal(SpecClientCore::edit_creation);
    reveal(shown_in);
    reveal(listed);
    reveal(headed);
    broadcast use {group_naming, tells_defaulted};
}

broadcast proof fn tells_select_creation_target(
    core: SpecClientCore,
    review_id: ReviewId,
    id: CreationTargetId,
)
    ensures
        told(core, #[trigger] core.select_creation_target(review_id, id)),
{
    reveal(SpecClientCore::select_creation_target);
    reveal(shown_in);
    reveal(listed);
    reveal(headed);
    broadcast use group_naming;
}

broadcast proof fn tells_add_creation_target(core: SpecClientCore, review_id: ReviewId)
    ensures
        told(core, #[trigger] core.add_creation_target(review_id)),
{
    reveal(SpecClientCore::add_creation_target);
    reveal(shown_in);
    reveal(listed);
    reveal(headed);
    broadcast use {group_naming, tells_defaulted};
}

broadcast proof fn tells_remove_creation_target(core: SpecClientCore, review_id: ReviewId)
    ensures
        told(core, #[trigger] core.remove_creation_target(review_id)),
{
    reveal(SpecClientCore::remove_creation_target);
    reveal(shown_in);
    reveal(listed);
    reveal(headed);
    broadcast use group_naming;
}

broadcast proof fn tells_acted_on_form(core: SpecClientCore, action: SpecAction)
    ensures
        match #[trigger] core.acted_on_form(action) {
            Ok(c) => told(core, c),
            Err(_) => true,
        },
{
    reveal(SpecClientCore::acted_on_form);
    broadcast use {
        group_naming,
        tells_edit_creation,
        tells_select_creation_target,
        tells_add_creation_target,
        tells_remove_creation_target,
    };
}

broadcast proof fn tells_acted_on_creation(core: SpecClientCore, action: SpecAction)
    ensures
        match #[trigger] core.acted_on_creation(action) {
            Ok(c) => told(core, c),
            Err(_) => true,
        },
{
    reveal(SpecClientCore::acted_on_creation);
    broadcast use {
        group_naming,
        tells_start_creation,
        tells_submit_creation,
        tells_reconcile_creation,
        tells_restore_creation,
        tells_acted_on_form,
    };
}

broadcast proof fn tells_acted_on_revisions(core: SpecClientCore, action: SpecAction)
    ensures
        match #[trigger] core.acted_on_revisions(action) {
            Ok(c) => told(core, c),
            Err(_) => true,
        },
{
    reveal(SpecClientCore::acted_on_revisions);
    broadcast use {
        group_naming,
        tells_list_commits,
        tells_step_commit,
        tells_set_scope,
        tells_set_browse_ref,
        tells_open_ref_selector,
        tells_ref_selector_query,
        tells_ref_selector_step,
        tells_select_ref,
        tells_close_ref_selector,
        tells_acted_on_creation,
    };
}

broadcast proof fn tells_acted_on_files(core: SpecClientCore, action: SpecAction)
    ensures
        match #[trigger] core.acted_on_files(action) {
            Ok(c) => told(core, c),
            Err(_) => true,
        },
{
    reveal(SpecClientCore::acted_on_files);
    broadcast use {
        group_naming,
        tells_viewport,
        tells_open_file_at,
        tells_close_file,
        tells_toggle_dir,
        tells_file_search,
        tells_scroll_view,
        tells_toggle_file_collapse,
        tells_collapse_parent,
        tells_collapse_all,
        tells_open_original,
        tells_re_render,
        tells_content_search,
        tells_search_first,
        tells_search_step,
        tells_open_search_result,
        tells_acted_on_revisions,
    };
}

broadcast proof fn tells_acted_on_comments(core: SpecClientCore, action: SpecAction)
    ensures
        match #[trigger] core.acted_on_comments(action) {
            Ok(c) => told(core, c),
            Err(_) => true,
        },
{
    reveal(SpecClientCore::acted_on_comments);
    broadcast use {
        group_naming,
        tells_open_draft,
        tells_draft_submitted,
        tells_draft_discarded,
        tells_reply_opened,
        tells_on_review,
        tells_preview_suggestion,
        tells_apply_suggestion,
        tells_comment_lines,
        tells_comment_file,
        tells_mark_viewed,
        tells_enter_visual,
        tells_leave_visual,
        tells_acted_on_files,
    };
}

broadcast proof fn tells_acted_on_prefs(core: SpecClientCore, action: SpecAction)
    ensures
        match #[trigger] core.acted_on_prefs(action) {
            Ok(c) => told(core, c),
            Err(_) => true,
        },
{
    reveal(SpecClientCore::acted_on_prefs);
    broadcast use {group_naming, tells_apply_prefs, tells_acted_on_comments};
}

broadcast proof fn tells_acted(core: SpecClientCore, action: SpecAction)
    ensures
        match #[trigger] core.acted(action) {
            Ok(c) => told(core, c),
            Err(_) => true,
        },
{
    reveal(SpecClientCore::acted);
    broadcast use {
        group_naming,
        tells_connect,
        tells_disconnect,
        tells_list_workspaces,
        tells_list_reviews,
        tells_create_review,
        tells_open_review,
        tells_leave_review,
        tells_open_reference,
        tells_manage_daemon,
        tells_set_tab,
        tells_set_focus,
        tells_toggle_help,
        tells_set_palette,
        tells_acted_on_prefs,
    };
}

broadcast proof fn tells_cleared(core: SpecClientCore)
    ensures
        told(core, #[trigger] core.cleared()),
{
    reveal(SpecClientCore::cleared);
    broadcast use group_naming;
}

broadcast proof fn tells_turned_away(core: SpecClientCore, error: SpecRpcError)
    ensures
        told(core, #[trigger] core.turned_away(error)),
{
    reveal(SpecClientCore::turned_away);
    reveal(shown_in);
    reveal(listed);
    reveal(headed);
    broadcast use {group_naming, tells_cleared};
}

broadcast proof fn tells_welcomed(core: SpecClientCore)
    ensures
        match #[trigger] core.welcomed() {
            Ok(c) => told(core, c),
            Err(_) => true,
        },
{
    reveal(SpecClientCore::welcomed);
    broadcast use group_naming;
}

broadcast proof fn tells_came_up(core: SpecClientCore, last_seq: EventSeq)
    ensures
        told(core, #[trigger] core.came_up(last_seq)),
{
    reveal(SpecClientCore::came_up);
    reveal(shown_in);
    reveal(listed);
    reveal(headed);
    broadcast use group_naming;
}

broadcast proof fn tells_resent(core: SpecClientCore, pending: Seq<SpecPending>)
    ensures
        told(core, #[trigger] core.resent(pending)),
    decreases pending.len(),
{
    broadcast use group_naming;
    if pending.len() > 0 {
        tells_resent(core, pending.drop_last());
    }
}

broadcast proof fn tells_sent_again(core: SpecClientCore)
    ensures
        told(core, #[trigger] core.sent_again()),
{
    reveal(SpecClientCore::sent_again);
    broadcast use {group_naming, tells_resent};
}

broadcast proof fn tells_all_previewed(core: SpecClientCore, ids: Seq<CommentId>)
    ensures
        told(core, #[trigger] core.all_previewed(ids)),
    decreases ids.len(),
{
    broadcast use {group_naming, tells_preview_suggestion};
    if ids.len() > 0 {
        tells_all_previewed(core, ids.drop_last());
    }
}

broadcast proof fn tells_answer_subscribed(core: SpecClientCore, seq: EventSeq)
    ensures
        match #[trigger] core.answer_subscribed(seq) {
            Ok(c) => told(core, c),
            Err(_) => true,
        },
{
    reveal(SpecClientCore::answer_subscribed);
    broadcast use {
        group_naming,
        tells_came_up,
        tells_sent_again,
        tells_creation_reconnected,
        tells_all_previewed,
    };
}

broadcast proof fn tells_reviews_asked(core: SpecClientCore, workspaces: Seq<SpecWorkspace>)
    ensures
        told(core, #[trigger] core.reviews_asked(workspaces)),
    decreases workspaces.len(),
{
    broadcast use group_naming;
    if workspaces.len() > 0 {
        tells_reviews_asked(core, workspaces.drop_last());
    }
}

broadcast proof fn tells_answer_workspaces(core: SpecClientCore, workspaces: Seq<SpecWorkspace>)
    ensures
        told(core, #[trigger] core.answer_workspaces(workspaces)),
{
    reveal(SpecClientCore::answer_workspaces);
    reveal(shown_in);
    reveal(listed);
    reveal(headed);
    broadcast use {group_naming, tells_reviews_asked};
}

broadcast proof fn tells_answer_reviews(
    core: SpecClientCore,
    workspace_id: WorkspaceId,
    reviews: Seq<SpecReview>,
)
    ensures
        told(core, #[trigger] core.answer_reviews(workspace_id, reviews)),
{
    reveal(SpecClientCore::answer_reviews);
    reveal(shown_in);
    reveal(listed);
    reveal(headed);
    broadcast use group_naming;
}

broadcast proof fn tells_focus_comment(core: SpecClientCore, comment_id: CommentId)
    ensures
        match #[trigger] core.focus_comment(comment_id) {
            Ok(c) => told(core, c),
            Err(_) => true,
        },
{
    reveal(SpecClientCore::focus_comment);
    reveal(shown_in);
    reveal(listed);
    reveal(headed);
    broadcast use {group_naming, tells_reference_error};
}

broadcast proof fn tells_pointed(core: SpecClientCore, reference: SpecReviewReference)
    ensures
        told(core, #[trigger] core.pointed(reference)),
{
    reveal(SpecClientCore::pointed);
    broadcast use {group_naming, tells_reference_error, tells_focus_comment};
}

broadcast proof fn tells_landed_in(core: SpecClientCore, review_id: ReviewId)
    requires
        core.view.draft is None,
        !core.view.pending_refresh,
        core.flow.touched.contains(ViewSection::ReviewList),
        core.flow.touched.contains(ViewSection::Draft),
    ensures
        told(core, #[trigger] core.landed_in(review_id)),
{
    reveal(SpecClientCore::landed_in);
    reveal(SpecClientCore::land_reference);
    reveal(SpecClientCore::closed_review);
    reveal(SpecClientCore::review_closed);
    reveal(SpecClientCore::rebased);
    reveal(shown_in);
    reveal(listed);
    reveal(headed);
    broadcast use {group_naming, tells_pointed, tells_reference_error};
}

broadcast proof fn tells_answer_snapshot(
    core: SpecClientCore,
    id: RequestId,
    review_id: ReviewId,
    snapshot: SpecReviewSnapshot,
)
    ensures
        match #[trigger] core.answer_snapshot(id, review_id, snapshot) {
            Ok(c) => told(core, c),
            Err(_) => true,
        },
{
    reveal(SpecClientCore::answer_snapshot);
    reveal(SpecClientCore::installed);
    reveal(SpecClientCore::closed_review);
    reveal(SpecClientCore::review_closed);
    reveal(SpecClientCore::adopted);
    reveal(SpecClientCore::rebased);
    reveal(shown_in);
    reveal(listed);
    reveal(headed);
    broadcast use {group_naming, trees_keep_the_draft, tells_review_trees, tells_landed_in};
}

broadcast proof fn tells_rescoped(core: SpecClientCore, resolved: Seq<ResolvedTarget>)
    ensures
        told(core, #[trigger] core.rescoped(resolved)),
{
    reveal(SpecClientCore::rescoped);
    reveal(SpecClientCore::rebased);
    reveal(shown_in);
    reveal(listed);
    reveal(headed);
    broadcast use {group_naming, tells_review_trees};
}

broadcast proof fn tells_want_chunks_for(
    core: SpecClientCore,
    render: SpecRenderKey,
    content: SpecRenderContent,
)
    ensures
        told(core, #[trigger] core.want_chunks_for(render, content)),
{
    reveal(SpecClientCore::want_chunks_for);
    broadcast use {group_naming, tells_want_viewport_chunks};
}

broadcast proof fn tells_prefetched(
    core: SpecClientCore,
    review_id: ReviewId,
    render: SpecRenderKey,
)
    ensures
        told(core, #[trigger] core.prefetched(review_id, render)),
{
    reveal(SpecClientCore::prefetched);
    broadcast use {group_naming, tells_want_chunks_for};
}

broadcast proof fn tells_all_prefetched(
    core: SpecClientCore,
    review_id: ReviewId,
    renders: Seq<SpecRenderKey>,
)
    ensures
        told(core, #[trigger] core.all_prefetched(review_id, renders)),
    decreases renders.len(),
{
    broadcast use {group_naming, tells_prefetched};
    if renders.len() > 0 {
        tells_all_prefetched(core, review_id, renders.drop_last());
    }
}

broadcast proof fn tells_auto_open_first(core: SpecClientCore)
    ensures
        told(core, #[trigger] core.auto_open_first()),
{
    reveal(SpecClientCore::auto_open_first);
    broadcast use {group_naming, tells_viewport};
}

broadcast proof fn tells_review_files(
    core: SpecClientCore,
    review_id: ReviewId,
    files: Seq<SpecFileChange>,
)
    ensures
        told(core, #[trigger] core.review_files(review_id, files)),
{
    reveal(SpecClientCore::review_files);
    reveal(shown_in);
    reveal(listed);
    reveal(headed);
    broadcast use {group_naming, tells_retained, tells_all_prefetched, tells_auto_open_first};
}

broadcast proof fn tells_answer_files(
    core: SpecClientCore,
    review_id: ReviewId,
    files: Seq<SpecFileChange>,
    resolved: Seq<ResolvedTarget>,
)
    ensures
        told(core, #[trigger] core.answer_files(review_id, files, resolved)),
{
    reveal(SpecClientCore::answer_files);
    broadcast use {group_naming, tells_rescoped, tells_review_files};
}

broadcast proof fn tells_stepped_into(core: SpecClientCore, repo_id: RepoId)
    ensures
        told(core, #[trigger] core.stepped_into(repo_id)),
{
    reveal(SpecClientCore::stepped_into);
    broadcast use {group_naming, tells_apply_scope};
}

broadcast proof fn tells_answer_commits(
    core: SpecClientCore,
    repo_id: RepoId,
    commits: Seq<SpecCommitInfo>,
)
    ensures
        told(core, #[trigger] core.answer_commits(repo_id, commits)),
{
    reveal(SpecClientCore::answer_commits);
    broadcast use {group_naming, tells_stepped_into};
}

broadcast proof fn tells_answer_refs(
    core: SpecClientCore,
    id: RequestId,
    repo_id: RepoId,
    of: RepoId,
    refs: Seq<SpecRefCandidate>,
)
    ensures
        match #[trigger] core.answer_refs(id, repo_id, of, refs) {
            Ok(c) => told(core, c),
            Err(_) => true,
        },
{
    reveal(SpecClientCore::answer_refs);
    reveal(SpecClientCore::installed);
    reveal(SpecClientCore::closed_review);
    reveal(SpecClientCore::review_closed);
    reveal(SpecClientCore::adopted);
    reveal(SpecClientCore::rebased);
    reveal(shown_in);
    reveal(listed);
    reveal(headed);
    broadcast use group_naming;
}

broadcast proof fn tells_answer_search(
    core: SpecClientCore,
    id: RequestId,
    hits: Seq<SpecContentHit>,
    truncated: bool,
)
    ensures
        told(core, #[trigger] core.answer_search(id, hits, truncated)),
{
    reveal(SpecClientCore::answer_search);
    reveal(shown_in);
    reveal(listed);
    reveal(headed);
    broadcast use group_naming;
}

broadcast proof fn tells_browse_refused(
    core: SpecClientCore,
    message: Seq<char>,
    status: SpecRefSelectorStatus,
    repo_only: bool,
)
    ensures
        told(core, #[trigger] core.browse_refused(message, status, repo_only)),
{
    reveal(SpecClientCore::browse_refused);
    broadcast use group_naming;
}

broadcast proof fn tells_stocked(
    core: SpecClientCore,
    key: SpecCacheKey,
    value: SpecCacheValue,
    size: Bytes,
    via: Arrival,
)
    ensures
        told(core, #[trigger] core.stocked(key, value, size, via)),
{
    reveal(SpecClientCore::stocked);
    broadcast use group_naming;
}

broadcast proof fn tells_listed(core: SpecClientCore, render: SpecRenderKey)
    ensures
        told(core, #[trigger] core.listed(render)),
{
    reveal(SpecClientCore::listed);
    reveal(shown_in);
    reveal(listed);
    reveal(headed);
    broadcast use group_naming;
}

broadcast proof fn tells_arrived(
    core: SpecClientCore,
    key: SpecCacheKey,
    value: SpecCacheValue,
    size: Bytes,
    via: Arrival,
)
    ensures
        told(core, #[trigger] core.arrived(key, value, size, via)),
{
    reveal(SpecClientCore::arrived);
    broadcast use {group_naming, tells_stocked, tells_listed, tells_want_chunks_for};
}

broadcast proof fn tells_browse_committed(
    core: SpecClientCore,
    target: SpecBrowseTarget,
    snapshot: SpecTreeSnapshot,
    size: Bytes,
)
    ensures
        told(core, #[trigger] core.browse_committed(target, snapshot, size)),
{
    reveal(SpecClientCore::browse_committed);
    reveal(shown_in);
    reveal(listed);
    reveal(headed);
    broadcast use {group_naming, tells_arrived, tells_review_trees};
}

broadcast proof fn tells_browse_answer(
    core: SpecClientCore,
    id: RequestId,
    repo_id: RepoId,
    snapshot: SpecTreeSnapshot,
    size: Bytes,
)
    ensures
        match #[trigger] core.browse_answer(id, repo_id, snapshot, size) {
            Ok(c) => told(core, c),
            Err(_) => true,
        },
{
    reveal(SpecClientCore::browse_answer);
    broadcast use {group_naming, tells_browse_refused, tells_browse_committed};
}

broadcast proof fn tells_answer_tree(
    core: SpecClientCore,
    id: RequestId,
    tree: TreeKey,
    snapshot: SpecTreeSnapshot,
    size: Bytes,
)
    ensures
        match #[trigger] core.answer_tree(id, tree, snapshot, size) {
            Ok(c) => told(core, c),
            Err(_) => true,
        },
{
    reveal(SpecClientCore::answer_tree);
    broadcast use {group_naming, tells_arrived};
}

broadcast proof fn tells_answer_chunk(
    core: SpecClientCore,
    id: RequestId,
    render: SpecRenderKey,
    index: ChunkIndex,
    chunk: SpecRenderChunk,
    size: Bytes,
)
    ensures
        match #[trigger] core.answer_chunk(id, render, index, chunk, size) {
            Ok(c) => told(core, c),
            Err(_) => true,
        },
{
    reveal(SpecClientCore::answer_chunk);
    broadcast use {group_naming, tells_arrived};
}

broadcast proof fn tells_answer_committed(
    core: SpecClientCore,
    client_seq: ClientSeq,
    event: SpecEvent,
)
    ensures
        match #[trigger] core.answer_committed(client_seq, event) {
            Ok(c) => told(core, c),
            Err(_) => true,
        },
{
    reveal(SpecClientCore::answer_committed);
    reveal(SpecClientCore::rebased);
    reveal(shown_in);
    reveal(listed);
    reveal(headed);
    broadcast use {group_naming, tells_applied};
}

broadcast proof fn tells_suggestion_settled(
    core: SpecClientCore,
    request_id: RequestId,
    review_id: ReviewId,
    id: CommentId,
)
    ensures
        told(core, #[trigger] core.suggestion_settled(request_id, review_id, id)),
{
    reveal(SpecClientCore::suggestion_settled);
    broadcast use group_naming;
}

broadcast proof fn tells_suggestion_applied(
    core: SpecClientCore,
    request_id: RequestId,
    review_id: ReviewId,
    id: CommentId,
    event: SpecEvent,
)
    ensures
        match #[trigger] core.suggestion_applied(request_id, review_id, id, event) {
            Ok(c) => told(core, c),
            Err(_) => true,
        },
{
    reveal(SpecClientCore::suggestion_applied);
    broadcast use {group_naming, tells_suggestion_settled, tells_applied};
}

broadcast proof fn tells_receipt_seen(
    core: SpecClientCore,
    id: CommentId,
    outcome: SuggestionOutcome,
)
    ensures
        told(core, #[trigger] core.receipt_seen(id, outcome)),
{
    reveal(SpecClientCore::receipt_seen);
    reveal(SpecClientCore::rebased);
    reveal(shown_in);
    reveal(listed);
    reveal(headed);
    broadcast use group_naming;
}

broadcast proof fn tells_suggestion_previewed(
    core: SpecClientCore,
    request_id: RequestId,
    review_id: ReviewId,
    id: CommentId,
    preview: SpecSuggestionPreview,
)
    ensures
        match #[trigger] core.suggestion_previewed(request_id, review_id, id, preview) {
            Ok(c) => told(core, c),
            Err(_) => true,
        },
{
    reveal(SpecClientCore::suggestion_previewed);
    broadcast use {group_naming, tells_receipt_seen};
}

broadcast proof fn tells_creation_default_answer(
    core: SpecClientCore,
    review_id: ReviewId,
    repo_id: RepoId,
    state: SpecCreationDefaultState,
)
    ensures
        told(core, #[trigger] core.creation_default_answer(review_id, repo_id, state)),
{
    reveal(SpecClientCore::creation_default_answer);
    reveal(shown_in);
    reveal(listed);
    reveal(headed);
    broadcast use group_naming;
}

broadcast proof fn tells_content_response_to(
    core: SpecClientCore,
    id: RequestId,
    waiting: SpecInFlight,
    response: SpecResponse,
    size: Bytes,
)
    ensures
        match #[trigger] core.content_response_to(id, waiting, response, size) {
            Ok(c) => told(core, c),
            Err(_) => true,
        },
{
    reveal(SpecClientCore::content_response_to);
    broadcast use {
        group_naming,
        tells_browse_answer,
        tells_answer_tree,
        tells_answer_chunk,
        tells_answer_committed,
        tells_suggestion_applied,
        tells_suggestion_previewed,
        tells_creation_default_answer,
        tells_creation_found,
    };
}

broadcast proof fn tells_response_to(
    core: SpecClientCore,
    id: RequestId,
    waiting: SpecInFlight,
    response: SpecResponse,
    size: Bytes,
)
    ensures
        match #[trigger] core.response_to(id, waiting, response, size) {
            Ok(c) => told(core, c),
            Err(_) => true,
        },
{
    reveal(SpecClientCore::response_to);
    broadcast use {
        group_naming,
        tells_answer_subscribed,
        tells_answer_workspaces,
        tells_answer_reviews,
        tells_answer_snapshot,
        tells_answer_files,
        tells_answer_commits,
        tells_answer_refs,
        tells_answer_search,
        tells_content_response_to,
    };
}

broadcast proof fn tells_request_done(core: SpecClientCore, id: RequestId)
    ensures
        told(core, #[trigger] core.request_done(id)),
{
    reveal(SpecClientCore::request_done);
    broadcast use group_naming;
}

broadcast proof fn tells_responded(
    core: SpecClientCore,
    id: RequestId,
    response: SpecResponse,
    size: Bytes,
)
    ensures
        match #[trigger] core.responded(id, response, size) {
            Ok(c) => told(core, c),
            Err(_) => true,
        },
{
    reveal(SpecClientCore::responded);
    broadcast use {group_naming, tells_response_to, tells_request_done};
}

broadcast proof fn tells_stream_snapshot(
    core: SpecClientCore,
    id: RequestId,
    review_id: ReviewId,
    snapshot: SpecReviewSnapshot,
)
    ensures
        match #[trigger] core.stream_snapshot(id, review_id, snapshot) {
            Ok(c) => told(core, c),
            Err(_) => true,
        },
{
    reveal(SpecClientCore::stream_snapshot);
    reveal(SpecClientCore::installed);
    reveal(SpecClientCore::closed_review);
    reveal(SpecClientCore::review_closed);
    reveal(SpecClientCore::adopted);
    reveal(SpecClientCore::rebased);
    reveal(shown_in);
    reveal(listed);
    reveal(headed);
    broadcast use {group_naming, trees_keep_the_draft, tells_review_trees, tells_landed_in};
}

broadcast proof fn tells_opening_chunk(
    core: SpecClientCore,
    id: RequestId,
    repo_id: RepoId,
    path: SpecRepoPath,
    chunk: SpecRenderChunk,
    size: Bytes,
)
    ensures
        match #[trigger] core.opening_chunk(id, repo_id, path, chunk, size) {
            Ok(c) => told(core, c),
            Err(_) => true,
        },
{
    reveal(SpecClientCore::opening_chunk);
    broadcast use {group_naming, tells_arrived};
}

broadcast proof fn tells_stream_chunk(
    core: SpecClientCore,
    id: RequestId,
    render: SpecRenderKey,
    stop_after: ChunkIndex,
    chunk: SpecRenderChunk,
    size: Bytes,
)
    ensures
        told(core, #[trigger] core.stream_chunk(id, render, stop_after, chunk, size)),
{
    reveal(SpecClientCore::stream_chunk);
    broadcast use {group_naming, tells_arrived};
}

broadcast proof fn tells_streamed(
    core: SpecClientCore,
    id: RequestId,
    item: SpecStreamItem,
    size: Bytes,
)
    ensures
        match #[trigger] core.streamed(id, item, size) {
            Ok(c) => told(core, c),
            Err(_) => true,
        },
{
    reveal(SpecClientCore::streamed);
    broadcast use {
        group_naming,
        tells_stream_snapshot,
        tells_arrived,
        tells_opening_chunk,
        tells_stream_chunk,
    };
}

broadcast proof fn tells_opened_stream(core: SpecClientCore)
    ensures
        told(core, #[trigger] core.opened_stream()),
{
    reveal(SpecClientCore::opened_stream);
    broadcast use {group_naming, tells_auto_open_first};
}

broadcast proof fn tells_content_failed(core: SpecClientCore, key: SpecCacheKey)
    ensures
        told(core, #[trigger] core.content_failed(key)),
{
    reveal(SpecClientCore::content_failed);
    broadcast use group_naming;
}

broadcast proof fn tells_stream_ended(core: SpecClientCore, id: RequestId)
    ensures
        match #[trigger] core.stream_ended(id) {
            Ok(c) => told(core, c),
            Err(_) => true,
        },
{
    reveal(SpecClientCore::stream_ended);
    broadcast use {group_naming, tells_request_done, tells_opened_stream, tells_content_failed};
}

broadcast proof fn tells_with_last_error(core: SpecClientCore, error: SpecRpcError)
    ensures
        told(core, #[trigger] core.with_last_error(error)),
{
    reveal(SpecClientCore::with_last_error);
    reveal(shown_in);
    reveal(listed);
    reveal(headed);
    broadcast use group_naming;
}

broadcast proof fn tells_with_selector_status(core: SpecClientCore, status: SpecRefSelectorStatus)
    ensures
        told(core, #[trigger] core.with_selector_status(status)),
{
    reveal(SpecClientCore::with_selector_status);
    broadcast use group_naming;
}

broadcast proof fn tells_mutation_refused(
    core: SpecClientCore,
    client_seq: ClientSeq,
    error: SpecRpcError,
)
    ensures
        told(core, #[trigger] core.mutation_refused(client_seq, error)),
{
    reveal(SpecClientCore::mutation_refused);
    reveal(SpecClientCore::rebased);
    reveal(shown_in);
    reveal(listed);
    reveal(headed);
    broadcast use {group_naming, tells_with_selector_status};
}

broadcast proof fn tells_browse_failed(core: SpecClientCore, id: RequestId, error: SpecRpcError)
    ensures
        told(core, #[trigger] core.browse_failed(id, error)),
{
    reveal(SpecClientCore::browse_failed);
    broadcast use {group_naming, tells_browse_refused};
}

broadcast proof fn tells_reference_dropped(core: SpecClientCore, review_id: ReviewId)
    ensures
        told(core, #[trigger] core.reference_dropped(review_id)),
{
    reveal(SpecClientCore::reference_dropped);
    broadcast use group_naming;
}

broadcast proof fn tells_creation_write_failed(
    core: SpecClientCore,
    review_id: ReviewId,
    error: SpecRpcError,
)
    ensures
        told(core, #[trigger] core.creation_write_failed(review_id, error)),
{
    reveal(SpecClientCore::creation_write_failed);
    reveal(shown_in);
    reveal(listed);
    reveal(headed);
    broadcast use group_naming;
}

broadcast proof fn tells_creation_lookup_failed(
    core: SpecClientCore,
    review_id: ReviewId,
    error: SpecRpcError,
)
    ensures
        told(core, #[trigger] core.creation_lookup_failed(review_id, error)),
{
    reveal(SpecClientCore::creation_lookup_failed);
    reveal(shown_in);
    reveal(listed);
    reveal(headed);
    broadcast use {group_naming, tells_send_creation};
}

broadcast proof fn tells_creation_failure_checked(
    core: SpecClientCore,
    review_id: ReviewId,
    original: SpecRpcError,
    lookup: SpecRpcError,
)
    ensures
        told(core, #[trigger] core.creation_failure_checked(review_id, original, lookup)),
{
    reveal(SpecClientCore::creation_failure_checked);
    reveal(shown_in);
    reveal(listed);
    reveal(headed);
    broadcast use {group_naming, tells_creation_lookup_failed};
}

broadcast proof fn tells_suggestion_failed(
    core: SpecClientCore,
    request_id: RequestId,
    review_id: ReviewId,
    id: CommentId,
    error: SpecRpcError,
)
    ensures
        told(core, #[trigger] core.suggestion_failed(request_id, review_id, id, error)),
{
    reveal(SpecClientCore::suggestion_failed);
    broadcast use group_naming;
}

broadcast proof fn tells_failure_of(
    core: SpecClientCore,
    id: RequestId,
    waiting: SpecInFlight,
    error: SpecRpcError,
)
    ensures
        told(core, #[trigger] core.failure_of(id, waiting, error)),
{
    reveal(SpecClientCore::failure_of);
    reveal(shown_in);
    reveal(listed);
    reveal(headed);
    broadcast use {
        group_naming,
        tells_mutation_refused,
        tells_with_selector_status,
        tells_browse_failed,
        tells_reference_dropped,
        tells_creation_default_answer,
        tells_creation_write_failed,
        tells_creation_failure_checked,
        tells_creation_lookup_failed,
        tells_suggestion_failed,
    };
}

broadcast proof fn tells_content_lost(core: SpecClientCore, waiting: SpecInFlight)
    ensures
        told(core, #[trigger] core.content_lost(waiting)),
{
    reveal(SpecClientCore::content_lost);
    broadcast use {group_naming, tells_content_failed};
}

broadcast proof fn tells_request_failed(core: SpecClientCore, id: RequestId, error: SpecRpcError)
    ensures
        match #[trigger] core.request_failed(id, error) {
            Ok(c) => told(core, c),
            Err(_) => true,
        },
{
    reveal(SpecClientCore::request_failed);
    broadcast use {
        group_naming,
        tells_request_done,
        tells_with_last_error,
        tells_failure_of,
        tells_content_lost,
    };
}

broadcast proof fn tells_event_seen(core: SpecClientCore, event: SpecEvent)
    ensures
        match #[trigger] core.event_seen(event) {
            Ok(c) => told(core, c),
            Err(_) => true,
        },
{
    reveal(SpecClientCore::event_seen);
    broadcast use {group_naming, tells_applied};
}

broadcast proof fn tells_tree_delta(core: SpecClientCore, delta: SpecTreeDelta, size: Bytes)
    ensures
        told(core, #[trigger] core.tree_delta(delta, size)),
{
    reveal(SpecClientCore::tree_delta);
    reveal(shown_in);
    reveal(listed);
    reveal(headed);
    broadcast use {group_naming, tells_arrived};
}

broadcast proof fn tells_tree_moved(
    core: SpecClientCore,
    delta: crate::protocol::SpecTreeDelta,
    size: Bytes,
)
    ensures
        match #[trigger] core.tree_moved(delta, size) {
            Ok(c) => told(core, c),
            Err(_) => true,
        },
{
    reveal(SpecClientCore::tree_moved);
    broadcast use {group_naming, tells_tree_delta};
}

broadcast proof fn tells_served(core: SpecClientCore, msg: SpecServerMsg)
    ensures
        told(core, (#[trigger] core.served(msg)).0),
{
    reveal(SpecClientCore::served);
    broadcast use {
        group_naming,
        tells_turned_away,
        tells_welcomed,
        tells_responded,
        tells_streamed,
        tells_stream_ended,
        tells_request_failed,
        tells_event_seen,
        tells_tree_moved,
    };
}

broadcast proof fn tells_greeted(core: SpecClientCore)
    ensures
        told(core, #[trigger] core.greeted()),
{
    reveal(SpecClientCore::greeted);
    broadcast use group_naming;
}

broadcast proof fn tells_restart_disconnected(core: SpecClientCore)
    ensures
        told(core, #[trigger] core.restart_disconnected()),
{
    reveal(SpecClientCore::restart_disconnected);
    reveal(shown_in);
    reveal(listed);
    reveal(headed);
    broadcast use group_naming;
}

broadcast proof fn tells_selector_lost(core: SpecClientCore)
    ensures
        told(core, #[trigger] core.selector_lost()),
{
    reveal(SpecClientCore::selector_lost);
    broadcast use group_naming;
}

broadcast proof fn tells_browse_disconnected(core: SpecClientCore)
    ensures
        told(core, #[trigger] core.browse_disconnected()),
{
    reveal(SpecClientCore::browse_disconnected);
    broadcast use {group_naming, tells_browse_refused};
}

broadcast proof fn tells_went_down(core: SpecClientCore)
    ensures
        told(core, #[trigger] core.went_down()),
{
    reveal(SpecClientCore::went_down);
    broadcast use {
        group_naming,
        tells_cleared,
        tells_restart_disconnected,
        tells_selector_lost,
        tells_creation_lost,
        tells_browse_disconnected,
    };
}

broadcast proof fn tells_transported(core: SpecClientCore, event: TransportEvent)
    ensures
        told(core, #[trigger] core.transported(event)),
{
    reveal(SpecClientCore::transported);
    broadcast use {group_naming, tells_greeted, tells_went_down};
}

broadcast proof fn tells_prefs_stored(core: SpecClientCore, value: SpecStored)
    ensures
        told(core, #[trigger] core.prefs_stored(value)),
{
    reveal(SpecClientCore::prefs_stored);
    broadcast use {group_naming, tells_apply_prefs};
}

broadcast proof fn tells_keymap_stored(core: SpecClientCore, value: SpecStored)
    ensures
        told(core, #[trigger] core.keymap_stored(value)),
{
    reveal(SpecClientCore::keymap_stored);
    broadcast use group_naming;
}

broadcast proof fn tells_load_answered(
    core: SpecClientCore,
    key: SpecCacheKey,
    fetch: SpecFetch,
    value: SpecStored,
)
    ensures
        told(core, #[trigger] core.load_answered(key, fetch, value)),
{
    reveal(SpecClientCore::load_answered);
    broadcast use {group_naming, tells_arrived};
}

broadcast proof fn tells_stored(core: SpecClientCore, key: SpecCacheKey, value: SpecStored)
    ensures
        match #[trigger] core.stored(key, value) {
            Ok(c) => told(core, c),
            Err(_) => true,
        },
{
    reveal(SpecClientCore::stored);
    broadcast use {group_naming, tells_load_answered};
}

broadcast proof fn tells_restart_overdue(core: SpecClientCore, operation: SpecUpgradeOperation)
    ensures
        told(core, #[trigger] core.restart_overdue(operation)),
{
    reveal(SpecClientCore::restart_overdue);
    reveal(shown_in);
    reveal(listed);
    reveal(headed);
    broadcast use {group_naming, tells_cleared};
}

broadcast proof fn tells_restart_attempt(core: SpecClientCore)
    ensures
        told(core, #[trigger] core.restart_attempt()),
{
    reveal(SpecClientCore::restart_attempt);
    broadcast use group_naming;
}

broadcast proof fn tells_restart_tick(core: SpecClientCore)
    ensures
        told(core, #[trigger] core.restart_tick()),
{
    reveal(SpecClientCore::restart_tick);
    broadcast use {group_naming, tells_restart_overdue, tells_restart_attempt};
}

broadcast proof fn tells_ticked(core: SpecClientCore, ms: u64)
    ensures
        told(core, #[trigger] core.ticked(ms)),
{
    reveal(SpecClientCore::ticked);
    broadcast use {group_naming, tells_restart_tick};
}

broadcast proof fn tells_continued(core: SpecClientCore, chord: KeyChord)
    ensures
        told(core, #[trigger] core.continued(chord)),
{
    reveal(SpecClientCore::continued);
    broadcast use group_naming;
}

broadcast proof fn tells_ran(core: SpecClientCore, target: SpecResolved)
    ensures
        match #[trigger] core.ran(target) {
            Ok(c) => told(core, c),
            Err(_) => true,
        },
{
    reveal(SpecClientCore::ran);
    broadcast use {group_naming, tells_acted};
}

broadcast proof fn tells_keyed(core: SpecClientCore, chord: KeyChord, target: SpecResolved)
    ensures
        told(core, (#[trigger] core.keyed(chord, target)).0),
{
    reveal(SpecClientCore::keyed);
    broadcast use {group_naming, tells_continued, tells_ran};
}

broadcast proof fn tells_judged(core: SpecClientCore, last_key: LastKey, refused: bool)
    requires
        !refused,
    ensures
        told(core, #[trigger] core.judged(last_key, refused)),
{
    reveal(SpecClientCore::judged);
    reveal(shown_in);
    reveal(listed);
    reveal(headed);
    broadcast use group_naming;
}

broadcast proof fn tells_pressed(core: SpecClientCore, chord: KeyChord, target: SpecResolved)
    ensures
        (#[trigger] core.pressed(chord, target)).1 is None ==> told(core, core.pressed(chord, target).0),
{
    reveal(SpecClientCore::pressed);
    broadcast use {group_naming, tells_keyed, tells_judged};
}

broadcast proof fn tells_restart_notice(core: SpecClientCore, operation: SpecUpgradeOperation)
    ensures
        told(core, #[trigger] core.restart_notice(operation)),
{
    reveal(SpecClientCore::restart_notice);
    reveal(shown_in);
    reveal(listed);
    reveal(headed);
    broadcast use group_naming;
}

broadcast proof fn tells_managed_daemon(
    core: SpecClientCore,
    id: ManagementRequestId,
    reply: SpecManagementReply,
)
    ensures
        told(core, #[trigger] core.managed_daemon(id, reply)),
{
    reveal(SpecClientCore::managed_daemon);
    reveal(shown_in);
    reveal(listed);
    reveal(headed);
    broadcast use group_naming;
}

broadcast proof fn tells_taken(core: SpecClientCore, input: SpecInput)
    ensures
        (#[trigger] core.taken(input)).1 is None ==> told(core, core.taken(input).0),
{
    reveal(SpecClientCore::taken);
    broadcast use {
        group_naming,
        tells_acted,
        tells_served,
        tells_transported,
        tells_prefs_stored,
        tells_keymap_stored,
        tells_stored,
        tells_ticked,
        tells_pressed,
        tells_ran,
        tells_restart_notice,
        tells_managed_daemon,
    };
}

broadcast proof fn tells_derived_selector(core: SpecClientCore)
    ensures
        told(core, #[trigger] core.derived_selector()),
{
    reveal(SpecClientCore::derived_selector);
    reveal(shown_in);
    reveal(listed);
    reveal(headed);
    broadcast use group_naming;
}

broadcast proof fn tells_with_tree(core: SpecClientCore, tree: SpecTreeView)
    ensures
        told(core, #[trigger] core.with_tree(tree)),
{
    reveal(SpecClientCore::with_tree);
    reveal(shown_in);
    reveal(listed);
    reveal(headed);
    broadcast use group_naming;
}

broadcast proof fn tells_with_progress(core: SpecClientCore, progress: Progress)
    ensures
        told(core, #[trigger] core.with_progress(progress)),
{
    reveal(SpecClientCore::with_progress);
    reveal(shown_in);
    reveal(listed);
    reveal(headed);
    broadcast use group_naming;
}

broadcast proof fn tells_followed(core: SpecClientCore, from: u32, to: u32)
    ensures
        told(core, #[trigger] core.followed(from, to)),
{
    reveal(SpecClientCore::followed);
    reveal(shown_in);
    reveal(listed);
    reveal(headed);
    broadcast use group_naming;
}

broadcast proof fn tells_realigned(core: SpecClientCore)
    ensures
        told(core, #[trigger] core.realigned()),
{
    reveal(SpecClientCore::realigned);
    broadcast use {group_naming, tells_followed};
}

broadcast proof fn tells_derived_diffs(core: SpecClientCore)
    ensures
        told(core, #[trigger] core.derived_diffs()),
{
    reveal(SpecClientCore::derived_diffs);
    reveal(shown_in);
    reveal(listed);
    reveal(headed);
    broadcast use group_naming;
}

broadcast proof fn tells_derived_requests(core: SpecClientCore)
    ensures
        told(core, #[trigger] core.derived_requests()),
{
    reveal(SpecClientCore::derived_requests);
    reveal(shown_in);
    reveal(listed);
    reveal(headed);
    broadcast use group_naming;
}

broadcast proof fn tells_with_conversation(core: SpecClientCore, conversation: Seq<SpecThreadView>)
    ensures
        told(core, #[trigger] core.with_conversation(conversation)),
{
    reveal(SpecClientCore::with_conversation);
    reveal(shown_in);
    reveal(listed);
    reveal(headed);
    broadcast use group_naming;
}

broadcast proof fn tells_derived_threads(core: SpecClientCore)
    ensures
        told(core, #[trigger] core.derived_threads()),
{
    reveal(SpecClientCore::derived_threads);
    reveal(shown_in);
    reveal(listed);
    reveal(headed);
    broadcast use {group_naming, tells_with_conversation};
}

broadcast proof fn tells_derived_stepper(core: SpecClientCore)
    ensures
        told(core, #[trigger] core.derived_stepper()),
{
    reveal(SpecClientCore::derived_stepper);
    reveal(shown_in);
    reveal(listed);
    reveal(headed);
    broadcast use group_naming;
}

broadcast proof fn tells_derived_scope(core: SpecClientCore)
    ensures
        told(core, #[trigger] core.derived_scope()),
{
    reveal(SpecClientCore::derived_scope);
    reveal(shown_in);
    reveal(listed);
    reveal(headed);
    broadcast use group_naming;
}

broadcast proof fn tells_derived_browse(core: SpecClientCore)
    ensures
        told(core, #[trigger] core.derived_browse()),
{
    reveal(SpecClientCore::derived_browse);
    reveal(shown_in);
    reveal(listed);
    reveal(headed);
    broadcast use group_naming;
}

broadcast proof fn tells_derived_home(core: SpecClientCore)
    ensures
        told(core, #[trigger] core.derived_home()),
{
    reveal(SpecClientCore::derived_home);
    reveal(shown_in);
    reveal(listed);
    reveal(headed);
    broadcast use group_naming;
}

broadcast proof fn tells_derived_review(core: SpecClientCore)
    ensures
        told(core, #[trigger] core.derived_review()),
{
    reveal(SpecClientCore::derived_review);
    broadcast use {
        group_naming,
        tells_derived_selector,
        tells_with_tree,
        tells_with_progress,
        tells_realigned,
        tells_derived_diffs,
        tells_derived_requests,
        tells_derived_threads,
        tells_derived_stepper,
        tells_derived_scope,
        tells_derived_home,
    };
}

broadcast proof fn tells_derived_focus(core: SpecClientCore)
    ensures
        told(core, #[trigger] core.derived_focus()),
{
    reveal(SpecClientCore::derived_focus);
    reveal(shown_in);
    reveal(listed);
    reveal(headed);
    broadcast use group_naming;
}

broadcast proof fn tells_derived_target(core: SpecClientCore)
    ensures
        told(core, #[trigger] core.derived_target()),
{
    reveal(SpecClientCore::derived_target);
    reveal(shown_in);
    reveal(listed);
    reveal(headed);
    broadcast use group_naming;
}

broadcast proof fn tells_derived_reference(core: SpecClientCore)
    ensures
        told(core, #[trigger] core.derived_reference()),
{
    reveal(SpecClientCore::derived_reference);
    reveal(shown_in);
    reveal(listed);
    reveal(headed);
    broadcast use group_naming;
}

broadcast proof fn tells_derived_visual(core: SpecClientCore)
    ensures
        told(core, #[trigger] core.derived_visual()),
{
    reveal(SpecClientCore::derived_visual);
    reveal(shown_in);
    reveal(listed);
    reveal(headed);
    broadcast use group_naming;
}

broadcast proof fn tells_derived_place(core: SpecClientCore)
    ensures
        told(core, #[trigger] core.derived_place()),
{
    reveal(SpecClientCore::derived_place);
    broadcast use {
        group_naming,
        tells_derived_focus,
        tells_derived_browse,
        tells_derived_target,
        tells_derived_reference,
        tells_derived_visual,
    };
}

broadcast proof fn tells_derived_pending_keys(core: SpecClientCore)
    ensures
        told(core, #[trigger] core.derived_pending_keys()),
{
    reveal(SpecClientCore::derived_pending_keys);
    reveal(shown_in);
    reveal(listed);
    reveal(headed);
    broadcast use group_naming;
}

broadcast proof fn tells_derived_pending_label(core: SpecClientCore)
    ensures
        told(core, #[trigger] core.derived_pending_label()),
{
    reveal(SpecClientCore::derived_pending_label);
    reveal(shown_in);
    reveal(listed);
    reveal(headed);
    broadcast use group_naming;
}

broadcast proof fn tells_derived_mode(core: SpecClientCore)
    ensures
        told(core, #[trigger] core.derived_mode()),
{
    reveal(SpecClientCore::derived_mode);
    reveal(shown_in);
    reveal(listed);
    reveal(headed);
    broadcast use group_naming;
}

broadcast proof fn tells_derived_hints(core: SpecClientCore)
    ensures
        told(core, #[trigger] core.derived_hints()),
{
    reveal(SpecClientCore::derived_hints);
    reveal(shown_in);
    reveal(listed);
    reveal(headed);
    broadcast use group_naming;
}

broadcast proof fn tells_derived_chrome(core: SpecClientCore)
    ensures
        told(core, #[trigger] core.derived_chrome()),
{
    reveal(SpecClientCore::derived_chrome);
    reveal(shown_in);
    reveal(listed);
    reveal(headed);
    broadcast use group_naming;
}

broadcast proof fn tells_derived_bindings(core: SpecClientCore)
    ensures
        told(core, #[trigger] core.derived_bindings()),
{
    reveal(SpecClientCore::derived_bindings);
    reveal(shown_in);
    reveal(listed);
    reveal(headed);
    broadcast use group_naming;
}

broadcast proof fn tells_derived_last_key(core: SpecClientCore)
    ensures
        told(core, #[trigger] core.derived_last_key()),
{
    reveal(SpecClientCore::derived_last_key);
    reveal(shown_in);
    reveal(listed);
    reveal(headed);
    broadcast use group_naming;
}

broadcast proof fn tells_derived_leader(core: SpecClientCore)
    ensures
        told(core, #[trigger] core.derived_leader()),
{
    reveal(SpecClientCore::derived_leader);
    reveal(shown_in);
    reveal(listed);
    reveal(headed);
    broadcast use group_naming;
}

broadcast proof fn tells_derived_help(core: SpecClientCore)
    ensures
        told(core, #[trigger] core.derived_help()),
{
    reveal(SpecClientCore::derived_help);
    reveal(shown_in);
    reveal(listed);
    reveal(headed);
    broadcast use group_naming;
}

broadcast proof fn tells_derived_keys(core: SpecClientCore)
    ensures
        told(core, #[trigger] core.derived_keys()),
{
    reveal(SpecClientCore::derived_keys);
    broadcast use {
        group_naming,
        tells_derived_pending_keys,
        tells_derived_pending_label,
        tells_derived_mode,
        tells_derived_hints,
        tells_derived_chrome,
        tells_derived_bindings,
        tells_derived_last_key,
        tells_derived_leader,
        tells_derived_help,
    };
}

broadcast proof fn tells_derived(core: SpecClientCore)
    ensures
        told(core, #[trigger] core.derived()),
{
    reveal(SpecClientCore::derived);
    broadcast use {group_naming, tells_derived_review, tells_derived_place, tells_derived_keys};
}

/// A section that an applied input changes is named in the render it asks
/// for. The connection and the focus are left out: they are also reset where
/// no render names them. Searches that close with a review are closed
/// where the lists of reviews and the draft are named.
pub proof fn sections_that_change_are_named(core: SpecClientCore, input: SpecInput, section: ViewSection)
    requires
        core.idle(),
        core.handled(input).1 is Ok,
        !(section is Connection || section is Focus),
        section is ReviewList ==> core.sound(),
        core.handled(input).0.view.patch(section) != core.view.patch(section),
    ensures
        ({
            let effects = core.handled(input).1->Ok_0;
            &&& effects.len() > 0
            &&& effects.last() matches SpecEffect::Render(delta) && (delta.sections.contains(section) || {
                &&& section is Search
                &&& searches_closed(core.handled(input).0.view)
                &&& delta.sections.contains(ViewSection::ReviewList)
                &&& delta.sections.contains(ViewSection::Draft)
            })
        }),
{
    reveal(SpecClientCore::handled);
    reveal(SpecClientCore::flushed);
    reveal(SpecClientCore::due);
    reveal(SpecClientCore::in_sync);
    reveal(shown_in);
    broadcast use {tells_taken, tells_derived};
    let taken = core.taken(input).0;
    let c = taken.derived();
    view::deltas_name_each_section_once(c.flow.touched);
    assert(told(taken, c));
    assert(told(core, taken));
    assert(told(core, c));
    if section is ReviewList && !c.flow.touched.contains(section) {
        lemma_headed(core);
        lemma_headed(c);
        assert(headed(core.committed, core.view)) by {
            reveal(headed);
        }
    }
    assert(c.flow.touched.contains(section) || section is Search);
}

proof fn lemma_headed(core: SpecClientCore)
    ensures
        headed(core.committed, core.view) ==> listed(core.committed, core.view) == shown_in(
            core.view,
            ViewSection::ReviewList,
        ),
{
    reveal(headed);
    reveal(listed);
    if headed(core.committed, core.view) {
        match (core.committed, core.view.review) {
            (Some(committed), Some(open)) => {
                assert(SpecViewModel { resolved_targets: open.heads(committed), ..core.view } == core.view);
            },
            _ => {},
        }
    }
}

} // verus!
