//! What every input keeps: what is shown of the open review is what is
//! committed with the pending mutations on top, and the content is sound.
use vstd::prelude::*;

use crate::answering;
use crate::cache;
use crate::content;
use crate::fetching;
use crate::flow;
use crate::live;
use crate::restarting;
use crate::browse::SpecBrowseTarget;
use crate::cache::{
    Bytes, SpecCacheKey, SpecCacheValue, SpecContentCache, SpecEvicted, SpecRenderKey, TreeKey,
};
use crate::client::{
    ScopeChoice, SearchKind, SpecAction, SpecClientCore, SpecConfig, SpecInput, SpecPending,
    SpecReferenceText, SpecResolved, SpecStored, TransportEvent,
};
use crate::content::{SpecCacheConfig, SpecContent, SpecFetch, SpecKeep};
use crate::creation::{
    CreationReconcile, CreationResume, CreationTargetId, SpecCreationDefaultState, SpecCreationEdit,
    SpecCreationSubmission, SpecReviewCreation,
};
use crate::diff::{SpecFileRef, SpecThreadView};
use crate::explorer::{Progress, SpecDirKey, SpecTreeView};
use crate::fetching::Arrival;
use crate::flow::SpecInFlight;
use crate::focus::Focus;
use crate::keymap::KeyChord;
use crate::lifecycle::{
    ManagementRequest, ManagementRequestId, SpecManagementReply, SpecUpgradeOperation,
};
use crate::protocol::{
    ChunkIndex, ClientSeq, CommentId, CommentIntent, DiffScope, EventSeq, SpecRenderContent, RepoId,
    RequestId, ResolvedTarget, ReviewId, Side, SpecAnchor, SpecAuthor, SpecCommitInfo,
    SpecContentHit, SpecEvent, SpecEventBody, SpecFileChange, SpecMutation, SpecRefCandidate,
    SpecRefSpec, SpecRenderChunk, SpecRenderOpts, SpecRepoPath, SpecResponse, SpecReview,
    SpecReviewReference, SpecReviewSnapshot, SpecReviewTarget, SpecRpcError, SpecServerMsg,
    SpecStreamItem, SpecSuggestionPreview, SpecTargetRevision, SpecTreeDelta, SpecTreeSnapshot,
    SpecWorkspace, SuggestionOutcome, ThreadId, WorkspaceId,
};
use crate::reading::Widening;
use crate::ref_selector::{RefSelectorPurpose, SpecRefSelectorStatus};
use crate::suggestion::SpecSuggestionState;
use crate::view::{Landing, LastKey, ScrollAlign, Tab, ViewPrefs};

verus! {

/// Only what a pending mutation did and when counts, not whether it was
/// sent.
proof fn lemma_sent_does_not_show(
    snapshot: SpecReviewSnapshot,
    author: SpecAuthor,
    pending: Seq<SpecPending>,
    f: spec_fn(SpecPending) -> SpecPending,
)
    requires
        forall|p: SpecPending| #[trigger] f(p).body == p.body && f(p).ts == p.ts,
    ensures
        live::replayed(snapshot, author, pending.map_values(f)) == live::replayed(snapshot, author, pending),
    decreases pending.len(),
{
    if pending.len() > 0 {
        assert(pending.map_values(f).drop_last() =~= pending.drop_last().map_values(f));
        lemma_sent_does_not_show(snapshot, author, pending.drop_last(), f);
    }
}

/// A filter that drops nothing changes nothing.
proof fn lemma_filter_all<A>(s: Seq<A>, p: spec_fn(A) -> bool)
    ensures
        s.filter(p).len() <= s.len(),
        s.filter(p).len() == s.len() ==> s.filter(p) == s,
    decreases s.len(),
{
    reveal(Seq::filter);
    if s.len() > 0 {
        lemma_filter_all(s.drop_last(), p);
        assert(s =~= s.drop_last().push(s.last()));
    }
}

proof fn lemma_with_pins(cache: SpecContentCache, keys: Seq<SpecCacheKey>)
    requires
        cache.sound(),
    ensures
        fetching::with_pins(cache, keys).sound(),
    decreases keys.len(),
{
    if keys.len() > 0 {
        lemma_with_pins(cache, keys.drop_last());
        cache::pinning_and_removing_keep_the_cache_sound(
            fetching::with_pins(cache, keys.drop_last()),
            keys.last(),
        );
    }
}

broadcast proof fn content_stays_sound_when_a_review_closes(core: SpecClientCore)
    requires
        core.flow.content.sound(),
    ensures
        (#[trigger] core.review_closed()).flow.content.sound(),
{
    reveal(SpecClientCore::review_closed);
    reveal(SpecContent::sound);
    broadcast use flow::group_content_stays_sound;
    let pruned = core.flow.content.pruned(SpecKeep::Nothing);
    assert(pruned.sound());
    let loose = SpecContentCache { pinned: Seq::empty(), ..pruned.cache };
    cache::trimming_makes_the_cache_sound(loose);
    assert((SpecContent { cache: loose.trimmed().0, ..pruned }).sound());
}

/// Keeping the lists of reviews and workspaces leaves the open review
/// alone, or closes it.
proof fn lemma_relisted(core: SpecClientCore, body: SpecEventBody)
    requires
        core.holds_no_echo(),
        core.flow.content.sound(),
    ensures
        core.relisted(body).holds_no_echo(),
        core.relisted(body).flow.content.sound(),
        core.relisted(body).config == core.config,
        core.relisted(body).view.review is None || (core.relisted(body).view.review == core.view.review
            && core.relisted(body).committed == core.committed && core.relisted(body).pending == core.pending
            && core.relisted(body).view.resolved_targets == core.view.resolved_targets),
{
    reveal(SpecClientCore::relisted);
    reveal(SpecClientCore::target_moved);
    reveal(SpecClientCore::review_deleted);
    reveal(SpecClientCore::closed_review);
    reveal(SpecClientCore::review_closed);
    reveal(SpecClientCore::retained);
    broadcast use {flow::group_content_stays_sound, content_stays_sound_when_a_review_closes};
}

/// The event a message of the daemon brings.
pub open spec fn event_of(msg: SpecServerMsg) -> Option<SpecEvent> {
    match msg {
        SpecServerMsg::Event { event } => Some(event),
        SpecServerMsg::Response { response: SpecResponse::Committed { event }, .. } => Some(event),
        _ => None,
    }
}

/// What an input brings fits: see the event's own condition.
pub open spec fn input_fits(core: SpecClientCore, input: SpecInput) -> bool {
    match input {
        SpecInput::Server(msg) => message_fits(core, msg),
        _ => true,
    }
}

pub open spec fn message_fits(core: SpecClientCore, msg: SpecServerMsg) -> bool {
    event_of(msg) matches Some(event) ==> core.echo_fits(event)
}

pub open spec fn response_fits(core: SpecClientCore, response: SpecResponse) -> bool {
    response matches SpecResponse::Committed { event } ==> core.echo_fits(event)
}

broadcast proof fn keeps_loaded_once(core: SpecClientCore)
    requires
        core.sound(),
    ensures
        (#[trigger] core.loaded_once()).sound(),
        core.loaded_once().config == core.config,
{
    reveal(SpecClientCore::in_sync);
    reveal(SpecClientCore::loaded_once);
    broadcast use {flow::group_content_stays_sound};
}

broadcast proof fn keeps_connect(core: SpecClientCore)
    requires
        core.sound(),
    ensures
        match #[trigger] core.connect() {
            Ok(c) => c.sound() && c.config == core.config,
            Err(_) => true,
        },
{
    reveal(SpecClientCore::in_sync);
    reveal(SpecClientCore::connect);
    broadcast use {flow::group_content_stays_sound, keeps_loaded_once};
}

broadcast proof fn keeps_disconnect(core: SpecClientCore)
    requires
        core.sound(),
    ensures
        match #[trigger] core.disconnect() {
            Ok(c) => c.sound() && c.config == core.config,
            Err(_) => true,
        },
{
    reveal(SpecClientCore::in_sync);
    reveal(SpecClientCore::disconnect);
    broadcast use {flow::group_content_stays_sound};
}

broadcast proof fn keeps_list_workspaces(core: SpecClientCore)
    requires
        core.sound(),
    ensures
        match #[trigger] core.list_workspaces() {
            Ok(c) => c.sound() && c.config == core.config,
            Err(_) => true,
        },
{
    reveal(SpecClientCore::in_sync);
    reveal(SpecClientCore::list_workspaces);
    broadcast use {flow::group_content_stays_sound};
}

broadcast proof fn keeps_list_reviews(core: SpecClientCore, workspace_id: WorkspaceId)
    requires
        core.sound(),
    ensures
        match #[trigger] core.list_reviews(workspace_id) {
            Ok(c) => c.sound() && c.config == core.config,
            Err(_) => true,
        },
{
    reveal(SpecClientCore::in_sync);
    reveal(SpecClientCore::list_reviews);
    broadcast use {flow::group_content_stays_sound};
}

broadcast proof fn keeps_create_review(
    core: SpecClientCore,
    review_id: ReviewId,
    workspace_id: WorkspaceId,
    title: Seq<char>,
    targets: Seq<SpecReviewTarget>,
)
    requires
        core.sound(),
    ensures
        match #[trigger] core.create_review(review_id, workspace_id, title, targets) {
            Ok(c) => c.sound() && c.config == core.config,
            Err(_) => true,
        },
{
    reveal(SpecClientCore::in_sync);
    reveal(SpecClientCore::create_review);
    broadcast use {flow::group_content_stays_sound};
}

broadcast proof fn keeps_open_review(core: SpecClientCore, review_id: ReviewId)
    requires
        core.sound(),
    ensures
        match #[trigger] core.open_review(review_id) {
            Ok(c) => c.sound() && c.config == core.config,
            Err(_) => true,
        },
{
    reveal(SpecClientCore::in_sync);
    reveal(SpecClientCore::open_review);
    broadcast use {flow::group_content_stays_sound};
}

broadcast proof fn keeps_review_closed(core: SpecClientCore)
    requires
        core.sound(),
    ensures
        (#[trigger] core.review_closed()).sound(),
        core.review_closed().config == core.config,
{
    reveal(SpecClientCore::in_sync);
    reveal(SpecClientCore::review_closed);
    broadcast use {flow::group_content_stays_sound};
    broadcast use content_stays_sound_when_a_review_closes;
}

broadcast proof fn keeps_closed_review(core: SpecClientCore)
    requires
        core.sound(),
    ensures
        (#[trigger] core.closed_review()).sound(),
        core.closed_review().config == core.config,
{
    reveal(SpecClientCore::in_sync);
    reveal(SpecClientCore::closed_review);
    broadcast use {flow::group_content_stays_sound, keeps_review_closed};
}

broadcast proof fn keeps_leave_review(core: SpecClientCore)
    requires
        core.sound(),
    ensures
        match #[trigger] core.leave_review() {
            Ok(c) => c.sound() && c.config == core.config,
            Err(_) => true,
        },
{
    reveal(SpecClientCore::in_sync);
    reveal(SpecClientCore::leave_review);
    broadcast use {flow::group_content_stays_sound, keeps_closed_review};
}

broadcast proof fn keeps_reference_error(core: SpecClientCore, message: Seq<char>)
    requires
        core.sound(),
    ensures
        (#[trigger] core.reference_error(message)).sound(),
        core.reference_error(message).config == core.config,
{
    reveal(SpecClientCore::in_sync);
    reveal(SpecClientCore::reference_error);
    broadcast use {flow::group_content_stays_sound};
}

broadcast proof fn keeps_open_reference(core: SpecClientCore, text: SpecReferenceText)
    requires
        core.sound(),
    ensures
        match #[trigger] core.open_reference(text) {
            Ok(c) => c.sound() && c.config == core.config,
            Err(_) => true,
        },
{
    reveal(SpecClientCore::in_sync);
    reveal(SpecClientCore::open_reference);
    broadcast use {flow::group_content_stays_sound, keeps_reference_error, keeps_open_review};
}

broadcast proof fn keeps_manage_daemon(core: SpecClientCore, request: ManagementRequest)
    requires
        core.sound(),
    ensures
        (#[trigger] core.manage_daemon(request)).sound(),
        core.manage_daemon(request).config == core.config,
{
    reveal(SpecClientCore::in_sync);
    reveal(SpecClientCore::manage_daemon);
    broadcast use {flow::group_content_stays_sound};
}

broadcast proof fn keeps_set_tab(core: SpecClientCore, tab: Tab)
    requires
        core.sound(),
    ensures
        (#[trigger] core.set_tab(tab)).sound(),
        core.set_tab(tab).config == core.config,
{
    reveal(SpecClientCore::in_sync);
    reveal(SpecClientCore::set_tab);
    broadcast use {flow::group_content_stays_sound};
}

broadcast proof fn keeps_refocused(core: SpecClientCore, focus: Focus)
    requires
        core.sound(),
    ensures
        (#[trigger] core.refocused(focus)).sound(),
        core.refocused(focus).config == core.config,
{
    reveal(SpecClientCore::in_sync);
    reveal(SpecClientCore::refocused);
    broadcast use {flow::group_content_stays_sound};
}

broadcast proof fn keeps_placed(core: SpecClientCore, render: SpecRenderKey, first_row: u32, last_row: u32)
    requires
        core.sound(),
    ensures
        (#[trigger] core.placed(render, first_row, last_row)).sound(),
        core.placed(render, first_row, last_row).config == core.config,
{
    reveal(SpecClientCore::in_sync);
    reveal(SpecClientCore::placed);
    broadcast use {flow::group_content_stays_sound};
}

broadcast proof fn keeps_retained(core: SpecClientCore)
    requires
        core.sound(),
    ensures
        (#[trigger] core.retained()).sound(),
        core.retained().config == core.config,
{
    reveal(SpecClientCore::in_sync);
    reveal(SpecClientCore::retained);
    broadcast use {flow::group_content_stays_sound};
}

broadcast proof fn keeps_took_over(core: SpecClientCore, render: SpecRenderKey, first_row: u32)
    requires
        core.sound(),
    ensures
        (#[trigger] core.took_over(render, first_row)).sound(),
        core.took_over(render, first_row).config == core.config,
{
    reveal(SpecClientCore::in_sync);
    reveal(SpecClientCore::took_over);
    reveal(SpecContent::sound);
    broadcast use {flow::group_content_stays_sound, keeps_retained};
    let c = if core.view.focus is Composer || core.view.focus is Help {
        core
    } else {
        core.with_focus(Focus::Diff { row: first_row, side: Side::Head })
    };
    let content = c.retained().flow.content;
    let mine = content.cache.entries.map_values(|e: SpecEvicted| e.key).filter(fetching::chunk_of(render));
    lemma_with_pins(content.cache, mine);
}

broadcast proof fn keeps_windowed(core: SpecClientCore, render: SpecRenderKey)
    requires
        core.sound(),
    ensures
        (#[trigger] core.windowed(render)).sound(),
        core.windowed(render).config == core.config,
{
    reveal(SpecClientCore::in_sync);
    reveal(SpecClientCore::windowed);
    broadcast use {flow::group_content_stays_sound};
}

broadcast proof fn keeps_want_chunks(core: SpecClientCore, render: SpecRenderKey, indices: Seq<ChunkIndex>)
    requires
        core.sound(),
    ensures
        (#[trigger] core.want_chunks(render, indices)).sound(),
        core.want_chunks(render, indices).config == core.config,
    decreases indices.len(),
{
    reveal(SpecClientCore::in_sync);
    broadcast use {flow::group_content_stays_sound};
    if indices.len() > 0 {
        keeps_want_chunks(core, render, indices.drop_last());
    }
}

broadcast proof fn keeps_want_viewport_chunks(core: SpecClientCore, render: SpecRenderKey)
    requires
        core.sound(),
    ensures
        (#[trigger] core.want_viewport_chunks(render)).sound(),
        core.want_viewport_chunks(render).config == core.config,
{
    reveal(SpecClientCore::in_sync);
    reveal(SpecClientCore::want_viewport_chunks);
    broadcast use {flow::group_content_stays_sound, keeps_want_chunks};
}

broadcast proof fn keeps_want_render(core: SpecClientCore, review_id: ReviewId, render: SpecRenderKey)
    requires
        core.sound(),
    ensures
        (#[trigger] core.want_render(review_id, render)).sound(),
        core.want_render(review_id, render).config == core.config,
{
    reveal(SpecClientCore::in_sync);
    reveal(SpecClientCore::want_render);
    broadcast use {flow::group_content_stays_sound, keeps_want_viewport_chunks};
}

broadcast proof fn keeps_showing(core: SpecClientCore, render: SpecRenderKey, first_row: u32, last_row: u32)
    requires
        core.sound(),
    ensures
        (#[trigger] core.showing(render, first_row, last_row)).sound(),
        core.showing(render, first_row, last_row).config == core.config,
{
    reveal(SpecClientCore::in_sync);
    reveal(SpecClientCore::showing);
    broadcast use {
        flow::group_content_stays_sound,
        keeps_placed,
        keeps_took_over,
        keeps_windowed,
        keeps_want_render,
    };
}

broadcast proof fn keeps_viewport(core: SpecClientCore, file: SpecFileRef, first_row: u32, last_row: u32)
    requires
        core.sound(),
    ensures
        match #[trigger] core.viewport(file, first_row, last_row) {
            Ok(c) => c.sound() && c.config == core.config,
            Err(_) => true,
        },
{
    reveal(SpecClientCore::in_sync);
    reveal(SpecClientCore::viewport);
    broadcast use {flow::group_content_stays_sound, keeps_showing};
}

broadcast proof fn keeps_set_focus(core: SpecClientCore, focus: Focus)
    requires
        core.sound(),
    ensures
        match #[trigger] core.set_focus(focus) {
            Ok(c) => c.sound() && c.config == core.config,
            Err(_) => true,
        },
{
    reveal(SpecClientCore::in_sync);
    reveal(SpecClientCore::set_focus);
    broadcast use {flow::group_content_stays_sound, keeps_refocused, keeps_viewport};
}

broadcast proof fn keeps_left(core: SpecClientCore)
    requires
        core.sound(),
    ensures
        (#[trigger] core.left()).sound(),
        core.left().config == core.config,
{
    reveal(SpecClientCore::in_sync);
    reveal(SpecClientCore::left);
    broadcast use {flow::group_content_stays_sound};
}

broadcast proof fn keeps_entered(core: SpecClientCore, focus: Focus)
    requires
        core.sound(),
    ensures
        (#[trigger] core.entered(focus)).sound(),
        core.entered(focus).config == core.config,
{
    reveal(SpecClientCore::in_sync);
    reveal(SpecClientCore::entered);
    broadcast use {flow::group_content_stays_sound};
}

broadcast proof fn keeps_toggle_help(core: SpecClientCore)
    requires
        core.sound(),
    ensures
        (#[trigger] core.toggle_help()).sound(),
        core.toggle_help().config == core.config,
{
    reveal(SpecClientCore::in_sync);
    reveal(SpecClientCore::toggle_help);
    broadcast use {flow::group_content_stays_sound, keeps_left, keeps_entered};
}

broadcast proof fn keeps_set_palette(core: SpecClientCore, open: bool)
    requires
        core.sound(),
    ensures
        (#[trigger] core.set_palette(open)).sound(),
        core.set_palette(open).config == core.config,
{
    reveal(SpecClientCore::in_sync);
    reveal(SpecClientCore::set_palette);
    broadcast use {flow::group_content_stays_sound};
}

broadcast proof fn keeps_unlisted(core: SpecClientCore)
    requires
        core.sound(),
    ensures
        (#[trigger] core.unlisted()).sound(),
        core.unlisted().config == core.config,
{
    reveal(SpecClientCore::in_sync);
    reveal(SpecClientCore::unlisted);
    broadcast use {flow::group_content_stays_sound};
}

broadcast proof fn keeps_reoptioned(core: SpecClientCore, opts: SpecRenderOpts)
    requires
        core.sound(),
    ensures
        (#[trigger] core.reoptioned(opts)).sound(),
        core.reoptioned(opts).config == core.config,
{
    reveal(SpecClientCore::in_sync);
    reveal(SpecClientCore::reoptioned);
    reveal(SpecContent::sound);
    broadcast use {flow::group_content_stays_sound, keeps_unlisted};
    let content = core.flow.content;
    assert((SpecContent {
        config: SpecCacheConfig { render_opts: opts, ..content.config },
        ..content
    }).sound());
}

broadcast proof fn keeps_apply_prefs(core: SpecClientCore, prefs: ViewPrefs, save: bool)
    requires
        core.sound(),
    ensures
        (#[trigger] core.apply_prefs(prefs, save)).sound(),
        core.apply_prefs(prefs, save).config == core.config,
{
    reveal(SpecClientCore::in_sync);
    reveal(SpecClientCore::apply_prefs);
    broadcast use {flow::group_content_stays_sound, keeps_reoptioned};
}

broadcast proof fn keeps_commenting(core: SpecClientCore, anchor: SpecAnchor, intent: CommentIntent)
    requires
        core.sound(),
    ensures
        (#[trigger] core.commenting(anchor, intent)).sound(),
        core.commenting(anchor, intent).config == core.config,
{
    reveal(SpecClientCore::in_sync);
    reveal(SpecClientCore::commenting);
    broadcast use {flow::group_content_stays_sound, keeps_entered};
}

broadcast proof fn keeps_open_draft(core: SpecClientCore, anchor: SpecAnchor, intent: CommentIntent)
    requires
        core.sound(),
    ensures
        match #[trigger] core.open_draft(anchor, intent) {
            Ok(c) => c.sound() && c.config == core.config,
            Err(_) => true,
        },
{
    reveal(SpecClientCore::in_sync);
    reveal(SpecClientCore::open_draft);
    broadcast use {flow::group_content_stays_sound, keeps_commenting};
}

broadcast proof fn keeps_rebased(core: SpecClientCore)
    requires
        core.holds_no_echo(),
        core.flow.content.sound(),
    ensures
        (#[trigger] core.rebased()).sound(),
        core.rebased().config == core.config,
{
    reveal(SpecClientCore::in_sync);
    reveal(SpecClientCore::rebased);
    broadcast use {flow::group_content_stays_sound};
}

broadcast proof fn keeps_mutated_with(core: SpecClientCore, mutation: SpecMutation, body: SpecEventBody)
    requires
        core.sound(),
    ensures
        (#[trigger] core.mutated_with(mutation, body)).sound(),
        core.mutated_with(mutation, body).config == core.config,
{
    reveal(SpecClientCore::in_sync);
    reveal(SpecClientCore::mutated_with);
    broadcast use {flow::group_content_stays_sound, keeps_rebased};
}

broadcast proof fn keeps_mutated(core: SpecClientCore, mutation: SpecMutation)
    requires
        core.sound(),
    ensures
        match #[trigger] core.mutated(mutation) {
            Ok(c) => c.sound() && c.config == core.config,
            Err(_) => true,
        },
{
    reveal(SpecClientCore::in_sync);
    reveal(SpecClientCore::mutated);
    broadcast use {flow::group_content_stays_sound, keeps_mutated_with};
}

broadcast proof fn keeps_observed(core: SpecClientCore, event: SpecEvent)
    requires
        core.sound(),
    ensures
        (#[trigger] core.observed(event)).sound(),
        core.observed(event).config == core.config,
{
    reveal(SpecClientCore::in_sync);
    reveal(SpecClientCore::observed);
    broadcast use {flow::group_content_stays_sound};
}

broadcast proof fn keeps_creation_found(core: SpecClientCore, review: SpecReview)
    requires
        core.sound(),
    ensures
        (#[trigger] core.creation_found(review)).sound(),
        core.creation_found(review).config == core.config,
{
    reveal(SpecClientCore::in_sync);
    reveal(SpecClientCore::creation_found);
    broadcast use {flow::group_content_stays_sound};
}

broadcast proof fn keeps_held(core: SpecClientCore, event: SpecEvent)
    requires
        core.sound(),
        event.client_id != core.config.client_id,
    ensures
        (#[trigger] core.held(event)).sound(),
        core.held(event).config == core.config,
{
    reveal(SpecClientCore::in_sync);
    reveal(SpecClientCore::held);
    broadcast use {flow::group_content_stays_sound};
}

broadcast proof fn keeps_planted(core: SpecClientCore, fetches: Seq<SpecFetch>, fetch: bool)
    requires
        core.sound(),
    ensures
        (#[trigger] core.planted(fetches, fetch)).sound(),
        core.planted(fetches, fetch).config == core.config,
    decreases fetches.len(),
{
    reveal(SpecClientCore::in_sync);
    broadcast use {flow::group_content_stays_sound};
    if fetches.len() > 0 {
        keeps_planted(core, fetches.drop_last(), fetch);
    }
}

broadcast proof fn keeps_review_trees(core: SpecClientCore, fetch: bool)
    requires
        core.sound(),
    ensures
        (#[trigger] core.review_trees(fetch)).sound(),
        core.review_trees(fetch).config == core.config,
{
    reveal(SpecClientCore::in_sync);
    reveal(SpecClientCore::review_trees);
    broadcast use {flow::group_content_stays_sound, keeps_retained, keeps_planted};
}

proof fn lemma_folded(core: SpecClientCore, event: SpecEvent)
    requires
        core.holds_no_echo(),
        core.flow.content.sound(),
        core.in_sync() || (core.committed matches Some(committed) && event.body.review_id() == Some(
            committed.review.id,
        )),
    ensures
        core.folded(event).sound(),
        core.folded(event).config == core.config,
{
    reveal(SpecClientCore::in_sync);
    reveal(SpecClientCore::folded);
    broadcast use {flow::group_content_stays_sound, keeps_rebased, keeps_review_trees};
}

broadcast proof fn keeps_applied(core: SpecClientCore, event: SpecEvent)
    requires
        core.sound(),
        core.echo_fits(event),
    ensures
        (#[trigger] core.applied(event)).sound(),
        core.applied(event).config == core.config,
{
    reveal(SpecClientCore::in_sync);
    reveal(SpecClientCore::applied);
    reveal(SpecClientCore::observed);
    reveal(SpecClientCore::creation_found);
    broadcast use {
        flow::group_content_stays_sound,
        keeps_observed,
        keeps_creation_found,
        keeps_held,
    };
    let c = core.observed(event).creation_observed(event.body);
    let d = if event.client_id == c.config.client_id {
        c.retired(event.client_seq)
    } else {
        c
    };
    assert(c.pending == core.pending && c.committed == core.committed && c.view.review == core.view.review);
    assert(c.view.resolved_targets == core.view.resolved_targets);
    lemma_relisted(d, event.body);
    let e = d.relisted(event.body);
    if !d.holds(event) {
        lemma_folded(e, event);
    }
}

broadcast proof fn keeps_all_applied(core: SpecClientCore, events: Seq<SpecEvent>)
    requires
        core.sound(),
        forall|i: int| 0 <= i < events.len() ==> (#[trigger] events[i]).client_id != core.config.client_id,
    ensures
        (#[trigger] core.all_applied(events)).sound(),
        core.all_applied(events).config == core.config,
    decreases events.len(),
{
    reveal(SpecClientCore::in_sync);
    broadcast use {flow::group_content_stays_sound, keeps_applied};
    if events.len() > 0 {
        keeps_all_applied(core, events.drop_last());
    }
}

broadcast proof fn keeps_undeferred(core: SpecClientCore)
    requires
        core.sound(),
    ensures
        (#[trigger] core.undeferred()).sound(),
        core.undeferred().config == core.config,
{
    reveal(SpecClientCore::in_sync);
    reveal(SpecClientCore::undeferred);
    broadcast use {flow::group_content_stays_sound, keeps_all_applied};
}

broadcast proof fn keeps_draft_closed(core: SpecClientCore)
    requires
        core.sound(),
    ensures
        (#[trigger] core.draft_closed()).sound(),
        core.draft_closed().config == core.config,
{
    reveal(SpecClientCore::in_sync);
    reveal(SpecClientCore::draft_closed);
    broadcast use {flow::group_content_stays_sound, keeps_left, keeps_undeferred};
}

broadcast proof fn keeps_draft_submitted(core: SpecClientCore, comment_id: CommentId, body: Seq<char>)
    requires
        core.sound(),
    ensures
        match #[trigger] core.draft_submitted(comment_id, body) {
            Ok(c) => c.sound() && c.config == core.config,
            Err(_) => true,
        },
{
    reveal(SpecClientCore::in_sync);
    reveal(SpecClientCore::draft_submitted);
    broadcast use {flow::group_content_stays_sound, keeps_mutated, keeps_draft_closed};
}

broadcast proof fn keeps_draft_discarded(core: SpecClientCore)
    requires
        core.sound(),
    ensures
        match #[trigger] core.draft_discarded() {
            Ok(c) => c.sound() && c.config == core.config,
            Err(_) => true,
        },
{
    reveal(SpecClientCore::in_sync);
    reveal(SpecClientCore::draft_discarded);
    broadcast use {flow::group_content_stays_sound, keeps_draft_closed};
}

broadcast proof fn keeps_reply_opened(core: SpecClientCore, thread_id: ThreadId)
    requires
        core.sound(),
    ensures
        match #[trigger] core.reply_opened(thread_id) {
            Ok(c) => c.sound() && c.config == core.config,
            Err(_) => true,
        },
{
    reveal(SpecClientCore::in_sync);
    reveal(SpecClientCore::reply_opened);
    broadcast use {flow::group_content_stays_sound, keeps_entered};
}

broadcast proof fn keeps_on_review(core: SpecClientCore, mutation: SpecMutation)
    requires
        core.sound(),
    ensures
        match #[trigger] core.on_review(mutation) {
            Ok(c) => c.sound() && c.config == core.config,
            Err(_) => true,
        },
{
    reveal(SpecClientCore::in_sync);
    reveal(SpecClientCore::on_review);
    broadcast use {flow::group_content_stays_sound, keeps_mutated};
}

broadcast proof fn keeps_suggestion_focused(core: SpecClientCore, id: CommentId)
    requires
        core.sound(),
    ensures
        (#[trigger] core.suggestion_focused(id)).sound(),
        core.suggestion_focused(id).config == core.config,
{
    reveal(SpecClientCore::in_sync);
    reveal(SpecClientCore::suggestion_focused);
    broadcast use {flow::group_content_stays_sound};
}

broadcast proof fn keeps_preview_suggestion(core: SpecClientCore, id: CommentId)
    requires
        core.sound(),
    ensures
        match #[trigger] core.preview_suggestion(id) {
            Ok(c) => c.sound() && c.config == core.config,
            Err(_) => true,
        },
{
    reveal(SpecClientCore::in_sync);
    reveal(SpecClientCore::preview_suggestion);
    broadcast use {flow::group_content_stays_sound, keeps_suggestion_focused};
}

broadcast proof fn keeps_suggestion_sent(
    core: SpecClientCore,
    id: CommentId,
    review_id: ReviewId,
    state: SpecSuggestionState,
)
    requires
        core.sound(),
    ensures
        (#[trigger] core.suggestion_sent(id, review_id, state)).sound(),
        core.suggestion_sent(id, review_id, state).config == core.config,
{
    reveal(SpecClientCore::in_sync);
    reveal(SpecClientCore::suggestion_sent);
    broadcast use {flow::group_content_stays_sound};
}

broadcast proof fn keeps_apply_suggestion(core: SpecClientCore, id: CommentId)
    requires
        core.sound(),
    ensures
        match #[trigger] core.apply_suggestion(id) {
            Ok(c) => c.sound() && c.config == core.config,
            Err(_) => true,
        },
{
    reveal(SpecClientCore::in_sync);
    reveal(SpecClientCore::apply_suggestion);
    broadcast use {
        flow::group_content_stays_sound,
        keeps_suggestion_focused,
        keeps_suggestion_sent,
    };
}

broadcast proof fn keeps_comment_lines(
    core: SpecClientCore,
    file: SpecFileRef,
    side: Side,
    start: u32,
    end: u32,
)
    requires
        core.sound(),
    ensures
        match #[trigger] core.comment_lines(file, side, start, end) {
            Ok(c) => c.sound() && c.config == core.config,
            Err(_) => true,
        },
{
    reveal(SpecClientCore::in_sync);
    reveal(SpecClientCore::comment_lines);
    broadcast use {flow::group_content_stays_sound, keeps_commenting};
}

broadcast proof fn keeps_comment_file(core: SpecClientCore, file: SpecFileRef)
    requires
        core.sound(),
    ensures
        match #[trigger] core.comment_file(file) {
            Ok(c) => c.sound() && c.config == core.config,
            Err(_) => true,
        },
{
    reveal(SpecClientCore::in_sync);
    reveal(SpecClientCore::comment_file);
    broadcast use {flow::group_content_stays_sound, keeps_commenting};
}

broadcast proof fn keeps_mark_viewed(core: SpecClientCore, file: SpecFileRef, viewed: bool)
    requires
        core.sound(),
    ensures
        match #[trigger] core.mark_viewed(file, viewed) {
            Ok(c) => c.sound() && c.config == core.config,
            Err(_) => true,
        },
{
    reveal(SpecClientCore::in_sync);
    reveal(SpecClientCore::mark_viewed);
    broadcast use {flow::group_content_stays_sound, keeps_mutated_with};
}

broadcast proof fn keeps_enter_visual(core: SpecClientCore)
    requires
        core.sound(),
    ensures
        match #[trigger] core.enter_visual() {
            Ok(c) => c.sound() && c.config == core.config,
            Err(_) => true,
        },
{
    reveal(SpecClientCore::in_sync);
    reveal(SpecClientCore::enter_visual);
    broadcast use {flow::group_content_stays_sound};
}

broadcast proof fn keeps_leave_visual(core: SpecClientCore)
    requires
        core.sound(),
    ensures
        match #[trigger] core.leave_visual() {
            Ok(c) => c.sound() && c.config == core.config,
            Err(_) => true,
        },
{
    reveal(SpecClientCore::in_sync);
    reveal(SpecClientCore::leave_visual);
    broadcast use {flow::group_content_stays_sound};
}

broadcast proof fn keeps_scrolled(core: SpecClientCore, row: u32, align: ScrollAlign)
    requires
        core.sound(),
    ensures
        (#[trigger] core.scrolled(row, align)).sound(),
        core.scrolled(row, align).config == core.config,
{
    reveal(SpecClientCore::in_sync);
    reveal(SpecClientCore::scrolled);
    broadcast use {flow::group_content_stays_sound};
}

broadcast proof fn keeps_open_file_at(
    core: SpecClientCore,
    file: SpecFileRef,
    row: u32,
    side: Side,
    landing: Landing,
)
    requires
        core.sound(),
    ensures
        match #[trigger] core.open_file_at(file, row, side, landing) {
            Ok(c) => c.sound() && c.config == core.config,
            Err(_) => true,
        },
{
    reveal(SpecClientCore::in_sync);
    reveal(SpecClientCore::open_file_at);
    broadcast use {flow::group_content_stays_sound, keeps_viewport, keeps_scrolled};
}

broadcast proof fn keeps_close_file(core: SpecClientCore)
    requires
        core.sound(),
    ensures
        match #[trigger] core.close_file() {
            Ok(c) => c.sound() && c.config == core.config,
            Err(_) => true,
        },
{
    reveal(SpecClientCore::in_sync);
    reveal(SpecClientCore::close_file);
    broadcast use {flow::group_content_stays_sound, keeps_retained};
}

broadcast proof fn keeps_toggle_dir(core: SpecClientCore, key: SpecDirKey)
    requires
        core.sound(),
    ensures
        match #[trigger] core.toggle_dir(key) {
            Ok(c) => c.sound() && c.config == core.config,
            Err(_) => true,
        },
{
    reveal(SpecClientCore::in_sync);
    reveal(SpecClientCore::toggle_dir);
    broadcast use {flow::group_content_stays_sound};
}

broadcast proof fn keeps_file_search(core: SpecClientCore, query: Option<Seq<char>>)
    requires
        core.sound(),
    ensures
        match #[trigger] core.file_search(query) {
            Ok(c) => c.sound() && c.config == core.config,
            Err(_) => true,
        },
{
    reveal(SpecClientCore::in_sync);
    reveal(SpecClientCore::file_search);
    broadcast use {flow::group_content_stays_sound};
}

broadcast proof fn keeps_scroll_view(core: SpecClientCore, align: ScrollAlign)
    requires
        core.sound(),
    ensures
        match #[trigger] core.scroll_view(align) {
            Ok(c) => c.sound() && c.config == core.config,
            Err(_) => true,
        },
{
    reveal(SpecClientCore::in_sync);
    reveal(SpecClientCore::scroll_view);
    broadcast use {flow::group_content_stays_sound, keeps_scrolled};
}

broadcast proof fn keeps_toggle_file_collapse(core: SpecClientCore, file: SpecFileRef)
    requires
        core.sound(),
    ensures
        match #[trigger] core.toggle_file_collapse(file) {
            Ok(c) => c.sound() && c.config == core.config,
            Err(_) => true,
        },
{
    reveal(SpecClientCore::in_sync);
    reveal(SpecClientCore::toggle_file_collapse);
    broadcast use {flow::group_content_stays_sound};
}

broadcast proof fn keeps_collapse_parent(core: SpecClientCore)
    requires
        core.sound(),
    ensures
        match #[trigger] core.collapse_parent() {
            Ok(c) => c.sound() && c.config == core.config,
            Err(_) => true,
        },
{
    reveal(SpecClientCore::in_sync);
    reveal(SpecClientCore::collapse_parent);
    broadcast use {flow::group_content_stays_sound};
}

broadcast proof fn keeps_collapse_all(core: SpecClientCore)
    requires
        core.sound(),
    ensures
        match #[trigger] core.collapse_all() {
            Ok(c) => c.sound() && c.config == core.config,
            Err(_) => true,
        },
{
    reveal(SpecClientCore::in_sync);
    reveal(SpecClientCore::collapse_all);
    broadcast use {flow::group_content_stays_sound};
}

broadcast proof fn keeps_original_opened(core: SpecClientCore, render: SpecRenderKey)
    requires
        core.sound(),
    ensures
        (#[trigger] core.original_opened(render)).sound(),
        core.original_opened(render).config == core.config,
{
    reveal(SpecClientCore::in_sync);
    reveal(SpecClientCore::original_opened);
    broadcast use {flow::group_content_stays_sound};
}

broadcast proof fn keeps_want_open_render(core: SpecClientCore, review_id: ReviewId, render: SpecRenderKey)
    requires
        core.sound(),
    ensures
        (#[trigger] core.want_open_render(review_id, render)).sound(),
        core.want_open_render(review_id, render).config == core.config,
{
    reveal(SpecClientCore::in_sync);
    reveal(SpecClientCore::want_open_render);
    broadcast use {flow::group_content_stays_sound, keeps_retained, keeps_want_render};
}

broadcast proof fn keeps_open_original(core: SpecClientCore, thread_id: ThreadId)
    requires
        core.sound(),
    ensures
        match #[trigger] core.open_original(thread_id) {
            Ok(c) => c.sound() && c.config == core.config,
            Err(_) => true,
        },
{
    reveal(SpecClientCore::in_sync);
    reveal(SpecClientCore::open_original);
    broadcast use {flow::group_content_stays_sound, keeps_original_opened, keeps_want_open_render};
}

broadcast proof fn keeps_rekeyed(core: SpecClientCore, i: int, new_key: SpecRenderKey)
    requires
        core.sound(),
    ensures
        (#[trigger] core.rekeyed(i, new_key)).sound(),
        core.rekeyed(i, new_key).config == core.config,
{
    reveal(SpecClientCore::in_sync);
    reveal(SpecClientCore::rekeyed);
    broadcast use {flow::group_content_stays_sound};
}

broadcast proof fn keeps_re_render(core: SpecClientCore, file: SpecFileRef, by: Widening)
    requires
        core.sound(),
    ensures
        match #[trigger] core.re_render(file, by) {
            Ok(c) => c.sound() && c.config == core.config,
            Err(_) => true,
        },
{
    reveal(SpecClientCore::in_sync);
    reveal(SpecClientCore::re_render);
    broadcast use {flow::group_content_stays_sound, keeps_rekeyed, keeps_want_open_render};
}

broadcast proof fn keeps_content_search(core: SpecClientCore, query: Option<Seq<char>>, all_files: bool)
    requires
        core.sound(),
    ensures
        match #[trigger] core.content_search(query, all_files) {
            Ok(c) => c.sound() && c.config == core.config,
            Err(_) => true,
        },
{
    reveal(SpecClientCore::in_sync);
    reveal(SpecClientCore::content_search);
    broadcast use {flow::group_content_stays_sound};
}

broadcast proof fn keeps_search_first(core: SpecClientCore, search: SearchKind)
    requires
        core.sound(),
    ensures
        match #[trigger] core.search_first(search) {
            Ok(c) => c.sound() && c.config == core.config,
            Err(_) => true,
        },
{
    reveal(SpecClientCore::in_sync);
    reveal(SpecClientCore::search_first);
    broadcast use {flow::group_content_stays_sound};
}

broadcast proof fn keeps_search_step(core: SpecClientCore, search: SearchKind, delta: i32)
    requires
        core.sound(),
    ensures
        match #[trigger] core.search_step(search, delta) {
            Ok(c) => c.sound() && c.config == core.config,
            Err(_) => true,
        },
{
    reveal(SpecClientCore::in_sync);
    reveal(SpecClientCore::search_step);
    broadcast use {flow::group_content_stays_sound};
}

broadcast proof fn keeps_open_search_result(core: SpecClientCore, search: SearchKind, query: Seq<char>)
    requires
        core.sound(),
    ensures
        match #[trigger] core.open_search_result(search, query) {
            Ok(c) => c.sound() && c.config == core.config,
            Err(_) => true,
        },
{
    reveal(SpecClientCore::in_sync);
    reveal(SpecClientCore::open_search_result);
    broadcast use {flow::group_content_stays_sound, keeps_viewport};
}

broadcast proof fn keeps_list_commits(core: SpecClientCore, repo_id: RepoId)
    requires
        core.sound(),
    ensures
        match #[trigger] core.list_commits(repo_id) {
            Ok(c) => c.sound() && c.config == core.config,
            Err(_) => true,
        },
{
    reveal(SpecClientCore::in_sync);
    reveal(SpecClientCore::list_commits);
    broadcast use {flow::group_content_stays_sound};
}

broadcast proof fn keeps_apply_scope(core: SpecClientCore, scope: DiffScope)
    requires
        core.sound(),
    ensures
        (#[trigger] core.apply_scope(scope)).sound(),
        core.apply_scope(scope).config == core.config,
{
    reveal(SpecClientCore::in_sync);
    reveal(SpecClientCore::apply_scope);
    broadcast use {flow::group_content_stays_sound, keeps_rebased};
}

broadcast proof fn keeps_step_commit(core: SpecClientCore, selected: Option<usize>)
    requires
        core.sound(),
    ensures
        match #[trigger] core.step_commit(selected) {
            Ok(c) => c.sound() && c.config == core.config,
            Err(_) => true,
        },
{
    reveal(SpecClientCore::in_sync);
    reveal(SpecClientCore::step_commit);
    broadcast use {flow::group_content_stays_sound, keeps_apply_scope};
}

broadcast proof fn keeps_by_commit(core: SpecClientCore, review_id: ReviewId, repo_id: RepoId)
    requires
        core.sound(),
    ensures
        match #[trigger] core.by_commit(review_id, repo_id) {
            Ok(c) => c.sound() && c.config == core.config,
            Err(_) => true,
        },
{
    reveal(SpecClientCore::in_sync);
    reveal(SpecClientCore::by_commit);
    broadcast use {flow::group_content_stays_sound, keeps_apply_scope};
}

broadcast proof fn keeps_set_scope(core: SpecClientCore, scope: ScopeChoice)
    requires
        core.sound(),
    ensures
        match #[trigger] core.set_scope(scope) {
            Ok(c) => c.sound() && c.config == core.config,
            Err(_) => true,
        },
{
    reveal(SpecClientCore::in_sync);
    reveal(SpecClientCore::set_scope);
    broadcast use {flow::group_content_stays_sound, keeps_apply_scope, keeps_by_commit};
}

broadcast proof fn keeps_browse_asked(core: SpecClientCore, repo_id: RepoId, ref_spec: SpecRefSpec)
    requires
        core.sound(),
    ensures
        (#[trigger] core.browse_asked(repo_id, ref_spec)).sound(),
        core.browse_asked(repo_id, ref_spec).config == core.config,
{
    reveal(SpecClientCore::in_sync);
    reveal(SpecClientCore::browse_asked);
    broadcast use {flow::group_content_stays_sound};
}

broadcast proof fn keeps_browse_reset(core: SpecClientCore, repo_id: RepoId)
    requires
        core.sound(),
    ensures
        (#[trigger] core.browse_reset(repo_id)).sound(),
        core.browse_reset(repo_id).config == core.config,
{
    reveal(SpecClientCore::in_sync);
    reveal(SpecClientCore::browse_reset);
    broadcast use {flow::group_content_stays_sound, keeps_review_trees};
}

broadcast proof fn keeps_set_browse_ref(core: SpecClientCore, repo_id: RepoId, ref_spec: Option<SpecRefSpec>)
    requires
        core.sound(),
    ensures
        match #[trigger] core.set_browse_ref(repo_id, ref_spec) {
            Ok(c) => c.sound() && c.config == core.config,
            Err(_) => true,
        },
{
    reveal(SpecClientCore::in_sync);
    reveal(SpecClientCore::set_browse_ref);
    broadcast use {flow::group_content_stays_sound, keeps_browse_asked, keeps_browse_reset};
}

broadcast proof fn keeps_open_ref_selector(core: SpecClientCore, repo_id: RepoId, purpose: RefSelectorPurpose)
    requires
        core.sound(),
    ensures
        match #[trigger] core.open_ref_selector(repo_id, purpose) {
            Ok(c) => c.sound() && c.config == core.config,
            Err(_) => true,
        },
{
    reveal(SpecClientCore::in_sync);
    reveal(SpecClientCore::open_ref_selector);
    broadcast use {flow::group_content_stays_sound};
}

broadcast proof fn keeps_ref_selector_query(core: SpecClientCore, query: Seq<char>)
    requires
        core.sound(),
    ensures
        match #[trigger] core.ref_selector_query(query) {
            Ok(c) => c.sound() && c.config == core.config,
            Err(_) => true,
        },
{
    reveal(SpecClientCore::in_sync);
    reveal(SpecClientCore::ref_selector_query);
    broadcast use {flow::group_content_stays_sound};
}

broadcast proof fn keeps_ref_selector_step(core: SpecClientCore, delta: i32)
    requires
        core.sound(),
    ensures
        match #[trigger] core.ref_selector_step(delta) {
            Ok(c) => c.sound() && c.config == core.config,
            Err(_) => true,
        },
{
    reveal(SpecClientCore::in_sync);
    reveal(SpecClientCore::ref_selector_step);
    broadcast use {flow::group_content_stays_sound};
}

broadcast proof fn keeps_retarget(core: SpecClientCore, repo_id: RepoId, revision: SpecTargetRevision)
    requires
        core.sound(),
    ensures
        match #[trigger] core.retarget(repo_id, revision) {
            Ok(c) => c.sound() && c.config == core.config,
            Err(_) => true,
        },
{
    reveal(SpecClientCore::in_sync);
    reveal(SpecClientCore::retarget);
    broadcast use {flow::group_content_stays_sound, keeps_mutated};
}

broadcast proof fn keeps_select_ref(core: SpecClientCore, index: usize)
    requires
        core.sound(),
    ensures
        match #[trigger] core.select_ref(index) {
            Ok(c) => c.sound() && c.config == core.config,
            Err(_) => true,
        },
{
    reveal(SpecClientCore::in_sync);
    reveal(SpecClientCore::select_ref);
    broadcast use {flow::group_content_stays_sound, keeps_set_browse_ref, keeps_retarget};
}

broadcast proof fn keeps_close_ref_selector(core: SpecClientCore)
    requires
        core.sound(),
    ensures
        match #[trigger] core.close_ref_selector() {
            Ok(c) => c.sound() && c.config == core.config,
            Err(_) => true,
        },
{
    reveal(SpecClientCore::in_sync);
    reveal(SpecClientCore::close_ref_selector);
    broadcast use {flow::group_content_stays_sound};
}

broadcast proof fn keeps_creation_shown(core: SpecClientCore)
    requires
        core.sound(),
    ensures
        (#[trigger] core.creation_shown()).sound(),
        core.creation_shown().config == core.config,
{
    reveal(SpecClientCore::in_sync);
    reveal(SpecClientCore::creation_shown);
    broadcast use {flow::group_content_stays_sound, keeps_closed_review};
}

broadcast proof fn keeps_defaults_requested(core: SpecClientCore, review_id: ReviewId, repos: Seq<RepoId>)
    requires
        core.sound(),
    ensures
        (#[trigger] core.defaults_requested(review_id, repos)).sound(),
        core.defaults_requested(review_id, repos).config == core.config,
    decreases repos.len(),
{
    reveal(SpecClientCore::in_sync);
    broadcast use {flow::group_content_stays_sound};
    if repos.len() > 0 {
        keeps_defaults_requested(core, review_id, repos.drop_last());
    }
}

broadcast proof fn keeps_defaulted(core: SpecClientCore)
    requires
        core.sound(),
    ensures
        (#[trigger] core.defaulted()).sound(),
        core.defaulted().config == core.config,
{
    reveal(SpecClientCore::in_sync);
    reveal(SpecClientCore::defaulted);
    broadcast use {flow::group_content_stays_sound, keeps_defaults_requested};
}

broadcast proof fn keeps_start_creation(core: SpecClientCore, workspace_id: WorkspaceId, review_id: ReviewId)
    requires
        core.sound(),
    ensures
        match #[trigger] core.start_creation(workspace_id, review_id) {
            Ok(c) => c.sound() && c.config == core.config,
            Err(_) => true,
        },
{
    reveal(SpecClientCore::in_sync);
    reveal(SpecClientCore::start_creation);
    broadcast use {flow::group_content_stays_sound, keeps_creation_shown, keeps_defaulted};
}

broadcast proof fn keeps_send_creation(
    core: SpecClientCore,
    review_id: ReviewId,
    submission: SpecCreationSubmission,
)
    requires
        core.sound(),
    ensures
        (#[trigger] core.send_creation(review_id, submission)).sound(),
        core.send_creation(review_id, submission).config == core.config,
{
    reveal(SpecClientCore::in_sync);
    reveal(SpecClientCore::send_creation);
    broadcast use {flow::group_content_stays_sound};
}

broadcast proof fn keeps_submit_creation(core: SpecClientCore, review_id: ReviewId)
    requires
        core.sound(),
    ensures
        (#[trigger] core.submit_creation(review_id)).sound(),
        core.submit_creation(review_id).config == core.config,
{
    reveal(SpecClientCore::in_sync);
    reveal(SpecClientCore::submit_creation);
    broadcast use {flow::group_content_stays_sound, keeps_send_creation};
}

broadcast proof fn keeps_reconcile_creation(
    core: SpecClientCore,
    review_id: ReviewId,
    next: CreationReconcile,
)
    requires
        core.sound(),
    ensures
        (#[trigger] core.reconcile_creation(review_id, next)).sound(),
        core.reconcile_creation(review_id, next).config == core.config,
{
    reveal(SpecClientCore::in_sync);
    reveal(SpecClientCore::reconcile_creation);
    broadcast use {flow::group_content_stays_sound};
}

broadcast proof fn keeps_creation_disconnected(core: SpecClientCore)
    requires
        core.sound(),
    ensures
        (#[trigger] core.creation_disconnected()).sound(),
        core.creation_disconnected().config == core.config,
{
    reveal(SpecClientCore::in_sync);
    reveal(SpecClientCore::creation_disconnected);
    broadcast use {flow::group_content_stays_sound};
}

broadcast proof fn keeps_creation_lost(core: SpecClientCore)
    requires
        core.sound(),
    ensures
        (#[trigger] core.creation_lost()).sound(),
        core.creation_lost().config == core.config,
{
    reveal(SpecClientCore::in_sync);
    reveal(SpecClientCore::creation_lost);
    broadcast use {flow::group_content_stays_sound, keeps_creation_disconnected};
}

broadcast proof fn keeps_creation_reconnected(core: SpecClientCore)
    requires
        core.sound(),
    ensures
        (#[trigger] core.creation_reconnected()).sound(),
        core.creation_reconnected().config == core.config,
{
    reveal(SpecClientCore::in_sync);
    reveal(SpecClientCore::creation_reconnected);
    broadcast use {flow::group_content_stays_sound, keeps_defaulted, keeps_reconcile_creation};
}

broadcast proof fn keeps_restore_creation(
    core: SpecClientCore,
    creation: SpecReviewCreation,
    resume: CreationResume,
)
    requires
        core.sound(),
    ensures
        (#[trigger] core.restore_creation(creation, resume)).sound(),
        core.restore_creation(creation, resume).config == core.config,
{
    reveal(SpecClientCore::in_sync);
    reveal(SpecClientCore::restore_creation);
    broadcast use {
        flow::group_content_stays_sound,
        keeps_creation_disconnected,
        keeps_creation_reconnected,
    };
}

broadcast proof fn keeps_edit_creation(core: SpecClientCore, review_id: ReviewId, edit: SpecCreationEdit)
    requires
        core.sound(),
    ensures
        (#[trigger] core.edit_creation(review_id, edit)).sound(),
        core.edit_creation(review_id, edit).config == core.config,
{
    reveal(SpecClientCore::in_sync);
    reveal(SpecClientCore::edit_creation);
    broadcast use {flow::group_content_stays_sound, keeps_defaulted};
}

broadcast proof fn keeps_select_creation_target(
    core: SpecClientCore,
    review_id: ReviewId,
    id: CreationTargetId,
)
    requires
        core.sound(),
    ensures
        (#[trigger] core.select_creation_target(review_id, id)).sound(),
        core.select_creation_target(review_id, id).config == core.config,
{
    reveal(SpecClientCore::in_sync);
    reveal(SpecClientCore::select_creation_target);
    broadcast use {flow::group_content_stays_sound};
}

broadcast proof fn keeps_add_creation_target(core: SpecClientCore, review_id: ReviewId)
    requires
        core.sound(),
    ensures
        (#[trigger] core.add_creation_target(review_id)).sound(),
        core.add_creation_target(review_id).config == core.config,
{
    reveal(SpecClientCore::in_sync);
    reveal(SpecClientCore::add_creation_target);
    broadcast use {flow::group_content_stays_sound, keeps_defaulted};
}

broadcast proof fn keeps_remove_creation_target(core: SpecClientCore, review_id: ReviewId)
    requires
        core.sound(),
    ensures
        (#[trigger] core.remove_creation_target(review_id)).sound(),
        core.remove_creation_target(review_id).config == core.config,
{
    reveal(SpecClientCore::in_sync);
    reveal(SpecClientCore::remove_creation_target);
    broadcast use {flow::group_content_stays_sound};
}

broadcast proof fn keeps_acted_on_form(core: SpecClientCore, action: SpecAction)
    requires
        core.sound(),
    ensures
        match #[trigger] core.acted_on_form(action) {
            Ok(c) => c.sound() && c.config == core.config,
            Err(_) => true,
        },
{
    reveal(SpecClientCore::in_sync);
    reveal(SpecClientCore::acted_on_form);
    broadcast use {
        flow::group_content_stays_sound,
        keeps_edit_creation,
        keeps_select_creation_target,
        keeps_add_creation_target,
        keeps_remove_creation_target,
    };
}

broadcast proof fn keeps_acted_on_creation(core: SpecClientCore, action: SpecAction)
    requires
        core.sound(),
    ensures
        match #[trigger] core.acted_on_creation(action) {
            Ok(c) => c.sound() && c.config == core.config,
            Err(_) => true,
        },
{
    reveal(SpecClientCore::in_sync);
    reveal(SpecClientCore::acted_on_creation);
    broadcast use {
        flow::group_content_stays_sound,
        keeps_start_creation,
        keeps_submit_creation,
        keeps_reconcile_creation,
        keeps_restore_creation,
        keeps_acted_on_form,
    };
}

broadcast proof fn keeps_acted_on_revisions(core: SpecClientCore, action: SpecAction)
    requires
        core.sound(),
    ensures
        match #[trigger] core.acted_on_revisions(action) {
            Ok(c) => c.sound() && c.config == core.config,
            Err(_) => true,
        },
{
    reveal(SpecClientCore::in_sync);
    reveal(SpecClientCore::acted_on_revisions);
    broadcast use {
        flow::group_content_stays_sound,
        keeps_list_commits,
        keeps_step_commit,
        keeps_set_scope,
        keeps_set_browse_ref,
        keeps_open_ref_selector,
        keeps_ref_selector_query,
        keeps_ref_selector_step,
        keeps_select_ref,
        keeps_close_ref_selector,
        keeps_acted_on_creation,
    };
}

broadcast proof fn keeps_acted_on_files(core: SpecClientCore, action: SpecAction)
    requires
        core.sound(),
    ensures
        match #[trigger] core.acted_on_files(action) {
            Ok(c) => c.sound() && c.config == core.config,
            Err(_) => true,
        },
{
    reveal(SpecClientCore::in_sync);
    reveal(SpecClientCore::acted_on_files);
    broadcast use {
        flow::group_content_stays_sound,
        keeps_viewport,
        keeps_open_file_at,
        keeps_close_file,
        keeps_toggle_dir,
        keeps_file_search,
        keeps_scroll_view,
        keeps_toggle_file_collapse,
        keeps_collapse_parent,
        keeps_collapse_all,
        keeps_open_original,
        keeps_re_render,
        keeps_content_search,
        keeps_search_first,
        keeps_search_step,
        keeps_open_search_result,
        keeps_acted_on_revisions,
    };
}

broadcast proof fn keeps_acted_on_comments(core: SpecClientCore, action: SpecAction)
    requires
        core.sound(),
    ensures
        match #[trigger] core.acted_on_comments(action) {
            Ok(c) => c.sound() && c.config == core.config,
            Err(_) => true,
        },
{
    reveal(SpecClientCore::in_sync);
    reveal(SpecClientCore::acted_on_comments);
    broadcast use {
        flow::group_content_stays_sound,
        keeps_open_draft,
        keeps_draft_submitted,
        keeps_draft_discarded,
        keeps_reply_opened,
        keeps_on_review,
        keeps_preview_suggestion,
        keeps_apply_suggestion,
        keeps_comment_lines,
        keeps_comment_file,
        keeps_mark_viewed,
        keeps_enter_visual,
        keeps_leave_visual,
        keeps_acted_on_files,
    };
}

broadcast proof fn keeps_acted_on_prefs(core: SpecClientCore, action: SpecAction)
    requires
        core.sound(),
    ensures
        match #[trigger] core.acted_on_prefs(action) {
            Ok(c) => c.sound() && c.config == core.config,
            Err(_) => true,
        },
{
    reveal(SpecClientCore::in_sync);
    reveal(SpecClientCore::acted_on_prefs);
    broadcast use {flow::group_content_stays_sound, keeps_apply_prefs, keeps_acted_on_comments};
}

broadcast proof fn keeps_acted(core: SpecClientCore, action: SpecAction)
    requires
        core.sound(),
    ensures
        match #[trigger] core.acted(action) {
            Ok(c) => c.sound() && c.config == core.config,
            Err(_) => true,
        },
{
    reveal(SpecClientCore::in_sync);
    reveal(SpecClientCore::acted);
    broadcast use {
        flow::group_content_stays_sound,
        keeps_connect,
        keeps_disconnect,
        keeps_list_workspaces,
        keeps_list_reviews,
        keeps_create_review,
        keeps_open_review,
        keeps_leave_review,
        keeps_open_reference,
        keeps_manage_daemon,
        keeps_set_tab,
        keeps_set_focus,
        keeps_toggle_help,
        keeps_set_palette,
        keeps_acted_on_prefs,
    };
}

broadcast proof fn keeps_cleared(core: SpecClientCore)
    requires
        core.sound(),
    ensures
        (#[trigger] core.cleared()).sound(),
        core.cleared().config == core.config,
{
    reveal(SpecClientCore::in_sync);
    reveal(SpecClientCore::cleared);
    broadcast use {flow::group_content_stays_sound};
    if let Some(committed) = core.committed {
        lemma_sent_does_not_show(committed, core.config.author, core.pending, restarting::unsent());
    }
    assert(core.pending.map_values(restarting::unsent()).map_values(live::as_shown()) =~= core.pending.map_values(
        live::as_shown(),
    ));
}

broadcast proof fn keeps_turned_away(core: SpecClientCore, error: SpecRpcError)
    requires
        core.sound(),
    ensures
        (#[trigger] core.turned_away(error)).sound(),
        core.turned_away(error).config == core.config,
{
    reveal(SpecClientCore::in_sync);
    reveal(SpecClientCore::turned_away);
    broadcast use {flow::group_content_stays_sound, keeps_cleared};
}

broadcast proof fn keeps_welcomed(core: SpecClientCore)
    requires
        core.sound(),
    ensures
        match #[trigger] core.welcomed() {
            Ok(c) => c.sound() && c.config == core.config,
            Err(_) => true,
        },
{
    reveal(SpecClientCore::in_sync);
    reveal(SpecClientCore::welcomed);
    broadcast use {flow::group_content_stays_sound};
}

broadcast proof fn keeps_came_up(core: SpecClientCore, last_seq: EventSeq)
    requires
        core.sound(),
    ensures
        (#[trigger] core.came_up(last_seq)).sound(),
        core.came_up(last_seq).config == core.config,
{
    reveal(SpecClientCore::in_sync);
    reveal(SpecClientCore::came_up);
    broadcast use {flow::group_content_stays_sound};
}

broadcast proof fn keeps_resent(core: SpecClientCore, pending: Seq<SpecPending>)
    requires
        core.sound(),
    ensures
        (#[trigger] core.resent(pending)).sound(),
        core.resent(pending).config == core.config,
    decreases pending.len(),
{
    reveal(SpecClientCore::in_sync);
    broadcast use {flow::group_content_stays_sound};
    if pending.len() > 0 {
        keeps_resent(core, pending.drop_last());
    }
}

broadcast proof fn keeps_sent_again(core: SpecClientCore)
    requires
        core.sound(),
    ensures
        (#[trigger] core.sent_again()).sound(),
        core.sent_again().config == core.config,
{
    reveal(SpecClientCore::in_sync);
    reveal(SpecClientCore::sent_again);
    broadcast use {flow::group_content_stays_sound, keeps_resent};
    if let Some(committed) = core.committed {
        lemma_sent_does_not_show(committed, core.config.author, core.pending, answering::all_sent());
    }
    assert(core.pending.map_values(answering::all_sent()).map_values(live::as_shown()) =~= core.pending.map_values(
        live::as_shown(),
    ));
}

broadcast proof fn keeps_all_previewed(core: SpecClientCore, ids: Seq<CommentId>)
    requires
        core.sound(),
    ensures
        (#[trigger] core.all_previewed(ids)).sound(),
        core.all_previewed(ids).config == core.config,
    decreases ids.len(),
{
    reveal(SpecClientCore::in_sync);
    broadcast use {flow::group_content_stays_sound, keeps_preview_suggestion};
    if ids.len() > 0 {
        keeps_all_previewed(core, ids.drop_last());
    }
}

broadcast proof fn keeps_answer_subscribed(core: SpecClientCore, seq: EventSeq)
    requires
        core.sound(),
    ensures
        match #[trigger] core.answer_subscribed(seq) {
            Ok(c) => c.sound() && c.config == core.config,
            Err(_) => true,
        },
{
    reveal(SpecClientCore::in_sync);
    reveal(SpecClientCore::answer_subscribed);
    broadcast use {
        flow::group_content_stays_sound,
        keeps_came_up,
        keeps_sent_again,
        keeps_creation_reconnected,
        keeps_all_previewed,
    };
}

broadcast proof fn keeps_reviews_asked(core: SpecClientCore, workspaces: Seq<SpecWorkspace>)
    requires
        core.sound(),
    ensures
        (#[trigger] core.reviews_asked(workspaces)).sound(),
        core.reviews_asked(workspaces).config == core.config,
    decreases workspaces.len(),
{
    reveal(SpecClientCore::in_sync);
    broadcast use {flow::group_content_stays_sound};
    if workspaces.len() > 0 {
        keeps_reviews_asked(core, workspaces.drop_last());
    }
}

broadcast proof fn keeps_answer_workspaces(core: SpecClientCore, workspaces: Seq<SpecWorkspace>)
    requires
        core.sound(),
    ensures
        (#[trigger] core.answer_workspaces(workspaces)).sound(),
        core.answer_workspaces(workspaces).config == core.config,
{
    reveal(SpecClientCore::in_sync);
    reveal(SpecClientCore::answer_workspaces);
    broadcast use {flow::group_content_stays_sound, keeps_reviews_asked};
}

broadcast proof fn keeps_answer_reviews(
    core: SpecClientCore,
    workspace_id: WorkspaceId,
    reviews: Seq<SpecReview>,
)
    requires
        core.sound(),
    ensures
        (#[trigger] core.answer_reviews(workspace_id, reviews)).sound(),
        core.answer_reviews(workspace_id, reviews).config == core.config,
{
    reveal(SpecClientCore::in_sync);
    reveal(SpecClientCore::answer_reviews);
    broadcast use {flow::group_content_stays_sound};
}

broadcast proof fn keeps_adopted(
    core: SpecClientCore,
    snapshot: SpecReviewSnapshot,
    pending: Seq<SpecPending>,
)
    requires
        core.sound(),
    ensures
        (#[trigger] core.adopted(snapshot, pending)).sound(),
        core.adopted(snapshot, pending).config == core.config,
{
    reveal(SpecClientCore::in_sync);
    reveal(SpecClientCore::adopted);
    broadcast use {flow::group_content_stays_sound, keeps_rebased};
}

broadcast proof fn keeps_installed(core: SpecClientCore, id: RequestId, snapshot: SpecReviewSnapshot)
    requires
        core.sound(),
    ensures
        (#[trigger] core.installed(id, snapshot)).sound(),
        core.installed(id, snapshot).config == core.config,
{
    reveal(SpecClientCore::in_sync);
    reveal(SpecClientCore::installed);
    broadcast use {flow::group_content_stays_sound, keeps_closed_review, keeps_adopted};
}

broadcast proof fn keeps_focus_comment(core: SpecClientCore, comment_id: CommentId)
    requires
        core.sound(),
    ensures
        match #[trigger] core.focus_comment(comment_id) {
            Ok(c) => c.sound() && c.config == core.config,
            Err(_) => true,
        },
{
    reveal(SpecClientCore::in_sync);
    reveal(SpecClientCore::focus_comment);
    broadcast use {flow::group_content_stays_sound, keeps_reference_error};
}

broadcast proof fn keeps_pointed(core: SpecClientCore, reference: SpecReviewReference)
    requires
        core.sound(),
    ensures
        (#[trigger] core.pointed(reference)).sound(),
        core.pointed(reference).config == core.config,
{
    reveal(SpecClientCore::in_sync);
    reveal(SpecClientCore::pointed);
    broadcast use {flow::group_content_stays_sound, keeps_reference_error, keeps_focus_comment};
}

broadcast proof fn keeps_landed_in(core: SpecClientCore, review_id: ReviewId)
    requires
        core.sound(),
    ensures
        (#[trigger] core.landed_in(review_id)).sound(),
        core.landed_in(review_id).config == core.config,
{
    reveal(SpecClientCore::in_sync);
    reveal(SpecClientCore::landed_in);
    reveal(SpecClientCore::land_reference);
    broadcast use {
        flow::group_content_stays_sound,
        keeps_pointed,
        keeps_closed_review,
        keeps_reference_error,
        keeps_rebased,
    };
}

broadcast proof fn keeps_answer_snapshot(
    core: SpecClientCore,
    id: RequestId,
    review_id: ReviewId,
    snapshot: SpecReviewSnapshot,
)
    requires
        core.sound(),
    ensures
        match #[trigger] core.answer_snapshot(id, review_id, snapshot) {
            Ok(c) => c.sound() && c.config == core.config,
            Err(_) => true,
        },
{
    reveal(SpecClientCore::in_sync);
    reveal(SpecClientCore::answer_snapshot);
    broadcast use {
        flow::group_content_stays_sound,
        keeps_installed,
        keeps_review_trees,
        keeps_landed_in,
    };
}

broadcast proof fn keeps_rescoped(core: SpecClientCore, resolved: Seq<ResolvedTarget>)
    requires
        core.sound(),
    ensures
        (#[trigger] core.rescoped(resolved)).sound(),
        core.rescoped(resolved).config == core.config,
{
    reveal(SpecClientCore::in_sync);
    reveal(SpecClientCore::rescoped);
    broadcast use {flow::group_content_stays_sound, keeps_rebased, keeps_review_trees};
}

broadcast proof fn keeps_want_chunks_for(
    core: SpecClientCore,
    render: SpecRenderKey,
    content: SpecRenderContent,
)
    requires
        core.sound(),
    ensures
        (#[trigger] core.want_chunks_for(render, content)).sound(),
        core.want_chunks_for(render, content).config == core.config,
{
    reveal(SpecClientCore::in_sync);
    reveal(SpecClientCore::want_chunks_for);
    broadcast use {flow::group_content_stays_sound, keeps_want_viewport_chunks};
}

broadcast proof fn keeps_prefetched(core: SpecClientCore, review_id: ReviewId, render: SpecRenderKey)
    requires
        core.sound(),
    ensures
        (#[trigger] core.prefetched(review_id, render)).sound(),
        core.prefetched(review_id, render).config == core.config,
{
    reveal(SpecClientCore::in_sync);
    reveal(SpecClientCore::prefetched);
    broadcast use {flow::group_content_stays_sound, keeps_want_chunks_for};
}

broadcast proof fn keeps_all_prefetched(
    core: SpecClientCore,
    review_id: ReviewId,
    renders: Seq<SpecRenderKey>,
)
    requires
        core.sound(),
    ensures
        (#[trigger] core.all_prefetched(review_id, renders)).sound(),
        core.all_prefetched(review_id, renders).config == core.config,
    decreases renders.len(),
{
    reveal(SpecClientCore::in_sync);
    broadcast use {flow::group_content_stays_sound, keeps_prefetched};
    if renders.len() > 0 {
        keeps_all_prefetched(core, review_id, renders.drop_last());
    }
}

broadcast proof fn keeps_auto_open_first(core: SpecClientCore)
    requires
        core.sound(),
    ensures
        (#[trigger] core.auto_open_first()).sound(),
        core.auto_open_first().config == core.config,
{
    reveal(SpecClientCore::in_sync);
    reveal(SpecClientCore::auto_open_first);
    broadcast use {flow::group_content_stays_sound, keeps_viewport};
}

broadcast proof fn keeps_review_files(core: SpecClientCore, review_id: ReviewId, files: Seq<SpecFileChange>)
    requires
        core.sound(),
    ensures
        (#[trigger] core.review_files(review_id, files)).sound(),
        core.review_files(review_id, files).config == core.config,
{
    reveal(SpecClientCore::in_sync);
    reveal(SpecClientCore::review_files);
    broadcast use {
        flow::group_content_stays_sound,
        keeps_retained,
        keeps_all_prefetched,
        keeps_auto_open_first,
    };
}

broadcast proof fn keeps_answer_files(
    core: SpecClientCore,
    review_id: ReviewId,
    files: Seq<SpecFileChange>,
    resolved: Seq<ResolvedTarget>,
)
    requires
        core.sound(),
    ensures
        (#[trigger] core.answer_files(review_id, files, resolved)).sound(),
        core.answer_files(review_id, files, resolved).config == core.config,
{
    reveal(SpecClientCore::in_sync);
    reveal(SpecClientCore::answer_files);
    broadcast use {flow::group_content_stays_sound, keeps_rescoped, keeps_review_files};
}

broadcast proof fn keeps_stepped_into(core: SpecClientCore, repo_id: RepoId)
    requires
        core.sound(),
    ensures
        (#[trigger] core.stepped_into(repo_id)).sound(),
        core.stepped_into(repo_id).config == core.config,
{
    reveal(SpecClientCore::in_sync);
    reveal(SpecClientCore::stepped_into);
    broadcast use {flow::group_content_stays_sound, keeps_apply_scope};
}

broadcast proof fn keeps_answer_commits(core: SpecClientCore, repo_id: RepoId, commits: Seq<SpecCommitInfo>)
    requires
        core.sound(),
    ensures
        (#[trigger] core.answer_commits(repo_id, commits)).sound(),
        core.answer_commits(repo_id, commits).config == core.config,
{
    reveal(SpecClientCore::in_sync);
    reveal(SpecClientCore::answer_commits);
    broadcast use {flow::group_content_stays_sound, keeps_stepped_into};
}

broadcast proof fn keeps_answer_refs(
    core: SpecClientCore,
    id: RequestId,
    repo_id: RepoId,
    of: RepoId,
    refs: Seq<SpecRefCandidate>,
)
    requires
        core.sound(),
    ensures
        match #[trigger] core.answer_refs(id, repo_id, of, refs) {
            Ok(c) => c.sound() && c.config == core.config,
            Err(_) => true,
        },
{
    reveal(SpecClientCore::in_sync);
    reveal(SpecClientCore::answer_refs);
    broadcast use {flow::group_content_stays_sound, keeps_installed};
}

broadcast proof fn keeps_answer_search(
    core: SpecClientCore,
    id: RequestId,
    hits: Seq<SpecContentHit>,
    truncated: bool,
)
    requires
        core.sound(),
    ensures
        (#[trigger] core.answer_search(id, hits, truncated)).sound(),
        core.answer_search(id, hits, truncated).config == core.config,
{
    reveal(SpecClientCore::in_sync);
    reveal(SpecClientCore::answer_search);
    broadcast use {flow::group_content_stays_sound};
}

broadcast proof fn keeps_browse_refused(
    core: SpecClientCore,
    message: Seq<char>,
    status: SpecRefSelectorStatus,
    repo_only: bool,
)
    requires
        core.sound(),
    ensures
        (#[trigger] core.browse_refused(message, status, repo_only)).sound(),
        core.browse_refused(message, status, repo_only).config == core.config,
{
    reveal(SpecClientCore::in_sync);
    reveal(SpecClientCore::browse_refused);
    broadcast use {flow::group_content_stays_sound};
}

broadcast proof fn keeps_stocked(
    core: SpecClientCore,
    key: SpecCacheKey,
    value: SpecCacheValue,
    size: Bytes,
    via: Arrival,
)
    requires
        core.sound(),
    ensures
        (#[trigger] core.stocked(key, value, size, via)).sound(),
        core.stocked(key, value, size, via).config == core.config,
{
    reveal(SpecClientCore::in_sync);
    reveal(SpecClientCore::stocked);
    broadcast use {flow::group_content_stays_sound};
}

broadcast proof fn keeps_listed(core: SpecClientCore, render: SpecRenderKey)
    requires
        core.sound(),
    ensures
        (#[trigger] core.listed(render)).sound(),
        core.listed(render).config == core.config,
{
    reveal(SpecClientCore::in_sync);
    reveal(SpecClientCore::listed);
    broadcast use {flow::group_content_stays_sound};
}

broadcast proof fn keeps_arrived(
    core: SpecClientCore,
    key: SpecCacheKey,
    value: SpecCacheValue,
    size: Bytes,
    via: Arrival,
)
    requires
        core.sound(),
    ensures
        (#[trigger] core.arrived(key, value, size, via)).sound(),
        core.arrived(key, value, size, via).config == core.config,
{
    reveal(SpecClientCore::in_sync);
    reveal(SpecClientCore::arrived);
    broadcast use {
        flow::group_content_stays_sound,
        keeps_stocked,
        keeps_listed,
        keeps_want_chunks_for,
    };
}

broadcast proof fn keeps_browse_committed(
    core: SpecClientCore,
    target: SpecBrowseTarget,
    snapshot: SpecTreeSnapshot,
    size: Bytes,
)
    requires
        core.sound(),
    ensures
        (#[trigger] core.browse_committed(target, snapshot, size)).sound(),
        core.browse_committed(target, snapshot, size).config == core.config,
{
    reveal(SpecClientCore::in_sync);
    reveal(SpecClientCore::browse_committed);
    broadcast use {flow::group_content_stays_sound, keeps_arrived, keeps_review_trees};
}

broadcast proof fn keeps_browse_answer(
    core: SpecClientCore,
    id: RequestId,
    repo_id: RepoId,
    snapshot: SpecTreeSnapshot,
    size: Bytes,
)
    requires
        core.sound(),
    ensures
        match #[trigger] core.browse_answer(id, repo_id, snapshot, size) {
            Ok(c) => c.sound() && c.config == core.config,
            Err(_) => true,
        },
{
    reveal(SpecClientCore::in_sync);
    reveal(SpecClientCore::browse_answer);
    broadcast use {flow::group_content_stays_sound, keeps_browse_refused, keeps_browse_committed};
}

broadcast proof fn keeps_answer_tree(
    core: SpecClientCore,
    id: RequestId,
    tree: TreeKey,
    snapshot: SpecTreeSnapshot,
    size: Bytes,
)
    requires
        core.sound(),
    ensures
        match #[trigger] core.answer_tree(id, tree, snapshot, size) {
            Ok(c) => c.sound() && c.config == core.config,
            Err(_) => true,
        },
{
    reveal(SpecClientCore::in_sync);
    reveal(SpecClientCore::answer_tree);
    broadcast use {flow::group_content_stays_sound, keeps_arrived};
}

broadcast proof fn keeps_answer_chunk(
    core: SpecClientCore,
    id: RequestId,
    render: SpecRenderKey,
    index: ChunkIndex,
    chunk: SpecRenderChunk,
    size: Bytes,
)
    requires
        core.sound(),
    ensures
        match #[trigger] core.answer_chunk(id, render, index, chunk, size) {
            Ok(c) => c.sound() && c.config == core.config,
            Err(_) => true,
        },
{
    reveal(SpecClientCore::in_sync);
    reveal(SpecClientCore::answer_chunk);
    broadcast use {flow::group_content_stays_sound, keeps_arrived};
}

broadcast proof fn keeps_answer_committed(core: SpecClientCore, client_seq: ClientSeq, event: SpecEvent)
    requires
        core.sound(),
        core.echo_fits(event),
    ensures
        match #[trigger] core.answer_committed(client_seq, event) {
            Ok(c) => c.sound() && c.config == core.config,
            Err(_) => true,
        },
{
    reveal(SpecClientCore::in_sync);
    reveal(SpecClientCore::answer_committed);
    broadcast use {flow::group_content_stays_sound, keeps_rebased, keeps_applied};
    lemma_filter_all(core.pending, live::not_seq(client_seq));
}

broadcast proof fn keeps_suggestion_settled(
    core: SpecClientCore,
    request_id: RequestId,
    review_id: ReviewId,
    id: CommentId,
)
    requires
        core.sound(),
    ensures
        (#[trigger] core.suggestion_settled(request_id, review_id, id)).sound(),
        core.suggestion_settled(request_id, review_id, id).config == core.config,
{
    reveal(SpecClientCore::in_sync);
    reveal(SpecClientCore::suggestion_settled);
    broadcast use {flow::group_content_stays_sound};
}

broadcast proof fn keeps_suggestion_applied(
    core: SpecClientCore,
    request_id: RequestId,
    review_id: ReviewId,
    id: CommentId,
    event: SpecEvent,
)
    requires
        core.sound(),
        core.echo_fits(event),
    ensures
        match #[trigger] core.suggestion_applied(request_id, review_id, id, event) {
            Ok(c) => c.sound() && c.config == core.config,
            Err(_) => true,
        },
{
    reveal(SpecClientCore::in_sync);
    reveal(SpecClientCore::suggestion_applied);
    reveal(SpecClientCore::suggestion_settled);
    broadcast use {flow::group_content_stays_sound, keeps_suggestion_settled, keeps_applied};
}

broadcast proof fn keeps_receipt_seen(core: SpecClientCore, id: CommentId, outcome: SuggestionOutcome)
    requires
        core.sound(),
    ensures
        (#[trigger] core.receipt_seen(id, outcome)).sound(),
        core.receipt_seen(id, outcome).config == core.config,
{
    reveal(SpecClientCore::in_sync);
    reveal(SpecClientCore::receipt_seen);
    broadcast use {flow::group_content_stays_sound, keeps_rebased};
}

broadcast proof fn keeps_suggestion_previewed(
    core: SpecClientCore,
    request_id: RequestId,
    review_id: ReviewId,
    id: CommentId,
    preview: SpecSuggestionPreview,
)
    requires
        core.sound(),
    ensures
        match #[trigger] core.suggestion_previewed(request_id, review_id, id, preview) {
            Ok(c) => c.sound() && c.config == core.config,
            Err(_) => true,
        },
{
    reveal(SpecClientCore::in_sync);
    reveal(SpecClientCore::suggestion_previewed);
    broadcast use {flow::group_content_stays_sound, keeps_receipt_seen};
}

broadcast proof fn keeps_creation_default_answer(
    core: SpecClientCore,
    review_id: ReviewId,
    repo_id: RepoId,
    state: SpecCreationDefaultState,
)
    requires
        core.sound(),
    ensures
        (#[trigger] core.creation_default_answer(review_id, repo_id, state)).sound(),
        core.creation_default_answer(review_id, repo_id, state).config == core.config,
{
    reveal(SpecClientCore::in_sync);
    reveal(SpecClientCore::creation_default_answer);
    broadcast use {flow::group_content_stays_sound};
}

broadcast proof fn keeps_content_response_to(
    core: SpecClientCore,
    id: RequestId,
    waiting: SpecInFlight,
    response: SpecResponse,
    size: Bytes,
)
    requires
        core.sound(),
        response_fits(core, response),
    ensures
        match #[trigger] core.content_response_to(id, waiting, response, size) {
            Ok(c) => c.sound() && c.config == core.config,
            Err(_) => true,
        },
{
    reveal(SpecClientCore::in_sync);
    reveal(SpecClientCore::content_response_to);
    broadcast use {
        flow::group_content_stays_sound,
        keeps_browse_answer,
        keeps_answer_tree,
        keeps_answer_chunk,
        keeps_answer_committed,
        keeps_suggestion_applied,
        keeps_suggestion_previewed,
        keeps_creation_default_answer,
        keeps_creation_found,
    };
}

broadcast proof fn keeps_response_to(
    core: SpecClientCore,
    id: RequestId,
    waiting: SpecInFlight,
    response: SpecResponse,
    size: Bytes,
)
    requires
        core.sound(),
        response_fits(core, response),
    ensures
        match #[trigger] core.response_to(id, waiting, response, size) {
            Ok(c) => c.sound() && c.config == core.config,
            Err(_) => true,
        },
{
    reveal(SpecClientCore::in_sync);
    reveal(SpecClientCore::response_to);
    broadcast use {
        flow::group_content_stays_sound,
        keeps_answer_subscribed,
        keeps_answer_workspaces,
        keeps_answer_reviews,
        keeps_answer_snapshot,
        keeps_answer_files,
        keeps_answer_commits,
        keeps_answer_refs,
        keeps_answer_search,
        keeps_content_response_to,
    };
}

broadcast proof fn keeps_request_done(core: SpecClientCore, id: RequestId)
    requires
        core.sound(),
    ensures
        (#[trigger] core.request_done(id)).sound(),
        core.request_done(id).config == core.config,
{
    reveal(SpecClientCore::in_sync);
    reveal(SpecClientCore::request_done);
    broadcast use {flow::group_content_stays_sound};
}

broadcast proof fn keeps_responded(core: SpecClientCore, id: RequestId, response: SpecResponse, size: Bytes)
    requires
        core.sound(),
        response_fits(core, response),
    ensures
        match #[trigger] core.responded(id, response, size) {
            Ok(c) => c.sound() && c.config == core.config,
            Err(_) => true,
        },
{
    reveal(SpecClientCore::in_sync);
    reveal(SpecClientCore::responded);
    broadcast use {flow::group_content_stays_sound, keeps_response_to, keeps_request_done};
}

broadcast proof fn keeps_stream_snapshot(
    core: SpecClientCore,
    id: RequestId,
    review_id: ReviewId,
    snapshot: SpecReviewSnapshot,
)
    requires
        core.sound(),
    ensures
        match #[trigger] core.stream_snapshot(id, review_id, snapshot) {
            Ok(c) => c.sound() && c.config == core.config,
            Err(_) => true,
        },
{
    reveal(SpecClientCore::in_sync);
    reveal(SpecClientCore::stream_snapshot);
    broadcast use {
        flow::group_content_stays_sound,
        keeps_installed,
        keeps_review_trees,
        keeps_landed_in,
    };
}

broadcast proof fn keeps_opening_chunk(
    core: SpecClientCore,
    id: RequestId,
    repo_id: RepoId,
    path: SpecRepoPath,
    chunk: SpecRenderChunk,
    size: Bytes,
)
    requires
        core.sound(),
    ensures
        match #[trigger] core.opening_chunk(id, repo_id, path, chunk, size) {
            Ok(c) => c.sound() && c.config == core.config,
            Err(_) => true,
        },
{
    reveal(SpecClientCore::in_sync);
    reveal(SpecClientCore::opening_chunk);
    broadcast use {flow::group_content_stays_sound, keeps_arrived};
}

broadcast proof fn keeps_stream_chunk(
    core: SpecClientCore,
    id: RequestId,
    render: SpecRenderKey,
    stop_after: ChunkIndex,
    chunk: SpecRenderChunk,
    size: Bytes,
)
    requires
        core.sound(),
    ensures
        (#[trigger] core.stream_chunk(id, render, stop_after, chunk, size)).sound(),
        core.stream_chunk(id, render, stop_after, chunk, size).config == core.config,
{
    reveal(SpecClientCore::in_sync);
    reveal(SpecClientCore::stream_chunk);
    broadcast use {flow::group_content_stays_sound, keeps_arrived};
}

broadcast proof fn keeps_streamed(core: SpecClientCore, id: RequestId, item: SpecStreamItem, size: Bytes)
    requires
        core.sound(),
    ensures
        match #[trigger] core.streamed(id, item, size) {
            Ok(c) => c.sound() && c.config == core.config,
            Err(_) => true,
        },
{
    reveal(SpecClientCore::in_sync);
    reveal(SpecClientCore::streamed);
    broadcast use {
        flow::group_content_stays_sound,
        keeps_stream_snapshot,
        keeps_arrived,
        keeps_opening_chunk,
        keeps_stream_chunk,
    };
}

broadcast proof fn keeps_opened_stream(core: SpecClientCore)
    requires
        core.sound(),
    ensures
        (#[trigger] core.opened_stream()).sound(),
        core.opened_stream().config == core.config,
{
    reveal(SpecClientCore::in_sync);
    reveal(SpecClientCore::opened_stream);
    broadcast use {flow::group_content_stays_sound, keeps_auto_open_first};
}

broadcast proof fn keeps_content_failed(core: SpecClientCore, key: SpecCacheKey)
    requires
        core.sound(),
    ensures
        (#[trigger] core.content_failed(key)).sound(),
        core.content_failed(key).config == core.config,
{
    reveal(SpecClientCore::in_sync);
    reveal(SpecClientCore::content_failed);
    broadcast use {flow::group_content_stays_sound};
}

broadcast proof fn keeps_stream_ended(core: SpecClientCore, id: RequestId)
    requires
        core.sound(),
    ensures
        match #[trigger] core.stream_ended(id) {
            Ok(c) => c.sound() && c.config == core.config,
            Err(_) => true,
        },
{
    reveal(SpecClientCore::in_sync);
    reveal(SpecClientCore::stream_ended);
    broadcast use {
        flow::group_content_stays_sound,
        keeps_request_done,
        keeps_opened_stream,
        keeps_content_failed,
    };
}

broadcast proof fn keeps_with_last_error(core: SpecClientCore, error: SpecRpcError)
    requires
        core.sound(),
    ensures
        (#[trigger] core.with_last_error(error)).sound(),
        core.with_last_error(error).config == core.config,
{
    reveal(SpecClientCore::in_sync);
    reveal(SpecClientCore::with_last_error);
    broadcast use {flow::group_content_stays_sound};
}

broadcast proof fn keeps_with_selector_status(core: SpecClientCore, status: SpecRefSelectorStatus)
    requires
        core.sound(),
    ensures
        (#[trigger] core.with_selector_status(status)).sound(),
        core.with_selector_status(status).config == core.config,
{
    reveal(SpecClientCore::in_sync);
    reveal(SpecClientCore::with_selector_status);
    broadcast use {flow::group_content_stays_sound};
}

broadcast proof fn keeps_mutation_refused(core: SpecClientCore, client_seq: ClientSeq, error: SpecRpcError)
    requires
        core.sound(),
    ensures
        (#[trigger] core.mutation_refused(client_seq, error)).sound(),
        core.mutation_refused(client_seq, error).config == core.config,
{
    reveal(SpecClientCore::in_sync);
    reveal(SpecClientCore::mutation_refused);
    broadcast use {flow::group_content_stays_sound, keeps_rebased, keeps_with_selector_status};
}

broadcast proof fn keeps_browse_failed(core: SpecClientCore, id: RequestId, error: SpecRpcError)
    requires
        core.sound(),
    ensures
        (#[trigger] core.browse_failed(id, error)).sound(),
        core.browse_failed(id, error).config == core.config,
{
    reveal(SpecClientCore::in_sync);
    reveal(SpecClientCore::browse_failed);
    broadcast use {flow::group_content_stays_sound, keeps_browse_refused};
}

broadcast proof fn keeps_reference_dropped(core: SpecClientCore, review_id: ReviewId)
    requires
        core.sound(),
    ensures
        (#[trigger] core.reference_dropped(review_id)).sound(),
        core.reference_dropped(review_id).config == core.config,
{
    reveal(SpecClientCore::in_sync);
    reveal(SpecClientCore::reference_dropped);
    broadcast use {flow::group_content_stays_sound};
}

broadcast proof fn keeps_creation_write_failed(core: SpecClientCore, review_id: ReviewId, error: SpecRpcError)
    requires
        core.sound(),
    ensures
        (#[trigger] core.creation_write_failed(review_id, error)).sound(),
        core.creation_write_failed(review_id, error).config == core.config,
{
    reveal(SpecClientCore::in_sync);
    reveal(SpecClientCore::creation_write_failed);
    broadcast use {flow::group_content_stays_sound};
}

broadcast proof fn keeps_creation_lookup_failed(
    core: SpecClientCore,
    review_id: ReviewId,
    error: SpecRpcError,
)
    requires
        core.sound(),
    ensures
        (#[trigger] core.creation_lookup_failed(review_id, error)).sound(),
        core.creation_lookup_failed(review_id, error).config == core.config,
{
    reveal(SpecClientCore::in_sync);
    reveal(SpecClientCore::creation_lookup_failed);
    broadcast use {flow::group_content_stays_sound, keeps_send_creation};
}

broadcast proof fn keeps_creation_failure_checked(
    core: SpecClientCore,
    review_id: ReviewId,
    original: SpecRpcError,
    lookup: SpecRpcError,
)
    requires
        core.sound(),
    ensures
        (#[trigger] core.creation_failure_checked(review_id, original, lookup)).sound(),
        core.creation_failure_checked(review_id, original, lookup).config == core.config,
{
    reveal(SpecClientCore::in_sync);
    reveal(SpecClientCore::creation_failure_checked);
    broadcast use {flow::group_content_stays_sound, keeps_creation_lookup_failed};
}

broadcast proof fn keeps_suggestion_failed(
    core: SpecClientCore,
    request_id: RequestId,
    review_id: ReviewId,
    id: CommentId,
    error: SpecRpcError,
)
    requires
        core.sound(),
    ensures
        (#[trigger] core.suggestion_failed(request_id, review_id, id, error)).sound(),
        core.suggestion_failed(request_id, review_id, id, error).config == core.config,
{
    reveal(SpecClientCore::in_sync);
    reveal(SpecClientCore::suggestion_failed);
    broadcast use {flow::group_content_stays_sound};
}

broadcast proof fn keeps_failure_of(
    core: SpecClientCore,
    id: RequestId,
    waiting: SpecInFlight,
    error: SpecRpcError,
)
    requires
        core.sound(),
    ensures
        (#[trigger] core.failure_of(id, waiting, error)).sound(),
        core.failure_of(id, waiting, error).config == core.config,
{
    reveal(SpecClientCore::in_sync);
    reveal(SpecClientCore::failure_of);
    broadcast use {
        flow::group_content_stays_sound,
        keeps_mutation_refused,
        keeps_with_selector_status,
        keeps_browse_failed,
        keeps_reference_dropped,
        keeps_creation_default_answer,
        keeps_creation_write_failed,
        keeps_creation_failure_checked,
        keeps_creation_lookup_failed,
        keeps_suggestion_failed,
    };
}

broadcast proof fn keeps_content_lost(core: SpecClientCore, waiting: SpecInFlight)
    requires
        core.sound(),
    ensures
        (#[trigger] core.content_lost(waiting)).sound(),
        core.content_lost(waiting).config == core.config,
{
    reveal(SpecClientCore::in_sync);
    reveal(SpecClientCore::content_lost);
    broadcast use {flow::group_content_stays_sound, keeps_content_failed};
}

broadcast proof fn keeps_request_failed(core: SpecClientCore, id: RequestId, error: SpecRpcError)
    requires
        core.sound(),
    ensures
        match #[trigger] core.request_failed(id, error) {
            Ok(c) => c.sound() && c.config == core.config,
            Err(_) => true,
        },
{
    reveal(SpecClientCore::in_sync);
    reveal(SpecClientCore::request_failed);
    broadcast use {
        flow::group_content_stays_sound,
        keeps_request_done,
        keeps_with_last_error,
        keeps_failure_of,
        keeps_content_lost,
    };
}

broadcast proof fn keeps_event_seen(core: SpecClientCore, event: SpecEvent)
    requires
        core.sound(),
        core.echo_fits(event),
    ensures
        match #[trigger] core.event_seen(event) {
            Ok(c) => c.sound() && c.config == core.config,
            Err(_) => true,
        },
{
    reveal(SpecClientCore::in_sync);
    reveal(SpecClientCore::event_seen);
    broadcast use {flow::group_content_stays_sound, keeps_applied};
}

broadcast proof fn keeps_tree_delta(core: SpecClientCore, delta: SpecTreeDelta, size: Bytes)
    requires
        core.sound(),
    ensures
        (#[trigger] core.tree_delta(delta, size)).sound(),
        core.tree_delta(delta, size).config == core.config,
{
    reveal(SpecClientCore::in_sync);
    reveal(SpecClientCore::tree_delta);
    reveal(SpecContent::sound);
    broadcast use {flow::group_content_stays_sound, keeps_arrived};
    let from = SpecCacheKey::Tree { tree: TreeKey { repo_id: delta.repo_id, root: delta.from_root } };
    let content = core.flow.content;
    cache::pinning_and_removing_keep_the_cache_sound(content.cache, from);
    assert((SpecContent { cache: content.cache.removed(from), ..content }).sound());
}

broadcast proof fn keeps_tree_moved(core: SpecClientCore, delta: crate::protocol::SpecTreeDelta, size: Bytes)
    requires
        core.sound(),
    ensures
        match #[trigger] core.tree_moved(delta, size) {
            Ok(c) => c.sound() && c.config == core.config,
            Err(_) => true,
        },
{
    reveal(SpecClientCore::in_sync);
    reveal(SpecClientCore::tree_moved);
    broadcast use {flow::group_content_stays_sound, keeps_tree_delta};
}

broadcast proof fn keeps_served(core: SpecClientCore, msg: SpecServerMsg)
    requires
        core.sound(),
        message_fits(core, msg),
    ensures
        (#[trigger] core.served(msg)).0.sound(),
        core.served(msg).0.config == core.config,
{
    reveal(SpecClientCore::in_sync);
    reveal(SpecClientCore::served);
    broadcast use {
        flow::group_content_stays_sound,
        keeps_turned_away,
        keeps_welcomed,
        keeps_responded,
        keeps_streamed,
        keeps_stream_ended,
        keeps_request_failed,
        keeps_event_seen,
        keeps_tree_moved,
    };
}

broadcast proof fn keeps_greeted(core: SpecClientCore)
    requires
        core.sound(),
    ensures
        (#[trigger] core.greeted()).sound(),
        core.greeted().config == core.config,
{
    reveal(SpecClientCore::in_sync);
    reveal(SpecClientCore::greeted);
    broadcast use {flow::group_content_stays_sound};
}

broadcast proof fn keeps_restart_disconnected(core: SpecClientCore)
    requires
        core.sound(),
    ensures
        (#[trigger] core.restart_disconnected()).sound(),
        core.restart_disconnected().config == core.config,
{
    reveal(SpecClientCore::in_sync);
    reveal(SpecClientCore::restart_disconnected);
    broadcast use {flow::group_content_stays_sound};
}

broadcast proof fn keeps_selector_lost(core: SpecClientCore)
    requires
        core.sound(),
    ensures
        (#[trigger] core.selector_lost()).sound(),
        core.selector_lost().config == core.config,
{
    reveal(SpecClientCore::in_sync);
    reveal(SpecClientCore::selector_lost);
    broadcast use {flow::group_content_stays_sound};
}

broadcast proof fn keeps_browse_disconnected(core: SpecClientCore)
    requires
        core.sound(),
    ensures
        (#[trigger] core.browse_disconnected()).sound(),
        core.browse_disconnected().config == core.config,
{
    reveal(SpecClientCore::in_sync);
    reveal(SpecClientCore::browse_disconnected);
    broadcast use {flow::group_content_stays_sound, keeps_browse_refused};
}

broadcast proof fn keeps_went_down(core: SpecClientCore)
    requires
        core.sound(),
    ensures
        (#[trigger] core.went_down()).sound(),
        core.went_down().config == core.config,
{
    reveal(SpecClientCore::in_sync);
    reveal(SpecClientCore::went_down);
    broadcast use {
        flow::group_content_stays_sound,
        keeps_cleared,
        keeps_restart_disconnected,
        keeps_selector_lost,
        keeps_creation_lost,
        keeps_browse_disconnected,
    };
}

broadcast proof fn keeps_transported(core: SpecClientCore, event: TransportEvent)
    requires
        core.sound(),
    ensures
        (#[trigger] core.transported(event)).sound(),
        core.transported(event).config == core.config,
{
    reveal(SpecClientCore::in_sync);
    reveal(SpecClientCore::transported);
    broadcast use {flow::group_content_stays_sound, keeps_greeted, keeps_went_down};
}

broadcast proof fn keeps_prefs_stored(core: SpecClientCore, value: SpecStored)
    requires
        core.sound(),
    ensures
        (#[trigger] core.prefs_stored(value)).sound(),
        core.prefs_stored(value).config == core.config,
{
    reveal(SpecClientCore::in_sync);
    reveal(SpecClientCore::prefs_stored);
    broadcast use {flow::group_content_stays_sound, keeps_apply_prefs};
}

broadcast proof fn keeps_keymap_stored(core: SpecClientCore, value: SpecStored)
    requires
        core.sound(),
    ensures
        (#[trigger] core.keymap_stored(value)).sound(),
        core.keymap_stored(value).config == core.config,
{
    reveal(SpecClientCore::in_sync);
    reveal(SpecClientCore::keymap_stored);
    broadcast use {flow::group_content_stays_sound};
}

broadcast proof fn keeps_load_answered(
    core: SpecClientCore,
    key: SpecCacheKey,
    fetch: SpecFetch,
    value: SpecStored,
)
    requires
        core.sound(),
    ensures
        (#[trigger] core.load_answered(key, fetch, value)).sound(),
        core.load_answered(key, fetch, value).config == core.config,
{
    reveal(SpecClientCore::in_sync);
    reveal(SpecClientCore::load_answered);
    broadcast use {flow::group_content_stays_sound, keeps_arrived};
    let content = core.flow.content;
    assert((SpecContent {
        disk: match content.disk {
            Some(d) => Some(d.forgot(key)),
            None => None,
        },
        ..content
    }).sound()) by {
        reveal(SpecContent::sound);
    }
}

broadcast proof fn keeps_stored(core: SpecClientCore, key: SpecCacheKey, value: SpecStored)
    requires
        core.sound(),
    ensures
        match #[trigger] core.stored(key, value) {
            Ok(c) => c.sound() && c.config == core.config,
            Err(_) => true,
        },
{
    reveal(SpecClientCore::in_sync);
    reveal(SpecClientCore::stored);
    broadcast use {flow::group_content_stays_sound, keeps_load_answered};
    let content = core.flow.content;
    assert((SpecContent { loads: content.loads.filter(cache::key_is_not(key)), ..content.forgot(key) }).sound()) by {
        reveal(SpecContent::sound);
    }
}

broadcast proof fn keeps_restart_overdue(core: SpecClientCore, operation: SpecUpgradeOperation)
    requires
        core.sound(),
    ensures
        (#[trigger] core.restart_overdue(operation)).sound(),
        core.restart_overdue(operation).config == core.config,
{
    reveal(SpecClientCore::in_sync);
    reveal(SpecClientCore::restart_overdue);
    broadcast use {flow::group_content_stays_sound, keeps_cleared};
}

broadcast proof fn keeps_restart_attempt(core: SpecClientCore)
    requires
        core.sound(),
    ensures
        (#[trigger] core.restart_attempt()).sound(),
        core.restart_attempt().config == core.config,
{
    reveal(SpecClientCore::in_sync);
    reveal(SpecClientCore::restart_attempt);
    broadcast use {flow::group_content_stays_sound};
}

broadcast proof fn keeps_restart_tick(core: SpecClientCore)
    requires
        core.sound(),
    ensures
        (#[trigger] core.restart_tick()).sound(),
        core.restart_tick().config == core.config,
{
    reveal(SpecClientCore::in_sync);
    reveal(SpecClientCore::restart_tick);
    broadcast use {flow::group_content_stays_sound, keeps_restart_overdue, keeps_restart_attempt};
}

broadcast proof fn keeps_ticked(core: SpecClientCore, ms: u64)
    requires
        core.sound(),
    ensures
        (#[trigger] core.ticked(ms)).sound(),
        core.ticked(ms).config == core.config,
{
    reveal(SpecClientCore::in_sync);
    reveal(SpecClientCore::ticked);
    broadcast use {flow::group_content_stays_sound, keeps_restart_tick};
}

broadcast proof fn keeps_continued(core: SpecClientCore, chord: KeyChord)
    requires
        core.sound(),
    ensures
        (#[trigger] core.continued(chord)).sound(),
        core.continued(chord).config == core.config,
{
    reveal(SpecClientCore::in_sync);
    reveal(SpecClientCore::continued);
    broadcast use {flow::group_content_stays_sound};
}

broadcast proof fn keeps_ran(core: SpecClientCore, target: SpecResolved)
    requires
        core.sound(),
    ensures
        match #[trigger] core.ran(target) {
            Ok(c) => c.sound() && c.config == core.config,
            Err(_) => true,
        },
{
    reveal(SpecClientCore::in_sync);
    reveal(SpecClientCore::ran);
    broadcast use {flow::group_content_stays_sound, keeps_acted};
}

broadcast proof fn keeps_keyed(core: SpecClientCore, chord: KeyChord, target: SpecResolved)
    requires
        core.sound(),
    ensures
        (#[trigger] core.keyed(chord, target)).0.sound(),
        core.keyed(chord, target).0.config == core.config,
{
    reveal(SpecClientCore::in_sync);
    reveal(SpecClientCore::keyed);
    broadcast use {flow::group_content_stays_sound, keeps_continued, keeps_ran};
}

broadcast proof fn keeps_judged(core: SpecClientCore, last_key: LastKey, refused: bool)
    requires
        core.sound(),
    ensures
        (#[trigger] core.judged(last_key, refused)).sound(),
        core.judged(last_key, refused).config == core.config,
{
    reveal(SpecClientCore::in_sync);
    reveal(SpecClientCore::judged);
    broadcast use {flow::group_content_stays_sound};
}

broadcast proof fn keeps_pressed(core: SpecClientCore, chord: KeyChord, target: SpecResolved)
    requires
        core.sound(),
    ensures
        (#[trigger] core.pressed(chord, target)).0.sound(),
        core.pressed(chord, target).0.config == core.config,
{
    reveal(SpecClientCore::in_sync);
    reveal(SpecClientCore::pressed);
    broadcast use {flow::group_content_stays_sound, keeps_keyed, keeps_judged};
}

broadcast proof fn keeps_restart_notice(core: SpecClientCore, operation: SpecUpgradeOperation)
    requires
        core.sound(),
    ensures
        (#[trigger] core.restart_notice(operation)).sound(),
        core.restart_notice(operation).config == core.config,
{
    reveal(SpecClientCore::in_sync);
    reveal(SpecClientCore::restart_notice);
    broadcast use {flow::group_content_stays_sound};
}

broadcast proof fn keeps_managed_daemon(
    core: SpecClientCore,
    id: ManagementRequestId,
    reply: SpecManagementReply,
)
    requires
        core.sound(),
    ensures
        (#[trigger] core.managed_daemon(id, reply)).sound(),
        core.managed_daemon(id, reply).config == core.config,
{
    reveal(SpecClientCore::in_sync);
    reveal(SpecClientCore::managed_daemon);
    broadcast use {flow::group_content_stays_sound};
}

broadcast proof fn keeps_taken(core: SpecClientCore, input: SpecInput)
    requires
        core.sound(),
        input_fits(core, input),
    ensures
        (#[trigger] core.taken(input)).0.sound(),
        core.taken(input).0.config == core.config,
{
    reveal(SpecClientCore::in_sync);
    reveal(SpecClientCore::taken);
    broadcast use {
        flow::group_content_stays_sound,
        keeps_acted,
        keeps_served,
        keeps_transported,
        keeps_prefs_stored,
        keeps_keymap_stored,
        keeps_stored,
        keeps_ticked,
        keeps_pressed,
        keeps_ran,
        keeps_restart_notice,
        keeps_managed_daemon,
    };
}

broadcast proof fn keeps_derived_selector(core: SpecClientCore)
    requires
        core.sound(),
    ensures
        (#[trigger] core.derived_selector()).sound(),
        core.derived_selector().config == core.config,
{
    reveal(SpecClientCore::in_sync);
    reveal(SpecClientCore::derived_selector);
    broadcast use {flow::group_content_stays_sound};
}

broadcast proof fn keeps_with_tree(core: SpecClientCore, tree: SpecTreeView)
    requires
        core.sound(),
    ensures
        (#[trigger] core.with_tree(tree)).sound(),
        core.with_tree(tree).config == core.config,
{
    reveal(SpecClientCore::in_sync);
    reveal(SpecClientCore::with_tree);
    broadcast use {flow::group_content_stays_sound};
}

broadcast proof fn keeps_with_progress(core: SpecClientCore, progress: Progress)
    requires
        core.sound(),
    ensures
        (#[trigger] core.with_progress(progress)).sound(),
        core.with_progress(progress).config == core.config,
{
    reveal(SpecClientCore::in_sync);
    reveal(SpecClientCore::with_progress);
    broadcast use {flow::group_content_stays_sound};
}

broadcast proof fn keeps_followed(core: SpecClientCore, from: u32, to: u32)
    requires
        core.sound(),
    ensures
        (#[trigger] core.followed(from, to)).sound(),
        core.followed(from, to).config == core.config,
{
    reveal(SpecClientCore::in_sync);
    reveal(SpecClientCore::followed);
    broadcast use {flow::group_content_stays_sound};
}

broadcast proof fn keeps_realigned(core: SpecClientCore)
    requires
        core.sound(),
    ensures
        (#[trigger] core.realigned()).sound(),
        core.realigned().config == core.config,
{
    reveal(SpecClientCore::in_sync);
    reveal(SpecClientCore::realigned);
    broadcast use {flow::group_content_stays_sound, keeps_followed};
}

broadcast proof fn keeps_derived_diffs(core: SpecClientCore)
    requires
        core.sound(),
    ensures
        (#[trigger] core.derived_diffs()).sound(),
        core.derived_diffs().config == core.config,
{
    reveal(SpecClientCore::in_sync);
    reveal(SpecClientCore::derived_diffs);
    broadcast use {flow::group_content_stays_sound};
}

broadcast proof fn keeps_derived_requests(core: SpecClientCore)
    requires
        core.sound(),
    ensures
        (#[trigger] core.derived_requests()).sound(),
        core.derived_requests().config == core.config,
{
    reveal(SpecClientCore::in_sync);
    reveal(SpecClientCore::derived_requests);
    broadcast use {flow::group_content_stays_sound};
}

broadcast proof fn keeps_with_conversation(core: SpecClientCore, conversation: Seq<SpecThreadView>)
    requires
        core.sound(),
    ensures
        (#[trigger] core.with_conversation(conversation)).sound(),
        core.with_conversation(conversation).config == core.config,
{
    reveal(SpecClientCore::in_sync);
    reveal(SpecClientCore::with_conversation);
    broadcast use {flow::group_content_stays_sound};
}

broadcast proof fn keeps_derived_threads(core: SpecClientCore)
    requires
        core.sound(),
    ensures
        (#[trigger] core.derived_threads()).sound(),
        core.derived_threads().config == core.config,
{
    reveal(SpecClientCore::in_sync);
    reveal(SpecClientCore::derived_threads);
    broadcast use {flow::group_content_stays_sound, keeps_with_conversation};
}

broadcast proof fn keeps_derived_stepper(core: SpecClientCore)
    requires
        core.sound(),
    ensures
        (#[trigger] core.derived_stepper()).sound(),
        core.derived_stepper().config == core.config,
{
    reveal(SpecClientCore::in_sync);
    reveal(SpecClientCore::derived_stepper);
    broadcast use {flow::group_content_stays_sound};
}

broadcast proof fn keeps_derived_scope(core: SpecClientCore)
    requires
        core.sound(),
    ensures
        (#[trigger] core.derived_scope()).sound(),
        core.derived_scope().config == core.config,
{
    reveal(SpecClientCore::in_sync);
    reveal(SpecClientCore::derived_scope);
    broadcast use {flow::group_content_stays_sound};
}

broadcast proof fn keeps_derived_browse(core: SpecClientCore)
    requires
        core.sound(),
    ensures
        (#[trigger] core.derived_browse()).sound(),
        core.derived_browse().config == core.config,
{
    reveal(SpecClientCore::in_sync);
    reveal(SpecClientCore::derived_browse);
    broadcast use {flow::group_content_stays_sound};
}

broadcast proof fn keeps_derived_home(core: SpecClientCore)
    requires
        core.sound(),
    ensures
        (#[trigger] core.derived_home()).sound(),
        core.derived_home().config == core.config,
{
    reveal(SpecClientCore::in_sync);
    reveal(SpecClientCore::derived_home);
    broadcast use {flow::group_content_stays_sound};
}

broadcast proof fn keeps_derived_review(core: SpecClientCore)
    requires
        core.sound(),
    ensures
        (#[trigger] core.derived_review()).sound(),
        core.derived_review().config == core.config,
{
    reveal(SpecClientCore::in_sync);
    reveal(SpecClientCore::derived_review);
    broadcast use {
        flow::group_content_stays_sound,
        keeps_derived_selector,
        keeps_with_tree,
        keeps_with_progress,
        keeps_realigned,
        keeps_derived_diffs,
        keeps_derived_requests,
        keeps_derived_threads,
        keeps_derived_stepper,
        keeps_derived_scope,
        keeps_derived_home,
    };
}

broadcast proof fn keeps_derived_focus(core: SpecClientCore)
    requires
        core.sound(),
    ensures
        (#[trigger] core.derived_focus()).sound(),
        core.derived_focus().config == core.config,
{
    reveal(SpecClientCore::in_sync);
    reveal(SpecClientCore::derived_focus);
    broadcast use {flow::group_content_stays_sound};
}

broadcast proof fn keeps_derived_target(core: SpecClientCore)
    requires
        core.sound(),
    ensures
        (#[trigger] core.derived_target()).sound(),
        core.derived_target().config == core.config,
{
    reveal(SpecClientCore::in_sync);
    reveal(SpecClientCore::derived_target);
    broadcast use {flow::group_content_stays_sound};
}

broadcast proof fn keeps_derived_reference(core: SpecClientCore)
    requires
        core.sound(),
    ensures
        (#[trigger] core.derived_reference()).sound(),
        core.derived_reference().config == core.config,
{
    reveal(SpecClientCore::in_sync);
    reveal(SpecClientCore::derived_reference);
    broadcast use {flow::group_content_stays_sound};
}

broadcast proof fn keeps_derived_visual(core: SpecClientCore)
    requires
        core.sound(),
    ensures
        (#[trigger] core.derived_visual()).sound(),
        core.derived_visual().config == core.config,
{
    reveal(SpecClientCore::in_sync);
    reveal(SpecClientCore::derived_visual);
    broadcast use {flow::group_content_stays_sound};
}

broadcast proof fn keeps_derived_place(core: SpecClientCore)
    requires
        core.sound(),
    ensures
        (#[trigger] core.derived_place()).sound(),
        core.derived_place().config == core.config,
{
    reveal(SpecClientCore::in_sync);
    reveal(SpecClientCore::derived_place);
    broadcast use {
        flow::group_content_stays_sound,
        keeps_derived_focus,
        keeps_derived_browse,
        keeps_derived_target,
        keeps_derived_reference,
        keeps_derived_visual,
    };
}

broadcast proof fn keeps_derived_pending_keys(core: SpecClientCore)
    requires
        core.sound(),
    ensures
        (#[trigger] core.derived_pending_keys()).sound(),
        core.derived_pending_keys().config == core.config,
{
    reveal(SpecClientCore::in_sync);
    reveal(SpecClientCore::derived_pending_keys);
    broadcast use {flow::group_content_stays_sound};
}

broadcast proof fn keeps_derived_pending_label(core: SpecClientCore)
    requires
        core.sound(),
    ensures
        (#[trigger] core.derived_pending_label()).sound(),
        core.derived_pending_label().config == core.config,
{
    reveal(SpecClientCore::in_sync);
    reveal(SpecClientCore::derived_pending_label);
    broadcast use {flow::group_content_stays_sound};
}

broadcast proof fn keeps_derived_mode(core: SpecClientCore)
    requires
        core.sound(),
    ensures
        (#[trigger] core.derived_mode()).sound(),
        core.derived_mode().config == core.config,
{
    reveal(SpecClientCore::in_sync);
    reveal(SpecClientCore::derived_mode);
    broadcast use {flow::group_content_stays_sound};
}

broadcast proof fn keeps_derived_hints(core: SpecClientCore)
    requires
        core.sound(),
    ensures
        (#[trigger] core.derived_hints()).sound(),
        core.derived_hints().config == core.config,
{
    reveal(SpecClientCore::in_sync);
    reveal(SpecClientCore::derived_hints);
    broadcast use {flow::group_content_stays_sound};
}

broadcast proof fn keeps_derived_chrome(core: SpecClientCore)
    requires
        core.sound(),
    ensures
        (#[trigger] core.derived_chrome()).sound(),
        core.derived_chrome().config == core.config,
{
    reveal(SpecClientCore::in_sync);
    reveal(SpecClientCore::derived_chrome);
    broadcast use {flow::group_content_stays_sound};
}

broadcast proof fn keeps_derived_bindings(core: SpecClientCore)
    requires
        core.sound(),
    ensures
        (#[trigger] core.derived_bindings()).sound(),
        core.derived_bindings().config == core.config,
{
    reveal(SpecClientCore::in_sync);
    reveal(SpecClientCore::derived_bindings);
    broadcast use {flow::group_content_stays_sound};
}

broadcast proof fn keeps_derived_last_key(core: SpecClientCore)
    requires
        core.sound(),
    ensures
        (#[trigger] core.derived_last_key()).sound(),
        core.derived_last_key().config == core.config,
{
    reveal(SpecClientCore::in_sync);
    reveal(SpecClientCore::derived_last_key);
    broadcast use {flow::group_content_stays_sound};
}

broadcast proof fn keeps_derived_leader(core: SpecClientCore)
    requires
        core.sound(),
    ensures
        (#[trigger] core.derived_leader()).sound(),
        core.derived_leader().config == core.config,
{
    reveal(SpecClientCore::in_sync);
    reveal(SpecClientCore::derived_leader);
    broadcast use {flow::group_content_stays_sound};
}

broadcast proof fn keeps_derived_help(core: SpecClientCore)
    requires
        core.sound(),
    ensures
        (#[trigger] core.derived_help()).sound(),
        core.derived_help().config == core.config,
{
    reveal(SpecClientCore::in_sync);
    reveal(SpecClientCore::derived_help);
    broadcast use {flow::group_content_stays_sound};
}

broadcast proof fn keeps_derived_keys(core: SpecClientCore)
    requires
        core.sound(),
    ensures
        (#[trigger] core.derived_keys()).sound(),
        core.derived_keys().config == core.config,
{
    reveal(SpecClientCore::in_sync);
    reveal(SpecClientCore::derived_keys);
    broadcast use {
        flow::group_content_stays_sound,
        keeps_derived_pending_keys,
        keeps_derived_pending_label,
        keeps_derived_mode,
        keeps_derived_hints,
        keeps_derived_chrome,
        keeps_derived_bindings,
        keeps_derived_last_key,
        keeps_derived_leader,
        keeps_derived_help,
    };
}

broadcast proof fn keeps_derived(core: SpecClientCore)
    requires
        core.sound(),
    ensures
        (#[trigger] core.derived()).sound(),
        core.derived().config == core.config,
{
    reveal(SpecClientCore::in_sync);
    reveal(SpecClientCore::derived);
    broadcast use {
        flow::group_content_stays_sound,
        keeps_derived_review,
        keeps_derived_place,
        keeps_derived_keys,
    };
}

broadcast proof fn keeps_handled(core: SpecClientCore, input: SpecInput)
    requires
        core.sound(),
        input_fits(core, input),
    ensures
        (#[trigger] core.handled(input)).0.sound(),
        core.handled(input).0.config == core.config,
{
    reveal(SpecClientCore::in_sync);
    reveal(SpecClientCore::handled);
    reveal(SpecClientCore::flushed);
    broadcast use {flow::group_content_stays_sound, keeps_taken, keeps_derived};
}

/// Whatever the input, what is shown of the open review stays what is
/// committed with the pending mutations on top, its header shows the targets
/// that are resolved, no more content requests
/// are on their way than may be, no key is wanted twice, and the cache
/// holds one entry per key within its budget. But an echo of our own
/// that answers a pending mutation must be about the open review, and must
/// not be held back behind a draft.
pub proof fn inputs_keep_the_core_sound(core: SpecClientCore, input: SpecInput)
    requires
        core.sound(),
        input_fits(core, input),
    ensures
        core.handled(input).0.sound(),
{
    broadcast use keeps_handled;
}

/// A mutation shows at once: it joins the pending ones, and what is shown
/// stays in sync.
pub proof fn mutations_show_at_once(core: SpecClientCore, mutation: SpecMutation)
    requires
        core.sound(),
        core.mutated(mutation) is Ok,
    ensures
        core.mutated(mutation)->Ok_0.sound(),
        core.mutated(mutation)->Ok_0.pending.len() == core.pending.len() + 1,
        core.mutated(mutation)->Ok_0.pending.last().mutation == mutation,
        core.mutated(mutation)->Ok_0.committed == core.committed,
{
    broadcast use keeps_mutated;
    reveal(SpecClientCore::mutated);
    reveal(SpecClientCore::mutated_with);
    reveal(SpecClientCore::rebased);
}

/// A mutation the daemon refuses is undone: it is pending no more, and what
/// is shown is in sync without it.
pub proof fn refused_mutations_are_undone(core: SpecClientCore, client_seq: ClientSeq, error: SpecRpcError)
    requires
        core.sound(),
    ensures
        core.mutation_refused(client_seq, error).sound(),
        core.mutation_refused(client_seq, error).pending == core.pending.filter(live::not_seq(client_seq)),
        core.mutation_refused(client_seq, error).committed == core.committed,
{
    broadcast use keeps_mutation_refused;
    reveal(SpecClientCore::mutation_refused);
    reveal(SpecClientCore::rebased);
    reveal(SpecClientCore::with_selector_status);
}

/// A new core is sound.
pub proof fn new_cores_are_sound(config: SpecConfig)
    ensures
        SpecClientCore::new(config).sound(),
{
    reveal(SpecClientCore::in_sync);
    content::new_content_is_sound(config.cache);
}

} // verus!
