//! What each action and each input of the host leads to.
use vstd::prelude::*;

use crate::client::{SpecAction, SpecClientCore, SpecCoreError, SpecInput, SpecResolved, SpecStored};
use crate::diff::SpecFileRef;
use crate::fetchlaws;
use crate::flow::{SpecErrand, SpecFlow, SpecKey};
use crate::focus::Focus;
use crate::keymap::SpecKeymap;
use crate::protocol::{
    CommentId, RepoId, ReviewId, Side, SpecClientMsg, SpecRefSpec, SpecRequest, ThreadId, WorkspaceId,
};

verus! {

/// Actions on the session do what they are called.
pub proof fn session_actions_do_what_they_say(
    core: SpecClientCore,
    workspace_id: WorkspaceId,
    review_id: ReviewId,
    focus: Focus,
    open: bool,
)
    ensures
        core.acted(SpecAction::Connect) == core.connect(),
        core.acted(SpecAction::Disconnect) == core.disconnect(),
        core.acted(SpecAction::ListWorkspaces) == core.list_workspaces(),
        core.acted(SpecAction::ListReviews { workspace_id }) == core.list_reviews(workspace_id),
        core.acted(SpecAction::OpenReview { review_id }) == core.open_review(review_id),
        core.acted(SpecAction::CloseReview) is Ok <==> core.view.review is Some,
        core.acted(SpecAction::CloseReview) matches Ok(out) ==> out.view.review is None && out.view.open_review is None,
        core.acted(SpecAction::SetFocus { focus }) == core.set_focus(focus),
        core.acted(SpecAction::ToggleHelp) == Ok::<SpecClientCore, SpecCoreError>(core.toggle_help()),
        core.acted(SpecAction::ActionPalette { open }) matches Ok(out) && out.view.action_palette == open
            && out.view.review == core.view.review && out.view.focus == core.view.focus,
{
    reveal(SpecClientCore::acted);
    reveal(SpecClientCore::leave_review);
    reveal(SpecClientCore::set_palette);
    crate::livelaws::closed_reviews_leave_nothing(core);
}

/// Actions on what is written do what they are called.
pub proof fn writing_actions_do_what_they_say(
    core: SpecClientCore,
    comment_id: CommentId,
    thread_id: ThreadId,
    body: Seq<char>,
    file: SpecFileRef,
    side: Side,
    start_line: u32,
    end_line: u32,
)
    ensures
        core.acted(SpecAction::DraftSubmitted { comment_id, body }) == core.draft_submitted(comment_id, body),
        core.acted(SpecAction::DraftDiscarded) == core.draft_discarded(),
        core.acted(SpecAction::ReplyOpened { thread_id }) == core.reply_opened(thread_id),
        core.acted(SpecAction::PreviewSuggestion { comment_id }) == core.preview_suggestion(comment_id),
        core.acted(SpecAction::ApplySuggestion { comment_id }) == core.apply_suggestion(comment_id),
        core.acted(SpecAction::CommentLines { file, side, start_line, end_line }) == core.comment_lines(
            file,
            side,
            start_line,
            end_line,
        ),
        core.acted(SpecAction::CommentFile { file }) == core.comment_file(file),
        core.acted(SpecAction::EnterVisual) == core.enter_visual(),
        core.acted(SpecAction::LeaveVisual) == core.leave_visual(),
{
    reveal(SpecClientCore::acted);
    reveal(SpecClientCore::acted_on_prefs);
    reveal(SpecClientCore::acted_on_comments);
}

/// Actions on files and searches do what they are called.
pub proof fn reading_actions_do_what_they_say(
    core: SpecClientCore,
    file: SpecFileRef,
    first_row: u32,
    last_row: u32,
    query: Option<Seq<char>>,
    text: Seq<char>,
    all_files: bool,
    search: crate::client::SearchKind,
    delta: i32,
    thread_id: ThreadId,
)
    ensures
        core.acted(
            SpecAction::Viewport { file, first_row, last_row },
        ) == core.viewport(file, first_row, last_row),
        core.acted(SpecAction::FileSearch { query }) == core.file_search(query),
        core.acted(SpecAction::ContentSearch { query, all_files }) == core.content_search(query, all_files),
        core.acted(SpecAction::SearchFirst { search }) == core.search_first(search),
        core.acted(SpecAction::SearchStep { search, delta }) == core.search_step(search, delta),
        core.acted(
            SpecAction::OpenSearchResult { search, query: text },
        ) == core.open_search_result(search, text),
        core.acted(SpecAction::ToggleFileCollapse { file }) == core.toggle_file_collapse(file),
        core.acted(SpecAction::CollapseParent) == core.collapse_parent(),
        core.acted(SpecAction::CollapseAll) == core.collapse_all(),
        core.acted(SpecAction::OpenOriginalDiff { thread_id }) == core.open_original(thread_id),
        core.acted(SpecAction::CloseFile) is Ok <==> core.close_file() is Ok,
{
    reveal(SpecClientCore::acted);
    reveal(SpecClientCore::acted_on_prefs);
    reveal(SpecClientCore::acted_on_comments);
    reveal(SpecClientCore::acted_on_files);
}

/// Actions on revisions and the selector do what they are called.
pub proof fn revision_actions_do_what_they_say(
    core: SpecClientCore,
    repo_id: RepoId,
    ref_spec: Option<SpecRefSpec>,
    selected: Option<usize>,
    query: Seq<char>,
    delta: i32,
    index: usize,
    workspace_id: WorkspaceId,
    review_id: ReviewId,
)
    ensures
        core.acted(SpecAction::ListCommits { repo_id }) == core.list_commits(repo_id),
        core.acted(SpecAction::StepCommit { selected }) == core.step_commit(selected),
        core.acted(SpecAction::SetBrowseRef { repo_id, ref_spec }) == core.set_browse_ref(repo_id, ref_spec),
        core.acted(SpecAction::RefSelectorQuery { query }) == core.ref_selector_query(query),
        core.acted(SpecAction::RefSelectorStep { delta }) == core.ref_selector_step(delta),
        core.acted(SpecAction::SelectRef { index }) == core.select_ref(index),
        core.acted(SpecAction::SelectCurrentRef) == core.select_current_ref(),
        core.acted(SpecAction::CloseRefSelector) == core.close_ref_selector(),
        core.acted(SpecAction::StartCreation { workspace_id, review_id }) == core.start_creation(
            workspace_id,
            review_id,
        ),
        core.acted(SpecAction::SubmitCreation { review_id }) == Ok::<SpecClientCore, SpecCoreError>(
            core.submit_creation(review_id),
        ),
        core.acted(SpecAction::AddCreationTarget { review_id }) == Ok::<SpecClientCore, SpecCoreError>(
            core.add_creation_target(review_id),
        ),
        core.acted(SpecAction::RemoveCreationTarget { review_id }) == Ok::<SpecClientCore, SpecCoreError>(
            core.remove_creation_target(review_id),
        ),
{
    reveal(SpecClientCore::acted);
    reveal(SpecClientCore::acted_on_prefs);
    reveal(SpecClientCore::acted_on_comments);
    reveal(SpecClientCore::acted_on_files);
    reveal(SpecClientCore::acted_on_revisions);
    reveal(SpecClientCore::acted_on_creation);
    reveal(SpecClientCore::acted_on_form);
}

/// A file opened at a row shows that row and has the focus there, unless it
/// is not known.
pub proof fn files_open_at_their_row(
    core: SpecClientCore,
    file: SpecFileRef,
    row: u32,
    side: Side,
    landing: crate::view::Landing,
)
    ensures
        core.open_file_at(file, row, side, landing) is Ok <==> core.view.review is Some && core.render_of(file) is Some,
        core.open_file_at(file, row, side, landing) matches Ok(out) ==> {
            &&& out.view.focus == (Focus::Diff { row, side })
            &&& out.view.review is Some
            &&& (out.view.review->0).open_file is Some
            &&& ((out.view.review->0).open_file->0).render == core.render_of(file)->0
            &&& ((out.view.review->0).open_file->0).first_row <= row
            &&& row <= ((out.view.review->0).open_file->0).last_row
        },
{
    reveal(SpecClientCore::open_file_at);
    reveal(SpecClientCore::scrolled);
    let start = crate::reading::page_start(row);
    fetchlaws::files_open_at_the_rows_shown(core, file, start, crate::reading::page_end(start));
    crate::readinglaws::pages_hold_their_row(row);
}

/// What the store holds is applied: preferences without being written back,
/// and keys where they can be read.
pub proof fn stored_settings_are_applied(core: SpecClientCore, value: SpecStored)
    ensures
        value matches SpecStored::Keys { config } ==> {
            let out = core.keymap_stored(value);
            &&& SpecKeymap::configured(config) matches Ok(map) ==> out.keys.keymap == map
            &&& SpecKeymap::configured(config) is Err ==> out == core
            &&& out.view == core.view
        },
        !(value is Keys) ==> core.keymap_stored(value) == core,
        core.prefs_stored(value).prefs_loaded,
        value matches SpecStored::Prefs { prefs } ==> core.prefs_stored(value).view.prefs == prefs,
        !(value is Prefs) ==> core.prefs_stored(value).view == core.view,
{
    reveal(SpecClientCore::prefs_stored);
    reveal(SpecClientCore::keymap_stored);
    reveal(SpecClientCore::apply_prefs);
    reveal(SpecClientCore::reoptioned);
    reveal(SpecClientCore::unlisted);
}

/// The settings are asked for once.
pub proof fn settings_are_asked_for_once(core: SpecClientCore)
    ensures
        core.loaded_once().prefs_loaded,
        core.loaded_once().loaded_once() == core.loaded_once(),
        core.prefs_loaded ==> core.loaded_once() == core,
        !core.prefs_loaded ==> core.loaded_once().flow.out == core.flow.out.push(
            SpecErrand::Load { key: SpecKey::Prefs },
        ).push(SpecErrand::Load { key: SpecKey::Keymap }),
{
    reveal(SpecClientCore::loaded_once);
}

/// A command that has nothing to act on is refused with its reason; one that
/// has is the action it means.
pub proof fn commands_run_what_they_mean(core: SpecClientCore, target: SpecResolved)
    ensures
        target matches SpecResolved::Action { action } ==> core.ran(target) == core.acted(action),
        target matches SpecResolved::Nowhere { reason } ==> core.ran(target) == Err::<SpecClientCore, SpecCoreError>(
            SpecCoreError::NoTarget(reason),
        ),
{
    reveal(SpecClientCore::ran);
}

/// Refused inputs leave the core as it was, with the reason.
pub proof fn inputs_are_taken_by_their_kind(core: SpecClientCore, input: SpecInput)
    ensures
        input matches SpecInput::User(action) ==> {
            &&& core.acted(action) matches Ok(out) ==> core.taken(input) == (out, None::<SpecCoreError>)
            &&& core.acted(action) matches Err(e) ==> core.taken(input) == (core, Some(e))
        },
        input matches SpecInput::Stored { key: SpecKey::Content { key }, value } ==> {
            &&& core.stored(key, value) matches Ok(out) ==> core.taken(input) == (out, None::<SpecCoreError>)
            &&& core.stored(key, value) matches Err(e) ==> core.taken(input) == (core, Some(e))
        },
        input matches SpecInput::Tick(ms) ==> core.taken(input).1 is None,
{
    reveal(SpecClientCore::taken);
}

/// New options list the files of the review again and close the one that is
/// open: every render is another.
pub proof fn new_options_list_the_files_again(core: SpecClientCore, opts: crate::protocol::SpecRenderOpts)
    ensures
        ({
            let out = core.reoptioned(opts);
            &&& out.flow.content.config.render_opts == opts
            &&& core.view.review is Some ==> {
                &&& out.view.review is Some
                &&& (out.view.review->0).files.len() == 0
                &&& (out.view.review->0).open_file is None
                &&& (out.view.review->0).original is None
                &&& (out.view.review->0).snapshot == (core.view.review->0).snapshot
            }
            &&& core.view.review is Some && core.connection is Subscribed ==> out.flow.out.len() == core.flow.out.len()
                + 1 && (out.flow.out.last() matches SpecErrand::Send(SpecClientMsg::Request { request, .. }) && (
            request matches SpecRequest::ListFiles { review_id, .. } && review_id == (
            core.view.review->0).snapshot.review.id))
            &&& core.view.review is None || !(core.connection is Subscribed) ==> out.flow.out == core.flow.out
        }),
{
    reveal(SpecClientCore::reoptioned);
    reveal(SpecClientCore::unlisted);
    reveal(SpecFlow::request);
}

} // verus!
