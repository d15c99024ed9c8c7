//! What each action of the user does.
use vstd::prelude::*;

use crate::client;
use crate::client::{Action, ClientCore, CoreError, SpecAction, SpecClientCore, SpecCoreError};
use crate::explorer::SpecDirKey;
use crate::protocol::{
    Anchor, CommentIntent, CommentKind, Mutation, SpecAnchor, SpecCommentKind, SpecMutation,
};
use crate::reading::Widening;
use crate::view::ViewPrefs;

verus! {

pub open spec fn widening(full: bool) -> Widening {
    if full {
        Widening::Full
    } else {
        Widening::Step
    }
}

fn widen(full: bool) -> (r: Widening)
    ensures
        r == widening(full),
{
    if full {
        Widening::Full
    } else {
        Widening::Step
    }
}

impl SpecClientCore {
    /// What an action of the user makes of the core, or why it is refused.
    #[verifier::opaque]
    pub open spec fn acted(self, action: SpecAction) -> Result<SpecClientCore, SpecCoreError> {
        match action {
            SpecAction::Connect => self.connect(),
            SpecAction::Disconnect => self.disconnect(),
            SpecAction::ListWorkspaces => self.list_workspaces(),
            SpecAction::ListReviews { workspace_id } => self.list_reviews(workspace_id),
            SpecAction::CreateReview { review_id, workspace_id, title, targets } => self.create_review(
                review_id,
                workspace_id,
                title,
                targets,
            ),
            SpecAction::OpenReview { review_id } => self.open_review(review_id),
            SpecAction::CloseReview => self.leave_review(),
            SpecAction::OpenReference { reference } => self.open_reference(reference),
            SpecAction::ManageDaemon { request } => Ok(self.manage_daemon(request)),
            SpecAction::SetTab { tab } => Ok(self.set_tab(tab)),
            SpecAction::SetFocus { focus } => self.set_focus(focus),
            SpecAction::ToggleHelp => Ok(self.toggle_help()),
            SpecAction::ActionPalette { open } => Ok(self.set_palette(open)),
            _ => self.acted_on_prefs(action),
        }
    }

    /// The actions that change preferences.
    #[verifier::opaque]
    pub open spec fn acted_on_prefs(self, action: SpecAction) -> Result<SpecClientCore, SpecCoreError> {
        match action {
            SpecAction::SetLayout { layout } => Ok(
                self.apply_prefs(ViewPrefs { layout, ..self.view.prefs }, true),
            ),
            SpecAction::ToggleSidebar => Ok(
                self.apply_prefs(
                    ViewPrefs { sidebar_hidden: !self.view.prefs.sidebar_hidden, ..self.view.prefs },
                    true,
                ),
            ),
            SpecAction::SetRenderOpts {
                ignore_whitespace,
                context_lines,
            } => Ok(
                self.apply_prefs(ViewPrefs { ignore_whitespace, context_lines, ..self.view.prefs }, true),
            ),
            _ => self.acted_on_comments(action),
        }
    }

    /// The actions on comments, suggestions and viewed marks.
    #[verifier::opaque]
    pub open spec fn acted_on_comments(self, action: SpecAction) -> Result<SpecClientCore, SpecCoreError> {
        match action {
            SpecAction::InformationalNoteOpened => self.open_draft(
                SpecAnchor::Review,
                CommentIntent::Informational,
            ),
            SpecAction::DraftOpened { anchor } => self.open_draft(anchor, CommentIntent::Finding),
            SpecAction::DraftSubmitted { comment_id, body } => self.draft_submitted(comment_id, body),
            SpecAction::DraftDiscarded => self.draft_discarded(),
            SpecAction::ReplyOpened { thread_id } => self.reply_opened(thread_id),
            SpecAction::Reply { thread_id, comment_id, body } => self.on_review(
                SpecMutation::Reply {
                    review_id: self.open_or(),
                    thread_id,
                    comment_id,
                    kind: SpecCommentKind::Note,
                    body,
                },
            ),
            SpecAction::EditComment { comment_id, body } => self.on_review(
                SpecMutation::EditComment { review_id: self.open_or(), comment_id, body },
            ),
            SpecAction::DeleteComment { comment_id } => self.on_review(
                SpecMutation::DeleteComment { review_id: self.open_or(), comment_id },
            ),
            SpecAction::ResolveThread { thread_id } => self.on_review(
                SpecMutation::ResolveThread { review_id: self.open_or(), thread_id },
            ),
            SpecAction::UnresolveThread { thread_id } => self.on_review(
                SpecMutation::UnresolveThread { review_id: self.open_or(), thread_id },
            ),
            SpecAction::PreviewSuggestion { comment_id } => self.preview_suggestion(comment_id),
            SpecAction::ApplySuggestion { comment_id } => self.apply_suggestion(comment_id),
            SpecAction::CommentLines { file, side, start_line, end_line } => self.comment_lines(
                file,
                side,
                start_line,
                end_line,
            ),
            SpecAction::CommentFile { file } => self.comment_file(file),
            SpecAction::MarkViewed { file } => self.mark_viewed(file, true),
            SpecAction::UnmarkViewed { file } => self.mark_viewed(file, false),
            SpecAction::EnterVisual => self.enter_visual(),
            SpecAction::LeaveVisual => self.leave_visual(),
            _ => self.acted_on_files(action),
        }
    }

    /// The actions on files, their renders and searches.
    #[verifier::opaque]
    pub open spec fn acted_on_files(self, action: SpecAction) -> Result<SpecClientCore, SpecCoreError> {
        match action {
            SpecAction::Viewport { file, first_row, last_row } => self.viewport(file, first_row, last_row),
            SpecAction::OpenFileAt { file, row, side, landing } => self.open_file_at(file, row, side, landing),
            SpecAction::CloseFile => self.file_closed(),
            SpecAction::ToggleDir { repo_id, path } => self.toggle_dir(SpecDirKey { repo_id, path }),
            SpecAction::FileSearch { query } => self.file_search(query),
            SpecAction::ScrollView { align } => self.scroll_view(align),
            SpecAction::ToggleFileCollapse { file } => self.toggle_file_collapse(file),
            SpecAction::CollapseParent => self.collapse_parent(),
            SpecAction::CollapseAll => self.collapse_all(),
            SpecAction::OpenOriginalDiff { thread_id } => self.open_original(thread_id),
            SpecAction::ExpandGap { file, gap, dir } => self.re_render(file, Widening::Gap { gap, dir }),
            SpecAction::ExpandContext { file, full } => self.re_render(file, widening(full)),
            SpecAction::ContentSearch { query, all_files } => self.content_search(query, all_files),
            SpecAction::SearchFirst { search } => self.search_first(search),
            SpecAction::SearchStep { search, delta } => self.search_step(search, delta),
            SpecAction::OpenSearchResult { search, query } => self.open_search_result(search, query),
            _ => self.acted_on_revisions(action),
        }
    }

    /// The actions on commits, scopes and refs.
    #[verifier::opaque]
    pub open spec fn acted_on_revisions(self, action: SpecAction) -> Result<SpecClientCore, SpecCoreError> {
        match action {
            SpecAction::ListCommits { repo_id } => self.list_commits(repo_id),
            SpecAction::StepCommit { selected } => self.step_commit(selected),
            SpecAction::SetScope { scope } => self.set_scope(scope),
            SpecAction::SetBrowseRef { repo_id, ref_spec } => self.set_browse_ref(repo_id, ref_spec),
            SpecAction::OpenRefSelector { repo_id, purpose } => self.open_ref_selector(repo_id, purpose),
            SpecAction::RefSelectorQuery { query } => self.ref_selector_query(query),
            SpecAction::RefSelectorStep { delta } => self.ref_selector_step(delta),
            SpecAction::SelectRef { index } => self.select_ref(index),
            SpecAction::SelectCurrentRef => self.select_current_ref(),
            SpecAction::CloseRefSelector => self.close_ref_selector(),
            _ => self.acted_on_creation(action),
        }
    }

    /// The actions on a review's creation.
    #[verifier::opaque]
    pub open spec fn acted_on_creation(self, action: SpecAction) -> Result<SpecClientCore, SpecCoreError> {
        match action {
            SpecAction::StartCreation { workspace_id, review_id } => self.start_creation(workspace_id, review_id),
            SpecAction::SubmitCreation { review_id } => Ok(self.submit_creation(review_id)),
            SpecAction::ReconcileCreation { review_id, next } => Ok(self.reconcile_creation(review_id, next)),
            SpecAction::RestoreCreation { creation, resume } => Ok(self.restore_creation(creation, resume)),
            _ => self.acted_on_form(action),
        }
    }

    /// The actions on the creation form. Copying a path is left: the clipboard
    /// is the shell's, and there is nothing to do here.
    #[verifier::opaque]
    pub open spec fn acted_on_form(self, action: SpecAction) -> Result<SpecClientCore, SpecCoreError> {
        match action {
            SpecAction::EditCreation { review_id, edit } => Ok(self.edit_creation(review_id, edit)),
            SpecAction::SelectCreationTarget { review_id, target_id } => Ok(
                self.select_creation_target(review_id, target_id),
            ),
            SpecAction::AddCreationTarget { review_id } => Ok(self.add_creation_target(review_id)),
            SpecAction::RemoveCreationTarget { review_id } => Ok(self.remove_creation_target(review_id)),
            _ => Ok(self),
        }
    }
}

impl ClientCore {
    fn prefs(&self) -> (r: ViewPrefs)
        ensures
            r == self.deep_view().view.prefs,
    {
        proof {
            reveal(ClientCore::model);
        }
        self.view.prefs()
    }

    /// Do what the user asked, or refuse and change nothing.
    pub(crate) fn user(&mut self, action: Action) -> (r: Result<(), CoreError>)
        ensures
            client::settled(
                old(self).deep_view(),
                final(self).deep_view(),
                r,
                old(self).deep_view().acted(action.deep_view()),
            ),
    {
        proof {
            reveal(SpecClientCore::acted);
        }
        match action {
            Action::Connect => self.connect(),
            Action::Disconnect => self.disconnect(),
            Action::ListWorkspaces => self.list_workspaces(),
            Action::ListReviews { workspace_id } => self.list_reviews(workspace_id),
            Action::CreateReview { review_id, workspace_id, title, targets } => self.create_review(
                review_id,
                workspace_id,
                title,
                targets,
            ),
            Action::OpenReview { review_id } => self.open_review(review_id),
            Action::CloseReview => self.leave_review(),
            Action::OpenReference { reference } => self.open_reference(reference),
            Action::ManageDaemon { request } => {
                self.manage_daemon(request);
                Ok(())
            },
            Action::SetTab { tab } => {
                self.set_tab(tab);
                Ok(())
            },
            Action::SetFocus { focus } => self.focus_on(focus),
            Action::ToggleHelp => {
                self.toggle_help();
                Ok(())
            },
            Action::ActionPalette { open } => {
                self.set_palette(open);
                Ok(())
            },
            _ => self.act_on_prefs(action),
        }
    }

    fn act_on_prefs(&mut self, action: Action) -> (r: Result<(), CoreError>)
        ensures
            client::settled(
                old(self).deep_view(),
                final(self).deep_view(),
                r,
                old(self).deep_view().acted_on_prefs(action.deep_view()),
            ),
    {
        proof {
            reveal(SpecClientCore::acted_on_prefs);
        }
        match action {
            Action::SetLayout { layout } => {
                let prefs = self.prefs();
                self.apply_prefs(ViewPrefs { layout, ..prefs }, true);
                Ok(())
            },
            Action::ToggleSidebar => {
                let prefs = self.prefs();
                self.apply_prefs(ViewPrefs { sidebar_hidden: !prefs.sidebar_hidden, ..prefs }, true);
                Ok(())
            },
            Action::SetRenderOpts { ignore_whitespace, context_lines } => {
                let prefs = self.prefs();
                self.apply_prefs(ViewPrefs { ignore_whitespace, context_lines, ..prefs }, true);
                Ok(())
            },
            _ => self.act_on_comments(action),
        }
    }

    fn act_on_comments(&mut self, action: Action) -> (r: Result<(), CoreError>)
        ensures
            client::settled(
                old(self).deep_view(),
                final(self).deep_view(),
                r,
                old(self).deep_view().acted_on_comments(action.deep_view()),
            ),
    {
        proof {
            reveal(SpecClientCore::acted_on_comments);
        }
        match action {
            Action::InformationalNoteOpened => self.open_draft(Anchor::Review, CommentIntent::Informational),
            Action::DraftOpened { anchor } => self.open_draft(anchor, CommentIntent::Finding),
            Action::DraftSubmitted { comment_id, body } => self.draft_submitted(comment_id, body),
            Action::DraftDiscarded => self.draft_discarded(),
            Action::ReplyOpened { thread_id } => self.reply_opened(thread_id),
            Action::Reply { thread_id, comment_id, body } => {
                let review_id = self.open_or();
                self.mutate_open(
                    Mutation::Reply { review_id, thread_id, comment_id, kind: CommentKind::Note, body },
                )
            },
            Action::EditComment { comment_id, body } => {
                let review_id = self.open_or();
                self.mutate_open(Mutation::EditComment { review_id, comment_id, body })
            },
            Action::DeleteComment { comment_id } => {
                let review_id = self.open_or();
                self.mutate_open(Mutation::DeleteComment { review_id, comment_id })
            },
            Action::ResolveThread { thread_id } => {
                let review_id = self.open_or();
                self.mutate_open(Mutation::ResolveThread { review_id, thread_id })
            },
            Action::UnresolveThread { thread_id } => {
                let review_id = self.open_or();
                self.mutate_open(Mutation::UnresolveThread { review_id, thread_id })
            },
            Action::PreviewSuggestion { comment_id } => self.preview_suggestion(comment_id),
            Action::ApplySuggestion { comment_id } => self.apply_suggestion(comment_id),
            Action::CommentLines { file, side, start_line, end_line } => self.comment_lines(
                file,
                side,
                start_line,
                end_line,
            ),
            Action::CommentFile { file } => self.comment_file(file),
            Action::MarkViewed { file } => self.mark_viewed(file, true),
            Action::UnmarkViewed { file } => self.mark_viewed(file, false),
            Action::EnterVisual => self.enter_visual(),
            Action::LeaveVisual => self.leave_visual(),
            _ => self.act_on_files(action),
        }
    }

    fn act_on_files(&mut self, action: Action) -> (r: Result<(), CoreError>)
        ensures
            client::settled(
                old(self).deep_view(),
                final(self).deep_view(),
                r,
                old(self).deep_view().acted_on_files(action.deep_view()),
            ),
    {
        proof {
            reveal(SpecClientCore::acted_on_files);
        }
        match action {
            Action::Viewport { file, first_row, last_row } => self.viewport(file, first_row, last_row),
            Action::OpenFileAt { file, row, side, landing } => self.open_file_at(file, row, side, landing),
            Action::CloseFile => self.file_closed(),
            Action::ToggleDir { repo_id, path } => self.toggle_dir(repo_id, path),
            Action::FileSearch { query } => self.file_search(query),
            Action::ScrollView { align } => self.scroll_view(align),
            Action::ToggleFileCollapse { file } => self.toggle_file_collapse(file),
            Action::CollapseParent => self.collapse_parent(),
            Action::CollapseAll => self.collapse_all(),
            Action::OpenOriginalDiff { thread_id } => self.open_original(thread_id),
            Action::ExpandGap { file, gap, dir } => self.re_render(file, Widening::Gap { gap, dir }),
            Action::ExpandContext { file, full } => self.re_render(file, widen(full)),
            Action::ContentSearch { query, all_files } => self.content_search(query, all_files),
            Action::SearchFirst { search } => self.search_first(search),
            Action::SearchStep { search, delta } => self.search_step(search, delta),
            Action::OpenSearchResult { search, query } => self.open_search_result(search, query),
            _ => self.act_on_revisions(action),
        }
    }

    fn act_on_revisions(&mut self, action: Action) -> (r: Result<(), CoreError>)
        ensures
            client::settled(
                old(self).deep_view(),
                final(self).deep_view(),
                r,
                old(self).deep_view().acted_on_revisions(action.deep_view()),
            ),
    {
        proof {
            reveal(SpecClientCore::acted_on_revisions);
        }
        match action {
            Action::ListCommits { repo_id } => self.list_commits(repo_id),
            Action::StepCommit { selected } => self.step_commit(selected),
            Action::SetScope { scope } => self.set_scope(scope),
            Action::SetBrowseRef { repo_id, ref_spec } => self.set_browse_ref(repo_id, ref_spec),
            Action::OpenRefSelector { repo_id, purpose } => self.open_ref_selector(repo_id, purpose),
            Action::RefSelectorQuery { query } => self.ref_selector_query(query),
            Action::RefSelectorStep { delta } => self.ref_selector_step(delta),
            Action::SelectRef { index } => self.select_ref(index),
            Action::SelectCurrentRef => self.select_current_ref(),
            Action::CloseRefSelector => self.close_ref_selector(),
            _ => self.act_on_creation(action),
        }
    }

    fn act_on_creation(&mut self, action: Action) -> (r: Result<(), CoreError>)
        ensures
            client::settled(
                old(self).deep_view(),
                final(self).deep_view(),
                r,
                old(self).deep_view().acted_on_creation(action.deep_view()),
            ),
    {
        proof {
            reveal(SpecClientCore::acted_on_creation);
        }
        match action {
            Action::StartCreation { workspace_id, review_id } => self.start_creation(workspace_id, review_id),
            Action::SubmitCreation { review_id } => {
                self.submit_creation(review_id);
                Ok(())
            },
            Action::ReconcileCreation { review_id, next } => {
                self.reconcile_creation(review_id, next);
                Ok(())
            },
            Action::RestoreCreation { creation, resume } => {
                self.restore_creation(creation, resume);
                Ok(())
            },
            _ => self.act_on_form(action),
        }
    }

    fn act_on_form(&mut self, action: Action) -> (r: Result<(), CoreError>)
        ensures
            client::settled(
                old(self).deep_view(),
                final(self).deep_view(),
                r,
                old(self).deep_view().acted_on_form(action.deep_view()),
            ),
    {
        proof {
            reveal(SpecClientCore::acted_on_form);
        }
        match action {
            Action::EditCreation { review_id, edit } => {
                self.edit_creation_field(review_id, edit);
                Ok(())
            },
            Action::SelectCreationTarget { review_id, target_id } => {
                self.select_creation_target(review_id, target_id);
                Ok(())
            },
            Action::AddCreationTarget { review_id } => {
                self.add_creation_target(review_id);
                Ok(())
            },
            Action::RemoveCreationTarget { review_id } => {
                self.remove_creation_target(review_id);
                Ok(())
            },
            _ => Ok(()),
        }
    }
}

} // verus!
