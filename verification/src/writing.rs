//! What the user writes: drafts, comments, viewed marks; and where the keys
//! go meanwhile.
use vstd::prelude::*;

use crate::client;
use crate::client::{ClientCore, CoreError, InputKind, SpecClientCore, SpecCoreError, SpecKeys};
use crate::command::Command;
use crate::data;
use crate::data::Value;
use crate::diff::{FileRef, SpecFileRef};
use crate::events;
use crate::events::MutationError;
use crate::explorer;
use crate::flow::{InFlight, SpecInFlight};
use crate::focus;
use crate::focus::{Focus, NoTarget, VisualAnchor};
use crate::protocol::{
    Anchor, BlobOid, CommentContext, CommentId, CommentIntent, CommentKind, ContextHash, EventBody,
    LineRange, Mutation, MutationKind, RenderTarget, RepoId, RepoPath, Request, ReviewId, ReviewTarget, Side,
    SpecAnchor, SpecCommentContext, SpecCommentKind, SpecEventBody, SpecMutation, SpecRenderTarget,
    SpecRepoPath, SpecRequest, SpecReviewTarget, ThreadId, ViewSection, WorkspaceId,
};
use crate::reading;
use crate::view::{
    Draft, DraftPurpose, OpenReview, SpecDraft, SpecDraftPurpose, SpecOpenReview, SpecViewModel,
    Tab,
};

verus! {

impl SpecOpenReview {
    /// What is on screen of a file: the open file, else its diff.
    pub open spec fn target_of(self, repo_id: RepoId, path: SpecRepoPath) -> Option<SpecRenderTarget> {
        match self.open_file {
            Some(f) if f.render.is_of(repo_id, path) => Some(f.render.target),
            _ => match data::found(self.files, explorer::file_of(repo_id, path)) {
                Some(k) => Some(k.target),
                None => None,
            },
        }
    }

    /// What a comment at `anchor` is made on.
    pub open spec fn context_of(self, anchor: SpecAnchor) -> Option<SpecCommentContext> {
        let target = match anchor {
            SpecAnchor::Review => None,
            SpecAnchor::File { repo_id, path, .. } => self.target_of(repo_id, path),
            SpecAnchor::Lines { repo_id, path, .. } => self.target_of(repo_id, path),
        };
        match target {
            Some(SpecRenderTarget::Diff { change }) => Some(SpecCommentContext::Diff { change }),
            Some(SpecRenderTarget::Blob { oid }) => Some(SpecCommentContext::Browse { oid }),
            None => None,
        }
    }
}

impl OpenReview {
    fn target_of(&self, repo_id: RepoId, path: &RepoPath) -> (r: Option<RenderTarget>)
        ensures
            r.deep_view() == self.deep_view().target_of(repo_id, path.deep_view()),
    {
        if let Some(f) = &self.open_file {
            if f.render.is_of(repo_id, path) {
                return Some(f.render.target.dup());
            }
        }
        match explorer::find_file(&self.files, repo_id, path) {
            Some(k) => Some(k.target.dup()),
            None => None,
        }
    }

    /// What a comment at `anchor` is made on.
    pub fn context_of(&self, anchor: &Anchor) -> (r: Option<CommentContext>)
        ensures
            r.deep_view() == self.deep_view().context_of(anchor.deep_view()),
    {
        let target = match anchor {
            Anchor::Review => None,
            Anchor::File { repo_id, path, .. } => self.target_of(*repo_id, path),
            Anchor::Lines { repo_id, path, .. } => self.target_of(*repo_id, path),
        };
        match target {
            Some(RenderTarget::Diff { change }) => Some(CommentContext::Diff { change }),
            Some(RenderTarget::Blob { oid }) => Some(CommentContext::Browse { oid }),
            None => None,
        }
    }
}

/// Lines are counted from one, and a range is written either way round.
pub open spec fn line_range(a: u32, b: u32) -> LineRange {
    let (lo, hi) = if a <= b {
        (a, b)
    } else {
        (b, a)
    };
    LineRange {
        start: if lo == 0 {
            1
        } else {
            lo
        },
        end: if hi == 0 {
            1
        } else {
            hi
        },
    }
}

fn lines_between(a: u32, b: u32) -> (r: LineRange)
    ensures
        r == line_range(a, b),
{
    let (lo, hi) = if a <= b {
        (a, b)
    } else {
        (b, a)
    };
    LineRange {
        start: if lo == 0 {
            1
        } else {
            lo
        },
        end: if hi == 0 {
            1
        } else {
            hi
        },
    }
}

impl SpecClientCore {
    /// A modal panel takes the keys; where they were is remembered.
    #[verifier::opaque]
    pub open spec fn entered(self, focus: Focus) -> SpecClientCore {
        let keys = if self.keys.focus_return is None {
            SpecKeys { focus_return: Some(self.view.focus), ..self.keys }
        } else {
            self.keys
        };
        self.with_keys(keys).with_focus(focus)
    }

    /// The modal panel closes; the keys go back.
    #[verifier::opaque]
    pub open spec fn left(self) -> SpecClientCore {
        match self.keys.focus_return {
            Some(focus) => self.with_keys(SpecKeys { focus_return: None, ..self.keys }).with_focus(focus),
            None => self,
        }
    }

    pub open spec fn with_draft(self, draft: Option<SpecDraft>) -> SpecClientCore {
        self.with_view(SpecViewModel { draft, ..self.view })
    }

    /// A new editor would be refused.
    pub open spec fn draft_refusal(self) -> Option<SpecCoreError> {
        if self.view.review is None {
            Some(SpecCoreError::NoOpenReview)
        } else if self.view.draft is Some {
            Some(SpecCoreError::DraftAlreadyOpen)
        } else {
            None
        }
    }

    /// An editor opens for a comment at `anchor`.
    #[verifier::opaque]
    pub open spec fn commenting(self, anchor: SpecAnchor, intent: CommentIntent) -> SpecClientCore {
        self.without_visual().with_draft(
            Some(
                SpecDraft {
                    submission_error: None,
                    anchor,
                    purpose: SpecDraftPurpose::Comment {
                        intent,
                        context: match self.view.review {
                            Some(open) => open.context_of(anchor),
                            None => None,
                        },
                    },
                },
            ),
        ).entered(Focus::Composer).touch(seq![ViewSection::Draft, ViewSection::Focus])
    }

    #[verifier::opaque]
    pub open spec fn open_draft(self, anchor: SpecAnchor, intent: CommentIntent) -> Result<
        SpecClientCore,
        SpecCoreError,
    > {
        match self.draft_refusal() {
            Some(e) => Err(e),
            None => Ok(self.commenting(anchor, intent)),
        }
    }

    /// The blob of a file of the review on one side.
    pub open spec fn blob_of(self, file: SpecFileRef, side: Side) -> Option<BlobOid> {
        match self.view.review {
            Some(open) => match data::found(open.files, explorer::file_of(file.repo_id, file.path)) {
                Some(k) => k.target.blob_on(side),
                None => None,
            },
            None => None,
        }
    }

    #[verifier::opaque]
    pub open spec fn comment_lines(self, file: SpecFileRef, side: Side, start: u32, end: u32) -> Result<
        SpecClientCore,
        SpecCoreError,
    > {
        match self.draft_refusal() {
            Some(e) => Err(e),
            None => match self.blob_of(file, side) {
                Some(blob_oid) => Ok(
                    self.commenting(
                        SpecAnchor::Lines {
                            repo_id: file.repo_id,
                            path: file.path,
                            side,
                            blob_oid,
                            lines: line_range(start, end),
                            context_hash: ContextHash(0),
                        },
                        CommentIntent::Finding,
                    ),
                ),
                None => Err(SpecCoreError::UnknownFile(file)),
            },
        }
    }

    #[verifier::opaque]
    pub open spec fn comment_file(self, file: SpecFileRef) -> Result<SpecClientCore, SpecCoreError> {
        match self.draft_refusal() {
            Some(e) => Err(e),
            None => match self.blob_of(file, Side::Head) {
                Some(blob_oid) => Ok(
                    self.commenting(
                        SpecAnchor::File { repo_id: file.repo_id, path: file.path, blob_oid },
                        CommentIntent::Finding,
                    ),
                ),
                None => Err(SpecCoreError::UnknownFile(file)),
            },
        }
    }

    #[verifier::opaque]
    pub open spec fn reply_opened(self, thread_id: ThreadId) -> Result<SpecClientCore, SpecCoreError> {
        match self.draft_refusal() {
            Some(e) => Err(e),
            None => match self.view.review->0.snapshot.root_of(thread_id) {
                Some(root) => Ok(
                    self.with_draft(
                        Some(
                            SpecDraft {
                                submission_error: None,
                                anchor: root.anchor,
                                purpose: SpecDraftPurpose::Reply { thread_id },
                            },
                        ),
                    ).entered(Focus::Composer).touch(seq![ViewSection::Draft, ViewSection::Focus]),
                ),
                None => Err(SpecCoreError::UnknownThread(thread_id)),
            },
        }
    }

    /// The editor is gone: the keys go back, and what it held up goes on.
    #[verifier::opaque]
    pub open spec fn draft_closed(self) -> SpecClientCore {
        self.with_draft(None).without_visual().left().undeferred()
    }

    #[verifier::opaque]
    pub open spec fn draft_discarded(self) -> Result<SpecClientCore, SpecCoreError> {
        if self.view.draft is None {
            Err(SpecCoreError::NoDraft)
        } else {
            Ok(self.draft_closed())
        }
    }

    /// The mutation an editor submits; there is none for putting a finding
    /// off.
    pub open spec fn drafted(
        draft: SpecDraft,
        review_id: ReviewId,
        comment_id: CommentId,
        body: Seq<char>,
    ) -> Option<SpecMutation> {
        match draft.purpose {
            SpecDraftPurpose::Reply { thread_id } => Some(
                SpecMutation::Reply { review_id, thread_id, comment_id, kind: SpecCommentKind::Note, body },
            ),
            SpecDraftPurpose::Comment { intent, context } => Some(
                SpecMutation::AddComment {
                    review_id,
                    comment_id,
                    kind: intent.spec_kind(),
                    anchor: draft.anchor,
                    body,
                    context,
                },
            ),
            SpecDraftPurpose::Defer { .. } => None,
        }
    }

    /// The editor's text is sent, and the editor closes.
    #[verifier::opaque]
    pub open spec fn draft_submitted(self, comment_id: CommentId, body: Seq<char>) -> Result<
        SpecClientCore,
        SpecCoreError,
    > {
        match self.open_id() {
            None => Err(SpecCoreError::NoOpenReview),
            Some(review_id) => match self.view.draft {
                None => Err(SpecCoreError::NoDraft),
                Some(draft) => match SpecClientCore::drafted(draft, review_id, comment_id, body) {
                    None => Err(
                        SpecCoreError::Mutation(MutationError::Unsupported(MutationKind::DeferFinding)),
                    ),
                    Some(mutation) => match self.mutated(mutation) {
                        Ok(c) => Ok(c.draft_closed()),
                        Err(e) => Err(e),
                    },
                },
            },
        }
    }

    /// The keys go to `focus`. Invitations are on the conversation tab.
    #[verifier::opaque]
    pub open spec fn refocused(self, focus: Focus) -> SpecClientCore {
        let c = self.with_focus(focus);
        if focus is ReviewRequest {
            c.with_view(SpecViewModel { tab: Tab::Conversation, ..c.view })
        } else {
            c
        }
    }

    /// The keys go to a row that its list has. A row of the diff outside the
    /// viewport scrolls it.
    #[verifier::opaque]
    pub open spec fn set_focus(self, focus: Focus) -> Result<SpecClientCore, SpecCoreError> {
        if self.view.clamp(focus) != focus {
            Err(SpecCoreError::FocusOutOfRange(focus))
        } else {
            let c = self.refocused(focus);
            match c.row_out_of_view(focus) {
                Some((file, row)) => match c.viewport(
                    file,
                    reading::page_start(row),
                    reading::page_end(reading::page_start(row)),
                ) {
                    Ok(c) => Ok(c.touch(seq![ViewSection::Focus])),
                    Err(e) => Err(e),
                },
                None => Ok(c.touch(seq![ViewSection::Focus])),
            }
        }
    }

    /// The open file and the focused row, if the viewport does not show it.
    pub open spec fn row_out_of_view(self, focus: Focus) -> Option<(SpecFileRef, u32)> {
        match focus {
            Focus::Diff { row, .. } => match self.view.review {
                Some(open) => match open.open_file {
                    Some(f) => if row < f.first_row || row > f.last_row {
                        Some((f.render.file(), row))
                    } else {
                        None
                    },
                    None => None,
                },
                None => None,
            },
            _ => None,
        }
    }

    #[verifier::opaque]
    pub open spec fn toggle_help(self) -> SpecClientCore {
        let c = if self.keys.help_context is Some {
            self.with_keys(SpecKeys { help_context: None, ..self.keys }).left()
        } else {
            self.with_keys(
                SpecKeys { help_context: Some(self.view.focus.spec_context()), ..self.keys },
            ).entered(Focus::Help)
        };
        c.touch(seq![ViewSection::Help, ViewSection::Focus])
    }

    #[verifier::opaque]
    pub open spec fn enter_visual(self) -> Result<SpecClientCore, SpecCoreError> {
        if self.view.review is None {
            Err(SpecCoreError::NoOpenReview)
        } else {
            match self.view.focus {
                Focus::Diff { row, side } => Ok(
                    self.with_keys(SpecKeys { visual_anchor: Some(VisualAnchor { row, side }), ..self.keys }),
                ),
                _ => Err(SpecCoreError::NoTarget(NoTarget::Nothing(Command::VisualMode))),
            }
        }
    }

    #[verifier::opaque]
    pub open spec fn leave_visual(self) -> Result<SpecClientCore, SpecCoreError> {
        if self.keys.visual_anchor is None {
            Err(SpecCoreError::NoTarget(NoTarget::Nothing(Command::VisualMode)))
        } else {
            Ok(self.without_visual())
        }
    }

    /// The optimistic event of a viewed mark. It needs what the file list
    /// knows of the file.
    pub open spec fn viewed_event(self, file: SpecFileRef, viewed: bool) -> Result<
        (SpecMutation, SpecEventBody),
        SpecCoreError,
    > {
        if !self.subscribed() {
            Err(self.wrong_state(InputKind::User))
        } else {
            match self.view.review {
                None => Err(SpecCoreError::NoOpenReview),
                Some(open) => match self.config.author.as_human() {
                    None => Err(SpecCoreError::NotHuman),
                    Some(viewer) => match data::found(open.files, explorer::file_of(file.repo_id, file.path)) {
                        None => Err(SpecCoreError::UnknownFile(file)),
                        Some(k) => {
                            let review_id = open.snapshot.review.id;
                            let repo_id = file.repo_id;
                            let path = file.path;
                            if viewed {
                                Ok(
                                    (
                                        SpecMutation::MarkViewed { review_id, repo_id, path },
                                        SpecEventBody::FileViewed {
                                            review_id,
                                            repo_id,
                                            path,
                                            viewer,
                                            content: k.target.viewed_content(),
                                        },
                                    ),
                                )
                            } else {
                                Ok(
                                    (
                                        SpecMutation::UnmarkViewed { review_id, repo_id, path },
                                        SpecEventBody::FileUnviewed { review_id, repo_id, path, viewer },
                                    ),
                                )
                            }
                        },
                    },
                },
            }
        }
    }

    #[verifier::opaque]
    pub open spec fn mark_viewed(self, file: SpecFileRef, viewed: bool) -> Result<SpecClientCore, SpecCoreError> {
        match self.viewed_event(file, viewed) {
            Ok((mutation, body)) => Ok(self.mutated_with(mutation, body)),
            Err(e) => Err(e),
        }
    }

    /// The id of the open review, if there is one.
    pub open spec fn open_or(self) -> ReviewId {
        match self.open_id() {
            Some(id) => id,
            None => ReviewId(0),
        }
    }

    /// A mutation of the open review.
    #[verifier::opaque]
    pub open spec fn on_review(self, mutation: SpecMutation) -> Result<SpecClientCore, SpecCoreError> {
        match self.open_id() {
            None => Err(SpecCoreError::NoOpenReview),
            Some(_) => self.mutated(mutation),
        }
    }

    /// A review is created by the daemon; nothing is shown until then.
    #[verifier::opaque]
    pub open spec fn create_review(
        self,
        review_id: ReviewId,
        workspace_id: WorkspaceId,
        title: Seq<char>,
        targets: Seq<SpecReviewTarget>,
    ) -> Result<SpecClientCore, SpecCoreError> {
        if !self.subscribed() {
            Err(self.wrong_state(InputKind::User))
        } else {
            let client_seq = crate::protocol::ClientSeq(self.flow.wire.next_client_seq);
            Ok(
                self.with_next_seq().request(
                    SpecRequest::Mutate {
                        client_seq,
                        mutation: SpecMutation::CreateReview { review_id, workspace_id, title, targets },
                    },
                    SpecInFlight::Mutate { client_seq },
                ),
            )
        }
    }
}

proof fn lemma_refocus_back(c: SpecClientCore, focus: Focus)
    requires
        focus is Diff,
    ensures
        c.refocused(focus).with_focus(c.view.focus) == c,
{
    reveal(SpecClientCore::refocused);
}

impl ClientCore {
    fn enter(&mut self, focus: Focus)
        ensures
            final(self).deep_view() == old(self).deep_view().entered(focus),
    {
        proof {
            reveal(ClientCore::model);
            reveal(SpecClientCore::entered);
        }
        if self.keys.focus_return.is_none() {
            self.keys.focus_return = Some(self.view.focus());
        }
        self.view.set_focus(focus);
    }

    fn leave(&mut self)
        ensures
            final(self).deep_view() == old(self).deep_view().left(),
    {
        proof {
            reveal(ClientCore::model);
            reveal(SpecClientCore::left);
        }
        if let Some(focus) = self.keys.focus_return {
            self.keys.focus_return = None;
            self.view.set_focus(focus);
        }
    }

    fn draft_refusal(&self) -> (r: Option<CoreError>)
        ensures
            r.deep_view() == self.deep_view().draft_refusal(),
    {
        proof {
            reveal(ClientCore::model);
        }
        if self.view.review().is_none() {
            Some(CoreError::NoOpenReview)
        } else if self.view.draft().is_some() {
            Some(CoreError::DraftAlreadyOpen)
        } else {
            None
        }
    }

    fn comment(&mut self, anchor: Anchor, intent: CommentIntent)
        ensures
            final(self).deep_view() == old(self).deep_view().commenting(anchor.deep_view(), intent),
    {
        proof {
            reveal(ClientCore::model);
            reveal(SpecClientCore::commenting);
        }
        let context = match self.view.review() {
            Some(open) => open.context_of(&anchor),
            None => None,
        };
        self.keys.visual_anchor = None;
        self.view.set_draft(
            Some(
                Draft { submission_error: None, anchor, purpose: DraftPurpose::Comment { intent, context } },
            ),
        );
        self.enter(Focus::Composer);
        self.flow.touch_all(data::two(ViewSection::Draft, ViewSection::Focus));
    }

    pub(crate) fn open_draft(&mut self, anchor: Anchor, intent: CommentIntent) -> (r: Result<(), CoreError>)
        ensures
            client::settled(
                old(self).deep_view(),
                final(self).deep_view(),
                r,
                old(self).deep_view().open_draft(anchor.deep_view(), intent),
            ),
    {
        proof {
            reveal(ClientCore::model);
            reveal(SpecClientCore::open_draft);
        }
        match self.draft_refusal() {
            Some(e) => Err(e),
            None => {
                self.comment(anchor, intent);
                Ok(())
            },
        }
    }

    fn blob_of(&self, file: &FileRef, side: Side) -> (r: Option<BlobOid>)
        ensures
            r == self.deep_view().blob_of(file.deep_view(), side),
    {
        proof {
            reveal(ClientCore::model);
        }
        match self.view.review() {
            Some(open) => match explorer::find_file(&open.files, file.repo_id, &file.path) {
                Some(k) => k.target.blob_on(side),
                None => None,
            },
            None => None,
        }
    }

    pub(crate) fn comment_lines(
        &mut self,
        file: FileRef,
        side: Side,
        start: u32,
        end: u32,
    ) -> (r: Result<(), CoreError>)
        ensures
            client::settled(
                old(self).deep_view(),
                final(self).deep_view(),
                r,
                old(self).deep_view().comment_lines(file.deep_view(), side, start, end),
            ),
    {
        proof {
            reveal(ClientCore::model);
            reveal(SpecClientCore::comment_lines);
        }
        match self.draft_refusal() {
            Some(e) => Err(e),
            None => match self.blob_of(&file, side) {
                Some(blob_oid) => {
                    self.comment(
                        Anchor::Lines {
                            repo_id: file.repo_id,
                            path: file.path,
                            side,
                            blob_oid,
                            lines: lines_between(start, end),
                            context_hash: ContextHash(0),
                        },
                        CommentIntent::Finding,
                    );
                    Ok(())
                },
                None => Err(CoreError::UnknownFile(file)),
            },
        }
    }

    pub(crate) fn comment_file(&mut self, file: FileRef) -> (r: Result<(), CoreError>)
        ensures
            client::settled(
                old(self).deep_view(),
                final(self).deep_view(),
                r,
                old(self).deep_view().comment_file(file.deep_view()),
            ),
    {
        proof {
            reveal(ClientCore::model);
            reveal(SpecClientCore::comment_file);
        }
        match self.draft_refusal() {
            Some(e) => Err(e),
            None => match self.blob_of(&file, Side::Head) {
                Some(blob_oid) => {
                    self.comment(
                        Anchor::File { repo_id: file.repo_id, path: file.path, blob_oid },
                        CommentIntent::Finding,
                    );
                    Ok(())
                },
                None => Err(CoreError::UnknownFile(file)),
            },
        }
    }

    pub(crate) fn reply_opened(&mut self, thread_id: ThreadId) -> (r: Result<(), CoreError>)
        ensures
            client::settled(
                old(self).deep_view(),
                final(self).deep_view(),
                r,
                old(self).deep_view().reply_opened(thread_id),
            ),
    {
        proof {
            reveal(ClientCore::model);
            reveal(SpecClientCore::reply_opened);
        }
        if let Some(e) = self.draft_refusal() {
            return Err(e);
        }
        let anchor = match self.view.review() {
            Some(open) => match events::find_thread(&open.snapshot.threads, thread_id) {
                Some(t) => match events::find_comment(&open.snapshot.comments, t.root) {
                    Some(c) => c.anchor.dup(),
                    None => {
                        return Err(CoreError::UnknownThread(thread_id));
                    },
                },
                None => {
                    return Err(CoreError::UnknownThread(thread_id));
                },
            },
            None => {
                return Err(CoreError::NoOpenReview);
            },
        };
        self.view.set_draft(
            Some(Draft { submission_error: None, anchor, purpose: DraftPurpose::Reply { thread_id } }),
        );
        self.enter(Focus::Composer);
        self.flow.touch_all(data::two(ViewSection::Draft, ViewSection::Focus));
        Ok(())
    }

    fn close_draft(&mut self)
        ensures
            final(self).deep_view() == old(self).deep_view().draft_closed(),
    {
        proof {
            reveal(ClientCore::model);
            reveal(SpecClientCore::draft_closed);
        }
        self.view.set_draft(None);
        self.keys.visual_anchor = None;
        self.leave();
        self.drain_deferred();
    }

    pub(crate) fn draft_discarded(&mut self) -> (r: Result<(), CoreError>)
        ensures
            client::settled(
                old(self).deep_view(),
                final(self).deep_view(),
                r,
                old(self).deep_view().draft_discarded(),
            ),
    {
        proof {
            reveal(ClientCore::model);
            reveal(SpecClientCore::draft_discarded);
        }
        if self.view.draft().is_none() {
            return Err(CoreError::NoDraft);
        }
        self.close_draft();
        Ok(())
    }

    pub(crate) fn draft_submitted(
        &mut self,
        comment_id: CommentId,
        body: String,
    ) -> (r: Result<(), CoreError>)
        ensures
            client::settled(
                old(self).deep_view(),
                final(self).deep_view(),
                r,
                old(self).deep_view().draft_submitted(comment_id, body@),
            ),
    {
        proof {
            reveal(ClientCore::model);
            reveal(SpecClientCore::draft_submitted);
        }
        let review_id = match self.open_id() {
            Some(id) => id,
            None => {
                return Err(CoreError::NoOpenReview);
            },
        };
        let mutation = match self.view.draft() {
            Some(draft) => match &draft.purpose {
                DraftPurpose::Reply { thread_id } => Mutation::Reply {
                    review_id,
                    thread_id: *thread_id,
                    comment_id,
                    kind: CommentKind::Note,
                    body,
                },
                DraftPurpose::Comment { intent, context } => Mutation::AddComment {
                    review_id,
                    comment_id,
                    kind: intent.kind(),
                    anchor: draft.anchor.dup(),
                    body,
                    context: context.dup(),
                },
                DraftPurpose::Defer { .. } => {
                    return Err(CoreError::Mutation(MutationError::Unsupported(MutationKind::DeferFinding)));
                },
            },
            None => {
                return Err(CoreError::NoDraft);
            },
        };
        match self.mutate(mutation) {
            Ok(_) => {
                self.close_draft();
                Ok(())
            },
            Err(e) => Err(e),
        }
    }

    fn row_out_of_view(&self, focus: Focus) -> (r: Option<(FileRef, u32)>)
        ensures
            match r {
                Some(t) => self.deep_view().row_out_of_view(focus) == Some((t.0.deep_view(), t.1)),
                None => self.deep_view().row_out_of_view(focus) is None,
            },
    {
        proof {
            reveal(ClientCore::model);
        }
        match focus {
            Focus::Diff { row, .. } => match self.view.review() {
                Some(open) => match &open.open_file {
                    Some(f) => if row < f.first_row || row > f.last_row {
                        Some((f.render.file(), row))
                    } else {
                        None
                    },
                    None => None,
                },
                None => None,
            },
            _ => None,
        }
    }

    fn refocus(&mut self, focus: Focus)
        ensures
            final(self).deep_view() == old(self).deep_view().refocused(focus),
    {
        proof {
            reveal(ClientCore::model);
            reveal(SpecClientCore::refocused);
        }
        self.view.set_focus(focus);
        match focus {
            Focus::ReviewRequest { .. } => {
                self.view.set_tab(Tab::Conversation);
            },
            _ => {},
        }
    }

    pub(crate) fn focus_on(&mut self, focus: Focus) -> (r: Result<(), CoreError>)
        ensures
            client::settled(
                old(self).deep_view(),
                final(self).deep_view(),
                r,
                old(self).deep_view().set_focus(focus),
            ),
    {
        proof {
            reveal(ClientCore::model);
            reveal(SpecClientCore::set_focus);
        }
        if focus::clamp(&self.view, focus) != focus {
            return Err(CoreError::FocusOutOfRange(focus));
        }
        let before = self.view.focus();
        let ghost start = self.deep_view();
        self.refocus(focus);
        if let Some(t) = self.row_out_of_view(focus) {
            let (file, row) = t;
            let (first_row, last_row) = reading::page(row);
            if let Err(e) = self.viewport(file, first_row, last_row) {
                self.view.set_focus(before);
                proof {
                    lemma_refocus_back(start, focus);
                }
                return Err(e);
            }
        }
        self.flow.touch(ViewSection::Focus);
        Ok(())
    }

    pub(crate) fn toggle_help(&mut self)
        ensures
            final(self).deep_view() == old(self).deep_view().toggle_help(),
    {
        proof {
            reveal(ClientCore::model);
            reveal(SpecClientCore::toggle_help);
        }
        if self.keys.help_context.is_some() {
            self.keys.help_context = None;
            self.leave();
        } else {
            self.keys.help_context = Some(self.view.focus().context());
            self.enter(Focus::Help);
        }
        self.flow.touch_all(data::two(ViewSection::Help, ViewSection::Focus));
    }

    pub(crate) fn enter_visual(&mut self) -> (r: Result<(), CoreError>)
        ensures
            client::settled(
                old(self).deep_view(),
                final(self).deep_view(),
                r,
                old(self).deep_view().enter_visual(),
            ),
    {
        proof {
            reveal(ClientCore::model);
            reveal(SpecClientCore::enter_visual);
        }
        if self.view.review().is_none() {
            return Err(CoreError::NoOpenReview);
        }
        match self.view.focus() {
            Focus::Diff { row, side } => {
                self.keys.visual_anchor = Some(VisualAnchor { row, side });
                Ok(())
            },
            _ => Err(CoreError::NoTarget(NoTarget::Nothing(Command::VisualMode))),
        }
    }

    pub(crate) fn leave_visual(&mut self) -> (r: Result<(), CoreError>)
        ensures
            client::settled(
                old(self).deep_view(),
                final(self).deep_view(),
                r,
                old(self).deep_view().leave_visual(),
            ),
    {
        proof {
            reveal(ClientCore::model);
            reveal(SpecClientCore::leave_visual);
        }
        if self.keys.visual_anchor.is_none() {
            return Err(CoreError::NoTarget(NoTarget::Nothing(Command::VisualMode)));
        }
        self.keys.visual_anchor = None;
        Ok(())
    }

    fn viewed_event(&self, file: FileRef, viewed: bool) -> (r: Result<(Mutation, EventBody), CoreError>)
        ensures
            match r {
                Ok(e) => self.deep_view().viewed_event(file.deep_view(), viewed) == Ok::<
                    (SpecMutation, SpecEventBody),
                    SpecCoreError,
                >((e.0.deep_view(), e.1.deep_view())),
                Err(e) => self.deep_view().viewed_event(file.deep_view(), viewed) == Err::<
                    (SpecMutation, SpecEventBody),
                    SpecCoreError,
                >(e.deep_view()),
            },
    {
        proof {
            reveal(ClientCore::model);
        }
        if !self.is_subscribed() {
            return Err(self.wrong_state(InputKind::User));
        }
        let open = match self.view.review() {
            Some(open) => open,
            None => {
                return Err(CoreError::NoOpenReview);
            },
        };
        let viewer = match self.config.author.as_human() {
            Some(h) => h,
            None => {
                return Err(CoreError::NotHuman);
            },
        };
        let content = match explorer::find_file(&open.files, file.repo_id, &file.path) {
            Some(k) => k.target.viewed_content(),
            None => {
                return Err(CoreError::UnknownFile(file));
            },
        };
        let review_id = open.snapshot.review.id;
        let repo_id = file.repo_id;
        let path = file.path;
        if viewed {
            Ok(
                (
                    Mutation::MarkViewed { review_id, repo_id, path: path.dup() },
                    EventBody::FileViewed { review_id, repo_id, path, viewer, content },
                ),
            )
        } else {
            Ok(
                (
                    Mutation::UnmarkViewed { review_id, repo_id, path: path.dup() },
                    EventBody::FileUnviewed { review_id, repo_id, path, viewer },
                ),
            )
        }
    }

    pub(crate) fn mark_viewed(&mut self, file: FileRef, viewed: bool) -> (r: Result<(), CoreError>)
        ensures
            client::settled(
                old(self).deep_view(),
                final(self).deep_view(),
                r,
                old(self).deep_view().mark_viewed(file.deep_view(), viewed),
            ),
    {
        proof {
            reveal(ClientCore::model);
            reveal(SpecClientCore::mark_viewed);
        }
        match self.viewed_event(file, viewed) {
            Ok(e) => {
                let (mutation, body) = e;
                self.mutate_with(mutation, body);
                Ok(())
            },
            Err(e) => Err(e),
        }
    }

    /// The id of the open review, if there is one.
    pub(crate) fn open_or(&self) -> (r: ReviewId)
        ensures
            r == self.deep_view().open_or(),
    {
        proof {
            reveal(ClientCore::model);
        }
        match self.open_id() {
            Some(id) => id,
            None => ReviewId(0),
        }
    }

    /// Apply and send a mutation of the open review.
    pub(crate) fn mutate_open(&mut self, mutation: Mutation) -> (r: Result<(), CoreError>)
        ensures
            client::settled(
                old(self).deep_view(),
                final(self).deep_view(),
                r,
                old(self).deep_view().on_review(mutation.deep_view()),
            ),
    {
        proof {
            reveal(ClientCore::model);
            reveal(SpecClientCore::on_review);
        }
        match self.open_id() {
            None => Err(CoreError::NoOpenReview),
            Some(_) => self.mutate(mutation),
        }
    }

    pub(crate) fn create_review(
        &mut self,
        review_id: ReviewId,
        workspace_id: WorkspaceId,
        title: String,
        targets: Vec<ReviewTarget>,
    ) -> (r: Result<(), CoreError>)
        ensures
            client::settled(
                old(self).deep_view(),
                final(self).deep_view(),
                r,
                old(self).deep_view().create_review(review_id, workspace_id, title@, targets.deep_view()),
            ),
    {
        proof {
            reveal(ClientCore::model);
            reveal(SpecClientCore::create_review);
        }
        if !self.is_subscribed() {
            return Err(self.wrong_state(InputKind::User));
        }
        let client_seq = self.next_seq();
        self.flow.request(
            Request::Mutate {
                client_seq,
                mutation: Mutation::CreateReview { review_id, workspace_id, title, targets },
            },
            InFlight::Mutate { client_seq },
        );
        Ok(())
    }
}

} // verus!
