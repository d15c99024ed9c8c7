//! The review creation form and its submission.
use vstd::prelude::*;

use crate::client;
use crate::client::{ClientCore, CoreError, SpecClientCore, SpecCoreError};
use crate::command::Command;
use crate::creation;
use crate::creation::{
    CreationBase, CreationDefault, CreationDefaultState, CreationDraft, CreationEdit,
    CreationReconcile, CreationResume, CreationRevision, CreationStatus, CreationSubmission,
    CreationTarget, CreationTargetId, ReviewCreation, SpecCreationDefault, SpecCreationDefaultState,
    SpecCreationDraft, SpecCreationEdit, SpecCreationStatus, SpecCreationSubmission,
    SpecCreationTarget, SpecReviewCreation,
};
use crate::data;
use crate::data::Value;
use crate::errors;
use crate::flow::{InFlight, SpecErrand, SpecFlow, SpecInFlight};
use crate::focus::{Focus, NoTarget};
use crate::home::{HomeView, SpecHomeView};
use crate::live;
use crate::protocol::{
    ClientSeq, EventBody, Mutation, Repo, RepoId, Request, RequestId, Review, ReviewId, RpcError,
    SpecClientMsg, SpecEventBody, SpecMutation, SpecRepo, SpecRequest, SpecReview, SpecRpcError,
    SpecWorkspace, ViewSection, Workspace, WorkspaceId,
};
use crate::text;
use crate::view::{no_text, SpecViewModel, ViewModel};

verus! {

impl SpecViewModel {
    /// Only the visible form has the creation commands.
    pub open spec fn active_creation(self) -> Option<SpecReviewCreation> {
        match self.home.creating {
            Some(c) => if self.open_review is None && !(c.status is Succeeded) {
                Some(c)
            } else {
                None
            },
            None => None,
        }
    }
}

impl ViewModel {
    /// The form, while it is what has the creation commands. A retained
    /// draft must not capture the composer of an open review.
    pub fn active_creation(&self) -> (r: Option<&ReviewCreation>)
        ensures
            match r {
                Some(c) => self.deep_view().active_creation() == Some(c.deep_view()),
                None => self.deep_view().active_creation() is None,
            },
    {
        let view = self;
        match &view.home().creating {
            Some(c) => if view.open_review().is_none() && !succeeded(c) {
                Some(c)
            } else {
                None
            },
            None => None,
        }
    }
}

fn succeeded(c: &ReviewCreation) -> (b: bool)
    ensures
        b == (c.deep_view().status is Succeeded),
{
    match c.status {
        CreationStatus::Succeeded => true,
        _ => false,
    }
}

/// The first repository that has no row, or else the first.
pub open spec fn next_repo(repos: Seq<SpecRepo>, rows: Seq<SpecCreationTarget>) -> Option<RepoId> {
    match data::found(repos, without_row(rows)) {
        Some(r) => Some(r.id),
        None => if repos.len() > 0 {
            Some(repos[0].id)
        } else {
            None
        },
    }
}

pub open spec fn without_row(rows: Seq<SpecCreationTarget>) -> spec_fn(SpecRepo) -> bool {
    |r: SpecRepo| !data::some_where(rows, creation::row_of(r.id))
}

/// The row's repository is in the workspace.
pub open spec fn attached(w: SpecWorkspace) -> spec_fn(SpecCreationTarget) -> bool {
    |t: SpecCreationTarget| data::some_where(w.repos, live::repo_is(t.repo_id))
}

/// The workspace has every repository of the form.
pub open spec fn covers(c: SpecReviewCreation) -> spec_fn(SpecWorkspace) -> bool {
    |w: SpecWorkspace|
        w.id == c.workspace_id && forall|i: int|
            0 <= i < c.draft.targets.len() ==> attached(w)(#[trigger] c.draft.targets[i])
}

impl SpecClientCore {
    pub open spec fn with_creating(self, creating: Option<SpecReviewCreation>) -> SpecClientCore {
        self.with_view(SpecViewModel { home: SpecHomeView { creating, ..self.view.home }, ..self.view })
    }

    /// The form with this identity, whatever its state.
    pub open spec fn form(self, review_id: ReviewId) -> Option<SpecReviewCreation> {
        match self.view.home.creating {
            Some(c) => if c.review_id == review_id {
                Some(c)
            } else {
                None
            },
            None => None,
        }
    }

    /// The form with this identity, if it can be changed.
    pub open spec fn editable_form(self, review_id: ReviewId) -> Option<SpecReviewCreation> {
        match self.form(review_id) {
            Some(c) => if c.editable() {
                Some(c)
            } else {
                None
            },
            None => None,
        }
    }

    /// The form with this identity, if it belongs to this daemon.
    pub open spec fn own_form(self, review_id: ReviewId) -> Option<SpecReviewCreation> {
        match self.form(review_id) {
            Some(c) => if c.context == self.view.daemon_context {
                Some(c)
            } else {
                None
            },
            None => None,
        }
    }

    /// The form changed.
    pub open spec fn with_form(self, c: SpecReviewCreation) -> SpecClientCore {
        self.with_creating(Some(c)).touch(seq![ViewSection::ReviewList])
    }

    /// The form is on screen and has the keys.
    #[verifier::opaque]
    pub open spec fn creation_shown(self) -> SpecClientCore {
        let c = SpecClientCore { pending_reference: None, ..self };
        let c = if c.view.review is Some {
            c.closed_review()
        } else {
            c
        };
        c.with_focus(Focus::Composer).touch(
            seq![ViewSection::ReviewList, ViewSection::Focus, ViewSection::Draft],
        )
    }

    pub open spec fn defaults_requested(self, review_id: ReviewId, repos: Seq<RepoId>) -> SpecClientCore
        decreases repos.len(),
    {
        if repos.len() == 0 {
            self
        } else {
            self.defaults_requested(review_id, repos.drop_last()).request(
                SpecRequest::DefaultBase { repo_id: repos.last() },
                SpecInFlight::CreationDefault { review_id, repo_id: repos.last() },
            )
        }
    }

    /// The default base of every repository of the form is asked for, once.
    #[verifier::opaque]
    pub open spec fn defaulted(self) -> SpecClientCore {
        match self.view.home.creating {
            Some(c) => if self.subscribed() && c.editable() && c.context == self.view.daemon_context {
                let needed = creation::missing(c.draft.targets, c.defaults);
                self.with_creating(
                    Some(
                        SpecReviewCreation {
                            defaults: c.defaults + needed.map_values(creation::loading_default()),
                            ..c
                        },
                    ),
                ).defaults_requested(c.review_id, needed)
            } else {
                self
            },
            None => self,
        }
    }

    /// A form that a start would return to.
    pub open spec fn resumable(self, workspace_id: WorkspaceId) -> bool {
        match self.view.home.creating {
            Some(c) => !(c.status is Succeeded) && (!c.editable() || c.workspace_id == workspace_id),
            None => false,
        }
    }

    /// A new form.
    pub open spec fn blank(self, workspace: SpecWorkspace, review_id: ReviewId) -> SpecReviewCreation {
        SpecReviewCreation {
            review_id,
            workspace_id: workspace.id,
            context: self.view.daemon_context,
            draft: SpecCreationDraft {
                title: Seq::empty(),
                targets: if workspace.repos.len() > 0 {
                    seq![creation::new_row(CreationTargetId::of(0), workspace.repos[0].id)]
                } else {
                    Seq::empty()
                },
            },
            defaults: Seq::empty(),
            selected: None,
            revision: CreationRevision::of(0),
            status: SpecCreationStatus::Editing,
        }
    }

    /// The form opens, or the one that is under way is shown again.
    #[verifier::opaque]
    pub open spec fn start_creation(self, workspace_id: WorkspaceId, review_id: ReviewId) -> Result<
        SpecClientCore,
        SpecCoreError,
    > {
        if self.resumable(workspace_id) {
            Ok(self.creation_shown())
        } else {
            match data::found(self.view.workspaces, live::workspace_is(workspace_id)) {
                Some(w) => Ok(
                    self.with_creating(Some(self.blank(w, review_id))).defaulted().creation_shown(),
                ),
                None => Err(SpecCoreError::NoTarget(NoTarget::Nothing(Command::NewReview))),
            }
        }
    }

    #[verifier::opaque]
    pub open spec fn edit_creation(self, review_id: ReviewId, edit: SpecCreationEdit) -> SpecClientCore {
        match self.editable_form(review_id) {
            Some(c) => self.with_creating(Some(c.edited(edit))).defaulted().touch(seq![ViewSection::ReviewList]),
            None => self,
        }
    }

    #[verifier::opaque]
    pub open spec fn select_creation_target(self, review_id: ReviewId, id: CreationTargetId) -> SpecClientCore {
        match self.editable_form(review_id) {
            Some(c) => {
                let next = self.with_form(c.row_selected(id));
                if data::some_where(c.draft.targets, creation::row_is(id)) {
                    next.with_focus(Focus::Composer)
                } else {
                    next
                }
            },
            None => self,
        }
    }

    /// The repository a further row would be for.
    pub open spec fn repo_to_add(self, c: SpecReviewCreation) -> Option<RepoId> {
        match data::found(self.view.workspaces, live::workspace_is(c.workspace_id)) {
            Some(w) => next_repo(w.repos, c.draft.targets),
            None => None,
        }
    }

    #[verifier::opaque]
    pub open spec fn add_creation_target(self, review_id: ReviewId) -> SpecClientCore {
        match self.editable_form(review_id) {
            Some(c) => match self.repo_to_add(c) {
                Some(repo_id) => self.with_creating(Some(c.row_added(repo_id))).with_focus(
                    Focus::Composer,
                ).defaulted().touch(seq![ViewSection::ReviewList]),
                None => self.with_form(c.advanced()),
            },
            None => self,
        }
    }

    #[verifier::opaque]
    pub open spec fn remove_creation_target(self, review_id: ReviewId) -> SpecClientCore {
        match self.editable_form(review_id) {
            Some(c) => self.with_form(c.row_removed()),
            None => self,
        }
    }

    /// A default base was answered. It is kept even while a submission is
    /// under way.
    #[verifier::opaque]
    pub open spec fn creation_default_answer(
        self,
        review_id: ReviewId,
        repo_id: RepoId,
        state: SpecCreationDefaultState,
    ) -> SpecClientCore {
        match self.own_form(review_id) {
            Some(c) => match data::first_where(c.defaults, creation::default_for(repo_id)) {
                Some(i) => if c.defaults[i].state is Loading {
                    self.with_form(
                        SpecReviewCreation {
                            defaults: c.defaults.update(i, SpecCreationDefault { repo_id, state }),
                            ..c
                        },
                    )
                } else {
                    self
                },
                None => self,
            },
            None => self,
        }
    }

    /// What submitting the form comes to.
    pub open spec fn submission(self, c: SpecReviewCreation) -> Result<SpecCreationSubmission, Seq<char>> {
        if c.context != self.view.daemon_context {
            Err(
                "This draft belongs to a different daemon context. Return to that context before submitting."@,
            )
        } else if !self.subscribed() {
            Err("The daemon is disconnected. Your draft is retained; reconnect and try again."@)
        } else if !data::some_where(self.view.workspaces, covers(c)) {
            Err(
                "A selected repository is no longer attached to this workspace. Refresh and choose its repositories again."@,
            )
        } else {
            c.submission()
        }
    }

    #[verifier::opaque]
    pub open spec fn submit_creation(self, review_id: ReviewId) -> SpecClientCore {
        match self.editable_form(review_id) {
            Some(c) => match self.submission(c) {
                Ok(s) => self.send_creation(review_id, s),
                Err(message) => self.with_form(c.with_status(SpecCreationStatus::Failed { message })),
            },
            None => self,
        }
    }

    /// A submission is sent, as it is.
    #[verifier::opaque]
    pub open spec fn send_creation(self, review_id: ReviewId, submission: SpecCreationSubmission) -> SpecClientCore {
        match self.own_form(review_id) {
            Some(c) => {
                let client_seq = ClientSeq(self.flow.wire.next_client_seq);
                self.with_creating(Some(c.with_status(SpecCreationStatus::Pending { submission }))).with_next_seq().request(
                    SpecRequest::Mutate {
                        client_seq,
                        mutation: SpecMutation::CreateReview {
                            review_id,
                            workspace_id: c.workspace_id,
                            title: submission.title,
                            targets: submission.targets,
                        },
                    },
                    SpecInFlight::CreateReview { review_id, client_seq },
                ).touch(seq![ViewSection::ReviewList])
            },
            None => self,
        }
    }

    /// A write was refused. A prior write may still have won, so the
    /// identity is looked up before anything is said.
    #[verifier::opaque]
    pub open spec fn creation_write_failed(self, review_id: ReviewId, error: SpecRpcError) -> SpecClientCore {
        match self.own_form(review_id) {
            Some(c) => match c.status {
                SpecCreationStatus::Pending { submission } => self.with_creating(
                    Some(
                        c.with_status(
                            SpecCreationStatus::Reconciling { submission, next: CreationReconcile::Inspect },
                        ),
                    ),
                ).request(
                    SpecRequest::GetReview { review_id },
                    SpecInFlight::CheckFailedCreation { review_id, error },
                ).touch(seq![ViewSection::ReviewList]),
                _ => self,
            },
            None => self,
        }
    }

    /// The lookup after a refused write failed, too.
    #[verifier::opaque]
    pub open spec fn creation_failure_checked(
        self,
        review_id: ReviewId,
        original: SpecRpcError,
        lookup: SpecRpcError,
    ) -> SpecClientCore {
        if lookup.no_review() {
            match self.form(review_id) {
                Some(c) => if c.status is Reconciling {
                    self.with_form(c.with_status(SpecCreationStatus::Failed { message: original.message() }))
                } else {
                    self
                },
                None => self,
            }
        } else {
            self.creation_lookup_failed(review_id, lookup)
        }
    }

    #[verifier::opaque]
    pub open spec fn creation_disconnected(self) -> SpecClientCore {
        match self.view.home.creating {
            Some(c) => self.with_creating(Some(c.disconnected())),
            None => self,
        }
    }

    /// The connection is gone, and the form says so.
    #[verifier::opaque]
    pub open spec fn creation_lost(self) -> SpecClientCore {
        if self.view.home.creating is Some {
            self.creation_disconnected().touch(seq![ViewSection::ReviewList])
        } else {
            self
        }
    }

    /// An interrupted submission is looked up by its identity.
    #[verifier::opaque]
    pub open spec fn reconcile_creation(self, review_id: ReviewId, next: CreationReconcile) -> SpecClientCore {
        match self.own_form(review_id) {
            Some(c) => match c.status {
                SpecCreationStatus::Interrupted { submission, .. } => if self.subscribed() {
                    self.with_creating(
                        Some(c.with_status(SpecCreationStatus::Reconciling { submission, next })),
                    ).request(
                        SpecRequest::GetReview { review_id },
                        SpecInFlight::ReconcileCreation { review_id },
                    ).touch(seq![ViewSection::ReviewList])
                } else {
                    self
                },
                _ => self,
            },
            None => self,
        }
    }

    #[verifier::opaque]
    pub open spec fn creation_reconnected(self) -> SpecClientCore {
        match self.view.home.creating {
            Some(c) => self.defaulted().reconcile_creation(c.review_id, CreationReconcile::Inspect).touch(
                seq![ViewSection::ReviewList],
            ),
            None => self,
        }
    }

    /// A review exists; if it is the one being created, that is settled.
    #[verifier::opaque]
    pub open spec fn creation_found(self, review: SpecReview) -> SpecClientCore {
        match self.own_form(review.id) {
            Some(c) => if c.workspace_id == review.workspace_id && c.submitted() is Some {
                self.with_form(c.matched(review.title, review.targets))
            } else {
                self
            },
            None => self,
        }
    }

    pub open spec fn creation_observed(self, body: SpecEventBody) -> SpecClientCore {
        match body {
            SpecEventBody::ReviewCreated { review } => self.creation_found(review),
            _ => self,
        }
    }

    /// The lookup of an earlier submission failed. Only a review that is
    /// known not to exist is sent again, and only on request.
    #[verifier::opaque]
    pub open spec fn creation_lookup_failed(self, review_id: ReviewId, error: SpecRpcError) -> SpecClientCore {
        match self.form(review_id) {
            Some(c) => match c.status {
                SpecCreationStatus::Reconciling { submission, next } => if error.no_review() && next is Retry {
                    self.send_creation(review_id, submission)
                } else {
                    self.with_form(
                        c.with_status(
                            SpecCreationStatus::Interrupted {
                                submission,
                                message: if error.no_review() {
                                    "The review was not found. Retry will check for an existing review before creating one."@
                                } else {
                                    "Unable to check the previous attempt: "@ + error.message()
                                },
                            },
                        ),
                    )
                },
                _ => self,
            },
            None => self,
        }
    }

    /// A retained form comes back.
    #[verifier::opaque]
    pub open spec fn restore_creation(self, creation: SpecReviewCreation, resume: CreationResume) -> SpecClientCore {
        if creation.context != self.view.daemon_context {
            self.with_view(
                SpecViewModel {
                    last_error: Some(
                        SpecRpcError::Invalid {
                            reason: "The retained review draft belongs to a different daemon context and was not restored."@,
                        },
                    ),
                    ..self.view
                },
            ).touch(seq![ViewSection::Connection])
        } else if self.view.home.creating is Some {
            self
        } else {
            self.with_creating(Some(resumed(creation, resume))).with_focus(
                Focus::Composer,
            ).creation_disconnected().creation_reconnected()
        }
    }
}

/// A form whose submission may have got through is looked up first.
pub open spec fn resumed(creation: SpecReviewCreation, resume: CreationResume) -> SpecReviewCreation {
    if resume is Submitted && creation.editable() {
        match creation.submission() {
            Ok(submission) => creation.with_status(
                SpecCreationStatus::Interrupted {
                    submission,
                    message: "Browser connection lost after submit. Checking whether the review was created."@,
                },
            ),
            Err(message) => creation.with_status(SpecCreationStatus::Failed { message }),
        }
    } else {
        creation
    }
}

fn resume_form(creation: ReviewCreation, resume: CreationResume) -> (r: ReviewCreation)
    ensures
        r.deep_view() == resumed(creation.deep_view(), resume),
{
    let mut creation = creation;
    if resume == CreationResume::Submitted && creation.editable() {
        creation.status = match creation.submission() {
            Ok(submission) => CreationStatus::Interrupted {
                submission,
                message: "Browser connection lost after submit. Checking whether the review was created.".to_owned(),
            },
            Err(message) => CreationStatus::Failed { message },
        };
    }
    creation
}

impl ClientCore {
    fn set_creating(&mut self, creating: Option<ReviewCreation>)
        ensures
            final(self).deep_view() == old(self).deep_view().with_creating(creating.deep_view()),
    {
        proof {
            reveal(ClientCore::model);
        }
        let home = self.view.home();
        let home = HomeView {
            rows: home.rows.dup(),
            selected_workspace: home.selected_workspace,
            expanded: home.expanded.dup(),
            creating,
        };
        self.view.set_home(home);
    }

    fn set_form(&mut self, c: ReviewCreation)
        ensures
            final(self).deep_view() == old(self).deep_view().with_form(c.deep_view()),
    {
        proof {
            reveal(ClientCore::model);
        }
        self.set_creating(Some(c));
        self.flow.touch(ViewSection::ReviewList);
    }

    fn form(&self, review_id: ReviewId) -> (r: Option<ReviewCreation>)
        ensures
            r.deep_view() == self.deep_view().form(review_id),
    {
        proof {
            reveal(ClientCore::model);
        }
        match &self.view.home().creating {
            Some(c) => if c.review_id == review_id {
                Some(c.dup())
            } else {
                None
            },
            None => None,
        }
    }

    fn editable_form(&self, review_id: ReviewId) -> (r: Option<ReviewCreation>)
        ensures
            r.deep_view() == self.deep_view().editable_form(review_id),
    {
        proof {
            reveal(ClientCore::model);
        }
        match self.form(review_id) {
            Some(c) => if c.editable() {
                Some(c)
            } else {
                None
            },
            None => None,
        }
    }

    fn own_form(&self, review_id: ReviewId) -> (r: Option<ReviewCreation>)
        ensures
            r.deep_view() == self.deep_view().own_form(review_id),
    {
        proof {
            reveal(ClientCore::model);
        }
        match self.form(review_id) {
            Some(c) => if c.context.same(self.view.daemon_context()) {
                Some(c)
            } else {
                None
            },
            None => None,
        }
    }

    fn show_creation(&mut self)
        ensures
            final(self).deep_view() == old(self).deep_view().creation_shown(),
    {
        proof {
            reveal(ClientCore::model);
            reveal(SpecClientCore::creation_shown);
        }
        self.pending_reference = None;
        if self.view.review().is_some() {
            self.close_review();
        }
        self.view.set_focus(Focus::Composer);
        let mut s = data::two(ViewSection::ReviewList, ViewSection::Focus);
        data::push(&mut s, ViewSection::Draft);
        assert(s.deep_view() =~= seq![ViewSection::ReviewList, ViewSection::Focus, ViewSection::Draft]);
        self.flow.touch_all(s);
    }

    fn request_defaults(&mut self, review_id: ReviewId, repos: &Vec<RepoId>)
        ensures
            final(self).deep_view() == old(self).deep_view().defaults_requested(review_id, repos.deep_view()),
    {
        proof {
            reveal(ClientCore::model);
        }
        let n: usize = repos.len();
        let ghost all = repos.deep_view();
        let ghost start = self.deep_view();
        assert(all.take(0) =~= Seq::empty());
        for i in 0..n
            invariant
                n == repos@.len(),
                all == repos.deep_view(),
                self.deep_view() == start.defaults_requested(review_id, all.take(i as int)),
        {
            proof {
                reveal(ClientCore::model);
            }
            assert(all.take(i + 1).drop_last() =~= all.take(i as int));
            assert(all.take(i + 1).last() == repos@[i as int].deep_view());
            let repo_id = repos[i];
            self.flow.request(
                Request::DefaultBase { repo_id },
                InFlight::CreationDefault { review_id, repo_id },
            );
        }
        assert(all.take(n as int) =~= all);
    }

    /// Ask for the default bases the form needs.
    pub(crate) fn creation_defaults(&mut self)
        ensures
            final(self).deep_view() == old(self).deep_view().defaulted(),
    {
        proof {
            reveal(ClientCore::model);
            reveal(SpecClientCore::defaulted);
        }
        let c = match &self.view.home().creating {
            Some(c) => if self.is_subscribed() && c.editable() && c.context.same(self.view.daemon_context()) {
                c.dup()
            } else {
                return ;
            },
            None => {
                return ;
            },
        };
        let mut c = c;
        let review_id = c.review_id;
        let needed = creation::missing_defaults(&c.draft.targets, &c.defaults);
        let loading = data::map(
            &needed,
            |repo_id: &RepoId| -> (d: CreationDefault)
                ensures
                    d.deep_view() == creation::loading_default()(repo_id.deep_view())
            { CreationDefault { repo_id: *repo_id, state: CreationDefaultState::Loading } },
            Ghost(creation::loading_default()),
        );
        data::append(&mut c.defaults, loading);
        self.set_creating(Some(c));
        self.request_defaults(review_id, &needed);
    }

    fn blank(&self, workspace: &Workspace, review_id: ReviewId) -> (r: ReviewCreation)
        ensures
            r.deep_view() == self.deep_view().blank(workspace.deep_view(), review_id),
    {
        proof {
            reveal(ClientCore::model);
        }
        assert(workspace.repos.deep_view().len() == workspace.repos@.len());
        let targets = if workspace.repos.len() > 0 {
            data::one(
                CreationTarget {
                    id: CreationTargetId(0),
                    repo_id: workspace.repos[0].id,
                    base: CreationBase::Automatic,
                    head: "worktree".to_owned(),
                },
            )
        } else {
            data::empty()
        };
        ReviewCreation {
            review_id,
            workspace_id: workspace.id,
            context: self.view.daemon_context().dup(),
            draft: CreationDraft { title: no_text(), targets },
            defaults: data::empty(),
            selected: None,
            revision: CreationRevision(0),
            status: CreationStatus::Editing,
        }
    }

    pub(crate) fn start_creation(&mut self, workspace_id: WorkspaceId, review_id: ReviewId) -> (r: Result<
        (),
        CoreError,
    >)
        ensures
            client::settled(
                old(self).deep_view(),
                final(self).deep_view(),
                r,
                old(self).deep_view().start_creation(workspace_id, review_id),
            ),
    {
        proof {
            reveal(ClientCore::model);
            reveal(SpecClientCore::start_creation);
        }
        let resumable = match &self.view.home().creating {
            Some(c) => !succeeded(c) && (!c.editable() || c.workspace_id == workspace_id),
            None => false,
        };
        if resumable {
            self.show_creation();
            return Ok(());
        }
        let workspaces = self.view.workspaces();
        let blank = match live::find_workspace(workspaces, workspace_id) {
            Some(i) => self.blank(&workspaces[i], review_id),
            None => {
                return Err(CoreError::NoTarget(NoTarget::Nothing(Command::NewReview)));
            },
        };
        self.set_creating(Some(blank));
        self.creation_defaults();
        self.show_creation();
        Ok(())
    }

    pub(crate) fn edit_creation_field(&mut self, review_id: ReviewId, edit: CreationEdit)
        ensures
            final(self).deep_view() == old(self).deep_view().edit_creation(review_id, edit.deep_view()),
    {
        proof {
            reveal(ClientCore::model);
            reveal(SpecClientCore::edit_creation);
        }
        if let Some(c) = self.editable_form(review_id) {
            let mut c = c;
            c.edit(edit);
            self.set_creating(Some(c));
            self.creation_defaults();
            self.flow.touch(ViewSection::ReviewList);
        }
    }

    pub(crate) fn select_creation_target(&mut self, review_id: ReviewId, id: CreationTargetId)
        ensures
            final(self).deep_view() == old(self).deep_view().select_creation_target(review_id, id),
    {
        proof {
            reveal(ClientCore::model);
            reveal(SpecClientCore::select_creation_target);
        }
        if let Some(c) = self.editable_form(review_id) {
            let mut c = c;
            let there = c.select_row(id);
            self.set_form(c);
            if there {
                self.view.set_focus(Focus::Composer);
            }
        }
    }

    fn repo_to_add(&self, c: &ReviewCreation) -> (r: Option<RepoId>)
        ensures
            r == self.deep_view().repo_to_add(c.deep_view()),
    {
        proof {
            reveal(ClientCore::model);
        }
        let workspaces = self.view.workspaces();
        match live::find_workspace(workspaces, c.workspace_id) {
            Some(i) => {
                let repos = &workspaces[i].repos;
                let rows = &c.draft.targets;
                assert(repos.deep_view().len() == repos@.len());
                match data::find(
                    repos,
                    |r: &Repo| -> (b: bool)
                        ensures
                            b == without_row(rows.deep_view())(r.deep_view())
                    {
                        let id = r.id;
                        !data::any(
                            rows,
                            |t: &CreationTarget| -> (b: bool)
                                ensures
                                    b == creation::row_of(id)(t.deep_view())
                            { t.repo_id == id },
                            Ghost(creation::row_of(id)),
                        )
                    },
                    Ghost(without_row(rows.deep_view())),
                ) {
                    Some(r) => Some(r.id),
                    None => if repos.len() > 0 {
                        Some(repos[0].id)
                    } else {
                        None
                    },
                }
            },
            None => None,
        }
    }

    pub(crate) fn add_creation_target(&mut self, review_id: ReviewId)
        ensures
            final(self).deep_view() == old(self).deep_view().add_creation_target(review_id),
    {
        proof {
            reveal(ClientCore::model);
            reveal(SpecClientCore::add_creation_target);
        }
        if let Some(c) = self.editable_form(review_id) {
            let mut c = c;
            match self.repo_to_add(&c) {
                Some(repo_id) => {
                    c.add_row(repo_id);
                    self.set_creating(Some(c));
                    self.view.set_focus(Focus::Composer);
                    self.creation_defaults();
                    self.flow.touch(ViewSection::ReviewList);
                },
                None => {
                    c.revision.advance();
                    self.set_form(c);
                },
            }
        }
    }

    pub(crate) fn remove_creation_target(&mut self, review_id: ReviewId)
        ensures
            final(self).deep_view() == old(self).deep_view().remove_creation_target(review_id),
    {
        proof {
            reveal(ClientCore::model);
            reveal(SpecClientCore::remove_creation_target);
        }
        if let Some(c) = self.editable_form(review_id) {
            let mut c = c;
            c.remove_row();
            self.set_form(c);
        }
    }

    pub(crate) fn creation_default_answer(
        &mut self,
        review_id: ReviewId,
        repo_id: RepoId,
        state: CreationDefaultState,
    )
        ensures
            final(self).deep_view() == old(self).deep_view().creation_default_answer(
                review_id,
                repo_id,
                state.deep_view(),
            ),
    {
        proof {
            reveal(ClientCore::model);
            reveal(SpecClientCore::creation_default_answer);
        }
        if let Some(c) = self.own_form(review_id) {
            let mut c = c;
            let at = data::position(
                &c.defaults,
                |d: &CreationDefault| -> (b: bool)
                    ensures
                        b == creation::default_for(repo_id)(d.deep_view())
                { d.repo_id == repo_id },
                Ghost(creation::default_for(repo_id)),
            );
            if let Some(i) = at {
                assert(c.defaults.deep_view()[i as int] == c.defaults@[i as int].deep_view());
                let loading = match c.defaults[i].state {
                    CreationDefaultState::Loading => true,
                    _ => false,
                };
                if loading {
                    data::set(&mut c.defaults, i, CreationDefault { repo_id, state });
                    self.set_form(c);
                }
            }
        }
    }

    fn workspace_covers(w: &Workspace, c: &ReviewCreation) -> (b: bool)
        ensures
            b == covers(c.deep_view())(w.deep_view()),
    {
        proof {
            reveal(ClientCore::model);
        }
        if w.id != c.workspace_id {
            return false;
        }
        let rows = &c.draft.targets;
        let n: usize = rows.len();
        for i in 0..n
            invariant
                n == rows@.len(),
                rows == c.draft.targets,
                forall|j: int| 0 <= j < i ==> attached(w.deep_view())(#[trigger] c.deep_view().draft.targets[j]),
        {
            let repo_id = rows[i].repo_id;
            let there = data::any(
                &w.repos,
                |r: &Repo| -> (b: bool)
                    ensures
                        b == live::repo_is(repo_id)(r.deep_view())
                { r.id == repo_id },
                Ghost(live::repo_is(repo_id)),
            );
            assert(c.deep_view().draft.targets[i as int] == rows@[i as int].deep_view());
            if !there {
                return false;
            }
        }
        assert(c.deep_view().draft.targets.len() == n);
        true
    }

    fn submission(&self, c: &ReviewCreation) -> (r: Result<CreationSubmission, String>)
        ensures
            match r {
                Ok(s) => self.deep_view().submission(c.deep_view()) == Ok::<SpecCreationSubmission, Seq<char>>(
                    s.deep_view(),
                ),
                Err(e) => self.deep_view().submission(c.deep_view()) == Err::<SpecCreationSubmission, Seq<char>>(e@),
            },
    {
        proof {
            reveal(ClientCore::model);
        }
        if !c.context.same(self.view.daemon_context()) {
            return Err(
                "This draft belongs to a different daemon context. Return to that context before submitting.".to_owned(),
            );
        }
        if !self.is_subscribed() {
            return Err("The daemon is disconnected. Your draft is retained; reconnect and try again.".to_owned());
        }
        let there = data::any(
            self.view.workspaces(),
            |w: &Workspace| -> (b: bool)
                ensures
                    b == covers(c.deep_view())(w.deep_view())
            { ClientCore::workspace_covers(w, c) },
            Ghost(covers(c.deep_view())),
        );
        if !there {
            return Err(
                "A selected repository is no longer attached to this workspace. Refresh and choose its repositories again.".to_owned(),
            );
        }
        c.submission()
    }

    pub(crate) fn submit_creation(&mut self, review_id: ReviewId)
        ensures
            final(self).deep_view() == old(self).deep_view().submit_creation(review_id),
    {
        proof {
            reveal(ClientCore::model);
            reveal(SpecClientCore::submit_creation);
        }
        if let Some(c) = self.editable_form(review_id) {
            match self.submission(&c) {
                Ok(s) => {
                    self.send_creation(review_id, s);
                },
                Err(message) => {
                    let mut c = c;
                    c.status = CreationStatus::Failed { message };
                    self.set_form(c);
                },
            }
        }
    }

    fn send_creation(&mut self, review_id: ReviewId, submission: CreationSubmission)
        ensures
            final(self).deep_view() == old(self).deep_view().send_creation(review_id, submission.deep_view()),
    {
        proof {
            reveal(ClientCore::model);
            reveal(SpecClientCore::send_creation);
        }
        if let Some(c) = self.own_form(review_id) {
            let mut c = c;
            let workspace_id = c.workspace_id;
            c.status = CreationStatus::Pending { submission: submission.dup() };
            self.set_creating(Some(c));
            let client_seq = self.next_seq();
            self.flow.request(
                Request::Mutate {
                    client_seq,
                    mutation: Mutation::CreateReview {
                        review_id,
                        workspace_id,
                        title: submission.title,
                        targets: submission.targets,
                    },
                },
                InFlight::CreateReview { review_id, client_seq },
            );
            self.flow.touch(ViewSection::ReviewList);
        }
    }

    pub(crate) fn creation_write_failed(&mut self, review_id: ReviewId, error: RpcError)
        ensures
            final(self).deep_view() == old(self).deep_view().creation_write_failed(review_id, error.deep_view()),
    {
        proof {
            reveal(ClientCore::model);
            reveal(SpecClientCore::creation_write_failed);
        }
        if let Some(c) = self.own_form(review_id) {
            let submission = match &c.status {
                CreationStatus::Pending { submission } => submission.dup(),
                _ => {
                    return ;
                },
            };
            let mut c = c;
            c.status = CreationStatus::Reconciling { submission, next: CreationReconcile::Inspect };
            self.set_creating(Some(c));
            self.flow.request(
                Request::GetReview { review_id },
                InFlight::CheckFailedCreation { review_id, error },
            );
            self.flow.touch(ViewSection::ReviewList);
        }
    }

    pub(crate) fn creation_failure_checked(
        &mut self,
        review_id: ReviewId,
        original: &RpcError,
        lookup: &RpcError,
    )
        ensures
            final(self).deep_view() == old(self).deep_view().creation_failure_checked(
                review_id,
                original.deep_view(),
                lookup.deep_view(),
            ),
    {
        proof {
            reveal(ClientCore::model);
            reveal(SpecClientCore::creation_failure_checked);
        }
        if errors::is_no_review(lookup) {
            if let Some(c) = self.form(review_id) {
                let mut c = c;
                match c.status {
                    CreationStatus::Reconciling { .. } => {},
                    _ => {
                        return ;
                    },
                }
                c.status = CreationStatus::Failed { message: errors::rpc_error_message(original) };
                self.set_form(c);
            }
        } else {
            self.creation_lookup_failed(review_id, lookup);
        }
    }

    /// Whether there is a form to tell of it.
    pub(crate) fn creation_disconnected(&mut self) -> (r: bool)
        ensures
            final(self).deep_view() == old(self).deep_view().creation_disconnected(),
            r == (old(self).deep_view().view.home.creating is Some),
    {
        proof {
            reveal(ClientCore::model);
            reveal(SpecClientCore::creation_disconnected);
        }
        let c = match &self.view.home().creating {
            Some(c) => c.dup(),
            None => {
                return false;
            },
        };
        let mut c = c;
        c.disconnect();
        self.set_creating(Some(c));
        true
    }

    pub(crate) fn lose_creation(&mut self)
        ensures
            final(self).deep_view() == old(self).deep_view().creation_lost(),
    {
        proof {
            reveal(ClientCore::model);
            reveal(SpecClientCore::creation_lost);
            reveal(SpecClientCore::creation_disconnected);
        }
        if self.creation_disconnected() {
            self.flow.touch(ViewSection::ReviewList);
        }
    }

    pub(crate) fn reconcile_creation(&mut self, review_id: ReviewId, next: CreationReconcile)
        ensures
            final(self).deep_view() == old(self).deep_view().reconcile_creation(review_id, next),
    {
        proof {
            reveal(ClientCore::model);
            reveal(SpecClientCore::reconcile_creation);
        }
        if let Some(c) = self.own_form(review_id) {
            let submission = match &c.status {
                CreationStatus::Interrupted { submission, .. } => submission.dup(),
                _ => {
                    return ;
                },
            };
            if !self.is_subscribed() {
                return ;
            }
            let mut c = c;
            c.status = CreationStatus::Reconciling { submission, next };
            self.set_creating(Some(c));
            self.flow.request(Request::GetReview { review_id }, InFlight::ReconcileCreation { review_id });
            self.flow.touch(ViewSection::ReviewList);
        }
    }

    pub(crate) fn creation_reconnected(&mut self)
        ensures
            final(self).deep_view() == old(self).deep_view().creation_reconnected(),
    {
        proof {
            reveal(ClientCore::model);
            reveal(SpecClientCore::creation_reconnected);
        }
        let review_id = match &self.view.home().creating {
            Some(c) => c.review_id,
            None => {
                return ;
            },
        };
        self.creation_defaults();
        self.reconcile_creation(review_id, CreationReconcile::Inspect);
        self.flow.touch(ViewSection::ReviewList);
    }

    pub(crate) fn creation_found(&mut self, review: &Review)
        ensures
            final(self).deep_view() == old(self).deep_view().creation_found(review.deep_view()),
    {
        proof {
            reveal(ClientCore::model);
            reveal(SpecClientCore::creation_found);
        }
        if let Some(c) = self.own_form(review.id) {
            let mut c = c;
            if c.workspace_id == review.workspace_id && c.submitted().is_some() {
                c.found(&review.title, &review.targets);
                self.set_form(c);
            }
        }
    }

    pub(crate) fn creation_observe(&mut self, body: &EventBody)
        ensures
            final(self).deep_view() == old(self).deep_view().creation_observed(body.deep_view()),
    {
        proof {
            reveal(ClientCore::model);
        }
        match body {
            EventBody::ReviewCreated { review } => {
                self.creation_found(review);
            },
            _ => {},
        }
    }

    pub(crate) fn creation_lookup_failed(&mut self, review_id: ReviewId, error: &RpcError)
        ensures
            final(self).deep_view() == old(self).deep_view().creation_lookup_failed(review_id, error.deep_view()),
    {
        proof {
            reveal(ClientCore::model);
            reveal(SpecClientCore::creation_lookup_failed);
        }
        if let Some(c) = self.form(review_id) {
            let (submission, next) = match &c.status {
                CreationStatus::Reconciling { submission, next } => (submission.dup(), *next),
                _ => {
                    return ;
                },
            };
            let missing = errors::is_no_review(error);
            if missing && next == CreationReconcile::Retry {
                self.send_creation(review_id, submission);
            } else {
                let message = if missing {
                    "The review was not found. Retry will check for an existing review before creating one.".to_owned()
                } else {
                    text::join(
                        "Unable to check the previous attempt: ",
                        errors::rpc_error_message(error).as_str(),
                    )
                };
                let mut c = c;
                c.status = CreationStatus::Interrupted { submission, message };
                self.set_form(c);
            }
        }
    }

    pub(crate) fn restore_creation(&mut self, creation: ReviewCreation, resume: CreationResume)
        ensures
            final(self).deep_view() == old(self).deep_view().restore_creation(creation.deep_view(), resume),
    {
        proof {
            reveal(ClientCore::model);
            reveal(SpecClientCore::restore_creation);
        }
        if !creation.context.same(self.view.daemon_context()) {
            self.view.set_last_error(
                Some(
                    RpcError::Invalid {
                        reason: "The retained review draft belongs to a different daemon context and was not restored.".to_owned(),
                    },
                ),
            );
            self.flow.touch(ViewSection::Connection);
            return ;
        }
        if self.view.home().creating.is_some() {
            return ;
        }
        let creation = resume_form(creation, resume);
        self.set_creating(Some(creation));
        self.view.set_focus(Focus::Composer);
        let _ = self.creation_disconnected();
        self.creation_reconnected();
    }
}

// ---- laws -----------------------------------------------------------------

/// A form that was submitted cannot be edited until its outcome is known.
pub proof fn submitted_forms_do_not_change(
    core: SpecClientCore,
    review_id: ReviewId,
    edit: SpecCreationEdit,
    id: CreationTargetId,
)
    requires
        core.view.home.creating matches Some(c) && !c.editable(),
    ensures
        core.edit_creation(review_id, edit) == core,
        core.select_creation_target(review_id, id) == core,
        core.add_creation_target(review_id) == core,
        core.remove_creation_target(review_id) == core,
{
    reveal(SpecClientCore::edit_creation);
    reveal(SpecClientCore::select_creation_target);
    reveal(SpecClientCore::add_creation_target);
    reveal(SpecClientCore::remove_creation_target);
}

/// A form that was submitted is not submitted again while its outcome is
/// unknown.
pub proof fn submitted_forms_are_not_submitted_again(core: SpecClientCore, review_id: ReviewId)
    requires
        core.view.home.creating matches Some(c) && !c.editable(),
    ensures
        core.submit_creation(review_id) == core,
{
    reveal(SpecClientCore::submit_creation);
}

/// A submission whose answer was lost is looked up by the review's
/// identity; nothing is written.
pub proof fn lost_submissions_are_looked_up_first(
    core: SpecClientCore,
    review_id: ReviewId,
    next: CreationReconcile,
)
    requires
        core.own_form(review_id) matches Some(c) && c.status is Interrupted,
        core.subscribed(),
    ensures
        core.reconcile_creation(review_id, next).flow.out == core.flow.out.push(
            SpecErrand::Send(
                SpecClientMsg::Request {
                    id: RequestId(core.flow.wire.next_request),
                    request: SpecRequest::GetReview { review_id },
                },
            ),
        ),
{
    reveal(SpecClientCore::reconcile_creation);
    reveal(SpecFlow::request);
}

} // verus!
