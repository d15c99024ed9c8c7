//! Choosing revisions: for browsing, and for the targets of the open review.
use vstd::prelude::*;

use crate::browse::{
    Browse, BrowseAttempt, BrowseAttemptState, BrowseAttemptView, BrowseStatus, BrowseTarget,
    BrowseView, SpecBrowse, SpecBrowseAttempt, SpecBrowseAttemptState, SpecBrowseAttemptView,
    SpecBrowseStatus, SpecBrowseTarget, SpecBrowseView,
};
use crate::cache::{Bytes, CacheKey, CacheValue, SpecCacheKey, SpecCacheValue, TreeKey};
use crate::client;
use crate::client::{ClientCore, CoreError, InputKind, SpecClientCore, SpecCoreError};
use crate::data;
use crate::data::Value;
use crate::errors;
use crate::events;
use crate::fetching::Arrival;
use crate::flow::{InFlight, SpecInFlight};
use crate::focus;
use crate::live;
use crate::protocol;
use crate::protocol::{
    Mutation, RefSpec, Repo, RepoId, Request, RequestId, ReviewTarget, ReviewTargetUpdate, RpcError,
    SpecMutation, SpecRefSpec, SpecRequest, SpecReviewTarget, SpecReviewTargetUpdate, SpecRpcError,
    SpecTargetRevision, SpecTreeSnapshot, TargetRevision, TreeSnapshot, ViewSection,
};
use crate::ref_selector::{
    RefSelection, RefSelector, RefSelectorPurpose, RefSelectorSide, RefSelectorStatus,
    SpecRefSelection, SpecRefSelector, SpecRefSelectorStatus, SpecRefSelectorView,
};

verus! {

pub open spec fn draft_message() -> Seq<char> {
    "Finish or discard the open comment before changing revision."@
}

pub open spec fn browse_lost_message() -> Seq<char> {
    "Daemon disconnected; the previous revision is still visible."@
}

impl SpecClientCore {
    /// The open review has a target in this repository.
    pub open spec fn has_repo(self, repo_id: RepoId) -> bool {
        match self.view.review {
            Some(open) => open.snapshot.target(repo_id) is Some,
            None => false,
        }
    }

    /// Why a repository cannot be browsed.
    pub open spec fn repo_refusal(self, repo_id: RepoId) -> Option<SpecCoreError> {
        if self.view.review is None {
            Some(SpecCoreError::NoOpenReview)
        } else if !self.has_repo(repo_id) {
            Some(SpecCoreError::UnknownRepo(repo_id))
        } else {
            None
        }
    }

    /// The repository the Browse controls are for: the chosen one, else the
    /// one under the focus, else the first.
    pub open spec fn repo_browsed(self) -> Option<RepoId> {
        match self.view.review {
            Some(open) => {
                let wanted = match self.browse_repo {
                    Some(id) => Some(id),
                    None => self.view.target_repo(self.view.focus),
                };
                match wanted {
                    Some(id) if self.has_repo(id) => Some(id),
                    _ => if open.snapshot.review.targets.len() > 0 {
                        Some(open.snapshot.review.targets[0].repo_id)
                    } else {
                        None
                    },
                }
            },
            None => None,
        }
    }

    /// The Browse controls.
    pub open spec fn browse_shown(self) -> Option<SpecBrowseView> {
        match self.repo_browsed() {
            Some(repo_id) => Some(
                SpecBrowseView {
                    repo_id,
                    selection: match self.browse {
                        Some(b) => Some(b.target),
                        None => None,
                    },
                    attempt: match self.browse_attempt {
                        Some(a) => Some(
                            SpecBrowseAttemptView {
                                target: a.target,
                                status: match a.state {
                                    SpecBrowseAttemptState::Loading { .. } => SpecBrowseStatus::Loading,
                                    SpecBrowseAttemptState::Failed { message } => SpecBrowseStatus::Failed { message },
                                },
                            },
                        ),
                        None => None,
                    },
                },
            ),
            None => None,
        }
    }

    /// A selector is open for browsing.
    pub open spec fn browse_selector(self) -> bool {
        self.ref_selector is Some && self.ref_selector->0.view.purpose is Browse
    }

    pub open spec fn without_browse_selector(self) -> SpecClientCore {
        if self.browse_selector() {
            SpecClientCore { ref_selector: None, ..self }
        } else {
            self
        }
    }

    /// The head trees are browsed again.
    #[verifier::opaque]
    pub open spec fn browse_reset(self, repo_id: RepoId) -> SpecClientCore {
        SpecClientCore {
            browse: None,
            browse_attempt: None,
            browse_repo: Some(repo_id),
            ..self.without_browse_selector()
        }.without_visual().without_file().review_trees(true)
    }

    /// A revision is asked for; what is visible stays until it is here.
    #[verifier::opaque]
    pub open spec fn browse_asked(self, repo_id: RepoId, ref_spec: SpecRefSpec) -> SpecClientCore {
        SpecClientCore {
            browse_repo: Some(repo_id),
            browse_attempt: Some(
                SpecBrowseAttempt {
                    target: SpecBrowseTarget { repo_id, ref_spec },
                    state: SpecBrowseAttemptState::Loading { request_id: RequestId(self.flow.wire.next_request) },
                },
            ),
            ..self
        }.request(SpecRequest::TreeSnapshot { repo_id, ref_spec }, SpecInFlight::BrowseTree { repo_id })
    }

    #[verifier::opaque]
    pub open spec fn set_browse_ref(self, repo_id: RepoId, ref_spec: Option<SpecRefSpec>) -> Result<
        SpecClientCore,
        SpecCoreError,
    > {
        match self.repo_refusal(repo_id) {
            Some(e) => Err(e),
            None => if self.view.draft is Some {
                Err(SpecCoreError::DraftAlreadyOpen)
            } else {
                match ref_spec {
                    Some(r) => if !self.subscribed() {
                        Err(self.wrong_state(InputKind::User))
                    } else {
                        Ok(self.browse_asked(repo_id, r))
                    },
                    None => Ok(self.browse_reset(repo_id)),
                }
            },
        }
    }

    /// The answer is the one the candidate waits for.
    pub open spec fn browse_awaited(self, id: RequestId) -> bool {
        match self.browse_attempt {
            Some(a) => a.state == (SpecBrowseAttemptState::Loading { request_id: id }),
            None => false,
        }
    }

    /// The candidate failed; a Browse selector says so.
    #[verifier::opaque]
    pub open spec fn browse_refused(self, message: Seq<char>, status: SpecRefSelectorStatus, repo_only: bool) -> SpecClientCore {
        match self.browse_attempt {
            Some(a) => {
                let c = SpecClientCore {
                    browse_attempt: Some(
                        SpecBrowseAttempt { state: SpecBrowseAttemptState::Failed { message }, ..a },
                    ),
                    ..self
                };
                if self.browse_selector() && (!repo_only || self.ref_selector->0.view.repo_id == a.target.repo_id) {
                    SpecClientCore { ref_selector: Some(self.ref_selector->0.with_status(status)), ..c }
                } else {
                    c
                }
            },
            None => self,
        }
    }

    /// The candidate's tree is here: it becomes the selection.
    #[verifier::opaque]
    pub open spec fn browse_committed(self, target: SpecBrowseTarget, snapshot: SpecTreeSnapshot, size: Bytes) -> SpecClientCore {
        let tree = snapshot.tree_key();
        let key = SpecCacheKey::Tree { tree };
        let closes = self.browse_selector() && self.ref_selector->0.view.repo_id == target.repo_id;
        SpecClientCore {
            browse: Some(SpecBrowse { target, root: tree.root }),
            browse_attempt: None,
            ref_selector: if closes {
                None
            } else {
                self.ref_selector
            },
            ..self
        }.without_visual().without_file().pin(key).arrived(
            key,
            SpecCacheValue::Tree { snapshot },
            size,
            Arrival::Response,
        ).review_trees(true)
    }

    /// A browsed tree answered. A superseded candidate changes nothing.
    #[verifier::opaque]
    pub open spec fn browse_answer(
        self,
        id: RequestId,
        repo_id: RepoId,
        snapshot: SpecTreeSnapshot,
        size: Bytes,
    ) -> Result<
        SpecClientCore,
        SpecCoreError,
    > {
        if !self.browse_awaited(id) || self.browse_attempt->0.target.repo_id != repo_id {
            Ok(self)
        } else if snapshot.repo_id != repo_id {
            Err(
                SpecCoreError::UnexpectedResponse {
                    id,
                    expected: "Browse tree of the requested repository"@,
                    got: "TreeSnapshot of another repository"@,
                },
            )
        } else if self.view.draft is Some {
            Ok(
                self.browse_refused(
                    draft_message(),
                    SpecRefSelectorStatus::DaemonError { message: draft_message() },
                    false,
                ),
            )
        } else {
            Ok(self.browse_committed(self.browse_attempt->0.target, snapshot, size))
        }
    }

    #[verifier::opaque]
    pub open spec fn browse_failed(self, id: RequestId, error: SpecRpcError) -> SpecClientCore {
        if self.browse_awaited(id) {
            self.browse_refused(
                error.message(),
                error.selector_status(),
                true,
            ).touch(seq![ViewSection::ReviewList])
        } else {
            self
        }
    }

    #[verifier::opaque]
    pub open spec fn browse_disconnected(self) -> SpecClientCore {
        if self.browse_attempt is Some && self.browse_attempt->0.state is Loading {
            self.browse_refused(
                browse_lost_message(),
                SpecRefSelectorStatus::DaemonError { message: browse_lost_message() },
                false,
            )
        } else {
            self
        }
    }

    /// What a repository is called, or else its id.
    pub open spec fn repo_name(self, repo_id: RepoId) -> Seq<char> {
        match self.view.review {
            Some(open) => match data::found(
                self.view.workspaces,
                live::workspace_is(open.snapshot.review.workspace_id),
            ) {
                Some(w) => match data::found(w.repos, live::repo_is(repo_id)) {
                    Some(r) => r.display_name,
                    None => protocol::id_text(repo_id.0),
                },
                None => protocol::id_text(repo_id.0),
            },
            None => protocol::id_text(repo_id.0),
        }
    }

    /// The revision a selector starts from.
    pub open spec fn current_ref(self, target: SpecReviewTarget, purpose: RefSelectorPurpose) -> SpecRefSpec {
        match purpose {
            RefSelectorPurpose::Review { side } => match side {
                RefSelectorSide::Base => target.base,
                RefSelectorSide::Head => target.head,
            },
            RefSelectorPurpose::Browse => match self.browse {
                Some(b) => if b.target.repo_id == target.repo_id {
                    b.target.ref_spec
                } else {
                    target.head
                },
                None => target.head,
            },
        }
    }

    #[verifier::opaque]
    pub open spec fn open_ref_selector(self, repo_id: RepoId, purpose: RefSelectorPurpose) -> Result<
        SpecClientCore,
        SpecCoreError,
    > {
        if !self.subscribed() {
            Err(self.wrong_state(InputKind::User))
        } else {
            match self.repo_refusal(repo_id) {
                Some(e) => Err(e),
                None => if purpose is Browse && self.view.draft is Some {
                    Err(SpecCoreError::DraftAlreadyOpen)
                } else {
                    let current = self.current_ref(self.view.review->0.snapshot.target(repo_id)->0, purpose);
                    let c = if purpose is Browse {
                        SpecClientCore { browse_repo: Some(repo_id), browse_attempt: None, ..self }
                    } else {
                        self
                    };
                    Ok(
                        SpecClientCore {
                            ref_selector: Some(
                                SpecRefSelector::loading(
                                    repo_id,
                                    self.repo_name(repo_id),
                                    purpose,
                                    current,
                                    RequestId(self.flow.wire.next_request),
                                ),
                            ),
                            ..c
                        }.request(SpecRequest::ListRefs { repo_id }, SpecInFlight::ListRefs { repo_id }),
                    )
                },
            }
        }
    }

    pub open spec fn with_selector(self, selector: SpecRefSelector) -> SpecClientCore {
        (SpecClientCore { ref_selector: Some(selector), ..self }).touch(seq![ViewSection::RefSelector])
    }

    #[verifier::opaque]
    pub open spec fn ref_selector_query(self, query: Seq<char>) -> Result<SpecClientCore, SpecCoreError> {
        match self.ref_selector {
            Some(s) => Ok(self.with_selector(s.queried(query))),
            None => Err(SpecCoreError::NoRefSelector),
        }
    }

    #[verifier::opaque]
    pub open spec fn ref_selector_step(self, delta: i32) -> Result<SpecClientCore, SpecCoreError> {
        match self.ref_selector {
            Some(s) => Ok(self.with_selector(s.stepped(delta as int))),
            None => Err(SpecCoreError::NoRefSelector),
        }
    }

    #[verifier::opaque]
    pub open spec fn close_ref_selector(self) -> Result<SpecClientCore, SpecCoreError> {
        match self.ref_selector {
            Some(_) => Ok(
                (SpecClientCore { ref_selector: None, ..self }).touch(seq![ViewSection::RefSelector]),
            ),
            None => Err(SpecCoreError::NoRefSelector),
        }
    }

    /// The selector waits for its choice to be made.
    pub open spec fn saving(self, index: usize) -> SpecClientCore {
        match self.ref_selector {
            Some(s) => {
                let s = s.with_status(SpecRefSelectorStatus::Saving);
                SpecClientCore {
                    ref_selector: Some(
                        SpecRefSelector { view: SpecRefSelectorView { selected: index, ..s.view }, ..s },
                    ),
                    ..self
                }
            },
            None => self,
        }
    }

    /// The chosen revision becomes the review's target, or is browsed.
    #[verifier::opaque]
    pub open spec fn select_ref(self, index: usize) -> Result<SpecClientCore, SpecCoreError> {
        match self.ref_selector {
            None => Err(SpecCoreError::NoRefSelector),
            Some(s) => match s.selection_at(index as int) {
                None => Err(SpecCoreError::NoSelectedRef),
                Some(SpecRefSelection::Browse { ref_spec }) => match self.set_browse_ref(s.view.repo_id, Some(ref_spec)) {
                    Ok(c) => Ok(c.saving(index).touch(seq![ViewSection::RefSelector])),
                    Err(e) => Err(e),
                },
                Some(SpecRefSelection::Review { revision }) => match self.retarget(s.view.repo_id, revision) {
                    Ok(c) => Ok(c.saving(index).touch(seq![ViewSection::RefSelector])),
                    Err(e) => Err(e),
                },
            },
        }
    }

    #[verifier::opaque]
    pub open spec fn retarget(self, repo_id: RepoId, revision: SpecTargetRevision) -> Result<
        SpecClientCore,
        SpecCoreError,
    > {
        self.mutated(
            SpecMutation::UpdateReviewTarget {
                review_id: self.open_or(),
                update: SpecReviewTargetUpdate { repo_id, revision },
            },
        )
    }

    pub open spec fn select_current_ref(self) -> Result<SpecClientCore, SpecCoreError> {
        match self.ref_selector {
            None => Err(SpecCoreError::NoRefSelector),
            Some(s) => self.select_ref(s.view.selected),
        }
    }
}

impl ClientCore {
    fn has_repo(&self, repo_id: RepoId) -> (b: bool)
        ensures
            b == self.deep_view().has_repo(repo_id),
    {
        proof {
            reveal(ClientCore::model);
        }
        match self.view.review() {
            Some(open) => events::target_at(&open.snapshot.review.targets, repo_id).is_some(),
            None => false,
        }
    }

    fn repo_refusal(&self, repo_id: RepoId) -> (r: Option<CoreError>)
        ensures
            r.deep_view() == self.deep_view().repo_refusal(repo_id),
    {
        proof {
            reveal(ClientCore::model);
        }
        if self.view.review().is_none() {
            Some(CoreError::NoOpenReview)
        } else if !self.has_repo(repo_id) {
            Some(CoreError::UnknownRepo(repo_id))
        } else {
            None
        }
    }

    fn repo_browsed(&self) -> (r: Option<RepoId>)
        ensures
            r == self.deep_view().repo_browsed(),
    {
        proof {
            reveal(ClientCore::model);
        }
        match self.view.review() {
            Some(open) => {
                let wanted = match self.browse_repo {
                    Some(id) => Some(id),
                    None => focus::target_repo_of(&self.view, self.view.focus()),
                };
                if let Some(id) = wanted {
                    if self.has_repo(id) {
                        return Some(id);
                    }
                }
                let targets = &open.snapshot.review.targets;
                assert(targets.deep_view().len() == targets@.len());
                if targets.len() > 0 {
                    Some(targets[0].repo_id)
                } else {
                    None
                }
            },
            None => None,
        }
    }

    /// The Browse controls.
    pub(crate) fn browse_view(&self) -> (r: Option<BrowseView>)
        ensures
            r.deep_view() == self.deep_view().browse_shown(),
    {
        proof {
            reveal(ClientCore::model);
        }
        match self.repo_browsed() {
            Some(repo_id) => Some(
                BrowseView {
                    repo_id,
                    selection: match &self.browse {
                        Some(b) => Some(b.target.dup()),
                        None => None,
                    },
                    attempt: match &self.browse_attempt {
                        Some(a) => Some(
                            BrowseAttemptView {
                                target: a.target.dup(),
                                status: match &a.state {
                                    BrowseAttemptState::Loading { .. } => BrowseStatus::Loading,
                                    BrowseAttemptState::Failed { message } => BrowseStatus::Failed {
                                        message: message.dup(),
                                    },
                                },
                            },
                        ),
                        None => None,
                    },
                },
            ),
            None => None,
        }
    }

    fn browse_selector(&self) -> (b: bool)
        ensures
            b == self.deep_view().browse_selector(),
    {
        proof {
            reveal(ClientCore::model);
        }
        match &self.ref_selector {
            Some(s) => match s.view.purpose {
                RefSelectorPurpose::Browse => true,
                _ => false,
            },
            None => false,
        }
    }

    fn browse_reset(&mut self, repo_id: RepoId)
        ensures
            final(self).deep_view() == old(self).deep_view().browse_reset(repo_id),
    {
        proof {
            reveal(ClientCore::model);
            reveal(SpecClientCore::browse_reset);
        }
        if self.browse_selector() {
            self.ref_selector = None;
        }
        self.browse = None;
        self.browse_attempt = None;
        self.browse_repo = Some(repo_id);
        self.keys.visual_anchor = None;
        self.drop_file();
        self.review_trees(true);
    }

    fn browse_ask(&mut self, repo_id: RepoId, ref_spec: RefSpec)
        ensures
            final(self).deep_view() == old(self).deep_view().browse_asked(repo_id, ref_spec.deep_view()),
    {
        proof {
            reveal(ClientCore::model);
            reveal(SpecClientCore::browse_asked);
        }
        self.browse_repo = Some(repo_id);
        self.browse_attempt = Some(
            BrowseAttempt {
                target: BrowseTarget { repo_id, ref_spec: ref_spec.dup() },
                state: BrowseAttemptState::Loading { request_id: RequestId(self.flow.wire.next_request) },
            },
        );
        self.flow.request(Request::TreeSnapshot { repo_id, ref_spec }, InFlight::BrowseTree { repo_id });
    }

    pub(crate) fn set_browse_ref(
        &mut self,
        repo_id: RepoId,
        ref_spec: Option<RefSpec>,
    ) -> (r: Result<(), CoreError>)
        ensures
            client::settled(
                old(self).deep_view(),
                final(self).deep_view(),
                r,
                old(self).deep_view().set_browse_ref(repo_id, ref_spec.deep_view()),
            ),
    {
        proof {
            reveal(ClientCore::model);
            reveal(SpecClientCore::set_browse_ref);
        }
        if let Some(e) = self.repo_refusal(repo_id) {
            return Err(e);
        }
        if self.view.draft().is_some() {
            return Err(CoreError::DraftAlreadyOpen);
        }
        match ref_spec {
            Some(r) => {
                if !self.is_subscribed() {
                    return Err(self.wrong_state(InputKind::User));
                }
                self.browse_ask(repo_id, r);
            },
            None => {
                self.browse_reset(repo_id);
            },
        }
        Ok(())
    }

    fn browse_awaited(&self, id: RequestId) -> (b: bool)
        ensures
            b == self.deep_view().browse_awaited(id),
    {
        proof {
            reveal(ClientCore::model);
        }
        match &self.browse_attempt {
            Some(a) => match a.state {
                BrowseAttemptState::Loading { request_id } => request_id == id,
                _ => false,
            },
            None => false,
        }
    }

    fn browse_refuse(&mut self, message: String, status: RefSelectorStatus, repo_only: bool)
        ensures
            final(self).deep_view() == old(self).deep_view().browse_refused(
                message@,
                status.deep_view(),
                repo_only,
            ),
    {
        proof {
            reveal(ClientCore::model);
            reveal(SpecClientCore::browse_refused);
        }
        let shown = self.browse_selector();
        match self.browse_attempt.take() {
            Some(a) => {
                let repo_id = a.target.repo_id;
                self.browse_attempt = Some(
                    BrowseAttempt { target: a.target, state: BrowseAttemptState::Failed { message } },
                );
                if shown {
                    match self.ref_selector.take() {
                        Some(s) => {
                            let mut s = s;
                            if !repo_only || s.view.repo_id == repo_id {
                                s.view.status = status;
                            }
                            self.ref_selector = Some(s);
                        },
                        None => {},
                    }
                }
            },
            None => {},
        }
    }

    fn browse_commit(&mut self, target: BrowseTarget, snapshot: TreeSnapshot, size: Bytes)
        ensures
            final(self).deep_view() == old(self).deep_view().browse_committed(
                target.deep_view(),
                snapshot.deep_view(),
                size,
            ),
    {
        proof {
            reveal(ClientCore::model);
            reveal(SpecClientCore::browse_committed);
        }
        let tree = TreeKey::of_snapshot(&snapshot);
        let closes = self.browse_selector() && match &self.ref_selector {
            Some(s) => s.view.repo_id == target.repo_id,
            None => false,
        };
        self.browse = Some(Browse { target, root: tree.root });
        self.browse_attempt = None;
        if closes {
            self.ref_selector = None;
        }
        self.keys.visual_anchor = None;
        self.drop_file();
        self.flow.content.cache.pin(CacheKey::Tree { tree });
        self.arrived(CacheKey::Tree { tree }, CacheValue::Tree { snapshot }, size, Arrival::Response);
        self.review_trees(true);
    }

    /// A browsed tree answered.
    pub(crate) fn browse_answer(&mut self, id: RequestId, repo_id: RepoId, snapshot: TreeSnapshot, size: Bytes) -> (r: Result<
        (),
        CoreError,
    >)
        ensures
            client::settled(
                old(self).deep_view(),
                final(self).deep_view(),
                r,
                old(self).deep_view().browse_answer(id, repo_id, snapshot.deep_view(), size),
            ),
    {
        proof {
            reveal(ClientCore::model);
            reveal(SpecClientCore::browse_answer);
        }
        if !self.browse_awaited(id) {
            return Ok(());
        }
        let target = match &self.browse_attempt {
            Some(a) => a.target.dup(),
            None => {
                return Ok(());
            },
        };
        if target.repo_id != repo_id {
            return Ok(());
        }
        if snapshot.repo_id != repo_id {
            return Err(
                CoreError::UnexpectedResponse {
                    id,
                    expected: "Browse tree of the requested repository".to_owned(),
                    got: "TreeSnapshot of another repository".to_owned(),
                },
            );
        }
        if self.view.draft().is_some() {
            let message = "Finish or discard the open comment before changing revision.".to_owned();
            self.browse_refuse(message.dup(), RefSelectorStatus::DaemonError { message }, false);
            return Ok(());
        }
        self.browse_commit(target, snapshot, size);
        Ok(())
    }

    pub(crate) fn browse_failed(&mut self, id: RequestId, error: &RpcError)
        ensures
            final(self).deep_view() == old(self).deep_view().browse_failed(id, error.deep_view()),
    {
        proof {
            reveal(ClientCore::model);
            reveal(SpecClientCore::browse_failed);
        }
        if self.browse_awaited(id) {
            self.browse_refuse(errors::rpc_error_message(error), errors::selector_error(error), true);
            self.flow.touch(ViewSection::ReviewList);
        }
    }

    pub(crate) fn browse_disconnected(&mut self)
        ensures
            final(self).deep_view() == old(self).deep_view().browse_disconnected(),
    {
        proof {
            reveal(ClientCore::model);
            reveal(SpecClientCore::browse_disconnected);
        }
        let loading = match &self.browse_attempt {
            Some(a) => match a.state {
                BrowseAttemptState::Loading { .. } => true,
                _ => false,
            },
            None => false,
        };
        if loading {
            let message = "Daemon disconnected; the previous revision is still visible.".to_owned();
            self.browse_refuse(message.dup(), RefSelectorStatus::DaemonError { message }, false);
        }
    }

    fn repo_name(&self, repo_id: RepoId) -> (r: String)
        ensures
            r@ == self.deep_view().repo_name(repo_id),
    {
        proof {
            reveal(ClientCore::model);
        }
        match self.view.review() {
            Some(open) => {
                let workspaces = self.view.workspaces();
                match live::find_workspace(workspaces, open.snapshot.review.workspace_id) {
                    Some(i) => match data::find(
                        &workspaces[i].repos,
                        |r: &Repo| -> (b: bool)
                            ensures
                                b == live::repo_is(repo_id)(r.deep_view())
                        { r.id == repo_id },
                        Ghost(live::repo_is(repo_id)),
                    ) {
                        Some(r) => r.display_name.dup(),
                        None => repo_id.to_string(),
                    },
                    None => repo_id.to_string(),
                }
            },
            None => repo_id.to_string(),
        }
    }

    fn current_ref(&self, target: &ReviewTarget, purpose: RefSelectorPurpose) -> (r: RefSpec)
        ensures
            r.deep_view() == self.deep_view().current_ref(target.deep_view(), purpose),
    {
        proof {
            reveal(ClientCore::model);
        }
        match purpose {
            RefSelectorPurpose::Review { side } => match side {
                RefSelectorSide::Base => target.base.dup(),
                RefSelectorSide::Head => target.head.dup(),
            },
            RefSelectorPurpose::Browse => match &self.browse {
                Some(b) => if b.target.repo_id == target.repo_id {
                    b.target.ref_spec.dup()
                } else {
                    target.head.dup()
                },
                None => target.head.dup(),
            },
        }
    }

    pub(crate) fn open_ref_selector(
        &mut self,
        repo_id: RepoId,
        purpose: RefSelectorPurpose,
    ) -> (r: Result<(), CoreError>)
        ensures
            client::settled(
                old(self).deep_view(),
                final(self).deep_view(),
                r,
                old(self).deep_view().open_ref_selector(repo_id, purpose),
            ),
    {
        proof {
            reveal(ClientCore::model);
            reveal(SpecClientCore::open_ref_selector);
        }
        if !self.is_subscribed() {
            return Err(self.wrong_state(InputKind::User));
        }
        if let Some(e) = self.repo_refusal(repo_id) {
            return Err(e);
        }
        let browsing = match purpose {
            RefSelectorPurpose::Browse => true,
            _ => false,
        };
        if browsing && self.view.draft().is_some() {
            return Err(CoreError::DraftAlreadyOpen);
        }
        let current = match self.view.review() {
            Some(open) => {
                let targets = &open.snapshot.review.targets;
                match events::target_at(targets, repo_id) {
                    Some(i) => {
                        assert(targets.deep_view()[i as int] == targets@[i as int].deep_view());
                        self.current_ref(&targets[i], purpose)
                    },
                    None => {
                        return Err(CoreError::UnknownRepo(repo_id));
                    },
                }
            },
            None => {
                return Err(CoreError::NoOpenReview);
            },
        };
        let name = self.repo_name(repo_id);
        if browsing {
            self.browse_repo = Some(repo_id);
            self.browse_attempt = None;
        }
        self.ref_selector = Some(
            RefSelector::loading(repo_id, name, purpose, current, RequestId(self.flow.wire.next_request)),
        );
        self.flow.request(Request::ListRefs { repo_id }, InFlight::ListRefs { repo_id });
        Ok(())
    }

    pub(crate) fn ref_selector_query(&mut self, query: String) -> (r: Result<(), CoreError>)
        ensures
            client::settled(
                old(self).deep_view(),
                final(self).deep_view(),
                r,
                old(self).deep_view().ref_selector_query(query@),
            ),
    {
        proof {
            reveal(ClientCore::model);
            reveal(SpecClientCore::ref_selector_query);
        }
        match self.ref_selector.take() {
            Some(s) => {
                let mut s = s;
                s.query(query);
                self.ref_selector = Some(s);
                self.flow.touch(ViewSection::RefSelector);
                Ok(())
            },
            None => Err(CoreError::NoRefSelector),
        }
    }

    pub(crate) fn ref_selector_step(&mut self, delta: i32) -> (r: Result<(), CoreError>)
        ensures
            client::settled(
                old(self).deep_view(),
                final(self).deep_view(),
                r,
                old(self).deep_view().ref_selector_step(delta),
            ),
    {
        proof {
            reveal(ClientCore::model);
            reveal(SpecClientCore::ref_selector_step);
        }
        match self.ref_selector.take() {
            Some(s) => {
                let mut s = s;
                s.step(delta);
                self.ref_selector = Some(s);
                self.flow.touch(ViewSection::RefSelector);
                Ok(())
            },
            None => Err(CoreError::NoRefSelector),
        }
    }

    pub(crate) fn close_ref_selector(&mut self) -> (r: Result<(), CoreError>)
        ensures
            client::settled(
                old(self).deep_view(),
                final(self).deep_view(),
                r,
                old(self).deep_view().close_ref_selector(),
            ),
    {
        proof {
            reveal(ClientCore::model);
            reveal(SpecClientCore::close_ref_selector);
        }
        if self.ref_selector.is_none() {
            return Err(CoreError::NoRefSelector);
        }
        self.ref_selector = None;
        self.flow.touch(ViewSection::RefSelector);
        Ok(())
    }

    fn save(&mut self, index: usize)
        ensures
            final(self).deep_view() == old(self).deep_view().saving(index),
    {
        proof {
            reveal(ClientCore::model);
        }
        match self.ref_selector.take() {
            Some(s) => {
                let mut s = s;
                s.view.selected = index;
                s.view.status = RefSelectorStatus::Saving;
                self.ref_selector = Some(s);
            },
            None => {},
        }
    }

    fn retarget(&mut self, repo_id: RepoId, revision: TargetRevision) -> (r: Result<(), CoreError>)
        ensures
            client::settled(
                old(self).deep_view(),
                final(self).deep_view(),
                r,
                old(self).deep_view().retarget(repo_id, revision.deep_view()),
            ),
    {
        proof {
            reveal(ClientCore::model);
            reveal(SpecClientCore::retarget);
        }
        let review_id = self.open_or();
        self.mutate(
            Mutation::UpdateReviewTarget { review_id, update: ReviewTargetUpdate { repo_id, revision } },
        )
    }

    pub(crate) fn select_ref(&mut self, index: usize) -> (r: Result<(), CoreError>)
        ensures
            client::settled(
                old(self).deep_view(),
                final(self).deep_view(),
                r,
                old(self).deep_view().select_ref(index),
            ),
    {
        proof {
            reveal(ClientCore::model);
            reveal(SpecClientCore::select_ref);
        }
        let (repo_id, selection) = match &self.ref_selector {
            None => {
                return Err(CoreError::NoRefSelector);
            },
            Some(s) => match s.selection_at(index) {
                Some(selection) => (s.view.repo_id, selection),
                None => {
                    return Err(CoreError::NoSelectedRef);
                },
            },
        };
        let done = match selection {
            RefSelection::Browse { ref_spec } => self.set_browse_ref(repo_id, Some(ref_spec)),
            RefSelection::Review { revision } => self.retarget(repo_id, revision),
        };
        match done {
            Ok(_) => {
                self.save(index);
                self.flow.touch(ViewSection::RefSelector);
                Ok(())
            },
            Err(e) => Err(e),
        }
    }

    pub(crate) fn select_current_ref(&mut self) -> (r: Result<(), CoreError>)
        ensures
            client::settled(
                old(self).deep_view(),
                final(self).deep_view(),
                r,
                old(self).deep_view().select_current_ref(),
            ),
    {
        proof {
            reveal(ClientCore::model);
        }
        let index: usize = match &self.ref_selector {
            None => {
                return Err(CoreError::NoRefSelector);
            },
            Some(s) => s.view.selected,
        };
        self.select_ref(index)
    }
}

// ---- laws -----------------------------------------------------------------

/// A revision that is asked for replaces nothing until it is here.
pub proof fn candidates_replace_nothing(core: SpecClientCore, repo_id: RepoId, ref_spec: SpecRefSpec)
    requires
        core.set_browse_ref(repo_id, Some(ref_spec)) is Ok,
    ensures
        ({
            let c = core.set_browse_ref(repo_id, Some(ref_spec))->Ok_0;
            c.view == core.view && c.browse == core.browse && c.explorer == core.explorer
        }),
{
    reveal(SpecClientCore::set_browse_ref);
    reveal(SpecClientCore::browse_asked);
}

/// A candidate that fails leaves the selection and what is read as they
/// were.
pub proof fn failed_candidates_replace_nothing(core: SpecClientCore, id: RequestId, error: SpecRpcError)
    ensures
        core.browse_failed(id, error).browse == core.browse,
        core.browse_failed(id, error).view == core.view,
        core.browse_disconnected().browse == core.browse,
        core.browse_disconnected().view == core.view,
{
    reveal(SpecClientCore::browse_failed);
    reveal(SpecClientCore::browse_disconnected);
    reveal(SpecClientCore::browse_refused);
}

/// The answer to a candidate that was superseded changes nothing.
pub proof fn superseded_candidates_change_nothing(
    core: SpecClientCore,
    id: RequestId,
    repo_id: RepoId,
    snapshot: SpecTreeSnapshot,
    size: Bytes,
)
    requires
        !core.browse_awaited(id),
    ensures
        core.browse_answer(id, repo_id, snapshot, size) == Ok::<SpecClientCore, SpecCoreError>(core),
{
    reveal(SpecClientCore::browse_answer);
}

} // verus!
