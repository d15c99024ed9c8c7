//! Browsing one repository at a revision. A selection is committed only
//! after its tree resolves; a failed or superseded candidate never replaces
//! what is being read.
use vstd::prelude::*;

use crate::data::Value;
use crate::protocol::{RefSpec, RepoId, RequestId, SpecRefSpec, TreeOid};

verus! {

/// One repository and the revision requested within it.
#[derive(Debug, PartialEq, Eq)]
pub struct BrowseTarget {
    pub repo_id: RepoId,
    pub ref_spec: RefSpec,
}

/// Model of [`BrowseTarget`].
#[verifier::ext_equal]
pub struct SpecBrowseTarget {
    pub repo_id: RepoId,
    pub ref_spec: SpecRefSpec,
}

impl DeepView for BrowseTarget {
    type V = SpecBrowseTarget;

    open spec fn deep_view(&self) -> SpecBrowseTarget {
        SpecBrowseTarget {
            repo_id: self.repo_id,
            ref_spec: self.ref_spec.deep_view(),
        }
    }
}

impl Value for BrowseTarget {
    fn dup(&self) -> (r: Self) {
        BrowseTarget {
            repo_id: self.repo_id,
            ref_spec: self.ref_spec.dup(),
        }
    }

    fn same(&self, other: &Self) -> (b: bool) {
        self.repo_id == other.repo_id
            && self.ref_spec.same(&other.ref_spec)
    }
}

/// The candidate's state; the committed selection stays usable throughout.
#[derive(Debug, PartialEq, Eq)]
pub enum BrowseStatus {
    Loading,
    Failed { message: String },
}

/// Model of [`BrowseStatus`].
#[verifier::ext_equal]
pub enum SpecBrowseStatus {
    Loading,
    Failed { message: Seq<char> },
}

impl DeepView for BrowseStatus {
    type V = SpecBrowseStatus;

    open spec fn deep_view(&self) -> SpecBrowseStatus {
        match self {
            BrowseStatus::Loading => SpecBrowseStatus::Loading,
            BrowseStatus::Failed { message } => SpecBrowseStatus::Failed {
                message: message.deep_view(),
            },
        }
    }
}

impl Value for BrowseStatus {
    fn dup(&self) -> (r: Self) {
        match self {
            BrowseStatus::Loading => BrowseStatus::Loading,
            BrowseStatus::Failed { message } => BrowseStatus::Failed {
                message: message.dup(),
            },
        }
    }

    fn same(&self, other: &Self) -> (b: bool) {
        match (self, other) {
            (BrowseStatus::Loading, BrowseStatus::Loading) => true,
            (BrowseStatus::Failed { message: a0 }, BrowseStatus::Failed { message: b0 }) => a0.same(b0),
            _ => false,
        }
    }
}

/// A candidate, shown apart from the revision that is visible.
#[derive(Debug, PartialEq, Eq)]
pub struct BrowseAttemptView {
    pub target: BrowseTarget,
    pub status: BrowseStatus,
}

/// Model of [`BrowseAttemptView`].
#[verifier::ext_equal]
pub struct SpecBrowseAttemptView {
    pub target: SpecBrowseTarget,
    pub status: SpecBrowseStatus,
}

impl DeepView for BrowseAttemptView {
    type V = SpecBrowseAttemptView;

    open spec fn deep_view(&self) -> SpecBrowseAttemptView {
        SpecBrowseAttemptView {
            target: self.target.deep_view(),
            status: self.status.deep_view(),
        }
    }
}

impl Value for BrowseAttemptView {
    fn dup(&self) -> (r: Self) {
        BrowseAttemptView {
            target: self.target.dup(),
            status: self.status.dup(),
        }
    }

    fn same(&self, other: &Self) -> (b: bool) {
        self.target.same(&other.target)
            && self.status.same(&other.status)
    }
}

/// Browse controls for an open review. No selection means its head trees.
#[derive(Debug, PartialEq, Eq)]
pub struct BrowseView {
    pub repo_id: RepoId,
    pub selection: Option<BrowseTarget>,
    pub attempt: Option<BrowseAttemptView>,
}

/// Model of [`BrowseView`].
#[verifier::ext_equal]
pub struct SpecBrowseView {
    pub repo_id: RepoId,
    pub selection: Option<SpecBrowseTarget>,
    pub attempt: Option<SpecBrowseAttemptView>,
}

impl DeepView for BrowseView {
    type V = SpecBrowseView;

    open spec fn deep_view(&self) -> SpecBrowseView {
        SpecBrowseView {
            repo_id: self.repo_id,
            selection: self.selection.deep_view(),
            attempt: self.attempt.deep_view(),
        }
    }
}

impl Value for BrowseView {
    fn dup(&self) -> (r: Self) {
        BrowseView {
            repo_id: self.repo_id,
            selection: self.selection.dup(),
            attempt: self.attempt.dup(),
        }
    }

    fn same(&self, other: &Self) -> (b: bool) {
        self.repo_id == other.repo_id
            && self.selection.same(&other.selection)
            && self.attempt.same(&other.attempt)
    }
}

/// The committed selection and the root of its tree.
#[derive(Debug, PartialEq, Eq)]
pub struct Browse {
    pub(crate) target: BrowseTarget,
    pub(crate) root: TreeOid,
}

/// Model of [`Browse`].
#[verifier::ext_equal]
pub struct SpecBrowse {
    pub target: SpecBrowseTarget,
    pub root: TreeOid,
}

impl DeepView for Browse {
    type V = SpecBrowse;

    open(crate) spec fn deep_view(&self) -> SpecBrowse {
        SpecBrowse {
            target: self.target.deep_view(),
            root: self.root,
        }
    }
}

impl Value for Browse {
    fn dup(&self) -> (r: Self) {
        Browse {
            target: self.target.dup(),
            root: self.root,
        }
    }

    fn same(&self, other: &Self) -> (b: bool) {
        self.target.same(&other.target)
            && self.root == other.root
    }
}

/// How far a candidate has come.
#[derive(Debug, PartialEq, Eq)]
pub enum BrowseAttemptState {
    Loading { request_id: RequestId },
    Failed { message: String },
}

/// Model of [`BrowseAttemptState`].
#[verifier::ext_equal]
pub enum SpecBrowseAttemptState {
    Loading { request_id: RequestId },
    Failed { message: Seq<char> },
}

impl DeepView for BrowseAttemptState {
    type V = SpecBrowseAttemptState;

    open spec fn deep_view(&self) -> SpecBrowseAttemptState {
        match self {
            BrowseAttemptState::Loading { request_id } => SpecBrowseAttemptState::Loading {
                request_id: *request_id,
            },
            BrowseAttemptState::Failed { message } => SpecBrowseAttemptState::Failed {
                message: message.deep_view(),
            },
        }
    }
}

impl Value for BrowseAttemptState {
    fn dup(&self) -> (r: Self) {
        match self {
            BrowseAttemptState::Loading { request_id } => BrowseAttemptState::Loading {
                request_id: *request_id,
            },
            BrowseAttemptState::Failed { message } => BrowseAttemptState::Failed {
                message: message.dup(),
            },
        }
    }

    fn same(&self, other: &Self) -> (b: bool) {
        match (self, other) {
            (BrowseAttemptState::Loading { request_id: a0 }, BrowseAttemptState::Loading { request_id: b0 }) => *a0 == *b0,
            (BrowseAttemptState::Failed { message: a0 }, BrowseAttemptState::Failed { message: b0 }) => a0.same(b0),
            _ => false,
        }
    }
}

/// A candidate revision.
#[derive(Debug, PartialEq, Eq)]
pub struct BrowseAttempt {
    pub(crate) target: BrowseTarget,
    pub(crate) state: BrowseAttemptState,
}

/// Model of [`BrowseAttempt`].
#[verifier::ext_equal]
pub struct SpecBrowseAttempt {
    pub target: SpecBrowseTarget,
    pub state: SpecBrowseAttemptState,
}

impl DeepView for BrowseAttempt {
    type V = SpecBrowseAttempt;

    open(crate) spec fn deep_view(&self) -> SpecBrowseAttempt {
        SpecBrowseAttempt {
            target: self.target.deep_view(),
            state: self.state.deep_view(),
        }
    }
}

impl Value for BrowseAttempt {
    fn dup(&self) -> (r: Self) {
        BrowseAttempt {
            target: self.target.dup(),
            state: self.state.dup(),
        }
    }

    fn same(&self, other: &Self) -> (b: bool) {
        self.target.same(&other.target)
            && self.state.same(&other.state)
    }
}


} // verus!
