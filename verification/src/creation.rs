//! Creating a review. Editable input is kept apart from an immutable
//! submission; a lost answer is reconciled by the review's identity before
//! another write.
use vstd::prelude::*;

use crate::data;
use crate::data::Value;
use crate::home::{DaemonContext, SpecDaemonContext};
use crate::protocol;
use crate::protocol::{
    CommitOid, RefSpec, RepoId, ReviewId, ReviewTarget, SpecRefSpec, SpecReviewTarget, WorkspaceId,
};
use crate::ref_selector;
use crate::text;

verus! {

/// A target row within one creation, whatever its repository.
#[derive(Debug, Clone, Copy, PartialEq, Eq, Structural)]
pub struct CreationTargetId(pub(crate) u64);

impl DeepView for CreationTargetId {
    type V = CreationTargetId;

    open spec fn deep_view(&self) -> CreationTargetId {
        *self
    }
}

impl Value for CreationTargetId {
    fn dup(&self) -> (r: Self) {
        *self
    }

    fn same(&self, other: &Self) -> (b: bool) {
        *self == *other
    }
}

/// Counts the edits of a draft.
#[derive(Debug, Clone, Copy, PartialEq, Eq, Structural)]
pub struct CreationRevision(pub(crate) u64);

impl DeepView for CreationRevision {
    type V = CreationRevision;

    open spec fn deep_view(&self) -> CreationRevision {
        *self
    }
}

impl Value for CreationRevision {
    fn dup(&self) -> (r: Self) {
        *self
    }

    fn same(&self, other: &Self) -> (b: bool) {
        *self == *other
    }
}

/// One edit of the form.
#[derive(Debug, PartialEq, Eq)]
pub enum CreationEdit {
    Title { text: String },
    Repository { target_id: CreationTargetId, repo_id: RepoId },
    Base { target_id: CreationTargetId, text: String },
    Head { target_id: CreationTargetId, text: String },
}

/// Model of [`CreationEdit`].
#[verifier::ext_equal]
pub enum SpecCreationEdit {
    Title { text: Seq<char> },
    Repository { target_id: CreationTargetId, repo_id: RepoId },
    Base { target_id: CreationTargetId, text: Seq<char> },
    Head { target_id: CreationTargetId, text: Seq<char> },
}

impl DeepView for CreationEdit {
    type V = SpecCreationEdit;

    open spec fn deep_view(&self) -> SpecCreationEdit {
        match self {
            CreationEdit::Title { text } => SpecCreationEdit::Title {
                text: text.deep_view(),
            },
            CreationEdit::Repository { target_id, repo_id } => SpecCreationEdit::Repository {
                target_id: *target_id,
                repo_id: *repo_id,
            },
            CreationEdit::Base { target_id, text } => SpecCreationEdit::Base {
                target_id: *target_id,
                text: text.deep_view(),
            },
            CreationEdit::Head { target_id, text } => SpecCreationEdit::Head {
                target_id: *target_id,
                text: text.deep_view(),
            },
        }
    }
}

impl Value for CreationEdit {
    fn dup(&self) -> (r: Self) {
        match self {
            CreationEdit::Title { text } => CreationEdit::Title {
                text: text.dup(),
            },
            CreationEdit::Repository { target_id, repo_id } => CreationEdit::Repository {
                target_id: *target_id,
                repo_id: *repo_id,
            },
            CreationEdit::Base { target_id, text } => CreationEdit::Base {
                target_id: *target_id,
                text: text.dup(),
            },
            CreationEdit::Head { target_id, text } => CreationEdit::Head {
                target_id: *target_id,
                text: text.dup(),
            },
        }
    }

    fn same(&self, other: &Self) -> (b: bool) {
        match (self, other) {
            (CreationEdit::Title { text: a0 }, CreationEdit::Title { text: b0 }) => a0.same(b0),
            (CreationEdit::Repository { target_id: a0, repo_id: a1 }, CreationEdit::Repository { target_id: b0, repo_id: b1 }) => *a0 == *b0 && *a1 == *b1,
            (CreationEdit::Base { target_id: a0, text: a1 }, CreationEdit::Base { target_id: b0, text: b1 }) => *a0 == *b0 && a1.same(b1),
            (CreationEdit::Head { target_id: a0, text: a1 }, CreationEdit::Head { target_id: b0, text: b1 }) => *a0 == *b0 && a1.same(b1),
            _ => false,
        }
    }
}

/// Where a target's base comes from.
#[derive(Debug, PartialEq, Eq)]
pub enum CreationBase {
    Automatic,
    Manual { text: String },
}

/// Model of [`CreationBase`].
#[verifier::ext_equal]
pub enum SpecCreationBase {
    Automatic,
    Manual { text: Seq<char> },
}

impl DeepView for CreationBase {
    type V = SpecCreationBase;

    open spec fn deep_view(&self) -> SpecCreationBase {
        match self {
            CreationBase::Automatic => SpecCreationBase::Automatic,
            CreationBase::Manual { text } => SpecCreationBase::Manual {
                text: text.deep_view(),
            },
        }
    }
}

impl Value for CreationBase {
    fn dup(&self) -> (r: Self) {
        match self {
            CreationBase::Automatic => CreationBase::Automatic,
            CreationBase::Manual { text } => CreationBase::Manual {
                text: text.dup(),
            },
        }
    }

    fn same(&self, other: &Self) -> (b: bool) {
        match (self, other) {
            (CreationBase::Automatic, CreationBase::Automatic) => true,
            (CreationBase::Manual { text: a0 }, CreationBase::Manual { text: b0 }) => a0.same(b0),
            _ => false,
        }
    }
}

/// One target row of the form.
#[derive(Debug, PartialEq, Eq)]
pub struct CreationTarget {
    pub id: CreationTargetId,
    pub repo_id: RepoId,
    pub base: CreationBase,
    pub head: String,
}

/// Model of [`CreationTarget`].
#[verifier::ext_equal]
pub struct SpecCreationTarget {
    pub id: CreationTargetId,
    pub repo_id: RepoId,
    pub base: SpecCreationBase,
    pub head: Seq<char>,
}

impl DeepView for CreationTarget {
    type V = SpecCreationTarget;

    open spec fn deep_view(&self) -> SpecCreationTarget {
        SpecCreationTarget {
            id: self.id,
            repo_id: self.repo_id,
            base: self.base.deep_view(),
            head: self.head.deep_view(),
        }
    }
}

impl Value for CreationTarget {
    fn dup(&self) -> (r: Self) {
        CreationTarget {
            id: self.id,
            repo_id: self.repo_id,
            base: self.base.dup(),
            head: self.head.dup(),
        }
    }

    fn same(&self, other: &Self) -> (b: bool) {
        self.id == other.id
            && self.repo_id == other.repo_id
            && self.base.same(&other.base)
            && self.head.same(&other.head)
    }
}

/// What the user typed.
#[derive(Debug, PartialEq, Eq)]
pub struct CreationDraft {
    pub title: String,
    pub targets: Vec<CreationTarget>,
}

/// Model of [`CreationDraft`].
#[verifier::ext_equal]
pub struct SpecCreationDraft {
    pub title: Seq<char>,
    pub targets: Seq<SpecCreationTarget>,
}

impl DeepView for CreationDraft {
    type V = SpecCreationDraft;

    open spec fn deep_view(&self) -> SpecCreationDraft {
        SpecCreationDraft {
            title: self.title.deep_view(),
            targets: self.targets.deep_view(),
        }
    }
}

impl Value for CreationDraft {
    fn dup(&self) -> (r: Self) {
        CreationDraft {
            title: self.title.dup(),
            targets: self.targets.dup(),
        }
    }

    fn same(&self, other: &Self) -> (b: bool) {
        self.title.same(&other.title)
            && self.targets.same(&other.targets)
    }
}

/// The default base of a repository, as far as it is known.
#[derive(Debug, PartialEq, Eq)]
pub enum CreationDefaultState {
    Loading,
    Ready { base: RefSpec },
    Failed { message: String },
}

/// Model of [`CreationDefaultState`].
#[verifier::ext_equal]
pub enum SpecCreationDefaultState {
    Loading,
    Ready { base: SpecRefSpec },
    Failed { message: Seq<char> },
}

impl DeepView for CreationDefaultState {
    type V = SpecCreationDefaultState;

    open spec fn deep_view(&self) -> SpecCreationDefaultState {
        match self {
            CreationDefaultState::Loading => SpecCreationDefaultState::Loading,
            CreationDefaultState::Ready { base } => SpecCreationDefaultState::Ready {
                base: base.deep_view(),
            },
            CreationDefaultState::Failed { message } => SpecCreationDefaultState::Failed {
                message: message.deep_view(),
            },
        }
    }
}

impl Value for CreationDefaultState {
    fn dup(&self) -> (r: Self) {
        match self {
            CreationDefaultState::Loading => CreationDefaultState::Loading,
            CreationDefaultState::Ready { base } => CreationDefaultState::Ready {
                base: base.dup(),
            },
            CreationDefaultState::Failed { message } => CreationDefaultState::Failed {
                message: message.dup(),
            },
        }
    }

    fn same(&self, other: &Self) -> (b: bool) {
        match (self, other) {
            (CreationDefaultState::Loading, CreationDefaultState::Loading) => true,
            (CreationDefaultState::Ready { base: a0 }, CreationDefaultState::Ready { base: b0 }) => a0.same(b0),
            (CreationDefaultState::Failed { message: a0 }, CreationDefaultState::Failed { message: b0 }) => a0.same(b0),
            _ => false,
        }
    }
}

/// A repository's default base.
#[derive(Debug, PartialEq, Eq)]
pub struct CreationDefault {
    pub repo_id: RepoId,
    pub state: CreationDefaultState,
}

/// Model of [`CreationDefault`].
#[verifier::ext_equal]
pub struct SpecCreationDefault {
    pub repo_id: RepoId,
    pub state: SpecCreationDefaultState,
}

impl DeepView for CreationDefault {
    type V = SpecCreationDefault;

    open spec fn deep_view(&self) -> SpecCreationDefault {
        SpecCreationDefault {
            repo_id: self.repo_id,
            state: self.state.deep_view(),
        }
    }
}

impl Value for CreationDefault {
    fn dup(&self) -> (r: Self) {
        CreationDefault {
            repo_id: self.repo_id,
            state: self.state.dup(),
        }
    }

    fn same(&self, other: &Self) -> (b: bool) {
        self.repo_id == other.repo_id
            && self.state.same(&other.state)
    }
}

/// What is sent; it stays as it was through uncertain answers.
#[derive(Debug, PartialEq, Eq)]
pub struct CreationSubmission {
    pub title: String,
    /// Never empty.
    pub targets: Vec<ReviewTarget>,
}

/// Model of [`CreationSubmission`].
#[verifier::ext_equal]
pub struct SpecCreationSubmission {
    pub title: Seq<char>,
    pub targets: Seq<SpecReviewTarget>,
}

impl DeepView for CreationSubmission {
    type V = SpecCreationSubmission;

    open spec fn deep_view(&self) -> SpecCreationSubmission {
        SpecCreationSubmission {
            title: self.title.deep_view(),
            targets: self.targets.deep_view(),
        }
    }
}

impl Value for CreationSubmission {
    fn dup(&self) -> (r: Self) {
        CreationSubmission {
            title: self.title.dup(),
            targets: self.targets.dup(),
        }
    }

    fn same(&self, other: &Self) -> (b: bool) {
        self.title.same(&other.title)
            && self.targets.same(&other.targets)
    }
}

/// What follows once a lost submission has been looked up.
#[derive(Debug, Clone, Copy, PartialEq, Eq, Structural)]
pub enum CreationReconcile {
    Inspect,
    Retry,
}

impl DeepView for CreationReconcile {
    type V = CreationReconcile;

    open spec fn deep_view(&self) -> CreationReconcile {
        *self
    }
}

impl Value for CreationReconcile {
    fn dup(&self) -> (r: Self) {
        *self
    }

    fn same(&self, other: &Self) -> (b: bool) {
        *self == *other
    }
}

/// How far a retained form had come.
#[derive(Debug, Clone, Copy, PartialEq, Eq, Structural)]
pub enum CreationResume {
    Editing,
    Submitted,
}

impl DeepView for CreationResume {
    type V = CreationResume;

    open spec fn deep_view(&self) -> CreationResume {
        *self
    }
}

impl Value for CreationResume {
    fn dup(&self) -> (r: Self) {
        *self
    }

    fn same(&self, other: &Self) -> (b: bool) {
        *self == *other
    }
}

/// How far a creation has come.
#[derive(Debug, PartialEq, Eq)]
pub enum CreationStatus {
    Editing,
    Failed { message: String },
    Pending { submission: CreationSubmission },
    Interrupted { submission: CreationSubmission, message: String },
    Reconciling { submission: CreationSubmission, next: CreationReconcile },
    Succeeded,
}

/// Model of [`CreationStatus`].
#[verifier::ext_equal]
pub enum SpecCreationStatus {
    Editing,
    Failed { message: Seq<char> },
    Pending { submission: SpecCreationSubmission },
    Interrupted { submission: SpecCreationSubmission, message: Seq<char> },
    Reconciling { submission: SpecCreationSubmission, next: CreationReconcile },
    Succeeded,
}

impl DeepView for CreationStatus {
    type V = SpecCreationStatus;

    open spec fn deep_view(&self) -> SpecCreationStatus {
        match self {
            CreationStatus::Editing => SpecCreationStatus::Editing,
            CreationStatus::Failed { message } => SpecCreationStatus::Failed {
                message: message.deep_view(),
            },
            CreationStatus::Pending { submission } => SpecCreationStatus::Pending {
                submission: submission.deep_view(),
            },
            CreationStatus::Interrupted { submission, message } => SpecCreationStatus::Interrupted {
                submission: submission.deep_view(),
                message: message.deep_view(),
            },
            CreationStatus::Reconciling { submission, next } => SpecCreationStatus::Reconciling {
                submission: submission.deep_view(),
                next: *next,
            },
            CreationStatus::Succeeded => SpecCreationStatus::Succeeded,
        }
    }
}

impl Value for CreationStatus {
    fn dup(&self) -> (r: Self) {
        match self {
            CreationStatus::Editing => CreationStatus::Editing,
            CreationStatus::Failed { message } => CreationStatus::Failed {
                message: message.dup(),
            },
            CreationStatus::Pending { submission } => CreationStatus::Pending {
                submission: submission.dup(),
            },
            CreationStatus::Interrupted { submission, message } => CreationStatus::Interrupted {
                submission: submission.dup(),
                message: message.dup(),
            },
            CreationStatus::Reconciling { submission, next } => CreationStatus::Reconciling {
                submission: submission.dup(),
                next: *next,
            },
            CreationStatus::Succeeded => CreationStatus::Succeeded,
        }
    }

    fn same(&self, other: &Self) -> (b: bool) {
        match (self, other) {
            (CreationStatus::Editing, CreationStatus::Editing) => true,
            (CreationStatus::Failed { message: a0 }, CreationStatus::Failed { message: b0 }) => a0.same(b0),
            (CreationStatus::Pending { submission: a0 }, CreationStatus::Pending { submission: b0 }) => a0.same(b0),
            (CreationStatus::Interrupted { submission: a0, message: a1 }, CreationStatus::Interrupted { submission: b0, message: b1 }) => a0.same(b0) && a1.same(b1),
            (CreationStatus::Reconciling { submission: a0, next: a1 }, CreationStatus::Reconciling { submission: b0, next: b1 }) => a0.same(b0) && *a1 == *b1,
            (CreationStatus::Succeeded, CreationStatus::Succeeded) => true,
            _ => false,
        }
    }
}

/// A review being created. Its identity is fixed when the form opens.
#[derive(Debug, PartialEq, Eq)]
pub struct ReviewCreation {
    pub review_id: ReviewId,
    pub workspace_id: WorkspaceId,
    pub context: Option<DaemonContext>,
    pub draft: CreationDraft,
    pub defaults: Vec<CreationDefault>,
    pub selected: Option<CreationTargetId>,
    pub revision: CreationRevision,
    pub status: CreationStatus,
}

/// Model of [`ReviewCreation`].
#[verifier::ext_equal]
pub struct SpecReviewCreation {
    pub review_id: ReviewId,
    pub workspace_id: WorkspaceId,
    pub context: Option<SpecDaemonContext>,
    pub draft: SpecCreationDraft,
    pub defaults: Seq<SpecCreationDefault>,
    pub selected: Option<CreationTargetId>,
    pub revision: CreationRevision,
    pub status: SpecCreationStatus,
}

impl DeepView for ReviewCreation {
    type V = SpecReviewCreation;

    open spec fn deep_view(&self) -> SpecReviewCreation {
        SpecReviewCreation {
            review_id: self.review_id,
            workspace_id: self.workspace_id,
            context: self.context.deep_view(),
            draft: self.draft.deep_view(),
            defaults: self.defaults.deep_view(),
            selected: self.selected,
            revision: self.revision,
            status: self.status.deep_view(),
        }
    }
}

impl Value for ReviewCreation {
    fn dup(&self) -> (r: Self) {
        ReviewCreation {
            review_id: self.review_id,
            workspace_id: self.workspace_id,
            context: self.context.dup(),
            draft: self.draft.dup(),
            defaults: self.defaults.dup(),
            selected: self.selected,
            revision: self.revision,
            status: self.status.dup(),
        }
    }

    fn same(&self, other: &Self) -> (b: bool) {
        self.review_id == other.review_id
            && self.workspace_id == other.workspace_id
            && self.context.same(&other.context)
            && self.draft.same(&other.draft)
            && self.defaults.same(&other.defaults)
            && self.selected.same(&other.selected)
            && self.revision == other.revision
            && self.status.same(&other.status)
    }
}


impl CreationTargetId {
    /// The id with that number.
    pub open(crate) spec fn of(value: u64) -> CreationTargetId {
        CreationTargetId(value)
    }

    pub fn new(value: u64) -> (r: Self)
        ensures
            r == CreationTargetId::of(value),
    {
        CreationTargetId(value)
    }

    pub fn get(self) -> (r: u64)
        ensures
            self == CreationTargetId::of(r),
    {
        self.0
    }
}

impl CreationRevision {
    /// The revision with that number.
    pub open(crate) spec fn of(value: u64) -> CreationRevision {
        CreationRevision(value)
    }

    /// How many edits there were.
    pub open(crate) spec fn count(self) -> u64 {
        self.0
    }

    pub fn new(value: u64) -> (r: Self)
        ensures
            r == CreationRevision::of(value),
    {
        CreationRevision(value)
    }

    pub fn get(self) -> (r: u64)
        ensures
            r == self.count(),
            self == CreationRevision::of(r),
    {
        self.0
    }

    /// The next revision; the count wraps around at its end.
    pub open spec fn next(self) -> CreationRevision {
        CreationRevision::of(if self.count() == u64::MAX { 0 } else { (self.count() + 1) as u64 })
    }

    pub fn advance(&mut self)
        ensures
            *final(self) == old(self).next(),
    {
        self.0 = self.0.wrapping_add(1);
    }
}

pub open spec fn default_for(repo_id: RepoId) -> spec_fn(SpecCreationDefault) -> bool {
    |d: SpecCreationDefault| d.repo_id == repo_id
}

pub fn find_default<'a>(
    defaults: &'a Vec<CreationDefault>,
    repo_id: RepoId,
) -> (r: Option<&'a CreationDefault>)
    ensures
        match r {
            Some(d) => data::found(defaults.deep_view(), default_for(repo_id)) == Some(d.deep_view()),
            None => data::found(defaults.deep_view(), default_for(repo_id)) is None,
        },
        (r is Some) == data::some_where(defaults.deep_view(), default_for(repo_id)),
{
    data::find(
        defaults,
        |d: &CreationDefault| -> (b: bool)
            ensures
                b == default_for(repo_id)(d.deep_view())
        { d.repo_id == repo_id },
        Ghost(default_for(repo_id)),
    )
}

pub open spec fn lost_message() -> Seq<char> {
    "Connection lost. The review may already exist; reconnect to check before retrying."@
}

/// A revision as the form writes it.
pub open spec fn read_ref(s: Seq<char>) -> Result<SpecRefSpec, Seq<char>> {
    let s = text::trimmed(s);
    if s.len() == 0 {
        Err("Enter a revision."@)
    } else {
        match ref_selector::special_ref(text::ascii_lower(s)) {
            Some(r) => Ok(r),
            None => match text::split_once(s, ':') {
                None => Ok(SpecRefSpec::Branch { name: s }),
                Some((kind, value)) => if kind == "branch"@ && value.len() > 0 {
                    Ok(SpecRefSpec::Branch { name: value })
                } else if kind == "tag"@ && value.len() > 0 {
                    Ok(SpecRefSpec::Tag { name: value })
                } else if kind == "commit"@ {
                    match protocol::commit_named(value) {
                        Some(oid) => Ok(SpecRefSpec::Commit { oid }),
                        None => Err("Invalid commit: expected 40 hexadecimal digits"@),
                    }
                } else {
                    Err("Use a branch, tag:name, commit:<oid>, head, upstream or worktree."@)
                },
            },
        }
    }
}

/// Read a revision as the form writes it.
pub fn parse_ref(s: &str) -> (r: Result<RefSpec, String>)
    ensures
        match r {
            Ok(x) => read_ref(s@) == Ok::<SpecRefSpec, Seq<char>>(x.deep_view()),
            Err(e) => read_ref(s@) == Err::<SpecRefSpec, Seq<char>>(e@),
        },
{
    let s = text::trim(s);
    if s.as_str().is_empty() {
        return Err("Enter a revision.".to_owned());
    }
    let low = text::ascii_lowercase(s.as_str());
    if let Some(x) = ref_selector::special(low.as_str()) {
        return Ok(x);
    }
    match text::split(s.as_str(), ':') {
        None => Ok(RefSpec::Branch { name: s }),
        Some(parts) => {
            let (kind, value) = parts;
            if text::is(kind.as_str(), "branch") && !value.as_str().is_empty() {
                Ok(RefSpec::Branch { name: value })
            } else if text::is(kind.as_str(), "tag") && !value.as_str().is_empty() {
                Ok(RefSpec::Tag { name: value })
            } else if text::is(kind.as_str(), "commit") {
                match CommitOid::parse(value.as_str()) {
                    Some(oid) => Ok(RefSpec::Commit { oid }),
                    None => Err("Invalid commit: expected 40 hexadecimal digits".to_owned()),
                }
            } else {
                Err("Use a branch, tag:name, commit:<oid>, head, upstream or worktree.".to_owned())
            }
        },
    }
}

pub open spec fn row_is(id: CreationTargetId) -> spec_fn(SpecCreationTarget) -> bool {
    |t: SpecCreationTarget| t.id == id
}

pub open spec fn row_of(repo_id: RepoId) -> spec_fn(SpecCreationTarget) -> bool {
    |t: SpecCreationTarget| t.repo_id == repo_id
}

/// The rows with one replaced.
pub open spec fn with_row(
    rows: Seq<SpecCreationTarget>,
    id: CreationTargetId,
    row: spec_fn(SpecCreationTarget) -> SpecCreationTarget,
) -> Seq<
    SpecCreationTarget,
> {
    match data::first_where(rows, row_is(id)) {
        Some(i) => rows.update(i, row(rows[i])),
        None => rows,
    }
}

/// A row that was not touched yet.
pub open spec fn new_row(id: CreationTargetId, repo_id: RepoId) -> SpecCreationTarget {
    SpecCreationTarget { id, repo_id, base: SpecCreationBase::Automatic, head: "worktree"@ }
}

pub open spec fn settled_default() -> spec_fn(SpecCreationDefault) -> bool {
    |d: SpecCreationDefault| !(d.state is Loading)
}

pub open spec fn loading_default() -> spec_fn(RepoId) -> SpecCreationDefault {
    |repo_id: RepoId| SpecCreationDefault { repo_id, state: SpecCreationDefaultState::Loading }
}

/// The repositories of the rows whose default base was not asked for.
pub open spec fn missing(rows: Seq<SpecCreationTarget>, defaults: Seq<SpecCreationDefault>) -> Seq<RepoId>
    decreases rows.len(),
{
    if rows.len() == 0 {
        Seq::empty()
    } else {
        let out = missing(rows.drop_last(), defaults);
        let repo_id = rows.last().repo_id;
        if data::some_where(defaults, default_for(repo_id)) || out.contains(repo_id) {
            out
        } else {
            out.push(repo_id)
        }
    }
}

/// The repositories of the rows whose default base was not asked for.
pub fn missing_defaults(rows: &Vec<CreationTarget>, defaults: &Vec<CreationDefault>) -> (r: Vec<RepoId>)
    ensures
        r.deep_view() == missing(rows.deep_view(), defaults.deep_view()),
{
    let n: usize = rows.len();
    let ghost all = rows.deep_view();
    let mut out: Vec<RepoId> = data::empty();
    for i in 0..n
        invariant
            n == rows@.len(),
            all == rows.deep_view(),
            out.deep_view() == missing(all.take(i as int), defaults.deep_view()),
    {
        assert(all.take(i + 1).drop_last() =~= all.take(i as int));
        assert(all.take(i + 1).last() == rows@[i as int].deep_view());
        let repo_id = rows[i].repo_id;
        if find_default(defaults, repo_id).is_none() && !data::contains(&out, &repo_id) {
            data::push(&mut out, repo_id);
        }
    }
    assert(all.take(n as int) =~= all);
    out
}

fn row_at(rows: &Vec<CreationTarget>, id: CreationTargetId) -> (r: Option<usize>)
    ensures
        match r {
            Some(i) => i < rows@.len() && data::first_where(rows.deep_view(), row_is(id)) == Some(i as int),
            None => data::first_where(rows.deep_view(), row_is(id)) is None,
        },
        (r is Some) == data::some_where(rows.deep_view(), row_is(id)),
{
    data::position(
        rows,
        |t: &CreationTarget| -> (b: bool)
            ensures
                b == row_is(id)(t.deep_view())
        { t.id == id },
        Ghost(row_is(id)),
    )
}

impl SpecReviewCreation {
    /// One edit more is counted.
    pub open spec fn advanced(self) -> SpecReviewCreation {
        SpecReviewCreation { revision: self.revision.next(), ..self }
    }

    pub open spec fn with_rows(self, targets: Seq<SpecCreationTarget>) -> SpecReviewCreation {
        SpecReviewCreation { draft: SpecCreationDraft { targets, ..self.draft }, ..self }
    }

    pub open spec fn with_status(self, status: SpecCreationStatus) -> SpecReviewCreation {
        SpecReviewCreation { status, ..self }
    }

    /// One field changes; the other rows stay as they are.
    pub open spec fn edited(self, edit: SpecCreationEdit) -> SpecReviewCreation {
        let c = self.advanced().with_status(SpecCreationStatus::Editing);
        let rows = self.draft.targets;
        match edit {
            SpecCreationEdit::Title { text } => SpecReviewCreation {
                draft: SpecCreationDraft { title: text, ..c.draft },
                ..c
            },
            SpecCreationEdit::Repository { target_id, repo_id } => c.with_rows(
                with_row(
                    rows,
                    target_id,
                    |t: SpecCreationTarget| SpecCreationTarget {
                        repo_id,
                        base: SpecCreationBase::Automatic,
                        ..t
                    },
                ),
            ),
            SpecCreationEdit::Base { target_id, text } => c.with_rows(
                with_row(
                    rows,
                    target_id,
                    |t: SpecCreationTarget| SpecCreationTarget {
                        base: SpecCreationBase::Manual { text },
                        ..t
                    },
                ),
            ),
            SpecCreationEdit::Head { target_id, text } => c.with_rows(
                with_row(rows, target_id, |t: SpecCreationTarget| SpecCreationTarget { head: text, ..t }),
            ),
        }
    }

    /// The row is selected, if there is one.
    pub open spec fn row_selected(self, id: CreationTargetId) -> SpecReviewCreation {
        let c = self.advanced();
        if data::some_where(c.draft.targets, row_is(id)) {
            SpecReviewCreation { selected: Some(id), ..c }
        } else {
            c
        }
    }

    /// A row for the repository is added, named by the revision.
    pub open spec fn row_added(self, repo_id: RepoId) -> SpecReviewCreation {
        let c = self.advanced();
        let id = CreationTargetId::of(c.revision.count());
        (SpecReviewCreation { selected: Some(id), status: SpecCreationStatus::Editing, ..c }).with_rows(
            c.draft.targets.push(new_row(id, repo_id)),
        )
    }

    /// Where the selected row is.
    pub open spec fn selected_at(self) -> Option<int> {
        match self.selected {
            Some(id) => data::first_where(self.draft.targets, row_is(id)),
            None => None,
        }
    }

    /// The selected row goes; its neighbour is selected.
    pub open spec fn row_removed(self) -> SpecReviewCreation {
        let c = self.advanced();
        match c.selected_at() {
            Some(i) => {
                let rows = c.draft.targets.remove(i);
                (SpecReviewCreation {
                    selected: if rows.len() == 0 {
                        None
                    } else if i < rows.len() {
                        Some(rows[i].id)
                    } else {
                        Some(rows.last().id)
                    },
                    status: SpecCreationStatus::Editing,
                    ..c
                }).with_rows(rows)
            },
            None => c,
        }
    }

    /// The submission that is under way.
    pub open spec fn submitted(self) -> Option<SpecCreationSubmission> {
        match self.status {
            SpecCreationStatus::Pending { submission } => Some(submission),
            SpecCreationStatus::Interrupted { submission, .. } => Some(submission),
            SpecCreationStatus::Reconciling { submission, .. } => Some(submission),
            _ => None,
        }
    }

    /// The connection is lost: defaults on their way are forgotten, a
    /// submission under way becomes uncertain.
    pub open spec fn disconnected(self) -> SpecReviewCreation {
        let c = SpecReviewCreation { defaults: self.defaults.filter(settled_default()), ..self };
        match self.status {
            SpecCreationStatus::Pending { submission } => c.with_status(
                SpecCreationStatus::Interrupted { submission, message: lost_message() },
            ),
            SpecCreationStatus::Reconciling { submission, .. } => c.with_status(
                SpecCreationStatus::Interrupted { submission, message: lost_message() },
            ),
            _ => c,
        }
    }

    /// A review with this identity exists: it is what was submitted, or
    /// something else.
    pub open spec fn matched(self, title: Seq<char>, targets: Seq<SpecReviewTarget>) -> SpecReviewCreation {
        match self.submitted() {
            Some(s) => if s.title == title && s.targets == targets {
                self.with_status(SpecCreationStatus::Succeeded)
            } else {
                self.with_status(
                    SpecCreationStatus::Interrupted {
                        submission: s,
                        message: "An existing review has different inputs. Inspect it before retrying."@,
                    },
                )
            },
            None => self,
        }
    }

    /// Only a form that is being edited, or whose submission failed, can be
    /// changed.
    pub open spec fn editable(self) -> bool {
        self.status is Editing || self.status is Failed
    }

    /// The base of a target, or why it has none.
    pub open spec fn base_of(self, target: SpecCreationTarget) -> Result<SpecRefSpec, Seq<char>> {
        match target.base {
            SpecCreationBase::Manual { text } => read_ref(text),
            SpecCreationBase::Automatic => match data::found(self.defaults, default_for(target.repo_id)) {
                None => Err("The default base is still loading. Wait or enter a base revision."@),
                Some(d) => match d.state {
                    SpecCreationDefaultState::Ready { base } => Ok(base),
                    SpecCreationDefaultState::Failed { message } => Err(
                        "Choose a base revision: "@ + message,
                    ),
                    SpecCreationDefaultState::Loading => Err(
                        "The default base is still loading. Wait or enter a base revision."@,
                    ),
                },
            },
        }
    }

    pub open spec fn target_of(self, target: SpecCreationTarget) -> Result<SpecReviewTarget, Seq<char>> {
        match self.base_of(target) {
            Err(e) => Err(e),
            Ok(base) => match read_ref(target.head) {
                Err(e) => Err(e),
                Ok(head) => Ok(SpecReviewTarget { repo_id: target.repo_id, base, head }),
            },
        }
    }

    /// The targets of the rows, or the first failure.
    pub open spec fn targets_of(
        self,
        rows: Seq<SpecCreationTarget>,
    ) -> Result<Seq<SpecReviewTarget>, Seq<char>>
        decreases rows.len(),
    {
        if rows.len() == 0 {
            Ok(Seq::empty())
        } else {
            match self.targets_of(rows.drop_last()) {
                Err(e) => Err(e),
                Ok(targets) => match self.target_of(rows.last()) {
                    Err(e) => Err(e),
                    Ok(t) => Ok(targets.push(t)),
                },
            }
        }
    }

    /// What the form would send, or what is missing.
    pub open spec fn submission(self) -> Result<SpecCreationSubmission, Seq<char>> {
        let title = text::trimmed(self.draft.title);
        if title.len() == 0 {
            Err("Enter a review title."@)
        } else {
            match self.targets_of(self.draft.targets) {
                Err(e) => Err(e),
                Ok(targets) => if targets.len() == 0 {
                    Err("Choose at least one repository."@)
                } else {
                    Ok(SpecCreationSubmission { title, targets })
                },
            }
        }
    }
}

impl ReviewCreation {
    fn change_row(&mut self, i: usize, row: CreationTarget)
        requires
            i < old(self).draft.targets@.len(),
        ensures
            final(self).deep_view() == old(self).deep_view().with_rows(
                old(self).deep_view().draft.targets.update(i as int, row.deep_view()),
            ),
    {
        data::set(&mut self.draft.targets, i, row);
    }

    /// Change one field; the other rows stay as they are.
    pub fn edit(&mut self, edit: CreationEdit)
        ensures
            final(self).deep_view() == old(self).deep_view().edited(edit.deep_view()),
    {
        self.revision.advance();
        self.status = CreationStatus::Editing;
        match edit {
            CreationEdit::Title { text } => {
                self.draft.title = text;
            },
            CreationEdit::Repository { target_id, repo_id } => {
                if let Some(i) = row_at(&self.draft.targets, target_id) {
                    assert(self.draft.targets.deep_view()[i as int] == self.draft.targets@[i as int].deep_view());
                    let mut row = self.draft.targets[i].dup();
                    row.repo_id = repo_id;
                    row.base = CreationBase::Automatic;
                    self.change_row(i, row);
                }
            },
            CreationEdit::Base { target_id, text } => {
                if let Some(i) = row_at(&self.draft.targets, target_id) {
                    assert(self.draft.targets.deep_view()[i as int] == self.draft.targets@[i as int].deep_view());
                    let mut row = self.draft.targets[i].dup();
                    row.base = CreationBase::Manual { text };
                    self.change_row(i, row);
                }
            },
            CreationEdit::Head { target_id, text } => {
                if let Some(i) = row_at(&self.draft.targets, target_id) {
                    assert(self.draft.targets.deep_view()[i as int] == self.draft.targets@[i as int].deep_view());
                    let mut row = self.draft.targets[i].dup();
                    row.head = text;
                    self.change_row(i, row);
                }
            },
        }
    }

    /// Select a row, if there is one. Tells whether there is.
    pub fn select_row(&mut self, id: CreationTargetId) -> (there: bool)
        ensures
            final(self).deep_view() == old(self).deep_view().row_selected(id),
            there == data::some_where(old(self).deep_view().draft.targets, row_is(id)),
    {
        self.revision.advance();
        if row_at(&self.draft.targets, id).is_some() {
            self.selected = Some(id);
            true
        } else {
            false
        }
    }

    /// Add a row for the repository.
    pub fn add_row(&mut self, repo_id: RepoId)
        ensures
            final(self).deep_view() == old(self).deep_view().row_added(repo_id),
    {
        self.revision.advance();
        let id = CreationTargetId(self.revision.0);
        self.selected = Some(id);
        data::push(
            &mut self.draft.targets,
            CreationTarget { id, repo_id, base: CreationBase::Automatic, head: "worktree".to_owned() },
        );
        self.status = CreationStatus::Editing;
    }

    /// Remove the selected row; its neighbour is selected.
    pub fn remove_row(&mut self)
        ensures
            final(self).deep_view() == old(self).deep_view().row_removed(),
    {
        self.revision.advance();
        let at = match self.selected {
            Some(id) => row_at(&self.draft.targets, id),
            None => None,
        };
        if let Some(i) = at {
            let _ = data::remove(&mut self.draft.targets, i);
            let rows = &self.draft.targets;
            assert(rows.deep_view().len() == rows@.len());
            let n: usize = rows.len();
            self.selected = if n == 0 {
                None
            } else if i < n {
                assert(rows.deep_view()[i as int] == rows@[i as int].deep_view());
                Some(rows[i].id)
            } else {
                assert(rows.deep_view()[n - 1] == rows@[n - 1].deep_view());
                Some(rows[n - 1].id)
            };
            self.status = CreationStatus::Editing;
        }
    }

    /// The connection is lost.
    pub fn disconnect(&mut self)
        ensures
            final(self).deep_view() == old(self).deep_view().disconnected(),
    {
        data::retain(
            &mut self.defaults,
            |d: &CreationDefault| -> (b: bool)
                ensures
                    b == settled_default()(d.deep_view())
            {
                match d.state {
                    CreationDefaultState::Loading => false,
                    _ => true,
                }
            },
            Ghost(settled_default()),
        );
        let submission = match &self.status {
            CreationStatus::Pending { submission } => submission.dup(),
            CreationStatus::Reconciling { submission, .. } => submission.dup(),
            _ => {
                return ;
            },
        };
        self.status = CreationStatus::Interrupted {
            submission,
            message: "Connection lost. The review may already exist; reconnect to check before retrying.".to_owned(),
        };
    }

    /// The submission that is under way.
    pub fn submitted(&self) -> (r: Option<CreationSubmission>)
        ensures
            r.deep_view() == self.deep_view().submitted(),
    {
        match &self.status {
            CreationStatus::Pending { submission } => Some(submission.dup()),
            CreationStatus::Interrupted { submission, .. } => Some(submission.dup()),
            CreationStatus::Reconciling { submission, .. } => Some(submission.dup()),
            _ => None,
        }
    }

    /// A review with this identity exists.
    pub fn found(&mut self, title: &String, targets: &Vec<ReviewTarget>)
        ensures
            final(self).deep_view() == old(self).deep_view().matched(title@, targets.deep_view()),
    {
        if let Some(s) = self.submitted() {
            if s.title.same(title) && s.targets.same(targets) {
                self.status = CreationStatus::Succeeded;
            } else {
                self.status = CreationStatus::Interrupted {
                    submission: s,
                    message: "An existing review has different inputs. Inspect it before retrying.".to_owned(),
                };
            }
        }
    }

    /// Whether the form can be changed.
    pub fn editable(&self) -> (b: bool)
        ensures
            b == self.deep_view().editable(),
    {
        match self.status {
            CreationStatus::Editing => true,
            CreationStatus::Failed { .. } => true,
            _ => false,
        }
    }

    fn base_of(&self, target: &CreationTarget) -> (r: Result<RefSpec, String>)
        ensures
            match r {
                Ok(x) => self.deep_view().base_of(target.deep_view()) == Ok::<SpecRefSpec, Seq<char>>(x.deep_view()),
                Err(e) => self.deep_view().base_of(target.deep_view()) == Err::<SpecRefSpec, Seq<char>>(e@),
            },
    {
        match &target.base {
            CreationBase::Manual { text } => parse_ref(text.as_str()),
            CreationBase::Automatic => match find_default(&self.defaults, target.repo_id) {
                None => Err("The default base is still loading. Wait or enter a base revision.".to_owned()),
                Some(d) => match &d.state {
                    CreationDefaultState::Ready { base } => Ok(base.dup()),
                    CreationDefaultState::Failed { message } => Err(
                        text::join("Choose a base revision: ", message.as_str()),
                    ),
                    CreationDefaultState::Loading => Err(
                        "The default base is still loading. Wait or enter a base revision.".to_owned(),
                    ),
                },
            },
        }
    }

    fn target_of(&self, target: &CreationTarget) -> (r: Result<ReviewTarget, String>)
        ensures
            match r {
                Ok(x) => self.deep_view().target_of(target.deep_view()) == Ok::<SpecReviewTarget, Seq<char>>(
                    x.deep_view(),
                ),
                Err(e) => self.deep_view().target_of(target.deep_view()) == Err::<SpecReviewTarget, Seq<char>>(e@),
            },
    {
        match self.base_of(target) {
            Err(e) => Err(e),
            Ok(base) => match parse_ref(target.head.as_str()) {
                Err(e) => Err(e),
                Ok(head) => Ok(ReviewTarget { repo_id: target.repo_id, base, head }),
            },
        }
    }

    /// What the form would send, or what is missing.
    pub fn submission(&self) -> (r: Result<CreationSubmission, String>)
        ensures
            match r {
                Ok(x) => self.deep_view().submission() == Ok::<SpecCreationSubmission, Seq<char>>(x.deep_view()),
                Err(e) => self.deep_view().submission() == Err::<SpecCreationSubmission, Seq<char>>(e@),
            },
    {
        let title = text::trim(self.draft.title.as_str());
        if title.as_str().is_empty() {
            return Err("Enter a review title.".to_owned());
        }
        let n: usize = self.draft.targets.len();
        let ghost all = self.draft.targets.deep_view();
        let ghost me = self.deep_view();
        let mut state: Result<Vec<ReviewTarget>, String> = Ok(data::empty());
        assert(all.take(0) =~= Seq::empty());
        for i in 0..n
            invariant
                n == self.draft.targets@.len(),
                all == self.draft.targets.deep_view(),
                me == self.deep_view(),
                match state {
                    Ok(targets) => me.targets_of(all.take(i as int)) == Ok::<Seq<SpecReviewTarget>, Seq<char>>(
                        targets.deep_view(),
                    ),
                    Err(e) => me.targets_of(all.take(i as int)) == Err::<Seq<SpecReviewTarget>, Seq<char>>(e@),
                },
        {
            assert(all.take(i + 1).drop_last() =~= all.take(i as int));
            assert(all.take(i + 1).last() == self.draft.targets@[i as int].deep_view());
            state = match state {
                Err(e) => Err(e),
                Ok(targets) => match self.target_of(&self.draft.targets[i]) {
                    Err(e) => Err(e),
                    Ok(t) => {
                        let mut targets = targets;
                        data::push(&mut targets, t);
                        Ok(targets)
                    },
                },
            };
        }
        assert(all.take(n as int) =~= all);
        match state {
            Err(e) => Err(e),
            Ok(targets) => {
                assert(targets.deep_view().len() == targets@.len());
                if targets.len() == 0 {
                    Err("Choose at least one repository.".to_owned())
                } else {
                    Ok(CreationSubmission { title, targets })
                }
            },
        }
    }
}

} // verus!
