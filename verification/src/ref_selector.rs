//! The revision selector. The daemon supplies the catalog; filtering and
//! selection are decided here.
use vstd::prelude::*;

use crate::data;
use crate::data::Value;
use crate::protocol;
use crate::protocol::{
    BaseRefSpec, CommitOid, RefCandidate, RefSpec, RepoId, RequestId, SpecBaseRefSpec,
    SpecRefCandidate, SpecRefSpec, SpecTargetRevision, TargetRevision,
};
use crate::text;

verus! {

/// Which side of a review target the selector edits.
#[derive(Debug, Clone, Copy, PartialEq, Eq, Structural)]
pub enum RefSelectorSide {
    Base,
    Head,
}

impl DeepView for RefSelectorSide {
    type V = RefSelectorSide;

    open spec fn deep_view(&self) -> RefSelectorSide {
        *self
    }
}

impl Value for RefSelectorSide {
    fn dup(&self) -> (r: Self) {
        *self
    }

    fn same(&self, other: &Self) -> (b: bool) {
        *self == *other
    }
}

/// Selecting a review target changes the review; browsing only looks.
#[derive(Debug, Clone, Copy, PartialEq, Eq, Structural)]
pub enum RefSelectorPurpose {
    Review { side: RefSelectorSide },
    Browse,
}

impl DeepView for RefSelectorPurpose {
    type V = RefSelectorPurpose;

    open spec fn deep_view(&self) -> RefSelectorPurpose {
        *self
    }
}

impl Value for RefSelectorPurpose {
    fn dup(&self) -> (r: Self) {
        *self
    }

    fn same(&self, other: &Self) -> (b: bool) {
        *self == *other
    }
}

/// What an option stands for once it is selected.
#[derive(Debug, PartialEq, Eq)]
pub enum RefSelection {
    Review { revision: TargetRevision },
    Browse { ref_spec: RefSpec },
}

/// Model of [`RefSelection`].
#[verifier::ext_equal]
pub enum SpecRefSelection {
    Review { revision: SpecTargetRevision },
    Browse { ref_spec: SpecRefSpec },
}

impl DeepView for RefSelection {
    type V = SpecRefSelection;

    open spec fn deep_view(&self) -> SpecRefSelection {
        match self {
            RefSelection::Review { revision } => SpecRefSelection::Review {
                revision: revision.deep_view(),
            },
            RefSelection::Browse { ref_spec } => SpecRefSelection::Browse {
                ref_spec: ref_spec.deep_view(),
            },
        }
    }
}

impl Value for RefSelection {
    fn dup(&self) -> (r: Self) {
        match self {
            RefSelection::Review { revision } => RefSelection::Review {
                revision: revision.dup(),
            },
            RefSelection::Browse { ref_spec } => RefSelection::Browse {
                ref_spec: ref_spec.dup(),
            },
        }
    }

    fn same(&self, other: &Self) -> (b: bool) {
        match (self, other) {
            (RefSelection::Review { revision: a0 }, RefSelection::Review { revision: b0 }) => a0.same(b0),
            (RefSelection::Browse { ref_spec: a0 }, RefSelection::Browse { ref_spec: b0 }) => a0.same(b0),
            _ => false,
        }
    }
}

/// The state shown inside the selector.
#[derive(Debug, PartialEq, Eq)]
pub enum RefSelectorStatus {
    Loading,
    Ready,
    Saving,
    InvalidRef { message: String },
    DaemonError { message: String },
}

/// Model of [`RefSelectorStatus`].
#[verifier::ext_equal]
pub enum SpecRefSelectorStatus {
    Loading,
    Ready,
    Saving,
    InvalidRef { message: Seq<char> },
    DaemonError { message: Seq<char> },
}

impl DeepView for RefSelectorStatus {
    type V = SpecRefSelectorStatus;

    open spec fn deep_view(&self) -> SpecRefSelectorStatus {
        match self {
            RefSelectorStatus::Loading => SpecRefSelectorStatus::Loading,
            RefSelectorStatus::Ready => SpecRefSelectorStatus::Ready,
            RefSelectorStatus::Saving => SpecRefSelectorStatus::Saving,
            RefSelectorStatus::InvalidRef { message } => SpecRefSelectorStatus::InvalidRef {
                message: message.deep_view(),
            },
            RefSelectorStatus::DaemonError { message } => SpecRefSelectorStatus::DaemonError {
                message: message.deep_view(),
            },
        }
    }
}

impl Value for RefSelectorStatus {
    fn dup(&self) -> (r: Self) {
        match self {
            RefSelectorStatus::Loading => RefSelectorStatus::Loading,
            RefSelectorStatus::Ready => RefSelectorStatus::Ready,
            RefSelectorStatus::Saving => RefSelectorStatus::Saving,
            RefSelectorStatus::InvalidRef { message } => RefSelectorStatus::InvalidRef {
                message: message.dup(),
            },
            RefSelectorStatus::DaemonError { message } => RefSelectorStatus::DaemonError {
                message: message.dup(),
            },
        }
    }

    fn same(&self, other: &Self) -> (b: bool) {
        match (self, other) {
            (RefSelectorStatus::Loading, RefSelectorStatus::Loading) => true,
            (RefSelectorStatus::Ready, RefSelectorStatus::Ready) => true,
            (RefSelectorStatus::Saving, RefSelectorStatus::Saving) => true,
            (RefSelectorStatus::InvalidRef { message: a0 }, RefSelectorStatus::InvalidRef { message: b0 }) => a0.same(b0),
            (RefSelectorStatus::DaemonError { message: a0 }, RefSelectorStatus::DaemonError { message: b0 }) => a0.same(b0),
            _ => false,
        }
    }
}

/// One row of the selector.
#[derive(Debug, PartialEq, Eq)]
pub struct RefOption {
    pub ref_spec: RefSpec,
    pub subject: Option<String>,
    pub current: bool,
}

/// Model of [`RefOption`].
#[verifier::ext_equal]
pub struct SpecRefOption {
    pub ref_spec: SpecRefSpec,
    pub subject: Option<Seq<char>>,
    pub current: bool,
}

impl DeepView for RefOption {
    type V = SpecRefOption;

    open spec fn deep_view(&self) -> SpecRefOption {
        SpecRefOption {
            ref_spec: self.ref_spec.deep_view(),
            subject: self.subject.deep_view(),
            current: self.current,
        }
    }
}

impl Value for RefOption {
    fn dup(&self) -> (r: Self) {
        RefOption {
            ref_spec: self.ref_spec.dup(),
            subject: self.subject.dup(),
            current: self.current,
        }
    }

    fn same(&self, other: &Self) -> (b: bool) {
        self.ref_spec.same(&other.ref_spec)
            && self.subject.same(&other.subject)
            && self.current == other.current
    }
}

/// Everything a host needs to render the open selector.
#[derive(Debug, PartialEq, Eq)]
pub struct RefSelectorView {
    /// The catalog request, which also names this opening of the selector.
    pub request_id: RequestId,
    pub repo_id: RepoId,
    pub repo_name: String,
    pub purpose: RefSelectorPurpose,
    pub current: RefSpec,
    pub query: String,
    pub options: Vec<RefOption>,
    pub selected: usize,
    pub status: RefSelectorStatus,
}

/// Model of [`RefSelectorView`].
#[verifier::ext_equal]
pub struct SpecRefSelectorView {
    pub request_id: RequestId,
    pub repo_id: RepoId,
    pub repo_name: Seq<char>,
    pub purpose: RefSelectorPurpose,
    pub current: SpecRefSpec,
    pub query: Seq<char>,
    pub options: Seq<SpecRefOption>,
    pub selected: usize,
    pub status: SpecRefSelectorStatus,
}

impl DeepView for RefSelectorView {
    type V = SpecRefSelectorView;

    open spec fn deep_view(&self) -> SpecRefSelectorView {
        SpecRefSelectorView {
            request_id: self.request_id,
            repo_id: self.repo_id,
            repo_name: self.repo_name.deep_view(),
            purpose: self.purpose,
            current: self.current.deep_view(),
            query: self.query.deep_view(),
            options: self.options.deep_view(),
            selected: self.selected,
            status: self.status.deep_view(),
        }
    }
}

impl Value for RefSelectorView {
    fn dup(&self) -> (r: Self) {
        RefSelectorView {
            request_id: self.request_id,
            repo_id: self.repo_id,
            repo_name: self.repo_name.dup(),
            purpose: self.purpose,
            current: self.current.dup(),
            query: self.query.dup(),
            options: self.options.dup(),
            selected: self.selected,
            status: self.status.dup(),
        }
    }

    fn same(&self, other: &Self) -> (b: bool) {
        self.request_id == other.request_id
            && self.repo_id == other.repo_id
            && self.repo_name.same(&other.repo_name)
            && self.purpose == other.purpose
            && self.current.same(&other.current)
            && self.query.same(&other.query)
            && self.options.same(&other.options)
            && self.selected == other.selected
            && self.status.same(&other.status)
    }
}

/// The open selector.
#[derive(Debug, PartialEq, Eq)]
pub struct RefSelector {
    pub(crate) catalog: Vec<RefCandidate>,
    pub view: RefSelectorView,
}

/// Model of [`RefSelector`].
#[verifier::ext_equal]
pub struct SpecRefSelector {
    pub catalog: Seq<SpecRefCandidate>,
    pub view: SpecRefSelectorView,
}

impl DeepView for RefSelector {
    type V = SpecRefSelector;

    open(crate) spec fn deep_view(&self) -> SpecRefSelector {
        SpecRefSelector {
            catalog: self.catalog.deep_view(),
            view: self.view.deep_view(),
        }
    }
}

impl Value for RefSelector {
    fn dup(&self) -> (r: Self) {
        RefSelector {
            catalog: self.catalog.dup(),
            view: self.view.dup(),
        }
    }

    fn same(&self, other: &Self) -> (b: bool) {
        self.catalog.same(&other.catalog)
            && self.view.same(&other.view)
    }
}

/// What a query asks for.
#[derive(Debug, PartialEq, Eq)]
pub enum LiteralQuery {
    /// Look it up in the catalog.
    Search,
    /// Exactly this revision.
    Ref(RefSpec),
    /// It has the form of a revision and is none.
    Invalid,
}

/// Model of [`LiteralQuery`].
#[verifier::ext_equal]
pub enum SpecLiteralQuery {
    Search,
    Ref(SpecRefSpec),
    Invalid,
}

impl DeepView for LiteralQuery {
    type V = SpecLiteralQuery;

    open spec fn deep_view(&self) -> SpecLiteralQuery {
        match self {
            LiteralQuery::Search => SpecLiteralQuery::Search,
            LiteralQuery::Ref(a) => SpecLiteralQuery::Ref(a.deep_view()),
            LiteralQuery::Invalid => SpecLiteralQuery::Invalid,
        }
    }
}

impl Value for LiteralQuery {
    fn dup(&self) -> (r: Self) {
        match self {
            LiteralQuery::Search => LiteralQuery::Search,
            LiteralQuery::Ref(a) => LiteralQuery::Ref(a.dup()),
            LiteralQuery::Invalid => LiteralQuery::Invalid,
        }
    }

    fn same(&self, other: &Self) -> (b: bool) {
        match (self, other) {
            (LiteralQuery::Search, LiteralQuery::Search) => true,
            (LiteralQuery::Ref(a0), LiteralQuery::Ref(b0)) => a0.same(b0),
            (LiteralQuery::Invalid, LiteralQuery::Invalid) => true,
            _ => false,
        }
    }
}


// ---- queries --------------------------------------------------------------

pub open spec fn has_space(s: Seq<char>) -> bool {
    exists|i: int| 0 <= i < s.len() && text::is_space(#[trigger] s[i])
}

/// A revision that goes by a name of its own, in lower case.
pub open spec fn special_ref(s: Seq<char>) -> Option<SpecRefSpec> {
    if s == "worktree"@ || s == "working-tree"@ {
        Some(SpecRefSpec::WorkingTree)
    } else if s == "head"@ {
        Some(SpecRefSpec::Head)
    } else if s == "upstream"@ || s == "@{upstream}"@ {
        Some(SpecRefSpec::Upstream)
    } else {
        None
    }
}

pub fn special(s: &str) -> (r: Option<RefSpec>)
    ensures
        r.deep_view() == special_ref(s@),
{
    if text::is(s, "worktree") || text::is(s, "working-tree") {
        Some(RefSpec::WorkingTree)
    } else if text::is(s, "head") {
        Some(RefSpec::Head)
    } else if text::is(s, "upstream") || text::is(s, "@{upstream}") {
        Some(RefSpec::Upstream)
    } else {
        None
    }
}

/// What a query asks for. A query with a kind (`branch:`, `tag:`, `commit:`)
/// is literal and never a search, so that a commit subject cannot take the
/// place of the branch it mentions.
pub open spec fn literal(query: Seq<char>) -> SpecLiteralQuery {
    let query = text::trimmed(query);
    match special_ref(text::lowercased(query)) {
        Some(r) => SpecLiteralQuery::Ref(r),
        None => match text::split_once(query, ':') {
            None => SpecLiteralQuery::Search,
            Some((kind, value)) => if kind != "branch"@ && kind != "tag"@ && kind != "commit"@ {
                SpecLiteralQuery::Search
            } else if value.len() == 0 || has_space(query) {
                SpecLiteralQuery::Invalid
            } else if kind == "branch"@ {
                SpecLiteralQuery::Ref(SpecRefSpec::Branch { name: value })
            } else if kind == "tag"@ {
                SpecLiteralQuery::Ref(SpecRefSpec::Tag { name: value })
            } else {
                match protocol::commit_named(value) {
                    Some(oid) => SpecLiteralQuery::Ref(SpecRefSpec::Commit { oid }),
                    None => SpecLiteralQuery::Invalid,
                }
            },
        },
    }
}

/// What a query asks for.
pub fn literal_query(query: &str) -> (r: LiteralQuery)
    ensures
        r.deep_view() == literal(query@),
{
    let query = text::trim(query);
    let low = text::lowercase(query.as_str());
    if let Some(r) = special(low.as_str()) {
        return LiteralQuery::Ref(r);
    }
    match text::split(query.as_str(), ':') {
        None => LiteralQuery::Search,
        Some(parts) => {
            let (kind, value) = parts;
            let branch = text::is(kind.as_str(), "branch");
            let tag = text::is(kind.as_str(), "tag");
            let commit = text::is(kind.as_str(), "commit");
            if !branch && !tag && !commit {
                LiteralQuery::Search
            } else if value.as_str().is_empty() || text::has_space(query.as_str()) {
                LiteralQuery::Invalid
            } else if branch {
                LiteralQuery::Ref(RefSpec::Branch { name: value })
            } else if tag {
                LiteralQuery::Ref(RefSpec::Tag { name: value })
            } else {
                match CommitOid::parse(value.as_str()) {
                    Some(oid) => LiteralQuery::Ref(RefSpec::Commit { oid }),
                    None => LiteralQuery::Invalid,
                }
            }
        },
    }
}

/// The revision a bare name asks to resolve.
pub open spec fn named(query: Seq<char>) -> Option<SpecRefSpec> {
    let query = text::trimmed(query);
    if query.len() == 0 || text::index_of(query, ':') is Some || has_space(query) {
        None
    } else {
        Some(SpecRefSpec::Revision { expression: query })
    }
}

/// The revision a bare name asks to resolve.
pub fn named_query(query: &str) -> (r: Option<RefSpec>)
    ensures
        r.deep_view() == named(query@),
{
    let query = text::trim(query);
    if query.as_str().is_empty() || text::split(query.as_str(), ':').is_some() || text::has_space(query.as_str()) {
        None
    } else {
        Some(RefSpec::Revision { expression: query })
    }
}

/// A revision as the base of a diff: anything but the working tree.
pub open spec fn as_base(spec: SpecRefSpec) -> Option<SpecBaseRefSpec> {
    match spec {
        SpecRefSpec::Branch { name } => Some(SpecBaseRefSpec::Branch { name }),
        SpecRefSpec::Commit { oid } => Some(SpecBaseRefSpec::Commit { oid }),
        SpecRefSpec::Tag { name } => Some(SpecBaseRefSpec::Tag { name }),
        SpecRefSpec::Revision { expression } => Some(SpecBaseRefSpec::Revision { expression }),
        SpecRefSpec::Upstream => Some(SpecBaseRefSpec::Upstream),
        SpecRefSpec::Head => Some(SpecBaseRefSpec::Head),
        SpecRefSpec::WorkingTree => None,
    }
}

/// A revision as the base of a diff.
pub fn base_ref(spec: &RefSpec) -> (r: Option<BaseRefSpec>)
    ensures
        r.deep_view() == as_base(spec.deep_view()),
{
    match spec {
        RefSpec::Branch { name } => Some(BaseRefSpec::Branch { name: name.dup() }),
        RefSpec::Commit { oid } => Some(BaseRefSpec::Commit { oid: *oid }),
        RefSpec::Tag { name } => Some(BaseRefSpec::Tag { name: name.dup() }),
        RefSpec::Revision { expression } => Some(BaseRefSpec::Revision { expression: expression.dup() }),
        RefSpec::Upstream => Some(BaseRefSpec::Upstream),
        RefSpec::Head => Some(BaseRefSpec::Head),
        RefSpec::WorkingTree => None,
    }
}

impl SpecRefCandidate {
    /// What a search looks through: the kind of revision, its name and its
    /// subject.
    pub open spec fn search_text(self) -> Seq<char> {
        let (kind, value) = match self.ref_spec {
            SpecRefSpec::Branch { name } => ("branch"@, name),
            SpecRefSpec::Commit { oid } => ("commit"@, oid.spec_text()),
            SpecRefSpec::Tag { name } => ("tag"@, name),
            SpecRefSpec::Revision { expression } => ("revision"@, expression),
            SpecRefSpec::WorkingTree => ("working tree"@, Seq::empty()),
            SpecRefSpec::Upstream => ("upstream"@, Seq::empty()),
            SpecRefSpec::Head => ("head"@, Seq::empty()),
        };
        let subject = match self.subject {
            Some(s) => s,
            None => Seq::empty(),
        };
        kind + " "@ + value + " "@ + subject
    }
}

/// What a search looks through.
pub fn search_text(candidate: &RefCandidate) -> (r: String)
    ensures
        r@ == candidate.deep_view().search_text(),
{
    let (kind, value) = match &candidate.ref_spec {
        RefSpec::Branch { name } => ("branch", name.dup()),
        RefSpec::Commit { oid } => ("commit", oid.to_string()),
        RefSpec::Tag { name } => ("tag", name.dup()),
        RefSpec::Revision { expression } => ("revision", expression.dup()),
        RefSpec::WorkingTree => ("working tree", String::new()),
        RefSpec::Upstream => ("upstream", String::new()),
        RefSpec::Head => ("head", String::new()),
    };
    let mut out = kind.to_owned();
    out.append(" ");
    out.append(value.as_str());
    out.append(" ");
    assert(candidate.ref_spec.deep_view() is WorkingTree ==> value@ =~= Seq::empty());
    assert(candidate.ref_spec.deep_view() is Upstream ==> value@ =~= Seq::empty());
    assert(candidate.ref_spec.deep_view() is Head ==> value@ =~= Seq::empty());
    match &candidate.subject {
        Some(s) => out.append(s.as_str()),
        None => {
            assert(out@ + Seq::<char>::empty() =~= out@);
        },
    }
    out
}

/// Whether the characters of `needle` occur in `haystack` in order.
pub fn fuzzy_match(haystack: &str, needle: &str) -> (b: bool)
    ensures
        b == text::subsequence(haystack@, needle@),
{
    let h = text::chars(haystack);
    let w = text::chars(needle);
    let n: usize = h.len();
    let m: usize = w.len();
    let mut found: usize = 0;
    assert(h@.skip(0) =~= h@);
    assert(w@.skip(0) =~= w@);
    for i in 0..n
        invariant
            n == h@.len(),
            m == w@.len(),
            found <= m,
            text::subsequence(h@, w@) == text::subsequence(h@.skip(i as int), w@.skip(found as int)),
    {
        assert(h@.skip(i as int).drop_first() =~= h@.skip(i + 1));
        if found < m && w[found] == h[i] {
            assert(w@.skip(found as int).drop_first() =~= w@.skip(found + 1));
            found = found + 1;
        }
    }
    assert(h@.skip(n as int).len() == 0);
    found == m
}

// ---- the selector ---------------------------------------------------------

pub open spec fn candidate_is(r: SpecRefSpec) -> spec_fn(SpecRefCandidate) -> bool {
    |c: SpecRefCandidate| c.ref_spec == r
}

pub open spec fn option_is(r: SpecRefSpec) -> spec_fn(SpecRefOption) -> bool {
    |o: SpecRefOption| o.ref_spec == r
}

/// Whether the catalog row can be offered and is asked for by `query`, in
/// lower case. The working tree is no base.
pub open spec fn offered(purpose: RefSelectorPurpose, query: Seq<char>) -> spec_fn(SpecRefCandidate) -> bool {
    |c: SpecRefCandidate|
        !(purpose == RefSelectorPurpose::Review { side: RefSelectorSide::Base } && c.ref_spec is WorkingTree) && (
        query.len() == 0 || text::subsequence(text::lowercased(c.search_text()), query))
}

impl SpecRefSelector {
    pub open spec fn loading(
        repo_id: RepoId,
        repo_name: Seq<char>,
        purpose: RefSelectorPurpose,
        current: SpecRefSpec,
        request_id: RequestId,
    ) -> SpecRefSelector {
        SpecRefSelector {
            catalog: Seq::empty(),
            view: SpecRefSelectorView {
                request_id,
                repo_id,
                repo_name,
                purpose,
                current,
                query: Seq::empty(),
                options: Seq::empty(),
                selected: 0,
                status: SpecRefSelectorStatus::Loading,
            },
        }
    }

    pub open spec fn option(self, ref_spec: SpecRefSpec, subject: Option<Seq<char>>) -> SpecRefOption {
        SpecRefOption { ref_spec, subject, current: ref_spec == self.view.current }
    }

    /// The rows of the catalog that `query`, in lower case, asks for.
    pub open spec fn matching(self, query: Seq<char>) -> Seq<SpecRefOption> {
        self.catalog.filter(offered(self.view.purpose, query)).map_values(
            |c: SpecRefCandidate| self.option(c.ref_spec, c.subject),
        )
    }

    /// The rows a catalog search gives.
    pub open spec fn searched(self) -> Seq<SpecRefOption> {
        self.matching(text::lowercased(text::trimmed(self.view.query)))
    }

    /// The rows for the current query.
    pub open spec fn options(self) -> Seq<SpecRefOption> {
        if self.view.purpose == RefSelectorPurpose::Browse {
            match literal(self.view.query) {
                SpecLiteralQuery::Ref(r) => seq![
                    self.option(
                        r,
                        match data::found(self.catalog, candidate_is(r)) {
                            Some(c) => c.subject,
                            None => None,
                        },
                    ),
                ],
                SpecLiteralQuery::Invalid => Seq::empty(),
                SpecLiteralQuery::Search => match named(self.view.query) {
                    Some(r) => if data::some_where(self.searched(), option_is(r)) {
                        self.searched()
                    } else {
                        self.searched().push(self.option(r, Some("Resolve this revision"@)))
                    },
                    None => self.searched(),
                },
            }
        } else {
            self.searched()
        }
    }

    pub open spec fn filtered(self) -> SpecRefSelector {
        SpecRefSelector {
            view: SpecRefSelectorView { options: self.options(), selected: 0, ..self.view },
            ..self
        }
    }

    /// The selector once the catalog arrived; the current revision is
    /// offered even if the catalog lacks it.
    pub open spec fn installed(self, catalog: Seq<SpecRefCandidate>) -> SpecRefSelector {
        let catalog = if data::some_where(catalog, candidate_is(self.view.current)) {
            catalog
        } else {
            catalog.insert(0, SpecRefCandidate { ref_spec: self.view.current, subject: None })
        };
        SpecRefSelector {
            catalog,
            view: SpecRefSelectorView { status: SpecRefSelectorStatus::Ready, ..self.view },
        }.filtered()
    }

    pub open spec fn queried(self, query: Seq<char>) -> SpecRefSelector {
        SpecRefSelector { view: SpecRefSelectorView { query, ..self.view }, ..self }.filtered()
    }

    pub open spec fn stepped(self, delta: int) -> SpecRefSelector {
        SpecRefSelector {
            view: SpecRefSelectorView {
                selected: moved(self.view.selected as int, delta, self.view.options.len()) as usize,
                ..self.view
            },
            ..self
        }
    }

    pub open spec fn with_status(self, status: SpecRefSelectorStatus) -> SpecRefSelector {
        SpecRefSelector { view: SpecRefSelectorView { status, ..self.view }, ..self }
    }

    /// What row `index` stands for; `None` where there is no such row, or it
    /// cannot be a base.
    pub open spec fn selection_at(self, index: int) -> Option<SpecRefSelection> {
        if 0 <= index < self.view.options.len() {
            let r = self.view.options[index].ref_spec;
            match self.view.purpose {
                RefSelectorPurpose::Browse => Some(SpecRefSelection::Browse { ref_spec: r }),
                RefSelectorPurpose::Review { side } => match side {
                    RefSelectorSide::Head => Some(
                        SpecRefSelection::Review { revision: SpecTargetRevision::Head { ref_spec: r } },
                    ),
                    RefSelectorSide::Base => match as_base(r) {
                        Some(b) => Some(
                            SpecRefSelection::Review { revision: SpecTargetRevision::Base { ref_spec: b } },
                        ),
                        None => None,
                    },
                },
            }
        } else {
            None
        }
    }
}

/// A selection among `len` rows moved by `delta`, kept among them.
pub open spec fn moved(selected: int, delta: int, len: nat) -> int {
    if len == 0 {
        0
    } else {
        let current = if selected <= len - 1 {
            selected
        } else {
            len - 1
        };
        if current + delta < 0 {
            0
        } else if current + delta > len - 1 {
            len - 1
        } else {
            current + delta
        }
    }
}

/// A selection among `len` rows moved by `delta`, kept among them.
pub fn step(selected: usize, delta: i32, len: usize) -> (r: usize)
    ensures
        r == moved(selected as int, delta as int, len as nat),
{
    if len == 0 {
        return 0;
    }
    let current: usize = if selected <= len - 1 {
        selected
    } else {
        len - 1
    };
    let to: i128 = current as i128 + delta as i128;
    if to < 0 {
        0
    } else if to > (len - 1) as i128 {
        len - 1
    } else {
        to as usize
    }
}

impl RefSelector {
    pub fn loading(
        repo_id: RepoId,
        repo_name: String,
        purpose: RefSelectorPurpose,
        current: RefSpec,
        request_id: RequestId,
    ) -> (r: Self)
        ensures
            r.deep_view() == SpecRefSelector::loading(
                repo_id,
                repo_name@,
                purpose,
                current.deep_view(),
                request_id,
            ),
    {
        let query = String::new();
        assert(query@ =~= Seq::empty());
        RefSelector {
            catalog: data::empty(),
            view: RefSelectorView {
                request_id,
                repo_id,
                repo_name,
                purpose,
                current,
                query,
                options: data::empty(),
                selected: 0,
                status: RefSelectorStatus::Loading,
            },
        }
    }

    /// The catalog arrived.
    pub fn install(&mut self, catalog: Vec<RefCandidate>)
        ensures
            final(self).deep_view() == old(self).deep_view().installed(catalog.deep_view()),
    {
        let mut catalog = catalog;
        let current = self.view.current.dup();
        let known = data::any(
            &catalog,
            |c: &RefCandidate| -> (b: bool)
                ensures
                    b == candidate_is(current.deep_view())(c.deep_view())
            { c.ref_spec.same(&current) },
            Ghost(candidate_is(current.deep_view())),
        );
        if !known {
            data::insert(&mut catalog, 0, RefCandidate { ref_spec: current, subject: None });
        }
        self.catalog = catalog;
        self.view.status = RefSelectorStatus::Ready;
        self.filter();
    }

    /// The user typed.
    pub fn query(&mut self, query: String)
        ensures
            final(self).deep_view() == old(self).deep_view().queried(query@),
    {
        self.view.query = query;
        self.filter();
    }

    /// Move the selection.
    pub fn step(&mut self, delta: i32)
        ensures
            final(self).deep_view() == old(self).deep_view().stepped(delta as int),
    {
        assert(self.view.options.deep_view().len() == self.view.options@.len());
        self.view.selected = step(self.view.selected, delta, self.view.options.len());
    }

    /// Whether a catalog answer is for this opening of the selector.
    pub fn matches_request(&self, repo_id: RepoId, request_id: RequestId) -> (b: bool)
        ensures
            b == (self.deep_view().view.repo_id == repo_id && self.deep_view().view.request_id == request_id),
    {
        self.view.repo_id == repo_id && self.view.request_id == request_id
    }

    pub fn selection_at(&self, index: usize) -> (r: Option<RefSelection>)
        ensures
            r.deep_view() == self.deep_view().selection_at(index as int),
    {
        assert(self.view.options.deep_view().len() == self.view.options@.len());
        if index >= self.view.options.len() {
            return None;
        }
        let r = &self.view.options[index].ref_spec;
        match self.view.purpose {
            RefSelectorPurpose::Browse => Some(RefSelection::Browse { ref_spec: r.dup() }),
            RefSelectorPurpose::Review { side } => match side {
                RefSelectorSide::Head => Some(
                    RefSelection::Review { revision: TargetRevision::Head { ref_spec: r.dup() } },
                ),
                RefSelectorSide::Base => match base_ref(r) {
                    Some(b) => Some(RefSelection::Review { revision: TargetRevision::Base { ref_spec: b } }),
                    None => None,
                },
            },
        }
    }

    fn searched(&self) -> (r: Vec<RefOption>)
        ensures
            r.deep_view() == self.deep_view().searched(),
    {
        let query = text::lowercase(text::trim(self.view.query.as_str()).as_str());
        self.matching(query.as_str())
    }

    /// The rows of the catalog that `query`, in lower case, asks for.
    pub fn matching(&self, query: &str) -> (r: Vec<RefOption>)
        ensures
            r.deep_view() == self.deep_view().matching(query@),
    {
        let purpose = self.view.purpose;
        let base = purpose == RefSelectorPurpose::Review { side: RefSelectorSide::Base };
        let rows = data::filtered(
            &self.catalog,
            |c: &RefCandidate| -> (b: bool)
                ensures
                    b == offered(purpose, query@)(c.deep_view())
            {
                let worktree = match c.ref_spec {
                    RefSpec::WorkingTree => true,
                    _ => false,
                };
                !(base && worktree) && (query.is_empty() || fuzzy_match(
                    text::lowercase(search_text(c).as_str()).as_str(),
                    query,
                ))
            },
            Ghost(offered(purpose, query@)),
        );
        let ghost me = self.deep_view();
        data::map(
            &rows,
            |c: &RefCandidate| -> (o: RefOption)
                ensures
                    o.deep_view() == me.option(c.deep_view().ref_spec, c.deep_view().subject)
            {
                RefOption {
                    ref_spec: c.ref_spec.dup(),
                    subject: c.subject.dup(),
                    current: c.ref_spec.same(&self.view.current),
                }
            },
            Ghost(|c: SpecRefCandidate| me.option(c.ref_spec, c.subject)),
        )
    }

    fn option(&self, ref_spec: RefSpec, subject: Option<String>) -> (r: RefOption)
        ensures
            r.deep_view() == self.deep_view().option(ref_spec.deep_view(), subject.deep_view()),
    {
        let current = ref_spec.same(&self.view.current);
        RefOption { ref_spec, subject, current }
    }

    fn browse_options(&self) -> (r: Vec<RefOption>)
        requires
            self.view.purpose == RefSelectorPurpose::Browse,
        ensures
            r.deep_view() == self.deep_view().options(),
    {
        match literal_query(self.view.query.as_str()) {
            LiteralQuery::Ref(r) => {
                let subject = match data::find(
                    &self.catalog,
                    |c: &RefCandidate| -> (b: bool)
                        ensures
                            b == candidate_is(r.deep_view())(c.deep_view())
                    { c.ref_spec.same(&r) },
                    Ghost(candidate_is(r.deep_view())),
                ) {
                    Some(c) => c.subject.dup(),
                    None => None,
                };
                data::one(self.option(r, subject))
            },
            LiteralQuery::Invalid => data::empty(),
            LiteralQuery::Search => {
                let mut options = self.searched();
                if let Some(r) = named_query(self.view.query.as_str()) {
                    let known = data::any(
                        &options,
                        |o: &RefOption| -> (b: bool)
                            ensures
                                b == option_is(r.deep_view())(o.deep_view())
                        { o.ref_spec.same(&r) },
                        Ghost(option_is(r.deep_view())),
                    );
                    if !known {
                        data::push(&mut options, self.option(r, Some("Resolve this revision".to_owned())));
                    }
                }
                options
            },
        }
    }

    fn filter(&mut self)
        ensures
            final(self).deep_view() == old(self).deep_view().filtered(),
    {
        let options = if self.view.purpose == RefSelectorPurpose::Browse {
            self.browse_options()
        } else {
            self.searched()
        };
        self.view.options = options;
        self.view.selected = 0;
    }
}

/// Without a query every row of the catalog is offered, but for the working
/// tree where a base is chosen.
pub proof fn an_empty_query_offers_the_whole_catalog(selector: SpecRefSelector)
    requires
        text::trimmed(selector.view.query).len() == 0,
        selector.view.purpose != (RefSelectorPurpose::Review { side: RefSelectorSide::Base }),
    ensures
        selector.searched() == selector.catalog.map_values(
            |c: SpecRefCandidate| selector.option(c.ref_spec, c.subject),
        ),
{
    let query = text::lowercased(text::trimmed(selector.view.query));
    assert(query.len() == 0);
    data::lemma_filter_keeps(selector.catalog, offered(selector.view.purpose, query));
}

} // verus!
