//! The vocabulary shared with the daemon: identities, git objects, reviews
//! and the messages of a connection. These are plain values; a host converts
//! them to and from its wire encoding.
//!
//! Every type that owns text or lists has a model (`Spec...`) in which text
//! is a sequence of characters and a list a sequence of models.
use vstd::prelude::*;

use crate::data::Value;
use crate::text;

verus! {

// ---- identities -----------------------------------------------------------

/// A repository of a workspace.
#[derive(Debug, Clone, Copy, PartialEq, Eq, Structural)]
pub struct RepoId(pub u128);

impl DeepView for RepoId {
    type V = RepoId;

    open spec fn deep_view(&self) -> RepoId {
        *self
    }
}

impl Value for RepoId {
    fn dup(&self) -> (r: Self) {
        *self
    }

    fn same(&self, other: &Self) -> (b: bool) {
        *self == *other
    }
}

/// A review.
#[derive(Debug, Clone, Copy, PartialEq, Eq, Structural)]
pub struct ReviewId(pub u128);

impl DeepView for ReviewId {
    type V = ReviewId;

    open spec fn deep_view(&self) -> ReviewId {
        *self
    }
}

impl Value for ReviewId {
    fn dup(&self) -> (r: Self) {
        *self
    }

    fn same(&self, other: &Self) -> (b: bool) {
        *self == *other
    }
}

/// A workspace: a set of repositories reviewed together.
#[derive(Debug, Clone, Copy, PartialEq, Eq, Structural)]
pub struct WorkspaceId(pub u128);

impl DeepView for WorkspaceId {
    type V = WorkspaceId;

    open spec fn deep_view(&self) -> WorkspaceId {
        *self
    }
}

impl Value for WorkspaceId {
    fn dup(&self) -> (r: Self) {
        *self
    }

    fn same(&self, other: &Self) -> (b: bool) {
        *self == *other
    }
}

/// A comment thread.
#[derive(Debug, Clone, Copy, PartialEq, Eq, Structural)]
pub struct ThreadId(pub u128);

impl DeepView for ThreadId {
    type V = ThreadId;

    open spec fn deep_view(&self) -> ThreadId {
        *self
    }
}

impl Value for ThreadId {
    fn dup(&self) -> (r: Self) {
        *self
    }

    fn same(&self, other: &Self) -> (b: bool) {
        *self == *other
    }
}

/// A comment.
#[derive(Debug, Clone, Copy, PartialEq, Eq, Structural)]
pub struct CommentId(pub u128);

impl DeepView for CommentId {
    type V = CommentId;

    open spec fn deep_view(&self) -> CommentId {
        *self
    }
}

impl Value for CommentId {
    fn dup(&self) -> (r: Self) {
        *self
    }

    fn same(&self, other: &Self) -> (b: bool) {
        *self == *other
    }
}

/// One client process.
#[derive(Debug, Clone, Copy, PartialEq, Eq, Structural)]
pub struct ClientId(pub u128);

impl DeepView for ClientId {
    type V = ClientId;

    open spec fn deep_view(&self) -> ClientId {
        *self
    }
}

impl Value for ClientId {
    fn dup(&self) -> (r: Self) {
        *self
    }

    fn same(&self, other: &Self) -> (b: bool) {
        *self == *other
    }
}

/// Correlates a request with its answer on one connection.
#[derive(Debug, Clone, Copy, PartialEq, Eq, Structural)]
pub struct RequestId(pub u64);

impl DeepView for RequestId {
    type V = RequestId;

    open spec fn deep_view(&self) -> RequestId {
        *self
    }
}

impl Value for RequestId {
    fn dup(&self) -> (r: Self) {
        *self
    }

    fn same(&self, other: &Self) -> (b: bool) {
        *self == *other
    }
}

/// Numbers one client's mutations.
#[derive(Debug, Clone, Copy, PartialEq, Eq, Structural)]
pub struct ClientSeq(pub u64);

impl DeepView for ClientSeq {
    type V = ClientSeq;

    open spec fn deep_view(&self) -> ClientSeq {
        *self
    }
}

impl Value for ClientSeq {
    fn dup(&self) -> (r: Self) {
        *self
    }

    fn same(&self, other: &Self) -> (b: bool) {
        *self == *other
    }
}

/// Position of a committed event in the daemon's log.
#[derive(Debug, Clone, Copy, PartialEq, Eq, Structural)]
pub struct EventSeq(pub u64);

impl DeepView for EventSeq {
    type V = EventSeq;

    open spec fn deep_view(&self) -> EventSeq {
        *self
    }
}

impl Value for EventSeq {
    fn dup(&self) -> (r: Self) {
        *self
    }

    fn same(&self, other: &Self) -> (b: bool) {
        *self == *other
    }
}

/// Unix time in milliseconds.
#[derive(Debug, Clone, Copy, PartialEq, Eq, Structural)]
pub struct Timestamp(pub i64);

impl DeepView for Timestamp {
    type V = Timestamp;

    open spec fn deep_view(&self) -> Timestamp {
        *self
    }
}

impl Value for Timestamp {
    fn dup(&self) -> (r: Self) {
        *self
    }

    fn same(&self, other: &Self) -> (b: bool) {
        *self == *other
    }
}

/// Position of a chunk within a rendered file.
#[derive(Debug, Clone, Copy, PartialEq, Eq, Structural)]
pub struct ChunkIndex(pub u32);

impl DeepView for ChunkIndex {
    type V = ChunkIndex;

    open spec fn deep_view(&self) -> ChunkIndex {
        *self
    }
}

impl Value for ChunkIndex {
    fn dup(&self) -> (r: Self) {
        *self
    }

    fn same(&self, other: &Self) -> (b: bool) {
        *self == *other
    }
}

/// Number of a hidden run of unchanged lines within a rendered file.
#[derive(Debug, Clone, Copy, PartialEq, Eq, Structural)]
pub struct Gap(pub u32);

impl DeepView for Gap {
    type V = Gap;

    open spec fn deep_view(&self) -> Gap {
        *self
    }
}

impl Value for Gap {
    fn dup(&self) -> (r: Self) {
        *self
    }

    fn same(&self, other: &Self) -> (b: bool) {
        *self == *other
    }
}

/// A review invitation, named by the event that made it.
#[derive(Debug, Clone, Copy, PartialEq, Eq, Structural)]
pub struct ReviewRequestId(pub EventSeq);

impl DeepView for ReviewRequestId {
    type V = ReviewRequestId;

    open spec fn deep_view(&self) -> ReviewRequestId {
        *self
    }
}

impl Value for ReviewRequestId {
    fn dup(&self) -> (r: Self) {
        *self
    }

    fn same(&self, other: &Self) -> (b: bool) {
        *self == *other
    }
}

/// A git tree object.
#[derive(Debug, Clone, Copy, PartialEq, Eq, Structural)]
pub struct TreeOid {
    pub high: u32,
    pub low: u128,
}

impl DeepView for TreeOid {
    type V = TreeOid;

    open spec fn deep_view(&self) -> TreeOid {
        *self
    }
}

impl Value for TreeOid {
    fn dup(&self) -> (r: Self) {
        *self
    }

    fn same(&self, other: &Self) -> (b: bool) {
        *self == *other
    }
}

/// A git blob object.
#[derive(Debug, Clone, Copy, PartialEq, Eq, Structural)]
pub struct BlobOid {
    pub high: u32,
    pub low: u128,
}

impl DeepView for BlobOid {
    type V = BlobOid;

    open spec fn deep_view(&self) -> BlobOid {
        *self
    }
}

impl Value for BlobOid {
    fn dup(&self) -> (r: Self) {
        *self
    }

    fn same(&self, other: &Self) -> (b: bool) {
        *self == *other
    }
}

/// A git commit object.
#[derive(Debug, Clone, Copy, PartialEq, Eq, Structural)]
pub struct CommitOid {
    pub high: u32,
    pub low: u128,
}

impl DeepView for CommitOid {
    type V = CommitOid;

    open spec fn deep_view(&self) -> CommitOid {
        *self
    }
}

impl Value for CommitOid {
    fn dup(&self) -> (r: Self) {
        *self
    }

    fn same(&self, other: &Self) -> (b: bool) {
        *self == *other
    }
}

/// Hash of the lines around an anchor.
#[derive(Debug, Clone, Copy, PartialEq, Eq, Structural)]
pub struct ContextHash(pub u64);

impl DeepView for ContextHash {
    type V = ContextHash;

    open spec fn deep_view(&self) -> ContextHash {
        *self
    }
}

impl Value for ContextHash {
    fn dup(&self) -> (r: Self) {
        *self
    }

    fn same(&self, other: &Self) -> (b: bool) {
        *self == *other
    }
}

/// A repository-relative path: non-empty components separated by `/`.
#[derive(Debug, PartialEq, Eq)]
pub struct RepoPath {
    pub text: String,
}

/// Model of [`RepoPath`].
#[verifier::ext_equal]
pub struct SpecRepoPath {
    pub text: Seq<char>,
}

impl DeepView for RepoPath {
    type V = SpecRepoPath;

    open spec fn deep_view(&self) -> SpecRepoPath {
        SpecRepoPath {
            text: self.text.deep_view(),
        }
    }
}

impl Value for RepoPath {
    fn dup(&self) -> (r: Self) {
        RepoPath {
            text: self.text.dup(),
        }
    }

    fn same(&self, other: &Self) -> (b: bool) {
        self.text.same(&other.text)
    }
}

/// A person.
#[derive(Debug, PartialEq, Eq)]
pub struct Human {
    pub name: String,
}

/// Model of [`Human`].
#[verifier::ext_equal]
pub struct SpecHuman {
    pub name: Seq<char>,
}

impl DeepView for Human {
    type V = SpecHuman;

    open spec fn deep_view(&self) -> SpecHuman {
        SpecHuman {
            name: self.name.deep_view(),
        }
    }
}

impl Value for Human {
    fn dup(&self) -> (r: Self) {
        Human {
            name: self.name.dup(),
        }
    }

    fn same(&self, other: &Self) -> (b: bool) {
        self.name.same(&other.name)
    }
}

/// Who wrote something.
#[derive(Debug, PartialEq, Eq)]
pub enum Author {
    Human { human: Human },
    Agent { name: String },
}

/// Model of [`Author`].
#[verifier::ext_equal]
pub enum SpecAuthor {
    Human { human: SpecHuman },
    Agent { name: Seq<char> },
}

impl DeepView for Author {
    type V = SpecAuthor;

    open spec fn deep_view(&self) -> SpecAuthor {
        match self {
            Author::Human { human } => SpecAuthor::Human {
                human: human.deep_view(),
            },
            Author::Agent { name } => SpecAuthor::Agent {
                name: name.deep_view(),
            },
        }
    }
}

impl Value for Author {
    fn dup(&self) -> (r: Self) {
        match self {
            Author::Human { human } => Author::Human {
                human: human.dup(),
            },
            Author::Agent { name } => Author::Agent {
                name: name.dup(),
            },
        }
    }

    fn same(&self, other: &Self) -> (b: bool) {
        match (self, other) {
            (Author::Human { human: a0 }, Author::Human { human: b0 }) => a0.same(b0),
            (Author::Agent { name: a0 }, Author::Agent { name: b0 }) => a0.same(b0),
            _ => false,
        }
    }
}

/// Build identification sent in the handshake.
#[derive(Debug, PartialEq, Eq)]
pub struct BuildInfo {
    pub version: String,
}

/// Model of [`BuildInfo`].
#[verifier::ext_equal]
pub struct SpecBuildInfo {
    pub version: Seq<char>,
}

impl DeepView for BuildInfo {
    type V = SpecBuildInfo;

    open spec fn deep_view(&self) -> SpecBuildInfo {
        SpecBuildInfo {
            version: self.version.deep_view(),
        }
    }
}

impl Value for BuildInfo {
    fn dup(&self) -> (r: Self) {
        BuildInfo {
            version: self.version.dup(),
        }
    }

    fn same(&self, other: &Self) -> (b: bool) {
        self.version.same(&other.version)
    }
}


// ---- git ------------------------------------------------------------------

/// One half of a diff.
#[derive(Debug, Clone, Copy, PartialEq, Eq, Structural)]
pub enum Side {
    Base,
    Head,
}

impl DeepView for Side {
    type V = Side;

    open spec fn deep_view(&self) -> Side {
        *self
    }
}

impl Value for Side {
    fn dup(&self) -> (r: Self) {
        *self
    }

    fn same(&self, other: &Self) -> (b: bool) {
        *self == *other
    }
}

/// How a file differs between base and head.
#[derive(Debug, PartialEq, Eq)]
pub enum ChangeKind {
    Added { new: BlobOid },
    Deleted { old: BlobOid },
    Modified { old: BlobOid, new: BlobOid },
    Renamed { from: RepoPath, old: BlobOid, new: BlobOid },
}

/// Model of [`ChangeKind`].
#[verifier::ext_equal]
pub enum SpecChangeKind {
    Added { new: BlobOid },
    Deleted { old: BlobOid },
    Modified { old: BlobOid, new: BlobOid },
    Renamed { from: SpecRepoPath, old: BlobOid, new: BlobOid },
}

impl DeepView for ChangeKind {
    type V = SpecChangeKind;

    open spec fn deep_view(&self) -> SpecChangeKind {
        match self {
            ChangeKind::Added { new } => SpecChangeKind::Added {
                new: *new,
            },
            ChangeKind::Deleted { old } => SpecChangeKind::Deleted {
                old: *old,
            },
            ChangeKind::Modified { old, new } => SpecChangeKind::Modified {
                old: *old,
                new: *new,
            },
            ChangeKind::Renamed { from, old, new } => SpecChangeKind::Renamed {
                from: from.deep_view(),
                old: *old,
                new: *new,
            },
        }
    }
}

impl Value for ChangeKind {
    fn dup(&self) -> (r: Self) {
        match self {
            ChangeKind::Added { new } => ChangeKind::Added {
                new: *new,
            },
            ChangeKind::Deleted { old } => ChangeKind::Deleted {
                old: *old,
            },
            ChangeKind::Modified { old, new } => ChangeKind::Modified {
                old: *old,
                new: *new,
            },
            ChangeKind::Renamed { from, old, new } => ChangeKind::Renamed {
                from: from.dup(),
                old: *old,
                new: *new,
            },
        }
    }

    fn same(&self, other: &Self) -> (b: bool) {
        match (self, other) {
            (ChangeKind::Added { new: a0 }, ChangeKind::Added { new: b0 }) => *a0 == *b0,
            (ChangeKind::Deleted { old: a0 }, ChangeKind::Deleted { old: b0 }) => *a0 == *b0,
            (ChangeKind::Modified { old: a0, new: a1 }, ChangeKind::Modified { old: b0, new: b1 }) => *a0 == *b0 && *a1 == *b1,
            (ChangeKind::Renamed { from: a0, old: a1, new: a2 }, ChangeKind::Renamed { from: b0, old: b1, new: b2 }) => a0.same(b0) && *a1 == *b1 && *a2 == *b2,
            _ => false,
        }
    }
}

/// The variant of a [`ChangeKind`].
#[derive(Debug, Clone, Copy, PartialEq, Eq, Structural)]
pub enum ChangeKindKind {
    Added,
    Deleted,
    Modified,
    Renamed,
}

impl DeepView for ChangeKindKind {
    type V = ChangeKindKind;

    open spec fn deep_view(&self) -> ChangeKindKind {
        *self
    }
}

impl Value for ChangeKindKind {
    fn dup(&self) -> (r: Self) {
        *self
    }

    fn same(&self, other: &Self) -> (b: bool) {
        *self == *other
    }
}

/// What a viewer saw of a file at its head.
#[derive(Debug, Clone, Copy, PartialEq, Eq, Structural)]
pub enum ViewedContent {
    Blob { oid: BlobOid },
    /// The file no longer exists at head.
    Gone,
}

impl DeepView for ViewedContent {
    type V = ViewedContent;

    open spec fn deep_view(&self) -> ViewedContent {
        *self
    }
}

impl Value for ViewedContent {
    fn dup(&self) -> (r: Self) {
        *self
    }

    fn same(&self, other: &Self) -> (b: bool) {
        *self == *other
    }
}

/// A revision as the user names it.
#[derive(Debug, PartialEq, Eq)]
pub enum RefSpec {
    Branch { name: String },
    Commit { oid: CommitOid },
    Tag { name: String },
    Revision { expression: String },
    WorkingTree,
    Upstream,
    Head,
}

/// Model of [`RefSpec`].
#[verifier::ext_equal]
pub enum SpecRefSpec {
    Branch { name: Seq<char> },
    Commit { oid: CommitOid },
    Tag { name: Seq<char> },
    Revision { expression: Seq<char> },
    WorkingTree,
    Upstream,
    Head,
}

impl DeepView for RefSpec {
    type V = SpecRefSpec;

    open spec fn deep_view(&self) -> SpecRefSpec {
        match self {
            RefSpec::Branch { name } => SpecRefSpec::Branch {
                name: name.deep_view(),
            },
            RefSpec::Commit { oid } => SpecRefSpec::Commit {
                oid: *oid,
            },
            RefSpec::Tag { name } => SpecRefSpec::Tag {
                name: name.deep_view(),
            },
            RefSpec::Revision { expression } => SpecRefSpec::Revision {
                expression: expression.deep_view(),
            },
            RefSpec::WorkingTree => SpecRefSpec::WorkingTree,
            RefSpec::Upstream => SpecRefSpec::Upstream,
            RefSpec::Head => SpecRefSpec::Head,
        }
    }
}

impl Value for RefSpec {
    fn dup(&self) -> (r: Self) {
        match self {
            RefSpec::Branch { name } => RefSpec::Branch {
                name: name.dup(),
            },
            RefSpec::Commit { oid } => RefSpec::Commit {
                oid: *oid,
            },
            RefSpec::Tag { name } => RefSpec::Tag {
                name: name.dup(),
            },
            RefSpec::Revision { expression } => RefSpec::Revision {
                expression: expression.dup(),
            },
            RefSpec::WorkingTree => RefSpec::WorkingTree,
            RefSpec::Upstream => RefSpec::Upstream,
            RefSpec::Head => RefSpec::Head,
        }
    }

    fn same(&self, other: &Self) -> (b: bool) {
        match (self, other) {
            (RefSpec::Branch { name: a0 }, RefSpec::Branch { name: b0 }) => a0.same(b0),
            (RefSpec::Commit { oid: a0 }, RefSpec::Commit { oid: b0 }) => *a0 == *b0,
            (RefSpec::Tag { name: a0 }, RefSpec::Tag { name: b0 }) => a0.same(b0),
            (RefSpec::Revision { expression: a0 }, RefSpec::Revision { expression: b0 }) => a0.same(b0),
            (RefSpec::WorkingTree, RefSpec::WorkingTree) => true,
            (RefSpec::Upstream, RefSpec::Upstream) => true,
            (RefSpec::Head, RefSpec::Head) => true,
            _ => false,
        }
    }
}

/// A revision that can be the base of a diff: anything but the working tree.
#[derive(Debug, PartialEq, Eq)]
pub enum BaseRefSpec {
    Branch { name: String },
    Commit { oid: CommitOid },
    Tag { name: String },
    Revision { expression: String },
    Upstream,
    Head,
}

/// Model of [`BaseRefSpec`].
#[verifier::ext_equal]
pub enum SpecBaseRefSpec {
    Branch { name: Seq<char> },
    Commit { oid: CommitOid },
    Tag { name: Seq<char> },
    Revision { expression: Seq<char> },
    Upstream,
    Head,
}

impl DeepView for BaseRefSpec {
    type V = SpecBaseRefSpec;

    open spec fn deep_view(&self) -> SpecBaseRefSpec {
        match self {
            BaseRefSpec::Branch { name } => SpecBaseRefSpec::Branch {
                name: name.deep_view(),
            },
            BaseRefSpec::Commit { oid } => SpecBaseRefSpec::Commit {
                oid: *oid,
            },
            BaseRefSpec::Tag { name } => SpecBaseRefSpec::Tag {
                name: name.deep_view(),
            },
            BaseRefSpec::Revision { expression } => SpecBaseRefSpec::Revision {
                expression: expression.deep_view(),
            },
            BaseRefSpec::Upstream => SpecBaseRefSpec::Upstream,
            BaseRefSpec::Head => SpecBaseRefSpec::Head,
        }
    }
}

impl Value for BaseRefSpec {
    fn dup(&self) -> (r: Self) {
        match self {
            BaseRefSpec::Branch { name } => BaseRefSpec::Branch {
                name: name.dup(),
            },
            BaseRefSpec::Commit { oid } => BaseRefSpec::Commit {
                oid: *oid,
            },
            BaseRefSpec::Tag { name } => BaseRefSpec::Tag {
                name: name.dup(),
            },
            BaseRefSpec::Revision { expression } => BaseRefSpec::Revision {
                expression: expression.dup(),
            },
            BaseRefSpec::Upstream => BaseRefSpec::Upstream,
            BaseRefSpec::Head => BaseRefSpec::Head,
        }
    }

    fn same(&self, other: &Self) -> (b: bool) {
        match (self, other) {
            (BaseRefSpec::Branch { name: a0 }, BaseRefSpec::Branch { name: b0 }) => a0.same(b0),
            (BaseRefSpec::Commit { oid: a0 }, BaseRefSpec::Commit { oid: b0 }) => *a0 == *b0,
            (BaseRefSpec::Tag { name: a0 }, BaseRefSpec::Tag { name: b0 }) => a0.same(b0),
            (BaseRefSpec::Revision { expression: a0 }, BaseRefSpec::Revision { expression: b0 }) => a0.same(b0),
            (BaseRefSpec::Upstream, BaseRefSpec::Upstream) => true,
            (BaseRefSpec::Head, BaseRefSpec::Head) => true,
            _ => false,
        }
    }
}

/// Where a resolved revision's content comes from.
#[derive(Debug, Clone, Copy, PartialEq, Eq, Structural)]
pub enum ResolvedSource {
    Commit { oid: CommitOid },
    WorkingTree,
}

impl DeepView for ResolvedSource {
    type V = ResolvedSource;

    open spec fn deep_view(&self) -> ResolvedSource {
        *self
    }
}

impl Value for ResolvedSource {
    fn dup(&self) -> (r: Self) {
        *self
    }

    fn same(&self, other: &Self) -> (b: bool) {
        *self == *other
    }
}

/// A revision resolved to a tree.
#[derive(Debug, Clone, Copy, PartialEq, Eq, Structural)]
pub struct ResolvedRef {
    pub source: ResolvedSource,
    pub tree: TreeOid,
}

impl DeepView for ResolvedRef {
    type V = ResolvedRef;

    open spec fn deep_view(&self) -> ResolvedRef {
        *self
    }
}

impl Value for ResolvedRef {
    fn dup(&self) -> (r: Self) {
        *self
    }

    fn same(&self, other: &Self) -> (b: bool) {
        *self == *other
    }
}

/// Both ends of one repository's diff, resolved.
#[derive(Debug, Clone, Copy, PartialEq, Eq, Structural)]
pub struct ResolvedTarget {
    pub repo_id: RepoId,
    pub base: ResolvedRef,
    pub head: ResolvedRef,
}

impl DeepView for ResolvedTarget {
    type V = ResolvedTarget;

    open spec fn deep_view(&self) -> ResolvedTarget {
        *self
    }
}

impl Value for ResolvedTarget {
    fn dup(&self) -> (r: Self) {
        *self
    }

    fn same(&self, other: &Self) -> (b: bool) {
        *self == *other
    }
}

/// Which diff of a review is meant.
#[derive(Debug, Clone, Copy, PartialEq, Eq, Structural)]
pub enum DiffScope {
    All,
    Committed,
    Commit { repo_id: RepoId, oid: CommitOid },
    Worktree { repo_id: RepoId },
    Requested { request: ReviewRequestId },
    SinceCheckpoint { seq: EventSeq },
}

impl DeepView for DiffScope {
    type V = DiffScope;

    open spec fn deep_view(&self) -> DiffScope {
        *self
    }
}

impl Value for DiffScope {
    fn dup(&self) -> (r: Self) {
        *self
    }

    fn same(&self, other: &Self) -> (b: bool) {
        *self == *other
    }
}

/// What a tree entry is.
#[derive(Debug, Clone, Copy, PartialEq, Eq, Structural)]
pub enum TreeEntryKind {
    File { oid: BlobOid, size: u64, executable: bool },
    Symlink { oid: BlobOid },
    Dir { oid: TreeOid },
    Submodule { oid: CommitOid },
}

impl DeepView for TreeEntryKind {
    type V = TreeEntryKind;

    open spec fn deep_view(&self) -> TreeEntryKind {
        *self
    }
}

impl Value for TreeEntryKind {
    fn dup(&self) -> (r: Self) {
        *self
    }

    fn same(&self, other: &Self) -> (b: bool) {
        *self == *other
    }
}

/// One path of a tree.
#[derive(Debug, PartialEq, Eq)]
pub struct TreeEntry {
    pub path: RepoPath,
    pub kind: TreeEntryKind,
}

/// Model of [`TreeEntry`].
#[verifier::ext_equal]
pub struct SpecTreeEntry {
    pub path: SpecRepoPath,
    pub kind: TreeEntryKind,
}

impl DeepView for TreeEntry {
    type V = SpecTreeEntry;

    open spec fn deep_view(&self) -> SpecTreeEntry {
        SpecTreeEntry {
            path: self.path.deep_view(),
            kind: self.kind,
        }
    }
}

impl Value for TreeEntry {
    fn dup(&self) -> (r: Self) {
        TreeEntry {
            path: self.path.dup(),
            kind: self.kind,
        }
    }

    fn same(&self, other: &Self) -> (b: bool) {
        self.path.same(&other.path)
            && self.kind == other.kind
    }
}

/// Every path of one tree of a repository.
#[derive(Debug, PartialEq, Eq)]
pub struct TreeSnapshot {
    pub repo_id: RepoId,
    pub root_oid: TreeOid,
    pub entries: Vec<TreeEntry>,
}

/// Model of [`TreeSnapshot`].
#[verifier::ext_equal]
pub struct SpecTreeSnapshot {
    pub repo_id: RepoId,
    pub root_oid: TreeOid,
    pub entries: Seq<SpecTreeEntry>,
}

impl DeepView for TreeSnapshot {
    type V = SpecTreeSnapshot;

    open spec fn deep_view(&self) -> SpecTreeSnapshot {
        SpecTreeSnapshot {
            repo_id: self.repo_id,
            root_oid: self.root_oid,
            entries: self.entries.deep_view(),
        }
    }
}

impl Value for TreeSnapshot {
    fn dup(&self) -> (r: Self) {
        TreeSnapshot {
            repo_id: self.repo_id,
            root_oid: self.root_oid,
            entries: self.entries.dup(),
        }
    }

    fn same(&self, other: &Self) -> (b: bool) {
        self.repo_id == other.repo_id
            && self.root_oid == other.root_oid
            && self.entries.same(&other.entries)
    }
}

/// What changed between two trees of a repository.
#[derive(Debug, PartialEq, Eq)]
pub struct TreeDelta {
    pub repo_id: RepoId,
    pub from_root: TreeOid,
    pub to_root: TreeOid,
    pub added: Vec<TreeEntry>,
    pub removed: Vec<RepoPath>,
    pub changed: Vec<TreeEntry>,
}

/// Model of [`TreeDelta`].
#[verifier::ext_equal]
pub struct SpecTreeDelta {
    pub repo_id: RepoId,
    pub from_root: TreeOid,
    pub to_root: TreeOid,
    pub added: Seq<SpecTreeEntry>,
    pub removed: Seq<SpecRepoPath>,
    pub changed: Seq<SpecTreeEntry>,
}

impl DeepView for TreeDelta {
    type V = SpecTreeDelta;

    open spec fn deep_view(&self) -> SpecTreeDelta {
        SpecTreeDelta {
            repo_id: self.repo_id,
            from_root: self.from_root,
            to_root: self.to_root,
            added: self.added.deep_view(),
            removed: self.removed.deep_view(),
            changed: self.changed.deep_view(),
        }
    }
}

impl Value for TreeDelta {
    fn dup(&self) -> (r: Self) {
        TreeDelta {
            repo_id: self.repo_id,
            from_root: self.from_root,
            to_root: self.to_root,
            added: self.added.dup(),
            removed: self.removed.dup(),
            changed: self.changed.dup(),
        }
    }

    fn same(&self, other: &Self) -> (b: bool) {
        self.repo_id == other.repo_id
            && self.from_root == other.from_root
            && self.to_root == other.to_root
            && self.added.same(&other.added)
            && self.removed.same(&other.removed)
            && self.changed.same(&other.changed)
    }
}

/// One changed file of a review.
#[derive(Debug, PartialEq, Eq)]
pub struct FileChange {
    pub repo_id: RepoId,
    pub path: RepoPath,
    pub kind: ChangeKind,
}

/// Model of [`FileChange`].
#[verifier::ext_equal]
pub struct SpecFileChange {
    pub repo_id: RepoId,
    pub path: SpecRepoPath,
    pub kind: SpecChangeKind,
}

impl DeepView for FileChange {
    type V = SpecFileChange;

    open spec fn deep_view(&self) -> SpecFileChange {
        SpecFileChange {
            repo_id: self.repo_id,
            path: self.path.deep_view(),
            kind: self.kind.deep_view(),
        }
    }
}

impl Value for FileChange {
    fn dup(&self) -> (r: Self) {
        FileChange {
            repo_id: self.repo_id,
            path: self.path.dup(),
            kind: self.kind.dup(),
        }
    }

    fn same(&self, other: &Self) -> (b: bool) {
        self.repo_id == other.repo_id
            && self.path.same(&other.path)
            && self.kind.same(&other.kind)
    }
}

/// Author or committer of a commit.
#[derive(Debug, PartialEq, Eq)]
pub struct Signature {
    pub name: String,
    pub time: Timestamp,
}

/// Model of [`Signature`].
#[verifier::ext_equal]
pub struct SpecSignature {
    pub name: Seq<char>,
    pub time: Timestamp,
}

impl DeepView for Signature {
    type V = SpecSignature;

    open spec fn deep_view(&self) -> SpecSignature {
        SpecSignature {
            name: self.name.deep_view(),
            time: self.time,
        }
    }
}

impl Value for Signature {
    fn dup(&self) -> (r: Self) {
        Signature {
            name: self.name.dup(),
            time: self.time,
        }
    }

    fn same(&self, other: &Self) -> (b: bool) {
        self.name.same(&other.name)
            && self.time == other.time
    }
}

/// A commit as the daemon lists it.
#[derive(Debug, PartialEq, Eq)]
pub struct CommitInfo {
    pub oid: CommitOid,
    pub parents: Vec<CommitOid>,
    pub subject: String,
    pub body: String,
    pub author: Signature,
    pub committer: Signature,
}

/// Model of [`CommitInfo`].
#[verifier::ext_equal]
pub struct SpecCommitInfo {
    pub oid: CommitOid,
    pub parents: Seq<CommitOid>,
    pub subject: Seq<char>,
    pub body: Seq<char>,
    pub author: SpecSignature,
    pub committer: SpecSignature,
}

impl DeepView for CommitInfo {
    type V = SpecCommitInfo;

    open spec fn deep_view(&self) -> SpecCommitInfo {
        SpecCommitInfo {
            oid: self.oid,
            parents: self.parents.deep_view(),
            subject: self.subject.deep_view(),
            body: self.body.deep_view(),
            author: self.author.deep_view(),
            committer: self.committer.deep_view(),
        }
    }
}

impl Value for CommitInfo {
    fn dup(&self) -> (r: Self) {
        CommitInfo {
            oid: self.oid,
            parents: self.parents.dup(),
            subject: self.subject.dup(),
            body: self.body.dup(),
            author: self.author.dup(),
            committer: self.committer.dup(),
        }
    }

    fn same(&self, other: &Self) -> (b: bool) {
        self.oid == other.oid
            && self.parents.same(&other.parents)
            && self.subject.same(&other.subject)
            && self.body.same(&other.body)
            && self.author.same(&other.author)
            && self.committer.same(&other.committer)
    }
}

/// A revision the daemon offers for selection.
#[derive(Debug, PartialEq, Eq)]
pub struct RefCandidate {
    pub ref_spec: RefSpec,
    pub subject: Option<String>,
}

/// Model of [`RefCandidate`].
#[verifier::ext_equal]
pub struct SpecRefCandidate {
    pub ref_spec: SpecRefSpec,
    pub subject: Option<Seq<char>>,
}

impl DeepView for RefCandidate {
    type V = SpecRefCandidate;

    open spec fn deep_view(&self) -> SpecRefCandidate {
        SpecRefCandidate {
            ref_spec: self.ref_spec.deep_view(),
            subject: self.subject.deep_view(),
        }
    }
}

impl Value for RefCandidate {
    fn dup(&self) -> (r: Self) {
        RefCandidate {
            ref_spec: self.ref_spec.dup(),
            subject: self.subject.dup(),
        }
    }

    fn same(&self, other: &Self) -> (b: bool) {
        self.ref_spec.same(&other.ref_spec)
            && self.subject.same(&other.subject)
    }
}


// ---- rendering ------------------------------------------------------------

/// Which way a gap is opened.
#[derive(Debug, Clone, Copy, PartialEq, Eq, Structural)]
pub enum ExpandDir {
    Up,
    Down,
}

impl DeepView for ExpandDir {
    type V = ExpandDir;

    open spec fn deep_view(&self) -> ExpandDir {
        *self
    }
}

impl Value for ExpandDir {
    fn dup(&self) -> (r: Self) {
        *self
    }

    fn same(&self, other: &Self) -> (b: bool) {
        *self == *other
    }
}

/// How many lines of one gap are shown from each end.
#[derive(Debug, Clone, Copy, PartialEq, Eq, Structural)]
pub struct Expansion {
    pub gap: Gap,
    pub up: u32,
    pub down: u32,
}

impl DeepView for Expansion {
    type V = Expansion;

    open spec fn deep_view(&self) -> Expansion {
        *self
    }
}

impl Value for Expansion {
    fn dup(&self) -> (r: Self) {
        *self
    }

    fn same(&self, other: &Self) -> (b: bool) {
        *self == *other
    }
}

/// The opened gaps of one file.
#[derive(Debug, PartialEq, Eq)]
pub struct Expansions {
    pub open: Vec<Expansion>,
}

/// Model of [`Expansions`].
#[verifier::ext_equal]
pub struct SpecExpansions {
    pub open: Seq<Expansion>,
}

impl DeepView for Expansions {
    type V = SpecExpansions;

    open spec fn deep_view(&self) -> SpecExpansions {
        SpecExpansions {
            open: self.open.deep_view(),
        }
    }
}

impl Value for Expansions {
    fn dup(&self) -> (r: Self) {
        Expansions {
            open: self.open.dup(),
        }
    }

    fn same(&self, other: &Self) -> (b: bool) {
        self.open.same(&other.open)
    }
}

/// Options a render was asked for with.
#[derive(Debug, PartialEq, Eq)]
pub struct RenderOpts {
    pub ignore_whitespace: bool,
    pub context_lines: u32,
    pub expanded: Expansions,
}

/// Model of [`RenderOpts`].
#[verifier::ext_equal]
pub struct SpecRenderOpts {
    pub ignore_whitespace: bool,
    pub context_lines: u32,
    pub expanded: SpecExpansions,
}

impl DeepView for RenderOpts {
    type V = SpecRenderOpts;

    open spec fn deep_view(&self) -> SpecRenderOpts {
        SpecRenderOpts {
            ignore_whitespace: self.ignore_whitespace,
            context_lines: self.context_lines,
            expanded: self.expanded.deep_view(),
        }
    }
}

impl Value for RenderOpts {
    fn dup(&self) -> (r: Self) {
        RenderOpts {
            ignore_whitespace: self.ignore_whitespace,
            context_lines: self.context_lines,
            expanded: self.expanded.dup(),
        }
    }

    fn same(&self, other: &Self) -> (b: bool) {
        self.ignore_whitespace == other.ignore_whitespace
            && self.context_lines == other.context_lines
            && self.expanded.same(&other.expanded)
    }
}

/// What is rendered: a change, or one blob as it is.
#[derive(Debug, PartialEq, Eq)]
pub enum RenderTarget {
    Diff { change: ChangeKind },
    Blob { oid: BlobOid },
}

/// Model of [`RenderTarget`].
#[verifier::ext_equal]
pub enum SpecRenderTarget {
    Diff { change: SpecChangeKind },
    Blob { oid: BlobOid },
}

impl DeepView for RenderTarget {
    type V = SpecRenderTarget;

    open spec fn deep_view(&self) -> SpecRenderTarget {
        match self {
            RenderTarget::Diff { change } => SpecRenderTarget::Diff {
                change: change.deep_view(),
            },
            RenderTarget::Blob { oid } => SpecRenderTarget::Blob {
                oid: *oid,
            },
        }
    }
}

impl Value for RenderTarget {
    fn dup(&self) -> (r: Self) {
        match self {
            RenderTarget::Diff { change } => RenderTarget::Diff {
                change: change.dup(),
            },
            RenderTarget::Blob { oid } => RenderTarget::Blob {
                oid: *oid,
            },
        }
    }

    fn same(&self, other: &Self) -> (b: bool) {
        match (self, other) {
            (RenderTarget::Diff { change: a0 }, RenderTarget::Diff { change: b0 }) => a0.same(b0),
            (RenderTarget::Blob { oid: a0 }, RenderTarget::Blob { oid: b0 }) => *a0 == *b0,
            _ => false,
        }
    }
}

/// The hidden runs of a rendered file, as the daemon wrote them. They are
/// handed on as they came.
#[derive(Debug, PartialEq, Eq)]
pub struct GapTable {
    pub json: String,
}

/// Model of [`GapTable`].
#[verifier::ext_equal]
pub struct SpecGapTable {
    pub json: Seq<char>,
}

impl DeepView for GapTable {
    type V = SpecGapTable;

    open spec fn deep_view(&self) -> SpecGapTable {
        SpecGapTable {
            json: self.json.deep_view(),
        }
    }
}

impl Value for GapTable {
    fn dup(&self) -> (r: Self) {
        GapTable {
            json: self.json.dup(),
        }
    }

    fn same(&self, other: &Self) -> (b: bool) {
        self.json.same(&other.json)
    }
}

/// Shape of a rendered file.
#[derive(Debug, PartialEq, Eq)]
pub enum RenderContent {
    Text {
        total_rows: u32,
        chunk_rows: u32,
        chunk_count: u32,
        highlighted: bool,
        additions: u32,
        deletions: u32,
        gaps: GapTable,
    },
    Binary,
}

/// Model of [`RenderContent`].
#[verifier::ext_equal]
pub enum SpecRenderContent {
    Text { total_rows: u32, chunk_rows: u32, chunk_count: u32, highlighted: bool, additions: u32, deletions: u32, gaps: SpecGapTable },
    Binary,
}

impl DeepView for RenderContent {
    type V = SpecRenderContent;

    open spec fn deep_view(&self) -> SpecRenderContent {
        match self {
            RenderContent::Text { total_rows, chunk_rows, chunk_count, highlighted, additions, deletions, gaps } => SpecRenderContent::Text {
                total_rows: *total_rows,
                chunk_rows: *chunk_rows,
                chunk_count: *chunk_count,
                highlighted: *highlighted,
                additions: *additions,
                deletions: *deletions,
                gaps: gaps.deep_view(),
            },
            RenderContent::Binary => SpecRenderContent::Binary,
        }
    }
}

impl Value for RenderContent {
    fn dup(&self) -> (r: Self) {
        match self {
            RenderContent::Text { total_rows, chunk_rows, chunk_count, highlighted, additions, deletions, gaps } => RenderContent::Text {
                total_rows: *total_rows,
                chunk_rows: *chunk_rows,
                chunk_count: *chunk_count,
                highlighted: *highlighted,
                additions: *additions,
                deletions: *deletions,
                gaps: gaps.dup(),
            },
            RenderContent::Binary => RenderContent::Binary,
        }
    }

    fn same(&self, other: &Self) -> (b: bool) {
        match (self, other) {
            (RenderContent::Text { total_rows: a0, chunk_rows: a1, chunk_count: a2, highlighted: a3, additions: a4, deletions: a5, gaps: a6 }, RenderContent::Text { total_rows: b0, chunk_rows: b1, chunk_count: b2, highlighted: b3, additions: b4, deletions: b5, gaps: b6 }) => *a0 == *b0 && *a1 == *b1 && *a2 == *b2 && *a3 == *b3 && *a4 == *b4 && *a5 == *b5 && a6.same(b6),
            (RenderContent::Binary, RenderContent::Binary) => true,
            _ => false,
        }
    }
}

/// Everything about a rendered file but its rows.
#[derive(Debug, PartialEq, Eq)]
pub struct FileRenderHeader {
    pub repo_id: RepoId,
    pub path: RepoPath,
    pub target: RenderTarget,
    pub opts: RenderOpts,
    pub lang: Option<String>,
    pub content: RenderContent,
}

/// Model of [`FileRenderHeader`].
#[verifier::ext_equal]
pub struct SpecFileRenderHeader {
    pub repo_id: RepoId,
    pub path: SpecRepoPath,
    pub target: SpecRenderTarget,
    pub opts: SpecRenderOpts,
    pub lang: Option<Seq<char>>,
    pub content: SpecRenderContent,
}

impl DeepView for FileRenderHeader {
    type V = SpecFileRenderHeader;

    open spec fn deep_view(&self) -> SpecFileRenderHeader {
        SpecFileRenderHeader {
            repo_id: self.repo_id,
            path: self.path.deep_view(),
            target: self.target.deep_view(),
            opts: self.opts.deep_view(),
            lang: self.lang.deep_view(),
            content: self.content.deep_view(),
        }
    }
}

impl Value for FileRenderHeader {
    fn dup(&self) -> (r: Self) {
        FileRenderHeader {
            repo_id: self.repo_id,
            path: self.path.dup(),
            target: self.target.dup(),
            opts: self.opts.dup(),
            lang: self.lang.dup(),
            content: self.content.dup(),
        }
    }

    fn same(&self, other: &Self) -> (b: bool) {
        self.repo_id == other.repo_id
            && self.path.same(&other.path)
            && self.target.same(&other.target)
            && self.opts.same(&other.opts)
            && self.lang.same(&other.lang)
            && self.content.same(&other.content)
    }
}

/// One line on one side of a row.
#[derive(Debug, PartialEq, Eq)]
pub struct Cell {
    pub line_no: u32,
    pub text: String,
}

/// Model of [`Cell`].
#[verifier::ext_equal]
pub struct SpecCell {
    pub line_no: u32,
    pub text: Seq<char>,
}

impl DeepView for Cell {
    type V = SpecCell;

    open spec fn deep_view(&self) -> SpecCell {
        SpecCell {
            line_no: self.line_no,
            text: self.text.deep_view(),
        }
    }
}

impl Value for Cell {
    fn dup(&self) -> (r: Self) {
        Cell {
            line_no: self.line_no,
            text: self.text.dup(),
        }
    }

    fn same(&self, other: &Self) -> (b: bool) {
        self.line_no == other.line_no
            && self.text.same(&other.text)
    }
}

/// One row of a rendered file.
#[derive(Debug, PartialEq, Eq)]
pub enum Row {
    Context { left: Cell, right: Cell },
    Modified { left: Cell, right: Cell },
    Removed { left: Cell },
    Added { right: Cell },
    HunkHeader { text: String },
    Expander { gap: Gap },
    WhitespaceOnly,
}

/// Model of [`Row`].
#[verifier::ext_equal]
pub enum SpecRow {
    Context { left: SpecCell, right: SpecCell },
    Modified { left: SpecCell, right: SpecCell },
    Removed { left: SpecCell },
    Added { right: SpecCell },
    HunkHeader { text: Seq<char> },
    Expander { gap: Gap },
    WhitespaceOnly,
}

impl DeepView for Row {
    type V = SpecRow;

    open spec fn deep_view(&self) -> SpecRow {
        match self {
            Row::Context { left, right } => SpecRow::Context {
                left: left.deep_view(),
                right: right.deep_view(),
            },
            Row::Modified { left, right } => SpecRow::Modified {
                left: left.deep_view(),
                right: right.deep_view(),
            },
            Row::Removed { left } => SpecRow::Removed {
                left: left.deep_view(),
            },
            Row::Added { right } => SpecRow::Added {
                right: right.deep_view(),
            },
            Row::HunkHeader { text } => SpecRow::HunkHeader {
                text: text.deep_view(),
            },
            Row::Expander { gap } => SpecRow::Expander {
                gap: *gap,
            },
            Row::WhitespaceOnly => SpecRow::WhitespaceOnly,
        }
    }
}

impl Value for Row {
    fn dup(&self) -> (r: Self) {
        match self {
            Row::Context { left, right } => Row::Context {
                left: left.dup(),
                right: right.dup(),
            },
            Row::Modified { left, right } => Row::Modified {
                left: left.dup(),
                right: right.dup(),
            },
            Row::Removed { left } => Row::Removed {
                left: left.dup(),
            },
            Row::Added { right } => Row::Added {
                right: right.dup(),
            },
            Row::HunkHeader { text } => Row::HunkHeader {
                text: text.dup(),
            },
            Row::Expander { gap } => Row::Expander {
                gap: *gap,
            },
            Row::WhitespaceOnly => Row::WhitespaceOnly,
        }
    }

    fn same(&self, other: &Self) -> (b: bool) {
        match (self, other) {
            (Row::Context { left: a0, right: a1 }, Row::Context { left: b0, right: b1 }) => a0.same(b0) && a1.same(b1),
            (Row::Modified { left: a0, right: a1 }, Row::Modified { left: b0, right: b1 }) => a0.same(b0) && a1.same(b1),
            (Row::Removed { left: a0 }, Row::Removed { left: b0 }) => a0.same(b0),
            (Row::Added { right: a0 }, Row::Added { right: b0 }) => a0.same(b0),
            (Row::HunkHeader { text: a0 }, Row::HunkHeader { text: b0 }) => a0.same(b0),
            (Row::Expander { gap: a0 }, Row::Expander { gap: b0 }) => *a0 == *b0,
            (Row::WhitespaceOnly, Row::WhitespaceOnly) => true,
            _ => false,
        }
    }
}

/// Consecutive rows of a rendered file.
#[derive(Debug, PartialEq, Eq)]
pub struct RenderChunk {
    pub index: ChunkIndex,
    pub rows: Vec<Row>,
}

/// Model of [`RenderChunk`].
#[verifier::ext_equal]
pub struct SpecRenderChunk {
    pub index: ChunkIndex,
    pub rows: Seq<SpecRow>,
}

impl DeepView for RenderChunk {
    type V = SpecRenderChunk;

    open spec fn deep_view(&self) -> SpecRenderChunk {
        SpecRenderChunk {
            index: self.index,
            rows: self.rows.deep_view(),
        }
    }
}

impl Value for RenderChunk {
    fn dup(&self) -> (r: Self) {
        RenderChunk {
            index: self.index,
            rows: self.rows.dup(),
        }
    }

    fn same(&self, other: &Self) -> (b: bool) {
        self.index == other.index
            && self.rows.same(&other.rows)
    }
}


// ---- reviews --------------------------------------------------------------

/// A range of lines, both ends included, counted from one.
#[derive(Debug, Clone, Copy, PartialEq, Eq, Structural)]
pub struct LineRange {
    pub start: u32,
    pub end: u32,
}

impl DeepView for LineRange {
    type V = LineRange;

    open spec fn deep_view(&self) -> LineRange {
        *self
    }
}

impl Value for LineRange {
    fn dup(&self) -> (r: Self) {
        *self
    }

    fn same(&self, other: &Self) -> (b: bool) {
        *self == *other
    }
}

/// What a comment is attached to.
#[derive(Debug, PartialEq, Eq)]
pub enum Anchor {
    Review,
    File { repo_id: RepoId, path: RepoPath, blob_oid: BlobOid },
    Lines {
        repo_id: RepoId,
        path: RepoPath,
        side: Side,
        blob_oid: BlobOid,
        lines: LineRange,
        context_hash: ContextHash,
    },
}

/// Model of [`Anchor`].
#[verifier::ext_equal]
pub enum SpecAnchor {
    Review,
    File { repo_id: RepoId, path: SpecRepoPath, blob_oid: BlobOid },
    Lines { repo_id: RepoId, path: SpecRepoPath, side: Side, blob_oid: BlobOid, lines: LineRange, context_hash: ContextHash },
}

impl DeepView for Anchor {
    type V = SpecAnchor;

    open spec fn deep_view(&self) -> SpecAnchor {
        match self {
            Anchor::Review => SpecAnchor::Review,
            Anchor::File { repo_id, path, blob_oid } => SpecAnchor::File {
                repo_id: *repo_id,
                path: path.deep_view(),
                blob_oid: *blob_oid,
            },
            Anchor::Lines { repo_id, path, side, blob_oid, lines, context_hash } => SpecAnchor::Lines {
                repo_id: *repo_id,
                path: path.deep_view(),
                side: *side,
                blob_oid: *blob_oid,
                lines: *lines,
                context_hash: *context_hash,
            },
        }
    }
}

impl Value for Anchor {
    fn dup(&self) -> (r: Self) {
        match self {
            Anchor::Review => Anchor::Review,
            Anchor::File { repo_id, path, blob_oid } => Anchor::File {
                repo_id: *repo_id,
                path: path.dup(),
                blob_oid: *blob_oid,
            },
            Anchor::Lines { repo_id, path, side, blob_oid, lines, context_hash } => Anchor::Lines {
                repo_id: *repo_id,
                path: path.dup(),
                side: *side,
                blob_oid: *blob_oid,
                lines: *lines,
                context_hash: *context_hash,
            },
        }
    }

    fn same(&self, other: &Self) -> (b: bool) {
        match (self, other) {
            (Anchor::Review, Anchor::Review) => true,
            (Anchor::File { repo_id: a0, path: a1, blob_oid: a2 }, Anchor::File { repo_id: b0, path: b1, blob_oid: b2 }) => *a0 == *b0 && a1.same(b1) && *a2 == *b2,
            (Anchor::Lines { repo_id: a0, path: a1, side: a2, blob_oid: a3, lines: a4, context_hash: a5 }, Anchor::Lines { repo_id: b0, path: b1, side: b2, blob_oid: b3, lines: b4, context_hash: b5 }) => *a0 == *b0 && a1.same(b1) && *a2 == *b2 && *a3 == *b3 && *a4 == *b4 && *a5 == *b5,
            _ => false,
        }
    }
}

/// What a comment is.
#[derive(Debug, PartialEq, Eq)]
pub enum CommentKind {
    Note,
    Informational,
    Suggestion { patch: String },
}

/// Model of [`CommentKind`].
#[verifier::ext_equal]
pub enum SpecCommentKind {
    Note,
    Informational,
    Suggestion { patch: Seq<char> },
}

impl DeepView for CommentKind {
    type V = SpecCommentKind;

    open spec fn deep_view(&self) -> SpecCommentKind {
        match self {
            CommentKind::Note => SpecCommentKind::Note,
            CommentKind::Informational => SpecCommentKind::Informational,
            CommentKind::Suggestion { patch } => SpecCommentKind::Suggestion {
                patch: patch.deep_view(),
            },
        }
    }
}

impl Value for CommentKind {
    fn dup(&self) -> (r: Self) {
        match self {
            CommentKind::Note => CommentKind::Note,
            CommentKind::Informational => CommentKind::Informational,
            CommentKind::Suggestion { patch } => CommentKind::Suggestion {
                patch: patch.dup(),
            },
        }
    }

    fn same(&self, other: &Self) -> (b: bool) {
        match (self, other) {
            (CommentKind::Note, CommentKind::Note) => true,
            (CommentKind::Informational, CommentKind::Informational) => true,
            (CommentKind::Suggestion { patch: a0 }, CommentKind::Suggestion { patch: b0 }) => a0.same(b0),
            _ => false,
        }
    }
}

/// What the writer of a new comment means it to be.
#[derive(Debug, Clone, Copy, PartialEq, Eq, Structural)]
pub enum CommentIntent {
    Finding,
    Informational,
}

impl DeepView for CommentIntent {
    type V = CommentIntent;

    open spec fn deep_view(&self) -> CommentIntent {
        *self
    }
}

impl Value for CommentIntent {
    fn dup(&self) -> (r: Self) {
        *self
    }

    fn same(&self, other: &Self) -> (b: bool) {
        *self == *other
    }
}

/// Whether a comment can still be placed.
#[derive(Debug, PartialEq, Eq)]
pub enum CommentState {
    Live,
    Outdated { last_good_anchor: Anchor },
    Deleted,
}

/// Model of [`CommentState`].
#[verifier::ext_equal]
pub enum SpecCommentState {
    Live,
    Outdated { last_good_anchor: SpecAnchor },
    Deleted,
}

impl DeepView for CommentState {
    type V = SpecCommentState;

    open spec fn deep_view(&self) -> SpecCommentState {
        match self {
            CommentState::Live => SpecCommentState::Live,
            CommentState::Outdated { last_good_anchor } => SpecCommentState::Outdated {
                last_good_anchor: last_good_anchor.deep_view(),
            },
            CommentState::Deleted => SpecCommentState::Deleted,
        }
    }
}

impl Value for CommentState {
    fn dup(&self) -> (r: Self) {
        match self {
            CommentState::Live => CommentState::Live,
            CommentState::Outdated { last_good_anchor } => CommentState::Outdated {
                last_good_anchor: last_good_anchor.dup(),
            },
            CommentState::Deleted => CommentState::Deleted,
        }
    }

    fn same(&self, other: &Self) -> (b: bool) {
        match (self, other) {
            (CommentState::Live, CommentState::Live) => true,
            (CommentState::Outdated { last_good_anchor: a0 }, CommentState::Outdated { last_good_anchor: b0 }) => a0.same(b0),
            (CommentState::Deleted, CommentState::Deleted) => true,
            _ => false,
        }
    }
}

/// What the writer of a comment was looking at.
#[derive(Debug, PartialEq, Eq)]
pub enum CommentContext {
    Diff { change: ChangeKind },
    Browse { oid: BlobOid },
}

/// Model of [`CommentContext`].
#[verifier::ext_equal]
pub enum SpecCommentContext {
    Diff { change: SpecChangeKind },
    Browse { oid: BlobOid },
}

impl DeepView for CommentContext {
    type V = SpecCommentContext;

    open spec fn deep_view(&self) -> SpecCommentContext {
        match self {
            CommentContext::Diff { change } => SpecCommentContext::Diff {
                change: change.deep_view(),
            },
            CommentContext::Browse { oid } => SpecCommentContext::Browse {
                oid: *oid,
            },
        }
    }
}

impl Value for CommentContext {
    fn dup(&self) -> (r: Self) {
        match self {
            CommentContext::Diff { change } => CommentContext::Diff {
                change: change.dup(),
            },
            CommentContext::Browse { oid } => CommentContext::Browse {
                oid: *oid,
            },
        }
    }

    fn same(&self, other: &Self) -> (b: bool) {
        match (self, other) {
            (CommentContext::Diff { change: a0 }, CommentContext::Diff { change: b0 }) => a0.same(b0),
            (CommentContext::Browse { oid: a0 }, CommentContext::Browse { oid: b0 }) => *a0 == *b0,
            _ => false,
        }
    }
}

/// One comment.
#[derive(Debug, PartialEq, Eq)]
pub struct Comment {
    pub id: CommentId,
    pub review_id: ReviewId,
    pub thread_id: ThreadId,
    pub author: Author,
    pub kind: CommentKind,
    pub anchor: Anchor,
    pub body: String,
    pub created: Timestamp,
    pub edited: Option<Timestamp>,
    pub state: CommentState,
    pub context: Option<CommentContext>,
}

/// Model of [`Comment`].
#[verifier::ext_equal]
pub struct SpecComment {
    pub id: CommentId,
    pub review_id: ReviewId,
    pub thread_id: ThreadId,
    pub author: SpecAuthor,
    pub kind: SpecCommentKind,
    pub anchor: SpecAnchor,
    pub body: Seq<char>,
    pub created: Timestamp,
    pub edited: Option<Timestamp>,
    pub state: SpecCommentState,
    pub context: Option<SpecCommentContext>,
}

impl DeepView for Comment {
    type V = SpecComment;

    open spec fn deep_view(&self) -> SpecComment {
        SpecComment {
            id: self.id,
            review_id: self.review_id,
            thread_id: self.thread_id,
            author: self.author.deep_view(),
            kind: self.kind.deep_view(),
            anchor: self.anchor.deep_view(),
            body: self.body.deep_view(),
            created: self.created,
            edited: self.edited,
            state: self.state.deep_view(),
            context: self.context.deep_view(),
        }
    }
}

impl Value for Comment {
    fn dup(&self) -> (r: Self) {
        Comment {
            id: self.id,
            review_id: self.review_id,
            thread_id: self.thread_id,
            author: self.author.dup(),
            kind: self.kind.dup(),
            anchor: self.anchor.dup(),
            body: self.body.dup(),
            created: self.created,
            edited: self.edited,
            state: self.state.dup(),
            context: self.context.dup(),
        }
    }

    fn same(&self, other: &Self) -> (b: bool) {
        self.id == other.id
            && self.review_id == other.review_id
            && self.thread_id == other.thread_id
            && self.author.same(&other.author)
            && self.kind.same(&other.kind)
            && self.anchor.same(&other.anchor)
            && self.body.same(&other.body)
            && self.created == other.created
            && self.edited.same(&other.edited)
            && self.state.same(&other.state)
            && self.context.same(&other.context)
    }
}

/// Whether a thread still asks for something.
#[derive(Debug, PartialEq, Eq)]
pub enum ThreadResolution {
    Open,
    Resolved { by: Author, at: Timestamp },
    Informational,
}

/// Model of [`ThreadResolution`].
#[verifier::ext_equal]
pub enum SpecThreadResolution {
    Open,
    Resolved { by: SpecAuthor, at: Timestamp },
    Informational,
}

impl DeepView for ThreadResolution {
    type V = SpecThreadResolution;

    open spec fn deep_view(&self) -> SpecThreadResolution {
        match self {
            ThreadResolution::Open => SpecThreadResolution::Open,
            ThreadResolution::Resolved { by, at } => SpecThreadResolution::Resolved {
                by: by.deep_view(),
                at: *at,
            },
            ThreadResolution::Informational => SpecThreadResolution::Informational,
        }
    }
}

impl Value for ThreadResolution {
    fn dup(&self) -> (r: Self) {
        match self {
            ThreadResolution::Open => ThreadResolution::Open,
            ThreadResolution::Resolved { by, at } => ThreadResolution::Resolved {
                by: by.dup(),
                at: *at,
            },
            ThreadResolution::Informational => ThreadResolution::Informational,
        }
    }

    fn same(&self, other: &Self) -> (b: bool) {
        match (self, other) {
            (ThreadResolution::Open, ThreadResolution::Open) => true,
            (ThreadResolution::Resolved { by: a0, at: a1 }, ThreadResolution::Resolved { by: b0, at: b1 }) => a0.same(b0) && *a1 == *b1,
            (ThreadResolution::Informational, ThreadResolution::Informational) => true,
            _ => false,
        }
    }
}

/// A root comment and its replies.
#[derive(Debug, PartialEq, Eq)]
pub struct Thread {
    pub id: ThreadId,
    pub review_id: ReviewId,
    pub root: CommentId,
    pub replies: Vec<CommentId>,
    pub resolution: ThreadResolution,
}

/// Model of [`Thread`].
#[verifier::ext_equal]
pub struct SpecThread {
    pub id: ThreadId,
    pub review_id: ReviewId,
    pub root: CommentId,
    pub replies: Seq<CommentId>,
    pub resolution: SpecThreadResolution,
}

impl DeepView for Thread {
    type V = SpecThread;

    open spec fn deep_view(&self) -> SpecThread {
        SpecThread {
            id: self.id,
            review_id: self.review_id,
            root: self.root,
            replies: self.replies.deep_view(),
            resolution: self.resolution.deep_view(),
        }
    }
}

impl Value for Thread {
    fn dup(&self) -> (r: Self) {
        Thread {
            id: self.id,
            review_id: self.review_id,
            root: self.root,
            replies: self.replies.dup(),
            resolution: self.resolution.dup(),
        }
    }

    fn same(&self, other: &Self) -> (b: bool) {
        self.id == other.id
            && self.review_id == other.review_id
            && self.root == other.root
            && self.replies.same(&other.replies)
            && self.resolution.same(&other.resolution)
    }
}

/// A file one person has seen.
#[derive(Debug, PartialEq, Eq)]
pub struct ViewedMark {
    pub review_id: ReviewId,
    pub repo_id: RepoId,
    pub path: RepoPath,
    pub viewer: Human,
    pub content: ViewedContent,
}

/// Model of [`ViewedMark`].
#[verifier::ext_equal]
pub struct SpecViewedMark {
    pub review_id: ReviewId,
    pub repo_id: RepoId,
    pub path: SpecRepoPath,
    pub viewer: SpecHuman,
    pub content: ViewedContent,
}

impl DeepView for ViewedMark {
    type V = SpecViewedMark;

    open spec fn deep_view(&self) -> SpecViewedMark {
        SpecViewedMark {
            review_id: self.review_id,
            repo_id: self.repo_id,
            path: self.path.deep_view(),
            viewer: self.viewer.deep_view(),
            content: self.content,
        }
    }
}

impl Value for ViewedMark {
    fn dup(&self) -> (r: Self) {
        ViewedMark {
            review_id: self.review_id,
            repo_id: self.repo_id,
            path: self.path.dup(),
            viewer: self.viewer.dup(),
            content: self.content,
        }
    }

    fn same(&self, other: &Self) -> (b: bool) {
        self.review_id == other.review_id
            && self.repo_id == other.repo_id
            && self.path.same(&other.path)
            && self.viewer.same(&other.viewer)
            && self.content == other.content
    }
}

/// Base and head of one repository of a review.
#[derive(Debug, PartialEq, Eq)]
pub struct ReviewTarget {
    pub repo_id: RepoId,
    pub base: RefSpec,
    pub head: RefSpec,
}

/// Model of [`ReviewTarget`].
#[verifier::ext_equal]
pub struct SpecReviewTarget {
    pub repo_id: RepoId,
    pub base: SpecRefSpec,
    pub head: SpecRefSpec,
}

impl DeepView for ReviewTarget {
    type V = SpecReviewTarget;

    open spec fn deep_view(&self) -> SpecReviewTarget {
        SpecReviewTarget {
            repo_id: self.repo_id,
            base: self.base.deep_view(),
            head: self.head.deep_view(),
        }
    }
}

impl Value for ReviewTarget {
    fn dup(&self) -> (r: Self) {
        ReviewTarget {
            repo_id: self.repo_id,
            base: self.base.dup(),
            head: self.head.dup(),
        }
    }

    fn same(&self, other: &Self) -> (b: bool) {
        self.repo_id == other.repo_id
            && self.base.same(&other.base)
            && self.head.same(&other.head)
    }
}

/// Whether a review is being worked on.
#[derive(Debug, Clone, Copy, PartialEq, Eq, Structural)]
pub enum ReviewStatus {
    Open,
    Closed,
}

impl DeepView for ReviewStatus {
    type V = ReviewStatus;

    open spec fn deep_view(&self) -> ReviewStatus {
        *self
    }
}

impl Value for ReviewStatus {
    fn dup(&self) -> (r: Self) {
        *self
    }

    fn same(&self, other: &Self) -> (b: bool) {
        *self == *other
    }
}

/// A review as lists show it.
#[derive(Debug, PartialEq, Eq)]
pub struct Review {
    pub id: ReviewId,
    pub workspace_id: WorkspaceId,
    pub title: String,
    pub status: ReviewStatus,
    /// Never empty.
    pub targets: Vec<ReviewTarget>,
    pub created: Timestamp,
}

/// Model of [`Review`].
#[verifier::ext_equal]
pub struct SpecReview {
    pub id: ReviewId,
    pub workspace_id: WorkspaceId,
    pub title: Seq<char>,
    pub status: ReviewStatus,
    pub targets: Seq<SpecReviewTarget>,
    pub created: Timestamp,
}

impl DeepView for Review {
    type V = SpecReview;

    open spec fn deep_view(&self) -> SpecReview {
        SpecReview {
            id: self.id,
            workspace_id: self.workspace_id,
            title: self.title.deep_view(),
            status: self.status,
            targets: self.targets.deep_view(),
            created: self.created,
        }
    }
}

impl Value for Review {
    fn dup(&self) -> (r: Self) {
        Review {
            id: self.id,
            workspace_id: self.workspace_id,
            title: self.title.dup(),
            status: self.status,
            targets: self.targets.dup(),
            created: self.created,
        }
    }

    fn same(&self, other: &Self) -> (b: bool) {
        self.id == other.id
            && self.workspace_id == other.workspace_id
            && self.title.same(&other.title)
            && self.status == other.status
            && self.targets.same(&other.targets)
            && self.created == other.created
    }
}

/// A repository checked out on the daemon.
#[derive(Debug, PartialEq, Eq)]
pub struct Repo {
    pub id: RepoId,
    pub display_name: String,
    pub checkout: String,
}

/// Model of [`Repo`].
#[verifier::ext_equal]
pub struct SpecRepo {
    pub id: RepoId,
    pub display_name: Seq<char>,
    pub checkout: Seq<char>,
}

impl DeepView for Repo {
    type V = SpecRepo;

    open spec fn deep_view(&self) -> SpecRepo {
        SpecRepo {
            id: self.id,
            display_name: self.display_name.deep_view(),
            checkout: self.checkout.deep_view(),
        }
    }
}

impl Value for Repo {
    fn dup(&self) -> (r: Self) {
        Repo {
            id: self.id,
            display_name: self.display_name.dup(),
            checkout: self.checkout.dup(),
        }
    }

    fn same(&self, other: &Self) -> (b: bool) {
        self.id == other.id
            && self.display_name.same(&other.display_name)
            && self.checkout.same(&other.checkout)
    }
}

/// A workspace and its repositories.
#[derive(Debug, PartialEq, Eq)]
pub struct Workspace {
    pub id: WorkspaceId,
    pub name: String,
    pub repos: Vec<Repo>,
}

/// Model of [`Workspace`].
#[verifier::ext_equal]
pub struct SpecWorkspace {
    pub id: WorkspaceId,
    pub name: Seq<char>,
    pub repos: Seq<SpecRepo>,
}

impl DeepView for Workspace {
    type V = SpecWorkspace;

    open spec fn deep_view(&self) -> SpecWorkspace {
        SpecWorkspace {
            id: self.id,
            name: self.name.deep_view(),
            repos: self.repos.deep_view(),
        }
    }
}

impl Value for Workspace {
    fn dup(&self) -> (r: Self) {
        Workspace {
            id: self.id,
            name: self.name.dup(),
            repos: self.repos.dup(),
        }
    }

    fn same(&self, other: &Self) -> (b: bool) {
        self.id == other.id
            && self.name.same(&other.name)
            && self.repos.same(&other.repos)
    }
}

/// Somebody was asked to review.
#[derive(Debug, PartialEq, Eq)]
pub struct ReviewRequest {
    pub id: ReviewRequestId,
    pub review_id: ReviewId,
    pub reviewer: String,
}

/// Model of [`ReviewRequest`].
#[verifier::ext_equal]
pub struct SpecReviewRequest {
    pub id: ReviewRequestId,
    pub review_id: ReviewId,
    pub reviewer: Seq<char>,
}

impl DeepView for ReviewRequest {
    type V = SpecReviewRequest;

    open spec fn deep_view(&self) -> SpecReviewRequest {
        SpecReviewRequest {
            id: self.id,
            review_id: self.review_id,
            reviewer: self.reviewer.deep_view(),
        }
    }
}

impl Value for ReviewRequest {
    fn dup(&self) -> (r: Self) {
        ReviewRequest {
            id: self.id,
            review_id: self.review_id,
            reviewer: self.reviewer.dup(),
        }
    }

    fn same(&self, other: &Self) -> (b: bool) {
        self.id == other.id
            && self.review_id == other.review_id
            && self.reviewer.same(&other.reviewer)
    }
}

/// Somebody has been through all of the changes.
#[derive(Debug, PartialEq, Eq)]
pub struct ReviewerCheckpoint {
    pub seq: EventSeq,
    pub reviewer: String,
}

/// Model of [`ReviewerCheckpoint`].
#[verifier::ext_equal]
pub struct SpecReviewerCheckpoint {
    pub seq: EventSeq,
    pub reviewer: Seq<char>,
}

impl DeepView for ReviewerCheckpoint {
    type V = SpecReviewerCheckpoint;

    open spec fn deep_view(&self) -> SpecReviewerCheckpoint {
        SpecReviewerCheckpoint {
            seq: self.seq,
            reviewer: self.reviewer.deep_view(),
        }
    }
}

impl Value for ReviewerCheckpoint {
    fn dup(&self) -> (r: Self) {
        ReviewerCheckpoint {
            seq: self.seq,
            reviewer: self.reviewer.dup(),
        }
    }

    fn same(&self, other: &Self) -> (b: bool) {
        self.seq == other.seq
            && self.reviewer.same(&other.reviewer)
    }
}

/// Proof that a suggestion was written to the working tree.
#[derive(Debug, Clone, Copy, PartialEq, Eq, Structural)]
pub struct SuggestionReceipt {
    pub seq: EventSeq,
}

impl DeepView for SuggestionReceipt {
    type V = SuggestionReceipt;

    open spec fn deep_view(&self) -> SuggestionReceipt {
        *self
    }
}

impl Value for SuggestionReceipt {
    fn dup(&self) -> (r: Self) {
        *self
    }

    fn same(&self, other: &Self) -> (b: bool) {
        *self == *other
    }
}

/// Whether a suggestion was applied.
#[derive(Debug, Clone, Copy, PartialEq, Eq, Structural)]
pub enum SuggestionOutcome {
    Unapplied,
    Applied { receipt: SuggestionReceipt },
}

impl DeepView for SuggestionOutcome {
    type V = SuggestionOutcome;

    open spec fn deep_view(&self) -> SuggestionOutcome {
        *self
    }
}

impl Value for SuggestionOutcome {
    fn dup(&self) -> (r: Self) {
        *self
    }

    fn same(&self, other: &Self) -> (b: bool) {
        *self == *other
    }
}

/// A suggestion comment's patch and what became of it.
#[derive(Debug, PartialEq, Eq)]
pub struct SuggestionRecord {
    pub comment_id: CommentId,
    pub review_id: ReviewId,
    pub anchor: Anchor,
    pub patch: String,
    pub outcome: SuggestionOutcome,
}

/// Model of [`SuggestionRecord`].
#[verifier::ext_equal]
pub struct SpecSuggestionRecord {
    pub comment_id: CommentId,
    pub review_id: ReviewId,
    pub anchor: SpecAnchor,
    pub patch: Seq<char>,
    pub outcome: SuggestionOutcome,
}

impl DeepView for SuggestionRecord {
    type V = SpecSuggestionRecord;

    open spec fn deep_view(&self) -> SpecSuggestionRecord {
        SpecSuggestionRecord {
            comment_id: self.comment_id,
            review_id: self.review_id,
            anchor: self.anchor.deep_view(),
            patch: self.patch.deep_view(),
            outcome: self.outcome,
        }
    }
}

impl Value for SuggestionRecord {
    fn dup(&self) -> (r: Self) {
        SuggestionRecord {
            comment_id: self.comment_id,
            review_id: self.review_id,
            anchor: self.anchor.dup(),
            patch: self.patch.dup(),
            outcome: self.outcome,
        }
    }

    fn same(&self, other: &Self) -> (b: bool) {
        self.comment_id == other.comment_id
            && self.review_id == other.review_id
            && self.anchor.same(&other.anchor)
            && self.patch.same(&other.patch)
            && self.outcome == other.outcome
    }
}

/// What the working tree holds where a suggestion would go.
#[derive(Debug, PartialEq, Eq)]
pub enum SuggestionWorktree {
    Original,
    Changed,
    Proposed,
    Unavailable { reason: String },
}

/// Model of [`SuggestionWorktree`].
#[verifier::ext_equal]
pub enum SpecSuggestionWorktree {
    Original,
    Changed,
    Proposed,
    Unavailable { reason: Seq<char> },
}

impl DeepView for SuggestionWorktree {
    type V = SpecSuggestionWorktree;

    open spec fn deep_view(&self) -> SpecSuggestionWorktree {
        match self {
            SuggestionWorktree::Original => SpecSuggestionWorktree::Original,
            SuggestionWorktree::Changed => SpecSuggestionWorktree::Changed,
            SuggestionWorktree::Proposed => SpecSuggestionWorktree::Proposed,
            SuggestionWorktree::Unavailable { reason } => SpecSuggestionWorktree::Unavailable {
                reason: reason.deep_view(),
            },
        }
    }
}

impl Value for SuggestionWorktree {
    fn dup(&self) -> (r: Self) {
        match self {
            SuggestionWorktree::Original => SuggestionWorktree::Original,
            SuggestionWorktree::Changed => SuggestionWorktree::Changed,
            SuggestionWorktree::Proposed => SuggestionWorktree::Proposed,
            SuggestionWorktree::Unavailable { reason } => SuggestionWorktree::Unavailable {
                reason: reason.dup(),
            },
        }
    }

    fn same(&self, other: &Self) -> (b: bool) {
        match (self, other) {
            (SuggestionWorktree::Original, SuggestionWorktree::Original) => true,
            (SuggestionWorktree::Changed, SuggestionWorktree::Changed) => true,
            (SuggestionWorktree::Proposed, SuggestionWorktree::Proposed) => true,
            (SuggestionWorktree::Unavailable { reason: a0 }, SuggestionWorktree::Unavailable { reason: b0 }) => a0.same(b0),
            _ => false,
        }
    }
}

/// What the daemon found when it looked at a suggestion.
#[derive(Debug, PartialEq, Eq)]
pub enum SuggestionInspection {
    Rejected { reason: String },
    Checked { worktree: SuggestionWorktree },
}

/// Model of [`SuggestionInspection`].
#[verifier::ext_equal]
pub enum SpecSuggestionInspection {
    Rejected { reason: Seq<char> },
    Checked { worktree: SpecSuggestionWorktree },
}

impl DeepView for SuggestionInspection {
    type V = SpecSuggestionInspection;

    open spec fn deep_view(&self) -> SpecSuggestionInspection {
        match self {
            SuggestionInspection::Rejected { reason } => SpecSuggestionInspection::Rejected {
                reason: reason.deep_view(),
            },
            SuggestionInspection::Checked { worktree } => SpecSuggestionInspection::Checked {
                worktree: worktree.deep_view(),
            },
        }
    }
}

impl Value for SuggestionInspection {
    fn dup(&self) -> (r: Self) {
        match self {
            SuggestionInspection::Rejected { reason } => SuggestionInspection::Rejected {
                reason: reason.dup(),
            },
            SuggestionInspection::Checked { worktree } => SuggestionInspection::Checked {
                worktree: worktree.dup(),
            },
        }
    }

    fn same(&self, other: &Self) -> (b: bool) {
        match (self, other) {
            (SuggestionInspection::Rejected { reason: a0 }, SuggestionInspection::Rejected { reason: b0 }) => a0.same(b0),
            (SuggestionInspection::Checked { worktree: a0 }, SuggestionInspection::Checked { worktree: b0 }) => a0.same(b0),
            _ => false,
        }
    }
}

/// A suggestion with its inspection.
#[derive(Debug, PartialEq, Eq)]
pub struct SuggestionPreview {
    pub suggestion: SuggestionRecord,
    pub inspection: SuggestionInspection,
}

/// Model of [`SuggestionPreview`].
#[verifier::ext_equal]
pub struct SpecSuggestionPreview {
    pub suggestion: SpecSuggestionRecord,
    pub inspection: SpecSuggestionInspection,
}

impl DeepView for SuggestionPreview {
    type V = SpecSuggestionPreview;

    open spec fn deep_view(&self) -> SpecSuggestionPreview {
        SpecSuggestionPreview {
            suggestion: self.suggestion.deep_view(),
            inspection: self.inspection.deep_view(),
        }
    }
}

impl Value for SuggestionPreview {
    fn dup(&self) -> (r: Self) {
        SuggestionPreview {
            suggestion: self.suggestion.dup(),
            inspection: self.inspection.dup(),
        }
    }

    fn same(&self, other: &Self) -> (b: bool) {
        self.suggestion.same(&other.suggestion)
            && self.inspection.same(&other.inspection)
    }
}

/// A review with everything attached to it, as of `seq`.
#[derive(Debug, PartialEq, Eq)]
pub struct ReviewSnapshot {
    pub seq: EventSeq,
    pub review: Review,
    pub resolved: Option<Vec<ResolvedTarget>>,
    pub comments: Vec<Comment>,
    pub threads: Vec<Thread>,
    pub viewed: Vec<ViewedMark>,
    pub requests: Vec<ReviewRequest>,
    pub suggestions: Vec<SuggestionRecord>,
}

/// Model of [`ReviewSnapshot`].
#[verifier::ext_equal]
pub struct SpecReviewSnapshot {
    pub seq: EventSeq,
    pub review: SpecReview,
    pub resolved: Option<Seq<ResolvedTarget>>,
    pub comments: Seq<SpecComment>,
    pub threads: Seq<SpecThread>,
    pub viewed: Seq<SpecViewedMark>,
    pub requests: Seq<SpecReviewRequest>,
    pub suggestions: Seq<SpecSuggestionRecord>,
}

impl DeepView for ReviewSnapshot {
    type V = SpecReviewSnapshot;

    open spec fn deep_view(&self) -> SpecReviewSnapshot {
        SpecReviewSnapshot {
            seq: self.seq,
            review: self.review.deep_view(),
            resolved: self.resolved.deep_view(),
            comments: self.comments.deep_view(),
            threads: self.threads.deep_view(),
            viewed: self.viewed.deep_view(),
            requests: self.requests.deep_view(),
            suggestions: self.suggestions.deep_view(),
        }
    }
}

impl Value for ReviewSnapshot {
    fn dup(&self) -> (r: Self) {
        ReviewSnapshot {
            seq: self.seq,
            review: self.review.dup(),
            resolved: self.resolved.dup(),
            comments: self.comments.dup(),
            threads: self.threads.dup(),
            viewed: self.viewed.dup(),
            requests: self.requests.dup(),
            suggestions: self.suggestions.dup(),
        }
    }

    fn same(&self, other: &Self) -> (b: bool) {
        self.seq == other.seq
            && self.review.same(&other.review)
            && self.resolved.same(&other.resolved)
            && self.comments.same(&other.comments)
            && self.threads.same(&other.threads)
            && self.viewed.same(&other.viewed)
            && self.requests.same(&other.requests)
            && self.suggestions.same(&other.suggestions)
    }
}


// ---- events and mutations -------------------------------------------------

/// What a committed event says.
#[derive(Debug, PartialEq, Eq)]
pub enum EventBody {
    ReviewCreated { review: Review },
    ReviewUpdated { review_id: ReviewId, title: String, status: ReviewStatus },
    ReviewTargetUpdated { review_id: ReviewId, target: ReviewTarget },
    ReviewDeleted { review_id: ReviewId },
    ReviewTargetsResolved { review_id: ReviewId, targets: Vec<ResolvedTarget> },
    CommentCreated { comment: Comment },
    CommentEdited { review_id: ReviewId, comment_id: CommentId, body: String },
    CommentDeleted { review_id: ReviewId, comment_id: CommentId },
    CommentReanchored { review_id: ReviewId, comment_id: CommentId, anchor: Anchor, state: CommentState },
    ThreadResolved { review_id: ReviewId, thread_id: ThreadId },
    ThreadUnresolved { review_id: ReviewId, thread_id: ThreadId },
    FileViewed {
        review_id: ReviewId,
        repo_id: RepoId,
        path: RepoPath,
        viewer: Human,
        content: ViewedContent,
    },
    FileUnviewed { review_id: ReviewId, repo_id: RepoId, path: RepoPath, viewer: Human },
    ReviewRequested { review_id: ReviewId, reviewer: String },
    SuggestionApplied { review_id: ReviewId, comment_id: CommentId },
    WorkspaceCreated { workspace: Workspace },
    WorkspaceUpdated { workspace_id: WorkspaceId, name: String },
    RepoAttached { workspace_id: WorkspaceId, repo: Repo },
    RepoDetached { workspace_id: WorkspaceId, repo_id: RepoId },
}

/// Model of [`EventBody`].
#[verifier::ext_equal]
pub enum SpecEventBody {
    ReviewCreated { review: SpecReview },
    ReviewUpdated { review_id: ReviewId, title: Seq<char>, status: ReviewStatus },
    ReviewTargetUpdated { review_id: ReviewId, target: SpecReviewTarget },
    ReviewDeleted { review_id: ReviewId },
    ReviewTargetsResolved { review_id: ReviewId, targets: Seq<ResolvedTarget> },
    CommentCreated { comment: SpecComment },
    CommentEdited { review_id: ReviewId, comment_id: CommentId, body: Seq<char> },
    CommentDeleted { review_id: ReviewId, comment_id: CommentId },
    CommentReanchored { review_id: ReviewId, comment_id: CommentId, anchor: SpecAnchor, state: SpecCommentState },
    ThreadResolved { review_id: ReviewId, thread_id: ThreadId },
    ThreadUnresolved { review_id: ReviewId, thread_id: ThreadId },
    FileViewed { review_id: ReviewId, repo_id: RepoId, path: SpecRepoPath, viewer: SpecHuman, content: ViewedContent },
    FileUnviewed { review_id: ReviewId, repo_id: RepoId, path: SpecRepoPath, viewer: SpecHuman },
    ReviewRequested { review_id: ReviewId, reviewer: Seq<char> },
    SuggestionApplied { review_id: ReviewId, comment_id: CommentId },
    WorkspaceCreated { workspace: SpecWorkspace },
    WorkspaceUpdated { workspace_id: WorkspaceId, name: Seq<char> },
    RepoAttached { workspace_id: WorkspaceId, repo: SpecRepo },
    RepoDetached { workspace_id: WorkspaceId, repo_id: RepoId },
}

impl DeepView for EventBody {
    type V = SpecEventBody;

    open spec fn deep_view(&self) -> SpecEventBody {
        match self {
            EventBody::ReviewCreated { review } => SpecEventBody::ReviewCreated {
                review: review.deep_view(),
            },
            EventBody::ReviewUpdated { review_id, title, status } => SpecEventBody::ReviewUpdated {
                review_id: *review_id,
                title: title.deep_view(),
                status: *status,
            },
            EventBody::ReviewTargetUpdated { review_id, target } => SpecEventBody::ReviewTargetUpdated {
                review_id: *review_id,
                target: target.deep_view(),
            },
            EventBody::ReviewDeleted { review_id } => SpecEventBody::ReviewDeleted {
                review_id: *review_id,
            },
            EventBody::ReviewTargetsResolved { review_id, targets } => SpecEventBody::ReviewTargetsResolved {
                review_id: *review_id,
                targets: targets.deep_view(),
            },
            EventBody::CommentCreated { comment } => SpecEventBody::CommentCreated {
                comment: comment.deep_view(),
            },
            EventBody::CommentEdited { review_id, comment_id, body } => SpecEventBody::CommentEdited {
                review_id: *review_id,
                comment_id: *comment_id,
                body: body.deep_view(),
            },
            EventBody::CommentDeleted { review_id, comment_id } => SpecEventBody::CommentDeleted {
                review_id: *review_id,
                comment_id: *comment_id,
            },
            EventBody::CommentReanchored { review_id, comment_id, anchor, state } => SpecEventBody::CommentReanchored {
                review_id: *review_id,
                comment_id: *comment_id,
                anchor: anchor.deep_view(),
                state: state.deep_view(),
            },
            EventBody::ThreadResolved { review_id, thread_id } => SpecEventBody::ThreadResolved {
                review_id: *review_id,
                thread_id: *thread_id,
            },
            EventBody::ThreadUnresolved { review_id, thread_id } => SpecEventBody::ThreadUnresolved {
                review_id: *review_id,
                thread_id: *thread_id,
            },
            EventBody::FileViewed { review_id, repo_id, path, viewer, content } => SpecEventBody::FileViewed {
                review_id: *review_id,
                repo_id: *repo_id,
                path: path.deep_view(),
                viewer: viewer.deep_view(),
                content: *content,
            },
            EventBody::FileUnviewed { review_id, repo_id, path, viewer } => SpecEventBody::FileUnviewed {
                review_id: *review_id,
                repo_id: *repo_id,
                path: path.deep_view(),
                viewer: viewer.deep_view(),
            },
            EventBody::ReviewRequested { review_id, reviewer } => SpecEventBody::ReviewRequested {
                review_id: *review_id,
                reviewer: reviewer.deep_view(),
            },
            EventBody::SuggestionApplied { review_id, comment_id } => SpecEventBody::SuggestionApplied {
                review_id: *review_id,
                comment_id: *comment_id,
            },
            EventBody::WorkspaceCreated { workspace } => SpecEventBody::WorkspaceCreated {
                workspace: workspace.deep_view(),
            },
            EventBody::WorkspaceUpdated { workspace_id, name } => SpecEventBody::WorkspaceUpdated {
                workspace_id: *workspace_id,
                name: name.deep_view(),
            },
            EventBody::RepoAttached { workspace_id, repo } => SpecEventBody::RepoAttached {
                workspace_id: *workspace_id,
                repo: repo.deep_view(),
            },
            EventBody::RepoDetached { workspace_id, repo_id } => SpecEventBody::RepoDetached {
                workspace_id: *workspace_id,
                repo_id: *repo_id,
            },
        }
    }
}

impl Value for EventBody {
    fn dup(&self) -> (r: Self) {
        match self {
            EventBody::ReviewCreated { review } => EventBody::ReviewCreated {
                review: review.dup(),
            },
            EventBody::ReviewUpdated { review_id, title, status } => EventBody::ReviewUpdated {
                review_id: *review_id,
                title: title.dup(),
                status: *status,
            },
            EventBody::ReviewTargetUpdated { review_id, target } => EventBody::ReviewTargetUpdated {
                review_id: *review_id,
                target: target.dup(),
            },
            EventBody::ReviewDeleted { review_id } => EventBody::ReviewDeleted {
                review_id: *review_id,
            },
            EventBody::ReviewTargetsResolved { review_id, targets } => EventBody::ReviewTargetsResolved {
                review_id: *review_id,
                targets: targets.dup(),
            },
            EventBody::CommentCreated { comment } => EventBody::CommentCreated {
                comment: comment.dup(),
            },
            EventBody::CommentEdited { review_id, comment_id, body } => EventBody::CommentEdited {
                review_id: *review_id,
                comment_id: *comment_id,
                body: body.dup(),
            },
            EventBody::CommentDeleted { review_id, comment_id } => EventBody::CommentDeleted {
                review_id: *review_id,
                comment_id: *comment_id,
            },
            EventBody::CommentReanchored { review_id, comment_id, anchor, state } => EventBody::CommentReanchored {
                review_id: *review_id,
                comment_id: *comment_id,
                anchor: anchor.dup(),
                state: state.dup(),
            },
            EventBody::ThreadResolved { review_id, thread_id } => EventBody::ThreadResolved {
                review_id: *review_id,
                thread_id: *thread_id,
            },
            EventBody::ThreadUnresolved { review_id, thread_id } => EventBody::ThreadUnresolved {
                review_id: *review_id,
                thread_id: *thread_id,
            },
            EventBody::FileViewed { review_id, repo_id, path, viewer, content } => EventBody::FileViewed {
                review_id: *review_id,
                repo_id: *repo_id,
                path: path.dup(),
                viewer: viewer.dup(),
                content: *content,
            },
            EventBody::FileUnviewed { review_id, repo_id, path, viewer } => EventBody::FileUnviewed {
                review_id: *review_id,
                repo_id: *repo_id,
                path: path.dup(),
                viewer: viewer.dup(),
            },
            EventBody::ReviewRequested { review_id, reviewer } => EventBody::ReviewRequested {
                review_id: *review_id,
                reviewer: reviewer.dup(),
            },
            EventBody::SuggestionApplied { review_id, comment_id } => EventBody::SuggestionApplied {
                review_id: *review_id,
                comment_id: *comment_id,
            },
            EventBody::WorkspaceCreated { workspace } => EventBody::WorkspaceCreated {
                workspace: workspace.dup(),
            },
            EventBody::WorkspaceUpdated { workspace_id, name } => EventBody::WorkspaceUpdated {
                workspace_id: *workspace_id,
                name: name.dup(),
            },
            EventBody::RepoAttached { workspace_id, repo } => EventBody::RepoAttached {
                workspace_id: *workspace_id,
                repo: repo.dup(),
            },
            EventBody::RepoDetached { workspace_id, repo_id } => EventBody::RepoDetached {
                workspace_id: *workspace_id,
                repo_id: *repo_id,
            },
        }
    }

    fn same(&self, other: &Self) -> (b: bool) {
        match (self, other) {
            (EventBody::ReviewCreated { review: a0 }, EventBody::ReviewCreated { review: b0 }) => a0.same(b0),
            (EventBody::ReviewUpdated { review_id: a0, title: a1, status: a2 }, EventBody::ReviewUpdated { review_id: b0, title: b1, status: b2 }) => *a0 == *b0 && a1.same(b1) && *a2 == *b2,
            (EventBody::ReviewTargetUpdated { review_id: a0, target: a1 }, EventBody::ReviewTargetUpdated { review_id: b0, target: b1 }) => *a0 == *b0 && a1.same(b1),
            (EventBody::ReviewDeleted { review_id: a0 }, EventBody::ReviewDeleted { review_id: b0 }) => *a0 == *b0,
            (EventBody::ReviewTargetsResolved { review_id: a0, targets: a1 }, EventBody::ReviewTargetsResolved { review_id: b0, targets: b1 }) => *a0 == *b0 && a1.same(b1),
            (EventBody::CommentCreated { comment: a0 }, EventBody::CommentCreated { comment: b0 }) => a0.same(b0),
            (EventBody::CommentEdited { review_id: a0, comment_id: a1, body: a2 }, EventBody::CommentEdited { review_id: b0, comment_id: b1, body: b2 }) => *a0 == *b0 && *a1 == *b1 && a2.same(b2),
            (EventBody::CommentDeleted { review_id: a0, comment_id: a1 }, EventBody::CommentDeleted { review_id: b0, comment_id: b1 }) => *a0 == *b0 && *a1 == *b1,
            (EventBody::CommentReanchored { review_id: a0, comment_id: a1, anchor: a2, state: a3 }, EventBody::CommentReanchored { review_id: b0, comment_id: b1, anchor: b2, state: b3 }) => *a0 == *b0 && *a1 == *b1 && a2.same(b2) && a3.same(b3),
            (EventBody::ThreadResolved { review_id: a0, thread_id: a1 }, EventBody::ThreadResolved { review_id: b0, thread_id: b1 }) => *a0 == *b0 && *a1 == *b1,
            (EventBody::ThreadUnresolved { review_id: a0, thread_id: a1 }, EventBody::ThreadUnresolved { review_id: b0, thread_id: b1 }) => *a0 == *b0 && *a1 == *b1,
            (EventBody::FileViewed { review_id: a0, repo_id: a1, path: a2, viewer: a3, content: a4 }, EventBody::FileViewed { review_id: b0, repo_id: b1, path: b2, viewer: b3, content: b4 }) => *a0 == *b0 && *a1 == *b1 && a2.same(b2) && a3.same(b3) && *a4 == *b4,
            (EventBody::FileUnviewed { review_id: a0, repo_id: a1, path: a2, viewer: a3 }, EventBody::FileUnviewed { review_id: b0, repo_id: b1, path: b2, viewer: b3 }) => *a0 == *b0 && *a1 == *b1 && a2.same(b2) && a3.same(b3),
            (EventBody::ReviewRequested { review_id: a0, reviewer: a1 }, EventBody::ReviewRequested { review_id: b0, reviewer: b1 }) => *a0 == *b0 && a1.same(b1),
            (EventBody::SuggestionApplied { review_id: a0, comment_id: a1 }, EventBody::SuggestionApplied { review_id: b0, comment_id: b1 }) => *a0 == *b0 && *a1 == *b1,
            (EventBody::WorkspaceCreated { workspace: a0 }, EventBody::WorkspaceCreated { workspace: b0 }) => a0.same(b0),
            (EventBody::WorkspaceUpdated { workspace_id: a0, name: a1 }, EventBody::WorkspaceUpdated { workspace_id: b0, name: b1 }) => *a0 == *b0 && a1.same(b1),
            (EventBody::RepoAttached { workspace_id: a0, repo: a1 }, EventBody::RepoAttached { workspace_id: b0, repo: b1 }) => *a0 == *b0 && a1.same(b1),
            (EventBody::RepoDetached { workspace_id: a0, repo_id: a1 }, EventBody::RepoDetached { workspace_id: b0, repo_id: b1 }) => *a0 == *b0 && *a1 == *b1,
            _ => false,
        }
    }
}

/// A committed event.
#[derive(Debug, PartialEq, Eq)]
pub struct Event {
    pub seq: EventSeq,
    pub client_id: ClientId,
    pub client_seq: ClientSeq,
    pub author: Author,
    pub ts: Timestamp,
    pub body: EventBody,
}

/// Model of [`Event`].
#[verifier::ext_equal]
pub struct SpecEvent {
    pub seq: EventSeq,
    pub client_id: ClientId,
    pub client_seq: ClientSeq,
    pub author: SpecAuthor,
    pub ts: Timestamp,
    pub body: SpecEventBody,
}

impl DeepView for Event {
    type V = SpecEvent;

    open spec fn deep_view(&self) -> SpecEvent {
        SpecEvent {
            seq: self.seq,
            client_id: self.client_id,
            client_seq: self.client_seq,
            author: self.author.deep_view(),
            ts: self.ts,
            body: self.body.deep_view(),
        }
    }
}

impl Value for Event {
    fn dup(&self) -> (r: Self) {
        Event {
            seq: self.seq,
            client_id: self.client_id,
            client_seq: self.client_seq,
            author: self.author.dup(),
            ts: self.ts,
            body: self.body.dup(),
        }
    }

    fn same(&self, other: &Self) -> (b: bool) {
        self.seq == other.seq
            && self.client_id == other.client_id
            && self.client_seq == other.client_seq
            && self.author.same(&other.author)
            && self.ts == other.ts
            && self.body.same(&other.body)
    }
}

/// The new revision of one side of a target.
#[derive(Debug, PartialEq, Eq)]
pub enum TargetRevision {
    Base { ref_spec: BaseRefSpec },
    Head { ref_spec: RefSpec },
}

/// Model of [`TargetRevision`].
#[verifier::ext_equal]
pub enum SpecTargetRevision {
    Base { ref_spec: SpecBaseRefSpec },
    Head { ref_spec: SpecRefSpec },
}

impl DeepView for TargetRevision {
    type V = SpecTargetRevision;

    open spec fn deep_view(&self) -> SpecTargetRevision {
        match self {
            TargetRevision::Base { ref_spec } => SpecTargetRevision::Base {
                ref_spec: ref_spec.deep_view(),
            },
            TargetRevision::Head { ref_spec } => SpecTargetRevision::Head {
                ref_spec: ref_spec.deep_view(),
            },
        }
    }
}

impl Value for TargetRevision {
    fn dup(&self) -> (r: Self) {
        match self {
            TargetRevision::Base { ref_spec } => TargetRevision::Base {
                ref_spec: ref_spec.dup(),
            },
            TargetRevision::Head { ref_spec } => TargetRevision::Head {
                ref_spec: ref_spec.dup(),
            },
        }
    }

    fn same(&self, other: &Self) -> (b: bool) {
        match (self, other) {
            (TargetRevision::Base { ref_spec: a0 }, TargetRevision::Base { ref_spec: b0 }) => a0.same(b0),
            (TargetRevision::Head { ref_spec: a0 }, TargetRevision::Head { ref_spec: b0 }) => a0.same(b0),
            _ => false,
        }
    }
}

/// A change to one repository's base or head.
#[derive(Debug, PartialEq, Eq)]
pub struct ReviewTargetUpdate {
    pub repo_id: RepoId,
    pub revision: TargetRevision,
}

/// Model of [`ReviewTargetUpdate`].
#[verifier::ext_equal]
pub struct SpecReviewTargetUpdate {
    pub repo_id: RepoId,
    pub revision: SpecTargetRevision,
}

impl DeepView for ReviewTargetUpdate {
    type V = SpecReviewTargetUpdate;

    open spec fn deep_view(&self) -> SpecReviewTargetUpdate {
        SpecReviewTargetUpdate {
            repo_id: self.repo_id,
            revision: self.revision.deep_view(),
        }
    }
}

impl Value for ReviewTargetUpdate {
    fn dup(&self) -> (r: Self) {
        ReviewTargetUpdate {
            repo_id: self.repo_id,
            revision: self.revision.dup(),
        }
    }

    fn same(&self, other: &Self) -> (b: bool) {
        self.repo_id == other.repo_id
            && self.revision.same(&other.revision)
    }
}

/// A change a client asks the daemon to commit.
#[derive(Debug, PartialEq, Eq)]
pub enum Mutation {
    CreateWorkspace { name: String },
    RenameWorkspace { workspace_id: WorkspaceId, name: String },
    AttachRepo { workspace_id: WorkspaceId, checkout: String },
    DetachRepo { workspace_id: WorkspaceId, repo_id: RepoId },
    CreateReview { review_id: ReviewId, workspace_id: WorkspaceId, title: String, targets: Vec<ReviewTarget> },
    UpdateReview { review_id: ReviewId, title: String, status: ReviewStatus },
    UpdateReviewTarget { review_id: ReviewId, update: ReviewTargetUpdate },
    DeleteReview { review_id: ReviewId },
    AddComment {
        review_id: ReviewId,
        comment_id: CommentId,
        kind: CommentKind,
        anchor: Anchor,
        body: String,
        context: Option<CommentContext>,
    },
    Reply {
        review_id: ReviewId,
        thread_id: ThreadId,
        comment_id: CommentId,
        kind: CommentKind,
        body: String,
    },
    EditComment { review_id: ReviewId, comment_id: CommentId, body: String },
    DeleteComment { review_id: ReviewId, comment_id: CommentId },
    ResolveThread { review_id: ReviewId, thread_id: ThreadId },
    UnresolveThread { review_id: ReviewId, thread_id: ThreadId },
    MarkViewed { review_id: ReviewId, repo_id: RepoId, path: RepoPath },
    UnmarkViewed { review_id: ReviewId, repo_id: RepoId, path: RepoPath },
    RequestReview { review_id: ReviewId, reviewer: String },
    ApplySuggestion { review_id: ReviewId, comment_id: CommentId },
}

/// Model of [`Mutation`].
#[verifier::ext_equal]
pub enum SpecMutation {
    CreateWorkspace { name: Seq<char> },
    RenameWorkspace { workspace_id: WorkspaceId, name: Seq<char> },
    AttachRepo { workspace_id: WorkspaceId, checkout: Seq<char> },
    DetachRepo { workspace_id: WorkspaceId, repo_id: RepoId },
    CreateReview { review_id: ReviewId, workspace_id: WorkspaceId, title: Seq<char>, targets: Seq<SpecReviewTarget> },
    UpdateReview { review_id: ReviewId, title: Seq<char>, status: ReviewStatus },
    UpdateReviewTarget { review_id: ReviewId, update: SpecReviewTargetUpdate },
    DeleteReview { review_id: ReviewId },
    AddComment { review_id: ReviewId, comment_id: CommentId, kind: SpecCommentKind, anchor: SpecAnchor, body: Seq<char>, context: Option<SpecCommentContext> },
    Reply { review_id: ReviewId, thread_id: ThreadId, comment_id: CommentId, kind: SpecCommentKind, body: Seq<char> },
    EditComment { review_id: ReviewId, comment_id: CommentId, body: Seq<char> },
    DeleteComment { review_id: ReviewId, comment_id: CommentId },
    ResolveThread { review_id: ReviewId, thread_id: ThreadId },
    UnresolveThread { review_id: ReviewId, thread_id: ThreadId },
    MarkViewed { review_id: ReviewId, repo_id: RepoId, path: SpecRepoPath },
    UnmarkViewed { review_id: ReviewId, repo_id: RepoId, path: SpecRepoPath },
    RequestReview { review_id: ReviewId, reviewer: Seq<char> },
    ApplySuggestion { review_id: ReviewId, comment_id: CommentId },
}

impl DeepView for Mutation {
    type V = SpecMutation;

    open spec fn deep_view(&self) -> SpecMutation {
        match self {
            Mutation::CreateWorkspace { name } => SpecMutation::CreateWorkspace {
                name: name.deep_view(),
            },
            Mutation::RenameWorkspace { workspace_id, name } => SpecMutation::RenameWorkspace {
                workspace_id: *workspace_id,
                name: name.deep_view(),
            },
            Mutation::AttachRepo { workspace_id, checkout } => SpecMutation::AttachRepo {
                workspace_id: *workspace_id,
                checkout: checkout.deep_view(),
            },
            Mutation::DetachRepo { workspace_id, repo_id } => SpecMutation::DetachRepo {
                workspace_id: *workspace_id,
                repo_id: *repo_id,
            },
            Mutation::CreateReview { review_id, workspace_id, title, targets } => SpecMutation::CreateReview {
                review_id: *review_id,
                workspace_id: *workspace_id,
                title: title.deep_view(),
                targets: targets.deep_view(),
            },
            Mutation::UpdateReview { review_id, title, status } => SpecMutation::UpdateReview {
                review_id: *review_id,
                title: title.deep_view(),
                status: *status,
            },
            Mutation::UpdateReviewTarget { review_id, update } => SpecMutation::UpdateReviewTarget {
                review_id: *review_id,
                update: update.deep_view(),
            },
            Mutation::DeleteReview { review_id } => SpecMutation::DeleteReview {
                review_id: *review_id,
            },
            Mutation::AddComment { review_id, comment_id, kind, anchor, body, context } => SpecMutation::AddComment {
                review_id: *review_id,
                comment_id: *comment_id,
                kind: kind.deep_view(),
                anchor: anchor.deep_view(),
                body: body.deep_view(),
                context: context.deep_view(),
            },
            Mutation::Reply { review_id, thread_id, comment_id, kind, body } => SpecMutation::Reply {
                review_id: *review_id,
                thread_id: *thread_id,
                comment_id: *comment_id,
                kind: kind.deep_view(),
                body: body.deep_view(),
            },
            Mutation::EditComment { review_id, comment_id, body } => SpecMutation::EditComment {
                review_id: *review_id,
                comment_id: *comment_id,
                body: body.deep_view(),
            },
            Mutation::DeleteComment { review_id, comment_id } => SpecMutation::DeleteComment {
                review_id: *review_id,
                comment_id: *comment_id,
            },
            Mutation::ResolveThread { review_id, thread_id } => SpecMutation::ResolveThread {
                review_id: *review_id,
                thread_id: *thread_id,
            },
            Mutation::UnresolveThread { review_id, thread_id } => SpecMutation::UnresolveThread {
                review_id: *review_id,
                thread_id: *thread_id,
            },
            Mutation::MarkViewed { review_id, repo_id, path } => SpecMutation::MarkViewed {
                review_id: *review_id,
                repo_id: *repo_id,
                path: path.deep_view(),
            },
            Mutation::UnmarkViewed { review_id, repo_id, path } => SpecMutation::UnmarkViewed {
                review_id: *review_id,
                repo_id: *repo_id,
                path: path.deep_view(),
            },
            Mutation::RequestReview { review_id, reviewer } => SpecMutation::RequestReview {
                review_id: *review_id,
                reviewer: reviewer.deep_view(),
            },
            Mutation::ApplySuggestion { review_id, comment_id } => SpecMutation::ApplySuggestion {
                review_id: *review_id,
                comment_id: *comment_id,
            },
        }
    }
}

impl Value for Mutation {
    fn dup(&self) -> (r: Self) {
        match self {
            Mutation::CreateWorkspace { name } => Mutation::CreateWorkspace {
                name: name.dup(),
            },
            Mutation::RenameWorkspace { workspace_id, name } => Mutation::RenameWorkspace {
                workspace_id: *workspace_id,
                name: name.dup(),
            },
            Mutation::AttachRepo { workspace_id, checkout } => Mutation::AttachRepo {
                workspace_id: *workspace_id,
                checkout: checkout.dup(),
            },
            Mutation::DetachRepo { workspace_id, repo_id } => Mutation::DetachRepo {
                workspace_id: *workspace_id,
                repo_id: *repo_id,
            },
            Mutation::CreateReview { review_id, workspace_id, title, targets } => Mutation::CreateReview {
                review_id: *review_id,
                workspace_id: *workspace_id,
                title: title.dup(),
                targets: targets.dup(),
            },
            Mutation::UpdateReview { review_id, title, status } => Mutation::UpdateReview {
                review_id: *review_id,
                title: title.dup(),
                status: *status,
            },
            Mutation::UpdateReviewTarget { review_id, update } => Mutation::UpdateReviewTarget {
                review_id: *review_id,
                update: update.dup(),
            },
            Mutation::DeleteReview { review_id } => Mutation::DeleteReview {
                review_id: *review_id,
            },
            Mutation::AddComment { review_id, comment_id, kind, anchor, body, context } => Mutation::AddComment {
                review_id: *review_id,
                comment_id: *comment_id,
                kind: kind.dup(),
                anchor: anchor.dup(),
                body: body.dup(),
                context: context.dup(),
            },
            Mutation::Reply { review_id, thread_id, comment_id, kind, body } => Mutation::Reply {
                review_id: *review_id,
                thread_id: *thread_id,
                comment_id: *comment_id,
                kind: kind.dup(),
                body: body.dup(),
            },
            Mutation::EditComment { review_id, comment_id, body } => Mutation::EditComment {
                review_id: *review_id,
                comment_id: *comment_id,
                body: body.dup(),
            },
            Mutation::DeleteComment { review_id, comment_id } => Mutation::DeleteComment {
                review_id: *review_id,
                comment_id: *comment_id,
            },
            Mutation::ResolveThread { review_id, thread_id } => Mutation::ResolveThread {
                review_id: *review_id,
                thread_id: *thread_id,
            },
            Mutation::UnresolveThread { review_id, thread_id } => Mutation::UnresolveThread {
                review_id: *review_id,
                thread_id: *thread_id,
            },
            Mutation::MarkViewed { review_id, repo_id, path } => Mutation::MarkViewed {
                review_id: *review_id,
                repo_id: *repo_id,
                path: path.dup(),
            },
            Mutation::UnmarkViewed { review_id, repo_id, path } => Mutation::UnmarkViewed {
                review_id: *review_id,
                repo_id: *repo_id,
                path: path.dup(),
            },
            Mutation::RequestReview { review_id, reviewer } => Mutation::RequestReview {
                review_id: *review_id,
                reviewer: reviewer.dup(),
            },
            Mutation::ApplySuggestion { review_id, comment_id } => Mutation::ApplySuggestion {
                review_id: *review_id,
                comment_id: *comment_id,
            },
        }
    }

    fn same(&self, other: &Self) -> (b: bool) {
        match (self, other) {
            (Mutation::CreateWorkspace { name: a0 }, Mutation::CreateWorkspace { name: b0 }) => a0.same(b0),
            (Mutation::RenameWorkspace { workspace_id: a0, name: a1 }, Mutation::RenameWorkspace { workspace_id: b0, name: b1 }) => *a0 == *b0 && a1.same(b1),
            (Mutation::AttachRepo { workspace_id: a0, checkout: a1 }, Mutation::AttachRepo { workspace_id: b0, checkout: b1 }) => *a0 == *b0 && a1.same(b1),
            (Mutation::DetachRepo { workspace_id: a0, repo_id: a1 }, Mutation::DetachRepo { workspace_id: b0, repo_id: b1 }) => *a0 == *b0 && *a1 == *b1,
            (Mutation::CreateReview { review_id: a0, workspace_id: a1, title: a2, targets: a3 }, Mutation::CreateReview { review_id: b0, workspace_id: b1, title: b2, targets: b3 }) => *a0 == *b0 && *a1 == *b1 && a2.same(b2) && a3.same(b3),
            (Mutation::UpdateReview { review_id: a0, title: a1, status: a2 }, Mutation::UpdateReview { review_id: b0, title: b1, status: b2 }) => *a0 == *b0 && a1.same(b1) && *a2 == *b2,
            (Mutation::UpdateReviewTarget { review_id: a0, update: a1 }, Mutation::UpdateReviewTarget { review_id: b0, update: b1 }) => *a0 == *b0 && a1.same(b1),
            (Mutation::DeleteReview { review_id: a0 }, Mutation::DeleteReview { review_id: b0 }) => *a0 == *b0,
            (Mutation::AddComment { review_id: a0, comment_id: a1, kind: a2, anchor: a3, body: a4, context: a5 }, Mutation::AddComment { review_id: b0, comment_id: b1, kind: b2, anchor: b3, body: b4, context: b5 }) => *a0 == *b0 && *a1 == *b1 && a2.same(b2) && a3.same(b3) && a4.same(b4) && a5.same(b5),
            (Mutation::Reply { review_id: a0, thread_id: a1, comment_id: a2, kind: a3, body: a4 }, Mutation::Reply { review_id: b0, thread_id: b1, comment_id: b2, kind: b3, body: b4 }) => *a0 == *b0 && *a1 == *b1 && *a2 == *b2 && a3.same(b3) && a4.same(b4),
            (Mutation::EditComment { review_id: a0, comment_id: a1, body: a2 }, Mutation::EditComment { review_id: b0, comment_id: b1, body: b2 }) => *a0 == *b0 && *a1 == *b1 && a2.same(b2),
            (Mutation::DeleteComment { review_id: a0, comment_id: a1 }, Mutation::DeleteComment { review_id: b0, comment_id: b1 }) => *a0 == *b0 && *a1 == *b1,
            (Mutation::ResolveThread { review_id: a0, thread_id: a1 }, Mutation::ResolveThread { review_id: b0, thread_id: b1 }) => *a0 == *b0 && *a1 == *b1,
            (Mutation::UnresolveThread { review_id: a0, thread_id: a1 }, Mutation::UnresolveThread { review_id: b0, thread_id: b1 }) => *a0 == *b0 && *a1 == *b1,
            (Mutation::MarkViewed { review_id: a0, repo_id: a1, path: a2 }, Mutation::MarkViewed { review_id: b0, repo_id: b1, path: b2 }) => *a0 == *b0 && *a1 == *b1 && a2.same(b2),
            (Mutation::UnmarkViewed { review_id: a0, repo_id: a1, path: a2 }, Mutation::UnmarkViewed { review_id: b0, repo_id: b1, path: b2 }) => *a0 == *b0 && *a1 == *b1 && a2.same(b2),
            (Mutation::RequestReview { review_id: a0, reviewer: a1 }, Mutation::RequestReview { review_id: b0, reviewer: b1 }) => *a0 == *b0 && a1.same(b1),
            (Mutation::ApplySuggestion { review_id: a0, comment_id: a1 }, Mutation::ApplySuggestion { review_id: b0, comment_id: b1 }) => *a0 == *b0 && *a1 == *b1,
            _ => false,
        }
    }
}

/// What a mutation does.
#[derive(Debug, Clone, Copy, PartialEq, Eq, Structural)]
pub enum MutationKind {
    CreateWorkspace,
    RenameWorkspace,
    AttachRepo,
    DetachRepo,
    CreateReview,
    UpdateReview,
    UpdateReviewTarget,
    DeleteReview,
    AddComment,
    Reply,
    EditComment,
    DeleteComment,
    ResolveThread,
    UnresolveThread,
    MarkViewed,
    UnmarkViewed,
    RequestReview,
    ApplySuggestion,
    /// No [`Mutation`] does this: the client does not send it.
    DeferFinding,
}

impl DeepView for MutationKind {
    type V = MutationKind;

    open spec fn deep_view(&self) -> MutationKind {
        *self
    }
}

impl Value for MutationKind {
    fn dup(&self) -> (r: Self) {
        *self
    }

    fn same(&self, other: &Self) -> (b: bool) {
        *self == *other
    }
}


// ---- messages -------------------------------------------------------------

/// What kind of thing was not found.
#[derive(Debug, Clone, Copy, PartialEq, Eq, Structural)]
pub enum EntityKind {
    Workspace,
    Repo,
    Review,
    Thread,
    Comment,
}

impl DeepView for EntityKind {
    type V = EntityKind;

    open spec fn deep_view(&self) -> EntityKind {
        *self
    }
}

impl Value for EntityKind {
    fn dup(&self) -> (r: Self) {
        *self
    }

    fn same(&self, other: &Self) -> (b: bool) {
        *self == *other
    }
}

/// Why the daemon refused a request.
#[derive(Debug, PartialEq, Eq)]
pub enum RpcError {
    NotFound { kind: EntityKind, id: String },
    Invalid { reason: String },
    Forbidden { reason: String },
    SeqTooOld { oldest: EventSeq },
    Cancelled,
    UnsupportedProtocol { requested: u32 },
    VersionMismatch { negotiated: u32, received: u32 },
    Internal { message: String },
}

/// Model of [`RpcError`].
#[verifier::ext_equal]
pub enum SpecRpcError {
    NotFound { kind: EntityKind, id: Seq<char> },
    Invalid { reason: Seq<char> },
    Forbidden { reason: Seq<char> },
    SeqTooOld { oldest: EventSeq },
    Cancelled,
    UnsupportedProtocol { requested: u32 },
    VersionMismatch { negotiated: u32, received: u32 },
    Internal { message: Seq<char> },
}

impl DeepView for RpcError {
    type V = SpecRpcError;

    open spec fn deep_view(&self) -> SpecRpcError {
        match self {
            RpcError::NotFound { kind, id } => SpecRpcError::NotFound {
                kind: *kind,
                id: id.deep_view(),
            },
            RpcError::Invalid { reason } => SpecRpcError::Invalid {
                reason: reason.deep_view(),
            },
            RpcError::Forbidden { reason } => SpecRpcError::Forbidden {
                reason: reason.deep_view(),
            },
            RpcError::SeqTooOld { oldest } => SpecRpcError::SeqTooOld {
                oldest: *oldest,
            },
            RpcError::Cancelled => SpecRpcError::Cancelled,
            RpcError::UnsupportedProtocol { requested } => SpecRpcError::UnsupportedProtocol {
                requested: *requested,
            },
            RpcError::VersionMismatch { negotiated, received } => SpecRpcError::VersionMismatch {
                negotiated: *negotiated,
                received: *received,
            },
            RpcError::Internal { message } => SpecRpcError::Internal {
                message: message.deep_view(),
            },
        }
    }
}

impl Value for RpcError {
    fn dup(&self) -> (r: Self) {
        match self {
            RpcError::NotFound { kind, id } => RpcError::NotFound {
                kind: *kind,
                id: id.dup(),
            },
            RpcError::Invalid { reason } => RpcError::Invalid {
                reason: reason.dup(),
            },
            RpcError::Forbidden { reason } => RpcError::Forbidden {
                reason: reason.dup(),
            },
            RpcError::SeqTooOld { oldest } => RpcError::SeqTooOld {
                oldest: *oldest,
            },
            RpcError::Cancelled => RpcError::Cancelled,
            RpcError::UnsupportedProtocol { requested } => RpcError::UnsupportedProtocol {
                requested: *requested,
            },
            RpcError::VersionMismatch { negotiated, received } => RpcError::VersionMismatch {
                negotiated: *negotiated,
                received: *received,
            },
            RpcError::Internal { message } => RpcError::Internal {
                message: message.dup(),
            },
        }
    }

    fn same(&self, other: &Self) -> (b: bool) {
        match (self, other) {
            (RpcError::NotFound { kind: a0, id: a1 }, RpcError::NotFound { kind: b0, id: b1 }) => *a0 == *b0 && a1.same(b1),
            (RpcError::Invalid { reason: a0 }, RpcError::Invalid { reason: b0 }) => a0.same(b0),
            (RpcError::Forbidden { reason: a0 }, RpcError::Forbidden { reason: b0 }) => a0.same(b0),
            (RpcError::SeqTooOld { oldest: a0 }, RpcError::SeqTooOld { oldest: b0 }) => *a0 == *b0,
            (RpcError::Cancelled, RpcError::Cancelled) => true,
            (RpcError::UnsupportedProtocol { requested: a0 }, RpcError::UnsupportedProtocol { requested: b0 }) => *a0 == *b0,
            (RpcError::VersionMismatch { negotiated: a0, received: a1 }, RpcError::VersionMismatch { negotiated: b0, received: b1 }) => *a0 == *b0 && *a1 == *b1,
            (RpcError::Internal { message: a0 }, RpcError::Internal { message: b0 }) => a0.same(b0),
            _ => false,
        }
    }
}

/// Where a subscription starts.
#[derive(Debug, Clone, Copy, PartialEq, Eq, Structural)]
pub enum Since {
    Now,
    After { seq: EventSeq },
}

impl DeepView for Since {
    type V = Since;

    open spec fn deep_view(&self) -> Since {
        *self
    }
}

impl Value for Since {
    fn dup(&self) -> (r: Self) {
        *self
    }

    fn same(&self, other: &Self) -> (b: bool) {
        *self == *other
    }
}

/// What a client asks of the daemon.
#[derive(Debug, PartialEq, Eq)]
pub enum Request {
    Subscribe { since: Since },
    ListWorkspaces,
    ListReviews { workspace_id: WorkspaceId },
    OpenReview { review_id: ReviewId, opts: RenderOpts },
    ReviewSnapshot { review_id: ReviewId },
    GetReview { review_id: ReviewId },
    ListFiles { review_id: ReviewId, scope: DiffScope },
    ListCommits { review_id: ReviewId, repo_id: RepoId },
    ListRefs { repo_id: RepoId },
    DefaultBase { repo_id: RepoId },
    Search { review_id: ReviewId, query: String, all_files: bool, scope: DiffScope },
    TreeSnapshot { repo_id: RepoId, ref_spec: RefSpec },
    FileRender {
        review_id: ReviewId,
        repo_id: RepoId,
        path: RepoPath,
        opts: RenderOpts,
        first_chunk: ChunkIndex,
        scope: DiffScope,
    },
    ChangeRender {
        repo_id: RepoId,
        path: RepoPath,
        change: ChangeKind,
        opts: RenderOpts,
        first_chunk: ChunkIndex,
    },
    BlobRender { repo_id: RepoId, path: RepoPath, blob_oid: BlobOid, first_chunk: ChunkIndex },
    RenderChunk {
        repo_id: RepoId,
        path: RepoPath,
        target: RenderTarget,
        opts: RenderOpts,
        index: ChunkIndex,
    },
    PreviewSuggestion { review_id: ReviewId, comment_id: CommentId },
    Mutate { client_seq: ClientSeq, mutation: Mutation },
}

/// Model of [`Request`].
#[verifier::ext_equal]
pub enum SpecRequest {
    Subscribe { since: Since },
    ListWorkspaces,
    ListReviews { workspace_id: WorkspaceId },
    OpenReview { review_id: ReviewId, opts: SpecRenderOpts },
    ReviewSnapshot { review_id: ReviewId },
    GetReview { review_id: ReviewId },
    ListFiles { review_id: ReviewId, scope: DiffScope },
    ListCommits { review_id: ReviewId, repo_id: RepoId },
    ListRefs { repo_id: RepoId },
    DefaultBase { repo_id: RepoId },
    Search { review_id: ReviewId, query: Seq<char>, all_files: bool, scope: DiffScope },
    TreeSnapshot { repo_id: RepoId, ref_spec: SpecRefSpec },
    FileRender { review_id: ReviewId, repo_id: RepoId, path: SpecRepoPath, opts: SpecRenderOpts, first_chunk: ChunkIndex, scope: DiffScope },
    ChangeRender { repo_id: RepoId, path: SpecRepoPath, change: SpecChangeKind, opts: SpecRenderOpts, first_chunk: ChunkIndex },
    BlobRender { repo_id: RepoId, path: SpecRepoPath, blob_oid: BlobOid, first_chunk: ChunkIndex },
    RenderChunk { repo_id: RepoId, path: SpecRepoPath, target: SpecRenderTarget, opts: SpecRenderOpts, index: ChunkIndex },
    PreviewSuggestion { review_id: ReviewId, comment_id: CommentId },
    Mutate { client_seq: ClientSeq, mutation: SpecMutation },
}

impl DeepView for Request {
    type V = SpecRequest;

    open spec fn deep_view(&self) -> SpecRequest {
        match self {
            Request::Subscribe { since } => SpecRequest::Subscribe {
                since: *since,
            },
            Request::ListWorkspaces => SpecRequest::ListWorkspaces,
            Request::ListReviews { workspace_id } => SpecRequest::ListReviews {
                workspace_id: *workspace_id,
            },
            Request::OpenReview { review_id, opts } => SpecRequest::OpenReview {
                review_id: *review_id,
                opts: opts.deep_view(),
            },
            Request::ReviewSnapshot { review_id } => SpecRequest::ReviewSnapshot {
                review_id: *review_id,
            },
            Request::GetReview { review_id } => SpecRequest::GetReview {
                review_id: *review_id,
            },
            Request::ListFiles { review_id, scope } => SpecRequest::ListFiles {
                review_id: *review_id,
                scope: *scope,
            },
            Request::ListCommits { review_id, repo_id } => SpecRequest::ListCommits {
                review_id: *review_id,
                repo_id: *repo_id,
            },
            Request::ListRefs { repo_id } => SpecRequest::ListRefs {
                repo_id: *repo_id,
            },
            Request::DefaultBase { repo_id } => SpecRequest::DefaultBase {
                repo_id: *repo_id,
            },
            Request::Search { review_id, query, all_files, scope } => SpecRequest::Search {
                review_id: *review_id,
                query: query.deep_view(),
                all_files: *all_files,
                scope: *scope,
            },
            Request::TreeSnapshot { repo_id, ref_spec } => SpecRequest::TreeSnapshot {
                repo_id: *repo_id,
                ref_spec: ref_spec.deep_view(),
            },
            Request::FileRender { review_id, repo_id, path, opts, first_chunk, scope } => SpecRequest::FileRender {
                review_id: *review_id,
                repo_id: *repo_id,
                path: path.deep_view(),
                opts: opts.deep_view(),
                first_chunk: *first_chunk,
                scope: *scope,
            },
            Request::ChangeRender { repo_id, path, change, opts, first_chunk } => SpecRequest::ChangeRender {
                repo_id: *repo_id,
                path: path.deep_view(),
                change: change.deep_view(),
                opts: opts.deep_view(),
                first_chunk: *first_chunk,
            },
            Request::BlobRender { repo_id, path, blob_oid, first_chunk } => SpecRequest::BlobRender {
                repo_id: *repo_id,
                path: path.deep_view(),
                blob_oid: *blob_oid,
                first_chunk: *first_chunk,
            },
            Request::RenderChunk { repo_id, path, target, opts, index } => SpecRequest::RenderChunk {
                repo_id: *repo_id,
                path: path.deep_view(),
                target: target.deep_view(),
                opts: opts.deep_view(),
                index: *index,
            },
            Request::PreviewSuggestion { review_id, comment_id } => SpecRequest::PreviewSuggestion {
                review_id: *review_id,
                comment_id: *comment_id,
            },
            Request::Mutate { client_seq, mutation } => SpecRequest::Mutate {
                client_seq: *client_seq,
                mutation: mutation.deep_view(),
            },
        }
    }
}

impl Value for Request {
    fn dup(&self) -> (r: Self) {
        match self {
            Request::Subscribe { since } => Request::Subscribe {
                since: *since,
            },
            Request::ListWorkspaces => Request::ListWorkspaces,
            Request::ListReviews { workspace_id } => Request::ListReviews {
                workspace_id: *workspace_id,
            },
            Request::OpenReview { review_id, opts } => Request::OpenReview {
                review_id: *review_id,
                opts: opts.dup(),
            },
            Request::ReviewSnapshot { review_id } => Request::ReviewSnapshot {
                review_id: *review_id,
            },
            Request::GetReview { review_id } => Request::GetReview {
                review_id: *review_id,
            },
            Request::ListFiles { review_id, scope } => Request::ListFiles {
                review_id: *review_id,
                scope: *scope,
            },
            Request::ListCommits { review_id, repo_id } => Request::ListCommits {
                review_id: *review_id,
                repo_id: *repo_id,
            },
            Request::ListRefs { repo_id } => Request::ListRefs {
                repo_id: *repo_id,
            },
            Request::DefaultBase { repo_id } => Request::DefaultBase {
                repo_id: *repo_id,
            },
            Request::Search { review_id, query, all_files, scope } => Request::Search {
                review_id: *review_id,
                query: query.dup(),
                all_files: *all_files,
                scope: *scope,
            },
            Request::TreeSnapshot { repo_id, ref_spec } => Request::TreeSnapshot {
                repo_id: *repo_id,
                ref_spec: ref_spec.dup(),
            },
            Request::FileRender { review_id, repo_id, path, opts, first_chunk, scope } => Request::FileRender {
                review_id: *review_id,
                repo_id: *repo_id,
                path: path.dup(),
                opts: opts.dup(),
                first_chunk: *first_chunk,
                scope: *scope,
            },
            Request::ChangeRender { repo_id, path, change, opts, first_chunk } => Request::ChangeRender {
                repo_id: *repo_id,
                path: path.dup(),
                change: change.dup(),
                opts: opts.dup(),
                first_chunk: *first_chunk,
            },
            Request::BlobRender { repo_id, path, blob_oid, first_chunk } => Request::BlobRender {
                repo_id: *repo_id,
                path: path.dup(),
                blob_oid: *blob_oid,
                first_chunk: *first_chunk,
            },
            Request::RenderChunk { repo_id, path, target, opts, index } => Request::RenderChunk {
                repo_id: *repo_id,
                path: path.dup(),
                target: target.dup(),
                opts: opts.dup(),
                index: *index,
            },
            Request::PreviewSuggestion { review_id, comment_id } => Request::PreviewSuggestion {
                review_id: *review_id,
                comment_id: *comment_id,
            },
            Request::Mutate { client_seq, mutation } => Request::Mutate {
                client_seq: *client_seq,
                mutation: mutation.dup(),
            },
        }
    }

    fn same(&self, other: &Self) -> (b: bool) {
        match (self, other) {
            (Request::Subscribe { since: a0 }, Request::Subscribe { since: b0 }) => *a0 == *b0,
            (Request::ListWorkspaces, Request::ListWorkspaces) => true,
            (Request::ListReviews { workspace_id: a0 }, Request::ListReviews { workspace_id: b0 }) => *a0 == *b0,
            (Request::OpenReview { review_id: a0, opts: a1 }, Request::OpenReview { review_id: b0, opts: b1 }) => *a0 == *b0 && a1.same(b1),
            (Request::ReviewSnapshot { review_id: a0 }, Request::ReviewSnapshot { review_id: b0 }) => *a0 == *b0,
            (Request::GetReview { review_id: a0 }, Request::GetReview { review_id: b0 }) => *a0 == *b0,
            (Request::ListFiles { review_id: a0, scope: a1 }, Request::ListFiles { review_id: b0, scope: b1 }) => *a0 == *b0 && *a1 == *b1,
            (Request::ListCommits { review_id: a0, repo_id: a1 }, Request::ListCommits { review_id: b0, repo_id: b1 }) => *a0 == *b0 && *a1 == *b1,
            (Request::ListRefs { repo_id: a0 }, Request::ListRefs { repo_id: b0 }) => *a0 == *b0,
            (Request::DefaultBase { repo_id: a0 }, Request::DefaultBase { repo_id: b0 }) => *a0 == *b0,
            (Request::Search { review_id: a0, query: a1, all_files: a2, scope: a3 }, Request::Search { review_id: b0, query: b1, all_files: b2, scope: b3 }) => *a0 == *b0 && a1.same(b1) && *a2 == *b2 && *a3 == *b3,
            (Request::TreeSnapshot { repo_id: a0, ref_spec: a1 }, Request::TreeSnapshot { repo_id: b0, ref_spec: b1 }) => *a0 == *b0 && a1.same(b1),
            (Request::FileRender { review_id: a0, repo_id: a1, path: a2, opts: a3, first_chunk: a4, scope: a5 }, Request::FileRender { review_id: b0, repo_id: b1, path: b2, opts: b3, first_chunk: b4, scope: b5 }) => *a0 == *b0 && *a1 == *b1 && a2.same(b2) && a3.same(b3) && *a4 == *b4 && *a5 == *b5,
            (Request::ChangeRender { repo_id: a0, path: a1, change: a2, opts: a3, first_chunk: a4 }, Request::ChangeRender { repo_id: b0, path: b1, change: b2, opts: b3, first_chunk: b4 }) => *a0 == *b0 && a1.same(b1) && a2.same(b2) && a3.same(b3) && *a4 == *b4,
            (Request::BlobRender { repo_id: a0, path: a1, blob_oid: a2, first_chunk: a3 }, Request::BlobRender { repo_id: b0, path: b1, blob_oid: b2, first_chunk: b3 }) => *a0 == *b0 && a1.same(b1) && *a2 == *b2 && *a3 == *b3,
            (Request::RenderChunk { repo_id: a0, path: a1, target: a2, opts: a3, index: a4 }, Request::RenderChunk { repo_id: b0, path: b1, target: b2, opts: b3, index: b4 }) => *a0 == *b0 && a1.same(b1) && a2.same(b2) && a3.same(b3) && *a4 == *b4,
            (Request::PreviewSuggestion { review_id: a0, comment_id: a1 }, Request::PreviewSuggestion { review_id: b0, comment_id: b1 }) => *a0 == *b0 && *a1 == *b1,
            (Request::Mutate { client_seq: a0, mutation: a1 }, Request::Mutate { client_seq: b0, mutation: b1 }) => *a0 == *b0 && a1.same(b1),
            _ => false,
        }
    }
}

/// One line a content search found.
#[derive(Debug, PartialEq, Eq)]
pub struct ContentHit {
    pub repo_id: RepoId,
    pub path: RepoPath,
    pub line: u32,
    pub text: String,
}

/// Model of [`ContentHit`].
#[verifier::ext_equal]
pub struct SpecContentHit {
    pub repo_id: RepoId,
    pub path: SpecRepoPath,
    pub line: u32,
    pub text: Seq<char>,
}

impl DeepView for ContentHit {
    type V = SpecContentHit;

    open spec fn deep_view(&self) -> SpecContentHit {
        SpecContentHit {
            repo_id: self.repo_id,
            path: self.path.deep_view(),
            line: self.line,
            text: self.text.deep_view(),
        }
    }
}

impl Value for ContentHit {
    fn dup(&self) -> (r: Self) {
        ContentHit {
            repo_id: self.repo_id,
            path: self.path.dup(),
            line: self.line,
            text: self.text.dup(),
        }
    }

    fn same(&self, other: &Self) -> (b: bool) {
        self.repo_id == other.repo_id
            && self.path.same(&other.path)
            && self.line == other.line
            && self.text.same(&other.text)
    }
}

/// The daemon's answer to a request.
#[derive(Debug, PartialEq, Eq)]
pub enum Response {
    Workspaces { workspaces: Vec<Workspace> },
    Reviews { reviews: Vec<Review> },
    DefaultBase { base: RefSpec },
    DirectoryReview { review_id: ReviewId },
    Review { review: Review },
    ReviewSnapshot { snapshot: ReviewSnapshot },
    Files { files: Vec<FileChange>, resolved: Vec<ResolvedTarget> },
    Resolved { targets: Vec<ResolvedTarget> },
    Search { hits: Vec<ContentHit>, truncated: bool },
    Commits { commits: Vec<CommitInfo> },
    Refs { repo_id: RepoId, refs: Vec<RefCandidate> },
    TreeSnapshot { snapshot: TreeSnapshot },
    RenderChunk { chunk: RenderChunk },
    SuggestionPreview { preview: SuggestionPreview },
    Subscribed { seq: EventSeq },
    Unsubscribed,
    Committed { event: Event },
    ShuttingDown,
}

/// Model of [`Response`].
#[verifier::ext_equal]
pub enum SpecResponse {
    Workspaces { workspaces: Seq<SpecWorkspace> },
    Reviews { reviews: Seq<SpecReview> },
    DefaultBase { base: SpecRefSpec },
    DirectoryReview { review_id: ReviewId },
    Review { review: SpecReview },
    ReviewSnapshot { snapshot: SpecReviewSnapshot },
    Files { files: Seq<SpecFileChange>, resolved: Seq<ResolvedTarget> },
    Resolved { targets: Seq<ResolvedTarget> },
    Search { hits: Seq<SpecContentHit>, truncated: bool },
    Commits { commits: Seq<SpecCommitInfo> },
    Refs { repo_id: RepoId, refs: Seq<SpecRefCandidate> },
    TreeSnapshot { snapshot: SpecTreeSnapshot },
    RenderChunk { chunk: SpecRenderChunk },
    SuggestionPreview { preview: SpecSuggestionPreview },
    Subscribed { seq: EventSeq },
    Unsubscribed,
    Committed { event: SpecEvent },
    ShuttingDown,
}

impl DeepView for Response {
    type V = SpecResponse;

    open spec fn deep_view(&self) -> SpecResponse {
        match self {
            Response::Workspaces { workspaces } => SpecResponse::Workspaces {
                workspaces: workspaces.deep_view(),
            },
            Response::Reviews { reviews } => SpecResponse::Reviews {
                reviews: reviews.deep_view(),
            },
            Response::DefaultBase { base } => SpecResponse::DefaultBase {
                base: base.deep_view(),
            },
            Response::DirectoryReview { review_id } => SpecResponse::DirectoryReview {
                review_id: *review_id,
            },
            Response::Review { review } => SpecResponse::Review {
                review: review.deep_view(),
            },
            Response::ReviewSnapshot { snapshot } => SpecResponse::ReviewSnapshot {
                snapshot: snapshot.deep_view(),
            },
            Response::Files { files, resolved } => SpecResponse::Files {
                files: files.deep_view(),
                resolved: resolved.deep_view(),
            },
            Response::Resolved { targets } => SpecResponse::Resolved {
                targets: targets.deep_view(),
            },
            Response::Search { hits, truncated } => SpecResponse::Search {
                hits: hits.deep_view(),
                truncated: *truncated,
            },
            Response::Commits { commits } => SpecResponse::Commits {
                commits: commits.deep_view(),
            },
            Response::Refs { repo_id, refs } => SpecResponse::Refs {
                repo_id: *repo_id,
                refs: refs.deep_view(),
            },
            Response::TreeSnapshot { snapshot } => SpecResponse::TreeSnapshot {
                snapshot: snapshot.deep_view(),
            },
            Response::RenderChunk { chunk } => SpecResponse::RenderChunk {
                chunk: chunk.deep_view(),
            },
            Response::SuggestionPreview { preview } => SpecResponse::SuggestionPreview {
                preview: preview.deep_view(),
            },
            Response::Subscribed { seq } => SpecResponse::Subscribed {
                seq: *seq,
            },
            Response::Unsubscribed => SpecResponse::Unsubscribed,
            Response::Committed { event } => SpecResponse::Committed {
                event: event.deep_view(),
            },
            Response::ShuttingDown => SpecResponse::ShuttingDown,
        }
    }
}

impl Value for Response {
    fn dup(&self) -> (r: Self) {
        match self {
            Response::Workspaces { workspaces } => Response::Workspaces {
                workspaces: workspaces.dup(),
            },
            Response::Reviews { reviews } => Response::Reviews {
                reviews: reviews.dup(),
            },
            Response::DefaultBase { base } => Response::DefaultBase {
                base: base.dup(),
            },
            Response::DirectoryReview { review_id } => Response::DirectoryReview {
                review_id: *review_id,
            },
            Response::Review { review } => Response::Review {
                review: review.dup(),
            },
            Response::ReviewSnapshot { snapshot } => Response::ReviewSnapshot {
                snapshot: snapshot.dup(),
            },
            Response::Files { files, resolved } => Response::Files {
                files: files.dup(),
                resolved: resolved.dup(),
            },
            Response::Resolved { targets } => Response::Resolved {
                targets: targets.dup(),
            },
            Response::Search { hits, truncated } => Response::Search {
                hits: hits.dup(),
                truncated: *truncated,
            },
            Response::Commits { commits } => Response::Commits {
                commits: commits.dup(),
            },
            Response::Refs { repo_id, refs } => Response::Refs {
                repo_id: *repo_id,
                refs: refs.dup(),
            },
            Response::TreeSnapshot { snapshot } => Response::TreeSnapshot {
                snapshot: snapshot.dup(),
            },
            Response::RenderChunk { chunk } => Response::RenderChunk {
                chunk: chunk.dup(),
            },
            Response::SuggestionPreview { preview } => Response::SuggestionPreview {
                preview: preview.dup(),
            },
            Response::Subscribed { seq } => Response::Subscribed {
                seq: *seq,
            },
            Response::Unsubscribed => Response::Unsubscribed,
            Response::Committed { event } => Response::Committed {
                event: event.dup(),
            },
            Response::ShuttingDown => Response::ShuttingDown,
        }
    }

    fn same(&self, other: &Self) -> (b: bool) {
        match (self, other) {
            (Response::Workspaces { workspaces: a0 }, Response::Workspaces { workspaces: b0 }) => a0.same(b0),
            (Response::Reviews { reviews: a0 }, Response::Reviews { reviews: b0 }) => a0.same(b0),
            (Response::DefaultBase { base: a0 }, Response::DefaultBase { base: b0 }) => a0.same(b0),
            (Response::DirectoryReview { review_id: a0 }, Response::DirectoryReview { review_id: b0 }) => *a0 == *b0,
            (Response::Review { review: a0 }, Response::Review { review: b0 }) => a0.same(b0),
            (Response::ReviewSnapshot { snapshot: a0 }, Response::ReviewSnapshot { snapshot: b0 }) => a0.same(b0),
            (Response::Files { files: a0, resolved: a1 }, Response::Files { files: b0, resolved: b1 }) => a0.same(b0) && a1.same(b1),
            (Response::Resolved { targets: a0 }, Response::Resolved { targets: b0 }) => a0.same(b0),
            (Response::Search { hits: a0, truncated: a1 }, Response::Search { hits: b0, truncated: b1 }) => a0.same(b0) && *a1 == *b1,
            (Response::Commits { commits: a0 }, Response::Commits { commits: b0 }) => a0.same(b0),
            (Response::Refs { repo_id: a0, refs: a1 }, Response::Refs { repo_id: b0, refs: b1 }) => *a0 == *b0 && a1.same(b1),
            (Response::TreeSnapshot { snapshot: a0 }, Response::TreeSnapshot { snapshot: b0 }) => a0.same(b0),
            (Response::RenderChunk { chunk: a0 }, Response::RenderChunk { chunk: b0 }) => a0.same(b0),
            (Response::SuggestionPreview { preview: a0 }, Response::SuggestionPreview { preview: b0 }) => a0.same(b0),
            (Response::Subscribed { seq: a0 }, Response::Subscribed { seq: b0 }) => *a0 == *b0,
            (Response::Unsubscribed, Response::Unsubscribed) => true,
            (Response::Committed { event: a0 }, Response::Committed { event: b0 }) => a0.same(b0),
            (Response::ShuttingDown, Response::ShuttingDown) => true,
            _ => false,
        }
    }
}

/// One item of a streamed answer.
#[derive(Debug, PartialEq, Eq)]
pub enum StreamItem {
    ReviewSnapshot { snapshot: ReviewSnapshot },
    TreeSnapshot { snapshot: TreeSnapshot },
    Header { header: FileRenderHeader },
    Chunk { repo_id: RepoId, path: RepoPath, chunk: RenderChunk },
}

/// Model of [`StreamItem`].
#[verifier::ext_equal]
pub enum SpecStreamItem {
    ReviewSnapshot { snapshot: SpecReviewSnapshot },
    TreeSnapshot { snapshot: SpecTreeSnapshot },
    Header { header: SpecFileRenderHeader },
    Chunk { repo_id: RepoId, path: SpecRepoPath, chunk: SpecRenderChunk },
}

impl DeepView for StreamItem {
    type V = SpecStreamItem;

    open spec fn deep_view(&self) -> SpecStreamItem {
        match self {
            StreamItem::ReviewSnapshot { snapshot } => SpecStreamItem::ReviewSnapshot {
                snapshot: snapshot.deep_view(),
            },
            StreamItem::TreeSnapshot { snapshot } => SpecStreamItem::TreeSnapshot {
                snapshot: snapshot.deep_view(),
            },
            StreamItem::Header { header } => SpecStreamItem::Header {
                header: header.deep_view(),
            },
            StreamItem::Chunk { repo_id, path, chunk } => SpecStreamItem::Chunk {
                repo_id: *repo_id,
                path: path.deep_view(),
                chunk: chunk.deep_view(),
            },
        }
    }
}

impl Value for StreamItem {
    fn dup(&self) -> (r: Self) {
        match self {
            StreamItem::ReviewSnapshot { snapshot } => StreamItem::ReviewSnapshot {
                snapshot: snapshot.dup(),
            },
            StreamItem::TreeSnapshot { snapshot } => StreamItem::TreeSnapshot {
                snapshot: snapshot.dup(),
            },
            StreamItem::Header { header } => StreamItem::Header {
                header: header.dup(),
            },
            StreamItem::Chunk { repo_id, path, chunk } => StreamItem::Chunk {
                repo_id: *repo_id,
                path: path.dup(),
                chunk: chunk.dup(),
            },
        }
    }

    fn same(&self, other: &Self) -> (b: bool) {
        match (self, other) {
            (StreamItem::ReviewSnapshot { snapshot: a0 }, StreamItem::ReviewSnapshot { snapshot: b0 }) => a0.same(b0),
            (StreamItem::TreeSnapshot { snapshot: a0 }, StreamItem::TreeSnapshot { snapshot: b0 }) => a0.same(b0),
            (StreamItem::Header { header: a0 }, StreamItem::Header { header: b0 }) => a0.same(b0),
            (StreamItem::Chunk { repo_id: a0, path: a1, chunk: a2 }, StreamItem::Chunk { repo_id: b0, path: b1, chunk: b2 }) => *a0 == *b0 && a1.same(b1) && a2.same(b2),
            _ => false,
        }
    }
}

/// A frame from the daemon. Where a frame brings cacheable content, the host
/// adds that content's encoded length, which cache budgets count: for a
/// tree delta, the length of the tree it leads to.
#[derive(Debug, PartialEq, Eq)]
pub enum ServerMsg {
    Welcome,
    Rejected { error: RpcError },
    Response { id: RequestId, response: Response, len: u64 },
    StreamItem { id: RequestId, item: StreamItem, len: u64 },
    StreamEnd { id: RequestId },
    Error { id: RequestId, error: RpcError },
    Event { event: Event },
    TreeDelta { delta: TreeDelta, len: u64 },
}

/// Model of [`ServerMsg`].
#[verifier::ext_equal]
pub enum SpecServerMsg {
    Welcome,
    Rejected { error: SpecRpcError },
    Response { id: RequestId, response: SpecResponse, len: u64 },
    StreamItem { id: RequestId, item: SpecStreamItem, len: u64 },
    StreamEnd { id: RequestId },
    Error { id: RequestId, error: SpecRpcError },
    Event { event: SpecEvent },
    TreeDelta { delta: SpecTreeDelta, len: u64 },
}

impl DeepView for ServerMsg {
    type V = SpecServerMsg;

    open spec fn deep_view(&self) -> SpecServerMsg {
        match self {
            ServerMsg::Welcome => SpecServerMsg::Welcome,
            ServerMsg::Rejected { error } => SpecServerMsg::Rejected {
                error: error.deep_view(),
            },
            ServerMsg::Response { id, response, len } => SpecServerMsg::Response {
                id: *id,
                response: response.deep_view(),
                len: *len,
            },
            ServerMsg::StreamItem { id, item, len } => SpecServerMsg::StreamItem {
                id: *id,
                item: item.deep_view(),
                len: *len,
            },
            ServerMsg::StreamEnd { id } => SpecServerMsg::StreamEnd {
                id: *id,
            },
            ServerMsg::Error { id, error } => SpecServerMsg::Error {
                id: *id,
                error: error.deep_view(),
            },
            ServerMsg::Event { event } => SpecServerMsg::Event {
                event: event.deep_view(),
            },
            ServerMsg::TreeDelta { delta, len } => SpecServerMsg::TreeDelta {
                delta: delta.deep_view(),
                len: *len,
            },
        }
    }
}

impl Value for ServerMsg {
    fn dup(&self) -> (r: Self) {
        match self {
            ServerMsg::Welcome => ServerMsg::Welcome,
            ServerMsg::Rejected { error } => ServerMsg::Rejected {
                error: error.dup(),
            },
            ServerMsg::Response { id, response, len } => ServerMsg::Response {
                id: *id,
                response: response.dup(),
                len: *len,
            },
            ServerMsg::StreamItem { id, item, len } => ServerMsg::StreamItem {
                id: *id,
                item: item.dup(),
                len: *len,
            },
            ServerMsg::StreamEnd { id } => ServerMsg::StreamEnd {
                id: *id,
            },
            ServerMsg::Error { id, error } => ServerMsg::Error {
                id: *id,
                error: error.dup(),
            },
            ServerMsg::Event { event } => ServerMsg::Event {
                event: event.dup(),
            },
            ServerMsg::TreeDelta { delta, len } => ServerMsg::TreeDelta {
                delta: delta.dup(),
                len: *len,
            },
        }
    }

    fn same(&self, other: &Self) -> (b: bool) {
        match (self, other) {
            (ServerMsg::Welcome, ServerMsg::Welcome) => true,
            (ServerMsg::Rejected { error: a0 }, ServerMsg::Rejected { error: b0 }) => a0.same(b0),
            (ServerMsg::Response { id: a0, response: a1, len: a2 }, ServerMsg::Response { id: b0, response: b1, len: b2 }) => *a0 == *b0 && a1.same(b1) && *a2 == *b2,
            (ServerMsg::StreamItem { id: a0, item: a1, len: a2 }, ServerMsg::StreamItem { id: b0, item: b1, len: b2 }) => *a0 == *b0 && a1.same(b1) && *a2 == *b2,
            (ServerMsg::StreamEnd { id: a0 }, ServerMsg::StreamEnd { id: b0 }) => *a0 == *b0,
            (ServerMsg::Error { id: a0, error: a1 }, ServerMsg::Error { id: b0, error: b1 }) => *a0 == *b0 && a1.same(b1),
            (ServerMsg::Event { event: a0 }, ServerMsg::Event { event: b0 }) => a0.same(b0),
            (ServerMsg::TreeDelta { delta: a0, len: a1 }, ServerMsg::TreeDelta { delta: b0, len: b1 }) => a0.same(b0) && *a1 == *b1,
            _ => false,
        }
    }
}

/// A frame to the daemon.
#[derive(Debug, PartialEq, Eq)]
pub enum ClientMsg {
    Hello { client_id: ClientId, protocol: u32, client: BuildInfo, author: Author },
    Request { id: RequestId, request: Request },
    Cancel { id: RequestId },
}

/// Model of [`ClientMsg`].
#[verifier::ext_equal]
pub enum SpecClientMsg {
    Hello { client_id: ClientId, protocol: u32, client: SpecBuildInfo, author: SpecAuthor },
    Request { id: RequestId, request: SpecRequest },
    Cancel { id: RequestId },
}

impl DeepView for ClientMsg {
    type V = SpecClientMsg;

    open spec fn deep_view(&self) -> SpecClientMsg {
        match self {
            ClientMsg::Hello { client_id, protocol, client, author } => SpecClientMsg::Hello {
                client_id: *client_id,
                protocol: *protocol,
                client: client.deep_view(),
                author: author.deep_view(),
            },
            ClientMsg::Request { id, request } => SpecClientMsg::Request {
                id: *id,
                request: request.deep_view(),
            },
            ClientMsg::Cancel { id } => SpecClientMsg::Cancel {
                id: *id,
            },
        }
    }
}

impl Value for ClientMsg {
    fn dup(&self) -> (r: Self) {
        match self {
            ClientMsg::Hello { client_id, protocol, client, author } => ClientMsg::Hello {
                client_id: *client_id,
                protocol: *protocol,
                client: client.dup(),
                author: author.dup(),
            },
            ClientMsg::Request { id, request } => ClientMsg::Request {
                id: *id,
                request: request.dup(),
            },
            ClientMsg::Cancel { id } => ClientMsg::Cancel {
                id: *id,
            },
        }
    }

    fn same(&self, other: &Self) -> (b: bool) {
        match (self, other) {
            (ClientMsg::Hello { client_id: a0, protocol: a1, client: a2, author: a3 }, ClientMsg::Hello { client_id: b0, protocol: b1, client: b2, author: b3 }) => *a0 == *b0 && *a1 == *b1 && a2.same(b2) && a3.same(b3),
            (ClientMsg::Request { id: a0, request: a1 }, ClientMsg::Request { id: b0, request: b1 }) => *a0 == *b0 && a1.same(b1),
            (ClientMsg::Cancel { id: a0 }, ClientMsg::Cancel { id: b0 }) => *a0 == *b0,
            _ => false,
        }
    }
}

/// Which daemon a reference belongs to.
#[derive(Debug, PartialEq, Eq)]
pub struct ReferenceContext {
    pub name: String,
}

/// Model of [`ReferenceContext`].
#[verifier::ext_equal]
pub struct SpecReferenceContext {
    pub name: Seq<char>,
}

impl DeepView for ReferenceContext {
    type V = SpecReferenceContext;

    open spec fn deep_view(&self) -> SpecReferenceContext {
        SpecReferenceContext {
            name: self.name.deep_view(),
        }
    }
}

impl Value for ReferenceContext {
    fn dup(&self) -> (r: Self) {
        ReferenceContext {
            name: self.name.dup(),
        }
    }

    fn same(&self, other: &Self) -> (b: bool) {
        self.name.same(&other.name)
    }
}

/// What a reference points at.
#[derive(Debug, Clone, Copy, PartialEq, Eq, Structural)]
pub enum ReferenceTarget {
    Review,
    Thread { thread_id: ThreadId },
    Comment { comment_id: CommentId },
}

impl DeepView for ReferenceTarget {
    type V = ReferenceTarget;

    open spec fn deep_view(&self) -> ReferenceTarget {
        *self
    }
}

impl Value for ReferenceTarget {
    fn dup(&self) -> (r: Self) {
        *self
    }

    fn same(&self, other: &Self) -> (b: bool) {
        *self == *other
    }
}

/// A portable pointer to a review or to something in it.
#[derive(Debug, PartialEq, Eq)]
pub struct ReviewReference {
    pub context: ReferenceContext,
    pub review_id: ReviewId,
    pub target: ReferenceTarget,
}

/// Model of [`ReviewReference`].
#[verifier::ext_equal]
pub struct SpecReviewReference {
    pub context: SpecReferenceContext,
    pub review_id: ReviewId,
    pub target: ReferenceTarget,
}

impl DeepView for ReviewReference {
    type V = SpecReviewReference;

    open spec fn deep_view(&self) -> SpecReviewReference {
        SpecReviewReference {
            context: self.context.deep_view(),
            review_id: self.review_id,
            target: self.target,
        }
    }
}

impl Value for ReviewReference {
    fn dup(&self) -> (r: Self) {
        ReviewReference {
            context: self.context.dup(),
            review_id: self.review_id,
            target: self.target,
        }
    }

    fn same(&self, other: &Self) -> (b: bool) {
        self.context.same(&other.context)
            && self.review_id == other.review_id
            && self.target == other.target
    }
}

/// The parts of the view a host repaints.
#[derive(Debug, Clone, Copy, PartialEq, Eq, Structural)]
pub enum ViewSection {
    Connection,
    ReviewList,
    Tree,
    Progress,
    Diff,
    Threads,
    Conversation,
    CommitStepper,
    Draft,
    Focus,
    Hints,
    Help,
    Search,
    RefSelector,
}

impl DeepView for ViewSection {
    type V = ViewSection;

    open spec fn deep_view(&self) -> ViewSection {
        *self
    }
}

impl Value for ViewSection {
    fn dup(&self) -> (r: Self) {
        *self
    }

    fn same(&self, other: &Self) -> (b: bool) {
        *self == *other
    }
}


// ---- what the values say --------------------------------------------------

impl ChangeKind {
    /// The blob at head, if the file exists there.
    pub fn new_blob(&self) -> (r: Option<BlobOid>)
        ensures
            r == self.deep_view().new_blob(),
    {
        match self {
            ChangeKind::Added { new } => Some(*new),
            ChangeKind::Deleted { .. } => None,
            ChangeKind::Modified { new, .. } => Some(*new),
            ChangeKind::Renamed { new, .. } => Some(*new),
        }
    }

    /// The blob at base, if the file existed there.
    pub fn old_blob(&self) -> (r: Option<BlobOid>)
        ensures
            r == self.deep_view().old_blob(),
    {
        match self {
            ChangeKind::Added { .. } => None,
            ChangeKind::Deleted { old } => Some(*old),
            ChangeKind::Modified { old, .. } => Some(*old),
            ChangeKind::Renamed { old, .. } => Some(*old),
        }
    }

    /// What a viewer of the head sees of the file.
    pub fn viewed_content(&self) -> (r: ViewedContent)
        ensures
            r == self.deep_view().viewed_content(),
    {
        match self.new_blob() {
            Some(oid) => ViewedContent::Blob { oid },
            None => ViewedContent::Gone,
        }
    }

    pub fn kind(&self) -> (r: ChangeKindKind)
        ensures
            r == self.deep_view().kind(),
    {
        match self {
            ChangeKind::Added { .. } => ChangeKindKind::Added,
            ChangeKind::Deleted { .. } => ChangeKindKind::Deleted,
            ChangeKind::Modified { .. } => ChangeKindKind::Modified,
            ChangeKind::Renamed { .. } => ChangeKindKind::Renamed,
        }
    }
}

impl SpecChangeKind {
    pub open spec fn new_blob(self) -> Option<BlobOid> {
        match self {
            SpecChangeKind::Added { new } => Some(new),
            SpecChangeKind::Deleted { .. } => None,
            SpecChangeKind::Modified { new, .. } => Some(new),
            SpecChangeKind::Renamed { new, .. } => Some(new),
        }
    }

    pub open spec fn old_blob(self) -> Option<BlobOid> {
        match self {
            SpecChangeKind::Added { .. } => None,
            SpecChangeKind::Deleted { old } => Some(old),
            SpecChangeKind::Modified { old, .. } => Some(old),
            SpecChangeKind::Renamed { old, .. } => Some(old),
        }
    }

    pub open spec fn viewed_content(self) -> ViewedContent {
        match self.new_blob() {
            Some(oid) => ViewedContent::Blob { oid },
            None => ViewedContent::Gone,
        }
    }

    pub open spec fn kind(self) -> ChangeKindKind {
        match self {
            SpecChangeKind::Added { .. } => ChangeKindKind::Added,
            SpecChangeKind::Deleted { .. } => ChangeKindKind::Deleted,
            SpecChangeKind::Modified { .. } => ChangeKindKind::Modified,
            SpecChangeKind::Renamed { .. } => ChangeKindKind::Renamed,
        }
    }
}

impl RenderTarget {
    /// The blob shown on `side`.
    pub fn blob_on(&self, side: Side) -> (r: Option<BlobOid>)
        ensures
            r == self.deep_view().blob_on(side),
    {
        match self {
            RenderTarget::Diff { change } => match side {
                Side::Base => change.old_blob(),
                Side::Head => change.new_blob(),
            },
            RenderTarget::Blob { oid } => Some(*oid),
        }
    }

    /// What a viewer of the head sees.
    pub fn viewed_content(&self) -> (r: ViewedContent)
        ensures
            r == self.deep_view().viewed_content(),
    {
        match self {
            RenderTarget::Diff { change } => change.viewed_content(),
            RenderTarget::Blob { oid } => ViewedContent::Blob { oid: *oid },
        }
    }
}

impl SpecRenderTarget {
    pub open spec fn blob_on(self, side: Side) -> Option<BlobOid> {
        match self {
            SpecRenderTarget::Diff { change } => match side {
                Side::Base => change.old_blob(),
                Side::Head => change.new_blob(),
            },
            SpecRenderTarget::Blob { oid } => Some(oid),
        }
    }

    pub open spec fn viewed_content(self) -> ViewedContent {
        match self {
            SpecRenderTarget::Diff { change } => change.viewed_content(),
            SpecRenderTarget::Blob { oid } => ViewedContent::Blob { oid },
        }
    }
}

impl RepoPath {
    /// A path, unless the text has an empty component.
    pub fn new(text: String) -> (r: Option<RepoPath>)
        ensures
            match r {
                Some(p) => text::is_path(text@) && p.deep_view() == (SpecRepoPath { text: text@ }),
                None => !text::is_path(text@),
            },
    {
        if text::valid_path(text.as_str()) {
            Some(RepoPath { text })
        } else {
            None
        }
    }
}

/// 2^80: an identity's time is above it, its random part below.
pub const RANDOM_RANGE: u128 = 1208925819614629174706176;

/// 2^48.
pub const TIME_RANGE: u64 = 281474976710656;

impl RepoId {
    /// The identity made of a time in milliseconds and a random part.
    pub fn from_parts(ms: u64, random: u128) -> (r: Self)
        ensures
            r.0 == (ms % TIME_RANGE) * RANDOM_RANGE + random % RANDOM_RANGE,
    {
        assert((ms % TIME_RANGE) * RANDOM_RANGE <= 281474976710655 * 1208925819614629174706176) by (nonlinear_arith)
            requires
                0 <= ms % TIME_RANGE <= 281474976710655,
                RANDOM_RANGE == 1208925819614629174706176,
        ;
        RepoId((ms % TIME_RANGE) as u128 * RANDOM_RANGE + random % RANDOM_RANGE)
    }
}

/// The character a number below 32 is written as.
pub open spec fn base32(n: nat) -> char {
    if n < 10 {
        ((48 + n) as u8) as char
    } else if n < 18 {
        ((55 + n) as u8) as char
    } else if n < 20 {
        ((56 + n) as u8) as char
    } else if n < 22 {
        ((57 + n) as u8) as char
    } else if n < 27 {
        ((58 + n) as u8) as char
    } else {
        ((59 + n) as u8) as char
    }
}

/// The last `digits` digits of a number in base 32.
pub open spec fn base32_text(n: nat, digits: nat) -> Seq<char>
    decreases digits,
{
    if digits == 0 {
        Seq::empty()
    } else {
        base32_text(n / 32, (digits - 1) as nat).push(base32(n % 32))
    }
}

fn base32_string(n: u128, digits: u8) -> (r: String)
    ensures
        r@ == base32_text(n as nat, digits as nat),
    decreases digits,
{
    if digits == 0 {
        let r = String::new();
        assert(r@ =~= Seq::empty());
        r
    } else {
        let mut r = base32_string(n / 32, digits - 1);
        let d: u8 = (n % 32) as u8;
        let b: u8 = if d < 10 {
            48 + d
        } else if d < 18 {
            55 + d
        } else if d < 20 {
            56 + d
        } else if d < 22 {
            57 + d
        } else if d < 27 {
            58 + d
        } else {
            59 + d
        };
        r.push(b as char);
        r
    }
}

/// The text of an identity: 26 digits in base 32, without I, L, O and U.
pub open spec fn id_text(id: u128) -> Seq<char> {
    base32_text(id as nat, 26)
}

impl RepoId {
    pub fn to_string(&self) -> (r: String)
        ensures
            r@ == id_text(self.0),
    {
        base32_string(self.0, 26)
    }
}

/// The value of a hexadecimal digit.
pub open spec fn hex_value(c: char) -> Option<nat> {
    if '0' <= c <= '9' {
        Some((c as u32 - 48) as nat)
    } else if 'a' <= c <= 'f' {
        Some((c as u32 - 87) as nat)
    } else if 'A' <= c <= 'F' {
        Some((c as u32 - 55) as nat)
    } else {
        None
    }
}

/// The number a text of hexadecimal digits writes.
pub open spec fn hex_number(s: Seq<char>) -> Option<nat>
    decreases s.len(),
{
    if s.len() == 0 {
        Some(0)
    } else {
        match (hex_number(s.drop_last()), hex_value(s.last())) {
            (Some(n), Some(d)) => Some(16 * n + d),
            _ => None,
        }
    }
}

/// The last `digits` hexadecimal digits of a number.
pub open spec fn hex_text(n: nat, digits: nat) -> Seq<char>
    decreases digits,
{
    if digits == 0 {
        Seq::empty()
    } else {
        hex_text(n / 16, (digits - 1) as nat).push(hex_digit(n % 16))
    }
}

pub open spec fn hex_digit(n: nat) -> char {
    if n < 10 {
        ((48 + n) as u8) as char
    } else {
        ((87 + n) as u8) as char
    }
}

fn hex_value_of(c: char) -> (r: Option<u8>)
    ensures
        match r {
            Some(d) => hex_value(c) == Some(d as nat) && d < 16,
            None => hex_value(c) is None,
        },
{
    if '0' <= c && c <= '9' {
        Some((c as u32 - 48) as u8)
    } else if 'a' <= c && c <= 'f' {
        Some((c as u32 - 87) as u8)
    } else if 'A' <= c && c <= 'F' {
        Some((c as u32 - 55) as u8)
    } else {
        None
    }
}

/// 16 to the power of `n`.
pub open spec fn pow16(n: nat) -> nat
    decreases n,
{
    if n == 0 {
        1
    } else {
        16 * pow16((n - 1) as nat)
    }
}

fn read_hex(v: &Vec<char>, from: usize, to: usize) -> (r: Option<u128>)
    requires
        from <= to <= v@.len(),
        to - from <= 32,
    ensures
        match r {
            Some(n) => hex_number(v@.subrange(from as int, to as int)) == Some(n as nat) && n < pow16(
                (to - from) as nat,
            ),
            None => hex_number(v@.subrange(from as int, to as int)) is None,
        },
{
    let mut n: u128 = 0;
    let ghost all = v@.subrange(from as int, to as int);
    for i in from..to
        invariant
            from <= i <= to <= v@.len(),
            to - from <= 32,
            all == v@.subrange(from as int, to as int),
            hex_number(all.take(i - from)) == Some(n as nat),
            n < pow16((i - from) as nat),
    {
        assert(all.take(i + 1 - from).drop_last() =~= all.take(i - from));
        assert(all.take(i + 1 - from).last() == v@[i as int]);
        proof {
            lemma_pow16((i - from) as nat, 31);
            lemma_pow16_31();
        }
        match hex_value_of(v[i]) {
            Some(d) => {
                n = n * 16 + d as u128;
            },
            None => {
                proof {
                    lemma_bad_digit(all, i + 1 - from);
                }
                return None;
            },
        }
    }
    assert(all.take(to - from) =~= all);
    Some(n)
}

proof fn lemma_pow16_31()
    ensures
        pow16(31) == 21267647932558653966460912964485513216,
{
    reveal_with_fuel(pow16, 32);
}

proof fn lemma_pow16(a: nat, b: nat)
    requires
        a <= b,
    ensures
        pow16(a) <= pow16(b),
        pow16(a) > 0,
    decreases b,
{
    if b > 0 {
        if a < b {
            lemma_pow16(a, (b - 1) as nat);
        } else {
            lemma_pow16((a - 1) as nat, (b - 1) as nat);
        }
    }
}

proof fn lemma_bad_digit(s: Seq<char>, n: int)
    requires
        0 < n <= s.len(),
        hex_number(s.take(n)) is None,
    ensures
        hex_number(s) is None,
    decreases s.len() - n,
{
    if n < s.len() {
        assert(s.take(n + 1).drop_last() =~= s.take(n));
        lemma_bad_digit(s, n + 1);
    } else {
        assert(s.take(n) =~= s);
    }
}

/// The commit a text of 40 hexadecimal digits names.
pub open spec fn commit_named(s: Seq<char>) -> Option<CommitOid> {
    if s.len() != 40 {
        None
    } else {
        match (hex_number(s.subrange(0, 8)), hex_number(s.subrange(8, 40))) {
            (Some(high), Some(low)) => Some(CommitOid { high: high as u32, low: low as u128 }),
            _ => None,
        }
    }
}

fn hex_string(n: u128, digits: u8) -> (r: String)
    ensures
        r@ == hex_text(n as nat, digits as nat),
    decreases digits,
{
    if digits == 0 {
        let r = String::new();
        assert(r@ =~= Seq::empty());
        r
    } else {
        let mut r = hex_string(n / 16, digits - 1);
        let d: u8 = (n % 16) as u8;
        let b: u8 = if d < 10 {
            48 + d
        } else {
            87 + d
        };
        r.push(b as char);
        r
    }
}

impl CommitOid {
    pub fn parse(s: &str) -> (r: Option<CommitOid>)
        ensures
            r == commit_named(s@),
    {
        let v = text::chars(s);
        if v.len() != 40 {
            return None;
        }
        match (read_hex(&v, 0, 8), read_hex(&v, 8, 40)) {
            (Some(high), Some(low)) => {
                assert(pow16(8) == 4294967296) by {
                    reveal_with_fuel(pow16, 9);
                }
                Some(CommitOid { high: high as u32, low })
            },
            _ => None,
        }
    }

    pub open spec fn spec_text(self) -> Seq<char> {
        hex_text(self.high as nat, 8) + hex_text(self.low as nat, 32)
    }

    pub fn to_string(&self) -> (r: String)
        ensures
            r@ == self.spec_text(),
    {
        let mut r = hex_string(self.high as u128, 8);
        let low = hex_string(self.low, 32);
        r.append(low.as_str());
        r
    }
}

impl Author {
    /// The person, unless an agent wrote it.
    pub fn as_human(&self) -> (r: Option<Human>)
        ensures
            r.deep_view() == self.deep_view().as_human(),
    {
        match self {
            Author::Human { human } => Some(human.dup()),
            Author::Agent { .. } => None,
        }
    }
}

impl SpecAuthor {
    pub open spec fn as_human(self) -> Option<SpecHuman> {
        match self {
            SpecAuthor::Human { human } => Some(human),
            SpecAuthor::Agent { .. } => None,
        }
    }
}

impl BaseRefSpec {
    /// The same revision, as one that could also be a head.
    pub fn to_ref(&self) -> (r: RefSpec)
        ensures
            r.deep_view() == self.deep_view().to_ref(),
    {
        match self {
            BaseRefSpec::Branch { name } => RefSpec::Branch { name: name.dup() },
            BaseRefSpec::Commit { oid } => RefSpec::Commit { oid: *oid },
            BaseRefSpec::Tag { name } => RefSpec::Tag { name: name.dup() },
            BaseRefSpec::Revision { expression } => RefSpec::Revision { expression: expression.dup() },
            BaseRefSpec::Upstream => RefSpec::Upstream,
            BaseRefSpec::Head => RefSpec::Head,
        }
    }
}

impl SpecBaseRefSpec {
    pub open spec fn to_ref(self) -> SpecRefSpec {
        match self {
            SpecBaseRefSpec::Branch { name } => SpecRefSpec::Branch { name },
            SpecBaseRefSpec::Commit { oid } => SpecRefSpec::Commit { oid },
            SpecBaseRefSpec::Tag { name } => SpecRefSpec::Tag { name },
            SpecBaseRefSpec::Revision { expression } => SpecRefSpec::Revision { expression },
            SpecBaseRefSpec::Upstream => SpecRefSpec::Upstream,
            SpecBaseRefSpec::Head => SpecRefSpec::Head,
        }
    }
}

impl CommentIntent {
    /// The kind of comment that is written with this intent.
    pub fn kind(self) -> (r: CommentKind)
        ensures
            r.deep_view() == self.spec_kind(),
    {
        match self {
            CommentIntent::Finding => CommentKind::Note,
            CommentIntent::Informational => CommentKind::Informational,
        }
    }

    pub open spec fn spec_kind(self) -> SpecCommentKind {
        match self {
            CommentIntent::Finding => SpecCommentKind::Note,
            CommentIntent::Informational => SpecCommentKind::Informational,
        }
    }
}

impl Mutation {
    pub fn kind(&self) -> (r: MutationKind)
        ensures
            r == self.deep_view().kind(),
    {
        match self {
            Mutation::CreateWorkspace { .. } => MutationKind::CreateWorkspace,
            Mutation::RenameWorkspace { .. } => MutationKind::RenameWorkspace,
            Mutation::AttachRepo { .. } => MutationKind::AttachRepo,
            Mutation::DetachRepo { .. } => MutationKind::DetachRepo,
            Mutation::CreateReview { .. } => MutationKind::CreateReview,
            Mutation::UpdateReview { .. } => MutationKind::UpdateReview,
            Mutation::UpdateReviewTarget { .. } => MutationKind::UpdateReviewTarget,
            Mutation::DeleteReview { .. } => MutationKind::DeleteReview,
            Mutation::AddComment { .. } => MutationKind::AddComment,
            Mutation::Reply { .. } => MutationKind::Reply,
            Mutation::EditComment { .. } => MutationKind::EditComment,
            Mutation::DeleteComment { .. } => MutationKind::DeleteComment,
            Mutation::ResolveThread { .. } => MutationKind::ResolveThread,
            Mutation::UnresolveThread { .. } => MutationKind::UnresolveThread,
            Mutation::MarkViewed { .. } => MutationKind::MarkViewed,
            Mutation::UnmarkViewed { .. } => MutationKind::UnmarkViewed,
            Mutation::RequestReview { .. } => MutationKind::RequestReview,
            Mutation::ApplySuggestion { .. } => MutationKind::ApplySuggestion,
        }
    }
}

impl SpecMutation {
    pub open spec fn kind(self) -> MutationKind {
        match self {
            SpecMutation::CreateWorkspace { .. } => MutationKind::CreateWorkspace,
            SpecMutation::RenameWorkspace { .. } => MutationKind::RenameWorkspace,
            SpecMutation::AttachRepo { .. } => MutationKind::AttachRepo,
            SpecMutation::DetachRepo { .. } => MutationKind::DetachRepo,
            SpecMutation::CreateReview { .. } => MutationKind::CreateReview,
            SpecMutation::UpdateReview { .. } => MutationKind::UpdateReview,
            SpecMutation::UpdateReviewTarget { .. } => MutationKind::UpdateReviewTarget,
            SpecMutation::DeleteReview { .. } => MutationKind::DeleteReview,
            SpecMutation::AddComment { .. } => MutationKind::AddComment,
            SpecMutation::Reply { .. } => MutationKind::Reply,
            SpecMutation::EditComment { .. } => MutationKind::EditComment,
            SpecMutation::DeleteComment { .. } => MutationKind::DeleteComment,
            SpecMutation::ResolveThread { .. } => MutationKind::ResolveThread,
            SpecMutation::UnresolveThread { .. } => MutationKind::UnresolveThread,
            SpecMutation::MarkViewed { .. } => MutationKind::MarkViewed,
            SpecMutation::UnmarkViewed { .. } => MutationKind::UnmarkViewed,
            SpecMutation::RequestReview { .. } => MutationKind::RequestReview,
            SpecMutation::ApplySuggestion { .. } => MutationKind::ApplySuggestion,
        }
    }
}

impl EventBody {
    /// The review the event is about, if it is about one.
    pub fn review_id(&self) -> (r: Option<ReviewId>)
        ensures
            r == self.deep_view().review_id(),
    {
        match self {
            EventBody::ReviewCreated { review } => Some(review.id),
            EventBody::ReviewUpdated { review_id, .. } => Some(*review_id),
            EventBody::ReviewTargetUpdated { review_id, .. } => Some(*review_id),
            EventBody::ReviewDeleted { review_id } => Some(*review_id),
            EventBody::ReviewTargetsResolved { review_id, .. } => Some(*review_id),
            EventBody::CommentCreated { comment } => Some(comment.review_id),
            EventBody::CommentEdited { review_id, .. } => Some(*review_id),
            EventBody::CommentDeleted { review_id, .. } => Some(*review_id),
            EventBody::CommentReanchored { review_id, .. } => Some(*review_id),
            EventBody::ThreadResolved { review_id, .. } => Some(*review_id),
            EventBody::ThreadUnresolved { review_id, .. } => Some(*review_id),
            EventBody::FileViewed { review_id, .. } => Some(*review_id),
            EventBody::FileUnviewed { review_id, .. } => Some(*review_id),
            EventBody::ReviewRequested { review_id, .. } => Some(*review_id),
            EventBody::SuggestionApplied { review_id, .. } => Some(*review_id),
            EventBody::WorkspaceCreated { .. } => None,
            EventBody::WorkspaceUpdated { .. } => None,
            EventBody::RepoAttached { .. } => None,
            EventBody::RepoDetached { .. } => None,
        }
    }
}

impl SpecEventBody {
    pub open spec fn review_id(self) -> Option<ReviewId> {
        match self {
            SpecEventBody::ReviewCreated { review } => Some(review.id),
            SpecEventBody::ReviewUpdated { review_id, .. } => Some(review_id),
            SpecEventBody::ReviewTargetUpdated { review_id, .. } => Some(review_id),
            SpecEventBody::ReviewDeleted { review_id } => Some(review_id),
            SpecEventBody::ReviewTargetsResolved { review_id, .. } => Some(review_id),
            SpecEventBody::CommentCreated { comment } => Some(comment.review_id),
            SpecEventBody::CommentEdited { review_id, .. } => Some(review_id),
            SpecEventBody::CommentDeleted { review_id, .. } => Some(review_id),
            SpecEventBody::CommentReanchored { review_id, .. } => Some(review_id),
            SpecEventBody::ThreadResolved { review_id, .. } => Some(review_id),
            SpecEventBody::ThreadUnresolved { review_id, .. } => Some(review_id),
            SpecEventBody::FileViewed { review_id, .. } => Some(review_id),
            SpecEventBody::FileUnviewed { review_id, .. } => Some(review_id),
            SpecEventBody::ReviewRequested { review_id, .. } => Some(review_id),
            SpecEventBody::SuggestionApplied { review_id, .. } => Some(review_id),
            SpecEventBody::WorkspaceCreated { .. } => None,
            SpecEventBody::WorkspaceUpdated { .. } => None,
            SpecEventBody::RepoAttached { .. } => None,
            SpecEventBody::RepoDetached { .. } => None,
        }
    }
}

impl ReviewRequest {
    /// The invitation a committed event made, if it made one.
    pub fn from_event(event: &Event) -> (r: Option<ReviewRequest>)
        ensures
            r.deep_view() == event.deep_view().request(),
    {
        match &event.body {
            EventBody::ReviewRequested { review_id, reviewer } => Some(ReviewRequest {
                id: ReviewRequestId(event.seq),
                review_id: *review_id,
                reviewer: reviewer.dup(),
            }),
            _ => None,
        }
    }
}

impl SpecEvent {
    pub open spec fn request(self) -> Option<SpecReviewRequest> {
        match self.body {
            SpecEventBody::ReviewRequested { review_id, reviewer } => Some(SpecReviewRequest {
                id: ReviewRequestId(self.seq),
                review_id,
                reviewer,
            }),
            _ => None,
        }
    }
}

/// Protocol version this client speaks.
pub const PROTOCOL_CURRENT: u32 = 1;

} // verus!
