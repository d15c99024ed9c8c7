//! The explorer: the merged file tree, breadcrumbs, fuzzy file search and
//! progress counts. Everything here is a function of the open review, the
//! cached head trees and what the user opened or searched for.
use vstd::prelude::*;

use crate::cache::{RenderKey, SpecRenderKey};
use crate::data;
use crate::data::Value;
use crate::diff;
use crate::diff::{viewed_state, FileRef, SpecFileRef, ViewedState};
use crate::protocol;
use crate::protocol::{
    Author, ChangeKindKind, RenderTarget, RepoId, RepoPath, ReviewSnapshot, SpecAuthor,
    SpecRenderTarget, SpecRepoPath, SpecReviewSnapshot, SpecTreeEntry, SpecTreeSnapshot, TreeEntry,
    TreeEntryKind, TreeSnapshot, ViewedContent,
};
use crate::text;

verus! {

/// A node of the merged tree. Directories carry their children.
#[derive(Debug, PartialEq, Eq)]
pub enum TreeNode {
    Dir {
        name: String,
        repo_id: RepoId,
        /// `None` for the root of the repository.
        path: Option<RepoPath>,
        expanded: bool,
        /// Changed files anywhere below.
        changed_below: u32,
        children: Vec<TreeNode>,
    },
    File {
        name: String,
        repo_id: RepoId,
        path: RepoPath,
        /// How the file differs in the review; `None` for unchanged files.
        change: Option<ChangeKindKind>,
        viewed: ViewedState,
        /// The viewport is on this file.
        open: bool,
        /// Lines added and removed, once the file's header is cached.
        additions: Option<u32>,
        deletions: Option<u32>,
        /// Threads anchored to this file.
        threads: u32,
    },
}

/// One hit of the fuzzy file search.
#[derive(Debug, PartialEq, Eq)]
pub struct SearchHit {
    pub file: FileRef,
    /// Byte offsets into the path that matched.
    pub matched: Vec<usize>,
    pub change: Option<ChangeKindKind>,
}

/// Model of [`SearchHit`].
#[verifier::ext_equal]
pub struct SpecSearchHit {
    pub file: SpecFileRef,
    pub matched: Seq<usize>,
    pub change: Option<ChangeKindKind>,
}

impl DeepView for SearchHit {
    type V = SpecSearchHit;

    open spec fn deep_view(&self) -> SpecSearchHit {
        SpecSearchHit {
            file: self.file.deep_view(),
            matched: self.matched.deep_view(),
            change: self.change,
        }
    }
}

impl Value for SearchHit {
    fn dup(&self) -> (r: Self) {
        SearchHit {
            file: self.file.dup(),
            matched: self.matched.dup(),
            change: self.change,
        }
    }

    fn same(&self, other: &Self) -> (b: bool) {
        self.file.same(&other.file)
            && self.matched.same(&other.matched)
            && self.change.same(&other.change)
    }
}

/// The file search.
#[derive(Debug, PartialEq, Eq)]
pub struct SearchView {
    pub query: String,
    pub hits: Vec<SearchHit>,
    /// The highlighted hit.
    pub selected: usize,
}

/// Model of [`SearchView`].
#[verifier::ext_equal]
pub struct SpecSearchView {
    pub query: Seq<char>,
    pub hits: Seq<SpecSearchHit>,
    pub selected: usize,
}

impl DeepView for SearchView {
    type V = SpecSearchView;

    open spec fn deep_view(&self) -> SpecSearchView {
        SpecSearchView {
            query: self.query.deep_view(),
            hits: self.hits.deep_view(),
            selected: self.selected,
        }
    }
}

impl Value for SearchView {
    fn dup(&self) -> (r: Self) {
        SearchView {
            query: self.query.dup(),
            hits: self.hits.dup(),
            selected: self.selected,
        }
    }

    fn same(&self, other: &Self) -> (b: bool) {
        self.query.same(&other.query)
            && self.hits.same(&other.hits)
            && self.selected == other.selected
    }
}

/// The explorer as rendered: one root per repository.
#[derive(Debug, PartialEq, Eq)]
pub struct TreeView {
    pub roots: Vec<TreeNode>,
    /// The repository, then each path component of the open file.
    pub breadcrumbs: Vec<String>,
    pub search: Option<SearchView>,
}

/// Model of [`TreeView`].
#[verifier::ext_equal]
pub struct SpecTreeView {
    pub roots: Seq<SpecTreeNode>,
    pub breadcrumbs: Seq<Seq<char>>,
    pub search: Option<SpecSearchView>,
}

impl DeepView for TreeView {
    type V = SpecTreeView;

    open spec fn deep_view(&self) -> SpecTreeView {
        SpecTreeView {
            roots: self.roots.deep_view(),
            breadcrumbs: self.breadcrumbs.deep_view(),
            search: self.search.deep_view(),
        }
    }
}

impl Value for TreeView {
    fn dup(&self) -> (r: Self) {
        TreeView {
            roots: self.roots.dup(),
            breadcrumbs: self.breadcrumbs.dup(),
            search: self.search.dup(),
        }
    }

    fn same(&self, other: &Self) -> (b: bool) {
        self.roots.same(&other.roots)
            && self.breadcrumbs.same(&other.breadcrumbs)
            && self.search.same(&other.search)
    }
}

/// Counts over the changed files.
#[derive(Debug, Clone, Copy, PartialEq, Eq, Structural)]
pub struct Progress {
    pub viewed: u32,
    pub changed_since_viewed: u32,
    pub total: u32,
    /// Lines added and removed across the files whose headers are cached.
    pub additions: u32,
    pub deletions: u32,
}

impl DeepView for Progress {
    type V = Progress;

    open spec fn deep_view(&self) -> Progress {
        *self
    }
}

impl Value for Progress {
    fn dup(&self) -> (r: Self) {
        *self
    }

    fn same(&self, other: &Self) -> (b: bool) {
        *self == *other
    }
}

/// A directory: a repository's root, or a path in it.
#[derive(Debug, PartialEq, Eq)]
pub struct DirKey {
    pub repo_id: RepoId,
    pub path: Option<RepoPath>,
}

/// Model of [`DirKey`].
#[verifier::ext_equal]
pub struct SpecDirKey {
    pub repo_id: RepoId,
    pub path: Option<SpecRepoPath>,
}

impl DeepView for DirKey {
    type V = SpecDirKey;

    open spec fn deep_view(&self) -> SpecDirKey {
        SpecDirKey {
            repo_id: self.repo_id,
            path: self.path.deep_view(),
        }
    }
}

impl Value for DirKey {
    fn dup(&self) -> (r: Self) {
        DirKey {
            repo_id: self.repo_id,
            path: self.path.dup(),
        }
    }

    fn same(&self, other: &Self) -> (b: bool) {
        self.repo_id == other.repo_id
            && self.path.same(&other.path)
    }
}

/// What the user opened, closed and searched for.
#[derive(Debug, PartialEq, Eq)]
pub struct ExplorerState {
    /// Directories opened while browsing, where they start closed.
    pub(crate) expanded: Vec<DirKey>,
    /// Directories closed while diffing, where they start open.
    pub(crate) collapsed: Vec<DirKey>,
    pub(crate) search: Option<String>,
    pub(crate) search_selected: usize,
}

/// Model of [`ExplorerState`].
#[verifier::ext_equal]
pub struct SpecExplorerState {
    pub expanded: Seq<SpecDirKey>,
    pub collapsed: Seq<SpecDirKey>,
    pub search: Option<Seq<char>>,
    pub search_selected: usize,
}

impl DeepView for ExplorerState {
    type V = SpecExplorerState;

    open(crate) spec fn deep_view(&self) -> SpecExplorerState {
        SpecExplorerState {
            expanded: self.expanded.deep_view(),
            collapsed: self.collapsed.deep_view(),
            search: self.search.deep_view(),
            search_selected: self.search_selected,
        }
    }
}

impl Value for ExplorerState {
    fn dup(&self) -> (r: Self) {
        ExplorerState {
            expanded: self.expanded.dup(),
            collapsed: self.collapsed.dup(),
            search: self.search.dup(),
            search_selected: self.search_selected,
        }
    }

    fn same(&self, other: &Self) -> (b: bool) {
        self.expanded.same(&other.expanded)
            && self.collapsed.same(&other.collapsed)
            && self.search.same(&other.search)
            && self.search_selected == other.search_selected
    }
}

/// A repository and what it is called.
#[derive(Debug, PartialEq, Eq)]
pub struct RepoName {
    pub id: RepoId,
    pub name: String,
}

/// Model of [`RepoName`].
#[verifier::ext_equal]
pub struct SpecRepoName {
    pub id: RepoId,
    pub name: Seq<char>,
}

impl DeepView for RepoName {
    type V = SpecRepoName;

    open spec fn deep_view(&self) -> SpecRepoName {
        SpecRepoName {
            id: self.id,
            name: self.name.deep_view(),
        }
    }
}

impl Value for RepoName {
    fn dup(&self) -> (r: Self) {
        RepoName {
            id: self.id,
            name: self.name.dup(),
        }
    }

    fn same(&self, other: &Self) -> (b: bool) {
        self.id == other.id
            && self.name.same(&other.name)
    }
}

/// Lines added to and removed from a file.
#[derive(Debug, PartialEq, Eq)]
pub struct FileStat {
    pub file: FileRef,
    pub additions: u32,
    pub deletions: u32,
}

/// Model of [`FileStat`].
#[verifier::ext_equal]
pub struct SpecFileStat {
    pub file: SpecFileRef,
    pub additions: u32,
    pub deletions: u32,
}

impl DeepView for FileStat {
    type V = SpecFileStat;

    open spec fn deep_view(&self) -> SpecFileStat {
        SpecFileStat {
            file: self.file.deep_view(),
            additions: self.additions,
            deletions: self.deletions,
        }
    }
}

impl Value for FileStat {
    fn dup(&self) -> (r: Self) {
        FileStat {
            file: self.file.dup(),
            additions: self.additions,
            deletions: self.deletions,
        }
    }

    fn same(&self, other: &Self) -> (b: bool) {
        self.file.same(&other.file)
            && self.additions == other.additions
            && self.deletions == other.deletions
    }
}

/// What the explorer is made from.
#[derive(Debug, PartialEq, Eq)]
pub struct ExplorerInputs {
    pub(crate) snapshot: ReviewSnapshot,
    /// What repositories are called; an unknown one goes by its id.
    pub(crate) repo_names: Vec<RepoName>,
    /// Head tree per repository, as far as cached.
    pub(crate) trees: Vec<TreeSnapshot>,
    pub(crate) files: Vec<RenderKey>,
    pub(crate) open_file: Option<FileRef>,
    pub(crate) viewer: Author,
    pub(crate) state: ExplorerState,
    pub(crate) stats: Vec<FileStat>,
    /// The file of each thread that is anchored to one.
    pub(crate) anchored: Vec<FileRef>,
    /// List only the changed files, directories open unless closed; the
    /// search spans the head trees either way.
    pub(crate) changed_only: bool,
}

/// Model of [`ExplorerInputs`].
#[verifier::ext_equal]
pub struct SpecExplorerInputs {
    pub snapshot: SpecReviewSnapshot,
    pub repo_names: Seq<SpecRepoName>,
    pub trees: Seq<SpecTreeSnapshot>,
    pub files: Seq<SpecRenderKey>,
    pub open_file: Option<SpecFileRef>,
    pub viewer: SpecAuthor,
    pub state: SpecExplorerState,
    pub stats: Seq<SpecFileStat>,
    pub anchored: Seq<SpecFileRef>,
    pub changed_only: bool,
}

impl DeepView for ExplorerInputs {
    type V = SpecExplorerInputs;

    open(crate) spec fn deep_view(&self) -> SpecExplorerInputs {
        SpecExplorerInputs {
            snapshot: self.snapshot.deep_view(),
            repo_names: self.repo_names.deep_view(),
            trees: self.trees.deep_view(),
            files: self.files.deep_view(),
            open_file: self.open_file.deep_view(),
            viewer: self.viewer.deep_view(),
            state: self.state.deep_view(),
            stats: self.stats.deep_view(),
            anchored: self.anchored.deep_view(),
            changed_only: self.changed_only,
        }
    }
}

impl Value for ExplorerInputs {
    fn dup(&self) -> (r: Self) {
        ExplorerInputs {
            snapshot: self.snapshot.dup(),
            repo_names: self.repo_names.dup(),
            trees: self.trees.dup(),
            files: self.files.dup(),
            open_file: self.open_file.dup(),
            viewer: self.viewer.dup(),
            state: self.state.dup(),
            stats: self.stats.dup(),
            anchored: self.anchored.dup(),
            changed_only: self.changed_only,
        }
    }

    fn same(&self, other: &Self) -> (b: bool) {
        self.snapshot.same(&other.snapshot)
            && self.repo_names.same(&other.repo_names)
            && self.trees.same(&other.trees)
            && self.files.same(&other.files)
            && self.open_file.same(&other.open_file)
            && self.viewer.same(&other.viewer)
            && self.state.same(&other.state)
            && self.stats.same(&other.stats)
            && self.anchored.same(&other.anchored)
            && self.changed_only == other.changed_only
    }
}

/// A file the tree shows.
#[derive(Debug, PartialEq, Eq)]
pub struct Leaf {
    pub path: RepoPath,
    pub head_content: ViewedContent,
}

/// Model of [`Leaf`].
#[verifier::ext_equal]
pub struct SpecLeaf {
    pub path: SpecRepoPath,
    pub head_content: ViewedContent,
}

impl DeepView for Leaf {
    type V = SpecLeaf;

    open spec fn deep_view(&self) -> SpecLeaf {
        SpecLeaf {
            path: self.path.deep_view(),
            head_content: self.head_content,
        }
    }
}

impl Value for Leaf {
    fn dup(&self) -> (r: Self) {
        Leaf {
            path: self.path.dup(),
            head_content: self.head_content,
        }
    }

    fn same(&self, other: &Self) -> (b: bool) {
        self.path.same(&other.path)
            && self.head_content == other.head_content
    }
}

/// A file that may match the search.
#[derive(Debug, PartialEq, Eq)]
pub struct Candidate {
    pub file: FileRef,
    pub change: Option<ChangeKindKind>,
}

/// Model of [`Candidate`].
#[verifier::ext_equal]
pub struct SpecCandidate {
    pub file: SpecFileRef,
    pub change: Option<ChangeKindKind>,
}

impl DeepView for Candidate {
    type V = SpecCandidate;

    open spec fn deep_view(&self) -> SpecCandidate {
        SpecCandidate {
            file: self.file.deep_view(),
            change: self.change,
        }
    }
}

impl Value for Candidate {
    fn dup(&self) -> (r: Self) {
        Candidate {
            file: self.file.dup(),
            change: self.change,
        }
    }

    fn same(&self, other: &Self) -> (b: bool) {
        self.file.same(&other.file)
            && self.change.same(&other.change)
    }
}

/// A match and how good it is.
#[derive(Debug, PartialEq, Eq)]
pub struct Scored {
    pub score: i128,
    pub hit: SearchHit,
}

/// Model of [`Scored`].
#[verifier::ext_equal]
pub struct SpecScored {
    pub score: i128,
    pub hit: SpecSearchHit,
}

impl DeepView for Scored {
    type V = SpecScored;

    open spec fn deep_view(&self) -> SpecScored {
        SpecScored {
            score: self.score,
            hit: self.hit.deep_view(),
        }
    }
}

impl Value for Scored {
    fn dup(&self) -> (r: Self) {
        Scored {
            score: self.score,
            hit: self.hit.dup(),
        }
    }

    fn same(&self, other: &Self) -> (b: bool) {
        self.score == other.score
            && self.hit.same(&other.hit)
    }
}


// ---- tree nodes -----------------------------------------------------------

/// Model of [`TreeNode`].
pub enum SpecTreeNode {
    Dir {
        name: Seq<char>,
        repo_id: RepoId,
        path: Option<SpecRepoPath>,
        expanded: bool,
        changed_below: u32,
        children: Seq<SpecTreeNode>,
    },
    File {
        name: Seq<char>,
        repo_id: RepoId,
        path: SpecRepoPath,
        change: Option<ChangeKindKind>,
        viewed: ViewedState,
        open: bool,
        additions: Option<u32>,
        deletions: Option<u32>,
        threads: u32,
    },
}

pub open spec fn node_model(node: TreeNode) -> SpecTreeNode
    decreases node,
{
    match node {
        TreeNode::Dir { name, repo_id, path, expanded, changed_below, children } => SpecTreeNode::Dir {
            name: name@,
            repo_id,
            path: path.deep_view(),
            expanded,
            changed_below,
            children: Seq::new(
                children@.len(),
                |i: int|
                    if 0 <= i < children@.len() {
                        node_model(children@[i])
                    } else {
                        arbitrary()
                    },
            ),
        },
        TreeNode::File { name, repo_id, path, change, viewed, open, additions, deletions, threads } => SpecTreeNode::File {
            name: name@,
            repo_id,
            path: path.deep_view(),
            change,
            viewed,
            open,
            additions,
            deletions,
            threads,
        },
    }
}

impl DeepView for TreeNode {
    type V = SpecTreeNode;

    open spec fn deep_view(&self) -> SpecTreeNode {
        node_model(*self)
    }
}

fn dup_node(node: &TreeNode) -> (r: TreeNode)
    ensures
        r.deep_view() == node.deep_view(),
    decreases node,
{
    match node {
        TreeNode::Dir { name, repo_id, path, expanded, changed_below, children } => {
            let mut copies: Vec<TreeNode> = Vec::new();
            let n: usize = children.len();
            for i in 0..n
                invariant
                    n == children@.len(),
                    copies@.len() == i,
                    *node == (TreeNode::Dir {
                        name: *name,
                        repo_id: *repo_id,
                        path: *path,
                        expanded: *expanded,
                        changed_below: *changed_below,
                        children: *children,
                    }),
                    forall|j: int| 0 <= j < i ==> node_model(#[trigger] copies@[j]) == node_model(children@[j]),
            {
                let child = &children[i];
                assert(decreases_to!(*node => node->children));
                assert(decreases_to!(node->children => node->children@));
                assert(decreases_to!(node->children@ => node->children@[i as int]));
                copies.push(dup_node(child));
            }
            let r = TreeNode::Dir {
                name: name.dup(),
                repo_id: *repo_id,
                path: path.dup(),
                expanded: *expanded,
                changed_below: *changed_below,
                children: copies,
            };
            assert(r.deep_view()->children =~= node.deep_view()->children);
            r
        },
        TreeNode::File { name, repo_id, path, change, viewed, open, additions, deletions, threads } => TreeNode::File {
            name: name.dup(),
            repo_id: *repo_id,
            path: path.dup(),
            change: *change,
            viewed: *viewed,
            open: *open,
            additions: *additions,
            deletions: *deletions,
            threads: *threads,
        },
    }
}

fn same_node(a: &TreeNode, b: &TreeNode) -> (r: bool)
    ensures
        r == (a.deep_view() == b.deep_view()),
    decreases a,
{
    match (a, b) {
        (
            TreeNode::Dir { name, repo_id, path, expanded, changed_below, children },
            TreeNode::Dir {
                name: name2,
                repo_id: repo_id2,
                path: path2,
                expanded: expanded2,
                changed_below: changed_below2,
                children: children2,
            },
        ) => {
            let head = name.same(name2) && *repo_id == *repo_id2 && path.same(path2) && *expanded == *expanded2
                && *changed_below == *changed_below2;
            if !head {
                return false;
            }
            let n: usize = children.len();
            if n != children2.len() {
                assert(a.deep_view()->children.len() != b.deep_view()->children.len());
                return false;
            }
            for i in 0..n
                invariant
                    n == children@.len(),
                    n == children2@.len(),
                    *a == (TreeNode::Dir {
                        name: *name,
                        repo_id: *repo_id,
                        path: *path,
                        expanded: *expanded,
                        changed_below: *changed_below,
                        children: *children,
                    }),
                    *b == (TreeNode::Dir {
                        name: *name2,
                        repo_id: *repo_id2,
                        path: *path2,
                        expanded: *expanded2,
                        changed_below: *changed_below2,
                        children: *children2,
                    }),
                    forall|j: int| 0 <= j < i ==> node_model(#[trigger] children@[j]) == node_model(children2@[j]),
            {
                if !same_node(&children[i], &children2[i]) {
                    assert(a.deep_view()->children[i as int] != b.deep_view()->children[i as int]);
                    return false;
                }
            }
            assert(a.deep_view()->children =~= b.deep_view()->children);
            true
        },
        (
            TreeNode::File { name, repo_id, path, change, viewed, open, additions, deletions, threads },
            TreeNode::File {
                name: name2,
                repo_id: repo_id2,
                path: path2,
                change: change2,
                viewed: viewed2,
                open: open2,
                additions: additions2,
                deletions: deletions2,
                threads: threads2,
            },
        ) => name.same(name2) && *repo_id == *repo_id2 && path.same(path2) && change.same(change2) && *viewed
            == *viewed2 && *open == *open2 && additions.same(additions2) && deletions.same(deletions2) && *threads
            == *threads2,
        _ => false,
    }
}

impl Value for TreeNode {
    fn dup(&self) -> (r: Self) {
        dup_node(self)
    }

    fn same(&self, other: &Self) -> (b: bool) {
        same_node(self, other)
    }
}

impl SpecTreeNode {
    pub open spec fn name(self) -> Seq<char> {
        match self {
            SpecTreeNode::Dir { name, .. } => name,
            SpecTreeNode::File { name, .. } => name,
        }
    }
}

/// Directories before files, each by name.
pub open spec fn node_order() -> spec_fn(SpecTreeNode, SpecTreeNode) -> bool {
    |a: SpecTreeNode, b: SpecTreeNode|
        if (a is Dir) == (b is Dir) {
            text::le(a.name(), b.name())
        } else {
            a is Dir
        }
}

fn node_le(a: &TreeNode, b: &TreeNode) -> (r: bool)
    ensures
        r == node_order()(a.deep_view(), b.deep_view()),
{
    match (a, b) {
        (TreeNode::Dir { name: x, .. }, TreeNode::Dir { name: y, .. }) => text::in_order(x, y),
        (TreeNode::File { name: x, .. }, TreeNode::File { name: y, .. }) => text::in_order(x, y),
        (TreeNode::Dir { .. }, TreeNode::File { .. }) => true,
        (TreeNode::File { .. }, TreeNode::Dir { .. }) => false,
    }
}

// ---- counts ---------------------------------------------------------------

/// A sum that fits, or the largest number that does.
pub open spec fn sat(a: u32, b: u32) -> u32 {
    if a + b <= u32::MAX {
        (a + b) as u32
    } else {
        u32::MAX
    }
}

fn plus(a: u32, b: u32) -> (r: u32)
    ensures
        r == sat(a, b),
{
    a.saturating_add(b)
}

/// Changed files among the nodes and below them.
pub open spec fn changed_in(nodes: Seq<SpecTreeNode>) -> u32
    decreases nodes.len(),
{
    if nodes.len() == 0 {
        0
    } else {
        sat(
            changed_in(nodes.drop_last()),
            match nodes.last() {
                SpecTreeNode::Dir { changed_below, .. } => changed_below,
                SpecTreeNode::File { change, .. } => if change is Some {
                    1
                } else {
                    0
                },
            },
        )
    }
}

fn count_changed(nodes: &Vec<TreeNode>) -> (r: u32)
    ensures
        r == changed_in(nodes.deep_view()),
{
    let n: usize = nodes.len();
    let ghost all = nodes.deep_view();
    let mut sum: u32 = 0;
    for i in 0..n
        invariant
            n == nodes@.len(),
            all == nodes.deep_view(),
            sum == changed_in(all.take(i as int)),
    {
        assert(all.take(i + 1).drop_last() =~= all.take(i as int));
        assert(all.take(i + 1).last() == nodes@[i as int].deep_view());
        let more: u32 = match &nodes[i] {
            TreeNode::Dir { changed_below, .. } => *changed_below,
            TreeNode::File { change, .. } => if change.is_some() {
                1
            } else {
                0
            },
        };
        sum = plus(sum, more);
    }
    assert(all.take(n as int) =~= all);
    sum
}

pub open spec fn stat_for(file: SpecFileRef) -> spec_fn(SpecFileStat) -> bool {
    |s: SpecFileStat| s.file == file
}

/// The counts of a file: those listed last.
pub fn find_stat<'a>(stats: &'a Vec<FileStat>, file: &FileRef) -> (r: Option<&'a FileStat>)
    ensures
        match r {
            Some(s) => data::found_last(stats.deep_view(), stat_for(file.deep_view())) == Some(s.deep_view()),
            None => data::found_last(stats.deep_view(), stat_for(file.deep_view())) is None,
        },
{
    data::find_last(
        stats,
        |s: &FileStat| -> (b: bool)
            ensures
                b == stat_for(file.deep_view())(s.deep_view())
        { s.file.same(file) },
        Ghost(stat_for(file.deep_view())),
    )
}

impl SpecRenderKey {
    pub open spec fn file(self) -> SpecFileRef {
        SpecFileRef { repo_id: self.repo_id, path: self.path }
    }
}

impl RenderKey {
    /// The file that is rendered.
    pub fn file(&self) -> (r: FileRef)
        ensures
            r.deep_view() == self.deep_view().file(),
    {
        FileRef { repo_id: self.repo_id, path: self.path.dup() }
    }
}

/// The counts once `file` is added.
pub open spec fn counted(
    p: Progress,
    snapshot: SpecReviewSnapshot,
    viewer: SpecAuthor,
    file: SpecRenderKey,
    stats: Seq<SpecFileStat>,
) -> Progress {
    let state = diff::viewed_as(snapshot, viewer, file.repo_id, file.path, file.target.viewed_content());
    let (added, deleted) = match data::found_last(stats, stat_for(file.file())) {
        Some(s) => (s.additions, s.deletions),
        None => (0u32, 0u32),
    };
    Progress {
        viewed: sat(p.viewed, if state == ViewedState::Viewed { 1 } else { 0 }),
        changed_since_viewed: sat(
            p.changed_since_viewed,
            if state == ViewedState::ChangedSinceViewed { 1 } else { 0 },
        ),
        total: sat(p.total, 1),
        additions: sat(p.additions, added),
        deletions: sat(p.deletions, deleted),
    }
}

pub open spec fn no_progress() -> Progress {
    Progress { viewed: 0, changed_since_viewed: 0, total: 0, additions: 0, deletions: 0 }
}

/// The counts over the changed files.
pub open spec fn progress_of(
    snapshot: SpecReviewSnapshot,
    viewer: SpecAuthor,
    files: Seq<SpecRenderKey>,
    stats: Seq<SpecFileStat>,
) -> Progress
    decreases files.len(),
{
    if files.len() == 0 {
        no_progress()
    } else {
        counted(
            progress_of(snapshot, viewer, files.drop_last(), stats),
            snapshot,
            viewer,
            files.last(),
            stats,
        )
    }
}

pub fn progress(
    snapshot: &ReviewSnapshot,
    viewer: &Author,
    files: &Vec<RenderKey>,
    stats: &Vec<FileStat>,
) -> (r: Progress)
    ensures
        r == progress_of(snapshot.deep_view(), viewer.deep_view(), files.deep_view(), stats.deep_view()),
{
    let n: usize = files.len();
    let ghost all = files.deep_view();
    let mut p = Progress { viewed: 0, changed_since_viewed: 0, total: 0, additions: 0, deletions: 0 };
    for i in 0..n
        invariant
            n == files@.len(),
            all == files.deep_view(),
            p == progress_of(snapshot.deep_view(), viewer.deep_view(), all.take(i as int), stats.deep_view()),
    {
        assert(all.take(i + 1).drop_last() =~= all.take(i as int));
        assert(all.take(i + 1).last() == files@[i as int].deep_view());
        let f = &files[i];
        let state = viewed_state(snapshot, viewer, f.repo_id, &f.path, f.target.viewed_content());
        let (added, deleted): (u32, u32) = match find_stat(stats, &f.file()) {
            Some(s) => (s.additions, s.deletions),
            None => (0, 0),
        };
        p = Progress {
            viewed: plus(p.viewed, if state == ViewedState::Viewed { 1 } else { 0 }),
            changed_since_viewed: plus(
                p.changed_since_viewed,
                if state == ViewedState::ChangedSinceViewed { 1 } else { 0 },
            ),
            total: plus(p.total, 1),
            additions: plus(p.additions, added),
            deletions: plus(p.deletions, deleted),
        };
    }
    assert(all.take(n as int) =~= all);
    p
}

// ---- nesting --------------------------------------------------------------

pub open spec fn file_of(repo_id: RepoId, path: SpecRepoPath) -> spec_fn(SpecRenderKey) -> bool {
    |k: SpecRenderKey| k.is_of(repo_id, path)
}

pub fn find_file<'a>(
    files: &'a Vec<RenderKey>,
    repo_id: RepoId,
    path: &RepoPath,
) -> (r: Option<&'a RenderKey>)
    ensures
        match r {
            Some(k) => data::found(
                files.deep_view(),
                file_of(repo_id, path.deep_view()),
            ) == Some(k.deep_view()),
            None => data::found(files.deep_view(), file_of(repo_id, path.deep_view())) is None,
        },
{
    data::find(
        files,
        |k: &RenderKey| -> (b: bool)
            ensures
                b == file_of(repo_id, path.deep_view())(k.deep_view())
        { k.is_of(repo_id, path) },
        Ghost(file_of(repo_id, path.deep_view())),
    )
}

impl SpecRenderTarget {
    /// How the file differs, if it is a diff.
    pub open spec fn change(self) -> Option<ChangeKindKind> {
        match self {
            SpecRenderTarget::Diff { change } => Some(change.kind()),
            SpecRenderTarget::Blob { .. } => None,
        }
    }
}

fn change_of(target: &RenderTarget) -> (r: Option<ChangeKindKind>)
    ensures
        r == target.deep_view().change(),
{
    match target {
        RenderTarget::Diff { change } => Some(change.kind()),
        RenderTarget::Blob { .. } => None,
    }
}

pub open spec fn same_file(file: SpecFileRef) -> spec_fn(SpecFileRef) -> bool {
    |f: SpecFileRef| f == file
}

impl SpecExplorerInputs {
    /// Whether a directory is shown open.
    pub open spec fn is_open(self, dir: SpecDirKey) -> bool {
        if self.changed_only {
            !self.state.collapsed.contains(dir)
        } else {
            self.state.expanded.contains(dir)
        }
    }

    pub open spec fn repo_name(self, repo_id: RepoId) -> Seq<char> {
        match data::found(self.repo_names, |n: SpecRepoName| n.id == repo_id) {
            Some(n) => n.name,
            None => protocol::id_text(repo_id.0),
        }
    }

    /// The node of a file, called `name` in its directory.
    pub open spec fn file_node(self, repo_id: RepoId, leaf: SpecLeaf, name: Seq<char>) -> SpecTreeNode {
        let file = SpecFileRef { repo_id, path: leaf.path };
        let stat = data::found_last(self.stats, stat_for(file));
        SpecTreeNode::File {
            name,
            repo_id,
            path: leaf.path,
            change: match data::found(self.files, file_of(repo_id, leaf.path)) {
                Some(k) => k.target.change(),
                None => None,
            },
            viewed: diff::viewed_as(self.snapshot, self.viewer, repo_id, leaf.path, leaf.head_content),
            open: self.open_file == Some(file),
            additions: match stat {
                Some(s) => Some(s.additions),
                None => None,
            },
            deletions: match stat {
                Some(s) => Some(s.deletions),
                None => None,
            },
            threads: diff::clipped(self.anchored.filter(same_file(file)).len()),
        }
    }

    /// The nodes the first `k` leaves make in the directory behind `prefix`:
    /// one per file in it, one per directory in it. No path is longer than
    /// `limit`.
    pub open spec fn nodes(
        self,
        repo_id: RepoId,
        leaves: Seq<SpecLeaf>,
        prefix: Seq<char>,
        limit: nat,
        k: nat,
    ) -> Seq<
        SpecTreeNode,
    >
        decreases limit - prefix.len(), k,
    {
        if k == 0 || k > leaves.len() {
            Seq::empty()
        } else {
            let before = self.nodes(repo_id, leaves, prefix, limit, (k - 1) as nat);
            let leaf = leaves[k - 1];
            match text::after_prefix(leaf.path.text, prefix) {
                None => before,
                Some(rest) => match text::split_once(rest, '/') {
                    None => before.push(self.file_node(repo_id, leaf, rest)),
                    Some((dir, _)) => {
                        let path = prefix + dir;
                        let below = path + "/"@;
                        if data::some_where(leaves.take(k - 1), dir_is(prefix, dir)) || !text::is_path(path)
                            || below.len() > limit || below.len() <= prefix.len() {
                            before
                        } else {
                            let children = data::sorted(
                                self.nodes(repo_id, leaves, below, limit, leaves.len()),
                                node_order(),
                            );
                            let key = Some(SpecRepoPath { text: path });
                            before.push(
                                SpecTreeNode::Dir {
                                    name: dir,
                                    repo_id,
                                    path: key,
                                    expanded: self.is_open(SpecDirKey { repo_id, path: key }),
                                    changed_below: changed_in(children),
                                    children,
                                },
                            )
                        }
                    },
                },
            }
        }
    }
}

/// The directory behind `prefix` that a leaf is somewhere in.
pub open spec fn dir_is(prefix: Seq<char>, dir: Seq<char>) -> spec_fn(SpecLeaf) -> bool {
    |l: SpecLeaf|
        match text::after_prefix(l.path.text, prefix) {
            None => false,
            Some(rest) => match text::split_once(rest, '/') {
                None => false,
                Some((d, _)) => d == dir,
            },
        }
}

impl ExplorerInputs {
    fn is_open(&self, dir: &DirKey) -> (b: bool)
        ensures
            b == self.deep_view().is_open(dir.deep_view()),
    {
        if self.changed_only {
            !data::contains(&self.state.collapsed, dir)
        } else {
            data::contains(&self.state.expanded, dir)
        }
    }

    fn repo_name(&self, repo_id: RepoId) -> (r: String)
        ensures
            r@ == self.deep_view().repo_name(repo_id),
    {
        match data::find(
            &self.repo_names,
            |n: &RepoName| -> (b: bool)
                ensures
                    b == (n.deep_view().id == repo_id)
            { n.id == repo_id },
            Ghost(|n: SpecRepoName| n.id == repo_id),
        ) {
            Some(n) => n.name.dup(),
            None => repo_id.to_string(),
        }
    }

    fn threads_on(&self, file: &FileRef) -> (r: u32)
        ensures
            r == diff::clipped(self.deep_view().anchored.filter(same_file(file.deep_view())).len()),
    {
        let hits = data::filtered(
            &self.anchored,
            |f: &FileRef| -> (b: bool)
                ensures
                    b == same_file(file.deep_view())(f.deep_view())
            { f.same(file) },
            Ghost(same_file(file.deep_view())),
        );
        assert(hits.deep_view().len() == hits@.len());
        let n: usize = hits.len();
        if n <= 0xffff_ffff {
            n as u32
        } else {
            u32::MAX
        }
    }

    fn file_node(&self, repo_id: RepoId, leaf: &Leaf, name: String) -> (r: TreeNode)
        ensures
            r.deep_view() == self.deep_view().file_node(repo_id, leaf.deep_view(), name@),
    {
        let file = FileRef { repo_id, path: leaf.path.dup() };
        let stat = find_stat(&self.stats, &file);
        let (additions, deletions) = match stat {
            Some(s) => (Some(s.additions), Some(s.deletions)),
            None => (None, None),
        };
        let open = match &self.open_file {
            Some(f) => f.same(&file),
            None => false,
        };
        TreeNode::File {
            name,
            repo_id,
            change: match find_file(&self.files, repo_id, &leaf.path) {
                Some(k) => change_of(&k.target),
                None => None,
            },
            viewed: viewed_state(&self.snapshot, &self.viewer, repo_id, &leaf.path, leaf.head_content),
            open,
            additions,
            deletions,
            threads: self.threads_on(&file),
            path: leaf.path.dup(),
        }
    }

    fn seen(leaves: &Vec<Leaf>, k: usize, prefix: &String, dir: &String) -> (b: bool)
        requires
            k <= leaves@.len(),
        ensures
            b == data::some_where(leaves.deep_view().take(k as int), dir_is(prefix@, dir@)),
    {
        let ghost all = leaves.deep_view().take(k as int);
        for j in 0..k
            invariant
                k <= leaves@.len(),
                all == leaves.deep_view().take(k as int),
                forall|i: int| 0 <= i < j ==> !dir_is(prefix@, dir@)(#[trigger] all[i]),
        {
            let ghost leaf = all[j as int];
            assert(leaf == leaves@[j as int].deep_view());
            if let Some(rest) = text::strip_prefix(leaves[j].path.text.as_str(), prefix.as_str()) {
                if let Some(parts) = text::split(rest.as_str(), '/') {
                    if parts.0.same(dir) {
                        assert(dir_is(prefix@, dir@)(all[j as int]));
                        return true;
                    }
                }
            }
        }
        false
    }

    fn nest(&self, repo_id: RepoId, leaves: &Vec<Leaf>, prefix: &String, prefix_len: usize, limit: usize) -> (r: Vec<
        TreeNode,
    >)
        requires
            prefix_len == prefix@.len(),
        ensures
            r.deep_view() == data::sorted(
                self.deep_view().nodes(
                    repo_id,
                    leaves.deep_view(),
                    prefix@,
                    limit as nat,
                    leaves.deep_view().len(),
                ),
                node_order(),
            ),
        decreases limit - prefix_len,
    {
        let n: usize = leaves.len();
        let ghost all = leaves.deep_view();
        let mut out: Vec<TreeNode> = data::empty();
        for k in 0..n
            invariant
                n == leaves@.len(),
                all == leaves.deep_view(),
                prefix_len == prefix@.len(),
                out.deep_view() == self.deep_view().nodes(repo_id, all, prefix@, limit as nat, k as nat),
        {
            assert(all[k as int] == leaves@[k as int].deep_view());
            let leaf = &leaves[k];
            match text::strip_prefix(leaf.path.text.as_str(), prefix.as_str()) {
                None => {},
                Some(rest) => match text::split(rest.as_str(), '/') {
                    None => {
                        let node = self.file_node(repo_id, leaf, rest);
                        data::push(&mut out, node);
                    },
                    Some(parts) => {
                        let dir = parts.0;
                        let path = text::join(prefix.as_str(), dir.as_str());
                        let below = text::join(path.as_str(), "/");
                        let below_len: usize = text::chars(below.as_str()).len();
                        if !(Self::seen(leaves, k, prefix, &dir) || !text::valid_path(path.as_str()) || below_len > limit
                            || below_len <= prefix_len) {
                            let children = self.nest(repo_id, leaves, &below, below_len, limit);
                            let changed_below = count_changed(&children);
                            let key = DirKey { repo_id, path: Some(RepoPath { text: path.dup() }) };
                            let expanded = self.is_open(&key);
                            let node = TreeNode::Dir {
                                name: dir,
                                repo_id,
                                path: key.path,
                                expanded,
                                changed_below,
                                children,
                            };
                            assert(node.deep_view()->children =~= children.deep_view());
                            data::push(&mut out, node);
                        }
                    },
                },
            }
        }
        assert(all.len() == leaves@.len());
        data::sort(
            &mut out,
            |a: &TreeNode, b: &TreeNode| -> (r: bool)
                ensures
                    r == node_order()(a.deep_view(), b.deep_view())
            { node_le(a, b) },
            Ghost(node_order()),
        );
        out
    }
}

// ---- the whole tree -------------------------------------------------------

impl SpecTreeEntry {
    /// The leaf a tree entry is, if it is a file.
    pub open spec fn leaf(self) -> Option<SpecLeaf> {
        match self.kind {
            TreeEntryKind::File { oid, .. } => Some(
                SpecLeaf { path: self.path, head_content: ViewedContent::Blob { oid } },
            ),
            TreeEntryKind::Symlink { oid } => Some(
                SpecLeaf { path: self.path, head_content: ViewedContent::Blob { oid } },
            ),
            TreeEntryKind::Dir { .. } => None,
            TreeEntryKind::Submodule { .. } => None,
        }
    }
}

fn leaf_of(e: &TreeEntry) -> (r: Option<Leaf>)
    ensures
        r.deep_view() == e.deep_view().leaf(),
{
    match e.kind {
        TreeEntryKind::File { oid, .. } => Some(
            Leaf { path: e.path.dup(), head_content: ViewedContent::Blob { oid } },
        ),
        TreeEntryKind::Symlink { oid } => Some(
            Leaf { path: e.path.dup(), head_content: ViewedContent::Blob { oid } },
        ),
        TreeEntryKind::Dir { .. } => None,
        TreeEntryKind::Submodule { .. } => None,
    }
}

/// The files of `repo_id` in the trees.
pub open spec fn tree_leaves(trees: Seq<SpecTreeSnapshot>, repo_id: RepoId) -> Seq<SpecLeaf>
    decreases trees.len(),
{
    if trees.len() == 0 {
        Seq::empty()
    } else {
        let before = tree_leaves(trees.drop_last(), repo_id);
        if trees.last().repo_id == repo_id {
            before + trees.last().entries.filter_map(|e: SpecTreeEntry| e.leaf())
        } else {
            before
        }
    }
}

pub open spec fn leaf_at(path: SpecRepoPath) -> spec_fn(SpecLeaf) -> bool {
    |l: SpecLeaf| l.path == path
}

/// The leaves with every changed file of `repo_id` that is not one yet, such
/// as a deleted file.
pub open spec fn with_files(
    leaves: Seq<SpecLeaf>,
    files: Seq<SpecRenderKey>,
    repo_id: RepoId,
) -> Seq<SpecLeaf>
    decreases files.len(),
{
    if files.len() == 0 {
        leaves
    } else {
        let before = with_files(leaves, files.drop_last(), repo_id);
        let f = files.last();
        if f.repo_id == repo_id && !data::some_where(before, leaf_at(f.path)) {
            before.push(SpecLeaf { path: f.path, head_content: f.target.viewed_content() })
        } else {
            before
        }
    }
}

pub open spec fn leaf_order() -> spec_fn(SpecLeaf, SpecLeaf) -> bool {
    |a: SpecLeaf, b: SpecLeaf| text::le(a.path.text, b.path.text)
}

/// The longest path.
pub open spec fn longest(leaves: Seq<SpecLeaf>) -> nat
    decreases leaves.len(),
{
    if leaves.len() == 0 {
        0
    } else {
        let before = longest(leaves.drop_last());
        if leaves.last().path.text.len() > before {
            leaves.last().path.text.len()
        } else {
            before
        }
    }
}

/// Each element once, where it first occurs.
pub open spec fn distinct(ids: Seq<RepoId>) -> Seq<RepoId>
    decreases ids.len(),
{
    if ids.len() == 0 {
        Seq::empty()
    } else {
        let before = distinct(ids.drop_last());
        if before.contains(ids.last()) {
            before
        } else {
            before.push(ids.last())
        }
    }
}

pub open spec fn id_order() -> spec_fn(RepoId, RepoId) -> bool {
    |a: RepoId, b: RepoId| a.0 <= b.0
}

impl SpecExplorerInputs {
    /// The repositories shown, in order of their ids.
    pub open spec fn repos(self) -> Seq<RepoId> {
        let of_files = self.files.map_values(|k: SpecRenderKey| k.repo_id);
        let of_trees = if self.changed_only {
            Seq::empty()
        } else {
            self.trees.map_values(|t: SpecTreeSnapshot| t.repo_id)
        };
        data::sorted(distinct(of_trees + of_files), id_order())
    }

    /// The files of one repository, by path.
    pub open spec fn leaves(self, repo_id: RepoId) -> Seq<SpecLeaf> {
        let of_trees = if self.changed_only {
            Seq::empty()
        } else {
            tree_leaves(self.trees, repo_id)
        };
        data::sorted(with_files(of_trees, self.files, repo_id), leaf_order())
    }

    pub open spec fn root(self, repo_id: RepoId) -> SpecTreeNode {
        let leaves = self.leaves(repo_id);
        let children = data::sorted(
            self.nodes(repo_id, leaves, Seq::empty(), longest(leaves), leaves.len()),
            node_order(),
        );
        SpecTreeNode::Dir {
            name: self.repo_name(repo_id),
            repo_id,
            path: None,
            expanded: self.is_open(SpecDirKey { repo_id, path: None }),
            changed_below: changed_in(children),
            children,
        }
    }

    pub open spec fn breadcrumbs(self) -> Seq<Seq<char>> {
        match self.open_file {
            None => Seq::empty(),
            Some(f) => seq![self.repo_name(f.repo_id)] + text::parts(f.path.text, '/'),
        }
    }
}

fn put_id(ids: &mut Vec<RepoId>, id: RepoId)
    ensures
        final(ids).deep_view() == if old(ids).deep_view().contains(id) {
            old(ids).deep_view()
        } else {
            old(ids).deep_view().push(id)
        },
{
    if !data::contains(ids, &id) {
        data::push(ids, id);
    }
}

impl ExplorerInputs {
    fn repos(&self) -> (r: Vec<RepoId>)
        ensures
            r.deep_view() == self.deep_view().repos(),
    {
        let mut ids: Vec<RepoId> = data::empty();
        if !self.changed_only {
            ids = data::map(
                &self.trees,
                |t: &TreeSnapshot| -> (id: RepoId)
                    ensures
                        id.deep_view() == t.deep_view().repo_id
                { t.repo_id },
                Ghost(|t: SpecTreeSnapshot| t.repo_id),
            );
        }
        let of_files = data::map(
            &self.files,
            |k: &RenderKey| -> (id: RepoId)
                ensures
                    id.deep_view() == k.deep_view().repo_id
            { k.repo_id },
            Ghost(|k: SpecRenderKey| k.repo_id),
        );
        data::append(&mut ids, of_files);
        let ghost all = ids.deep_view();
        let n: usize = ids.len();
        let mut out: Vec<RepoId> = data::empty();
        for i in 0..n
            invariant
                n == ids@.len(),
                all == ids.deep_view(),
                out.deep_view() == distinct(all.take(i as int)),
        {
            assert(all.take(i + 1).drop_last() =~= all.take(i as int));
            assert(all.take(i + 1).last() == ids@[i as int]);
            put_id(&mut out, ids[i]);
        }
        assert(all.take(n as int) =~= all);
        data::sort(
            &mut out,
            |a: &RepoId, b: &RepoId| -> (r: bool)
                ensures
                    r == id_order()(a.deep_view(), b.deep_view())
            { a.0 <= b.0 },
            Ghost(id_order()),
        );
        out
    }

    fn tree_leaves(&self, repo_id: RepoId) -> (r: Vec<Leaf>)
        ensures
            r.deep_view() == tree_leaves(self.deep_view().trees, repo_id),
    {
        let n: usize = self.trees.len();
        let ghost all = self.trees.deep_view();
        let mut out: Vec<Leaf> = data::empty();
        for i in 0..n
            invariant
                n == self.trees@.len(),
                all == self.trees.deep_view(),
                out.deep_view() == tree_leaves(all.take(i as int), repo_id),
        {
            assert(all.take(i + 1).drop_last() =~= all.take(i as int));
            assert(all.take(i + 1).last() == self.trees@[i as int].deep_view());
            if self.trees[i].repo_id == repo_id {
                let more = data::filter_map(
                    &self.trees[i].entries,
                    |e: &TreeEntry| -> (l: Option<Leaf>)
                        ensures
                            l.deep_view() == e.deep_view().leaf()
                    { leaf_of(e) },
                    Ghost(|e: SpecTreeEntry| e.leaf()),
                );
                data::append(&mut out, more);
            }
        }
        assert(all.take(n as int) =~= all);
        out
    }

    fn leaves(&self, repo_id: RepoId) -> (r: Vec<Leaf>)
        ensures
            r.deep_view() == self.deep_view().leaves(repo_id),
    {
        let mut out: Vec<Leaf> = if self.changed_only {
            data::empty()
        } else {
            self.tree_leaves(repo_id)
        };
        let ghost start = out.deep_view();
        let n: usize = self.files.len();
        let ghost all = self.files.deep_view();
        for i in 0..n
            invariant
                n == self.files@.len(),
                all == self.files.deep_view(),
                out.deep_view() == with_files(start, all.take(i as int), repo_id),
        {
            assert(all.take(i + 1).drop_last() =~= all.take(i as int));
            assert(all.take(i + 1).last() == self.files@[i as int].deep_view());
            let f = &self.files[i];
            if f.repo_id == repo_id {
                let known = data::any(
                    &out,
                    |l: &Leaf| -> (b: bool)
                        ensures
                            b == leaf_at(f.path.deep_view())(l.deep_view())
                    { l.path.same(&f.path) },
                    Ghost(leaf_at(f.path.deep_view())),
                );
                if !known {
                    data::push(
                        &mut out,
                        Leaf { path: f.path.dup(), head_content: f.target.viewed_content() },
                    );
                }
            }
        }
        assert(all.take(n as int) =~= all);
        data::sort(
            &mut out,
            |a: &Leaf, b: &Leaf| -> (r: bool)
                ensures
                    r == leaf_order()(a.deep_view(), b.deep_view())
            { text::in_order(&a.path.text, &b.path.text) },
            Ghost(leaf_order()),
        );
        out
    }

    fn longest(leaves: &Vec<Leaf>) -> (r: usize)
        ensures
            r == longest(leaves.deep_view()),
    {
        let n: usize = leaves.len();
        let ghost all = leaves.deep_view();
        let mut max: usize = 0;
        for i in 0..n
            invariant
                n == leaves@.len(),
                all == leaves.deep_view(),
                max == longest(all.take(i as int)),
        {
            assert(all.take(i + 1).drop_last() =~= all.take(i as int));
            assert(all.take(i + 1).last() == leaves@[i as int].deep_view());
            let len: usize = text::chars(leaves[i].path.text.as_str()).len();
            if len > max {
                max = len;
            }
        }
        assert(all.take(n as int) =~= all);
        max
    }

    fn root(&self, repo_id: RepoId) -> (r: TreeNode)
        ensures
            r.deep_view() == self.deep_view().root(repo_id),
    {
        let leaves = self.leaves(repo_id);
        let limit: usize = Self::longest(&leaves);
        let prefix = String::new();
        assert(prefix@ =~= Seq::empty());
        let children = self.nest(repo_id, &leaves, &prefix, 0, limit);
        let changed_below = count_changed(&children);
        let key = DirKey { repo_id, path: None };
        let expanded = self.is_open(&key);
        let node = TreeNode::Dir {
            name: self.repo_name(repo_id),
            repo_id,
            path: None,
            expanded,
            changed_below,
            children,
        };
        assert(node.deep_view()->children =~= children.deep_view());
        node
    }

    fn breadcrumbs(&self) -> (r: Vec<String>)
        ensures
            r.deep_view() == self.deep_view().breadcrumbs(),
    {
        match &self.open_file {
            None => data::empty(),
            Some(f) => {
                let mut out: Vec<String> = data::one(self.repo_name(f.repo_id));
                data::append(&mut out, text::split_all(f.path.text.as_str(), '/'));
                out
            },
        }
    }
}

// ---- search ---------------------------------------------------------------

/// How far a match has come.
pub struct FuzzyState {
    /// Characters of the query found.
    pub found: int,
    pub score: int,
    pub matched: Seq<usize>,
    /// The character before was a hit.
    pub hit: bool,
    /// Bytes passed.
    pub offset: int,
}

/// Where the file name starts: behind the last `/`.
pub open spec fn name_start(path: Seq<char>) -> int {
    match text::before_last(path, '/') {
        Some(dir) => dir.len() as int + 1,
        None => 0,
    }
}

/// A query's `wanted` is the first character of `c` in lower case.
pub open spec fn is_hit(c: char, wanted: char) -> bool {
    text::lower(c).len() > 0 && text::lower(c)[0] == wanted
}

/// A match over the first `n` characters: each character of the query is
/// taken where it first can be. A hit scores 10, 15 more right behind
/// another, 5 more in the file name and 8 more at the start of a component.
pub open spec fn fuzzy_after(path: Seq<char>, query: Seq<char>, n: nat) -> FuzzyState
    decreases n,
{
    if n == 0 || n > path.len() {
        FuzzyState { found: 0, score: 0, matched: Seq::empty(), hit: false, offset: 0 }
    } else {
        let s = fuzzy_after(path, query, (n - 1) as nat);
        let c = path[n - 1];
        let offset = s.offset + text::width(c);
        if s.found >= query.len() {
            FuzzyState { offset, ..s }
        } else if is_hit(c, query[s.found]) {
            FuzzyState {
                found: s.found + 1,
                score: s.score + 10 + (if s.hit { 15int } else { 0int }) + (if n - 1 >= name_start(path) {
                    5int
                } else {
                    0int
                }) + (if n == 1 || path[n - 2] == '/' {
                    8int
                } else {
                    0int
                }),
                matched: s.matched.push(s.offset as usize),
                hit: true,
                offset,
            }
        } else {
            FuzzyState { hit: false, offset, ..s }
        }
    }
}

/// The score of a path against a query in lower case, and the byte offsets
/// matched; `None` unless all of the query was found. Shorter paths score
/// higher.
pub open spec fn fuzzy_score(path: Seq<char>, query: Seq<char>) -> Option<(int, Seq<usize>)> {
    let s = fuzzy_after(path, query, path.len());
    if s.found < query.len() {
        None
    } else {
        Some((s.score - text::byte_len(path) as int / 4, s.matched))
    }
}

pub proof fn lemma_fuzzy_bounds(path: Seq<char>, query: Seq<char>, n: nat)
    requires
        n <= path.len(),
    ensures
        0 <= fuzzy_after(path, query, n).found <= n,
        fuzzy_after(path, query, n).found <= query.len(),
        0 <= fuzzy_after(path, query, n).score <= 38 * n,
        0 <= fuzzy_after(path, query, n).offset <= 4 * n,
        fuzzy_after(path, query, n).offset == text::byte_len(path.take(n as int)),
        fuzzy_after(path, query, n).matched.len() == fuzzy_after(path, query, n).found,
    decreases n,
{
    if n > 0 {
        lemma_fuzzy_bounds(path, query, (n - 1) as nat);
        assert(path.take(n as int).drop_last() =~= path.take(n - 1));
    }
}

/// `at` names characters of `path`, in order, that the first of `query` hit.
pub open spec fn hits(path: Seq<char>, query: Seq<char>, at: Seq<int>) -> bool {
    &&& at.len() <= query.len()
    &&& forall|k: int| 0 <= k < at.len() ==> 0 <= #[trigger] at[k] < path.len() && is_hit(path[at[k]], query[k])
    &&& forall|j: int, k: int| 0 <= j < k < at.len() ==> #[trigger] at[j] < #[trigger] at[k]
}

/// No hits come earlier than those of `at`, nor are there more.
pub open spec fn leftmost(path: Seq<char>, query: Seq<char>, at: Seq<int>) -> bool {
    forall|other: Seq<int>| #[trigger]
        hits(path, query, other) ==> other.len() <= at.len() && forall|k: int|
            0 <= k < other.len() ==> at[k] <= #[trigger] other[k]
}

/// What the characters at `at` are worth: 10 each, 15 more right behind the
/// one before, 5 more in the file name, 8 more at the start of a component.
pub open spec fn points(path: Seq<char>, at: Seq<int>) -> int
    decreases at.len(),
{
    if at.len() == 0 {
        0
    } else {
        let i = at.last();
        points(path, at.drop_last()) + 10 + (if at.len() > 1 && at[at.len() - 2] == i - 1 {
            15int
        } else {
            0int
        }) + (if forall|j: int| i <= j < path.len() ==> #[trigger] path[j] != '/' {
            5int
        } else {
            0int
        }) + (if i == 0 || path[i - 1] == '/' {
            8int
        } else {
            0int
        })
    }
}

proof fn lemma_name_start(path: Seq<char>, i: int)
    requires
        0 <= i < path.len(),
    ensures
        i >= name_start(path) <==> forall|j: int| i <= j < path.len() ==> #[trigger] path[j] != '/',
    decreases path.len(),
{
    if path.last() != '/' {
        let rest = path.drop_last();
        assert(name_start(path) == name_start(rest));
        if i < rest.len() {
            lemma_name_start(rest, i);
            assert(forall|j: int| 0 <= j < rest.len() ==> rest[j] == #[trigger] path[j]);
            if forall|j: int| i <= j < rest.len() ==> #[trigger] rest[j] != '/' {
                assert forall|j: int| i <= j < path.len() implies #[trigger] path[j] != '/' by {
                    if j < rest.len() {
                        assert(rest[j] != '/');
                    }
                }
            } else {
                let j = choose|j: int| i <= j < rest.len() && #[trigger] rest[j] == '/';
                assert(path[j] == '/');
            }
        } else {
            lemma_before_last(rest, '/');
            assert(path[i] == path.last());
        }
    } else {
        assert(path[path.len() - 1] == '/');
    }
}

proof fn lemma_fuzzy_hits(path: Seq<char>, query: Seq<char>, n: nat) -> (at: Seq<int>)
    requires
        n <= path.len(),
    ensures
        hits(path.take(n as int), query, at),
        leftmost(path.take(n as int), query, at),
        at.len() == fuzzy_after(path, query, n).found,
        fuzzy_after(path, query, n).score == points(path, at),
        at.len() < query.len() ==> (fuzzy_after(path, query, n).hit <==> at.len() > 0 && at.last() == n - 1),
        fuzzy_after(path, query, n).matched == at.map_values(|i: int| text::byte_len(path.take(i)) as usize),
    decreases n,
{
    let offset = |i: int| text::byte_len(path.take(i)) as usize;
    if n == 0 {
        let at = Seq::<int>::empty();
        assert forall|other: Seq<int>| #[trigger] hits(path.take(0), query, other) implies other.len() <= at.len() by {
            if other.len() > 0 {
                assert(0 <= other[0] < path.take(0).len());
            }
        }
        assert(at.map_values(offset) =~= Seq::empty());
        at
    } else {
        let m = (n - 1) as nat;
        let before = lemma_fuzzy_hits(path, query, m);
        let s = fuzzy_after(path, query, m);
        let part = path.take(m as int);
        let whole = path.take(n as int);
        let c = path[m as int];
        lemma_fuzzy_bounds(path, query, m);
        let taken = s.found < query.len() && is_hit(c, query[s.found]);
        let at = if taken {
            before.push(m as int)
        } else {
            before
        };
        lemma_name_start(path, m as int);
        if taken {
            assert(at.drop_last() =~= before);
            assert(before.len() > 0 ==> at[at.len() - 2] == before.last());
        } else if before.len() > 0 {
            assert(0 <= before[before.len() - 1] < part.len());
        }
        assert(hits(whole, query, at)) by {
            assert forall|k: int| 0 <= k < at.len() implies 0 <= #[trigger] at[k] < whole.len() && is_hit(
                whole[at[k]],
                query[k],
            ) by {
                if k < before.len() {
                    assert(at[k] == before[k]);
                    assert(whole[at[k]] == part[before[k]]);
                }
            }
            assert forall|j: int, k: int| 0 <= j < k < at.len() implies #[trigger] at[j] < #[trigger] at[k] by {
                assert(at[j] == before[j]);
                if k < before.len() {
                    assert(at[k] == before[k]);
                }
            }
        }
        assert forall|other: Seq<int>| #[trigger] hits(whole, query, other) implies other.len() <= at.len() && forall|
            k: int,
        | 0 <= k < other.len() ==> at[k] <= #[trigger] other[k] by {
            if other.len() > 0 && other.last() == m {
                let rest = other.drop_last();
                let last = other.len() - 1;
                assert(other[last] == m);
                assert(hits(part, query, rest)) by {
                    assert forall|k: int| 0 <= k < rest.len() implies 0 <= #[trigger] rest[k] < part.len() && is_hit(
                        part[rest[k]],
                        query[k],
                    ) by {
                        assert(rest[k] == other[k]);
                        assert(other[k] < other[last]);
                        assert(part[rest[k]] == whole[other[k]]);
                    }
                    assert forall|j: int, k: int| 0 <= j < k < rest.len() implies #[trigger] rest[j]
                        < #[trigger] rest[k] by {
                        assert(rest[j] == other[j] && rest[k] == other[k]);
                    }
                }
                assert(is_hit(whole[other[last]], query[last]));
                assert(whole[m as int] == c);
                assert forall|k: int| 0 <= k < other.len() implies k < at.len() && at[k] <= #[trigger] other[k] by {
                    if k < last {
                        assert(rest[k] == other[k]);
                        assert(before[k] <= rest[k]);
                        assert(at[k] == before[k]);
                    } else if last < before.len() {
                        assert(at[k] == before[k]);
                        assert(0 <= before[k] < part.len());
                    }
                }
                assert(last < at.len());
            } else {
                assert(hits(part, query, other)) by {
                    assert forall|k: int| 0 <= k < other.len() implies 0 <= #[trigger] other[k] < part.len() && is_hit(
                        part[other[k]],
                        query[k],
                    ) by {
                        let last = other.len() - 1;
                        assert(0 <= other[last] < whole.len());
                        if k < last {
                            assert(other[k] < other[last]);
                        }
                        assert(part[other[k]] == whole[other[k]]);
                    }
                }
                assert forall|k: int| 0 <= k < other.len() implies at[k] <= #[trigger] other[k] by {
                    assert(before[k] <= other[k]);
                    assert(at[k] == before[k]);
                }
            }
        }
        assert(fuzzy_after(path, query, n).matched =~= at.map_values(offset));
        at
    }
}

/// A path matches a query exactly where some of its characters, in order, are
/// hit by the query's; the offsets reported are those of the earliest such
/// characters, and the score is what those are worth less a quarter of the
/// path's length.
pub proof fn fuzzy_matches_are_leftmost(path: Seq<char>, query: Seq<char>)
    ensures
        fuzzy_score(path, query) is Some <==> exists|at: Seq<int>| #[trigger]
            hits(path, query, at) && at.len() == query.len(),
        fuzzy_score(path, query) is Some ==> exists|at: Seq<int>|
            #![trigger hits(path, query, at)]
            hits(path, query, at) && at.len() == query.len() && leftmost(path, query, at)
                && (fuzzy_score(path, query)->0).1 == at.map_values(|i: int| text::byte_len(path.take(i)) as usize)
                && (fuzzy_score(path, query)->0).0 == points(path, at) - text::byte_len(path) as int / 4,
{
    let at = lemma_fuzzy_hits(path, query, path.len());
    assert(path.take(path.len() as int) =~= path);
    assert(hits(path, query, at));
    lemma_fuzzy_bounds(path, query, path.len());
}

/// Match `query`, in lower case, against a path.
pub fn fuzzy(path: &str, query: &[char]) -> (r: Option<(i128, Vec<usize>)>)
    ensures
        match r {
            Some(m) => fuzzy_score(path@, query@) == Some((m.0 as int, m.1@)),
            None => fuzzy_score(path@, query@) is None,
        },
{
    let v = text::chars(path);
    let n: usize = v.len();
    let start: usize = match text::split_last(path, '/') {
        Some(dir) => {
            let len: usize = text::chars(dir.as_str()).len();
            proof {
                lemma_before_last(path@, '/');
            }
            len + 1
        },
        None => 0,
    };
    let mut found: usize = 0;
    let mut score: i128 = 0;
    let mut matched: Vec<usize> = Vec::new();
    let mut hit = false;
    let mut offset: u128 = 0;
    let len: usize = query.len();
    for i in 0..n
        invariant
            n == v@.len(),
            v@ == path@,
            len == query@.len(),
            start == name_start(path@),
            found == fuzzy_after(path@, query@, i as nat).found,
            score == fuzzy_after(path@, query@, i as nat).score,
            matched@ == fuzzy_after(path@, query@, i as nat).matched,
            hit == fuzzy_after(path@, query@, i as nat).hit,
            offset == fuzzy_after(path@, query@, i as nat).offset,
    {
        proof {
            lemma_fuzzy_bounds(path@, query@, i as nat);
        }
        let c: char = v[i];
        if found < len {
            let low = text::first_lower(c);
            let is_hit = match low {
                Some(x) => x == query[found],
                None => false,
            };
            if is_hit {
                matched.push(offset as usize);
                found = found + 1;
                score = score + 10;
                if hit {
                    score = score + 15;
                }
                if i >= start {
                    score = score + 5;
                }
                if i == 0 || v[i - 1] == '/' {
                    score = score + 8;
                }
                hit = true;
            } else {
                hit = false;
            }
        }
        offset = offset + text::width_of(c) as u128;
    }
    proof {
        lemma_fuzzy_bounds(path@, query@, n as nat);
        assert(path@.take(n as int) =~= path@);
    }
    if found < len {
        None
    } else {
        Some((score - (offset / 4) as i128, matched))
    }
}

proof fn lemma_before_last(s: Seq<char>, c: char)
    ensures
        match text::before_last(s, c) {
            Some(p) => p.len() < s.len(),
            None => true,
        },
    decreases s.len(),
{
    if s.len() > 0 && s.last() != c {
        lemma_before_last(s.drop_last(), c);
    }
}

/// Most hits a search shows.
pub const MAX_HITS: usize = 50;

pub open spec fn candidate_at(file: SpecFileRef) -> spec_fn(SpecCandidate) -> bool {
    |c: SpecCandidate| c.file == file
}

/// The candidates with the files among `entries` that are none yet.
pub open spec fn with_entries(found: Seq<SpecCandidate>, repo_id: RepoId, entries: Seq<SpecTreeEntry>) -> Seq<
    SpecCandidate,
>
    decreases entries.len(),
{
    if entries.len() == 0 {
        found
    } else {
        let before = with_entries(found, repo_id, entries.drop_last());
        let e = entries.last();
        let file = SpecFileRef { repo_id, path: e.path };
        if e.leaf() is Some && !data::some_where(before, candidate_at(file)) {
            before.push(SpecCandidate { file, change: None })
        } else {
            before
        }
    }
}

pub open spec fn with_trees(found: Seq<SpecCandidate>, trees: Seq<SpecTreeSnapshot>) -> Seq<SpecCandidate>
    decreases trees.len(),
{
    if trees.len() == 0 {
        found
    } else {
        with_entries(with_trees(found, trees.drop_last()), trees.last().repo_id, trees.last().entries)
    }
}

/// A candidate's hit; a changed file ranks above unchanged ones.
pub open spec fn score_of(c: SpecCandidate, query: Seq<char>) -> Option<SpecScored> {
    match fuzzy_score(c.file.path.text, query) {
        None => None,
        Some((score, matched)) => Some(
            SpecScored {
                score: (score + (if c.change is Some { 1000int } else { 0int })) as i128,
                hit: SpecSearchHit { file: c.file, matched, change: c.change },
            },
        ),
    }
}

/// Higher scores first, then by path.
pub open spec fn hit_order() -> spec_fn(SpecScored, SpecScored) -> bool {
    |a: SpecScored, b: SpecScored|
        a.score > b.score || (a.score == b.score && text::le(a.hit.file.path.text, b.hit.file.path.text))
}

impl SpecExplorerInputs {
    /// The changed files, then everything else in the head trees.
    pub open spec fn candidates(self) -> Seq<SpecCandidate> {
        with_trees(
            self.files.map_values(|k: SpecRenderKey| SpecCandidate { file: k.file(), change: k.target.change() }),
            self.trees,
        )
    }

    pub open spec fn hits(self, query: Seq<char>) -> Seq<SpecSearchHit> {
        let wanted = text::folded(query);
        if wanted.len() == 0 {
            Seq::empty()
        } else {
            let best = data::sorted(
                self.candidates().filter_map(|c: SpecCandidate| score_of(c, wanted)),
                hit_order(),
            );
            best.take(if best.len() <= MAX_HITS { best.len() as int } else { MAX_HITS as int }).map_values(
                |s: SpecScored| s.hit,
            )
        }
    }

    pub open spec fn search_view(self) -> Option<SpecSearchView> {
        match self.state.search {
            None => None,
            Some(query) => {
                let hits = self.hits(query);
                let last = if hits.len() == 0 {
                    0
                } else {
                    hits.len() - 1
                };
                Some(
                    SpecSearchView {
                        query,
                        hits,
                        selected: if self.state.search_selected <= last {
                            self.state.search_selected
                        } else {
                            last as usize
                        },
                    },
                )
            },
        }
    }

    /// The explorer.
    pub open spec fn explorer(self) -> SpecTreeView {
        SpecTreeView {
            roots: self.repos().map_values(|id: RepoId| self.root(id)),
            breadcrumbs: self.breadcrumbs(),
            search: self.search_view(),
        }
    }
}

impl ExplorerInputs {
    fn add_entries(found: &mut Vec<Candidate>, repo_id: RepoId, entries: &Vec<TreeEntry>)
        ensures
            final(found).deep_view() == with_entries(old(found).deep_view(), repo_id, entries.deep_view()),
    {
        let ghost start = found.deep_view();
        let n: usize = entries.len();
        let ghost all = entries.deep_view();
        for i in 0..n
            invariant
                n == entries@.len(),
                all == entries.deep_view(),
                found.deep_view() == with_entries(start, repo_id, all.take(i as int)),
        {
            assert(all.take(i + 1).drop_last() =~= all.take(i as int));
            assert(all.take(i + 1).last() == entries@[i as int].deep_view());
            let e = &entries[i];
            if leaf_of(e).is_some() {
                let file = FileRef { repo_id, path: e.path.dup() };
                let known = data::any(
                    found,
                    |c: &Candidate| -> (b: bool)
                        ensures
                            b == candidate_at(file.deep_view())(c.deep_view())
                    { c.file.same(&file) },
                    Ghost(candidate_at(file.deep_view())),
                );
                if !known {
                    data::push(found, Candidate { file, change: None });
                }
            }
        }
        assert(all.take(n as int) =~= all);
    }

    fn candidates(&self) -> (r: Vec<Candidate>)
        ensures
            r.deep_view() == self.deep_view().candidates(),
    {
        let mut out = data::map(
            &self.files,
            |k: &RenderKey| -> (c: Candidate)
                ensures
                    c.deep_view() == (SpecCandidate { file: k.deep_view().file(), change: k.deep_view().target.change() })
            { Candidate { file: k.file(), change: change_of(&k.target) } },
            Ghost(|k: SpecRenderKey| SpecCandidate { file: k.file(), change: k.target.change() }),
        );
        let ghost start = out.deep_view();
        let n: usize = self.trees.len();
        let ghost all = self.trees.deep_view();
        for i in 0..n
            invariant
                n == self.trees@.len(),
                all == self.trees.deep_view(),
                out.deep_view() == with_trees(start, all.take(i as int)),
        {
            assert(all.take(i + 1).drop_last() =~= all.take(i as int));
            assert(all.take(i + 1).last() == self.trees@[i as int].deep_view());
            Self::add_entries(&mut out, self.trees[i].repo_id, &self.trees[i].entries);
        }
        assert(all.take(n as int) =~= all);
        out
    }

    fn score(c: &Candidate, query: &Vec<char>) -> (r: Option<Scored>)
        ensures
            r.deep_view() == score_of(c.deep_view(), query@),
    {
        match fuzzy(c.file.path.text.as_str(), query.as_slice()) {
            None => None,
            Some(m) => {
                proof {
                    let path = c.file.path.text@;
                    lemma_fuzzy_bounds(path, query@, path.len());
                    text::lemma_byte_len(path);
                }
                let len: usize = text::chars(c.file.path.text.as_str()).len();
                assert(m.1.deep_view() =~= m.1@);
                let score: i128 = if c.change.is_some() {
                    m.0 + 1000
                } else {
                    m.0
                };
                Some(Scored { score, hit: SearchHit { file: c.file.dup(), matched: m.1, change: c.change } })
            },
        }
    }

    fn hits(&self, query: &String) -> (r: Vec<SearchHit>)
        ensures
            r.deep_view() == self.deep_view().hits(query@),
    {
        let wanted = text::fold(query.as_str());
        if wanted.len() == 0 {
            return data::empty();
        }
        let candidates = self.candidates();
        let mut best = data::filter_map(
            &candidates,
            |c: &Candidate| -> (s: Option<Scored>)
                ensures
                    s.deep_view() == score_of(c.deep_view(), wanted@)
            { Self::score(c, &wanted) },
            Ghost(|c: SpecCandidate| score_of(c, wanted@)),
        );
        data::sort(
            &mut best,
            |a: &Scored, b: &Scored| -> (r: bool)
                ensures
                    r == hit_order()(a.deep_view(), b.deep_view())
            {
                a.score > b.score || (a.score == b.score && text::in_order(
                    &a.hit.file.path.text,
                    &b.hit.file.path.text,
                ))
            },
            Ghost(hit_order()),
        );
        let ghost all = best.deep_view();
        assert(all.len() == best@.len());
        if best.len() > MAX_HITS {
            best.truncate(MAX_HITS);
            assert(best.deep_view() =~= all.take(MAX_HITS as int));
        } else {
            assert(best.deep_view() =~= all.take(all.len() as int));
        }
        data::map(
            &best,
            |s: &Scored| -> (h: SearchHit)
                ensures
                    h.deep_view() == s.deep_view().hit
            { s.hit.dup() },
            Ghost(|s: SpecScored| s.hit),
        )
    }

    /// Build the explorer.
    pub fn build(&self) -> (r: TreeView)
        ensures
            r.deep_view() == self.deep_view().explorer(),
    {
        let repos = self.repos();
        let ghost me = self.deep_view();
        let roots = data::map(
            &repos,
            |id: &RepoId| -> (n: TreeNode)
                ensures
                    n.deep_view() == me.root(id.deep_view())
            { self.root(*id) },
            Ghost(|id: RepoId| me.root(id)),
        );
        let search = match &self.state.search {
            None => None,
            Some(query) => {
                let hits = self.hits(query);
                assert(hits.deep_view().len() == hits@.len());
                let last: usize = if hits.len() == 0 {
                    0
                } else {
                    hits.len() - 1
                };
                let selected: usize = if self.state.search_selected <= last {
                    self.state.search_selected
                } else {
                    last
                };
                Some(SearchView { query: query.dup(), hits, selected })
            },
        };
        TreeView { roots, breadcrumbs: self.breadcrumbs(), search }
    }
}

// ---- what is visible ------------------------------------------------------

/// The nodes a tree shows, top to bottom: the children of a directory only
/// while it is open.
pub open spec fn visible(nodes: Seq<SpecTreeNode>) -> Seq<SpecTreeNode>
    decreases nodes,
{
    if nodes.len() == 0 {
        Seq::empty()
    } else {
        let node = nodes[nodes.len() - 1];
        let below = match node {
            SpecTreeNode::Dir { expanded, children, .. } => if expanded {
                visible(children)
            } else {
                Seq::empty()
            },
            SpecTreeNode::File { .. } => Seq::empty(),
        };
        visible(nodes.subrange(0, nodes.len() - 1)) + seq![node] + below
    }
}

/// Every directory of a tree, open or not.
pub open spec fn dirs(nodes: Seq<SpecTreeNode>) -> Seq<SpecDirKey>
    decreases nodes,
{
    if nodes.len() == 0 {
        Seq::empty()
    } else {
        let here = match nodes[nodes.len() - 1] {
            SpecTreeNode::Dir { repo_id, path, children, .. } => seq![SpecDirKey { repo_id, path }] + dirs(children),
            SpecTreeNode::File { .. } => Seq::empty(),
        };
        dirs(nodes.subrange(0, nodes.len() - 1)) + here
    }
}

fn push_visible<'a>(nodes: &'a Vec<TreeNode>, out: &mut Vec<&'a TreeNode>)
    ensures
        final(out).deep_view() == old(out).deep_view() + visible(nodes.deep_view()),
    decreases nodes,
{
    let n: usize = nodes.len();
    let ghost all = nodes.deep_view();
    let ghost start = out.deep_view();
    assert(start + visible(all.take(0)) =~= start);
    for i in 0..n
        invariant
            n == nodes@.len(),
            all == nodes.deep_view(),
            out.deep_view() == start + visible(all.take(i as int)),
    {
        let ghost so_far = visible(all.take(i as int));
        assert(all.take(i + 1).subrange(0, i as int) =~= all.take(i as int));
        let node = &nodes[i];
        let ghost model = node.deep_view();
        assert(all.take(i + 1)[i as int] == model);
        data::push(out, node);
        assert((start + so_far).push(model) =~= start + (so_far + seq![model]));
        match node {
            TreeNode::Dir { expanded, children, .. } => {
                assert(model->children =~= children.deep_view());
                if *expanded {
                    proof {
                        assert(decreases_to!(nodes => nodes@));
                        assert(decreases_to!(nodes@ => nodes@[i as int]));
                        assert(decreases_to!(*node => node->children));
                    }
                    push_visible(children, out);
                    assert((start + (so_far + seq![model])) + visible(model->children) =~= start + (so_far + seq![model]
                        + visible(model->children)));
                } else {
                    assert(so_far + seq![model] + Seq::<SpecTreeNode>::empty() =~= so_far + seq![model]);
                }
            },
            TreeNode::File { .. } => {
                assert(so_far + seq![model] + Seq::<SpecTreeNode>::empty() =~= so_far + seq![model]);
            },
        }
    }
    assert(all.take(n as int) =~= all);
}

/// The nodes a tree shows.
pub fn visible_in(nodes: &Vec<TreeNode>) -> (r: Vec<&TreeNode>)
    ensures
        r.deep_view() == visible(nodes.deep_view()),
{
    let mut out: Vec<&TreeNode> = data::empty();
    push_visible(nodes, &mut out);
    assert(Seq::empty() + visible(nodes.deep_view()) =~= visible(nodes.deep_view()));
    out
}

fn push_dirs(nodes: &Vec<TreeNode>, out: &mut Vec<DirKey>)
    ensures
        final(out).deep_view() == old(out).deep_view() + dirs(nodes.deep_view()),
    decreases nodes,
{
    let n: usize = nodes.len();
    let ghost all = nodes.deep_view();
    let ghost start = out.deep_view();
    assert(start + dirs(all.take(0)) =~= start);
    for i in 0..n
        invariant
            n == nodes@.len(),
            all == nodes.deep_view(),
            out.deep_view() == start + dirs(all.take(i as int)),
    {
        let ghost so_far = dirs(all.take(i as int));
        assert(all.take(i + 1).subrange(0, i as int) =~= all.take(i as int));
        let node = &nodes[i];
        let ghost model = node.deep_view();
        assert(all.take(i + 1)[i as int] == model);
        match node {
            TreeNode::Dir { repo_id, path, children, .. } => {
                assert(model->children =~= children.deep_view());
                let key = DirKey { repo_id: *repo_id, path: path.dup() };
                let ghost k = key.deep_view();
                data::push(out, key);
                proof {
                    assert(decreases_to!(nodes => nodes@));
                    assert(decreases_to!(nodes@ => nodes@[i as int]));
                    assert(decreases_to!(*node => node->children));
                }
                push_dirs(children, out);
                assert((start + so_far).push(k) + dirs(model->children) =~= start + (so_far + (seq![k] + dirs(
                    model->children,
                ))));
            },
            TreeNode::File { .. } => {
                assert(so_far + Seq::<SpecDirKey>::empty() =~= so_far);
            },
        }
    }
    assert(all.take(n as int) =~= all);
}

/// Every directory of a tree.
pub fn dirs_in(nodes: &Vec<TreeNode>) -> (r: Vec<DirKey>)
    ensures
        r.deep_view() == dirs(nodes.deep_view()),
{
    let mut out: Vec<DirKey> = data::empty();
    push_dirs(nodes, &mut out);
    assert(Seq::empty() + dirs(nodes.deep_view()) =~= dirs(nodes.deep_view()));
    out
}

// ---- laws -----------------------------------------------------------------

/// No more files are viewed, or changed since, than there are.
pub proof fn progress_is_within_the_total(
    snapshot: SpecReviewSnapshot,
    viewer: SpecAuthor,
    files: Seq<SpecRenderKey>,
    stats: Seq<SpecFileStat>,
)
    ensures
        progress_of(
            snapshot,
            viewer,
            files,
            stats,
        ).viewed <= progress_of(snapshot, viewer, files, stats).total,
        progress_of(snapshot, viewer, files, stats).changed_since_viewed <= progress_of(
            snapshot,
            viewer,
            files,
            stats,
        ).total,
        files.len() <= u32::MAX ==> progress_of(snapshot, viewer, files, stats).total == files.len(),
    decreases files.len(),
{
    if files.len() > 0 {
        progress_is_within_the_total(snapshot, viewer, files.drop_last(), stats);
    }
}

} // verus!
