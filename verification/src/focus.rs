//! Where the keys go: a panel, and a row of it.
use vstd::prelude::*;

use crate::cache::{RenderKey, SpecRenderKey};
use crate::command::{Command, Context};
use crate::data::Value;
use crate::diff::{FileRef, SpecFileRef, SpecThreadPlace, ThreadPlace};
use crate::explorer;
use crate::explorer::{SpecTreeNode, TreeNode};
use crate::protocol::{RenderContent, SpecRenderContent, RepoId, Side};
use crate::view::{SpecViewModel, ViewModel};

verus! {

/// The panel that has the keys, and the row it is on.
#[derive(Debug, Clone, Copy, PartialEq, Eq, Structural)]
pub enum Focus {
    ReviewList { index: usize },
    Tree { index: usize },
    Diff { row: u32, side: Side },
    Thread { index: usize },
    ReviewRequest { index: usize },
    Composer,
    CommitStepper { index: usize },
    Help,
}

impl DeepView for Focus {
    type V = Focus;

    open spec fn deep_view(&self) -> Focus {
        *self
    }
}

impl Value for Focus {
    fn dup(&self) -> (r: Self) {
        *self
    }

    fn same(&self, other: &Self) -> (b: bool) {
        *self == *other
    }
}

/// Why a command cannot run where the focus is.
#[derive(Debug, Clone, Copy, PartialEq, Eq, Structural)]
pub enum NoTarget {
    /// There is nothing for the command to act on.
    Nothing(Command),
}

impl DeepView for NoTarget {
    type V = NoTarget;

    open spec fn deep_view(&self) -> NoTarget {
        *self
    }
}

impl Value for NoTarget {
    fn dup(&self) -> (r: Self) {
        *self
    }

    fn same(&self, other: &Self) -> (b: bool) {
        *self == *other
    }
}

/// Where a selection of lines started.
#[derive(Debug, Clone, Copy, PartialEq, Eq, Structural)]
pub struct VisualAnchor {
    pub row: u32,
    pub side: Side,
}

impl DeepView for VisualAnchor {
    type V = VisualAnchor;

    open spec fn deep_view(&self) -> VisualAnchor {
        *self
    }
}

impl Value for VisualAnchor {
    fn dup(&self) -> (r: Self) {
        *self
    }

    fn same(&self, other: &Self) -> (b: bool) {
        *self == *other
    }
}

/// The line the cursor was on before a render that renumbers the rows.
#[derive(Debug, PartialEq, Eq)]
pub struct Realign {
    /// The render that is waited for.
    pub render: RenderKey,
    pub side: Side,
    pub line: u32,
    /// The row the line was on.
    pub row: u32,
}

/// Model of [`Realign`].
#[verifier::ext_equal]
pub struct SpecRealign {
    pub render: SpecRenderKey,
    pub side: Side,
    pub line: u32,
    pub row: u32,
}

impl DeepView for Realign {
    type V = SpecRealign;

    open spec fn deep_view(&self) -> SpecRealign {
        SpecRealign {
            render: self.render.deep_view(),
            side: self.side,
            line: self.line,
            row: self.row,
        }
    }
}

impl Value for Realign {
    fn dup(&self) -> (r: Self) {
        Realign {
            render: self.render.dup(),
            side: self.side,
            line: self.line,
            row: self.row,
        }
    }

    fn same(&self, other: &Self) -> (b: bool) {
        self.render.same(&other.render)
            && self.side == other.side
            && self.line == other.line
            && self.row == other.row
    }
}


/// Rows a newly opened viewport spans.
pub const PAGE_ROWS: u32 = 60;

impl Focus {
    pub open spec fn spec_context(self) -> Context {
        match self {
            Focus::ReviewList { .. } => Context::ReviewList,
            Focus::Tree { .. } => Context::Tree,
            Focus::Diff { .. } => Context::Diff,
            Focus::Thread { .. } => Context::Thread,
            Focus::ReviewRequest { .. } => Context::Requests,
            Focus::Composer => Context::Composer,
            Focus::CommitStepper { .. } => Context::CommitStepper,
            Focus::Help => Context::Help,
        }
    }

    /// The context whose bindings apply.
    pub fn context(self) -> (r: Context)
        ensures
            r == self.spec_context(),
    {
        match self {
            Focus::ReviewList { .. } => Context::ReviewList,
            Focus::Tree { .. } => Context::Tree,
            Focus::Diff { .. } => Context::Diff,
            Focus::Thread { .. } => Context::Thread,
            Focus::ReviewRequest { .. } => Context::Requests,
            Focus::Composer => Context::Composer,
            Focus::CommitStepper { .. } => Context::CommitStepper,
            Focus::Help => Context::Help,
        }
    }
}

/// The index, or the last one of a list of `len`.
pub open spec fn within(index: usize, len: nat) -> usize {
    if len == 0 {
        0
    } else if index < len {
        index
    } else {
        (len - 1) as usize
    }
}

fn clamp_index(index: usize, len: usize) -> (r: usize)
    ensures
        r == within(index, len as nat),
{
    if len == 0 {
        0
    } else if index < len {
        index
    } else {
        len - 1
    }
}

impl SpecViewModel {
    pub open spec fn visible_nodes(self) -> Seq<SpecTreeNode> {
        explorer::visible(self.tree.roots)
    }

    /// The focus moved to a row its list has. A row of a diff that is not
    /// shown yet stays as it is.
    pub open spec fn clamp(self, focus: Focus) -> Focus {
        match focus {
            Focus::ReviewList { index } => Focus::ReviewList { index: within(index, self.home.rows.len()) },
            Focus::Tree { index } => Focus::Tree { index: within(index, self.visible_nodes().len()) },
            Focus::Diff { row, side } => match self.diff {
                Some(d) => match d.content {
                    SpecRenderContent::Text { total_rows, .. } => if total_rows > 0 && row >= total_rows {
                        Focus::Diff { row: (total_rows - 1) as u32, side }
                    } else {
                        focus
                    },
                    SpecRenderContent::Binary => focus,
                },
                None => focus,
            },
            Focus::Thread { index } => Focus::Thread { index: within(index, self.threads.len()) },
            Focus::ReviewRequest { index } => Focus::ReviewRequest { index: within(index, self.requests.len()) },
            Focus::CommitStepper { index } => Focus::CommitStepper {
                index: match self.stepper {
                    Some(s) => within(index, s.row_count()),
                    None => 0,
                },
            },
            Focus::Composer => focus,
            Focus::Help => focus,
        }
    }

    /// The file under the focus: in the tree, in the diff, or where a thread
    /// is anchored.
    pub open spec fn target_file(self, focus: Focus) -> Option<SpecFileRef> {
        match focus {
            Focus::Tree { index } => if index < self.visible_nodes().len() {
                match self.visible_nodes()[index as int] {
                    SpecTreeNode::File { repo_id, path, .. } => Some(SpecFileRef { repo_id, path }),
                    SpecTreeNode::Dir { .. } => None,
                }
            } else {
                None
            },
            Focus::Diff { .. } => match self.diff {
                Some(d) => Some(d.file),
                None => None,
            },
            Focus::Thread { index } => if index < self.threads.len() {
                match self.threads[index as int].place {
                    SpecThreadPlace::Review => None,
                    SpecThreadPlace::File { file } => Some(file),
                    SpecThreadPlace::Lines { file, .. } => Some(file),
                }
            } else {
                None
            },
            _ => None,
        }
    }

    /// The repository under the focus.
    pub open spec fn target_repo(self, focus: Focus) -> Option<RepoId> {
        match focus {
            Focus::Tree { index } => if index < self.visible_nodes().len() {
                match self.visible_nodes()[index as int] {
                    SpecTreeNode::File { repo_id, .. } => Some(repo_id),
                    SpecTreeNode::Dir { repo_id, .. } => Some(repo_id),
                }
            } else {
                None
            },
            Focus::CommitStepper { .. } => match self.stepper {
                Some(s) => Some(s.repo_id),
                None => None,
            },
            _ => match self.target_file(focus) {
                Some(f) => Some(f.repo_id),
                None => None,
            },
        }
    }
}

/// The nodes of the explorer that are shown, top to bottom.
pub fn visible_nodes(view: &ViewModel) -> (r: Vec<&TreeNode>)
    ensures
        r.deep_view() == view.deep_view().visible_nodes(),
{
    explorer::visible_in(&view.tree().roots)
}

/// The focus moved to a row its list has.
pub fn clamp(view: &ViewModel, focus: Focus) -> (r: Focus)
    ensures
        r == view.deep_view().clamp(focus),
{
    match focus {
        Focus::ReviewList { index } => {
            let rows = &view.home().rows;
            assert(rows.deep_view().len() == rows@.len());
            Focus::ReviewList { index: clamp_index(index, rows.len()) }
        },
        Focus::Tree { index } => {
            let nodes = visible_nodes(view);
            assert(nodes.deep_view().len() == nodes@.len());
            Focus::Tree { index: clamp_index(index, nodes.len()) }
        },
        Focus::Diff { row, side } => match view.diff() {
            Some(d) => match d.content {
                RenderContent::Text { total_rows, .. } => if total_rows > 0 && row >= total_rows {
                    Focus::Diff { row: total_rows - 1, side }
                } else {
                    focus
                },
                RenderContent::Binary => focus,
            },
            None => focus,
        },
        Focus::Thread { index } => {
            let threads = view.threads();
            assert(threads.deep_view().len() == threads@.len());
            Focus::Thread { index: clamp_index(index, threads.len()) }
        },
        Focus::ReviewRequest { index } => {
            let requests = view.requests();
            assert(requests.deep_view().len() == requests@.len());
            Focus::ReviewRequest { index: clamp_index(index, requests.len()) }
        },
        Focus::CommitStepper { index } => match view.stepper() {
            Some(s) => {
                assert(s.commits.deep_view().len() == s.commits@.len());
                let n: u128 = s.commits.len() as u128 + 1 + (if s.has_worktree {
                    1
                } else {
                    0
                });
                let r: usize = if (index as u128) < n {
                    index
                } else {
                    (n - 1) as usize
                };
                Focus::CommitStepper { index: r }
            },
            None => Focus::CommitStepper { index: 0 },
        },
        Focus::Composer => focus,
        Focus::Help => focus,
    }
}

/// The file under the focus.
pub fn target_file_of(view: &ViewModel, focus: Focus) -> (r: Option<FileRef>)
    ensures
        r.deep_view() == view.deep_view().target_file(focus),
{
    match focus {
        Focus::Tree { index } => {
            let nodes = visible_nodes(view);
            assert(nodes.deep_view().len() == nodes@.len());
            if index < nodes.len() {
                assert(nodes.deep_view()[index as int] == nodes@[index as int].deep_view());
                match nodes[index] {
                    TreeNode::File { repo_id, path, .. } => Some(
                        FileRef { repo_id: *repo_id, path: path.dup() },
                    ),
                    TreeNode::Dir { .. } => None,
                }
            } else {
                None
            }
        },
        Focus::Diff { .. } => match view.diff() {
            Some(d) => Some(d.file.dup()),
            None => None,
        },
        Focus::Thread { index } => {
            let threads = view.threads();
            assert(threads.deep_view().len() == threads@.len());
            if index < threads.len() {
                match &threads[index].place {
                    ThreadPlace::Review => None,
                    ThreadPlace::File { file } => Some(file.dup()),
                    ThreadPlace::Lines { file, .. } => Some(file.dup()),
                }
            } else {
                None
            }
        },
        _ => None,
    }
}

/// The repository under the focus.
pub fn target_repo_of(view: &ViewModel, focus: Focus) -> (r: Option<RepoId>)
    ensures
        r == view.deep_view().target_repo(focus),
{
    match focus {
        Focus::Tree { index } => {
            let nodes = visible_nodes(view);
            assert(nodes.deep_view().len() == nodes@.len());
            if index < nodes.len() {
                assert(nodes.deep_view()[index as int] == nodes@[index as int].deep_view());
                match nodes[index] {
                    TreeNode::File { repo_id, .. } => Some(*repo_id),
                    TreeNode::Dir { repo_id, .. } => Some(*repo_id),
                }
            } else {
                None
            }
        },
        Focus::CommitStepper { .. } => match view.stepper() {
            Some(s) => Some(s.repo_id),
            None => None,
        },
        _ => match target_file_of(view, focus) {
            Some(f) => Some(f.repo_id),
            None => None,
        },
    }
}

} // verus!
