//! Workspace inventory and home navigation.
use vstd::prelude::*;

use crate::creation::{ReviewCreation, SpecReviewCreation};
use crate::data;
use crate::data::Value;
use crate::focus::Focus;
use crate::protocol::{
    Repo, RepoId, Review, ReviewId, SpecRepo, SpecReview, SpecWorkspace, Workspace, WorkspaceId,
};
use crate::view::{SpecViewModel, ViewModel};

verus! {

/// What a row of the home list is.
#[derive(Debug, Clone, Copy, PartialEq, Eq, Structural)]
pub enum HomeRowKind {
    Workspace,
    Repository { repo_id: RepoId },
    Review { review_id: ReviewId },
}

impl DeepView for HomeRowKind {
    type V = HomeRowKind;

    open spec fn deep_view(&self) -> HomeRowKind {
        *self
    }
}

impl Value for HomeRowKind {
    fn dup(&self) -> (r: Self) {
        *self
    }

    fn same(&self, other: &Self) -> (b: bool) {
        *self == *other
    }
}

/// A row of the home list. Each review stays visible while the repositories
/// of its workspace are folded away.
#[derive(Debug, Clone, Copy, PartialEq, Eq, Structural)]
pub struct HomeRow {
    pub workspace_id: WorkspaceId,
    pub kind: HomeRowKind,
}

impl DeepView for HomeRow {
    type V = HomeRow;

    open spec fn deep_view(&self) -> HomeRow {
        *self
    }
}

impl Value for HomeRow {
    fn dup(&self) -> (r: Self) {
        *self
    }

    fn same(&self, other: &Self) -> (b: bool) {
        *self == *other
    }
}

/// The home list.
#[derive(Debug, PartialEq, Eq)]
pub struct HomeView {
    pub rows: Vec<HomeRow>,
    pub selected_workspace: Option<WorkspaceId>,
    pub expanded: Vec<WorkspaceId>,
    /// The review being created; it survives daemon errors.
    pub creating: Option<ReviewCreation>,
}

/// Model of [`HomeView`].
#[verifier::ext_equal]
pub struct SpecHomeView {
    pub rows: Seq<HomeRow>,
    pub selected_workspace: Option<WorkspaceId>,
    pub expanded: Seq<WorkspaceId>,
    pub creating: Option<SpecReviewCreation>,
}

impl DeepView for HomeView {
    type V = SpecHomeView;

    open spec fn deep_view(&self) -> SpecHomeView {
        SpecHomeView {
            rows: self.rows.deep_view(),
            selected_workspace: self.selected_workspace,
            expanded: self.expanded.deep_view(),
            creating: self.creating.deep_view(),
        }
    }
}

impl Value for HomeView {
    fn dup(&self) -> (r: Self) {
        HomeView {
            rows: self.rows.dup(),
            selected_workspace: self.selected_workspace,
            expanded: self.expanded.dup(),
            creating: self.creating.dup(),
        }
    }

    fn same(&self, other: &Self) -> (b: bool) {
        self.rows.same(&other.rows)
            && self.selected_workspace.same(&other.selected_workspace)
            && self.expanded.same(&other.expanded)
            && self.creating.same(&other.creating)
    }
}

/// The daemon that is connected to, as the host knows it.
#[derive(Debug, PartialEq, Eq)]
pub enum DaemonContext {
    Named { name: String },
    Socket { path: String },
    WebSocket { url: String },
}

/// Model of [`DaemonContext`].
#[verifier::ext_equal]
pub enum SpecDaemonContext {
    Named { name: Seq<char> },
    Socket { path: Seq<char> },
    WebSocket { url: Seq<char> },
}

impl DeepView for DaemonContext {
    type V = SpecDaemonContext;

    open spec fn deep_view(&self) -> SpecDaemonContext {
        match self {
            DaemonContext::Named { name } => SpecDaemonContext::Named {
                name: name.deep_view(),
            },
            DaemonContext::Socket { path } => SpecDaemonContext::Socket {
                path: path.deep_view(),
            },
            DaemonContext::WebSocket { url } => SpecDaemonContext::WebSocket {
                url: url.deep_view(),
            },
        }
    }
}

impl Value for DaemonContext {
    fn dup(&self) -> (r: Self) {
        match self {
            DaemonContext::Named { name } => DaemonContext::Named {
                name: name.dup(),
            },
            DaemonContext::Socket { path } => DaemonContext::Socket {
                path: path.dup(),
            },
            DaemonContext::WebSocket { url } => DaemonContext::WebSocket {
                url: url.dup(),
            },
        }
    }

    fn same(&self, other: &Self) -> (b: bool) {
        match (self, other) {
            (DaemonContext::Named { name: a0 }, DaemonContext::Named { name: b0 }) => a0.same(b0),
            (DaemonContext::Socket { path: a0 }, DaemonContext::Socket { path: b0 }) => a0.same(b0),
            (DaemonContext::WebSocket { url: a0 }, DaemonContext::WebSocket { url: b0 }) => a0.same(b0),
            _ => false,
        }
    }
}


pub open spec fn in_workspace(id: WorkspaceId) -> spec_fn(SpecReview) -> bool {
    |r: SpecReview| r.workspace_id == id
}

/// The rows of one workspace: itself, its repositories while it is
/// expanded, and its reviews.
pub open spec fn workspace_rows(w: SpecWorkspace, expanded: Seq<WorkspaceId>, reviews: Seq<SpecReview>) -> Seq<HomeRow> {
    let repos = if expanded.contains(w.id) {
        w.repos.map_values(
            |r: SpecRepo| HomeRow { workspace_id: w.id, kind: HomeRowKind::Repository { repo_id: r.id } },
        )
    } else {
        Seq::empty()
    };
    seq![HomeRow { workspace_id: w.id, kind: HomeRowKind::Workspace }] + repos + reviews.filter(
        in_workspace(w.id),
    ).map_values(|r: SpecReview| HomeRow { workspace_id: w.id, kind: HomeRowKind::Review { review_id: r.id } })
}

/// The rows of every workspace.
pub open spec fn home_rows(
    workspaces: Seq<SpecWorkspace>,
    expanded: Seq<WorkspaceId>,
    reviews: Seq<SpecReview>,
) -> Seq<HomeRow>
    decreases workspaces.len(),
{
    if workspaces.len() == 0 {
        Seq::empty()
    } else {
        home_rows(
            workspaces.drop_last(),
            expanded,
            reviews,
        ) + workspace_rows(workspaces.last(), expanded, reviews)
    }
}

fn rows_of(w: &Workspace, expanded: &Vec<WorkspaceId>, reviews: &Vec<Review>) -> (r: Vec<HomeRow>)
    ensures
        r.deep_view() == workspace_rows(w.deep_view(), expanded.deep_view(), reviews.deep_view()),
{
    let id = w.id;
    let mut out: Vec<HomeRow> = data::one(HomeRow { workspace_id: id, kind: HomeRowKind::Workspace });
    let repos = if data::contains(expanded, &id) {
        data::map(
            &w.repos,
            |r: &Repo| -> (h: HomeRow)
                ensures
                    h.deep_view() == (HomeRow {
                        workspace_id: id,
                        kind: HomeRowKind::Repository { repo_id: r.deep_view().id },
                    })
            { HomeRow { workspace_id: id, kind: HomeRowKind::Repository { repo_id: r.id } } },
            Ghost(|r: SpecRepo| HomeRow { workspace_id: id, kind: HomeRowKind::Repository { repo_id: r.id } }),
        )
    } else {
        data::empty()
    };
    data::append(&mut out, repos);
    let mine = data::filtered(
        reviews,
        |r: &Review| -> (b: bool)
            ensures
                b == in_workspace(id)(r.deep_view())
        { r.workspace_id == id },
        Ghost(in_workspace(id)),
    );
    let mine = data::map(
        &mine,
        |r: &Review| -> (h: HomeRow)
            ensures
                h.deep_view() == (HomeRow {
                    workspace_id: id,
                    kind: HomeRowKind::Review { review_id: r.deep_view().id },
                })
        { HomeRow { workspace_id: id, kind: HomeRowKind::Review { review_id: r.id } } },
        Ghost(|r: SpecReview| HomeRow { workspace_id: id, kind: HomeRowKind::Review { review_id: r.id } }),
    );
    data::append(&mut out, mine);
    out
}

/// The rows of the home list.
pub fn rows(view: &ViewModel) -> (r: Vec<HomeRow>)
    ensures
        r.deep_view() == home_rows(
            view.deep_view().workspaces,
            view.deep_view().home.expanded,
            view.deep_view().reviews,
        ),
{
    let workspaces = view.workspaces();
    let expanded = &view.home().expanded;
    let reviews = view.reviews();
    let n: usize = workspaces.len();
    let ghost all = workspaces.deep_view();
    let mut out: Vec<HomeRow> = data::empty();
    for i in 0..n
        invariant
            n == workspaces@.len(),
            all == workspaces.deep_view(),
            out.deep_view() == home_rows(
                all.take(i as int),
                expanded.deep_view(),
                reviews.deep_view(),
            ),
    {
        assert(all.take(i + 1).drop_last() =~= all.take(i as int));
        assert(all.take(i + 1).last() == workspaces@[i as int].deep_view());
        data::append(&mut out, rows_of(&workspaces[i], expanded, reviews));
    }
    assert(all.take(n as int) =~= all);
    out
}

impl SpecViewModel {
    /// The home row that has the focus.
    pub open spec fn focused_row(self) -> Option<HomeRow> {
        match self.focus {
            Focus::ReviewList { index } => if index < self.home.rows.len() {
                Some(self.home.rows[index as int])
            } else {
                None
            },
            _ => None,
        }
    }
}

/// The home row that has the focus.
pub fn focused(view: &ViewModel) -> (r: Option<HomeRow>)
    ensures
        r == view.deep_view().focused_row(),
{
    match view.focus() {
        Focus::ReviewList { index } => {
            let rows = &view.home().rows;
            assert(rows.deep_view().len() == rows@.len());
            if index < rows.len() {
                Some(rows[index])
            } else {
                None
            }
        },
        _ => None,
    }
}

} // verus!
