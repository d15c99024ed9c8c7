//! What browsing, the selector of revisions and the start of a new review do,
//! said of the parts they change.
use vstd::prelude::*;

use crate::browse::{SpecBrowse, SpecBrowseAttemptState, SpecBrowseStatus};
use crate::cache::Bytes;
use crate::client::{SpecClientCore, SpecCoreError};
use crate::creation::{missing, CreationReconcile, SpecCreationStatus, SpecReviewCreation};
use crate::creation::CreationResume;
use crate::data;
use crate::events::target_of;
use crate::fetching::{roots_of, tree_fetches, Arrival};
use crate::flow::{SpecErrand, SpecFlow};
use crate::live::workspace_is;
use crate::livelaws;
use crate::protocol::{
    RepoId, RequestId, ReviewId, SpecClientMsg, SpecRequest, SpecReviewTarget, SpecRpcError, SpecTreeSnapshot,
    WorkspaceId,
};
use crate::ref_selector::RefSelectorPurpose;
use crate::view::SpecOpenReview;

verus! {

// ---- browsing -------------------------------------------------------------

/// One of the targets is of the repository.
pub open spec fn targets_have(targets: Seq<SpecReviewTarget>, repo_id: RepoId) -> bool {
    exists|i: int| 0 <= i < targets.len() && (#[trigger] targets[i]).repo_id == repo_id
}

proof fn lemma_has_repo(core: SpecClientCore, repo_id: RepoId)
    ensures
        core.has_repo(repo_id) <==> core.view.review is Some && targets_have(
            (core.view.review->0).snapshot.review.targets,
            repo_id,
        ),
{
    if let Some(open) = core.view.review {
        let targets = open.snapshot.review.targets;
        let p = target_of(repo_id);
        data::lemma_first_where(targets, p);
        if let Some(i) = data::first_where(targets, p) {
            assert(p(targets[i]));
        }
        if targets_have(targets, repo_id) {
            let i = choose|i: int| 0 <= i < targets.len() && (#[trigger] targets[i]).repo_id == repo_id;
            assert(p(targets[i]));
        }
    }
}

/// The repository browsed is the one chosen, else the one under the focus,
/// where the review has it; else the first of the review.
pub proof fn the_repository_browsed_is_the_one_chosen(core: SpecClientCore)
    ensures
        core.view.review is None ==> core.repo_browsed() is None,
        core.view.review matches Some(open) ==> {
            let targets = open.snapshot.review.targets;
            let wanted = if core.browse_repo is Some {
                core.browse_repo
            } else {
                core.view.target_repo(core.view.focus)
            };
            &&& wanted is Some && targets_have(targets, wanted->0) ==> core.repo_browsed() == wanted
            &&& !(wanted is Some && targets_have(targets, wanted->0)) && targets.len() > 0 ==> core.repo_browsed()
                == Some(targets[0].repo_id)
            &&& targets.len() == 0 ==> core.repo_browsed() is None
            &&& core.browse_shown() is Some <==> core.repo_browsed() is Some
        },
        core.browse_shown() matches Some(v) ==> {
            &&& core.repo_browsed() == Some(v.repo_id)
            &&& v.selection is Some <==> core.browse is Some
            &&& core.browse is Some ==> v.selection == Some((core.browse->0).target)
            &&& v.attempt is Some <==> core.browse_attempt is Some
            &&& core.browse_attempt matches Some(a) ==> {
                &&& (v.attempt->0).target == a.target
                &&& a.state is Loading <==> (v.attempt->0).status is Loading
                &&& a.state matches SpecBrowseAttemptState::Failed { message } ==> (v.attempt->0).status
                    == (SpecBrowseStatus::Failed { message })
            }
        },
{
    if let Some(open) = core.view.review {
        if let Some(id) = core.browse_repo {
            lemma_has_repo(core, id);
        }
        if let Some(id) = core.view.target_repo(core.view.focus) {
            lemma_has_repo(core, id);
        }
    }
}

proof fn lemma_review_trees_keep(core: SpecClientCore, fetch: bool)
    ensures
        ({
            let out = core.review_trees(fetch);
            &&& out.browse == core.browse
            &&& out.browse_attempt == core.browse_attempt
            &&& out.browse_repo == core.browse_repo
            &&& out.ref_selector == core.ref_selector
            &&& out.view.review is Some <==> core.view.review is Some
            &&& core.view.review is Some ==> (out.view.review->0).open_file == (core.view.review->0).open_file
            &&& core.view.review is Some ==> (out.view.review->0).snapshot == (core.view.review->0).snapshot
        }),
{
    reveal(SpecClientCore::review_trees);
    reveal(SpecClientCore::retained);
    if let Some(open) = core.view.review {
        let fetches = tree_fetches(open.current_targets());
        let c = core.with_open(SpecOpenReview { trees: roots_of(fetches), ..open }).retained();
        livelaws::lemma_planted(c, fetches, fetch);
    }
}

/// The tree asked for becomes the one browsed, closes the selector it was
/// chosen in and the file that was open; one of another repository is
/// refused, and while something is being written nothing is replaced.
pub proof fn browsed_trees_replace_what_was_browsed(
    core: SpecClientCore,
    id: RequestId,
    repo_id: RepoId,
    snapshot: SpecTreeSnapshot,
    size: Bytes,
)
    requires
        core.browse_attempt is Some,
        (core.browse_attempt->0).state == (SpecBrowseAttemptState::Loading { request_id: id }),
        (core.browse_attempt->0).target.repo_id == repo_id,
    ensures
        ({
            let out = core.browse_answer(id, repo_id, snapshot, size);
            let target = (core.browse_attempt->0).target;
            let chosen_here = core.ref_selector is Some && (core.ref_selector->0).view.purpose is Browse && (
            core.ref_selector->0).view.repo_id == repo_id;
            &&& snapshot.repo_id != repo_id <==> out is Err
            &&& snapshot.repo_id == repo_id && core.view.draft is Some ==> {
                &&& (out->Ok_0).browse == core.browse
                &&& (out->Ok_0).view == core.view
                &&& (out->Ok_0).browse_attempt is Some
                &&& ((out->Ok_0).browse_attempt->0).state is Failed
                &&& ((out->Ok_0).browse_attempt->0).target == target
            }
            &&& snapshot.repo_id == repo_id && core.view.draft is None ==> {
                &&& (out->Ok_0).browse == Some(SpecBrowse { target, root: snapshot.root_oid })
                &&& (out->Ok_0).browse_attempt is None
                &&& chosen_here ==> (out->Ok_0).ref_selector is None
                &&& !chosen_here ==> (out->Ok_0).ref_selector == core.ref_selector
                &&& core.view.review is Some ==> ((out->Ok_0).view.review->0).open_file is None
            }
        }),
{
    reveal(SpecClientCore::browse_answer);
    reveal(SpecClientCore::browse_refused);
    reveal(SpecClientCore::browse_committed);
    if snapshot.repo_id == repo_id && core.view.draft is None {
        let target = (core.browse_attempt->0).target;
        let tree = snapshot.tree_key();
        let key = crate::cache::SpecCacheKey::Tree { tree };
        let closes = core.browse_selector() && (core.ref_selector->0).view.repo_id == target.repo_id;
        let c = SpecClientCore {
            browse: Some(SpecBrowse { target, root: tree.root }),
            browse_attempt: None,
            ref_selector: if closes {
                None
            } else {
                core.ref_selector
            },
            ..core
        }.without_visual().without_file().pin(key);
        let value = crate::cache::SpecCacheValue::Tree { snapshot };
        reveal(SpecClientCore::arrived);
        reveal(SpecClientCore::stocked);
        let d = c.arrived(key, value, size, Arrival::Response);
        assert(livelaws::differs_in_flow(c, d));
        lemma_review_trees_keep(d, true);
    }
}

/// A tree that cannot be had says why, and no tree that is waited for is
/// forgotten for another's failure.
pub proof fn failed_trees_say_why(core: SpecClientCore, id: RequestId, error: SpecRpcError)
    ensures
        ({
            let out = core.browse_failed(id, error);
            let awaited = core.browse_attempt is Some && (core.browse_attempt->0).state
                == (SpecBrowseAttemptState::Loading { request_id: id });
            let chosen_here = core.ref_selector is Some && (core.ref_selector->0).view.purpose is Browse && (
            core.ref_selector->0).view.repo_id == (core.browse_attempt->0).target.repo_id;
            &&& !awaited ==> out == core
            &&& awaited ==> {
                &&& out.browse_attempt is Some
                &&& (out.browse_attempt->0).target == (core.browse_attempt->0).target
                &&& (out.browse_attempt->0).state == (SpecBrowseAttemptState::Failed { message: error.message() })
                &&& chosen_here ==> out.ref_selector is Some && (out.ref_selector->0).view.status
                    == error.selector_status()
                &&& !chosen_here ==> out.ref_selector == core.ref_selector
            }
        }),
{
    reveal(SpecClientCore::browse_failed);
    reveal(SpecClientCore::browse_refused);
}

/// Going back to the review's own trees forgets what was browsed.
pub proof fn resets_show_the_review_again(core: SpecClientCore, repo_id: RepoId)
    ensures
        ({
            let out = core.browse_reset(repo_id);
            &&& out.browse is None
            &&& out.browse_attempt is None
            &&& out.browse_repo == Some(repo_id)
            &&& core.ref_selector is Some && (core.ref_selector->0).view.purpose is Browse ==> out.ref_selector is None
            &&& !(core.ref_selector is Some && (core.ref_selector->0).view.purpose is Browse) ==> out.ref_selector
                == core.ref_selector
            &&& core.view.review is Some ==> (out.view.review->0).open_file is None
        }),
{
    reveal(SpecClientCore::browse_reset);
    let c = SpecClientCore {
        browse: None,
        browse_attempt: None,
        browse_repo: Some(repo_id),
        ..core.without_browse_selector()
    }.without_visual().without_file();
    lemma_review_trees_keep(c, true);
}

/// A revision is browsed only in a repository of the open review, with
/// nothing being written.
pub proof fn browsing_needs_a_repository_of_the_review(
    core: SpecClientCore,
    repo_id: RepoId,
    ref_spec: Option<crate::protocol::SpecRefSpec>,
)
    ensures
        core.set_browse_ref(repo_id, ref_spec) is Ok <==> core.view.review is Some && targets_have(
            (core.view.review->0).snapshot.review.targets,
            repo_id,
        ) && core.view.draft is None && (ref_spec is Some ==> core.connection is Subscribed),
        core.set_browse_ref(repo_id, ref_spec) matches Ok(out) ==> out == (match ref_spec {
            Some(r) => core.browse_asked(repo_id, r),
            None => core.browse_reset(repo_id),
        }),
{
    reveal(SpecClientCore::set_browse_ref);
    lemma_has_repo(core, repo_id);
}

// ---- the selector ---------------------------------------------------------

/// A selector opens on a repository of the review and asks for its
/// revisions; to browse, nothing may be being written.
pub proof fn selectors_ask_for_the_revisions(
    core: SpecClientCore,
    repo_id: RepoId,
    purpose: RefSelectorPurpose,
)
    ensures
        core.open_ref_selector(repo_id, purpose) is Ok <==> core.connection is Subscribed && core.view.review is Some
            && targets_have((core.view.review->0).snapshot.review.targets, repo_id) && !(purpose is Browse
            && core.view.draft is Some),
        core.open_ref_selector(repo_id, purpose) matches Ok(out) ==> {
            let id = RequestId(core.flow.wire.next_request);
            &&& out.ref_selector is Some
            &&& (out.ref_selector->0).catalog.len() == 0
            &&& (out.ref_selector->0).view.repo_id == repo_id
            &&& (out.ref_selector->0).view.purpose == purpose
            &&& (out.ref_selector->0).view.request_id == id
            &&& (out.ref_selector->0).view.query.len() == 0
            &&& (out.ref_selector->0).view.status is Loading
            &&& out.flow.out == core.flow.out.push(
                SpecErrand::Send(SpecClientMsg::Request { id, request: SpecRequest::ListRefs { repo_id } }),
            )
            &&& out.view == core.view
            &&& purpose is Browse ==> out.browse_repo == Some(repo_id)
            &&& !(purpose is Browse) ==> out.browse_repo == core.browse_repo && out.browse_attempt
                == core.browse_attempt
        },
{
    reveal(SpecClientCore::open_ref_selector);
    reveal(SpecFlow::request);
    lemma_has_repo(core, repo_id);
}

/// The selector that is open is queried, moved in and closed; without one
/// each of these says so.
pub proof fn only_an_open_selector_is_used(core: SpecClientCore, query: Seq<char>, delta: i32, index: usize)
    ensures
        core.ref_selector_query(query) is Ok <==> core.ref_selector is Some,
        core.ref_selector_step(delta) is Ok <==> core.ref_selector is Some,
        core.close_ref_selector() is Ok <==> core.ref_selector is Some,
        core.ref_selector is None ==> core.select_ref(index) == Err::<SpecClientCore, SpecCoreError>(
            SpecCoreError::NoRefSelector,
        ),
        core.ref_selector is Some && index >= (core.ref_selector->0).view.options.len() ==> core.select_ref(index)
            == Err::<SpecClientCore, SpecCoreError>(SpecCoreError::NoSelectedRef),
        core.ref_selector matches Some(s) ==> core.select_current_ref() == core.select_ref(s.view.selected),
        core.close_ref_selector() matches Ok(out) ==> out.ref_selector is None && out.view == core.view,
        core.ref_selector_query(query) matches Ok(out) ==> out.ref_selector == Some(
            (core.ref_selector->0).queried(query),
        ) && out.view == core.view,
        core.ref_selector_step(delta) matches Ok(out) ==> out.ref_selector == Some(
            (core.ref_selector->0).stepped(delta as int),
        ) && out.view == core.view,
{
    reveal(SpecClientCore::ref_selector_query);
    reveal(SpecClientCore::ref_selector_step);
    reveal(SpecClientCore::close_ref_selector);
    reveal(SpecClientCore::select_ref);
}

/// A connection that is lost while the revisions are on their way is shown in
/// the selector; a selector that has them is left alone.
pub proof fn selectors_say_that_the_connection_was_lost(core: SpecClientCore)
    ensures
        core.ref_selector matches Some(s) ==> {
            let out = core.selector_lost();
            &&& s.view.status is Loading ==> {
                &&& out.ref_selector is Some
                &&& (out.ref_selector->0).view.status is DaemonError
                &&& (out.ref_selector->0).view.query == s.view.query
                &&& (out.ref_selector->0).view.options == s.view.options
            }
            &&& !(s.view.status is Loading) ==> out == core
        },
        core.ref_selector is None ==> core.selector_lost() == core,
{
    reveal(SpecClientCore::selector_lost);
}

// ---- a new review ---------------------------------------------------------

/// The errand asks for the default base of the repository.
pub open spec fn asks_default(e: SpecErrand, repo_id: RepoId) -> bool {
    e matches SpecErrand::Send(SpecClientMsg::Request { request, .. }) && request == (SpecRequest::DefaultBase {
        repo_id,
    })
}

proof fn lemma_defaults_requested(core: SpecClientCore, review_id: ReviewId, repos: Seq<RepoId>)
    ensures
        ({
            let out = core.defaults_requested(review_id, repos);
            &&& livelaws::differs_in_flow(core, out)
            &&& out.flow.out.len() == core.flow.out.len() + repos.len()
            &&& forall|k: int|
                0 <= k < repos.len() ==> asks_default(
                    #[trigger] out.flow.out[core.flow.out.len() + k],
                    repos[k],
                )
        }),
    decreases repos.len(),
{
    if repos.len() > 0 {
        lemma_defaults_requested(core, review_id, repos.drop_last());
        reveal(SpecFlow::request);
        let before = core.defaults_requested(review_id, repos.drop_last());
        let out = core.defaults_requested(review_id, repos);
        assert forall|k: int| 0 <= k < repos.len() implies asks_default(
            #[trigger] out.flow.out[core.flow.out.len() + k],
            repos[k],
        ) by {
            if k < repos.len() - 1 {
                assert(asks_default(before.flow.out[core.flow.out.len() + k], repos.drop_last()[k]));
            }
        }
    }
}

/// A form that can be edited asks for the default of each repository it
/// lacks, and notes that it is on its way; nothing else of it changes.
pub proof fn forms_ask_for_the_defaults_they_lack(core: SpecClientCore, c: SpecReviewCreation)
    requires
        core.view.home.creating == Some(c),
        core.connection is Subscribed,
        c.status is Editing || c.status is Failed,
        c.context == core.view.daemon_context,
    ensures
        ({
            let out = core.defaulted();
            let lacking = missing(c.draft.targets, c.defaults);
            &&& out.view.home.creating is Some
            &&& (out.view.home.creating->0).defaults.len() == c.defaults.len() + lacking.len()
            &&& forall|k: int|
                0 <= k < c.defaults.len() ==> #[trigger] (out.view.home.creating->0).defaults[k] == c.defaults[k]
            &&& forall|k: int|
                0 <= k < lacking.len() ==> {
                    let d = #[trigger] (out.view.home.creating->0).defaults[c.defaults.len() + k];
                    d.repo_id == lacking[k] && d.state is Loading
                }
            &&& (out.view.home.creating->0).draft == c.draft
            &&& (out.view.home.creating->0).status == c.status
            &&& (out.view.home.creating->0).review_id == c.review_id
            &&& (out.view.home.creating->0).workspace_id == c.workspace_id
            &&& out.flow.out.len() == core.flow.out.len() + lacking.len()
            &&& forall|k: int|
                0 <= k < lacking.len() ==> asks_default(
                    #[trigger] out.flow.out[core.flow.out.len() + k],
                    lacking[k],
                )
        }),
{
    reveal(SpecClientCore::defaulted);
    let needed = missing(c.draft.targets, c.defaults);
    let d = core.with_creating(
        Some(
            SpecReviewCreation {
                defaults: c.defaults + needed.map_values(crate::creation::loading_default()),
                ..c
            },
        ),
    );
    lemma_defaults_requested(d, c.review_id, needed);
}

/// A review is started on a workspace that is listed, with an empty title and
/// a row for its first repository; a form that is under way is shown again as
/// it is.
pub proof fn new_forms_start_with_the_first_repository(
    core: SpecClientCore,
    workspace_id: WorkspaceId,
    review_id: ReviewId,
    w: int,
)
    requires
        0 <= w < core.view.workspaces.len(),
        core.view.workspaces[w].id == workspace_id,
        forall|j: int| 0 <= j < w ==> (#[trigger] core.view.workspaces[j]).id != workspace_id,
    ensures
        core.start_creation(workspace_id, review_id) matches Ok(out) && {
            let workspace = core.view.workspaces[w];
            let under_way = core.view.home.creating is Some && {
                let c = core.view.home.creating->0;
                &&& !(c.status is Succeeded)
                &&& (c.status is Editing || c.status is Failed) ==> c.workspace_id == workspace_id
            };
            &&& out.view.focus is Composer
            &&& out.view.review is None || core.view.review is None
            &&& out.pending_reference is None
            &&& under_way ==> out.view.home.creating == core.view.home.creating
            &&& !under_way ==> {
                let c = out.view.home.creating->0;
                &&& out.view.home.creating is Some
                &&& c.review_id == review_id
                &&& c.workspace_id == workspace_id
                &&& c.context == core.view.daemon_context
                &&& c.status is Editing
                &&& c.draft.title.len() == 0
                &&& workspace.repos.len() == 0 ==> c.draft.targets.len() == 0
                &&& workspace.repos.len() > 0 ==> {
                    &&& c.draft.targets.len() == 1
                    &&& c.draft.targets[0].repo_id == workspace.repos[0].id
                    &&& c.draft.targets[0].base is Automatic
                }
            }
        },
{
    reveal(SpecClientCore::start_creation);
    reveal(SpecClientCore::creation_shown);
    reveal(SpecClientCore::closed_review);
    reveal(SpecClientCore::review_closed);
    let p = workspace_is(workspace_id);
    data::lemma_first_where(core.view.workspaces, p);
    assert(p(core.view.workspaces[w]));
    assert forall|j: int| 0 <= j < w implies !p(#[trigger] core.view.workspaces[j]) by {}
    match data::first_where(core.view.workspaces, p) {
        Some(k) => {
            assert(p(core.view.workspaces[k]));
            assert(k == w);
        },
        None => {},
    }
    let b = core.blank(core.view.workspaces[w], review_id);
    let d = core.with_creating(Some(b));
    reveal(SpecClientCore::defaulted);
    if core.subscribed() {
        forms_ask_for_the_defaults_they_lack(d, b);
    }
    let needed = missing(b.draft.targets, b.defaults);
    let e = d.with_creating(
        Some(
            SpecReviewCreation {
                defaults: b.defaults + needed.map_values(crate::creation::loading_default()),
                ..b
            },
        ),
    );
    lemma_defaults_requested(e, b.review_id, needed);
}

/// A creation that failed is looked up before it is believed to have failed:
/// only if there is no such review does the form fail, and it says why the
/// creation did.
pub proof fn failed_creations_are_looked_up(
    core: SpecClientCore,
    review_id: ReviewId,
    error: SpecRpcError,
    lookup: SpecRpcError,
    c: SpecReviewCreation,
)
    requires
        core.view.home.creating == Some(c),
        c.review_id == review_id,
        c.context == core.view.daemon_context,
    ensures
        c.status matches SpecCreationStatus::Pending { submission } ==> {
            let out = core.creation_write_failed(review_id, error);
            &&& out.view.home.creating is Some
            &&& (out.view.home.creating->0).status == (SpecCreationStatus::Reconciling {
                submission,
                next: CreationReconcile::Inspect,
            })
            &&& (out.view.home.creating->0).draft == c.draft
            &&& out.flow.out == core.flow.out.push(
                SpecErrand::Send(
                    SpecClientMsg::Request {
                        id: RequestId(core.flow.wire.next_request),
                        request: SpecRequest::GetReview { review_id },
                    },
                ),
            )
        },
        !(c.status is Pending) ==> core.creation_write_failed(review_id, error) == core,
        c.status is Reconciling && lookup.no_review() ==> {
            let out = core.creation_failure_checked(review_id, error, lookup);
            &&& out.view.home.creating is Some
            &&& (out.view.home.creating->0).status == (SpecCreationStatus::Failed { message: error.message() })
            &&& (out.view.home.creating->0).draft == c.draft
            &&& out.flow.out == core.flow.out
        },
        !lookup.no_review() ==> core.creation_failure_checked(review_id, error, lookup) == core.creation_lookup_failed(
            review_id,
            lookup,
        ),
{
    reveal(SpecClientCore::creation_write_failed);
    reveal(SpecClientCore::creation_failure_checked);
    reveal(SpecFlow::request);
}

/// A kept form is taken up again only with the daemon it was meant for, and
/// never over another.
pub proof fn kept_forms_stay_with_their_daemon(
    core: SpecClientCore,
    creation: SpecReviewCreation,
    resume: CreationResume,
)
    ensures
        creation.context != core.view.daemon_context ==> {
            let out = core.restore_creation(creation, resume);
            &&& out.view.last_error is Some
            &&& out.view.home == core.view.home
            &&& out.flow.out == core.flow.out
            &&& out.view.focus == core.view.focus
        },
        creation.context == core.view.daemon_context && core.view.home.creating is Some ==> core.restore_creation(
            creation,
            resume,
        ) == core,
{
    reveal(SpecClientCore::restore_creation);
}

/// The form that the keys go to is the one under way, while no review is
/// open.
pub proof fn forms_are_active_until_they_succeed(view: crate::view::SpecViewModel)
    ensures
        view.active_creation() is Some <==> view.home.creating is Some && view.open_review is None && !((
        view.home.creating->0).status is Succeeded),
        view.active_creation() is Some ==> view.active_creation() == view.home.creating,
{
}

} // verus!
