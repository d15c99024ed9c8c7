//! What the home list, the form of a new review and the revision selector do,
//! said of their rows.
use vstd::prelude::*;

use crate::creation::{
    default_for, missing, read_ref, row_is, CreationTargetId, SpecCreationBase, SpecCreationDefault,
    SpecCreationDefaultState, SpecCreationEdit, SpecCreationStatus, SpecCreationTarget, SpecReviewCreation,
};
use crate::data;
use crate::home::{home_rows, in_workspace, workspace_rows, HomeRowKind};
use crate::protocol::{
    commit_named, RepoId, SpecBaseRefSpec, SpecRefCandidate, SpecRefSpec, SpecReview, SpecReviewTarget,
    SpecTargetRevision, SpecWorkspace, WorkspaceId,
};
use crate::ref_selector::{
    as_base, candidate_is, literal, moved, named, offered, option_is, RefSelectorPurpose, RefSelectorSide,
    SpecLiteralQuery, SpecRefSelection, SpecRefSelector, SpecRefSelectorStatus, SpecRefSelectorView,
};
use crate::text;

verus! {

// ---- home -----------------------------------------------------------------

/// A workspace is listed first, then its repositories while it is open, then
/// its own reviews, each kind in the order it has.
pub proof fn workspaces_list_their_repositories_and_reviews(
    w: SpecWorkspace,
    expanded: Seq<WorkspaceId>,
    reviews: Seq<SpecReview>,
) -> (at: Seq<int>)
    ensures
        data::rising(at, reviews.len()),
        forall|i: int| 0 <= i < reviews.len() ==> (at.contains(i) <==> (#[trigger] reviews[i]).workspace_id == w.id),
        ({
            let rows = workspace_rows(w, expanded, reviews);
            let n: int = if expanded.contains(w.id) { w.repos.len() as int } else { 0 };
            &&& rows.len() == 1 + n + at.len()
            &&& forall|k: int| 0 <= k < rows.len() ==> (#[trigger] rows[k]).workspace_id == w.id
            &&& rows[0].kind is Workspace
            &&& forall|k: int|
                0 <= k < n ==> (#[trigger] rows[1 + k]).kind == (HomeRowKind::Repository { repo_id: w.repos[k].id })
            &&& forall|k: int|
                0 <= k < at.len() ==> (#[trigger] rows[1 + n + k]).kind == (HomeRowKind::Review {
                    review_id: reviews[at[k]].id,
                })
        }),
{
    let p = in_workspace(w.id);
    let at = data::lemma_kept(reviews, p);
    assert forall|i: int| 0 <= i < reviews.len() implies (at.contains(i) <==> (#[trigger] reviews[i]).workspace_id
        == w.id) by {
        assert(p(reviews[i]) <==> reviews[i].workspace_id == w.id);
    }
    at
}

/// The home list is the rows of the workspaces, one after the other.
pub proof fn workspaces_are_listed_in_order(
    before: Seq<SpecWorkspace>,
    w: SpecWorkspace,
    expanded: Seq<WorkspaceId>,
    reviews: Seq<SpecReview>,
)
    ensures
        home_rows(Seq::empty(), expanded, reviews).len() == 0,
        home_rows(before.push(w), expanded, reviews) == home_rows(before, expanded, reviews) + workspace_rows(
            w,
            expanded,
            reviews,
        ),
{
    assert(before.push(w).drop_last() =~= before);
}

// ---- the form -------------------------------------------------------------

/// The row at `i` is the first with that id.
pub open spec fn named_row(rows: Seq<SpecCreationTarget>, id: CreationTargetId, i: int) -> bool {
    &&& 0 <= i < rows.len()
    &&& rows[i].id == id
    &&& forall|j: int| 0 <= j < i ==> (#[trigger] rows[j]).id != id
}

/// No row but that at `i` differs.
pub open spec fn other_rows_stay(old_rows: Seq<SpecCreationTarget>, rows: Seq<SpecCreationTarget>, i: int) -> bool {
    &&& rows.len() == old_rows.len()
    &&& forall|j: int| 0 <= j < rows.len() && j != i ==> #[trigger] rows[j] == old_rows[j]
}

/// Everything but what was typed, the count of edits and the status stays.
pub open spec fn is_same_form(old_form: SpecReviewCreation, form: SpecReviewCreation) -> bool {
    &&& form.review_id == old_form.review_id
    &&& form.workspace_id == old_form.workspace_id
    &&& form.context == old_form.context
    &&& form.defaults == old_form.defaults
}

proof fn lemma_row(rows: Seq<SpecCreationTarget>, id: CreationTargetId, i: int)
    requires
        named_row(rows, id, i),
    ensures
        data::first_where(rows, row_is(id)) == Some(i),
        data::some_where(rows, row_is(id)),
{
    let p = row_is(id);
    data::lemma_first_where(rows, p);
    assert(p(rows[i]));
    if let Some(k) = data::first_where(rows, p) {
        assert(p(rows[k]));
        if k < i {
            assert(rows[k].id != id);
        }
        if i < k {
            assert(!p(rows[i]));
        }
    }
}

proof fn lemma_no_row(rows: Seq<SpecCreationTarget>, id: CreationTargetId)
    requires
        forall|j: int| 0 <= j < rows.len() ==> (#[trigger] rows[j]).id != id,
    ensures
        data::first_where(rows, row_is(id)) is None,
        !data::some_where(rows, row_is(id)),
{
    let p = row_is(id);
    data::lemma_first_where(rows, p);
    if let Some(k) = data::first_where(rows, p) {
        assert(p(rows[k]));
    }
}

/// A new title replaces the title and nothing else.
pub proof fn titles_are_edited_alone(form: SpecReviewCreation, title: Seq<char>)
    ensures
        ({
            let out = form.edited(SpecCreationEdit::Title { text: title });
            &&& out.draft.title == title
            &&& out.draft.targets == form.draft.targets
            &&& out.selected == form.selected
            &&& out.status is Editing
            &&& is_same_form(form, out)
            &&& out.revision != form.revision
        }),
{
}

/// An edit of a row changes the field it names in the row it names, and no
/// other row. Another repository takes its base anew.
pub proof fn rows_are_edited_alone(
    form: SpecReviewCreation,
    id: CreationTargetId,
    i: int,
    text: Seq<char>,
    repo_id: RepoId,
)
    requires
        named_row(form.draft.targets, id, i),
    ensures
        ({
            let old_rows = form.draft.targets;
            let repo = form.edited(SpecCreationEdit::Repository { target_id: id, repo_id });
            let base = form.edited(SpecCreationEdit::Base { target_id: id, text });
            let head = form.edited(SpecCreationEdit::Head { target_id: id, text });
            &&& other_rows_stay(old_rows, repo.draft.targets, i)
            &&& repo.draft.targets[i].id == id
            &&& repo.draft.targets[i].repo_id == repo_id
            &&& repo.draft.targets[i].base is Automatic
            &&& repo.draft.targets[i].head == old_rows[i].head
            &&& other_rows_stay(old_rows, base.draft.targets, i)
            &&& base.draft.targets[i].id == id
            &&& base.draft.targets[i].repo_id == old_rows[i].repo_id
            &&& base.draft.targets[i].base == (SpecCreationBase::Manual { text })
            &&& base.draft.targets[i].head == old_rows[i].head
            &&& other_rows_stay(old_rows, head.draft.targets, i)
            &&& head.draft.targets[i].id == id
            &&& head.draft.targets[i].repo_id == old_rows[i].repo_id
            &&& head.draft.targets[i].base == old_rows[i].base
            &&& head.draft.targets[i].head == text
        }),
{
    lemma_row(form.draft.targets, id, i);
}

/// Whatever is edited, the form is open for editing again, counts the edit,
/// and keeps its identity; an edit of a row keeps the title.
pub proof fn edits_keep_the_form(form: SpecReviewCreation, edit: SpecCreationEdit)
    ensures
        is_same_form(form, form.edited(edit)),
        form.edited(edit).selected == form.selected,
        form.edited(edit).status is Editing,
        form.edited(edit).revision != form.revision,
        !(edit is Title) ==> form.edited(edit).draft.title == form.draft.title,
{
}

/// A new row stands last, for that repository, with an automatic base and the
/// working tree as its head; it is selected.
pub proof fn rows_are_added_last(form: SpecReviewCreation, repo_id: RepoId)
    ensures
        ({
            let out = form.row_added(repo_id);
            let n = form.draft.targets.len() as int;
            &&& out.draft.targets.len() == n + 1
            &&& forall|j: int| 0 <= j < n ==> #[trigger] out.draft.targets[j] == form.draft.targets[j]
            &&& out.draft.targets[n].repo_id == repo_id
            &&& out.draft.targets[n].base is Automatic
            &&& out.draft.targets[n].head == "worktree"@
            &&& out.selected == Some(out.draft.targets[n].id)
            &&& out.draft.title == form.draft.title
            &&& out.status is Editing
            &&& is_same_form(form, out)
        }),
{
}

/// Removing takes away the selected row and no other. The row that moves into
/// its place is selected, or the last one; without a selected row nothing is
/// taken away.
pub proof fn the_selected_row_is_removed(form: SpecReviewCreation, i: int)
    requires
        match form.selected {
            Some(id) => named_row(form.draft.targets, id, i),
            None => false,
        },
    ensures
        ({
            let out = form.row_removed();
            let rows = out.draft.targets;
            &&& rows.len() == form.draft.targets.len() - 1
            &&& forall|j: int| 0 <= j < i ==> #[trigger] rows[j] == form.draft.targets[j]
            &&& forall|j: int| i <= j < rows.len() ==> #[trigger] rows[j] == form.draft.targets[j + 1]
            &&& rows.len() == 0 ==> out.selected is None
            &&& i < rows.len() ==> out.selected == Some(rows[i].id)
            &&& 0 < rows.len() && i == rows.len() ==> out.selected == Some(rows[i - 1].id)
            &&& out.draft.title == form.draft.title
            &&& out.status is Editing
            &&& is_same_form(form, out)
        }),
{
    lemma_row(form.draft.targets, form.selected->0, i);
}

/// Where the selected row is gone, nothing is removed.
pub proof fn no_other_row_is_removed(form: SpecReviewCreation)
    requires
        form.selected matches Some(id) ==> forall|j: int|
            0 <= j < form.draft.targets.len() ==> (#[trigger] form.draft.targets[j]).id != id,
    ensures
        form.row_removed().draft == form.draft,
        form.row_removed().selected == form.selected,
        form.row_removed().status == form.status,
        is_same_form(form, form.row_removed()),
{
    if let Some(id) = form.selected {
        lemma_no_row(form.draft.targets, id);
    }
}

/// A row is selected if it is there; what was typed stays.
pub proof fn rows_are_selected_if_there(form: SpecReviewCreation, id: CreationTargetId)
    ensures
        form.row_selected(id).draft == form.draft,
        form.row_selected(id).status == form.status,
        is_same_form(form, form.row_selected(id)),
        form.row_selected(id).selected == Some(id) || form.row_selected(id).selected == form.selected,
        (exists|j: int| 0 <= j < form.draft.targets.len() && (#[trigger] form.draft.targets[j]).id == id)
            ==> form.row_selected(id).selected == Some(id),
        (forall|j: int| 0 <= j < form.draft.targets.len() ==> (#[trigger] form.draft.targets[j]).id != id)
            ==> form.row_selected(id).selected == form.selected,
{
    let rows = form.draft.targets;
    let p = row_is(id);
    if exists|j: int| 0 <= j < rows.len() && (#[trigger] rows[j]).id == id {
        let j = choose|j: int| 0 <= j < rows.len() && (#[trigger] rows[j]).id == id;
        assert(p(rows[j]));
    }
    if forall|j: int| 0 <= j < rows.len() ==> (#[trigger] rows[j]).id != id {
        lemma_no_row(rows, id);
    }
}

/// A lost connection leaves a submission uncertain, and nothing typed is
/// lost; only defaults that had not arrived are forgotten.
pub proof fn lost_submissions_are_uncertain(form: SpecReviewCreation, d: SpecCreationDefault)
    ensures
        ({
            let out = form.disconnected();
            &&& out.draft == form.draft
            &&& out.selected == form.selected
            &&& out.review_id == form.review_id
            &&& out.workspace_id == form.workspace_id
            &&& out.revision == form.revision
            &&& out.defaults.contains(d) <==> form.defaults.contains(d) && !(d.state is Loading)
            &&& form.status matches SpecCreationStatus::Pending { submission } ==> (
            out.status matches SpecCreationStatus::Interrupted { submission: s, .. } && s == submission)
            &&& form.status matches SpecCreationStatus::Reconciling { submission, .. } ==> (
            out.status matches SpecCreationStatus::Interrupted { submission: s, .. } && s == submission)
            &&& !(form.status is Pending) && !(form.status is Reconciling) ==> out.status == form.status
        }),
{
    data::lemma_filter_has(form.defaults, crate::creation::settled_default(), d);
}

/// A review that exists under this identity ends the creation only if it is
/// what was submitted; anything else leaves the submission uncertain.
pub proof fn creations_succeed_with_what_was_submitted(
    form: SpecReviewCreation,
    title: Seq<char>,
    targets: Seq<SpecReviewTarget>,
)
    ensures
        form.matched(title, targets).draft == form.draft,
        form.submitted() is None ==> form.matched(title, targets) == form,
        form.submitted() matches Some(s) ==> {
            let out = form.matched(title, targets);
            &&& out.status is Succeeded <==> s.title == title && s.targets == targets
            &&& !(out.status is Succeeded) ==> (out.status matches SpecCreationStatus::Interrupted {
                submission,
                ..
            } && submission == s)
        },
{
}

/// The base that a row has: what was typed, or what the daemon said for its
/// repository.
pub open spec fn has_base(form: SpecReviewCreation, row: SpecCreationTarget, base: SpecRefSpec) -> bool {
    match row.base {
        SpecCreationBase::Manual { text } => read_ref(text) == Ok::<SpecRefSpec, Seq<char>>(base),
        SpecCreationBase::Automatic => exists|i: int| #[trigger] says_base(
            form.defaults,
            row.repo_id,
            base,
            i,
        ),
    }
}

/// The default at `i` is the first of the repository, and it is that base.
pub open spec fn says_base(defaults: Seq<SpecCreationDefault>, repo_id: RepoId, base: SpecRefSpec, i: int) -> bool {
    &&& 0 <= i < defaults.len()
    &&& defaults[i].repo_id == repo_id
    &&& defaults[i].state == (SpecCreationDefaultState::Ready { base })
    &&& forall|j: int| 0 <= j < i ==> (#[trigger] defaults[j]).repo_id != repo_id
}

proof fn lemma_base(form: SpecReviewCreation, row: SpecCreationTarget, base: SpecRefSpec)
    ensures
        form.base_of(row) == Ok::<SpecRefSpec, Seq<char>>(base) <==> has_base(form, row, base),
{
    if row.base is Automatic {
        let all = form.defaults;
        let p = default_for(row.repo_id);
        data::lemma_first_where(all, p);
        match data::first_where(all, p) {
            Some(i) => {
                assert(p(all[i]));
                assert forall|j: int| 0 <= j < i implies (#[trigger] all[j]).repo_id != row.repo_id by {
                    assert(!p(all[j]));
                }
                assert forall|k: int| #[trigger] says_base(all, row.repo_id, base, k) implies k == i by {
                    assert(p(all[k]));
                    if k < i {
                        assert(!p(all[k]));
                    }
                }
                if form.base_of(row) == Ok::<SpecRefSpec, Seq<char>>(base) {
                    assert(says_base(all, row.repo_id, base, i));
                }
            },
            None => {
                assert forall|k: int| !(#[trigger] says_base(all, row.repo_id, base, k)) by {
                    if 0 <= k < all.len() {
                        assert(!p(all[k]));
                    }
                }
            },
        }
    }
}

/// The target is what the row says.
pub open spec fn is_target_of(form: SpecReviewCreation, row: SpecCreationTarget, target: SpecReviewTarget) -> bool {
    &&& target.repo_id == row.repo_id
    &&& has_base(form, row, target.base)
    &&& read_ref(row.head) == Ok::<SpecRefSpec, Seq<char>>(target.head)
}

proof fn lemma_targets(form: SpecReviewCreation, rows: Seq<SpecCreationTarget>)
    ensures
        form.targets_of(rows) matches Ok(targets) ==> targets.len() == rows.len() && forall|i: int|
            0 <= i < rows.len() ==> is_target_of(form, rows[i], #[trigger] targets[i]),
        form.targets_of(rows) is Err ==> exists|i: int|
            0 <= i < rows.len() && form.target_of(#[trigger] rows[i]) is Err,
    decreases rows.len(),
{
    if rows.len() > 0 {
        let rest = rows.drop_last();
        lemma_targets(form, rest);
        match form.targets_of(rest) {
            Ok(before) => {
                match form.target_of(rows.last()) {
                    Ok(t) => {
                        lemma_base(form, rows.last(), t.base);
                        assert forall|i: int| 0 <= i < rows.len() implies is_target_of(
                            form,
                            rows[i],
                            #[trigger] before.push(t)[i],
                        ) by {
                            if i < before.len() {
                                assert(is_target_of(form, rest[i], before[i]));
                            }
                        }
                    },
                    Err(_) => {
                        assert(form.target_of(rows[rows.len() - 1]) is Err);
                    },
                }
            },
            Err(_) => {
                let i = choose|i: int| 0 <= i < rest.len() && form.target_of(#[trigger] rest[i]) is Err;
                assert(rows[i] == rest[i]);
            },
        }
    }
}

/// A form can be sent once it has a title and a row, and every row says two
/// revisions. What is sent is the title without the space around it, and for
/// each row, in order, its repository and those revisions.
pub proof fn forms_send_what_their_rows_say(form: SpecReviewCreation)
    ensures
        form.submission() matches Ok(s) ==> {
            &&& s.title == text::trimmed(form.draft.title)
            &&& s.title.len() > 0
            &&& s.targets.len() == form.draft.targets.len()
            &&& s.targets.len() > 0
            &&& forall|i: int|
                0 <= i < s.targets.len() ==> is_target_of(
                    form,
                    form.draft.targets[i],
                    #[trigger] s.targets[i],
                )
        },
        form.submission() is Err ==> {
            ||| text::trimmed(form.draft.title).len() == 0
            ||| form.draft.targets.len() == 0
            ||| exists|i: int|
                0 <= i < form.draft.targets.len() && form.target_of(#[trigger] form.draft.targets[i]) is Err
        },
{
    lemma_targets(form, form.draft.targets);
}

/// A row has a target exactly where it says both of its revisions.
pub proof fn rows_need_both_revisions(
    form: SpecReviewCreation,
    row: SpecCreationTarget,
    target: SpecReviewTarget,
)
    ensures
        form.target_of(row) == Ok::<SpecReviewTarget, Seq<char>>(target) <==> is_target_of(form, row, target),
{
    lemma_base(form, row, target.base);
}

/// The defaults asked for are those of the rows' repositories that were not
/// asked for yet, once each.
pub proof fn missing_defaults_are_asked_for_once(
    rows: Seq<SpecCreationTarget>,
    defaults: Seq<SpecCreationDefault>,
    repo_id: RepoId,
)
    ensures
        missing(rows, defaults).contains(repo_id) <==> (exists|i: int|
            0 <= i < rows.len() && (#[trigger] rows[i]).repo_id == repo_id) && forall|j: int|
            0 <= j < defaults.len() ==> (#[trigger] defaults[j]).repo_id != repo_id,
        missing(rows, defaults).no_duplicates(),
    decreases rows.len(),
{
    if rows.len() > 0 {
        let rest = rows.drop_last();
        let last = rows.last().repo_id;
        missing_defaults_are_asked_for_once(rest, defaults, repo_id);
        missing_defaults_are_asked_for_once(rest, defaults, last);
        let out = missing(rest, defaults);
        let p = default_for(last);
        assert(data::some_where(defaults, p) <==> !(forall|j: int|
            0 <= j < defaults.len() ==> (#[trigger] defaults[j]).repo_id != last)) by {
            if data::some_where(defaults, p) {
                let j = choose|j: int| 0 <= j < defaults.len() && #[trigger] p(defaults[j]);
                assert(defaults[j].repo_id == last);
            } else {
                assert forall|j: int| 0 <= j < defaults.len() implies (#[trigger] defaults[j]).repo_id != last by {
                    assert(!p(defaults[j]));
                }
            }
        }
        vstd::seq_lib::lemma_seq_contains_after_push(out, last, repo_id);
        if exists|i: int| 0 <= i < rest.len() && (#[trigger] rest[i]).repo_id == repo_id {
            let i = choose|i: int| 0 <= i < rest.len() && (#[trigger] rest[i]).repo_id == repo_id;
            assert(rows[i].repo_id == repo_id);
        }
        if exists|i: int| 0 <= i < rows.len() && (#[trigger] rows[i]).repo_id == repo_id {
            let i = choose|i: int| 0 <= i < rows.len() && (#[trigger] rows[i]).repo_id == repo_id;
            if i < rest.len() {
                assert(rest[i].repo_id == repo_id);
            } else {
                assert(last == repo_id);
            }
        }
        assert(rows[rows.len() - 1].repo_id == last);
    }
}

// ---- revisions as they are written ----------------------------------------

proof fn lemma_split_kind(kind: Seq<char>, value: Seq<char>)
    requires
        forall|i: int| 0 <= i < kind.len() ==> #[trigger] kind[i] != ':',
    ensures
        text::split_once(kind + seq![':'] + value, ':') == Some((kind, value)),
{
    let s = kind + seq![':'] + value;
    text::lemma_index_of(s, ':');
    let n = kind.len() as int;
    assert(s[n] == ':');
    assert(text::index_of(s, ':') is Some);
    let i = text::index_of(s, ':')->0;
    if i < n {
        assert(s[i] == kind[i]);
    }
    if n < i {
        assert(s[n] != ':');
    }
    assert(s.take(n) =~= kind);
    assert(s.skip(n + 1) =~= value);
}

proof fn lemma_not_special(s: Seq<char>, i: int)
    requires
        0 <= i < s.len(),
        s[i] == ':',
    ensures
        crate::ref_selector::special_ref(text::ascii_lower(s)) is None,
{
    let low = text::ascii_lower(s);
    reveal_strlit("worktree");
    reveal_strlit("working-tree");
    reveal_strlit("head");
    reveal_strlit("upstream");
    reveal_strlit("@{upstream}");
    assert(low[i] == ':');
    assert("worktree"@ == seq!['w', 'o', 'r', 'k', 't', 'r', 'e', 'e']);
    assert("working-tree"@ == seq!['w', 'o', 'r', 'k', 'i', 'n', 'g', '-', 't', 'r', 'e', 'e']);
    assert("head"@ == seq!['h', 'e', 'a', 'd']);
    assert("upstream"@ == seq!['u', 'p', 's', 't', 'r', 'e', 'a', 'm']);
    assert("@{upstream}"@ == seq!['@', '{', 'u', 'p', 's', 't', 'r', 'e', 'a', 'm', '}']);
}

/// A revision written with its kind is that revision, whatever its name.
pub proof fn revisions_are_read_by_their_kind(value: Seq<char>)
    requires
        value.len() > 0,
        !text::is_space(value.last()),
    ensures
        read_ref("branch:"@ + value) == Ok::<SpecRefSpec, Seq<char>>(SpecRefSpec::Branch { name: value }),
        read_ref("tag:"@ + value) == Ok::<SpecRefSpec, Seq<char>>(SpecRefSpec::Tag { name: value }),
        match commit_named(value) {
            Some(oid) => read_ref("commit:"@ + value) == Ok::<SpecRefSpec, Seq<char>>(SpecRefSpec::Commit { oid }),
            None => read_ref("commit:"@ + value) is Err,
        },
{
    reveal_strlit("branch");
    reveal_strlit("tag");
    reveal_strlit("commit");
    reveal_strlit("branch:");
    reveal_strlit("tag:");
    reveal_strlit("commit:");
    let b = "branch:"@ + value;
    let t = "tag:"@ + value;
    let c = "commit:"@ + value;
    assert("branch"@ == seq!['b', 'r', 'a', 'n', 'c', 'h']);
    assert("tag"@ == seq!['t', 'a', 'g']);
    assert("commit"@ == seq!['c', 'o', 'm', 'm', 'i', 't']);
    assert(b =~= "branch"@ + seq![':'] + value);
    assert(t =~= "tag"@ + seq![':'] + value);
    assert(c =~= "commit"@ + seq![':'] + value);
    lemma_split_kind("branch"@, value);
    lemma_split_kind("tag"@, value);
    lemma_split_kind("commit"@, value);
    assert(b[0] == 'b' && t[0] == 't' && c[0] == 'c');
    assert(b.last() == value.last() && t.last() == value.last() && c.last() == value.last());
    assert(text::trimmed(b) == b);
    assert(text::trimmed(t) == t);
    assert(text::trimmed(c) == c);
    lemma_not_special(b, 6);
    lemma_not_special(t, 3);
    lemma_not_special(c, 6);
    assert("branch"@.len() == 6 && "tag"@.len() == 3 && "commit"@[0] == 'c');
    assert("tag"@ != "branch"@);
    assert("commit"@ != "branch"@ && "commit"@ != "tag"@) by {
        assert("branch"@[0] == 'b');
    }
}

/// A bare name is a branch, unless it is one of those a revision goes by.
pub proof fn bare_names_are_branches(name: Seq<char>)
    requires
        name.len() > 0,
        !text::is_space(name[0]),
        !text::is_space(name.last()),
        forall|i: int| 0 <= i < name.len() ==> #[trigger] name[i] != ':',
    ensures
        text::ascii_lower(name) == "head"@ ==> read_ref(name) == Ok::<SpecRefSpec, Seq<char>>(SpecRefSpec::Head),
        text::ascii_lower(name) == "upstream"@ ==> read_ref(name) == Ok::<SpecRefSpec, Seq<char>>(
            SpecRefSpec::Upstream,
        ),
        text::ascii_lower(name) == "worktree"@ ==> read_ref(name) == Ok::<SpecRefSpec, Seq<char>>(
            SpecRefSpec::WorkingTree,
        ),
        text::ascii_lower(name) != "head"@ && text::ascii_lower(name) != "upstream"@ && text::ascii_lower(name)
            != "@{upstream}"@ && text::ascii_lower(name) != "worktree"@ && text::ascii_lower(name) != "working-tree"@
            ==> read_ref(name) == Ok::<SpecRefSpec, Seq<char>>(SpecRefSpec::Branch { name }),
{
    text::lemma_index_of(name, ':');
    reveal_strlit("worktree");
    reveal_strlit("working-tree");
    reveal_strlit("head");
    reveal_strlit("upstream");
    reveal_strlit("@{upstream}");
    assert("head"@.len() == 4 && "upstream"@.len() == 8 && "worktree"@.len() == 8 && "upstream"@[0] == 'u'
        && "worktree"@[0] == 'w' && "working-tree"@.len() == 12 && "@{upstream}"@.len() == 11);
    assert(text::trimmed(name) == name);
}

// ---- the selector ---------------------------------------------------------

/// A revision is a base unless it is the working tree, and the same one.
pub proof fn bases_are_the_same_revision(r: SpecRefSpec)
    ensures
        as_base(r) is None <==> r is WorkingTree,
        as_base(r) matches Some(b) ==> match (r, b) {
            (SpecRefSpec::Branch { name: x }, SpecBaseRefSpec::Branch { name: y }) => x == y,
            (SpecRefSpec::Tag { name: x }, SpecBaseRefSpec::Tag { name: y }) => x == y,
            (SpecRefSpec::Commit { oid: x }, SpecBaseRefSpec::Commit { oid: y }) => x == y,
            (SpecRefSpec::Revision { expression: x }, SpecBaseRefSpec::Revision { expression: y }) => x == y,
            (SpecRefSpec::Upstream, SpecBaseRefSpec::Upstream) => true,
            (SpecRefSpec::Head, SpecBaseRefSpec::Head) => true,
            _ => false,
        },
{
}

/// A search offers, in the order of the catalog, exactly the candidates whose
/// text has the characters of the query in order; the working tree is never
/// offered as a base.
pub proof fn searches_offer_the_catalog_in_order(selector: SpecRefSelector) -> (at: Seq<int>)
    ensures
        data::rising(at, selector.catalog.len()),
        at.len() == selector.searched().len(),
        forall|k: int|
            0 <= k < at.len() ==> {
                let o = #[trigger] selector.searched()[k];
                let c = selector.catalog[at[k]];
                &&& o.ref_spec == c.ref_spec
                &&& o.subject == c.subject
                &&& o.current <==> c.ref_spec == selector.view.current
            },
        forall|i: int|
            0 <= i < selector.catalog.len() ==> (at.contains(i) <==> {
                let c = #[trigger] selector.catalog[i];
                let query = text::lowercased(text::trimmed(selector.view.query));
                &&& query.len() == 0 || text::subsequence(text::lowercased(c.search_text()), query)
                &&& !(selector.view.purpose == (RefSelectorPurpose::Review { side: RefSelectorSide::Base })
                    && c.ref_spec is WorkingTree)
            }),
{
    let query = text::lowercased(text::trimmed(selector.view.query));
    let p = offered(selector.view.purpose, query);
    let at = data::lemma_kept(selector.catalog, p);
    assert forall|i: int| 0 <= i < selector.catalog.len() implies (at.contains(i) <==> {
        let c = #[trigger] selector.catalog[i];
        &&& query.len() == 0 || text::subsequence(text::lowercased(c.search_text()), query)
        &&& !(selector.view.purpose == (RefSelectorPurpose::Review { side: RefSelectorSide::Base })
            && c.ref_spec is WorkingTree)
    }) by {
        assert(at.contains(i) <==> p(selector.catalog[i]));
    }
    at
}

proof fn lemma_options(a: SpecRefSelector, b: SpecRefSelector)
    requires
        a.catalog == b.catalog,
        a.view.query == b.view.query,
        a.view.purpose == b.view.purpose,
        a.view.current == b.view.current,
    ensures
        a.options() == b.options(),
        a.searched() == b.searched(),
{
    assert(a.searched() =~= b.searched());
}

/// A new query shows its own options from the first one on; the catalog and
/// what is selected for stay.
pub proof fn queries_start_at_the_first_option(selector: SpecRefSelector, query: Seq<char>)
    ensures
        ({
            let out = selector.queried(query);
            &&& out.view.query == query
            &&& out.view.selected == 0
            &&& out.catalog == selector.catalog
            &&& out.view.options == out.options()
            &&& out.view.current == selector.view.current
            &&& out.view.repo_id == selector.view.repo_id
            &&& out.view.purpose == selector.view.purpose
            &&& out.view.request_id == selector.view.request_id
            &&& out.view.status == selector.view.status
            &&& !(selector.view.purpose is Browse) ==> out.view.options == out.searched()
        }),
{
    let start = SpecRefSelector { view: SpecRefSelectorView { query, ..selector.view }, ..selector };
    lemma_options(start, selector.queried(query));
}

/// The catalog that arrives is offered whole, and the current revision even
/// if it is not in it.
pub proof fn catalogs_hold_the_current_revision(selector: SpecRefSelector, catalog: Seq<SpecRefCandidate>)
    ensures
        ({
            let out = selector.installed(catalog);
            let listed = exists|i: int|
                0 <= i < catalog.len() && (#[trigger] catalog[i]).ref_spec == selector.view.current;
            &&& out.view.status is Ready
            &&& out.view.selected == 0
            &&& listed ==> out.catalog == catalog
            &&& !listed ==> {
                &&& out.catalog.len() == catalog.len() + 1
                &&& out.catalog[0].ref_spec == selector.view.current
                &&& out.catalog[0].subject is None
                &&& forall|i: int| 0 <= i < catalog.len() ==> out.catalog[i + 1] == #[trigger] catalog[i]
            }
            &&& out.view.query == selector.view.query
            &&& out.view.options == out.options()
        }),
{
    let p = candidate_is(selector.view.current);
    let out = selector.installed(catalog);
    let start = SpecRefSelector {
        catalog: out.catalog,
        view: SpecRefSelectorView { status: SpecRefSelectorStatus::Ready, ..selector.view },
    };
    lemma_options(start, out);
    if data::some_where(catalog, p) {
        let i = choose|i: int| 0 <= i < catalog.len() && #[trigger] p(catalog[i]);
        assert(catalog[i].ref_spec == selector.view.current);
    } else {
        assert forall|i: int| 0 <= i < catalog.len() implies (#[trigger] catalog[i]).ref_spec
            != selector.view.current by {
            assert(!p(catalog[i]));
        }
    }
}

/// The selection moves by as many rows as asked, and stops at the ends.
pub proof fn selections_move_and_stop_at_the_ends(selected: int, delta: int, len: nat)
    requires
        0 <= selected < len,
    ensures
        0 <= moved(selected, delta, len) < len,
        0 <= selected + delta < len ==> moved(selected, delta, len) == selected + delta,
        selected + delta < 0 ==> moved(selected, delta, len) == 0,
        selected + delta >= len ==> moved(selected, delta, len) == len - 1,
        moved(selected, delta, 0) == 0,
{
}

/// What a row stands for is its revision, on the side that is edited; the
/// working tree stands for no base.
pub proof fn rows_stand_for_their_revision(selector: SpecRefSelector, index: int)
    ensures
        !(0 <= index < selector.view.options.len()) ==> selector.selection_at(index) is None,
        0 <= index < selector.view.options.len() ==> {
            let r = selector.view.options[index].ref_spec;
            match selector.selection_at(index) {
                Some(SpecRefSelection::Browse { ref_spec }) => selector.view.purpose is Browse && ref_spec == r,
                Some(SpecRefSelection::Review { revision: SpecTargetRevision::Head { ref_spec } }) => ref_spec == r
                    && selector.view.purpose == (RefSelectorPurpose::Review { side: RefSelectorSide::Head }),
                Some(SpecRefSelection::Review { revision: SpecTargetRevision::Base { ref_spec } }) => Some(ref_spec)
                    == as_base(r) && selector.view.purpose == (RefSelectorPurpose::Review {
                    side: RefSelectorSide::Base,
                }),
                None => r is WorkingTree && selector.view.purpose == (RefSelectorPurpose::Review {
                    side: RefSelectorSide::Base,
                }),
            }
        },
{
}

/// While browsing, a revision written out is offered alone, one that is
/// malformed not at all, and a bare name also as what it may resolve to.
pub proof fn browsing_offers_what_is_written(selector: SpecRefSelector)
    requires
        selector.view.purpose is Browse,
    ensures
        match literal(selector.view.query) {
            SpecLiteralQuery::Ref(r) => selector.options().len() == 1 && selector.options()[0].ref_spec == r,
            SpecLiteralQuery::Invalid => selector.options().len() == 0,
            SpecLiteralQuery::Search => {
                &&& selector.searched().is_prefix_of(selector.options())
                &&& named(selector.view.query) is None ==> selector.options() == selector.searched()
                &&& named(selector.view.query) matches Some(r) ==> exists|k: int|
                    0 <= k < selector.options().len() && (#[trigger] selector.options()[k]).ref_spec == r
            },
        },
{
    if literal(selector.view.query) is Search {
        if let Some(r) = named(selector.view.query) {
            let p = option_is(r);
            let found = selector.searched();
            if data::some_where(found, p) {
                let k = choose|k: int| 0 <= k < found.len() && #[trigger] p(found[k]);
                assert(selector.options()[k].ref_spec == r);
            } else {
                assert(selector.options()[found.len() as int].ref_spec == r);
            }
        }
    }
}

} // verus!
