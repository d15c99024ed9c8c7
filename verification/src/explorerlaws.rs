//! What the explorer shows, said of the trees, files and marks it is made
//! from.
use vstd::prelude::*;

use crate::cache::SpecRenderKey;
use crate::data;
use crate::diff::{viewed_as, SpecFileRef, ViewedState};
use crate::explorer::{
    candidate_at, changed_in, dir_is, distinct, file_of, fuzzy_score, hit_order, id_order, leaf_at, leaf_order,
    lemma_fuzzy_bounds, longest, node_order, progress_of, score_of, stat_for, tree_leaves, with_entries, with_files,
    with_trees, SpecCandidate, SpecDirKey, SpecExplorerInputs, SpecFileStat, SpecLeaf, SpecScored, SpecSearchHit,
    SpecTreeNode,
};
use crate::protocol::{
    RepoId, SpecAuthor, SpecRenderTarget, SpecRepoPath, SpecReviewSnapshot, SpecTreeEntry, SpecTreeSnapshot,
    TreeEntryKind, ViewedContent,
};
use crate::text;

verus! {

// ---- search ---------------------------------------------------------------

/// What a file is worth in a search: how well its path matches, and more if
/// it is changed.
pub open spec fn worth(path: Seq<char>, changed: bool, wanted: Seq<char>) -> int {
    (fuzzy_score(path, wanted)->0).0 + (if changed { 1000int } else { 0int })
}

/// The candidate matches what is searched for.
pub open spec fn matches(c: SpecCandidate, wanted: Seq<char>) -> bool {
    fuzzy_score(c.file.path.text, wanted) is Some
}

/// The hit shows the candidate.
pub open spec fn shows_candidate(hit: SpecSearchHit, c: SpecCandidate, wanted: Seq<char>) -> bool {
    &&& hit.file == c.file
    &&& hit.change == c.change
    &&& hit.matched == (fuzzy_score(c.file.path.text, wanted)->0).1
}

/// What a hit is worth.
pub open spec fn hit_worth(hit: SpecSearchHit, wanted: Seq<char>) -> int {
    worth(hit.file.path.text, hit.change is Some, wanted)
}

/// The hit shows a candidate that matches.
pub open spec fn is_match(all: Seq<SpecCandidate>, hit: SpecSearchHit, wanted: Seq<char>) -> bool {
    exists|i: int|
        0 <= i < all.len() && matches(all[i], wanted) && #[trigger] shows_candidate(hit, all[i], wanted)
}

/// One hit is worth more than another, or the same and has the earlier path.
pub open spec fn comes_first(a: SpecSearchHit, b: SpecSearchHit, wanted: Seq<char>) -> bool {
    ||| hit_worth(a, wanted) > hit_worth(b, wanted)
    ||| hit_worth(a, wanted) == hit_worth(b, wanted) && text::le(a.file.path.text, b.file.path.text)
}

/// Some hit shows the candidate.
pub open spec fn is_shown(hits: Seq<SpecSearchHit>, c: SpecCandidate, wanted: Seq<char>) -> bool {
    exists|k: int| 0 <= k < hits.len() && shows_candidate(#[trigger] hits[k], c, wanted)
}

/// No hit is worth less than the candidate.
pub open spec fn is_worth_no_more(hits: Seq<SpecSearchHit>, c: SpecCandidate, wanted: Seq<char>) -> bool {
    forall|k: int|
        0 <= k < hits.len() ==> worth(c.file.path.text, c.change is Some, wanted) <= hit_worth(
            #[trigger] hits[k],
            wanted,
        )
}

proof fn lemma_hit_order()
    ensures
        data::total_order(hit_order()),
{
    let le = hit_order();
    assert forall|a: SpecScored, b: SpecScored| #[trigger] le(a, b) || le(b, a) by {
        text::lemma_le_total(a.hit.file.path.text, b.hit.file.path.text);
    }
    assert forall|a: SpecScored, b: SpecScored, c: SpecScored| #[trigger] le(a, b) && #[trigger] le(b, c) implies le(
        a,
        c,
    ) by {
        if a.score == b.score && b.score == c.score {
            text::lemma_le_trans(a.hit.file.path.text, b.hit.file.path.text, c.hit.file.path.text);
        }
    }
}

proof fn lemma_scored(c: SpecCandidate, wanted: Seq<char>)
    requires
        c.file.path.text.len() <= usize::MAX,
    ensures
        score_of(c, wanted) is Some <==> matches(c, wanted),
        score_of(c, wanted) matches Some(s) ==> shows_candidate(s.hit, c, wanted) && s.score == hit_worth(
            s.hit,
            wanted,
        ),
{
    let path = c.file.path.text;
    lemma_fuzzy_bounds(path, wanted, path.len());
    assert(path.take(path.len() as int) =~= path);
}

/// A search shows the candidates that match and no others, the best first,
/// those worth the same by path. Fifty at most are shown, and none that is
/// left out is worth more than one that is shown.
pub proof fn searches_show_the_best_matches(inputs: SpecExplorerInputs, query: Seq<char>) -> (at: Seq<int>)
    requires
        forall|i: int|
            0 <= i < inputs.candidates().len() ==> (#[trigger] inputs.candidates()[i]).file.path.text.len()
                <= usize::MAX,
    ensures
        text::folded(query).len() == 0 ==> inputs.hits(query).len() == 0,
        text::folded(query).len() > 0 ==> {
            let wanted = text::folded(query);
            let all = inputs.candidates();
            let hits = inputs.hits(query);
            &&& data::rising(at, all.len())
            &&& forall|i: int| 0 <= i < all.len() ==> (at.contains(i) <==> #[trigger] matches(all[i], wanted))
            &&& hits.len() == (if at.len() <= 50 { at.len() as int } else { 50int })
            &&& forall|k: int| 0 <= k < hits.len() ==> is_match(all, #[trigger] hits[k], wanted)
            &&& forall|j: int, k: int|
                0 <= j < k < hits.len() ==> comes_first(#[trigger] hits[j], #[trigger] hits[k], wanted)
            &&& forall|i: int|
                0 <= i < all.len() && #[trigger] matches(all[i], wanted) ==> is_shown(hits, all[i], wanted)
                    || is_worth_no_more(hits, all[i], wanted)
        },
{
    let wanted = text::folded(query);
    let all = inputs.candidates();
    let f = |c: SpecCandidate| score_of(c, wanted);
    let at = data::lemma_images(all, f);
    if wanted.len() > 0 {
        let hits = inputs.hits(query);
        let scored = all.filter_map(f);
        let le = hit_order();
        lemma_hit_order();
        data::lemma_sorted(scored, le);
        let best = data::sorted(scored, le);
        assert forall|i: int| 0 <= i < all.len() implies (at.contains(i) <==> #[trigger] matches(all[i], wanted)) by {
            lemma_scored(all[i], wanted);
            if at.contains(i) {
                let k = choose|k: int| 0 <= k < at.len() && at[k] == i;
                assert(f(all[at[k]]) is Some);
            }
            if matches(all[i], wanted) {
                assert(f(all[i]) is Some);
            }
        }
        assert forall|k: int| 0 <= k < best.len() implies (#[trigger] best[k]).score == hit_worth(best[k].hit, wanted)
            && is_match(all, best[k].hit, wanted) by {
            assert(best.contains(best[k]));
            data::lemma_sorted_has(scored, le, best[k]);
            data::lemma_images_has(all, f, best[k]);
            let i = choose|i: int| 0 <= i < all.len() && f(#[trigger] all[i]) == Some(best[k]);
            lemma_scored(all[i], wanted);
            assert(shows_candidate(best[k].hit, all[i], wanted));
        }
        assert forall|k: int| 0 <= k < hits.len() implies #[trigger] hits[k] == best[k].hit by {}
        assert forall|j: int, k: int| 0 <= j < k < hits.len() implies comes_first(
            #[trigger] hits[j],
            #[trigger] hits[k],
            wanted,
        ) by {
            assert(le(best[j], best[k]));
        }
        assert forall|i: int| 0 <= i < all.len() && #[trigger] matches(all[i], wanted) implies is_shown(
            hits,
            all[i],
            wanted,
        ) || is_worth_no_more(hits, all[i], wanted) by {
            lemma_scored(all[i], wanted);
            let s = score_of(all[i], wanted)->0;
            assert(f(all[i]) == Some(s));
            data::lemma_images_has(all, f, s);
            data::lemma_sorted_has(scored, le, s);
            let m = choose|m: int| 0 <= m < best.len() && best[m] == s;
            if m < hits.len() {
                assert(shows_candidate(hits[m], all[i], wanted));
            } else {
                assert forall|k: int| 0 <= k < hits.len() implies worth(
                    all[i].file.path.text,
                    all[i].change is Some,
                    wanted,
                ) <= hit_worth(#[trigger] hits[k], wanted) by {
                    assert(le(best[k], best[m]));
                }
            }
        }
    }
    at
}

/// In the hits of a search no hit comes before one that is worth more.
pub proof fn better_hits_come_first(inputs: SpecExplorerInputs, query: Seq<char>, j: int, k: int)
    requires
        forall|i: int|
            0 <= i < inputs.candidates().len() ==> (#[trigger] inputs.candidates()[i]).file.path.text.len()
                <= usize::MAX,
        0 <= j < k < inputs.hits(query).len(),
    ensures
        hit_worth(inputs.hits(query)[j], text::folded(query)) >= hit_worth(
            inputs.hits(query)[k],
            text::folded(query),
        ),
{
    searches_show_the_best_matches(inputs, query);
    let _ = (inputs.hits(query)[j], inputs.hits(query)[k]);
}

/// The selection stays within the hits.
pub proof fn searches_select_a_hit(inputs: SpecExplorerInputs)
    ensures
        inputs.search_view() is Some <==> inputs.state.search is Some,
        inputs.search_view() matches Some(v) ==> {
            &&& Some(v.query) == inputs.state.search
            &&& v.hits == inputs.hits(v.query)
            &&& v.hits.len() > 0 ==> v.selected < v.hits.len()
            &&& inputs.state.search_selected < v.hits.len() ==> v.selected == inputs.state.search_selected
            &&& v.hits.len() > 0 && inputs.state.search_selected >= v.hits.len() ==> v.selected == v.hits.len() - 1
            &&& v.hits.len() == 0 ==> v.selected == 0
        },
{
}

/// The entry at `e` of tree `t` is a file, or a link to one.
pub open spec fn lists_file(trees: Seq<SpecTreeSnapshot>, t: int, e: int, file: SpecFileRef) -> bool {
    &&& 0 <= t < trees.len()
    &&& 0 <= e < trees[t].entries.len()
    &&& trees[t].entries[e].kind is File || trees[t].entries[e].kind is Symlink
    &&& file.repo_id == trees[t].repo_id
    &&& file.path == trees[t].entries[e].path
}

/// Some candidate is of that file.
pub open spec fn has_file(all: Seq<SpecCandidate>, file: SpecFileRef) -> bool {
    exists|k: int| 0 <= k < all.len() && (#[trigger] all[k]).file == file
}

/// What stands behind the first `n` candidates is unchanged and of files not
/// listed before.
pub open spec fn adds_new_files(all: Seq<SpecCandidate>, n: nat) -> bool {
    forall|j: int, k: int|
        n <= k < all.len() && 0 <= j < k ==> (#[trigger] all[k]).change is None && (#[trigger] all[j]).file
            != all[k].file
}

proof fn lemma_with_entries(
    found: Seq<SpecCandidate>,
    repo_id: RepoId,
    entries: Seq<SpecTreeEntry>,
    n: nat,
    tree: SpecTreeSnapshot,
)
    requires
        n <= found.len(),
        adds_new_files(found, n),
        forall|k: int| n <= k < found.len() ==> (#[trigger] found[k]).change is None,
        repo_id == tree.repo_id,
        entries.len() <= tree.entries.len(),
        entries == tree.entries.take(entries.len() as int),
    ensures
        ({
            let out = with_entries(found, repo_id, entries);
            &&& found.len() <= out.len()
            &&& out.take(found.len() as int) == found
            &&& adds_new_files(out, n)
            &&& forall|k: int| n <= k < out.len() ==> (#[trigger] out[k]).change is None
            &&& forall|k: int|
                found.len() <= k < out.len() ==> exists|e: int| #[trigger]
                    lists_file(seq![tree], 0, e, (#[trigger] out[k]).file)
            &&& forall|e: int|
                0 <= e < entries.len() && (entries[e].kind is File || entries[e].kind is Symlink) ==> has_file(
                    out,
                    SpecFileRef { repo_id, path: (#[trigger] entries[e]).path },
                )
        }),
    decreases entries.len(),
{
    let out = with_entries(found, repo_id, entries);
    if entries.len() == 0 {
        assert(out.take(found.len() as int) =~= found);
    } else {
        let rest = entries.drop_last();
        assert(rest =~= tree.entries.take(rest.len() as int));
        lemma_with_entries(found, repo_id, rest, n, tree);
        let before = with_entries(found, repo_id, rest);
        let e = entries.last();
        let file = SpecFileRef { repo_id, path: e.path };
        let p = candidate_at(file);
        assert(e == tree.entries[entries.len() - 1]);
        assert(e.leaf() is Some <==> e.kind is File || e.kind is Symlink);
        assert(data::some_where(before, p) <==> has_file(before, file)) by {
            if data::some_where(before, p) {
                let k = choose|k: int| 0 <= k < before.len() && #[trigger] p(before[k]);
                assert(before[k].file == file);
            }
            if has_file(before, file) {
                let k = choose|k: int| 0 <= k < before.len() && (#[trigger] before[k]).file == file;
                assert(p(before[k]));
            }
        }
        let added = e.leaf() is Some && !has_file(before, file);
        assert(out == if added {
            before.push(SpecCandidate { file, change: None })
        } else {
            before
        });
        assert(out.take(found.len() as int) =~= found) by {
            assert(before.take(found.len() as int) == found);
            assert forall|i: int| 0 <= i < found.len() implies out[i] == found[i] by {
                assert(before.take(found.len() as int)[i] == before[i]);
            }
        }
        assert forall|k: int| found.len() <= k < out.len() implies exists|e: int| #[trigger]
            lists_file(seq![tree], 0, e, (#[trigger] out[k]).file) by {
            if k < before.len() {
                assert(out[k] == before[k]);
                let x = choose|x: int| #[trigger] lists_file(seq![tree], 0, x, before[k].file);
                assert(lists_file(seq![tree], 0, x, out[k].file));
            } else {
                assert(lists_file(seq![tree], 0, entries.len() - 1, out[k].file));
            }
        }
        assert forall|x: int|
            0 <= x < entries.len() && (entries[x].kind is File || entries[x].kind is Symlink) implies has_file(
            out,
            SpecFileRef { repo_id, path: (#[trigger] entries[x]).path },
        ) by {
            let f = SpecFileRef { repo_id, path: entries[x].path };
            if x < rest.len() {
                assert(rest[x] == entries[x]);
                assert(has_file(before, f));
            }
            if has_file(before, f) {
                let k = choose|k: int| 0 <= k < before.len() && (#[trigger] before[k]).file == f;
                assert(out[k] == before[k]);
            } else {
                assert(out[before.len() as int].file == f);
            }
        }
        assert forall|j: int, k: int| n <= k < out.len() && 0 <= j < k implies (#[trigger] out[k]).change is None && (
        #[trigger] out[j]).file != out[k].file by {
            assert(out[j] == before[j]);
            if k < before.len() {
                assert(out[k] == before[k]);
            } else {
                assert(!has_file(before, file));
            }
        }
    }
}

proof fn lemma_with_trees(found: Seq<SpecCandidate>, trees: Seq<SpecTreeSnapshot>)
    ensures
        ({
            let out = with_trees(found, trees);
            &&& found.len() <= out.len()
            &&& out.take(found.len() as int) == found
            &&& adds_new_files(out, found.len())
            &&& forall|k: int| found.len() <= k < out.len() ==> (#[trigger] out[k]).change is None
            &&& forall|k: int|
                found.len() <= k < out.len() ==> exists|t: int, e: int| #[trigger]
                    lists_file(trees, t, e, (#[trigger] out[k]).file)
            &&& forall|t: int, e: int, file: SpecFileRef| #[trigger]
                lists_file(trees, t, e, file) ==> has_file(out, file)
        }),
    decreases trees.len(),
{
    let out = with_trees(found, trees);
    if trees.len() == 0 {
        assert(out.take(found.len() as int) =~= found);
    } else {
        let rest = trees.drop_last();
        let tree = trees.last();
        lemma_with_trees(found, rest);
        let before = with_trees(found, rest);
        assert(tree.entries =~= tree.entries.take(tree.entries.len() as int));
        lemma_with_entries(before, tree.repo_id, tree.entries, found.len(), tree);
        assert(out == with_entries(before, tree.repo_id, tree.entries));
        assert forall|i: int| 0 <= i < before.len() implies out[i] == before[i] by {
            assert(out.take(before.len() as int)[i] == out[i]);
        }
        assert(out.take(found.len() as int) =~= found) by {
            assert forall|i: int| 0 <= i < found.len() implies out[i] == found[i] by {
                assert(before.take(found.len() as int)[i] == before[i]);
            }
        }
        assert forall|k: int| found.len() <= k < out.len() implies exists|t: int, e: int| #[trigger]
            lists_file(trees, t, e, (#[trigger] out[k]).file) by {
            if k < before.len() {
                let (t, e) = choose|t: int, e: int| #[trigger] lists_file(rest, t, e, before[k].file);
                assert(lists_file(trees, t, e, out[k].file));
            } else {
                let e = choose|e: int| #[trigger] lists_file(seq![tree], 0, e, out[k].file);
                assert(lists_file(trees, trees.len() - 1, e, out[k].file));
            }
        }
        assert forall|t: int, e: int, file: SpecFileRef| #[trigger] lists_file(trees, t, e, file) implies has_file(
            out,
            file,
        ) by {
            if t < rest.len() {
                assert(lists_file(rest, t, e, file));
                let k = choose|k: int| 0 <= k < before.len() && (#[trigger] before[k]).file == file;
                assert(out[k].file == file);
            } else {
                assert(file == SpecFileRef { repo_id: tree.repo_id, path: tree.entries[e].path });
            }
        }
    }
}

/// A search spans the changed files, and behind them every other file of the
/// trees, once each and as unchanged; nothing else.
pub proof fn searches_span_the_changed_files_and_the_trees(inputs: SpecExplorerInputs)
    ensures
        ({
            let all = inputs.candidates();
            let n = inputs.files.len();
            &&& n <= all.len()
            &&& forall|i: int|
                0 <= i < n ==> {
                    &&& (#[trigger] all[i]).file.repo_id == inputs.files[i].repo_id
                    &&& all[i].file.path == inputs.files[i].path
                    &&& all[i].change is Some <==> inputs.files[i].target is Diff
                    &&& inputs.files[i].target matches SpecRenderTarget::Diff { change } ==> all[i].change == Some(
                        change.kind(),
                    )
                }
            &&& forall|k: int| n <= k < all.len() ==> (#[trigger] all[k]).change is None
            &&& adds_new_files(all, n)
            &&& forall|k: int|
                n <= k < all.len() ==> exists|t: int, e: int| #[trigger]
                    lists_file(inputs.trees, t, e, (#[trigger] all[k]).file)
            &&& forall|t: int, e: int, file: SpecFileRef| #[trigger]
                lists_file(inputs.trees, t, e, file) ==> has_file(all, file)
        }),
{
    let found = inputs.files.map_values(
        |k: SpecRenderKey| SpecCandidate { file: k.file(), change: k.target.change() },
    );
    lemma_with_trees(found, inputs.trees);
    let all = inputs.candidates();
    assert forall|i: int| 0 <= i < found.len() implies #[trigger] all[i] == found[i] by {
        assert(all.take(found.len() as int)[i] == all[i]);
    }
}

// ---- progress -------------------------------------------------------------

/// How many of the files are in `state` for the viewer.
pub open spec fn files_in(
    snapshot: SpecReviewSnapshot,
    viewer: SpecAuthor,
    files: Seq<SpecRenderKey>,
    state: ViewedState,
) -> int {
    files.filter(
        |f: SpecRenderKey| viewed_as(snapshot, viewer, f.repo_id, f.path, f.target.viewed_content()) == state,
    ).len() as int
}

/// Progress counts the changed files that were viewed as they are and those
/// that changed since.
pub proof fn progress_counts_the_files_viewed(
    snapshot: SpecReviewSnapshot,
    viewer: SpecAuthor,
    files: Seq<SpecRenderKey>,
    stats: Seq<SpecFileStat>,
)
    requires
        files.len() <= u32::MAX,
    ensures
        ({
            let p = progress_of(snapshot, viewer, files, stats);
            &&& p.total == files.len()
            &&& p.viewed == files_in(snapshot, viewer, files, ViewedState::Viewed)
            &&& p.changed_since_viewed == files_in(snapshot, viewer, files, ViewedState::ChangedSinceViewed)
        }),
    decreases files.len(),
{
    reveal(Seq::filter);
    if files.len() > 0 {
        let rest = files.drop_last();
        progress_counts_the_files_viewed(snapshot, viewer, rest, stats);
        data::lemma_filter_len(
            rest,
            |f: SpecRenderKey|
                viewed_as(
                    snapshot,
                    viewer,
                    f.repo_id,
                    f.path,
                    f.target.viewed_content(),
                ) == ViewedState::Viewed,
        );
        data::lemma_filter_len(
            rest,
            |f: SpecRenderKey|
                viewed_as(snapshot, viewer, f.repo_id, f.path, f.target.viewed_content())
                    == ViewedState::ChangedSinceViewed,
        );
    }
}

/// A file adds its lines to the totals: those of its counts listed last.
pub proof fn progress_sums_the_lines_changed(
    snapshot: SpecReviewSnapshot,
    viewer: SpecAuthor,
    files: Seq<SpecRenderKey>,
    stats: Seq<SpecFileStat>,
    file: SpecRenderKey,
    i: int,
)
    requires
        0 <= i < stats.len(),
        stats[i].file.repo_id == file.repo_id,
        stats[i].file.path == file.path,
        forall|j: int|
            i < j < stats.len() ==> !((#[trigger] stats[j]).file.repo_id == file.repo_id && stats[j].file.path
                == file.path),
    ensures
        ({
            let p = progress_of(snapshot, viewer, files, stats);
            let q = progress_of(snapshot, viewer, files.push(file), stats);
            &&& q.additions == (if p.additions + stats[i].additions <= u32::MAX {
                p.additions + stats[i].additions
            } else {
                u32::MAX as int
            })
            &&& q.deletions == (if p.deletions + stats[i].deletions <= u32::MAX {
                p.deletions + stats[i].deletions
            } else {
                u32::MAX as int
            })
        }),
{
    assert(files.push(file).drop_last() =~= files);
    data::lemma_found_at(stats, stat_for(file.file()), i);
}

// ---- files of a repository ------------------------------------------------

/// A tree of the repository lists a file with that path and content.
pub open spec fn tree_has(trees: Seq<SpecTreeSnapshot>, repo_id: RepoId, leaf: SpecLeaf, t: int, e: int) -> bool {
    &&& 0 <= t < trees.len()
    &&& trees[t].repo_id == repo_id
    &&& 0 <= e < trees[t].entries.len()
    &&& trees[t].entries[e].path == leaf.path
    &&& match trees[t].entries[e].kind {
        TreeEntryKind::File { oid, .. } => leaf.head_content == (ViewedContent::Blob { oid }),
        TreeEntryKind::Symlink { oid } => leaf.head_content == (ViewedContent::Blob { oid }),
        _ => false,
    }
}

proof fn lemma_tree_leaves(trees: Seq<SpecTreeSnapshot>, repo_id: RepoId, leaf: SpecLeaf)
    ensures
        tree_leaves(trees, repo_id).contains(leaf) <==> exists|t: int, e: int| #[trigger]
            tree_has(trees, repo_id, leaf, t, e),
    decreases trees.len(),
{
    if trees.len() > 0 {
        let rest = trees.drop_last();
        let tree = trees.last();
        lemma_tree_leaves(rest, repo_id, leaf);
        let before = tree_leaves(rest, repo_id);
        let f = |e: SpecTreeEntry| e.leaf();
        data::lemma_images_has(tree.entries, f, leaf);
        let more = tree.entries.filter_map(f);
        let out = tree_leaves(trees, repo_id);
        if tree.repo_id == repo_id {
            vstd::seq_lib::lemma_seq_concat_contains_all_elements(before, more, leaf);
        }
        if out.contains(leaf) {
            if before.contains(leaf) {
                let (t, e) = choose|t: int, e: int| #[trigger] tree_has(rest, repo_id, leaf, t, e);
                assert(tree_has(trees, repo_id, leaf, t, e));
            } else {
                let e = choose|e: int| 0 <= e < tree.entries.len() && f(#[trigger] tree.entries[e]) == Some(leaf);
                assert(tree_has(trees, repo_id, leaf, trees.len() - 1, e));
            }
        }
        if exists|t: int, e: int| #[trigger] tree_has(trees, repo_id, leaf, t, e) {
            let (t, e) = choose|t: int, e: int| #[trigger] tree_has(trees, repo_id, leaf, t, e);
            if t < rest.len() {
                assert(tree_has(rest, repo_id, leaf, t, e));
            } else {
                assert(f(tree.entries[e]) == Some(leaf));
            }
        }
    }
}

/// Some leaf has that path.
pub open spec fn has_path(leaves: Seq<SpecLeaf>, path: SpecRepoPath) -> bool {
    exists|k: int| 0 <= k < leaves.len() && (#[trigger] leaves[k]).path == path
}

/// The file at `i` is the first of the repository with its path.
pub open spec fn first_changed(files: Seq<SpecRenderKey>, repo_id: RepoId, path: SpecRepoPath, i: int) -> bool {
    &&& 0 <= i < files.len()
    &&& files[i].repo_id == repo_id
    &&& files[i].path == path
    &&& forall|j: int| 0 <= j < i ==> !((#[trigger] files[j]).repo_id == repo_id && files[j].path == path)
}

proof fn lemma_with_files(leaves: Seq<SpecLeaf>, files: Seq<SpecRenderKey>, repo_id: RepoId, leaf: SpecLeaf)
    ensures
        with_files(leaves, files, repo_id).contains(leaf) <==> leaves.contains(leaf) || (!has_path(leaves, leaf.path)
            && exists|i: int| #[trigger]
            first_changed(files, repo_id, leaf.path, i) && leaf.head_content == files[i].target.viewed_content()),
        has_path(
            with_files(leaves, files, repo_id),
            leaf.path,
        ) <==> has_path(leaves, leaf.path) || exists|i: int| #[trigger]
            first_changed(files, repo_id, leaf.path, i),
    decreases files.len(),
{
    let path = leaf.path;
    let out = with_files(leaves, files, repo_id);
    if files.len() > 0 {
        let rest = files.drop_last();
        let before = with_files(leaves, rest, repo_id);
        let f = files.last();
        let last = files.len() - 1;
        lemma_with_files(leaves, rest, repo_id, leaf);
        lemma_with_files(leaves, rest, repo_id, SpecLeaf { path: f.path, head_content: leaf.head_content });
        let p = leaf_at(f.path);
        assert(data::some_where(before, p) <==> has_path(before, f.path)) by {
            if data::some_where(before, p) {
                let k = choose|k: int| 0 <= k < before.len() && #[trigger] p(before[k]);
                assert(before[k].path == f.path);
            }
            if has_path(before, f.path) {
                let k = choose|k: int| 0 <= k < before.len() && (#[trigger] before[k]).path == f.path;
                assert(p(before[k]));
            }
        }
        let new = SpecLeaf { path: f.path, head_content: f.target.viewed_content() };
        let added = f.repo_id == repo_id && !has_path(before, f.path);
        assert forall|i: int| i < last implies (#[trigger] first_changed(files, repo_id, path, i) <==> first_changed(
            rest,
            repo_id,
            path,
            i,
        )) by {
            if 0 <= i < last {
                assert(rest[i] == files[i]);
                assert forall|j: int| 0 <= j < i && first_changed(rest, repo_id, path, i) implies !((
                #[trigger] files[j]).repo_id == repo_id && files[j].path == path) by {
                    assert(rest[j] == files[j]);
                }
                assert forall|j: int| 0 <= j < i && first_changed(files, repo_id, path, i) implies !((
                #[trigger] rest[j]).repo_id == repo_id && rest[j].path == path) by {
                    assert(rest[j] == files[j]);
                }
            }
        }
        lemma_first_changed(rest, repo_id, path);
        lemma_first_changed(files, repo_id, path);
        let in_rest = exists|i: int| #[trigger] first_changed(rest, repo_id, path, i);
        if in_rest {
            let i = choose|i: int| #[trigger] first_changed(rest, repo_id, path, i);
            assert(first_changed(files, repo_id, path, i));
            assert forall|k: int| #[trigger] first_changed(files, repo_id, path, k) implies k == i by {
                if k < i {
                    assert(first_changed(rest, repo_id, path, k));
                    assert(rest[k].repo_id == repo_id);
                } else if i < k {
                    assert(files[i].repo_id == repo_id && files[i].path == path);
                }
            }
            assert forall|k: int| #[trigger] first_changed(rest, repo_id, path, k) implies k == i by {
                assert(first_changed(files, repo_id, path, k));
            }
        } else {
            assert forall|k: int| #[trigger] first_changed(files, repo_id, path, k) implies k == last by {
                if k < last {
                    assert(first_changed(rest, repo_id, path, k));
                }
            }
            if f.repo_id == repo_id && f.path == path {
                assert(first_changed(files, repo_id, path, last)) by {
                    assert forall|j: int| 0 <= j < last implies !((#[trigger] files[j]).repo_id == repo_id
                        && files[j].path == path) by {
                        assert(rest[j] == files[j]);
                    }
                }
            }
        }
        if added {
            vstd::seq_lib::lemma_seq_contains_after_push(before, new, leaf);
            assert(out == before.push(new));
            if has_path(out, path) && !has_path(before, path) {
                let k = choose|k: int| 0 <= k < out.len() && (#[trigger] out[k]).path == path;
                if k < before.len() {
                    assert(out[k] == before[k]);
                }
                assert(f.path == path);
            }
            if has_path(before, path) {
                let k = choose|k: int| 0 <= k < before.len() && (#[trigger] before[k]).path == path;
                assert(out[k] == before[k]);
            }
            assert(out[before.len() as int] == new);
        }
    }
}

pub proof fn lemma_first_changed(files: Seq<SpecRenderKey>, repo_id: RepoId, path: SpecRepoPath)
    ensures
        (exists|i: int| #[trigger] first_changed(files, repo_id, path, i)) <==> exists|i: int|
            0 <= i < files.len() && (#[trigger] files[i]).repo_id == repo_id && files[i].path == path,
        data::found(files, file_of(repo_id, path)) is None ==> !(exists|i: int| #[trigger]
            first_changed(files, repo_id, path, i)),
        forall|i: int| #[trigger]
            first_changed(files, repo_id, path, i) ==> data::found(files, file_of(repo_id, path)) == Some(files[i]),
{
    let p = file_of(repo_id, path);
    data::lemma_first_where(files, p);
    match data::first_where(files, p) {
        Some(i) => {
            assert(p(files[i]));
            assert forall|j: int| 0 <= j < i implies !((#[trigger] files[j]).repo_id == repo_id && files[j].path
                == path) by {
                assert(!p(files[j]));
            }
            assert(first_changed(files, repo_id, path, i));
            assert forall|k: int| #[trigger] first_changed(files, repo_id, path, k) implies k == i by {
                if k < i {
                    assert(!p(files[k]));
                }
                if i < k {
                    assert(files[i].repo_id == repo_id && files[i].path == path);
                }
            }
        },
        None => {
            assert forall|j: int| 0 <= j < files.len() implies !((#[trigger] files[j]).repo_id == repo_id
                && files[j].path == path) by {
                assert(!p(files[j]));
            }
        },
    }
}

/// The files shown of a repository are by path: those its trees list, unless
/// only changed ones are wanted, and every changed file that those do not
/// have, with the content it has at head.
pub proof fn repositories_show_their_files(inputs: SpecExplorerInputs, repo_id: RepoId, leaf: SpecLeaf)
    ensures
        ({
            let leaves = inputs.leaves(repo_id);
            let listed = exists|t: int, e: int| #[trigger] tree_has(inputs.trees, repo_id, leaf, t, e);
            let known = exists|other: SpecLeaf, t: int, e: int| #[trigger]
                tree_has(inputs.trees, repo_id, other, t, e) && other.path == leaf.path;
            let changed = exists|i: int| #[trigger]
                first_changed(inputs.files, repo_id, leaf.path, i) && leaf.head_content
                    == inputs.files[i].target.viewed_content();
            &&& inputs.changed_only ==> (leaves.contains(leaf) <==> changed)
            &&& !inputs.changed_only ==> (leaves.contains(leaf) <==> listed || (!known && changed))
            &&& forall|i: int, j: int|
                0 <= i < j < leaves.len() ==> text::le(
                    (#[trigger] leaves[i]).path.text,
                    (#[trigger] leaves[j]).path.text,
                )
        }),
{
    let of_trees = if inputs.changed_only {
        Seq::empty()
    } else {
        tree_leaves(inputs.trees, repo_id)
    };
    let all = with_files(of_trees, inputs.files, repo_id);
    let le = leaf_order();
    assert(data::total_order(le)) by {
        assert forall|a: SpecLeaf, b: SpecLeaf| #[trigger] le(a, b) || le(b, a) by {
            text::lemma_le_total(a.path.text, b.path.text);
        }
        assert forall|a: SpecLeaf, b: SpecLeaf, c: SpecLeaf| #[trigger] le(a, b) && #[trigger] le(b, c) implies le(
            a,
            c,
        ) by {
            text::lemma_le_trans(a.path.text, b.path.text, c.path.text);
        }
    }
    data::lemma_sorted(all, le);
    data::lemma_sorted_has(all, le, leaf);
    lemma_with_files(of_trees, inputs.files, repo_id, leaf);
    lemma_tree_leaves(inputs.trees, repo_id, leaf);
    let leaves = inputs.leaves(repo_id);
    assert forall|i: int, j: int| 0 <= i < j < leaves.len() implies text::le(
        (#[trigger] leaves[i]).path.text,
        (#[trigger] leaves[j]).path.text,
    ) by {
        assert(le(leaves[i], leaves[j]));
    }
    if !inputs.changed_only {
        let known = exists|other: SpecLeaf, t: int, e: int| #[trigger]
            tree_has(inputs.trees, repo_id, other, t, e) && other.path == leaf.path;
        if has_path(of_trees, leaf.path) {
            let k = choose|k: int| 0 <= k < of_trees.len() && (#[trigger] of_trees[k]).path == leaf.path;
            lemma_tree_leaves(inputs.trees, repo_id, of_trees[k]);
            assert(of_trees.contains(of_trees[k]));
            assert(known);
        }
        if known {
            let (other, t, e) = choose|other: SpecLeaf, t: int, e: int| #[trigger]
                tree_has(inputs.trees, repo_id, other, t, e) && other.path == leaf.path;
            lemma_tree_leaves(inputs.trees, repo_id, other);
            let k = choose|k: int| 0 <= k < of_trees.len() && of_trees[k] == other;
            assert(of_trees[k].path == leaf.path);
        }
    }
}

proof fn lemma_distinct(ids: Seq<RepoId>, id: RepoId)
    ensures
        distinct(ids).contains(id) <==> ids.contains(id),
        distinct(ids).no_duplicates(),
    decreases ids.len(),
{
    if ids.len() > 0 {
        let rest = ids.drop_last();
        lemma_distinct(rest, id);
        lemma_distinct(rest, ids.last());
        assert(ids =~= rest.push(ids.last()));
        vstd::seq_lib::lemma_seq_contains_after_push(rest, ids.last(), id);
        let before = distinct(rest);
        vstd::seq_lib::lemma_seq_contains_after_push(before, ids.last(), id);
        if !before.contains(ids.last()) {
            let out = before.push(ids.last());
            assert forall|i: int, j: int| 0 <= i < out.len() && 0 <= j < out.len() && i != j implies out[i] != out[j] by {
                if i == before.len() {
                    assert(before.contains(before[j]));
                } else if j == before.len() {
                    assert(before.contains(before[i]));
                }
            }
        }
    }
}

/// The repositories shown are those with changed files and, unless only
/// changed files are wanted, those with a tree: each once, by id.
pub proof fn repositories_are_shown_once_by_id(inputs: SpecExplorerInputs, id: RepoId)
    ensures
        ({
            let ids = inputs.repos();
            let has_changes = exists|i: int| 0 <= i < inputs.files.len() && (#[trigger] inputs.files[i]).repo_id == id;
            let has_tree = exists|t: int| 0 <= t < inputs.trees.len() && (#[trigger] inputs.trees[t]).repo_id == id;
            &&& ids.contains(id) <==> has_changes || (!inputs.changed_only && has_tree)
            &&& forall|i: int, j: int| 0 <= i < j < ids.len() ==> (#[trigger] ids[i]).0 < (#[trigger] ids[j]).0
        }),
{
    let of_files = inputs.files.map_values(|k: SpecRenderKey| k.repo_id);
    let of_trees = if inputs.changed_only {
        Seq::empty()
    } else {
        inputs.trees.map_values(|t: SpecTreeSnapshot| t.repo_id)
    };
    let all = of_trees + of_files;
    let ids = inputs.repos();
    let le = id_order();
    lemma_distinct(all, id);
    data::lemma_sorted(distinct(all), le);
    data::lemma_sorted_has(distinct(all), le, id);
    vstd::seq_lib::lemma_seq_concat_contains_all_elements(of_trees, of_files, id);
    let has_changes = exists|i: int| 0 <= i < inputs.files.len() && (#[trigger] inputs.files[i]).repo_id == id;
    let has_tree = exists|t: int| 0 <= t < inputs.trees.len() && (#[trigger] inputs.trees[t]).repo_id == id;
    assert(of_files.contains(id) <==> has_changes) by {
        if of_files.contains(id) {
            let i = choose|i: int| 0 <= i < of_files.len() && of_files[i] == id;
            assert(inputs.files[i].repo_id == id);
        }
        if has_changes {
            let i = choose|i: int| 0 <= i < inputs.files.len() && (#[trigger] inputs.files[i]).repo_id == id;
            assert(of_files[i] == id);
        }
    }
    if !inputs.changed_only {
        assert(of_trees.contains(id) <==> has_tree) by {
            if of_trees.contains(id) {
                let i = choose|i: int| 0 <= i < of_trees.len() && of_trees[i] == id;
                assert(inputs.trees[i].repo_id == id);
            }
            if has_tree {
                let i = choose|i: int| 0 <= i < inputs.trees.len() && (#[trigger] inputs.trees[i]).repo_id == id;
                assert(of_trees[i] == id);
            }
        }
    }
    assert(ids.no_duplicates()) by {
        broadcast use vstd::seq_lib::group_to_multiset_ensures;

        distinct(all).lemma_multiset_has_no_duplicates();
        ids.lemma_multiset_has_no_duplicates_conv();
    }
    assert forall|i: int, j: int| 0 <= i < j < ids.len() implies (#[trigger] ids[i]).0 < (#[trigger] ids[j]).0 by {
        assert(le(ids[i], ids[j]));
        assert(ids[i] != ids[j]);
    }
}

// ---- the tree -------------------------------------------------------------

/// A file shows how it changed, how it was viewed at the content it has at
/// head, whether it is open, and what is counted of it.
pub proof fn files_show_their_own_state(
    inputs: SpecExplorerInputs,
    repo_id: RepoId,
    leaf: SpecLeaf,
    called: Seq<char>,
)
    ensures
        inputs.file_node(repo_id, leaf, called) matches SpecTreeNode::File {
            name,
            repo_id: r,
            path,
            change,
            viewed,
            open,
            additions,
            deletions,
            ..
        } && {
            &&& name == called
            &&& r == repo_id
            &&& path == leaf.path
            &&& viewed == viewed_as(inputs.snapshot, inputs.viewer, repo_id, leaf.path, leaf.head_content)
            &&& open <==> inputs.open_file == Some(SpecFileRef { repo_id, path: leaf.path })
            &&& forall|i: int| #[trigger]
                first_changed(inputs.files, repo_id, leaf.path, i) ==> match inputs.files[i].target {
                    SpecRenderTarget::Diff { change: kind } => change == Some(kind.kind()),
                    SpecRenderTarget::Blob { .. } => change is None,
                }
            &&& (forall|i: int|
                0 <= i < inputs.files.len() ==> !((#[trigger] inputs.files[i]).repo_id == repo_id
                    && inputs.files[i].path == leaf.path)) ==> change is None
            &&& forall|i: int| #[trigger]
                last_stat(
                    inputs.stats,
                    repo_id,
                    leaf.path,
                    i,
                ) ==> additions == Some(inputs.stats[i].additions)
                    && deletions == Some(inputs.stats[i].deletions)
        },
{
    lemma_first_changed(inputs.files, repo_id, leaf.path);
    let file = SpecFileRef { repo_id, path: leaf.path };
    let p = file_of(repo_id, leaf.path);
    data::lemma_first_where(inputs.files, p);
    if let Some(k) = data::first_where(inputs.files, p) {
        assert(p(inputs.files[k]));
    }
    assert forall|i: int| #[trigger] last_stat(inputs.stats, repo_id, leaf.path, i) implies data::found_last(
        inputs.stats,
        stat_for(file),
    ) == Some(inputs.stats[i]) by {
        data::lemma_found_at(inputs.stats, stat_for(file), i);
    }
}

/// The counts at `i` are the last of the file.
pub open spec fn last_stat(stats: Seq<SpecFileStat>, repo_id: RepoId, path: SpecRepoPath, i: int) -> bool {
    &&& 0 <= i < stats.len()
    &&& stats[i].file.repo_id == repo_id
    &&& stats[i].file.path == path
    &&& forall|j: int|
        i < j < stats.len() ==> !((#[trigger] stats[j]).file.repo_id == repo_id && stats[j].file.path == path)
}

/// A directory is open as it was toggled: while only changed files are shown
/// unless it was closed, else only if it was opened.
pub proof fn directories_are_open_as_toggled(inputs: SpecExplorerInputs, dir: SpecDirKey)
    ensures
        inputs.changed_only ==> (inputs.is_open(dir) <==> !inputs.state.collapsed.contains(dir)),
        !inputs.changed_only ==> (inputs.is_open(dir) <==> inputs.state.expanded.contains(dir)),
{
}

/// Changed files are counted, those of a directory by its own count, up to
/// the largest number there is.
pub proof fn changed_files_are_counted(nodes: Seq<SpecTreeNode>, node: SpecTreeNode)
    ensures
        changed_in(Seq::empty()) == 0,
        ({
            let more: int = match node {
                SpecTreeNode::Dir { changed_below, .. } => changed_below as int,
                SpecTreeNode::File { change, .. } => if change is Some { 1 } else { 0 },
            };
            changed_in(nodes.push(node)) == (if changed_in(nodes) + more <= u32::MAX {
                changed_in(nodes) + more
            } else {
                u32::MAX as int
            })
        }),
{
    assert(nodes.push(node).drop_last() =~= nodes);
}

/// No character of the name is a slash.
pub open spec fn is_name(name: Seq<char>) -> bool {
    forall|i: int| 0 <= i < name.len() ==> #[trigger] name[i] != '/'
}

/// The leaf at `j` stands in the directory behind `prefix`, and the node is
/// its own.
pub open spec fn is_file_in(
    inputs: SpecExplorerInputs,
    repo_id: RepoId,
    leaves: Seq<SpecLeaf>,
    prefix: Seq<char>,
    j: int,
    node: SpecTreeNode,
) -> bool {
    &&& 0 <= j < leaves.len()
    &&& is_name(node.name())
    &&& leaves[j].path.text == prefix + node.name()
    &&& node == inputs.file_node(repo_id, leaves[j], node.name())
}

/// The leaf at `j` stands somewhere below the directory `dir` behind `prefix`.
pub open spec fn is_below(leaves: Seq<SpecLeaf>, prefix: Seq<char>, dir: Seq<char>, j: int) -> bool {
    &&& 0 <= j < leaves.len()
    &&& is_name(dir)
    &&& (prefix + dir + seq!['/']).is_prefix_of(leaves[j].path.text)
}

/// The node is a directory behind `prefix` that shows what is in it.
pub open spec fn is_dir_in(
    inputs: SpecExplorerInputs,
    repo_id: RepoId,
    leaves: Seq<SpecLeaf>,
    prefix: Seq<char>,
    limit: nat,
    node: SpecTreeNode,
) -> bool {
    node matches SpecTreeNode::Dir { name, repo_id: r, path, expanded, changed_below, children } && {
        &&& r == repo_id
        &&& is_name(name)
        &&& path == Some(SpecRepoPath { text: prefix + name })
        &&& expanded == inputs.is_open(SpecDirKey { repo_id, path })
        &&& children == data::sorted(
            inputs.nodes(repo_id, leaves, prefix + name + seq!['/'], limit, leaves.len()),
            node_order(),
        )
        &&& changed_below == changed_in(children)
    }
}

/// A directory node is there by that name.
pub open spec fn has_dir(nodes: Seq<SpecTreeNode>, name: Seq<char>) -> bool {
    exists|n: int| 0 <= n < nodes.len() && (#[trigger] nodes[n]) is Dir && nodes[n].name() == name
}

proof fn lemma_rest(text: Seq<char>, prefix: Seq<char>)
    ensures
        match text::after_prefix(text, prefix) {
            None => !prefix.is_prefix_of(text),
            Some(rest) => text == prefix + rest && match text::split_once(rest, '/') {
                None => is_name(rest),
                Some((dir, _)) => is_name(dir) && (prefix + dir + seq!['/']).is_prefix_of(text),
            },
        },
{
    if prefix.is_prefix_of(text) {
        let rest = text.skip(prefix.len() as int);
        assert(text =~= prefix + rest);
        text::lemma_index_of(rest, '/');
        if let Some(i) = text::index_of(rest, '/') {
            let dir = rest.take(i);
            let below = prefix + dir + seq!['/'];
            assert(below =~= text.subrange(0, below.len() as int));
        }
    }
}

proof fn lemma_below(text: Seq<char>, prefix: Seq<char>, dir: Seq<char>)
    requires
        is_name(dir),
    ensures
        (prefix + dir + seq!['/']).is_prefix_of(text) <==> (text::after_prefix(text, prefix) is Some
            && text::split_once(text::after_prefix(text, prefix)->0, '/') is Some && (text::split_once(
            text::after_prefix(text, prefix)->0,
            '/',
        )->0).0 == dir),
{
    let below = prefix + dir + seq!['/'];
    lemma_rest(text, prefix);
    if below.is_prefix_of(text) {
        assert(prefix =~= text.subrange(0, prefix.len() as int)) by {
            assert forall|i: int| 0 <= i < prefix.len() implies prefix[i] == text[i] by {
                assert(below[i] == text.subrange(0, below.len() as int)[i]);
            }
        }
        let rest = text.skip(prefix.len() as int);
        text::lemma_index_of(rest, '/');
        let n = dir.len() as int;
        assert(rest[n] == '/') by {
            assert(below[prefix.len() + n] == text.subrange(0, below.len() as int)[prefix.len() + n]);
        }
        let i = text::index_of(rest, '/')->0;
        assert forall|k: int| 0 <= k < n implies rest[k] == dir[k] by {
            assert(below[prefix.len() + k] == text.subrange(0, below.len() as int)[prefix.len() + k]);
        }
        if i < n {
            assert(rest[i] == dir[i]);
        }
        assert(i == n);
        assert(rest.take(i) =~= dir);
    }
}

proof fn lemma_seen(leaves: Seq<SpecLeaf>, prefix: Seq<char>, dir: Seq<char>, k: int)
    requires
        0 <= k <= leaves.len(),
        is_name(dir),
    ensures
        data::some_where(leaves.take(k), dir_is(prefix, dir)) <==> exists|j: int|
            j < k && #[trigger] is_below(leaves, prefix, dir, j),
{
    let p = dir_is(prefix, dir);
    let some = leaves.take(k);
    assert forall|j: int| 0 <= j < k implies (p(#[trigger] some[j]) <==> is_below(leaves, prefix, dir, j)) by {
        lemma_below(leaves[j].path.text, prefix, dir);
        assert(some[j] == leaves[j]);
    }
    if data::some_where(some, p) {
        let j = choose|j: int| 0 <= j < some.len() && #[trigger] p(some[j]);
        assert(is_below(leaves, prefix, dir, j));
    }
    if exists|j: int| j < k && #[trigger] is_below(leaves, prefix, dir, j) {
        let j = choose|j: int| j < k && #[trigger] is_below(leaves, prefix, dir, j);
        assert(p(some[j]));
    }
}

/// The nodes of a directory are its own files and the directories that have a
/// file below them: each file as itself, each directory once and with what is
/// in it. None of them is left out.
pub proof fn directories_hold_their_files_and_directories(
    inputs: SpecExplorerInputs,
    repo_id: RepoId,
    leaves: Seq<SpecLeaf>,
    prefix: Seq<char>,
    limit: nat,
    k: nat,
)
    requires
        k <= leaves.len(),
    ensures
        ({
            let nodes = inputs.nodes(repo_id, leaves, prefix, limit, k);
            &&& forall|n: int|
                0 <= n < nodes.len() && (#[trigger] nodes[n]) is File ==> exists|j: int|
                    j < k && #[trigger] is_file_in(inputs, repo_id, leaves, prefix, j, nodes[n])
            &&& forall|n: int|
                0 <= n < nodes.len() && (#[trigger] nodes[n]) is Dir ==> is_dir_in(
                    inputs,
                    repo_id,
                    leaves,
                    prefix,
                    limit,
                    nodes[n],
                ) && exists|j: int| j < k && #[trigger] is_below(leaves, prefix, nodes[n].name(), j)
            &&& forall|j: int, name: Seq<char>|
                0 <= j < k && is_name(name) && #[trigger] leaves[j].path.text == #[trigger] (prefix + name)
                    ==> nodes.contains(inputs.file_node(repo_id, leaves[j], name))
            &&& forall|j: int, dir: Seq<char>|
                j < k && #[trigger] is_below(leaves, prefix, dir, j) && text::is_path(prefix + dir) && prefix.len()
                    + dir.len() + 1 <= limit ==> has_dir(nodes, dir)
            &&& forall|m: int, n: int|
                0 <= m < n < nodes.len() && (#[trigger] nodes[m]) is Dir && (#[trigger] nodes[n]) is Dir
                    ==> nodes[m].name() != nodes[n].name()
        }),
    decreases k,
{
    let nodes = inputs.nodes(repo_id, leaves, prefix, limit, k);
    if k > 0 {
        let m = (k - 1) as nat;
        directories_hold_their_files_and_directories(inputs, repo_id, leaves, prefix, limit, m);
        let before = inputs.nodes(repo_id, leaves, prefix, limit, m);
        let last = m as int;
        let text = leaves[last].path.text;
        lemma_rest(text, prefix);
        reveal_strlit("/");
        assert("/"@ =~= seq!['/']);
        assert forall|n: int| 0 <= n < before.len() implies nodes[n] == before[n] && n < nodes.len() by {}
        let rest = text::after_prefix(text, prefix);
        let split = text::split_once(rest->0, '/');
        if rest is Some && split is Some {
            let dir = (split->0).0;
            lemma_seen(leaves, prefix, dir, last);
            lemma_below(text, prefix, dir);
            assert(is_below(leaves, prefix, dir, last));
            if nodes.len() > before.len() {
                assert(nodes == before.push(nodes[before.len() as int]));
                assert(prefix + dir + "/"@ =~= prefix + dir + seq!['/']);
                assert(is_dir_in(inputs, repo_id, leaves, prefix, limit, nodes[before.len() as int]));
            }
        }
        if rest is Some && split is None {
            assert(nodes[before.len() as int] == inputs.file_node(repo_id, leaves[last], rest->0));
            assert(is_file_in(inputs, repo_id, leaves, prefix, last, nodes[before.len() as int]));
        }
        assert forall|n: int| 0 <= n < nodes.len() && (#[trigger] nodes[n]) is File implies exists|j: int|
            j < k && #[trigger] is_file_in(inputs, repo_id, leaves, prefix, j, nodes[n]) by {
            if n < before.len() {
                let j = choose|j: int| j < m && #[trigger] is_file_in(
                    inputs,
                    repo_id,
                    leaves,
                    prefix,
                    j,
                    before[n],
                );
                assert(is_file_in(inputs, repo_id, leaves, prefix, j, nodes[n]));
            }
        }
        assert forall|n: int| 0 <= n < nodes.len() && (#[trigger] nodes[n]) is Dir implies is_dir_in(
            inputs,
            repo_id,
            leaves,
            prefix,
            limit,
            nodes[n],
        ) && exists|j: int| j < k && #[trigger] is_below(leaves, prefix, nodes[n].name(), j) by {
            if n < before.len() {
                let j = choose|j: int| j < m && #[trigger] is_below(leaves, prefix, before[n].name(), j);
                assert(is_below(leaves, prefix, nodes[n].name(), j));
            } else {
                assert(is_below(leaves, prefix, nodes[n].name(), last));
            }
        }
        assert forall|j: int, name: Seq<char>|
            0 <= j < k && is_name(name) && #[trigger] leaves[j].path.text == #[trigger] (prefix
                + name) implies nodes.contains(inputs.file_node(repo_id, leaves[j], name)) by {
            let node = inputs.file_node(repo_id, leaves[j], name);
            if j < last {
                assert(before.contains(node));
                let n = choose|n: int| 0 <= n < before.len() && before[n] == node;
                assert(nodes[n] == node);
            } else {
                assert(prefix =~= text.subrange(0, prefix.len() as int));
                assert(rest->0 =~= name);
                text::lemma_index_of(name, '/');
                assert(nodes[before.len() as int] == node);
            }
        }
        assert forall|j: int, dir: Seq<char>|
            j < k && #[trigger] is_below(leaves, prefix, dir, j) && text::is_path(prefix + dir) && prefix.len()
                + dir.len() + 1 <= limit implies has_dir(nodes, dir) by {
            if j < last {
                assert(has_dir(before, dir));
                let n = choose|n: int|
                    0 <= n < before.len() && (#[trigger] before[n]) is Dir && before[n].name() == dir;
                assert(nodes[n] == before[n]);
            } else {
                lemma_below(text, prefix, dir);
                lemma_seen(leaves, prefix, dir, last);
                if exists|i: int| i < last && #[trigger] is_below(leaves, prefix, dir, i) {
                    assert(has_dir(before, dir));
                    let n = choose|n: int|
                        0 <= n < before.len() && (#[trigger] before[n]) is Dir && before[n].name() == dir;
                    assert(nodes[n] == before[n]);
                } else {
                    assert(nodes[before.len() as int] is Dir && nodes[before.len() as int].name() == dir);
                }
            }
        }
        assert forall|a: int, b: int|
            0 <= a < b < nodes.len() && (#[trigger] nodes[a]) is Dir && (
            #[trigger] nodes[b]) is Dir implies nodes[a].name() != nodes[b].name() by {
            assert(nodes[a] == before[a]);
            if b < before.len() {
                assert(nodes[b] == before[b]);
            } else {
                let dir = (split->0).0;
                let j = choose|j: int| j < m && #[trigger] is_below(leaves, prefix, before[a].name(), j);
                if before[a].name() == dir {
                    assert(is_below(leaves, prefix, dir, j));
                }
            }
        }
    }
}

/// Directories come before files, each by name, and nothing is added or left
/// out by that.
pub proof fn directories_come_before_files(nodes: Seq<SpecTreeNode>, node: SpecTreeNode)
    ensures
        data::sorted(nodes, node_order()).contains(node) <==> nodes.contains(node),
        data::sorted(nodes, node_order()).len() == nodes.len(),
        forall|i: int, j: int|
            0 <= i < j < nodes.len() ==> {
                let (a, b) = (
                    #[trigger] data::sorted(nodes, node_order())[i],
                    #[trigger] data::sorted(nodes, node_order())[j],
                );
                ||| a is Dir && b is File
                ||| (a is Dir <==> b is Dir) && text::le(a.name(), b.name())
            },
{
    let le = node_order();
    assert(data::total_order(le)) by {
        assert forall|a: SpecTreeNode, b: SpecTreeNode| #[trigger] le(a, b) || le(b, a) by {
            text::lemma_le_total(a.name(), b.name());
        }
        assert forall|a: SpecTreeNode, b: SpecTreeNode, c: SpecTreeNode| #[trigger] le(a, b) && #[trigger] le(
            b,
            c,
        ) implies le(a, c) by {
            if (a is Dir) == (b is Dir) && (b is Dir) == (c is Dir) {
                text::lemma_le_trans(a.name(), b.name(), c.name());
            }
        }
    }
    data::lemma_sorted(nodes, le);
    data::lemma_sorted_has(nodes, le, node);
    let out = data::sorted(nodes, le);
    assert forall|i: int, j: int| 0 <= i < j < nodes.len() implies {
        let (a, b) = (#[trigger] out[i], #[trigger] out[j]);
        ||| a is Dir && b is File
        ||| (a is Dir <==> b is Dir) && text::le(a.name(), b.name())
    } by {
        assert(le(out[i], out[j]));
    }
}

/// The root of a repository holds all of its files: it is called what the
/// repository is called, and stands for no directory of it.
pub proof fn roots_hold_their_repository(inputs: SpecExplorerInputs, repo_id: RepoId)
    ensures
        inputs.root(repo_id) matches SpecTreeNode::Dir { name, repo_id: r, path, expanded, changed_below, children } && {
            let leaves = inputs.leaves(repo_id);
            &&& name == inputs.repo_name(repo_id)
            &&& r == repo_id
            &&& path is None
            &&& expanded == inputs.is_open(SpecDirKey { repo_id, path: None })
            &&& changed_below == changed_in(children)
            &&& children == data::sorted(
                inputs.nodes(repo_id, leaves, Seq::empty(), longest(leaves), leaves.len()),
                node_order(),
            )
            &&& forall|i: int| 0 <= i < leaves.len() ==> (#[trigger] leaves[i]).path.text.len() <= longest(leaves)
        },
        inputs.explorer().roots.len() == inputs.repos().len(),
        forall|i: int|
            0 <= i < inputs.repos().len() ==> #[trigger] inputs.explorer().roots[i] == inputs.root(inputs.repos()[i]),
        inputs.explorer().search == inputs.search_view(),
        inputs.explorer().breadcrumbs == inputs.breadcrumbs(),
{
    lemma_longest(inputs.leaves(repo_id));
}

proof fn lemma_longest(leaves: Seq<SpecLeaf>)
    ensures
        forall|i: int| 0 <= i < leaves.len() ==> (#[trigger] leaves[i]).path.text.len() <= longest(leaves),
    decreases leaves.len(),
{
    if leaves.len() > 0 {
        let rest = leaves.drop_last();
        lemma_longest(rest);
        assert forall|i: int| 0 <= i < leaves.len() implies (#[trigger] leaves[i]).path.text.len() <= longest(
            leaves,
        ) by {
            if i < rest.len() {
                assert(rest[i] == leaves[i]);
            }
        }
    }
}

/// The breadcrumbs of an open file are its repository and the parts of its
/// path.
pub proof fn breadcrumbs_lead_to_the_open_file(inputs: SpecExplorerInputs)
    ensures
        inputs.open_file is None ==> inputs.breadcrumbs().len() == 0,
        inputs.open_file matches Some(f) ==> {
            &&& inputs.breadcrumbs().len() == 1 + text::parts(f.path.text, '/').len()
            &&& inputs.breadcrumbs()[0] == inputs.repo_name(f.repo_id)
            &&& forall|i: int|
                0 <= i < text::parts(f.path.text, '/').len() ==> #[trigger] inputs.breadcrumbs()[i + 1] == text::parts(
                    f.path.text,
                    '/',
                )[i]
        },
{
}

} // verus!
