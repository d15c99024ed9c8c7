//! What a diff and a list of threads show, said of the cells, anchors and
//! marks they are made from.
use vstd::prelude::*;

use crate::cache::{SpecContentCache, SpecRenderKey};
use crate::data;
use crate::diff::{
    cached_rows, created_order, diff_of, draft_on, every_row, mark_of, missing_chunks, on_review, on_whole_file, placement,
    placements_on, rows_in, shown_comment, thread_on, thread_view, thread_views, viewed_as, Placement, RowPlace,
    RowThread, SideRange, SpecCommentView, SpecCommitStepper, SpecDiffRow, SpecPendingIds, SpecThreadPlace,
    SpecThreadView,
};
use crate::eventlaws::{has_comment, named_comment};
use crate::events::comment_is;
use crate::protocol::{
    BlobOid, ChunkIndex, CommentId, RepoId, Side, SpecAnchor, SpecAuthor, SpecChangeKind, SpecComment,
    SpecCommitInfo, SpecCommentState, SpecHuman, SpecRenderContent, SpecRenderTarget, SpecRepoPath,
    SpecReviewSnapshot, SpecRow, SpecThread, SpecViewedMark, ThreadId, ViewedContent,
};
use crate::text;

verus! {

// ---- rows -----------------------------------------------------------------

/// The line of the row's left cell.
pub open spec fn left_line(row: SpecRow) -> Option<u32> {
    match row {
        SpecRow::Context { left, .. } => Some(left.line_no),
        SpecRow::Modified { left, .. } => Some(left.line_no),
        SpecRow::Removed { left } => Some(left.line_no),
        _ => None,
    }
}

/// The line of the row's right cell.
pub open spec fn right_line(row: SpecRow) -> Option<u32> {
    match row {
        SpecRow::Context { right, .. } => Some(right.line_no),
        SpecRow::Modified { right, .. } => Some(right.line_no),
        SpecRow::Added { right } => Some(right.line_no),
        _ => None,
    }
}

/// The line of the row's cell on one side.
pub open spec fn cell_line(row: SpecRow, side: Side) -> Option<u32> {
    match side {
        Side::Base => left_line(row),
        Side::Head => right_line(row),
    }
}

/// A row is on the base side the line of its left cell and on the head side
/// the line of its right cell; without that cell it is no line there.
pub proof fn rows_are_the_lines_of_their_cells(row: SpecRow)
    ensures
        row.line_on(Side::Base) == left_line(row),
        row.line_on(Side::Head) == right_line(row),
{
}

/// The render shows that blob on that side.
pub open spec fn shows_blob(target: SpecRenderTarget, side: Side, blob: BlobOid) -> bool {
    match target {
        SpecRenderTarget::Blob { oid } => oid == blob,
        SpecRenderTarget::Diff { change } => match change {
            SpecChangeKind::Added { new } => side is Head && new == blob,
            SpecChangeKind::Deleted { old } => side is Base && old == blob,
            SpecChangeKind::Modified { old, new } => (side is Base && old == blob) || (side is Head && new == blob),
            SpecChangeKind::Renamed { old, new, .. } => (side is Base && old == blob) || (side is Head && new
                == blob),
        },
    }
}

/// The anchor's lines cover the row on that side: the row is its last line,
/// or one before that.
pub open spec fn anchor_covers(
    anchor: SpecAnchor,
    render: SpecRenderKey,
    row: SpecRow,
    side: Side,
    place: RowPlace,
) -> bool {
    match anchor {
        SpecAnchor::Lines { repo_id, path, side: on, blob_oid, lines, .. } => {
            &&& repo_id == render.repo_id
            &&& path == render.path
            &&& on == side
            &&& shows_blob(render.target, side, blob_oid)
            &&& match cell_line(row, side) {
                Some(line) => match place {
                    RowPlace::Anchor => line == lines.end,
                    RowPlace::Inside => lines.start <= line < lines.end,
                },
                None => false,
            }
        },
        _ => false,
    }
}

/// A comment covers a row where it is anchored, or was while it still could
/// be; a deleted one covers none.
pub open spec fn comment_covers(
    c: SpecComment,
    render: SpecRenderKey,
    row: SpecRow,
    side: Side,
    place: RowPlace,
) -> bool {
    match c.state {
        SpecCommentState::Live => anchor_covers(c.anchor, render, row, side, place),
        SpecCommentState::Outdated { last_good_anchor } => anchor_covers(
            last_good_anchor,
            render,
            row,
            side,
            place,
        ),
        SpecCommentState::Deleted => false,
    }
}

/// The root of the thread at `t` covers the row as `on` says.
pub open spec fn thread_covers(
    snapshot: SpecReviewSnapshot,
    render: SpecRenderKey,
    row: SpecRow,
    t: int,
    on: RowThread,
) -> bool {
    &&& 0 <= t < snapshot.threads.len()
    &&& snapshot.threads[t].id == on.thread
    &&& exists|r: int| #[trigger]
        named_comment(snapshot.comments, snapshot.threads[t].root, r) && comment_covers(
            snapshot.comments[r],
            render,
            row,
            on.side,
            on.place,
        )
}

proof fn lemma_comment(snapshot: SpecReviewSnapshot, id: CommentId)
    ensures
        match snapshot.comment(id) {
            Some(c) => exists|r: int| #[trigger] named_comment(snapshot.comments, id, r) && c == snapshot.comments[r],
            None => !has_comment(snapshot.comments, id),
        },
        forall|r: int| #[trigger]
            named_comment(snapshot.comments, id, r) ==> snapshot.comment(id) == Some(snapshot.comments[r]),
{
    let p = comment_is(id);
    let all = snapshot.comments;
    data::lemma_first_where(all, p);
    match data::first_where(all, p) {
        Some(i) => {
            assert(p(all[i]));
            assert forall|j: int| 0 <= j < i implies (#[trigger] all[j]).id != id by {
                assert(!p(all[j]));
            }
            assert(named_comment(all, id, i));
            assert forall|k: int| #[trigger] named_comment(all, id, k) implies k == i by {
                if k < i {
                    assert(!p(all[k]));
                }
                if i < k {
                    assert(all[i].id != id);
                }
            }
        },
        None => {
            assert forall|k: int| 0 <= k < all.len() implies (#[trigger] all[k]).id != id by {
                assert(!p(all[k]));
            }
        },
    }
}

proof fn lemma_thread_on(
    snapshot: SpecReviewSnapshot,
    render: SpecRenderKey,
    row: SpecRow,
    t: int,
    on: RowThread,
)
    requires
        0 <= t < snapshot.threads.len(),
    ensures
        thread_covers(snapshot, render, row, t, on) <==> (placement(snapshot, snapshot.threads[t], render) is Some
            && thread_on(row, placement(snapshot, snapshot.threads[t], render)->0) == Some(on)),
{
    let th = snapshot.threads[t];
    lemma_comment(snapshot, th.root);
    rows_are_the_lines_of_their_cells(row);
    if let Some(c) = snapshot.comment(th.root) {
        let r = choose|r: int| #[trigger] named_comment(snapshot.comments, th.root, r) && c == snapshot.comments[r];
        assert(named_comment(snapshot.comments, th.root, r));
        assert(thread_covers(snapshot, render, row, t, on) <==> th.id == on.thread && comment_covers(
            c,
            render,
            row,
            on.side,
            on.place,
        ));
    }
}

/// The threads on a row are exactly those whose root is anchored, in this
/// file and at the blob shown, to a range on one side that holds the line of
/// the row's cell there; on the last line of its range a thread is anchored.
pub proof fn threads_stand_on_the_rows_of_their_lines(
    snapshot: SpecReviewSnapshot,
    render: SpecRenderKey,
    row: SpecRow,
    on: RowThread,
)
    ensures
        placements_on(snapshot, render).filter_map(|p: Placement| thread_on(row, p)).contains(on) <==> exists|t: int|
            #[trigger] thread_covers(snapshot, render, row, t, on),
{
    let f = |t: SpecThread| placement(snapshot, t, render);
    let g = |p: Placement| thread_on(row, p);
    let placed = placements_on(snapshot, render);
    data::lemma_images_has(placed, g, on);
    if placed.filter_map(g).contains(on) {
        let i = choose|i: int| 0 <= i < placed.len() && g(#[trigger] placed[i]) == Some(on);
        assert(placed.contains(placed[i]));
        data::lemma_images_has(snapshot.threads, f, placed[i]);
        let t = choose|t: int| 0 <= t < snapshot.threads.len() && f(
            #[trigger] snapshot.threads[t],
        ) == Some(placed[i]);
        lemma_thread_on(snapshot, render, row, t, on);
        assert(thread_covers(snapshot, render, row, t, on));
    }
    if exists|t: int| #[trigger] thread_covers(snapshot, render, row, t, on) {
        let t = choose|t: int| #[trigger] thread_covers(snapshot, render, row, t, on);
        lemma_thread_on(snapshot, render, row, t, on);
        let p = placement(snapshot, snapshot.threads[t], render)->0;
        assert(f(snapshot.threads[t]) == Some(p));
        data::lemma_images_has(snapshot.threads, f, p);
        let i = choose|i: int| 0 <= i < placed.len() && placed[i] == p;
        assert(g(placed[i]) == Some(on));
    }
}

/// The open draft is on the rows its lines cover, on its side: on the last
/// one it is anchored.
pub proof fn drafts_stand_on_the_rows_of_their_lines(row: SpecRow, range: SideRange)
    ensures
        draft_on(row, None) is None,
        draft_on(row, Some(range)) == (match cell_line(row, range.side) {
            Some(line) => if line == range.end {
                Some((RowPlace::Anchor, range.side))
            } else if range.start <= line && line < range.end {
                Some((RowPlace::Inside, range.side))
            } else {
                None
            },
            None => None,
        }),
{
    rows_are_the_lines_of_their_cells(row);
}

/// Row `j` of chunk `ci` is what `d` shows, at its place in the file.
pub open spec fn shows_row(
    cache: SpecContentCache,
    render: SpecRenderKey,
    chunk_rows: u32,
    ci: int,
    j: int,
    d: SpecDiffRow,
) -> bool {
    match cache.chunk(render, ChunkIndex(ci as u32)) {
        Some(chunk) => 0 <= ci <= u32::MAX && 0 <= j < chunk.rows.len() && d.row == chunk.rows[j] && d.index == ci
            * chunk_rows + j,
        None => false,
    }
}

proof fn lemma_rows_in(
    rows: Seq<SpecRow>,
    base: int,
    first: int,
    last: int,
    placed: Seq<Placement>,
    draft: Option<SideRange>,
)
    requires
        0 <= base,
        0 <= first,
        last <= u32::MAX,
    ensures
        ({
            let out = rows_in(rows, base, first, last, placed, draft);
            let lo = if base <= first { first } else { base };
            let hi = if last + 1 <= base + rows.len() { last + 1 } else { base + rows.len() };
            &&& out.len() == (if lo <= hi { hi - lo } else { 0 })
            &&& forall|k: int| 0 <= k < out.len() ==> {
                &&& (#[trigger] out[k]).index == lo + k
                &&& out[k].row == rows[lo + k - base]
                &&& out[k].threads == placed.filter_map(|p: Placement| thread_on(out[k].row, p))
                &&& out[k].drafted == draft_on(out[k].row, draft)
            }
        }),
    decreases rows.len(),
{
    if rows.len() > 0 {
        let rest = rows.drop_last();
        lemma_rows_in(rest, base, first, last, placed, draft);
        let before = rows_in(rest, base, first, last, placed, draft);
        let lo = if base <= first { first } else { base };
        assert forall|k: int| 0 <= k < before.len() implies rest[lo + k - base] == #[trigger] before[k].row
            && rest[lo + k - base] == rows[lo + k - base] by {}
    }
}

/// What holds of a row that a diff shows: it is that of a cached chunk, at
/// its place, in the window, with the threads and the draft on it.
pub open spec fn row_is_right(
    cache: SpecContentCache,
    snapshot: SpecReviewSnapshot,
    render: SpecRenderKey,
    chunk_rows: u32,
    first: int,
    last: int,
    draft: Option<SideRange>,
    d: SpecDiffRow,
) -> bool {
    &&& first <= d.index <= last
    &&& exists|ci: int, j: int| #[trigger] shows_row(cache, render, chunk_rows, ci, j, d)
    &&& forall|on: RowThread| #[trigger]
        d.threads.contains(on) <==> exists|t: int| #[trigger] thread_covers(snapshot, render, d.row, t, on)
    &&& d.drafted == draft_on(d.row, draft)
}

/// Row `j` of chunk `ci` is among `rows`.
pub open spec fn row_is_shown(
    cache: SpecContentCache,
    render: SpecRenderKey,
    chunk_rows: u32,
    ci: int,
    j: int,
    rows: Seq<SpecDiffRow>,
) -> bool {
    exists|k: int| 0 <= k < rows.len() && shows_row(cache, render, chunk_rows, ci, j, #[trigger] rows[k])
}

/// No cached chunk of the render has more rows than a chunk has.
pub open spec fn chunks_fit(cache: SpecContentCache, render: SpecRenderKey, chunk_rows: u32) -> bool {
    forall|index: ChunkIndex|
        (#[trigger] cache.chunk(render, index)) matches Some(chunk) ==> chunk.rows.len() <= chunk_rows
}

pub open spec fn rows_rise(rows: Seq<SpecDiffRow>) -> bool {
    forall|j: int, k: int| 0 <= j < k < rows.len() ==> (#[trigger] rows[j]).index < (#[trigger] rows[k]).index
}

proof fn lemma_cached_rows(
    cache: SpecContentCache,
    snapshot: SpecReviewSnapshot,
    render: SpecRenderKey,
    chunk_rows: u32,
    from: int,
    n: nat,
    first: int,
    last: int,
    draft: Option<SideRange>,
)
    requires
        0 <= from,
        from + n <= u32::MAX + 1,
        0 <= first,
        last <= u32::MAX,
    ensures
        ({
            let rows = cached_rows(
                cache,
                render,
                chunk_rows as int,
                from,
                n,
                first,
                last,
                placements_on(snapshot, render),
                draft,
            );
            &&& forall|k: int|
                0 <= k < rows.len() ==> row_is_right(
                    cache,
                    snapshot,
                    render,
                    chunk_rows,
                    first,
                    last,
                    draft,
                    #[trigger] rows[k],
                )
            &&& forall|ci: int, j: int|
                from <= ci < from + n && cache.chunk(render, ChunkIndex(ci as u32)) is Some && 0 <= j < cache.chunk(
                    render,
                    ChunkIndex(ci as u32),
                )->0.rows.len() && first <= ci * chunk_rows + j <= last ==> #[trigger] row_is_shown(
                    cache,
                    render,
                    chunk_rows,
                    ci,
                    j,
                    rows,
                )
            &&& chunks_fit(cache, render, chunk_rows) ==> rows_rise(rows) && forall|k: int|
                0 <= k < rows.len() ==> (#[trigger] rows[k]).index < (from + n) * chunk_rows
        }),
    decreases n,
{
    if n > 0 {
        let m = (n - 1) as nat;
        let placed = placements_on(snapshot, render);
        lemma_cached_rows(cache, snapshot, render, chunk_rows, from, m, first, last, draft);
        let before = cached_rows(cache, render, chunk_rows as int, from, m, first, last, placed, draft);
        let ci = from + n - 1;
        assert(0 <= ci * chunk_rows) by (nonlinear_arith)
            requires
                0 <= ci,
                0 <= chunk_rows,
        ;
        assert((from + n) * chunk_rows == ci * chunk_rows + chunk_rows) by (nonlinear_arith)
            requires
                ci == from + n - 1,
        ;
        assert(from + m == ci);
        let rows = cached_rows(cache, render, chunk_rows as int, from, n, first, last, placed, draft);
        match cache.chunk(render, ChunkIndex(ci as u32)) {
            None => {
                assert(rows == before);
            },
            Some(chunk) => {
                let base = ci * chunk_rows;
                let more = rows_in(chunk.rows, base, first, last, placed, draft);
                lemma_rows_in(chunk.rows, base, first, last, placed, draft);
                assert(rows == before + more);
                let lo = if base <= first { first } else { base };
                assert forall|k: int| 0 <= k < more.len() implies row_is_right(
                    cache,
                    snapshot,
                    render,
                    chunk_rows,
                    first,
                    last,
                    draft,
                    #[trigger] more[k],
                ) by {
                    let d = more[k];
                    assert(shows_row(cache, render, chunk_rows, ci, lo + k - base, d));
                    assert forall|on: RowThread| #[trigger] d.threads.contains(on) <==> exists|t: int| #[trigger]
                        thread_covers(snapshot, render, d.row, t, on) by {
                        threads_stand_on_the_rows_of_their_lines(snapshot, render, d.row, on);
                    }
                }
                assert forall|k: int| 0 <= k < rows.len() implies row_is_right(
                    cache,
                    snapshot,
                    render,
                    chunk_rows,
                    first,
                    last,
                    draft,
                    #[trigger] rows[k],
                ) by {
                    if k < before.len() {
                        assert(rows[k] == before[k]);
                    } else {
                        assert(rows[k] == more[k - before.len()]);
                    }
                }
                assert forall|j: int| 0 <= j < chunk.rows.len() && first <= base + j <= last implies row_is_shown(
                    cache,
                    render,
                    chunk_rows,
                    ci,
                    j,
                    rows,
                ) by {
                    let k = base + j - lo;
                    assert(rows[before.len() + k] == more[k]);
                    assert(shows_row(cache, render, chunk_rows, ci, j, rows[before.len() + k]));
                }
                if chunks_fit(cache, render, chunk_rows) {
                    assert(chunk.rows.len() <= chunk_rows);
                    assert forall|j: int, k: int| 0 <= j < k < rows.len() implies (#[trigger] rows[j]).index < (
                    #[trigger] rows[k]).index by {
                        if k < before.len() {
                            assert(rows[j] == before[j] && rows[k] == before[k]);
                        } else {
                            assert(rows[k] == more[k - before.len()]);
                            if j < before.len() {
                                assert(rows[j] == before[j]);
                            } else {
                                assert(rows[j] == more[j - before.len()]);
                            }
                        }
                    }
                    assert forall|k: int| 0 <= k < rows.len() implies (#[trigger] rows[k]).index < (from + n)
                        * chunk_rows by {
                        if k < before.len() {
                            assert(rows[k] == before[k]);
                        } else {
                            assert(rows[k] == more[k - before.len()]);
                        }
                    }
                }
            },
        }
        assert forall|c: int, j: int|
            from <= c < from + n && cache.chunk(render, ChunkIndex(c as u32)) is Some && 0 <= j < cache.chunk(
                render,
                ChunkIndex(c as u32),
            )->0.rows.len() && first <= c * chunk_rows + j <= last implies #[trigger] row_is_shown(
            cache,
            render,
            chunk_rows,
            c,
            j,
            rows,
        ) by {
            if c < ci {
                assert(row_is_shown(cache, render, chunk_rows, c, j, before));
                let k = choose|k: int|
                    0 <= k < before.len() && shows_row(cache, render, chunk_rows, c, j, #[trigger] before[k]);
                assert(rows[k] == before[k]);
            }
        }
        if chunks_fit(cache, render, chunk_rows) {
            assert(rows_rise(rows));
        }
    }
}

proof fn lemma_missing(cache: SpecContentCache, render: SpecRenderKey, from: int, n: nat)
    requires
        0 <= from,
        from + n <= u32::MAX + 1,
    ensures
        ({
            let out = missing_chunks(cache, render, from, n);
            &&& forall|c: u32| #[trigger]
                out.contains(ChunkIndex(c)) <==> from <= c < from + n && cache.chunk(render, ChunkIndex(c)) is None
            &&& forall|j: int, k: int| 0 <= j < k < out.len() ==> (#[trigger] out[j]).0 < (#[trigger] out[k]).0
            &&& forall|k: int| 0 <= k < out.len() ==> (#[trigger] out[k]).0 < from + n
        }),
    decreases n,
{
    let out = missing_chunks(cache, render, from, n);
    if n > 0 {
        lemma_missing(cache, render, from, (n - 1) as nat);
        let before = missing_chunks(cache, render, from, (n - 1) as nat);
        let index = ChunkIndex((from + n - 1) as u32);
        assert forall|c: u32| #[trigger] out.contains(ChunkIndex(c)) <==> from <= c < from + n && cache.chunk(
            render,
            ChunkIndex(c),
        ) is None by {
            vstd::seq_lib::lemma_seq_contains_after_push(before, index, ChunkIndex(c));
            assert(before.contains(ChunkIndex(c)) <==> from <= c < from + n - 1 && cache.chunk(
                render,
                ChunkIndex(c),
            ) is None);
        }
    }
}

/// A diff shows exactly the cached rows of its window: each with its place in
/// the file, the threads anchored to it and the draft on it, in order. The
/// window ends with the file. The chunks of the window that are not cached
/// are missing, and no others.
pub proof fn diffs_show_the_cached_rows_of_their_window(
    cache: SpecContentCache,
    snapshot: SpecReviewSnapshot,
    viewer: SpecAuthor,
    render: SpecRenderKey,
    first: u32,
    last: u32,
    draft: Option<SideRange>,
    total_rows: u32,
    chunk_rows: u32,
    chunk_count: u32,
)
    requires
        cache.header(render) is Some,
        (cache.header(render)->0).content matches SpecRenderContent::Text {
            total_rows: t,
            chunk_rows: r,
            chunk_count: c,
            ..
        }
            && t == total_rows && r == chunk_rows && c == chunk_count,
        total_rows > 0,
        chunk_rows > 0,
        chunk_count > 0,
    ensures
        ({
            let shown = diff_of(cache, snapshot, viewer, render, first, last, draft);
            let view = shown->0;
            &&& shown is Some
            &&& view.last_row == (if last < total_rows { last } else { (total_rows - 1) as u32 })
            &&& view.first_row == (if first <= view.last_row { first } else { view.last_row })
            &&& forall|k: int|
                0 <= k < view.rows.len() ==> row_is_right(
                    cache,
                    snapshot,
                    render,
                    chunk_rows,
                    view.first_row as int,
                    view.last_row as int,
                    draft,
                    #[trigger] view.rows[k],
                )
            &&& forall|ci: int, j: int|
                0 <= ci < chunk_count && cache.chunk(render, ChunkIndex(ci as u32)) is Some && 0 <= j < cache.chunk(
                    render,
                    ChunkIndex(ci as u32),
                )->0.rows.len() && j < chunk_rows && view.first_row <= ci * chunk_rows + j <= view.last_row
                    ==> #[trigger] row_is_shown(cache, render, chunk_rows, ci, j, view.rows)
            &&& chunks_fit(cache, render, chunk_rows) ==> rows_rise(view.rows)
            &&& forall|c: u32| #[trigger]
                view.missing.contains(ChunkIndex(c)) <==> {
                    &&& c < chunk_count
                    &&& cache.chunk(render, ChunkIndex(c)) is None
                    &&& view.first_row / chunk_rows <= c <= view.last_row / chunk_rows
                }
            &&& forall|j: int, k: int|
                0 <= j < k < view.missing.len() ==> (#[trigger] view.missing[j]).0 < (#[trigger] view.missing[k]).0
        }),
{
    let view = diff_of(cache, snapshot, viewer, render, first, last, draft)->0;
    let f = view.first_row as int;
    let l = view.last_row as int;
    let cr = chunk_rows as int;
    let from = f / cr;
    let end = if l / cr <= chunk_count - 1 { l / cr } else { chunk_count - 1 };
    let n = if from <= end { (end - from + 1) as nat } else { 0 };
    assert(0 <= from) by (nonlinear_arith)
        requires
            f >= 0,
            cr > 0,
            from == f / cr,
    ;
    assert(from <= u32::MAX) by (nonlinear_arith)
        requires
            0 <= f <= u32::MAX,
            cr > 0,
            from == f / cr,
    ;
    lemma_cached_rows(cache, snapshot, render, chunk_rows, from, n, f, l, draft);
    lemma_missing(cache, render, from, n);
    assert forall|ci: int, j: int|
        0 <= ci < chunk_count && cache.chunk(render, ChunkIndex(ci as u32)) is Some && 0 <= j < cache.chunk(
            render,
            ChunkIndex(ci as u32),
        )->0.rows.len() && j < chunk_rows && f <= ci * chunk_rows + j <= l implies #[trigger] row_is_shown(
        cache,
        render,
        chunk_rows,
        ci,
        j,
        view.rows,
    ) by {
        assert(f / cr <= ci <= l / cr) by (nonlinear_arith)
            requires
                0 <= f <= ci * cr + j <= l,
                0 <= j < cr,
                0 <= ci,
        ;
        assert(from <= ci < from + n);
    }
}

/// A diff stays without rows while nothing is known of its lines, and there
/// is none without a header.
pub proof fn diffs_need_their_header(
    cache: SpecContentCache,
    snapshot: SpecReviewSnapshot,
    viewer: SpecAuthor,
    render: SpecRenderKey,
    first: u32,
    last: u32,
    draft: Option<SideRange>,
)
    ensures
        diff_of(
            cache,
            snapshot,
            viewer,
            render,
            first,
            last,
            draft,
        ) is Some <==> cache.header(render) is Some,
        ({
            let view = diff_of(cache, snapshot, viewer, render, first, last, draft)->0;
            let header = cache.header(render)->0;
            cache.header(render) is Some ==> {
                &&& view.target == header.target
                &&& view.content == header.content
                &&& view.lang == header.lang
                &&& view.file.repo_id == render.repo_id
                &&& view.file.path == render.path
                &&& view.viewed == viewed_as(
                    snapshot,
                    viewer,
                    render.repo_id,
                    render.path,
                    render.target.viewed_content(),
                )
                &&& !view.collapsed
                &&& !view.original
                &&& header.content is Binary ==> view.rows.len() == 0 && view.missing.len() == 0 && view.first_row
                    == first && view.last_row == last
            }
        }),
{
}

/// All the rows of a render are those of its cached chunks, with the threads
/// that stand on them; without its header there are none.
pub proof fn every_cached_row_is_counted(
    cache: SpecContentCache,
    snapshot: SpecReviewSnapshot,
    render: SpecRenderKey,
    chunk_rows: u32,
    chunk_count: u32,
)
    requires
        cache.header(render) is Some,
        (cache.header(render)->0).content matches SpecRenderContent::Text {
            chunk_rows: r,
            chunk_count: c,
            ..
        } && r
            == chunk_rows && c == chunk_count,
    ensures
        ({
            let rows = every_row(cache, snapshot, render);
            &&& forall|k: int|
                0 <= k < rows.len() ==> row_is_right(
                    cache,
                    snapshot,
                    render,
                    chunk_rows,
                    0,
                    u32::MAX as int,
                    None,
                    #[trigger] rows[k],
                )
            &&& forall|ci: int, j: int|
                0 <= ci < chunk_count && cache.chunk(render, ChunkIndex(ci as u32)) is Some && 0 <= j < cache.chunk(
                    render,
                    ChunkIndex(ci as u32),
                )->0.rows.len() && ci * chunk_rows + j <= u32::MAX ==> #[trigger] row_is_shown(
                    cache,
                    render,
                    chunk_rows,
                    ci,
                    j,
                    rows,
                )
        }),
{
    lemma_cached_rows(cache, snapshot, render, chunk_rows, 0, chunk_count as nat, 0, u32::MAX as int, None);
    let rows = every_row(cache, snapshot, render);
    assert forall|ci: int, j: int|
        0 <= ci < chunk_count && cache.chunk(render, ChunkIndex(ci as u32)) is Some && 0 <= j < cache.chunk(
            render,
            ChunkIndex(ci as u32),
        )->0.rows.len() && ci * chunk_rows + j <= u32::MAX implies #[trigger] row_is_shown(
        cache,
        render,
        chunk_rows,
        ci,
        j,
        rows,
    ) by {
        assert(0 <= ci * chunk_rows) by (nonlinear_arith)
            requires
                0 <= ci,
                0 <= chunk_rows,
        ;
    }
}

/// A step is the commit it is made of: who wrote it and when, and who
/// committed it and when.
pub proof fn steps_are_their_commits(c: SpecCommitInfo)
    ensures
        c.step().oid == c.oid,
        c.step().parents == c.parents,
        c.step().subject == c.subject,
        c.step().body == c.body,
        c.step().author == c.author.name,
        c.step().time == c.author.time,
        c.step().committer == c.committer.name,
        c.step().committer_time == c.committer.time,
{
}

/// A stepper has a row for all of the changes, one for each commit, and one
/// for the working tree where there is one.
pub proof fn steppers_have_a_row_for_each_step(stepper: SpecCommitStepper)
    ensures
        stepper.has_worktree ==> stepper.row_count() == stepper.commits.len() + 2,
        !stepper.has_worktree ==> stepper.row_count() == stepper.commits.len() + 1,
{
}

/// The root of the thread at `t` is anchored to the whole of the file, at a
/// blob that the render shows.
pub open spec fn thread_is_on_file(
    snapshot: SpecReviewSnapshot,
    render: SpecRenderKey,
    t: int,
    id: ThreadId,
) -> bool {
    &&& 0 <= t < snapshot.threads.len()
    &&& snapshot.threads[t].id == id
    &&& exists|r: int| #[trigger]
        named_comment(snapshot.comments, snapshot.threads[t].root, r) && match snapshot.comments[r].state {
            SpecCommentState::Live => anchor_is_on_file(snapshot.comments[r].anchor, render),
            SpecCommentState::Outdated { last_good_anchor } => anchor_is_on_file(last_good_anchor, render),
            SpecCommentState::Deleted => false,
        }
}

pub open spec fn anchor_is_on_file(anchor: SpecAnchor, render: SpecRenderKey) -> bool {
    match anchor {
        SpecAnchor::File { repo_id, path, blob_oid } => repo_id == render.repo_id && path == render.path && (
        shows_blob(render.target, Side::Base, blob_oid) || shows_blob(render.target, Side::Head, blob_oid)),
        _ => false,
    }
}

/// The threads above the rows are exactly those anchored to the whole file.
pub proof fn file_threads_are_anchored_to_the_file(
    cache: SpecContentCache,
    snapshot: SpecReviewSnapshot,
    viewer: SpecAuthor,
    render: SpecRenderKey,
    first: u32,
    last: u32,
    draft: Option<SideRange>,
    id: ThreadId,
)
    requires
        cache.header(render) is Some,
    ensures
        diff_of(
            cache,
            snapshot,
            viewer,
            render,
            first,
            last,
            draft,
        )->0.file_threads.contains(id) <==> exists|t: int|
            #[trigger] thread_is_on_file(snapshot, render, t, id),
{
    let f = |t: SpecThread| placement(snapshot, t, render);
    let placed = placements_on(snapshot, render);
    let g = on_whole_file();
    data::lemma_images_has(placed, g, id);
    assert forall|t: int| 0 <= t < snapshot.threads.len() implies (#[trigger] thread_is_on_file(
        snapshot,
        render,
        t,
        id,
    ) <==> placement(snapshot, snapshot.threads[t], render) == Some(Placement { thread: id, lines: None })) by {
        let th = snapshot.threads[t];
        lemma_comment(snapshot, th.root);
        if let Some(c) = snapshot.comment(th.root) {
            let r = choose|r: int| #[trigger] named_comment(snapshot.comments, th.root, r) && c == snapshot.comments[r];
            assert(named_comment(snapshot.comments, th.root, r));
        }
    }
    if placed.filter_map(g).contains(id) {
        let i = choose|i: int| 0 <= i < placed.len() && g(#[trigger] placed[i]) == Some(id);
        assert(placed.contains(placed[i]));
        data::lemma_images_has(snapshot.threads, f, placed[i]);
        let t = choose|t: int| 0 <= t < snapshot.threads.len() && f(
            #[trigger] snapshot.threads[t],
        ) == Some(placed[i]);
        assert(thread_is_on_file(snapshot, render, t, id));
    }
    if exists|t: int| #[trigger] thread_is_on_file(snapshot, render, t, id) {
        let t = choose|t: int| #[trigger] thread_is_on_file(snapshot, render, t, id);
        let p = Placement { thread: id, lines: None };
        assert(f(snapshot.threads[t]) == Some(p));
        data::lemma_images_has(snapshot.threads, f, p);
        let i = choose|i: int| 0 <= i < placed.len() && placed[i] == p;
        assert(g(placed[i]) == Some(id));
    }
}

// ---- viewed files ---------------------------------------------------------

/// The mark at `i` is the first of `human` on that file.
pub open spec fn first_mark(
    viewed: Seq<SpecViewedMark>,
    repo_id: RepoId,
    path: SpecRepoPath,
    human: SpecHuman,
    i: int,
) -> bool {
    &&& 0 <= i < viewed.len()
    &&& viewed[i].repo_id == repo_id && viewed[i].path == path && viewed[i].viewer == human
    &&& forall|j: int|
        0 <= j < i ==> !((#[trigger] viewed[j]).repo_id == repo_id && viewed[j].path == path && viewed[j].viewer
            == human)
}

/// A file is viewed for a person only while their mark is of the very content
/// it has; a mark of other content says that it changed since. Without a mark
/// of theirs it is not viewed, and for an agent none ever is.
pub proof fn files_are_viewed_as_they_were_marked(
    snapshot: SpecReviewSnapshot,
    viewer: SpecAuthor,
    repo_id: RepoId,
    path: SpecRepoPath,
    content: ViewedContent,
)
    ensures
        viewer is Agent ==> viewed_as(snapshot, viewer, repo_id, path, content) is Unviewed,
        viewer matches SpecAuthor::Human { human } ==> {
            let state = viewed_as(snapshot, viewer, repo_id, path, content);
            &&& state is Viewed <==> exists|i: int| #[trigger]
                first_mark(snapshot.viewed, repo_id, path, human, i) && snapshot.viewed[i].content == content
            &&& state is ChangedSinceViewed <==> exists|i: int| #[trigger]
                first_mark(snapshot.viewed, repo_id, path, human, i) && snapshot.viewed[i].content != content
            &&& state is Unviewed <==> forall|i: int|
                0 <= i < snapshot.viewed.len() ==> !((#[trigger] snapshot.viewed[i]).repo_id == repo_id
                    && snapshot.viewed[i].path == path && snapshot.viewed[i].viewer == human)
        },
{
    if let SpecAuthor::Human { human } = viewer {
        let p = mark_of(repo_id, path, human);
        let all = snapshot.viewed;
        data::lemma_first_where(all, p);
        match data::first_where(all, p) {
            Some(i) => {
                assert(p(all[i]));
                assert forall|j: int| 0 <= j < i implies !((#[trigger] all[j]).repo_id == repo_id && all[j].path == path
                    && all[j].viewer == human) by {
                    assert(!p(all[j]));
                }
                assert(first_mark(all, repo_id, path, human, i));
                assert forall|k: int| #[trigger] first_mark(all, repo_id, path, human, k) implies k == i by {
                    if k < i {
                        assert(!p(all[k]));
                    }
                    if i < k {
                        assert(!(all[i].repo_id == repo_id && all[i].path == path && all[i].viewer == human));
                    }
                }
            },
            None => {
                assert forall|k: int| 0 <= k < all.len() implies !((#[trigger] all[k]).repo_id == repo_id && all[k].path
                    == path && all[k].viewer == human) by {
                    assert(!p(all[k]));
                }
            },
        }
    }
}

/// What marks are held against: the blob a file has at head, or that it is
/// gone.
pub proof fn files_are_viewed_at_their_head(target: SpecRenderTarget)
    ensures
        target.viewed_content() == (match target {
            SpecRenderTarget::Blob { oid } => ViewedContent::Blob { oid },
            SpecRenderTarget::Diff { change: SpecChangeKind::Added { new } } => ViewedContent::Blob { oid: new },
            SpecRenderTarget::Diff { change: SpecChangeKind::Modified { new, .. } } => ViewedContent::Blob { oid: new },
            SpecRenderTarget::Diff { change: SpecChangeKind::Renamed { new, .. } } => ViewedContent::Blob { oid: new },
            SpecRenderTarget::Diff { change: SpecChangeKind::Deleted { .. } } => ViewedContent::Gone,
        }),
{
}

// ---- threads --------------------------------------------------------------

/// The place an anchor names.
pub open spec fn names_place(anchor: SpecAnchor, place: SpecThreadPlace) -> bool {
    match (anchor, place) {
        (SpecAnchor::Review, SpecThreadPlace::Review) => true,
        (
            SpecAnchor::File { repo_id, path, .. },
            SpecThreadPlace::File { file },
        ) => file.repo_id == repo_id && file.path
            == path,
        (
            SpecAnchor::Lines { repo_id, path, side, lines, .. },
            SpecThreadPlace::Lines { file, side: on, start, end },
        ) => file.repo_id == repo_id && file.path == path && on == side && start == lines.start && end == lines.end,
        _ => false,
    }
}

/// `v` shows the thread `t` with the root comment `c`.
pub open spec fn shows_thread(
    snapshot: SpecReviewSnapshot,
    pending: SpecPendingIds,
    t: SpecThread,
    c: SpecComment,
    v: SpecThreadView,
) -> bool {
    &&& v.id == t.id
    &&& v.root == t.root
    &&& v.author == c.author
    &&& v.created == c.created
    &&& v.context == c.context
    &&& v.suggestion == (c.kind is Suggestion)
    &&& t.replies.len() <= u32::MAX ==> v.replies == t.replies.len()
    &&& v.status is Open <==> t.resolution is Open
    &&& v.status is Resolved <==> t.resolution is Resolved
    &&& v.status is Informational <==> t.resolution is Informational
    &&& v.outdated == (c.state is Outdated)
    &&& c.state is Live ==> names_place(c.anchor, v.place)
    &&& c.state matches SpecCommentState::Outdated { last_good_anchor } ==> names_place(last_good_anchor, v.place)
    &&& v.pending <==> pending.threads.contains(t.id) || pending.comments.contains(t.root) || exists|i: int|
        0 <= i < t.replies.len() && pending.comments.contains(#[trigger] t.replies[i])
    &&& v.summary.is_prefix_of(c.body)
    &&& forall|i: int| 0 <= i < v.summary.len() ==> #[trigger] v.summary[i] != '\n'
    &&& v.summary.len() < c.body.len() ==> c.body[v.summary.len() as int] == '\n' || (c.body[v.summary.len() as int]
        == '\r' && v.summary.len() + 1 < c.body.len() && c.body[v.summary.len() as int + 1] == '\n')
}

/// A thread is shown exactly while its root is there and not deleted, as what
/// it is: where its root is anchored or last was, by its author, under the
/// first line of its text, in its state.
pub proof fn threads_are_shown_as_they_are(
    snapshot: SpecReviewSnapshot,
    t: SpecThread,
    pending: SpecPendingIds,
)
    ensures
        thread_view(snapshot, t, pending) is Some <==> exists|r: int| #[trigger]
            named_comment(snapshot.comments, t.root, r) && !(snapshot.comments[r].state is Deleted),
        thread_view(snapshot, t, pending) matches Some(v) ==> forall|r: int| #[trigger]
            named_comment(snapshot.comments, t.root, r) ==> shows_thread(
                snapshot,
                pending,
                t,
                snapshot.comments[r],
                v,
            ),
{
    lemma_comment(snapshot, t.root);
    if let Some(c) = snapshot.comment(t.root) {
        let r = choose|r: int| #[trigger] named_comment(snapshot.comments, t.root, r) && c == snapshot.comments[r];
        assert(named_comment(snapshot.comments, t.root, r));
        if let Some(v) = thread_view(snapshot, t, pending) {
            text::lemma_first_line(c.body);
            let ids = t.comment_ids();
            let p = |id: CommentId| ids.contains(id);
            assert(ids[0] == t.root);
            assert forall|i: int| 0 <= i < t.replies.len() implies ids[i + 1] == #[trigger] t.replies[i] by {}
            assert(v.pending == (data::some_where(pending.comments, p) || pending.threads.contains(t.id)));
            if data::some_where(pending.comments, p) {
                let k = choose|k: int| 0 <= k < pending.comments.len() && #[trigger] p(pending.comments[k]);
                let i = choose|i: int| 0 <= i < ids.len() && ids[i] == pending.comments[k];
                if i > 0 {
                    assert(t.replies[i - 1] == ids[i]);
                    assert(pending.comments.contains(t.replies[i - 1]));
                }
            }
            if pending.comments.contains(t.root) {
                let k = choose|k: int| 0 <= k < pending.comments.len() && pending.comments[k] == t.root;
                assert(p(pending.comments[k]));
            }
            if exists|i: int| 0 <= i < t.replies.len() && pending.comments.contains(#[trigger] t.replies[i]) {
                let i = choose|i: int| 0 <= i < t.replies.len() && pending.comments.contains(#[trigger] t.replies[i]);
                let k = choose|k: int| 0 <= k < pending.comments.len() && pending.comments[k] == t.replies[i];
                assert(ids[i + 1] == pending.comments[k]);
                assert(p(pending.comments[k]));
            }
            assert(shows_thread(snapshot, pending, t, c, v));
        }
    }
}

/// The id of comment `k` of a thread: its root, then its replies.
pub open spec fn thread_comment(t: SpecThread, k: int) -> CommentId {
    if k == 0 {
        t.root
    } else {
        t.replies[k - 1]
    }
}

/// `v` shows the comment `c`.
pub open spec fn shows_comment(v: SpecCommentView, c: SpecComment, pending: SpecPendingIds) -> bool {
    &&& v.id == c.id
    &&& v.author == c.author
    &&& v.created == c.created
    &&& v.body == c.body
    &&& v.pending == pending.comments.contains(c.id)
}

/// The snapshot has the comment, and it is not deleted.
pub open spec fn comment_stands(comments: Seq<SpecComment>, id: CommentId) -> bool {
    exists|r: int| #[trigger] named_comment(comments, id, r) && !(comments[r].state is Deleted)
}

/// The comments of a thread are shown in order, root first, each with its own
/// text, author and time; those deleted or missing are left out, and no
/// others.
pub proof fn threads_show_their_comments_in_order(
    snapshot: SpecReviewSnapshot,
    t: SpecThread,
    pending: SpecPendingIds,
) -> (at: Seq<int>)
    requires
        thread_view(snapshot, t, pending) is Some,
    ensures
        data::rising(at, t.replies.len() + 1),
        at.len() == thread_view(snapshot, t, pending)->0.comments.len(),
        forall|k: int, r: int|
            0 <= k < at.len() && #[trigger] named_comment(
                snapshot.comments,
                thread_comment(t, #[trigger] at[k]),
                r,
            )
                ==> shows_comment(
                thread_view(snapshot, t, pending)->0.comments[k],
                snapshot.comments[r],
                pending,
            ),
        forall|k: int|
            0 <= k <= t.replies.len() ==> (at.contains(k) <==> comment_stands(
                snapshot.comments,
                #[trigger] thread_comment(t, k),
            )),
{
    let ids = t.comment_ids();
    let f = |id: CommentId| shown_comment(snapshot, pending, id);
    let at = data::lemma_images(ids, f);
    let comments = thread_view(snapshot, t, pending)->0.comments;
    assert(comments == ids.filter_map(f));
    assert forall|k: int| 0 <= k <= t.replies.len() implies ids[k] == #[trigger] thread_comment(t, k) by {}
    assert forall|k: int, r: int|
        0 <= k < at.len() && #[trigger] named_comment(
            snapshot.comments,
            thread_comment(t, #[trigger] at[k]),
            r,
        ) implies shows_comment(comments[k], snapshot.comments[r], pending) by {
        lemma_comment(snapshot, ids[at[k]]);
        assert(f(ids[at[k]]) == Some(comments[k]));
    }
    assert forall|k: int| 0 <= k <= t.replies.len() implies (at.contains(k) <==> comment_stands(
        snapshot.comments,
        #[trigger] thread_comment(t, k),
    )) by {
        lemma_comment(snapshot, ids[k]);
        if at.contains(k) {
            let i = choose|i: int| 0 <= i < at.len() && at[i] == k;
            assert(f(ids[at[i]]) == Some(comments[i]));
        }
        if comment_stands(snapshot.comments, ids[k]) {
            let r = choose|r: int| #[trigger]
                named_comment(snapshot.comments, ids[k], r) && !(snapshot.comments[r].state is Deleted);
            assert(f(ids[k]) is Some);
        }
    }
    at
}

/// The list holds every thread that is shown, oldest first.
pub proof fn threads_are_listed_oldest_first(snapshot: SpecReviewSnapshot, pending: SpecPendingIds)
    ensures
        forall|i: int, j: int|
            0 <= i < j < thread_views(snapshot, pending).len() ==> (#[trigger] thread_views(
                snapshot,
                pending,
            )[i]).created.0 <= (#[trigger] thread_views(snapshot, pending)[j]).created.0,
        forall|v: SpecThreadView| #[trigger]
            thread_views(snapshot, pending).contains(v) <==> exists|t: int|
                0 <= t < snapshot.threads.len() && thread_view(
                    snapshot,
                    #[trigger] snapshot.threads[t],
                    pending,
                )
                    == Some(v),
{
    let f = |t: SpecThread| thread_view(snapshot, t, pending);
    let all = snapshot.threads.filter_map(f);
    let le = created_order();
    data::lemma_sorted(all, le);
    let views = thread_views(snapshot, pending);
    assert forall|i: int, j: int| 0 <= i < j < views.len() implies (#[trigger] views[i]).created.0 <= (
    #[trigger] views[j]).created.0 by {
        assert(le(views[i], views[j]));
    }
    assert forall|v: SpecThreadView| #[trigger] views.contains(v) <==> exists|t: int|
        0 <= t < snapshot.threads.len() && thread_view(snapshot, #[trigger] snapshot.threads[t], pending) == Some(v) by {
        data::lemma_sorted_has(all, le, v);
        data::lemma_images_has(snapshot.threads, f, v);
        if views.contains(v) {
            let t = choose|t: int| 0 <= t < snapshot.threads.len() && f(
                #[trigger] snapshot.threads[t],
            ) == Some(v);
            assert(thread_view(snapshot, snapshot.threads[t], pending) == Some(v));
        }
        if exists|t: int|
            0 <= t < snapshot.threads.len() && thread_view(snapshot, #[trigger] snapshot.threads[t], pending) == Some(v) {
            let t = choose|t: int|
                0 <= t < snapshot.threads.len() && thread_view(
                    snapshot,
                    #[trigger] snapshot.threads[t],
                    pending,
                )
                    == Some(v);
            assert(f(snapshot.threads[t]) == Some(v));
        }
    }
}

/// The conversation is the threads on the review itself, in order.
pub proof fn conversations_are_on_the_review(threads: Seq<SpecThreadView>, v: SpecThreadView)
    ensures
        threads.filter(on_review()).contains(v) <==> threads.contains(v) && v.place is Review,
{
    data::lemma_filter_has(threads, on_review(), v);
}

} // verus!
