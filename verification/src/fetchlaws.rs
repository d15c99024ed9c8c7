//! What is cached, asked for and shown of it, said of the entries, requests
//! and files themselves.
use vstd::prelude::*;

use crate::cache::{
    evict, key_is_not, keyed, one_per_key, unpinned, without, Bytes, SpecCacheKey, SpecCacheValue, SpecContentCache,
    SpecEvicted, SpecRenderKey, TreeKey,
};
use crate::client::{SpecClientCore, SpecCoreError};
use crate::content::{
    entry_at, fetch_of, kept_by, not_on_disk, not_wanted, on_disk, path_order, ref_spec_for, trim_disk, untouched_by,
    wanted, SpecContent, SpecDiskEntry, SpecDiskIndex, SpecFetch, SpecFetchState, SpecKeep, SpecOutstanding,
};
use crate::data;
use crate::diff::SpecFileRef;
use crate::explorer::file_of;
use crate::explorerlaws::{first_changed, lemma_first_changed};
use crate::fetching::{needed, target_in, tree_fetches, with_tree};
use crate::flow::{
    request_for, snapshot_otherwise, waiting_for, waits, waits_otherwise, SpecInFlight, SpecSnapshotRequest,
    SpecWaiting, SpecWire,
};
use crate::focus::Focus;
use crate::livelaws::differs_in_flow;
use crate::protocol::{
    ChunkIndex, RepoId, RequestId, ResolvedRef, ResolvedSource, ResolvedTarget, ReviewId, Side, SpecRefSpec,
    SpecRenderTarget, SpecRepoPath, SpecRequest, SpecTreeDelta, SpecTreeEntry, SpecTreeSnapshot, TreeEntryKind,
};
use crate::text;
use crate::view::SpecOpenReview;

verus! {

// ---- the cache ------------------------------------------------------------

proof fn lemma_evict_has(entries: Seq<SpecEvicted>, pinned: Seq<SpecCacheKey>, budget: Bytes, e: SpecEvicted)
    ensures
        entries.contains(e) <==> evict(entries, pinned, budget).0.contains(e) || evict(
            entries,
            pinned,
            budget,
        ).1.contains(e),
        entries.contains(e) && pinned.contains(e.key) ==> evict(entries, pinned, budget).0.contains(e),
    decreases entries.len(),
{
    if crate::cache::total(entries) <= budget.0 {
    } else {
        let p = unpinned(pinned);
        data::lemma_first_where(entries, p);
        if let Some(i) = data::first_where(entries, p) {
            let rest = entries.remove(i);
            lemma_evict_has(rest, pinned, budget, e);
            let (kept, gone) = evict(rest, pinned, budget);
            assert(p(entries[i]));
            vstd::seq_lib::lemma_seq_concat_contains_all_elements(seq![entries[i]], gone, e);
            assert(seq![entries[i]].contains(e) <==> entries[i] == e) by {
                if entries[i] == e {
                    assert(seq![entries[i]][0] == e);
                }
            }
            if entries.contains(e) {
                let k = choose|k: int| 0 <= k < entries.len() && entries[k] == e;
                if k < i {
                    assert(rest[k] == e);
                } else if k > i {
                    assert(rest[k - 1] == e);
                }
            }
            if rest.contains(e) {
                let k = choose|k: int| 0 <= k < rest.len() && rest[k] == e;
                assert(entries[if k < i { k } else { k + 1 }] == e);
            }
        }
    }
}

proof fn lemma_without_has(entries: Seq<SpecEvicted>, key: SpecCacheKey, e: SpecEvicted)
    requires
        one_per_key(entries),
    ensures
        without(entries, key).contains(e) <==> entries.contains(e) && e.key != key,
{
    let p = keyed(key);
    data::lemma_first_where(entries, p);
    match data::first_where(entries, p) {
        Some(i) => {
            assert(p(entries[i]));
            let rest = entries.remove(i);
            if rest.contains(e) {
                let k = choose|k: int| 0 <= k < rest.len() && rest[k] == e;
                let m = if k < i { k } else { k + 1 };
                assert(entries[m] == e);
                assert(entries[m].key != entries[i].key);
            }
            if entries.contains(e) && e.key != key {
                let k = choose|k: int| 0 <= k < entries.len() && entries[k] == e;
                assert(rest[if k < i { k } else { k - 1 }] == e);
            }
        },
        None => {
            if entries.contains(e) {
                let k = choose|k: int| 0 <= k < entries.len() && entries[k] == e;
                assert(!p(entries[k]));
            }
        },
    }
}

/// What is found under a key is the entry that has it.
pub proof fn entries_are_found_by_their_key(cache: SpecContentCache, e: SpecEvicted)
    requires
        one_per_key(cache.entries),
    ensures
        cache.entry(e.key) == Some(e) <==> cache.entries.contains(e),
        cache.entries.contains(e) ==> cache.peek(e.key) == Some(e.value) && cache.contains(e.key),
        cache.contains(e.key) <==> exists|i: int|
            0 <= i < cache.entries.len() && (#[trigger] cache.entries[i]).key == e.key,
{
    let p = keyed(e.key);
    data::lemma_first_where(cache.entries, p);
    match data::first_where(cache.entries, p) {
        Some(i) => {
            assert(p(cache.entries[i]));
            if cache.entries.contains(e) {
                let k = choose|k: int| 0 <= k < cache.entries.len() && cache.entries[k] == e;
                if k != i {
                    assert(cache.entries[k].key != cache.entries[i].key);
                }
            }
        },
        None => {
            assert forall|i: int| 0 <= i < cache.entries.len() implies (#[trigger] cache.entries[i]).key != e.key by {
                assert(!p(cache.entries[i]));
            }
        },
    }
}

/// What is inserted replaces what was under its key. It and every other entry
/// stays or is handed back, none is lost, nothing else comes; what is pinned
/// stays.
pub proof fn insertions_replace_and_lose_nothing(
    cache: SpecContentCache,
    key: SpecCacheKey,
    value: SpecCacheValue,
    size: Bytes,
    e: SpecEvicted,
)
    requires
        one_per_key(cache.entries),
    ensures
        ({
            let (out, gone) = cache.inserted(key, value, size);
            let new = SpecEvicted { key, value, size };
            &&& out.entries.contains(e) || gone.contains(e) <==> e == new || (cache.entries.contains(e) && e.key
                != key)
            &&& cache.pinned.contains(e.key) && (e == new || (cache.entries.contains(e) && e.key != key))
                ==> out.entries.contains(e)
            &&& out.pinned == cache.pinned
            &&& out.budget == cache.budget
        }),
{
    let new = SpecEvicted { key, value, size };
    let rest = without(cache.entries, key);
    lemma_without_has(cache.entries, key, e);
    vstd::seq_lib::lemma_seq_contains_after_push(rest, new, e);
    lemma_evict_has(rest.push(new), cache.pinned, cache.budget, e);
}

/// A use makes the entry the most recently used and changes nothing else;
/// without the entry nothing changes.
pub proof fn uses_make_the_entry_the_latest(cache: SpecContentCache, key: SpecCacheKey, e: SpecEvicted)
    requires
        one_per_key(cache.entries),
    ensures
        cache.touched(key).entries.contains(e) <==> cache.entries.contains(e),
        cache.touched(key).entries.len() == cache.entries.len(),
        cache.contains(key) ==> cache.touched(key).entries.last().key == key,
        !cache.contains(key) ==> cache.touched(key) == cache,
        cache.touched(key).pinned == cache.pinned,
        cache.touched(key).budget == cache.budget,
{
    let p = keyed(key);
    data::lemma_first_where(cache.entries, p);
    lemma_without_has(cache.entries, key, e);
    if let Some(i) = data::first_where(cache.entries, p) {
        assert(p(cache.entries[i]));
        let x = cache.entries[i];
        vstd::seq_lib::lemma_seq_contains_after_push(without(cache.entries, key), x, e);
        if cache.entries.contains(e) && e.key == key {
            let k = choose|k: int| 0 <= k < cache.entries.len() && cache.entries[k] == e;
            if k != i {
                assert(cache.entries[k].key != cache.entries[i].key);
            }
        }
    }
}

/// What is removed is gone with its pin; every other entry and pin stays.
pub proof fn removals_take_one_entry(
    cache: SpecContentCache,
    key: SpecCacheKey,
    e: SpecEvicted,
    k: SpecCacheKey,
)
    requires
        one_per_key(cache.entries),
    ensures
        cache.removed(key).entries.contains(e) <==> cache.entries.contains(e) && e.key != key,
        cache.contains(key) ==> (cache.removed(key).pinned.contains(k) <==> cache.pinned.contains(k) && k != key),
        !cache.contains(key) ==> cache.removed(key) == cache,
{
    lemma_without_has(cache.entries, key, e);
    data::lemma_filter_has(cache.pinned, key_is_not(key), k);
    if !cache.contains(key) && cache.entries.contains(e) && e.key == key {
        entries_are_found_by_their_key(cache, e);
    }
}

/// Pinning holds the key as well, releasing it lets only that one go; the
/// entries stay.
pub proof fn pins_hold_their_key(cache: SpecContentCache, key: SpecCacheKey, k: SpecCacheKey)
    ensures
        cache.with_pin(key).pinned.contains(k) <==> cache.pinned.contains(k) || k == key,
        cache.without_pin(key).pinned.contains(k) <==> cache.pinned.contains(k) && k != key,
        cache.with_pin(key).entries == cache.entries,
        cache.without_pin(key).entries == cache.entries,
        cache.with_pin(key).budget == cache.budget,
{
    vstd::seq_lib::lemma_seq_contains_after_push(cache.pinned, key, k);
    data::lemma_filter_has(cache.pinned, key_is_not(key), k);
}

/// Keeping only some pins lets the others go; an entry leaves only if no pin
/// that is kept holds it, and none is lost.
pub proof fn kept_pins_hold_their_entries(
    cache: SpecContentCache,
    keep: spec_fn(SpecCacheKey) -> bool,
    k: SpecCacheKey,
    e: SpecEvicted,
)
    ensures
        ({
            let (out, gone) = cache.with_pins_kept(keep);
            &&& out.pinned.contains(k) <==> cache.pinned.contains(k) && keep(k)
            &&& cache.entries.contains(e) <==> out.entries.contains(e) || gone.contains(e)
            &&& cache.entries.contains(e) && cache.pinned.contains(e.key) && keep(e.key) ==> out.entries.contains(e)
        }),
{
    data::lemma_filter_has(cache.pinned, keep, k);
    data::lemma_filter_has(cache.pinned, keep, e.key);
    lemma_evict_has(cache.entries, cache.pinned.filter(keep), cache.budget, e);
}

/// Trees, headers and chunks are found only under keys of their own kind.
pub proof fn values_are_found_by_their_kind(
    cache: SpecContentCache,
    render: SpecRenderKey,
    index: ChunkIndex,
    tree: TreeKey,
)
    ensures
        cache.header(render) matches Some(h) ==> cache.peek(SpecCacheKey::Header { render }) == Some(
            SpecCacheValue::Header { header: h },
        ),
        cache.peek(SpecCacheKey::Header { render }) is None ==> cache.header(render) is None,
        forall|h: crate::protocol::SpecFileRenderHeader|
            cache.peek(SpecCacheKey::Header { render }) == Some(SpecCacheValue::Header { header: h })
                ==> #[trigger] cache.header(render) == Some(h),
        cache.chunk(render, index) matches Some(c) ==> cache.peek(SpecCacheKey::Chunk { render, index }) == Some(
            SpecCacheValue::Chunk { chunk: c },
        ),
        cache.peek(SpecCacheKey::Chunk { render, index }) is None ==> cache.chunk(render, index) is None,
        forall|c: crate::protocol::SpecRenderChunk|
            cache.peek(SpecCacheKey::Chunk { render, index }) == Some(SpecCacheValue::Chunk { chunk: c })
                ==> #[trigger] cache.chunk(render, index) == Some(c),
        cache.tree(tree) matches Some(s) ==> cache.peek(SpecCacheKey::Tree { tree }) == Some(
            SpecCacheValue::Tree { snapshot: s },
        ),
        cache.peek(SpecCacheKey::Tree { tree }) is None ==> cache.tree(tree) is None,
{
}

/// A value fits its key if it is what the key names.
pub proof fn values_fit_the_key_that_names_them(value: SpecCacheValue, key: SpecCacheKey)
    ensures
        value.matches(key) <==> match (value, key) {
            (
                SpecCacheValue::Tree { snapshot },
                SpecCacheKey::Tree { tree },
            ) => snapshot.repo_id == tree.repo_id
                && snapshot.root_oid == tree.root,
            (
                SpecCacheValue::Header { header },
                SpecCacheKey::Header { render },
            ) => header.repo_id == render.repo_id
                && header.path == render.path && header.target == render.target && header.opts == render.opts,
            (SpecCacheValue::Chunk { chunk }, SpecCacheKey::Chunk { index, .. }) => chunk.index == index,
            _ => false,
        },
{
}

// ---- the disk -------------------------------------------------------------

proof fn lemma_trim_has(entries: Seq<SpecDiskEntry>, budget: Bytes, e: SpecDiskEntry)
    ensures
        trim_disk(entries, budget).0.contains(e) ==> entries.contains(e),
        entries.contains(e) ==> trim_disk(entries, budget).0.contains(e) || trim_disk(entries, budget).1.contains(
            e.key,
        ),
        entries.len() > 0 ==> trim_disk(entries, budget).0.len() > 0 && trim_disk(entries, budget).0.last()
            == entries.last(),
    decreases entries.len(),
{
    if crate::content::disk_total(entries) <= budget.0 || entries.len() <= 1 {
    } else {
        let rest = entries.drop_first();
        lemma_trim_has(rest, budget, e);
        let gone = trim_disk(rest, budget).1;
        vstd::seq_lib::lemma_seq_concat_contains_all_elements(seq![entries[0].key], gone, e.key);
        assert(seq![entries[0].key][0] == entries[0].key);
        if entries.contains(e) {
            let k = choose|k: int| 0 <= k < entries.len() && entries[k] == e;
            if k > 0 {
                assert(rest[k - 1] == e);
            } else {
                assert(seq![entries[0].key].contains(e.key));
            }
        }
        if rest.contains(e) {
            let k = choose|k: int| 0 <= k < rest.len() && rest[k] == e;
            assert(entries[k + 1] == e);
        }
    }
}

/// A use on disk makes the key the latest with its size; another entry stays
/// or its key is handed back to be removed.
pub proof fn disk_uses_make_the_key_the_latest(
    disk: SpecDiskIndex,
    key: SpecCacheKey,
    size: Bytes,
    e: SpecDiskEntry,
)
    ensures
        ({
            let (out, gone) = disk.touched(key, size);
            &&& out.entries.len() > 0
            &&& out.entries.last() == (SpecDiskEntry { key, size })
            &&& out.entries.contains(e) ==> e == (SpecDiskEntry { key, size }) || (disk.entries.contains(e) && e.key
                != key)
            &&& disk.entries.contains(e) && e.key != key ==> out.entries.contains(e) || gone.contains(e.key)
            &&& out.budget == disk.budget
        }),
        disk.forgot(key).entries.contains(e) <==> disk.entries.contains(e) && e.key != key,
        disk.forgot(key).budget == disk.budget,
        disk.knows(key) <==> exists|i: int| 0 <= i < disk.entries.len() && (#[trigger] disk.entries[i]).key == key,
{
    let rest = disk.entries.filter(not_on_disk(key));
    let new = SpecDiskEntry { key, size };
    data::lemma_filter_has(disk.entries, not_on_disk(key), e);
    vstd::seq_lib::lemma_seq_contains_after_push(rest, new, e);
    lemma_trim_has(rest.push(new), disk.budget, e);
    let p = on_disk(key);
    if disk.knows(key) {
        let i = choose|i: int| 0 <= i < disk.entries.len() && #[trigger] p(disk.entries[i]);
        assert(disk.entries[i].key == key);
    }
    if exists|i: int| 0 <= i < disk.entries.len() && (#[trigger] disk.entries[i]).key == key {
        let i = choose|i: int| 0 <= i < disk.entries.len() && (#[trigger] disk.entries[i]).key == key;
        assert(p(disk.entries[i]));
    }
}

// ---- what is wanted -------------------------------------------------------

/// A key is outstanding from when it is noted until it is forgotten; the
/// others are not affected.
pub proof fn keys_are_outstanding_until_forgotten(
    content: SpecContent,
    key: SpecCacheKey,
    state: SpecFetchState,
    o: SpecOutstanding,
)
    ensures
        content.noted(key, state).pending.contains(o) <==> o == (SpecOutstanding { key, state }) || (
        content.pending.contains(o) && o.key != key),
        content.forgot(key).pending.contains(o) <==> content.pending.contains(o) && o.key != key,
        content.outstanding(key) <==> exists|i: int|
            0 <= i < content.pending.len() && (#[trigger] content.pending[i]).key == key,
        content.noted(key, state).queue == content.queue,
        content.noted(key, state).cache == content.cache,
        content.forgot(key).queue == content.queue,
        content.forgot(key).cache == content.cache,
{
    data::lemma_filter_has(content.pending, not_wanted(key), o);
    vstd::seq_lib::lemma_seq_contains_after_push(
        content.pending.filter(not_wanted(key)),
        SpecOutstanding { key, state },
        o,
    );
    let p = wanted(key);
    if content.outstanding(key) {
        let i = choose|i: int| 0 <= i < content.pending.len() && #[trigger] p(content.pending[i]);
        assert(content.pending[i].key == key);
    }
    if exists|i: int| 0 <= i < content.pending.len() && (#[trigger] content.pending[i]).key == key {
        let i = choose|i: int| 0 <= i < content.pending.len() && (#[trigger] content.pending[i]).key == key;
        assert(p(content.pending[i]));
    }
}

/// Of the queue only what is kept stays: nothing, everything but chunks, or
/// the chunks of one window and everything that is no chunk. What is in
/// memory stays.
pub proof fn queues_keep_what_is_still_wanted(content: SpecContent, keep: SpecKeep, f: SpecFetch)
    ensures
        content.pruned(keep).queue.contains(f) <==> content.queue.contains(f) && match keep {
            SpecKeep::Nothing => false,
            SpecKeep::NoChunks => !(f is Chunk),
            SpecKeep::Window { render, window } => f matches SpecFetch::Chunk { render: r, index } ==> (r == render
                && window is Some && (window->0).first <= index.0 <= (window->0).last),
        },
        content.pruned(keep).cache == content.cache,
        content.pruned(keep).in_flight == content.in_flight,
{
    data::lemma_filter_has(content.queue, kept_by(keep), f);
}

/// A fetch fills the key of what it asks for, and waits for just that.
pub proof fn fetches_fill_what_they_ask_for(fetch: SpecFetch)
    ensures
        fetch matches SpecFetch::Tree { repo_id, root, .. } ==> fetch.key() == (SpecCacheKey::Tree {
            tree: TreeKey { repo_id, root },
        }),
        fetch matches SpecFetch::Render { render, .. } ==> fetch.key() == (SpecCacheKey::Header { render }),
        fetch matches SpecFetch::Chunk { render, index } ==> fetch.key() == (SpecCacheKey::Chunk { render, index }),
        waiting_for(fetch).key() == Some(fetch.key()),
        waiting_for(fetch).is_content(),
        fetch matches SpecFetch::Render { stop_after, .. } ==> (waiting_for(fetch) matches SpecInFlight::FileRender {
            stop_after: s,
            ..
        } && s == stop_after),
{
}

/// The daemon is asked for what the fetch names: a tree at its revision, a
/// chunk of a render, the rendering of a blob, of a recorded change, or of a
/// file of the review in the scope that is shown.
pub proof fn the_daemon_is_asked_for_what_is_wanted(open: Option<SpecOpenReview>, fetch: SpecFetch)
    ensures
        match (fetch, request_for(open, fetch)) {
            (
                SpecFetch::Tree { repo_id, ref_spec, .. },
                SpecRequest::TreeSnapshot { repo_id: r, ref_spec: s },
            ) => r
                == repo_id && s == ref_spec,
            (SpecFetch::Chunk { render, index }, SpecRequest::RenderChunk {
                repo_id,
                path,
                target,
                opts,
                index: i,
            }) => repo_id == render.repo_id && path == render.path && target == render.target && opts == render.opts
                && i == index,
            (SpecFetch::Render { render, first_chunk, .. }, SpecRequest::BlobRender {
                repo_id,
                path,
                blob_oid,
                first_chunk: f,
            }) => repo_id == render.repo_id && path == render.path && render.target == (SpecRenderTarget::Blob {
                oid: blob_oid,
            }) && f == first_chunk,
            (SpecFetch::Render { review_id, render, first_chunk, .. }, SpecRequest::ChangeRender {
                repo_id,
                path,
                change,
                opts,
                first_chunk: f,
            }) => {
                &&& repo_id == render.repo_id && path == render.path && opts == render.opts && f == first_chunk
                &&& render.target == (SpecRenderTarget::Diff { change })
                &&& open is Some && (open->0).snapshot.review.id == review_id && (open->0).original == Some(render)
            },
            (SpecFetch::Render { review_id, render, first_chunk, .. }, SpecRequest::FileRender {
                review_id: v,
                repo_id,
                path,
                opts,
                first_chunk: f,
                scope,
            }) => {
                &&& v == review_id
                &&& repo_id == render.repo_id && path == render.path && opts == render.opts && f == first_chunk
                &&& render.target is Diff
                &&& !(open is Some && (open->0).snapshot.review.id == review_id && (open->0).original == Some(
                    render,
                ))
                &&& open is Some && (open->0).snapshot.review.id == review_id ==> scope == (open->0).scope
                &&& !(open is Some && (open->0).snapshot.review.id == review_id) ==> scope is All
            },
            _ => false,
        },
{
}

/// The revision a tree is asked for resolves to it again.
pub proof fn trees_are_asked_for_at_their_revision(r: ResolvedRef)
    ensures
        match r.source {
            ResolvedSource::Commit { oid } => ref_spec_for(r) == (SpecRefSpec::Commit { oid }),
            ResolvedSource::WorkingTree => ref_spec_for(r) is WorkingTree,
        },
{
}

/// A request goes out under an id of its own and waits under it; the others
/// still wait. It is answered once.
pub proof fn requests_wait_for_their_answer(
    wire: SpecWire,
    request: SpecRequest,
    what: SpecInFlight,
    w: SpecWaiting,
    s: SpecSnapshotRequest,
)
    ensures
        ({
            let out = wire.requested(request, what);
            let id = RequestId(wire.next_request);
            &&& out.in_flight.contains(w) <==> w == (SpecWaiting { id, what }) || (wire.in_flight.contains(w) && w.id
                != id)
            &&& wire.next_request < u64::MAX ==> out.next_request == wire.next_request + 1
            &&& out.next_client_seq == wire.next_client_seq
            &&& what is Search ==> out.latest_search == Some(id)
            &&& !(what is Search) ==> out.latest_search == wire.latest_search
            &&& match request {
                SpecRequest::OpenReview { review_id, .. } => out.snapshot_requests.contains(s) <==> s == (
                SpecSnapshotRequest { id, review_id, requests: Seq::empty() }) || (wire.snapshot_requests.contains(s)
                    && s.id != id),
                SpecRequest::ReviewSnapshot { review_id } => out.snapshot_requests.contains(s) <==> s == (
                SpecSnapshotRequest { id, review_id, requests: Seq::empty() }) || (wire.snapshot_requests.contains(s)
                    && s.id != id),
                _ => out.snapshot_requests == wire.snapshot_requests,
            }
        }),
        wire.answered(w.id).in_flight.contains(w) <==> false,
        forall|id: RequestId|
            id != w.id ==> (#[trigger] wire.answered(id).in_flight.contains(w) <==> wire.in_flight.contains(w)),
        wire.waiting(w.id) matches Some(x) ==> exists|i: int|
            0 <= i < wire.in_flight.len() && #[trigger] wire.in_flight[i] == (SpecWaiting { id: w.id, what: x }),
{
    let id = RequestId(wire.next_request);
    data::lemma_filter_has(wire.in_flight, waits_otherwise(id), w);
    vstd::seq_lib::lemma_seq_contains_after_push(
        wire.in_flight.filter(waits_otherwise(id)),
        SpecWaiting { id, what },
        w,
    );
    data::lemma_filter_has(wire.snapshot_requests, snapshot_otherwise(id), s);
    let review_id = match request {
        SpecRequest::OpenReview { review_id, .. } => review_id,
        SpecRequest::ReviewSnapshot { review_id } => review_id,
        _ => ReviewId(0),
    };
    vstd::seq_lib::lemma_seq_contains_after_push(
        wire.snapshot_requests.filter(snapshot_otherwise(id)),
        SpecSnapshotRequest { id, review_id, requests: Seq::empty() },
        s,
    );
    data::lemma_filter_has(wire.in_flight, waits_otherwise(w.id), w);
    assert forall|i: RequestId| i != w.id implies (#[trigger] wire.answered(i).in_flight.contains(w)
        <==> wire.in_flight.contains(w)) by {
        data::lemma_filter_has(wire.in_flight, waits_otherwise(i), w);
    }
    let p = waits(w.id);
    data::lemma_first_where(wire.in_flight, p);
    if let Some(i) = data::first_where(wire.in_flight, p) {
        assert(p(wire.in_flight[i]));
        assert(wire.in_flight[i] == (SpecWaiting { id: w.id, what: wire.in_flight[i].what }));
    }
}

// ---- trees ----------------------------------------------------------------

/// The path is named in the list.
pub open spec fn lists_path(entries: Seq<SpecTreeEntry>, path: SpecRepoPath) -> bool {
    exists|i: int| 0 <= i < entries.len() && (#[trigger] entries[i]).path == path
}

proof fn lemma_lists_path(entries: Seq<SpecTreeEntry>, path: SpecRepoPath)
    ensures
        data::some_where(entries, entry_at(path)) <==> lists_path(entries, path),
{
    let p = entry_at(path);
    if data::some_where(entries, p) {
        let i = choose|i: int| 0 <= i < entries.len() && #[trigger] p(entries[i]);
        assert(entries[i].path == path);
    }
    if lists_path(entries, path) {
        let i = choose|i: int| 0 <= i < entries.len() && (#[trigger] entries[i]).path == path;
        assert(p(entries[i]));
    }
}

/// A delta makes a tree the one under its new root: what it adds or changes
/// is in, what it removes or changes is out, the rest stays.
pub proof fn deltas_make_the_new_tree(tree: SpecTreeSnapshot, delta: SpecTreeDelta, e: SpecTreeEntry)
    ensures
        ({
            let out = tree.after_delta(delta);
            let named = delta.removed.contains(e.path) || lists_path(delta.changed, e.path) || lists_path(
                delta.added,
                e.path,
            );
            &&& out.root_oid == delta.to_root
            &&& out.repo_id == tree.repo_id
            &&& out.entries.contains(e) <==> delta.added.contains(e) || delta.changed.contains(e) || (
            tree.entries.contains(e) && !named)
        }),
{
    let p = untouched_by(delta);
    let rest = tree.entries.filter(p);
    let all = rest + delta.added + delta.changed;
    let le = path_order();
    assert(data::total_order(le)) by {
        assert forall|a: SpecTreeEntry, b: SpecTreeEntry| #[trigger] le(a, b) || le(b, a) by {
            text::lemma_le_total(a.path.text, b.path.text);
        }
        assert forall|a: SpecTreeEntry, b: SpecTreeEntry, c: SpecTreeEntry| #[trigger] le(a, b) && #[trigger] le(
            b,
            c,
        ) implies le(a, c) by {
            text::lemma_le_trans(a.path.text, b.path.text, c.path.text);
        }
    }
    data::lemma_sorted_has(all, le, e);
    data::lemma_filter_has(tree.entries, p, e);
    lemma_lists_path(delta.changed, e.path);
    lemma_lists_path(delta.added, e.path);
    vstd::seq_lib::lemma_seq_concat_contains_all_elements(rest + delta.added, delta.changed, e);
    vstd::seq_lib::lemma_seq_concat_contains_all_elements(rest, delta.added, e);
}

/// The tree of a target's base or head.
pub open spec fn is_tree_of(targets: Seq<ResolvedTarget>, key: SpecCacheKey, i: int) -> bool {
    &&& 0 <= i < targets.len()
    &&& key == (SpecCacheKey::Tree { tree: TreeKey { repo_id: targets[i].repo_id, root: targets[i].base.tree } })
        || key == (SpecCacheKey::Tree { tree: TreeKey { repo_id: targets[i].repo_id, root: targets[i].head.tree } })
}

/// Some fetch fills that key.
pub open spec fn fetches_key(fetches: Seq<SpecFetch>, key: SpecCacheKey) -> bool {
    exists|k: int| 0 <= k < fetches.len() && (#[trigger] fetches[k]).key() == key
}

/// No two fetches fill the same key.
pub open spec fn fetches_once(fetches: Seq<SpecFetch>) -> bool {
    forall|j: int, k: int| 0 <= j < k < fetches.len() ==> (#[trigger] fetches[j]).key() != (#[trigger] fetches[k]).key()
}

proof fn lemma_with_tree(fetches: Seq<SpecFetch>, repo_id: RepoId, r: ResolvedRef, key: SpecCacheKey)
    requires
        fetches_once(fetches),
    ensures
        fetches_once(with_tree(fetches, repo_id, r)),
        fetches_key(with_tree(fetches, repo_id, r), key) <==> fetches_key(fetches, key) || key == (
        SpecCacheKey::Tree { tree: TreeKey { repo_id, root: r.tree } }),
{
    let own = SpecCacheKey::Tree { tree: TreeKey { repo_id, root: r.tree } };
    let p = fetch_of(own);
    let out = with_tree(fetches, repo_id, r);
    if data::some_where(fetches, p) {
        let k = choose|k: int| 0 <= k < fetches.len() && #[trigger] p(fetches[k]);
        assert(fetches[k].key() == own);
    } else {
        let n = fetches.len() as int;
        assert(out[n].key() == own);
        assert forall|j: int, k: int| 0 <= j < k < out.len() implies (#[trigger] out[j]).key() != (
        #[trigger] out[k]).key() by {
            assert(out[j] == fetches[j]);
            if k < n {
                assert(out[k] == fetches[k]);
            } else {
                assert(!p(fetches[j]));
            }
        }
        if fetches_key(fetches, key) {
            let k = choose|k: int| 0 <= k < fetches.len() && (#[trigger] fetches[k]).key() == key;
            assert(out[k].key() == key);
        }
        if fetches_key(out, key) {
            let k = choose|k: int| 0 <= k < out.len() && (#[trigger] out[k]).key() == key;
            if k < n {
                assert(fetches[k].key() == key);
            }
        }
    }
}

/// The trees of a review are those of the bases and heads of its targets, each
/// once.
pub proof fn reviews_need_the_trees_of_their_targets(targets: Seq<ResolvedTarget>, key: SpecCacheKey)
    ensures
        fetches_key(tree_fetches(targets), key) <==> exists|i: int| #[trigger] is_tree_of(targets, key, i),
        fetches_once(tree_fetches(targets)),
    decreases targets.len(),
{
    if targets.len() > 0 {
        let rest = targets.drop_last();
        let t = targets.last();
        reviews_need_the_trees_of_their_targets(rest, key);
        let a = tree_fetches(rest);
        lemma_with_tree(a, t.repo_id, t.base, key);
        lemma_with_tree(with_tree(a, t.repo_id, t.base), t.repo_id, t.head, key);
        if exists|i: int| #[trigger] is_tree_of(rest, key, i) {
            let i = choose|i: int| #[trigger] is_tree_of(rest, key, i);
            assert(is_tree_of(targets, key, i));
        }
        if exists|i: int| #[trigger] is_tree_of(targets, key, i) {
            let i = choose|i: int| #[trigger] is_tree_of(targets, key, i);
            if i < rest.len() {
                assert(is_tree_of(rest, key, i));
            }
        }
        if fetches_key(tree_fetches(targets), key) && !fetches_key(a, key) {
            assert(is_tree_of(targets, key, targets.len() - 1));
        }
    }
}

/// A pin is needed for the trees of the open review and the browsed one, for
/// the headers of its files and of what is open, and for the chunks of what
/// is open; without an open review none is.
pub proof fn pins_are_needed_for_what_is_open(
    open: SpecOpenReview,
    browse: Option<crate::browse::SpecBrowse>,
    key: SpecCacheKey,
)
    ensures
        !needed(None, browse)(key),
        key matches SpecCacheKey::Tree { tree } ==> (needed(Some(open), browse)(key) <==> open.trees.contains(
            tree.root,
        ) || (browse is Some && tree.repo_id == (browse->0).target.repo_id && tree.root == (browse->0).root)),
        key matches SpecCacheKey::Header { render } ==> (needed(Some(open), browse)(key) <==> open.files.contains(
            render,
        ) || open.original == Some(render) || (open.open_file is Some && (open.open_file->0).render == render)),
        key matches SpecCacheKey::Chunk { render, .. } ==> (needed(Some(open), browse)(key) <==> open.open_file is Some
            && (open.open_file->0).render == render),
{
}

// ---- what a file is shown as ----------------------------------------------

/// Wanting chunks changes only what is fetched.
pub proof fn lemma_want_chunks(core: SpecClientCore, render: SpecRenderKey, indices: Seq<ChunkIndex>)
    ensures
        differs_in_flow(core, core.want_chunks(render, indices)),
    decreases indices.len(),
{
    if indices.len() > 0 {
        lemma_want_chunks(core, render, indices.drop_last());
    }
}

proof fn lemma_want_render(core: SpecClientCore, review_id: ReviewId, render: SpecRenderKey)
    ensures
        differs_in_flow(core, core.want_render(review_id, render)),
{
    reveal(SpecClientCore::want_render);
    reveal(SpecClientCore::want_viewport_chunks);
    if let Some(w) = core.viewport_window(render) {
        lemma_want_chunks(core, render, w.in_order());
    }
}

/// Wanting the open render changes only what is fetched.
pub proof fn lemma_want_open_render(core: SpecClientCore, review_id: ReviewId, render: SpecRenderKey)
    ensures
        differs_in_flow(core, core.want_open_render(review_id, render)),
{
    reveal(SpecClientCore::want_open_render);
    reveal(SpecClientCore::retained);
    lemma_want_render(core.retained().pin(SpecCacheKey::Header { render }), review_id, render);
}

/// The target at `i` is the first of the repository.
pub open spec fn first_target(targets: Seq<ResolvedTarget>, repo_id: RepoId, i: int) -> bool {
    &&& 0 <= i < targets.len()
    &&& targets[i].repo_id == repo_id
    &&& forall|j: int| 0 <= j < i ==> (#[trigger] targets[j]).repo_id != repo_id
}

/// The entry at `i` is the first with that path.
pub open spec fn first_entry(entries: Seq<SpecTreeEntry>, path: SpecRepoPath, i: int) -> bool {
    &&& 0 <= i < entries.len()
    &&& entries[i].path == path
    &&& forall|j: int| 0 <= j < i ==> (#[trigger] entries[j]).path != path
}

/// A file outside the diff is looked up in the browsed tree of its repository
/// while browsing, else in the tree at its head.
pub proof fn files_are_looked_up_in_the_tree_shown(core: SpecClientCore, repo_id: RepoId, i: int)
    requires
        core.view.review is Some,
    ensures
        core.view.tab is Browse && core.browse is Some && (core.browse->0).target.repo_id == repo_id
            ==> core.blob_root(repo_id) == Some((core.browse->0).root),
        !(core.view.tab is Browse && core.browse is Some && (core.browse->0).target.repo_id == repo_id)
            && first_target((core.view.review->0).current_targets(), repo_id, i) ==> core.blob_root(repo_id) == Some(
            (core.view.review->0).current_targets()[i].head.tree,
        ),
{
    let targets = (core.view.review->0).current_targets();
    let p = target_in(repo_id);
    data::lemma_first_where(targets, p);
    if first_target(targets, repo_id, i) {
        assert(p(targets[i]));
        let k = data::first_where(targets, p)->0;
        assert(p(targets[k]));
        if i < k {
            assert(!p(targets[i]));
        }
    }
}

/// A file outside the diff is shown as the blob the tree has at its path.
pub proof fn other_files_are_shown_as_their_blob(core: SpecClientCore, file: SpecFileRef)
    ensures
        core.blob_render(file) matches Some(r) ==> {
            &&& r.repo_id == file.repo_id
            &&& r.path == file.path
            &&& core.blob_root(file.repo_id) is Some
            &&& core.flow.content.cache.tree(
                TreeKey { repo_id: file.repo_id, root: core.blob_root(file.repo_id)->0 },
            ) is Some
            &&& exists|i: int|
                #![trigger first_entry(
                    core.flow.content.cache.tree(
                        TreeKey { repo_id: file.repo_id, root: core.blob_root(file.repo_id)->0 },
                    )->0.entries,
                    file.path,
                    i,
                )]
                {
                    let entries = core.flow.content.cache.tree(
                        TreeKey { repo_id: file.repo_id, root: core.blob_root(file.repo_id)->0 },
                    )->0.entries;
                    first_entry(entries, file.path, i) && match entries[i].kind {
                        TreeEntryKind::File { oid, .. } => r.target == (SpecRenderTarget::Blob { oid }),
                        TreeEntryKind::Symlink { oid } => r.target == (SpecRenderTarget::Blob { oid }),
                        _ => false,
                    }
                }
        },
{
    reveal(SpecClientCore::blob_render);
    if core.blob_render(file) is Some {
        let tree = core.flow.content.cache.tree(
            TreeKey { repo_id: file.repo_id, root: core.blob_root(file.repo_id)->0 },
        )->0;
        let p = entry_at(file.path);
        data::lemma_first_where(tree.entries, p);
        let i = data::first_where(tree.entries, p)->0;
        assert(p(tree.entries[i]));
        assert forall|j: int| 0 <= j < i implies (#[trigger] tree.entries[j]).path != file.path by {
            assert(!p(tree.entries[j]));
        }
        assert(first_entry(tree.entries, file.path, i));
    }
}

/// A file is shown as the recorded original while that is open, while browsing
/// as its blob, else as its diff, and as its blob if it has none.
pub proof fn files_are_shown_as_their_diff_first(core: SpecClientCore, file: SpecFileRef)
    requires
        core.view.review is Some,
    ensures
        ({
            let open = core.view.review->0;
            let original = open.original_render();
            let is_original = original is Some && (original->0).repo_id == file.repo_id && (original->0).path
                == file.path;
            &&& is_original ==> core.render_of(file) == original
            &&& !is_original && core.view.tab is Browse ==> core.render_of(file) == core.blob_render(file)
            &&& !is_original && !(core.view.tab is Browse) ==> {
                &&& forall|i: int| #[trigger]
                    first_changed(open.files, file.repo_id, file.path, i) ==> core.render_of(file) == Some(
                        open.files[i],
                    )
                &&& (forall|i: int|
                    0 <= i < open.files.len() ==> !((#[trigger] open.files[i]).repo_id == file.repo_id
                        && open.files[i].path == file.path)) ==> core.render_of(file) == core.blob_render(file)
            }
        }),
{
    reveal(SpecClientCore::render_of);
    let open = core.view.review->0;
    lemma_first_changed(open.files, file.repo_id, file.path);
    let p = file_of(file.repo_id, file.path);
    data::lemma_first_where(open.files, p);
    if let Some(i) = data::first_where(open.files, p) {
        assert(p(open.files[i]));
    }
}

/// Showing rows of a file opens it at those rows, whichever end was given
/// first. A file newly opened takes the keys at its first row, unless a modal
/// panel has them; a file that was open keeps them where they are.
pub proof fn files_open_at_the_rows_shown(
    core: SpecClientCore,
    file: SpecFileRef,
    first_row: u32,
    last_row: u32,
)
    ensures
        core.view.review is None ==> core.viewport(file, first_row, last_row) == Err::<SpecClientCore, SpecCoreError>(
            SpecCoreError::NoOpenReview,
        ),
        core.view.review is Some && core.render_of(file) is None ==> core.viewport(file, first_row, last_row)
            == Err::<SpecClientCore, SpecCoreError>(SpecCoreError::UnknownFile(file)),
        core.view.review is Some && core.render_of(file) is Some ==> (core.viewport(
            file,
            first_row,
            last_row,
        ) matches Ok(out) && {
            let open = core.view.review->0;
            let low = if first_row <= last_row { first_row } else { last_row };
            let high = if first_row <= last_row { last_row } else { first_row };
            let modal = core.view.focus is Composer || core.view.focus is Help;
            let was_open = open.open_file is Some && (open.open_file->0).render == core.render_of(file)->0;
            &&& out.view.review is Some
            &&& (out.view.review->0).open_file is Some
            &&& ((out.view.review->0).open_file->0).render == core.render_of(file)->0
            &&& ((out.view.review->0).open_file->0).first_row == low
            &&& ((out.view.review->0).open_file->0).last_row == high
            &&& (out.view.review->0).files == open.files
            &&& (out.view.review->0).snapshot == open.snapshot
            &&& was_open || modal ==> out.view.focus == core.view.focus
            &&& !was_open && !modal ==> out.view.focus == (Focus::Diff { row: low, side: Side::Head })
            &&& out.pending == core.pending
            &&& out.committed == core.committed
        }),
{
    reveal(SpecClientCore::viewport);
    reveal(SpecClientCore::showing);
    reveal(SpecClientCore::placed);
    reveal(SpecClientCore::took_over);
    reveal(SpecClientCore::windowed);
    reveal(SpecClientCore::retained);
    if core.view.review is Some && core.render_of(file) is Some {
        let open = core.view.review->0;
        let render = core.render_of(file)->0;
        let low = crate::diff::smaller(first_row, last_row);
        let c = core.placed(render, low, crate::diff::larger(first_row, last_row));
        let c = if open.open_render() != Some(render) {
            c.took_over(render, low)
        } else {
            c
        };
        lemma_want_render(c.windowed(render), open.snapshot.review.id, render);
    }
}

/// A file that is closed is open no more, nor is the original it recorded.
pub proof fn closed_files_are_open_no_more(core: SpecClientCore)
    ensures
        core.close_file() is Ok <==> core.view.review is Some && (core.view.review->0).open_file is Some,
        core.close_file() matches Ok(out) ==> {
            &&& out.view.review is Some
            &&& (out.view.review->0).open_file is None
            &&& (out.view.review->0).original is None
            &&& (out.view.review->0).files == (core.view.review->0).files
            &&& (out.view.review->0).snapshot == (core.view.review->0).snapshot
            &&& out.view.focus == core.view.focus
            &&& out.pending == core.pending
        },
{
    reveal(SpecClientCore::close_file);
    reveal(SpecClientCore::retained);
}

} // verus!
