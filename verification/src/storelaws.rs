//! What goes to the daemon and to the disk as content is asked for and
//! arrives, said of the queue, the errands and the cache.
use vstd::prelude::*;

use crate::cache::{one_per_key, Bytes, SpecCacheKey, SpecCacheValue, SpecContentCache, SpecEvicted};
use crate::client::{SpecClientCore, SpecStored};
use crate::content::{kept_by, not_on_disk, SpecContent, SpecFetch, SpecFetchState, SpecKeep, SpecOutstanding};
use crate::data;
use crate::fetching::{replaced, tree_is, Arrival};
use crate::fetchlaws;
use crate::flow::{request_for, SpecErrand, SpecFlow, SpecKey, SpecPersisted};
use crate::protocol::{SpecClientMsg, TreeOid};
use crate::view::SpecOpenReview;

verus! {

// ---- the queue ------------------------------------------------------------

/// The errand asks the daemon for the fetch.
pub open spec fn asks_for(errand: SpecErrand, open: Option<SpecOpenReview>, fetch: SpecFetch) -> bool {
    errand matches SpecErrand::Send(
        SpecClientMsg::Request { request, .. },
    ) && request == request_for(open, fetch)
}

/// Fetches are sent from the front of the queue, in order, until no slot is
/// free or nothing waits.
pub proof fn free_slots_are_filled_in_order(flow: SpecFlow, open: Option<SpecOpenReview>)
    ensures
        ({
            let out = flow.drained(open);
            let n = flow.content.queue.len() - out.content.queue.len();
            &&& n >= 0
            &&& out.content.queue == flow.content.queue.skip(n)
            &&& out.content.queue.len() == 0 || out.content.in_flight >= flow.content.config.max_in_flight
            &&& out.content.in_flight == flow.content.in_flight + n
            &&& n > 0 ==> out.content.in_flight <= flow.content.config.max_in_flight
            &&& out.out.len() == flow.out.len() + n
            &&& flow.out.is_prefix_of(out.out)
            &&& forall|k: int|
                0 <= k < n ==> asks_for(#[trigger] out.out[flow.out.len() + k], open, flow.content.queue[k])
            &&& out.content.cache == flow.content.cache
            &&& out.content.disk == flow.content.disk
            &&& out.content.loads == flow.content.loads
            &&& out.content.config == flow.content.config
        }),
    decreases flow.content.queue.len(),
{
    let queue = flow.content.queue;
    if flow.content.in_flight < flow.content.config.max_in_flight && queue.len() > 0 {
        reveal(SpecFlow::sent);
        reveal(SpecFlow::request);
        let next = flow.sent(open, queue[0]);
        free_slots_are_filled_in_order(next, open);
        let out = flow.drained(open);
        assert(out == next.drained(open));
        let n = next.content.queue.len() - out.content.queue.len();
        assert(queue.drop_first().skip(n) =~= queue.skip(n + 1));
        assert forall|k: int| 0 <= k < n + 1 implies asks_for(
            #[trigger] out.out[flow.out.len() + k],
            open,
            queue[k],
        ) by {
            if k > 0 {
                assert(asks_for(out.out[next.out.len() + (k - 1)], open, next.content.queue[k - 1]));
            } else {
                assert(out.out[flow.out.len() as int] == next.out[flow.out.len() as int]);
            }
        }
        assert forall|k: int| 0 <= k < flow.out.len() implies flow.out[k] == #[trigger] out.out[k] by {
            assert(next.out[k] == flow.out[k]);
        }
    } else {
        assert(queue.skip(0) =~= queue);
    }
}

/// What is queued is outstanding, and waits behind what was queued before it
/// while no slot is free.
pub proof fn queued_fetches_wait_their_turn(flow: SpecFlow, open: Option<SpecOpenReview>, fetch: SpecFetch)
    ensures
        flow.content.in_flight >= flow.content.config.max_in_flight ==> {
            &&& flow.enqueued(open, fetch).content.queue == flow.content.queue.push(fetch)
            &&& flow.enqueued(open, fetch).out == flow.out
        },
        flow.content.in_flight < flow.content.config.max_in_flight && flow.content.queue.len() == 0 ==> {
            &&& flow.enqueued(open, fetch).content.queue.len() == 0
            &&& flow.enqueued(open, fetch).out.len() == flow.out.len() + 1
            &&& asks_for(flow.enqueued(open, fetch).out.last(), open, fetch)
        },
{
    reveal(SpecFlow::enqueued);
    let content = flow.content.noted(fetch.key(), SpecFetchState::Queued);
    let before = flow.with_content(SpecContent { queue: content.queue.push(fetch), ..content });
    free_slots_are_filled_in_order(before, open);
    let out = before.drained(open);
    let n = before.content.queue.len() - out.content.queue.len();
    if flow.content.in_flight < flow.content.config.max_in_flight && flow.content.queue.len() == 0 {
        assert(n == 1);
        assert(asks_for(out.out[before.out.len() + 0int], open, before.content.queue[0]));
    }
}

/// A finished request frees its slot, which the next fetch in the queue takes.
pub proof fn finished_requests_free_their_slot(flow: SpecFlow, open: Option<SpecOpenReview>)
    requires
        0 < flow.content.in_flight <= flow.content.config.max_in_flight,
    ensures
        flow.content.queue.len() == 0 ==> {
            &&& flow.content_done(open).content.in_flight == flow.content.in_flight - 1
            &&& flow.content_done(open).out == flow.out
        },
        flow.content.queue.len() > 0 && flow.content.in_flight == flow.content.config.max_in_flight ==> {
            &&& flow.content_done(open).content.in_flight == flow.content.in_flight
            &&& flow.content_done(open).content.queue == flow.content.queue.drop_first()
            &&& flow.content_done(open).out.len() == flow.out.len() + 1
            &&& asks_for(flow.content_done(open).out.last(), open, flow.content.queue[0])
        },
{
    reveal(SpecFlow::content_done);
    let before = flow.with_content(
        SpecContent { in_flight: (flow.content.in_flight - 1) as usize, ..flow.content },
    );
    free_slots_are_filled_in_order(before, open);
    let out = before.drained(open);
    assert(flow.content_done(open) == out);
    let n = before.content.queue.len() - out.content.queue.len();
    if flow.content.queue.len() > 0 && flow.content.in_flight == flow.content.config.max_in_flight {
        assert(n == 1);
        assert(asks_for(out.out[before.out.len() + 0int], open, before.content.queue[0]));
        assert(flow.content.queue.skip(1) =~= flow.content.queue.drop_first());
    }
}

/// Nothing is fetched for a review that is closed, and nothing is pinned.
pub proof fn closed_reviews_are_fetched_no_more(core: SpecClientCore)
    ensures
        core.review_closed().flow.content.queue.len() == 0,
        core.review_closed().flow.content.cache.pinned.len() == 0,
        core.review_closed().view == core.view,
{
    reveal(SpecClientCore::review_closed);
    let content = core.flow.content.pruned(SpecKeep::Nothing);
    assert(content.queue.len() == 0) by {
        if content.queue.len() > 0 {
            data::lemma_filter_has(core.flow.content.queue, kept_by(SpecKeep::Nothing), content.queue[0]);
            assert(content.queue.contains(content.queue[0]));
            assert(kept_by(SpecKeep::Nothing)(content.queue[0]));
        }
    }
    let c = core.with_content(content);
    let (cache, gone) = (SpecContentCache { pinned: Seq::empty(), ..c.flow.content.cache }).trimmed();
    let mid = c.flow.with_content(SpecContent { cache, ..c.flow.content });
    lemma_written_through(mid, gone);
}

// ---- the disk -------------------------------------------------------------

/// A use of the disk removes from it what the index gives up, and nothing
/// else; without a disk nothing happens.
pub proof fn uses_of_the_disk_remove_what_it_gives_up(flow: SpecFlow, key: SpecCacheKey, size: Bytes)
    ensures
        flow.content.disk is None ==> flow.disk_touched(key, size) == flow,
        flow.content.disk matches Some(d) ==> {
            let out = flow.disk_touched(key, size);
            let gone = d.touched(key, size).1;
            &&& out.content.disk == Some(d.touched(key, size).0)
            &&& out.content.cache == flow.content.cache
            &&& flow.out.is_prefix_of(out.out)
            &&& out.out.len() == flow.out.len() + gone.len()
            &&& forall|k: int|
                0 <= k < gone.len() ==> #[trigger] out.out[flow.out.len() + k] == (SpecErrand::Remove {
                    key: SpecKey::Content { key: gone[k] },
                })
        },
        flow.disk_touched(key, size).wire == flow.wire,
        flow.disk_touched(key, size).content.queue == flow.content.queue,
        flow.disk_touched(key, size).content.pending == flow.content.pending,
{
    reveal(SpecFlow::disk_touched);
}

/// A value is written to the disk there is, under its own key.
pub proof fn values_are_written_under_their_key(
    flow: SpecFlow,
    key: SpecCacheKey,
    value: SpecCacheValue,
    size: Bytes,
)
    ensures
        flow.content.disk is None ==> flow.persisted(key, value, size) == flow,
        flow.content.disk matches Some(d) ==> {
            let out = flow.persisted(key, value, size);
            &&& out.out.len() > flow.out.len()
            &&& flow.out.is_prefix_of(out.out)
            &&& out.out.last() == (SpecErrand::Persist {
                key: SpecKey::Content { key },
                value: SpecPersisted::Content { value },
            })
            &&& out.content.disk == Some(d.touched(key, size).0)
        },
        flow.persisted(key, value, size).content.cache == flow.content.cache,
        flow.persisted(key, value, size).content.pending == flow.content.pending,
        flow.persisted(key, value, size).content.queue == flow.content.queue,
{
    reveal(SpecFlow::persisted);
    uses_of_the_disk_remove_what_it_gives_up(flow, key, size);
}

/// What leaves memory is written unless the disk has it already.
pub proof fn evicted_values_are_written_unless_on_disk(flow: SpecFlow, e: SpecEvicted)
    ensures
        ({
            let out = flow.wrote(e);
            let written = SpecErrand::Persist {
                key: SpecKey::Content { key: e.key },
                value: SpecPersisted::Content { value: e.value },
            };
            &&& flow.content.disk is None ==> out == flow
            &&& flow.content.disk matches Some(d) ==> if d.knows(e.key) {
                forall|k: int|
                    flow.out.len() <= k < out.out.len() ==> !((#[trigger] out.out[k]) is Persist)
            } else {
                out.out.len() > flow.out.len() && out.out.last() == written
            }
            &&& flow.out.is_prefix_of(out.out)
            &&& out.content.cache == flow.content.cache
            &&& out.content.pending == flow.content.pending
            &&& out.content.queue == flow.content.queue
        }),
{
    reveal(SpecFlow::wrote);
    uses_of_the_disk_remove_what_it_gives_up(flow, e.key, e.size);
    values_are_written_under_their_key(flow, e.key, e.value, e.size);
    let out = flow.disk_touched(e.key, e.size);
    if let Some(d) = flow.content.disk {
        assert forall|k: int| flow.out.len() <= k < out.out.len() implies !((#[trigger] out.out[k]) is Persist) by {
            assert(out.out[flow.out.len() + (k - flow.out.len())] is Remove);
        }
    }
}

proof fn lemma_written_through(flow: SpecFlow, evicted: Seq<SpecEvicted>)
    ensures
        flow.written_through(evicted).content.cache == flow.content.cache,
        flow.written_through(evicted).content.pending == flow.content.pending,
        flow.written_through(evicted).content.queue == flow.content.queue,
        flow.out.is_prefix_of(flow.written_through(evicted).out),
    decreases evicted.len(),
{
    if evicted.len() > 0 {
        lemma_written_through(flow, evicted.drop_last());
        let before = flow.written_through(evicted.drop_last());
        evicted_values_are_written_unless_on_disk(before, evicted.last());
        let out = flow.written_through(evicted);
        assert forall|k: int| 0 <= k < flow.out.len() implies flow.out[k] == #[trigger] out.out[k] by {
            assert(before.out[k] == flow.out[k]);
        }
    }
}

// ---- what arrives ---------------------------------------------------------

/// What arrives is wanted no more. It is in the cache if it is pinned or
/// needed, with nothing else under its key, and it goes to the disk there is
/// unless it came from there.
pub proof fn what_arrives_is_kept(
    core: SpecClientCore,
    key: SpecCacheKey,
    value: SpecCacheValue,
    size: Bytes,
    via: Arrival,
    e: SpecEvicted,
    o: SpecOutstanding,
)
    requires
        one_per_key(core.flow.content.cache.entries),
    ensures
        ({
            let out = core.stocked(key, value, size, via);
            let cache = core.flow.content.cache;
            let new = SpecEvicted { key, value, size };
            &&& out.flow.content.pending.contains(o) <==> core.flow.content.pending.contains(o) && o.key != key
            &&& core.needs_pin(key) || cache.pinned.contains(key) ==> out.flow.content.cache.entries.contains(new)
            &&& out.flow.content.cache.entries.contains(e) ==> e == new || (cache.entries.contains(e) && e.key
                != key)
            &&& cache.pinned.contains(e.key) && cache.entries.contains(e) && e.key != key
                ==> out.flow.content.cache.entries.contains(e)
            &&& core.needs_pin(key) ==> out.flow.content.cache.pinned.contains(key)
            &&& core.flow.out.is_prefix_of(out.flow.out)
            &&& core.flow.content.disk is Some && !(via is Disk) ==> exists|k: int|
                core.flow.out.len() <= k < out.flow.out.len() && #[trigger] out.flow.out[k] == (SpecErrand::Persist {
                    key: SpecKey::Content { key },
                    value: SpecPersisted::Content { value },
                })
            &&& out.view == core.view
        }),
{
    reveal(SpecClientCore::stocked);
    reveal(SpecFlow::inserted);
    fetchlaws::keys_are_outstanding_until_forgotten(core.flow.content, key, SpecFetchState::Queued, o);
    let c = core.with_content(core.flow.content.forgot(key));
    assert(c.needs_pin(key) == core.needs_pin(key));
    let p = if c.needs_pin(key) {
        c.pin(key)
    } else {
        c
    };
    let old = core.flow.content.cache;
    vstd::seq_lib::lemma_seq_contains_after_push(old.pinned, key, key);
    vstd::seq_lib::lemma_seq_contains_after_push(old.pinned, key, e.key);
    let before = p.flow.content.cache;
    assert(before.entries == old.entries);
    let flow = if via is Disk {
        p.flow
    } else {
        p.flow.persisted(key, value, size)
    };
    values_are_written_under_their_key(p.flow, key, value, size);
    let (cache, gone) = flow.content.cache.inserted(key, value, size);
    let mid = flow.with_content(SpecContent { cache, ..flow.content });
    lemma_written_through(mid, gone);
    let new = SpecEvicted { key, value, size };
    fetchlaws::insertions_replace_and_lose_nothing(before, key, value, size, e);
    fetchlaws::insertions_replace_and_lose_nothing(before, key, value, size, new);
    let out = core.stocked(key, value, size, via);
    assert(out.flow == mid.written_through(gone));
    assert forall|k: int| 0 <= k < core.flow.out.len() implies core.flow.out[k] == #[trigger] out.flow.out[k] by {
        assert(flow.out[k] == core.flow.out[k]);
    }
    if core.flow.content.disk is Some && !(via is Disk) {
        let k = flow.out.len() - 1;
        assert(out.flow.out[k] == flow.out[k]);
    }
}

/// The store is heard only on what was asked of it, and once.
pub proof fn the_store_is_heard_once(core: SpecClientCore, key: SpecCacheKey, value: SpecStored)
    ensures
        core.stored(key, value) is Ok <==> core.flow.content.loads.contains(key),
{
    reveal(SpecClientCore::stored);
}

/// Without the value on disk the daemon is asked; a wrong or unreadable one
/// is removed first and the disk knows it no more.
pub proof fn what_is_not_on_disk_is_asked_for(
    core: SpecClientCore,
    key: SpecCacheKey,
    fetch: SpecFetch,
    value: SpecStored,
)
    requires
        !(value matches SpecStored::Content { value: v, .. } && v.matches(key)),
    ensures
        ({
            let out = core.load_answered(key, fetch, value);
            let full = core.flow.content.in_flight >= core.flow.content.config.max_in_flight;
            let removal = SpecErrand::Remove { key: SpecKey::Content { key } };
            &&& full ==> out.flow.content.queue == core.flow.content.queue.push(fetch)
            &&& full && value is Absent ==> out.flow.out == core.flow.out
            &&& full && !(value is Absent) ==> out.flow.out == core.flow.out.push(removal)
            &&& !full && core.flow.content.queue.len() == 0 ==> asks_for(
                out.flow.out.last(),
                core.view.review,
                fetch,
            )
            &&& out.flow.content.cache == core.flow.content.cache
            &&& value is Absent ==> out.flow.content.disk == core.flow.content.disk
            &&& !(value is Absent) && core.flow.content.disk is Some ==> {
                &&& out.flow.content.disk is Some
                &&& forall|i: int|
                    0 <= i < (out.flow.content.disk->0).entries.len() ==> (#[trigger] (
                    out.flow.content.disk->0).entries[i]).key != key
            }
            &&& out.view == core.view
        }),
{
    reveal(SpecClientCore::load_answered);
    reveal(SpecFlow::enqueued);
    let content = core.flow.content;
    let flow = if value is Absent {
        core.flow
    } else {
        core.flow.with_content(
            SpecContent {
                disk: match content.disk {
                    Some(d) => Some(d.forgot(key)),
                    None => None,
                },
                ..content
            },
        ).emit(SpecErrand::Remove { key: SpecKey::Content { key } })
    };
    assert(core.load_answered(key, fetch, value) == core.with_flow(flow.enqueued(core.view.review, fetch)));
    queued_fetches_wait_their_turn(flow, core.view.review, fetch);
    let noted = flow.content.noted(fetch.key(), SpecFetchState::Queued);
    let before = flow.with_content(SpecContent { queue: noted.queue.push(fetch), ..noted });
    free_slots_are_filled_in_order(before, core.view.review);
    if let Some(d) = content.disk {
        let entries = d.entries.filter(not_on_disk(key));
        assert forall|i: int| 0 <= i < entries.len() implies (#[trigger] entries[i]).key != key by {
            data::lemma_filter_has(d.entries, not_on_disk(key), entries[i]);
            assert(entries.contains(entries[i]));
            assert(not_on_disk(key)(entries[i]));
        }
    }
}

/// A new root takes the place of the first old one, and of nothing else.
pub proof fn roots_are_replaced_in_place(trees: Seq<TreeOid>, from: TreeOid, to: TreeOid, i: int)
    requires
        0 <= i < trees.len(),
    ensures
        replaced(trees, from, to).len() == trees.len(),
        trees[i] != from ==> replaced(trees, from, to)[i] == trees[i],
        trees[i] == from && (forall|j: int| 0 <= j < i ==> #[trigger] trees[j] != from) ==> replaced(trees, from, to)[i]
            == to,
        trees[i] == from && (exists|j: int| 0 <= j < i && #[trigger] trees[j] == from) ==> replaced(trees, from, to)[i]
            == from,
{
    let p = tree_is(from);
    data::lemma_first_where(trees, p);
    assert(p(trees[i]) == (trees[i] == from));
    match data::first_where(trees, p) {
        Some(k) => {
            assert(p(trees[k]));
            assert forall|j: int| 0 <= j < k implies #[trigger] trees[j] != from by {
                assert(!p(trees[j]));
            }
        },
        None => {},
    }
}

} // verus!
