//! Which content is wanted and where it is: the disk tier's index, the
//! fetches, and the chunks around a viewport.
use vstd::prelude::*;

use crate::cache;
use crate::cache::{
    Bytes, CacheKey, ContentCache, RenderKey, SpecCacheKey, SpecContentCache, SpecRenderKey,
    TreeKey,
};
use crate::data;
use crate::data::Value;
use crate::diff;
use crate::protocol::{
    ChunkIndex, FileRenderHeader, RefSpec, RenderContent, SpecRenderContent, RenderOpts, RepoId, RepoPath, ResolvedRef,
    ResolvedSource, ReviewId, SpecRefSpec, SpecRenderOpts, SpecRepoPath, SpecTreeDelta,
    SpecTreeEntry, SpecTreeSnapshot, TreeDelta, TreeEntry, TreeOid, TreeSnapshot,
};
use crate::text;
use crate::view::ViewPrefs;

verus! {

/// How many chunks either side of the viewport are prefetched.
pub const PREFETCH_RADIUS: u32 = 2;

/// Whether the host has a disk tier for this connection.
#[derive(Debug, Clone, Copy, PartialEq, Eq, Structural)]
pub enum DiskTier {
    Disabled,
    Enabled { budget: Bytes },
}

impl DeepView for DiskTier {
    type V = DiskTier;

    open spec fn deep_view(&self) -> DiskTier {
        *self
    }
}

impl Value for DiskTier {
    fn dup(&self) -> (r: Self) {
        *self
    }

    fn same(&self, other: &Self) -> (b: bool) {
        *self == *other
    }
}

/// Cache sizing and fetch policy.
#[derive(Debug, PartialEq, Eq)]
pub struct CacheConfig {
    pub memory_budget: Bytes,
    pub disk: DiskTier,
    /// Content requests outstanding to the daemon at once; more queue.
    pub max_in_flight: usize,
    /// Options every render uses.
    pub render_opts: RenderOpts,
}

/// Model of [`CacheConfig`].
#[verifier::ext_equal]
pub struct SpecCacheConfig {
    pub memory_budget: Bytes,
    pub disk: DiskTier,
    pub max_in_flight: usize,
    pub render_opts: SpecRenderOpts,
}

impl DeepView for CacheConfig {
    type V = SpecCacheConfig;

    open spec fn deep_view(&self) -> SpecCacheConfig {
        SpecCacheConfig {
            memory_budget: self.memory_budget,
            disk: self.disk,
            max_in_flight: self.max_in_flight,
            render_opts: self.render_opts.deep_view(),
        }
    }
}

impl Value for CacheConfig {
    fn dup(&self) -> (r: Self) {
        CacheConfig {
            memory_budget: self.memory_budget,
            disk: self.disk,
            max_in_flight: self.max_in_flight,
            render_opts: self.render_opts.dup(),
        }
    }

    fn same(&self, other: &Self) -> (b: bool) {
        self.memory_budget == other.memory_budget
            && self.disk == other.disk
            && self.max_in_flight == other.max_in_flight
            && self.render_opts.same(&other.render_opts)
    }
}

/// A value on disk.
#[derive(Debug, PartialEq, Eq)]
pub struct DiskEntry {
    pub key: CacheKey,
    pub size: Bytes,
}

/// Model of [`DiskEntry`].
#[verifier::ext_equal]
pub struct SpecDiskEntry {
    pub key: SpecCacheKey,
    pub size: Bytes,
}

impl DeepView for DiskEntry {
    type V = SpecDiskEntry;

    open spec fn deep_view(&self) -> SpecDiskEntry {
        SpecDiskEntry {
            key: self.key.deep_view(),
            size: self.size,
        }
    }
}

impl Value for DiskEntry {
    fn dup(&self) -> (r: Self) {
        DiskEntry {
            key: self.key.dup(),
            size: self.size,
        }
    }

    fn same(&self, other: &Self) -> (b: bool) {
        self.key.same(&other.key)
            && self.size == other.size
    }
}

/// What this session has written to disk or loaded from it, least recently
/// used first.
#[derive(Debug, PartialEq, Eq)]
pub struct DiskIndex {
    pub(crate) budget: Bytes,
    pub(crate) entries: Vec<DiskEntry>,
}

/// Model of [`DiskIndex`].
#[verifier::ext_equal]
pub struct SpecDiskIndex {
    pub budget: Bytes,
    pub entries: Seq<SpecDiskEntry>,
}

impl DeepView for DiskIndex {
    type V = SpecDiskIndex;

    open(crate) spec fn deep_view(&self) -> SpecDiskIndex {
        SpecDiskIndex {
            budget: self.budget,
            entries: self.entries.deep_view(),
        }
    }
}

impl Value for DiskIndex {
    fn dup(&self) -> (r: Self) {
        DiskIndex {
            budget: self.budget,
            entries: self.entries.dup(),
        }
    }

    fn same(&self, other: &Self) -> (b: bool) {
        self.budget == other.budget
            && self.entries.same(&other.entries)
    }
}

/// A content request. The cache key it fills is [`Fetch::key`].
#[derive(Debug, PartialEq, Eq)]
pub enum Fetch {
    Tree { repo_id: RepoId, ref_spec: RefSpec, root: TreeOid },
    /// A stream: header, then chunks from `first_chunk`; it is cancelled
    /// once a chunk at or past `stop_after` arrives.
    Render { review_id: ReviewId, render: RenderKey, first_chunk: ChunkIndex, stop_after: ChunkIndex },
    Chunk { render: RenderKey, index: ChunkIndex },
}

/// Model of [`Fetch`].
#[verifier::ext_equal]
pub enum SpecFetch {
    Tree { repo_id: RepoId, ref_spec: SpecRefSpec, root: TreeOid },
    Render { review_id: ReviewId, render: SpecRenderKey, first_chunk: ChunkIndex, stop_after: ChunkIndex },
    Chunk { render: SpecRenderKey, index: ChunkIndex },
}

impl DeepView for Fetch {
    type V = SpecFetch;

    open spec fn deep_view(&self) -> SpecFetch {
        match self {
            Fetch::Tree { repo_id, ref_spec, root } => SpecFetch::Tree {
                repo_id: *repo_id,
                ref_spec: ref_spec.deep_view(),
                root: *root,
            },
            Fetch::Render { review_id, render, first_chunk, stop_after } => SpecFetch::Render {
                review_id: *review_id,
                render: render.deep_view(),
                first_chunk: *first_chunk,
                stop_after: *stop_after,
            },
            Fetch::Chunk { render, index } => SpecFetch::Chunk {
                render: render.deep_view(),
                index: *index,
            },
        }
    }
}

impl Value for Fetch {
    fn dup(&self) -> (r: Self) {
        match self {
            Fetch::Tree { repo_id, ref_spec, root } => Fetch::Tree {
                repo_id: *repo_id,
                ref_spec: ref_spec.dup(),
                root: *root,
            },
            Fetch::Render { review_id, render, first_chunk, stop_after } => Fetch::Render {
                review_id: *review_id,
                render: render.dup(),
                first_chunk: *first_chunk,
                stop_after: *stop_after,
            },
            Fetch::Chunk { render, index } => Fetch::Chunk {
                render: render.dup(),
                index: *index,
            },
        }
    }

    fn same(&self, other: &Self) -> (b: bool) {
        match (self, other) {
            (Fetch::Tree { repo_id: a0, ref_spec: a1, root: a2 }, Fetch::Tree { repo_id: b0, ref_spec: b1, root: b2 }) => *a0 == *b0 && a1.same(b1) && *a2 == *b2,
            (Fetch::Render { review_id: a0, render: a1, first_chunk: a2, stop_after: a3 }, Fetch::Render { review_id: b0, render: b1, first_chunk: b2, stop_after: b3 }) => *a0 == *b0 && a1.same(b1) && *a2 == *b2 && *a3 == *b3,
            (Fetch::Chunk { render: a0, index: a1 }, Fetch::Chunk { render: b0, index: b1 }) => a0.same(b0) && *a1 == *b1,
            _ => false,
        }
    }
}

/// Where a wanted key currently is.
#[derive(Debug, PartialEq, Eq)]
pub enum FetchState {
    /// Asked of the host's store.
    Loading { fetch: Fetch },
    /// Waiting for a slot.
    Queued,
    /// Sent to the daemon.
    Requested,
}

/// Model of [`FetchState`].
#[verifier::ext_equal]
pub enum SpecFetchState {
    Loading { fetch: SpecFetch },
    Queued,
    Requested,
}

impl DeepView for FetchState {
    type V = SpecFetchState;

    open spec fn deep_view(&self) -> SpecFetchState {
        match self {
            FetchState::Loading { fetch } => SpecFetchState::Loading {
                fetch: fetch.deep_view(),
            },
            FetchState::Queued => SpecFetchState::Queued,
            FetchState::Requested => SpecFetchState::Requested,
        }
    }
}

impl Value for FetchState {
    fn dup(&self) -> (r: Self) {
        match self {
            FetchState::Loading { fetch } => FetchState::Loading {
                fetch: fetch.dup(),
            },
            FetchState::Queued => FetchState::Queued,
            FetchState::Requested => FetchState::Requested,
        }
    }

    fn same(&self, other: &Self) -> (b: bool) {
        match (self, other) {
            (FetchState::Loading { fetch: a0 }, FetchState::Loading { fetch: b0 }) => a0.same(b0),
            (FetchState::Queued, FetchState::Queued) => true,
            (FetchState::Requested, FetchState::Requested) => true,
            _ => false,
        }
    }
}

/// A wanted key and where it is.
#[derive(Debug, PartialEq, Eq)]
pub struct Outstanding {
    pub key: CacheKey,
    pub state: FetchState,
}

/// Model of [`Outstanding`].
#[verifier::ext_equal]
pub struct SpecOutstanding {
    pub key: SpecCacheKey,
    pub state: SpecFetchState,
}

impl DeepView for Outstanding {
    type V = SpecOutstanding;

    open spec fn deep_view(&self) -> SpecOutstanding {
        SpecOutstanding {
            key: self.key.deep_view(),
            state: self.state.deep_view(),
        }
    }
}

impl Value for Outstanding {
    fn dup(&self) -> (r: Self) {
        Outstanding {
            key: self.key.dup(),
            state: self.state.dup(),
        }
    }

    fn same(&self, other: &Self) -> (b: bool) {
        self.key.same(&other.key)
            && self.state.same(&other.state)
    }
}

/// Content-side state of the core.
#[derive(Debug, PartialEq, Eq)]
pub struct Content {
    pub(crate) config: CacheConfig,
    pub(crate) cache: ContentCache,
    pub(crate) disk: Option<DiskIndex>,
    /// One entry per wanted key.
    pub(crate) pending: Vec<Outstanding>,
    /// Keys asked of the host's store and not answered.
    pub(crate) loads: Vec<CacheKey>,
    pub(crate) queue: Vec<Fetch>,
    pub(crate) in_flight: usize,
}

/// Model of [`Content`].
#[verifier::ext_equal]
pub struct SpecContent {
    pub config: SpecCacheConfig,
    pub cache: SpecContentCache,
    pub disk: Option<SpecDiskIndex>,
    pub pending: Seq<SpecOutstanding>,
    pub loads: Seq<SpecCacheKey>,
    pub queue: Seq<SpecFetch>,
    pub in_flight: usize,
}

impl DeepView for Content {
    type V = SpecContent;

    open(crate) spec fn deep_view(&self) -> SpecContent {
        SpecContent {
            config: self.config.deep_view(),
            cache: self.cache.deep_view(),
            disk: self.disk.deep_view(),
            pending: self.pending.deep_view(),
            loads: self.loads.deep_view(),
            queue: self.queue.deep_view(),
            in_flight: self.in_flight,
        }
    }
}

impl Value for Content {
    fn dup(&self) -> (r: Self) {
        Content {
            config: self.config.dup(),
            cache: self.cache.dup(),
            disk: self.disk.dup(),
            pending: self.pending.dup(),
            loads: self.loads.dup(),
            queue: self.queue.dup(),
            in_flight: self.in_flight,
        }
    }

    fn same(&self, other: &Self) -> (b: bool) {
        self.config.same(&other.config)
            && self.cache.same(&other.cache)
            && self.disk.same(&other.disk)
            && self.pending.same(&other.pending)
            && self.loads.same(&other.loads)
            && self.queue.same(&other.queue)
            && self.in_flight == other.in_flight
    }
}

/// A contiguous range of chunks, with the one the viewport starts in.
#[derive(Debug, Clone, Copy, PartialEq, Eq, Structural)]
pub struct ChunkWindow {
    pub first: u32,
    pub last: u32,
    pub centre: u32,
}

impl DeepView for ChunkWindow {
    type V = ChunkWindow;

    open spec fn deep_view(&self) -> ChunkWindow {
        *self
    }
}

impl Value for ChunkWindow {
    fn dup(&self) -> (r: Self) {
        *self
    }

    fn same(&self, other: &Self) -> (b: bool) {
        *self == *other
    }
}

/// Which queued fetches stay.
#[derive(Debug, PartialEq, Eq)]
pub enum Keep {
    Nothing,
    /// Everything but chunks.
    NoChunks,
    /// Everything but chunks outside the window of one render.
    Window { render: RenderKey, window: Option<ChunkWindow> },
}

/// Model of [`Keep`].
#[verifier::ext_equal]
pub enum SpecKeep {
    Nothing,
    NoChunks,
    Window { render: SpecRenderKey, window: Option<ChunkWindow> },
}

impl DeepView for Keep {
    type V = SpecKeep;

    open spec fn deep_view(&self) -> SpecKeep {
        match self {
            Keep::Nothing => SpecKeep::Nothing,
            Keep::NoChunks => SpecKeep::NoChunks,
            Keep::Window { render, window } => SpecKeep::Window {
                render: render.deep_view(),
                window: *window,
            },
        }
    }
}

impl Value for Keep {
    fn dup(&self) -> (r: Self) {
        match self {
            Keep::Nothing => Keep::Nothing,
            Keep::NoChunks => Keep::NoChunks,
            Keep::Window { render, window } => Keep::Window {
                render: render.dup(),
                window: *window,
            },
        }
    }

    fn same(&self, other: &Self) -> (b: bool) {
        match (self, other) {
            (Keep::Nothing, Keep::Nothing) => true,
            (Keep::NoChunks, Keep::NoChunks) => true,
            (Keep::Window { render: a0, window: a1 }, Keep::Window { render: b0, window: b1 }) => a0.same(b0) && a1.same(b1),
            _ => false,
        }
    }
}


impl Default for CacheConfig {
    fn default() -> (r: Self)
        ensures
            r.deep_view() == (SpecCacheConfig {
                memory_budget: Bytes((256 * 1024 * 1024) as u64),
                disk: DiskTier::Disabled,
                max_in_flight: 4,
                render_opts: ViewPrefs::spec_default().opts(),
            }),
    {
        CacheConfig {
            memory_budget: Bytes::mib(256),
            disk: DiskTier::Disabled,
            max_in_flight: 4,
            render_opts: RenderOpts::default(),
        }
    }
}

/// Bytes the entries take together.
pub open spec fn disk_total(entries: Seq<SpecDiskEntry>) -> nat
    decreases entries.len(),
{
    if entries.len() == 0 {
        0
    } else {
        disk_total(entries.drop_last()) + entries.last().size.0 as nat
    }
}

/// What stays, and what leaves, oldest first: while over budget the oldest
/// entry leaves, but the newest always stays.
pub open spec fn trim_disk(
    entries: Seq<SpecDiskEntry>,
    budget: Bytes,
) -> (Seq<SpecDiskEntry>, Seq<SpecCacheKey>)
    decreases entries.len(),
{
    if disk_total(entries) <= budget.0 || entries.len() <= 1 {
        (entries, Seq::empty())
    } else {
        let (kept, gone) = trim_disk(entries.drop_first(), budget);
        (kept, seq![entries[0].key] + gone)
    }
}

pub open spec fn not_on_disk(key: SpecCacheKey) -> spec_fn(SpecDiskEntry) -> bool {
    |e: SpecDiskEntry| e.key != key
}

pub open spec fn on_disk(key: SpecCacheKey) -> spec_fn(SpecDiskEntry) -> bool {
    |e: SpecDiskEntry| e.key == key
}

proof fn lemma_disk_total_bound(entries: Seq<SpecDiskEntry>)
    ensures
        disk_total(entries) <= entries.len() * 0xffff_ffff_ffff_ffff,
    decreases entries.len(),
{
    if entries.len() > 0 {
        lemma_disk_total_bound(entries.drop_last());
        assert((entries.len() - 1) * 0xffff_ffff_ffff_ffff + 0xffff_ffff_ffff_ffff == entries.len()
            * 0xffff_ffff_ffff_ffff) by (nonlinear_arith);
    }
}

impl SpecDiskIndex {
    pub open spec fn knows(self, key: SpecCacheKey) -> bool {
        data::some_where(self.entries, on_disk(key))
    }

    /// The index once `key` is its most recently used entry, and the keys
    /// that leave the disk.
    pub open spec fn touched(self, key: SpecCacheKey, size: Bytes) -> (SpecDiskIndex, Seq<SpecCacheKey>) {
        let entries = self.entries.filter(not_on_disk(key)).push(SpecDiskEntry { key, size });
        let (kept, gone) = trim_disk(entries, self.budget);
        (SpecDiskIndex { entries: kept, ..self }, gone)
    }

    pub open spec fn forgot(self, key: SpecCacheKey) -> SpecDiskIndex {
        SpecDiskIndex { entries: self.entries.filter(not_on_disk(key)), ..self }
    }
}

impl DiskIndex {
    pub fn new(budget: Bytes) -> (r: Self)
        ensures
            r.deep_view() == (SpecDiskIndex { budget, entries: Seq::empty() }),
    {
        DiskIndex { budget, entries: data::empty() }
    }

    fn total(&self) -> (r: u128)
        ensures
            r == disk_total(self.deep_view().entries),
    {
        let n: usize = self.entries.len();
        let mut sum: u128 = 0;
        let ghost s = self.entries.deep_view();
        for i in 0..n
            invariant
                n == self.entries@.len(),
                s == self.entries.deep_view(),
                sum == disk_total(s.take(i as int)),
        {
            assert(s.take(i + 1).drop_last() =~= s.take(i as int));
            proof {
                lemma_disk_total_bound(s.take(i as int));
                assert(i * 0xffff_ffff_ffff_ffff <= 0xffff_ffff_ffff_ffff * 0xffff_ffff_ffff_ffff) by (nonlinear_arith)
                    requires
                        0 <= i <= 0xffff_ffff_ffff_ffff,
                ;
            }
            sum = sum + self.entries[i].size.0 as u128;
        }
        assert(s.take(n as int) =~= s);
        sum
    }

    /// Bytes on disk, as far as a byte count can say.
    pub fn used(&self) -> (r: Bytes)
        ensures
            r.0 == if disk_total(self.deep_view().entries) <= u64::MAX {
                disk_total(self.deep_view().entries) as int
            } else {
                u64::MAX as int
            },
    {
        let sum: u128 = self.total();
        if sum <= 0xffff_ffff_ffff_ffff {
            Bytes(sum as u64)
        } else {
            Bytes(u64::MAX)
        }
    }

    pub fn knows(&self, key: &CacheKey) -> (b: bool)
        ensures
            b == self.deep_view().knows(key.deep_view()),
    {
        data::any(
            &self.entries,
            |e: &DiskEntry| -> (b: bool)
                ensures
                    b == on_disk(key.deep_view())(e.deep_view())
            { e.key.same(key) },
            Ghost(on_disk(key.deep_view())),
        )
    }

    pub fn forget(&mut self, key: &CacheKey)
        ensures
            final(self).deep_view() == old(self).deep_view().forgot(key.deep_view()),
    {
        data::retain(
            &mut self.entries,
            |e: &DiskEntry| -> (b: bool)
                ensures
                    b == not_on_disk(key.deep_view())(e.deep_view())
            { !e.key.same(key) },
            Ghost(not_on_disk(key.deep_view())),
        );
    }

    /// Record that `key` is on disk at `size`, most recently used. Returns
    /// the keys to remove to stay in budget.
    pub fn touch(&mut self, key: &CacheKey, size: Bytes) -> (r: Vec<CacheKey>)
        ensures
            (final(self).deep_view(), r.deep_view()) == old(self).deep_view().touched(key.deep_view(), size),
    {
        self.forget(key);
        data::push(&mut self.entries, DiskEntry { key: key.dup(), size });
        let ghost start = self.deep_view();
        let ghost goal = trim_disk(start.entries, start.budget);
        let mut out: Vec<CacheKey> = data::empty();
        assert(out.deep_view() + goal.1 =~= goal.1);
        loop
            invariant
                self.deep_view().budget == start.budget,
                goal == trim_disk(start.entries, start.budget),
                goal.0 == trim_disk(self.deep_view().entries, start.budget).0,
                goal.1 == out.deep_view() + trim_disk(self.deep_view().entries, start.budget).1,
            ensures
                self.deep_view().budget == start.budget,
                self.deep_view().entries == goal.0,
                out.deep_view() == goal.1,
            decreases self.entries@.len(),
        {
            let ghost here = self.deep_view().entries;
            let sum: u128 = self.total();
            if sum <= self.budget.0 as u128 || self.entries.len() <= 1 {
                assert(out.deep_view() + Seq::empty() =~= out.deep_view());
                break;
            }
            let ghost before = out.deep_view();
            let e = data::remove(&mut self.entries, 0);
            assert(here.remove(0) =~= here.drop_first());
            data::push(&mut out, e.key);
            proof {
                let rest = trim_disk(here.drop_first(), start.budget).1;
                assert(before + (seq![here[0].key] + rest) =~= before.push(here[0].key) + rest);
            }
        }
        out
    }
}

impl SpecFetch {
    /// The cache key the request fills.
    pub open spec fn key(self) -> SpecCacheKey {
        match self {
            SpecFetch::Tree { repo_id, root, .. } => SpecCacheKey::Tree { tree: TreeKey { repo_id, root } },
            SpecFetch::Render { render, .. } => SpecCacheKey::Header { render },
            SpecFetch::Chunk { render, index } => SpecCacheKey::Chunk { render, index },
        }
    }
}

impl Fetch {
    /// The cache key the request fills.
    pub fn key(&self) -> (r: CacheKey)
        ensures
            r.deep_view() == self.deep_view().key(),
    {
        match self {
            Fetch::Tree { repo_id, root, .. } => CacheKey::Tree { tree: TreeKey { repo_id: *repo_id, root: *root } },
            Fetch::Render { render, .. } => CacheKey::Header { render: render.dup() },
            Fetch::Chunk { render, index } => CacheKey::Chunk { render: render.dup(), index: *index },
        }
    }
}

pub open spec fn wanted(key: SpecCacheKey) -> spec_fn(SpecOutstanding) -> bool {
    |o: SpecOutstanding| o.key == key
}

pub open spec fn not_wanted(key: SpecCacheKey) -> spec_fn(SpecOutstanding) -> bool {
    |o: SpecOutstanding| o.key != key
}

pub open spec fn fetch_of(key: SpecCacheKey) -> spec_fn(SpecFetch) -> bool {
    |f: SpecFetch| f.key() == key
}

/// The fetches that `keep` keeps.
pub open spec fn kept_by(keep: SpecKeep) -> spec_fn(SpecFetch) -> bool {
    |f: SpecFetch| keep.keeps(f)
}

pub open spec fn dropped_by(keep: SpecKeep) -> spec_fn(SpecFetch) -> bool {
    |f: SpecFetch| !keep.keeps(f)
}

/// What no dropped fetch would have filled.
pub open spec fn unaffected(dropped: Seq<SpecFetch>) -> spec_fn(SpecOutstanding) -> bool {
    |o: SpecOutstanding| !data::some_where(dropped, fetch_of(o.key))
}

impl SpecKeep {
    pub open spec fn keeps(self, f: SpecFetch) -> bool {
        match self {
            SpecKeep::Nothing => false,
            SpecKeep::NoChunks => !(f is Chunk),
            SpecKeep::Window { render, window } => match f {
                SpecFetch::Chunk { render: r, index } => r == render && match window {
                    Some(w) => w.has(index),
                    None => false,
                },
                _ => true,
            },
        }
    }
}

impl Keep {
    pub fn keeps(&self, f: &Fetch) -> (b: bool)
        ensures
            b == self.deep_view().keeps(f.deep_view()),
    {
        match self {
            Keep::Nothing => false,
            Keep::NoChunks => match f {
                Fetch::Chunk { .. } => false,
                _ => true,
            },
            Keep::Window { render, window } => match f {
                Fetch::Chunk { render: r, index } => r.same(render) && match window {
                    Some(w) => w.contains(*index),
                    None => false,
                },
                _ => true,
            },
        }
    }
}

impl SpecContent {
    pub open spec fn new(config: SpecCacheConfig) -> SpecContent {
        SpecContent {
            config,
            cache: SpecContentCache {
                budget: config.memory_budget,
                entries: Seq::empty(),
                pinned: Seq::empty(),
            },
            disk: match config.disk {
                DiskTier::Disabled => None,
                DiskTier::Enabled { budget } => Some(SpecDiskIndex { budget, entries: Seq::empty() }),
            },
            pending: Seq::empty(),
            loads: Seq::empty(),
            queue: Seq::empty(),
            in_flight: 0,
        }
    }

    pub open spec fn outstanding(self, key: SpecCacheKey) -> bool {
        data::some_where(self.pending, wanted(key))
    }

    /// The key is wanted no more.
    pub open spec fn forgot(self, key: SpecCacheKey) -> SpecContent {
        SpecContent { pending: self.pending.filter(not_wanted(key)), ..self }
    }

    /// The key is where `state` says.
    pub open spec fn noted(self, key: SpecCacheKey, state: SpecFetchState) -> SpecContent {
        SpecContent {
            pending: self.pending.filter(not_wanted(key)).push(SpecOutstanding { key, state }),
            ..self
        }
    }

    /// Queued fetches that are not kept are dropped before being sent.
    pub open spec fn pruned(self, keep: SpecKeep) -> SpecContent {
        let dropped = self.queue.filter(dropped_by(keep));
        SpecContent {
            queue: self.queue.filter(kept_by(keep)),
            pending: self.pending.filter(unaffected(dropped)),
            ..self
        }
    }

    pub open spec fn pinned(self, key: SpecCacheKey) -> SpecContent {
        SpecContent { cache: self.cache.with_pin(key), ..self }
    }
}

impl Content {
    pub fn new(config: CacheConfig) -> (r: Self)
        ensures
            r.deep_view() == SpecContent::new(config.deep_view()),
    {
        let disk = match config.disk {
            DiskTier::Disabled => None,
            DiskTier::Enabled { budget } => Some(DiskIndex::new(budget)),
        };
        let memory_budget = config.memory_budget;
        Content {
            config,
            cache: ContentCache::new(memory_budget),
            disk,
            pending: data::empty(),
            loads: data::empty(),
            queue: data::empty(),
            in_flight: 0,
        }
    }

    pub fn outstanding(&self, key: &CacheKey) -> (b: bool)
        ensures
            b == self.deep_view().outstanding(key.deep_view()),
    {
        data::any(
            &self.pending,
            |o: &Outstanding| -> (b: bool)
                ensures
                    b == wanted(key.deep_view())(o.deep_view())
            { o.key.same(key) },
            Ghost(wanted(key.deep_view())),
        )
    }

    /// The key is wanted no more.
    pub fn forget(&mut self, key: &CacheKey)
        ensures
            final(self).deep_view() == old(self).deep_view().forgot(key.deep_view()),
    {
        data::retain(
            &mut self.pending,
            |o: &Outstanding| -> (b: bool)
                ensures
                    b == not_wanted(key.deep_view())(o.deep_view())
            { !o.key.same(key) },
            Ghost(not_wanted(key.deep_view())),
        );
    }

    /// The key is where `state` says.
    pub fn note(&mut self, key: CacheKey, state: FetchState)
        ensures
            final(self).deep_view() == old(self).deep_view().noted(key.deep_view(), state.deep_view()),
    {
        self.forget(&key);
        data::push(&mut self.pending, Outstanding { key, state });
    }

    /// Drop the queued fetches that are not kept.
    pub fn prune(&mut self, keep: &Keep)
        ensures
            final(self).deep_view() == old(self).deep_view().pruned(keep.deep_view()),
    {
        let dropped = data::filtered(
            &self.queue,
            |f: &Fetch| -> (b: bool)
                ensures
                    b == dropped_by(keep.deep_view())(f.deep_view())
            { !keep.keeps(f) },
            Ghost(dropped_by(keep.deep_view())),
        );
        data::retain(
            &mut self.queue,
            |f: &Fetch| -> (b: bool)
                ensures
                    b == kept_by(keep.deep_view())(f.deep_view())
            { keep.keeps(f) },
            Ghost(kept_by(keep.deep_view())),
        );
        data::retain(
            &mut self.pending,
            |o: &Outstanding| -> (b: bool)
                ensures
                    b == unaffected(dropped.deep_view())(o.deep_view())
            {
                !data::any(
                    &dropped,
                    |f: &Fetch| -> (b: bool)
                        ensures
                            b == fetch_of(o.key.deep_view())(f.deep_view())
                    { f.key().same(&o.key) },
                    Ghost(fetch_of(o.key.deep_view())),
                )
            },
            Ghost(unaffected(dropped.deep_view())),
        );
    }
}

impl ChunkWindow {
    pub open spec fn has(self, index: ChunkIndex) -> bool {
        self.first <= index.0 <= self.last
    }

    /// The chunks the rows `first_row..=last_row` touch, with
    /// [`PREFETCH_RADIUS`] either side, clipped to the file. Nothing for a
    /// file without rows.
    pub open spec fn spec_around(content: SpecRenderContent, first_row: u32, last_row: u32) -> Option<ChunkWindow> {
        match content {
            SpecRenderContent::Text { chunk_rows, chunk_count, .. } => if chunk_rows == 0 || chunk_count == 0 {
                None
            } else {
                let max = (chunk_count - 1) as u32;
                let centre = diff::smaller(first_row / chunk_rows, max);
                let end = diff::smaller(last_row / chunk_rows, max);
                Some(
                    ChunkWindow {
                        first: if centre >= PREFETCH_RADIUS {
                            (centre - PREFETCH_RADIUS) as u32
                        } else {
                            0
                        },
                        last: if end + PREFETCH_RADIUS <= max {
                            (end + PREFETCH_RADIUS) as u32
                        } else {
                            max
                        },
                        centre,
                    },
                )
            },
            SpecRenderContent::Binary => None,
        }
    }

    pub fn around(header: &FileRenderHeader, first_row: u32, last_row: u32) -> (r: Option<ChunkWindow>)
        ensures
            r == ChunkWindow::spec_around(header.deep_view().content, first_row, last_row),
    {
        match header.content {
            RenderContent::Text { chunk_rows, chunk_count, .. } => {
                if chunk_rows == 0 || chunk_count == 0 {
                    return None;
                }
                let max: u32 = chunk_count - 1;
                let at: u32 = first_row / chunk_rows;
                let centre: u32 = if at <= max {
                    at
                } else {
                    max
                };
                let at: u32 = last_row / chunk_rows;
                let end: u32 = if at <= max {
                    at
                } else {
                    max
                };
                let first: u32 = if centre >= PREFETCH_RADIUS {
                    centre - PREFETCH_RADIUS
                } else {
                    0
                };
                let last: u32 = if max >= PREFETCH_RADIUS && end <= max - PREFETCH_RADIUS {
                    end + PREFETCH_RADIUS
                } else {
                    max
                };
                Some(ChunkWindow { first, last, centre })
            },
            RenderContent::Binary => None,
        }
    }

    pub fn contains(self, index: ChunkIndex) -> (b: bool)
        ensures
            b == self.has(index),
    {
        self.first <= index.0 && index.0 <= self.last
    }

    /// How far a chunk is from the one the viewport starts in.
    pub open spec fn distance(self, index: ChunkIndex) -> int {
        if index.0 >= self.centre {
            index.0 - self.centre
        } else {
            self.centre - index.0
        }
    }

    /// Nearest the viewport first; of two equally near, the earlier.
    pub open spec fn nearer(self) -> spec_fn(ChunkIndex, ChunkIndex) -> bool {
        |a: ChunkIndex, b: ChunkIndex|
            self.distance(a) < self.distance(b) || (self.distance(a) == self.distance(b) && a.0 <= b.0)
    }

    /// Every chunk of the window, in file order.
    pub open spec fn chunks(self) -> Seq<ChunkIndex> {
        Seq::new(
            if self.first <= self.last {
                (self.last - self.first + 1) as nat
            } else {
                0
            },
            |i: int| ChunkIndex((self.first + i) as u32),
        )
    }

    /// Every chunk of the window, nearest the viewport first.
    pub open spec fn in_order(self) -> Seq<ChunkIndex> {
        data::sorted(self.chunks(), self.nearer())
    }

    /// Every chunk of the window, nearest the viewport first, so the
    /// visible chunk is requested before its neighbours.
    pub fn by_distance(self) -> (r: Vec<ChunkIndex>)
        ensures
            r.deep_view() == self.in_order(),
    {
        let mut v: Vec<ChunkIndex> = Vec::new();
        if self.first <= self.last {
            let n: u64 = (self.last - self.first) as u64 + 1;
            let mut i: u64 = 0;
            while i < n
                invariant
                    self.first <= self.last,
                    n == self.last - self.first + 1,
                    i <= n,
                    v@ == self.chunks().take(i as int),
                decreases n - i,
            {
                v.push(ChunkIndex((self.first as u64 + i) as u32));
                i = i + 1;
                assert(v@ =~= self.chunks().take(i as int));
            }
        }
        assert(v@ =~= self.chunks());
        assert(v.deep_view() =~= v@);
        let w = self;
        data::sort(
            &mut v,
            |a: &ChunkIndex, b: &ChunkIndex| -> (r: bool)
                ensures
                    r == w.nearer()(a.deep_view(), b.deep_view())
            {
                let da: u32 = if a.0 >= w.centre {
                    a.0 - w.centre
                } else {
                    w.centre - a.0
                };
                let db: u32 = if b.0 >= w.centre {
                    b.0 - w.centre
                } else {
                    w.centre - b.0
                };
                da < db || (da == db && a.0 <= b.0)
            },
            Ghost(w.nearer()),
        );
        v
    }
}

/// The revision that resolves to `r` again.
pub open spec fn ref_spec_for(r: ResolvedRef) -> SpecRefSpec {
    match r.source {
        ResolvedSource::Commit { oid } => SpecRefSpec::Commit { oid },
        ResolvedSource::WorkingTree => SpecRefSpec::WorkingTree,
    }
}

/// The revision that resolves to `r` again, for fetching its tree.
pub fn ref_spec_of(r: &ResolvedRef) -> (s: RefSpec)
    ensures
        s.deep_view() == ref_spec_for(*r),
{
    match r.source {
        ResolvedSource::Commit { oid } => RefSpec::Commit { oid },
        ResolvedSource::WorkingTree => RefSpec::WorkingTree,
    }
}

pub open spec fn entry_at(path: SpecRepoPath) -> spec_fn(SpecTreeEntry) -> bool {
    |e: SpecTreeEntry| e.path == path
}

pub open spec fn path_order() -> spec_fn(SpecTreeEntry, SpecTreeEntry) -> bool {
    |a: SpecTreeEntry, b: SpecTreeEntry| text::le(a.path.text, b.path.text)
}

impl SpecTreeDelta {
    /// The delta says something of this path.
    pub open spec fn names(self, path: SpecRepoPath) -> bool {
        self.removed.contains(path) || data::some_where(self.changed, entry_at(path)) || data::some_where(
            self.added,
            entry_at(path),
        )
    }
}

/// Entries that a delta leaves alone.
pub open spec fn untouched_by(delta: SpecTreeDelta) -> spec_fn(SpecTreeEntry) -> bool {
    |e: SpecTreeEntry| !delta.names(e.path)
}

impl SpecTreeSnapshot {
    /// The tree once the delta is applied: what it names is gone, what it
    /// adds or changes is in, sorted by path.
    pub open spec fn after_delta(self, delta: SpecTreeDelta) -> SpecTreeSnapshot {
        SpecTreeSnapshot {
            root_oid: delta.to_root,
            entries: data::sorted(
                self.entries.filter(untouched_by(delta)) + delta.added + delta.changed,
                path_order(),
            ),
            ..self
        }
    }
}

fn names_path(entries: &Vec<TreeEntry>, path: &RepoPath) -> (b: bool)
    ensures
        b == data::some_where(entries.deep_view(), entry_at(path.deep_view())),
{
    data::any(
        entries,
        |e: &TreeEntry| -> (b: bool)
            ensures
                b == entry_at(path.deep_view())(e.deep_view())
        { e.path.same(path) },
        Ghost(entry_at(path.deep_view())),
    )
}

/// Apply a delta to a tree; the result stays sorted by path.
pub fn apply_delta(snapshot: TreeSnapshot, delta: &TreeDelta) -> (r: TreeSnapshot)
    ensures
        r.deep_view() == snapshot.deep_view().after_delta(delta.deep_view()),
{
    let mut snapshot = snapshot;
    data::retain(
        &mut snapshot.entries,
        |e: &TreeEntry| -> (b: bool)
            ensures
                b == untouched_by(delta.deep_view())(e.deep_view())
        {
            !(data::contains(&delta.removed, &e.path) || names_path(&delta.changed, &e.path) || names_path(
                &delta.added,
                &e.path,
            ))
        },
        Ghost(untouched_by(delta.deep_view())),
    );
    data::append(&mut snapshot.entries, delta.added.dup());
    data::append(&mut snapshot.entries, delta.changed.dup());
    data::sort(
        &mut snapshot.entries,
        |a: &TreeEntry, b: &TreeEntry| -> (r: bool)
            ensures
                r == path_order()(a.deep_view(), b.deep_view())
        { text::in_order(&a.path.text, &b.path.text) },
        Ghost(path_order()),
    );
    snapshot.root_oid = delta.to_root;
    snapshot
}

// ---- soundness ------------------------------------------------------------

/// No key is wanted twice.
pub open spec fn wanted_once(pending: Seq<SpecOutstanding>) -> bool {
    forall|i: int, j: int|
        0 <= i < j < pending.len() ==> (#[trigger] pending[i]).key != (#[trigger] pending[j]).key
}

impl SpecContent {
    /// No more requests are on their way than may be, no key is wanted
    /// twice, and the cache is sound.
    #[verifier::opaque]
    pub open spec fn sound(self) -> bool {
        &&& self.in_flight <= self.config.max_in_flight
        &&& wanted_once(self.pending)
        &&& self.cache.sound()
    }
}

pub proof fn lemma_filter_wanted_once(pending: Seq<SpecOutstanding>, p: spec_fn(SpecOutstanding) -> bool)
    requires
        wanted_once(pending),
    ensures
        wanted_once(pending.filter(p)),
        forall|i: int| 0 <= i < pending.filter(p).len() ==> pending.contains(#[trigger] pending.filter(p)[i]),
        forall|i: int| 0 <= i < pending.filter(p).len() ==> p(#[trigger] pending.filter(p)[i]),
    decreases pending.len(),
{
    reveal(Seq::filter);
    if pending.len() > 0 {
        let rest = pending.drop_last();
        lemma_filter_wanted_once(rest, p);
        let kept = rest.filter(p);
        assert forall|i: int| 0 <= i < kept.len() implies pending.contains(#[trigger] kept[i]) && kept[i].key
            != pending.last().key by {
            let j = choose|j: int| 0 <= j < rest.len() && rest[j] == kept[i];
            assert(pending[j] == kept[i]);
            assert(pending[j].key != pending[pending.len() - 1].key);
        }
        assert(pending.contains(pending.last())) by {
            assert(pending[pending.len() - 1] == pending.last());
        }
    }
}

pub broadcast proof fn forgetting_is_sound(content: SpecContent, key: SpecCacheKey)
    requires
        content.sound(),
    ensures
        (#[trigger] content.forgot(key)).sound(),
{
    reveal(SpecContent::sound);
    lemma_filter_wanted_once(content.pending, not_wanted(key));
}

pub broadcast proof fn noting_is_sound(content: SpecContent, key: SpecCacheKey, state: SpecFetchState)
    requires
        content.sound(),
    ensures
        (#[trigger] content.noted(key, state)).sound(),
{
    reveal(SpecContent::sound);
    lemma_filter_wanted_once(content.pending, not_wanted(key));
}

pub broadcast proof fn pruning_is_sound(content: SpecContent, keep: SpecKeep)
    requires
        content.sound(),
    ensures
        (#[trigger] content.pruned(keep)).sound(),
{
    reveal(SpecContent::sound);
    lemma_filter_wanted_once(content.pending, unaffected(content.queue.filter(dropped_by(keep))));
}

pub broadcast proof fn pinning_is_sound(content: SpecContent, key: SpecCacheKey)
    requires
        content.sound(),
    ensures
        (#[trigger] content.pinned(key)).sound(),
{
    reveal(SpecContent::sound);
    cache::pinning_and_removing_keep_the_cache_sound(content.cache, key);
}

/// A new core's content is sound.
pub proof fn new_content_is_sound(config: SpecCacheConfig)
    ensures
        SpecContent::new(config).sound(),
{
    reveal(SpecContent::sound);
}

// ---- laws -----------------------------------------------------------------

/// A window holds the chunks of its rows, with the prefetch radius on both
/// sides, clipped to the file.
pub proof fn windows_cover_the_viewport(
    content: SpecRenderContent,
    first_row: u32,
    last_row: u32,
    chunk: ChunkIndex,
)
    requires
        first_row <= last_row,
    ensures
        match (content, ChunkWindow::spec_around(content, first_row, last_row)) {
            (SpecRenderContent::Text { chunk_rows, chunk_count, .. }, Some(w)) => {
                &&& w.first <= w.centre <= w.last < chunk_count
                &&& w.has(chunk) <==> {
                    &&& chunk.0 < chunk_count
                    &&& diff::smaller(
                        first_row / chunk_rows,
                        (chunk_count - 1) as u32,
                    ) <= chunk.0 + PREFETCH_RADIUS
                    &&& chunk.0 <= diff::smaller(
                        last_row / chunk_rows,
                        (chunk_count - 1) as u32,
                    ) + PREFETCH_RADIUS
                }
            },
            (_, None) => true,
            _ => false,
        },
{
    if let SpecRenderContent::Text { chunk_rows, .. } = content {
        if chunk_rows > 0 {
            assert(first_row / chunk_rows <= last_row / chunk_rows) by (nonlinear_arith)
                requires
                    first_row <= last_row,
                    chunk_rows > 0,
            ;
        }
    }
}

/// The chunks of a window are asked for nearest first, each once.
pub proof fn windows_are_asked_for_nearest_first(window: ChunkWindow)
    ensures
        window.in_order().to_multiset() == window.chunks().to_multiset(),
        forall|i: int, j: int|
            0 <= i < j < window.chunks().len() ==> window.distance(#[trigger] window.in_order()[i])
                <= window.distance(#[trigger] window.in_order()[j]),
{
    data::lemma_sorted(window.chunks(), window.nearer());
    assert forall|i: int, j: int| 0 <= i < j < window.chunks().len() implies window.distance(
        #[trigger] window.in_order()[i],
    ) <= window.distance(#[trigger] window.in_order()[j]) by {
        assert(window.nearer()(window.in_order()[i], window.in_order()[j]));
    }
}

/// A tree stays sorted by path, whatever changes in it.
pub proof fn deltas_keep_trees_sorted(tree: SpecTreeSnapshot, delta: SpecTreeDelta)
    ensures
        forall|i: int, j: int|
            0 <= i < j < tree.after_delta(delta).entries.len() ==> text::le(
                (#[trigger] tree.after_delta(delta).entries[i]).path.text,
                (#[trigger] tree.after_delta(delta).entries[j]).path.text,
            ),
        tree.after_delta(delta).entries.to_multiset() == (tree.entries.filter(untouched_by(delta)) + delta.added
            + delta.changed).to_multiset(),
        tree.after_delta(delta).root_oid == delta.to_root,
{
    let le = path_order();
    assert forall|a: SpecTreeEntry, b: SpecTreeEntry| #[trigger] le(a, b) || le(b, a) by {
        text::lemma_le_total(a.path.text, b.path.text);
    }
    assert forall|a: SpecTreeEntry, b: SpecTreeEntry, c: SpecTreeEntry| #[trigger] le(a, b) && #[trigger] le(
        b,
        c,
    ) implies le(a, c) by {
        text::lemma_le_trans(a.path.text, b.path.text, c.path.text);
    }
    let all = tree.entries.filter(untouched_by(delta)) + delta.added + delta.changed;
    data::lemma_sorted(all, le);
    let out = tree.after_delta(delta).entries;
    assert forall|i: int, j: int| 0 <= i < j < out.len() implies text::le(
        (#[trigger] out[i]).path.text,
        (#[trigger] out[j]).path.text,
    ) by {
        assert(le(out[i], out[j]));
    }
}

/// The disk index drops the least recently used first, keeps what was just
/// used, and fits its budget unless that alone is over it.
pub proof fn the_disk_is_trimmed_oldest_first(entries: Seq<SpecDiskEntry>, budget: Bytes)
    requires
        entries.len() > 0,
    ensures
        ({
            let (kept, gone) = trim_disk(entries, budget);
            &&& kept.len() + gone.len() == entries.len()
            &&& kept == entries.skip(gone.len() as int)
            &&& forall|i: int| 0 <= i < gone.len() ==> #[trigger] gone[i] == entries[i].key
            &&& kept.last() == entries.last()
            &&& disk_total(kept) <= budget.0 || kept.len() == 1
        }),
    decreases entries.len(),
{
    if !(disk_total(entries) <= budget.0 || entries.len() <= 1) {
        the_disk_is_trimmed_oldest_first(entries.drop_first(), budget);
        let (kept, gone) = trim_disk(entries.drop_first(), budget);
        let all = seq![entries[0].key] + gone;
        assert(entries.drop_first().skip(gone.len() as int) =~= entries.skip(all.len() as int));
        assert forall|i: int| 0 <= i < all.len() implies #[trigger] all[i] == entries[i].key by {
            if i > 0 {
                assert(all[i] == gone[i - 1]);
            }
        }
    } else {
        assert(entries.skip(0) =~= entries);
    }
}

} // verus!
