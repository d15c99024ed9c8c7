//! Content cache, memory tier.
//!
//! Every entry is content-addressed: trees by repository and root, render
//! headers and chunks by what was rendered and how. So nothing here is ever
//! stale, and entries only leave by eviction under the byte budget, least
//! recently used first. Values are headers and chunks, never whole files.
//!
//! [`ContentCache::insert`] reports what it evicted, so that the caller can
//! write those entries through to disk.
use vstd::prelude::*;

use crate::data;
use crate::data::Value;
use crate::protocol::{
    ChunkIndex, FileRenderHeader, RenderChunk, RenderOpts, RenderTarget, RepoId, RepoPath,
    SpecFileRenderHeader, SpecRenderChunk, SpecRenderOpts, SpecRenderTarget, SpecRepoPath,
    SpecTreeSnapshot, TreeOid, TreeSnapshot,
};

verus! {

/// A byte count for cache budgets and entry sizes.
#[derive(Debug, Clone, Copy, PartialEq, Eq, PartialOrd, Ord, Structural)]
pub struct Bytes(pub u64);

impl DeepView for Bytes {
    type V = Bytes;

    open spec fn deep_view(&self) -> Bytes {
        *self
    }
}

impl Value for Bytes {
    fn dup(&self) -> (r: Self) {
        *self
    }

    fn same(&self, other: &Self) -> (b: bool) {
        *self == *other
    }
}

impl Bytes {
    pub fn zero() -> (r: Self)
        ensures
            r == Bytes(0),
    {
        Bytes(0)
    }

    pub fn mib(n: u64) -> (r: Self)
        requires
            n * 1_048_576 <= u64::MAX,
        ensures
            r.0 == n * 1_048_576,
    {
        Bytes(n * 1_048_576)
    }

    pub fn get(self) -> (r: u64)
        ensures
            r == self.0,
    {
        self.0
    }
}

/// A rendered file: which file, of what, with which options. Shared by the
/// header key and every chunk key of that render.
#[derive(Debug, PartialEq, Eq)]
pub struct RenderKey {
    pub repo_id: RepoId,
    pub path: RepoPath,
    pub target: RenderTarget,
    pub opts: RenderOpts,
}

/// Model of [`RenderKey`].
#[verifier::ext_equal]
pub struct SpecRenderKey {
    pub repo_id: RepoId,
    pub path: SpecRepoPath,
    pub target: SpecRenderTarget,
    pub opts: SpecRenderOpts,
}

impl DeepView for RenderKey {
    type V = SpecRenderKey;

    open spec fn deep_view(&self) -> SpecRenderKey {
        SpecRenderKey {
            repo_id: self.repo_id,
            path: self.path.deep_view(),
            target: self.target.deep_view(),
            opts: self.opts.deep_view(),
        }
    }
}

impl Value for RenderKey {
    fn dup(&self) -> (r: Self) {
        RenderKey {
            repo_id: self.repo_id,
            path: self.path.dup(),
            target: self.target.dup(),
            opts: self.opts.dup(),
        }
    }

    fn same(&self, other: &Self) -> (b: bool) {
        self.repo_id == other.repo_id
            && self.path.same(&other.path)
            && self.target.same(&other.target)
            && self.opts.same(&other.opts)
    }
}

/// A repository's immutable tree. A root names contents; a snapshot also
/// belongs to the repository that navigation and mutations speak of.
#[derive(Debug, Clone, Copy, PartialEq, Eq, Structural)]
pub struct TreeKey {
    pub repo_id: RepoId,
    pub root: TreeOid,
}

impl DeepView for TreeKey {
    type V = TreeKey;

    open spec fn deep_view(&self) -> TreeKey {
        *self
    }
}

impl Value for TreeKey {
    fn dup(&self) -> (r: Self) {
        *self
    }

    fn same(&self, other: &Self) -> (b: bool) {
        *self == *other
    }
}

/// What a cache entry is.
#[derive(Debug, PartialEq, Eq)]
pub enum CacheKey {
    Tree { tree: TreeKey },
    Header { render: RenderKey },
    Chunk { render: RenderKey, index: ChunkIndex },
}

/// Model of [`CacheKey`].
#[verifier::ext_equal]
pub enum SpecCacheKey {
    Tree { tree: TreeKey },
    Header { render: SpecRenderKey },
    Chunk { render: SpecRenderKey, index: ChunkIndex },
}

impl DeepView for CacheKey {
    type V = SpecCacheKey;

    open spec fn deep_view(&self) -> SpecCacheKey {
        match self {
            CacheKey::Tree { tree } => SpecCacheKey::Tree {
                tree: *tree,
            },
            CacheKey::Header { render } => SpecCacheKey::Header {
                render: render.deep_view(),
            },
            CacheKey::Chunk { render, index } => SpecCacheKey::Chunk {
                render: render.deep_view(),
                index: *index,
            },
        }
    }
}

impl Value for CacheKey {
    fn dup(&self) -> (r: Self) {
        match self {
            CacheKey::Tree { tree } => CacheKey::Tree {
                tree: *tree,
            },
            CacheKey::Header { render } => CacheKey::Header {
                render: render.dup(),
            },
            CacheKey::Chunk { render, index } => CacheKey::Chunk {
                render: render.dup(),
                index: *index,
            },
        }
    }

    fn same(&self, other: &Self) -> (b: bool) {
        match (self, other) {
            (CacheKey::Tree { tree: a0 }, CacheKey::Tree { tree: b0 }) => *a0 == *b0,
            (CacheKey::Header { render: a0 }, CacheKey::Header { render: b0 }) => a0.same(b0),
            (CacheKey::Chunk { render: a0, index: a1 }, CacheKey::Chunk { render: b0, index: b1 }) => a0.same(b0) && *a1 == *b1,
            _ => false,
        }
    }
}

/// A cache entry's value, variant for variant as [`CacheKey`].
#[derive(Debug, PartialEq, Eq)]
pub enum CacheValue {
    Tree { snapshot: TreeSnapshot },
    Header { header: FileRenderHeader },
    Chunk { chunk: RenderChunk },
}

/// Model of [`CacheValue`].
#[verifier::ext_equal]
pub enum SpecCacheValue {
    Tree { snapshot: SpecTreeSnapshot },
    Header { header: SpecFileRenderHeader },
    Chunk { chunk: SpecRenderChunk },
}

impl DeepView for CacheValue {
    type V = SpecCacheValue;

    open spec fn deep_view(&self) -> SpecCacheValue {
        match self {
            CacheValue::Tree { snapshot } => SpecCacheValue::Tree {
                snapshot: snapshot.deep_view(),
            },
            CacheValue::Header { header } => SpecCacheValue::Header {
                header: header.deep_view(),
            },
            CacheValue::Chunk { chunk } => SpecCacheValue::Chunk {
                chunk: chunk.deep_view(),
            },
        }
    }
}

impl Value for CacheValue {
    fn dup(&self) -> (r: Self) {
        match self {
            CacheValue::Tree { snapshot } => CacheValue::Tree {
                snapshot: snapshot.dup(),
            },
            CacheValue::Header { header } => CacheValue::Header {
                header: header.dup(),
            },
            CacheValue::Chunk { chunk } => CacheValue::Chunk {
                chunk: chunk.dup(),
            },
        }
    }

    fn same(&self, other: &Self) -> (b: bool) {
        match (self, other) {
            (CacheValue::Tree { snapshot: a0 }, CacheValue::Tree { snapshot: b0 }) => a0.same(b0),
            (CacheValue::Header { header: a0 }, CacheValue::Header { header: b0 }) => a0.same(b0),
            (CacheValue::Chunk { chunk: a0 }, CacheValue::Chunk { chunk: b0 }) => a0.same(b0),
            _ => false,
        }
    }
}

/// An entry the memory tier dropped under budget pressure.
#[derive(Debug, PartialEq, Eq)]
pub struct Evicted {
    pub key: CacheKey,
    pub value: CacheValue,
    pub size: Bytes,
}

/// Model of [`Evicted`].
#[verifier::ext_equal]
pub struct SpecEvicted {
    pub key: SpecCacheKey,
    pub value: SpecCacheValue,
    pub size: Bytes,
}

impl DeepView for Evicted {
    type V = SpecEvicted;

    open spec fn deep_view(&self) -> SpecEvicted {
        SpecEvicted {
            key: self.key.deep_view(),
            value: self.value.deep_view(),
            size: self.size,
        }
    }
}

impl Value for Evicted {
    fn dup(&self) -> (r: Self) {
        Evicted {
            key: self.key.dup(),
            value: self.value.dup(),
            size: self.size,
        }
    }

    fn same(&self, other: &Self) -> (b: bool) {
        self.key.same(&other.key)
            && self.value.same(&other.value)
            && self.size == other.size
    }
}

/// The memory tier: entries from least to most recently used, a byte budget
/// and a set of pins. A pinned entry never leaves, even if that keeps the
/// cache over budget.
#[derive(Debug, PartialEq, Eq)]
pub struct ContentCache {
    pub(crate) budget: Bytes,
    pub(crate) entries: Vec<Evicted>,
    pub(crate) pinned: Vec<CacheKey>,
}

/// Model of [`ContentCache`].
#[verifier::ext_equal]
pub struct SpecContentCache {
    pub budget: Bytes,
    pub entries: Seq<SpecEvicted>,
    pub pinned: Seq<SpecCacheKey>,
}

impl DeepView for ContentCache {
    type V = SpecContentCache;

    open(crate) spec fn deep_view(&self) -> SpecContentCache {
        SpecContentCache {
            budget: self.budget,
            entries: self.entries.deep_view(),
            pinned: self.pinned.deep_view(),
        }
    }
}

impl Value for ContentCache {
    fn dup(&self) -> (r: Self) {
        ContentCache {
            budget: self.budget,
            entries: self.entries.dup(),
            pinned: self.pinned.dup(),
        }
    }

    fn same(&self, other: &Self) -> (b: bool) {
        self.budget == other.budget
            && self.entries.same(&other.entries)
            && self.pinned.same(&other.pinned)
    }
}


impl RenderKey {
    pub fn of_header(header: &FileRenderHeader) -> (r: Self)
        ensures
            r.deep_view() == header.deep_view().render_key(),
    {
        RenderKey {
            repo_id: header.repo_id,
            path: header.path.dup(),
            target: header.target.dup(),
            opts: header.opts.dup(),
        }
    }

    /// Whether this is a render of the file `path` of `repo_id`.
    pub fn is_of(&self, repo_id: RepoId, path: &RepoPath) -> (b: bool)
        ensures
            b == self.deep_view().is_of(repo_id, path.deep_view()),
    {
        self.repo_id == repo_id && self.path.same(path)
    }
}

impl SpecRenderKey {
    pub open spec fn is_of(self, repo_id: RepoId, path: SpecRepoPath) -> bool {
        self.repo_id == repo_id && self.path == path
    }
}

impl SpecFileRenderHeader {
    /// The render this header describes.
    pub open spec fn render_key(self) -> SpecRenderKey {
        SpecRenderKey { repo_id: self.repo_id, path: self.path, target: self.target, opts: self.opts }
    }
}

impl TreeKey {
    pub fn of_snapshot(snapshot: &TreeSnapshot) -> (r: Self)
        ensures
            r == snapshot.deep_view().tree_key(),
    {
        TreeKey { repo_id: snapshot.repo_id, root: snapshot.root_oid }
    }
}

impl SpecTreeSnapshot {
    pub open spec fn tree_key(self) -> TreeKey {
        TreeKey { repo_id: self.repo_id, root: self.root_oid }
    }
}

impl CacheKey {
    /// The render this key belongs to, for header and chunk keys.
    pub fn render(&self) -> (r: Option<&RenderKey>)
        ensures
            match r {
                Some(k) => self.deep_view().render() == Some(k.deep_view()),
                None => self.deep_view().render() is None,
            },
    {
        match self {
            CacheKey::Tree { .. } => None,
            CacheKey::Header { render } => Some(render),
            CacheKey::Chunk { render, .. } => Some(render),
        }
    }
}

impl SpecCacheKey {
    pub open spec fn render(self) -> Option<SpecRenderKey> {
        match self {
            SpecCacheKey::Tree { .. } => None,
            SpecCacheKey::Header { render } => Some(render),
            SpecCacheKey::Chunk { render, .. } => Some(render),
        }
    }
}

impl CacheValue {
    /// Whether this value is the right shape for `key`.
    pub fn matches(&self, key: &CacheKey) -> (b: bool)
        ensures
            b == self.deep_view().matches(key.deep_view()),
    {
        match (self, key) {
            (
                CacheValue::Tree { snapshot },
                CacheKey::Tree { tree },
            ) => TreeKey::of_snapshot(snapshot) == *tree,
            (
                CacheValue::Header { header },
                CacheKey::Header { render },
            ) => RenderKey::of_header(header).same(render),
            (CacheValue::Chunk { chunk }, CacheKey::Chunk { index, .. }) => chunk.index == *index,
            _ => false,
        }
    }
}

impl SpecCacheValue {
    pub open spec fn matches(self, key: SpecCacheKey) -> bool {
        match (self, key) {
            (SpecCacheValue::Tree { snapshot }, SpecCacheKey::Tree { tree }) => snapshot.tree_key() == tree,
            (
                SpecCacheValue::Header { header },
                SpecCacheKey::Header { render },
            ) => header.render_key() == render,
            (SpecCacheValue::Chunk { chunk }, SpecCacheKey::Chunk { index, .. }) => chunk.index == index,
            _ => false,
        }
    }
}

// ---- the model ------------------------------------------------------------

pub open spec fn keyed(key: SpecCacheKey) -> spec_fn(SpecEvicted) -> bool {
    |e: SpecEvicted| e.key == key
}

/// Entries no pin holds.
pub open spec fn unpinned(pinned: Seq<SpecCacheKey>) -> spec_fn(SpecEvicted) -> bool {
    |e: SpecEvicted| !pinned.contains(e.key)
}

pub open spec fn key_is_not(key: SpecCacheKey) -> spec_fn(SpecCacheKey) -> bool {
    |k: SpecCacheKey| k != key
}

/// Bytes the entries take together.
pub open spec fn total(entries: Seq<SpecEvicted>) -> nat
    decreases entries.len(),
{
    if entries.len() == 0 {
        0
    } else {
        total(entries.drop_last()) + entries.last().size.0 as nat
    }
}

/// What stays of `entries`, and what leaves, oldest first: while over
/// budget, the least recently used entry without a pin leaves.
pub open spec fn evict(entries: Seq<SpecEvicted>, pinned: Seq<SpecCacheKey>, budget: Bytes) -> (
    Seq<SpecEvicted>,
    Seq<SpecEvicted>,
)
    decreases entries.len(),
{
    if total(entries) <= budget.0 {
        (entries, Seq::empty())
    } else {
        match data::first_where(entries, unpinned(pinned)) {
            Some(i) => if 0 <= i < entries.len() {
                let (kept, gone) = evict(entries.remove(i), pinned, budget);
                (kept, seq![entries[i]] + gone)
            } else {
                (entries, Seq::empty())
            },
            None => (entries, Seq::empty()),
        }
    }
}

/// The list without its first entry for `key`.
pub open spec fn without(entries: Seq<SpecEvicted>, key: SpecCacheKey) -> Seq<SpecEvicted> {
    match data::first_where(entries, keyed(key)) {
        Some(i) => entries.remove(i),
        None => entries,
    }
}

/// `keep` may answer `verdict` when it is asked of a key.
pub open spec fn answers<F: Fn(&CacheKey) -> bool>(keep: F, key: SpecCacheKey, verdict: bool) -> bool {
    exists|k: CacheKey| #[trigger] k.deep_view() == key && keep.ensures((&k,), verdict)
}

/// `keep` may answer `verdicts` when it is asked of each of `keys`.
pub open spec fn answers_all<F: Fn(&CacheKey) -> bool>(
    keep: F,
    keys: Seq<SpecCacheKey>,
    verdicts: Seq<bool>,
) -> bool {
    &&& verdicts.len() == keys.len()
    &&& forall|i: int| 0 <= i < keys.len() ==> answers(keep, keys[i], #[trigger] verdicts[i])
}

/// The keys with a favourable verdict, in order.
pub open spec fn chosen(keys: Seq<SpecCacheKey>, verdicts: Seq<bool>) -> Seq<SpecCacheKey>
    decreases keys.len(),
{
    if keys.len() == 0 {
        Seq::empty()
    } else if verdicts.last() {
        chosen(keys.drop_last(), verdicts.drop_last()).push(keys.last())
    } else {
        chosen(keys.drop_last(), verdicts.drop_last())
    }
}

proof fn lemma_chosen(keys: Seq<SpecCacheKey>, verdicts: Seq<bool>, p: spec_fn(SpecCacheKey) -> bool)
    requires
        verdicts.len() == keys.len(),
        forall|i: int| 0 <= i < keys.len() ==> #[trigger] verdicts[i] == p(keys[i]),
    ensures
        chosen(keys, verdicts) == keys.filter(p),
    decreases keys.len(),
{
    reveal(Seq::filter);
    if keys.len() > 0 {
        let rest = verdicts.drop_last();
        assert forall|i: int| 0 <= i < rest.len() implies #[trigger] rest[i] == p(keys.drop_last()[i]) by {
            assert(rest[i] == verdicts[i]);
        }
        lemma_chosen(keys.drop_last(), rest, p);
        assert(verdicts.last() == verdicts[keys.len() - 1]);
    } else {
        assert(keys.filter(p) =~= Seq::empty());
    }
}

impl SpecContentCache {
    pub open spec fn entry(self, key: SpecCacheKey) -> Option<SpecEvicted> {
        data::found(self.entries, keyed(key))
    }

    pub open spec fn contains(self, key: SpecCacheKey) -> bool {
        self.entry(key) is Some
    }

    pub open spec fn peek(self, key: SpecCacheKey) -> Option<SpecCacheValue> {
        match self.entry(key) {
            Some(e) => Some(e.value),
            None => None,
        }
    }

    /// The cache once `key` is its most recently used entry.
    pub open spec fn touched(self, key: SpecCacheKey) -> SpecContentCache {
        match self.entry(key) {
            Some(e) => SpecContentCache { entries: without(self.entries, key).push(e), ..self },
            None => self,
        }
    }

    pub open spec fn used(self) -> nat {
        total(self.entries)
    }

    /// The cache trimmed to its budget, and what left.
    pub open spec fn trimmed(self) -> (SpecContentCache, Seq<SpecEvicted>) {
        let (kept, gone) = evict(self.entries, self.pinned, self.budget);
        (SpecContentCache { entries: kept, ..self }, gone)
    }

    pub open spec fn inserted(self, key: SpecCacheKey, value: SpecCacheValue, size: Bytes) -> (
        SpecContentCache,
        Seq<SpecEvicted>,
    ) {
        SpecContentCache {
            entries: without(self.entries, key).push(SpecEvicted { key, value, size }),
            ..self
        }.trimmed()
    }

    pub open spec fn removed(self, key: SpecCacheKey) -> SpecContentCache {
        if self.contains(key) {
            SpecContentCache {
                entries: without(self.entries, key),
                pinned: self.pinned.filter(key_is_not(key)),
                ..self
            }
        } else {
            self
        }
    }

    pub open spec fn with_pin(self, key: SpecCacheKey) -> SpecContentCache {
        if self.pinned.contains(key) {
            self
        } else {
            SpecContentCache { pinned: self.pinned.push(key), ..self }
        }
    }

    pub open spec fn without_pin(self, key: SpecCacheKey) -> SpecContentCache {
        SpecContentCache { pinned: self.pinned.filter(key_is_not(key)), ..self }
    }

    pub open spec fn with_pins_kept(self, keep: spec_fn(SpecCacheKey) -> bool) -> (SpecContentCache, Seq<SpecEvicted>) {
        SpecContentCache { pinned: self.pinned.filter(keep), ..self }.trimmed()
    }

    pub open spec fn tree(self, tree: TreeKey) -> Option<SpecTreeSnapshot> {
        match self.peek(SpecCacheKey::Tree { tree }) {
            Some(SpecCacheValue::Tree { snapshot }) => Some(snapshot),
            _ => None,
        }
    }

    pub open spec fn header(self, render: SpecRenderKey) -> Option<SpecFileRenderHeader> {
        match self.peek(SpecCacheKey::Header { render }) {
            Some(SpecCacheValue::Header { header }) => Some(header),
            _ => None,
        }
    }

    pub open spec fn chunk(self, render: SpecRenderKey, index: ChunkIndex) -> Option<SpecRenderChunk> {
        match self.peek(SpecCacheKey::Chunk { render, index }) {
            Some(SpecCacheValue::Chunk { chunk }) => Some(chunk),
            _ => None,
        }
    }
}

proof fn lemma_total_bound(entries: Seq<SpecEvicted>)
    ensures
        total(entries) <= entries.len() * 0xffff_ffff_ffff_ffff,
    decreases entries.len(),
{
    if entries.len() > 0 {
        lemma_total_bound(entries.drop_last());
        assert((entries.len() - 1) * 0xffff_ffff_ffff_ffff + 0xffff_ffff_ffff_ffff == entries.len() * 0xffff_ffff_ffff_ffff)
            by (nonlinear_arith);
    }
}

// ---- the cache ------------------------------------------------------------

impl ContentCache {
    pub fn new(budget: Bytes) -> (r: Self)
        ensures
            r.deep_view() == (SpecContentCache { budget, entries: Seq::empty(), pinned: Seq::empty() }),
    {
        ContentCache { budget, entries: data::empty(), pinned: data::empty() }
    }

    pub fn budget(&self) -> (r: Bytes)
        ensures
            r == self.deep_view().budget,
    {
        self.budget
    }

    /// Bytes the entries take together.
    fn total(&self) -> (r: u128)
        ensures
            r == self.deep_view().used(),
    {
        let n: usize = self.entries.len();
        let mut sum: u128 = 0;
        let ghost s = self.entries.deep_view();
        for i in 0..n
            invariant
                n == self.entries@.len(),
                s == self.entries.deep_view(),
                sum == total(s.take(i as int)),
        {
            assert(s.take(i + 1).drop_last() =~= s.take(i as int));
            proof {
                lemma_total_bound(s.take(i as int));
                assert(i * 0xffff_ffff_ffff_ffff <= 0xffff_ffff_ffff_ffff * 0xffff_ffff_ffff_ffff) by (nonlinear_arith)
                    requires
                        0 <= i <= 0xffff_ffff_ffff_ffff,
                ;
            }
            sum = sum + self.entries[i].size.0 as u128;
        }
        assert(s.take(n as int) =~= s);
        sum
    }

    /// Bytes in use, as far as a byte count can say.
    pub fn used(&self) -> (r: Bytes)
        ensures
            r.0 == if self.deep_view().used() <= u64::MAX {
                self.deep_view().used() as int
            } else {
                u64::MAX as int
            },
    {
        let sum: u128 = self.total();
        if sum <= 0xffff_ffff_ffff_ffff {
            Bytes(sum as u64)
        } else {
            Bytes(u64::MAX)
        }
    }

    pub fn len(&self) -> (r: usize)
        ensures
            r == self.deep_view().entries.len(),
    {
        self.entries.len()
    }

    pub fn is_empty(&self) -> (r: bool)
        ensures
            r == (self.deep_view().entries.len() == 0),
    {
        self.entries.len() == 0
    }

    fn at(&self, key: &CacheKey) -> (r: Option<usize>)
        ensures
            match r {
                Some(i) => i < self.entries@.len() && data::first_where(
                    self.entries.deep_view(),
                    keyed(key.deep_view()),
                ) == Some(i as int) && self.deep_view().entry(key.deep_view()) == Some(
                    self.entries@[i as int].deep_view(),
                ),
                None => data::first_where(self.entries.deep_view(), keyed(key.deep_view())) is None,
            },
    {
        data::position(
            &self.entries,
            |e: &Evicted| -> (b: bool)
                ensures
                    b == keyed(key.deep_view())(e.deep_view())
            { e.key.same(key) },
            Ghost(keyed(key.deep_view())),
        )
    }

    pub fn contains(&self, key: &CacheKey) -> (b: bool)
        ensures
            b == self.deep_view().contains(key.deep_view()),
    {
        self.at(key).is_some()
    }

    /// Look up and mark as most recently used.
    pub fn get(&mut self, key: &CacheKey) -> (r: Option<&CacheValue>)
        ensures
            final(self).deep_view() == old(self).deep_view().touched(key.deep_view()),
            match r {
                Some(v) => old(self).deep_view().peek(key.deep_view()) == Some(v.deep_view()),
                None => old(self).deep_view().peek(key.deep_view()) is None,
            },
    {
        match self.at(key) {
            Some(i) => {
                let e = data::remove(&mut self.entries, i);
                data::push(&mut self.entries, e);
                assert(self.entries.deep_view().len() == self.entries@.len());
                let last: usize = self.entries.len() - 1;
                assert(self.entries.deep_view().last() == self.entries@[last as int].deep_view());
                Some(&self.entries[last].value)
            },
            None => None,
        }
    }

    /// Look up without touching recency.
    pub fn peek(&self, key: &CacheKey) -> (r: Option<&CacheValue>)
        ensures
            match r {
                Some(v) => self.deep_view().peek(key.deep_view()) == Some(v.deep_view()),
                None => self.deep_view().peek(key.deep_view()) is None,
            },
    {
        match self.at(key) {
            Some(i) => Some(&self.entries[i].value),
            None => None,
        }
    }

    pub fn tree(&mut self, tree: TreeKey) -> (r: Option<&TreeSnapshot>)
        ensures
            final(self).deep_view() == old(self).deep_view().touched(SpecCacheKey::Tree { tree }),
            match r {
                Some(s) => old(self).deep_view().tree(tree) == Some(s.deep_view()),
                None => old(self).deep_view().tree(tree) is None,
            },
    {
        match self.get(&CacheKey::Tree { tree }) {
            Some(CacheValue::Tree { snapshot }) => Some(snapshot),
            _ => None,
        }
    }

    pub fn header(&mut self, render: &RenderKey) -> (r: Option<&FileRenderHeader>)
        ensures
            final(self).deep_view() == old(self).deep_view().touched(
                SpecCacheKey::Header { render: render.deep_view() },
            ),
            match r {
                Some(h) => old(self).deep_view().header(render.deep_view()) == Some(h.deep_view()),
                None => old(self).deep_view().header(render.deep_view()) is None,
            },
    {
        match self.get(&CacheKey::Header { render: render.dup() }) {
            Some(CacheValue::Header { header }) => Some(header),
            _ => None,
        }
    }

    pub fn chunk(&mut self, render: &RenderKey, index: ChunkIndex) -> (r: Option<&RenderChunk>)
        ensures
            final(self).deep_view() == old(self).deep_view().touched(
                SpecCacheKey::Chunk { render: render.deep_view(), index },
            ),
            match r {
                Some(c) => old(self).deep_view().chunk(render.deep_view(), index) == Some(c.deep_view()),
                None => old(self).deep_view().chunk(render.deep_view(), index) is None,
            },
    {
        match self.get(&CacheKey::Chunk { render: render.dup(), index }) {
            Some(CacheValue::Chunk { chunk }) => Some(chunk),
            _ => None,
        }
    }

    /// The snapshot of a tree, without touching recency.
    pub fn peek_tree(&self, tree: TreeKey) -> (r: Option<&TreeSnapshot>)
        ensures
            match r {
                Some(s) => self.deep_view().tree(tree) == Some(s.deep_view()),
                None => self.deep_view().tree(tree) is None,
            },
    {
        match self.peek(&CacheKey::Tree { tree }) {
            Some(CacheValue::Tree { snapshot }) => Some(snapshot),
            _ => None,
        }
    }

    /// The header of a render, without touching recency.
    pub fn peek_header(&self, render: &RenderKey) -> (r: Option<&FileRenderHeader>)
        ensures
            match r {
                Some(h) => self.deep_view().header(render.deep_view()) == Some(h.deep_view()),
                None => self.deep_view().header(render.deep_view()) is None,
            },
    {
        match self.peek(&CacheKey::Header { render: render.dup() }) {
            Some(CacheValue::Header { header }) => Some(header),
            _ => None,
        }
    }

    /// A chunk of a render, without touching recency.
    pub fn peek_chunk(&self, render: &RenderKey, index: ChunkIndex) -> (r: Option<&RenderChunk>)
        ensures
            match r {
                Some(c) => self.deep_view().chunk(render.deep_view(), index) == Some(c.deep_view()),
                None => self.deep_view().chunk(render.deep_view(), index) is None,
            },
    {
        match self.peek(&CacheKey::Chunk { render: render.dup(), index }) {
            Some(CacheValue::Chunk { chunk }) => Some(chunk),
            _ => None,
        }
    }

    /// Insert or replace, then evict the least recently used entries without
    /// a pin until the budget holds. Returns what was evicted, oldest first.
    /// `size` is the value's encoded length.
    pub fn insert(&mut self, key: CacheKey, value: CacheValue, size: Bytes) -> (r: Vec<Evicted>)
        ensures
            (final(self).deep_view(), r.deep_view()) == old(self).deep_view().inserted(
                key.deep_view(),
                value.deep_view(),
                size,
            ),
    {
        if let Some(i) = self.at(&key) {
            let _ = data::remove(&mut self.entries, i);
        }
        data::push(&mut self.entries, Evicted { key, value, size });
        self.evict()
    }

    /// Drop an entry, and its pin, without writing it anywhere.
    pub fn remove(&mut self, key: &CacheKey) -> (r: Option<CacheValue>)
        ensures
            final(self).deep_view() == old(self).deep_view().removed(key.deep_view()),
            r.deep_view() == old(self).deep_view().peek(key.deep_view()),
    {
        match self.at(key) {
            Some(i) => {
                let e = data::remove(&mut self.entries, i);
                self.unpin(key);
                Some(e.value)
            },
            None => None,
        }
    }

    /// Keep `key` resident whatever the pressure. A pin on a missing key
    /// applies once the entry arrives.
    pub fn pin(&mut self, key: CacheKey)
        ensures
            final(self).deep_view() == old(self).deep_view().with_pin(key.deep_view()),
    {
        if !data::contains(&self.pinned, &key) {
            data::push(&mut self.pinned, key);
        }
    }

    pub fn unpin(&mut self, key: &CacheKey)
        ensures
            final(self).deep_view() == old(self).deep_view().without_pin(key.deep_view()),
    {
        data::retain(
            &mut self.pinned,
            |k: &CacheKey| -> (b: bool)
                ensures
                    b == key_is_not(key.deep_view())(k.deep_view())
            { !k.same(key) },
            Ghost(key_is_not(key.deep_view())),
        );
    }

    /// Release every pin `keep` rejects, then evict down to budget.
    pub fn retain_pins<F: Fn(&CacheKey) -> bool>(&mut self, keep: F) -> (r: Vec<Evicted>)
        requires
            forall|k: &CacheKey| #[trigger] keep.requires((k,)),
        ensures
            exists|verdicts: Seq<bool>| #[trigger]
                answers_all(
                    keep,
                    old(self).deep_view().pinned,
                    verdicts,
                ) && (final(self).deep_view(), r.deep_view())
                    == (SpecContentCache {
                    pinned: chosen(old(self).deep_view().pinned, verdicts),
                    ..old(self).deep_view()
                }).trimmed(),
            forall|p: spec_fn(SpecCacheKey) -> bool| #[trigger]
                data::decides(keep, p) ==> (final(self).deep_view(), r.deep_view())
                    == old(self).deep_view().with_pins_kept(p),
    {
        let ghost keys = self.pinned.deep_view();
        let ghost mut verdicts = Seq::<bool>::empty();
        let mut kept: Vec<CacheKey> = data::empty();
        let n: usize = self.pinned.len();
        for i in 0..n
            invariant
                n == self.pinned@.len(),
                keys == self.pinned.deep_view(),
                *self == *old(self),
                forall|k: &CacheKey| #[trigger] keep.requires((k,)),
                answers_all(keep, keys.take(i as int), verdicts),
                kept.deep_view() == chosen(keys.take(i as int), verdicts),
        {
            let b = keep(&self.pinned[i]);
            proof {
                let before = verdicts;
                verdicts = verdicts.push(b);
                assert(verdicts.drop_last() =~= before);
                assert(keys.take(i + 1).drop_last() =~= keys.take(i as int));
                assert(self.pinned@[i as int].deep_view() == keys[i as int]);
                assert forall|k: int| 0 <= k <= i implies answers(keep, keys.take(i + 1)[k], #[trigger] verdicts[k]) by {
                    if k < i {
                        assert(keys.take(i + 1)[k] == keys.take(i as int)[k]);
                        assert(answers(keep, keys.take(i as int)[k], before[k]));
                    }
                }
            }
            if b {
                data::push(&mut kept, self.pinned[i].dup());
            }
        }
        assert(keys.take(n as int) =~= keys);
        proof {
            assert forall|p: spec_fn(SpecCacheKey) -> bool| #[trigger] data::decides(keep, p) implies chosen(
                keys,
                verdicts,
            ) == keys.filter(p) by {
                assert forall|k: int| 0 <= k < keys.len() implies #[trigger] verdicts[k] == p(keys[k]) by {
                    assert(answers(keep, keys[k], verdicts[k]));
                    let key = choose|key: CacheKey| #[trigger]
                        key.deep_view() == keys[k] && keep.ensures((&key,), verdicts[k]);
                    assert(keep.ensures((&key,), verdicts[k]));
                }
                lemma_chosen(keys, verdicts, p);
            }
        }
        self.pinned = kept;
        proof {
            let after = SpecContentCache { pinned: chosen(keys, verdicts), ..old(self).deep_view() };
            assert(self.deep_view() == after);
            assert(answers_all(keep, old(self).deep_view().pinned, verdicts));
        }
        self.evict()
    }

    /// Release every pin, then evict down to budget.
    pub fn clear_pins(&mut self) -> (r: Vec<Evicted>)
        ensures
            (final(self).deep_view(), r.deep_view()) == (SpecContentCache {
                pinned: Seq::empty(),
                ..old(self).deep_view()
            }).trimmed(),
    {
        self.pinned = data::empty();
        self.evict()
    }

    pub fn is_pinned(&self, key: &CacheKey) -> (b: bool)
        ensures
            b == self.deep_view().pinned.contains(key.deep_view()),
    {
        data::contains(&self.pinned, key)
    }

    /// Every key held, least recently used first.
    pub fn keys(&self) -> (r: Vec<CacheKey>)
        ensures
            r.deep_view() == self.deep_view().entries.map_values(|e: SpecEvicted| e.key),
    {
        data::map(
            &self.entries,
            |e: &Evicted| -> (k: CacheKey)
                ensures
                    k.deep_view() == e.deep_view().key
            { e.key.dup() },
            Ghost(|e: SpecEvicted| e.key),
        )
    }

    fn evict(&mut self) -> (r: Vec<Evicted>)
        ensures
            (final(self).deep_view(), r.deep_view()) == old(self).deep_view().trimmed(),
    {
        let ghost start = self.deep_view();
        let mut out: Vec<Evicted> = data::empty();
        let ghost rest = evict(start.entries, start.pinned, start.budget);
        assert(out.deep_view() + rest.1 =~= rest.1);
        loop
            invariant
                self.deep_view().pinned == start.pinned,
                self.deep_view().budget == start.budget,
                rest == evict(start.entries, start.pinned, start.budget),
                rest.0 == evict(self.deep_view().entries, start.pinned, start.budget).0,
                rest.1 == out.deep_view() + evict(self.deep_view().entries, start.pinned, start.budget).1,
            ensures
                self.deep_view().pinned == start.pinned,
                self.deep_view().budget == start.budget,
                self.deep_view().entries == rest.0,
                out.deep_view() == rest.1,
            decreases self.entries@.len(),
        {
            let ghost here = self.deep_view().entries;
            let sum: u128 = self.total();
            if sum <= self.budget.0 as u128 {
                assert(out.deep_view() + Seq::empty() =~= out.deep_view());
                break;
            }
            let pinned = &self.pinned;
            let next = data::position(
                &self.entries,
                |e: &Evicted| -> (b: bool)
                    ensures
                        b == unpinned(pinned.deep_view())(e.deep_view())
                { !data::contains(pinned, &e.key) },
                Ghost(unpinned(pinned.deep_view())),
            );
            match next {
                Some(i) => {
                    let ghost before = out.deep_view();
                    let e = data::remove(&mut self.entries, i);
                    let ghost m = e.deep_view();
                    data::push(&mut out, e);
                    proof {
                        let later = evict(here.remove(i as int), start.pinned, start.budget).1;
                        assert(before + (seq![m] + later) =~= before.push(m) + later);
                    }
                },
                None => {
                    assert(out.deep_view() + Seq::empty() =~= out.deep_view());
                    break;
                },
            }
        }
        out
    }
}

// ---- laws -----------------------------------------------------------------

/// No key has two entries.
pub open spec fn one_per_key(entries: Seq<SpecEvicted>) -> bool {
    forall|i: int, j: int|
        0 <= i < j < entries.len() ==> (#[trigger] entries[i]).key != (#[trigger] entries[j]).key
}

impl SpecContentCache {
    /// No key has two entries, and the entries fit the budget unless pins
    /// hold all of them.
    pub open spec fn sound(self) -> bool {
        &&& one_per_key(self.entries)
        &&& self.used() <= self.budget.0 || forall|i: int|
            0 <= i < self.entries.len() ==> self.pinned.contains((#[trigger] self.entries[i]).key)
    }
}

proof fn lemma_total_remove(entries: Seq<SpecEvicted>, i: int)
    requires
        0 <= i < entries.len(),
    ensures
        total(entries.remove(i)) + entries[i].size.0 == total(entries),
    decreases entries.len(),
{
    if i == entries.len() - 1 {
        assert(entries.remove(i) =~= entries.drop_last());
    } else {
        lemma_total_remove(entries.drop_last(), i);
        assert(entries.remove(i).drop_last() =~= entries.drop_last().remove(i));
        assert(entries.remove(i).last() == entries.last());
    }
}

proof fn lemma_filter_first<A>(s: Seq<A>, p: spec_fn(A) -> bool, i: int)
    requires
        0 <= i < s.len(),
        p(s[i]),
        forall|j: int| 0 <= j < i ==> !p(#[trigger] s[j]),
    ensures
        s.filter(p) == seq![s[i]] + s.remove(i).filter(p),
{
    let a = s.take(i);
    let b = s.skip(i + 1);
    assert(s =~= a + seq![s[i]] + b);
    assert(s.remove(i) =~= a + b);
    Seq::filter_distributes_over_add(a + seq![s[i]], b, p);
    Seq::filter_distributes_over_add(a, seq![s[i]], p);
    Seq::filter_distributes_over_add(a, b, p);
    a.lemma_all_neg_filter_empty(p);
    assert(a.filter(p) =~= Seq::empty());
    assert(seq![s[i]].filter(p) =~= seq![s[i]]) by {
        reveal(Seq::filter);
        assert(seq![s[i]].drop_last() =~= Seq::empty());
        assert(Seq::<A>::empty().filter(p) =~= Seq::empty());
    }
    assert(s.filter(p) =~= seq![s[i]] + s.remove(i).filter(p));
}

/// What leaves is unpinned and the least recently used of that; nothing
/// leaves once the rest fits; and when nothing more leaves, the rest fits
/// or is all pinned.
pub proof fn evictions_are_oldest_first_and_no_more_than_needed(
    entries: Seq<SpecEvicted>,
    pinned: Seq<SpecCacheKey>,
    budget: Bytes,
)
    ensures
        ({
            let (kept, gone) = evict(entries, pinned, budget);
            let loose = entries.filter(unpinned(pinned));
            &&& gone.len() <= loose.len() && gone == loose.take(gone.len() as int)
            &&& total(kept) <= budget.0 || forall|i: int|
                0 <= i < kept.len() ==> pinned.contains((#[trigger] kept[i]).key)
            &&& gone.len() > 0 ==> total(kept) + gone.last().size.0 > budget.0
            &&& forall|i: int| 0 <= i < gone.len() ==> !pinned.contains((#[trigger] gone[i]).key)
        }),
    decreases entries.len(),
{
    let p = unpinned(pinned);
    data::lemma_first_where(entries, p);
    let loose = entries.filter(p);
    if total(entries) <= budget.0 {
        assert(loose.take(0) =~= Seq::empty());
    } else {
        match data::first_where(entries, p) {
            Some(i) => {
                let rest = entries.remove(i);
                evictions_are_oldest_first_and_no_more_than_needed(rest, pinned, budget);
                lemma_filter_first(entries, p, i);
                lemma_total_remove(entries, i);
                let (kept, gone) = evict(rest, pinned, budget);
                let all = seq![entries[i]] + gone;
                assert(all =~= loose.take(all.len() as int)) by {
                    assert(forall|k: int| 0 <= k < gone.len() ==> gone[k] == rest.filter(p).take(gone.len() as int)[k]);
                }
                if gone.len() == 0 {
                    assert(kept == rest) by {
                        data::lemma_first_where(rest, p);
                    }
                    assert(all.last() == entries[i]);
                } else {
                    assert(all.last() == gone.last());
                }
                assert forall|k: int| 0 <= k < all.len() implies !pinned.contains((#[trigger] all[k]).key) by {
                    if k > 0 {
                        assert(all[k] == gone[k - 1]);
                    }
                }
            },
            None => {
                assert(loose.take(0) =~= Seq::empty());
                assert forall|k: int| 0 <= k < entries.len() implies pinned.contains((#[trigger] entries[k]).key) by {
                    assert(!p(entries[k]));
                }
            },
        }
    }
}

proof fn lemma_evict_keeps_one_per_key(entries: Seq<SpecEvicted>, pinned: Seq<SpecCacheKey>, budget: Bytes)
    requires
        one_per_key(entries),
    ensures
        one_per_key(evict(entries, pinned, budget).0),
    decreases entries.len(),
{
    if total(entries) > budget.0 {
        data::lemma_first_where(entries, unpinned(pinned));
        if let Some(i) = data::first_where(entries, unpinned(pinned)) {
            lemma_evict_keeps_one_per_key(entries.remove(i), pinned, budget);
        }
    }
}

proof fn lemma_without(entries: Seq<SpecEvicted>, key: SpecCacheKey)
    requires
        one_per_key(entries),
    ensures
        one_per_key(without(entries, key)),
        total(without(entries, key)) <= total(entries),
        forall|i: int| 0 <= i < without(entries, key).len() ==> (#[trigger] without(entries, key)[i]).key != key,
        forall|i: int|
            0 <= i < without(entries, key).len() ==> entries.contains(#[trigger] without(entries, key)[i]),
{
    data::lemma_first_where(entries, keyed(key));
    if let Some(i) = data::first_where(entries, keyed(key)) {
        lemma_total_remove(entries, i);
        let rest = entries.remove(i);
        assert forall|j: int| 0 <= j < rest.len() implies (#[trigger] rest[j]).key != key && entries.contains(rest[j]) by {
            if j < i {
                assert(rest[j] == entries[j]);
                assert(!keyed(key)(entries[j]));
            } else {
                assert(rest[j] == entries[j + 1]);
                assert(entries[i].key != entries[j + 1].key);
            }
        }
    } else {
        assert forall|j: int| 0 <= j < entries.len() implies (#[trigger] entries[j]).key != key by {
            assert(!keyed(key)(entries[j]));
        }
    }
}

/// Trimming makes a cache sound.
pub proof fn trimming_makes_the_cache_sound(cache: SpecContentCache)
    requires
        one_per_key(cache.entries),
    ensures
        cache.trimmed().0.sound(),
{
    lemma_evict_keeps_one_per_key(cache.entries, cache.pinned, cache.budget);
    evictions_are_oldest_first_and_no_more_than_needed(cache.entries, cache.pinned, cache.budget);
}

/// Whatever is inserted, the cache stays sound: one entry per key, and
/// within its budget unless pins hold everything that is left.
pub proof fn insertions_keep_the_cache_sound(
    cache: SpecContentCache,
    key: SpecCacheKey,
    value: SpecCacheValue,
    size: Bytes,
)
    requires
        cache.sound(),
    ensures
        cache.inserted(key, value, size).0.sound(),
{
    lemma_without(cache.entries, key);
    let more = without(cache.entries, key).push(SpecEvicted { key, value, size });
    trimming_makes_the_cache_sound(SpecContentCache { entries: more, ..cache });
}

/// Releasing pins keeps the cache sound: what no pin holds any more leaves
/// while the cache is over budget.
pub proof fn releasing_pins_keeps_the_cache_sound(
    cache: SpecContentCache,
    keep: spec_fn(SpecCacheKey) -> bool,
)
    requires
        cache.sound(),
    ensures
        cache.with_pins_kept(keep).0.sound(),
{
    trimming_makes_the_cache_sound(SpecContentCache { pinned: cache.pinned.filter(keep), ..cache });
}

/// Pinning and dropping an entry keep the cache sound.
pub proof fn pinning_and_removing_keep_the_cache_sound(cache: SpecContentCache, key: SpecCacheKey)
    requires
        cache.sound(),
    ensures
        cache.with_pin(key).sound(),
        cache.removed(key).sound(),
{
    assert forall|k: SpecCacheKey| cache.pinned.contains(k) implies #[trigger] cache.with_pin(key).pinned.contains(k) by {
        let i = choose|i: int| 0 <= i < cache.pinned.len() && cache.pinned[i] == k;
        if !cache.pinned.contains(key) {
            assert(cache.pinned.push(key)[i] == k);
        }
    }
    lemma_without(cache.entries, key);
    let rest = without(cache.entries, key);
    let pins = cache.pinned.filter(key_is_not(key));
    assert forall|i: int| 0 <= i < rest.len() && cache.pinned.contains(rest[i].key) implies pins.contains(
        (#[trigger] rest[i]).key,
    ) by {
        let j = choose|j: int| 0 <= j < cache.pinned.len() && cache.pinned[j] == rest[i].key;
        cache.pinned.lemma_filter_contains(key_is_not(key), j);
    }
    if !(total(rest) <= cache.budget.0) {
        assert forall|i: int| 0 <= i < rest.len() implies cache.pinned.contains((#[trigger] rest[i]).key) by {
            let j = choose|j: int| 0 <= j < cache.entries.len() && cache.entries[j] == rest[i];
            assert(cache.pinned.contains(cache.entries[j].key));
        }
    }
}

} // verus!
