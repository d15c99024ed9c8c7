use nits_client_core::cache::{Bytes, CacheKey, CacheValue, ContentCache, RenderKey, TreeKey};
use nits_client_core::protocol::{
    BlobOid, Expansions, FileRenderHeader, RenderContent, RenderOpts, RenderTarget, RepoId,
    RepoPath, TreeOid, TreeSnapshot,
};

fn repo() -> RepoId {
    RepoId::from_parts(1, 1)
}

fn oid(fill: u8) -> TreeOid {
    TreeOid { high: u32::from_be_bytes([fill; 4]), low: u128::from_be_bytes([fill; 16]) }
}

fn key(fill: u8) -> TreeKey {
    TreeKey { repo_id: repo(), root: oid(fill) }
}

fn tree_key(fill: u8) -> CacheKey {
    CacheKey::Tree { tree: key(fill) }
}

fn tree_value(fill: u8) -> CacheValue {
    CacheValue::Tree {
        snapshot: TreeSnapshot { repo_id: repo(), root_oid: oid(fill), entries: Vec::new() },
    }
}

#[test]
fn hit_and_miss() {
    let mut c = ContentCache::new(Bytes(100));
    assert!(c.get(&tree_key(1)).is_none());
    assert!(c.insert(tree_key(1), tree_value(1), Bytes(10)).is_empty());
    assert_eq!(c.get(&tree_key(1)), Some(&tree_value(1)));
    assert_eq!(c.used(), Bytes(10));
    assert!(c.tree(key(1)).is_some());
    assert!(c.tree(key(2)).is_none());
    // The same root in another repository is another tree.
    assert!(c.tree(TreeKey { repo_id: RepoId(20), root: oid(1) }).is_none());
}

#[test]
fn eviction_is_lru_and_respects_budget() {
    let mut c = ContentCache::new(Bytes(30));
    c.insert(tree_key(1), tree_value(1), Bytes(10));
    c.insert(tree_key(2), tree_value(2), Bytes(10));
    c.insert(tree_key(3), tree_value(3), Bytes(10));
    // Touch 1 so 2 becomes the oldest.
    c.get(&tree_key(1));
    let evicted = c.insert(tree_key(4), tree_value(4), Bytes(10));
    assert_eq!(evicted.len(), 1);
    assert_eq!(evicted[0].key, tree_key(2));
    assert_eq!(evicted[0].size, Bytes(10));
    assert!(c.used() <= c.budget());
    assert!(c.contains(&tree_key(1)));
    assert!(!c.contains(&tree_key(2)));
    // A large insert evicts several, oldest first.
    let evicted = c.insert(tree_key(5), tree_value(5), Bytes(25));
    let keys: Vec<CacheKey> = evicted.into_iter().map(|e| e.key).collect();
    assert_eq!(keys, vec![tree_key(3), tree_key(1), tree_key(4)]);
    assert_eq!(c.len(), 1);
}

#[test]
fn pinned_entries_survive_pressure() {
    let mut c = ContentCache::new(Bytes(20));
    c.insert(tree_key(1), tree_value(1), Bytes(10));
    c.pin(tree_key(1));
    c.insert(tree_key(2), tree_value(2), Bytes(10));
    let evicted = c.insert(tree_key(3), tree_value(3), Bytes(10));
    assert_eq!(evicted[0].key, tree_key(2));
    assert!(c.contains(&tree_key(1)));
    // Pins can hold the cache over budget; nothing unpinned remains.
    c.pin(tree_key(3));
    let evicted = c.insert(tree_key(4), tree_value(4), Bytes(15));
    assert_eq!(evicted[0].key, tree_key(4));
    assert_eq!(c.used(), Bytes(20));
    assert_eq!(c.len(), 2);
    // Releasing a pin makes the entry evictable again, oldest first.
    assert!(c.retain_pins(|k| *k == tree_key(3)).is_empty());
    assert!(!c.is_pinned(&tree_key(1)) && c.is_pinned(&tree_key(3)));
    let evicted = c.insert(tree_key(5), tree_value(5), Bytes(5));
    assert_eq!(evicted.len(), 1);
    assert_eq!(evicted[0].key, tree_key(1));
    assert!(c.used() <= c.budget());
    assert!(c.clear_pins().is_empty());
}

#[test]
fn replace_accounts_for_old_size() {
    let mut c = ContentCache::new(Bytes(100));
    c.insert(tree_key(1), tree_value(1), Bytes(10));
    c.insert(tree_key(1), tree_value(1), Bytes(30));
    assert_eq!(c.used(), Bytes(30));
    assert_eq!(c.len(), 1);
    assert!(c.remove(&tree_key(1)).is_some());
    assert_eq!(c.used(), Bytes::zero());
}

#[test]
fn value_and_key_round_trip_and_match() {
    let v = tree_value(7);
    assert!(v.matches(&tree_key(7)));
    assert!(!v.matches(&tree_key(8)));
}

#[test]
fn a_peek_does_not_touch_the_order_and_a_get_does() {
    let mut c = ContentCache::new(Bytes(20));
    c.insert(tree_key(1), tree_value(1), Bytes(10));
    c.insert(tree_key(2), tree_value(2), Bytes(10));
    assert!(c.peek(&tree_key(1)).is_some());
    assert!(c.peek_tree(key(1)).is_some());
    assert_eq!(c.keys(), vec![tree_key(1), tree_key(2)]);
    assert_eq!(c.insert(tree_key(3), tree_value(3), Bytes(10))[0].key, tree_key(1));
    assert!(c.get(&tree_key(2)).is_some());
    assert_eq!(c.keys(), vec![tree_key(3), tree_key(2)]);
}

#[test]
fn released_pins_trim_the_cache_back_to_its_budget() {
    let mut c = ContentCache::new(Bytes(10));
    c.pin(tree_key(1));
    c.pin(tree_key(2));
    c.insert(tree_key(1), tree_value(1), Bytes(10));
    c.insert(tree_key(2), tree_value(2), Bytes(10));
    assert_eq!(c.used(), Bytes(20));
    let evicted = c.clear_pins();
    assert_eq!(evicted.len(), 1);
    assert_eq!(evicted[0].key, tree_key(1));
    assert_eq!(c.used(), Bytes(10));
    c.pin(tree_key(2));
    c.unpin(&tree_key(2));
    assert!(!c.is_pinned(&tree_key(2)));
    assert!(!c.is_empty());
}

#[test]
fn sums_of_sizes_stop_at_the_largest_number() {
    let mut c = ContentCache::new(Bytes(u64::MAX));
    c.pin(tree_key(1));
    c.pin(tree_key(2));
    c.insert(tree_key(1), tree_value(1), Bytes(u64::MAX));
    c.insert(tree_key(2), tree_value(2), Bytes(u64::MAX));
    assert_eq!(c.used(), Bytes(u64::MAX));
    assert_eq!(Bytes::mib(3).get(), 3 * 1024 * 1024);
}

#[test]
fn headers_are_found_under_the_key_they_describe() {
    let header = FileRenderHeader {
        repo_id: repo(),
        path: RepoPath { text: "src/lib.rs".to_string() },
        target: RenderTarget::Blob { oid: BlobOid { high: 1, low: 2 } },
        opts: RenderOpts {
            ignore_whitespace: false,
            context_lines: 3,
            expanded: Expansions { open: Vec::new() },
        },
        lang: None,
        content: RenderContent::Binary,
    };
    let render = RenderKey::of_header(&header);
    assert!(render.is_of(repo(), &RepoPath { text: "src/lib.rs".to_string() }));
    assert!(!render.is_of(repo(), &RepoPath { text: "src/main.rs".to_string() }));
    let value = CacheValue::Header { header };
    let at = CacheKey::Header { render: RenderKey { ..render } };
    assert!(value.matches(&at));
    assert!(!tree_value(1).matches(&at));
    let mut c = ContentCache::new(Bytes(100));
    c.insert(at, value, Bytes(1));
    assert_eq!(c.len(), 1);
    assert!(matches!(&c.keys()[0], CacheKey::Header { render } if c.peek_header(render).is_some()));
}
