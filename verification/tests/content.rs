use nits_client_core::cache::{Bytes, CacheKey, TreeKey};
use nits_client_core::content::{apply_delta, ref_spec_of, ChunkWindow, DiskIndex};
use nits_client_core::protocol::{
    BlobOid, ChunkIndex, CommitOid, Expansions, FileRenderHeader, GapTable, RefSpec, RenderContent,
    RenderOpts, RenderTarget, RepoId, RepoPath, ResolvedRef, ResolvedSource, TreeDelta, TreeEntry,
    TreeEntryKind, TreeOid, TreeSnapshot,
};

fn oid(fill: u8) -> TreeOid {
    TreeOid { high: u32::from_be_bytes([fill; 4]), low: u128::from_be_bytes([fill; 16]) }
}

fn path(text: &str) -> RepoPath {
    RepoPath { text: text.to_string() }
}

fn header(chunk_rows: u32, chunk_count: u32) -> FileRenderHeader {
    FileRenderHeader {
        repo_id: RepoId(1),
        path: path("a"),
        target: RenderTarget::Blob { oid: BlobOid { high: 0, low: 1 } },
        opts: RenderOpts {
            ignore_whitespace: false,
            context_lines: 3,
            expanded: Expansions { open: Vec::new() },
        },
        lang: None,
        content: RenderContent::Text {
            total_rows: chunk_rows * chunk_count,
            chunk_rows,
            chunk_count,
            highlighted: true,
            additions: 0,
            deletions: 0,
            gaps: GapTable { json: "{}".to_string() },
        },
    }
}

#[test]
fn window_is_viewport_plus_radius_clipped_to_file() {
    let h = header(100, 1000);
    let w = ChunkWindow::around(&h, 0, 50).unwrap();
    assert_eq!((w.first, w.last), (0, 2));
    let w = ChunkWindow::around(&h, 5_050, 5_150).unwrap();
    assert_eq!((w.first, w.last), (48, 53));
    assert_eq!(
        w.by_distance().iter().map(|c| c.0).collect::<Vec<u32>>(),
        vec![50, 49, 51, 48, 52, 53]
    );
    let w = ChunkWindow::around(&h, 99_990, 200_000).unwrap();
    assert_eq!((w.first, w.last), (997, 999));
    assert!(ChunkWindow::around(&header(100, 0), 0, 0).is_none());
}

#[test]
fn binary_files_have_no_window_and_windows_know_their_chunks() {
    let mut h = header(100, 1000);
    h.content = RenderContent::Binary;
    assert!(ChunkWindow::around(&h, 0, 50).is_none());
    let w = ChunkWindow::around(&header(100, 1000), 5_050, 5_150).unwrap();
    assert!(w.contains(ChunkIndex(48)) && w.contains(ChunkIndex(53)));
    assert!(!w.contains(ChunkIndex(47)) && !w.contains(ChunkIndex(54)));
    assert!(ChunkWindow::around(&header(0, 10), 4, 4).is_none());
}

#[test]
fn delta_replaces_changed_and_keeps_sorted() {
    let repo_id = RepoId(1);
    let entry = |p: &str, fill: u8| TreeEntry {
        path: path(p),
        kind: TreeEntryKind::File {
            oid: BlobOid { high: fill as u32, low: fill as u128 },
            size: 1,
            executable: false,
        },
    };
    let snapshot = TreeSnapshot {
        repo_id,
        root_oid: oid(1),
        entries: vec![entry("a", 1), entry("b", 1), entry("c", 1)],
    };
    let delta = TreeDelta {
        repo_id,
        from_root: oid(1),
        to_root: oid(2),
        added: vec![entry("aa", 2)],
        removed: vec![path("c")],
        changed: vec![entry("b", 3)],
    };
    let out = apply_delta(snapshot, &delta);
    assert_eq!(out.root_oid, delta.to_root);
    assert_eq!(
        out.entries.iter().map(|e| e.path.text.clone()).collect::<Vec<String>>(),
        vec!["a", "aa", "b"]
    );
    assert_eq!(out.entries[2].kind, entry("b", 3).kind);
}

#[test]
fn disk_index_trims_oldest_first() {
    let mut d = DiskIndex::new(Bytes(20));
    let k = |f: u8| CacheKey::Tree { tree: TreeKey { repo_id: RepoId(1), root: oid(f) } };
    assert!(d.touch(&k(1), Bytes(10)).is_empty());
    assert!(d.touch(&k(2), Bytes(10)).is_empty());
    assert_eq!(d.touch(&k(3), Bytes(10)), vec![k(1)]);
    // Touching refreshes; a single oversize entry is kept.
    assert!(d.touch(&k(2), Bytes(10)).is_empty());
    assert_eq!(d.touch(&k(4), Bytes(30)), vec![k(3), k(2)]);
    assert_eq!(d.used(), Bytes(30));
    assert!(d.knows(&k(4)) && !d.knows(&k(2)));
    d.forget(&k(4));
    assert_eq!(d.used(), Bytes::zero());
}

#[test]
fn resolved_revisions_are_named_by_their_source() {
    let commit = CommitOid { high: 7, low: 8 };
    let at = |source: ResolvedSource| ref_spec_of(&ResolvedRef { source, tree: oid(1) });
    assert_eq!(at(ResolvedSource::Commit { oid: commit }), RefSpec::Commit { oid: commit });
    assert_eq!(at(ResolvedSource::WorkingTree), RefSpec::WorkingTree);
}
