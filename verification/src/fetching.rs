//! How trees, render headers and chunks get into the cache and onto the
//! screen.
use vstd::prelude::*;

use crate::browse::{Browse, SpecBrowse};
use crate::cache;
use crate::cache::{
    Bytes, CacheKey, CacheValue, ContentCache, RenderKey, SpecCacheKey, SpecCacheValue,
    SpecContentCache, SpecEvicted, SpecRenderKey, TreeKey,
};
use crate::client;
use crate::client::{ClientCore, CoreError, SpecClientCore, SpecCoreError, SpecStored, Stored};
use crate::content;
use crate::content::{
    CacheConfig, ChunkWindow, Fetch, FetchState, Keep, SpecContent, SpecFetch, SpecFetchState,
    SpecKeep, PREFETCH_RADIUS,
};
use crate::data;
use crate::data::Value;
use crate::diff::{FileRef, SpecFileRef};
use crate::explorer;
use crate::flow;
use crate::flow::{
    Errand, InFlight, Key, SpecErrand, SpecFlow, SpecInFlight, SpecKey, SpecPersisted,
};
use crate::focus::{Focus, PAGE_ROWS};
use crate::protocol::{
    BlobOid, ChunkIndex, ClientMsg, FileChange, RenderChunk, RenderContent, SpecRenderContent, RenderOpts,
    RenderTarget, RepoId, Request, RequestId, ResolvedRef, ResolvedTarget, ReviewId, Side,
    SpecClientMsg, SpecFileChange, SpecRenderChunk, SpecRenderOpts, SpecRenderTarget, SpecRequest,
    SpecTreeDelta, TreeDelta, TreeEntry, TreeEntryKind, TreeOid, ViewSection,
};
use crate::view::{OpenFile, OpenReview, SpecOpenFile, SpecOpenReview, Tab, ViewPrefs};

verus! {

/// How a value reached the cache.
#[derive(Debug, Clone, Copy, PartialEq, Eq, Structural)]
pub enum Arrival {
    Stream,
    Disk,
    Response,
}

impl DeepView for Arrival {
    type V = Arrival;

    open spec fn deep_view(&self) -> Arrival {
        *self
    }
}

impl Value for Arrival {
    fn dup(&self) -> (r: Self) {
        *self
    }

    fn same(&self, other: &Self) -> (b: bool) {
        *self == *other
    }
}


/// Pins the open review, its open file and the browsed tree still need.
pub open spec fn needed(open: Option<SpecOpenReview>, browse: Option<SpecBrowse>) -> spec_fn(SpecCacheKey) -> bool {
    |k: SpecCacheKey|
        match open {
            Some(r) => match k {
                SpecCacheKey::Tree { tree } => r.trees.contains(tree.root) || (browse is Some && tree == TreeKey {
                    repo_id: browse->0.target.repo_id,
                    root: browse->0.root,
                }),
                SpecCacheKey::Header { render } => r.files.contains(render) || r.original == Some(render)
                    || r.open_render() == Some(render),
                SpecCacheKey::Chunk { render, .. } => r.open_render() == Some(render),
            },
            None => false,
        }
}

fn is_needed(open: &Option<OpenReview>, browse: &Option<Browse>, k: &CacheKey) -> (b: bool)
    ensures
        b == needed(open.deep_view(), browse.deep_view())(k.deep_view()),
{
    match open {
        Some(r) => match k {
            CacheKey::Tree { tree } => data::contains(&r.trees, &tree.root) || match browse {
                Some(b) => *tree == TreeKey { repo_id: b.target.repo_id, root: b.root },
                None => false,
            },
            CacheKey::Header { render } => data::contains(&r.files, render) || match &r.original {
                Some(o) => o.same(render),
                None => false,
            } || r.shows(render),
            CacheKey::Chunk { render, .. } => r.shows(render),
        },
        None => false,
    }
}

pub open spec fn chunk_of(render: SpecRenderKey) -> spec_fn(SpecCacheKey) -> bool {
    |k: SpecCacheKey|
        match k {
            SpecCacheKey::Chunk { render: r, .. } => r == render,
            _ => false,
        }
}

/// The cache with a pin on every key.
pub open spec fn with_pins(cache: SpecContentCache, keys: Seq<SpecCacheKey>) -> SpecContentCache
    decreases keys.len(),
{
    if keys.len() == 0 {
        cache
    } else {
        with_pins(cache, keys.drop_last()).with_pin(keys.last())
    }
}

/// The fetches, and one more unless the tree is among them.
pub open spec fn with_tree(fetches: Seq<SpecFetch>, repo_id: RepoId, r: ResolvedRef) -> Seq<SpecFetch> {
    let key = SpecCacheKey::Tree { tree: TreeKey { repo_id, root: r.tree } };
    if data::some_where(fetches, content::fetch_of(key)) {
        fetches
    } else {
        fetches.push(SpecFetch::Tree { repo_id, ref_spec: content::ref_spec_for(r), root: r.tree })
    }
}

/// The trees of the targets, base before head, each once.
pub open spec fn tree_fetches(targets: Seq<ResolvedTarget>) -> Seq<SpecFetch>
    decreases targets.len(),
{
    if targets.len() == 0 {
        Seq::empty()
    } else {
        let t = targets.last();
        with_tree(with_tree(tree_fetches(targets.drop_last()), t.repo_id, t.base), t.repo_id, t.head)
    }
}

/// The root a tree fetch is for.
pub open spec fn root_of(f: SpecFetch) -> TreeOid {
    match f {
        SpecFetch::Tree { root, .. } => root,
        _ => arbitrary(),
    }
}

pub open spec fn roots_of(fetches: Seq<SpecFetch>) -> Seq<TreeOid>
    decreases fetches.len(),
{
    if fetches.len() == 0 {
        Seq::empty()
    } else {
        match fetches.last() {
            SpecFetch::Tree { root, .. } => roots_of(fetches.drop_last()).push(root),
            _ => roots_of(fetches.drop_last()),
        }
    }
}

pub open spec fn target_in(repo_id: RepoId) -> spec_fn(ResolvedTarget) -> bool {
    |t: ResolvedTarget| t.repo_id == repo_id
}

/// The content of a file or link.
pub open spec fn blob_of(kind: TreeEntryKind) -> Option<BlobOid> {
    match kind {
        TreeEntryKind::File { oid, .. } => Some(oid),
        TreeEntryKind::Symlink { oid } => Some(oid),
        _ => None,
    }
}

/// One render key per changed file.
pub open spec fn render_of_change(opts: SpecRenderOpts) -> spec_fn(SpecFileChange) -> SpecRenderKey {
    |f: SpecFileChange|
        SpecRenderKey {
            repo_id: f.repo_id,
            path: f.path,
            target: SpecRenderTarget::Diff { change: f.kind },
            opts,
        }
}

impl SpecClientCore {
    pub open spec fn want(self, fetch: SpecFetch) -> SpecClientCore {
        self.with_flow(self.flow.want(self.view.review, fetch))
    }

    pub open spec fn with_content(self, content: SpecContent) -> SpecClientCore {
        self.with_flow(self.flow.with_content(content))
    }

    pub open spec fn pin(self, key: SpecCacheKey) -> SpecClientCore {
        self.with_content(self.flow.content.pinned(key))
    }

    pub open spec fn request(self, request: SpecRequest, what: SpecInFlight) -> SpecClientCore {
        self.with_flow(self.flow.request(request, what))
    }

    pub open spec fn content_done(self) -> SpecClientCore {
        self.with_flow(self.flow.content_done(self.view.review))
    }

    pub open spec fn open_render(self) -> Option<SpecRenderKey> {
        match self.view.review {
            Some(open) => open.open_render(),
            None => None,
        }
    }

    /// A value that is kept resident as it arrives.
    pub open spec fn needs_pin(self, key: SpecCacheKey) -> bool {
        match self.view.review {
            Some(open) => match key {
                SpecCacheKey::Tree { tree } => open.trees.contains(tree.root),
                SpecCacheKey::Header { .. } => true,
                SpecCacheKey::Chunk { render, .. } => open.open_render() == Some(render),
            },
            None => false,
        }
    }

    /// The chunks the viewport on `render` covers, if it is open and its
    /// geometry is known.
    pub open spec fn viewport_window(self, render: SpecRenderKey) -> Option<ChunkWindow> {
        match self.view.review {
            Some(open) => match open.open_file {
                Some(f) => if f.render == render {
                    match self.flow.content.cache.header(render) {
                        Some(h) => ChunkWindow::spec_around(h.content, f.first_row, f.last_row),
                        None => None,
                    }
                } else {
                    None
                },
                None => None,
            },
            None => None,
        }
    }

    pub open spec fn want_chunks(self, render: SpecRenderKey, indices: Seq<ChunkIndex>) -> SpecClientCore
        decreases indices.len(),
    {
        if indices.len() == 0 {
            self
        } else {
            self.want_chunks(render, indices.drop_last()).want(
                SpecFetch::Chunk { render, index: indices.last() },
            )
        }
    }

    #[verifier::opaque]
    pub open spec fn want_viewport_chunks(self, render: SpecRenderKey) -> SpecClientCore {
        match self.viewport_window(render) {
            Some(w) => self.want_chunks(render, w.in_order()),
            None => self,
        }
    }

    /// After a header is known: the open file's window, or the first chunk
    /// of a file of the review.
    #[verifier::opaque]
    pub open spec fn want_chunks_for(self, render: SpecRenderKey, content: SpecRenderContent) -> SpecClientCore {
        match content {
            SpecRenderContent::Text { chunk_count, .. } => if chunk_count == 0 {
                self
            } else if self.open_render() == Some(render) {
                self.want_viewport_chunks(render)
            } else if self.view.review is Some && self.view.review->0.files.contains(render) {
                self.want(SpecFetch::Chunk { render, index: ChunkIndex(0) })
            } else {
                self
            },
            SpecRenderContent::Binary => self,
        }
    }

    /// A render whose header is here belongs to the review.
    #[verifier::opaque]
    pub open spec fn listed(self, render: SpecRenderKey) -> SpecClientCore {
        match self.view.review {
            Some(open) => if open.files.contains(render) || open.original == Some(render) || open.open_render() == Some(
                render,
            ) {
                self
            } else {
                self.with_open(SpecOpenReview { files: open.files.push(render), ..open })
            },
            None => self,
        }
    }

    /// A value is put into the cache, and on disk unless it came from there.
    #[verifier::opaque]
    pub open spec fn stocked(self, key: SpecCacheKey, value: SpecCacheValue, size: Bytes, via: Arrival) -> SpecClientCore {
        let c = self.with_content(self.flow.content.forgot(key));
        let c = if c.needs_pin(key) {
            c.pin(key)
        } else {
            c
        };
        let flow = if via is Disk {
            c.flow
        } else {
            c.flow.persisted(key, value, size)
        };
        c.with_flow(flow.inserted(key, value, size))
    }

    /// A value reached the core: it is cached, pinned if what is open needs
    /// it, and what follows from it is wanted.
    #[verifier::opaque]
    pub open spec fn arrived(self, key: SpecCacheKey, value: SpecCacheValue, size: Bytes, via: Arrival) -> SpecClientCore {
        let c = self.stocked(key, value, size, via);
        match (key, value) {
            (SpecCacheKey::Header { render }, SpecCacheValue::Header { header }) => {
                let c = c.listed(render);
                if via is Stream {
                    c
                } else {
                    c.want_chunks_for(render, header.content)
                }
            },
            (SpecCacheKey::Chunk { render, index }, SpecCacheValue::Chunk { .. }) => match c.viewport_window(render) {
                Some(w) => if w.has(index) {
                    c.touch(seq![ViewSection::Diff])
                } else {
                    c
                },
                None => c,
            },
            _ => c,
        }
    }

    /// Pins that nothing needs are released.
    #[verifier::opaque]
    pub open spec fn retained(self) -> SpecClientCore {
        self.with_flow(self.flow.pins_kept(needed(self.view.review, self.browse)))
    }

    /// One tree is pinned and, unless a stream brings it, wanted.
    pub open spec fn planted(self, fetches: Seq<SpecFetch>, fetch: bool) -> SpecClientCore
        decreases fetches.len(),
    {
        if fetches.len() == 0 {
            self
        } else {
            let c = self.planted(fetches.drop_last(), fetch).pin(fetches.last().key());
            if fetch {
                c.want(fetches.last())
            } else {
                c
            }
        }
    }

    /// The trees of the current targets belong to the review.
    #[verifier::opaque]
    pub open spec fn review_trees(self, fetch: bool) -> SpecClientCore {
        match self.view.review {
            Some(open) => {
                let fetches = tree_fetches(open.current_targets());
                self.with_open(
                    SpecOpenReview { trees: roots_of(fetches), ..open },
                ).retained().planted(fetches, fetch)
            },
            None => self,
        }
    }

    /// The current scope of the open review.
    pub open spec fn scope(self) -> crate::protocol::DiffScope {
        match self.view.review {
            Some(open) => open.scope,
            None => crate::protocol::DiffScope::All,
        }
    }

    pub open spec fn list_files(self, review_id: ReviewId) -> SpecClientCore {
        self.request(
            SpecRequest::ListFiles { review_id, scope: self.scope() },
            SpecInFlight::ListFiles { review_id },
        )
    }

    /// One file's header is pinned and wanted; if it is here already, its
    /// chunks are wanted.
    #[verifier::opaque]
    pub open spec fn prefetched(self, review_id: ReviewId, render: SpecRenderKey) -> SpecClientCore {
        let c = self.pin(SpecCacheKey::Header { render });
        let fetch = SpecFetch::Render {
            review_id,
            render,
            first_chunk: ChunkIndex(0),
            stop_after: ChunkIndex(0),
        };
        if c.flow.content.cache.contains(fetch.key()) {
            match c.flow.content.cache.header(render) {
                Some(h) => c.want_chunks_for(render, h.content),
                None => c,
            }
        } else {
            c.want(fetch)
        }
    }

    pub open spec fn all_prefetched(self, review_id: ReviewId, renders: Seq<SpecRenderKey>) -> SpecClientCore
        decreases renders.len(),
    {
        if renders.len() == 0 {
            self
        } else {
            self.all_prefetched(review_id, renders.drop_last()).prefetched(review_id, renders.last())
        }
    }

    /// The file list answered: it replaces the old one and each header is
    /// prefetched.
    #[verifier::opaque]
    pub open spec fn review_files(self, review_id: ReviewId, files: Seq<SpecFileChange>) -> SpecClientCore {
        match self.view.review {
            Some(open) => {
                let renders = files.map_values(render_of_change(self.flow.content.config.render_opts));
                let stays = match open.open_render() {
                    Some(r) => renders.contains(r) || open.original == Some(r),
                    None => false,
                };
                self.with_open(
                    SpecOpenReview {
                        files: renders,
                        open_file: if stays {
                            open.open_file
                        } else {
                            None
                        },
                        ..open
                    },
                ).retained().all_prefetched(review_id, renders).auto_open_first()
            },
            None => self,
        }
    }

    /// The first diff is shown when no file is open.
    #[verifier::opaque]
    pub open spec fn auto_open_first(self) -> SpecClientCore {
        match self.view.review {
            Some(open) => if open.open_file is None && open.files.len() > 0 {
                match self.viewport(open.files[0].file(), 0, (PAGE_ROWS - 1) as u32) {
                    Ok(c) => c,
                    Err(_) => self,
                }
            } else {
                self
            },
            None => self,
        }
    }

    /// The root of the browsed tree, if the repository is browsed.
    pub open spec fn browse_root(self, repo_id: RepoId) -> Option<TreeOid> {
        match self.browse {
            Some(b) => if b.target.repo_id == repo_id {
                Some(b.root)
            } else {
                None
            },
            None => None,
        }
    }

    /// The root a file outside the diff is looked up in.
    pub open spec fn blob_root(self, repo_id: RepoId) -> Option<TreeOid> {
        match self.view.review {
            Some(open) => if self.view.tab is Browse && self.browse_root(repo_id) is Some {
                self.browse_root(repo_id)
            } else {
                match data::found(open.current_targets(), target_in(repo_id)) {
                    Some(t) => Some(t.head.tree),
                    None => None,
                }
            },
            None => None,
        }
    }

    /// The render of a file outside the review's diff.
    #[verifier::opaque]
    pub open spec fn blob_render(self, file: SpecFileRef) -> Option<SpecRenderKey> {
        match self.blob_root(file.repo_id) {
            Some(root) => match self.flow.content.cache.tree(TreeKey { repo_id: file.repo_id, root }) {
                Some(tree) => match data::found(tree.entries, content::entry_at(file.path)) {
                    Some(e) => match blob_of(e.kind) {
                        Some(oid) => Some(
                            SpecRenderKey {
                                repo_id: file.repo_id,
                                path: file.path,
                                target: SpecRenderTarget::Blob { oid },
                                opts: ViewPrefs::spec_default().opts(),
                            },
                        ),
                        None => None,
                    },
                    None => None,
                },
                None => None,
            },
            None => None,
        }
    }

    /// What a file is shown as: the recorded original while it is open, a
    /// blob while browsing, else its diff, else its blob at the head.
    #[verifier::opaque]
    pub open spec fn render_of(self, file: SpecFileRef) -> Option<SpecRenderKey> {
        match self.view.review {
            Some(open) => match open.original_render() {
                Some(r) if r.is_of(file.repo_id, file.path) => Some(r),
                _ => if self.view.tab is Browse {
                    self.blob_render(file)
                } else {
                    match data::found(open.files, explorer::file_of(file.repo_id, file.path)) {
                        Some(r) => Some(r),
                        None => self.blob_render(file),
                    }
                },
            },
            None => None,
        }
    }

    /// A newly opened file takes the keys, unless a modal panel has them,
    /// and its chunks are pinned.
    #[verifier::opaque]
    pub open spec fn took_over(self, render: SpecRenderKey, first_row: u32) -> SpecClientCore {
        let c = if self.view.focus is Composer || self.view.focus is Help {
            self
        } else {
            self.with_focus(Focus::Diff { row: first_row, side: Side::Head })
        };
        let c = c.retained();
        let mine = c.flow.content.cache.entries.map_values(|e: SpecEvicted| e.key).filter(chunk_of(render));
        c.with_content(SpecContent { cache: with_pins(c.flow.content.cache, mine), ..c.flow.content })
    }

    /// What the viewport on an open render needs is wanted.
    #[verifier::opaque]
    pub open spec fn want_render(self, review_id: ReviewId, render: SpecRenderKey) -> SpecClientCore {
        if self.flow.content.cache.header(render) is Some {
            self.want_viewport_chunks(render)
        } else {
            self.want(
                SpecFetch::Render {
                    review_id,
                    render,
                    first_chunk: ChunkIndex(0),
                    stop_after: ChunkIndex(PREFETCH_RADIUS),
                },
            )
        }
    }

    /// The open file is `render` at these rows.
    #[verifier::opaque]
    pub open spec fn placed(self, render: SpecRenderKey, first_row: u32, last_row: u32) -> SpecClientCore {
        match self.view.review {
            Some(open) => self.with_open(
                SpecOpenReview { open_file: Some(SpecOpenFile { render, first_row, last_row }), ..open },
            ),
            None => self,
        }
    }

    /// Queued chunks outside the window of `render` are dropped.
    #[verifier::opaque]
    pub open spec fn windowed(self, render: SpecRenderKey) -> SpecClientCore {
        self.with_content(
            self.flow.content.pruned(SpecKeep::Window { render, window: self.viewport_window(render) }),
        )
    }

    /// Rows `first_row..=last_row` of `render` are on screen.
    #[verifier::opaque]
    pub open spec fn showing(self, render: SpecRenderKey, first_row: u32, last_row: u32) -> SpecClientCore {
        match self.view.review {
            Some(open) => {
                let changed = open.open_render() != Some(render);
                let c = self.placed(render, first_row, last_row);
                let c = if changed {
                    c.took_over(render, first_row)
                } else {
                    c
                };
                c.windowed(render).want_render(open.snapshot.review.id, render).touch(
                    seq![ViewSection::Focus],
                )
            },
            None => self,
        }
    }

    /// The host shows rows of a file.
    #[verifier::opaque]
    pub open spec fn viewport(self, file: SpecFileRef, first_row: u32, last_row: u32) -> Result<
        SpecClientCore,
        SpecCoreError,
    > {
        if self.view.review is None {
            Err(SpecCoreError::NoOpenReview)
        } else {
            match self.render_of(file) {
                Some(render) => Ok(
                    self.showing(
                        render,
                        crate::diff::smaller(first_row, last_row),
                        crate::diff::larger(first_row, last_row),
                    ),
                ),
                None => Err(SpecCoreError::UnknownFile(file)),
            }
        }
    }

    /// No file is open any more.
    pub open spec fn without_file(self) -> SpecClientCore {
        match self.view.review {
            Some(open) => self.with_open(SpecOpenReview { open_file: None, original: None, ..open }),
            None => self,
        }
    }

    #[verifier::opaque]
    pub open spec fn close_file(self) -> Result<SpecClientCore, SpecCoreError> {
        match self.view.review {
            Some(open) => if open.open_file is None {
                Err(SpecCoreError::NoOpenFile)
            } else {
                let c = self.without_file();
                Ok(
                    c.with_content(c.flow.content.pruned(SpecKeep::NoChunks)).retained().touch(
                        seq![ViewSection::Focus],
                    ),
                )
            },
            None => Err(SpecCoreError::NoOpenReview),
        }
    }

    /// A render that just became the open file is pinned and wanted.
    #[verifier::opaque]
    pub open spec fn want_open_render(self, review_id: ReviewId, render: SpecRenderKey) -> SpecClientCore {
        self.retained().pin(SpecCacheKey::Header { render }).want_render(review_id, render)
    }

    /// The review closed: pins are released, queued content is dropped.
    #[verifier::opaque]
    pub open spec fn review_closed(self) -> SpecClientCore {
        let c = self.with_content(self.flow.content.pruned(SpecKeep::Nothing));
        let (cache, gone) = (SpecContentCache { pinned: Seq::empty(), ..c.flow.content.cache }).trimmed();
        c.with_flow(c.flow.with_content(SpecContent { cache, ..c.flow.content }).written_through(gone))
    }

    /// A chunk came on a stream; the stream is cancelled once it has passed
    /// what was wanted.
    #[verifier::opaque]
    pub open spec fn stream_chunk(
        self,
        id: RequestId,
        render: SpecRenderKey,
        stop_after: ChunkIndex,
        chunk: SpecRenderChunk,
        size: Bytes,
    ) -> SpecClientCore {
        let c = self.arrived(
            SpecCacheKey::Chunk { render, index: chunk.index },
            SpecCacheValue::Chunk { chunk },
            size,
            Arrival::Stream,
        );
        if chunk.index.0 >= stop_after.0 {
            c.with_flow(c.flow.emit(SpecErrand::Send(SpecClientMsg::Cancel { id })))
        } else {
            c
        }
    }

    /// The tree under the old root becomes the one under the new root. An
    /// unknown old root is ignored.
    #[verifier::opaque]
    pub open spec fn tree_delta(self, delta: SpecTreeDelta, size: Bytes) -> SpecClientCore {
        let from = SpecCacheKey::Tree { tree: TreeKey { repo_id: delta.repo_id, root: delta.from_root } };
        let to = SpecCacheKey::Tree { tree: TreeKey { repo_id: delta.repo_id, root: delta.to_root } };
        let c = self.with_content(
            SpecContent { cache: self.flow.content.cache.removed(from), ..self.flow.content },
        );
        match self.flow.content.cache.peek(from) {
            Some(SpecCacheValue::Tree { snapshot }) => {
                let c = match c.view.review {
                    Some(open) => c.with_open(
                        SpecOpenReview {
                            trees: replaced(open.trees, delta.from_root, delta.to_root),
                            ..open
                        },
                    ),
                    None => c,
                };
                c.arrived(
                    to,
                    SpecCacheValue::Tree { snapshot: snapshot.after_delta(delta) },
                    size,
                    Arrival::Response,
                )
            },
            _ => c,
        }
    }

    /// The host's store answered for a cached value.
    #[verifier::opaque]
    pub open spec fn stored(self, key: SpecCacheKey, value: SpecStored) -> Result<SpecClientCore, SpecCoreError> {
        let content = self.flow.content;
        if !content.loads.contains(key) {
            Err(SpecCoreError::UnknownKey(SpecKey::Content { key }))
        } else {
            let c = self.with_content(
                SpecContent { loads: content.loads.filter(cache::key_is_not(key)), ..content.forgot(key) },
            );
            match data::found(content.pending, content::wanted(key)) {
                Some(o) => match o.state {
                    SpecFetchState::Loading { fetch } => Ok(c.load_answered(key, fetch, value)),
                    _ => Ok(c),
                },
                None => Ok(c),
            }
        }
    }

    /// What was loaded is used; without it, or with something else in its
    /// place, the daemon is asked.
    #[verifier::opaque]
    pub open spec fn load_answered(self, key: SpecCacheKey, fetch: SpecFetch, value: SpecStored) -> SpecClientCore {
        match value {
            SpecStored::Content { value, stored, len } if value.matches(key) => self.with_flow(
                self.flow.disk_touched(key, Bytes(stored)),
            ).arrived(key, value, Bytes(len), Arrival::Disk),
            SpecStored::Absent => self.with_flow(self.flow.enqueued(self.view.review, fetch)),
            _ => {
                let content = self.flow.content;
                let flow = self.flow.with_content(
                    SpecContent {
                        disk: match content.disk {
                            Some(d) => Some(d.forgot(key)),
                            None => None,
                        },
                        ..content
                    },
                ).emit(SpecErrand::Remove { key: SpecKey::Content { key } });
                self.with_flow(flow.enqueued(self.view.review, fetch))
            },
        }
    }
}

pub open spec fn tree_is(root: TreeOid) -> spec_fn(TreeOid) -> bool {
    |t: TreeOid| t == root
}

/// The first `from` becomes `to`.
pub open spec fn replaced(trees: Seq<TreeOid>, from: TreeOid, to: TreeOid) -> Seq<TreeOid> {
    match data::first_where(trees, tree_is(from)) {
        Some(i) => trees.update(i, to),
        None => trees,
    }
}

fn add_tree(fetches: &mut Vec<Fetch>, repo_id: RepoId, r: &ResolvedRef)
    ensures
        final(fetches).deep_view() == with_tree(old(fetches).deep_view(), repo_id, *r),
{
    let key = CacheKey::Tree { tree: TreeKey { repo_id, root: r.tree } };
    let there = data::any(
        fetches,
        |f: &Fetch| -> (b: bool)
            ensures
                b == content::fetch_of(key.deep_view())(f.deep_view())
        { f.key().same(&key) },
        Ghost(content::fetch_of(key.deep_view())),
    );
    if !there {
        data::push(fetches, Fetch::Tree { repo_id, ref_spec: content::ref_spec_of(r), root: r.tree });
    }
}

fn trees_of(targets: &Vec<ResolvedTarget>) -> (r: Vec<Fetch>)
    ensures
        r.deep_view() == tree_fetches(targets.deep_view()),
{
    let n: usize = targets.len();
    let ghost all = targets.deep_view();
    let mut out: Vec<Fetch> = data::empty();
    for i in 0..n
        invariant
            n == targets@.len(),
            all == targets.deep_view(),
            out.deep_view() == tree_fetches(all.take(i as int)),
    {
        assert(all.take(i + 1).drop_last() =~= all.take(i as int));
        assert(all.take(i + 1).last() == targets@[i as int].deep_view());
        let t = &targets[i];
        add_tree(&mut out, t.repo_id, &t.base);
        add_tree(&mut out, t.repo_id, &t.head);
    }
    assert(all.take(n as int) =~= all);
    out
}

fn roots(fetches: &Vec<Fetch>) -> (r: Vec<TreeOid>)
    ensures
        r.deep_view() == roots_of(fetches.deep_view()),
{
    let n: usize = fetches.len();
    let ghost all = fetches.deep_view();
    let mut out: Vec<TreeOid> = data::empty();
    for i in 0..n
        invariant
            n == fetches@.len(),
            all == fetches.deep_view(),
            out.deep_view() == roots_of(all.take(i as int)),
    {
        assert(all.take(i + 1).drop_last() =~= all.take(i as int));
        assert(all.take(i + 1).last() == fetches@[i as int].deep_view());
        match &fetches[i] {
            Fetch::Tree { root, .. } => data::push(&mut out, *root),
            _ => {},
        }
    }
    assert(all.take(n as int) =~= all);
    out
}

impl ClientCore {
    pub fn cache(&self) -> (r: &ContentCache)
        ensures
            r.deep_view() == self.deep_view().flow.content.cache,
    {
        proof {
            reveal(ClientCore::model);
        }
        &self.flow.content.cache
    }

    pub fn cache_config(&self) -> (r: &CacheConfig)
        ensures
            r.deep_view() == self.deep_view().flow.content.config,
    {
        proof {
            reveal(ClientCore::model);
        }
        &self.flow.content.config
    }

    /// Content requests sent to the daemon and not answered.
    pub fn content_in_flight(&self) -> (r: usize)
        ensures
            r == self.deep_view().flow.content.in_flight,
    {
        proof {
            reveal(ClientCore::model);
        }
        self.flow.content.in_flight
    }

    /// Content requests waiting for a slot.
    pub fn content_queued(&self) -> (r: usize)
        ensures
            r == self.deep_view().flow.content.queue.len(),
    {
        proof {
            reveal(ClientCore::model);
        }
        self.flow.content.queue.len()
    }

    pub(crate) fn want(&mut self, fetch: Fetch)
        ensures
            final(self).deep_view() == old(self).deep_view().want(fetch.deep_view()),
    {
        proof {
            reveal(ClientCore::model);
        }
        let _ = self.flow.want(self.view.review(), fetch);
    }

    fn needs_pin(&self, key: &CacheKey) -> (b: bool)
        ensures
            b == self.deep_view().needs_pin(key.deep_view()),
    {
        proof {
            reveal(ClientCore::model);
        }
        match self.view.review() {
            Some(open) => match key {
                CacheKey::Tree { tree } => data::contains(&open.trees, &tree.root),
                CacheKey::Header { .. } => true,
                CacheKey::Chunk { render, .. } => open.shows(render),
            },
            None => false,
        }
    }

    fn viewport_window(&self, render: &RenderKey) -> (r: Option<ChunkWindow>)
        ensures
            r == self.deep_view().viewport_window(render.deep_view()),
    {
        proof {
            reveal(ClientCore::model);
        }
        match self.view.review() {
            Some(open) => match &open.open_file {
                Some(f) => if f.render.same(render) {
                    match self.flow.content.cache.peek_header(render) {
                        Some(h) => ChunkWindow::around(h, f.first_row, f.last_row),
                        None => None,
                    }
                } else {
                    None
                },
                None => None,
            },
            None => None,
        }
    }

    fn want_chunks(&mut self, render: &RenderKey, indices: &Vec<ChunkIndex>)
        ensures
            final(self).deep_view() == old(self).deep_view().want_chunks(
                render.deep_view(),
                indices.deep_view(),
            ),
    {
        proof {
            reveal(ClientCore::model);
        }
        let n: usize = indices.len();
        let ghost all = indices.deep_view();
        let ghost start = self.deep_view();
        assert(all.take(0) =~= Seq::empty());
        for i in 0..n
            invariant
                n == indices@.len(),
                all == indices.deep_view(),
                self.deep_view() == start.want_chunks(render.deep_view(), all.take(i as int)),
        {
            assert(all.take(i + 1).drop_last() =~= all.take(i as int));
            assert(all.take(i + 1).last() == indices@[i as int].deep_view());
            self.want(Fetch::Chunk { render: render.dup(), index: indices[i] });
        }
        assert(all.take(n as int) =~= all);
    }

    pub(crate) fn want_viewport_chunks(&mut self, render: &RenderKey)
        ensures
            final(self).deep_view() == old(self).deep_view().want_viewport_chunks(render.deep_view()),
    {
        proof {
            reveal(ClientCore::model);
            reveal(SpecClientCore::want_viewport_chunks);
        }
        if let Some(w) = self.viewport_window(render) {
            let indices = w.by_distance();
            self.want_chunks(render, &indices);
        }
    }

    fn want_chunks_for(&mut self, render: &RenderKey, content: &RenderContent)
        ensures
            final(self).deep_view() == old(self).deep_view().want_chunks_for(
                render.deep_view(),
                content.deep_view(),
            ),
    {
        proof {
            reveal(ClientCore::model);
            reveal(SpecClientCore::want_chunks_for);
        }
        match content {
            RenderContent::Text { chunk_count, .. } => {
                if *chunk_count == 0 {
                    return;
                }
                let (shown, listed) = match self.view.review() {
                    Some(open) => (open.shows(render), data::contains(&open.files, render)),
                    None => (false, false),
                };
                if shown {
                    self.want_viewport_chunks(render);
                } else if listed {
                    self.want(Fetch::Chunk { render: render.dup(), index: ChunkIndex(0) });
                }
            },
            RenderContent::Binary => {},
        }
    }

    fn list(&mut self, render: &RenderKey)
        ensures
            final(self).deep_view() == old(self).deep_view().listed(render.deep_view()),
    {
        proof {
            reveal(ClientCore::model);
            reveal(SpecClientCore::listed);
        }
        match self.view.take_review() {
            Some(open) => {
                let mut open = open;
                let there = data::contains(&open.files, render) || match &open.original {
                    Some(o) => o.same(render),
                    None => false,
                } || open.shows(render);
                if !there {
                    data::push(&mut open.files, render.dup());
                }
                self.view.set_review(Some(open));
            },
            None => {},
        }
    }

    fn stock(&mut self, key: &CacheKey, value: &CacheValue, size: Bytes, via: Arrival)
        ensures
            final(self).deep_view() == old(self).deep_view().stocked(
                key.deep_view(),
                value.deep_view(),
                size,
                via,
            ),
    {
        proof {
            reveal(ClientCore::model);
            reveal(SpecClientCore::stocked);
        }
        self.flow.content.forget(key);
        if self.needs_pin(key) {
            self.flow.content.cache.pin(key.dup());
        }
        match via {
            Arrival::Disk => {},
            _ => {
                self.flow.persist(key, value, size);
            },
        }
        self.flow.insert(key.dup(), value.dup(), size);
    }

    /// A value reached the core.
    pub(crate) fn arrived(&mut self, key: CacheKey, value: CacheValue, size: Bytes, via: Arrival)
        ensures
            final(self).deep_view() == old(self).deep_view().arrived(
                key.deep_view(),
                value.deep_view(),
                size,
                via,
            ),
    {
        proof {
            reveal(ClientCore::model);
            reveal(SpecClientCore::arrived);
        }
        self.stock(&key, &value, size, via);
        match (&key, &value) {
            (CacheKey::Header { render }, CacheValue::Header { header }) => {
                self.list(render);
                match via {
                    Arrival::Stream => {},
                    _ => {
                        self.want_chunks_for(render, &header.content);
                    },
                }
            },
            (CacheKey::Chunk { render, index }, CacheValue::Chunk { .. }) => {
                if let Some(w) = self.viewport_window(render) {
                    if w.contains(*index) {
                        self.flow.touch(ViewSection::Diff);
                    }
                }
            },
            _ => {},
        }
    }

    /// Release the pins that nothing needs.
    pub(crate) fn retain_review_pins(&mut self)
        ensures
            final(self).deep_view() == old(self).deep_view().retained(),
    {
        proof {
            reveal(ClientCore::model);
            reveal(SpecClientCore::retained);
        }
        let open = self.view.review();
        let browse = &self.browse;
        self.flow.keep_pins(
            |k: &CacheKey| -> (b: bool)
                ensures
                    b == needed(open.deep_view(), browse.deep_view())(k.deep_view())
            { is_needed(open, browse, k) },
            Ghost(needed(open.deep_view(), browse.deep_view())),
        );
    }

    fn plant(&mut self, fetches: &Vec<Fetch>, fetch: bool)
        ensures
            final(self).deep_view() == old(self).deep_view().planted(fetches.deep_view(), fetch),
    {
        proof {
            reveal(ClientCore::model);
        }
        let n: usize = fetches.len();
        let ghost all = fetches.deep_view();
        let ghost start = self.deep_view();
        assert(all.take(0) =~= Seq::empty());
        for i in 0..n
            invariant
                n == fetches@.len(),
                all == fetches.deep_view(),
                self.deep_view() == start.planted(all.take(i as int), fetch),
        {
            proof {
                reveal(ClientCore::model);
            }
            assert(all.take(i + 1).drop_last() =~= all.take(i as int));
            assert(all.take(i + 1).last() == fetches@[i as int].deep_view());
            self.flow.content.cache.pin(fetches[i].key());
            if fetch {
                self.want(fetches[i].dup());
            }
        }
        assert(all.take(n as int) =~= all);
    }

    /// The trees of the current targets belong to the review; they are
    /// fetched unless a stream brings them.
    pub(crate) fn review_trees(&mut self, fetch: bool)
        ensures
            final(self).deep_view() == old(self).deep_view().review_trees(fetch),
    {
        proof {
            reveal(ClientCore::model);
            reveal(SpecClientCore::review_trees);
        }
        let fetches = match self.view.take_review() {
            Some(open) => {
                let mut open = open;
                let fetches = trees_of(&open.current_targets());
                open.trees = roots(&fetches);
                self.view.set_review(Some(open));
                fetches
            },
            None => {
                return ;
            },
        };
        self.retain_review_pins();
        self.plant(&fetches, fetch);
    }

    /// Ask for the file list of the current scope.
    pub(crate) fn list_files(&mut self, review_id: ReviewId)
        ensures
            final(self).deep_view() == old(self).deep_view().list_files(review_id),
    {
        proof {
            reveal(ClientCore::model);
        }
        let scope = match self.view.review() {
            Some(open) => open.scope,
            None => crate::protocol::DiffScope::All,
        };
        self.flow.request(Request::ListFiles { review_id, scope }, InFlight::ListFiles { review_id });
    }

    fn prefetch(&mut self, review_id: ReviewId, render: &RenderKey)
        ensures
            final(self).deep_view() == old(self).deep_view().prefetched(review_id, render.deep_view()),
    {
        proof {
            reveal(ClientCore::model);
            reveal(SpecClientCore::prefetched);
            reveal(SpecFlow::want);
        }
        self.flow.content.cache.pin(CacheKey::Header { render: render.dup() });
        let fetch = Fetch::Render {
            review_id,
            render: render.dup(),
            first_chunk: ChunkIndex(0),
            stop_after: ChunkIndex(0),
        };
        if self.flow.want(self.view.review(), fetch) {
            let content = match self.flow.content.cache.peek_header(render) {
                Some(h) => Some(h.content.dup()),
                None => None,
            };
            if let Some(content) = content {
                self.want_chunks_for(render, &content);
            }
        }
    }

    fn prefetch_all(&mut self, review_id: ReviewId, renders: &Vec<RenderKey>)
        ensures
            final(self).deep_view() == old(self).deep_view().all_prefetched(review_id, renders.deep_view()),
    {
        proof {
            reveal(ClientCore::model);
        }
        let n: usize = renders.len();
        let ghost all = renders.deep_view();
        let ghost start = self.deep_view();
        assert(all.take(0) =~= Seq::empty());
        for i in 0..n
            invariant
                n == renders@.len(),
                all == renders.deep_view(),
                self.deep_view() == start.all_prefetched(review_id, all.take(i as int)),
        {
            assert(all.take(i + 1).drop_last() =~= all.take(i as int));
            assert(all.take(i + 1).last() == renders@[i as int].deep_view());
            self.prefetch(review_id, &renders[i]);
        }
        assert(all.take(n as int) =~= all);
    }

    /// The file list answered.
    pub(crate) fn review_files(&mut self, review_id: ReviewId, files: Vec<FileChange>)
        ensures
            final(self).deep_view() == old(self).deep_view().review_files(review_id, files.deep_view()),
    {
        proof {
            reveal(ClientCore::model);
            reveal(SpecClientCore::review_files);
        }
        let opts = &self.flow.content.config.render_opts;
        let renders = data::map(
            &files,
            |f: &FileChange| -> (k: RenderKey)
                ensures
                    k.deep_view() == render_of_change(opts.deep_view())(f.deep_view())
            {
                RenderKey {
                    repo_id: f.repo_id,
                    path: f.path.dup(),
                    target: RenderTarget::Diff { change: f.kind.dup() },
                    opts: opts.dup(),
                }
            },
            Ghost(render_of_change(opts.deep_view())),
        );
        match self.view.take_review() {
            Some(open) => {
                let mut open = open;
                let stays = match &open.open_file {
                    Some(f) => data::contains(&renders, &f.render) || match &open.original {
                        Some(o) => o.same(&f.render),
                        None => false,
                    },
                    None => false,
                };
                if !stays {
                    open.open_file = None;
                }
                open.files = renders.dup();
                self.view.set_review(Some(open));
            },
            None => {
                return ;
            },
        }
        self.retain_review_pins();
        self.prefetch_all(review_id, &renders);
        self.auto_open_first();
    }

    /// Show the first diff when no file is open.
    pub(crate) fn auto_open_first(&mut self)
        ensures
            final(self).deep_view() == old(self).deep_view().auto_open_first(),
    {
        proof {
            reveal(ClientCore::model);
            reveal(SpecClientCore::auto_open_first);
        }
        let first = match self.view.review() {
            Some(open) => {
                assert(open.files.deep_view().len() == open.files@.len());
                if open.open_file.is_none() && open.files.len() > 0 {
                    Some(open.files[0].file())
                } else {
                    None
                }
            },
            None => None,
        };
        if let Some(file) = first {
            let _ = self.viewport(file, 0, PAGE_ROWS - 1);
        }
    }

    fn blob_root(&self, repo_id: RepoId) -> (r: Option<TreeOid>)
        ensures
            r == self.deep_view().blob_root(repo_id),
    {
        proof {
            reveal(ClientCore::model);
        }
        match self.view.review() {
            Some(open) => {
                let root = match &self.browse {
                    Some(b) => if b.target.repo_id == repo_id {
                        Some(b.root)
                    } else {
                        None
                    },
                    None => None,
                };
                if self.view.tab() == Tab::Browse && root.is_some() {
                    root
                } else {
                    let targets = open.current_targets();
                    match data::find(
                        &targets,
                        |t: &ResolvedTarget| -> (b: bool)
                            ensures
                                b == target_in(repo_id)(t.deep_view())
                        { t.repo_id == repo_id },
                        Ghost(target_in(repo_id)),
                    ) {
                        Some(t) => Some(t.head.tree),
                        None => None,
                    }
                }
            },
            None => None,
        }
    }

    fn blob_render_of(&self, file: &FileRef) -> (r: Option<RenderKey>)
        ensures
            r.deep_view() == self.deep_view().blob_render(file.deep_view()),
    {
        proof {
            reveal(ClientCore::model);
            reveal(SpecClientCore::blob_render);
        }
        let root = match self.blob_root(file.repo_id) {
            Some(root) => root,
            None => {
                return None;
            },
        };
        match self.flow.content.cache.peek_tree(TreeKey { repo_id: file.repo_id, root }) {
            Some(tree) => {
                let path = &file.path;
                match data::find(
                    &tree.entries,
                    |e: &TreeEntry| -> (b: bool)
                        ensures
                            b == content::entry_at(path.deep_view())(e.deep_view())
                    { e.path.same(path) },
                    Ghost(content::entry_at(path.deep_view())),
                ) {
                    Some(e) => {
                        let oid = match e.kind {
                            TreeEntryKind::File { oid, .. } => oid,
                            TreeEntryKind::Symlink { oid } => oid,
                            _ => {
                                return None;
                            },
                        };
                        Some(
                            RenderKey {
                                repo_id: file.repo_id,
                                path: file.path.dup(),
                                target: RenderTarget::Blob { oid },
                                opts: RenderOpts::default(),
                            },
                        )
                    },
                    None => None,
                }
            },
            None => None,
        }
    }

    /// What a file is shown as.
    pub(crate) fn render_of(&self, file: &FileRef) -> (r: Option<RenderKey>)
        ensures
            r.deep_view() == self.deep_view().render_of(file.deep_view()),
    {
        proof {
            reveal(ClientCore::model);
            reveal(SpecClientCore::render_of);
        }
        match self.view.review() {
            Some(open) => {
                if let Some(r) = open.original_render() {
                    if r.is_of(file.repo_id, &file.path) {
                        return Some(r.dup());
                    }
                }
                if self.view.tab() == Tab::Browse {
                    self.blob_render_of(file)
                } else {
                    match explorer::find_file(&open.files, file.repo_id, &file.path) {
                        Some(r) => Some(r.dup()),
                        None => self.blob_render_of(file),
                    }
                }
            },
            None => None,
        }
    }

    fn take_over(&mut self, render: &RenderKey, first_row: u32)
        ensures
            final(self).deep_view() == old(self).deep_view().took_over(render.deep_view(), first_row),
    {
        proof {
            reveal(ClientCore::model);
            reveal(SpecClientCore::took_over);
        }
        match self.view.focus() {
            Focus::Composer => {},
            Focus::Help => {},
            _ => {
                self.view.set_focus(Focus::Diff { row: first_row, side: Side::Head });
            },
        }
        self.retain_review_pins();
        let keys = self.flow.content.cache.keys();
        let mine = data::filtered(
            &keys,
            |k: &CacheKey| -> (b: bool)
                ensures
                    b == chunk_of(render.deep_view())(k.deep_view())
            {
                match k {
                    CacheKey::Chunk { render: r, .. } => r.same(render),
                    _ => false,
                }
            },
            Ghost(chunk_of(render.deep_view())),
        );
        let n: usize = mine.len();
        let ghost all = mine.deep_view();
        let ghost start = self.deep_view();
        assert(all.take(0) =~= Seq::empty());
        for i in 0..n
            invariant
                n == mine@.len(),
                all == mine.deep_view(),
                self.deep_view() == start.with_content(
                    SpecContent {
                        cache: with_pins(start.flow.content.cache, all.take(i as int)),
                        ..start.flow.content
                    },
                ),
        {
            proof {
                reveal(ClientCore::model);
            }
            assert(all.take(i + 1).drop_last() =~= all.take(i as int));
            assert(all.take(i + 1).last() == mine@[i as int].deep_view());
            self.flow.content.cache.pin(mine[i].dup());
        }
        assert(all.take(n as int) =~= all);
    }

    fn want_render(&mut self, review_id: ReviewId, render: &RenderKey)
        ensures
            final(self).deep_view() == old(self).deep_view().want_render(review_id, render.deep_view()),
    {
        proof {
            reveal(ClientCore::model);
            reveal(SpecClientCore::want_render);
        }
        if self.flow.content.cache.peek_header(render).is_some() {
            self.want_viewport_chunks(render);
        } else {
            self.want(
                Fetch::Render {
                    review_id,
                    render: render.dup(),
                    first_chunk: ChunkIndex(0),
                    stop_after: ChunkIndex(PREFETCH_RADIUS),
                },
            );
        }
    }

    fn place(&mut self, render: &RenderKey, first_row: u32, last_row: u32)
        ensures
            final(self).deep_view() == old(self).deep_view().placed(render.deep_view(), first_row, last_row),
    {
        proof {
            reveal(ClientCore::model);
            reveal(SpecClientCore::placed);
        }
        match self.view.take_review() {
            Some(open) => {
                let mut open = open;
                open.open_file = Some(OpenFile { render: render.dup(), first_row, last_row });
                self.view.set_review(Some(open));
            },
            None => {},
        }
    }

    fn window(&mut self, render: &RenderKey)
        ensures
            final(self).deep_view() == old(self).deep_view().windowed(render.deep_view()),
    {
        proof {
            reveal(ClientCore::model);
            reveal(SpecClientCore::windowed);
        }
        let keep = Keep::Window { render: render.dup(), window: self.viewport_window(render) };
        self.flow.content.prune(&keep);
    }

    fn show(&mut self, render: RenderKey, first_row: u32, last_row: u32)
        ensures
            final(self).deep_view() == old(self).deep_view().showing(render.deep_view(), first_row, last_row),
    {
        proof {
            reveal(ClientCore::model);
            reveal(SpecClientCore::showing);
        }
        let (changed, review_id) = match self.view.review() {
            Some(open) => (!open.shows(&render), open.snapshot.review.id),
            None => {
                return ;
            },
        };
        self.place(&render, first_row, last_row);
        if changed {
            self.take_over(&render, first_row);
        }
        self.window(&render);
        self.want_render(review_id, &render);
        self.flow.touch(ViewSection::Focus);
    }

    /// The host shows rows of a file.
    pub(crate) fn viewport(
        &mut self,
        file: FileRef,
        first_row: u32,
        last_row: u32,
    ) -> (r: Result<(), CoreError>)
        ensures
            client::settled(
                old(self).deep_view(),
                final(self).deep_view(),
                r,
                old(self).deep_view().viewport(file.deep_view(), first_row, last_row),
            ),
    {
        proof {
            reveal(ClientCore::model);
            reveal(SpecClientCore::viewport);
        }
        if self.view.review().is_none() {
            return Err(CoreError::NoOpenReview);
        }
        match self.render_of(&file) {
            Some(render) => {
                if first_row <= last_row {
                    self.show(render, first_row, last_row);
                } else {
                    self.show(render, last_row, first_row);
                }
                Ok(())
            },
            None => Err(CoreError::UnknownFile(file)),
        }
    }

    /// No file is open any more.
    pub(crate) fn drop_file(&mut self)
        ensures
            final(self).deep_view() == old(self).deep_view().without_file(),
    {
        proof {
            reveal(ClientCore::model);
        }
        match self.view.take_review() {
            Some(open) => {
                let mut open = open;
                open.open_file = None;
                open.original = None;
                self.view.set_review(Some(open));
            },
            None => {},
        }
    }

    pub(crate) fn close_file(&mut self) -> (r: Result<(), CoreError>)
        ensures
            client::settled(
                old(self).deep_view(),
                final(self).deep_view(),
                r,
                old(self).deep_view().close_file(),
            ),
    {
        proof {
            reveal(ClientCore::model);
            reveal(SpecClientCore::close_file);
        }
        match self.view.review() {
            Some(open) => {
                if open.open_file.is_none() {
                    return Err(CoreError::NoOpenFile);
                }
            },
            None => {
                return Err(CoreError::NoOpenReview);
            },
        }
        self.drop_file();
        self.flow.content.prune(&Keep::NoChunks);
        self.retain_review_pins();
        self.flow.touch(ViewSection::Focus);
        Ok(())
    }

    /// Pin and fetch a render that just became the open file.
    pub(crate) fn want_open_render(&mut self, review_id: ReviewId, render: &RenderKey)
        ensures
            final(self).deep_view() == old(self).deep_view().want_open_render(review_id, render.deep_view()),
    {
        proof {
            reveal(ClientCore::model);
            reveal(SpecClientCore::want_open_render);
        }
        self.retain_review_pins();
        self.flow.content.cache.pin(CacheKey::Header { render: render.dup() });
        self.want_render(review_id, render);
    }

    /// The review closed: release pins, drop queued content.
    pub(crate) fn review_closed(&mut self)
        ensures
            final(self).deep_view() == old(self).deep_view().review_closed(),
    {
        proof {
            reveal(ClientCore::model);
            reveal(SpecClientCore::review_closed);
        }
        self.flow.content.prune(&Keep::Nothing);
        let gone = self.flow.content.cache.clear_pins();
        self.flow.write_through(gone);
    }

    /// A chunk came on a stream.
    pub(crate) fn stream_chunk(
        &mut self,
        id: RequestId,
        render: RenderKey,
        stop_after: ChunkIndex,
        chunk: RenderChunk,
        size: Bytes,
    )
        ensures
            final(self).deep_view() == old(self).deep_view().stream_chunk(
                id,
                render.deep_view(),
                stop_after,
                chunk.deep_view(),
                size,
            ),
    {
        proof {
            reveal(ClientCore::model);
            reveal(SpecClientCore::stream_chunk);
        }
        let index = chunk.index;
        self.arrived(CacheKey::Chunk { render, index }, CacheValue::Chunk { chunk }, size, Arrival::Stream);
        if index.0 >= stop_after.0 {
            self.flow.emit(Errand::Send(ClientMsg::Cancel { id }));
        }
    }

    /// Apply a working-tree delta in place.
    pub(crate) fn tree_delta(&mut self, delta: &TreeDelta, size: Bytes)
        ensures
            final(self).deep_view() == old(self).deep_view().tree_delta(delta.deep_view(), size),
    {
        proof {
            reveal(ClientCore::model);
            reveal(SpecClientCore::tree_delta);
        }
        let from = CacheKey::Tree { tree: TreeKey { repo_id: delta.repo_id, root: delta.from_root } };
        let to = CacheKey::Tree { tree: TreeKey { repo_id: delta.repo_id, root: delta.to_root } };
        let old_root = delta.from_root;
        let value = self.flow.content.cache.remove(&from);
        match value {
            Some(CacheValue::Tree { snapshot }) => {
                match self.view.take_review() {
                    Some(open) => {
                        let mut open = open;
                        let at = data::position(
                            &open.trees,
                            |t: &TreeOid| -> (b: bool)
                                ensures
                                    b == tree_is(old_root)(t.deep_view())
                            { *t == old_root },
                            Ghost(tree_is(old_root)),
                        );
                        if let Some(i) = at {
                            data::set(&mut open.trees, i, delta.to_root);
                        }
                        self.view.set_review(Some(open));
                    },
                    None => {},
                }
                let snapshot = content::apply_delta(snapshot, delta);
                self.arrived(to, CacheValue::Tree { snapshot }, size, Arrival::Response);
            },
            _ => {},
        }
    }

    fn load_answered(&mut self, key: CacheKey, fetch: Fetch, value: Stored)
        ensures
            final(self).deep_view() == old(self).deep_view().load_answered(
                key.deep_view(),
                fetch.deep_view(),
                value.deep_view(),
            ),
    {
        proof {
            reveal(ClientCore::model);
            reveal(SpecClientCore::load_answered);
        }
        match value {
            Stored::Absent => {
                self.flow.enqueue(self.view.review(), fetch);
                return ;
            },
            Stored::Content { value, stored, len } => {
                if value.matches(&key) {
                    self.flow.disk_touch(&key, Bytes(stored));
                    self.arrived(key, value, Bytes(len), Arrival::Disk);
                    return ;
                }
            },
            _ => {},
        }
        match &mut self.flow.content.disk {
            Some(d) => {
                d.forget(&key);
            },
            None => {},
        }
        self.flow.emit(Errand::Remove { key: Key::Content { key } });
        self.flow.enqueue(self.view.review(), fetch);
    }

    /// The host's store answered for a cached value.
    pub(crate) fn stored(&mut self, key: CacheKey, value: Stored) -> (r: Result<(), CoreError>)
        ensures
            client::settled(
                old(self).deep_view(),
                final(self).deep_view(),
                r,
                old(self).deep_view().stored(key.deep_view(), value.deep_view()),
            ),
    {
        proof {
            reveal(ClientCore::model);
            reveal(SpecClientCore::stored);
        }
        if !data::contains(&self.flow.content.loads, &key) {
            return Err(CoreError::UnknownKey(Key::Content { key }));
        }
        let fetch = match data::find(
            &self.flow.content.pending,
            |o: &content::Outstanding| -> (b: bool)
                ensures
                    b == content::wanted(key.deep_view())(o.deep_view())
            { o.key.same(&key) },
            Ghost(content::wanted(key.deep_view())),
        ) {
            Some(o) => match &o.state {
                FetchState::Loading { fetch } => Some(fetch.dup()),
                _ => None,
            },
            None => None,
        };
        data::retain(
            &mut self.flow.content.loads,
            |k: &CacheKey| -> (b: bool)
                ensures
                    b == cache::key_is_not(key.deep_view())(k.deep_view())
            { !k.same(&key) },
            Ghost(cache::key_is_not(key.deep_view())),
        );
        self.flow.content.forget(&key);
        if let Some(fetch) = fetch {
            self.load_answered(key, fetch, value);
        }
        Ok(())
    }
}

/// With a disk, everything the daemon sends is written to it.
pub proof fn what_the_daemon_sends_is_written_to_disk(
    core: SpecClientCore,
    key: SpecCacheKey,
    value: SpecCacheValue,
    size: Bytes,
    via: Arrival,
)
    requires
        !(via is Disk),
        core.flow.content.disk is Some,
    ensures
        core.stocked(key, value, size, via).flow.out.contains(
            SpecErrand::Persist { key: SpecKey::Content { key }, value: SpecPersisted::Content { value } },
        ),
{
    reveal(SpecClientCore::stocked);
    reveal(SpecFlow::persisted);
    reveal(SpecFlow::inserted);
    let c = core.with_content(core.flow.content.forgot(key));
    let c = if c.needs_pin(key) {
        c.pin(key)
    } else {
        c
    };
    let flow = c.flow.persisted(key, value, size);
    let (cache, gone) = flow.content.cache.inserted(key, value, size);
    let kept = flow.with_content(SpecContent { cache, ..flow.content });
    flow::lemma_writing_through_adds(kept, gone);
    let i = flow.out.len() - 1;
    assert(kept.written_through(gone).out[i] == flow.out[i]);
}

} // verus!
