//! What events do to a review snapshot, and which event a mutation becomes.
//!
//! - [`apply_body`] folds one committed or pending event into a snapshot.
//!   Committed events go into the committed snapshot, pending ones on top of
//!   a copy of it.
//! - [`local_event`] is what a mutation will be once committed, built from
//!   the snapshot on screen: the optimistic event that is shown at once.
//!
//! Neither touches the review list or the workspaces.
use vstd::prelude::*;

use crate::data;
use crate::data::Value;
use crate::protocol::{
    Anchor, Author, Comment, CommentId, CommentKind, CommentState, Event, EventBody, Human,
    Mutation, MutationKind, RepoId, RepoPath, ReviewRequest, ReviewSnapshot, ReviewTarget,
    SpecAuthor, SpecComment, SpecCommentKind, SpecCommentState, SpecEvent, SpecEventBody, SpecHuman,
    SpecMutation, SpecRepoPath, SpecReview, SpecReviewRequest, SpecReviewSnapshot, SpecReviewTarget,
    SpecTargetRevision, SpecThread, SpecThreadResolution, SpecViewedMark, TargetRevision, Thread,
    ThreadId, ThreadResolution, Timestamp, ViewSection, ViewedMark,
};

verus! {

/// Who did it and when.
#[derive(Debug, PartialEq, Eq)]
pub struct EventMeta {
    pub author: Author,
    pub ts: Timestamp,
}

/// Model of [`EventMeta`].
#[verifier::ext_equal]
pub struct SpecEventMeta {
    pub author: SpecAuthor,
    pub ts: Timestamp,
}

impl DeepView for EventMeta {
    type V = SpecEventMeta;

    open spec fn deep_view(&self) -> SpecEventMeta {
        SpecEventMeta {
            author: self.author.deep_view(),
            ts: self.ts,
        }
    }
}

impl Value for EventMeta {
    fn dup(&self) -> (r: Self) {
        EventMeta {
            author: self.author.dup(),
            ts: self.ts,
        }
    }

    fn same(&self, other: &Self) -> (b: bool) {
        self.author.same(&other.author)
            && self.ts == other.ts
    }
}

/// Why a mutation cannot become an event against a snapshot. The daemon
/// makes the same checks, so what it would refuse is never sent.
#[derive(Debug, Clone, Copy, PartialEq, Eq, Structural)]
pub enum MutationError {
    DuplicateComment(CommentId),
    /// Informational notes are attached to the review, never to a file.
    InformationalAnchor,
    /// Informational threads are neither resolved nor reopened.
    InformationalThread(ThreadId),
    UnknownThread(ThreadId),
    UnknownComment(CommentId),
    /// Only its author may change a comment.
    NotAuthor(CommentId),
    AlreadyResolved(ThreadId),
    NotResolved(ThreadId),
    UnknownRepo(RepoId),
    /// The mutation is not one this client shows before it is committed.
    Unsupported(MutationKind),
}

impl DeepView for MutationError {
    type V = MutationError;

    open spec fn deep_view(&self) -> MutationError {
        *self
    }
}

impl Value for MutationError {
    fn dup(&self) -> (r: Self) {
        *self
    }

    fn same(&self, other: &Self) -> (b: bool) {
        *self == *other
    }
}


// ---- looking things up ----------------------------------------------------

pub open spec fn comment_is(id: CommentId) -> spec_fn(SpecComment) -> bool {
    |c: SpecComment| c.id == id
}

pub open spec fn thread_is(id: ThreadId) -> spec_fn(SpecThread) -> bool {
    |t: SpecThread| t.id == id
}

pub open spec fn target_of(repo_id: RepoId) -> spec_fn(SpecReviewTarget) -> bool {
    |t: SpecReviewTarget| t.repo_id == repo_id
}

/// Marks other than `viewer`'s mark on this file.
pub open spec fn other_mark(repo_id: RepoId, path: SpecRepoPath, viewer: SpecHuman) -> spec_fn(SpecViewedMark) -> bool {
    |v: SpecViewedMark| !(v.repo_id == repo_id && v.path == path && v.viewer == viewer)
}

pub fn find_comment(comments: &Vec<Comment>, id: CommentId) -> (r: Option<&Comment>)
    ensures
        match r {
            Some(c) => data::found(comments.deep_view(), comment_is(id)) == Some(c.deep_view()) && c.id == id,
            None => data::found(comments.deep_view(), comment_is(id)) is None,
        },
        (r is Some) == data::some_where(comments.deep_view(), comment_is(id)),
{
    data::find(
        comments,
        |c: &Comment| -> (b: bool)
            ensures
                b == comment_is(id)(c.deep_view())
        {
            c.id == id
        },
        Ghost(comment_is(id)),
    )
}

pub fn comment_at(comments: &Vec<Comment>, id: CommentId) -> (r: Option<usize>)
    ensures
        match r {
            Some(i) => i < comments@.len() && data::first_where(
                comments.deep_view(),
                comment_is(id),
            ) == Some(i as int),
            None => data::first_where(comments.deep_view(), comment_is(id)) is None,
        },
{
    data::position(
        comments,
        |c: &Comment| -> (b: bool)
            ensures
                b == comment_is(id)(c.deep_view())
        {
            c.id == id
        },
        Ghost(comment_is(id)),
    )
}

pub fn find_thread(threads: &Vec<Thread>, id: ThreadId) -> (r: Option<&Thread>)
    ensures
        match r {
            Some(t) => data::found(threads.deep_view(), thread_is(id)) == Some(t.deep_view()) && t.id == id,
            None => data::found(threads.deep_view(), thread_is(id)) is None,
        },
{
    data::find(
        threads,
        |t: &Thread| -> (b: bool)
            ensures
                b == thread_is(id)(t.deep_view())
        {
            t.id == id
        },
        Ghost(thread_is(id)),
    )
}

pub fn thread_at(threads: &Vec<Thread>, id: ThreadId) -> (r: Option<usize>)
    ensures
        match r {
            Some(i) => i < threads@.len() && data::first_where(
                threads.deep_view(),
                thread_is(id),
            ) == Some(i as int),
            None => data::first_where(threads.deep_view(), thread_is(id)) is None,
        },
{
    data::position(
        threads,
        |t: &Thread| -> (b: bool)
            ensures
                b == thread_is(id)(t.deep_view())
        {
            t.id == id
        },
        Ghost(thread_is(id)),
    )
}

pub fn target_at(targets: &Vec<ReviewTarget>, repo_id: RepoId) -> (r: Option<usize>)
    ensures
        match r {
            Some(i) => i < targets@.len() && data::first_where(
                targets.deep_view(),
                target_of(repo_id),
            ) == Some(i as int)
                && data::found(
                    targets.deep_view(),
                    target_of(repo_id),
                ) == Some(targets@[i as int].deep_view()),
            None => data::first_where(targets.deep_view(), target_of(repo_id)) is None && data::found(
                targets.deep_view(),
                target_of(repo_id),
            ) is None,
        },
        (r is Some) == data::some_where(targets.deep_view(), target_of(repo_id)),
{
    data::position(
        targets,
        |t: &ReviewTarget| -> (b: bool)
            ensures
                b == target_of(repo_id)(t.deep_view())
        {
            t.repo_id == repo_id
        },
        Ghost(target_of(repo_id)),
    )
}

impl SpecReviewSnapshot {
    pub open spec fn comment(self, id: CommentId) -> Option<SpecComment> {
        data::found(self.comments, comment_is(id))
    }

    pub open spec fn thread(self, id: ThreadId) -> Option<SpecThread> {
        data::found(self.threads, thread_is(id))
    }

    pub open spec fn target(self, repo_id: RepoId) -> Option<SpecReviewTarget> {
        data::found(self.review.targets, target_of(repo_id))
    }

    /// The root comment of a thread.
    pub open spec fn root_of(self, id: ThreadId) -> Option<SpecComment> {
        match self.thread(id) {
            Some(t) => self.comment(t.root),
            None => None,
        }
    }
}

// ---- local events ---------------------------------------------------------

/// A root comment's id is its thread's id.
pub fn thread_id_of(id: CommentId) -> (r: ThreadId)
    ensures
        r == ThreadId(id.0),
{
    ThreadId(id.0)
}

impl SpecReviewTarget {
    /// The target with one side moved to `revision`.
    pub open spec fn moved(self, revision: SpecTargetRevision) -> SpecReviewTarget {
        match revision {
            SpecTargetRevision::Base { ref_spec } => SpecReviewTarget { base: ref_spec.to_ref(), ..self },
            SpecTargetRevision::Head { ref_spec } => SpecReviewTarget { head: ref_spec, ..self },
        }
    }
}

impl SpecReviewSnapshot {
    /// The event `mutation` becomes against this snapshot, or why it cannot.
    #[verifier::opaque]
    pub open spec fn local_event(self, meta: SpecEventMeta, mutation: SpecMutation) -> Result<
        SpecEventBody,
        MutationError,
    > {
        match mutation {
            SpecMutation::AddComment { review_id, comment_id, kind, anchor, body, context } => if self.comment(
                comment_id,
            ) is Some {
                Err(MutationError::DuplicateComment(comment_id))
            } else if kind is Informational && anchor !is Review {
                Err(MutationError::InformationalAnchor)
            } else {
                Ok(
                    SpecEventBody::CommentCreated {
                        comment: SpecComment {
                            id: comment_id,
                            review_id,
                            thread_id: ThreadId(comment_id.0),
                            author: meta.author,
                            kind,
                            anchor,
                            body,
                            created: meta.ts,
                            edited: None,
                            state: SpecCommentState::Live,
                            context,
                        },
                    },
                )
            },
            SpecMutation::Reply { review_id, thread_id, comment_id, kind, body } => if self.comment(
                comment_id,
            ) is Some {
                Err(MutationError::DuplicateComment(comment_id))
            } else {
                match self.thread(thread_id) {
                    None => Err(MutationError::UnknownThread(thread_id)),
                    Some(th) => match self.comment(th.root) {
                        None => Err(MutationError::UnknownComment(th.root)),
                        Some(root) => Ok(
                            SpecEventBody::CommentCreated {
                                comment: SpecComment {
                                    id: comment_id,
                                    review_id,
                                    thread_id,
                                    author: meta.author,
                                    kind,
                                    anchor: root.anchor,
                                    body,
                                    created: meta.ts,
                                    edited: None,
                                    state: root.state,
                                    context: root.context,
                                },
                            },
                        ),
                    },
                }
            },
            SpecMutation::EditComment { review_id, comment_id, body } => match self.comment(comment_id) {
                None => Err(MutationError::UnknownComment(comment_id)),
                Some(c) => if c.author == meta.author {
                    Ok(SpecEventBody::CommentEdited { review_id, comment_id, body })
                } else {
                    Err(MutationError::NotAuthor(comment_id))
                },
            },
            SpecMutation::DeleteComment { review_id, comment_id } => match self.comment(comment_id) {
                None => Err(MutationError::UnknownComment(comment_id)),
                Some(c) => if c.author == meta.author {
                    Ok(SpecEventBody::CommentDeleted { review_id, comment_id })
                } else {
                    Err(MutationError::NotAuthor(comment_id))
                },
            },
            SpecMutation::ResolveThread { review_id, thread_id } => match self.thread(thread_id) {
                None => Err(MutationError::UnknownThread(thread_id)),
                Some(th) => match th.resolution {
                    SpecThreadResolution::Informational => Err(MutationError::InformationalThread(thread_id)),
                    SpecThreadResolution::Resolved { .. } => Err(MutationError::AlreadyResolved(thread_id)),
                    SpecThreadResolution::Open => Ok(SpecEventBody::ThreadResolved { review_id, thread_id }),
                },
            },
            SpecMutation::UnresolveThread { review_id, thread_id } => match self.thread(thread_id) {
                None => Err(MutationError::UnknownThread(thread_id)),
                Some(th) => match th.resolution {
                    SpecThreadResolution::Informational => Err(MutationError::InformationalThread(thread_id)),
                    SpecThreadResolution::Open => Err(MutationError::NotResolved(thread_id)),
                    SpecThreadResolution::Resolved { .. } => Ok(
                        SpecEventBody::ThreadUnresolved { review_id, thread_id },
                    ),
                },
            },
            SpecMutation::UpdateReview { review_id, title, status } => Ok(
                SpecEventBody::ReviewUpdated { review_id, title, status },
            ),
            SpecMutation::UpdateReviewTarget { review_id, update } => match self.target(update.repo_id) {
                None => Err(MutationError::UnknownRepo(update.repo_id)),
                Some(target) => Ok(
                    SpecEventBody::ReviewTargetUpdated { review_id, target: target.moved(update.revision) },
                ),
            },
            SpecMutation::CreateWorkspace { .. } => Err(MutationError::Unsupported(mutation.kind())),
            SpecMutation::RenameWorkspace { .. } => Err(MutationError::Unsupported(mutation.kind())),
            SpecMutation::AttachRepo { .. } => Err(MutationError::Unsupported(mutation.kind())),
            SpecMutation::DetachRepo { .. } => Err(MutationError::Unsupported(mutation.kind())),
            SpecMutation::CreateReview { .. } => Err(MutationError::Unsupported(mutation.kind())),
            SpecMutation::DeleteReview { .. } => Err(MutationError::Unsupported(mutation.kind())),
            SpecMutation::MarkViewed { .. } => Err(MutationError::Unsupported(mutation.kind())),
            SpecMutation::UnmarkViewed { .. } => Err(MutationError::Unsupported(mutation.kind())),
            SpecMutation::RequestReview { .. } => Err(MutationError::Unsupported(mutation.kind())),
            SpecMutation::ApplySuggestion { .. } => Err(MutationError::Unsupported(mutation.kind())),
        }
    }
}

/// The event `mutation` becomes against `snapshot`, or why it cannot.
pub fn local_event(snapshot: &ReviewSnapshot, meta: &EventMeta, mutation: &Mutation) -> (r: Result<
    EventBody,
    MutationError,
>)
    ensures
        match r {
            Ok(body) => snapshot.deep_view().local_event(meta.deep_view(), mutation.deep_view()) == Ok::<
                SpecEventBody,
                MutationError,
            >(body.deep_view()),
            Err(e) => snapshot.deep_view().local_event(meta.deep_view(), mutation.deep_view()) == Err::<
                SpecEventBody,
                MutationError,
            >(e),
        },
{
    proof {
        reveal(SpecReviewSnapshot::local_event);
    }
    match mutation {
        Mutation::AddComment { review_id, comment_id, kind, anchor, body, context } => {
            if find_comment(&snapshot.comments, *comment_id).is_some() {
                return Err(MutationError::DuplicateComment(*comment_id));
            }
            let informational = match kind {
                CommentKind::Informational => true,
                _ => false,
            };
            let on_review = match anchor {
                Anchor::Review => true,
                _ => false,
            };
            if informational && !on_review {
                return Err(MutationError::InformationalAnchor);
            }
            Ok(
                EventBody::CommentCreated {
                    comment: Comment {
                        id: *comment_id,
                        review_id: *review_id,
                        thread_id: thread_id_of(*comment_id),
                        author: meta.author.dup(),
                        kind: kind.dup(),
                        anchor: anchor.dup(),
                        body: body.dup(),
                        created: meta.ts,
                        edited: None,
                        state: CommentState::Live,
                        context: context.dup(),
                    },
                },
            )
        },
        Mutation::Reply { review_id, thread_id, comment_id, kind, body } => {
            if find_comment(&snapshot.comments, *comment_id).is_some() {
                return Err(MutationError::DuplicateComment(*comment_id));
            }
            match find_thread(&snapshot.threads, *thread_id) {
                None => Err(MutationError::UnknownThread(*thread_id)),
                Some(th) => match find_comment(&snapshot.comments, th.root) {
                    None => Err(MutationError::UnknownComment(th.root)),
                    Some(root) => Ok(
                        EventBody::CommentCreated {
                            comment: Comment {
                                id: *comment_id,
                                review_id: *review_id,
                                thread_id: *thread_id,
                                author: meta.author.dup(),
                                kind: kind.dup(),
                                anchor: root.anchor.dup(),
                                body: body.dup(),
                                created: meta.ts,
                                edited: None,
                                state: root.state.dup(),
                                context: root.context.dup(),
                            },
                        },
                    ),
                },
            }
        },
        Mutation::EditComment { review_id, comment_id, body } => match find_comment(&snapshot.comments, *comment_id) {
            None => Err(MutationError::UnknownComment(*comment_id)),
            Some(c) => if c.author.same(&meta.author) {
                Ok(
                    EventBody::CommentEdited {
                        review_id: *review_id,
                        comment_id: *comment_id,
                        body: body.dup(),
                    },
                )
            } else {
                Err(MutationError::NotAuthor(*comment_id))
            },
        },
        Mutation::DeleteComment { review_id, comment_id } => match find_comment(&snapshot.comments, *comment_id) {
            None => Err(MutationError::UnknownComment(*comment_id)),
            Some(c) => if c.author.same(&meta.author) {
                Ok(EventBody::CommentDeleted { review_id: *review_id, comment_id: *comment_id })
            } else {
                Err(MutationError::NotAuthor(*comment_id))
            },
        },
        Mutation::ResolveThread { review_id, thread_id } => match find_thread(&snapshot.threads, *thread_id) {
            None => Err(MutationError::UnknownThread(*thread_id)),
            Some(th) => match th.resolution {
                ThreadResolution::Informational => Err(MutationError::InformationalThread(*thread_id)),
                ThreadResolution::Resolved { .. } => Err(MutationError::AlreadyResolved(*thread_id)),
                ThreadResolution::Open => Ok(
                    EventBody::ThreadResolved { review_id: *review_id, thread_id: *thread_id },
                ),
            },
        },
        Mutation::UnresolveThread { review_id, thread_id } => match find_thread(&snapshot.threads, *thread_id) {
            None => Err(MutationError::UnknownThread(*thread_id)),
            Some(th) => match th.resolution {
                ThreadResolution::Informational => Err(MutationError::InformationalThread(*thread_id)),
                ThreadResolution::Open => Err(MutationError::NotResolved(*thread_id)),
                ThreadResolution::Resolved { .. } => Ok(
                    EventBody::ThreadUnresolved { review_id: *review_id, thread_id: *thread_id },
                ),
            },
        },
        Mutation::UpdateReview { review_id, title, status } => Ok(
            EventBody::ReviewUpdated { review_id: *review_id, title: title.dup(), status: *status },
        ),
        Mutation::UpdateReviewTarget { review_id, update } => match target_at(
            &snapshot.review.targets,
            update.repo_id,
        ) {
            None => Err(MutationError::UnknownRepo(update.repo_id)),
            Some(i) => {
                let existing = &snapshot.review.targets[i];
                let target = match &update.revision {
                    TargetRevision::Base { ref_spec } => ReviewTarget {
                        repo_id: existing.repo_id,
                        base: ref_spec.to_ref(),
                        head: existing.head.dup(),
                    },
                    TargetRevision::Head { ref_spec } => ReviewTarget {
                        repo_id: existing.repo_id,
                        base: existing.base.dup(),
                        head: ref_spec.dup(),
                    },
                };
                Ok(EventBody::ReviewTargetUpdated { review_id: *review_id, target })
            },
        },
        Mutation::CreateWorkspace { .. } => Err(MutationError::Unsupported(mutation.kind())),
        Mutation::RenameWorkspace { .. } => Err(MutationError::Unsupported(mutation.kind())),
        Mutation::AttachRepo { .. } => Err(MutationError::Unsupported(mutation.kind())),
        Mutation::DetachRepo { .. } => Err(MutationError::Unsupported(mutation.kind())),
        Mutation::CreateReview { .. } => Err(MutationError::Unsupported(mutation.kind())),
        Mutation::DeleteReview { .. } => Err(MutationError::Unsupported(mutation.kind())),
        Mutation::MarkViewed { .. } => Err(MutationError::Unsupported(mutation.kind())),
        Mutation::UnmarkViewed { .. } => Err(MutationError::Unsupported(mutation.kind())),
        Mutation::RequestReview { .. } => Err(MutationError::Unsupported(mutation.kind())),
        Mutation::ApplySuggestion { .. } => Err(MutationError::Unsupported(mutation.kind())),
    }
}

// ---- folding events -------------------------------------------------------

impl SpecThreadResolution {
    /// The resolution a thread with this root starts with.
    pub open spec fn for_root(kind: SpecCommentKind) -> SpecThreadResolution {
        match kind {
            SpecCommentKind::Informational => SpecThreadResolution::Informational,
            SpecCommentKind::Note => SpecThreadResolution::Open,
            SpecCommentKind::Suggestion { .. } => SpecThreadResolution::Open,
        }
    }
}

impl ThreadResolution {
    /// The resolution a thread with this root starts with.
    pub fn for_root(kind: &CommentKind) -> (r: ThreadResolution)
        ensures
            r.deep_view() == SpecThreadResolution::for_root(kind.deep_view()),
    {
        match kind {
            CommentKind::Informational => ThreadResolution::Informational,
            CommentKind::Note => ThreadResolution::Open,
            CommentKind::Suggestion { .. } => ThreadResolution::Open,
        }
    }
}

/// The threads once `comment` is posted: a reply joins its thread, the
/// first comment of a thread starts it.
pub open spec fn with_comment(threads: Seq<SpecThread>, comment: SpecComment) -> Seq<SpecThread> {
    match data::first_where(threads, thread_is(comment.thread_id)) {
        Some(i) => if threads[i].replies.contains(comment.id) || threads[i].root == comment.id {
            threads
        } else {
            threads.update(i, SpecThread { replies: threads[i].replies.push(comment.id), ..threads[i] })
        },
        None => threads.push(
            SpecThread {
                id: comment.thread_id,
                review_id: comment.review_id,
                root: comment.id,
                replies: Seq::empty(),
                resolution: SpecThreadResolution::for_root(comment.kind),
            },
        ),
    }
}

impl SpecReviewSnapshot {
    /// This snapshot with the first comment `id` names changed by `f`.
    pub open spec fn with_comment_changed(self, id: CommentId, f: spec_fn(SpecComment) -> SpecComment) -> (
        SpecReviewSnapshot,
        Seq<ViewSection>,
    ) {
        match data::first_where(self.comments, comment_is(id)) {
            Some(i) => (
                SpecReviewSnapshot { comments: self.comments.update(i, f(self.comments[i])), ..self },
                seq![ViewSection::Threads],
            ),
            None => (self, Seq::empty()),
        }
    }

    pub open spec fn with_resolution(self, id: ThreadId, resolution: SpecThreadResolution) -> (
        SpecReviewSnapshot,
        Seq<ViewSection>,
    ) {
        match data::first_where(self.threads, thread_is(id)) {
            Some(i) => (
                SpecReviewSnapshot {
                    threads: self.threads.update(i, SpecThread { resolution, ..self.threads[i] }),
                    ..self
                },
                seq![ViewSection::Threads],
            ),
            None => (self, Seq::empty()),
        }
    }

    /// The snapshot after `body`, and the view sections it touched. Events
    /// for other reviews, and events on the review list or the workspaces,
    /// change nothing here.
    #[verifier::opaque]
    pub open spec fn after_body(self, meta: SpecEventMeta, body: SpecEventBody) -> (
        SpecReviewSnapshot,
        Seq<ViewSection>,
    ) {
        if body.review_id() != Some(self.review.id) {
            (self, Seq::empty())
        } else {
            match body {
                SpecEventBody::ReviewUpdated { title, status, .. } => (
                    SpecReviewSnapshot { review: SpecReview { title, status, ..self.review }, ..self },
                    seq![ViewSection::Conversation],
                ),
                SpecEventBody::ReviewTargetsResolved { targets, .. } => (
                    SpecReviewSnapshot { resolved: Some(targets), ..self },
                    seq![ViewSection::Diff],
                ),
                SpecEventBody::ReviewTargetUpdated { target, .. } => match data::first_where(
                    self.review.targets,
                    target_of(target.repo_id),
                ) {
                    Some(i) => (
                        SpecReviewSnapshot {
                            review: SpecReview {
                                targets: self.review.targets.update(i, target),
                                ..self.review
                            },
                            ..self
                        },
                        seq![ViewSection::ReviewList],
                    ),
                    None => (self, Seq::empty()),
                },
                SpecEventBody::CommentCreated { comment } => if self.comment(comment.id) is Some {
                    (self, Seq::empty())
                } else {
                    (
                        SpecReviewSnapshot {
                            comments: self.comments.push(comment),
                            threads: with_comment(self.threads, comment),
                            ..self
                        },
                        seq![ViewSection::Threads],
                    )
                },
                SpecEventBody::CommentEdited { comment_id, body, .. } => self.with_comment_changed(
                    comment_id,
                    |c: SpecComment| SpecComment { body, edited: Some(meta.ts), ..c },
                ),
                SpecEventBody::CommentDeleted { comment_id, .. } => self.with_comment_changed(
                    comment_id,
                    |c: SpecComment| SpecComment { state: SpecCommentState::Deleted, ..c },
                ),
                SpecEventBody::CommentReanchored { comment_id, anchor, state, .. } => self.with_comment_changed(
                    comment_id,
                    |c: SpecComment| SpecComment { anchor, state, ..c },
                ),
                SpecEventBody::ThreadResolved { thread_id, .. } => self.with_resolution(
                    thread_id,
                    SpecThreadResolution::Resolved { by: meta.author, at: meta.ts },
                ),
                SpecEventBody::ThreadUnresolved { thread_id, .. } => self.with_resolution(
                    thread_id,
                    SpecThreadResolution::Open,
                ),
                SpecEventBody::FileViewed { review_id, repo_id, path, viewer, content } => (
                    SpecReviewSnapshot {
                        viewed: self.viewed.filter(other_mark(repo_id, path, viewer)).push(
                            SpecViewedMark { review_id, repo_id, path, viewer, content },
                        ),
                        ..self
                    },
                    seq![ViewSection::Progress],
                ),
                SpecEventBody::FileUnviewed { repo_id, path, viewer, .. } => (
                    SpecReviewSnapshot {
                        viewed: self.viewed.filter(other_mark(repo_id, path, viewer)),
                        ..self
                    },
                    seq![ViewSection::Progress],
                ),
                SpecEventBody::ReviewRequested { .. } => (self, seq![ViewSection::Conversation]),
                SpecEventBody::SuggestionApplied { .. } => (self, seq![ViewSection::Conversation]),
                _ => (self, Seq::empty()),
            }
        }
    }
}

fn change_comment(snapshot: &mut ReviewSnapshot, i: usize, comment: Comment)
    requires
        i < old(snapshot).comments@.len(),
    ensures
        final(snapshot).deep_view() == (SpecReviewSnapshot {
            comments: old(snapshot).deep_view().comments.update(i as int, comment.deep_view()),
            ..old(snapshot).deep_view()
        }),
{
    data::set(&mut snapshot.comments, i, comment);
}

fn resolve_thread(
    snapshot: &mut ReviewSnapshot,
    id: ThreadId,
    resolution: ThreadResolution,
) -> (r: Vec<ViewSection>)
    ensures
        (final(snapshot).deep_view(), r.deep_view()) == old(snapshot).deep_view().with_resolution(
            id,
            resolution.deep_view(),
        ),
{
    match thread_at(&snapshot.threads, id) {
        Some(i) => {
            let t = &snapshot.threads[i];
            let changed = Thread {
                id: t.id,
                review_id: t.review_id,
                root: t.root,
                replies: t.replies.dup(),
                resolution,
            };
            data::set(&mut snapshot.threads, i, changed);
            data::one(ViewSection::Threads)
        },
        None => data::empty(),
    }
}

fn post_comment(threads: &mut Vec<Thread>, comment: &Comment)
    ensures
        final(threads).deep_view() == with_comment(old(threads).deep_view(), comment.deep_view()),
{
    match thread_at(threads, comment.thread_id) {
        Some(i) => {
            let t = &threads[i];
            if !data::contains(&t.replies, &comment.id) && t.root != comment.id {
                let mut replies = t.replies.dup();
                data::push(&mut replies, comment.id);
                let changed = Thread {
                    id: t.id,
                    review_id: t.review_id,
                    root: t.root,
                    replies,
                    resolution: t.resolution.dup(),
                };
                data::set(threads, i, changed);
            }
        },
        None => data::push(
            threads,
            Thread {
                id: comment.thread_id,
                review_id: comment.review_id,
                root: comment.id,
                replies: data::empty(),
                resolution: ThreadResolution::for_root(&comment.kind),
            },
        ),
    }
}

fn drop_mark(viewed: &mut Vec<ViewedMark>, repo_id: RepoId, path: &RepoPath, viewer: &Human)
    ensures
        final(viewed).deep_view() == old(viewed).deep_view().filter(
            other_mark(repo_id, path.deep_view(), viewer.deep_view()),
        ),
{
    data::retain(
        viewed,
        |v: &ViewedMark| -> (b: bool)
            ensures
                b == other_mark(repo_id, path.deep_view(), viewer.deep_view())(v.deep_view())
        {
            !(v.repo_id == repo_id && v.path.same(path) && v.viewer.same(viewer))
        },
        Ghost(other_mark(repo_id, path.deep_view(), viewer.deep_view())),
    );
}

/// Fold `body` into `snapshot` and say which view sections it touched.
pub fn apply_body(snapshot: &mut ReviewSnapshot, meta: &EventMeta, body: &EventBody) -> (r: Vec<ViewSection>)
    ensures
        (final(snapshot).deep_view(), r.deep_view()) == old(snapshot).deep_view().after_body(
            meta.deep_view(),
            body.deep_view(),
        ),
{
    proof {
        reveal(SpecReviewSnapshot::after_body);
    }
    let mine = match body.review_id() {
        Some(id) => id == snapshot.review.id,
        None => false,
    };
    if !mine {
        return data::empty();
    }
    match body {
        EventBody::ReviewUpdated { title, status, .. } => {
            snapshot.review.title = title.dup();
            snapshot.review.status = *status;
            data::one(ViewSection::Conversation)
        },
        EventBody::ReviewTargetsResolved { targets, .. } => {
            snapshot.resolved = Some(targets.dup());
            data::one(ViewSection::Diff)
        },
        EventBody::ReviewTargetUpdated { target, .. } => match target_at(&snapshot.review.targets, target.repo_id) {
            Some(i) => {
                data::set(&mut snapshot.review.targets, i, target.dup());
                data::one(ViewSection::ReviewList)
            },
            None => data::empty(),
        },
        EventBody::CommentCreated { comment } => {
            if find_comment(&snapshot.comments, comment.id).is_some() {
                return data::empty();
            }
            data::push(&mut snapshot.comments, comment.dup());
            post_comment(&mut snapshot.threads, comment);
            data::one(ViewSection::Threads)
        },
        EventBody::CommentEdited { comment_id, body, .. } => match comment_at(&snapshot.comments, *comment_id) {
            Some(i) => {
                let mut c = snapshot.comments[i].dup();
                c.body = body.dup();
                c.edited = Some(meta.ts);
                change_comment(snapshot, i, c);
                data::one(ViewSection::Threads)
            },
            None => data::empty(),
        },
        EventBody::CommentDeleted { comment_id, .. } => match comment_at(&snapshot.comments, *comment_id) {
            Some(i) => {
                let mut c = snapshot.comments[i].dup();
                c.state = CommentState::Deleted;
                change_comment(snapshot, i, c);
                data::one(ViewSection::Threads)
            },
            None => data::empty(),
        },
        EventBody::CommentReanchored { comment_id, anchor, state, .. } => match comment_at(
            &snapshot.comments,
            *comment_id,
        ) {
            Some(i) => {
                let mut c = snapshot.comments[i].dup();
                c.anchor = anchor.dup();
                c.state = state.dup();
                change_comment(snapshot, i, c);
                data::one(ViewSection::Threads)
            },
            None => data::empty(),
        },
        EventBody::ThreadResolved { thread_id, .. } => resolve_thread(
            snapshot,
            *thread_id,
            ThreadResolution::Resolved { by: meta.author.dup(), at: meta.ts },
        ),
        EventBody::ThreadUnresolved { thread_id, .. } => resolve_thread(
            snapshot,
            *thread_id,
            ThreadResolution::Open,
        ),
        EventBody::FileViewed { review_id, repo_id, path, viewer, content } => {
            drop_mark(&mut snapshot.viewed, *repo_id, path, viewer);
            data::push(
                &mut snapshot.viewed,
                ViewedMark {
                    review_id: *review_id,
                    repo_id: *repo_id,
                    path: path.dup(),
                    viewer: viewer.dup(),
                    content: *content,
                },
            );
            data::one(ViewSection::Progress)
        },
        EventBody::FileUnviewed { repo_id, path, viewer, .. } => {
            drop_mark(&mut snapshot.viewed, *repo_id, path, viewer);
            data::one(ViewSection::Progress)
        },
        EventBody::ReviewRequested { .. } => data::one(ViewSection::Conversation),
        EventBody::SuggestionApplied { .. } => data::one(ViewSection::Conversation),
        _ => data::empty(),
    }
}

pub open spec fn request_is(id: crate::protocol::ReviewRequestId) -> spec_fn(SpecReviewRequest) -> bool {
    |r: SpecReviewRequest| r.id == id
}

impl SpecReviewSnapshot {
    /// The snapshot after a committed event. An invitation takes its
    /// identity from the event, not from the body alone.
    #[verifier::opaque]
    pub open spec fn after_event(self, event: SpecEvent) -> (SpecReviewSnapshot, Seq<ViewSection>) {
        let (next, sections) = self.after_body(
            SpecEventMeta { author: event.author, ts: event.ts },
            event.body,
        );
        match event.request() {
            Some(request) => if request.review_id == self.review.id && !data::some_where(
                self.requests,
                request_is(request.id),
            ) {
                (SpecReviewSnapshot { requests: next.requests.push(request), ..next }, sections)
            } else {
                (next, sections)
            },
            None => (next, sections),
        }
    }
}

pub fn has_request(requests: &Vec<ReviewRequest>, id: crate::protocol::ReviewRequestId) -> (r: bool)
    ensures
        r == data::some_where(requests.deep_view(), request_is(id)),
{
    data::any(
        requests,
        |q: &ReviewRequest| -> (b: bool)
            ensures
                b == request_is(id)(q.deep_view())
        {
            q.id == id
        },
        Ghost(request_is(id)),
    )
}

/// Fold a committed event into `snapshot` and say which view sections it
/// touched.
pub fn apply_event(snapshot: &mut ReviewSnapshot, event: &Event) -> (r: Vec<ViewSection>)
    ensures
        (
            final(snapshot).deep_view(),
            r.deep_view(),
        ) == old(snapshot).deep_view().after_event(event.deep_view()),
{
    proof {
        reveal(SpecReviewSnapshot::after_event);
        reveal(SpecReviewSnapshot::after_body);
    }
    let meta = EventMeta { author: event.author.dup(), ts: event.ts };
    let review_id = snapshot.review.id;
    let sections = apply_body(snapshot, &meta, &event.body);
    if let Some(request) = ReviewRequest::from_event(event) {
        if request.review_id == review_id && !has_request(&snapshot.requests, request.id) {
            data::push(&mut snapshot.requests, request);
        }
    }
    sections
}

// ---- laws -----------------------------------------------------------------

/// An event of another review changes nothing.
pub proof fn events_of_other_reviews_change_nothing(
    snapshot: SpecReviewSnapshot,
    meta: SpecEventMeta,
    body: SpecEventBody,
)
    requires
        body.review_id() != Some(snapshot.review.id),
    ensures
        snapshot.after_body(meta, body) == (snapshot, Seq::<ViewSection>::empty()),
{
    reveal(SpecReviewSnapshot::after_body);
}

/// A comment that is posted twice is posted once: its second event changes
/// nothing.
pub proof fn comments_are_posted_once(
    snapshot: SpecReviewSnapshot,
    first: SpecEventMeta,
    second: SpecEventMeta,
    comment: SpecComment,
)
    requires
        comment.review_id == snapshot.review.id,
    ensures
        ({
            let posted = snapshot.after_body(first, SpecEventBody::CommentCreated { comment }).0;
            &&& posted.comment(comment.id) is Some
            &&& posted.after_body(second, SpecEventBody::CommentCreated { comment }) == (
                posted,
                Seq::<ViewSection>::empty(),
            )
        }),
{
    reveal(SpecReviewSnapshot::after_body);
    let posted = snapshot.after_body(first, SpecEventBody::CommentCreated { comment }).0;
    let p = comment_is(comment.id);
    data::lemma_first_where(posted.comments, p);
    if snapshot.comment(comment.id) is None {
        assert(p(posted.comments[posted.comments.len() - 1]));
    }
}

/// Reopening a thread that was resolved while open undoes the resolving.
pub proof fn reopening_undoes_resolving(
    snapshot: SpecReviewSnapshot,
    first: SpecEventMeta,
    second: SpecEventMeta,
    thread_id: ThreadId,
)
    requires
        snapshot.thread(thread_id) matches Some(t) && t.resolution is Open,
    ensures
        ({
            let review_id = snapshot.review.id;
            let resolved = snapshot.after_body(
                first,
                SpecEventBody::ThreadResolved { review_id, thread_id },
            ).0;
            &&& resolved.thread(thread_id) matches Some(t) && t.resolution == (SpecThreadResolution::Resolved {
                by: first.author,
                at: first.ts,
            })
            &&& resolved.after_body(
                second,
                SpecEventBody::ThreadUnresolved { review_id, thread_id },
            ).0 == snapshot
        }),
{
    reveal(SpecReviewSnapshot::after_body);
    let review_id = snapshot.review.id;
    let p = thread_is(thread_id);
    let resolved = snapshot.after_body(first, SpecEventBody::ThreadResolved { review_id, thread_id }).0;
    data::lemma_first_where(snapshot.threads, p);
    data::lemma_first_where(resolved.threads, p);
    let i = data::first_where(snapshot.threads, p)->0;
    assert(p(resolved.threads[i]));
    let j = data::first_where(resolved.threads, p)->0;
    if j < i {
        assert(resolved.threads[j] == snapshot.threads[j]);
    }
    assert(resolved.threads.update(i, snapshot.threads[i]) =~= snapshot.threads);
}

/// Unmarking a file after marking it is unmarking it.
pub proof fn unmarking_forgets_marking(
    snapshot: SpecReviewSnapshot,
    first: SpecEventMeta,
    second: SpecEventMeta,
    mark: SpecViewedMark,
)
    requires
        mark.review_id == snapshot.review.id,
    ensures
        ({
            let marked = snapshot.after_body(
                first,
                SpecEventBody::FileViewed {
                    review_id: mark.review_id,
                    repo_id: mark.repo_id,
                    path: mark.path,
                    viewer: mark.viewer,
                    content: mark.content,
                },
            ).0;
            let unmark = SpecEventBody::FileUnviewed {
                review_id: mark.review_id,
                repo_id: mark.repo_id,
                path: mark.path,
                viewer: mark.viewer,
            };
            marked.after_body(second, unmark).0 == snapshot.after_body(second, unmark).0
        }),
{
    reveal(SpecReviewSnapshot::after_body);
    let p = other_mark(mark.repo_id, mark.path, mark.viewer);
    let rest = snapshot.viewed.filter(p);
    lemma_filter_twice(snapshot.viewed, p);
    assert(rest.push(mark).filter(p) =~= rest) by {
        reveal(Seq::filter);
        assert(rest.push(mark).drop_last() =~= rest);
    }
}

proof fn lemma_filter_twice<A>(s: Seq<A>, p: spec_fn(A) -> bool)
    ensures
        s.filter(p).filter(p) == s.filter(p),
    decreases s.len(),
{
    reveal(Seq::filter);
    if s.len() > 0 {
        lemma_filter_twice(s.drop_last(), p);
        let rest = s.drop_last().filter(p);
        if p(s.last()) {
            assert(rest.push(s.last()).drop_last() =~= rest);
        }
    }
}

} // verus!
