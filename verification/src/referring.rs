//! Portable references: opening what one points at, and giving one to
//! everything that is shown.
use vstd::prelude::*;

use crate::client;
use crate::client::{
    ClientCore, CoreError, InputKind, Pending, ReferenceText, SpecClientCore, SpecCoreError,
    SpecPending, SpecPendingReference, SpecReferenceText, PendingReference,
};
use crate::data;
use crate::data::Value;
use crate::diff;
use crate::diff::{
    CommentView, PendingIds, SpecCommentView, SpecPendingIds, SpecThreadView, ThreadView,
};
use crate::events;
use crate::focus::Focus;
use crate::protocol::{
    CommentId, CommentState, Event, EventBody, ReferenceTarget, ReviewId, ReviewReference,
    ReviewSnapshot, RpcError, SpecEvent, SpecEventBody, SpecReferenceContext, SpecReviewReference,
    SpecReviewSnapshot, SpecRpcError, ThreadId, ViewSection,
};
use crate::suggestion;
use crate::view::{SpecViewModel, Tab};

verus! {

pub open spec fn other_context_message() -> Seq<char> {
    "This reference belongs to another daemon context. Open it with `nits open <reference>` or select that context explicitly."@
}

pub open spec fn missing_thread_message() -> Seq<char> {
    "Referenced thread is missing from this review"@
}

pub open spec fn missing_comment_message() -> Seq<char> {
    "Referenced comment is missing from this review"@
}

pub open spec fn deleted_comment_message() -> Seq<char> {
    "Referenced comment has been deleted"@
}

pub open spec fn deleted_review_message() -> Seq<char> {
    "Referenced review has been deleted"@
}

impl SpecReviewReference {
    /// The comment a reference points at, `None` for a whole review.
    pub open spec fn resolve(self, snapshot: SpecReviewSnapshot) -> Result<Option<CommentId>, Seq<char>> {
        match self.target {
            ReferenceTarget::Review => Ok(None),
            ReferenceTarget::Thread { thread_id } => match snapshot.thread(thread_id) {
                Some(t) => Ok(Some(t.root)),
                None => Err(missing_thread_message()),
            },
            ReferenceTarget::Comment { comment_id } => match snapshot.comment(comment_id) {
                Some(_) => Ok(Some(comment_id)),
                None => Err(missing_comment_message()),
            },
        }
    }
}

impl ReviewReference {
    /// The comment a reference points at, `None` for a whole review.
    pub fn resolve(&self, snapshot: &ReviewSnapshot) -> (r: Result<Option<CommentId>, String>)
        ensures
            match r {
                Ok(x) => self.deep_view().resolve(snapshot.deep_view()) == Ok::<Option<CommentId>, Seq<char>>(x),
                Err(e) => self.deep_view().resolve(snapshot.deep_view()) == Err::<Option<CommentId>, Seq<char>>(
                    e@,
                ),
            },
    {
        match self.target {
            ReferenceTarget::Review => Ok(None),
            ReferenceTarget::Thread { thread_id } => match events::find_thread(&snapshot.threads, thread_id) {
                Some(t) => Ok(Some(t.root)),
                None => Err("Referenced thread is missing from this review".to_owned()),
            },
            ReferenceTarget::Comment { comment_id } => match events::find_comment(&snapshot.comments, comment_id) {
                Some(_) => Ok(Some(comment_id)),
                None => Err("Referenced comment is missing from this review".to_owned()),
            },
        }
    }
}

/// The comment a pending mutation touches.
pub open spec fn touched_comment() -> spec_fn(SpecPending) -> Option<CommentId> {
    |p: SpecPending|
        match p.body {
            SpecEventBody::CommentCreated { comment } => Some(comment.id),
            SpecEventBody::CommentEdited { comment_id, .. } => Some(comment_id),
            SpecEventBody::CommentDeleted { comment_id, .. } => Some(comment_id),
            SpecEventBody::CommentReanchored { comment_id, .. } => Some(comment_id),
            _ => None,
        }
}

/// The thread a pending mutation touches.
pub open spec fn touched_thread() -> spec_fn(SpecPending) -> Option<ThreadId> {
    |p: SpecPending|
        match p.body {
            SpecEventBody::ThreadResolved { thread_id, .. } => Some(thread_id),
            SpecEventBody::ThreadUnresolved { thread_id, .. } => Some(thread_id),
            _ => None,
        }
}

/// Events newer than the snapshot, folded into it; `None` when one of them
/// deleted the review.
pub open spec fn landed(snapshot: SpecReviewSnapshot, events: Seq<SpecEvent>) -> Option<SpecReviewSnapshot>
    decreases events.len(),
{
    if events.len() == 0 {
        Some(snapshot)
    } else {
        match landed(snapshot, events.drop_last()) {
            None => None,
            Some(s) => {
                let event = events.last();
                if event.seq.0 <= s.seq.0 {
                    Some(s)
                } else if event.body is ReviewDeleted {
                    None
                } else {
                    Some(SpecReviewSnapshot { seq: event.seq, ..s.after_event(event).0 })
                }
            },
        }
    }
}

pub open spec fn thread_view_is(id: ThreadId) -> spec_fn(SpecThreadView) -> bool {
    |t: SpecThreadView| t.id == id
}

pub open spec fn referred_comment(context: SpecReferenceContext, review_id: ReviewId) -> spec_fn(
    SpecCommentView,
) -> SpecCommentView {
    |c: SpecCommentView|
        SpecCommentView {
            reference: Some(
                SpecReviewReference {
                    context,
                    review_id,
                    target: ReferenceTarget::Comment { comment_id: c.id },
                },
            ),
            ..c
        }
}

pub open spec fn referred_thread(context: SpecReferenceContext, review_id: ReviewId) -> spec_fn(
    SpecThreadView,
) -> SpecThreadView {
    |t: SpecThreadView|
        SpecThreadView {
            reference: Some(
                SpecReviewReference {
                    context,
                    review_id,
                    target: ReferenceTarget::Thread { thread_id: t.id },
                },
            ),
            comments: t.comments.map_values(referred_comment(context, review_id)),
            ..t
        }
}

impl SpecViewModel {
    /// The reference to what has the keys: the focused comment of the
    /// focused thread, else the thread.
    #[verifier::opaque]
    pub open spec fn focused_reference(self) -> Option<SpecReviewReference> {
        match self.focus {
            Focus::Thread { index } => if index < self.threads.len() {
                let t = self.threads[index as int];
                let own = match self.focused_comment {
                    Some(id) => match data::found(t.comments, suggestion::comment_view_is(id)) {
                        Some(c) => c.reference,
                        None => None,
                    },
                    None => None,
                };
                if own is Some {
                    own
                } else {
                    t.reference
                }
            } else {
                None
            },
            _ => None,
        }
    }
}

impl SpecClientCore {
    /// What the pending mutations touch.
    #[verifier::opaque]
    pub open spec fn pending_ids(self) -> SpecPendingIds {
        SpecPendingIds {
            comments: self.pending.filter_map(touched_comment()),
            threads: self.pending.filter_map(touched_thread()),
        }
    }

    #[verifier::opaque]
    pub open spec fn reference_error(self, message: Seq<char>) -> SpecClientCore {
        self.with_view(
            SpecViewModel { last_error: Some(SpecRpcError::Invalid { reason: message }), ..self.view },
        ).touch(seq![ViewSection::Connection])
    }

    /// A reference opens its review; the rest follows when that is there.
    #[verifier::opaque]
    pub open spec fn open_reference(self, text: SpecReferenceText) -> Result<SpecClientCore, SpecCoreError> {
        if !self.subscribed() {
            Err(self.wrong_state(InputKind::User))
        } else {
            match text {
                SpecReferenceText::Unreadable { message } => Ok(self.reference_error(message)),
                SpecReferenceText::Parsed { reference } => if self.config.reference_context != Some(
                    reference.context,
                ) {
                    Ok(self.reference_error(other_context_message()))
                } else {
                    match self.open_review(reference.review_id) {
                        Err(e) => Err(e),
                        Ok(c) => Ok(
                            SpecClientCore {
                                view: SpecViewModel { last_error: None, ..c.view },
                                pending_reference: Some(
                                    SpecPendingReference { reference, events: Seq::empty() },
                                ),
                                ..c
                            },
                        ),
                    }
                },
            }
        }
    }

    #[verifier::opaque]
    pub open spec fn focus_comment(self, comment_id: CommentId) -> Result<SpecClientCore, SpecCoreError> {
        match self.view.review {
            None => Err(SpecCoreError::NoOpenReview),
            Some(open) => Ok(
                match open.snapshot.comment(comment_id) {
                    None => self.reference_error(missing_comment_message()),
                    Some(c) => if c.state is Deleted {
                        self.reference_error(deleted_comment_message())
                    } else {
                        match data::first_where(
                            diff::thread_views(open.snapshot, self.pending_ids()),
                            thread_view_is(c.thread_id),
                        ) {
                            None => self.reference_error(missing_thread_message()),
                            Some(i) => self.with_view(
                                SpecViewModel {
                                    tab: Tab::Conversation,
                                    focus: Focus::Thread { index: i as usize },
                                    focused_comment: Some(comment_id),
                                    ..self.view
                                },
                            ).touch(seq![ViewSection::Focus, ViewSection::Threads]),
                        }
                    },
                },
            ),
        }
    }

    /// The reference is followed to the comment it points at.
    #[verifier::opaque]
    pub open spec fn pointed(self, reference: SpecReviewReference) -> SpecClientCore {
        match self.view.review {
            None => self,
            Some(open) => match reference.resolve(open.snapshot) {
                Err(message) => self.reference_error(message),
                Ok(None) => self,
                Ok(Some(comment_id)) => match self.focus_comment(comment_id) {
                    Ok(c) => c,
                    Err(_) => self,
                },
            },
        }
    }

    /// The reference that waits lands in the open review, with the events
    /// that came meanwhile.
    #[verifier::opaque]
    pub open spec fn land_reference(self) -> SpecClientCore {
        match self.pending_reference {
            None => self,
            Some(p) => {
                let c = SpecClientCore { pending_reference: None, ..self };
                match c.committed {
                    None => c.pointed(p.reference),
                    Some(committed) => match landed(committed, p.events) {
                        None => c.closed_review().reference_error(deleted_review_message()),
                        Some(s) => SpecClientCore { committed: Some(s), ..c }.rebased().pointed(p.reference),
                    },
                }
            },
        }
    }

    /// A snapshot of a review came: a reference lands in the review it waits
    /// for, and no other.
    #[verifier::opaque]
    pub open spec fn landed_in(self, review_id: ReviewId) -> SpecClientCore {
        match self.pending_reference {
            Some(p) => if p.reference.review_id == review_id {
                self.land_reference()
            } else {
                self
            },
            None => self,
        }
    }

    /// Threads with a reference to each, and to each comment.
    #[verifier::opaque]
    pub open spec fn decorated(self, threads: Seq<SpecThreadView>) -> Seq<SpecThreadView> {
        match (self.config.reference_context, self.view.open_review) {
            (Some(context), Some(review_id)) => threads.map_values(referred_thread(context, review_id)),
            _ => threads,
        }
    }
}

/// Fold events into a snapshot; `false` when one of them deleted the
/// review.
fn land(snapshot: &mut ReviewSnapshot, events: &Vec<Event>) -> (there: bool)
    ensures
        there == (landed(old(snapshot).deep_view(), events.deep_view()) is Some),
        there ==> landed(old(snapshot).deep_view(), events.deep_view()) == Some(final(snapshot).deep_view()),
{
    let n: usize = events.len();
    let ghost all = events.deep_view();
    let ghost start = snapshot.deep_view();
    let mut there = true;
    assert(all.take(0) =~= Seq::empty());
    for i in 0..n
        invariant
            n == events@.len(),
            all == events.deep_view(),
            there == (landed(start, all.take(i as int)) is Some),
            there ==> landed(start, all.take(i as int)) == Some(snapshot.deep_view()),
    {
        assert(all.take(i + 1).drop_last() =~= all.take(i as int));
        assert(all.take(i + 1).last() == events@[i as int].deep_view());
        let event = &events[i];
        if there && event.seq.0 > snapshot.seq.0 {
            let deleted = match event.body {
                EventBody::ReviewDeleted { .. } => true,
                _ => false,
            };
            if deleted {
                there = false;
            } else {
                let _ = events::apply_event(snapshot, event);
                snapshot.seq = event.seq;
            }
        }
    }
    assert(all.take(n as int) =~= all);
    there
}

impl ClientCore {
    /// What the pending mutations touch.
    pub(crate) fn pending_ids(&self) -> (r: PendingIds)
        ensures
            r.deep_view() == self.deep_view().pending_ids(),
    {
        proof {
            reveal(ClientCore::model);
            reveal(SpecClientCore::pending_ids);
        }
        PendingIds {
            comments: data::filter_map(
                &self.pending,
                |p: &Pending| -> (r: Option<CommentId>)
                    ensures
                        r.deep_view() == touched_comment()(p.deep_view())
                {
                    match &p.body {
                        EventBody::CommentCreated { comment } => Some(comment.id),
                        EventBody::CommentEdited { comment_id, .. } => Some(*comment_id),
                        EventBody::CommentDeleted { comment_id, .. } => Some(*comment_id),
                        EventBody::CommentReanchored { comment_id, .. } => Some(*comment_id),
                        _ => None,
                    }
                },
                Ghost(touched_comment()),
            ),
            threads: data::filter_map(
                &self.pending,
                |p: &Pending| -> (r: Option<ThreadId>)
                    ensures
                        r.deep_view() == touched_thread()(p.deep_view())
                {
                    match &p.body {
                        EventBody::ThreadResolved { thread_id, .. } => Some(*thread_id),
                        EventBody::ThreadUnresolved { thread_id, .. } => Some(*thread_id),
                        _ => None,
                    }
                },
                Ghost(touched_thread()),
            ),
        }
    }

    fn reference_error(&mut self, message: String)
        ensures
            final(self).deep_view() == old(self).deep_view().reference_error(message@),
    {
        proof {
            reveal(ClientCore::model);
            reveal(SpecClientCore::reference_error);
        }
        self.view.set_last_error(Some(RpcError::Invalid { reason: message }));
        self.flow.touch(ViewSection::Connection);
    }

    pub(crate) fn open_reference(&mut self, text: ReferenceText) -> (r: Result<(), CoreError>)
        ensures
            client::settled(
                old(self).deep_view(),
                final(self).deep_view(),
                r,
                old(self).deep_view().open_reference(text.deep_view()),
            ),
    {
        proof {
            reveal(ClientCore::model);
            reveal(SpecClientCore::open_reference);
        }
        if !self.is_subscribed() {
            return Err(self.wrong_state(InputKind::User));
        }
        let reference = match text {
            ReferenceText::Unreadable { message } => {
                self.reference_error(message);
                return Ok(());
            },
            ReferenceText::Parsed { reference } => reference,
        };
        let here = match &self.config.reference_context {
            Some(context) => context.same(&reference.context),
            None => false,
        };
        if !here {
            self.reference_error(
                "This reference belongs to another daemon context. Open it with `nits open <reference>` or select that context explicitly.".to_owned(),
            );
            return Ok(());
        }
        match self.open_review(reference.review_id) {
            Ok(()) => {},
            Err(e) => {
                return Err(e);
            },
        }
        self.view.set_last_error(None);
        self.pending_reference = Some(PendingReference { reference, events: data::empty() });
        Ok(())
    }

    fn focus_comment(&mut self, comment_id: CommentId) -> (r: Result<(), CoreError>)
        ensures
            client::settled(
                old(self).deep_view(),
                final(self).deep_view(),
                r,
                old(self).deep_view().focus_comment(comment_id),
            ),
    {
        proof {
            reveal(ClientCore::model);
            reveal(SpecClientCore::focus_comment);
        }
        let open = match self.view.review() {
            Some(open) => open,
            None => {
                return Err(CoreError::NoOpenReview);
            },
        };
        let comment = match events::find_comment(&open.snapshot.comments, comment_id) {
            Some(c) => c,
            None => {
                self.reference_error("Referenced comment is missing from this review".to_owned());
                return Ok(());
            },
        };
        let deleted = match comment.state {
            CommentState::Deleted => true,
            _ => false,
        };
        if deleted {
            self.reference_error("Referenced comment has been deleted".to_owned());
            return Ok(());
        }
        let thread_id = comment.thread_id;
        let ids = self.pending_ids();
        let threads = diff::threads(&open.snapshot, &ids);
        let at = data::position(
            &threads,
            |t: &ThreadView| -> (b: bool)
                ensures
                    b == thread_view_is(thread_id)(t.deep_view())
            { t.id == thread_id },
            Ghost(thread_view_is(thread_id)),
        );
        match at {
            None => {
                self.reference_error("Referenced thread is missing from this review".to_owned());
            },
            Some(index) => {
                self.view.set_tab(Tab::Conversation);
                self.view.set_focus(Focus::Thread { index });
                self.view.set_focused_comment(Some(comment_id));
                self.flow.touch_all(data::two(ViewSection::Focus, ViewSection::Threads));
            },
        }
        Ok(())
    }

    fn point(&mut self, reference: &ReviewReference)
        ensures
            final(self).deep_view() == old(self).deep_view().pointed(reference.deep_view()),
    {
        proof {
            reveal(ClientCore::model);
            reveal(SpecClientCore::pointed);
        }
        let found = match self.view.review() {
            None => {
                return ;
            },
            Some(open) => reference.resolve(&open.snapshot),
        };
        match found {
            Err(message) => self.reference_error(message),
            Ok(None) => {},
            Ok(Some(comment_id)) => {
                let _ = self.focus_comment(comment_id);
            },
        }
    }

    pub(crate) fn land_reference(&mut self)
        ensures
            final(self).deep_view() == old(self).deep_view().land_reference(),
    {
        proof {
            reveal(ClientCore::model);
            reveal(SpecClientCore::land_reference);
        }
        match self.pending_reference.take() {
            None => {},
            Some(p) => match self.committed.take() {
                None => {
                    self.point(&p.reference);
                },
                Some(committed) => {
                    let mut snapshot = committed;
                    let there = land(&mut snapshot, &p.events);
                    if there {
                        self.committed = Some(snapshot);
                        let _ = self.rebase();
                        self.point(&p.reference);
                    } else {
                        self.committed = Some(snapshot);
                        proof {
                            reveal(SpecClientCore::closed_review);
                        }
                        self.close_review();
                        self.reference_error("Referenced review has been deleted".to_owned());
                    }
                },
            },
        }
    }

    /// A snapshot of a review came.
    pub(crate) fn land_in(&mut self, review_id: ReviewId)
        ensures
            final(self).deep_view() == old(self).deep_view().landed_in(review_id),
    {
        proof {
            reveal(ClientCore::model);
            reveal(SpecClientCore::landed_in);
        }
        let waits = match &self.pending_reference {
            Some(p) => p.reference.review_id == review_id,
            None => false,
        };
        if waits {
            self.land_reference();
        }
    }

    /// Threads with a reference to each, and to each comment.
    pub(crate) fn decorate_references(&self, threads: Vec<ThreadView>) -> (r: Vec<ThreadView>)
        ensures
            r.deep_view() == self.deep_view().decorated(threads.deep_view()),
    {
        proof {
            reveal(ClientCore::model);
            reveal(SpecClientCore::decorated);
        }
        let context = match &self.config.reference_context {
            Some(c) => c,
            None => {
                return threads;
            },
        };
        let review_id = match self.view.open_review() {
            Some(id) => id,
            None => {
                return threads;
            },
        };
        let ghost of_thread = referred_thread(context.deep_view(), review_id);
        let ghost of_comment = referred_comment(context.deep_view(), review_id);
        data::map(
            &threads,
            |t: &ThreadView| -> (r: ThreadView)
                ensures
                    r.deep_view() == of_thread(t.deep_view())
            {
                let mut t = t.dup();
                t.comments = data::map(
                    &t.comments,
                    |c: &CommentView| -> (r: CommentView)
                        ensures
                            r.deep_view() == of_comment(c.deep_view())
                    {
                        let mut c = c.dup();
                        c.reference = Some(
                            ReviewReference {
                                context: context.dup(),
                                review_id,
                                target: ReferenceTarget::Comment { comment_id: c.id },
                            },
                        );
                        c
                    },
                    Ghost(of_comment),
                );
                t.reference = Some(
                    ReviewReference {
                        context: context.dup(),
                        review_id,
                        target: ReferenceTarget::Thread { thread_id: t.id },
                    },
                );
                t
            },
            Ghost(of_thread),
        )
    }

    /// The reference to what has the keys.
    pub(crate) fn focused_reference(&self) -> (r: Option<ReviewReference>)
        ensures
            r.deep_view() == self.deep_view().view.focused_reference(),
    {
        proof {
            reveal(ClientCore::model);
            reveal(SpecViewModel::focused_reference);
        }
        let index = match self.view.focus() {
            Focus::Thread { index } => index,
            _ => {
                return None;
            },
        };
        let threads = self.view.threads();
        assert(threads.deep_view().len() == threads@.len());
        if index >= threads.len() {
            return None;
        }
        let t = &threads[index];
        assert(threads.deep_view()[index as int] == t.deep_view());
        if let Some(id) = self.view.focused_comment() {
            let own = data::find(
                &t.comments,
                |c: &CommentView| -> (b: bool)
                    ensures
                        b == suggestion::comment_view_is(id)(c.deep_view())
                { c.id == id },
                Ghost(suggestion::comment_view_is(id)),
            );
            if let Some(c) = own {
                if let Some(reference) = &c.reference {
                    return Some(reference.dup());
                }
            }
        }
        t.reference.dup()
    }
}

} // verus!
