//! Looking at suggestions and applying them, one comment at a time. A write
//! to the working tree is never replayed.
use vstd::prelude::*;

use crate::client;
use crate::client::{
    ClientCore, Connection, CoreError, InputKind, SpecClientCore, SpecCoreError,
    SpecSuggestionEntry, SuggestionEntry,
};
use crate::data;
use crate::data::Value;
use crate::diff::{CommentView, SpecCommentView, SpecThreadView, ThreadView};
use crate::errors;
use crate::events::MutationError;
use crate::flow::{InFlight, SpecErrand, SpecFlow, SpecInFlight};
use crate::focus::Focus;
use crate::protocol::{
    ClientSeq, CommentId, CommentState, Event, SpecClientMsg, EventBody, Mutation, Request,
    RequestId, ReviewId, RpcError, SpecComment, SpecEvent, SpecEventBody, SpecMutation, SpecRequest,
    SpecReviewSnapshot, SpecRpcError, SpecSuggestionInspection, SpecSuggestionPreview,
    SpecSuggestionRecord, SpecSuggestionWorktree, SuggestionInspection, SuggestionOutcome,
    SuggestionPreview, SuggestionReceipt, SuggestionRecord, SuggestionWorktree, ViewSection,
};
use crate::view::SpecViewModel;

verus! {

/// A suggestion as the UI shows it.
#[derive(Debug, PartialEq, Eq)]
pub struct SuggestionView {
    pub record: SuggestionRecord,
    pub inspection: Option<SuggestionInspection>,
    pub status: SuggestionStatus,
    /// What an earlier application failed with. A later look must not hide
    /// this evidence.
    pub notice: Option<String>,
}

/// Model of [`SuggestionView`].
#[verifier::ext_equal]
pub struct SpecSuggestionView {
    pub record: SpecSuggestionRecord,
    pub inspection: Option<SpecSuggestionInspection>,
    pub status: SpecSuggestionStatus,
    pub notice: Option<Seq<char>>,
}

impl DeepView for SuggestionView {
    type V = SpecSuggestionView;

    open spec fn deep_view(&self) -> SpecSuggestionView {
        SpecSuggestionView {
            record: self.record.deep_view(),
            inspection: self.inspection.deep_view(),
            status: self.status.deep_view(),
            notice: self.notice.deep_view(),
        }
    }
}

impl Value for SuggestionView {
    fn dup(&self) -> (r: Self) {
        SuggestionView {
            record: self.record.dup(),
            inspection: self.inspection.dup(),
            status: self.status.dup(),
            notice: self.notice.dup(),
        }
    }

    fn same(&self, other: &Self) -> (b: bool) {
        self.record.same(&other.record)
            && self.inspection.same(&other.inspection)
            && self.status.same(&other.status)
            && self.notice.same(&other.notice)
    }
}

#[derive(Debug, PartialEq, Eq)]
pub enum SuggestionStatus {
    Unloaded,
    Loading,
    Ready,
    Stale,
    Rejected { message: String },
    Applying,
    Uncertain { message: String },
    Applied,
}

/// Model of [`SuggestionStatus`].
#[verifier::ext_equal]
pub enum SpecSuggestionStatus {
    Unloaded,
    Loading,
    Ready,
    Stale,
    Rejected { message: Seq<char> },
    Applying,
    Uncertain { message: Seq<char> },
    Applied,
}

impl DeepView for SuggestionStatus {
    type V = SpecSuggestionStatus;

    open spec fn deep_view(&self) -> SpecSuggestionStatus {
        match self {
            SuggestionStatus::Unloaded => SpecSuggestionStatus::Unloaded,
            SuggestionStatus::Loading => SpecSuggestionStatus::Loading,
            SuggestionStatus::Ready => SpecSuggestionStatus::Ready,
            SuggestionStatus::Stale => SpecSuggestionStatus::Stale,
            SuggestionStatus::Rejected { message } => SpecSuggestionStatus::Rejected {
                message: message.deep_view(),
            },
            SuggestionStatus::Applying => SpecSuggestionStatus::Applying,
            SuggestionStatus::Uncertain { message } => SpecSuggestionStatus::Uncertain {
                message: message.deep_view(),
            },
            SuggestionStatus::Applied => SpecSuggestionStatus::Applied,
        }
    }
}

impl Value for SuggestionStatus {
    fn dup(&self) -> (r: Self) {
        match self {
            SuggestionStatus::Unloaded => SuggestionStatus::Unloaded,
            SuggestionStatus::Loading => SuggestionStatus::Loading,
            SuggestionStatus::Ready => SuggestionStatus::Ready,
            SuggestionStatus::Stale => SuggestionStatus::Stale,
            SuggestionStatus::Rejected { message } => SuggestionStatus::Rejected {
                message: message.dup(),
            },
            SuggestionStatus::Applying => SuggestionStatus::Applying,
            SuggestionStatus::Uncertain { message } => SuggestionStatus::Uncertain {
                message: message.dup(),
            },
            SuggestionStatus::Applied => SuggestionStatus::Applied,
        }
    }

    fn same(&self, other: &Self) -> (b: bool) {
        match (self, other) {
            (SuggestionStatus::Unloaded, SuggestionStatus::Unloaded) => true,
            (SuggestionStatus::Loading, SuggestionStatus::Loading) => true,
            (SuggestionStatus::Ready, SuggestionStatus::Ready) => true,
            (SuggestionStatus::Stale, SuggestionStatus::Stale) => true,
            (SuggestionStatus::Rejected { message: a0 }, SuggestionStatus::Rejected { message: b0 }) => a0.same(b0),
            (SuggestionStatus::Applying, SuggestionStatus::Applying) => true,
            (SuggestionStatus::Uncertain { message: a0 }, SuggestionStatus::Uncertain { message: b0 }) => a0.same(b0),
            (SuggestionStatus::Applied, SuggestionStatus::Applied) => true,
            _ => false,
        }
    }
}

/// How far the work on a suggestion has come.
#[derive(Debug, PartialEq, Eq)]
pub enum Stage {
    Idle,
    Checking { request_id: RequestId },
    Applying { request_id: RequestId },
    Uncertain { message: String },
    Rejected { message: String },
}

/// Model of [`Stage`].
#[verifier::ext_equal]
pub enum SpecStage {
    Idle,
    Checking { request_id: RequestId },
    Applying { request_id: RequestId },
    Uncertain { message: Seq<char> },
    Rejected { message: Seq<char> },
}

impl DeepView for Stage {
    type V = SpecStage;

    open spec fn deep_view(&self) -> SpecStage {
        match self {
            Stage::Idle => SpecStage::Idle,
            Stage::Checking { request_id } => SpecStage::Checking {
                request_id: *request_id,
            },
            Stage::Applying { request_id } => SpecStage::Applying {
                request_id: *request_id,
            },
            Stage::Uncertain { message } => SpecStage::Uncertain {
                message: message.deep_view(),
            },
            Stage::Rejected { message } => SpecStage::Rejected {
                message: message.deep_view(),
            },
        }
    }
}

impl Value for Stage {
    fn dup(&self) -> (r: Self) {
        match self {
            Stage::Idle => Stage::Idle,
            Stage::Checking { request_id } => Stage::Checking {
                request_id: *request_id,
            },
            Stage::Applying { request_id } => Stage::Applying {
                request_id: *request_id,
            },
            Stage::Uncertain { message } => Stage::Uncertain {
                message: message.dup(),
            },
            Stage::Rejected { message } => Stage::Rejected {
                message: message.dup(),
            },
        }
    }

    fn same(&self, other: &Self) -> (b: bool) {
        match (self, other) {
            (Stage::Idle, Stage::Idle) => true,
            (Stage::Checking { request_id: a0 }, Stage::Checking { request_id: b0 }) => *a0 == *b0,
            (Stage::Applying { request_id: a0 }, Stage::Applying { request_id: b0 }) => *a0 == *b0,
            (Stage::Uncertain { message: a0 }, Stage::Uncertain { message: b0 }) => a0.same(b0),
            (Stage::Rejected { message: a0 }, Stage::Rejected { message: b0 }) => a0.same(b0),
            _ => false,
        }
    }
}

/// What this client knows of one suggestion.
#[derive(Debug, PartialEq, Eq)]
pub struct SuggestionState {
    pub(crate) inspection: Option<SuggestionInspection>,
    pub(crate) notice: Option<String>,
    pub(crate) stage: Stage,
}

/// Model of [`SuggestionState`].
#[verifier::ext_equal]
pub struct SpecSuggestionState {
    pub inspection: Option<SpecSuggestionInspection>,
    pub notice: Option<Seq<char>>,
    pub stage: SpecStage,
}

impl DeepView for SuggestionState {
    type V = SpecSuggestionState;

    open(crate) spec fn deep_view(&self) -> SpecSuggestionState {
        SpecSuggestionState {
            inspection: self.inspection.deep_view(),
            notice: self.notice.deep_view(),
            stage: self.stage.deep_view(),
        }
    }
}

impl Value for SuggestionState {
    fn dup(&self) -> (r: Self) {
        SuggestionState {
            inspection: self.inspection.dup(),
            notice: self.notice.dup(),
            stage: self.stage.dup(),
        }
    }

    fn same(&self, other: &Self) -> (b: bool) {
        self.inspection.same(&other.inspection)
            && self.notice.same(&other.notice)
            && self.stage.same(&other.stage)
    }
}


/// What is said when the proposed text is there but nobody recorded it.
pub open spec fn proposed_message() -> Seq<char> {
    "The proposed bytes are already present, but no applied receipt was recorded. Inspect the file before taking further action."@
}

pub open spec fn suggestion_lost_message() -> Seq<char> {
    "Connection lost. The result will be checked before another application is offered."@
}

impl SpecSuggestionState {
    /// Nothing is known yet.
    pub open spec fn fresh() -> SpecSuggestionState {
        SpecSuggestionState { inspection: None, notice: None, stage: SpecStage::Idle }
    }

    /// What can be done with the suggestion.
    pub open spec fn status(self, record: SpecSuggestionRecord) -> SpecSuggestionStatus {
        if record.outcome is Applied {
            SpecSuggestionStatus::Applied
        } else {
            match self.stage {
                SpecStage::Checking { .. } => SpecSuggestionStatus::Loading,
                SpecStage::Applying { .. } => SpecSuggestionStatus::Applying,
                SpecStage::Uncertain { message } => SpecSuggestionStatus::Uncertain { message },
                SpecStage::Rejected { message } => SpecSuggestionStatus::Rejected { message },
                SpecStage::Idle => match self.inspection {
                    None => SpecSuggestionStatus::Unloaded,
                    Some(SpecSuggestionInspection::Rejected { reason }) => SpecSuggestionStatus::Rejected {
                        message: reason,
                    },
                    Some(SpecSuggestionInspection::Checked { worktree }) => match worktree {
                        SpecSuggestionWorktree::Original => SpecSuggestionStatus::Ready,
                        SpecSuggestionWorktree::Changed => SpecSuggestionStatus::Stale,
                        SpecSuggestionWorktree::Unavailable { reason } => SpecSuggestionStatus::Rejected {
                            message: reason,
                        },
                        SpecSuggestionWorktree::Proposed => SpecSuggestionStatus::Uncertain {
                            message: proposed_message(),
                        },
                    },
                },
            }
        }
    }

    pub open spec fn shown(self, record: SpecSuggestionRecord) -> SpecSuggestionView {
        SpecSuggestionView {
            record,
            inspection: self.inspection,
            status: self.status(record),
            notice: self.notice,
        }
    }

    pub open spec fn with_stage(self, stage: SpecStage) -> SpecSuggestionState {
        SpecSuggestionState { stage, ..self }
    }

    /// A request for it is on its way.
    pub open spec fn busy(self) -> bool {
        self.stage is Checking || self.stage is Applying
    }
}

impl SuggestionState {
    pub fn fresh() -> (r: Self)
        ensures
            r.deep_view() == SpecSuggestionState::fresh(),
    {
        SuggestionState { inspection: None, notice: None, stage: Stage::Idle }
    }

    fn status(&self, record: &SuggestionRecord) -> (r: SuggestionStatus)
        ensures
            r.deep_view() == self.deep_view().status(record.deep_view()),
    {
        if let SuggestionOutcome::Applied { .. } = record.outcome {
            return SuggestionStatus::Applied;
        }
        match &self.stage {
            Stage::Checking { .. } => SuggestionStatus::Loading,
            Stage::Applying { .. } => SuggestionStatus::Applying,
            Stage::Uncertain { message } => SuggestionStatus::Uncertain { message: message.dup() },
            Stage::Rejected { message } => SuggestionStatus::Rejected { message: message.dup() },
            Stage::Idle => match &self.inspection {
                None => SuggestionStatus::Unloaded,
                Some(SuggestionInspection::Rejected { reason }) => SuggestionStatus::Rejected {
                    message: reason.dup(),
                },
                Some(SuggestionInspection::Checked { worktree }) => match worktree {
                    SuggestionWorktree::Original => SuggestionStatus::Ready,
                    SuggestionWorktree::Changed => SuggestionStatus::Stale,
                    SuggestionWorktree::Unavailable { reason } => SuggestionStatus::Rejected {
                        message: reason.dup(),
                    },
                    SuggestionWorktree::Proposed => SuggestionStatus::Uncertain {
                        message: "The proposed bytes are already present, but no applied receipt was recorded. Inspect the file before taking further action.".to_owned(),
                    },
                },
            },
        }
    }

    /// The suggestion as the UI shows it.
    pub fn view(&self, record: &SuggestionRecord) -> (r: SuggestionView)
        ensures
            r.deep_view() == self.deep_view().shown(record.deep_view()),
    {
        SuggestionView {
            record: record.dup(),
            inspection: self.inspection.dup(),
            status: self.status(record),
            notice: self.notice.dup(),
        }
    }
}

pub open spec fn entry_is(id: CommentId) -> spec_fn(SpecSuggestionEntry) -> bool {
    |e: SpecSuggestionEntry| e.comment_id == id
}

pub open spec fn record_is(id: CommentId) -> spec_fn(SpecSuggestionRecord) -> bool {
    |r: SpecSuggestionRecord| r.comment_id == id
}

pub open spec fn live_comment(id: CommentId) -> spec_fn(SpecComment) -> bool {
    |c: SpecComment| c.id == id && !(c.state is Deleted)
}

pub open spec fn shows_comment(id: CommentId) -> spec_fn(SpecThreadView) -> bool {
    |t: SpecThreadView| data::some_where(t.comments, comment_view_is(id))
}

pub open spec fn comment_view_is(id: CommentId) -> spec_fn(SpecCommentView) -> bool {
    |c: SpecCommentView| c.id == id
}

/// The connection is lost: what was asked of a suggestion is uncertain.
pub open spec fn interrupted() -> spec_fn(SpecSuggestionEntry) -> SpecSuggestionEntry {
    |e: SpecSuggestionEntry|
        if e.state.busy() {
            SpecSuggestionEntry {
                state: e.state.with_stage(SpecStage::Uncertain { message: suggestion_lost_message() }),
                ..e
            }
        } else {
            e
        }
}

/// The comment of an uncertain suggestion.
pub open spec fn uncertain() -> spec_fn(SpecSuggestionEntry) -> Option<CommentId> {
    |e: SpecSuggestionEntry|
        if e.state.stage is Uncertain {
            Some(e.comment_id)
        } else {
            None
        }
}

pub open spec fn comment_order() -> spec_fn(CommentId, CommentId) -> bool {
    |a: CommentId, b: CommentId| a.0 <= b.0
}

/// The records with one receipt recorded; a receipt that is there gives way
/// only to a later one.
pub open spec fn receipted(
    records: Seq<SpecSuggestionRecord>,
    id: CommentId,
    receipt: SuggestionReceipt,
) -> Seq<
    SpecSuggestionRecord,
> {
    match data::first_where(records, record_is(id)) {
        Some(i) => {
            let replace = match records[i].outcome {
                SuggestionOutcome::Unapplied => true,
                SuggestionOutcome::Applied { receipt: existing } => receipt.seq.0 > existing.seq.0,
            };
            if replace {
                records.update(
                    i,
                    SpecSuggestionRecord { outcome: SuggestionOutcome::Applied { receipt }, ..records[i] },
                )
            } else {
                records
            }
        },
        None => records,
    }
}

impl SpecClientCore {
    /// What is known of a suggestion.
    pub open spec fn suggestion(self, id: CommentId) -> Option<SpecSuggestionState> {
        match data::found(self.suggestions, entry_is(id)) {
            Some(e) => Some(e.state),
            None => None,
        }
    }

    pub open spec fn suggestion_or_fresh(self, id: CommentId) -> SpecSuggestionState {
        match self.suggestion(id) {
            Some(s) => s,
            None => SpecSuggestionState::fresh(),
        }
    }

    pub open spec fn with_suggestion(self, id: CommentId, state: SpecSuggestionState) -> SpecClientCore {
        SpecClientCore {
            suggestions: match data::first_where(self.suggestions, entry_is(id)) {
                Some(i) => self.suggestions.update(i, SpecSuggestionEntry { comment_id: id, state }),
                None => self.suggestions.push(SpecSuggestionEntry { comment_id: id, state }),
            },
            ..self
        }
    }

    /// The record of a suggestion whose comment is there.
    pub open spec fn suggestion_record(self, id: CommentId) -> Result<SpecSuggestionRecord, SpecCoreError> {
        match self.view.review {
            None => Err(SpecCoreError::NoOpenReview),
            Some(open) => if !data::some_where(open.snapshot.comments, live_comment(id)) {
                Err(SpecCoreError::Mutation(MutationError::UnknownComment(id)))
            } else {
                match data::found(open.snapshot.suggestions, record_is(id)) {
                    Some(r) => Ok(r),
                    None => Err(SpecCoreError::Mutation(MutationError::UnknownComment(id))),
                }
            },
        }
    }

    /// The thread of the comment has the keys.
    #[verifier::opaque]
    pub open spec fn suggestion_focused(self, id: CommentId) -> SpecClientCore {
        match data::first_where(self.view.threads, shows_comment(id)) {
            Some(i) => self.with_view(
                SpecViewModel {
                    focus: Focus::Thread { index: i as usize },
                    focused_comment: Some(id),
                    ..self.view
                },
            ),
            None => self,
        }
    }

    pub open spec fn suggestion_touched(self) -> SpecClientCore {
        self.touch(seq![ViewSection::Threads, ViewSection::Conversation, ViewSection::Focus])
    }

    #[verifier::opaque]
    pub open spec fn preview_suggestion(self, id: CommentId) -> Result<SpecClientCore, SpecCoreError> {
        if !self.subscribed() {
            Err(self.wrong_state(InputKind::User))
        } else {
            match self.suggestion_record(id) {
                Err(e) => Err(e),
                Ok(record) => {
                    let c = self.suggestion_focused(id);
                    let state = c.suggestion_or_fresh(id);
                    if state.busy() {
                        Ok(c)
                    } else {
                        let request_id = RequestId(c.flow.wire.next_request);
                        Ok(
                            c.with_suggestion(id, state.with_stage(SpecStage::Checking { request_id })).request(
                                SpecRequest::PreviewSuggestion {
                                    review_id: record.review_id,
                                    comment_id: id,
                                },
                                SpecInFlight::PreviewSuggestion {
                                    review_id: record.review_id,
                                    comment_id: id,
                                },
                            ).suggestion_touched(),
                        )
                    }
                },
            }
        }
    }

    /// A suggestion is applied only when it was looked at and is ready.
    #[verifier::opaque]
    pub open spec fn apply_suggestion(self, id: CommentId) -> Result<SpecClientCore, SpecCoreError> {
        if !self.subscribed() {
            Err(self.wrong_state(InputKind::User))
        } else {
            match self.suggestion_record(id) {
                Err(e) => Err(e),
                Ok(record) => {
                    let state = self.suggestion_or_fresh(id);
                    match state.status(record) {
                        SpecSuggestionStatus::Applying => Ok(self),
                        SpecSuggestionStatus::Applied => Ok(self),
                        SpecSuggestionStatus::Ready => Ok(
                            self.suggestion_focused(id).suggestion_sent(id, record.review_id, state),
                        ),
                        _ => Err(SpecCoreError::SuggestionNotReady(id)),
                    }
                },
            }
        }
    }

    #[verifier::opaque]
    pub open spec fn suggestion_sent(self, id: CommentId, review_id: ReviewId, state: SpecSuggestionState) -> SpecClientCore {
        let request_id = RequestId(self.flow.wire.next_request);
        let client_seq = ClientSeq(self.flow.wire.next_client_seq);
        self.with_suggestion(id, state.with_stage(SpecStage::Applying { request_id })).with_next_seq().request(
            SpecRequest::Mutate {
                client_seq,
                mutation: SpecMutation::ApplySuggestion { review_id, comment_id: id },
            },
            SpecInFlight::ApplySuggestion { review_id, comment_id: id },
        ).suggestion_touched()
    }

    /// The daemon applied a suggestion.
    #[verifier::opaque]
    pub open spec fn suggestion_applied(
        self,
        request_id: RequestId,
        review_id: ReviewId,
        id: CommentId,
        event: SpecEvent,
    ) -> Result<
        SpecClientCore,
        SpecCoreError,
    > {
        if event.body != (SpecEventBody::SuggestionApplied { review_id, comment_id: id }) {
            Err(
                SpecCoreError::UnexpectedResponse {
                    id: request_id,
                    expected: "Committed application of the requested suggestion"@,
                    got: "Another committed event"@,
                },
            )
        } else {
            match self.connection {
                Connection::Subscribed { last_seq } => Ok(
                    SpecClientCore {
                        connection: Connection::Subscribed {
                            last_seq: if event.seq.0 > last_seq.0 {
                                event.seq
                            } else {
                                last_seq
                            },
                        },
                        ..self.suggestion_settled(request_id, review_id, id)
                    }.applied(event),
                ),
                _ => Err(self.wrong_state(InputKind::Server)),
            }
        }
    }

    /// The application that was waited for is no longer.
    #[verifier::opaque]
    pub open spec fn suggestion_settled(self, request_id: RequestId, review_id: ReviewId, id: CommentId) -> SpecClientCore {
        if self.view.open_review == Some(review_id) {
            match self.suggestion(id) {
                Some(s) => if s.stage == (SpecStage::Applying { request_id }) {
                    self.with_suggestion(id, s.with_stage(SpecStage::Idle))
                } else {
                    self
                },
                None => self,
            }
        } else {
            self
        }
    }

    /// A preview answered. A receipt it brings is never lost.
    #[verifier::opaque]
    pub open spec fn suggestion_previewed(
        self,
        request_id: RequestId,
        review_id: ReviewId,
        id: CommentId,
        preview: SpecSuggestionPreview,
    ) -> Result<SpecClientCore, SpecCoreError> {
        if self.view.open_review != Some(review_id) {
            Ok(self)
        } else {
            match self.suggestion_record(id) {
                Err(e) => Err(e),
                Ok(record) => {
                    let p = preview.suggestion;
                    if p.review_id != review_id || p.comment_id != id || p.anchor != record.anchor || p.patch
                        != record.patch {
                        Err(
                            SpecCoreError::UnexpectedResponse {
                                id: request_id,
                                expected: "Preview of the immutable suggestion"@,
                                got: "Preview for another suggestion"@,
                            },
                        )
                    } else {
                        match self.suggestion(id) {
                            Some(s) => if s.stage == (SpecStage::Checking { request_id }) {
                                Ok(
                                    self.with_suggestion(
                                        id,
                                        SpecSuggestionState {
                                            inspection: Some(preview.inspection),
                                            stage: SpecStage::Idle,
                                            ..s
                                        },
                                    ).receipt_seen(id, p.outcome).touch(
                                        seq![ViewSection::Threads, ViewSection::Conversation],
                                    ),
                                )
                            } else {
                                Ok(self)
                            },
                            None => Ok(self),
                        }
                    }
                },
            }
        }
    }

    #[verifier::opaque]
    pub open spec fn receipt_seen(self, id: CommentId, outcome: SuggestionOutcome) -> SpecClientCore {
        match (outcome, self.committed) {
            (SuggestionOutcome::Applied { receipt }, Some(committed)) => if data::some_where(
                committed.suggestions,
                record_is(id),
            ) {
                SpecClientCore {
                    committed: Some(
                        SpecReviewSnapshot {
                            suggestions: receipted(committed.suggestions, id, receipt),
                            ..committed
                        },
                    ),
                    ..self
                }.rebased()
            } else {
                self
            },
            _ => self,
        }
    }

    /// A look or an application failed. An application that failed may
    /// still have written, so it is uncertain.
    #[verifier::opaque]
    pub open spec fn suggestion_failed(self, request_id: RequestId, review_id: ReviewId, id: CommentId, error: SpecRpcError) -> SpecClientCore {
        if self.view.open_review != Some(review_id) {
            self
        } else {
            match self.suggestion(id) {
                None => self,
                Some(s) => {
                    let applied = match self.suggestion_record(id) {
                        Ok(r) => r.outcome is Applied,
                        Err(_) => false,
                    };
                    let done = seq![ViewSection::Threads, ViewSection::Conversation];
                    if applied {
                        self.with_suggestion(id, s.with_stage(SpecStage::Idle)).touch(done)
                    } else if s.stage == (SpecStage::Applying { request_id }) {
                        self.with_suggestion(
                            id,
                            SpecSuggestionState {
                                notice: Some(error.message()),
                                stage: SpecStage::Uncertain { message: error.message() },
                                ..s
                            },
                        ).touch(done)
                    } else if s.stage == (SpecStage::Checking { request_id }) {
                        self.with_suggestion(
                            id,
                            s.with_stage(SpecStage::Rejected { message: error.message() }),
                        ).touch(done)
                    } else {
                        self
                    }
                },
            }
        }
    }

    pub open spec fn suggestions_disconnected(self) -> SpecClientCore {
        SpecClientCore { suggestions: self.suggestions.map_values(interrupted()), ..self }
    }

    pub open spec fn all_previewed(self, ids: Seq<CommentId>) -> SpecClientCore
        decreases ids.len(),
    {
        if ids.len() == 0 {
            self
        } else {
            let c = self.all_previewed(ids.drop_last());
            match c.preview_suggestion(ids.last()) {
                Ok(next) => next,
                Err(_) => c,
            }
        }
    }

    /// Every uncertain suggestion is looked at again.
    pub open spec fn suggestions_reconnected(self) -> SpecClientCore {
        self.all_previewed(data::sorted(self.suggestions.filter_map(uncertain()), comment_order()))
    }
}

impl ClientCore {
    fn suggestion_at(&self, id: CommentId) -> (r: Option<usize>)
        ensures
            match r {
                Some(i) => i < self.suggestions@.len() && data::first_where(
                    self.suggestions.deep_view(),
                    entry_is(id),
                ) == Some(i as int) && self.deep_view().suggestion(id) == Some(
                    self.suggestions@[i as int].state.deep_view(),
                ),
                None => data::first_where(self.suggestions.deep_view(), entry_is(id)) is None
                    && self.deep_view().suggestion(id) is None,
            },
    {
        proof {
            reveal(ClientCore::model);
        }
        data::position(
            &self.suggestions,
            |e: &SuggestionEntry| -> (b: bool)
                ensures
                    b == entry_is(id)(e.deep_view())
            { e.comment_id == id },
            Ghost(entry_is(id)),
        )
    }

    fn suggestion(&self, id: CommentId) -> (r: Option<SuggestionState>)
        ensures
            r.deep_view() == self.deep_view().suggestion(id),
    {
        proof {
            reveal(ClientCore::model);
        }
        match self.suggestion_at(id) {
            Some(i) => Some(self.suggestions[i].state.dup()),
            None => None,
        }
    }

    fn suggestion_or_fresh(&self, id: CommentId) -> (r: SuggestionState)
        ensures
            r.deep_view() == self.deep_view().suggestion_or_fresh(id),
    {
        proof {
            reveal(ClientCore::model);
        }
        match self.suggestion(id) {
            Some(s) => s,
            None => SuggestionState::fresh(),
        }
    }

    fn set_suggestion(&mut self, id: CommentId, state: SuggestionState)
        ensures
            final(self).deep_view() == old(self).deep_view().with_suggestion(id, state.deep_view()),
    {
        proof {
            reveal(ClientCore::model);
        }
        match self.suggestion_at(id) {
            Some(i) => {
                data::set(&mut self.suggestions, i, SuggestionEntry { comment_id: id, state });
            },
            None => {
                data::push(&mut self.suggestions, SuggestionEntry { comment_id: id, state });
            },
        }
    }

    /// The record of a suggestion whose comment is there.
    pub fn suggestion_record(&self, id: CommentId) -> (r: Result<SuggestionRecord, CoreError>)
        ensures
            match r {
                Ok(x) => self.deep_view().suggestion_record(id) == Ok::<SpecSuggestionRecord, SpecCoreError>(
                    x.deep_view(),
                ),
                Err(e) => self.deep_view().suggestion_record(id) == Err::<SpecSuggestionRecord, SpecCoreError>(
                    e.deep_view(),
                ),
            },
    {
        proof {
            reveal(ClientCore::model);
        }
        match self.view.review() {
            None => Err(CoreError::NoOpenReview),
            Some(open) => {
                let there = data::any(
                    &open.snapshot.comments,
                    |c: &crate::protocol::Comment| -> (b: bool)
                        ensures
                            b == live_comment(id)(c.deep_view())
                    {
                        c.id == id && match c.state {
                            CommentState::Deleted => false,
                            _ => true,
                        }
                    },
                    Ghost(live_comment(id)),
                );
                if !there {
                    return Err(CoreError::Mutation(MutationError::UnknownComment(id)));
                }
                match data::find(
                    &open.snapshot.suggestions,
                    |r: &SuggestionRecord| -> (b: bool)
                        ensures
                            b == record_is(id)(r.deep_view())
                    { r.comment_id == id },
                    Ghost(record_is(id)),
                ) {
                    Some(r) => Ok(r.dup()),
                    None => Err(CoreError::Mutation(MutationError::UnknownComment(id))),
                }
            },
        }
    }

    /// A suggestion as the UI shows it.
    pub fn suggestion_view(&self, record: &SuggestionRecord) -> (r: SuggestionView)
        ensures
            r.deep_view() == self.deep_view().suggestion_or_fresh(record.comment_id).shown(record.deep_view()),
    {
        proof {
            reveal(ClientCore::model);
        }
        self.suggestion_or_fresh(record.comment_id).view(record)
    }

    fn focus_suggestion(&mut self, id: CommentId)
        ensures
            final(self).deep_view() == old(self).deep_view().suggestion_focused(id),
    {
        proof {
            reveal(ClientCore::model);
            reveal(SpecClientCore::suggestion_focused);
        }
        let at = data::position(
            self.view.threads(),
            |t: &ThreadView| -> (b: bool)
                ensures
                    b == shows_comment(id)(t.deep_view())
            {
                data::any(
                    &t.comments,
                    |c: &CommentView| -> (b: bool)
                        ensures
                            b == comment_view_is(id)(c.deep_view())
                    { c.id == id },
                    Ghost(comment_view_is(id)),
                )
            },
            Ghost(shows_comment(id)),
        );
        if let Some(index) = at {
            self.view.set_focus(Focus::Thread { index });
            self.view.set_focused_comment(Some(id));
        }
    }

    fn touch_suggestion(&mut self)
        ensures
            final(self).deep_view() == old(self).deep_view().suggestion_touched(),
    {
        proof {
            reveal(ClientCore::model);
        }
        let mut s = data::two(ViewSection::Threads, ViewSection::Conversation);
        data::push(&mut s, ViewSection::Focus);
        assert(s.deep_view() =~= seq![ViewSection::Threads, ViewSection::Conversation, ViewSection::Focus]);
        self.flow.touch_all(s);
    }

    pub(crate) fn preview_suggestion(&mut self, id: CommentId) -> (r: Result<(), CoreError>)
        ensures
            client::settled(
                old(self).deep_view(),
                final(self).deep_view(),
                r,
                old(self).deep_view().preview_suggestion(id),
            ),
    {
        proof {
            reveal(ClientCore::model);
            reveal(SpecClientCore::preview_suggestion);
        }
        if !self.is_subscribed() {
            return Err(self.wrong_state(InputKind::User));
        }
        let review_id = match self.suggestion_record(id) {
            Ok(r) => r.review_id,
            Err(e) => {
                return Err(e);
            },
        };
        self.focus_suggestion(id);
        let mut state = self.suggestion_or_fresh(id);
        match state.stage {
            Stage::Checking { .. } => {
                return Ok(());
            },
            Stage::Applying { .. } => {
                return Ok(());
            },
            _ => {},
        }
        state.stage = Stage::Checking { request_id: RequestId(self.flow.wire.next_request) };
        self.set_suggestion(id, state);
        self.flow.request(
            Request::PreviewSuggestion { review_id, comment_id: id },
            InFlight::PreviewSuggestion { review_id, comment_id: id },
        );
        self.touch_suggestion();
        Ok(())
    }

    fn send_suggestion(&mut self, id: CommentId, review_id: ReviewId, state: SuggestionState)
        ensures
            final(self).deep_view() == old(self).deep_view().suggestion_sent(
                id,
                review_id,
                state.deep_view(),
            ),
    {
        proof {
            reveal(ClientCore::model);
            reveal(SpecClientCore::suggestion_sent);
        }
        let mut state = state;
        state.stage = Stage::Applying { request_id: RequestId(self.flow.wire.next_request) };
        self.set_suggestion(id, state);
        let client_seq = self.next_seq();
        self.flow.request(
            Request::Mutate { client_seq, mutation: Mutation::ApplySuggestion { review_id, comment_id: id } },
            InFlight::ApplySuggestion { review_id, comment_id: id },
        );
        self.touch_suggestion();
    }

    pub(crate) fn apply_suggestion(&mut self, id: CommentId) -> (r: Result<(), CoreError>)
        ensures
            client::settled(
                old(self).deep_view(),
                final(self).deep_view(),
                r,
                old(self).deep_view().apply_suggestion(id),
            ),
    {
        proof {
            reveal(ClientCore::model);
            reveal(SpecClientCore::apply_suggestion);
        }
        if !self.is_subscribed() {
            return Err(self.wrong_state(InputKind::User));
        }
        let record = match self.suggestion_record(id) {
            Ok(r) => r,
            Err(e) => {
                return Err(e);
            },
        };
        let state = self.suggestion_or_fresh(id);
        match state.status(&record) {
            SuggestionStatus::Applying => Ok(()),
            SuggestionStatus::Applied => Ok(()),
            SuggestionStatus::Ready => {
                self.focus_suggestion(id);
                self.send_suggestion(id, record.review_id, state);
                Ok(())
            },
            _ => Err(CoreError::SuggestionNotReady(id)),
        }
    }

    fn settle_suggestion(&mut self, request_id: RequestId, review_id: ReviewId, id: CommentId)
        ensures
            final(self).deep_view() == old(self).deep_view().suggestion_settled(request_id, review_id, id),
    {
        proof {
            reveal(ClientCore::model);
            reveal(SpecClientCore::suggestion_settled);
        }
        if self.view.open_review() == Some(review_id) {
            if let Some(s) = self.suggestion(id) {
                let mut s = s;
                let waited = match s.stage {
                    Stage::Applying { request_id: r } => r == request_id,
                    _ => false,
                };
                if waited {
                    s.stage = Stage::Idle;
                    self.set_suggestion(id, s);
                }
            }
        }
    }

    pub(crate) fn suggestion_applied(&mut self, request_id: RequestId, review_id: ReviewId, id: CommentId, event: Event) -> (r: Result<
        (),
        CoreError,
    >)
        ensures
            client::settled(
                old(self).deep_view(),
                final(self).deep_view(),
                r,
                old(self).deep_view().suggestion_applied(request_id, review_id, id, event.deep_view()),
            ),
    {
        proof {
            reveal(ClientCore::model);
            reveal(SpecClientCore::suggestion_applied);
        }
        let mine = match &event.body {
            EventBody::SuggestionApplied { review_id: r, comment_id: c } => *r == review_id && *c == id,
            _ => false,
        };
        if !mine {
            return Err(
                CoreError::UnexpectedResponse {
                    id: request_id,
                    expected: "Committed application of the requested suggestion".to_owned(),
                    got: "Another committed event".to_owned(),
                },
            );
        }
        let last_seq = match self.connection {
            Connection::Subscribed { last_seq } => last_seq,
            _ => {
                return Err(self.wrong_state(InputKind::Server));
            },
        };
        self.settle_suggestion(request_id, review_id, id);
        self.connection = Connection::Subscribed {
            last_seq: if event.seq.0 > last_seq.0 {
                event.seq
            } else {
                last_seq
            },
        };
        self.apply_event(event);
        Ok(())
    }

    fn see_receipt(&mut self, id: CommentId, outcome: SuggestionOutcome)
        ensures
            final(self).deep_view() == old(self).deep_view().receipt_seen(id, outcome),
    {
        proof {
            reveal(ClientCore::model);
            reveal(SpecClientCore::receipt_seen);
        }
        let receipt = match outcome {
            SuggestionOutcome::Applied { receipt } => receipt,
            SuggestionOutcome::Unapplied => {
                return ;
            },
        };
        match self.committed.take() {
            Some(committed) => {
                let mut committed = committed;
                let at = data::position(
                    &committed.suggestions,
                    |r: &SuggestionRecord| -> (b: bool)
                        ensures
                            b == record_is(id)(r.deep_view())
                    { r.comment_id == id },
                    Ghost(record_is(id)),
                );
                match at {
                    Some(i) => {
                        assert(committed.suggestions.deep_view()[i as int]
                            == committed.suggestions@[i as int].deep_view());
                        let replace = match committed.suggestions[i].outcome {
                            SuggestionOutcome::Unapplied => true,
                            SuggestionOutcome::Applied { receipt: existing } => receipt.seq.0 > existing.seq.0,
                        };
                        if replace {
                            let mut record = committed.suggestions[i].dup();
                            record.outcome = SuggestionOutcome::Applied { receipt };
                            data::set(&mut committed.suggestions, i, record);
                        }
                        self.committed = Some(committed);
                        let _ = self.rebase();
                    },
                    None => {
                        self.committed = Some(committed);
                    },
                }
            },
            None => {},
        }
    }

    pub(crate) fn suggestion_previewed(
        &mut self,
        request_id: RequestId,
        review_id: ReviewId,
        id: CommentId,
        preview: SuggestionPreview,
    ) -> (r: Result<(), CoreError>)
        ensures
            client::settled(
                old(self).deep_view(),
                final(self).deep_view(),
                r,
                old(self).deep_view().suggestion_previewed(request_id, review_id, id, preview.deep_view()),
            ),
    {
        proof {
            reveal(ClientCore::model);
            reveal(SpecClientCore::suggestion_previewed);
        }
        if self.view.open_review() != Some(review_id) {
            return Ok(());
        }
        let record = match self.suggestion_record(id) {
            Ok(r) => r,
            Err(e) => {
                return Err(e);
            },
        };
        let p = &preview.suggestion;
        if p.review_id != review_id || p.comment_id != id || !p.anchor.same(&record.anchor) || !p.patch.same(
            &record.patch,
        ) {
            return Err(
                CoreError::UnexpectedResponse {
                    id: request_id,
                    expected: "Preview of the immutable suggestion".to_owned(),
                    got: "Preview for another suggestion".to_owned(),
                },
            );
        }
        let outcome = p.outcome;
        if let Some(s) = self.suggestion(id) {
            let mut s = s;
            let waited = match s.stage {
                Stage::Checking { request_id: r } => r == request_id,
                _ => false,
            };
            if waited {
                s.inspection = Some(preview.inspection);
                s.stage = Stage::Idle;
                self.set_suggestion(id, s);
                self.see_receipt(id, outcome);
                self.flow.touch_all(data::two(ViewSection::Threads, ViewSection::Conversation));
            }
        }
        Ok(())
    }

    pub(crate) fn suggestion_failed(
        &mut self,
        request_id: RequestId,
        review_id: ReviewId,
        id: CommentId,
        error: &RpcError,
    )
        ensures
            final(self).deep_view() == old(self).deep_view().suggestion_failed(
                request_id,
                review_id,
                id,
                error.deep_view(),
            ),
    {
        proof {
            reveal(ClientCore::model);
            reveal(SpecClientCore::suggestion_failed);
        }
        if self.view.open_review() != Some(review_id) {
            return ;
        }
        let applied = match self.suggestion_record(id) {
            Ok(r) => match r.outcome {
                SuggestionOutcome::Applied { .. } => true,
                SuggestionOutcome::Unapplied => false,
            },
            Err(_) => false,
        };
        if let Some(s) = self.suggestion(id) {
            let mut s = s;
            let message = errors::rpc_error_message(error);
            if applied {
                s.stage = Stage::Idle;
            } else {
                let (applying, checking) = match s.stage {
                    Stage::Applying { request_id: r } => (r == request_id, false),
                    Stage::Checking { request_id: r } => (false, r == request_id),
                    _ => (false, false),
                };
                if applying {
                    s.notice = Some(message.dup());
                    s.stage = Stage::Uncertain { message };
                } else if checking {
                    s.stage = Stage::Rejected { message };
                } else {
                    return ;
                }
            }
            self.set_suggestion(id, s);
            self.flow.touch_all(data::two(ViewSection::Threads, ViewSection::Conversation));
        }
    }

    pub(crate) fn suggestions_disconnected(&mut self)
        ensures
            final(self).deep_view() == old(self).deep_view().suggestions_disconnected(),
    {
        proof {
            reveal(ClientCore::model);
        }
        self.suggestions = data::map(
            &self.suggestions,
            |e: &SuggestionEntry| -> (r: SuggestionEntry)
                ensures
                    r.deep_view() == interrupted()(e.deep_view())
            {
                let mut state = e.state.dup();
                let busy = match state.stage {
                    Stage::Applying { .. } => true,
                    Stage::Checking { .. } => true,
                    _ => false,
                };
                if busy {
                    state.stage = Stage::Uncertain {
                        message: "Connection lost. The result will be checked before another application is offered.".to_owned(),
                    };
                }
                SuggestionEntry { comment_id: e.comment_id, state }
            },
            Ghost(interrupted()),
        );
    }

    fn preview_all(&mut self, ids: &Vec<CommentId>)
        ensures
            final(self).deep_view() == old(self).deep_view().all_previewed(ids.deep_view()),
    {
        proof {
            reveal(ClientCore::model);
        }
        let n: usize = ids.len();
        let ghost all = ids.deep_view();
        let ghost start = self.deep_view();
        assert(all.take(0) =~= Seq::empty());
        for i in 0..n
            invariant
                n == ids@.len(),
                all == ids.deep_view(),
                self.deep_view() == start.all_previewed(all.take(i as int)),
        {
            assert(all.take(i + 1).drop_last() =~= all.take(i as int));
            assert(all.take(i + 1).last() == ids@[i as int].deep_view());
            let _ = self.preview_suggestion(ids[i]);
        }
        assert(all.take(n as int) =~= all);
    }

    pub(crate) fn suggestions_reconnected(&mut self)
        ensures
            final(self).deep_view() == old(self).deep_view().suggestions_reconnected(),
    {
        proof {
            reveal(ClientCore::model);
        }
        let mut ids = data::filter_map(
            &self.suggestions,
            |e: &SuggestionEntry| -> (r: Option<CommentId>)
                ensures
                    r.deep_view() == uncertain()(e.deep_view())
            {
                match e.state.stage {
                    Stage::Uncertain { .. } => Some(e.comment_id),
                    _ => None,
                }
            },
            Ghost(uncertain()),
        );
        data::sort(
            &mut ids,
            |a: &CommentId, b: &CommentId| -> (r: bool)
                ensures
                    r == comment_order()(a.deep_view(), b.deep_view())
            { a.0 <= b.0 },
            Ghost(comment_order()),
        );
        self.preview_all(&ids);
    }
}

// ---- laws -----------------------------------------------------------------

/// After a lost connection nothing waits for an answer that cannot come;
/// what was asked is uncertain.
pub proof fn lost_requests_become_uncertain(core: SpecClientCore, i: int)
    requires
        0 <= i < core.suggestions.len(),
    ensures
        core.suggestions_disconnected().suggestions.len() == core.suggestions.len(),
        !core.suggestions_disconnected().suggestions[i].state.busy(),
        core.suggestions[i].state.busy() ==> core.suggestions_disconnected().suggestions[i].state.stage is Uncertain,
        !core.suggestions[i].state.busy() ==> core.suggestions_disconnected().suggestions[i] == core.suggestions[i],
{
}

proof fn lemma_previews_only(core: SpecClientCore, ids: Seq<CommentId>)
    ensures
        only_previews(core.flow.out, core.all_previewed(ids).flow.out),
    decreases ids.len(),
{
    if ids.len() > 0 {
        lemma_previews_only(core, ids.drop_last());
        let before = core.flow.out;
        let out = core.all_previewed(ids.drop_last()).flow.out;
        let next = core.all_previewed(ids).flow.out;
        assert(next == out || (next.drop_last() == out && next.len() == out.len() + 1 && (next.last() matches SpecErrand::Send(
            msg,
        ) && msg matches SpecClientMsg::Request { request, .. } && request is PreviewSuggestion))) by {
            reveal(SpecClientCore::preview_suggestion);
            reveal(SpecClientCore::suggestion_focused);
            reveal(SpecFlow::request);
            if next != out {
                assert(next.drop_last() =~= out);
            }
        }
        assert(next.take(before.len() as int) =~= out.take(before.len() as int));
        assert forall|i: int| before.len() <= i < next.len() implies (#[trigger] next[i] matches SpecErrand::Send(msg)
            && msg matches SpecClientMsg::Request { request, .. } && request is PreviewSuggestion) by {
            if i < out.len() {
                assert(next[i] == out[i]);
            }
        }
    } else {
        assert(core.flow.out.take(core.flow.out.len() as int) =~= core.flow.out);
    }
}

/// Everything added is a request to look at a suggestion.
pub open spec fn only_previews(before: Seq<SpecErrand>, after: Seq<SpecErrand>) -> bool {
    &&& before.len() <= after.len()
    &&& after.take(before.len() as int) == before
    &&& forall|i: int|
        before.len() <= i < after.len() ==> (#[trigger] after[i] matches SpecErrand::Send(msg) && msg matches SpecClientMsg::Request {
            request,
            ..
        } && request is PreviewSuggestion)
}

/// A reconnect looks at uncertain suggestions again; it never applies one
/// again.
pub proof fn applications_are_never_replayed(core: SpecClientCore)
    ensures
        only_previews(core.flow.out, core.suggestions_reconnected().flow.out),
{
    lemma_previews_only(
        core,
        data::sorted(core.suggestions.filter_map(uncertain()), comment_order()),
    );
}

/// Only a suggestion that was looked at and is ready is applied.
pub proof fn only_ready_suggestions_are_applied(core: SpecClientCore, id: CommentId)
    requires
        core.apply_suggestion(id) matches Ok(c) && c != core,
    ensures
        core.suggestion_record(id) matches Ok(record) && core.suggestion_or_fresh(id).status(record) is Ready,
{
    reveal(SpecClientCore::apply_suggestion);
}

} // verus!
