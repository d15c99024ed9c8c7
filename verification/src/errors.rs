//! What the daemon's errors and answers are called.
use vstd::prelude::*;

use crate::data::Value;
use crate::protocol::{
    EntityKind, Response, RpcError, SpecResponse, SpecRpcError, SpecStreamItem, StreamItem,
};
use crate::ref_selector::{RefSelectorStatus, SpecRefSelectorStatus};
use crate::text;

verus! {

impl EntityKind {
    pub open spec fn spec_name(self) -> Seq<char> {
        match self {
            EntityKind::Workspace => "Workspace"@,
            EntityKind::Repo => "Repo"@,
            EntityKind::Review => "Review"@,
            EntityKind::Thread => "Thread"@,
            EntityKind::Comment => "Comment"@,
        }
    }

    pub fn name(self) -> (r: &'static str)
        ensures
            r@ == self.spec_name(),
    {
        match self {
            EntityKind::Workspace => "Workspace",
            EntityKind::Repo => "Repo",
            EntityKind::Review => "Review",
            EntityKind::Thread => "Thread",
            EntityKind::Comment => "Comment",
        }
    }
}

impl SpecRpcError {
    /// The error in words.
    pub open spec fn message(self) -> Seq<char> {
        match self {
            SpecRpcError::NotFound { kind, id } => kind.spec_name() + " "@ + id + " was not found"@,
            SpecRpcError::Invalid { reason } => reason,
            SpecRpcError::Forbidden { reason } => reason,
            SpecRpcError::SeqTooOld { oldest } => "event history starts at "@ + text::decimal(oldest.0 as nat),
            SpecRpcError::Cancelled => "request cancelled"@,
            SpecRpcError::UnsupportedProtocol { requested } => "protocol "@ + text::decimal(requested as nat)
                + " is unsupported"@,
            SpecRpcError::VersionMismatch { negotiated, received } => "expected protocol "@ + text::decimal(
                negotiated as nat,
            ) + ", received "@ + text::decimal(received as nat),
            SpecRpcError::Internal { message } => message,
        }
    }

    /// A review was asked for that is not there.
    pub open spec fn no_review(self) -> bool {
        match self {
            SpecRpcError::NotFound { kind, .. } => kind is Review,
            _ => false,
        }
    }

    /// How a selector shows the error.
    pub open spec fn selector_status(self) -> SpecRefSelectorStatus {
        match self {
            SpecRpcError::Invalid { .. } => SpecRefSelectorStatus::InvalidRef { message: self.message() },
            SpecRpcError::NotFound { .. } => SpecRefSelectorStatus::InvalidRef { message: self.message() },
            _ => SpecRefSelectorStatus::DaemonError { message: self.message() },
        }
    }
}

/// The error in words.
pub fn rpc_error_message(error: &RpcError) -> (r: String)
    ensures
        r@ == error.deep_view().message(),
{
    match error {
        RpcError::NotFound { kind, id } => {
            let s = text::join(kind.name(), " ");
            let s = text::join(s.as_str(), id.as_str());
            text::join(s.as_str(), " was not found")
        },
        RpcError::Invalid { reason } => reason.dup(),
        RpcError::Forbidden { reason } => reason.dup(),
        RpcError::SeqTooOld { oldest } => text::join(
            "event history starts at ",
            text::number(oldest.0).as_str(),
        ),
        RpcError::Cancelled => "request cancelled".to_owned(),
        RpcError::UnsupportedProtocol { requested } => {
            let s = text::join("protocol ", text::number(*requested as u64).as_str());
            text::join(s.as_str(), " is unsupported")
        },
        RpcError::VersionMismatch { negotiated, received } => {
            let s = text::join("expected protocol ", text::number(*negotiated as u64).as_str());
            let s = text::join(s.as_str(), ", received ");
            text::join(s.as_str(), text::number(*received as u64).as_str())
        },
        RpcError::Internal { message } => message.dup(),
    }
}

/// A review was asked for that is not there.
pub fn is_no_review(error: &RpcError) -> (b: bool)
    ensures
        b == error.deep_view().no_review(),
{
    match error {
        RpcError::NotFound { kind, .. } => *kind == EntityKind::Review,
        _ => false,
    }
}

/// How a selector shows the error.
pub fn selector_error(error: &RpcError) -> (r: RefSelectorStatus)
    ensures
        r.deep_view() == error.deep_view().selector_status(),
{
    let message = rpc_error_message(error);
    match error {
        RpcError::Invalid { .. } => RefSelectorStatus::InvalidRef { message },
        RpcError::NotFound { .. } => RefSelectorStatus::InvalidRef { message },
        _ => RefSelectorStatus::DaemonError { message },
    }
}

impl SpecStreamItem {
    pub open spec fn name(self) -> Seq<char> {
        match self {
            SpecStreamItem::ReviewSnapshot { .. } => "ReviewSnapshot"@,
            SpecStreamItem::TreeSnapshot { .. } => "TreeSnapshot"@,
            SpecStreamItem::Header { .. } => "Header"@,
            SpecStreamItem::Chunk { .. } => "Chunk"@,
        }
    }
}

pub fn stream_item_name(item: &StreamItem) -> (r: &'static str)
    ensures
        r@ == item.deep_view().name(),
{
    match item {
        StreamItem::ReviewSnapshot { .. } => "ReviewSnapshot",
        StreamItem::TreeSnapshot { .. } => "TreeSnapshot",
        StreamItem::Header { .. } => "Header",
        StreamItem::Chunk { .. } => "Chunk",
    }
}

impl SpecResponse {
    pub open spec fn name(self) -> Seq<char> {
        match self {
            SpecResponse::Workspaces { .. } => "Workspaces"@,
            SpecResponse::Reviews { .. } => "Reviews"@,
            SpecResponse::DefaultBase { .. } => "DefaultBase"@,
            SpecResponse::DirectoryReview { .. } => "DirectoryReview"@,
            SpecResponse::Review { .. } => "Review"@,
            SpecResponse::ReviewSnapshot { .. } => "ReviewSnapshot"@,
            SpecResponse::Files { .. } => "Files"@,
            SpecResponse::Resolved { .. } => "Resolved"@,
            SpecResponse::Search { .. } => "Search"@,
            SpecResponse::Commits { .. } => "Commits"@,
            SpecResponse::Refs { .. } => "Refs"@,
            SpecResponse::TreeSnapshot { .. } => "TreeSnapshot"@,
            SpecResponse::RenderChunk { .. } => "RenderChunk"@,
            SpecResponse::SuggestionPreview { .. } => "SuggestionPreview"@,
            SpecResponse::Subscribed { .. } => "Subscribed"@,
            SpecResponse::Unsubscribed => "Unsubscribed"@,
            SpecResponse::Committed { .. } => "Committed"@,
            SpecResponse::ShuttingDown => "ShuttingDown"@,
        }
    }
}

pub fn response_name(response: &Response) -> (r: &'static str)
    ensures
        r@ == response.deep_view().name(),
{
    match response {
        Response::Workspaces { .. } => "Workspaces",
        Response::Reviews { .. } => "Reviews",
        Response::DefaultBase { .. } => "DefaultBase",
        Response::DirectoryReview { .. } => "DirectoryReview",
        Response::Review { .. } => "Review",
        Response::ReviewSnapshot { .. } => "ReviewSnapshot",
        Response::Files { .. } => "Files",
        Response::Resolved { .. } => "Resolved",
        Response::Search { .. } => "Search",
        Response::Commits { .. } => "Commits",
        Response::Refs { .. } => "Refs",
        Response::TreeSnapshot { .. } => "TreeSnapshot",
        Response::RenderChunk { .. } => "RenderChunk",
        Response::SuggestionPreview { .. } => "SuggestionPreview",
        Response::Subscribed { .. } => "Subscribed",
        Response::Unsubscribed => "Unsubscribed",
        Response::Committed { .. } => "Committed",
        Response::ShuttingDown => "ShuttingDown",
    }
}

} // verus!
