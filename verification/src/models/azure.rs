//! Webhook payloads of the source-control and build service.

use vstd::prelude::*;

verus! {

/// A comment was posted on a pull request.
#[derive(Debug, Clone, PartialEq, Eq)]
pub struct AzurePrCommentEvent {
    pub event_type: String,
    pub resource: AzureResource,
}

/// What a comment event is about.
#[derive(Debug, Clone, PartialEq, Eq)]
pub struct AzureResource {
    pub comment: AzureComment,
    pub pull_request: AzurePullRequest,
}

/// The comment itself.
#[derive(Debug, Clone, PartialEq, Eq)]
pub struct AzureComment {
    pub content: Option<String>,
    pub is_deleted: bool,
    pub links: AzureCommentLinks,
}

/// The hyperlinks that come with a comment.
#[derive(Debug, Clone, PartialEq, Eq)]
pub struct AzureCommentLinks {
    pub self_: Option<AzureHref>,
    pub repository: Option<AzureHref>,
    pub threads: AzureHref,
}

/// One hyperlink.
#[derive(Debug, Clone, PartialEq, Eq)]
pub struct AzureHref {
    pub href: String,
}

/// The pull request a comment belongs to.
#[derive(Debug, Clone, PartialEq, Eq)]
pub struct AzurePullRequest {
    pub pull_request_id: u64,
    pub source_ref_name: String,
}

/// A pull request was updated: pushed to, or brought to a new status.
#[derive(Debug, Clone, PartialEq, Eq)]
pub struct AzurePrUpdatedEvent {
    pub event_type: String,
    pub resource: AzurePrUpdatedResource,
}

/// What an update event is about.
#[derive(Debug, Clone, PartialEq, Eq)]
pub struct AzurePrUpdatedResource {
    pub pull_request_id: u64,
    pub source_ref_name: String,
    pub target_ref_name: Option<String>,
    pub status: Option<String>,
}

/// A merge of a pull request was attempted.
#[derive(Debug, Clone, PartialEq, Eq)]
pub struct AzurePrMergedEvent {
    pub event_type: String,
    pub resource: AzurePrMergedResource,
}

/// What a merge event is about.
#[derive(Debug, Clone, PartialEq, Eq)]
pub struct AzurePrMergedResource {
    pub pull_request_id: u64,
    pub source_ref_name: String,
    pub target_ref_name: String,
    pub merge_status: String,
}

/// A build has completed.
#[derive(Debug, Clone, PartialEq, Eq)]
pub struct AzureBuildCompletedEvent {
    pub event_type: String,
    pub resource: AzureBuildResource,
}

/// What a build event is about. The result may be missing from the payload.
#[derive(Debug, Clone, PartialEq, Eq)]
pub struct AzureBuildResource {
    pub id: u64,
    pub build_number: String,
    pub definition_id: u64,
    pub source_branch: String,
    pub result: Option<String>,
}

} // verus!
