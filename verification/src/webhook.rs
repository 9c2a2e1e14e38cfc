//! Routing webhooks: what an event of the source-control service asks the
//! service to do.
//!
//! An event that is not one the service acts on is ignored, whatever its
//! payload holds. A comment acts only where it gives a command; an update
//! deletes the preview of a pull request that has been completed into the
//! trunk, and deploys it again otherwise; a merge deletes it.

use crate::config::trunk_branch;
use crate::identifier::{branch_of_ref, strip_refs_heads};
use crate::models::azure::{
    AzureBuildCompletedEvent, AzurePrCommentEvent, AzurePrMergedEvent, AzurePrUpdatedEvent,
};
use crate::regression::{
    detector_start, is_failure, BuildRef, DetectorAction, DetectorState, Reason,
};
use crate::slash_cmd::{command_in, SlashCommand};
use crate::text::{
    copy_text, decimal_text, eq_ignoring_ascii_case, parse_u64, parsed_u64, same_text,
    same_text_ignoring_ascii_case, split, split_on, u64_to_string,
};
use vstd::prelude::*;

verus! {

/// The type of the event that tells of a comment on a pull request.
pub open spec fn comment_event_type() -> Seq<char> {
    "ms.vss-code.git-pullrequest-comment-event"@
}

/// The type of the event that tells of an update of a pull request.
pub open spec fn updated_event_type() -> Seq<char> {
    "git.pullrequest.updated"@
}

/// The type of the event that tells of a merge of a pull request.
pub open spec fn merged_event_type() -> Seq<char> {
    "git.pullrequest.merged"@
}

/// Why a webhook is turned away.
#[derive(Debug, Clone, Copy, PartialEq, Eq, Structural)]
pub enum WebhookError {
    /// The link to the threads of the comment does not end in a thread
    /// number.
    MalformedThreadLink,
}

/// What a comment asks for.
#[derive(Debug, Clone, PartialEq, Eq)]
pub enum CommentRoute {
    /// Nothing: the event is none to act on.
    Ignore,
    /// Create or redeploy the preview, and reply in the thread of the pull
    /// request.
    Upsert { pr_id: String, branch: String, pull_request_id: u64, thread_id: u64 },
    /// Delete the preview, and reply in the thread of the pull request.
    Delete { pr_id: String, branch: String, pull_request_id: u64, thread_id: u64 },
}

/// What an update or a merge asks for.
#[derive(Debug, Clone, PartialEq, Eq)]
pub enum PullRequestRoute {
    /// Nothing: the event is none to act on.
    Ignore,
    /// Delete the preview.
    Delete { pr_id: String, branch: String },
    /// Deploy the preview again, if there is one.
    Redeploy { pr_id: String, branch: String },
}

/// The number of the thread that a link to it ends in: its last path
/// segment, where that is a decimal numeral.
pub open spec fn thread_id_in(href: Seq<char>) -> Option<u64> {
    parsed_u64(split_on(href, '/').last())
}

/// Reads the number of a thread off the link to it.
pub fn thread_id_of(href: &str) -> (r: Option<u64>)
    ensures
        r == thread_id_in(href@),
{
    let segments = split(href, '/');
    parse_u64(segments[segments.len() - 1].as_str())
}

/// Whether a comment is one to look into: it belongs to an event of the
/// right type, is not deleted and has text.
pub open spec fn is_live_comment(event: AzurePrCommentEvent) -> bool {
    &&& event.event_type@ == comment_event_type()
    &&& !event.resource.comment.is_deleted
    &&& event.resource.comment.content is Some
    &&& event.resource.comment.content->0@.len() > 0
}

/// The command that a comment event gives, if it gives one.
pub open spec fn command_of(event: AzurePrCommentEvent) -> Option<SlashCommand> {
    if is_live_comment(event) {
        command_in(event.resource.comment.content->0@)
    } else {
        None
    }
}

/// Whether the route is the one that the comment event asks for. An event
/// that gives no command is ignored, whatever its links are; one that gives
/// a command acts on the pull request and its source branch, in the thread
/// that its link names.
pub open spec fn is_comment_route(
    event: AzurePrCommentEvent,
    route: Result<CommentRoute, WebhookError>,
) -> bool {
    let pr = decimal_text(event.resource.pull_request.pull_request_id as nat);
    let branch = branch_of_ref(event.resource.pull_request.source_ref_name@);
    match command_of(event) {
        None => route == Ok::<CommentRoute, WebhookError>(CommentRoute::Ignore),
        Some(command) => match thread_id_in(event.resource.comment.links.threads.href@) {
            None => route == Err::<CommentRoute, WebhookError>(WebhookError::MalformedThreadLink),
            Some(thread) => match command {
                SlashCommand::Preview => {
                    &&& route matches Ok(
                        CommentRoute::Upsert { pr_id, branch: b, pull_request_id, thread_id },
                    )
                    &&& pr_id@ == pr
                    &&& b@ == branch
                    &&& pull_request_id == event.resource.pull_request.pull_request_id
                    &&& thread_id == thread
                },
                SlashCommand::Delete => {
                    &&& route matches Ok(
                        CommentRoute::Delete { pr_id, branch: b, pull_request_id, thread_id },
                    )
                    &&& pr_id@ == pr
                    &&& b@ == branch
                    &&& pull_request_id == event.resource.pull_request.pull_request_id
                    &&& thread_id == thread
                },
            },
        },
    }
}

/// Decides what a comment event asks for.
pub fn route_pr_comment(event: &AzurePrCommentEvent) -> (route: Result<CommentRoute, WebhookError>)
    ensures
        is_comment_route(*event, route),
{
    if !same_text(event.event_type.as_str(), "ms.vss-code.git-pullrequest-comment-event") {
        return Ok(CommentRoute::Ignore);
    }
    if event.resource.comment.is_deleted {
        return Ok(CommentRoute::Ignore);
    }
    let content = match &event.resource.comment.content {
        Some(text) => text,
        None => {
            return Ok(CommentRoute::Ignore);
        },
    };
    if content.as_str().is_empty() {
        return Ok(CommentRoute::Ignore);
    }
    let command = match SlashCommand::parse(content.as_str()) {
        Some(command) => command,
        None => {
            return Ok(CommentRoute::Ignore);
        },
    };
    let thread_id = match thread_id_of(event.resource.comment.links.threads.href.as_str()) {
        Some(thread_id) => thread_id,
        None => {
            return Err(WebhookError::MalformedThreadLink);
        },
    };
    let pull_request_id = event.resource.pull_request.pull_request_id;
    let pr_id = u64_to_string(pull_request_id);
    let branch = strip_refs_heads(event.resource.pull_request.source_ref_name.as_str());
    match command {
        SlashCommand::Preview => Ok(
            CommentRoute::Upsert { pr_id, branch, pull_request_id, thread_id },
        ),
        SlashCommand::Delete => Ok(
            CommentRoute::Delete { pr_id, branch, pull_request_id, thread_id },
        ),
    }
}

/// Whether the branch is the trunk.
pub fn is_trunk(branch: &str) -> (r: bool)
    ensures
        r == (branch@ == trunk_branch()),
{
    same_text(branch, "main")
}

/// Whether an update tells that the pull request has been completed into
/// the trunk.
pub open spec fn is_completed_into_trunk(event: AzurePrUpdatedEvent) -> bool {
    &&& event.resource.status is Some
    &&& eq_ignoring_ascii_case(event.resource.status->0@, "completed"@)
    &&& event.resource.target_ref_name is Some
    &&& branch_of_ref(event.resource.target_ref_name->0@) == trunk_branch()
}

/// Whether the route is the one that the update event asks for.
pub open spec fn is_updated_route(event: AzurePrUpdatedEvent, route: PullRequestRoute) -> bool {
    let pr = decimal_text(event.resource.pull_request_id as nat);
    let branch = branch_of_ref(event.resource.source_ref_name@);
    if event.event_type@ != updated_event_type() {
        route == PullRequestRoute::Ignore
    } else if is_completed_into_trunk(event) {
        &&& route matches PullRequestRoute::Delete { pr_id, branch: b }
        &&& pr_id@ == pr
        &&& b@ == branch
    } else {
        &&& route matches PullRequestRoute::Redeploy { pr_id, branch: b }
        &&& pr_id@ == pr
        &&& b@ == branch
    }
}

/// Decides what an update event asks for: the end of the preview where the
/// pull request has been completed into the trunk, a new deployment of it
/// otherwise.
pub fn route_pr_updated(event: &AzurePrUpdatedEvent) -> (route: PullRequestRoute)
    ensures
        is_updated_route(*event, route),
{
    if !same_text(event.event_type.as_str(), "git.pullrequest.updated") {
        return PullRequestRoute::Ignore;
    }
    let pr_id = u64_to_string(event.resource.pull_request_id);
    let branch = strip_refs_heads(event.resource.source_ref_name.as_str());
    let completed = match &event.resource.status {
        Some(status) => same_text_ignoring_ascii_case(status.as_str(), "completed"),
        None => false,
    };
    let into_trunk = match &event.resource.target_ref_name {
        Some(target) => is_trunk(strip_refs_heads(target.as_str()).as_str()),
        None => false,
    };
    if completed && into_trunk {
        PullRequestRoute::Delete { pr_id, branch }
    } else {
        PullRequestRoute::Redeploy { pr_id, branch }
    }
}

/// Whether the route is the one that the merge event asks for.
pub open spec fn is_merged_route(event: AzurePrMergedEvent, route: PullRequestRoute) -> bool {
    let pr = decimal_text(event.resource.pull_request_id as nat);
    let branch = branch_of_ref(event.resource.source_ref_name@);
    if event.event_type@ == merged_event_type() && eq_ignoring_ascii_case(
        event.resource.merge_status@,
        "succeeded"@,
    ) && branch_of_ref(event.resource.target_ref_name@) == trunk_branch() {
        &&& route matches PullRequestRoute::Delete { pr_id, branch: b }
        &&& pr_id@ == pr
        &&& b@ == branch
    } else {
        route == PullRequestRoute::Ignore
    }
}

/// Decides what a merge event asks for: the end of the preview where the
/// merge into the trunk has succeeded, nothing otherwise.
pub fn route_pr_merged(event: &AzurePrMergedEvent) -> (route: PullRequestRoute)
    ensures
        is_merged_route(*event, route),
{
    if !same_text(event.event_type.as_str(), "git.pullrequest.merged") {
        return PullRequestRoute::Ignore;
    }
    if same_text_ignoring_ascii_case(event.resource.merge_status.as_str(), "succeeded")
        && is_trunk(strip_refs_heads(event.resource.target_ref_name.as_str()).as_str()) {
        PullRequestRoute::Delete {
            pr_id: u64_to_string(event.resource.pull_request_id),
            branch: strip_refs_heads(event.resource.source_ref_name.as_str()),
        }
    } else {
        PullRequestRoute::Ignore
    }
}

/// The text of the hostnames of a preview as addresses, each on a line.
pub open spec fn address_lines(hosts: Seq<String>) -> Seq<char>
    decreases hosts.len(),
{
    if hosts.len() == 0 {
        Seq::empty()
    } else {
        address_lines(hosts.drop_last()) + "\nhttps://"@ + hosts.last()@
    }
}

/// The reply to a comment that asked for a preview: where it is reached.
pub fn preview_reply(hosts: &Vec<String>) -> (r: String)
    ensures
        r@ == "Preview deployed:"@ + address_lines(hosts@),
{
    let mut r = copy_text("Preview deployed:");
    let ghost head = r@;
    let mut i: usize = 0;
    while i < hosts.len()
        invariant
            i <= hosts.len(),
            r@ == head + address_lines(hosts@.take(i as int)),
        decreases hosts.len() - i,
    {
        assert(hosts@.take(i + 1).drop_last() =~= hosts@.take(i as int));
        r.push_str("\nhttps://");
        r.push_str(hosts[i].as_str());
        assert(r@ =~= head + address_lines(hosts@.take(i + 1)));
        i += 1;
    }
    assert(hosts@.take(i as int) =~= hosts@);
    r
}

/// The reply to a comment that asked for the end of a preview.
pub fn delete_reply() -> (r: String)
    ensures
        r@ == "Preview deleted."@,
{
    copy_text("Preview deleted.")
}

/// The type of the event that tells of a completed build.
pub open spec fn build_event_type() -> Seq<char> {
    "build.complete"@
}

/// Which of the four webhooks an event came in by.
#[derive(Debug, Clone, Copy, PartialEq, Eq, Structural)]
pub enum WebhookKind {
    PrComment,
    PrUpdated,
    PrMerged,
    BuildCompleted,
}

/// The type of event that a webhook acts on.
pub open spec fn expected_event_type(kind: WebhookKind) -> Seq<char> {
    match kind {
        WebhookKind::PrComment => comment_event_type(),
        WebhookKind::PrUpdated => updated_event_type(),
        WebhookKind::PrMerged => merged_event_type(),
        WebhookKind::BuildCompleted => build_event_type(),
    }
}

/// Whether a webhook acts on an event of the type named in its payload. An
/// event of another type, or of none, is accepted and ignored, whatever
/// the rest of its payload looks like.
pub fn acts_on(kind: WebhookKind, event_type: Option<&str>) -> (r: bool)
    ensures
        r == (crate::identifier::text_of(event_type) == Some(expected_event_type(kind))),
{
    match event_type {
        Some(text) => match kind {
            WebhookKind::PrComment => same_text(text, "ms.vss-code.git-pullrequest-comment-event"),
            WebhookKind::PrUpdated => same_text(text, "git.pullrequest.updated"),
            WebhookKind::PrMerged => same_text(text, "git.pullrequest.merged"),
            WebhookKind::BuildCompleted => same_text(text, "build.complete"),
        },
        None => false,
    }
}

/// An event of the source-control and build service.
#[derive(Debug, Clone, PartialEq, Eq)]
pub enum WebhookEvent {
    PrComment(AzurePrCommentEvent),
    PrUpdated(AzurePrUpdatedEvent),
    PrMerged(AzurePrMergedEvent),
    BuildCompleted(AzureBuildCompletedEvent),
}

/// What an event asks for.
#[derive(Debug, Clone, PartialEq, Eq)]
pub enum WebhookRoute {
    /// What a comment asks for.
    Comment(CommentRoute),
    /// What an update or a merge asks for.
    PullRequest(PullRequestRoute),
    /// The detection of a regression: the build it is about, where it
    /// stands and what to do first.
    Build { current: BuildRef, state: DetectorState, action: DetectorAction },
}

/// Whether the state and action are those with which the detection begins
/// for a build event. An event of another type is not followed up.
pub open spec fn is_build_route(
    event: AzureBuildCompletedEvent,
    current: BuildRef,
    state: DetectorState,
    action: DetectorAction,
) -> bool {
    &&& current.id == event.resource.id
    &&& current.definition_id == event.resource.definition_id
    &&& current.source_branch@ == event.resource.source_branch@
    &&& if event.event_type@ != build_event_type() {
        state is Finished && action == DetectorAction::Ignore(Reason::BuildDidNotFail)
    } else {
        match event.resource.result {
            Some(text) => {
                if is_failure(text@) {
                    state is AwaitingTimeline && action == (DetectorAction::FetchTimeline {
                        build_id: event.resource.id,
                    })
                } else {
                    state is Finished && action == DetectorAction::Ignore(Reason::BuildDidNotFail)
                }
            },
            None => state is AwaitingBuild && action == (DetectorAction::FetchBuild {
                build_id: event.resource.id,
            }),
        }
    }
}

/// Decides how the detection begins for a build event.
pub fn route_build_completed(event: &AzureBuildCompletedEvent) -> (r: (
    BuildRef,
    DetectorState,
    DetectorAction,
))
    ensures
        is_build_route(*event, r.0, r.1, r.2),
{
    let current = BuildRef {
        id: event.resource.id,
        definition_id: event.resource.definition_id,
        source_branch: copy_text(event.resource.source_branch.as_str()),
    };
    if !same_text(event.event_type.as_str(), "build.complete") {
        return (current, DetectorState::Finished, DetectorAction::Ignore(Reason::BuildDidNotFail));
    }
    let (state, action) = detector_start(event.resource.id, &event.resource.result);
    (current, state, action)
}

/// Whether the route is the one that the event asks for.
pub open spec fn is_route(event: WebhookEvent, route: Result<WebhookRoute, WebhookError>) -> bool {
    match event {
        WebhookEvent::PrComment(e) => match route {
            Ok(WebhookRoute::Comment(r)) => is_comment_route(e, Ok(r)),
            Err(error) => is_comment_route(e, Err(error)),
            _ => false,
        },
        WebhookEvent::PrUpdated(e) => route matches Ok(WebhookRoute::PullRequest(r))
            && is_updated_route(e, r),
        WebhookEvent::PrMerged(e) => route matches Ok(WebhookRoute::PullRequest(r))
            && is_merged_route(e, r),
        WebhookEvent::BuildCompleted(e) => route matches Ok(
            WebhookRoute::Build { current, state, action },
        ) && is_build_route(e, current, state, action),
    }
}

/// Decides what an event asks for.
pub fn route_event(event: &WebhookEvent) -> (route: Result<WebhookRoute, WebhookError>)
    ensures
        is_route(*event, route),
{
    match event {
        WebhookEvent::PrComment(e) => match route_pr_comment(e) {
            Ok(r) => Ok(WebhookRoute::Comment(r)),
            Err(error) => Err(error),
        },
        WebhookEvent::PrUpdated(e) => Ok(WebhookRoute::PullRequest(route_pr_updated(e))),
        WebhookEvent::PrMerged(e) => Ok(WebhookRoute::PullRequest(route_pr_merged(e))),
        WebhookEvent::BuildCompleted(e) => {
            let (current, state, action) = route_build_completed(e);
            Ok(WebhookRoute::Build { current, state, action })
        },
    }
}

impl WebhookError {
    /// A sentence for the caller.
    pub fn message(&self) -> (r: String)
        ensures
            r@ == "the link to the thread does not end in a thread number"@,
    {
        copy_text("the link to the thread does not end in a thread number")
    }
}

} // verus!
