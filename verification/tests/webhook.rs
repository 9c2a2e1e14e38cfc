use spinploy::models::azure::{
    AzureBuildCompletedEvent, AzureBuildResource, AzureComment, AzureCommentLinks, AzureHref,
    AzurePrCommentEvent, AzurePrMergedEvent, AzurePrMergedResource, AzurePrUpdatedEvent,
    AzurePrUpdatedResource, AzurePullRequest, AzureResource,
};
use spinploy::regression::{BuildRef, DetectorAction, DetectorState, Reason};
use spinploy::slash_cmd::{first_token_of, NotACommand};
use spinploy::webhook::{
    acts_on, delete_reply, is_trunk, preview_reply, route_build_completed, route_event, route_pr_comment,
    route_pr_merged, route_pr_updated, thread_id_of, CommentRoute, PullRequestRoute,
    WebhookError, WebhookEvent, WebhookKind, WebhookRoute,
};
use spinploy::SlashCommand;

fn comment(content: Option<&str>) -> AzurePrCommentEvent {
    AzurePrCommentEvent {
        event_type: "ms.vss-code.git-pullrequest-comment-event".to_string(),
        resource: AzureResource {
            comment: AzureComment {
                content: content.map(|s| s.to_string()),
                is_deleted: false,
                links: AzureCommentLinks {
                    self_: None,
                    repository: None,
                    threads: AzureHref {
                        href: "https://dev.azure.com/org/_apis/git/repositories/r/pullRequests/1774/threads/77".to_string(),
                    },
                },
            },
            pull_request: AzurePullRequest {
                pull_request_id: 1774,
                source_ref_name: "refs/heads/feature/cool".to_string(),
            },
        },
    }
}

fn updated(status: Option<&str>, target: Option<&str>) -> AzurePrUpdatedEvent {
    AzurePrUpdatedEvent {
        event_type: "git.pullrequest.updated".to_string(),
        resource: AzurePrUpdatedResource {
            pull_request_id: 12,
            source_ref_name: "refs/heads/fix".to_string(),
            target_ref_name: target.map(|s| s.to_string()),
            status: status.map(|s| s.to_string()),
        },
    }
}

fn merged(status: &str, target: &str) -> AzurePrMergedEvent {
    AzurePrMergedEvent {
        event_type: "git.pullrequest.merged".to_string(),
        resource: AzurePrMergedResource {
            pull_request_id: 12,
            source_ref_name: "refs/heads/fix".to_string(),
            target_ref_name: target.to_string(),
            merge_status: status.to_string(),
        },
    }
}

fn token(s: &str) -> String {
    first_token_of(s).into_iter().collect()
}

#[test]
fn commands_are_read_whatever_their_case() {
    assert_eq!(SlashCommand::parse("/preview"), Some(SlashCommand::Preview));
    assert_eq!(SlashCommand::parse("/delete"), Some(SlashCommand::Delete));
    assert_eq!(SlashCommand::parse("/PREVIEW"), Some(SlashCommand::Preview));
    assert_eq!(SlashCommand::parse("/Delete"), Some(SlashCommand::Delete));
}

#[test]
fn commands_are_the_first_token_of_the_first_line() {
    assert_eq!(SlashCommand::parse("  /preview  "), Some(SlashCommand::Preview));
    assert_eq!(SlashCommand::parse("\t/delete please"), Some(SlashCommand::Delete));
    assert_eq!(SlashCommand::parse("/preview\nand more"), Some(SlashCommand::Preview));
    assert_eq!(SlashCommand::parse("/preview\r\n"), Some(SlashCommand::Preview));
    assert_eq!(SlashCommand::parse("\n/preview"), None);
    assert_eq!(SlashCommand::parse("please /preview"), None);
}

#[test]
fn other_text_is_no_command() {
    assert_eq!(SlashCommand::parse(""), None);
    assert_eq!(SlashCommand::parse("   "), None);
    assert_eq!(SlashCommand::parse("preview"), None);
    assert_eq!(SlashCommand::parse("/previews"), None);
    assert_eq!(SlashCommand::parse("/prev"), None);
    assert_eq!(SlashCommand::parse("/deploy"), None);
    assert_eq!(SlashCommand::parse("/preview!"), None);
}

#[test]
fn the_first_token_ends_at_white_space() {
    assert_eq!(token("  abc def"), "abc");
    assert_eq!(token("abc"), "abc");
    assert_eq!(token(" \n abc"), "");
    assert_eq!(token(""), "");
    assert_eq!(token("a\tb"), "a");
}

#[test]
fn the_thread_number_ends_the_link() {
    assert_eq!(thread_id_of("https://x/threads/77"), Some(77));
    assert_eq!(thread_id_of("77"), Some(77));
    assert_eq!(thread_id_of("https://x/threads/0"), Some(0));
    assert_eq!(thread_id_of("https://x/threads/"), None);
    assert_eq!(thread_id_of("https://x/threads/77/"), None);
    assert_eq!(thread_id_of("https://x/threads/abc"), None);
    assert_eq!(thread_id_of("https://x/threads/77?api=1"), None);
    assert_eq!(thread_id_of(""), None);
}

#[test]
fn a_preview_command_asks_for_an_upsert() {
    assert_eq!(
        route_pr_comment(&comment(Some("/preview"))),
        Ok(CommentRoute::Upsert {
            pr_id: "1774".to_string(),
            branch: "feature/cool".to_string(),
            pull_request_id: 1774,
            thread_id: 77,
        })
    );
}

#[test]
fn a_delete_command_asks_for_a_deletion() {
    assert_eq!(
        route_pr_comment(&comment(Some(" /DELETE now"))),
        Ok(CommentRoute::Delete {
            pr_id: "1774".to_string(),
            branch: "feature/cool".to_string(),
            pull_request_id: 1774,
            thread_id: 77,
        })
    );
}

#[test]
fn comments_that_give_no_command_are_ignored() {
    assert_eq!(route_pr_comment(&comment(Some("looks good to me"))), Ok(CommentRoute::Ignore));
    assert_eq!(route_pr_comment(&comment(Some(""))), Ok(CommentRoute::Ignore));
    assert_eq!(route_pr_comment(&comment(None)), Ok(CommentRoute::Ignore));
    let mut deleted = comment(Some("/preview"));
    deleted.resource.comment.is_deleted = true;
    assert_eq!(route_pr_comment(&deleted), Ok(CommentRoute::Ignore));
    let mut other = comment(Some("/preview"));
    other.event_type = "git.push".to_string();
    assert_eq!(route_pr_comment(&other), Ok(CommentRoute::Ignore));
}

#[test]
fn a_malformed_thread_link_is_an_error_for_a_command_only() {
    let mut event = comment(Some("/preview"));
    event.resource.comment.links.threads.href = "https://x/threads/latest".to_string();
    assert_eq!(route_pr_comment(&event), Err(WebhookError::MalformedThreadLink));
    event.resource.comment.content = Some("nice".to_string());
    assert_eq!(route_pr_comment(&event), Ok(CommentRoute::Ignore));
}

#[test]
fn a_branch_without_the_refs_prefix_is_taken_as_it_is() {
    let mut event = comment(Some("/preview"));
    event.resource.pull_request.source_ref_name = "main".to_string();
    assert_eq!(
        route_pr_comment(&event),
        Ok(CommentRoute::Upsert {
            pr_id: "1774".to_string(),
            branch: "main".to_string(),
            pull_request_id: 1774,
            thread_id: 77
        })
    );
}

#[test]
fn a_pull_request_completed_into_the_trunk_loses_its_preview() {
    assert_eq!(
        route_pr_updated(&updated(Some("completed"), Some("refs/heads/main"))),
        PullRequestRoute::Delete { pr_id: "12".to_string(), branch: "fix".to_string() }
    );
    assert_eq!(
        route_pr_updated(&updated(Some("Completed"), Some("main"))),
        PullRequestRoute::Delete { pr_id: "12".to_string(), branch: "fix".to_string() }
    );
}

#[test]
fn any_other_update_is_a_push() {
    let redeploy = PullRequestRoute::Redeploy { pr_id: "12".to_string(), branch: "fix".to_string() };
    assert_eq!(route_pr_updated(&updated(Some("active"), Some("refs/heads/main"))), redeploy);
    assert_eq!(route_pr_updated(&updated(None, Some("refs/heads/main"))), redeploy);
    assert_eq!(route_pr_updated(&updated(Some("completed"), Some("refs/heads/develop"))), redeploy);
    assert_eq!(route_pr_updated(&updated(Some("completed"), None)), redeploy);
    assert_eq!(route_pr_updated(&updated(None, None)), redeploy);
}

#[test]
fn an_update_of_another_type_is_ignored() {
    let mut event = updated(Some("completed"), Some("refs/heads/main"));
    event.event_type = "git.pullrequest.created".to_string();
    assert_eq!(route_pr_updated(&event), PullRequestRoute::Ignore);
}

#[test]
fn a_merge_into_the_trunk_deletes_the_preview() {
    assert_eq!(
        route_pr_merged(&merged("succeeded", "refs/heads/main")),
        PullRequestRoute::Delete { pr_id: "12".to_string(), branch: "fix".to_string() }
    );
    assert_eq!(
        route_pr_merged(&merged("Succeeded", "main")),
        PullRequestRoute::Delete { pr_id: "12".to_string(), branch: "fix".to_string() }
    );
}

#[test]
fn other_merges_are_ignored() {
    assert_eq!(route_pr_merged(&merged("conflicts", "refs/heads/main")), PullRequestRoute::Ignore);
    assert_eq!(route_pr_merged(&merged("succeeded", "refs/heads/release")), PullRequestRoute::Ignore);
    let mut event = merged("succeeded", "refs/heads/main");
    event.event_type = "git.pullrequest.updated".to_string();
    assert_eq!(route_pr_merged(&event), PullRequestRoute::Ignore);
}

#[test]
fn replies_tell_what_was_done() {
    assert_eq!(
        preview_reply(&vec!["a.example.com".to_string(), "api-a.example.com".to_string()]),
        "Preview deployed:\nhttps://a.example.com\nhttps://api-a.example.com"
    );
    assert_eq!(preview_reply(&vec![]), "Preview deployed:");
    assert_eq!(delete_reply(), "Preview deleted.");
}

fn build_event(event_type: &str, result: Option<&str>) -> AzureBuildCompletedEvent {
    AzureBuildCompletedEvent {
        event_type: event_type.to_string(),
        resource: AzureBuildResource {
            id: 100,
            build_number: "20240101.1".to_string(),
            definition_id: 7,
            source_branch: "refs/heads/main".to_string(),
            result: result.map(|s| s.to_string()),
        },
    }
}

fn current() -> BuildRef {
    BuildRef { id: 100, definition_id: 7, source_branch: "refs/heads/main".to_string() }
}

#[test]
fn a_failed_build_starts_the_detection() {
    assert_eq!(
        route_build_completed(&build_event("build.complete", Some("failed"))),
        (current(), DetectorState::AwaitingTimeline, DetectorAction::FetchTimeline { build_id: 100 })
    );
    assert_eq!(
        route_build_completed(&build_event("build.complete", None)),
        (current(), DetectorState::AwaitingBuild, DetectorAction::FetchBuild { build_id: 100 })
    );
}

#[test]
fn other_builds_are_not_followed_up() {
    assert_eq!(
        route_build_completed(&build_event("build.complete", Some("succeeded"))),
        (current(), DetectorState::Finished, DetectorAction::Ignore(Reason::BuildDidNotFail))
    );
    assert_eq!(
        route_build_completed(&build_event("build.started", Some("failed"))),
        (current(), DetectorState::Finished, DetectorAction::Ignore(Reason::BuildDidNotFail))
    );
}

#[test]
fn every_event_finds_its_route() {
    assert_eq!(
        route_event(&WebhookEvent::PrComment(comment(Some("/preview")))),
        Ok(WebhookRoute::Comment(CommentRoute::Upsert {
            pr_id: "1774".to_string(),
            branch: "feature/cool".to_string(),
            pull_request_id: 1774,
            thread_id: 77,
        }))
    );
    let mut broken = comment(Some("/delete"));
    broken.resource.comment.links.threads.href = "nowhere".to_string();
    assert_eq!(
        route_event(&WebhookEvent::PrComment(broken)),
        Err(WebhookError::MalformedThreadLink)
    );
    assert_eq!(
        route_event(&WebhookEvent::PrUpdated(updated(None, None))),
        Ok(WebhookRoute::PullRequest(PullRequestRoute::Redeploy {
            pr_id: "12".to_string(),
            branch: "fix".to_string()
        }))
    );
    assert_eq!(
        route_event(&WebhookEvent::PrMerged(merged("succeeded", "refs/heads/main"))),
        Ok(WebhookRoute::PullRequest(PullRequestRoute::Delete {
            pr_id: "12".to_string(),
            branch: "fix".to_string()
        }))
    );
    assert_eq!(
        route_event(&WebhookEvent::BuildCompleted(build_event("build.complete", Some("failed")))),
        Ok(WebhookRoute::Build {
            current: current(),
            state: DetectorState::AwaitingTimeline,
            action: DetectorAction::FetchTimeline { build_id: 100 },
        })
    );
}

#[test]
fn the_malformed_link_has_a_message() {
    assert_eq!(
        WebhookError::MalformedThreadLink.message(),
        "the link to the thread does not end in a thread number"
    );
}

#[test]
fn a_webhook_acts_on_its_own_type_of_event_only() {
    assert!(acts_on(WebhookKind::PrComment, Some("ms.vss-code.git-pullrequest-comment-event")));
    assert!(acts_on(WebhookKind::PrUpdated, Some("git.pullrequest.updated")));
    assert!(acts_on(WebhookKind::PrMerged, Some("git.pullrequest.merged")));
    assert!(acts_on(WebhookKind::BuildCompleted, Some("build.complete")));
    assert!(!acts_on(WebhookKind::PrComment, Some("git.pullrequest.updated")));
    assert!(!acts_on(WebhookKind::PrUpdated, Some("git.pullrequest.merged")));
    assert!(!acts_on(WebhookKind::PrMerged, Some("Git.PullRequest.Merged")));
    assert!(!acts_on(WebhookKind::BuildCompleted, Some("")));
    assert!(!acts_on(WebhookKind::BuildCompleted, None));
}

#[test]
fn a_command_can_be_parsed_from_a_string() {
    assert_eq!("/preview".parse::<SlashCommand>(), Ok(SlashCommand::Preview));
    assert_eq!(" /Delete ".parse::<SlashCommand>(), Ok(SlashCommand::Delete));
    assert!("hello".parse::<SlashCommand>().is_err());
    assert_eq!("".parse::<SlashCommand>(), Err(NotACommand));
    assert_eq!("\n/preview".parse::<SlashCommand>(), Err(NotACommand));
    assert_eq!("/preview now".parse::<SlashCommand>(), Ok(SlashCommand::Preview));
}

#[test]
fn the_trunk_is_main() {
    assert!(is_trunk("main"));
    assert!(!is_trunk("Main"));
    assert!(!is_trunk("refs/heads/main"));
    assert!(!is_trunk(""));
}
