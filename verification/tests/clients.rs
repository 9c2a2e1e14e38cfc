use spinploy::azure_client::{build_results_url, thread_comments_url};
use spinploy::config::{DEFAULT_BACKEND_PORT, DEFAULT_FRONTEND_PORT, PREVIEW_LIMIT};
use spinploy::dokploy_client::{
    blank, compose_detail_path, domains_path, join_url, normalize_base_url,
};

#[test]
fn the_base_url_loses_its_trailing_slashes() {
    assert_eq!(normalize_base_url("https://dokploy.example/"), "https://dokploy.example");
    assert_eq!(normalize_base_url("https://dokploy.example///"), "https://dokploy.example");
    assert_eq!(normalize_base_url("https://dokploy.example/api"), "https://dokploy.example/api");
    assert_eq!(normalize_base_url("/"), "");
    assert_eq!(normalize_base_url(""), "");
}

#[test]
fn endpoints_are_joined_with_one_slash() {
    assert_eq!(join_url("https://d.example", "project.all"), "https://d.example/project.all");
    assert_eq!(join_url("https://d.example", "/project.all"), "https://d.example/project.all");
    assert_eq!(join_url("https://d.example", "//a/b"), "https://d.example/a/b");
    assert_eq!(join_url("", ""), "/");
}

#[test]
fn the_domains_of_a_compose_are_asked_for_by_its_id() {
    assert_eq!(domains_path("c-42"), "domain.byComposeId?composeId=c-42");
    assert_eq!(
        join_url("https://d.example", &domains_path("c-42")),
        "https://d.example/domain.byComposeId?composeId=c-42"
    );
}

#[test]
fn an_answer_of_white_space_is_blank() {
    assert!(blank(""));
    assert!(blank("  \n\t"));
    assert!(!blank("[]"));
    assert!(!blank(" x "));
}

#[test]
fn replies_go_to_the_comments_of_the_thread() {
    assert_eq!(
        thread_comments_url("org", "project", "repo", 1774, 77),
        "https://dev.azure.com/org/project/_apis/git/repositories/repo/pullRequests/1774/threads/77/comments?api-version=7.1-preview.1"
    );
}

#[test]
fn the_limits_are_as_documented() {
    assert_eq!(PREVIEW_LIMIT, 5);
    assert_eq!(DEFAULT_FRONTEND_PORT, 3000);
    assert_eq!(DEFAULT_BACKEND_PORT, 8080);
}

#[test]
fn a_build_is_shown_under_its_number() {
    assert_eq!(
        build_results_url("org", "project", 100),
        "https://dev.azure.com/org/project/_build/results?buildId=100"
    );
}

#[test]
fn the_detail_of_a_compose_is_asked_for_by_its_id() {
    assert_eq!(compose_detail_path("c-42"), "compose.one?composeId=c-42");
}
