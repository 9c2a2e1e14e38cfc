use spinploy::models::dokploy::{Compose, ComposeDetail, Deployment, Environment, Project};
use spinploy::order::select_first;
use spinploy::prune::{
    activity_keys, last_activity, latest_instant, prune_candidates, prune_victims, read_phase,
    select_victims, victim_count, Phase,
};
use spinploy::timestamp::Timestamp;

fn at(secs: i64) -> Option<Timestamp> {
    Some(Timestamp { secs, nanos: 0 })
}

fn compose(id: &str) -> Compose {
    Compose {
        compose_id: id.to_string(),
        name: format!("pr-{}", id),
        app_name: format!("preview-pr-{}", id),
        environment_id: "env".to_string(),
        created_at: None,
        domains: vec![],
    }
}

fn deployment(created: Option<&str>, started: Option<&str>, finished: Option<&str>) -> Deployment {
    Deployment {
        deployment_id: "d".to_string(),
        status: None,
        created_at: created.map(|s| s.to_string()),
        started_at: started.map(|s| s.to_string()),
        finished_at: finished.map(|s| s.to_string()),
    }
}

fn detail(created_at: Option<&str>, deployments: Vec<Deployment>) -> ComposeDetail {
    ComposeDetail {
        compose_id: "c".to_string(),
        created_at: created_at.map(|s| s.to_string()),
        deployments,
    }
}

fn finished_at(text: &str) -> Option<ComposeDetail> {
    Some(detail(None, vec![deployment(None, None, Some(text))]))
}

#[test]
fn victim_count_is_what_is_over_the_limit() {
    assert_eq!(victim_count(0, 5), 0);
    assert_eq!(victim_count(4, 5), 0);
    assert_eq!(victim_count(5, 5), 1);
    assert_eq!(victim_count(4, 3), 2);
    assert_eq!(victim_count(9, 5), 5);
    assert_eq!(victim_count(3, 1), 3);
}

#[test]
fn victim_count_never_exceeds_what_is_there() {
    assert_eq!(victim_count(0, 0), 0);
    assert_eq!(victim_count(3, 0), 3);
    assert_eq!(victim_count(usize::MAX, 0), usize::MAX);
    assert_eq!(victim_count(usize::MAX, 1), usize::MAX);
    assert_eq!(victim_count(usize::MAX, usize::MAX), 1);
}

#[test]
fn latest_instant_is_the_greatest_present() {
    assert_eq!(latest_instant(&vec![]), None);
    assert_eq!(latest_instant(&vec![None, None]), None);
    assert_eq!(latest_instant(&vec![at(3), None, at(9), at(1)]), at(9));
    assert_eq!(latest_instant(&vec![None, at(-4)]), at(-4));
    assert_eq!(
        latest_instant(&vec![
            Some(Timestamp { secs: 1, nanos: 7 }),
            Some(Timestamp { secs: 1, nanos: 9 }),
            Some(Timestamp { secs: 0, nanos: 999 })
        ]),
        Some(Timestamp { secs: 1, nanos: 9 })
    );
}

#[test]
fn read_phase_reads_one_instant_of_each_deployment() {
    let deployments = vec![
        deployment(Some("1970-01-01T00:00:01Z"), Some("1970-01-01T00:00:02Z"), None),
        deployment(None, Some("bad"), Some("1970-01-01T00:00:03Z")),
    ];
    assert_eq!(read_phase(&deployments, Phase::Created), vec![at(1), None]);
    assert_eq!(read_phase(&deployments, Phase::Started), vec![at(2), None]);
    assert_eq!(read_phase(&deployments, Phase::Finished), vec![None, at(3)]);
}

#[test]
fn last_activity_prefers_finish_over_start_over_creation() {
    let d = detail(
        Some("1970-01-01T00:00:50Z"),
        vec![
            deployment(Some("1970-01-01T00:00:40Z"), Some("1970-01-01T00:00:30Z"), None),
            deployment(None, None, Some("1970-01-01T00:00:10Z")),
            deployment(None, None, Some("1970-01-01T00:00:20Z")),
        ],
    );
    assert_eq!(last_activity(&d), at(20));
    let d = detail(
        Some("1970-01-01T00:00:50Z"),
        vec![
            deployment(Some("1970-01-01T00:00:40Z"), Some("1970-01-01T00:00:30Z"), None),
            deployment(None, Some("1970-01-01T00:00:35Z"), Some("garbage")),
        ],
    );
    assert_eq!(last_activity(&d), at(35));
    let d = detail(
        Some("1970-01-01T00:00:50Z"),
        vec![deployment(Some("1970-01-01T00:00:40Z"), None, None)],
    );
    assert_eq!(last_activity(&d), at(40));
}

#[test]
fn last_activity_falls_back_to_the_compose_itself() {
    assert_eq!(last_activity(&detail(Some("1970-01-01T00:00:50Z"), vec![])), at(50));
    assert_eq!(
        last_activity(&detail(Some("1970-01-01T00:00:50Z"), vec![deployment(None, None, None)])),
        at(50)
    );
    assert_eq!(last_activity(&detail(None, vec![])), None);
    assert_eq!(last_activity(&detail(Some("when?"), vec![])), None);
}

#[test]
fn activity_keys_take_a_missing_detail_for_no_instant() {
    let details = vec![finished_at("1970-01-01T00:00:05Z"), None, Some(detail(None, vec![]))];
    assert_eq!(activity_keys(&details), vec![at(5), None, None]);
}

#[test]
fn select_first_picks_the_oldest_in_order() {
    let keys = vec![at(40), at(10), at(30), at(20)];
    assert_eq!(select_first(&keys, 0), Vec::<usize>::new());
    assert_eq!(select_first(&keys, 2), vec![1, 3]);
    assert_eq!(select_first(&keys, 4), vec![1, 3, 2, 0]);
}

#[test]
fn select_first_takes_missing_instants_first_and_keeps_ties_in_order() {
    let keys = vec![at(5), None, at(5), None, at(1)];
    assert_eq!(select_first(&keys, 1), vec![1]);
    assert_eq!(select_first(&keys, 2), vec![1, 3]);
    assert_eq!(select_first(&keys, 3), vec![1, 3, 4]);
    assert_eq!(select_first(&keys, 5), vec![1, 3, 4, 0, 2]);
}

#[test]
fn select_first_agrees_with_a_stable_sort() {
    let keys: Vec<Option<Timestamp>> = vec![
        at(7), at(3), None, at(7), at(1), at(3), None, at(9), at(0), at(3),
    ];
    let mut expected: Vec<usize> = (0..keys.len()).collect();
    expected.sort_by_key(|i| keys[*i].map(|t| (t.secs, t.nanos)));
    for count in 0..=keys.len() {
        assert_eq!(select_first(&keys, count), expected[..count].to_vec());
    }
}

#[test]
fn four_previews_and_a_limit_of_three_lose_the_two_oldest() {
    let a = compose("a");
    let b = compose("b");
    let c = compose("c");
    let d = compose("d");
    let candidates = vec![&a, &b, &c, &d];
    let details = vec![
        finished_at("2024-03-01T00:00:00Z"),
        finished_at("2024-01-01T00:00:00Z"),
        finished_at("2024-04-01T00:00:00Z"),
        finished_at("2024-02-01T00:00:00Z"),
    ];
    assert_eq!(prune_victims(&candidates, &details, 3), vec!["b", "d"]);
}

#[test]
fn a_preview_of_unknown_age_goes_first() {
    let a = compose("a");
    let b = compose("b");
    let c = compose("c");
    let d = compose("d");
    let candidates = vec![&a, &b, &c, &d];
    let details = vec![
        finished_at("2024-03-01T00:00:00Z"),
        finished_at("2024-01-01T00:00:00Z"),
        None,
        Some(detail(None, vec![])),
    ];
    assert_eq!(prune_victims(&candidates, &details, 3), vec!["c", "d"]);
    assert_eq!(prune_victims(&candidates, &details, 2), vec!["c", "d", "b"]);
}

#[test]
fn nothing_is_pruned_within_the_limit() {
    let a = compose("a");
    let b = compose("b");
    let candidates = vec![&a, &b];
    let details = vec![finished_at("2024-03-01T00:00:00Z"), finished_at("2024-01-01T00:00:00Z")];
    assert_eq!(prune_victims(&candidates, &details, 3), Vec::<String>::new());
    assert_eq!(prune_victims(&candidates, &details, 5), Vec::<String>::new());
    assert_eq!(prune_victims(&vec![], &vec![], 0), Vec::<String>::new());
}

#[test]
fn the_new_preview_is_never_a_victim() {
    let a = compose("a");
    let b = compose("b");
    let candidates = vec![&a, &b];
    let details = vec![finished_at("2024-03-01T00:00:00Z"), finished_at("2024-01-01T00:00:00Z")];
    assert_eq!(prune_victims(&candidates, &details, 0), vec!["b", "a"]);
    assert_eq!(prune_victims(&candidates, &details, 1), vec!["b", "a"]);
    assert_eq!(prune_victims(&candidates, &details, 2), vec!["b"]);
}

#[test]
fn details_that_were_not_fetched_count_as_missing() {
    let a = compose("a");
    let b = compose("b");
    let c = compose("c");
    let candidates = vec![&a, &b, &c];
    let details = vec![finished_at("2024-03-01T00:00:00Z")];
    assert_eq!(prune_victims(&candidates, &details, 2), vec!["b", "c"]);
}

#[test]
fn select_victims_works_on_keys() {
    let a = compose("a");
    let b = compose("b");
    let c = compose("c");
    let candidates = vec![&a, &b, &c];
    let keys = vec![at(3), at(1), at(2)];
    assert_eq!(select_victims(&candidates, &keys, 2), vec!["b", "c"]);
    assert_eq!(select_victims(&candidates, &keys, 3), vec!["b"]);
    assert_eq!(select_victims(&candidates, &keys, 4), Vec::<String>::new());
}

#[test]
fn candidates_are_the_previews_of_the_environment_but_the_new_one() {
    let mut other = compose("x");
    other.environment_id = "elsewhere".to_string();
    let mut tool = compose("t");
    tool.app_name = "tooling".to_string();
    let projects = vec![Project {
        project_id: "p".to_string(),
        name: "p".to_string(),
        organization_id: "o".to_string(),
        environments: vec![Environment {
            environment_id: "env".to_string(),
            name: "env".to_string(),
            project_id: "p".to_string(),
            compose: vec![compose("a"), other, compose("new"), tool, compose("b")],
        }],
    }];
    let candidates = prune_candidates(&projects, "env", "new");
    let ids: Vec<&str> = candidates.iter().map(|c| c.compose_id.as_str()).collect();
    assert_eq!(ids, vec!["a", "b"]);
}
