use spinploy::listing::{
    all_composes, composes_named, find_compose_by_name, list_composes_with_prefix, retain_others,
    LookupError,
};
use spinploy::models::dokploy::{Compose, Environment, Project};

fn compose(id: &str, name: &str, env: &str) -> Compose {
    Compose {
        compose_id: id.to_string(),
        name: name.to_string(),
        app_name: format!("preview-{}", name),
        environment_id: env.to_string(),
        created_at: None,
        domains: vec![],
    }
}

fn environment(id: &str, composes: Vec<Compose>) -> Environment {
    Environment {
        environment_id: id.to_string(),
        name: id.to_string(),
        project_id: "p".to_string(),
        compose: composes,
    }
}

fn project(id: &str, environments: Vec<Environment>) -> Project {
    Project {
        project_id: id.to_string(),
        name: id.to_string(),
        organization_id: "org".to_string(),
        environments,
    }
}

fn listing() -> Vec<Project> {
    vec![
        project(
            "p1",
            vec![
                environment("e1", vec![compose("c1", "pr-1", "e1"), compose("c2", "pr-2", "e1")]),
                environment("e2", vec![compose("c3", "pr-3", "e2")]),
            ],
        ),
        project("p2", vec![]),
        project(
            "p3",
            vec![
                environment("e3", vec![]),
                environment("e1", vec![compose("c4", "pr-2", "e1"), compose("c5", "tool", "e1")]),
            ],
        ),
    ]
}

fn ids(found: &Vec<&Compose>) -> Vec<String> {
    found.iter().map(|c| c.compose_id.clone()).collect()
}

#[test]
fn all_composes_flattens_in_listing_order() {
    let projects = listing();
    assert_eq!(ids(&all_composes(&projects)), vec!["c1", "c2", "c3", "c4", "c5"]);
    assert_eq!(all_composes(&vec![]).len(), 0);
}

#[test]
fn composes_named_keeps_those_of_the_name() {
    let projects = listing();
    assert_eq!(ids(&composes_named(&projects, "pr-2")), vec!["c2", "c4"]);
    assert_eq!(ids(&composes_named(&projects, "pr-3")), vec!["c3"]);
    assert_eq!(composes_named(&projects, "pr-9").len(), 0);
}

#[test]
fn lookup_finds_none() {
    let projects = listing();
    assert_eq!(find_compose_by_name(&projects, "pr-1774"), Ok(None));
    assert_eq!(find_compose_by_name(&vec![], "pr-1"), Ok(None));
}

#[test]
fn lookup_finds_the_one() {
    let projects = listing();
    let found = find_compose_by_name(&projects, "pr-3").unwrap().unwrap();
    assert_eq!(found.compose_id, "c3");
    assert_eq!(*found, compose("c3", "pr-3", "e2"));
}

#[test]
fn lookup_refuses_to_guess() {
    let projects = listing();
    assert_eq!(
        find_compose_by_name(&projects, "pr-2"),
        Err(LookupError::AmbiguousIdentifier {
            compose_ids: vec!["c2".to_string(), "c4".to_string()]
        })
    );
}

#[test]
fn lookup_compares_whole_names() {
    let projects = listing();
    assert_eq!(find_compose_by_name(&projects, "pr-"), Ok(None));
    assert_eq!(find_compose_by_name(&projects, "PR-1"), Ok(None));
    assert_eq!(find_compose_by_name(&projects, "pr-10"), Ok(None));
}

#[test]
fn previews_are_those_of_the_environment_with_the_prefix() {
    let mut projects = listing();
    projects[2].environments[1].compose[1].app_name = "tool".to_string();
    assert_eq!(
        ids(&list_composes_with_prefix(&projects, "e1", "preview-")),
        vec!["c1", "c2", "c4"]
    );
    assert_eq!(ids(&list_composes_with_prefix(&projects, "e2", "preview-")), vec!["c3"]);
    assert_eq!(list_composes_with_prefix(&projects, "e9", "preview-").len(), 0);
    assert_eq!(
        ids(&list_composes_with_prefix(&projects, "e1", "")),
        vec!["c1", "c2", "c4", "c5"]
    );
}

#[test]
fn retain_others_drops_the_one_excluded() {
    let projects = listing();
    let all = all_composes(&projects);
    assert_eq!(ids(&retain_others(&all, "c3")), vec!["c1", "c2", "c4", "c5"]);
    assert_eq!(ids(&retain_others(&all, "zz")), vec!["c1", "c2", "c3", "c4", "c5"]);
}

#[test]
fn test_find_compose_id() {
    let projects = listing();
    let res = find_compose_by_name(&projects, "pr-1774");
    assert!(res.is_ok());
}
