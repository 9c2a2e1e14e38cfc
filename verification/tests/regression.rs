use spinploy::regression::{
    compose_alert, detector_start, detector_step, prior_builds, stage_outcome, BuildRef,
    DetectorAction, DetectorConfig, DetectorEvent, DetectorState, Reason, StageOutcome,
    TimelineRecord,
};

fn record(name: &str, result: Option<&str>) -> TimelineRecord {
    TimelineRecord { name: name.to_string(), result: result.map(|s| s.to_string()) }
}

fn build(id: u64, definition_id: u64, branch: &str) -> BuildRef {
    BuildRef { id, definition_id, source_branch: branch.to_string() }
}

fn config() -> DetectorConfig {
    DetectorConfig { stage_name: "E2E".to_string(), window: 3 }
}

fn current() -> BuildRef {
    build(100, 7, "refs/heads/main")
}

fn failed_timeline() -> DetectorEvent {
    DetectorEvent::Timeline(vec![record("Build", Some("succeeded")), record("E2E", Some("failed"))])
}

fn passed_timeline() -> DetectorEvent {
    DetectorEvent::Timeline(vec![record("Build", Some("succeeded")), record("E2E", Some("succeeded"))])
}

fn stageless_timeline() -> DetectorEvent {
    DetectorEvent::Timeline(vec![record("Build", Some("failed"))])
}

fn walking(remaining: Vec<u64>) -> DetectorState {
    DetectorState::Walking { remaining }
}

#[test]
fn a_timeline_tells_whether_the_stage_failed() {
    assert_eq!(stage_outcome(&vec![], "E2E"), StageOutcome::Absent);
    assert_eq!(stage_outcome(&vec![record("Build", Some("failed"))], "E2E"), StageOutcome::Absent);
    assert_eq!(stage_outcome(&vec![record("E2E", Some("succeeded"))], "E2E"), StageOutcome::Passed);
    assert_eq!(stage_outcome(&vec![record("E2E", None)], "E2E"), StageOutcome::Passed);
    assert_eq!(stage_outcome(&vec![record("E2E", Some("failed"))], "E2E"), StageOutcome::Failed);
    assert_eq!(stage_outcome(&vec![record("E2E", Some("Failed"))], "E2E"), StageOutcome::Failed);
    assert_eq!(stage_outcome(&vec![record("e2e", Some("failed"))], "E2E"), StageOutcome::Absent);
    assert_eq!(
        stage_outcome(&vec![record("E2E", Some("succeeded")), record("E2E", Some("failed"))], "E2E"),
        StageOutcome::Failed
    );
}

#[test]
fn prior_builds_are_of_the_same_definition_and_branch() {
    let builds = vec![
        build(100, 7, "refs/heads/main"),
        build(99, 7, "refs/heads/main"),
        build(98, 8, "refs/heads/main"),
        build(97, 7, "refs/heads/dev"),
        build(96, 7, "refs/heads/main"),
        build(95, 7, "refs/heads/main"),
        build(94, 7, "refs/heads/main"),
    ];
    assert_eq!(prior_builds(&builds, &current(), 3), vec![99, 96, 95]);
    assert_eq!(prior_builds(&builds, &current(), 10), vec![99, 96, 95, 94]);
    assert_eq!(prior_builds(&builds, &current(), 0), Vec::<u64>::new());
    assert_eq!(prior_builds(&vec![], &current(), 3), Vec::<u64>::new());
    assert_eq!(prior_builds(&vec![current()], &current(), 3), Vec::<u64>::new());
}

#[test]
fn a_build_that_did_not_fail_is_not_followed_up() {
    assert_eq!(
        detector_start(100, &Some("succeeded".to_string())),
        (DetectorState::Finished, DetectorAction::Ignore(Reason::BuildDidNotFail))
    );
    assert_eq!(
        detector_start(100, &Some("canceled".to_string())),
        (DetectorState::Finished, DetectorAction::Ignore(Reason::BuildDidNotFail))
    );
}

#[test]
fn a_failed_build_has_its_timeline_fetched() {
    assert_eq!(
        detector_start(100, &Some("failed".to_string())),
        (DetectorState::AwaitingTimeline, DetectorAction::FetchTimeline { build_id: 100 })
    );
    assert_eq!(
        detector_start(100, &Some("Failed".to_string())),
        (DetectorState::AwaitingTimeline, DetectorAction::FetchTimeline { build_id: 100 })
    );
}

#[test]
fn a_build_without_a_result_is_fetched() {
    assert_eq!(
        detector_start(100, &None),
        (DetectorState::AwaitingBuild, DetectorAction::FetchBuild { build_id: 100 })
    );
    assert_eq!(
        detector_step(
            &config(),
            &current(),
            DetectorState::AwaitingBuild,
            DetectorEvent::Build { result: Some("failed".to_string()) }
        ),
        (DetectorState::AwaitingTimeline, DetectorAction::FetchTimeline { build_id: 100 })
    );
    assert_eq!(
        detector_step(
            &config(),
            &current(),
            DetectorState::AwaitingBuild,
            DetectorEvent::Build { result: None }
        ),
        (DetectorState::Finished, DetectorAction::Ignore(Reason::BuildDidNotFail))
    );
    assert_eq!(
        detector_step(&config(), &current(), DetectorState::AwaitingBuild, DetectorEvent::Failed),
        (DetectorState::Finished, DetectorAction::Ignore(Reason::BuildDidNotFail))
    );
}

#[test]
fn a_failure_outside_the_stage_is_no_regression() {
    assert_eq!(
        detector_step(&config(), &current(), DetectorState::AwaitingTimeline, stageless_timeline()),
        (DetectorState::Finished, DetectorAction::Ignore(Reason::StageDidNotFail))
    );
    assert_eq!(
        detector_step(&config(), &current(), DetectorState::AwaitingTimeline, passed_timeline()),
        (DetectorState::Finished, DetectorAction::Ignore(Reason::StageDidNotFail))
    );
    assert_eq!(
        detector_step(&config(), &current(), DetectorState::AwaitingTimeline, DetectorEvent::Failed),
        (DetectorState::Finished, DetectorAction::Ignore(Reason::StageDidNotFail))
    );
}

#[test]
fn a_failure_of_the_stage_has_the_history_listed() {
    assert_eq!(
        detector_step(&config(), &current(), DetectorState::AwaitingTimeline, failed_timeline()),
        (
            DetectorState::AwaitingBuilds,
            DetectorAction::ListBuilds {
                definition_id: 7,
                source_branch: "refs/heads/main".to_string(),
                top: 4
            }
        )
    );
}

#[test]
fn the_walk_begins_with_the_newest_prior_build() {
    let builds = vec![current(), build(99, 7, "refs/heads/main"), build(98, 7, "refs/heads/main")];
    assert_eq!(
        detector_step(
            &config(),
            &current(),
            DetectorState::AwaitingBuilds,
            DetectorEvent::Builds(builds)
        ),
        (walking(vec![99, 98]), DetectorAction::FetchTimeline { build_id: 99 })
    );
}

#[test]
fn a_preceding_failure_suppresses_the_alert() {
    assert_eq!(
        detector_step(&config(), &current(), walking(vec![99, 98]), failed_timeline()),
        (DetectorState::Finished, DetectorAction::Ignore(Reason::AlreadyReported))
    );
}

#[test]
fn a_preceding_pass_raises_the_alert() {
    assert_eq!(
        detector_step(&config(), &current(), walking(vec![99, 98]), passed_timeline()),
        (DetectorState::Finished, DetectorAction::Alert)
    );
}

#[test]
fn a_build_without_the_stage_is_passed_over() {
    let (state, action) =
        detector_step(&config(), &current(), walking(vec![99, 98, 97]), stageless_timeline());
    assert_eq!(state, walking(vec![98, 97]));
    assert_eq!(action, DetectorAction::FetchTimeline { build_id: 98 });
    let (state, action) = detector_step(&config(), &current(), state, stageless_timeline());
    assert_eq!(state, walking(vec![97]));
    assert_eq!(action, DetectorAction::FetchTimeline { build_id: 97 });
    assert_eq!(
        detector_step(&config(), &current(), state.clone(), failed_timeline()),
        (DetectorState::Finished, DetectorAction::Ignore(Reason::AlreadyReported))
    );
    assert_eq!(
        detector_step(&config(), &current(), state, stageless_timeline()),
        (DetectorState::Finished, DetectorAction::Alert)
    );
}

#[test]
fn a_history_that_cannot_be_read_raises_the_alert() {
    assert_eq!(
        detector_step(&config(), &current(), DetectorState::AwaitingBuilds, DetectorEvent::Failed),
        (DetectorState::Finished, DetectorAction::Alert)
    );
    assert_eq!(
        detector_step(
            &config(),
            &current(),
            DetectorState::AwaitingBuilds,
            DetectorEvent::Builds(vec![current()])
        ),
        (DetectorState::Finished, DetectorAction::Alert)
    );
    assert_eq!(
        detector_step(&config(), &current(), walking(vec![99, 98]), DetectorEvent::Failed),
        (DetectorState::Finished, DetectorAction::Alert)
    );
    assert_eq!(
        detector_step(&config(), &current(), walking(vec![]), failed_timeline()),
        (DetectorState::Finished, DetectorAction::Alert)
    );
}

#[test]
fn a_finished_detection_does_nothing_more() {
    assert_eq!(
        detector_step(&config(), &current(), DetectorState::Finished, failed_timeline()),
        (DetectorState::Finished, DetectorAction::Ignore(Reason::BuildDidNotFail))
    );
}

#[test]
fn the_alert_names_build_stage_author_and_link() {
    assert_eq!(
        compose_alert(
            "20240101.3",
            100,
            "E2E",
            &Some("Ada".to_string()),
            "https://dev.azure.com/org/p/_build/results?buildId=100"
        ),
        "Build 20240101.3 (#100) failed at stage E2E. Author: Ada. https://dev.azure.com/org/p/_build/results?buildId=100"
    );
    assert_eq!(
        compose_alert("7", 1, "E2E", &None, "link"),
        "Build 7 (#1) failed at stage E2E. Author: unknown. link"
    );
}

#[test]
fn the_listing_asks_for_one_build_more_than_the_window() {
    let wide = DetectorConfig { stage_name: "E2E".to_string(), window: usize::MAX };
    let (_, action) =
        detector_step(&wide, &current(), DetectorState::AwaitingTimeline, failed_timeline());
    assert_eq!(
        action,
        DetectorAction::ListBuilds {
            definition_id: 7,
            source_branch: "refs/heads/main".to_string(),
            top: usize::MAX
        }
    );
}
