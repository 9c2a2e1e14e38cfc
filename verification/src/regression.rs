//! Telling a regression from a failure that has been reported already.
//!
//! A failed build is worth an alert where its end-to-end test stage failed
//! and the same stage did not fail in the build before it. The builds before
//! it are looked at newest first; one that did not run the stage tells
//! nothing and the one before it is looked at. Where the history cannot be
//! read, the alert is sent: better one alert too many than a regression
//! that goes unseen.

use crate::text::{
    copy_text, eq_ignoring_ascii_case, same_text, same_text_ignoring_ascii_case, u64_to_string,
    decimal_text,
};
use vstd::prelude::*;

verus! {

/// One record of the timeline of a build.
#[derive(Debug, Clone, PartialEq, Eq)]
pub struct TimelineRecord {
    pub name: String,
    pub result: Option<String>,
}

/// A build, as far as it takes to find the builds before it.
#[derive(Debug, Clone, PartialEq, Eq)]
pub struct BuildRef {
    pub id: u64,
    pub definition_id: u64,
    pub source_branch: String,
}

/// What a timeline tells of a stage.
#[derive(Debug, Clone, Copy, PartialEq, Eq, Structural)]
pub enum StageOutcome {
    /// No record bears the name of the stage.
    Absent,
    /// The stage ran and no record of it reports a failure.
    Passed,
    /// A record of the stage reports a failure.
    Failed,
}

/// What was learnt of a build before the failing one.
#[derive(Debug, Clone, Copy, PartialEq, Eq, Structural)]
pub enum PriorOutcome {
    /// Its timeline was read, and tells this of the stage.
    Stage(StageOutcome),
    /// Its timeline could not be read.
    Unreadable,
}

/// Whether to raise the alert.
#[derive(Debug, Clone, Copy, PartialEq, Eq, Structural)]
pub enum Verdict {
    Alert,
    Suppress,
}

/// Whether a result is that of a failed build or stage.
pub open spec fn is_failure(result: Seq<char>) -> bool {
    eq_ignoring_ascii_case(result, "failed"@)
}

/// Whether a record reports that the stage failed.
pub open spec fn reports_failure(record: TimelineRecord, stage: Seq<char>) -> bool {
    record.name@ == stage && record.result is Some && is_failure(record.result->0@)
}

/// What a timeline tells of the stage.
pub open spec fn stage_outcome_of(records: Seq<TimelineRecord>, stage: Seq<char>) -> StageOutcome {
    if exists|i: int| 0 <= i < records.len() && reports_failure(#[trigger] records[i], stage) {
        StageOutcome::Failed
    } else if exists|i: int| 0 <= i < records.len() && (#[trigger] records[i]).name@ == stage {
        StageOutcome::Passed
    } else {
        StageOutcome::Absent
    }
}

/// Executable form of [`stage_outcome_of`].
pub fn stage_outcome(records: &Vec<TimelineRecord>, stage: &str) -> (r: StageOutcome)
    ensures
        r == stage_outcome_of(records@, stage@),
{
    let mut seen = false;
    let mut i: usize = 0;
    while i < records.len()
        invariant
            i <= records.len(),
            forall|j: int| 0 <= j < i ==> !reports_failure(#[trigger] records@[j], stage@),
            seen <==> exists|j: int| 0 <= j < i && (#[trigger] records@[j]).name@ == stage@,
        decreases records.len() - i,
    {
        let record = &records[i];
        if same_text(record.name.as_str(), stage) {
            let failed = match &record.result {
                Some(result) => same_text_ignoring_ascii_case(result.as_str(), "failed"),
                None => false,
            };
            if failed {
                assert(reports_failure(records@[i as int], stage@));
                return StageOutcome::Failed;
            }
            seen = true;
            assert(records@[i as int].name@ == stage@);
        }
        i += 1;
    }
    if seen {
        StageOutcome::Passed
    } else {
        StageOutcome::Absent
    }
}

/// Whether a build counts as one before the failing build: a build other
/// than it, of the same definition and the same source branch.
pub open spec fn is_prior(build: BuildRef, current: BuildRef) -> bool {
    build.id != current.id && build.definition_id == current.definition_id
        && build.source_branch@ == current.source_branch@
}

/// The identifiers of the builds before the failing one, in the order
/// listed.
pub open spec fn priors_of(builds: Seq<BuildRef>, current: BuildRef) -> Seq<u64>
    decreases builds.len(),
{
    if builds.len() == 0 {
        Seq::empty()
    } else if is_prior(builds.last(), current) {
        priors_of(builds.drop_last(), current).push(builds.last().id)
    } else {
        priors_of(builds.drop_last(), current)
    }
}

/// The builds to look at: of the builds before the failing one, the first
/// `window` in the order listed, which is newest first.
pub open spec fn window_of(builds: Seq<BuildRef>, current: BuildRef, window: nat) -> Seq<u64> {
    if priors_of(builds, current).len() <= window {
        priors_of(builds, current)
    } else {
        priors_of(builds, current).take(window as int)
    }
}

/// Executable form of [`window_of`].
pub fn prior_builds(builds: &Vec<BuildRef>, current: &BuildRef, window: usize) -> (r: Vec<u64>)
    ensures
        r@ == window_of(builds@, *current, window as nat),
{
    let mut all: Vec<u64> = Vec::new();
    let mut i: usize = 0;
    while i < builds.len()
        invariant
            i <= builds.len(),
            all@ == priors_of(builds@.take(i as int), *current),
        decreases builds.len() - i,
    {
        assert(builds@.take(i + 1).drop_last() =~= builds@.take(i as int));
        let b = &builds[i];
        if b.id != current.id && b.definition_id == current.definition_id && same_text(
            b.source_branch.as_str(),
            current.source_branch.as_str(),
        ) {
            all.push(b.id);
        }
        i += 1;
    }
    assert(builds@.take(i as int) =~= builds@);
    if all.len() > window {
        all.truncate(window);
    }
    all
}

/// What the walk through the builds before the failing one comes to, given
/// what was learnt of each, newest first. The first build that ran the stage
/// decides: the stage failed there too, and the failure has been reported;
/// it passed there, and this is a regression. A build that did not run the
/// stage is passed over. A timeline that cannot be read ends the walk with
/// the alert, and so does the end of the builds.
pub open spec fn walk_verdict(outcomes: Seq<PriorOutcome>) -> Verdict
    decreases outcomes.len(),
{
    if outcomes.len() == 0 {
        Verdict::Alert
    } else {
        match outcomes[0] {
            PriorOutcome::Stage(StageOutcome::Failed) => Verdict::Suppress,
            PriorOutcome::Stage(StageOutcome::Passed) => Verdict::Alert,
            PriorOutcome::Stage(StageOutcome::Absent) => walk_verdict(outcomes.drop_first()),
            PriorOutcome::Unreadable => Verdict::Alert,
        }
    }
}

/// Why an event is not followed up.
#[derive(Debug, Clone, Copy, PartialEq, Eq, Structural)]
pub enum Reason {
    /// The build did not fail, or whether it did could not be learnt.
    BuildDidNotFail,
    /// The stage did not fail in the build, or its timeline could not be
    /// read.
    StageDidNotFail,
    /// The stage failed in the build before as well.
    AlreadyReported,
}

/// Where the detection stands: which answer is awaited.
#[derive(Debug, Clone, PartialEq, Eq)]
pub enum DetectorState {
    /// Awaiting the build, whose result the event did not tell.
    AwaitingBuild,
    /// Awaiting the timeline of the failing build.
    AwaitingTimeline,
    /// Awaiting the list of recent builds.
    AwaitingBuilds,
    /// Awaiting the timeline of the first of the builds left to look at.
    Walking { remaining: Vec<u64> },
    /// The detection is over.
    Finished,
}

/// What came of the request that was made.
#[derive(Debug, Clone, PartialEq, Eq)]
pub enum DetectorEvent {
    /// The result of the build, if it has one.
    Build { result: Option<String> },
    /// The timeline that was asked for.
    Timeline(Vec<TimelineRecord>),
    /// The recent builds, newest first.
    Builds(Vec<BuildRef>),
    /// The request failed.
    Failed,
}

/// What the caller is to do next.
#[derive(Debug, Clone, PartialEq, Eq)]
pub enum DetectorAction {
    FetchBuild { build_id: u64 },
    FetchTimeline { build_id: u64 },
    /// List the most recent builds of the definition on the branch, `top`
    /// of them: as many as the walk may look at, and one more, for the
    /// failing build is among them.
    ListBuilds { definition_id: u64, source_branch: String, top: usize },
    /// Raise the alert; the detection is over.
    Alert,
    /// Do nothing more; the detection is over.
    Ignore(Reason),
}

/// What the detector looks for and how far back.
#[derive(Debug, Clone, PartialEq, Eq)]
pub struct DetectorConfig {
    /// The name of the end-to-end test stage.
    pub stage_name: String,
    /// How many builds before the failing one are looked at, at most.
    pub window: usize,
}

/// How many builds to ask for: the window and one more, as far as the
/// number goes.
pub open spec fn builds_to_list(window: usize) -> usize {
    if window == usize::MAX {
        usize::MAX
    } else {
        (window + 1) as usize
    }
}

/// The outcome that an event in the walk stands for.
pub open spec fn prior_outcome_of(event: DetectorEvent, stage: Seq<char>) -> Option<PriorOutcome> {
    match event {
        DetectorEvent::Timeline(records) => Some(
            PriorOutcome::Stage(stage_outcome_of(records@, stage)),
        ),
        DetectorEvent::Failed => Some(PriorOutcome::Unreadable),
        _ => None,
    }
}

/// Whether the state and action are those that follow when the builds left
/// to look at are `remaining`: the timeline of the first is asked for, and
/// where none is left the alert is raised.
pub open spec fn is_walk_on(remaining: Seq<u64>, next: DetectorState, action: DetectorAction) -> bool {
    if remaining.len() == 0 {
        next is Finished && action is Alert
    } else {
        &&& next matches DetectorState::Walking { remaining: r }
        &&& r@ == remaining
        &&& action == (DetectorAction::FetchTimeline { build_id: remaining[0] })
    }
}

/// The relation between a step of the detection and what it leads to.
pub open spec fn detector_transition(
    config: DetectorConfig,
    current: BuildRef,
    state: DetectorState,
    event: DetectorEvent,
    next: DetectorState,
    action: DetectorAction,
) -> bool {
    match (state, event) {
        (DetectorState::AwaitingBuild, DetectorEvent::Build { result }) => {
            if result is Some && is_failure(result->0@) {
                next is AwaitingTimeline && action == (DetectorAction::FetchTimeline {
                    build_id: current.id,
                })
            } else {
                next is Finished && action == DetectorAction::Ignore(Reason::BuildDidNotFail)
            }
        },
        (DetectorState::AwaitingBuild, _) => next is Finished && action == DetectorAction::Ignore(
            Reason::BuildDidNotFail,
        ),
        (DetectorState::AwaitingTimeline, DetectorEvent::Timeline(records)) => {
            if stage_outcome_of(records@, config.stage_name@) == StageOutcome::Failed {
                &&& next is AwaitingBuilds
                &&& action matches DetectorAction::ListBuilds { definition_id, source_branch, top }
                &&& definition_id == current.definition_id
                &&& source_branch@ == current.source_branch@
                &&& top == builds_to_list(config.window)
            } else {
                next is Finished && action == DetectorAction::Ignore(Reason::StageDidNotFail)
            }
        },
        (DetectorState::AwaitingTimeline, _) => next is Finished && action
            == DetectorAction::Ignore(Reason::StageDidNotFail),
        (DetectorState::AwaitingBuilds, DetectorEvent::Builds(builds)) => is_walk_on(
            window_of(builds@, current, config.window as nat),
            next,
            action,
        ),
        (DetectorState::AwaitingBuilds, _) => next is Finished && action is Alert,
        (DetectorState::Walking { remaining }, event) => {
            if remaining.len() == 0 {
                next is Finished && action is Alert
            } else {
                match prior_outcome_of(event, config.stage_name@) {
                    Some(PriorOutcome::Stage(StageOutcome::Failed)) => next is Finished && action
                        == DetectorAction::Ignore(Reason::AlreadyReported),
                    Some(PriorOutcome::Stage(StageOutcome::Passed)) => next is Finished
                        && action is Alert,
                    Some(PriorOutcome::Stage(StageOutcome::Absent)) => is_walk_on(
                        remaining@.drop_first(),
                        next,
                        action,
                    ),
                    Some(PriorOutcome::Unreadable) => next is Finished && action is Alert,
                    None => next is Finished && action is Alert,
                }
            }
        },
        (DetectorState::Finished, _) => next is Finished && action == DetectorAction::Ignore(
            Reason::BuildDidNotFail,
        ),
    }
}

/// Begins the detection for a completed build: where the event tells that
/// the build failed, its timeline is asked for; where it tells another
/// result, nothing is done; where it tells none, the build is asked for.
pub fn detector_start(build_id: u64, result: &Option<String>) -> (r: (DetectorState, DetectorAction))
    ensures
        match *result {
            Some(text) => {
                if is_failure(text@) {
                    r.0 is AwaitingTimeline && r.1 == (DetectorAction::FetchTimeline { build_id })
                } else {
                    r.0 is Finished && r.1 == DetectorAction::Ignore(Reason::BuildDidNotFail)
                }
            },
            None => r.0 is AwaitingBuild && r.1 == (DetectorAction::FetchBuild { build_id }),
        },
{
    match result {
        Some(text) => {
            if same_text_ignoring_ascii_case(text.as_str(), "failed") {
                (DetectorState::AwaitingTimeline, DetectorAction::FetchTimeline { build_id })
            } else {
                (DetectorState::Finished, DetectorAction::Ignore(Reason::BuildDidNotFail))
            }
        },
        None => (DetectorState::AwaitingBuild, DetectorAction::FetchBuild { build_id }),
    }
}

fn walk_on(remaining: Vec<u64>) -> (r: (DetectorState, DetectorAction))
    ensures
        is_walk_on(remaining@, r.0, r.1),
{
    if remaining.len() == 0 {
        (DetectorState::Finished, DetectorAction::Alert)
    } else {
        let build_id = remaining[0];
        (DetectorState::Walking { remaining }, DetectorAction::FetchTimeline { build_id })
    }
}

/// One step of the detection.
pub fn detector_step(
    config: &DetectorConfig,
    current: &BuildRef,
    state: DetectorState,
    event: DetectorEvent,
) -> (r: (DetectorState, DetectorAction))
    ensures
        detector_transition(*config, *current, state, event, r.0, r.1),
{
    let stage = config.stage_name.as_str();
    match (state, event) {
        (DetectorState::AwaitingBuild, DetectorEvent::Build { result }) => {
            let failed = match &result {
                Some(text) => same_text_ignoring_ascii_case(text.as_str(), "failed"),
                None => false,
            };
            if failed {
                (
                    DetectorState::AwaitingTimeline,
                    DetectorAction::FetchTimeline { build_id: current.id },
                )
            } else {
                (DetectorState::Finished, DetectorAction::Ignore(Reason::BuildDidNotFail))
            }
        },
        (DetectorState::AwaitingBuild, _) => (
            DetectorState::Finished,
            DetectorAction::Ignore(Reason::BuildDidNotFail),
        ),
        (DetectorState::AwaitingTimeline, DetectorEvent::Timeline(records)) => {
            match stage_outcome(&records, stage) {
                StageOutcome::Failed => (
                    DetectorState::AwaitingBuilds,
                    DetectorAction::ListBuilds {
                        definition_id: current.definition_id,
                        source_branch: copy_text(current.source_branch.as_str()),
                        top: config.window.saturating_add(1),
                    },
                ),
                _ => (DetectorState::Finished, DetectorAction::Ignore(Reason::StageDidNotFail)),
            }
        },
        (DetectorState::AwaitingTimeline, _) => (
            DetectorState::Finished,
            DetectorAction::Ignore(Reason::StageDidNotFail),
        ),
        (DetectorState::AwaitingBuilds, DetectorEvent::Builds(builds)) => walk_on(
            prior_builds(&builds, current, config.window),
        ),
        (DetectorState::AwaitingBuilds, _) => (DetectorState::Finished, DetectorAction::Alert),
        (DetectorState::Walking { remaining }, event) => {
            if remaining.len() == 0 {
                return (DetectorState::Finished, DetectorAction::Alert);
            }
            match event {
                DetectorEvent::Timeline(records) => match stage_outcome(&records, stage) {
                    StageOutcome::Failed => (
                        DetectorState::Finished,
                        DetectorAction::Ignore(Reason::AlreadyReported),
                    ),
                    StageOutcome::Passed => (DetectorState::Finished, DetectorAction::Alert),
                    StageOutcome::Absent => {
                        let mut rest = remaining;
                        rest.remove(0);
                        assert(rest@ =~= remaining@.drop_first());
                        walk_on(rest)
                    },
                },
                _ => (DetectorState::Finished, DetectorAction::Alert),
            }
        },
        (DetectorState::Finished, _) => (
            DetectorState::Finished,
            DetectorAction::Ignore(Reason::BuildDidNotFail),
        ),
    }
}

/// How much of the detection is left at most: the requests still to make.
pub open spec fn steps_left(state: DetectorState) -> nat {
    match state {
        DetectorState::AwaitingBuild => 4,
        DetectorState::AwaitingTimeline => 3,
        DetectorState::AwaitingBuilds => 2,
        DetectorState::Walking { .. } => 1,
        DetectorState::Finished => 0,
    }
}

/// The builds still to look at in a walk.
pub open spec fn builds_left(state: DetectorState) -> nat {
    match state {
        DetectorState::Walking { remaining } => remaining.len() as nat,
        _ => 0,
    }
}

/// The detection comes to an end: every step leads to a later stage or,
/// within the walk, leaves fewer builds to look at; and it is over exactly
/// when the alert is raised or the build is let be.
pub proof fn detection_comes_to_an_end(
    config: DetectorConfig,
    current: BuildRef,
    state: DetectorState,
    event: DetectorEvent,
    next: DetectorState,
    action: DetectorAction,
)
    requires
        detector_transition(config, current, state, event, next, action),
        !(state is Finished),
    ensures
        steps_left(next) < steps_left(state) || (steps_left(next) == steps_left(state)
            && builds_left(next) < builds_left(state)),
        next is Finished <==> (action is Alert || action is Ignore),
        state is Walking && next is Walking ==> builds_left(next) + 1 == builds_left(state),
{
}

/// The verdict that the end of a detection stands for, if it is one.
pub open spec fn verdict_in(action: DetectorAction) -> Option<Verdict> {
    match action {
        DetectorAction::Alert => Some(Verdict::Alert),
        DetectorAction::Ignore(Reason::AlreadyReported) => Some(Verdict::Suppress),
        _ => None,
    }
}

/// Whether an event tells the outcome `outcome` of a build of the walk.
pub open spec fn tells(event: DetectorEvent, stage: Seq<char>, outcome: PriorOutcome) -> bool {
    prior_outcome_of(event, stage) == Some(outcome)
}

/// The build just before the failing one decides where it ran the stage.
/// Where the stage failed there as well, the step of the walk ends the
/// detection without an alert; where it passed there, the step raises the
/// alert.
pub proof fn preceding_build_decides(
    config: DetectorConfig,
    current: BuildRef,
    remaining: Vec<u64>,
    event: DetectorEvent,
    next: DetectorState,
    action: DetectorAction,
)
    requires
        remaining.len() > 0,
        detector_transition(
            config,
            current,
            DetectorState::Walking { remaining },
            event,
            next,
            action,
        ),
    ensures
        tells(event, config.stage_name@, PriorOutcome::Stage(StageOutcome::Failed)) ==> next
            is Finished && verdict_in(action) == Some(Verdict::Suppress),
        tells(event, config.stage_name@, PriorOutcome::Stage(StageOutcome::Passed)) ==> next
            is Finished && verdict_in(action) == Some(Verdict::Alert),
        tells(event, config.stage_name@, PriorOutcome::Unreadable) ==> next is Finished
            && verdict_in(action) == Some(Verdict::Alert),
{
}

/// The same, of the walk as a whole: a failure of the stage in the build
/// just before suppresses the alert and a pass there raises it, whatever the
/// builds further back hold; and builds that did not run the stage count for
/// nothing.
pub proof fn walk_is_decided_by_first_run(outcomes: Seq<PriorOutcome>)
    ensures
        outcomes.len() > 0 && outcomes[0] == PriorOutcome::Stage(StageOutcome::Failed)
            ==> walk_verdict(outcomes) == Verdict::Suppress,
        outcomes.len() > 0 && outcomes[0] == PriorOutcome::Stage(StageOutcome::Passed)
            ==> walk_verdict(outcomes) == Verdict::Alert,
        outcomes.len() > 0 && outcomes[0] == PriorOutcome::Stage(StageOutcome::Absent)
            ==> walk_verdict(outcomes) == walk_verdict(outcomes.drop_first()),
        (forall|i: int| 0 <= i < outcomes.len() ==> #[trigger] outcomes[i] == PriorOutcome::Stage(
            StageOutcome::Absent,
        )) ==> walk_verdict(outcomes) == Verdict::Alert,
    decreases outcomes.len(),
{
    if outcomes.len() > 0 {
        walk_is_decided_by_first_run(outcomes.drop_first());
        if forall|i: int| 0 <= i < outcomes.len() ==> #[trigger] outcomes[i] == PriorOutcome::Stage(
            StageOutcome::Absent,
        ) {
            assert forall|i: int| 0 <= i < outcomes.drop_first().len() implies #[trigger] outcomes.drop_first()[i]
                == PriorOutcome::Stage(StageOutcome::Absent) by {
                assert(outcomes.drop_first()[i] == outcomes[i + 1]);
            }
        }
    }
}

/// Whether the three sequences are a run of the detection: each step leads
/// from one state to the next by the event reported, with the action taken.
pub open spec fn is_run(
    config: DetectorConfig,
    current: BuildRef,
    states: Seq<DetectorState>,
    events: Seq<DetectorEvent>,
    actions: Seq<DetectorAction>,
) -> bool {
    &&& states.len() == events.len() + 1
    &&& actions.len() == events.len()
    &&& forall|i: int|
        0 <= i < events.len() ==> detector_transition(
            config,
            current,
            #[trigger] states[i],
            events[i],
            states[i + 1],
            actions[i],
        )
}

/// A walk through the builds before the failing one ends as
/// [`walk_verdict`] says. Take a run that begins with builds left to look
/// at, in which each event tells the outcome of the next build, and which is
/// over with its last step and not before: its last action is the alert
/// where the verdict on the outcomes is to alert, and the end without an
/// alert where the verdict is to suppress it.
pub proof fn walk_ends_as_its_verdict(
    config: DetectorConfig,
    current: BuildRef,
    states: Seq<DetectorState>,
    events: Seq<DetectorEvent>,
    actions: Seq<DetectorAction>,
    outcomes: Seq<PriorOutcome>,
)
    requires
        is_run(config, current, states, events, actions),
        events.len() >= 1,
        states[0] matches DetectorState::Walking { remaining } && remaining.len() > 0,
        outcomes.len() == events.len(),
        forall|i: int|
            0 <= i < events.len() ==> tells(#[trigger] events[i], config.stage_name@, outcomes[i]),
        states.last() is Finished,
        forall|i: int| 0 <= i < events.len() ==> !(#[trigger] states[i] is Finished),
    ensures
        verdict_in(actions.last()) == Some(walk_verdict(outcomes)),
    decreases events.len(),
{
    assert(tells(events[0], config.stage_name@, outcomes[0]));
    assert(detector_transition(config, current, states[0], events[0], states[1], actions[0]));
    if events.len() == 1 {
        assert(states[1] == states.last());
        assert(walk_verdict(outcomes.drop_first()) == Verdict::Alert);
    } else {
        assert(!(states[1] is Finished));
        let rest_states = states.drop_first();
        let rest_events = events.drop_first();
        let rest_actions = actions.drop_first();
        let rest_outcomes = outcomes.drop_first();
        assert forall|i: int| 0 <= i < rest_events.len() implies detector_transition(
            config,
            current,
            #[trigger] rest_states[i],
            rest_events[i],
            rest_states[i + 1],
            rest_actions[i],
        ) by {
            assert(rest_states[i] == states[i + 1]);
        }
        assert forall|i: int| 0 <= i < rest_events.len() implies tells(
            #[trigger] rest_events[i],
            config.stage_name@,
            rest_outcomes[i],
        ) by {
            assert(rest_events[i] == events[i + 1]);
        }
        assert forall|i: int| 0 <= i < rest_events.len() implies !(
        #[trigger] rest_states[i] is Finished) by {
            assert(rest_states[i] == states[i + 1]);
        }
        assert(rest_states.last() == states.last());
        assert(rest_actions.last() == actions.last());
        walk_ends_as_its_verdict(
            config,
            current,
            rest_states,
            rest_events,
            rest_actions,
            rest_outcomes,
        );
    }
}

/// The name to give for the author of a commit: his own, or `unknown`
/// where it could not be learnt.
pub open spec fn author_text(author: Option<String>) -> Seq<char> {
    match author {
        Some(name) => name@,
        None => "unknown"@,
    }
}

/// The text of an alert: the build by number and identifier, the stage that
/// failed, the author of the failing commit, and where to look.
pub open spec fn alert_text(
    build_number: Seq<char>,
    build_id: u64,
    stage: Seq<char>,
    author: Option<String>,
    link: Seq<char>,
) -> Seq<char> {
    "Build "@ + build_number + " (#"@ + decimal_text(build_id as nat) + ") failed at stage "@
        + stage + ". Author: "@ + author_text(author) + ". "@ + link
}

/// Composes the text of an alert.
pub fn compose_alert(
    build_number: &str,
    build_id: u64,
    stage: &str,
    author: &Option<String>,
    link: &str,
) -> (r: String)
    ensures
        r@ == alert_text(build_number@, build_id, stage@, *author, link@),
{
    let mut r = copy_text("Build ");
    r.push_str(build_number);
    r.push_str(" (#");
    r.push_str(u64_to_string(build_id).as_str());
    r.push_str(") failed at stage ");
    r.push_str(stage);
    r.push_str(". Author: ");
    match author {
        Some(name) => r.push_str(name.as_str()),
        None => r.push_str("unknown"),
    }
    r.push_str(". ");
    r.push_str(link);
    r
}

} // verus!
