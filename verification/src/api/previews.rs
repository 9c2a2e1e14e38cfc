//! Describing previews: what state one is in, where it is reached, what its
//! containers are and how long its deployments took.

use crate::api::types::{
    ContainerSummary, DeploymentInfo, PreviewDetailResponse, PreviewStatus, PreviewSummary,
};
use crate::config::Config;
use crate::docker_client::ContainerInfo;
use crate::identifier::{parse_preview_identifier, pr_number_of};
use crate::models::dokploy::{Compose, ComposeDetail, Deployment, Domain};
use crate::order::{precedes, select_first, SortKey};
use crate::text::{
    chars_less, chars_of, copy_opt_text, copy_text, is_char, lemma_text_less_irreflexive,
    lemma_text_less_transitive, lemma_text_not_less_transitive, opt_text, opt_text_less, same_text, split, split_on,
    trim_front, trim_start_char,
};
use crate::timestamp::{
    calculate_duration, duration_from, instant_of_opt, measured_between,
};
use vstd::prelude::*;

verus! {

/// How the logs of a container are to be streamed.
#[derive(Debug, Clone, Copy, PartialEq, Eq, Structural)]
pub struct LogParams {
    /// How many lines of history to begin with; zero for all of it.
    pub tail: usize,
    /// Whether to keep waiting for new lines.
    pub follow: bool,
}

/// The lines of history streamed where the request names no number.
pub fn default_tail() -> (r: usize)
    ensures
        r == 100,
{
    100
}

/// Whether a stream waits for new lines where the request does not say.
pub fn default_follow() -> (r: bool)
    ensures
        r,
{
    true
}

impl Default for LogParams {
    fn default() -> (r: Self)
        ensures
            r.tail == 100,
            r.follow,
    {
        LogParams { tail: default_tail(), follow: default_follow() }
    }
}

/// The name of the container that runs a service of a preview: the
/// application name, the service and the replica number `1`, hyphenated.
pub open spec fn container_name_of(app_name: Seq<char>, service: Seq<char>) -> Seq<char> {
    app_name + "-"@ + service + "-1"@
}

/// The name of the container that runs a service of a preview.
pub fn get_container_name(app_name: &str, service: &str) -> (r: String)
    ensures
        r@ == container_name_of(app_name@, service@),
{
    let mut r = copy_text(app_name);
    r.push_str("-");
    r.push_str(service);
    r.push_str("-1");
    r
}

/// The address of a pull request in the source-control service.
pub open spec fn pr_url_of(config: Config, pr_id: Seq<char>) -> Seq<char> {
    "https://dev.azure.com/"@ + config.azdo_org@ + "/"@ + config.azdo_project@ + "/_git/"@
        + config.azdo_repository_id@ + "/pullrequest/"@ + pr_id
}

/// The address of a pull request in the source-control service.
pub fn build_pr_url(config: &Config, pr_id: &str) -> (r: String)
    ensures
        r@ == pr_url_of(*config, pr_id@),
{
    let mut r = copy_text("https://dev.azure.com/");
    r.push_str(config.azdo_org.as_str());
    r.push_str("/");
    r.push_str(config.azdo_project.as_str());
    r.push_str("/_git/");
    r.push_str(config.azdo_repository_id.as_str());
    r.push_str("/pullrequest/");
    r.push_str(pr_id);
    r
}

/// What the deployment history alone tells of the state of a preview. The
/// status of the most recent deployment decides where it is one of the three
/// known; where it has no status, a deployment that has started and has not
/// finished is being built. Otherwise the history does not tell.
pub open spec fn status_from_history_of(deployments: Seq<Deployment>) -> Option<PreviewStatus> {
    if deployments.len() == 0 {
        None
    } else {
        let latest = deployments[0];
        match latest.status {
            Some(status) => {
                if status@ == "error"@ {
                    Some(PreviewStatus::Failed)
                } else if status@ == "running"@ {
                    Some(PreviewStatus::Building)
                } else if status@ == "done"@ {
                    Some(PreviewStatus::Running)
                } else {
                    None
                }
            },
            None => {
                if latest.finished_at is None && latest.started_at is Some {
                    Some(PreviewStatus::Building)
                } else {
                    None
                }
            },
        }
    }
}

/// Executable form of [`status_from_history_of`].
pub fn status_from_history(deployments: &Vec<Deployment>) -> (r: Option<PreviewStatus>)
    ensures
        r == status_from_history_of(deployments@),
{
    if deployments.len() == 0 {
        return None;
    }
    let latest = &deployments[0];
    match &latest.status {
        Some(status) => {
            if same_text(status.as_str(), "error") {
                Some(PreviewStatus::Failed)
            } else if same_text(status.as_str(), "running") {
                Some(PreviewStatus::Building)
            } else if same_text(status.as_str(), "done") {
                Some(PreviewStatus::Running)
            } else {
                None
            }
        },
        None => {
            if latest.finished_at.is_none() && latest.started_at.is_some() {
                Some(PreviewStatus::Building)
            } else {
                None
            }
        },
    }
}

/// What came of asking the container runtime for the containers of a
/// preview.
#[derive(Debug, Clone, PartialEq, Eq)]
pub enum ContainerProbe {
    /// There is no container runtime to ask.
    Unavailable,
    /// The runtime was asked and failed.
    Failed,
    /// The containers it listed.
    Listed(Vec<ContainerInfo>),
}

/// Whether every container is running.
pub open spec fn all_running(containers: Seq<ContainerInfo>) -> bool {
    forall|i: int| 0 <= i < containers.len() ==> (#[trigger] containers[i]).state@ == "running"@
}

/// What the containers tell of the state of a preview: none, nothing; all
/// running, that it runs; otherwise, that it has failed. Where the runtime
/// failed nothing is known, and where there is none to ask, a preview that
/// has been deployed at all is taken to run.
pub open spec fn status_from_probe_of(probe: ContainerProbe, deployed: bool) -> PreviewStatus {
    match probe {
        ContainerProbe::Listed(containers) => {
            if containers.len() == 0 {
                PreviewStatus::Unknown
            } else if all_running(containers@) {
                PreviewStatus::Running
            } else {
                PreviewStatus::Failed
            }
        },
        ContainerProbe::Failed => PreviewStatus::Unknown,
        ContainerProbe::Unavailable => {
            if deployed {
                PreviewStatus::Running
            } else {
                PreviewStatus::Unknown
            }
        },
    }
}

/// The state of a preview: what its deployment history tells, and where that
/// does not tell, what its containers do.
pub open spec fn preview_status_of(deployments: Seq<Deployment>, probe: ContainerProbe) -> PreviewStatus {
    match status_from_history_of(deployments) {
        Some(status) => status,
        None => status_from_probe_of(probe, deployments.len() > 0),
    }
}

/// Executable form of [`all_running`].
pub fn every_running(containers: &Vec<ContainerInfo>) -> (r: bool)
    ensures
        r == all_running(containers@),
{
    let mut i: usize = 0;
    while i < containers.len()
        invariant
            i <= containers.len(),
            forall|j: int| 0 <= j < i ==> (#[trigger] containers@[j]).state@ == "running"@,
        decreases containers.len() - i,
    {
        if !same_text(containers[i].state.as_str(), "running") {
            assert(containers@[i as int].state@ != "running"@);
            return false;
        }
        i += 1;
    }
    true
}

/// Executable form of [`status_from_probe_of`].
pub fn status_from_probe(probe: &ContainerProbe, deployed: bool) -> (r: PreviewStatus)
    ensures
        r == status_from_probe_of(*probe, deployed),
{
    match probe {
        ContainerProbe::Listed(containers) => {
            if containers.len() == 0 {
                PreviewStatus::Unknown
            } else if every_running(containers) {
                PreviewStatus::Running
            } else {
                PreviewStatus::Failed
            }
        },
        ContainerProbe::Failed => PreviewStatus::Unknown,
        ContainerProbe::Unavailable => {
            if deployed {
                PreviewStatus::Running
            } else {
                PreviewStatus::Unknown
            }
        },
    }
}

/// The state of a preview.
pub fn determine_preview_status(compose_detail: &ComposeDetail, probe: &ContainerProbe) -> (r:
    PreviewStatus)
    ensures
        r == preview_status_of(compose_detail.deployments@, *probe),
{
    match status_from_history(&compose_detail.deployments) {
        Some(status) => status,
        None => status_from_probe(probe, compose_detail.deployments.len() > 0),
    }
}

/// When a preview was last deployed, as the platform wrote it: when its
/// most recent deployment finished or, failing that, started or, failing
/// that, was created.
pub open spec fn last_deployed_at_of(deployments: Seq<Deployment>) -> Option<Seq<char>> {
    if deployments.len() == 0 {
        None
    } else if deployments[0].finished_at is Some {
        opt_text(deployments[0].finished_at)
    } else if deployments[0].started_at is Some {
        opt_text(deployments[0].started_at)
    } else {
        opt_text(deployments[0].created_at)
    }
}

/// Executable form of [`last_deployed_at_of`].
pub fn last_deployed_at(deployments: &Vec<Deployment>) -> (r: Option<String>)
    ensures
        opt_text(r) == last_deployed_at_of(deployments@),
{
    if deployments.len() == 0 {
        return None;
    }
    let latest = &deployments[0];
    if latest.finished_at.is_some() {
        copy_opt_text(&latest.finished_at)
    } else if latest.started_at.is_some() {
        copy_opt_text(&latest.started_at)
    } else {
        copy_opt_text(&latest.created_at)
    }
}

/// The address under which a service is reached: `https://` and the
/// hostname of the first domain bound to the service, if there is one.
pub open spec fn service_url_of(domains: Seq<Domain>, service_name: Seq<char>) -> Option<Seq<char>>
    decreases domains.len(),
{
    if domains.len() == 0 {
        None
    } else if domains[0].service_name@ == service_name {
        Some("https://"@ + domains[0].host@)
    } else {
        service_url_of(domains.drop_first(), service_name)
    }
}

/// Executable form of [`service_url_of`].
pub fn service_url(domains: &Vec<Domain>, service_name: &str) -> (r: Option<String>)
    ensures
        opt_text(r) == service_url_of(domains@, service_name@),
{
    let mut i: usize = 0;
    assert(domains@.skip(0) =~= domains@);
    while i < domains.len()
        invariant
            i <= domains.len(),
            service_url_of(domains@, service_name@) == service_url_of(
                domains@.skip(i as int),
                service_name@,
            ),
        decreases domains.len() - i,
    {
        assert(domains@.skip(i as int)[0] == domains@[i as int]);
        assert(domains@.skip(i as int).drop_first() =~= domains@.skip(i + 1));
        if same_text(domains[i].service_name.as_str(), service_name) {
            let mut url = copy_text("https://");
            url.push_str(domains[i].host.as_str());
            return Some(url);
        }
        i += 1;
    }
    None
}

/// The service that a container runs, read off its name: of the pieces
/// that the name, without the slashes before it, falls into at its hyphens,
/// the last but one; `unknown` where there are fewer than four pieces.
pub open spec fn service_in_name(name: Seq<char>) -> Seq<char> {
    let parts = split_on(trim_front(name, is_char('/')), '-');
    if parts.len() >= 4 {
        parts[parts.len() - 2]
    } else {
        "unknown"@
    }
}

/// Executable form of [`service_in_name`].
pub fn service_of_container_name(name: &str) -> (r: String)
    ensures
        r@ == service_in_name(name@),
{
    let trimmed = trim_start_char(name, '/');
    let parts = split(trimmed.as_str(), '-');
    if parts.len() >= 4 {
        copy_text(parts[parts.len() - 2].as_str())
    } else {
        copy_text("unknown")
    }
}

/// The name a container goes by: the first of its names or, where it has
/// none, its identifier, without the slashes before it.
pub open spec fn display_name_of(container: ContainerInfo) -> Seq<char> {
    if container.names.len() > 0 {
        trim_front(container.names[0]@, is_char('/'))
    } else {
        trim_front(container.id@, is_char('/'))
    }
}

/// The service a container runs; `unknown` where it has no name.
pub open spec fn service_of(container: ContainerInfo) -> Seq<char> {
    if container.names.len() > 0 {
        service_in_name(container.names[0]@)
    } else {
        "unknown"@
    }
}

/// Whether the summary is that of the container.
pub open spec fn summarizes(summary: ContainerSummary, container: ContainerInfo) -> bool {
    &&& summary.name@ == display_name_of(container)
    &&& summary.service@ == service_of(container)
    &&& summary.state@ == container.state@
}

/// The summary of a container.
pub fn container_summary(container: &ContainerInfo) -> (r: ContainerSummary)
    ensures
        summarizes(r, *container),
{
    if container.names.len() > 0 {
        ContainerSummary {
            name: trim_start_char(container.names[0].as_str(), '/'),
            service: service_of_container_name(container.names[0].as_str()),
            state: copy_text(container.state.as_str()),
        }
    } else {
        ContainerSummary {
            name: trim_start_char(container.id.as_str(), '/'),
            service: copy_text("unknown"),
            state: copy_text(container.state.as_str()),
        }
    }
}

/// The containers to show for what the runtime answered: those it listed,
/// none where it failed or is not there.
pub open spec fn probed_containers(probe: ContainerProbe) -> Seq<ContainerInfo> {
    match probe {
        ContainerProbe::Listed(containers) => containers@,
        _ => Seq::empty(),
    }
}

/// The summaries of the containers of a preview, in the order listed.
pub fn container_summaries(probe: &ContainerProbe) -> (r: Vec<ContainerSummary>)
    ensures
        r.len() == probed_containers(*probe).len(),
        forall|i: int|
            0 <= i < r.len() ==> summarizes(#[trigger] r@[i], probed_containers(*probe)[i]),
{
    let mut r: Vec<ContainerSummary> = Vec::new();
    match probe {
        ContainerProbe::Listed(containers) => {
            let mut i: usize = 0;
            while i < containers.len()
                invariant
                    i <= containers.len(),
                    r.len() == i,
                    forall|j: int| 0 <= j < i ==> summarizes(#[trigger] r@[j], containers@[j]),
                decreases containers.len() - i,
            {
                r.push(container_summary(&containers[i]));
                i += 1;
            }
        },
        _ => {},
    }
    r
}

/// Whether the entry describes the deployment: the same texts, and the
/// duration from its start to its finish.
pub open spec fn describes(info: DeploymentInfo, deployment: Deployment) -> bool {
    &&& info.deployment_id@ == deployment.deployment_id@
    &&& opt_text(info.status) == opt_text(deployment.status)
    &&& opt_text(info.created_at) == opt_text(deployment.created_at)
    &&& opt_text(info.started_at) == opt_text(deployment.started_at)
    &&& opt_text(info.finished_at) == opt_text(deployment.finished_at)
    &&& info.duration_seconds == duration_from(
        instant_of_opt(deployment.started_at),
        instant_of_opt(deployment.finished_at),
        measured_between(
            instant_of_opt(deployment.started_at),
            instant_of_opt(deployment.finished_at),
        ),
    )
}

/// The deployment history of a preview, each attempt with its duration.
pub fn deployment_infos(deployments: &Vec<Deployment>) -> (r: Vec<DeploymentInfo>)
    ensures
        r.len() == deployments.len(),
        forall|i: int| 0 <= i < r.len() ==> describes(#[trigger] r@[i], deployments@[i]),
{
    let mut r: Vec<DeploymentInfo> = Vec::new();
    let mut i: usize = 0;
    while i < deployments.len()
        invariant
            i <= deployments.len(),
            r.len() == i,
            forall|j: int| 0 <= j < i ==> describes(#[trigger] r@[j], deployments@[j]),
        decreases deployments.len() - i,
    {
        let d = &deployments[i];
        r.push(
            DeploymentInfo {
                deployment_id: copy_text(d.deployment_id.as_str()),
                status: copy_opt_text(&d.status),
                created_at: copy_opt_text(&d.created_at),
                started_at: copy_opt_text(&d.started_at),
                finished_at: copy_opt_text(&d.finished_at),
                duration_seconds: calculate_duration(&d.started_at, &d.finished_at),
            },
        );
        i += 1;
    }
    r
}

/// The deployments that are known of a preview: those of its detail, none
/// where the detail could not be had.
pub open spec fn known_deployments(detail: Option<ComposeDetail>) -> Seq<Deployment> {
    match detail {
        Some(d) => d.deployments@,
        None => Seq::empty(),
    }
}

/// The state to show for a preview: unknown where its detail could not be
/// had, and what history and containers tell otherwise.
pub open spec fn shown_status(detail: Option<ComposeDetail>, probe: ContainerProbe) -> PreviewStatus {
    match detail {
        Some(d) => preview_status_of(d.deployments@, probe),
        None => PreviewStatus::Unknown,
    }
}

/// The address of the pull request that an identifier names, if it names one.
pub open spec fn pr_url_for(config: Config, identifier: Seq<char>) -> Option<Seq<char>> {
    match pr_number_of(identifier) {
        Some(number) => Some(pr_url_of(config, number)),
        None => None,
    }
}

/// Whether the summary is that of the preview, given its compose resource,
/// its detail if that could be had, its domains and what the container
/// runtime answered.
pub open spec fn is_summary_of(
    summary: PreviewSummary,
    config: Config,
    compose: Compose,
    detail: Option<ComposeDetail>,
    domains: Seq<Domain>,
    probe: ContainerProbe,
) -> bool {
    &&& summary.identifier@ == compose.name@
    &&& summary.compose_id@ == compose.compose_id@
    &&& opt_text(summary.pr_id) == pr_number_of(compose.name@)
    &&& summary.branch@ == compose.name@
    &&& summary.status == shown_status(detail, probe)
    &&& opt_text(summary.created_at) == opt_text(compose.created_at)
    &&& opt_text(summary.last_deployed_at) == last_deployed_at_of(known_deployments(detail))
    &&& opt_text(summary.frontend_url) == service_url_of(domains, config.frontend_service_name@)
    &&& opt_text(summary.backend_url) == service_url_of(domains, config.backend_service_name@)
    &&& opt_text(summary.pr_url) == pr_url_for(config, compose.name@)
    &&& summary.containers.len() == probed_containers(probe).len()
    &&& forall|i: int|
        0 <= i < summary.containers.len() ==> summarizes(
            #[trigger] summary.containers@[i],
            probed_containers(probe)[i],
        )
}

/// The summary of a preview.
pub fn preview_summary(
    config: &Config,
    compose: &Compose,
    detail: &Option<ComposeDetail>,
    domains: &Vec<Domain>,
    probe: &ContainerProbe,
) -> (r: PreviewSummary)
    ensures
        is_summary_of(r, *config, *compose, *detail, domains@, *probe),
{
    let (pr_id, identifier) = parse_preview_identifier(compose.name.as_str());
    let status = match detail {
        Some(d) => determine_preview_status(d, probe),
        None => PreviewStatus::Unknown,
    };
    let last = match detail {
        Some(d) => last_deployed_at(&d.deployments),
        None => None,
    };
    let pr_url = match &pr_id {
        Some(number) => Some(build_pr_url(config, number.as_str())),
        None => None,
    };
    PreviewSummary {
        identifier,
        compose_id: copy_text(compose.compose_id.as_str()),
        pr_id,
        branch: copy_text(compose.name.as_str()),
        status,
        created_at: copy_opt_text(&compose.created_at),
        last_deployed_at: last,
        frontend_url: service_url(domains, config.frontend_service_name.as_str()),
        backend_url: service_url(domains, config.backend_service_name.as_str()),
        pr_url,
        containers: container_summaries(probe),
    }
}

/// The detailed description of a preview: its summary and its deployment
/// history.
pub fn preview_detail(
    config: &Config,
    compose: &Compose,
    detail: &ComposeDetail,
    domains: &Vec<Domain>,
    probe: &ContainerProbe,
) -> (r: PreviewDetailResponse)
    ensures
        r.summary.identifier@ == compose.name@,
        r.summary.compose_id@ == compose.compose_id@,
        opt_text(r.summary.pr_id) == pr_number_of(compose.name@),
        r.summary.branch@ == compose.name@,
        r.summary.status == preview_status_of(detail.deployments@, *probe),
        opt_text(r.summary.created_at) == opt_text(compose.created_at),
        opt_text(r.summary.last_deployed_at) == last_deployed_at_of(detail.deployments@),
        opt_text(r.summary.frontend_url) == service_url_of(
            domains@,
            config.frontend_service_name@,
        ),
        opt_text(r.summary.backend_url) == service_url_of(domains@, config.backend_service_name@),
        opt_text(r.summary.pr_url) == pr_url_for(*config, compose.name@),
        r.summary.containers.len() == probed_containers(*probe).len(),
        forall|i: int|
            0 <= i < r.summary.containers.len() ==> summarizes(
                #[trigger] r.summary.containers@[i],
                probed_containers(*probe)[i],
            ),
        r.deployments.len() == detail.deployments.len(),
        forall|i: int|
            0 <= i < r.deployments.len() ==> describes(
                #[trigger] r.deployments@[i],
                detail.deployments@[i],
            ),
{
    let (pr_id, identifier) = parse_preview_identifier(compose.name.as_str());
    let pr_url = match &pr_id {
        Some(number) => Some(build_pr_url(config, number.as_str())),
        None => None,
    };
    let summary = PreviewSummary {
        identifier,
        compose_id: copy_text(compose.compose_id.as_str()),
        pr_id,
        branch: copy_text(compose.name.as_str()),
        status: determine_preview_status(detail, probe),
        created_at: copy_opt_text(&compose.created_at),
        last_deployed_at: last_deployed_at(&detail.deployments),
        frontend_url: service_url(domains, config.frontend_service_name.as_str()),
        backend_url: service_url(domains, config.backend_service_name.as_str()),
        pr_url,
        containers: container_summaries(probe),
    };
    PreviewDetailResponse { summary, deployments: deployment_infos(&detail.deployments) }
}

/// The instant by which a preview is placed in a listing, as text: when it
/// was last deployed or, failing that, when it was created.
pub open spec fn recency_of(summary: PreviewSummary) -> Option<Seq<char>> {
    if summary.last_deployed_at is Some {
        opt_text(summary.last_deployed_at)
    } else {
        opt_text(summary.created_at)
    }
}

/// Whether the preview at `i` is listed before the one at `j`: the one with
/// the later instant is, and of two with the same instant the one that came
/// first. Instants are compared as the texts they are.
pub open spec fn listed_before(previews: Seq<PreviewSummary>, i: int, j: int) -> bool {
    opt_text_less(recency_of(previews[j]), recency_of(previews[i])) || (!opt_text_less(
        recency_of(previews[i]),
        recency_of(previews[j]),
    ) && i < j)
}

/// Whether `order` lists every position of `previews` in the order of
/// [`listed_before`].
pub open spec fn is_newest_first(previews: Seq<PreviewSummary>, order: Seq<usize>) -> bool {
    &&& order.len() == previews.len()
    &&& forall|a: int| 0 <= a < order.len() ==> (#[trigger] order[a]) < previews.len()
    &&& forall|j: int| 0 <= j < previews.len() ==> order.contains(#[trigger] (j as usize))
    &&& forall|a: int, b: int|
        0 <= a < b < order.len() ==> listed_before(previews, order[a] as int, order[b] as int)
}

/// The key that places a preview in a listing.
pub struct RecencyKey {
    pub text: Option<Vec<char>>,
}

impl RecencyKey {
    /// The text of the key.
    pub open spec fn view(&self) -> Option<Seq<char>> {
        match self.text {
            Some(chars) => Some(chars@),
            None => None,
        }
    }
}

impl SortKey for RecencyKey {
    open spec fn sorts_before(&self, other: &Self) -> bool {
        opt_text_less(other@, self@)
    }

    fn is_before(&self, other: &Self) -> (r: bool) {
        match (&other.text, &self.text) {
            (None, Some(_)) => true,
            (Some(x), Some(y)) => chars_less(x, y),
            _ => false,
        }
    }

    proof fn lemma_irreflexive(a: &Self) {
        if a@ is Some {
            lemma_text_less_irreflexive(a@->0);
        }
    }

    proof fn lemma_transitive(a: &Self, b: &Self, c: &Self) {
        if a@ is Some && b@ is Some && c@ is Some {
            lemma_text_less_transitive(c@->0, b@->0, a@->0);
        }
    }

    proof fn lemma_alike_transitive(a: &Self, b: &Self, c: &Self) {
        if a@ is Some && b@ is Some && c@ is Some {
            lemma_text_not_less_transitive(c@->0, b@->0, a@->0);
        }
    }
}

/// The key of a preview.
pub fn recency_key(summary: &PreviewSummary) -> (r: RecencyKey)
    ensures
        r@ == recency_of(*summary),
{
    let text = match &summary.last_deployed_at {
        Some(t) => Some(chars_of(t.as_str())),
        None => match &summary.created_at {
            Some(t) => Some(chars_of(t.as_str())),
            None => None,
        },
    };
    RecencyKey { text }
}

/// The order in which to list the previews: the most recently deployed
/// first, and previews of the same instant in the order they came in.
pub fn newest_first_order(previews: &Vec<PreviewSummary>) -> (order: Vec<usize>)
    ensures
        is_newest_first(previews@, order@),
{
    let mut keys: Vec<RecencyKey> = Vec::new();
    let mut i: usize = 0;
    while i < previews.len()
        invariant
            i <= previews.len(),
            keys.len() == i,
            forall|j: int| 0 <= j < i ==> (#[trigger] keys@[j])@ == recency_of(previews@[j]),
        decreases previews.len() - i,
    {
        keys.push(recency_key(&previews[i]));
        i += 1;
    }
    let order = select_first(&keys, keys.len());
    proof {
        assert forall|a: int, b: int| 0 <= a < b < order.len() implies listed_before(
            previews@,
            order@[a] as int,
            order@[b] as int,
        ) by {
            assert(precedes(keys@, order@[a] as int, order@[b] as int));
        }
    }
    order
}

/// The previews in the order in which to list them.
pub fn sort_previews(previews: Vec<PreviewSummary>) -> (r: Vec<PreviewSummary>)
    ensures
        r.len() == previews.len(),
        exists|order: Seq<usize>|
            #![auto]
            is_newest_first(previews@, order) && forall|a: int|
                0 <= a < r.len() ==> r@[a] == previews@[order[a] as int],
{
    let order = newest_first_order(&previews);
    let n = previews.len();
    let ghost given = previews@;
    let mut rest = previews;
    // The previews are taken out of the vector last first.
    let mut slots: Vec<Option<PreviewSummary>> = Vec::new();
    while rest.len() > 0
        invariant
            rest.len() + slots.len() == n,
            n == given.len(),
            rest@ == given.take(rest.len() as int),
            forall|k: int|
                0 <= k < slots.len() ==> (#[trigger] slots@[k]) == Some(given[n - 1 - k]),
        decreases rest.len(),
    {
        let item = rest.pop();
        slots.push(item);
    }
    let mut r: Vec<PreviewSummary> = Vec::new();
    let mut a: usize = 0;
    while a < n
        invariant
            a <= n,
            n == given.len(),
            slots.len() == n,
            r.len() == a,
            is_newest_first(given, order@),
            forall|b: int| 0 <= b < a ==> r@[b] == given[order@[b] as int],
            forall|k: int|
                0 <= k < n ==> (#[trigger] slots@[k]) == Some(given[n - 1 - k]) || (exists|b: int|
                    0 <= b < a && order@[b] == n - 1 - k),
        decreases n - a,
    {
        let at = n - 1 - order[a];
        let mut taken: Option<PreviewSummary> = None;
        let ghost before = slots@;
        core::mem::swap(&mut slots[at], &mut taken);
        proof {
            assert(taken == before[at as int]);
            assert(slots@ =~= before.update(at as int, None));
            // No position is listed twice, so this one has not been taken.
            assert forall|b: int| 0 <= b < a implies order@[b] != order@[a as int] by {
                assert(listed_before(given, order@[b] as int, order@[a as int] as int));
                let key = recency_of(given[order@[a as int] as int]);
                if key is Some {
                    lemma_text_less_irreflexive(key->0);
                }
            }
            assert(before[at as int] == Some(given[n - 1 - at]));
        }
        match taken {
            Some(item) => {
                r.push(item);
            },
            None => {},
        }
        proof {
            assert forall|k: int| 0 <= k < n implies (#[trigger] slots@[k]) == Some(
                given[n - 1 - k],
            ) || (exists|b: int| 0 <= b < a + 1 && order@[b] == n - 1 - k) by {
                if k == at {
                    assert(order@[a as int] == n - 1 - k);
                } else {
                    assert(slots@[k] == before[k]);
                    if before[k] != Some(given[n - 1 - k]) {
                        let b = choose|b: int| 0 <= b < a && order@[b] == n - 1 - k;
                        assert(0 <= b < a + 1 && order@[b] == n - 1 - k);
                    }
                }
            }
        }
        a += 1;
    }
    proof {
        assert(is_newest_first(given, order@) && forall|b: int|
            0 <= b < r.len() ==> r@[b] == given[order@[b] as int]);
    }
    r
}

/// What the caller is told of a preview that is not there.
pub open spec fn not_found_text(identifier: Seq<char>) -> Seq<char> {
    "Preview '"@ + identifier + "' not found"@
}

/// The answer to a lookup of a preview by its identifier: the compose
/// resource where one was found, and otherwise the status 404 with a
/// sentence that names the identifier.
pub fn found_or_missing(found: Option<Compose>, identifier: &str) -> (r: Result<
    Compose,
    (u16, String),
>)
    ensures
        match found {
            Some(c) => r == Ok::<Compose, (u16, String)>(c),
            None => r matches Err((status, text)) && status == 404 && text@ == not_found_text(
                identifier@,
            ),
        },
{
    match found {
        Some(compose) => Ok(compose),
        None => {
            let mut text = copy_text("Preview '");
            text.push_str(identifier);
            text.push_str("' not found");
            Err((404, text))
        },
    }
}

} // verus!
