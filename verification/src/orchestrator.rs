//! Bringing the platform to the state "a preview exists and is deployed".
//!
//! The work is a fixed sequence of remote calls. This module decides; it
//! performs none of them. The caller performs the action it is handed and
//! reports what came of it as the next event. A preview that exists is only
//! deployed again. One that does not is created, configured, given its two
//! hostnames and deployed, and the pruning of old previews follows. A failed
//! call ends the sequence with the failure; nothing is rolled back, and a
//! repeated request finds what the failed one left.

use crate::config::Config;
use crate::identifier::{derived, IdentityError};
use crate::listing::{find_compose_by_name, looked_up, named, project_composes, LookupError};
use crate::models::dokploy::{
    Compose, ComposeDeployRequest, CreateComposeRequest, DeleteComposeRequest, Domain,
    DomainCreateRequest, DomainUpdateRequest, Project, UpdateComposeRequest,
};
use crate::text::{copy_text, opt_text, same_text, texts};
use vstd::prelude::*;

verus! {

/// What is asked for: the branch to build, and the pull request it belongs
/// to, if any.
#[derive(Debug, Clone, PartialEq, Eq)]
pub struct ComposeCreateUpdateRequest {
    pub git_branch: String,
    pub pr_id: Option<String>,
}

/// What is answered: the compose resource of the preview and the hostnames
/// bound to it.
#[derive(Debug, Clone, PartialEq, Eq)]
pub struct ComposeCreateUpdateResponse {
    pub compose_id: String,
    pub domains: Vec<String>,
}

/// Why the sequence ended without a preview.
#[derive(Debug, Clone, PartialEq, Eq)]
pub enum OrchestratorError {
    /// No identifier could be derived from the request.
    Identity(IdentityError),
    /// Several compose resources bear the identifier.
    AmbiguousIdentifier { compose_ids: Vec<String> },
    /// A remote call failed; the message is the platform's.
    Remote { message: String },
    /// An event was reported that the step in progress cannot end in.
    UnexpectedEvent,
}

/// The identifiers `ids`, each after a blank.
pub open spec fn id_list(ids: Seq<String>) -> Seq<char>
    decreases ids.len(),
{
    if ids.len() == 0 {
        Seq::empty()
    } else {
        id_list(ids.drop_last()) + " "@ + ids.last()@
    }
}

/// What the caller is told of an error.
pub open spec fn error_text(error: OrchestratorError) -> Seq<char> {
    match error {
        OrchestratorError::Identity(IdentityError::MissingIdentitySource) => "neither a pull request number nor a branch name was given"@,
        OrchestratorError::Identity(IdentityError::EmptyIdentifier) => "the branch name is empty once sanitized"@,
        OrchestratorError::AmbiguousIdentifier { compose_ids } => "multiple composes bear the identifier:"@
            + id_list(compose_ids@),
        OrchestratorError::Remote { message } => message@,
        OrchestratorError::UnexpectedEvent => "an event was reported out of turn"@,
    }
}

/// The HTTP status that an error is answered with: a client error where
/// the request names no preview, a server error otherwise.
pub open spec fn error_status(error: OrchestratorError) -> u16 {
    match error {
        OrchestratorError::Identity(_) => 400,
        _ => 500,
    }
}

impl OrchestratorError {
    /// What the caller is told of the error. A remote failure is told in
    /// the platform's own words.
    pub fn message(&self) -> (r: String)
        ensures
            r@ == error_text(*self),
    {
        match self {
            OrchestratorError::Identity(e) => e.message(),
            OrchestratorError::AmbiguousIdentifier { compose_ids } => {
                let mut r = copy_text("multiple composes bear the identifier:");
                let ghost head = r@;
                let mut i: usize = 0;
                while i < compose_ids.len()
                    invariant
                        i <= compose_ids.len(),
                        r@ == head + id_list(compose_ids@.take(i as int)),
                    decreases compose_ids.len() - i,
                {
                    assert(compose_ids@.take(i + 1).drop_last() =~= compose_ids@.take(i as int));
                    r.push_str(" ");
                    r.push_str(compose_ids[i].as_str());
                    assert(r@ =~= head + id_list(compose_ids@.take(i + 1)));
                    i += 1;
                }
                assert(compose_ids@.take(i as int) =~= compose_ids@);
                r
            },
            OrchestratorError::Remote { message } => copy_text(message.as_str()),
            OrchestratorError::UnexpectedEvent => copy_text("an event was reported out of turn"),
        }
    }

    /// The HTTP status that the error is answered with.
    pub fn status(&self) -> (r: u16)
        ensures
            r == error_status(*self),
    {
        match self {
            OrchestratorError::Identity(_) => 400,
            _ => 500,
        }
    }
}

/// The preview being worked on.
#[derive(Debug, Clone, PartialEq, Eq)]
pub struct UpsertTarget {
    pub identifier: String,
    pub git_branch: String,
}

/// Where the sequence stands: which call is awaited. A failure of the call
/// ends the sequence with the failure, but for the pruning, whose failures
/// are its own: the preview is there, and the answer says so.
#[derive(Debug, Clone, PartialEq, Eq)]
pub enum UpsertState {
    /// Awaiting the listing in which the preview is looked up.
    Lookup,
    /// Awaiting the new compose resource.
    Creating,
    /// Awaiting the end of its configuration.
    Configuring { compose_id: String },
    /// Awaiting the domains it has, to bind the two hostnames.
    ListingDomains { compose_id: String },
    /// Awaiting the binding of the frontend hostname; the domain that the
    /// backend service has already, if any, is kept for the step after.
    BindingFrontend { compose_id: String, backend_domain_id: Option<String> },
    /// Awaiting the binding of the backend hostname.
    BindingBackend { compose_id: String },
    /// Awaiting the start of the deployment.
    Deploying { compose_id: String, created: bool },
    /// Awaiting the domains to answer with.
    ReadingDomains { compose_id: String, created: bool },
    /// Awaiting the end of the pruning, whatever it is.
    Pruning { compose_id: String, hosts: Vec<String> },
    /// The sequence is over.
    Finished,
}

/// What came of the call that was asked for.
#[derive(Debug, Clone, PartialEq, Eq)]
pub enum UpsertEvent {
    /// The platform's listing of projects.
    Projects(Vec<Project>),
    /// The compose resource that was created.
    Created(Compose),
    /// The call succeeded and has nothing to tell.
    Done,
    /// The domains of the compose resource.
    Domains(Vec<Domain>),
    /// The pruning is over; its failures are its own.
    Pruned,
    /// The call failed.
    Failed(String),
}

/// What the caller is to do next.
#[derive(Debug, Clone, PartialEq, Eq)]
pub enum UpsertAction {
    FetchProjects,
    CreateCompose(CreateComposeRequest),
    UpdateCompose(UpdateComposeRequest),
    ListDomains { compose_id: String },
    CreateDomain(DomainCreateRequest),
    UpdateDomain(DomainUpdateRequest),
    Deploy(ComposeDeployRequest),
    /// Prune the previews of the environment, sparing the one named.
    Prune { environment_id: String, exclude_compose_id: String },
    /// Answer with the response; the sequence is over.
    Finish(ComposeCreateUpdateResponse),
    /// Answer with the error; the sequence is over.
    Fail(OrchestratorError),
}

/// The application name of the preview with the identifier.
pub open spec fn app_name_of(identifier: Seq<char>) -> Seq<char> {
    "preview-"@ + identifier
}

/// The hostname of the frontend of the preview.
pub open spec fn frontend_host_of(identifier: Seq<char>, base_domain: Seq<char>) -> Seq<char> {
    identifier + "."@ + base_domain
}

/// The hostname of the backend of the preview.
pub open spec fn backend_host_of(identifier: Seq<char>, base_domain: Seq<char>) -> Seq<char> {
    "api-"@ + identifier + "."@ + base_domain
}

/// The lines that are handed on as they are, each after a line break.
pub open spec fn passthrough_text(lines: Seq<String>) -> Seq<char>
    decreases lines.len(),
{
    if lines.len() == 0 {
        Seq::empty()
    } else {
        passthrough_text(lines.drop_last()) + "\n"@ + lines.last()@
    }
}

/// The environment of the preview: where its frontend and its backend are
/// reached, the domain its cookies are set for, and the lines handed on.
pub open spec fn env_text_of(config: Config, identifier: Seq<char>) -> Seq<char> {
    "APP_URL=https://"@ + frontend_host_of(identifier, config.base_domain@)
        + "\nBACKEND_API_URL=https://"@ + backend_host_of(identifier, config.base_domain@)
        + "\nCOOKIE_DOMAIN=."@ + config.base_domain@ + passthrough_text(config.passthrough_env@)
}

/// The application name of the preview with the identifier.
pub fn app_name(identifier: &str) -> (r: String)
    ensures
        r@ == app_name_of(identifier@),
{
    let mut r = copy_text("preview-");
    r.push_str(identifier);
    r
}

/// The hostname of the frontend of the preview.
pub fn frontend_host(identifier: &str, base_domain: &str) -> (r: String)
    ensures
        r@ == frontend_host_of(identifier@, base_domain@),
{
    let mut r = copy_text(identifier);
    r.push_str(".");
    r.push_str(base_domain);
    r
}

/// The hostname of the backend of the preview.
pub fn backend_host(identifier: &str, base_domain: &str) -> (r: String)
    ensures
        r@ == backend_host_of(identifier@, base_domain@),
{
    let mut r = copy_text("api-");
    r.push_str(identifier);
    r.push_str(".");
    r.push_str(base_domain);
    r
}

/// The environment of the preview.
pub fn env_text(config: &Config, identifier: &str) -> (r: String)
    ensures
        r@ == env_text_of(*config, identifier@),
{
    let mut r = copy_text("APP_URL=https://");
    r.push_str(frontend_host(identifier, config.base_domain.as_str()).as_str());
    r.push_str("\nBACKEND_API_URL=https://");
    r.push_str(backend_host(identifier, config.base_domain.as_str()).as_str());
    r.push_str("\nCOOKIE_DOMAIN=.");
    r.push_str(config.base_domain.as_str());
    let ghost head = r@;
    let mut i: usize = 0;
    while i < config.passthrough_env.len()
        invariant
            i <= config.passthrough_env.len(),
            r@ == head + passthrough_text(config.passthrough_env@.take(i as int)),
        decreases config.passthrough_env.len() - i,
    {
        assert(config.passthrough_env@.take(i + 1).drop_last() =~= config.passthrough_env@.take(
            i as int,
        ));
        r.push_str("\n");
        r.push_str(config.passthrough_env[i].as_str());
        assert(r@ =~= head + passthrough_text(config.passthrough_env@.take(i + 1)));
        i += 1;
    }
    assert(config.passthrough_env@.take(i as int) =~= config.passthrough_env@);
    r
}

/// What the request that creates the preview holds.
pub open spec fn is_create_request(
    request: CreateComposeRequest,
    config: Config,
    identifier: Seq<char>,
) -> bool {
    &&& request.name@ == identifier
    &&& request.environment_id@ == config.environment_id@
    &&& request.compose_type@ == "docker-compose"@
    &&& request.app_name@ == app_name_of(identifier)
}

/// The request that creates the preview.
pub fn create_request(config: &Config, identifier: &str) -> (r: CreateComposeRequest)
    ensures
        is_create_request(r, *config, identifier@),
{
    CreateComposeRequest {
        name: copy_text(identifier),
        environment_id: copy_text(config.environment_id.as_str()),
        compose_type: copy_text("docker-compose"),
        app_name: app_name(identifier),
    }
}

/// What the request that configures the preview holds: the git source, the
/// environment, and the two deployment flags, both on.
pub open spec fn is_update_request(
    request: UpdateComposeRequest,
    config: Config,
    compose_id: Seq<char>,
    identifier: Seq<char>,
    git_branch: Seq<char>,
) -> bool {
    &&& request.compose_id@ == compose_id
    &&& request.name@ == identifier
    &&& request.app_name@ == app_name_of(identifier)
    &&& request.env@ == env_text_of(config, identifier)
    &&& request.source_type@ == "git"@
    &&& request.compose_type@ == "docker-compose"@
    &&& request.custom_git_url@ == config.custom_git_url@
    &&& request.custom_git_branch@ == git_branch
    &&& request.custom_git_ssh_key_id@ == config.custom_git_ssh_key_id@
    &&& request.compose_path@ == config.compose_path@
    &&& request.environment_id@ == config.environment_id@
    &&& request.auto_deploy
    &&& request.isolated_deployment
}

/// The request that configures the preview.
pub fn update_request(config: &Config, compose_id: &str, identifier: &str, git_branch: &str) -> (r:
    UpdateComposeRequest)
    ensures
        is_update_request(r, *config, compose_id@, identifier@, git_branch@),
{
    UpdateComposeRequest {
        compose_id: copy_text(compose_id),
        name: copy_text(identifier),
        app_name: app_name(identifier),
        env: env_text(config, identifier),
        source_type: copy_text("git"),
        compose_type: copy_text("docker-compose"),
        custom_git_url: copy_text(config.custom_git_url.as_str()),
        custom_git_branch: copy_text(git_branch),
        custom_git_ssh_key_id: copy_text(config.custom_git_ssh_key_id.as_str()),
        compose_path: copy_text(config.compose_path.as_str()),
        environment_id: copy_text(config.environment_id.as_str()),
        auto_deploy: true,
        isolated_deployment: true,
    }
}

/// Which of the two services of a preview is meant.
#[derive(Clone, Copy, Debug, PartialEq, Eq, Structural)]
pub enum Service {
    Frontend,
    Backend,
}

/// The name of the service in the compose file.
pub open spec fn service_name_of(config: Config, service: Service) -> Seq<char> {
    match service {
        Service::Frontend => config.frontend_service_name@,
        Service::Backend => config.backend_service_name@,
    }
}

/// The port the service listens on.
pub open spec fn service_port_of(config: Config, service: Service) -> u16 {
    match service {
        Service::Frontend => config.frontend_port,
        Service::Backend => config.backend_port,
    }
}

/// The hostname the service is reached by.
pub open spec fn service_host_of(config: Config, service: Service, identifier: Seq<char>) -> Seq<
    char,
> {
    match service {
        Service::Frontend => frontend_host_of(identifier, config.base_domain@),
        Service::Backend => backend_host_of(identifier, config.base_domain@),
    }
}

/// What the request that binds a hostname to a service holds.
pub open spec fn is_domain_create_request(
    request: DomainCreateRequest,
    config: Config,
    service: Service,
    compose_id: Seq<char>,
    identifier: Seq<char>,
) -> bool {
    &&& request.host@ == service_host_of(config, service, identifier)
    &&& request.path@ == "/"@
    &&& request.port == service_port_of(config, service)
    &&& request.https
    &&& request.certificate_type@ == "none"@
    &&& request.compose_id@ == compose_id
    &&& request.service_name@ == service_name_of(config, service)
    &&& request.domain_type@ == "compose"@
}

/// What the request that rebinds an existing domain holds.
pub open spec fn is_domain_update_request(
    request: DomainUpdateRequest,
    config: Config,
    service: Service,
    domain_id: Seq<char>,
    identifier: Seq<char>,
) -> bool {
    &&& request.domain_id@ == domain_id
    &&& request.host@ == service_host_of(config, service, identifier)
    &&& request.path@ == "/"@
    &&& request.port == service_port_of(config, service)
    &&& request.https
    &&& request.certificate_type@ == "none"@
    &&& request.service_name@ == service_name_of(config, service)
    &&& request.domain_type@ == "compose"@
}

fn service_name(config: &Config, service: Service) -> (r: String)
    ensures
        r@ == service_name_of(*config, service),
{
    match service {
        Service::Frontend => copy_text(config.frontend_service_name.as_str()),
        Service::Backend => copy_text(config.backend_service_name.as_str()),
    }
}

fn service_port(config: &Config, service: Service) -> (r: u16)
    ensures
        r == service_port_of(*config, service),
{
    match service {
        Service::Frontend => config.frontend_port,
        Service::Backend => config.backend_port,
    }
}

fn service_host(config: &Config, service: Service, identifier: &str) -> (r: String)
    ensures
        r@ == service_host_of(*config, service, identifier@),
{
    match service {
        Service::Frontend => frontend_host(identifier, config.base_domain.as_str()),
        Service::Backend => backend_host(identifier, config.base_domain.as_str()),
    }
}

/// The domain, among those of a compose resource, that is bound to the
/// service: the first one listed, if there is one.
pub open spec fn domain_of_service(domains: Seq<Domain>, service_name: Seq<char>) -> Option<
    Seq<char>,
>
    decreases domains.len(),
{
    if domains.len() == 0 {
        None
    } else if domains[0].service_name@ == service_name {
        Some(domains[0].domain_id@)
    } else {
        domain_of_service(domains.drop_first(), service_name)
    }
}

/// Executable form of [`domain_of_service`].
pub fn find_domain_of_service(domains: &Vec<Domain>, service_name: &str) -> (r: Option<String>)
    ensures
        opt_text(r) == domain_of_service(domains@, service_name@),
{
    let mut i: usize = 0;
    assert(domains@.skip(0) =~= domains@);
    while i < domains.len()
        invariant
            i <= domains.len(),
            domain_of_service(domains@, service_name@) == domain_of_service(
                domains@.skip(i as int),
                service_name@,
            ),
        decreases domains.len() - i,
    {
        assert(domains@.skip(i as int)[0] == domains@[i as int]);
        assert(domains@.skip(i as int).drop_first() =~= domains@.skip(i + 1));
        if same_text(domains[i].service_name.as_str(), service_name) {
            return Some(copy_text(domains[i].domain_id.as_str()));
        }
        i += 1;
    }
    None
}

/// What binds the hostname of a service: the domain the service has is
/// changed in place, and where it has none, one is created.
pub open spec fn is_bind_action(
    action: UpsertAction,
    config: Config,
    service: Service,
    existing: Option<Seq<char>>,
    compose_id: Seq<char>,
    identifier: Seq<char>,
) -> bool {
    match existing {
        Some(domain_id) => action matches UpsertAction::UpdateDomain(request)
            && is_domain_update_request(request, config, service, domain_id, identifier),
        None => action matches UpsertAction::CreateDomain(request) && is_domain_create_request(
            request,
            config,
            service,
            compose_id,
            identifier,
        ),
    }
}

/// The action that binds the hostname of a service.
pub fn bind_action(
    config: &Config,
    service: Service,
    existing: &Option<String>,
    compose_id: &str,
    identifier: &str,
) -> (action: UpsertAction)
    ensures
        is_bind_action(
            action,
            *config,
            service,
            opt_text(*existing),
            compose_id@,
            identifier@,
        ),
{
    match existing {
        Some(domain_id) => UpsertAction::UpdateDomain(
            DomainUpdateRequest {
                domain_id: copy_text(domain_id.as_str()),
                host: service_host(config, service, identifier),
                path: copy_text("/"),
                port: service_port(config, service),
                https: true,
                certificate_type: copy_text("none"),
                service_name: service_name(config, service),
                domain_type: copy_text("compose"),
            },
        ),
        None => UpsertAction::CreateDomain(
            DomainCreateRequest {
                host: service_host(config, service, identifier),
                path: copy_text("/"),
                port: service_port(config, service),
                https: true,
                certificate_type: copy_text("none"),
                compose_id: copy_text(compose_id),
                service_name: service_name(config, service),
                domain_type: copy_text("compose"),
            },
        ),
    }
}

/// The hostnames of some domains, in the order listed.
pub open spec fn hosts_of(domains: Seq<Domain>) -> Seq<Seq<char>> {
    Seq::new(domains.len(), |i: int| domains[i].host@)
}

/// The hostnames of some domains, in the order listed.
pub fn hosts(domains: &Vec<Domain>) -> (r: Vec<String>)
    ensures
        texts(r@) == hosts_of(domains@),
{
    let mut r: Vec<String> = Vec::new();
    let mut i: usize = 0;
    while i < domains.len()
        invariant
            i <= domains.len(),
            texts(r@) == hosts_of(domains@).take(i as int),
        decreases domains.len() - i,
    {
        let ghost before = r@;
        r.push(copy_text(domains[i].host.as_str()));
        assert(texts(r@) =~= texts(before).push(domains@[i as int].host@));
        i += 1;
    }
    r
}

/// Whether the action is a deployment of the compose resource.
pub open spec fn is_deploy(action: UpsertAction, compose_id: Seq<char>) -> bool {
    action matches UpsertAction::Deploy(request) && request.compose_id@ == compose_id
}

/// Whether the action ends the sequence with the remote failure.
pub open spec fn is_remote_failure(action: UpsertAction, message: Seq<char>) -> bool {
    action matches UpsertAction::Fail(OrchestratorError::Remote { message: m }) && m@ == message
}

/// Whether the action ends the sequence for an event out of place.
pub open spec fn is_unexpected(action: UpsertAction) -> bool {
    action matches UpsertAction::Fail(OrchestratorError::UnexpectedEvent)
}

/// Whether the action answers with the compose resource and the hostnames.
pub open spec fn is_finish(action: UpsertAction, compose_id: Seq<char>, hosts: Seq<Seq<char>>) -> bool {
    action matches UpsertAction::Finish(response) && response.compose_id@ == compose_id
        && texts(response.domains@) == hosts
}

/// The relation between a step of the sequence and what it leads to. For
/// every state and event it admits one next state and one action, up to the
/// text that they hold.
pub open spec fn upsert_transition(
    config: Config,
    target: UpsertTarget,
    state: UpsertState,
    event: UpsertEvent,
    next: UpsertState,
    action: UpsertAction,
) -> bool {
    let id = target.identifier@;
    match (state, event) {
        (UpsertState::Finished, _) => next is Finished && is_unexpected(action),
        (UpsertState::Pruning { compose_id, hosts }, UpsertEvent::Failed(_)) => {
            &&& next is Finished
            &&& is_finish(action, compose_id@, texts(hosts@))
        },
        (_, UpsertEvent::Failed(message)) => next is Finished && is_remote_failure(
            action,
            message@,
        ),
        (UpsertState::Lookup, UpsertEvent::Projects(projects)) => match looked_up(
            named(project_composes(projects@), id),
        ) {
            Ok(None) => {
                &&& next is Creating
                &&& action matches UpsertAction::CreateCompose(request)
                &&& is_create_request(request, config, id)
            },
            Ok(Some(found)) => {
                &&& next matches UpsertState::Deploying { compose_id, created }
                &&& compose_id@ == found.compose_id@
                &&& !created
                &&& is_deploy(action, found.compose_id@)
            },
            Err(ids) => {
                &&& next is Finished
                &&& action matches UpsertAction::Fail(
                    OrchestratorError::AmbiguousIdentifier { compose_ids },
                )
                &&& texts(compose_ids@) == ids
            },
        },
        (UpsertState::Creating, UpsertEvent::Created(compose)) => {
            &&& next matches UpsertState::Configuring { compose_id }
            &&& compose_id@ == compose.compose_id@
            &&& action matches UpsertAction::UpdateCompose(request)
            &&& is_update_request(request, config, compose.compose_id@, id, target.git_branch@)
        },
        (UpsertState::Configuring { compose_id }, UpsertEvent::Done) => {
            &&& next matches UpsertState::ListingDomains { compose_id: c }
            &&& c@ == compose_id@
            &&& action matches UpsertAction::ListDomains { compose_id: a }
            &&& a@ == compose_id@
        },
        (UpsertState::ListingDomains { compose_id }, UpsertEvent::Domains(domains)) => {
            &&& next matches UpsertState::BindingFrontend { compose_id: c, backend_domain_id }
            &&& c@ == compose_id@
            &&& opt_text(backend_domain_id) == domain_of_service(
                domains@,
                config.backend_service_name@,
            )
            &&& is_bind_action(
                action,
                config,
                Service::Frontend,
                domain_of_service(domains@, config.frontend_service_name@),
                compose_id@,
                id,
            )
        },
        (
            UpsertState::BindingFrontend { compose_id, backend_domain_id },
            UpsertEvent::Done,
        ) => {
            &&& next matches UpsertState::BindingBackend { compose_id: c }
            &&& c@ == compose_id@
            &&& is_bind_action(
                action,
                config,
                Service::Backend,
                opt_text(backend_domain_id),
                compose_id@,
                id,
            )
        },
        (UpsertState::BindingBackend { compose_id }, UpsertEvent::Done) => {
            &&& next matches UpsertState::Deploying { compose_id: c, created }
            &&& c@ == compose_id@
            &&& created
            &&& is_deploy(action, compose_id@)
        },
        (UpsertState::Deploying { compose_id, created }, UpsertEvent::Done) => {
            &&& next matches UpsertState::ReadingDomains { compose_id: c, created: k }
            &&& c@ == compose_id@
            &&& k == created
            &&& action matches UpsertAction::ListDomains { compose_id: a }
            &&& a@ == compose_id@
        },
        (UpsertState::ReadingDomains { compose_id, created }, UpsertEvent::Domains(domains)) => {
            if created {
                &&& next matches UpsertState::Pruning { compose_id: c, hosts: h }
                &&& c@ == compose_id@
                &&& texts(h@) == hosts_of(domains@)
                &&& action matches UpsertAction::Prune { environment_id, exclude_compose_id }
                &&& environment_id@ == config.environment_id@
                &&& exclude_compose_id@ == compose_id@
            } else {
                &&& next is Finished
                &&& is_finish(action, compose_id@, hosts_of(domains@))
            }
        },
        (UpsertState::Pruning { compose_id, hosts }, UpsertEvent::Pruned) => {
            &&& next is Finished
            &&& is_finish(action, compose_id@, texts(hosts@))
        },
        _ => next is Finished && is_unexpected(action),
    }
}

/// Begins the sequence for a request: derives the identifier of the preview
/// and asks for the listing in which to look it up. Fails, before anything is
/// asked of the platform, where no identifier can be derived.
pub fn upsert_start(request: &ComposeCreateUpdateRequest) -> (r: Result<
    (UpsertTarget, UpsertState, UpsertAction),
    OrchestratorError,
>)
    ensures
        match derived(
            opt_text(request.pr_id),
            Some(request.git_branch@),
        ) {
            Ok(identifier) => {
                &&& r matches Ok((target, state, action))
                &&& target.identifier@ == identifier
                &&& target.git_branch@ == request.git_branch@
                &&& state is Lookup
                &&& action is FetchProjects
            },
            Err(e) => r matches Err(OrchestratorError::Identity(f)) && f == e,
        },
{
    let pr: Option<&str> = match &request.pr_id {
        Some(p) => Some(p.as_str()),
        None => None,
    };
    match crate::identifier::derive(pr, Some(request.git_branch.as_str())) {
        Ok(identifier) => Ok(
            (
                UpsertTarget { identifier, git_branch: copy_text(request.git_branch.as_str()) },
                UpsertState::Lookup,
                UpsertAction::FetchProjects,
            ),
        ),
        Err(e) => Err(OrchestratorError::Identity(e)),
    }
}

/// One step of the sequence: given the call that was awaited and what came
/// of it, the call to await next and the action that makes it.
pub fn upsert_step(config: &Config, target: &UpsertTarget, state: UpsertState, event: UpsertEvent) -> (r:
    (UpsertState, UpsertAction))
    ensures
        upsert_transition(*config, *target, state, event, r.0, r.1),
{
    let identifier = target.identifier.as_str();
    match (state, event) {
        (UpsertState::Finished, _) => (
            UpsertState::Finished,
            UpsertAction::Fail(OrchestratorError::UnexpectedEvent),
        ),
        (UpsertState::Pruning { compose_id, hosts }, UpsertEvent::Failed(_)) => (
            UpsertState::Finished,
            UpsertAction::Finish(ComposeCreateUpdateResponse { compose_id, domains: hosts }),
        ),
        (_, UpsertEvent::Failed(message)) => (
            UpsertState::Finished,
            UpsertAction::Fail(OrchestratorError::Remote { message }),
        ),
        (UpsertState::Lookup, UpsertEvent::Projects(projects)) => {
            match find_compose_by_name(&projects, identifier) {
                Ok(None) => (
                    UpsertState::Creating,
                    UpsertAction::CreateCompose(create_request(config, identifier)),
                ),
                Ok(Some(found)) => (
                    UpsertState::Deploying {
                        compose_id: copy_text(found.compose_id.as_str()),
                        created: false,
                    },
                    UpsertAction::Deploy(
                        ComposeDeployRequest { compose_id: copy_text(found.compose_id.as_str()) },
                    ),
                ),
                Err(LookupError::AmbiguousIdentifier { compose_ids }) => (
                    UpsertState::Finished,
                    UpsertAction::Fail(OrchestratorError::AmbiguousIdentifier { compose_ids }),
                ),
            }
        },
        (UpsertState::Creating, UpsertEvent::Created(compose)) => {
            let request = update_request(
                config,
                compose.compose_id.as_str(),
                identifier,
                target.git_branch.as_str(),
            );
            (
                UpsertState::Configuring { compose_id: copy_text(compose.compose_id.as_str()) },
                UpsertAction::UpdateCompose(request),
            )
        },
        (UpsertState::Configuring { compose_id }, UpsertEvent::Done) => {
            let a = copy_text(compose_id.as_str());
            (UpsertState::ListingDomains { compose_id }, UpsertAction::ListDomains { compose_id: a })
        },
        (UpsertState::ListingDomains { compose_id }, UpsertEvent::Domains(domains)) => {
            let frontend = find_domain_of_service(&domains, config.frontend_service_name.as_str());
            let backend_domain_id = find_domain_of_service(
                &domains,
                config.backend_service_name.as_str(),
            );
            let action = bind_action(
                config,
                Service::Frontend,
                &frontend,
                compose_id.as_str(),
                identifier,
            );
            (UpsertState::BindingFrontend { compose_id, backend_domain_id }, action)
        },
        (UpsertState::BindingFrontend { compose_id, backend_domain_id }, UpsertEvent::Done) => {
            let action = bind_action(
                config,
                Service::Backend,
                &backend_domain_id,
                compose_id.as_str(),
                identifier,
            );
            (UpsertState::BindingBackend { compose_id }, action)
        },
        (UpsertState::BindingBackend { compose_id }, UpsertEvent::Done) => {
            let request = ComposeDeployRequest { compose_id: copy_text(compose_id.as_str()) };
            (UpsertState::Deploying { compose_id, created: true }, UpsertAction::Deploy(request))
        },
        (UpsertState::Deploying { compose_id, created }, UpsertEvent::Done) => {
            let a = copy_text(compose_id.as_str());
            (
                UpsertState::ReadingDomains { compose_id, created },
                UpsertAction::ListDomains { compose_id: a },
            )
        },
        (UpsertState::ReadingDomains { compose_id, created }, UpsertEvent::Domains(domains)) => {
            let h = hosts(&domains);
            if created {
                let action = UpsertAction::Prune {
                    environment_id: copy_text(config.environment_id.as_str()),
                    exclude_compose_id: copy_text(compose_id.as_str()),
                };
                (UpsertState::Pruning { compose_id, hosts: h }, action)
            } else {
                (
                    UpsertState::Finished,
                    UpsertAction::Finish(ComposeCreateUpdateResponse { compose_id, domains: h }),
                )
            }
        },
        (UpsertState::Pruning { compose_id, hosts }, UpsertEvent::Pruned) => (
            UpsertState::Finished,
            UpsertAction::Finish(ComposeCreateUpdateResponse { compose_id, domains: hosts }),
        ),
        _ => (UpsertState::Finished, UpsertAction::Fail(OrchestratorError::UnexpectedEvent)),
    }
}

/// What a deletion does with what the lookup found: nothing where there is
/// no preview, the deletion of the compose resource with its volumes where
/// there is one.
pub open spec fn is_delete_plan(
    found: Result<Option<Compose>, Seq<Seq<char>>>,
    plan: Result<Option<DeleteComposeRequest>, OrchestratorError>,
) -> bool {
    match found {
        Ok(None) => plan == Ok::<Option<DeleteComposeRequest>, OrchestratorError>(None),
        Ok(Some(compose)) => {
            &&& plan matches Ok(Some(request))
            &&& request.compose_id@ == compose.compose_id@
            &&& request.delete_volumes
        },
        Err(ids) => {
            &&& plan matches Err(OrchestratorError::AmbiguousIdentifier { compose_ids })
            &&& texts(compose_ids@) == ids
        },
    }
}

/// Decides what deleting the preview with the identifier takes, given the
/// platform's listing. No such preview is no error: there is nothing to do.
pub fn delete_plan(projects: &Vec<Project>, identifier: &str) -> (plan: Result<
    Option<DeleteComposeRequest>,
    OrchestratorError,
>)
    ensures
        is_delete_plan(looked_up(named(project_composes(projects@), identifier@)), plan),
{
    match find_compose_by_name(projects, identifier) {
        Ok(None) => Ok(None),
        Ok(Some(found)) => Ok(
            Some(
                DeleteComposeRequest {
                    compose_id: copy_text(found.compose_id.as_str()),
                    delete_volumes: true,
                },
            ),
        ),
        Err(LookupError::AmbiguousIdentifier { compose_ids }) => Err(
            OrchestratorError::AmbiguousIdentifier { compose_ids },
        ),
    }
}

/// What a redeployment does with what the lookup found: nothing where there
/// is no preview, a deployment of the compose resource where there is one.
pub open spec fn is_redeploy_plan(
    found: Result<Option<Compose>, Seq<Seq<char>>>,
    plan: Result<Option<ComposeDeployRequest>, OrchestratorError>,
) -> bool {
    match found {
        Ok(None) => plan == Ok::<Option<ComposeDeployRequest>, OrchestratorError>(None),
        Ok(Some(compose)) => {
            &&& plan matches Ok(Some(request))
            &&& request.compose_id@ == compose.compose_id@
        },
        Err(ids) => {
            &&& plan matches Err(OrchestratorError::AmbiguousIdentifier { compose_ids })
            &&& texts(compose_ids@) == ids
        },
    }
}

/// Decides what redeploying the preview with the identifier takes, given the
/// platform's listing. No such preview is no error: there is nothing to do.
pub fn redeploy_plan(projects: &Vec<Project>, identifier: &str) -> (plan: Result<
    Option<ComposeDeployRequest>,
    OrchestratorError,
>)
    ensures
        is_redeploy_plan(looked_up(named(project_composes(projects@), identifier@)), plan),
{
    match find_compose_by_name(projects, identifier) {
        Ok(None) => Ok(None),
        Ok(Some(found)) => Ok(
            Some(ComposeDeployRequest { compose_id: copy_text(found.compose_id.as_str()) }),
        ),
        Err(LookupError::AmbiguousIdentifier { compose_ids }) => Err(
            OrchestratorError::AmbiguousIdentifier { compose_ids },
        ),
    }
}

/// How far the sequence has come: the number of the step that is awaited.
pub open spec fn progress(state: UpsertState) -> nat {
    match state {
        UpsertState::Lookup => 0,
        UpsertState::Creating => 1,
        UpsertState::Configuring { .. } => 2,
        UpsertState::ListingDomains { .. } => 3,
        UpsertState::BindingFrontend { .. } => 4,
        UpsertState::BindingBackend { .. } => 5,
        UpsertState::Deploying { .. } => 6,
        UpsertState::ReadingDomains { .. } => 7,
        UpsertState::Pruning { .. } => 8,
        UpsertState::Finished => 9,
    }
}

/// The steps come in their order and each at most once: every step leads
/// further on, until the sequence is over. A sequence is over after nine
/// steps at most.
pub proof fn steps_come_in_order(
    config: Config,
    target: UpsertTarget,
    state: UpsertState,
    event: UpsertEvent,
    next: UpsertState,
    action: UpsertAction,
)
    requires
        upsert_transition(config, target, state, event, next, action),
    ensures
        state is Finished ==> next is Finished,
        !(state is Finished) ==> progress(next) > progress(state),
        next is Finished <==> (action is Finish || action is Fail),
{
}

/// Old previews are pruned after a creation and at no other time: the step
/// that asks for the pruning is the one that has read the domains of a
/// preview that this sequence created.
pub proof fn pruning_follows_creation_only(
    config: Config,
    target: UpsertTarget,
    state: UpsertState,
    event: UpsertEvent,
    next: UpsertState,
    action: UpsertAction,
)
    requires
        upsert_transition(config, target, state, event, next, action),
        action is Prune,
    ensures
        state matches UpsertState::ReadingDomains { created, .. } && created,
        event is Domains,
        next is Pruning,
{
}

/// Whether the state awaits the deployment of a preview that was there
/// before.
pub open spec fn awaits_redeployment(state: UpsertState) -> bool {
    state matches UpsertState::Deploying { created, .. } && !created
}

/// Whether the state awaits the domains of a preview that was there before.
pub open spec fn awaits_domains_of_redeployed(state: UpsertState) -> bool {
    state matches UpsertState::ReadingDomains { created, .. } && !created
}

/// Whether the event is a listing in which exactly one compose resource
/// bears the identifier.
pub open spec fn finds_one(event: UpsertEvent, identifier: Seq<char>) -> bool {
    event matches UpsertEvent::Projects(projects) && branch_of(
        named(project_composes(projects@), identifier),
    ) == Branch::Redeploy
}

/// A preview that exists is not created again, nor configured, nor bound:
/// the lookup that finds it leads to its deployment, the deployment to the
/// reading of its domains, and that to the answer.
pub proof fn redeploy_is_deploy_and_read(
    config: Config,
    target: UpsertTarget,
    state: UpsertState,
    event: UpsertEvent,
    next: UpsertState,
    action: UpsertAction,
)
    requires
        upsert_transition(config, target, state, event, next, action),
    ensures
        state is Lookup && finds_one(event, target.identifier@) ==> action is Deploy
            && awaits_redeployment(next),
        awaits_redeployment(state) && event is Done ==> action is ListDomains
            && awaits_domains_of_redeployed(next),
        awaits_domains_of_redeployed(state) && event is Domains ==> action is Finish
            && next is Finished,
{
}

/// Which way the sequence goes after the lookup.
#[derive(Clone, Copy, Debug, PartialEq, Eq, Structural)]
pub enum Branch {
    Create,
    Redeploy,
    Ambiguous,
}

/// The way the sequence goes for the compose resources that bear the name.
pub open spec fn branch_of(matching: Seq<Compose>) -> Branch {
    if matching.len() == 0 {
        Branch::Create
    } else if matching.len() == 1 {
        Branch::Redeploy
    } else {
        Branch::Ambiguous
    }
}

/// Putting a compose resource into a listing adds it to those that bear its
/// name and to no others.
pub proof fn lemma_named_insert(listing: Seq<Compose>, at: int, created: Compose, name: Seq<char>)
    requires
        0 <= at <= listing.len(),
    ensures
        named(listing.insert(at, created), name).len() == named(listing, name).len() + if created.name@
            == name {
            1int
        } else {
            0int
        },
        named(listing, name).len() == 0 && created.name@ == name ==> named(
            listing.insert(at, created),
            name,
        ) == seq![created],
    decreases listing.len() - at,
{
    let after = listing.insert(at, created);
    if at == listing.len() {
        assert(after.drop_last() =~= listing);
        assert(after.last() == created);
        if named(listing, name).len() == 0 && created.name@ == name {
            assert(named(after, name) =~= seq![created]);
        }
    } else {
        assert(after.drop_last() =~= listing.drop_last().insert(at, created));
        assert(after.last() == listing.last());
        lemma_named_insert(listing.drop_last(), at, created, name);
        if named(listing, name).len() == 0 && created.name@ == name {
            assert(named(after, name) =~= seq![created]);
        }
    }
}

/// Asking twice for the same preview creates one compose resource. Where the
/// first request finds none under the identifier, it takes the way of
/// creation; the platform then lists the one created, wherever it puts it;
/// and a second request finds exactly that one and takes the way of
/// redeployment, which creates nothing.
pub proof fn second_upsert_redeploys(
    listing: Seq<Compose>,
    at: int,
    created: Compose,
    identifier: Seq<char>,
)
    requires
        0 <= at <= listing.len(),
        branch_of(named(listing, identifier)) == Branch::Create,
        created.name@ == identifier,
    ensures
        named(listing.insert(at, created), identifier).len() == 1,
        branch_of(named(listing.insert(at, created), identifier)) == Branch::Redeploy,
        looked_up(named(listing.insert(at, created), identifier)) == Ok::<
            Option<Compose>,
            Seq<Seq<char>>,
        >(Some(created)),
{
    lemma_named_insert(listing, at, created, identifier);
}

} // verus!
