//! Records of the deployment platform.

use vstd::prelude::*;

verus! {

/// A project, with the environments it holds.
#[derive(Debug, Clone, PartialEq, Eq)]
pub struct Project {
    pub project_id: String,
    pub name: String,
    pub organization_id: String,
    pub environments: Vec<Environment>,
}

/// An environment of a project, with the compose resources deployed in it.
#[derive(Debug, Clone, PartialEq, Eq)]
pub struct Environment {
    pub environment_id: String,
    pub name: String,
    pub project_id: String,
    pub compose: Vec<Compose>,
}

/// A compose resource: the platform's unit of deployable configuration.
#[derive(Debug, Clone, PartialEq, Eq)]
pub struct Compose {
    pub compose_id: String,
    pub name: String,
    pub app_name: String,
    pub environment_id: String,
    pub created_at: Option<String>,
    pub domains: Vec<Domain>,
}

/// A hostname bound to one service of a compose resource.
#[derive(Debug, Clone, PartialEq, Eq)]
pub struct Domain {
    pub domain_id: String,
    pub host: String,
    pub service_name: String,
    pub compose_id: String,
}

/// One deployment attempt of a compose resource. Any of the three instants
/// may be missing; each is text as the platform sent it.
#[derive(Debug, Clone, PartialEq, Eq)]
pub struct Deployment {
    pub deployment_id: String,
    pub status: Option<String>,
    pub created_at: Option<String>,
    pub started_at: Option<String>,
    pub finished_at: Option<String>,
}

/// A compose resource with its deployment history, most recent attempt first.
#[derive(Debug, Clone, PartialEq, Eq)]
pub struct ComposeDetail {
    pub compose_id: String,
    pub created_at: Option<String>,
    pub deployments: Vec<Deployment>,
}

/// The request that creates a compose resource.
#[derive(Debug, Clone, PartialEq, Eq)]
pub struct CreateComposeRequest {
    pub name: String,
    pub environment_id: String,
    pub compose_type: String,
    pub app_name: String,
}

/// The request that deletes a compose resource.
#[derive(Debug, Clone, PartialEq, Eq)]
pub struct DeleteComposeRequest {
    pub compose_id: String,
    pub delete_volumes: bool,
}

/// The request that configures a compose resource: where its source lies,
/// what environment it runs with and how it is deployed.
#[derive(Debug, Clone, PartialEq, Eq)]
pub struct UpdateComposeRequest {
    pub compose_id: String,
    pub name: String,
    pub app_name: String,
    pub env: String,
    pub source_type: String,
    pub compose_type: String,
    pub custom_git_url: String,
    pub custom_git_branch: String,
    pub custom_git_ssh_key_id: String,
    pub compose_path: String,
    pub environment_id: String,
    pub auto_deploy: bool,
    pub isolated_deployment: bool,
}

/// The request that binds a hostname to a service of a compose resource.
#[derive(Debug, Clone, PartialEq, Eq)]
pub struct DomainCreateRequest {
    pub host: String,
    pub path: String,
    pub port: u16,
    pub https: bool,
    pub certificate_type: String,
    pub compose_id: String,
    pub service_name: String,
    pub domain_type: String,
}

/// The request that changes the hostname and port of a domain in place.
#[derive(Debug, Clone, PartialEq, Eq)]
pub struct DomainUpdateRequest {
    pub domain_id: String,
    pub host: String,
    pub path: String,
    pub port: u16,
    pub https: bool,
    pub certificate_type: String,
    pub service_name: String,
    pub domain_type: String,
}

/// The request that triggers a deployment of a compose resource.
#[derive(Debug, Clone, PartialEq, Eq)]
pub struct ComposeDeployRequest {
    pub compose_id: String,
}

} // verus!
