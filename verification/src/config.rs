//! What the service is configured with.

use vstd::prelude::*;

verus! {

/// The settings of the service: where the deployment platform is, what a
/// preview is built from and how it is exposed, and where replies to pull
/// request comments go.
#[derive(Debug, Clone, PartialEq, Eq)]
pub struct Config {
    pub dokploy_url: String,
    pub project_id: String,
    pub environment_id: String,
    pub custom_git_url: String,
    pub custom_git_ssh_key_id: String,
    pub compose_path: String,
    pub base_domain: String,
    pub frontend_service_name: String,
    pub frontend_port: u16,
    pub backend_service_name: String,
    pub backend_port: u16,
    /// Lines of the form `NAME=value` handed to every preview as they are.
    pub passthrough_env: Vec<String>,
    pub azdo_org: String,
    pub azdo_project: String,
    pub azdo_repository_id: String,
    pub azdo_pat: String,
}

/// The most previews that may be live at once.
pub const PREVIEW_LIMIT: usize = 5;

/// The port of the frontend service where none is configured.
pub const DEFAULT_FRONTEND_PORT: u16 = 3000;

/// The port of the backend service where none is configured.
pub const DEFAULT_BACKEND_PORT: u16 = 8080;

/// The prefix of the application name of every preview.
pub open spec fn preview_prefix() -> Seq<char> {
    "preview-"@
}

/// The branch that pull requests are merged into.
pub open spec fn trunk_branch() -> Seq<char> {
    "main"@
}

} // verus!
