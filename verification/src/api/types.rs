//! The shapes of the answers.

use vstd::prelude::*;

verus! {

/// The previews that are live.
#[derive(Debug, Clone, PartialEq, Eq)]
pub struct PreviewListResponse {
    pub previews: Vec<PreviewSummary>,
}

/// One preview.
#[derive(Debug, Clone, PartialEq, Eq)]
pub struct PreviewSummary {
    pub identifier: String,
    pub compose_id: String,
    pub pr_id: Option<String>,
    pub branch: String,
    pub status: PreviewStatus,
    pub created_at: Option<String>,
    pub last_deployed_at: Option<String>,
    pub frontend_url: Option<String>,
    pub backend_url: Option<String>,
    pub pr_url: Option<String>,
    pub containers: Vec<ContainerSummary>,
}

/// One preview with its deployment history.
#[derive(Debug, Clone, PartialEq, Eq)]
pub struct PreviewDetailResponse {
    pub summary: PreviewSummary,
    pub deployments: Vec<DeploymentInfo>,
}

/// What state a preview is in.
#[derive(Debug, Clone, Copy, PartialEq, Eq, Structural)]
pub enum PreviewStatus {
    Building,
    Running,
    Failed,
    Unknown,
}

/// One container of a preview.
#[derive(Debug, Clone, PartialEq, Eq)]
pub struct ContainerSummary {
    pub name: String,
    pub service: String,
    pub state: String,
}

/// One deployment attempt, with how long it took.
#[derive(Debug, Clone, PartialEq, Eq)]
pub struct DeploymentInfo {
    pub deployment_id: String,
    pub status: Option<String>,
    pub created_at: Option<String>,
    pub started_at: Option<String>,
    pub finished_at: Option<String>,
    pub duration_seconds: Option<u64>,
}

} // verus!
