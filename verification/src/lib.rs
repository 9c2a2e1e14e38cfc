//! Ephemeral preview deployments, keyed by pull request or branch: the
//! decisions that stand between the webhooks and the deployment platform.

pub mod api;
pub mod auth;
pub mod azure_client;
pub mod config;
pub mod docker_client;
pub mod dokploy_client;
pub mod identifier;
pub mod listing;
pub mod log_bridge;
pub mod models;
pub mod orchestrator;
pub mod order;
pub mod prune;
pub mod regression;
pub mod slash_cmd;
pub mod text;
pub mod timestamp;
pub mod webhook;

pub use config::Config;
pub use identifier::{compute_identifier, parse_preview_identifier, strip_refs_heads};
pub use slash_cmd::SlashCommand;
pub use timestamp::parse_ts;
