//! The shapes of what the deployment platform and the source-control service
//! send and accept, reduced to the fields this crate reads.

pub mod azure;
pub mod dokploy;
