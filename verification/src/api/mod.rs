//! What the service answers when asked about previews.

pub mod previews;
pub mod types;
