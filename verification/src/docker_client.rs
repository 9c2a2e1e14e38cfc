//! What is known of the containers of a preview, and how their logs are
//! asked for.

use crate::text::{copy_text, u64_to_string, decimal_text};
use vstd::prelude::*;

verus! {

/// A container as the container runtime lists it.
#[derive(Debug, Clone, PartialEq, Eq)]
pub struct ContainerInfo {
    pub id: String,
    pub names: Vec<String>,
    pub image: String,
    pub state: String,
    pub status: String,
}

/// What a request for the logs of a container asks for.
#[derive(Debug, Clone, PartialEq, Eq)]
pub struct LogRequest {
    pub container_name: String,
    /// Keep waiting for new lines once the history is through.
    pub follow: bool,
    pub stdout: bool,
    pub stderr: bool,
    /// How many lines of history to begin with: a number, or `all`.
    pub tail: String,
    pub timestamps: bool,
}

/// How the number of lines of history is written in a request: zero stands
/// for the whole history.
pub open spec fn tail_text(tail: u64) -> Seq<char> {
    if tail > 0 {
        decimal_text(tail as nat)
    } else {
        "all"@
    }
}

/// Executable form of [`tail_text`].
pub fn tail_option(tail: u64) -> (r: String)
    ensures
        r@ == tail_text(tail),
{
    if tail > 0 {
        u64_to_string(tail)
    } else {
        copy_text("all")
    }
}

/// The request for the logs of a container: both output streams, each line
/// with its time.
pub fn log_request(container_name: &str, tail: u64, follow: bool) -> (r: LogRequest)
    ensures
        r.container_name@ == container_name@,
        r.follow == follow,
        r.stdout,
        r.stderr,
        r.tail@ == tail_text(tail),
        r.timestamps,
{
    LogRequest {
        container_name: copy_text(container_name),
        follow,
        stdout: true,
        stderr: true,
        tail: tail_option(tail),
        timestamps: true,
    }
}

} // verus!
