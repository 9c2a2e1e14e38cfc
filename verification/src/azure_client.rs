//! Addressing the source-control service: where replies to comments go.

use crate::text::{copy_text, decimal_text, u64_to_string};
use vstd::prelude::*;

verus! {

/// The address to which a reply in a thread of a pull request is posted.
pub open spec fn thread_comments_url_of(
    org: Seq<char>,
    project: Seq<char>,
    repo_id: Seq<char>,
    pr_id: u64,
    thread_id: u64,
) -> Seq<char> {
    "https://dev.azure.com/"@ + org + "/"@ + project + "/_apis/git/repositories/"@ + repo_id
        + "/pullRequests/"@ + decimal_text(pr_id as nat) + "/threads/"@ + decimal_text(
        thread_id as nat,
    ) + "/comments?api-version=7.1-preview.1"@
}

/// The address to which a reply in a thread of a pull request is posted.
pub fn thread_comments_url(org: &str, project: &str, repo_id: &str, pr_id: u64, thread_id: u64) -> (r:
    String)
    ensures
        r@ == thread_comments_url_of(org@, project@, repo_id@, pr_id, thread_id),
{
    let mut r = copy_text("https://dev.azure.com/");
    r.push_str(org);
    r.push_str("/");
    r.push_str(project);
    r.push_str("/_apis/git/repositories/");
    r.push_str(repo_id);
    r.push_str("/pullRequests/");
    r.push_str(u64_to_string(pr_id).as_str());
    r.push_str("/threads/");
    r.push_str(u64_to_string(thread_id).as_str());
    r.push_str("/comments?api-version=7.1-preview.1");
    r
}

/// The address at which a build is shown to people.
pub open spec fn build_results_url_of(org: Seq<char>, project: Seq<char>, build_id: u64) -> Seq<
    char,
> {
    "https://dev.azure.com/"@ + org + "/"@ + project + "/_build/results?buildId="@ + decimal_text(
        build_id as nat,
    )
}

/// The address at which a build is shown to people.
pub fn build_results_url(org: &str, project: &str, build_id: u64) -> (r: String)
    ensures
        r@ == build_results_url_of(org@, project@, build_id),
{
    let mut r = copy_text("https://dev.azure.com/");
    r.push_str(org);
    r.push_str("/");
    r.push_str(project);
    r.push_str("/_build/results?buildId=");
    r.push_str(u64_to_string(build_id).as_str());
    r
}

} // verus!
