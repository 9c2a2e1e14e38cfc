//! Addressing the deployment platform: where its endpoints are, and what an
//! answer without content means.

use crate::text::{
    copy_text, is_char, trim_back, trim_both, trim_end_char, trim_front, trim_start_char, trimmed,
    white_space,
};
use vstd::prelude::*;

verus! {

/// The address of the platform as it is kept: without the slashes at its
/// end.
pub open spec fn base_url_of(configured: Seq<char>) -> Seq<char> {
    trim_back(configured, is_char('/'))
}

/// The address of the platform as it is kept.
pub fn normalize_base_url(configured: &str) -> (r: String)
    ensures
        r@ == base_url_of(configured@),
{
    trim_end_char(configured, '/')
}

/// The address of an endpoint: the address of the platform, a slash, and
/// the path of the endpoint without the slashes before it.
pub open spec fn joined_url(base_url: Seq<char>, path: Seq<char>) -> Seq<char> {
    base_url + "/"@ + trim_front(path, is_char('/'))
}

/// The address of an endpoint.
pub fn join_url(base_url: &str, path: &str) -> (r: String)
    ensures
        r@ == joined_url(base_url@, path@),
{
    let mut r = copy_text(base_url);
    r.push_str("/");
    r.push_str(trim_start_char(path, '/').as_str());
    r
}

/// The path of the endpoint that lists the domains of a compose resource.
pub open spec fn domains_path_of(compose_id: Seq<char>) -> Seq<char> {
    "domain.byComposeId?composeId="@ + compose_id
}

/// The path of the endpoint that lists the domains of a compose resource.
pub fn domains_path(compose_id: &str) -> (r: String)
    ensures
        r@ == domains_path_of(compose_id@),
{
    let mut r = copy_text("domain.byComposeId?composeId=");
    r.push_str(compose_id);
    r
}

/// The path of the endpoint that gives a compose resource with its
/// deployment history.
pub open spec fn compose_detail_path_of(compose_id: Seq<char>) -> Seq<char> {
    "compose.one?composeId="@ + compose_id
}

/// The path of the endpoint that gives a compose resource with its
/// deployment history.
pub fn compose_detail_path(compose_id: &str) -> (r: String)
    ensures
        r@ == compose_detail_path_of(compose_id@),
{
    let mut r = copy_text("compose.one?composeId=");
    r.push_str(compose_id);
    r
}

/// Whether the body of an answer holds nothing but white space: the
/// platform answers so where a compose resource has no domains.
pub open spec fn is_blank(body: Seq<char>) -> bool {
    trim_both(body, white_space()).len() == 0
}

/// Executable form of [`is_blank`].
pub fn blank(body: &str) -> (r: bool)
    ensures
        r == is_blank(body@),
{
    trimmed(body).len() == 0
}

} // verus!
