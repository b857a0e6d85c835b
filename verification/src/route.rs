//! Route selection: the static rule that picks a backend from a
//! request's method and path.

use vstd::prelude::*;

use crate::model::Method;

verus! {

/// The two fixed backends a request can route to.
#[derive(Debug, Clone, Copy, PartialEq, Eq, Structural)]
pub enum Backend {
    /// Serves POST requests to exactly "/query".
    Query,
    /// Serves every other request.
    General,
}

/// The routing rule: POST to exactly "/query" picks the query
/// backend; every other (method, path) combination picks the general
/// backend. Total: every request maps to exactly one backend.
pub open spec fn spec_route(method: Method, path: Seq<char>) -> Backend {
    if method == Method::Post && path == "/query"@ {
        Backend::Query
    } else {
        Backend::General
    }
}

/// Each backend's fixed base URL.
pub open spec fn spec_base_url(b: Backend) -> Seq<char> {
    match b {
        Backend::Query => "http://0.0.0.0:4000"@,
        Backend::General => "http://0.0.0.0:3000"@,
    }
}

/// Tests whether a path is exactly "/query": no normalization, no
/// prefix match.
fn is_query_path(path: &String) -> (r: bool)
    ensures
        r == (path@ == "/query"@),
{
    let q = String::from_str("/query");
    path.eq(&q)
}

/// Choose the backend for a request.
pub fn route(method: &Method, path: &String) -> (b: Backend)
    ensures
        b == spec_route(*method, path@),
{
    let is_post = matches!(method, Method::Post);
    if is_post && is_query_path(path) {
        Backend::Query
    } else {
        Backend::General
    }
}

/// The base URL of a backend, as a string.
pub fn base_url(b: Backend) -> (r: String)
    ensures
        r@ == spec_base_url(b),
{
    match b {
        Backend::Query => String::from_str("http://0.0.0.0:4000"),
        Backend::General => String::from_str("http://0.0.0.0:3000"),
    }
}

/// Routing is exclusive and total: the query backend is chosen for
/// exactly the POST "/query" requests, and every other request gets
/// the general backend — never both, never neither.
pub proof fn lemma_route_exclusive(method: Method, path: Seq<char>)
    ensures
        spec_route(method, path) == Backend::Query <==> (method == Method::Post && path
            == "/query"@),
        spec_route(method, path) == Backend::General <==> !(method == Method::Post && path
            == "/query"@),
{
}

/// The two backends are genuinely distinct targets: their base URLs
/// differ.
pub proof fn lemma_backends_distinct()
    ensures
        spec_base_url(Backend::Query) != spec_base_url(Backend::General),
{
    reveal_strlit("http://0.0.0.0:4000");
    reveal_strlit("http://0.0.0.0:3000");
    assert(spec_base_url(Backend::Query)[15] == '4');
    assert(spec_base_url(Backend::General)[15] == '3');
}

} // verus!
