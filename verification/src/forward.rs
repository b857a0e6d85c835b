//! Building the outbound request: URL rewriting and the decision made
//! once the inbound body read has settled.

use vstd::prelude::*;

use crate::model::{
    ErrorResponse, InboundRequest, Method, OutboundRequest, ProxyError, spec_path_and_query,
};
use crate::respond::error_response;
use crate::route::{Backend, base_url, route, spec_base_url, spec_route};

verus! {

/// The outbound URL for a request: the chosen backend's base URL
/// followed by the inbound path-and-query string, unchanged.
pub open spec fn spec_forward_url(method: Method, path: Seq<char>, pq: Seq<char>) -> Seq<char> {
    spec_base_url(spec_route(method, path)) + pq
}

/// Concatenate a backend's base URL with a path-and-query string; an
/// absent path-and-query contributes nothing, leaving the bare base
/// URL.
pub fn forward_url(b: Backend, path_and_query: &Option<String>) -> (r: String)
    ensures
        r@ == spec_base_url(b) + spec_path_and_query(*path_and_query),
{
    let base = base_url(b);
    match path_and_query {
        Some(pq) => base.concat(pq.as_str()),
        None => {
            proof {
                assert(base@ + Seq::<char>::empty() =~= base@);
            }
            base
        },
    }
}

/// Build the outbound request for an inbound request whose body has
/// been read: the method, headers and body are carried over unchanged,
/// and only the URL is rewritten.
pub fn plan_request(req: InboundRequest, body: Vec<u8>) -> (out: OutboundRequest)
    ensures
        out.method == req.method,
        out.headers == req.headers,
        out.body == body,
        out.url@ == spec_forward_url(req.method, req.path@, spec_path_and_query(req.path_and_query)),
{
    let b = route(&req.method, &req.path);
    let url = forward_url(b, &req.path_and_query);
    let InboundRequest { method, path: _, path_and_query: _, headers } = req;
    OutboundRequest { method, url, headers, body }
}

/// The forwarder's first decision: forward the materialized request to
/// the backend, or answer the caller at once.
pub enum Step {
    Forward(OutboundRequest),
    Fail(ErrorResponse),
}

/// Decide from the outcome of the inbound body read. A body that
/// arrived is forwarded; a read failure answers the caller with 500
/// and nothing is forwarded — the error outcome never carries an
/// outbound request.
pub fn handle_body_outcome(req: InboundRequest, body: Result<Vec<u8>, String>) -> (s: Step)
    ensures
        body is Ok ==> s is Forward && s->Forward_0.method == req.method
            && s->Forward_0.headers == req.headers && s->Forward_0.body == body->Ok_0
            && s->Forward_0.url@ == spec_forward_url(
            req.method,
            req.path@,
            spec_path_and_query(req.path_and_query),
        ),
        body is Err ==> s is Fail && s->Fail_0.status == 500 && s->Fail_0.message@ == "Body error: "@
            + body->Err_0@,
{
    match body {
        Ok(b) => Step::Forward(plan_request(req, b)),
        Err(text) => Step::Fail(error_response(ProxyError::InboundBodyRead(text))),
    }
}

/// Forwarding never rewrites the path: the outbound URL splits back
/// into the chosen base URL and exactly the inbound path-and-query
/// string.
pub proof fn lemma_forward_preserves_path_and_query(method: Method, path: Seq<char>, pq: Seq<char>)
    ensures
        spec_forward_url(method, path, pq).len() == spec_base_url(spec_route(method, path)).len()
            + pq.len(),
        spec_forward_url(method, path, pq).skip(
            spec_base_url(spec_route(method, path)).len() as int,
        ) == pq,
        spec_forward_url(method, path, pq).take(
            spec_base_url(spec_route(method, path)).len() as int,
        ) == spec_base_url(spec_route(method, path)),
{
    let base = spec_base_url(spec_route(method, path));
    assert((base + pq).skip(base.len() as int) =~= pq);
    assert((base + pq).take(base.len() as int) =~= base);
}

} // verus!
