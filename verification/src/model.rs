//! Plain-value models of the entities that flow through the proxy:
//! the inbound request, the outbound request, the backend response,
//! the final response, and the error taxonomy.

use vstd::prelude::*;

verus! {

/// An HTTP method. The standard verbs are enumerated; an extension
/// method is carried through under `Other` with its name.
#[derive(Debug, Clone, PartialEq, Eq)]
pub enum Method {
    Get,
    Head,
    Post,
    Put,
    Delete,
    Connect,
    Options,
    Trace,
    Patch,
    Other(String),
}

/// One header: a name and a raw byte value. A header set is a `Vec`
/// of these, so order and multiplicity are preserved.
#[derive(Debug, Clone, PartialEq, Eq)]
pub struct Header {
    pub name: String,
    pub value: Vec<u8>,
}

/// What the proxy reads from an inbound request before its body: the
/// method, the path alone (what routing inspects), the full
/// path-and-query string (what the outbound URL carries, absent on a
/// URI without one), and the header set.
#[derive(Debug, Clone, PartialEq, Eq)]
pub struct InboundRequest {
    pub method: Method,
    pub path: String,
    pub path_and_query: Option<String>,
    pub headers: Vec<Header>,
}

/// The fully materialized request handed to the HTTP client: the
/// inbound method, headers and body, under the rewritten URL.
#[derive(Debug, Clone, PartialEq, Eq)]
pub struct OutboundRequest {
    pub method: Method,
    pub url: String,
    pub headers: Vec<Header>,
    pub body: Vec<u8>,
}

/// A backend response read in full: status code, headers in the order
/// received, and the complete body.
#[derive(Debug, Clone, PartialEq, Eq)]
pub struct BackendResponse {
    pub status: u16,
    pub headers: Vec<Header>,
    pub body: Vec<u8>,
}

/// The response relayed to the original caller on success.
#[derive(Debug, Clone, PartialEq, Eq)]
pub struct FinalResponse {
    pub status: u16,
    pub headers: Vec<Header>,
    pub body: Vec<u8>,
}

/// Everything that can end a single forwarding attempt; each variant
/// carries the underlying error text, and each is terminal for that
/// one request only.
#[derive(Debug, Clone, PartialEq, Eq)]
pub enum ProxyError {
    /// The inbound body could not be read.
    InboundBodyRead(String),
    /// The outbound request did not complete.
    Upstream(String),
    /// The backend response body could not be read.
    ResponseBodyRead(String),
    /// The final response could not be constructed.
    ResponseBuild(String),
}

/// The error reply to the caller: a status code and a message that
/// embeds the underlying error text.
#[derive(Debug, Clone, PartialEq, Eq)]
pub struct ErrorResponse {
    pub status: u16,
    pub message: String,
}

/// The path-and-query string a request contributes to the outbound
/// URL: the one it carries, or empty where the URI had none.
pub open spec fn spec_path_and_query(pq: Option<String>) -> Seq<char> {
    match pq {
        Some(s) => s@,
        None => Seq::<char>::empty(),
    }
}

} // verus!
