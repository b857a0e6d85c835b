//! Answering the caller: relaying a backend response verbatim, and
//! turning each failure into its status code and message.

use vstd::prelude::*;

use crate::model::{BackendResponse, ErrorResponse, FinalResponse, ProxyError};

verus! {

/// The status code a failure is reported as: 502 when the outbound
/// request itself failed, 500 for everything else.
pub open spec fn spec_error_status(e: ProxyError) -> u16 {
    match e {
        ProxyError::Upstream(_) => 502,
        _ => 500,
    }
}

/// The fixed prefix of each failure's message.
pub open spec fn spec_error_prefix(e: ProxyError) -> Seq<char> {
    match e {
        ProxyError::InboundBodyRead(_) => "Body error: "@,
        ProxyError::Upstream(_) => "Request error: "@,
        ProxyError::ResponseBodyRead(_) => "Response error: "@,
        ProxyError::ResponseBuild(_) => "Build error: "@,
    }
}

/// The underlying error text a failure carries.
pub open spec fn spec_error_text(e: ProxyError) -> Seq<char> {
    match e {
        ProxyError::InboundBodyRead(t) => t@,
        ProxyError::Upstream(t) => t@,
        ProxyError::ResponseBodyRead(t) => t@,
        ProxyError::ResponseBuild(t) => t@,
    }
}

/// The reply to the caller for a failed request: the failure's status
/// code, and a message that embeds the underlying error text after a
/// prefix naming the failed step.
pub fn error_response(e: ProxyError) -> (r: ErrorResponse)
    ensures
        r.status == spec_error_status(e),
        r.message@ == spec_error_prefix(e) + spec_error_text(e),
{
    match e {
        ProxyError::InboundBodyRead(t) => ErrorResponse {
            status: 500,
            message: String::from_str("Body error: ").concat(t.as_str()),
        },
        ProxyError::Upstream(t) => ErrorResponse {
            status: 502,
            message: String::from_str("Request error: ").concat(t.as_str()),
        },
        ProxyError::ResponseBodyRead(t) => ErrorResponse {
            status: 500,
            message: String::from_str("Response error: ").concat(t.as_str()),
        },
        ProxyError::ResponseBuild(t) => ErrorResponse {
            status: 500,
            message: String::from_str("Build error: ").concat(t.as_str()),
        },
    }
}

/// Relay a backend response verbatim: the status code, every header
/// in the order received, and the body reach the caller unchanged.
pub fn assemble_response(res: BackendResponse) -> (r: FinalResponse)
    ensures
        r.status == res.status,
        r.headers == res.headers,
        r.body == res.body,
{
    let BackendResponse { status, headers, body } = res;
    FinalResponse { status, headers, body }
}

/// Decide from the outcome of the outbound call: a response that
/// arrived is relayed verbatim; a transport failure answers the caller
/// with 502 and the error text.
pub fn handle_upstream_outcome(outcome: Result<BackendResponse, String>) -> (r: Result<
    FinalResponse,
    ErrorResponse,
>)
    ensures
        outcome is Ok ==> r is Ok && r->Ok_0.status == outcome->Ok_0.status && r->Ok_0.headers
            == outcome->Ok_0.headers && r->Ok_0.body == outcome->Ok_0.body,
        outcome is Err ==> r is Err && r->Err_0.status == 502 && r->Err_0.message@
            == "Request error: "@ + outcome->Err_0@,
{
    match outcome {
        Ok(res) => Ok(assemble_response(res)),
        Err(text) => Err(error_response(ProxyError::Upstream(text))),
    }
}

} // verus!
