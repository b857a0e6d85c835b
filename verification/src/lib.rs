//! A reverse HTTP proxy's decision core.
//!
//! Every choice the proxy makes for a request is a pure, verified
//! function here: which backend a request routes to, what outbound URL
//! is built, how the outbound request is assembled from the inbound
//! one, how a backend response is relayed verbatim, and which status
//! and message answer the caller when a step fails. The surrounding
//! server — listening, reading bodies, sending the outbound request —
//! lives outside the library and feeds these functions plain values.

pub mod forward;
pub mod model;
pub mod respond;
pub mod route;
