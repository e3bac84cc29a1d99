//! A minimal model of the HTTP values this layer decides about.
//!
//! The hosting server owns sockets and wire format; the library only
//! determines status, body and the handful of headers whose policy it
//! implements, so a response is modelled as exactly those fields.

use vstd::prelude::*;

verus! {

/// The request methods the routing and CORS rules distinguish.
#[derive(Debug, Clone, Copy, PartialEq, Eq, Structural)]
pub enum Method {
    Get,
    Head,
    Post,
    Put,
    Delete,
    Options,
    Other,
}

/// What this layer decides about an outgoing response: status, body,
/// and the headers governed by its content-type, cache and CORS rules.
/// A `None` header is absent from the response.
#[derive(Debug, Clone, PartialEq, Eq)]
pub struct HttpResponse {
    pub status: u16,
    pub body: String,
    pub content_type: Option<String>,
    pub cache_max_age: Option<u64>,
    pub allow_origin: Option<String>,
    pub allow_headers: Option<String>,
    pub allow_methods: Option<String>,
}

} // verus!
