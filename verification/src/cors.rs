//! The optional CORS gate: one process-wide flag, resolved at startup
//! and passed in explicitly, enables two cooperating behaviors — a
//! preflight short-circuit and permissive header injection on every
//! outgoing response. With the toggle off, neither applies and a preflight
//! request falls through to ordinary routing.

use vstd::prelude::*;
use crate::http::HttpResponse;
use crate::http::Method;

verus! {

/// Injects the permissive CORS headers when the toggle is on: a
/// wildcard allowed origin, the fixed allowed-header set (their names
/// are matched case-insensitively on the wire), and the three allowed
/// methods. Everything else about the response, and the whole response
/// when the toggle is off, stays as it was.
pub fn add_cors_headers(enabled: bool, resp: &mut HttpResponse)
    ensures
        !enabled ==> *final(resp) == *old(resp),
        enabled ==> (final(resp).allow_origin matches Some(v) && v@ == "*"@),
        enabled ==> (final(resp).allow_headers matches Some(v) && v@
            == "Origin, X-Requested-With, Content-Type, Accept"@),
        enabled ==> (final(resp).allow_methods matches Some(v) && v@ == "GET, PUT, POST"@),
        final(resp).status == old(resp).status,
        final(resp).body == old(resp).body,
        final(resp).content_type == old(resp).content_type,
        final(resp).cache_max_age == old(resp).cache_max_age,
{
    if enabled {
        resp.allow_origin = Some(String::from_str("*"));
        resp.allow_headers = Some(
            String::from_str("Origin, X-Requested-With, Content-Type, Accept"),
        );
        resp.allow_methods = Some(String::from_str("GET, PUT, POST"));
    }
}

/// The preflight short-circuit: when the toggle is on and the
/// method is the preflight method, the request is answered here — 200,
/// empty body, the three CORS headers — and no inner handler runs.
/// In every other case nothing is decided and the request falls
/// through.
pub fn cors_preflight(enabled: bool, method: Method) -> (r: Option<HttpResponse>)
    ensures
        enabled && method == Method::Options ==> (r matches Some(resp) && resp.status == 200
            && resp.body@ == Seq::<char>::empty() && (resp.allow_origin matches Some(v) && v@
            == "*"@) && (resp.allow_headers matches Some(v) && v@
            == "Origin, X-Requested-With, Content-Type, Accept"@) && (
        resp.allow_methods matches Some(v) && v@ == "GET, PUT, POST"@) && resp.content_type is None
            && resp.cache_max_age is None),
        !(enabled && method == Method::Options) ==> r is None,
{
    if enabled && method == Method::Options {
        let mut resp = HttpResponse {
            status: 200,
            body: String::new(),
            content_type: None,
            cache_max_age: None,
            allow_origin: None,
            allow_headers: None,
            allow_methods: None,
        };
        add_cors_headers(true, &mut resp);
        Some(resp)
    } else {
        None
    }
}

} // verus!
