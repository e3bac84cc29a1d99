//! Header policy of the static-asset branch, and the statistics
//! wrapper's one guarantee.
//!
//! The filters form an explicit ordered list and are applied
//! most-specific-last: the short-lived default cache policy first, the
//! long-lived override for the designated asset prefix after it — so
//! the override wins whenever both could apply — and content-type
//! inference for responses that arrived without one.

use vstd::prelude::*;
use crate::http::HttpResponse;
use crate::text::str_eq;

verus! {

/// Max-age of the short-lived default cache policy.
pub const ONE_DAY_IN_SECONDS: u64 = 60 * 60 * 24;

/// Max-age of the long-lived policy for the designated asset prefix.
pub const ONE_YEAR_IN_SECONDS: u64 = 60 * 60 * 24 * 365;

/// Whether a request path (without its leading slash) lies under the
/// designated asset prefix: its first segment is exactly `assets`.
pub open spec fn in_assets_prefix(p: Seq<char>) -> bool {
    p == "assets"@ || (p.len() > 6 && p.subrange(0, 6) == "assets"@ && p[6] == '/')
}

/// Decides [`in_assets_prefix`] for a path.
pub fn is_asset_path(path: &str) -> (r: bool)
    ensures
        r == in_assets_prefix(path@),
{
    proof {
        reveal_strlit("assets");
    }
    let len = path.unicode_len();
    if len == 6 {
        str_eq(path, "assets")
    } else if len > 6 {
        let head = path.substring_char(0, 6);
        if str_eq(head, "assets") {
            path.get_char(6) == '/'
        } else {
            false
        }
    } else {
        false
    }
}

/// Applies the short-lived default cache policy to every response of
/// the static branch.
pub fn apply_default_cache(resp: &mut HttpResponse)
    ensures
        final(resp).cache_max_age == Some(ONE_DAY_IN_SECONDS),
        final(resp).status == old(resp).status,
        final(resp).body == old(resp).body,
        final(resp).content_type == old(resp).content_type,
        final(resp).allow_origin == old(resp).allow_origin,
        final(resp).allow_headers == old(resp).allow_headers,
        final(resp).allow_methods == old(resp).allow_methods,
{
    resp.cache_max_age = Some(ONE_DAY_IN_SECONDS);
}

/// Applies the long-lived cache policy to paths under the asset
/// prefix, overriding whatever policy stands; other paths are left
/// alone.
pub fn apply_assets_override(path: &str, resp: &mut HttpResponse)
    ensures
        in_assets_prefix(path@) ==> final(resp).cache_max_age == Some(ONE_YEAR_IN_SECONDS),
        !in_assets_prefix(path@) ==> final(resp).cache_max_age == old(resp).cache_max_age,
        final(resp).status == old(resp).status,
        final(resp).body == old(resp).body,
        final(resp).content_type == old(resp).content_type,
        final(resp).allow_origin == old(resp).allow_origin,
        final(resp).allow_headers == old(resp).allow_headers,
        final(resp).allow_methods == old(resp).allow_methods,
{
    if is_asset_path(path) {
        resp.cache_max_age = Some(ONE_YEAR_IN_SECONDS);
    }
}

/// Fills in a content type for a response that lacks one: the guess
/// made from the file's extension when there is a guess, the HTML
/// default otherwise. An explicit content type is never touched.
pub fn infer_content_type(guessed: Option<String>, resp: &mut HttpResponse)
    ensures
        old(resp).content_type is Some ==> final(resp).content_type == old(resp).content_type,
        old(resp).content_type is None && guessed is Some ==> final(resp).content_type == guessed,
        old(resp).content_type is None && guessed is None ==> (
        final(resp).content_type matches Some(ct) && ct@ == "text/html; charset=utf-8"@),
        final(resp).status == old(resp).status,
        final(resp).body == old(resp).body,
        final(resp).cache_max_age == old(resp).cache_max_age,
        final(resp).allow_origin == old(resp).allow_origin,
        final(resp).allow_headers == old(resp).allow_headers,
        final(resp).allow_methods == old(resp).allow_methods,
{
    if resp.content_type.is_none() {
        match guessed {
            Some(g) => {
                resp.content_type = Some(g);
            },
            None => {
                resp.content_type = Some(String::from_str("text/html; charset=utf-8"));
            },
        }
    }
}

/// The whole static-branch chain in its required order. The asset
/// override runs after the default, so the long-lived policy wins on
/// asset paths; every other path keeps the short-lived default.
pub fn apply_static_chain(path: &str, guessed: Option<String>, resp: &mut HttpResponse)
    ensures
        in_assets_prefix(path@) ==> final(resp).cache_max_age == Some(ONE_YEAR_IN_SECONDS),
        !in_assets_prefix(path@) ==> final(resp).cache_max_age == Some(ONE_DAY_IN_SECONDS),
        old(resp).content_type is Some ==> final(resp).content_type == old(resp).content_type,
        old(resp).content_type is None && guessed is Some ==> final(resp).content_type == guessed,
        old(resp).content_type is None && guessed is None ==> (
        final(resp).content_type matches Some(ct) && ct@ == "text/html; charset=utf-8"@),
        final(resp).status == old(resp).status,
        final(resp).body == old(resp).body,
        final(resp).allow_origin == old(resp).allow_origin,
        final(resp).allow_headers == old(resp).allow_headers,
        final(resp).allow_methods == old(resp).allow_methods,
{
    apply_default_cache(resp);
    apply_assets_override(path, resp);
    infer_content_type(guessed, resp);
}

/// The statistics wrapper records a request on entry and on
/// completion, but its sink is best-effort: however either write
/// fared, the client-visible response is exactly the inner handler's.
pub fn response_after_logging(
    resp: HttpResponse,
    entry_logged: bool,
    completion_logged: bool,
) -> (r: HttpResponse)
    ensures
        r == resp,
{
    resp
}

} // verus!
