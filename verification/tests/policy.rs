use playground_ui::config::resolve_config;
use playground_ui::cors::add_cors_headers;
use playground_ui::cors::cors_preflight;
use playground_ui::http::HttpResponse;
use playground_ui::http::Method;
use playground_ui::middleware::apply_static_chain;
use playground_ui::middleware::response_after_logging;

fn bare_response() -> HttpResponse {
    HttpResponse {
        status: 200,
        body: "<html></html>".to_string(),
        content_type: None,
        cache_max_age: None,
        allow_origin: None,
        allow_headers: None,
        allow_methods: None,
    }
}

#[test]
fn preflight_short_circuits_when_enabled() {
    let resp = cors_preflight(true, Method::Options).expect("preflight must be answered");
    assert_eq!(resp.status, 200);
    assert_eq!(resp.body, "");
    assert_eq!(resp.allow_origin.as_deref(), Some("*"));
    assert_eq!(
        resp.allow_headers.as_deref(),
        Some("Origin, X-Requested-With, Content-Type, Accept")
    );
    assert_eq!(resp.allow_methods.as_deref(), Some("GET, PUT, POST"));
}

#[test]
fn preflight_falls_through_when_disabled_or_not_options() {
    assert_eq!(cors_preflight(false, Method::Options), None);
    assert_eq!(cors_preflight(true, Method::Get), None);
    assert_eq!(cors_preflight(true, Method::Post), None);
    assert_eq!(cors_preflight(false, Method::Get), None);
}

#[test]
fn cors_headers_are_injected_only_when_enabled() {
    let mut on = bare_response();
    add_cors_headers(true, &mut on);
    assert_eq!(on.allow_origin.as_deref(), Some("*"));
    assert_eq!(
        on.allow_headers.as_deref(),
        Some("Origin, X-Requested-With, Content-Type, Accept")
    );
    assert_eq!(on.allow_methods.as_deref(), Some("GET, PUT, POST"));
    assert_eq!(on.status, 200);
    assert_eq!(on.body, "<html></html>");

    let mut off = bare_response();
    add_cors_headers(false, &mut off);
    assert_eq!(off, bare_response());
}

#[test]
fn asset_prefix_carries_the_long_lived_policy() {
    let mut resp = bare_response();
    apply_static_chain("assets/app.js", None, &mut resp);
    assert_eq!(resp.cache_max_age, Some(60 * 60 * 24 * 365));

    let mut resp = bare_response();
    apply_static_chain("assets", None, &mut resp);
    assert_eq!(resp.cache_max_age, Some(60 * 60 * 24 * 365));
}

#[test]
fn other_paths_carry_the_short_lived_default() {
    let mut resp = bare_response();
    apply_static_chain("index.html", None, &mut resp);
    assert_eq!(resp.cache_max_age, Some(60 * 60 * 24));

    // A first segment that merely begins with the prefix is not under it.
    let mut resp = bare_response();
    apply_static_chain("assets2/app.js", None, &mut resp);
    assert_eq!(resp.cache_max_age, Some(60 * 60 * 24));

    let mut resp = bare_response();
    apply_static_chain("", None, &mut resp);
    assert_eq!(resp.cache_max_age, Some(60 * 60 * 24));
}

#[test]
fn asset_prefix_boundary_cases() {
    // A bare trailing slash still counts as the prefix segment.
    let mut resp = bare_response();
    apply_static_chain("assets/", None, &mut resp);
    assert_eq!(resp.cache_max_age, Some(60 * 60 * 24 * 365));

    // A shorter first segment never matches.
    let mut resp = bare_response();
    apply_static_chain("asset/app.js", None, &mut resp);
    assert_eq!(resp.cache_max_age, Some(60 * 60 * 24));

    // The prefix deeper in the path does not count.
    let mut resp = bare_response();
    apply_static_chain("static/assets/app.js", None, &mut resp);
    assert_eq!(resp.cache_max_age, Some(60 * 60 * 24));
}

#[test]
fn preflight_response_has_no_other_headers() {
    let resp = cors_preflight(true, Method::Options).expect("preflight must be answered");
    assert_eq!(resp.content_type, None);
    assert_eq!(resp.cache_max_age, None);
}

#[test]
fn content_type_is_inferred_only_when_absent() {
    let mut resp = bare_response();
    apply_static_chain("style.css", Some("text/css".to_string()), &mut resp);
    assert_eq!(resp.content_type.as_deref(), Some("text/css"));

    let mut resp = bare_response();
    apply_static_chain("readme", None, &mut resp);
    assert_eq!(resp.content_type.as_deref(), Some("text/html; charset=utf-8"));

    let mut resp = bare_response();
    resp.content_type = Some("application/wasm".to_string());
    apply_static_chain("app.wasm", Some("text/plain".to_string()), &mut resp);
    assert_eq!(resp.content_type.as_deref(), Some("application/wasm"));
}

#[test]
fn logging_outcome_never_alters_the_response() {
    let resp = bare_response();
    assert_eq!(response_after_logging(resp.clone(), true, true), resp);
    assert_eq!(response_after_logging(resp.clone(), false, true), resp);
    assert_eq!(response_after_logging(resp.clone(), true, false), resp);
    assert_eq!(response_after_logging(resp.clone(), false, false), resp);
}

#[test]
fn config_requires_a_root_and_defaults_the_rest() {
    assert_eq!(resolve_config(None, None, None, None, false), None);

    let c = resolve_config(Some("/srv/ui".to_string()), None, None, None, false).unwrap();
    assert_eq!(c.root, "/srv/ui");
    assert_eq!(c.address, "127.0.0.1");
    assert_eq!(c.port, 5000);
    assert_eq!(c.log_file, "access-log.csv");
    assert!(!c.cors_enabled);

    let c = resolve_config(
        Some("/srv/ui".to_string()),
        Some("0.0.0.0".to_string()),
        Some(8080),
        Some("stats.csv".to_string()),
        true,
    )
    .unwrap();
    assert_eq!(c.address, "0.0.0.0");
    assert_eq!(c.port, 8080);
    assert_eq!(c.log_file, "stats.csv");
    assert!(c.cors_enabled);
}
