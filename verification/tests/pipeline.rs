use playground_ui::dispatch::clippy_finish;
use playground_ui::dispatch::clippy_start;
use playground_ui::dispatch::compile_finish;
use playground_ui::dispatch::compile_start;
use playground_ui::dispatch::execute_finish;
use playground_ui::dispatch::execute_start;
use playground_ui::dispatch::format_start;
use playground_ui::dispatch::respond;
use playground_ui::dispatch::ParseOutcome;
use playground_ui::dispatch::SandboxOutcome;
use playground_ui::dispatch::Step;
use playground_ui::error::Error;
use playground_ui::sandbox;
use playground_ui::wire::ClippyRequest;
use playground_ui::wire::CompileRequest;
use playground_ui::wire::ExecuteRequest;
use playground_ui::wire::FormatRequest;

fn good_compile_request() -> CompileRequest {
    CompileRequest {
        target: "asm".to_string(),
        channel: "stable".to_string(),
        mode: "debug".to_string(),
        crate_type: "bin".to_string(),
        tests: false,
        code: "fn main(){}".to_string(),
    }
}

#[test]
fn compile_happy_path_yields_exact_body() {
    // The parsed request is translated and the sandbox is to be invoked.
    let q = match compile_start(ParseOutcome::Parsed(good_compile_request())) {
        Step::Invoke(q) => q,
        Step::Done(resp) => panic!("expected an invocation, got status {}", resp.status),
    };
    assert_eq!(q.target, sandbox::CompileTarget::Assembly);
    assert_eq!(q.channel, sandbox::Channel::Stable);
    assert_eq!(q.mode, sandbox::Mode::Debug);
    assert_eq!(q.crate_type, sandbox::CrateType::Binary);

    // The sandbox answers; the response carries its report verbatim.
    let resp = compile_finish(SandboxOutcome::Success(sandbox::CompileResponse {
        success: true,
        code: "<asm>".to_string(),
        stdout: "".to_string(),
        stderr: "".to_string(),
    }));
    assert_eq!(resp.status, 200);
    assert_eq!(resp.body, "{\"success\":true,\"code\":\"<asm>\",\"stdout\":\"\",\"stderr\":\"\"}");
    assert_eq!(resp.content_type.as_deref(), Some("application/json"));
}

#[test]
fn malformed_body_is_rejected_before_the_sandbox() {
    let s = compile_start(ParseOutcome::Malformed("expected value at line 1".to_string()));
    let resp = match s {
        Step::Done(resp) => resp,
        Step::Invoke(_) => panic!("the sandbox must not be invoked for a malformed body"),
    };
    assert_eq!(resp.status, 500);
    assert_eq!(
        resp.body,
        "{\"error\":\"Unable to deserialize request: expected value at line 1\"}"
    );
    assert_eq!(resp.content_type.as_deref(), Some("application/json"));
}

#[test]
fn missing_body_is_distinguishable_from_malformed() {
    let missing = match compile_start(ParseOutcome::<CompileRequest>::Missing) {
        Step::Done(resp) => resp,
        Step::Invoke(_) => panic!("the sandbox must not be invoked without a body"),
    };
    assert_eq!(missing.status, 500);
    assert_eq!(missing.body, "{\"error\":\"No request was provided\"}");

    let malformed = match compile_start(ParseOutcome::Malformed("junk".to_string())) {
        Step::Done(resp) => resp,
        Step::Invoke(_) => panic!("the sandbox must not be invoked for a malformed body"),
    };
    assert_ne!(missing.body, malformed.body);
}

#[test]
fn invalid_field_is_rejected_before_the_sandbox() {
    let mut req = good_compile_request();
    req.target = "wasm".to_string();
    let resp = match compile_start(ParseOutcome::Parsed(req)) {
        Step::Done(resp) => resp,
        Step::Invoke(_) => panic!("the sandbox must not be invoked for an invalid target"),
    };
    assert_eq!(resp.status, 500);
    assert_eq!(resp.body, "{\"error\":\"The value \\\"wasm\\\" is not a valid target\"}");
}

#[test]
fn sandbox_failure_funnels_into_the_error_shape() {
    let resp = compile_finish(SandboxOutcome::Failure("container limit reached".to_string()));
    assert_eq!(resp.status, 500);
    assert_eq!(
        resp.body,
        "{\"error\":\"Sandbox operation failed: container limit reached\"}"
    );
    assert_eq!(resp.content_type.as_deref(), Some("application/json"));
}

#[test]
fn execute_pipeline_round_trip() {
    let q = match execute_start(ParseOutcome::Parsed(ExecuteRequest {
        channel: "beta".to_string(),
        mode: "release".to_string(),
        crate_type: "lib".to_string(),
        tests: true,
        code: "fn f(){}".to_string(),
    })) {
        Step::Invoke(q) => q,
        Step::Done(resp) => panic!("expected an invocation, got status {}", resp.status),
    };
    assert_eq!(q.channel, sandbox::Channel::Beta);
    assert_eq!(q.crate_type, sandbox::CrateType::Library);

    let resp = execute_finish(SandboxOutcome::Success(sandbox::ExecuteResponse {
        success: false,
        stdout: "out".to_string(),
        stderr: "err".to_string(),
    }));
    assert_eq!(resp.status, 200);
    assert_eq!(resp.body, "{\"success\":false,\"stdout\":\"out\",\"stderr\":\"err\"}");
}

#[test]
fn format_and_clippy_forward_without_narrowing() {
    let q = match format_start(ParseOutcome::Parsed(FormatRequest {
        code: "fn main( ){}".to_string(),
    })) {
        Step::Invoke(q) => q,
        Step::Done(resp) => panic!("expected an invocation, got status {}", resp.status),
    };
    assert_eq!(q.code, "fn main( ){}");

    let q = match clippy_start(ParseOutcome::Parsed(ClippyRequest {
        code: "fn main(){let x = 1;}".to_string(),
    })) {
        Step::Invoke(q) => q,
        Step::Done(resp) => panic!("expected an invocation, got status {}", resp.status),
    };
    assert_eq!(q.code, "fn main(){let x = 1;}");

    let resp = clippy_finish(SandboxOutcome::Success(sandbox::ClippyResponse {
        success: true,
        stdout: "warning: unused variable".to_string(),
        stderr: "".to_string(),
    }));
    assert_eq!(
        resp.body,
        "{\"success\":true,\"stdout\":\"warning: unused variable\",\"stderr\":\"\"}"
    );
}

#[test]
fn respond_passes_a_success_body_through() {
    let resp = respond(Ok("{\"success\":true}".to_string()));
    assert_eq!(resp.status, 200);
    assert_eq!(resp.body, "{\"success\":true}");
    assert_eq!(resp.content_type.as_deref(), Some("application/json"));
    assert_eq!(resp.cache_max_age, None);
    assert_eq!(resp.allow_origin, None);
}

#[test]
fn respond_renders_every_error_variant() {
    let cases: Vec<(Error, &str)> = vec![
        (
            Error::Sandbox("boom".to_string()),
            "{\"error\":\"Sandbox operation failed: boom\"}",
        ),
        (
            Error::Serialization("bad utf-8".to_string()),
            "{\"error\":\"Unable to serialize response: bad utf-8\"}",
        ),
        (
            Error::Deserialization("eof".to_string()),
            "{\"error\":\"Unable to deserialize request: eof\"}",
        ),
        (
            Error::InvalidTarget("x".to_string()),
            "{\"error\":\"The value \\\"x\\\" is not a valid target\"}",
        ),
        (
            Error::InvalidChannel("y".to_string()),
            "{\"error\":\"The value \\\"y\\\" is not a valid channel\"}",
        ),
        (
            Error::InvalidMode("z".to_string()),
            "{\"error\":\"The value \\\"z\\\" is not a valid mode\"}",
        ),
        (Error::RequestMissing, "{\"error\":\"No request was provided\"}"),
    ];
    for (err, expected) in cases {
        let resp = respond(Err(err));
        assert_eq!(resp.status, 500);
        assert_eq!(resp.body, expected);
    }
}
