use playground_ui::error::Error;
use playground_ui::sandbox;
use playground_ui::wire::ClippyResponse;
use playground_ui::wire::CompileResponse;
use playground_ui::wire::ExecuteResponse;
use playground_ui::wire::FormatResponse;

#[test]
fn json_strings_escape_quotes_backslashes_and_controls() {
    let r = CompileResponse {
        success: false,
        code: "a\"b\\c\nd".to_string(),
        stdout: "tab\there".to_string(),
        stderr: "\r\u{8}\u{c}\u{1}\u{1f}".to_string(),
    };
    assert_eq!(
        r.to_json(),
        "{\"success\":false,\"code\":\"a\\\"b\\\\c\\nd\",\"stdout\":\"tab\\there\",\"stderr\":\"\\r\\b\\f\\u0001\\u001f\"}"
    );
}

#[test]
fn json_bodies_parse_back_to_the_same_fields() {
    let r = CompileResponse {
        success: true,
        code: "weird \" \\ \n \u{3} text".to_string(),
        stdout: "unicode: \u{e9}\u{4e16}\u{754c}".to_string(),
        stderr: "".to_string(),
    };
    let v: serde_json::Value = serde_json::from_str(&r.to_json()).expect("body must be valid JSON");
    assert_eq!(v.get("success").unwrap().as_bool(), Some(true));
    assert_eq!(v.get("code").unwrap().as_str(), Some("weird \" \\ \n \u{3} text"));
    assert_eq!(
        v.get("stdout").unwrap().as_str(),
        Some("unicode: \u{e9}\u{4e16}\u{754c}")
    );
    assert_eq!(v.get("stderr").unwrap().as_str(), Some(""));
}

#[test]
fn each_response_shape_serializes_its_own_fields() {
    let c = ExecuteResponse {
        success: true,
        stdout: "hi".to_string(),
        stderr: "".to_string(),
    };
    assert_eq!(c.to_json(), "{\"success\":true,\"stdout\":\"hi\",\"stderr\":\"\"}");

    let f = FormatResponse {
        success: true,
        code: "fn main() {}".to_string(),
        stdout: "".to_string(),
        stderr: "".to_string(),
    };
    assert_eq!(
        f.to_json(),
        "{\"success\":true,\"code\":\"fn main() {}\",\"stdout\":\"\",\"stderr\":\"\"}"
    );

    let l = ClippyResponse {
        success: false,
        stdout: "".to_string(),
        stderr: "lint failed".to_string(),
    };
    assert_eq!(l.to_json(), "{\"success\":false,\"stdout\":\"\",\"stderr\":\"lint failed\"}");
}

#[test]
fn from_sandbox_maps_fields_one_to_one() {
    let w = CompileResponse::from_sandbox(sandbox::CompileResponse {
        success: true,
        code: "code".to_string(),
        stdout: "out".to_string(),
        stderr: "err".to_string(),
    });
    assert_eq!(w.success, true);
    assert_eq!(w.code, "code");
    assert_eq!(w.stdout, "out");
    assert_eq!(w.stderr, "err");

    let w = ExecuteResponse::from_sandbox(sandbox::ExecuteResponse {
        success: false,
        stdout: "out".to_string(),
        stderr: "err".to_string(),
    });
    assert_eq!(w.success, false);
    assert_eq!(w.stdout, "out");
    assert_eq!(w.stderr, "err");
}

#[test]
fn every_error_variant_has_its_exact_message() {
    assert_eq!(
        Error::Sandbox("boom".to_string()).message(),
        "Sandbox operation failed: boom"
    );
    assert_eq!(
        Error::Serialization("bad".to_string()).message(),
        "Unable to serialize response: bad"
    );
    assert_eq!(
        Error::Deserialization("eof".to_string()).message(),
        "Unable to deserialize request: eof"
    );
    assert_eq!(
        Error::InvalidTarget("mips".to_string()).message(),
        "The value \"mips\" is not a valid target"
    );
    assert_eq!(
        Error::InvalidChannel("alpha".to_string()).message(),
        "The value \"alpha\" is not a valid channel"
    );
    assert_eq!(
        Error::InvalidMode("slow".to_string()).message(),
        "The value \"slow\" is not a valid mode"
    );
    assert_eq!(Error::RequestMissing.message(), "No request was provided");
}

#[test]
fn rejected_values_are_quoted_and_escaped_in_messages() {
    assert_eq!(
        Error::InvalidTarget("a\"b".to_string()).message(),
        "The value \"a\\\"b\" is not a valid target"
    );
    assert_eq!(
        Error::InvalidMode("".to_string()).message(),
        "The value \"\" is not a valid mode"
    );
}
