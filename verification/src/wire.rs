//! The JSON-level request and response shapes exchanged with clients.
//!
//! Requests arrive as flat records of strings and booleans with no
//! semantic constraints; responses mirror the sandbox's output fields
//! one-to-one and render to a pinned-down character sequence.

use vstd::prelude::*;
use crate::json::json_bool;
use crate::json::json_string;
use crate::json::push_json_bool;
use crate::json::push_json_string;
use crate::sandbox;

verus! {

/// A compile request as it arrives off the wire.
#[derive(Debug, Clone, PartialEq, Eq)]
pub struct CompileRequest {
    pub target: String,
    pub channel: String,
    pub mode: String,
    pub crate_type: String,
    pub tests: bool,
    pub code: String,
}

/// An execute request as it arrives off the wire.
#[derive(Debug, Clone, PartialEq, Eq)]
pub struct ExecuteRequest {
    pub channel: String,
    pub mode: String,
    pub crate_type: String,
    pub tests: bool,
    pub code: String,
}

/// A format request as it arrives off the wire.
#[derive(Debug, Clone, PartialEq, Eq)]
pub struct FormatRequest {
    pub code: String,
}

/// A lint request as it arrives off the wire.
#[derive(Debug, Clone, PartialEq, Eq)]
pub struct ClippyRequest {
    pub code: String,
}

/// A success response that carries emitted code besides the captured
/// streams.
#[derive(Debug, Clone, PartialEq, Eq)]
pub struct CompileResponse {
    pub success: bool,
    pub code: String,
    pub stdout: String,
    pub stderr: String,
}

/// A success response that carries only the captured streams.
#[derive(Debug, Clone, PartialEq, Eq)]
pub struct ExecuteResponse {
    pub success: bool,
    pub stdout: String,
    pub stderr: String,
}

/// Same shape as [`CompileResponse`], for the format endpoint.
#[derive(Debug, Clone, PartialEq, Eq)]
pub struct FormatResponse {
    pub success: bool,
    pub code: String,
    pub stdout: String,
    pub stderr: String,
}

/// Same shape as [`ExecuteResponse`], for the lint endpoint.
#[derive(Debug, Clone, PartialEq, Eq)]
pub struct ClippyResponse {
    pub success: bool,
    pub stdout: String,
    pub stderr: String,
}

/// The JSON body of a response with a `code` field.
pub open spec fn response_json_with_code(
    success: bool,
    code: Seq<char>,
    stdout: Seq<char>,
    stderr: Seq<char>,
) -> Seq<char> {
    "{\"success\":"@ + json_bool(success) + ",\"code\":"@ + json_string(code) + ",\"stdout\":"@
        + json_string(stdout) + ",\"stderr\":"@ + json_string(stderr) + "}"@
}

/// The JSON body of a response without a `code` field.
pub open spec fn response_json_plain(
    success: bool,
    stdout: Seq<char>,
    stderr: Seq<char>,
) -> Seq<char> {
    "{\"success\":"@ + json_bool(success) + ",\"stdout\":"@ + json_string(stdout) + ",\"stderr\":"@
        + json_string(stderr) + "}"@
}

impl CompileResponse {
    /// Carries the sandbox's compilation report over to the wire,
    /// field for field.
    pub fn from_sandbox(r: sandbox::CompileResponse) -> (w: Self)
        ensures
            w.success == r.success,
            w.code == r.code,
            w.stdout == r.stdout,
            w.stderr == r.stderr,
    {
        CompileResponse { success: r.success, code: r.code, stdout: r.stdout, stderr: r.stderr }
    }

    /// Serializes this response to its JSON body.
    pub fn to_json(&self) -> (b: String)
        ensures
            b@ == response_json_with_code(self.success, self.code@, self.stdout@, self.stderr@),
    {
        let mut out = String::from_str("{\"success\":");
        push_json_bool(&mut out, self.success);
        out.append(",\"code\":");
        push_json_string(&mut out, self.code.as_str());
        out.append(",\"stdout\":");
        push_json_string(&mut out, self.stdout.as_str());
        out.append(",\"stderr\":");
        push_json_string(&mut out, self.stderr.as_str());
        out.append("}");
        proof {
            assert(out@ =~= response_json_with_code(
                self.success,
                self.code@,
                self.stdout@,
                self.stderr@,
            ));
        }
        out
    }
}

impl ExecuteResponse {
    /// Carries the sandbox's run report over to the wire, field for
    /// field.
    pub fn from_sandbox(r: sandbox::ExecuteResponse) -> (w: Self)
        ensures
            w.success == r.success,
            w.stdout == r.stdout,
            w.stderr == r.stderr,
    {
        ExecuteResponse { success: r.success, stdout: r.stdout, stderr: r.stderr }
    }

    /// Serializes this response to its JSON body.
    pub fn to_json(&self) -> (b: String)
        ensures
            b@ == response_json_plain(self.success, self.stdout@, self.stderr@),
    {
        let mut out = String::from_str("{\"success\":");
        push_json_bool(&mut out, self.success);
        out.append(",\"stdout\":");
        push_json_string(&mut out, self.stdout.as_str());
        out.append(",\"stderr\":");
        push_json_string(&mut out, self.stderr.as_str());
        out.append("}");
        proof {
            assert(out@ =~= response_json_plain(self.success, self.stdout@, self.stderr@));
        }
        out
    }
}

impl FormatResponse {
    /// Carries the sandbox's reformat report over to the wire, field
    /// for field.
    pub fn from_sandbox(r: sandbox::FormatResponse) -> (w: Self)
        ensures
            w.success == r.success,
            w.code == r.code,
            w.stdout == r.stdout,
            w.stderr == r.stderr,
    {
        FormatResponse { success: r.success, code: r.code, stdout: r.stdout, stderr: r.stderr }
    }

    /// Serializes this response to its JSON body.
    pub fn to_json(&self) -> (b: String)
        ensures
            b@ == response_json_with_code(self.success, self.code@, self.stdout@, self.stderr@),
    {
        let mut out = String::from_str("{\"success\":");
        push_json_bool(&mut out, self.success);
        out.append(",\"code\":");
        push_json_string(&mut out, self.code.as_str());
        out.append(",\"stdout\":");
        push_json_string(&mut out, self.stdout.as_str());
        out.append(",\"stderr\":");
        push_json_string(&mut out, self.stderr.as_str());
        out.append("}");
        proof {
            assert(out@ =~= response_json_with_code(
                self.success,
                self.code@,
                self.stdout@,
                self.stderr@,
            ));
        }
        out
    }
}

impl ClippyResponse {
    /// Carries the sandbox's lint report over to the wire, field for
    /// field.
    pub fn from_sandbox(r: sandbox::ClippyResponse) -> (w: Self)
        ensures
            w.success == r.success,
            w.stdout == r.stdout,
            w.stderr == r.stderr,
    {
        ClippyResponse { success: r.success, stdout: r.stdout, stderr: r.stderr }
    }

    /// Serializes this response to its JSON body.
    pub fn to_json(&self) -> (b: String)
        ensures
            b@ == response_json_plain(self.success, self.stdout@, self.stderr@),
    {
        let mut out = String::from_str("{\"success\":");
        push_json_bool(&mut out, self.success);
        out.append(",\"stdout\":");
        push_json_string(&mut out, self.stdout.as_str());
        out.append(",\"stderr\":");
        push_json_string(&mut out, self.stderr.as_str());
        out.append("}");
        proof {
            assert(out@ =~= response_json_plain(self.success, self.stdout@, self.stderr@));
        }
        out
    }
}

} // verus!
