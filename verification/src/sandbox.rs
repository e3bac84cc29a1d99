//! Interface data of the external execution sandbox.
//!
//! The sandbox itself — process isolation, resource limits, tool
//! invocation — is an outside collaborator; this library only prepares
//! the values handed to it and interprets what comes back. The types
//! here are the closed vocabulary that crosses that boundary: no raw
//! string ever reaches the sandbox for a target, channel or mode.

use vstd::prelude::*;

verus! {

/// Output form a compilation may be asked for.
#[derive(Debug, Clone, Copy, PartialEq, Eq, Structural)]
pub enum CompileTarget {
    Assembly,
    LlvmIr,
}

/// Toolchain release channel.
#[derive(Debug, Clone, Copy, PartialEq, Eq, Structural)]
pub enum Channel {
    Stable,
    Beta,
    Nightly,
}

/// Optimization mode of a build.
#[derive(Debug, Clone, Copy, PartialEq, Eq, Structural)]
pub enum Mode {
    Debug,
    Release,
}

/// Shape of the crate the sandbox builds.
#[derive(Debug, Clone, Copy, PartialEq, Eq, Structural)]
pub enum CrateType {
    Binary,
    Library,
}

/// A compilation request whose open string fields have been narrowed
/// to the closed vocabulary above.
#[derive(Debug, Clone, PartialEq, Eq)]
pub struct CompileRequest {
    pub target: CompileTarget,
    pub channel: Channel,
    pub mode: Mode,
    pub crate_type: CrateType,
    pub tests: bool,
    pub code: String,
}

/// What the sandbox reports back for a compilation.
#[derive(Debug, Clone, PartialEq, Eq)]
pub struct CompileResponse {
    pub success: bool,
    pub code: String,
    pub stdout: String,
    pub stderr: String,
}

/// A validated request to build and run code.
#[derive(Debug, Clone, PartialEq, Eq)]
pub struct ExecuteRequest {
    pub channel: Channel,
    pub mode: Mode,
    pub crate_type: CrateType,
    pub tests: bool,
    pub code: String,
}

/// What the sandbox reports back for a run.
#[derive(Debug, Clone, PartialEq, Eq)]
pub struct ExecuteResponse {
    pub success: bool,
    pub stdout: String,
    pub stderr: String,
}

/// A request to reformat a piece of code.
#[derive(Debug, Clone, PartialEq, Eq)]
pub struct FormatRequest {
    pub code: String,
}

/// What the sandbox reports back for a reformat.
#[derive(Debug, Clone, PartialEq, Eq)]
pub struct FormatResponse {
    pub success: bool,
    pub code: String,
    pub stdout: String,
    pub stderr: String,
}

/// A request to lint a piece of code.
#[derive(Debug, Clone, PartialEq, Eq)]
pub struct ClippyRequest {
    pub code: String,
}

/// What the sandbox reports back for a lint run.
#[derive(Debug, Clone, PartialEq, Eq)]
pub struct ClippyResponse {
    pub success: bool,
    pub stdout: String,
    pub stderr: String,
}

} // verus!
