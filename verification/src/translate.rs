//! Narrowing of open wire fields to the sandbox's closed vocabulary.
//!
//! One total lookup function per field. Target, channel and mode fail
//! hard on an unrecognized value, carrying the raw string in the error;
//! the crate type alone degrades to a library build instead — a
//! deliberate asymmetry, kept as it is.

use vstd::prelude::*;
use crate::error::Error;
use crate::error::ErrorView;
use crate::sandbox;
use crate::sandbox::Channel;
use crate::sandbox::CompileTarget;
use crate::sandbox::CrateType;
use crate::sandbox::Mode;
use crate::text::str_eq;
use crate::wire;

verus! {

/// The closed target vocabulary: which strings name a target, and
/// which target each names.
pub open spec fn spec_target(s: Seq<char>) -> Option<CompileTarget> {
    if s == "asm"@ {
        Some(CompileTarget::Assembly)
    } else if s == "llvm-ir"@ {
        Some(CompileTarget::LlvmIr)
    } else {
        None
    }
}

/// The closed channel vocabulary.
pub open spec fn spec_channel(s: Seq<char>) -> Option<Channel> {
    if s == "stable"@ {
        Some(Channel::Stable)
    } else if s == "beta"@ {
        Some(Channel::Beta)
    } else if s == "nightly"@ {
        Some(Channel::Nightly)
    } else {
        None
    }
}

/// The closed mode vocabulary.
pub open spec fn spec_mode(s: Seq<char>) -> Option<Mode> {
    if s == "debug"@ {
        Some(Mode::Debug)
    } else if s == "release"@ {
        Some(Mode::Release)
    } else {
        None
    }
}

/// Crate-type narrowing is total: only `"bin"` selects a binary, and
/// every other string — empty or garbage included — is a library.
pub open spec fn spec_crate_type(s: Seq<char>) -> CrateType {
    if s == "bin"@ {
        CrateType::Binary
    } else {
        CrateType::Library
    }
}

/// Narrows a target string, or reports the exact string that failed.
pub fn parse_target(s: &str) -> (r: Result<CompileTarget, Error>)
    ensures
        spec_target(s@) matches Some(t) ==> r == Ok::<CompileTarget, Error>(t),
        spec_target(s@) is None ==> (r matches Err(e) && e@ == ErrorView::InvalidTarget(s@)),
{
    if str_eq(s, "asm") {
        Ok(CompileTarget::Assembly)
    } else if str_eq(s, "llvm-ir") {
        Ok(CompileTarget::LlvmIr)
    } else {
        Err(Error::InvalidTarget(s.to_owned()))
    }
}

/// Narrows a channel string, or reports the exact string that failed.
pub fn parse_channel(s: &str) -> (r: Result<Channel, Error>)
    ensures
        spec_channel(s@) matches Some(c) ==> r == Ok::<Channel, Error>(c),
        spec_channel(s@) is None ==> (r matches Err(e) && e@ == ErrorView::InvalidChannel(s@)),
{
    if str_eq(s, "stable") {
        Ok(Channel::Stable)
    } else if str_eq(s, "beta") {
        Ok(Channel::Beta)
    } else if str_eq(s, "nightly") {
        Ok(Channel::Nightly)
    } else {
        Err(Error::InvalidChannel(s.to_owned()))
    }
}

/// Narrows a mode string, or reports the exact string that failed.
pub fn parse_mode(s: &str) -> (r: Result<Mode, Error>)
    ensures
        spec_mode(s@) matches Some(m) ==> r == Ok::<Mode, Error>(m),
        spec_mode(s@) is None ==> (r matches Err(e) && e@ == ErrorView::InvalidMode(s@)),
{
    if str_eq(s, "debug") {
        Ok(Mode::Debug)
    } else if str_eq(s, "release") {
        Ok(Mode::Release)
    } else {
        Err(Error::InvalidMode(s.to_owned()))
    }
}

/// Narrows a crate-type string; never fails.
pub fn parse_crate_type(s: &str) -> (r: Result<CrateType, Error>)
    ensures
        r == Ok::<CrateType, Error>(spec_crate_type(s@)),
{
    if str_eq(s, "bin") {
        Ok(CrateType::Binary)
    } else {
        Ok(CrateType::Library)
    }
}

/// Translates a wire compile request into a validated sandbox request,
/// or fails with the first invalid field, in the order target, channel,
/// mode.
pub fn translate_compile(req: wire::CompileRequest) -> (r: Result<sandbox::CompileRequest, Error>)
    ensures
        spec_target(req.target@) is None ==> (r matches Err(e) && e@ == ErrorView::InvalidTarget(
            req.target@,
        )),
        spec_target(req.target@) is Some && spec_channel(req.channel@) is None ==> (r matches Err(e)
            && e@ == ErrorView::InvalidChannel(req.channel@)),
        spec_target(req.target@) is Some && spec_channel(req.channel@) is Some && spec_mode(
            req.mode@,
        ) is None ==> (r matches Err(e) && e@ == ErrorView::InvalidMode(req.mode@)),
        spec_target(req.target@) is Some && spec_channel(req.channel@) is Some && spec_mode(
            req.mode@,
        ) is Some ==> (r matches Ok(v) && spec_target(req.target@) == Some(v.target)
            && spec_channel(req.channel@) == Some(v.channel) && spec_mode(req.mode@) == Some(
            v.mode,
        ) && v.crate_type == spec_crate_type(req.crate_type@) && v.tests == req.tests && v.code
            == req.code),
{
    let target = match parse_target(req.target.as_str()) {
        Ok(t) => t,
        Err(e) => {
            return Err(e);
        },
    };
    let channel = match parse_channel(req.channel.as_str()) {
        Ok(c) => c,
        Err(e) => {
            return Err(e);
        },
    };
    let mode = match parse_mode(req.mode.as_str()) {
        Ok(m) => m,
        Err(e) => {
            return Err(e);
        },
    };
    let crate_type = match parse_crate_type(req.crate_type.as_str()) {
        Ok(c) => c,
        Err(e) => {
            return Err(e);
        },
    };
    Ok(
        sandbox::CompileRequest {
            target,
            channel,
            mode,
            crate_type,
            tests: req.tests,
            code: req.code,
        },
    )
}

/// Translates a wire execute request into a validated sandbox request,
/// or fails with the first invalid field, in the order channel, mode.
pub fn translate_execute(req: wire::ExecuteRequest) -> (r: Result<sandbox::ExecuteRequest, Error>)
    ensures
        spec_channel(req.channel@) is None ==> (r matches Err(e) && e@ == ErrorView::InvalidChannel(
            req.channel@,
        )),
        spec_channel(req.channel@) is Some && spec_mode(req.mode@) is None ==> (r matches Err(e)
            && e@ == ErrorView::InvalidMode(req.mode@)),
        spec_channel(req.channel@) is Some && spec_mode(req.mode@) is Some ==> (r matches Ok(v)
            && spec_channel(req.channel@) == Some(v.channel) && spec_mode(req.mode@) == Some(
            v.mode,
        ) && v.crate_type == spec_crate_type(req.crate_type@) && v.tests == req.tests && v.code
            == req.code),
{
    let channel = match parse_channel(req.channel.as_str()) {
        Ok(c) => c,
        Err(e) => {
            return Err(e);
        },
    };
    let mode = match parse_mode(req.mode.as_str()) {
        Ok(m) => m,
        Err(e) => {
            return Err(e);
        },
    };
    let crate_type = match parse_crate_type(req.crate_type.as_str()) {
        Ok(c) => c,
        Err(e) => {
            return Err(e);
        },
    };
    Ok(sandbox::ExecuteRequest { channel, mode, crate_type, tests: req.tests, code: req.code })
}

/// Forwards a format request; the format endpoint narrows nothing.
pub fn translate_format(req: wire::FormatRequest) -> (r: sandbox::FormatRequest)
    ensures
        r.code == req.code,
{
    sandbox::FormatRequest { code: req.code }
}

/// Forwards a lint request; the lint endpoint narrows nothing.
pub fn translate_clippy(req: wire::ClippyRequest) -> (r: sandbox::ClippyRequest)
    ensures
        r.code == req.code,
{
    sandbox::ClippyRequest { code: req.code }
}

} // verus!
