//! The per-endpoint dispatch pipeline and the single error funnel.
//!
//! Handling runs in strict order — parse, translate, sandbox call,
//! response mapping, serialization — and short-circuits on the first
//! failure. The steps around the sandbox call are split in two: a
//! `*_start` function decides from the parse outcome whether the
//! sandbox is to be invoked at all, and a `*_finish` function turns
//! whatever the sandbox call produced into the response. The caller
//! acquires a sandbox handle only when `*_start` says `Invoke`, so a
//! request that fails to parse or translate never touches the sandbox.
//!
//! Every failure of any step funnels through [`respond`] into one JSON
//! error shape with a server-error status.

use vstd::prelude::*;
use crate::error::Error;
use crate::error::ErrorView;
use crate::error::error_message;
use crate::http::HttpResponse;
use crate::json::json_string;
use crate::json::push_json_string;
use crate::sandbox;
use crate::translate;
use crate::wire;

verus! {

/// Status of a handled request.
pub const STATUS_OK: u16 = 200;

/// Status of every failed request: failure categories are told apart
/// by message text alone, a deliberately coarse contract.
pub const STATUS_INTERNAL_SERVER_ERROR: u16 = 500;

/// The fixed payload a client would receive if rendering an error
/// could itself fail. The error writer below is proved total, so this
/// last line of defence is never reached from verified code; it is
/// kept for the outermost, unverified catch of the hosting server.
pub const FATAL_ERROR_JSON: &'static str =
    "{\"error\": \"Multiple cascading errors occurred, abandon all hope\"}";

/// What reading and parsing a request body came to: no body at all, a
/// body that would not parse (with the parser's own cause text), or a
/// parsed wire request.
#[derive(Debug, Clone, PartialEq, Eq)]
pub enum ParseOutcome<R> {
    Missing,
    Malformed(String),
    Parsed(R),
}

/// What one sandbox call came to: a failure of acquiring the handle or
/// of the operation itself (with its cause text), or the sandbox's
/// response.
#[derive(Debug, Clone, PartialEq, Eq)]
pub enum SandboxOutcome<R> {
    Failure(String),
    Success(R),
}

/// The decision a `*_start` function hands back: either the request is
/// already answered, or the sandbox is to be invoked with a validated
/// request, exactly once.
#[derive(Debug, Clone, PartialEq, Eq)]
pub enum Step<Q> {
    Done(HttpResponse),
    Invoke(Q),
}

/// The one JSON error shape every failure renders to.
pub open spec fn error_json(msg: Seq<char>) -> Seq<char> {
    "{\"error\":"@ + json_string(msg) + "}"@
}

/// The body of the response to an error: its message inside
/// [`error_json`].
pub open spec fn error_body(e: ErrorView) -> Seq<char> {
    error_json(error_message(e))
}

/// The single funnel at the HTTP boundary: a serialized success body
/// leaves with status 200, any error leaves with a server-error status
/// and the error's one JSON rendering; both carry the JSON content
/// type.
pub fn respond(r: Result<String, Error>) -> (resp: HttpResponse)
    ensures
        r matches Ok(body) ==> resp.status == STATUS_OK && resp.body@ == body@,
        r matches Err(e) ==> resp.status == STATUS_INTERNAL_SERVER_ERROR && resp.body@
            == error_body(e@),
        resp.content_type matches Some(ct) && ct@ == "application/json"@,
        resp.cache_max_age is None,
        resp.allow_origin is None,
        resp.allow_headers is None,
        resp.allow_methods is None,
{
    match r {
        Ok(body) => HttpResponse {
            status: STATUS_OK,
            body,
            content_type: Some(String::from_str("application/json")),
            cache_max_age: None,
            allow_origin: None,
            allow_headers: None,
            allow_methods: None,
        },
        Err(e) => {
            let msg = e.message();
            let mut b = String::from_str("{\"error\":");
            push_json_string(&mut b, msg.as_str());
            b.append("}");
            proof {
                assert(b@ =~= error_body(e@));
            }
            HttpResponse {
                status: STATUS_INTERNAL_SERVER_ERROR,
                body: b,
                content_type: Some(String::from_str("application/json")),
                cache_max_age: None,
                allow_origin: None,
                allow_headers: None,
                allow_methods: None,
            }
        },
    }
}

/// The translation error, if any, that a compile request's fields
/// produce, in the order the fields are checked.
pub open spec fn compile_translation_error(
    target: Seq<char>,
    channel: Seq<char>,
    mode: Seq<char>,
) -> Option<ErrorView> {
    if translate::spec_target(target) is None {
        Some(ErrorView::InvalidTarget(target))
    } else if translate::spec_channel(channel) is None {
        Some(ErrorView::InvalidChannel(channel))
    } else if translate::spec_mode(mode) is None {
        Some(ErrorView::InvalidMode(mode))
    } else {
        None
    }
}

/// The translation error, if any, that an execute request's fields
/// produce.
pub open spec fn execute_translation_error(channel: Seq<char>, mode: Seq<char>) -> Option<
    ErrorView,
> {
    if translate::spec_channel(channel) is None {
        Some(ErrorView::InvalidChannel(channel))
    } else if translate::spec_mode(mode) is None {
        Some(ErrorView::InvalidMode(mode))
    } else {
        None
    }
}

/// Decides the compile endpoint up to the sandbox call: a missing,
/// malformed or untranslatable request is answered at once and the
/// sandbox is never invoked; a valid one becomes the validated request
/// to invoke it with.
pub fn compile_start(p: ParseOutcome<wire::CompileRequest>) -> (s: Step<sandbox::CompileRequest>)
    ensures
        p matches ParseOutcome::Missing ==> (s matches Step::Done(resp) && resp.status
            == STATUS_INTERNAL_SERVER_ERROR && resp.body@ == error_body(ErrorView::RequestMissing)),
        p matches ParseOutcome::Malformed(c) ==> (s matches Step::Done(resp) && resp.status
            == STATUS_INTERNAL_SERVER_ERROR && resp.body@ == error_body(
            ErrorView::Deserialization(c@),
        )),
        p matches ParseOutcome::Parsed(req) ==> (compile_translation_error(
            req.target@,
            req.channel@,
            req.mode@,
        ) matches Some(ev) ==> (s matches Step::Done(resp) && resp.status
            == STATUS_INTERNAL_SERVER_ERROR && resp.body@ == error_body(ev))),
        p matches ParseOutcome::Parsed(req) ==> (compile_translation_error(
            req.target@,
            req.channel@,
            req.mode@,
        ) is None ==> (s matches Step::Invoke(q) && translate::spec_target(req.target@) == Some(
            q.target,
        ) && translate::spec_channel(req.channel@) == Some(q.channel) && translate::spec_mode(
            req.mode@,
        ) == Some(q.mode) && q.crate_type == translate::spec_crate_type(req.crate_type@) && q.tests
            == req.tests && q.code == req.code)),
        s matches Step::Done(resp) ==> (resp.content_type matches Some(ct) && ct@
            == "application/json"@),
{
    match p {
        ParseOutcome::Missing => Step::Done(respond(Err(Error::RequestMissing))),
        ParseOutcome::Malformed(c) => Step::Done(respond(Err(Error::Deserialization(c)))),
        ParseOutcome::Parsed(req) => match translate::translate_compile(req) {
            Ok(q) => Step::Invoke(q),
            Err(e) => Step::Done(respond(Err(e))),
        },
    }
}

/// Turns the sandbox's compile outcome into the response: its report
/// mapped field for field and serialized on success, the one error
/// funnel on failure.
pub fn compile_finish(o: SandboxOutcome<sandbox::CompileResponse>) -> (resp: HttpResponse)
    ensures
        o matches SandboxOutcome::Failure(c) ==> resp.status == STATUS_INTERNAL_SERVER_ERROR
            && resp.body@ == error_body(ErrorView::Sandbox(c@)),
        o matches SandboxOutcome::Success(r) ==> resp.status == STATUS_OK && resp.body@
            == wire::response_json_with_code(r.success, r.code@, r.stdout@, r.stderr@),
        resp.content_type matches Some(ct) && ct@ == "application/json"@,
{
    match o {
        SandboxOutcome::Failure(c) => respond(Err(Error::Sandbox(c))),
        SandboxOutcome::Success(r) => {
            let w = wire::CompileResponse::from_sandbox(r);
            let body = w.to_json();
            respond(Ok(body))
        },
    }
}

/// Decides the execute endpoint up to the sandbox call, as
/// [`compile_start`] does for compile.
pub fn execute_start(p: ParseOutcome<wire::ExecuteRequest>) -> (s: Step<sandbox::ExecuteRequest>)
    ensures
        p matches ParseOutcome::Missing ==> (s matches Step::Done(resp) && resp.status
            == STATUS_INTERNAL_SERVER_ERROR && resp.body@ == error_body(ErrorView::RequestMissing)),
        p matches ParseOutcome::Malformed(c) ==> (s matches Step::Done(resp) && resp.status
            == STATUS_INTERNAL_SERVER_ERROR && resp.body@ == error_body(
            ErrorView::Deserialization(c@),
        )),
        p matches ParseOutcome::Parsed(req) ==> (execute_translation_error(
            req.channel@,
            req.mode@,
        ) matches Some(ev) ==> (s matches Step::Done(resp) && resp.status
            == STATUS_INTERNAL_SERVER_ERROR && resp.body@ == error_body(ev))),
        p matches ParseOutcome::Parsed(req) ==> (execute_translation_error(
            req.channel@,
            req.mode@,
        ) is None ==> (s matches Step::Invoke(q) && translate::spec_channel(req.channel@) == Some(
            q.channel,
        ) && translate::spec_mode(req.mode@) == Some(q.mode) && q.crate_type
            == translate::spec_crate_type(req.crate_type@) && q.tests == req.tests && q.code
            == req.code)),
        s matches Step::Done(resp) ==> (resp.content_type matches Some(ct) && ct@
            == "application/json"@),
{
    match p {
        ParseOutcome::Missing => Step::Done(respond(Err(Error::RequestMissing))),
        ParseOutcome::Malformed(c) => Step::Done(respond(Err(Error::Deserialization(c)))),
        ParseOutcome::Parsed(req) => match translate::translate_execute(req) {
            Ok(q) => Step::Invoke(q),
            Err(e) => Step::Done(respond(Err(e))),
        },
    }
}

/// Turns the sandbox's run outcome into the response.
pub fn execute_finish(o: SandboxOutcome<sandbox::ExecuteResponse>) -> (resp: HttpResponse)
    ensures
        o matches SandboxOutcome::Failure(c) ==> resp.status == STATUS_INTERNAL_SERVER_ERROR
            && resp.body@ == error_body(ErrorView::Sandbox(c@)),
        o matches SandboxOutcome::Success(r) ==> resp.status == STATUS_OK && resp.body@
            == wire::response_json_plain(r.success, r.stdout@, r.stderr@),
        resp.content_type matches Some(ct) && ct@ == "application/json"@,
{
    match o {
        SandboxOutcome::Failure(c) => respond(Err(Error::Sandbox(c))),
        SandboxOutcome::Success(r) => {
            let w = wire::ExecuteResponse::from_sandbox(r);
            let body = w.to_json();
            respond(Ok(body))
        },
    }
}

/// Decides the format endpoint up to the sandbox call. The format
/// endpoint narrows nothing, so every parsed request is forwarded.
pub fn format_start(p: ParseOutcome<wire::FormatRequest>) -> (s: Step<sandbox::FormatRequest>)
    ensures
        p matches ParseOutcome::Missing ==> (s matches Step::Done(resp) && resp.status
            == STATUS_INTERNAL_SERVER_ERROR && resp.body@ == error_body(ErrorView::RequestMissing)),
        p matches ParseOutcome::Malformed(c) ==> (s matches Step::Done(resp) && resp.status
            == STATUS_INTERNAL_SERVER_ERROR && resp.body@ == error_body(
            ErrorView::Deserialization(c@),
        )),
        p matches ParseOutcome::Parsed(req) ==> (s matches Step::Invoke(q) && q.code == req.code),
        s matches Step::Done(resp) ==> (resp.content_type matches Some(ct) && ct@
            == "application/json"@),
{
    match p {
        ParseOutcome::Missing => Step::Done(respond(Err(Error::RequestMissing))),
        ParseOutcome::Malformed(c) => Step::Done(respond(Err(Error::Deserialization(c)))),
        ParseOutcome::Parsed(req) => Step::Invoke(translate::translate_format(req)),
    }
}

/// Turns the sandbox's reformat outcome into the response.
pub fn format_finish(o: SandboxOutcome<sandbox::FormatResponse>) -> (resp: HttpResponse)
    ensures
        o matches SandboxOutcome::Failure(c) ==> resp.status == STATUS_INTERNAL_SERVER_ERROR
            && resp.body@ == error_body(ErrorView::Sandbox(c@)),
        o matches SandboxOutcome::Success(r) ==> resp.status == STATUS_OK && resp.body@
            == wire::response_json_with_code(r.success, r.code@, r.stdout@, r.stderr@),
        resp.content_type matches Some(ct) && ct@ == "application/json"@,
{
    match o {
        SandboxOutcome::Failure(c) => respond(Err(Error::Sandbox(c))),
        SandboxOutcome::Success(r) => {
            let w = wire::FormatResponse::from_sandbox(r);
            let body = w.to_json();
            respond(Ok(body))
        },
    }
}

/// Decides the lint endpoint up to the sandbox call; like format, it
/// narrows nothing.
pub fn clippy_start(p: ParseOutcome<wire::ClippyRequest>) -> (s: Step<sandbox::ClippyRequest>)
    ensures
        p matches ParseOutcome::Missing ==> (s matches Step::Done(resp) && resp.status
            == STATUS_INTERNAL_SERVER_ERROR && resp.body@ == error_body(ErrorView::RequestMissing)),
        p matches ParseOutcome::Malformed(c) ==> (s matches Step::Done(resp) && resp.status
            == STATUS_INTERNAL_SERVER_ERROR && resp.body@ == error_body(
            ErrorView::Deserialization(c@),
        )),
        p matches ParseOutcome::Parsed(req) ==> (s matches Step::Invoke(q) && q.code == req.code),
        s matches Step::Done(resp) ==> (resp.content_type matches Some(ct) && ct@
            == "application/json"@),
{
    match p {
        ParseOutcome::Missing => Step::Done(respond(Err(Error::RequestMissing))),
        ParseOutcome::Malformed(c) => Step::Done(respond(Err(Error::Deserialization(c)))),
        ParseOutcome::Parsed(req) => Step::Invoke(translate::translate_clippy(req)),
    }
}

/// Turns the sandbox's lint outcome into the response.
pub fn clippy_finish(o: SandboxOutcome<sandbox::ClippyResponse>) -> (resp: HttpResponse)
    ensures
        o matches SandboxOutcome::Failure(c) ==> resp.status == STATUS_INTERNAL_SERVER_ERROR
            && resp.body@ == error_body(ErrorView::Sandbox(c@)),
        o matches SandboxOutcome::Success(r) ==> resp.status == STATUS_OK && resp.body@
            == wire::response_json_plain(r.success, r.stdout@, r.stderr@),
        resp.content_type matches Some(ct) && ct@ == "application/json"@,
{
    match o {
        SandboxOutcome::Failure(c) => respond(Err(Error::Sandbox(c))),
        SandboxOutcome::Success(r) => {
            let w = wire::ClippyResponse::from_sandbox(r);
            let body = w.to_json();
            respond(Ok(body))
        },
    }
}

} // verus!
