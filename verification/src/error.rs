//! The closed error taxonomy of the service.
//!
//! Every failure of any stage of request handling becomes one value of
//! [`Error`], and each variant renders to exactly one human-readable
//! message; nothing else is ever shown to a client.

use vstd::prelude::*;
use crate::json::json_string;
use crate::json::push_json_string;

verus! {

/// Every way a request can fail, from any stage of the pipeline.
///
/// The variants that wrap outside failures (`Sandbox`,
/// `Serialization`, `Deserialization`) carry the collaborator's own
/// rendering of its cause; the vocabulary variants carry the raw string
/// that was rejected.
#[derive(Debug, Clone, PartialEq, Eq)]
pub enum Error {
    Sandbox(String),
    Serialization(String),
    Deserialization(String),
    InvalidTarget(String),
    InvalidChannel(String),
    InvalidMode(String),
    RequestMissing,
}

/// Mathematical shape of an [`Error`]: the same variants over
/// character sequences.
pub enum ErrorView {
    Sandbox(Seq<char>),
    Serialization(Seq<char>),
    Deserialization(Seq<char>),
    InvalidTarget(Seq<char>),
    InvalidChannel(Seq<char>),
    InvalidMode(Seq<char>),
    RequestMissing,
}

impl View for Error {
    type V = ErrorView;

    open spec fn view(&self) -> ErrorView {
        match self {
            Error::Sandbox(c) => ErrorView::Sandbox(c@),
            Error::Serialization(c) => ErrorView::Serialization(c@),
            Error::Deserialization(c) => ErrorView::Deserialization(c@),
            Error::InvalidTarget(v) => ErrorView::InvalidTarget(v@),
            Error::InvalidChannel(v) => ErrorView::InvalidChannel(v@),
            Error::InvalidMode(v) => ErrorView::InvalidMode(v@),
            Error::RequestMissing => ErrorView::RequestMissing,
        }
    }
}

/// The one message each error renders to. Rejected raw values appear
/// quoted and escaped, so a message is always a single line.
pub open spec fn error_message(e: ErrorView) -> Seq<char> {
    match e {
        ErrorView::Sandbox(c) => "Sandbox operation failed: "@ + c,
        ErrorView::Serialization(c) => "Unable to serialize response: "@ + c,
        ErrorView::Deserialization(c) => "Unable to deserialize request: "@ + c,
        ErrorView::InvalidTarget(v) => "The value "@ + json_string(v) + " is not a valid target"@,
        ErrorView::InvalidChannel(v) => "The value "@ + json_string(v)
            + " is not a valid channel"@,
        ErrorView::InvalidMode(v) => "The value "@ + json_string(v) + " is not a valid mode"@,
        ErrorView::RequestMissing => "No request was provided"@,
    }
}

impl Error {
    /// Renders this error to its message.
    pub fn message(&self) -> (m: String)
        ensures
            m@ == error_message(self@),
    {
        match self {
            Error::Sandbox(c) => {
                let mut m = String::from_str("Sandbox operation failed: ");
                m.append(c.as_str());
                m
            },
            Error::Serialization(c) => {
                let mut m = String::from_str("Unable to serialize response: ");
                m.append(c.as_str());
                m
            },
            Error::Deserialization(c) => {
                let mut m = String::from_str("Unable to deserialize request: ");
                m.append(c.as_str());
                m
            },
            Error::InvalidTarget(v) => {
                let mut m = String::from_str("The value ");
                push_json_string(&mut m, v.as_str());
                m.append(" is not a valid target");
                proof {
                    assert(m@ =~= error_message(self@));
                }
                m
            },
            Error::InvalidChannel(v) => {
                let mut m = String::from_str("The value ");
                push_json_string(&mut m, v.as_str());
                m.append(" is not a valid channel");
                proof {
                    assert(m@ =~= error_message(self@));
                }
                m
            },
            Error::InvalidMode(v) => {
                let mut m = String::from_str("The value ");
                push_json_string(&mut m, v.as_str());
                m.append(" is not a valid mode");
                proof {
                    assert(m@ =~= error_message(self@));
                }
                m
            },
            Error::RequestMissing => String::from_str("No request was provided"),
        }
    }
}

/// An absent body and a malformed body never read the same: whatever
/// cause text the parser reports, the two messages differ.
pub proof fn lemma_missing_distinct_from_malformed(cause: Seq<char>)
    ensures
        error_message(ErrorView::RequestMissing) != error_message(
            ErrorView::Deserialization(cause),
        ),
{
    reveal_strlit("No request was provided");
    reveal_strlit("Unable to deserialize request: ");
    let a = error_message(ErrorView::RequestMissing);
    let b = error_message(ErrorView::Deserialization(cause));
    assert(a[0] == 'N');
    assert(b[0] == 'U');
}

} // verus!
