use vstd::prelude::*;
use vstd::string::*;

use crate::signal::FailureSignal;

verus! {

pub const STATUS_BAD_REQUEST: u16 = 400;

pub const STATUS_NOT_FOUND: u16 = 404;

pub const STATUS_METHOD_NOT_ALLOWED: u16 = 405;

pub const STATUS_INTERNAL_SERVER_ERROR: u16 = 500;

/// The HTTP status code that answers a failure signal.
pub open spec fn status_of(s: FailureSignal) -> u16 {
    match s {
        FailureSignal::NotFound => STATUS_NOT_FOUND,
        FailureSignal::MalformedBody => STATUS_BAD_REQUEST,
        FailureSignal::InvalidQuery => STATUS_BAD_REQUEST,
        FailureSignal::StorageFailure => STATUS_INTERNAL_SERVER_ERROR,
        FailureSignal::MethodNotAllowed => STATUS_METHOD_NOT_ALLOWED,
        FailureSignal::InvalidQueryString => STATUS_BAD_REQUEST,
        FailureSignal::Unclassified(_) => STATUS_INTERNAL_SERVER_ERROR,
    }
}

/// The client-facing message that answers a failure signal.
pub open spec fn message_of(s: FailureSignal) -> Seq<char> {
    match s {
        FailureSignal::NotFound => "Not Found"@,
        FailureSignal::MalformedBody => "Invalid Body"@,
        FailureSignal::InvalidQuery => "Please check your params"@,
        FailureSignal::StorageFailure => "Failed to query DB"@,
        FailureSignal::MethodNotAllowed => "Method Not Allowed"@,
        FailureSignal::InvalidQueryString => "Please check your params"@,
        FailureSignal::Unclassified(_) => "Internal Server Error"@,
    }
}

/// A character that a JSON string holds as it is, with no escape.
pub open spec fn is_plain_json_char(c: char) -> bool {
    c as u32 >= 0x20 && c != '"' && c != '\\'
}

/// Text that a JSON string literal holds verbatim.
pub open spec fn is_plain_json_text(m: Seq<char>) -> bool {
    forall|i: int| 0 <= i < m.len() ==> #[trigger] is_plain_json_char(m[i])
}

/// The JSON text of an object whose only member is `message`, a string
/// holding `m`; exact when `is_plain_json_text(m)`.
pub open spec fn json_message_object(m: Seq<char>) -> Seq<char> {
    "{\"message\":\""@ + m + "\"}"@
}

/// The prefix of the diagnostic line written for an unclassified failure.
pub open spec fn diagnostic_prefix() -> Seq<char> {
    "unhandled error: "@
}

/// The mathematical value of an error response.
pub struct ErrorResponseView {
    pub status: u16,
    pub message: Seq<char>,
}

/// The response to a failure signal, as a value.
pub open spec fn response_of(s: FailureSignal) -> ErrorResponseView {
    ErrorResponseView { status: status_of(s), message: message_of(s) }
}

/// An error response: a status code and the message that the JSON body
/// carries. Its message never needs escaping in JSON.
pub struct ErrorResponse {
    status: u16,
    message: String,
}

impl View for ErrorResponse {
    type V = ErrorResponseView;

    closed spec fn view(&self) -> ErrorResponseView {
        ErrorResponseView { status: self.status, message: self.message@ }
    }
}

impl ErrorResponse {
    #[verifier::type_invariant]
    spec fn message_is_plain(&self) -> bool {
        is_plain_json_text(self.message@)
    }

    /// The HTTP status code.
    pub fn status(&self) -> (r: u16)
        ensures
            r == self@.status,
    {
        self.status
    }

    /// The message carried in the body.
    pub fn message(&self) -> (r: &str)
        ensures
            r@ == self@.message,
    {
        self.message.as_str()
    }

    /// The JSON body: `{"message":"<message>"}`.
    pub fn body(&self) -> (r: String)
        ensures
            r@ == json_message_object(self@.message),
            is_plain_json_text(self@.message),
    {
        proof {
            use_type_invariant(self);
        }
        let mut r = String::from_str("{\"message\":\"");
        r.append(self.message.as_str());
        r.append("\"}");
        r
    }
}

/// The error response to a failure signal. Total: every signal is answered.
pub fn respond(signal: &FailureSignal) -> (r: ErrorResponse)
    ensures
        r@ == response_of(*signal),
{
    let (status, text): (u16, &str) = match signal {
        FailureSignal::NotFound => (STATUS_NOT_FOUND, "Not Found"),
        FailureSignal::MalformedBody => (STATUS_BAD_REQUEST, "Invalid Body"),
        FailureSignal::InvalidQuery => (STATUS_BAD_REQUEST, "Please check your params"),
        FailureSignal::StorageFailure => (STATUS_INTERNAL_SERVER_ERROR, "Failed to query DB"),
        FailureSignal::MethodNotAllowed => (STATUS_METHOD_NOT_ALLOWED, "Method Not Allowed"),
        FailureSignal::InvalidQueryString => (STATUS_BAD_REQUEST, "Please check your params"),
        FailureSignal::Unclassified(_) => (STATUS_INTERNAL_SERVER_ERROR, "Internal Server Error"),
    };
    proof {
        reveal_strlit("Not Found");
        reveal_strlit("Invalid Body");
        reveal_strlit("Please check your params");
        reveal_strlit("Failed to query DB");
        reveal_strlit("Method Not Allowed");
        reveal_strlit("Internal Server Error");
    }
    ErrorResponse { status, message: String::from_str(text) }
}

/// The diagnostic line for the side channel: one line for an unclassified
/// failure, carrying its detail; none for any other signal.
pub fn diagnostic(signal: &FailureSignal) -> (r: Option<String>)
    ensures
        r is Some <==> signal is Unclassified,
        r matches Some(line) ==> line@ == diagnostic_prefix() + signal->Unclassified_0@,
{
    match signal {
        FailureSignal::Unclassified(detail) => {
            let mut line = String::from_str("unhandled error: ");
            line.append(detail.as_str());
            Some(line)
        },
        _ => None,
    }
}

} // verus!
