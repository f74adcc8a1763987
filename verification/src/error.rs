//! The closed set of failures that the client reports, and the rules that
//! sort a response or a transport failure into it.

use crate::json::{json_of, parse_json, JsonModel, JsonValue};
use crate::text::{append_str, decimal_of, opt_text, push_decimal, string_of};
use vstd::prelude::*;

verus! {

/// A failure of a client operation.
#[derive(Debug)]
pub enum TrackerError {
    /// The server answered with a status outside 2xx other than 401 and 403.
    Http { status: u16, code: Option<String>, message: String },
    /// The server answered 401 or 403.
    Authentication(String),
    /// The request ran into a timeout.
    Timeout(String),
    /// No connection could be made.
    Network(String),
    /// A body could not be decoded or encoded.
    Serialization(String),
    /// Reading or writing locally failed.
    Io(String),
    /// Anything else.
    Other(String),
}

/// What the transport reports of a request that got no response.
#[derive(Debug)]
pub struct TransportFailure {
    /// The transport classifies the failure as a timeout.
    pub timed_out: bool,
    /// The transport classifies the failure as a failure to connect.
    pub connect: bool,
    /// The transport's description of the failure.
    pub message: String,
}

/// The reason phrase that `http::StatusCode::canonical_reason` gives for a
/// status code; nothing for a code outside 100..=999 or without a phrase.
pub uninterp spec fn canonical_reason_of(code: u16) -> Option<Seq<char>>;

/// Looks up the reason phrase of a status code with
/// `StatusCode::from_u16` and `StatusCode::canonical_reason`. The phrase
/// depends on the code alone and is named `canonical_reason_of`; for 401 it
/// is `Unauthorized` and for 403 `Forbidden`.
#[verifier::external_body]
fn canonical_reason(code: u16) -> (reason: Option<String>)
    ensures
        opt_text(reason) == canonical_reason_of(code),
        code == 401 ==> opt_text(reason) == Some("Unauthorized"@),
        code == 403 ==> opt_text(reason) == Some("Forbidden"@),
{
    reqwest::StatusCode::from_u16(code).ok().and_then(|s| s.canonical_reason()).map(
        |r| r.to_string(),
    )
}

/// Whether a status lies in 200..=299.
pub open spec fn is_success_status(status: u16) -> bool {
    200 <= status < 300
}

/// Whether a status is 401 or 403.
pub open spec fn is_denied_status(status: u16) -> bool {
    status == 401 || status == 403
}

/// A status as it is printed: the code, a space, and the reason phrase.
pub open spec fn status_text_of(status: u16) -> Seq<char> {
    status_text_with(status, canonical_reason_of(status))
}

/// The message of an authentication failure.
pub open spec fn access_denied_of(status: u16, body: Seq<char>) -> Seq<char> {
    "Access denied ("@ + status_text_of(status) + ") - "@ + body
}

/// The API-specific code of an error body: the string stored under `code`
/// where the body is a JSON object that has one.
pub open spec fn error_code_of(parsed: Option<JsonModel>) -> Option<Seq<char>> {
    match parsed {
        Some(value) => match value.member("code"@) {
            Some(code) => code.text(),
            None => None,
        },
        None => None,
    }
}

/// A failure as it is printed.
pub open spec fn error_text_of(error: TrackerError) -> Seq<char> {
    match error {
        TrackerError::Http { status, code, message } => "http "@ + status_text_of(status) + ": "@
            + message@,
        TrackerError::Authentication(m) => "authentication error: "@ + m@,
        TrackerError::Timeout(m) => "request timed out: "@ + m@,
        TrackerError::Network(m) => "network error: "@ + m@,
        TrackerError::Serialization(m) => "serialization error: "@ + m@,
        TrackerError::Io(m) => "io error: "@ + m@,
        TrackerError::Other(m) => "unexpected error: "@ + m@,
    }
}

/// Tells whether a status lies in 200..=299.
pub fn is_success(status: u16) -> (ok: bool)
    ensures
        ok == is_success_status(status),
{
    200 <= status && status < 300
}

/// A status as it is printed, given its reason phrase: the code, a space, and
/// the phrase, or `<unknown status code>` where there is none.
pub open spec fn status_text_with(status: u16, reason: Option<Seq<char>>) -> Seq<char> {
    decimal_of(status as nat) + seq![' '] + match reason {
        Some(phrase) => phrase,
        None => "<unknown status code>"@,
    }
}

/// Appends a status as it is printed, given its reason phrase.
pub fn push_status_with_reason(out: &mut Vec<char>, status: u16, reason: Option<&str>)
    ensures
        final(out)@ == old(out)@ + status_text_with(status, crate::request::opt_str(reason)),
{
    push_decimal(out, status as u64);
    out.push(' ');
    match reason {
        Some(phrase) => append_str(out, phrase),
        None => append_str(out, "<unknown status code>"),
    }
    proof {
        assert(out@ =~= old(out)@ + status_text_with(status, crate::request::opt_str(reason)));
    }
}

/// Appends a status as it is printed.
fn push_status_text(out: &mut Vec<char>, status: u16)
    ensures
        final(out)@ == old(out)@ + status_text_of(status),
{
    match canonical_reason(status) {
        Some(reason) => push_status_with_reason(out, status, Some(reason.as_str())),
        None => push_status_with_reason(out, status, None),
    }
}

impl TrackerError {
    /// Whether this is an `Http` failure with the given status, code and
    /// message.
    pub open spec fn is_http_with(
        self,
        status: u16,
        code: Option<Seq<char>>,
        message: Seq<char>,
    ) -> bool {
        self matches TrackerError::Http { status: s, code: c, message: m } && s == status
            && opt_text(c) == code && m@ == message
    }

    /// Whether this is an `Authentication` failure with the given message.
    pub open spec fn is_authentication_with(self, message: Seq<char>) -> bool {
        self matches TrackerError::Authentication(m) && m@ == message
    }

    /// An `Http` failure with the given parts.
    pub fn http(status: u16, code: Option<String>, message: &str) -> (error: Self)
        ensures
            error.is_http_with(status, opt_text(code), message@),
    {
        TrackerError::Http { status, code, message: message.to_owned() }
    }

    /// A `Serialization` failure with the given message.
    pub fn serialization(message: &str) -> (error: Self)
        ensures
            error matches TrackerError::Serialization(m) && m@ == message@,
    {
        TrackerError::Serialization(message.to_owned())
    }

    /// An `Io` failure with the given message.
    pub fn io(message: &str) -> (error: Self)
        ensures
            error matches TrackerError::Io(m) && m@ == message@,
    {
        TrackerError::Io(message.to_owned())
    }

    /// The failure that a transport failure stands for: a timeout is
    /// `Timeout`, else a failure to connect is `Network`, else `Other`. The
    /// result is never `Http`.
    pub fn from_transport(failure: TransportFailure) -> (error: Self)
        ensures
            failure.timed_out ==> error == TrackerError::Timeout(failure.message),
            !failure.timed_out && failure.connect ==> error == TrackerError::Network(
                failure.message,
            ),
            !failure.timed_out && !failure.connect ==> error == TrackerError::Other(
                failure.message,
            ),
            !(error is Http),
    {
        if failure.timed_out {
            TrackerError::Timeout(failure.message)
        } else if failure.connect {
            TrackerError::Network(failure.message)
        } else {
            TrackerError::Other(failure.message)
        }
    }

    /// The failure as it is printed.
    pub fn to_text(&self) -> (text: String)
        ensures
            text@ == error_text_of(*self),
    {
        let mut out: Vec<char> = Vec::new();
        match self {
            TrackerError::Http { status, code, message } => {
                append_str(&mut out, "http ");
                push_status_text(&mut out, *status);
                append_str(&mut out, ": ");
                append_str(&mut out, message.as_str());
            },
            TrackerError::Authentication(m) => {
                append_str(&mut out, "authentication error: ");
                append_str(&mut out, m.as_str());
            },
            TrackerError::Timeout(m) => {
                append_str(&mut out, "request timed out: ");
                append_str(&mut out, m.as_str());
            },
            TrackerError::Network(m) => {
                append_str(&mut out, "network error: ");
                append_str(&mut out, m.as_str());
            },
            TrackerError::Serialization(m) => {
                append_str(&mut out, "serialization error: ");
                append_str(&mut out, m.as_str());
            },
            TrackerError::Io(m) => {
                append_str(&mut out, "io error: ");
                append_str(&mut out, m.as_str());
            },
            TrackerError::Other(m) => {
                append_str(&mut out, "unexpected error: ");
                append_str(&mut out, m.as_str());
            },
        }
        proof {
            assert(out@ =~= error_text_of(*self));
        }
        string_of(&out)
    }
}

/// The API-specific code that a parsed error body carries.
pub fn error_code_in(value: &JsonValue) -> (code: Option<String>)
    ensures
        opt_text(code) == error_code_of(Some(value@)),
{
    match value.get("code") {
        Some(found) => match found.as_text() {
            Some(text) => Some(text.clone()),
            None => None,
        },
        None => None,
    }
}

/// The API-specific code of an error body, where the body is JSON that
/// carries one.
pub fn extract_error_code(body: &str) -> (code: Option<String>)
    ensures
        opt_text(code) == error_code_of(json_of(body@)),
{
    match parse_json(body) {
        Some(value) => error_code_in(&value),
        None => None,
    }
}

/// The `Http` failure for a status and the body that came with it.
pub fn build_http_error(status: u16, body: &str) -> (error: TrackerError)
    ensures
        error.is_http_with(status, error_code_of(json_of(body@)), body@),
{
    let code = extract_error_code(body);
    TrackerError::http(status, code, body)
}

/// The message of an authentication failure.
pub fn access_denied_message(status: u16, body: &str) -> (message: String)
    ensures
        message@ == access_denied_of(status, body@),
{
    let mut out: Vec<char> = Vec::new();
    append_str(&mut out, "Access denied (");
    push_status_text(&mut out, status);
    append_str(&mut out, ") - ");
    append_str(&mut out, body);
    proof {
        assert(out@ =~= access_denied_of(status, body@));
    }
    string_of(&out)
}

/// The failure that a response outside 2xx stands for: 401 and 403 are
/// `Authentication`, every other status is `Http` with the body as message
/// and the body's `code` where it has one.
pub fn failure_for(status: u16, body: &str) -> (error: TrackerError)
    requires
        !is_success_status(status),
    ensures
        is_denied_status(status) ==> error.is_authentication_with(
            access_denied_of(status, body@),
        ),
        !is_denied_status(status) ==> error.is_http_with(
            status,
            error_code_of(json_of(body@)),
            body@,
        ),
{
    if status == 401 || status == 403 {
        TrackerError::Authentication(access_denied_message(status, body))
    } else {
        build_http_error(status, body)
    }
}

/// Sorts a response by its status: 2xx succeeds, everything else fails as
/// `failure_for` says.
pub fn ensure_success(status: u16, body: &str) -> (outcome: Result<(), TrackerError>)
    ensures
        outcome is Ok <==> is_success_status(status),
        is_denied_status(status) ==> outcome is Err && outcome->Err_0.is_authentication_with(
            access_denied_of(status, body@),
        ),
        !is_success_status(status) && !is_denied_status(status) ==> outcome is Err
            && outcome->Err_0.is_http_with(status, error_code_of(json_of(body@)), body@),
{
    if is_success(status) {
        Ok(())
    } else {
        Err(failure_for(status, body))
    }
}

/// The failure of a token exchange that the server refused: always `Http`,
/// with the body as message and no code.
pub fn exchange_failure(status: u16, body: &str) -> (error: TrackerError)
    ensures
        error.is_http_with(status, None, body@),
{
    TrackerError::http(status, None, body)
}

} // verus!
