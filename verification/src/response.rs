//! Response interpretation.
//!
//! One rule applies to every remote call: if the HTTP status indicates
//! success, the body must decode as the expected success shape, and a body
//! that does not is a decode failure; otherwise the embedded error message of
//! an `{error:{message}}` body is surfaced, falling back to the bare status
//! text when that body does not decode either.  Calls with no meaningful
//! success body (commit, delete) use a variant that judges by status alone.
//!
//! The unverified shell performs the wire I/O and the JSON decoding of the
//! raw bytes; it hands this module the status, the status text, and the
//! outcomes of the decode attempts as plain values.

use vstd::prelude::*;

use crate::api_structs::ErrorResponse;
use crate::errors::GplayError;

verus! {

/// An HTTP status code in the success range.
pub open spec fn status_is_success(status: u16) -> bool {
    200 <= status < 300
}

/// The embedded message of an error body, when the body decoded as one.
pub open spec fn opt_message_view(e: Option<ErrorResponse>) -> Option<Seq<char>> {
    match e {
        Some(r) => Some(r.error.message@),
        None => None,
    }
}

/// The message surfaced for a non-success response: the embedded error
/// message when the error body decoded, else the bare status text — never
/// both, never neither.
pub open spec fn failure_message(
    status_text: Seq<char>,
    error_message: Option<Seq<char>>,
) -> Seq<char> {
    match error_message {
        Some(m) => m,
        None => status_text,
    }
}

/// For every non-success response, exactly one of the two sources provides
/// the surfaced message: the embedded message when present, else the status
/// text.
pub proof fn lemma_failure_message_source(
    status_text: Seq<char>,
    error_message: Option<Seq<char>>,
)
    ensures
        error_message matches Some(m) ==> failure_message(status_text, error_message) == m,
        error_message is None ==> failure_message(status_text, error_message) == status_text,
{
}

/// Interprets a response whose success carries a decoded body.
///
/// `body` is the outcome of decoding the raw body as the expected success
/// shape (`Err` holds the decoder's message); `error_body` is the outcome of
/// decoding the raw body as an [`ErrorResponse`].
pub fn get_response<T>(
    status: u16,
    status_text: String,
    body: Result<T, String>,
    error_body: Option<ErrorResponse>,
) -> (r: Result<T, GplayError>)
    ensures
        status_is_success(status) ==> (match body {
            Ok(t) => r matches Ok(rt) && rt == t,
            Err(m) => r matches Err(e) && (e matches GplayError::Decode(dm) && dm@ == m@),
        }),
        !status_is_success(status) ==> (r matches Err(e) && (e matches GplayError::RemoteApi(m)
            && m@ == failure_message(status_text@, opt_message_view(error_body)))),
{
    if 200 <= status && status < 300 {
        match body {
            Ok(t) => Ok(t),
            Err(m) => Err(GplayError::Decode(m)),
        }
    } else {
        match error_body {
            Some(e) => Err(GplayError::RemoteApi(e.error.message)),
            None => Err(GplayError::RemoteApi(status_text)),
        }
    }
}

/// Interprets a response whose success carries no meaningful body: success is
/// determined by the HTTP status alone, and the body is only consulted for an
/// embedded error message on failure.
pub fn get_empty_response(
    status: u16,
    status_text: String,
    error_body: Option<ErrorResponse>,
) -> (r: Result<(), GplayError>)
    ensures
        status_is_success(status) ==> r is Ok,
        !status_is_success(status) ==> (r matches Err(e) && (e matches GplayError::RemoteApi(m)
            && m@ == failure_message(status_text@, opt_message_view(error_body)))),
{
    if 200 <= status && status < 300 {
        Ok(())
    } else {
        match error_body {
            Some(e) => Err(GplayError::RemoteApi(e.error.message)),
            None => Err(GplayError::RemoteApi(status_text)),
        }
    }
}

} // verus!
