//! Interpretation of the decoded bodies of individual remote calls.
//!
//! Each function applies the uniform response-interpretation rule of
//! [`crate::response`] and extracts the value the workflow needs from the
//! success shape.  The upload and track-assignment calls return their success
//! shape unchanged, so their callers use [`crate::response::get_response`]
//! directly; the commit and delete calls use
//! [`crate::response::get_empty_response`].

use vstd::prelude::*;

use crate::api_structs::{Bundle, EditBundlesList, EditInsert, ErrorResponse, Track, TracksList};
use crate::errors::GplayError;
use crate::response::{failure_message, get_response, opt_message_view, status_is_success};

verus! {

/// The session identifier assigned by a successful open-edit call.
pub fn open_edit_result(
    status: u16,
    status_text: String,
    body: Result<EditInsert, String>,
    error_body: Option<ErrorResponse>,
) -> (r: Result<String, GplayError>)
    ensures
        status_is_success(status) ==> (match body {
            Ok(e) => r matches Ok(id) && id@ == e.id@,
            Err(m) => r matches Err(e) && (e matches GplayError::Decode(dm) && dm@ == m@),
        }),
        !status_is_success(status) ==> (r matches Err(e) && (e matches GplayError::RemoteApi(m)
            && m@ == failure_message(status_text@, opt_message_view(error_body)))),
{
    match get_response(status, status_text, body, error_body) {
        Ok(e) => Ok(e.id),
        Err(err) => Err(err),
    }
}

/// The bundles of a successful bundle-listing call.
pub fn list_bundles_result(
    status: u16,
    status_text: String,
    body: Result<EditBundlesList, String>,
    error_body: Option<ErrorResponse>,
) -> (r: Result<Vec<Bundle>, GplayError>)
    ensures
        status_is_success(status) ==> (match body {
            Ok(l) => r matches Ok(bs) && bs == l.bundles,
            Err(m) => r matches Err(e) && (e matches GplayError::Decode(dm) && dm@ == m@),
        }),
        !status_is_success(status) ==> (r matches Err(e) && (e matches GplayError::RemoteApi(m)
            && m@ == failure_message(status_text@, opt_message_view(error_body)))),
{
    match get_response(status, status_text, body, error_body) {
        Ok(l) => Ok(l.bundles),
        Err(err) => Err(err),
    }
}

/// The tracks of a successful track-listing call.
pub fn list_tracks_result(
    status: u16,
    status_text: String,
    body: Result<TracksList, String>,
    error_body: Option<ErrorResponse>,
) -> (r: Result<Vec<Track>, GplayError>)
    ensures
        status_is_success(status) ==> (match body {
            Ok(l) => r matches Ok(ts) && ts == l.tracks,
            Err(m) => r matches Err(e) && (e matches GplayError::Decode(dm) && dm@ == m@),
        }),
        !status_is_success(status) ==> (r matches Err(e) && (e matches GplayError::RemoteApi(m)
            && m@ == failure_message(status_text@, opt_message_view(error_body)))),
{
    match get_response(status, status_text, body, error_body) {
        Ok(l) => Ok(l.tracks),
        Err(err) => Err(err),
    }
}

} // verus!
