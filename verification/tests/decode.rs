use gplay::api_structs::{
    ApiError, Bundle, EditBundlesList, EditInsert, ErrorResponse, Track, TracksList,
};
use gplay::errors::{delete_warning, GplayError};
use gplay::response::{get_empty_response, get_response};
use gplay::transport::{list_bundles_result, list_tracks_result, open_edit_result};

fn error_body(message: &str) -> Option<ErrorResponse> {
    Some(ErrorResponse { error: ApiError { message: message.to_string() } })
}

#[test]
fn success_status_with_decoded_body_is_ok() {
    let r = get_response::<u32>(200, "200 OK".to_string(), Ok(7), None);
    assert_eq!(r, Ok(7));
}

#[test]
fn success_status_with_undecodable_body_is_decode_error() {
    let r = get_response::<u32>(
        201,
        "201 Created".to_string(),
        Err("missing field".to_string()),
        None,
    );
    assert_eq!(r, Err(GplayError::Decode("missing field".to_string())));
}

#[test]
fn failure_status_with_embedded_message_surfaces_the_message() {
    let r = get_response::<u32>(
        404,
        "404 Not Found".to_string(),
        Err("not a u32".to_string()),
        error_body("package not found"),
    );
    assert_eq!(r, Err(GplayError::RemoteApi("package not found".to_string())));
}

#[test]
fn failure_status_without_embedded_message_surfaces_status_text() {
    let r = get_response::<u32>(500, "500 Internal Server Error".to_string(), Ok(1), None);
    assert_eq!(
        r,
        Err(GplayError::RemoteApi("500 Internal Server Error".to_string()))
    );
}

#[test]
fn empty_response_success_ignores_body() {
    let r = get_empty_response(204, "204 No Content".to_string(), error_body("ignored"));
    assert_eq!(r, Ok(()));
}

#[test]
fn empty_response_failure_prefers_embedded_message() {
    let r = get_empty_response(403, "403 Forbidden".to_string(), error_body("no access"));
    assert_eq!(r, Err(GplayError::RemoteApi("no access".to_string())));
    let r2 = get_empty_response(403, "403 Forbidden".to_string(), None);
    assert_eq!(r2, Err(GplayError::RemoteApi("403 Forbidden".to_string())));
}

#[test]
fn open_edit_result_extracts_the_session_id() {
    let r = open_edit_result(
        200,
        "200 OK".to_string(),
        Ok(EditInsert { id: "edit-17".to_string() }),
        None,
    );
    assert_eq!(r, Ok("edit-17".to_string()));
}

#[test]
fn open_edit_result_surfaces_remote_message() {
    let r = open_edit_result(
        400,
        "400 Bad Request".to_string(),
        Err("not an edit".to_string()),
        error_body("invalid package"),
    );
    assert_eq!(r, Err(GplayError::RemoteApi("invalid package".to_string())));
}

#[test]
fn list_results_extract_their_collections() {
    let bundles = vec![Bundle { version_code: 5, sha256: "aa".to_string() }];
    let r = list_bundles_result(
        200,
        "200 OK".to_string(),
        Ok(EditBundlesList { bundles: bundles.clone() }),
        None,
    );
    assert_eq!(r, Ok(bundles));

    let tracks = vec![Track { name: "internal".to_string(), releases: vec![] }];
    let r2 = list_tracks_result(
        200,
        "200 OK".to_string(),
        Ok(TracksList { tracks: tracks.clone() }),
        None,
    );
    assert_eq!(r2, Ok(tracks));
}

#[test]
fn error_messages_are_the_carried_text() {
    assert_eq!(
        GplayError::Transport("connection reset".to_string()).message(),
        "connection reset"
    );
    assert_eq!(GplayError::LocalIo("no such file".to_string()).message(), "no such file");
    assert_eq!(GplayError::Decode("bad json".to_string()).message(), "bad json");
    assert_eq!(GplayError::RemoteApi("denied".to_string()).message(), "denied");
}

#[test]
fn delete_warning_names_the_delete_failure() {
    let w = delete_warning(&GplayError::Transport("timed out".to_string()));
    assert_eq!(w, "failed to discard edit session: timed out");
}
