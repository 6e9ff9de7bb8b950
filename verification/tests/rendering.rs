use gplay::api_structs::{bundle_line, bundle_lines, track_line, uploaded_line, Bundle, Track};
use gplay::text::{file_read_line, i32_to_string, u64_to_string};
use gplay::urls::{
    assign_track_url, commit_edit_url, delete_edit_url, list_bundles_url, list_tracks_url,
    open_edit_url, publisher_scope, upload_bundle_url,
};

const EDIT_BASE: &str = "https://androidpublisher.googleapis.com/androidpublisher/v3/applications";

#[test]
fn decimal_rendering_is_exact() {
    assert_eq!(u64_to_string(0), "0");
    assert_eq!(u64_to_string(7), "7");
    assert_eq!(u64_to_string(12345), "12345");
    assert_eq!(u64_to_string(u64::MAX), "18446744073709551615");
    assert_eq!(i32_to_string(0), "0");
    assert_eq!(i32_to_string(42), "42");
    assert_eq!(i32_to_string(-5), "-5");
    assert_eq!(i32_to_string(i32::MAX), "2147483647");
    assert_eq!(i32_to_string(i32::MIN), "-2147483648");
}

#[test]
fn urls_are_exact() {
    assert_eq!(
        open_edit_url("com.example.app"),
        format!("{EDIT_BASE}/com.example.app/edits")
    );
    assert_eq!(
        commit_edit_url("com.example.app", "e1"),
        format!("{EDIT_BASE}/com.example.app/edits/e1:commit")
    );
    assert_eq!(
        delete_edit_url("com.example.app", "e1"),
        format!("{EDIT_BASE}/com.example.app/edits/e1")
    );
    assert_eq!(
        list_bundles_url("com.example.app", "e1"),
        format!("{EDIT_BASE}/com.example.app/edits/e1/bundles")
    );
    assert_eq!(
        list_tracks_url("com.example.app", "e1"),
        format!("{EDIT_BASE}/com.example.app/edits/e1/tracks")
    );
    assert_eq!(
        upload_bundle_url("com.example.app", "e1"),
        "https://androidpublisher.googleapis.com/upload/androidpublisher/v3/applications/com.example.app/edits/e1/bundles?uploadType=media"
    );
    assert_eq!(
        assign_track_url("com.example.app", "e1", "internal"),
        format!("{EDIT_BASE}/com.example.app/edits/e1/tracks/internal")
    );
}

#[test]
fn scope_is_exact() {
    assert_eq!(publisher_scope(), "https://www.googleapis.com/auth/androidpublisher");
}

#[test]
fn listing_lines_are_exact() {
    let b = Bundle { version_code: 5, sha256: "aa".to_string() };
    assert_eq!(bundle_line(&b), "Version 5 [aa]");
    assert_eq!(uploaded_line(&b), "Version 5 [aa] uploaded");
    let t = Track { name: "beta".to_string(), releases: vec![] };
    assert_eq!(track_line(&t), "Track 'beta'");
    let lines = bundle_lines(&vec![
        Bundle { version_code: 5, sha256: "aa".to_string() },
        Bundle { version_code: 6, sha256: "bb".to_string() },
    ]);
    assert_eq!(lines, vec!["Version 5 [aa]".to_string(), "Version 6 [bb]".to_string()]);
}

#[test]
fn file_read_line_is_exact() {
    assert_eq!(
        file_read_line("app.aab", 10),
        "Read bundle file 'app.aab' (10 bytes), uploading..."
    );
}

#[test]
fn draft_payload_has_one_draft_release_with_the_uploaded_code() {
    let t = Track::draft_payload("internal", 42);
    assert_eq!(t.name, "internal");
    assert_eq!(t.releases.len(), 1);
    assert_eq!(t.releases[0].status, "draft");
    assert_eq!(t.releases[0].version_codes, Some(vec!["42".to_string()]));
}
