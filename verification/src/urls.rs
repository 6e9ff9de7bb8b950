//! Request-URL construction for the remote publishing service.
//!
//! Package name, session id and track name are path parameters; the upload
//! call goes to a separate upload host.

use vstd::prelude::*;
use vstd::string::StringExecFns;

verus! {

/// Base of every endpoint except the binary upload.
pub open spec fn edit_base() -> Seq<char> {
    "https://androidpublisher.googleapis.com/androidpublisher/v3/applications"@
}

/// Base of the binary upload endpoint.
pub open spec fn upload_base() -> Seq<char> {
    "https://androidpublisher.googleapis.com/upload/androidpublisher/v3/applications"@
}

pub open spec fn open_edit_url_spec(pkg: Seq<char>) -> Seq<char> {
    edit_base() + "/"@ + pkg + "/edits"@
}

pub open spec fn commit_edit_url_spec(pkg: Seq<char>, edit_id: Seq<char>) -> Seq<char> {
    edit_base() + "/"@ + pkg + "/edits/"@ + edit_id + ":commit"@
}

pub open spec fn delete_edit_url_spec(pkg: Seq<char>, edit_id: Seq<char>) -> Seq<char> {
    edit_base() + "/"@ + pkg + "/edits/"@ + edit_id
}

pub open spec fn list_bundles_url_spec(pkg: Seq<char>, edit_id: Seq<char>) -> Seq<char> {
    edit_base() + "/"@ + pkg + "/edits/"@ + edit_id + "/bundles"@
}

pub open spec fn list_tracks_url_spec(pkg: Seq<char>, edit_id: Seq<char>) -> Seq<char> {
    edit_base() + "/"@ + pkg + "/edits/"@ + edit_id + "/tracks"@
}

pub open spec fn upload_bundle_url_spec(pkg: Seq<char>, edit_id: Seq<char>) -> Seq<char> {
    upload_base() + "/"@ + pkg + "/edits/"@ + edit_id + "/bundles?uploadType=media"@
}

pub open spec fn assign_track_url_spec(
    pkg: Seq<char>,
    edit_id: Seq<char>,
    track: Seq<char>,
) -> Seq<char> {
    edit_base() + "/"@ + pkg + "/edits/"@ + edit_id + "/tracks/"@ + track
}

/// The OAuth scope under which every call to the service is authorized.
pub open spec fn publisher_scope_spec() -> Seq<char> {
    "https://www.googleapis.com/auth/androidpublisher"@
}

/// The OAuth scope to request from the credential provider.
pub fn publisher_scope() -> (s: &'static str)
    ensures
        s@ == publisher_scope_spec(),
{
    "https://www.googleapis.com/auth/androidpublisher"
}

fn edit_base_str() -> (s: &'static str)
    ensures
        s@ == edit_base(),
{
    "https://androidpublisher.googleapis.com/androidpublisher/v3/applications"
}

fn upload_base_str() -> (s: &'static str)
    ensures
        s@ == upload_base(),
{
    "https://androidpublisher.googleapis.com/upload/androidpublisher/v3/applications"
}

/// URL of the open-edit call: POST.
pub fn open_edit_url(package_name: &str) -> (u: String)
    ensures
        u@ == open_edit_url_spec(package_name@),
{
    let mut u = edit_base_str().to_owned();
    u.append("/");
    u.append(package_name);
    u.append("/edits");
    proof {
        assert(u@ =~= open_edit_url_spec(package_name@));
    }
    u
}

/// URL of the commit-edit call: POST with an empty body.
pub fn commit_edit_url(package_name: &str, edit_id: &str) -> (u: String)
    ensures
        u@ == commit_edit_url_spec(package_name@, edit_id@),
{
    let mut u = edit_base_str().to_owned();
    u.append("/");
    u.append(package_name);
    u.append("/edits/");
    u.append(edit_id);
    u.append(":commit");
    proof {
        assert(u@ =~= commit_edit_url_spec(package_name@, edit_id@));
    }
    u
}

/// URL of the delete-edit call: DELETE.
pub fn delete_edit_url(package_name: &str, edit_id: &str) -> (u: String)
    ensures
        u@ == delete_edit_url_spec(package_name@, edit_id@),
{
    let mut u = edit_base_str().to_owned();
    u.append("/");
    u.append(package_name);
    u.append("/edits/");
    u.append(edit_id);
    proof {
        assert(u@ =~= delete_edit_url_spec(package_name@, edit_id@));
    }
    u
}

/// URL of the bundle-listing call: GET.
pub fn list_bundles_url(package_name: &str, edit_id: &str) -> (u: String)
    ensures
        u@ == list_bundles_url_spec(package_name@, edit_id@),
{
    let mut u = edit_base_str().to_owned();
    u.append("/");
    u.append(package_name);
    u.append("/edits/");
    u.append(edit_id);
    u.append("/bundles");
    proof {
        assert(u@ =~= list_bundles_url_spec(package_name@, edit_id@));
    }
    u
}

/// URL of the track-listing call: GET.
pub fn list_tracks_url(package_name: &str, edit_id: &str) -> (u: String)
    ensures
        u@ == list_tracks_url_spec(package_name@, edit_id@),
{
    let mut u = edit_base_str().to_owned();
    u.append("/");
    u.append(package_name);
    u.append("/edits/");
    u.append(edit_id);
    u.append("/tracks");
    proof {
        assert(u@ =~= list_tracks_url_spec(package_name@, edit_id@));
    }
    u
}

/// URL of the binary upload call: POST of an octet-stream to the upload host.
pub fn upload_bundle_url(package_name: &str, edit_id: &str) -> (u: String)
    ensures
        u@ == upload_bundle_url_spec(package_name@, edit_id@),
{
    let mut u = upload_base_str().to_owned();
    u.append("/");
    u.append(package_name);
    u.append("/edits/");
    u.append(edit_id);
    u.append("/bundles?uploadType=media");
    proof {
        assert(u@ =~= upload_bundle_url_spec(package_name@, edit_id@));
    }
    u
}

/// URL of the track-assignment call: PUT of a track payload.
pub fn assign_track_url(package_name: &str, edit_id: &str, track_name: &str) -> (u: String)
    ensures
        u@ == assign_track_url_spec(package_name@, edit_id@, track_name@),
{
    let mut u = edit_base_str().to_owned();
    u.append("/");
    u.append(package_name);
    u.append("/edits/");
    u.append(edit_id);
    u.append("/tracks/");
    u.append(track_name);
    proof {
        assert(u@ =~= assign_track_url_spec(package_name@, edit_id@, track_name@));
    }
    u
}

} // verus!
