//! Typed shapes of the remote service's JSON bodies, with their mathematical
//! views, the construction of the track-assignment payload, and the output
//! lines derived from listed values.
//!
//! The unverified shell owns serde-carrying copies of these types and
//! converts; nothing here depends on the wire encoding.

use vstd::prelude::*;
use vstd::string::StringExecFns;

use crate::text::{i32_to_string, int_dec_str};

verus! {

/// Success body of the open-edit call: the assigned session identifier.
#[derive(Debug, Clone, PartialEq, Eq)]
pub struct EditInsert {
    pub id: String,
}

/// One uploaded binary artifact: version code and content digest.
#[derive(Debug, Clone, PartialEq, Eq)]
pub struct Bundle {
    pub version_code: i32,
    pub sha256: String,
}

/// Success body of the bundle-listing call.
#[derive(Debug, Clone, PartialEq, Eq)]
pub struct EditBundlesList {
    pub bundles: Vec<Bundle>,
}

/// Error body of any non-success response.
#[derive(Debug, Clone, PartialEq, Eq)]
pub struct ErrorResponse {
    pub error: ApiError,
}

/// The message inside an error body.
#[derive(Debug, Clone, PartialEq, Eq)]
pub struct ApiError {
    pub message: String,
}

/// Success body of the track-listing call.
#[derive(Debug, Clone, PartialEq, Eq)]
pub struct TracksList {
    pub tracks: Vec<Track>,
}

/// One distribution track: name and its releases.
#[derive(Debug, Clone, PartialEq, Eq)]
pub struct Track {
    pub name: String,
    pub releases: Vec<Release>,
}

/// One release on a track: status and the version codes it contains.
#[derive(Debug, Clone, PartialEq, Eq)]
pub struct Release {
    pub status: String,
    pub version_codes: Option<Vec<String>>,
}

/// View of a [`Bundle`].
pub struct BundleV {
    pub version_code: int,
    pub sha256: Seq<char>,
}

/// View of a [`Release`].
pub struct ReleaseV {
    pub status: Seq<char>,
    pub version_codes: Option<Seq<Seq<char>>>,
}

/// View of a [`Track`].
pub struct TrackV {
    pub name: Seq<char>,
    pub releases: Seq<ReleaseV>,
}

impl View for Bundle {
    type V = BundleV;

    open spec fn view(&self) -> BundleV {
        BundleV { version_code: self.version_code as int, sha256: self.sha256@ }
    }
}

impl View for Release {
    type V = ReleaseV;

    open spec fn view(&self) -> ReleaseV {
        ReleaseV {
            status: self.status@,
            version_codes: match self.version_codes {
                Some(cs) => Some(cs@.map_values(|c: String| c@)),
                None => None,
            },
        }
    }
}

impl View for Track {
    type V = TrackV;

    open spec fn view(&self) -> TrackV {
        TrackV { name: self.name@, releases: self.releases@.map_values(|r: Release| r@) }
    }
}

impl Track {
    /// The payload of the track-assignment call: exactly one release, in
    /// `"draft"` status, whose version codes are the single just-uploaded
    /// code, replacing whatever release existed at that track name before.
    pub fn draft_payload(track_name: &str, version_code: i32) -> (t: Track)
        ensures
            t@.name == track_name@,
            t@.releases.len() == 1,
            t@.releases[0].status == "draft"@,
            t@.releases[0].version_codes matches Some(cs) && cs =~= seq![
                int_dec_str(version_code as int),
            ],
    {
        let mut codes: Vec<String> = Vec::new();
        codes.push(i32_to_string(version_code));
        let release = Release { status: "draft".to_owned(), version_codes: Some(codes) };
        let mut releases: Vec<Release> = Vec::new();
        releases.push(release);
        let t = Track { name: track_name.to_owned(), releases };
        proof {
            assert(t@.releases =~= seq![t.releases@[0]@]);
            assert(t@.releases[0].version_codes matches Some(cs) && cs =~= seq![
                int_dec_str(version_code as int),
            ]);
        }
        t
    }
}

/// The output line for one listed bundle.
pub open spec fn bundle_line_spec(b: BundleV) -> Seq<char> {
    "Version "@ + int_dec_str(b.version_code) + " ["@ + b.sha256 + "]"@
}

/// The output line for one listed track.
pub open spec fn track_line_spec(t: TrackV) -> Seq<char> {
    "Track '"@ + t.name + "'"@
}

/// The output line announcing one uploaded bundle.
pub open spec fn uploaded_line_spec(b: BundleV) -> Seq<char> {
    "Version "@ + int_dec_str(b.version_code) + " ["@ + b.sha256 + "] uploaded"@
}

/// Renders the output line for one listed bundle.
pub fn bundle_line(b: &Bundle) -> (s: String)
    ensures
        s@ == bundle_line_spec(b@),
{
    let mut s = "Version ".to_owned();
    s.append(i32_to_string(b.version_code).as_str());
    s.append(" [");
    s.append(b.sha256.as_str());
    s.append("]");
    proof {
        assert(s@ =~= bundle_line_spec(b@));
    }
    s
}

/// Renders the output line for one listed track.
pub fn track_line(t: &Track) -> (s: String)
    ensures
        s@ == track_line_spec(t@),
{
    let mut s = "Track '".to_owned();
    s.append(t.name.as_str());
    s.append("'");
    proof {
        assert(s@ =~= track_line_spec(t@));
    }
    s
}

/// Renders the output line announcing one uploaded bundle.
pub fn uploaded_line(b: &Bundle) -> (s: String)
    ensures
        s@ == uploaded_line_spec(b@),
{
    let mut s = "Version ".to_owned();
    s.append(i32_to_string(b.version_code).as_str());
    s.append(" [");
    s.append(b.sha256.as_str());
    s.append("] uploaded");
    proof {
        assert(s@ =~= uploaded_line_spec(b@));
    }
    s
}

/// The output lines for a listed bundle catalog, one per bundle, in order.
pub fn bundle_lines(bundles: &Vec<Bundle>) -> (lines: Vec<String>)
    ensures
        lines@.len() == bundles@.len(),
        forall|i: int| 0 <= i < bundles@.len() ==> (#[trigger] lines@[i])@ == bundle_line_spec(
            bundles@[i]@,
        ),
{
    let mut lines: Vec<String> = Vec::new();
    let mut k: usize = 0;
    while k < bundles.len()
        invariant
            0 <= k <= bundles@.len(),
            lines@.len() == k,
            forall|i: int| 0 <= i < k ==> (#[trigger] lines@[i])@ == bundle_line_spec(
                bundles@[i]@,
            ),
        decreases bundles@.len() - k,
    {
        lines.push(bundle_line(&bundles[k]));
        k = k + 1;
    }
    lines
}

/// The output lines for the listed tracks, one per track, in order.
pub fn track_lines(tracks: &Vec<Track>) -> (lines: Vec<String>)
    ensures
        lines@.len() == tracks@.len(),
        forall|i: int| 0 <= i < tracks@.len() ==> (#[trigger] lines@[i])@ == track_line_spec(
            tracks@[i]@,
        ),
{
    let mut lines: Vec<String> = Vec::new();
    let mut k: usize = 0;
    while k < tracks.len()
        invariant
            0 <= k <= tracks@.len(),
            lines@.len() == k,
            forall|i: int| 0 <= i < k ==> (#[trigger] lines@[i])@ == track_line_spec(tracks@[i]@),
        decreases tracks@.len() - k,
    {
        lines.push(track_line(&tracks[k]));
        k = k + 1;
    }
    lines
}

} // verus!
