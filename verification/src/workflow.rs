//! The bundle-upload transaction: open session, read file, upload binary,
//! assign it to a track, commit — with a compensating delete of the session
//! on any failure between open and commit.
//!
//! The workflow is a state machine.  The unverified shell drives it: it asks
//! [`upload_action`] which call to perform, performs it, and hands the
//! outcome back through [`upload_step`].  All decisions — what to do next,
//! when to roll back, which error to surface — are made here.

use vstd::prelude::*;

use crate::actions::{RemoteAction, RemoteActionV};
use crate::api_structs::{Bundle, BundleV, Track, TrackV};
use crate::errors::{ErrorV, GplayError};

verus! {

/// View of an [`UploadEvent`].
pub enum UploadEventV {
    OpenDone(Result<Seq<char>, ErrorV>),
    FileDone(Result<u64, ErrorV>),
    UploadDone(Result<BundleV, ErrorV>),
    AssignDone(Result<TrackV, ErrorV>),
    CommitDone(Result<(), ErrorV>),
    DeleteDone(Result<(), ErrorV>),
}

/// One event of the upload workflow: the outcome of the call that was
/// pending.
#[derive(Debug, PartialEq, Eq)]
pub enum UploadEvent {
    /// Outcome of the open-edit call: the assigned session identifier.
    OpenDone(Result<String, GplayError>),
    /// Outcome of reading the local bundle file: its size in bytes.
    FileDone(Result<u64, GplayError>),
    /// Outcome of the binary upload call.
    UploadDone(Result<Bundle, GplayError>),
    /// Outcome of the track-assignment call.
    AssignDone(Result<Track, GplayError>),
    /// Outcome of the commit call.
    CommitDone(Result<(), GplayError>),
    /// Outcome of the compensating delete call.
    DeleteDone(Result<(), GplayError>),
}

impl View for UploadEvent {
    type V = UploadEventV;

    open spec fn view(&self) -> UploadEventV {
        match self {
            UploadEvent::OpenDone(r) => UploadEventV::OpenDone(
                match r {
                    Ok(id) => Ok(id@),
                    Err(e) => Err(e@),
                },
            ),
            UploadEvent::FileDone(r) => UploadEventV::FileDone(
                match r {
                    Ok(n) => Ok(*n),
                    Err(e) => Err(e@),
                },
            ),
            UploadEvent::UploadDone(r) => UploadEventV::UploadDone(
                match r {
                    Ok(b) => Ok(b@),
                    Err(e) => Err(e@),
                },
            ),
            UploadEvent::AssignDone(r) => UploadEventV::AssignDone(
                match r {
                    Ok(t) => Ok(t@),
                    Err(e) => Err(e@),
                },
            ),
            UploadEvent::CommitDone(r) => UploadEventV::CommitDone(
                match r {
                    Ok(_) => Ok(()),
                    Err(e) => Err(e@),
                },
            ),
            UploadEvent::DeleteDone(r) => UploadEventV::DeleteDone(
                match r {
                    Ok(_) => Ok(()),
                    Err(e) => Err(e@),
                },
            ),
        }
    }
}

/// View of an [`UploadState`].
pub enum UploadStateV {
    Start,
    Opened { edit_id: Seq<char> },
    Loaded { edit_id: Seq<char> },
    Uploaded { edit_id: Seq<char>, bundle: BundleV },
    TrackAssigned { edit_id: Seq<char> },
    RollingBack { edit_id: Seq<char>, error: ErrorV },
    Committed,
    Failed { error: ErrorV },
}

/// One state of the upload workflow.
#[derive(Debug, PartialEq, Eq)]
pub enum UploadState {
    /// Nothing has happened yet; the session must be opened.
    Start,
    /// The session is open; the local bundle file must be read.
    Opened { edit_id: String },
    /// The file is in memory; the binary must be uploaded.
    Loaded { edit_id: String },
    /// The binary is uploaded; it must be assigned to the track.
    Uploaded { edit_id: String, bundle: Bundle },
    /// The track is rewritten; the session must be committed.
    TrackAssigned { edit_id: String },
    /// A step after open failed; the session must be deleted, and `error`
    /// surfaced whatever the delete returns.
    RollingBack { edit_id: String, error: GplayError },
    /// The session was committed: the upload is durably applied.
    Committed,
    /// The workflow is over and `error` is the error to surface.
    Failed { error: GplayError },
}

impl View for UploadState {
    type V = UploadStateV;

    open spec fn view(&self) -> UploadStateV {
        match self {
            UploadState::Start => UploadStateV::Start,
            UploadState::Opened { edit_id } => UploadStateV::Opened { edit_id: edit_id@ },
            UploadState::Loaded { edit_id } => UploadStateV::Loaded { edit_id: edit_id@ },
            UploadState::Uploaded { edit_id, bundle } => UploadStateV::Uploaded {
                edit_id: edit_id@,
                bundle: bundle@,
            },
            UploadState::TrackAssigned { edit_id } => UploadStateV::TrackAssigned {
                edit_id: edit_id@,
            },
            UploadState::RollingBack { edit_id, error } => UploadStateV::RollingBack {
                edit_id: edit_id@,
                error: error@,
            },
            UploadState::Committed => UploadStateV::Committed,
            UploadState::Failed { error } => UploadStateV::Failed { error: error@ },
        }
    }
}

/// The workflow is over: the session was committed, or an error is final.
pub open spec fn upload_terminal(s: UploadStateV) -> bool {
    s is Committed || s is Failed
}

/// The event a state is waiting for: each non-terminal state has exactly one
/// pending call, and only that call's outcome advances the machine.
pub open spec fn upload_event_fits(s: UploadStateV, e: UploadEventV) -> bool {
    match (s, e) {
        (UploadStateV::Start, UploadEventV::OpenDone(_)) => true,
        (UploadStateV::Opened { .. }, UploadEventV::FileDone(_)) => true,
        (UploadStateV::Loaded { .. }, UploadEventV::UploadDone(_)) => true,
        (UploadStateV::Uploaded { .. }, UploadEventV::AssignDone(_)) => true,
        (UploadStateV::TrackAssigned { .. }, UploadEventV::CommitDone(_)) => true,
        (UploadStateV::RollingBack { .. }, UploadEventV::DeleteDone(_)) => true,
        _ => false,
    }
}

/// The transition relation, total over all pairs: an event that does not fit
/// the state leaves the state unchanged.
///
/// Failure before the session exists terminates at once; failure of the file
/// read, the upload or the assignment starts the rollback, keeping the
/// original error; commit failure is final without a delete (the session is
/// no longer a plain open edit that a delete could safely discard); and the
/// delete's own outcome never replaces the error that triggered it.
pub open spec fn upload_step_v(s: UploadStateV, e: UploadEventV) -> UploadStateV {
    match (s, e) {
        (UploadStateV::Start, UploadEventV::OpenDone(Ok(id))) => UploadStateV::Opened {
            edit_id: id,
        },
        (UploadStateV::Start, UploadEventV::OpenDone(Err(err))) => UploadStateV::Failed {
            error: err,
        },
        (UploadStateV::Opened { edit_id }, UploadEventV::FileDone(Ok(_))) => UploadStateV::Loaded {
            edit_id,
        },
        (
            UploadStateV::Opened { edit_id },
            UploadEventV::FileDone(Err(err)),
        ) => UploadStateV::RollingBack { edit_id, error: err },
        (
            UploadStateV::Loaded { edit_id },
            UploadEventV::UploadDone(Ok(b)),
        ) => UploadStateV::Uploaded { edit_id, bundle: b },
        (
            UploadStateV::Loaded { edit_id },
            UploadEventV::UploadDone(Err(err)),
        ) => UploadStateV::RollingBack { edit_id, error: err },
        (
            UploadStateV::Uploaded { edit_id, .. },
            UploadEventV::AssignDone(Ok(_)),
        ) => UploadStateV::TrackAssigned { edit_id },
        (
            UploadStateV::Uploaded { edit_id, .. },
            UploadEventV::AssignDone(Err(err)),
        ) => UploadStateV::RollingBack { edit_id, error: err },
        (UploadStateV::TrackAssigned { .. }, UploadEventV::CommitDone(Ok(_))) => {
            UploadStateV::Committed
        },
        (UploadStateV::TrackAssigned { .. }, UploadEventV::CommitDone(Err(err))) => {
            UploadStateV::Failed { error: err }
        },
        (UploadStateV::RollingBack { error, .. }, UploadEventV::DeleteDone(_)) => {
            UploadStateV::Failed { error }
        },
        (other, _) => other,
    }
}

/// The call pending at a state.
pub open spec fn upload_action_v(s: UploadStateV) -> RemoteActionV {
    match s {
        UploadStateV::Start => RemoteActionV::OpenEdit,
        UploadStateV::Opened { .. } => RemoteActionV::ReadFile,
        UploadStateV::Loaded { edit_id } => RemoteActionV::UploadBundle { edit_id },
        UploadStateV::Uploaded { edit_id, bundle } => RemoteActionV::AssignTrack {
            edit_id,
            version_code: bundle.version_code,
        },
        UploadStateV::TrackAssigned { edit_id } => RemoteActionV::CommitEdit { edit_id },
        UploadStateV::RollingBack { edit_id, .. } => RemoteActionV::DeleteEdit { edit_id },
        UploadStateV::Committed => RemoteActionV::Finish,
        UploadStateV::Failed { .. } => RemoteActionV::Finish,
    }
}

/// Advances the workflow by one event.
pub fn upload_step(s: UploadState, e: UploadEvent) -> (t: UploadState)
    ensures
        t@ == upload_step_v(s@, e@),
{
    match (s, e) {
        (UploadState::Start, UploadEvent::OpenDone(Ok(id))) => UploadState::Opened {
            edit_id: id,
        },
        (UploadState::Start, UploadEvent::OpenDone(Err(err))) => UploadState::Failed {
            error: err,
        },
        (UploadState::Opened { edit_id }, UploadEvent::FileDone(Ok(_))) => UploadState::Loaded {
            edit_id,
        },
        (UploadState::Opened { edit_id }, UploadEvent::FileDone(Err(err))) => {
            UploadState::RollingBack { edit_id, error: err }
        },
        (UploadState::Loaded { edit_id }, UploadEvent::UploadDone(Ok(b))) => {
            UploadState::Uploaded { edit_id, bundle: b }
        },
        (UploadState::Loaded { edit_id }, UploadEvent::UploadDone(Err(err))) => {
            UploadState::RollingBack { edit_id, error: err }
        },
        (UploadState::Uploaded { edit_id, bundle: _ }, UploadEvent::AssignDone(Ok(_))) => {
            UploadState::TrackAssigned { edit_id }
        },
        (UploadState::Uploaded { edit_id, bundle: _ }, UploadEvent::AssignDone(Err(err))) => {
            UploadState::RollingBack { edit_id, error: err }
        },
        (UploadState::TrackAssigned { edit_id: _ }, UploadEvent::CommitDone(Ok(_))) => {
            UploadState::Committed
        },
        (UploadState::TrackAssigned { edit_id: _ }, UploadEvent::CommitDone(Err(err))) => {
            UploadState::Failed { error: err }
        },
        (UploadState::RollingBack { edit_id: _, error }, UploadEvent::DeleteDone(_)) => {
            UploadState::Failed { error }
        },
        (other, _) => other,
    }
}

/// The call the shell must perform next for this state.
pub fn upload_action(s: &UploadState) -> (a: RemoteAction)
    ensures
        a@ == upload_action_v(s@),
{
    match s {
        UploadState::Start => RemoteAction::OpenEdit,
        UploadState::Opened { .. } => RemoteAction::ReadFile,
        UploadState::Loaded { edit_id } => RemoteAction::UploadBundle {
            edit_id: edit_id.clone(),
        },
        UploadState::Uploaded { edit_id, bundle } => RemoteAction::AssignTrack {
            edit_id: edit_id.clone(),
            version_code: bundle.version_code,
        },
        UploadState::TrackAssigned { edit_id } => RemoteAction::CommitEdit {
            edit_id: edit_id.clone(),
        },
        UploadState::RollingBack { edit_id, .. } => RemoteAction::DeleteEdit {
            edit_id: edit_id.clone(),
        },
        UploadState::Committed => RemoteAction::Finish,
        UploadState::Failed { .. } => RemoteAction::Finish,
    }
}

/// Whether the workflow is over.
pub fn upload_is_terminal(s: &UploadState) -> (b: bool)
    ensures
        b == upload_terminal(s@),
{
    match s {
        UploadState::Committed => true,
        UploadState::Failed { .. } => true,
        _ => false,
    }
}

} // verus!
