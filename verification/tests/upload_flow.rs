use gplay::actions::RemoteAction;
use gplay::api_structs::{Bundle, Track};
use gplay::errors::GplayError;
use gplay::workflow::{upload_action, upload_is_terminal, upload_step, UploadEvent, UploadState};

/// What the scripted service answers for each call of one upload run.
struct Script {
    open: Result<String, GplayError>,
    file: Result<u64, GplayError>,
    upload: Result<Bundle, GplayError>,
    assign: Result<Track, GplayError>,
    commit: Result<(), GplayError>,
    delete: Result<(), GplayError>,
}

/// Counts of the calls the machine asked for during one run.
#[derive(Default)]
struct Calls {
    opens: u32,
    reads: u32,
    uploads: u32,
    assigns: u32,
    commits: u32,
    deletes: u32,
}

fn run(script: Script) -> (UploadState, Calls) {
    let mut state = UploadState::Start;
    let mut calls = Calls::default();
    loop {
        if upload_is_terminal(&state) {
            assert!(matches!(upload_action(&state), RemoteAction::Finish));
            return (state, calls);
        }
        let event = match upload_action(&state) {
            RemoteAction::OpenEdit => {
                calls.opens += 1;
                UploadEvent::OpenDone(script.open.clone())
            }
            RemoteAction::ReadFile => {
                calls.reads += 1;
                UploadEvent::FileDone(script.file.clone())
            }
            RemoteAction::UploadBundle { edit_id } => {
                assert_eq!(edit_id, "edit-1");
                calls.uploads += 1;
                UploadEvent::UploadDone(script.upload.clone())
            }
            RemoteAction::AssignTrack { edit_id, version_code } => {
                assert_eq!(edit_id, "edit-1");
                assert_eq!(version_code, 3);
                calls.assigns += 1;
                UploadEvent::AssignDone(script.assign.clone())
            }
            RemoteAction::CommitEdit { edit_id } => {
                assert_eq!(edit_id, "edit-1");
                calls.commits += 1;
                UploadEvent::CommitDone(script.commit.clone())
            }
            RemoteAction::DeleteEdit { edit_id } => {
                assert_eq!(edit_id, "edit-1");
                calls.deletes += 1;
                UploadEvent::DeleteDone(script.delete.clone())
            }
            RemoteAction::Finish => unreachable!(),
            other => panic!("a listing call in an upload run: {:?}", other),
        };
        state = upload_step(state, event);
    }
}

fn happy_script() -> Script {
    Script {
        open: Ok("edit-1".to_string()),
        file: Ok(10),
        upload: Ok(Bundle { version_code: 3, sha256: "ab".to_string() }),
        assign: Ok(Track { name: "internal".to_string(), releases: vec![] }),
        commit: Ok(()),
        delete: Ok(()),
    }
}

#[test]
fn successful_upload_commits_and_never_deletes() {
    let (state, calls) = run(happy_script());
    assert!(matches!(state, UploadState::Committed));
    assert_eq!(calls.opens, 1);
    assert_eq!(calls.reads, 1);
    assert_eq!(calls.uploads, 1);
    assert_eq!(calls.assigns, 1);
    assert_eq!(calls.commits, 1);
    assert_eq!(calls.deletes, 0);
}

#[test]
fn open_failure_terminates_with_nothing_to_clean_up() {
    let mut script = happy_script();
    script.open = Err(GplayError::RemoteApi("invalid package".to_string()));
    let (state, calls) = run(script);
    match state {
        UploadState::Failed { error } => assert_eq!(error.message(), "invalid package"),
        other => panic!("expected failure, got {:?}", other),
    }
    assert_eq!(calls.reads, 0);
    assert_eq!(calls.uploads, 0);
    assert_eq!(calls.assigns, 0);
    assert_eq!(calls.commits, 0);
    assert_eq!(calls.deletes, 0);
}

#[test]
fn file_read_failure_still_deletes_the_session() {
    let mut script = happy_script();
    script.file = Err(GplayError::LocalIo("Unable to read bundle file".to_string()));
    let (state, calls) = run(script);
    match state {
        UploadState::Failed { error } => {
            assert_eq!(error, GplayError::LocalIo("Unable to read bundle file".to_string()))
        }
        other => panic!("expected failure, got {:?}", other),
    }
    assert_eq!(calls.uploads, 0);
    assert_eq!(calls.assigns, 0);
    assert_eq!(calls.commits, 0);
    assert_eq!(calls.deletes, 1);
}

#[test]
fn upload_timeout_deletes_and_issues_no_assign_or_commit() {
    let mut script = happy_script();
    script.upload = Err(GplayError::Transport("upload timed out".to_string()));
    let (state, calls) = run(script);
    match state {
        UploadState::Failed { error } => assert_eq!(error.message(), "upload timed out"),
        other => panic!("expected failure, got {:?}", other),
    }
    assert_eq!(calls.assigns, 0);
    assert_eq!(calls.commits, 0);
    assert_eq!(calls.deletes, 1);
}

#[test]
fn assign_failure_deletes_and_surfaces_the_assignment_error() {
    let mut script = happy_script();
    script.assign = Err(GplayError::RemoteApi("track not found".to_string()));
    let (state, calls) = run(script);
    match state {
        UploadState::Failed { error } => assert_eq!(error.message(), "track not found"),
        other => panic!("expected failure, got {:?}", other),
    }
    assert_eq!(calls.commits, 0);
    assert_eq!(calls.deletes, 1);
}

#[test]
fn assign_failure_error_survives_a_failed_delete() {
    let mut script = happy_script();
    script.assign = Err(GplayError::RemoteApi("track not found".to_string()));
    script.delete = Err(GplayError::Transport("connection reset".to_string()));
    let (state, calls) = run(script);
    match state {
        UploadState::Failed { error } => assert_eq!(error.message(), "track not found"),
        other => panic!("expected failure, got {:?}", other),
    }
    assert_eq!(calls.deletes, 1);
}

#[test]
fn commit_failure_is_surfaced_without_a_delete() {
    let mut script = happy_script();
    script.commit = Err(GplayError::RemoteApi("edit expired".to_string()));
    let (state, calls) = run(script);
    match state {
        UploadState::Failed { error } => assert_eq!(error.message(), "edit expired"),
        other => panic!("expected failure, got {:?}", other),
    }
    assert_eq!(calls.commits, 1);
    assert_eq!(calls.deletes, 0);
}
