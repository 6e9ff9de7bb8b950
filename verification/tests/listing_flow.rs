use std::cell::RefCell;

use gplay::actions::RemoteAction;
use gplay::api_structs::{Bundle, Track};
use gplay::errors::GplayError;
use gplay::listing::{list_action, list_is_terminal, list_step, ListEvent, ListKind, ListState};
use gplay::{GplayLog, GplayTool};

struct Script {
    open: Result<String, GplayError>,
    bundles: Result<Vec<Bundle>, GplayError>,
    tracks: Result<Vec<Track>, GplayError>,
    delete: Result<(), GplayError>,
}

#[derive(Default)]
struct Calls {
    opens: u32,
    fetches: u32,
    deletes: u32,
}

fn run(kind: ListKind, script: Script) -> (ListState, Calls) {
    let mut state = ListState::Start { kind };
    let mut calls = Calls::default();
    loop {
        if list_is_terminal(&state) {
            assert!(matches!(list_action(&state), RemoteAction::Finish));
            return (state, calls);
        }
        let event = match list_action(&state) {
            RemoteAction::OpenEdit => {
                calls.opens += 1;
                ListEvent::OpenDone(script.open.clone())
            }
            RemoteAction::FetchBundles { edit_id } => {
                assert_eq!(edit_id, "edit-9");
                calls.fetches += 1;
                ListEvent::FetchBundlesDone(script.bundles.clone())
            }
            RemoteAction::FetchTracks { edit_id } => {
                assert_eq!(edit_id, "edit-9");
                calls.fetches += 1;
                ListEvent::FetchTracksDone(script.tracks.clone())
            }
            RemoteAction::DeleteEdit { edit_id } => {
                assert_eq!(edit_id, "edit-9");
                calls.deletes += 1;
                ListEvent::DeleteDone(script.delete.clone())
            }
            other => panic!("unexpected call in a listing run: {:?}", other),
        };
        state = list_step(state, event);
    }
}

fn happy_script() -> Script {
    Script {
        open: Ok("edit-9".to_string()),
        bundles: Ok(vec![
            Bundle { version_code: 5, sha256: "aa".to_string() },
            Bundle { version_code: 6, sha256: "bb".to_string() },
        ]),
        tracks: Ok(vec![
            Track { name: "internal".to_string(), releases: vec![] },
            Track { name: "production".to_string(), releases: vec![] },
        ]),
        delete: Ok(()),
    }
}

#[test]
fn listing_two_bundles_emits_two_lines_with_one_open_and_one_delete() {
    let (state, calls) = run(ListKind::Bundles, happy_script());
    match state {
        ListState::Completed { lines } => {
            assert_eq!(lines, vec!["Version 5 [aa]".to_string(), "Version 6 [bb]".to_string()]);
        }
        other => panic!("expected completion, got {:?}", other),
    }
    assert_eq!(calls.opens, 1);
    assert_eq!(calls.fetches, 1);
    assert_eq!(calls.deletes, 1);
}

#[test]
fn listing_tracks_emits_one_line_per_track() {
    let (state, calls) = run(ListKind::Tracks, happy_script());
    match state {
        ListState::Completed { lines } => {
            assert_eq!(lines, vec!["Track 'internal'".to_string(), "Track 'production'".to_string()]);
        }
        other => panic!("expected completion, got {:?}", other),
    }
    assert_eq!(calls.opens, 1);
    assert_eq!(calls.deletes, 1);
}

#[test]
fn open_failure_ends_the_listing_without_a_delete() {
    let mut script = happy_script();
    script.open = Err(GplayError::RemoteApi("invalid package".to_string()));
    let (state, calls) = run(ListKind::Bundles, script);
    match state {
        ListState::Failed { lines, error } => {
            assert!(lines.is_empty());
            assert_eq!(error.message(), "invalid package");
        }
        other => panic!("expected failure, got {:?}", other),
    }
    assert_eq!(calls.deletes, 0);
}

#[test]
fn fetch_failure_still_deletes_and_surfaces_the_fetch_error() {
    let mut script = happy_script();
    script.bundles = Err(GplayError::RemoteApi("listing unavailable".to_string()));
    script.delete = Err(GplayError::Transport("connection reset".to_string()));
    let (state, calls) = run(ListKind::Bundles, script);
    match state {
        ListState::Failed { lines, error } => {
            assert!(lines.is_empty());
            assert_eq!(error.message(), "listing unavailable");
        }
        other => panic!("expected failure, got {:?}", other),
    }
    assert_eq!(calls.deletes, 1);
}

#[test]
fn delete_failure_after_a_good_fetch_is_surfaced() {
    let mut script = happy_script();
    script.delete = Err(GplayError::RemoteApi("already gone".to_string()));
    let (state, calls) = run(ListKind::Bundles, script);
    match state {
        ListState::Failed { lines, error } => {
            assert_eq!(lines.len(), 2);
            assert_eq!(error.message(), "already gone");
        }
        other => panic!("expected failure, got {:?}", other),
    }
    assert_eq!(calls.deletes, 1);
}

struct CollectingLog {
    lines: RefCell<Vec<String>>,
}

impl GplayLog for CollectingLog {
    fn output(&self, msg: &str) {
        self.lines.borrow_mut().push(msg.to_string());
    }
    fn warning(&self, msg: &str) {
        self.lines.borrow_mut().push(format!("warning: {}", msg));
    }
    fn error(&self, msg: &str) {
        self.lines.borrow_mut().push(format!("error: {}", msg));
    }
}

#[test]
fn tool_emits_lines_in_order_through_the_log() {
    let log = CollectingLog { lines: RefCell::new(Vec::new()) };
    let tool = GplayTool::new(&log);
    tool.announce_token_request();
    tool.emit_lines(&vec!["Version 5 [aa]".to_string(), "Version 6 [bb]".to_string()]);
    assert_eq!(
        *log.lines.borrow(),
        vec![
            "Requesting OAuth token with Android Publisher scope".to_string(),
            "Version 5 [aa]".to_string(),
            "Version 6 [bb]".to_string(),
        ]
    );
}
