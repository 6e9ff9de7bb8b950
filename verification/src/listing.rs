//! The read-only listing workflows: bundles and tracks.
//!
//! The remote API exposes the two listings only inside an edit session, so
//! each listing opens a session, fetches, and deletes the session again —
//! whatever the fetch returned.  A fetch failure is surfaced after the delete
//! attempt and is never replaced by a delete failure; a delete failure after
//! a successful fetch is surfaced itself.  The machine renders one output
//! line per listed item, in order.

use vstd::prelude::*;

use crate::actions::{
    catalog_after, is_catalog_mutating, lemma_non_mutating_trace_preserves_catalog, RemoteAction,
    RemoteActionV,
};
use crate::api_structs::{
    bundle_line_spec, bundle_lines, track_line_spec, track_lines, Bundle, BundleV, Track, TrackV,
};
use crate::errors::{ErrorV, GplayError};

verus! {

/// Which catalog a listing reads.
#[derive(Debug, Clone, Copy, PartialEq, Eq, Structural)]
pub enum ListKind {
    Bundles,
    Tracks,
}

/// View of a [`ListEvent`].
pub enum ListEventV {
    OpenDone(Result<Seq<char>, ErrorV>),
    FetchBundlesDone(Result<Seq<BundleV>, ErrorV>),
    FetchTracksDone(Result<Seq<TrackV>, ErrorV>),
    DeleteDone(Result<(), ErrorV>),
}

/// One event of a listing workflow: the outcome of the call that was pending.
#[derive(Debug, PartialEq, Eq)]
pub enum ListEvent {
    /// Outcome of the open-edit call: the assigned session identifier.
    OpenDone(Result<String, GplayError>),
    /// Outcome of the bundle-listing call.
    FetchBundlesDone(Result<Vec<Bundle>, GplayError>),
    /// Outcome of the track-listing call.
    FetchTracksDone(Result<Vec<Track>, GplayError>),
    /// Outcome of the cleanup delete call.
    DeleteDone(Result<(), GplayError>),
}

impl View for ListEvent {
    type V = ListEventV;

    open spec fn view(&self) -> ListEventV {
        match self {
            ListEvent::OpenDone(r) => ListEventV::OpenDone(
                match r {
                    Ok(id) => Ok(id@),
                    Err(e) => Err(e@),
                },
            ),
            ListEvent::FetchBundlesDone(r) => ListEventV::FetchBundlesDone(
                match r {
                    Ok(bs) => Ok(bs@.map_values(|b: Bundle| b@)),
                    Err(e) => Err(e@),
                },
            ),
            ListEvent::FetchTracksDone(r) => ListEventV::FetchTracksDone(
                match r {
                    Ok(ts) => Ok(ts@.map_values(|t: Track| t@)),
                    Err(e) => Err(e@),
                },
            ),
            ListEvent::DeleteDone(r) => ListEventV::DeleteDone(
                match r {
                    Ok(_) => Ok(()),
                    Err(e) => Err(e@),
                },
            ),
        }
    }
}

/// View of a [`ListState`].
pub enum ListStateV {
    Start { kind: ListKind },
    Opened { kind: ListKind, edit_id: Seq<char> },
    Cleanup { edit_id: Seq<char>, lines: Seq<Seq<char>>, fetch_error: Option<ErrorV> },
    Completed { lines: Seq<Seq<char>> },
    Failed { lines: Seq<Seq<char>>, error: ErrorV },
}

/// One state of a listing workflow.
#[derive(Debug, PartialEq, Eq)]
pub enum ListState {
    /// Nothing has happened yet; the session must be opened.
    Start { kind: ListKind },
    /// The session is open; the listing must be fetched.
    Opened { kind: ListKind, edit_id: String },
    /// The fetch came back; the session must be deleted whatever it returned.
    /// `lines` are the rendered output lines (empty on a failed fetch), and
    /// `fetch_error` the fetch failure to surface after the cleanup.
    Cleanup { edit_id: String, lines: Vec<String>, fetch_error: Option<GplayError> },
    /// The listing succeeded and the session is gone: emit `lines`.
    Completed { lines: Vec<String> },
    /// The listing failed; `lines` were still produced when the fetch itself
    /// had succeeded.
    Failed { lines: Vec<String>, error: GplayError },
}

impl View for ListState {
    type V = ListStateV;

    open spec fn view(&self) -> ListStateV {
        match self {
            ListState::Start { kind } => ListStateV::Start { kind: *kind },
            ListState::Opened { kind, edit_id } => ListStateV::Opened {
                kind: *kind,
                edit_id: edit_id@,
            },
            ListState::Cleanup { edit_id, lines, fetch_error } => ListStateV::Cleanup {
                edit_id: edit_id@,
                lines: lines@.map_values(|s: String| s@),
                fetch_error: match fetch_error {
                    Some(e) => Some(e@),
                    None => None,
                },
            },
            ListState::Completed { lines } => ListStateV::Completed {
                lines: lines@.map_values(|s: String| s@),
            },
            ListState::Failed { lines, error } => ListStateV::Failed {
                lines: lines@.map_values(|s: String| s@),
                error: error@,
            },
        }
    }
}

/// The listing is over.
pub open spec fn list_terminal(s: ListStateV) -> bool {
    s is Completed || s is Failed
}

/// The event a listing state is waiting for.
pub open spec fn list_event_fits(s: ListStateV, e: ListEventV) -> bool {
    match (s, e) {
        (ListStateV::Start { .. }, ListEventV::OpenDone(_)) => true,
        (
            ListStateV::Opened { kind: ListKind::Bundles, .. },
            ListEventV::FetchBundlesDone(_),
        ) => true,
        (ListStateV::Opened { kind: ListKind::Tracks, .. }, ListEventV::FetchTracksDone(_)) => true,
        (ListStateV::Cleanup { .. }, ListEventV::DeleteDone(_)) => true,
        _ => false,
    }
}

/// The transition relation of a listing, total over all pairs: an event that
/// does not fit leaves the state unchanged.
pub open spec fn list_step_v(s: ListStateV, e: ListEventV) -> ListStateV {
    match (s, e) {
        (ListStateV::Start { kind }, ListEventV::OpenDone(Ok(id))) => ListStateV::Opened {
            kind,
            edit_id: id,
        },
        (ListStateV::Start { .. }, ListEventV::OpenDone(Err(err))) => ListStateV::Failed {
            lines: Seq::empty(),
            error: err,
        },
        (
            ListStateV::Opened { kind: ListKind::Bundles, edit_id },
            ListEventV::FetchBundlesDone(Ok(bs)),
        ) => ListStateV::Cleanup {
            edit_id,
            lines: bs.map_values(|b: BundleV| bundle_line_spec(b)),
            fetch_error: None,
        },
        (
            ListStateV::Opened { kind: ListKind::Bundles, edit_id },
            ListEventV::FetchBundlesDone(Err(err)),
        ) => ListStateV::Cleanup { edit_id, lines: Seq::empty(), fetch_error: Some(err) },
        (
            ListStateV::Opened { kind: ListKind::Tracks, edit_id },
            ListEventV::FetchTracksDone(Ok(ts)),
        ) => ListStateV::Cleanup {
            edit_id,
            lines: ts.map_values(|t: TrackV| track_line_spec(t)),
            fetch_error: None,
        },
        (
            ListStateV::Opened { kind: ListKind::Tracks, edit_id },
            ListEventV::FetchTracksDone(Err(err)),
        ) => ListStateV::Cleanup { edit_id, lines: Seq::empty(), fetch_error: Some(err) },
        (
            ListStateV::Cleanup { lines, fetch_error: None, .. },
            ListEventV::DeleteDone(Ok(_)),
        ) => ListStateV::Completed { lines },
        (
            ListStateV::Cleanup { lines, fetch_error: None, .. },
            ListEventV::DeleteDone(Err(err)),
        ) => ListStateV::Failed { lines, error: err },
        (
            ListStateV::Cleanup { lines, fetch_error: Some(fe), .. },
            ListEventV::DeleteDone(_),
        ) => ListStateV::Failed { lines, error: fe },
        (other, _) => other,
    }
}

/// The call pending at a listing state.
pub open spec fn list_action_v(s: ListStateV) -> RemoteActionV {
    match s {
        ListStateV::Start { .. } => RemoteActionV::OpenEdit,
        ListStateV::Opened { kind: ListKind::Bundles, edit_id } => RemoteActionV::FetchBundles {
            edit_id,
        },
        ListStateV::Opened { kind: ListKind::Tracks, edit_id } => RemoteActionV::FetchTracks {
            edit_id,
        },
        ListStateV::Cleanup { edit_id, .. } => RemoteActionV::DeleteEdit { edit_id },
        ListStateV::Completed { .. } => RemoteActionV::Finish,
        ListStateV::Failed { .. } => RemoteActionV::Finish,
    }
}

/// Advances a listing by one event.
pub fn list_step(s: ListState, e: ListEvent) -> (t: ListState)
    ensures
        t@ == list_step_v(s@, e@),
{
    match (s, e) {
        (ListState::Start { kind }, ListEvent::OpenDone(Ok(id))) => ListState::Opened {
            kind,
            edit_id: id,
        },
        (ListState::Start { kind: _ }, ListEvent::OpenDone(Err(err))) => {
            let t = ListState::Failed { lines: Vec::new(), error: err };
            proof {
                assert(t@ matches ListStateV::Failed { lines, .. } && lines =~= Seq::<
                    Seq<char>,
                >::empty());
            }
            t
        },
        (
            ListState::Opened { kind: ListKind::Bundles, edit_id },
            ListEvent::FetchBundlesDone(Ok(bs)),
        ) => {
            let lines = bundle_lines(&bs);
            let t = ListState::Cleanup { edit_id, lines, fetch_error: None };
            proof {
                assert(t@ matches ListStateV::Cleanup { lines: lv, .. } && lv =~= bs@.map_values(
                    |b: Bundle| b@,
                ).map_values(|b: BundleV| bundle_line_spec(b)));
            }
            t
        },
        (
            ListState::Opened { kind: ListKind::Bundles, edit_id },
            ListEvent::FetchBundlesDone(Err(err)),
        ) => {
            let t = ListState::Cleanup { edit_id, lines: Vec::new(), fetch_error: Some(err) };
            proof {
                assert(t@ matches ListStateV::Cleanup { lines, .. } && lines =~= Seq::<
                    Seq<char>,
                >::empty());
            }
            t
        },
        (
            ListState::Opened { kind: ListKind::Tracks, edit_id },
            ListEvent::FetchTracksDone(Ok(ts)),
        ) => {
            let lines = track_lines(&ts);
            let t = ListState::Cleanup { edit_id, lines, fetch_error: None };
            proof {
                assert(t@ matches ListStateV::Cleanup { lines: lv, .. } && lv =~= ts@.map_values(
                    |t2: Track| t2@,
                ).map_values(|t2: TrackV| track_line_spec(t2)));
            }
            t
        },
        (
            ListState::Opened { kind: ListKind::Tracks, edit_id },
            ListEvent::FetchTracksDone(Err(err)),
        ) => {
            let t = ListState::Cleanup { edit_id, lines: Vec::new(), fetch_error: Some(err) };
            proof {
                assert(t@ matches ListStateV::Cleanup { lines, .. } && lines =~= Seq::<
                    Seq<char>,
                >::empty());
            }
            t
        },
        (
            ListState::Cleanup { edit_id: _, lines, fetch_error: None },
            ListEvent::DeleteDone(Ok(_)),
        ) => ListState::Completed { lines },
        (
            ListState::Cleanup { edit_id: _, lines, fetch_error: None },
            ListEvent::DeleteDone(Err(err)),
        ) => ListState::Failed { lines, error: err },
        (
            ListState::Cleanup { edit_id: _, lines, fetch_error: Some(fe) },
            ListEvent::DeleteDone(_),
        ) => ListState::Failed { lines, error: fe },
        (other, _) => other,
    }
}

/// The call the shell must perform next for this listing state.
pub fn list_action(s: &ListState) -> (a: RemoteAction)
    ensures
        a@ == list_action_v(s@),
{
    match s {
        ListState::Start { .. } => RemoteAction::OpenEdit,
        ListState::Opened { kind: ListKind::Bundles, edit_id } => RemoteAction::FetchBundles {
            edit_id: edit_id.clone(),
        },
        ListState::Opened { kind: ListKind::Tracks, edit_id } => RemoteAction::FetchTracks {
            edit_id: edit_id.clone(),
        },
        ListState::Cleanup { edit_id, .. } => RemoteAction::DeleteEdit {
            edit_id: edit_id.clone(),
        },
        ListState::Completed { .. } => RemoteAction::Finish,
        ListState::Failed { .. } => RemoteAction::Finish,
    }
}

/// Whether the listing is over.
pub fn list_is_terminal(s: &ListState) -> (b: bool)
    ensures
        b == list_terminal(s@),
{
    match s {
        ListState::Completed { .. } => true,
        ListState::Failed { .. } => true,
        _ => false,
    }
}

/// The state of a listing after consuming a sequence of events.
pub open spec fn list_state_after(kind: ListKind, events: Seq<ListEventV>) -> ListStateV
    decreases events.len(),
{
    if events.len() == 0 {
        ListStateV::Start { kind }
    } else {
        list_step_v(list_state_after(kind, events.drop_last()), events.last())
    }
}

/// The calls performed during a listing run.
pub open spec fn list_actions_of(kind: ListKind, events: Seq<ListEventV>) -> Seq<RemoteActionV> {
    Seq::new(events.len(), |i: int| list_action_v(list_state_after(kind, events.take(i))))
}

/// Every call a listing can ask for is read-only on the durable catalog.
pub proof fn lemma_list_actions_never_mutate(kind: ListKind, events: Seq<ListEventV>)
    ensures
        forall|i: int|
            0 <= i < events.len() ==> !is_catalog_mutating(
                #[trigger] list_actions_of(kind, events)[i],
            ),
{
    assert forall|i: int| 0 <= i < events.len() implies !is_catalog_mutating(
        #[trigger] list_actions_of(kind, events)[i],
    ) by {
        let s = list_state_after(kind, events.take(i));
        assert(list_actions_of(kind, events)[i] == list_action_v(s));
    }
}

/// A listing leaves the durable catalog unchanged: under every interpretation
/// of the remote state in which only a commit can change the catalog, the
/// catalog after the whole listing trace — open, fetch, delete — equals the
/// catalog before it.
pub proof fn lemma_listing_preserves_catalog<C>(
    c: C,
    apply: spec_fn(C, RemoteActionV) -> C,
    kind: ListKind,
    events: Seq<ListEventV>,
)
    requires
        forall|x: C, a: RemoteActionV| !is_catalog_mutating(a) ==> #[trigger] apply(x, a) == x,
    ensures
        catalog_after(c, apply, list_actions_of(kind, events)) == c,
{
    lemma_list_actions_never_mutate(kind, events);
    lemma_non_mutating_trace_preserves_catalog(c, apply, list_actions_of(kind, events));
}

} // verus!
