//! Whole-run laws of the upload workflow.
//!
//! A run is the sequence of event outcomes the shell fed to the machine, one
//! per performed call; the actions of the run are the calls the machine asked
//! for before each event.  The lemmas here state the all-or-nothing contract
//! of the transaction: a failed upload forecloses assignment and commit, a
//! failed assignment forces the compensating delete and surfaces the
//! assignment error whatever the delete returned, and commit happens exactly
//! when upload and assignment both succeeded.

use vstd::prelude::*;

use crate::actions::RemoteActionV;
use crate::errors::ErrorV;
use crate::workflow::{
    upload_action_v, upload_event_fits, upload_step_v, upload_terminal, UploadEventV, UploadStateV,
};

verus! {

/// The state of the machine after consuming a sequence of events, starting
/// from [`UploadStateV::Start`].
pub open spec fn upload_state_after(events: Seq<UploadEventV>) -> UploadStateV
    decreases events.len(),
{
    if events.len() == 0 {
        UploadStateV::Start
    } else {
        upload_step_v(upload_state_after(events.drop_last()), events.last())
    }
}

/// A faithful run: every event is the outcome of the call that was pending
/// when it arrived.
pub open spec fn upload_valid_events(events: Seq<UploadEventV>) -> bool {
    forall|i: int|
        0 <= i < events.len() ==> upload_event_fits(
            upload_state_after(#[trigger] events.take(i)),
            events[i],
        )
}

/// The calls performed during a run: the pending call of each state the run
/// passed through.
pub open spec fn upload_actions_of(events: Seq<UploadEventV>) -> Seq<RemoteActionV> {
    Seq::new(events.len(), |i: int| upload_action_v(upload_state_after(events.take(i))))
}

/// The upload call succeeded at position `i` of the run.
pub open spec fn upload_ok_at(events: Seq<UploadEventV>, i: int) -> bool {
    events[i] matches UploadEventV::UploadDone(r) && r is Ok
}

/// Some upload call in the run succeeded.
pub open spec fn some_upload_ok(events: Seq<UploadEventV>) -> bool {
    exists|i: int| 0 <= i < events.len() && #[trigger] upload_ok_at(events, i)
}

/// The track-assignment call succeeded at position `i` of the run.
pub open spec fn assign_ok_at(events: Seq<UploadEventV>, i: int) -> bool {
    events[i] matches UploadEventV::AssignDone(r) && r is Ok
}

/// Some track-assignment call in the run succeeded.
pub open spec fn some_assign_ok(events: Seq<UploadEventV>) -> bool {
    exists|i: int| 0 <= i < events.len() && #[trigger] assign_ok_at(events, i)
}

/// How far the transaction has advanced; every transition keeps or raises it.
pub open spec fn phase_rank(s: UploadStateV) -> int {
    match s {
        UploadStateV::Start => 0,
        UploadStateV::Opened { .. } => 1,
        UploadStateV::Loaded { .. } => 2,
        UploadStateV::Uploaded { .. } => 3,
        UploadStateV::TrackAssigned { .. } => 4,
        UploadStateV::RollingBack { .. } => 5,
        UploadStateV::Committed => 5,
        UploadStateV::Failed { .. } => 6,
    }
}

/// The state is rolling back with `err` to surface, or has finished doing so.
pub open spec fn rolling_or_failed_with(s: UploadStateV, err: ErrorV) -> bool {
    ||| s matches UploadStateV::RollingBack { error, .. } && error == err
    ||| s matches UploadStateV::Failed { error } && error == err
}

proof fn lemma_take_succ(events: Seq<UploadEventV>, i: int)
    requires
        0 <= i < events.len(),
    ensures
        upload_state_after(events.take(i + 1)) == upload_step_v(
            upload_state_after(events.take(i)),
            events[i],
        ),
{
    assert(events.take(i + 1).drop_last() =~= events.take(i));
    assert(events.take(i + 1).last() == events[i]);
}

proof fn lemma_step_rank(s: UploadStateV, e: UploadEventV)
    ensures
        phase_rank(upload_step_v(s, e)) >= phase_rank(s),
{
}

proof fn lemma_rank_mono(events: Seq<UploadEventV>, j: int, k: int)
    requires
        0 <= j <= k <= events.len(),
    ensures
        phase_rank(upload_state_after(events.take(j))) <= phase_rank(
            upload_state_after(events.take(k)),
        ),
    decreases k - j,
{
    if j < k {
        lemma_rank_mono(events, j, k - 1);
        lemma_take_succ(events, k - 1);
        lemma_step_rank(upload_state_after(events.take(k - 1)), events[k - 1]);
    }
}

/// States at or past a successful upload.
spec fn reached_upload(s: UploadStateV) -> bool {
    s is Uploaded || s is TrackAssigned || s is Committed
}

/// States at or past a successful track assignment.
spec fn reached_assign(s: UploadStateV) -> bool {
    s is TrackAssigned || s is Committed
}

proof fn lemma_reached_upload_needs_ok(events: Seq<UploadEventV>, k: int)
    requires
        0 <= k <= events.len(),
        reached_upload(upload_state_after(events.take(k))),
    ensures
        some_upload_ok(events),
    decreases k,
{
    if k == 0 {
        assert(events.take(0) =~= Seq::<UploadEventV>::empty());
        assert(false);
    } else {
        lemma_take_succ(events, k - 1);
        let pre = upload_state_after(events.take(k - 1));
        if reached_upload(pre) {
            lemma_reached_upload_needs_ok(events, k - 1);
        } else {
            assert(upload_ok_at(events, k - 1));
        }
    }
}

proof fn lemma_reached_assign_needs_ok(events: Seq<UploadEventV>, k: int)
    requires
        0 <= k <= events.len(),
        reached_assign(upload_state_after(events.take(k))),
    ensures
        some_assign_ok(events),
    decreases k,
{
    if k == 0 {
        assert(events.take(0) =~= Seq::<UploadEventV>::empty());
        assert(false);
    } else {
        lemma_take_succ(events, k - 1);
        let pre = upload_state_after(events.take(k - 1));
        if reached_assign(pre) {
            lemma_reached_assign_needs_ok(events, k - 1);
        } else {
            assert(assign_ok_at(events, k - 1));
        }
    }
}

proof fn lemma_rollback_closed(events: Seq<UploadEventV>, j: int, k: int, err: ErrorV)
    requires
        0 <= j <= k <= events.len(),
        rolling_or_failed_with(upload_state_after(events.take(j)), err),
    ensures
        rolling_or_failed_with(upload_state_after(events.take(k)), err),
    decreases k - j,
{
    if j < k {
        lemma_rollback_closed(events, j, k - 1, err);
        lemma_take_succ(events, k - 1);
    }
}

/// The open-edit call succeeded at position `i` of the run.
pub open spec fn open_ok_at(events: Seq<UploadEventV>, i: int) -> bool {
    events[i] matches UploadEventV::OpenDone(r) && r is Ok
}

proof fn lemma_terminal_closed(events: Seq<UploadEventV>, j: int, k: int)
    requires
        0 <= j <= k <= events.len(),
        upload_terminal(upload_state_after(events.take(j))),
    ensures
        upload_state_after(events.take(k)) == upload_state_after(events.take(j)),
    decreases k - j,
{
    if j < k {
        lemma_terminal_closed(events, j, k - 1);
        lemma_take_succ(events, k - 1);
    }
}

proof fn lemma_start_only_at_zero(events: Seq<UploadEventV>, k: int)
    requires
        upload_valid_events(events),
        0 < k <= events.len(),
    ensures
        !(upload_state_after(events.take(k)) is Start),
{
    assert(upload_event_fits(upload_state_after(events.take(0)), events[0]));
    assert(events.take(0) =~= Seq::<UploadEventV>::empty());
    lemma_take_succ(events, 0);
    assert(phase_rank(upload_state_after(events.take(1))) >= 1);
    lemma_rank_mono(events, 1, k);
}

/// If the upload step fails, no track-assignment and no commit call is ever
/// issued in the run: the only remote work left is the compensating delete.
pub proof fn lemma_upload_failure_blocks_assign_and_commit(events: Seq<UploadEventV>, i: int)
    requires
        upload_valid_events(events),
        0 <= i < events.len(),
        events[i] matches UploadEventV::UploadDone(r) && r is Err,
    ensures
        forall|j: int|
            0 <= j < events.len() ==> !((#[trigger] upload_actions_of(events)[j]) is AssignTrack),
        forall|j: int|
            0 <= j < events.len() ==> !((#[trigger] upload_actions_of(events)[j]) is CommitEdit),
{
    assert(upload_event_fits(upload_state_after(events.take(i)), events[i]));
    let pre = upload_state_after(events.take(i));
    assert(pre is Loaded);
    let err = match events[i] {
        UploadEventV::UploadDone(r) => match r {
            Err(e) => e,
            Ok(_) => arbitrary(),
        },
        _ => arbitrary(),
    };
    lemma_take_succ(events, i);
    assert(rolling_or_failed_with(upload_state_after(events.take(i + 1)), err));
    assert forall|j: int| 0 <= j < events.len() implies !((#[trigger] upload_actions_of(
        events,
    )[j]) is AssignTrack) && !(upload_actions_of(events)[j] is CommitEdit) by {
        let s = upload_state_after(events.take(j));
        if j <= i {
            lemma_rank_mono(events, j, i);
            assert(phase_rank(s) <= 2);
        } else {
            lemma_rollback_closed(events, i + 1, j, err);
        }
    }
}

/// In every faithful, finished run, commit is called if and only if both the
/// upload and the track assignment succeeded.
pub proof fn lemma_commit_iff_upload_and_assign_ok(events: Seq<UploadEventV>)
    requires
        upload_valid_events(events),
        upload_terminal(upload_state_after(events)),
    ensures
        (exists|j: int|
            0 <= j < events.len() && (#[trigger] upload_actions_of(events)[j]) is CommitEdit)
            <==> (some_upload_ok(events) && some_assign_ok(events)),
{
    if exists|j: int|
        0 <= j < events.len() && (#[trigger] upload_actions_of(events)[j]) is CommitEdit {
        let j = choose|j: int|
            0 <= j < events.len() && (#[trigger] upload_actions_of(events)[j]) is CommitEdit;
        let s = upload_state_after(events.take(j));
        assert(s is TrackAssigned);
        lemma_reached_upload_needs_ok(events, j);
        lemma_reached_assign_needs_ok(events, j);
    }
    if some_upload_ok(events) && some_assign_ok(events) {
        let j = choose|j: int| 0 <= j < events.len() && #[trigger] assign_ok_at(events, j);
        assert(upload_event_fits(upload_state_after(events.take(j)), events[j]));
        assert(upload_state_after(events.take(j)) is Uploaded);
        lemma_take_succ(events, j);
        assert(upload_state_after(events.take(j + 1)) is TrackAssigned);
        if j + 1 == events.len() {
            assert(events.take(j + 1) =~= events);
            assert(false);
        }
        assert((upload_actions_of(events)[j + 1]) is CommitEdit);
    }
}

/// If the track assignment fails, the upload had succeeded, the session is
/// deleted, and the error the run surfaces is the assignment error — not a
/// delete error, even if the delete also failed.
pub proof fn lemma_assign_failure_rolls_back(events: Seq<UploadEventV>, j: int, err: ErrorV)
    requires
        upload_valid_events(events),
        upload_terminal(upload_state_after(events)),
        0 <= j < events.len(),
        events[j] matches UploadEventV::AssignDone(r) && (r matches Err(e) && e == err),
    ensures
        some_upload_ok(events),
        exists|k: int|
            0 <= k < events.len() && (#[trigger] upload_actions_of(events)[k]) is DeleteEdit,
        upload_state_after(events) matches UploadStateV::Failed { error } && error == err,
{
    assert(upload_event_fits(upload_state_after(events.take(j)), events[j]));
    assert(upload_state_after(events.take(j)) is Uploaded);
    lemma_reached_upload_needs_ok(events, j);
    lemma_take_succ(events, j);
    assert(rolling_or_failed_with(upload_state_after(events.take(j + 1)), err));
    if j + 1 == events.len() {
        assert(events.take(j + 1) =~= events);
        assert(false);
    }
    assert((upload_actions_of(events)[j + 1]) is DeleteEdit);
    lemma_rollback_closed(events, j + 1, events.len() as int, err);
    assert(events.take(events.len() as int) =~= events);
}

/// Commit and delete are mutually exclusive terminal transitions: no run
/// issues both for one opened session.
pub proof fn lemma_commit_delete_exclusive(events: Seq<UploadEventV>)
    requires
        upload_valid_events(events),
    ensures
        !((exists|j: int|
            0 <= j < events.len() && (#[trigger] upload_actions_of(events)[j]) is CommitEdit)
            && (exists|k: int|
            0 <= k < events.len() && (#[trigger] upload_actions_of(events)[k]) is DeleteEdit)),
{
    if (exists|j: int|
        0 <= j < events.len() && (#[trigger] upload_actions_of(events)[j]) is CommitEdit) && (
    exists|k: int|
        0 <= k < events.len() && (#[trigger] upload_actions_of(events)[k]) is DeleteEdit) {
        let j = choose|j: int|
            0 <= j < events.len() && (#[trigger] upload_actions_of(events)[j]) is CommitEdit;
        let k = choose|k: int|
            0 <= k < events.len() && (#[trigger] upload_actions_of(events)[k]) is DeleteEdit;
        assert(upload_state_after(events.take(j)) is TrackAssigned);
        assert(upload_state_after(events.take(k)) is RollingBack);
        if j < k {
            // after the commit call the machine is terminal, so it can never
            // stand at the rollback state again
            assert(upload_event_fits(upload_state_after(events.take(j)), events[j]));
            lemma_take_succ(events, j);
            assert(upload_terminal(upload_state_after(events.take(j + 1))));
            lemma_terminal_closed(events, j + 1, k);
            assert(false);
        } else if k < j {
            // once rolling back, the machine only finishes failing; it can
            // never stand at the pre-commit state again
            let st = upload_state_after(events.take(k));
            let err = match st {
                UploadStateV::RollingBack { error, .. } => error,
                _ => arbitrary(),
            };
            assert(rolling_or_failed_with(st, err));
            lemma_rollback_closed(events, k, j, err);
            assert(false);
        } else {
            assert(false);
        }
    }
}

/// Every session that was opened is terminated: in a complete run whose
/// open-edit call succeeded, a commit or a delete call is issued — the run
/// never leaks an open session on the remote service.
pub proof fn lemma_opened_session_is_terminated(events: Seq<UploadEventV>)
    requires
        upload_valid_events(events),
        upload_terminal(upload_state_after(events)),
        exists|i: int| 0 <= i < events.len() && #[trigger] open_ok_at(events, i),
    ensures
        exists|k: int|
            0 <= k < events.len() && ((#[trigger] upload_actions_of(events)[k]) is CommitEdit
                || upload_actions_of(events)[k] is DeleteEdit),
{
    assert(events.take(events.len() as int) =~= events);
    lemma_terminated_helper(events, events.len() as int);
}

proof fn lemma_terminated_helper(events: Seq<UploadEventV>, k: int)
    requires
        upload_valid_events(events),
        0 <= k <= events.len(),
        upload_terminal(upload_state_after(events.take(k))),
        exists|i: int| 0 <= i < events.len() && #[trigger] open_ok_at(events, i),
    ensures
        exists|m: int|
            0 <= m < events.len() && ((#[trigger] upload_actions_of(events)[m]) is CommitEdit
                || upload_actions_of(events)[m] is DeleteEdit),
    decreases k,
{
    if k == 0 {
        assert(events.take(0) =~= Seq::<UploadEventV>::empty());
        assert(false);
    } else {
        lemma_take_succ(events, k - 1);
        let pre = upload_state_after(events.take(k - 1));
        if upload_terminal(pre) {
            lemma_terminated_helper(events, k - 1);
        } else if pre is TrackAssigned {
            assert((upload_actions_of(events)[k - 1]) is CommitEdit);
        } else if pre is RollingBack {
            assert((upload_actions_of(events)[k - 1]) is DeleteEdit);
        } else {
            // only an open failure jumps from Start straight to a terminal
            // state, and the successful open in this run rules that out
            assert(pre is Start);
            if k - 1 > 0 {
                lemma_start_only_at_zero(events, k - 1);
                assert(false);
            }
            let i = choose|i: int| 0 <= i < events.len() && #[trigger] open_ok_at(events, i);
            assert(upload_event_fits(upload_state_after(events.take(i)), events[i]));
            if i > 0 {
                lemma_start_only_at_zero(events, i);
            }
            assert(i == 0);
            assert(false);
        }
    }
}

} // verus!
