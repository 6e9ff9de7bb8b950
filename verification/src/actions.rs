//! The remote calls a workflow can ask the unverified shell to perform, and a
//! small model of the durable catalog they act on.
//!
//! Uploads and track assignments are staged inside the open edit session;
//! only a commit makes them durable, and a delete discards them.  The catalog
//! model captures just that: an interpretation of the remote state in which
//! every call except commit leaves the durable catalog unchanged.

use vstd::prelude::*;

verus! {

/// View of a [`RemoteAction`].
pub enum RemoteActionV {
    OpenEdit,
    ReadFile,
    FetchBundles { edit_id: Seq<char> },
    FetchTracks { edit_id: Seq<char> },
    UploadBundle { edit_id: Seq<char> },
    AssignTrack { edit_id: Seq<char>, version_code: int },
    CommitEdit { edit_id: Seq<char> },
    DeleteEdit { edit_id: Seq<char> },
    Finish,
}

/// One instruction to the unverified shell: which remote call (or local file
/// read) to perform next, or that the workflow is over.
#[derive(Debug, Clone, PartialEq, Eq)]
pub enum RemoteAction {
    OpenEdit,
    ReadFile,
    FetchBundles { edit_id: String },
    FetchTracks { edit_id: String },
    UploadBundle { edit_id: String },
    AssignTrack { edit_id: String, version_code: i32 },
    CommitEdit { edit_id: String },
    DeleteEdit { edit_id: String },
    Finish,
}

impl View for RemoteAction {
    type V = RemoteActionV;

    open spec fn view(&self) -> RemoteActionV {
        match self {
            RemoteAction::OpenEdit => RemoteActionV::OpenEdit,
            RemoteAction::ReadFile => RemoteActionV::ReadFile,
            RemoteAction::FetchBundles { edit_id } => RemoteActionV::FetchBundles {
                edit_id: edit_id@,
            },
            RemoteAction::FetchTracks { edit_id } => RemoteActionV::FetchTracks {
                edit_id: edit_id@,
            },
            RemoteAction::UploadBundle { edit_id } => RemoteActionV::UploadBundle {
                edit_id: edit_id@,
            },
            RemoteAction::AssignTrack { edit_id, version_code } => RemoteActionV::AssignTrack {
                edit_id: edit_id@,
                version_code: *version_code as int,
            },
            RemoteAction::CommitEdit { edit_id } => RemoteActionV::CommitEdit {
                edit_id: edit_id@,
            },
            RemoteAction::DeleteEdit { edit_id } => RemoteActionV::DeleteEdit {
                edit_id: edit_id@,
            },
            RemoteAction::Finish => RemoteActionV::Finish,
        }
    }
}

/// Whether a call can change the durable catalog: only a commit applies the
/// session's staged mutations; everything else either reads, stages inside
/// the session, or discards the session.
pub open spec fn is_catalog_mutating(a: RemoteActionV) -> bool {
    a is CommitEdit
}

/// The durable catalog after a sequence of calls, under any interpretation
/// `apply` of what one call does to a catalog of type `C`.
pub open spec fn catalog_after<C>(
    c: C,
    apply: spec_fn(C, RemoteActionV) -> C,
    actions: Seq<RemoteActionV>,
) -> C
    decreases actions.len(),
{
    if actions.len() == 0 {
        c
    } else {
        apply(catalog_after(c, apply, actions.drop_last()), actions.last())
    }
}

/// A trace without a commit leaves the durable catalog unchanged, under every
/// interpretation in which non-mutating calls leave it unchanged.
pub proof fn lemma_non_mutating_trace_preserves_catalog<C>(
    c: C,
    apply: spec_fn(C, RemoteActionV) -> C,
    actions: Seq<RemoteActionV>,
)
    requires
        forall|x: C, a: RemoteActionV| !is_catalog_mutating(a) ==> #[trigger] apply(x, a) == x,
        forall|i: int| 0 <= i < actions.len() ==> !is_catalog_mutating(#[trigger] actions[i]),
    ensures
        catalog_after(c, apply, actions) == c,
    decreases actions.len(),
{
    if actions.len() > 0 {
        assert(forall|i: int|
            0 <= i < actions.drop_last().len() ==> !is_catalog_mutating(
                #[trigger] actions.drop_last()[i],
            ));
        lemma_non_mutating_trace_preserves_catalog(c, apply, actions.drop_last());
        assert(!is_catalog_mutating(actions.last()));
    }
}

} // verus!
