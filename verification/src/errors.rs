//! Error taxonomy for the publishing client.
//!
//! Operational failures fall into four classes: transport failures
//! (connection or timeout), decode failures (a response body that does not
//! match the expected shape), remote API failures (an error message embedded
//! in a non-success response), and local I/O failures (reading the bundle
//! file).  Each carries a human-readable message.

use vstd::prelude::*;
use vstd::string::StringExecFns;

verus! {

/// Spec-level mirror of [`GplayError`]: the same variants over `Seq<char>`.
pub enum ErrorV {
    Transport(Seq<char>),
    Decode(Seq<char>),
    RemoteApi(Seq<char>),
    LocalIo(Seq<char>),
}

/// One operational error, carrying a message for the user.
#[derive(Debug, Clone, PartialEq, Eq)]
pub enum GplayError {
    /// The request never produced a response: connection failure or timeout.
    Transport(String),
    /// The response body did not match the expected success shape.
    Decode(String),
    /// A non-success response carried (or stood for) a server-side message.
    RemoteApi(String),
    /// The local bundle file could not be read.
    LocalIo(String),
}

impl View for GplayError {
    type V = ErrorV;

    open spec fn view(&self) -> ErrorV {
        match self {
            GplayError::Transport(m) => ErrorV::Transport(m@),
            GplayError::Decode(m) => ErrorV::Decode(m@),
            GplayError::RemoteApi(m) => ErrorV::RemoteApi(m@),
            GplayError::LocalIo(m) => ErrorV::LocalIo(m@),
        }
    }
}

/// The message carried by an error, whatever its class.
pub open spec fn message_of(e: ErrorV) -> Seq<char> {
    match e {
        ErrorV::Transport(m) => m,
        ErrorV::Decode(m) => m,
        ErrorV::RemoteApi(m) => m,
        ErrorV::LocalIo(m) => m,
    }
}

/// The warning line for a compensating delete that failed: it names the
/// delete failure without replacing the error that triggered the rollback.
pub open spec fn delete_warning_spec(e: ErrorV) -> Seq<char> {
    "failed to discard edit session: "@ + message_of(e)
}

/// Renders the warning for a failed compensating delete.
pub fn delete_warning(e: &GplayError) -> (s: String)
    ensures
        s@ == delete_warning_spec(e@),
{
    let mut s = "failed to discard edit session: ".to_owned();
    s.append(e.message().as_str());
    proof {
        assert(s@ =~= delete_warning_spec(e@));
    }
    s
}

impl GplayError {
    /// The user-visible message of this error.
    pub fn message(&self) -> (r: &String)
        ensures
            r@ == message_of(self@),
    {
        match self {
            GplayError::Transport(m) => m,
            GplayError::Decode(m) => m,
            GplayError::RemoteApi(m) => m,
            GplayError::LocalIo(m) => m,
        }
    }
}

} // verus!
