//! Verified core of a command-line client for a remote application-publishing
//! service.
//!
//! Every mutating interaction with the remote service happens inside a
//! server-side "edit" session that is opened and then either committed or
//! deleted.  The library holds the decision logic of that workflow: response
//! interpretation, request-URL and payload construction, and the transaction
//! state machines for listing and uploading.  An unverified shell performs the
//! actual HTTP calls and feeds their outcomes back as events.

use vstd::prelude::*;

pub mod actions;
pub mod api_structs;
pub mod errors;
pub mod listing;
pub mod response;
pub mod text;
pub mod traces;
pub mod transport;
pub mod urls;
pub mod workflow;

verus! {

/// Severity-leveled text sink injected into the tool; implementations live
/// outside the library (terminal, test collector).
pub trait GplayLog {
    fn output(&self, msg: &str);

    fn warning(&self, msg: &str);

    fn error(&self, msg: &str);
}

/// Driver-side handle: owns the logging collaborator for one invocation.
pub struct GplayTool<'a, L: GplayLog> {
    pub log: &'a L,
}

impl<'a, L: GplayLog> GplayTool<'a, L> {
    pub fn new(log: &'a L) -> GplayTool<'a, L> {
        GplayTool { log }
    }

    /// Logs the single informational line announcing the scope about to be
    /// requested from the credential provider.
    pub fn announce_token_request(&self) {
        self.log.output("Requesting OAuth token with Android Publisher scope");
    }

    /// Emits rendered output lines through the sink, in order.
    pub fn emit_lines(&self, lines: &Vec<String>) {
        let mut k: usize = 0;
        while k < lines.len()
            invariant
                k <= lines@.len(),
            decreases lines@.len() - k,
        {
            self.log.output(lines[k].as_str());
            k = k + 1;
        }
    }
}

} // verus!
