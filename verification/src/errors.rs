//! The error taxonomy of the orchestration core. A ticket failure is
//! fatal for the whole batch; everything else is terminal for one
//! file only and leaves its siblings alone.

use vstd::prelude::*;

verus! {

/// The whole batch aborted: the single ticket call failed, so no
/// transfer was attempted and no result is returned.
#[derive(Clone, Debug)]
pub struct BatchTicketError {
    /// Diagnostic text, taken from the service's response.
    pub message: String,
}

/// Why one file's task produced no result. Siblings are unaffected.
#[derive(Clone, Debug)]
pub enum TaskFailure {
    /// The transfer was rejected before or during the send; carries
    /// diagnostic text.
    Transfer(String),
    /// The transfer went through but the poll budget ran out before
    /// the service confirmed completion. Not an error: the file is
    /// merely not yet confirmed.
    Incomplete,
    /// The cancellation signal fired while the work was in flight.
    Cancelled,
}

} // verus!
