//! The kinds of failure that the components report, and the failure of a
//! lock.

use vstd::prelude::*;
use crate::text::concat;

verus! {

/// The four kinds of failure.
#[derive(Clone, Copy, PartialEq, Eq, Structural, Debug)]
pub enum ErrorKind {
    /// The worker could not be reached: no process, a broken or closed pipe,
    /// no handshake.
    Transport,
    /// The peer answered, but not as the protocol says.
    Protocol,
    /// A socket or a directory could not be had.
    Resource,
    /// Shared state was found unusable.
    Lock,
}

/// Shared state could not be locked; holds what the lock reported.
#[derive(Debug)]
pub struct LockError {
    pub reason: String,
}

impl LockError {
    /// The failure of a lock that reported `reason`.
    pub fn new(reason: &str) -> (error: LockError)
        ensures
            error.reason@ == reason@,
    {
        LockError { reason: reason.to_owned() }
    }

    /// The text of the failure.
    pub fn message(&self) -> (text: String)
        ensures
            text@ == "Lock error: "@ + self.reason@,
    {
        concat("Lock error: ", self.reason.as_str())
    }

    /// The kind of the failure.
    pub fn kind(&self) -> (kind: ErrorKind)
        ensures
            kind == ErrorKind::Lock,
    {
        ErrorKind::Lock
    }
}

} // verus!
