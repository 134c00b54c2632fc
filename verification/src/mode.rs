//! The two enumerations that the locking primitive is called with.
use vstd::prelude::*;

verus! {

/// Whether a lock is shared or exclusive, and with it whether the lock file
/// is opened for reading or for writing.
#[derive(Clone, Copy, Debug, PartialEq, Eq, Structural)]
pub enum AccessMode {
    /// Shared: any number of holders at a time.
    Read,
    /// Exclusive: at most one holder, and no reader beside it.
    Write,
}

/// Whether an acquisition waits for the lock or fails at once.
#[derive(Clone, Copy, Debug, PartialEq, Eq, Structural)]
pub enum LockKind {
    /// Suspend the caller until the lock is granted.
    Blocking,
    /// Return at once, with a contention failure if the lock is held.
    NonBlocking,
}

} // verus!
