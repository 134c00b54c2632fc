//! What a lock asks the surrounding program to do, and what it is told back.
use vstd::prelude::*;
use crate::error::{Error, IoFailure, LockFailure};
use crate::mode::{AccessMode, LockKind};

verus! {

/// How the lock file is to be opened.
#[derive(Clone, Copy, Debug, PartialEq, Eq, Structural)]
pub struct OpenRequest {
    /// Create the file if it is missing.
    pub create: bool,
    /// Open it for reading.
    pub read: bool,
    /// Open it for writing.
    pub write: bool,
}

/// One call of the locking primitive's acquisition.
#[derive(Clone, Copy, Debug, PartialEq, Eq, Structural)]
pub struct LockRequest {
    /// The descriptor of the opened lock file.
    pub fd: i32,
    /// Whether to wait for the lock.
    pub kind: LockKind,
    /// Shared or exclusive.
    pub mode: AccessMode,
}

/// What has to happen next.
#[derive(Clone, Copy, Debug, PartialEq, Eq)]
pub enum Action {
    /// Open the file at the lock's path and report `Event::Opened`.
    Open(OpenRequest),
    /// Ask the locking primitive for the lock and report `Event::Acquired`.
    Acquire(LockRequest),
    /// Ask the locking primitive to release the lock held through this
    /// descriptor and report `Event::Released`.
    Release(i32),
    /// The operation is over, with this result.
    Done(Result<(), Error>),
}

/// The outcome of an action.
#[derive(Clone, Copy, Debug, PartialEq, Eq)]
pub enum Event {
    /// The open call returned: a descriptor, or its failure.
    Opened(Result<i32, IoFailure>),
    /// The locking primitive answered an acquisition.
    Acquired(Result<(), LockFailure>),
    /// The locking primitive answered a release.
    Released(Result<(), LockFailure>),
}

/// Which outcome a lock is waiting for.
#[derive(Clone, Copy, Debug, PartialEq, Eq, Structural)]
pub enum Phase {
    /// None: no operation is under way.
    Idle,
    /// That of the open call, made for an acquisition of this kind.
    Opening(LockKind),
    /// That of an acquisition.
    Acquiring,
    /// That of a release.
    Releasing,
}

} // verus!
