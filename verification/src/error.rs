//! Failures of the locking primitive and of the filesystem, and the error
//! type that wraps both.
use vstd::prelude::*;
use vstd::std_specs::convert::FromSpecImpl;

verus! {

/// Why the locking primitive refused a request.
#[derive(Clone, Copy, Debug, PartialEq, Eq, Structural)]
pub enum LockFailure {
    /// A non-blocking request met a lock held by someone else.
    WouldBlock,
    /// The descriptor is not an open file.
    InvalidDescriptor,
    /// A signal interrupted a blocking request.
    Interrupted,
    /// Any other failure, with the operating system's error code.
    Os(i32),
}

/// The condition that an I/O failure reports.
#[derive(Clone, Copy, Debug, PartialEq, Eq, Structural)]
pub enum IoKind {
    /// There is no such file, or nothing has been opened yet.
    NotFound,
    /// The file may not be opened in the way that was asked for.
    PermissionDenied,
    /// The path or the way of opening is not valid.
    InvalidInput,
    /// A signal interrupted the call.
    Interrupted,
    /// Any other condition.
    Other,
}

/// A failure to open or otherwise touch the lock file.
#[derive(Clone, Copy, Debug, PartialEq, Eq, Structural)]
pub struct IoFailure {
    /// The condition reported.
    pub kind: IoKind,
    /// The operating system's error code; absent where the failure did not
    /// come from the operating system.
    pub code: Option<i32>,
}

/// What a lock operation can fail with.
#[derive(Clone, Copy, Debug, PartialEq, Eq)]
pub enum Error {
    /// The locking primitive failed: contention under a non-blocking
    /// request, an invalid descriptor, an interrupted call.
    LockError(LockFailure),
    /// The lock file could not be opened, or a release was requested before
    /// any acquisition.
    IoError(IoFailure),
}

/// The failure of a release that is requested before the lock file was ever
/// opened: a "not found" condition that no operating system call produced.
pub open spec fn unlock_before_lock() -> IoFailure {
    IoFailure { kind: IoKind::NotFound, code: None }
}

/// The result of an operation whose last step was a call of the locking
/// primitive with the given outcome.
pub open spec fn lock_result(outcome: Result<(), LockFailure>) -> Result<(), Error> {
    match outcome {
        Ok(()) => Ok(()),
        Err(failure) => Err(Error::LockError(failure)),
    }
}

impl IoFailure {
    /// The failure reported by a release that comes before any acquisition.
    pub fn unlock_before_lock() -> (failure: IoFailure)
        ensures
            failure == unlock_before_lock(),
    {
        IoFailure { kind: IoKind::NotFound, code: None }
    }
}

impl From<IoFailure> for Error {
    fn from(err: IoFailure) -> (error: Error) {
        Error::IoError(err)
    }
}

impl FromSpecImpl<IoFailure> for Error {
    open spec fn obeys_from_spec() -> bool {
        true
    }

    open spec fn from_spec(err: IoFailure) -> Error {
        Error::IoError(err)
    }
}

impl From<LockFailure> for Error {
    fn from(err: LockFailure) -> (error: Error) {
        Error::LockError(err)
    }
}

impl FromSpecImpl<LockFailure> for Error {
    open spec fn obeys_from_spec() -> bool {
        true
    }

    open spec fn from_spec(err: LockFailure) -> Error {
        Error::LockError(err)
    }
}

} // verus!
