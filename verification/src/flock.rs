//! The lock itself: its state, and the transitions between its states.
use vstd::prelude::*;
use std::path::PathBuf;
use crate::error::{lock_result, unlock_before_lock, Error, IoFailure, LockFailure};
use crate::mode::{AccessMode, LockKind};
use crate::protocol::{Action, Event, LockRequest, OpenRequest, Phase};

verus! {

/// `std::path::PathBuf`, carried through as an opaque value: nothing is
/// claimed of what a path holds.
#[verifier::external_type_specification]
#[verifier::external_body]
pub struct ExPathBuf(std::path::PathBuf);

/// The mathematical state of a [`FileLock`].
pub struct LockState {
    /// The location of the lock file.
    pub path: PathBuf,
    /// The access mode that every open call and every acquisition uses.
    pub mode: AccessMode,
    /// The descriptor of the lock file, once it has been opened.
    pub handle: Option<i32>,
    /// The outcome that is awaited.
    pub phase: Phase,
}

impl LockState {
    /// The state of a lock that was just made: nothing opened, nothing
    /// under way.
    pub open spec fn fresh(path: PathBuf, mode: AccessMode) -> LockState {
        LockState { path, mode, handle: None, phase: Phase::Idle }
    }

    /// An open call is awaited only while there is no descriptor, and a call
    /// of the locking primitive only while there is one.
    pub open spec fn wf(self) -> bool {
        match self.phase {
            Phase::Idle => true,
            Phase::Opening(_) => self.handle is None,
            Phase::Acquiring => self.handle is Some,
            Phase::Releasing => self.handle is Some,
        }
    }

    /// The open call for this lock: the file is created if it is missing,
    /// and opened for reading or for writing as the mode says, never both.
    pub open spec fn open_request(self) -> OpenRequest {
        OpenRequest {
            create: true,
            read: self.mode == AccessMode::Read,
            write: self.mode == AccessMode::Write,
        }
    }

    /// The start of an acquisition: with a descriptor at hand the locking
    /// primitive is asked at once, else the file is opened first.
    pub open spec fn begin_lock(self, kind: LockKind) -> (LockState, Action) {
        match self.handle {
            Some(fd) => (
                LockState { phase: Phase::Acquiring, ..self },
                Action::Acquire(LockRequest { fd, kind, mode: self.mode }),
            ),
            None => (
                LockState { phase: Phase::Opening(kind), ..self },
                Action::Open(self.open_request()),
            ),
        }
    }

    /// The start of a release: with a descriptor at hand the locking
    /// primitive is asked, else the release fails as one that came before
    /// any acquisition.
    pub open spec fn begin_unlock(self) -> (LockState, Action) {
        match self.handle {
            Some(fd) => (LockState { phase: Phase::Releasing, ..self }, Action::Release(fd)),
            None => (
                LockState { phase: Phase::Idle, ..self },
                Action::Done(Err(Error::IoError(unlock_before_lock()))),
            ),
        }
    }

    /// Whether the event is the outcome that this state awaits.
    pub open spec fn awaits(self, event: Event) -> bool {
        match (self.phase, event) {
            (Phase::Opening(_), Event::Opened(_)) => true,
            (Phase::Acquiring, Event::Acquired(_)) => true,
            (Phase::Releasing, Event::Released(_)) => true,
            _ => false,
        }
    }

    /// The state after an event, and what to do next.
    ///
    /// A descriptor that the open call returned is kept, and the locking
    /// primitive is asked with the kind that the acquisition began with. A
    /// failed open ends the operation with that failure and leaves the
    /// descriptor absent. The answer of the locking primitive ends the
    /// operation and is its result. An event that is not awaited changes
    /// nothing and asks for nothing.
    pub open spec fn resume(self, event: Event) -> (LockState, Option<Action>) {
        match (self.phase, event) {
            (Phase::Opening(kind), Event::Opened(Ok(fd))) => (
                LockState { handle: Some(fd), phase: Phase::Acquiring, ..self },
                Some(Action::Acquire(LockRequest { fd, kind, mode: self.mode })),
            ),
            (Phase::Opening(_), Event::Opened(Err(failure))) => (
                LockState { phase: Phase::Idle, ..self },
                Some(Action::Done(Err(Error::IoError(failure)))),
            ),
            (Phase::Acquiring, Event::Acquired(outcome)) => (
                LockState { phase: Phase::Idle, ..self },
                Some(Action::Done(lock_result(outcome))),
            ),
            (Phase::Releasing, Event::Released(outcome)) => (
                LockState { phase: Phase::Idle, ..self },
                Some(Action::Done(lock_result(outcome))),
            ),
            _ => (self, None),
        }
    }
}

/// A lock file that is opened on demand.
///
/// Readers share the lock, a writer holds it alone; which of the two this
/// lock asks for is fixed when it is made.
///
/// `lock`, `try_lock` and `unlock` each start an operation and return its
/// first [`Action`]. The caller performs the action, hands its outcome to
/// [`FileLock::step`], and goes on with the action that comes back, until
/// that is `Action::Done` with the operation's result. To release the lock
/// at the end of a scope, run `unlock` in this way and drop the result.
#[derive(Debug)]
pub struct FileLock {
    path: PathBuf,
    handle: Option<i32>,
    mode: AccessMode,
    phase: Phase,
}

impl View for FileLock {
    type V = LockState;

    closed spec fn view(&self) -> LockState {
        LockState { path: self.path, mode: self.mode, handle: self.handle, phase: self.phase }
    }
}

impl FileLock {
    #[verifier::type_invariant]
    spec fn well_formed(self) -> bool {
        self@.wf()
    }

    /// Makes a lock for the file at `path`. Nothing is opened yet.
    pub fn new(path: PathBuf, mode: AccessMode) -> (lock: FileLock)
        ensures
            lock@ == LockState::fresh(path, mode),
    {
        FileLock { path, handle: None, mode, phase: Phase::Idle }
    }

    /// The open call that this lock asks for when its file is not open.
    pub fn open_request(&self) -> (request: OpenRequest)
        ensures
            request == self@.open_request(),
            request.create,
            request.read != request.write,
    {
        match self.mode {
            AccessMode::Read => OpenRequest { create: true, read: true, write: false },
            AccessMode::Write => OpenRequest { create: true, read: false, write: true },
        }
    }

    /// Starts an acquisition of the given kind.
    pub fn any_lock(&mut self, kind: LockKind) -> (action: Action)
        ensures
            (final(self)@, action) == old(self)@.begin_lock(kind),
            final(self)@.wf(),
    {
        match self.handle {
            Some(fd) => {
                self.phase = Phase::Acquiring;
                Action::Acquire(LockRequest { fd, kind, mode: self.mode })
            },
            None => {
                self.phase = Phase::Opening(kind);
                Action::Open(self.open_request())
            },
        }
    }

    /// Starts an acquisition that waits until the lock is granted.
    pub fn lock(&mut self) -> (action: Action)
        ensures
            (final(self)@, action) == old(self)@.begin_lock(LockKind::Blocking),
            final(self)@.wf(),
    {
        self.any_lock(LockKind::Blocking)
    }

    /// Starts an acquisition that fails at once where the lock is held.
    pub fn try_lock(&mut self) -> (action: Action)
        ensures
            (final(self)@, action) == old(self)@.begin_lock(LockKind::NonBlocking),
            final(self)@.wf(),
    {
        self.any_lock(LockKind::NonBlocking)
    }

    /// Starts a release. Before the first acquisition there is nothing to
    /// release, and the operation is over at once, with a failure.
    pub fn unlock(&mut self) -> (action: Action)
        ensures
            (final(self)@, action) == old(self)@.begin_unlock(),
            final(self)@.wf(),
    {
        match self.handle {
            Some(fd) => {
                self.phase = Phase::Releasing;
                Action::Release(fd)
            },
            None => {
                self.phase = Phase::Idle;
                Action::Done(Err(Error::from(IoFailure::unlock_before_lock())))
            },
        }
    }

    /// Takes the outcome of the last action. An event that is not awaited
    /// changes nothing and is answered with `None`.
    pub fn step(&mut self, event: Event) -> (next: Option<Action>)
        ensures
            (final(self)@, next) == old(self)@.resume(event),
            next is Some <==> old(self)@.awaits(event),
            final(self)@.wf(),
    {
        proof {
            use_type_invariant(&*self);
        }
        match (self.phase, event) {
            (Phase::Opening(kind), Event::Opened(Ok(fd))) => {
                self.phase = Phase::Idle;
                self.handle = Some(fd);
                self.phase = Phase::Acquiring;
                Some(Action::Acquire(LockRequest { fd, kind, mode: self.mode }))
            },
            (Phase::Opening(_), Event::Opened(Err(failure))) => {
                self.phase = Phase::Idle;
                Some(Action::Done(Err(Error::from(failure))))
            },
            (Phase::Acquiring, Event::Acquired(outcome)) => {
                self.phase = Phase::Idle;
                Some(Action::Done(Self::finish(outcome)))
            },
            (Phase::Releasing, Event::Released(outcome)) => {
                self.phase = Phase::Idle;
                Some(Action::Done(Self::finish(outcome)))
            },
            _ => None,
        }
    }

    /// The result of an operation from the answer of the locking primitive.
    fn finish(outcome: Result<(), LockFailure>) -> (result: Result<(), Error>)
        ensures
            result == lock_result(outcome),
    {
        match outcome {
            Ok(()) => Ok(()),
            Err(failure) => Err(Error::from(failure)),
        }
    }

    /// The location of the lock file.
    pub fn path(&self) -> (path: &PathBuf)
        ensures
            *path == self@.path,
    {
        &self.path
    }

    /// The access mode that the lock was made with.
    pub fn mode(&self) -> (mode: AccessMode)
        ensures
            mode == self@.mode,
    {
        self.mode
    }

    /// The descriptor of the lock file, once it has been opened.
    pub fn handle(&self) -> (handle: Option<i32>)
        ensures
            handle == self@.handle,
    {
        self.handle
    }

    /// The outcome that the lock is waiting for. It always fits the
    /// descriptor: an open call is awaited only while there is none.
    pub fn phase(&self) -> (phase: Phase)
        ensures
            phase == self@.phase,
            self@.wf(),
    {
        proof {
            use_type_invariant(self);
        }
        self.phase
    }
}

} // verus!
