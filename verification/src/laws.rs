//! What holds of every lock, whatever the filesystem and the locking
//! primitive answer.
use vstd::prelude::*;
use std::path::PathBuf;
use crate::error::{lock_result, Error, IoFailure, IoKind, LockFailure};
use crate::flock::LockState;
use crate::mode::{AccessMode, LockKind};
use crate::protocol::{Action, Event, LockRequest, Phase};

verus! {

/// A lock that was just made has opened nothing and awaits nothing.
pub proof fn lemma_fresh_is_closed_and_idle(path: PathBuf, mode: AccessMode)
    ensures
        LockState::fresh(path, mode).wf(),
        LockState::fresh(path, mode).path == path,
        LockState::fresh(path, mode).mode == mode,
        LockState::fresh(path, mode).handle is None,
        LockState::fresh(path, mode).phase == Phase::Idle,
{
}

/// Every transition leads from a well-formed state to a well-formed state.
pub proof fn lemma_transitions_keep_well_formed(s: LockState, kind: LockKind, event: Event)
    requires
        s.wf(),
    ensures
        s.begin_lock(kind).0.wf(),
        s.begin_unlock().0.wf(),
        s.resume(event).0.wf(),
{
}

/// No transition changes the path or the access mode.
pub proof fn lemma_path_and_mode_are_fixed(s: LockState, kind: LockKind, event: Event)
    ensures
        s.begin_lock(kind).0.path == s.path,
        s.begin_lock(kind).0.mode == s.mode,
        s.begin_unlock().0.path == s.path,
        s.begin_unlock().0.mode == s.mode,
        s.resume(event).0.path == s.path,
        s.resume(event).0.mode == s.mode,
{
}

/// Once the file is open its descriptor stays: no transition replaces or
/// drops it, and none asks for the file to be opened again.
pub proof fn lemma_handle_is_opened_once(s: LockState, kind: LockKind, event: Event)
    requires
        s.wf(),
        s.handle is Some,
    ensures
        s.begin_lock(kind).0.handle == s.handle,
        s.begin_unlock().0.handle == s.handle,
        s.resume(event).0.handle == s.handle,
        !(s.begin_lock(kind).1 is Open),
        !(s.begin_unlock().1 is Open),
        !(s.resume(event).1 matches Some(Action::Open(_))),
{
}

/// The descriptor changes only where an awaited open call has succeeded,
/// and then to the descriptor that the call returned.
pub proof fn lemma_handle_comes_from_open(s: LockState, kind: LockKind, event: Event)
    ensures
        s.begin_lock(kind).0.handle == s.handle,
        s.begin_unlock().0.handle == s.handle,
        s.resume(event).0.handle != s.handle ==> s.phase is Opening && event is Opened
            && event->Opened_0 is Ok && s.resume(event).0.handle == Some(event->Opened_0->Ok_0),
{
}

/// The open call creates the file if it is missing and opens it for reading
/// under `Read`, for writing under `Write`, and never for both.
pub proof fn lemma_open_follows_mode(s: LockState)
    ensures
        s.open_request().create,
        s.open_request().read <==> s.mode == AccessMode::Read,
        s.open_request().write <==> s.mode == AccessMode::Write,
        s.open_request().read != s.open_request().write,
{
}

/// Every request goes by the state it came from: an open call is the one
/// that the mode fixes and is made only while no file is open; an
/// acquisition carries the mode that the lock was made with and the
/// descriptor that the lock holds from then on; a release names the
/// descriptor that the lock holds.
pub proof fn lemma_requests_follow_state(s: LockState, kind: LockKind, event: Event)
    ensures
        s.begin_lock(kind).1 matches Action::Open(request) ==> request == s.open_request()
            && s.handle is None,
        s.begin_lock(kind).1 matches Action::Acquire(request) ==> request.mode == s.mode
            && request.kind == kind && s.begin_lock(kind).0.handle == Some(request.fd),
        s.resume(event).1 matches Some(Action::Acquire(request)) ==> request.mode == s.mode
            && s.phase == Phase::Opening(request.kind) && s.resume(event).0.handle == Some(
            request.fd,
        ),
        s.begin_unlock().1 matches Action::Release(fd) ==> s.handle == Some(fd),
        !(s.begin_lock(kind).1 is Release) && !(s.begin_lock(kind).1 is Done),
        !(s.begin_unlock().1 is Open) && !(s.begin_unlock().1 is Acquire),
        !(s.resume(event).1 matches Some(Action::Open(_))),
        !(s.resume(event).1 matches Some(Action::Release(_))),
{
}

/// A release on a lock that was just made fails with a "not found"
/// condition that no operating system call produced, asks for nothing to be
/// done, and leaves the lock as it was.
pub proof fn lemma_unlock_before_lock_is_not_found(path: PathBuf, mode: AccessMode)
    ensures
        ({
            let s = LockState::fresh(path, mode);
            &&& s.begin_unlock().0 == s
            &&& s.begin_unlock().1 == Action::Done(
                Err(Error::IoError(IoFailure { kind: IoKind::NotFound, code: None })),
            )
        }),
{
}

/// A release never opens the file: while there is no descriptor it fails,
/// whatever was attempted before, and with one it asks the locking
/// primitive to release through exactly that descriptor.
pub proof fn lemma_unlock_needs_open_file(s: LockState)
    ensures
        s.handle is None ==> s.begin_unlock().1 == Action::Done(
            Err(Error::IoError(IoFailure { kind: IoKind::NotFound, code: None })),
        ),
        s.handle is Some ==> s.begin_unlock().1 == Action::Release(s.handle.unwrap()),
{
}

/// An acquisition on an open file asks the locking primitive at once, with
/// the kind that was asked for and the mode that the lock was made with, and
/// the primitive's answer is the result.
pub proof fn lemma_acquisition_on_open_file(
    s: LockState,
    kind: LockKind,
    answer: Result<(), LockFailure>,
)
    requires
        s.handle is Some,
    ensures
        ({
            let (s1, a1) = s.begin_lock(kind);
            let (s2, a2) = s1.resume(Event::Acquired(answer));
            &&& a1 == Action::Acquire(LockRequest { fd: s.handle.unwrap(), kind, mode: s.mode })
            &&& a2 == Some(Action::Done(lock_result(answer)))
            &&& s2 == LockState { phase: Phase::Idle, ..s }
        }),
{
}

/// An acquisition on a file that is not open yet opens it as the mode says,
/// keeps the descriptor, and then asks the locking primitive through it,
/// with the kind that was asked for and the mode that the lock was made
/// with; the primitive's answer is the result. The descriptor is kept also
/// where the primitive refuses.
pub proof fn lemma_acquisition_opens_file(
    s: LockState,
    kind: LockKind,
    fd: i32,
    answer: Result<(), LockFailure>,
)
    requires
        s.handle is None,
    ensures
        ({
            let (s1, a1) = s.begin_lock(kind);
            let (s2, a2) = s1.resume(Event::Opened(Ok(fd)));
            let (s3, a3) = s2.resume(Event::Acquired(answer));
            &&& a1 == Action::Open(s.open_request())
            &&& a2 == Some(Action::Acquire(LockRequest { fd, kind, mode: s.mode }))
            &&& a3 == Some(Action::Done(lock_result(answer)))
            &&& s3 == LockState { handle: Some(fd), phase: Phase::Idle, ..s }
        }),
{
}

/// Where the open call fails, the acquisition fails with that failure, the
/// locking primitive is not asked, no descriptor is kept, and the next
/// acquisition tries the same open call again.
pub proof fn lemma_failed_open_is_retried(
    s: LockState,
    kind: LockKind,
    failure: IoFailure,
    next_kind: LockKind,
)
    requires
        s.handle is None,
    ensures
        ({
            let (s1, a1) = s.begin_lock(kind);
            let (s2, a2) = s1.resume(Event::Opened(Err(failure)));
            &&& a1 == Action::Open(s.open_request())
            &&& a2 == Some(Action::Done(Err(Error::IoError(failure))))
            &&& s2 == LockState { phase: Phase::Idle, ..s }
            &&& s2.begin_lock(next_kind).1 == a1
        }),
{
}

/// A non-blocking acquisition never hands the locking primitive a blocking
/// request, and where the primitive reports contention the result is that
/// contention, as a lock error.
pub proof fn lemma_try_lock_does_not_block(s: LockState, opened: Result<i32, IoFailure>)
    requires
        s.wf(),
    ensures
        ({
            let (s1, a1) = s.begin_lock(LockKind::NonBlocking);
            let (s2, a2) = s1.resume(Event::Opened(opened));
            let contended = s2.resume(Event::Acquired(Err(LockFailure::WouldBlock)));
            &&& a1 matches Action::Acquire(request) ==> request.kind == LockKind::NonBlocking
            &&& a2 matches Some(Action::Acquire(request)) ==> request.kind == LockKind::NonBlocking
            &&& s2.phase is Acquiring ==> contended.1 == Some(
                Action::Done(Err(Error::LockError(LockFailure::WouldBlock))),
            )
        }),
{
}

/// An operation that ends with the locking primitive succeeds exactly where
/// the primitive does, and fails with the primitive's own failure.
pub proof fn lemma_result_is_the_primitives(outcome: Result<(), LockFailure>)
    ensures
        lock_result(outcome) is Ok <==> outcome is Ok,
        outcome matches Err(failure) ==> lock_result(outcome) == Err::<(), Error>(
            Error::LockError(failure),
        ),
{
}

/// Acquire, release, acquire again: where the open call and the locking
/// primitive succeed, each of the three operations succeeds; the file is
/// opened for the first and not again, and all three go through the one
/// descriptor.
pub proof fn lemma_lock_unlock_lock(
    path: PathBuf,
    mode: AccessMode,
    first: LockKind,
    second: LockKind,
    fd: i32,
)
    ensures
        ({
            let s0 = LockState::fresh(path, mode);
            let (s1, a1) = s0.begin_lock(first);
            let (s2, a2) = s1.resume(Event::Opened(Ok(fd)));
            let (s3, a3) = s2.resume(Event::Acquired(Ok(())));
            let (s4, a4) = s3.begin_unlock();
            let (s5, a5) = s4.resume(Event::Released(Ok(())));
            let (s6, a6) = s5.begin_lock(second);
            let (s7, a7) = s6.resume(Event::Acquired(Ok(())));
            &&& a1 == Action::Open(s0.open_request())
            &&& a2 == Some(Action::Acquire(LockRequest { fd, kind: first, mode }))
            &&& a3 == Some(Action::Done(Ok(())))
            &&& a4 == Action::Release(fd)
            &&& a5 == Some(Action::Done(Ok(())))
            &&& a6 == Action::Acquire(LockRequest { fd, kind: second, mode })
            &&& a7 == Some(Action::Done(Ok(())))
            &&& s7 == LockState { handle: Some(fd), ..s0 }
        }),
{
}

/// An event that is not awaited changes nothing and asks for nothing; an
/// awaited one always asks for something.
pub proof fn lemma_only_awaited_events_count(s: LockState, event: Event)
    ensures
        s.resume(event).1 is Some <==> s.awaits(event),
        !s.awaits(event) ==> s.resume(event).0 == s,
        s.phase is Idle ==> !s.awaits(event),
{
}

} // verus!
