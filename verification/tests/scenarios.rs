use std::path::PathBuf;

use file_lock::{
    AccessMode, Action, Error, Event, FileLock, IoFailure, IoKind, LockFailure, LockKind,
    LockRequest, OpenRequest,
};

/// A stand-in for the filesystem and the locking primitive, held in memory:
/// shared locks go together, an exclusive lock stands alone, and a lock
/// belongs to the descriptor it was taken through.
struct Machine {
    files: Vec<PathBuf>,
    /// Descriptor `i` is open on `descriptors[i].0` and holds `descriptors[i].1`.
    descriptors: Vec<(PathBuf, Option<AccessMode>)>,
    opens: usize,
}

impl Machine {
    fn new() -> Machine {
        Machine { files: Vec::new(), descriptors: Vec::new(), opens: 0 }
    }

    fn has_file(&self, path: &PathBuf) -> bool {
        self.files.contains(path)
    }

    fn open(&mut self, path: &PathBuf, request: OpenRequest) -> Result<i32, IoFailure> {
        self.opens += 1;
        if path.as_os_str().is_empty() {
            return Err(IoFailure { kind: IoKind::NotFound, code: Some(2) });
        }
        assert!(request.read != request.write);
        if !self.has_file(path) {
            if !request.create {
                return Err(IoFailure { kind: IoKind::NotFound, code: Some(2) });
            }
            self.files.push(path.clone());
        }
        self.descriptors.push((path.clone(), None));
        Ok(self.descriptors.len() as i32 - 1)
    }

    fn acquire(&mut self, request: LockRequest) -> Result<(), LockFailure> {
        let own = request.fd as usize;
        if request.fd < 0 || own >= self.descriptors.len() {
            return Err(LockFailure::InvalidDescriptor);
        }
        let path = self.descriptors[own].0.clone();
        let free = self.descriptors.iter().enumerate().all(|(fd, (other, held))| {
            fd == own || *other != path || match held {
                None => true,
                Some(AccessMode::Read) => request.mode == AccessMode::Read,
                Some(AccessMode::Write) => false,
            }
        });
        if free {
            self.descriptors[own].1 = Some(request.mode);
            return Ok(());
        }
        match request.kind {
            LockKind::NonBlocking => Err(LockFailure::WouldBlock),
            LockKind::Blocking => panic!("a blocking request would wait forever here"),
        }
    }

    fn release(&mut self, fd: i32) -> Result<(), LockFailure> {
        if fd < 0 || fd as usize >= self.descriptors.len() {
            return Err(LockFailure::InvalidDescriptor);
        }
        self.descriptors[fd as usize].1 = None;
        Ok(())
    }

    /// Carries out what the lock asks for until its operation is over.
    fn run(&mut self, lock: &mut FileLock, first: Action) -> Result<(), Error> {
        let mut action = first;
        loop {
            let event = match action {
                Action::Open(request) => Event::Opened(self.open(lock.path(), request)),
                Action::Acquire(request) => Event::Acquired(self.acquire(request)),
                Action::Release(fd) => Event::Released(self.release(fd)),
                Action::Done(result) => return result,
            };
            action = lock.step(event).unwrap();
        }
    }

    fn lock(&mut self, lock: &mut FileLock) -> Result<(), Error> {
        let first = lock.lock();
        self.run(lock, first)
    }

    fn try_lock(&mut self, lock: &mut FileLock) -> Result<(), Error> {
        let first = lock.try_lock();
        self.run(lock, first)
    }

    fn unlock(&mut self, lock: &mut FileLock) -> Result<(), Error> {
        let first = lock.unlock();
        self.run(lock, first)
    }

    /// The end of a lock's life: a release whose result is thrown away.
    fn drop(&mut self, mut lock: FileLock) {
        let _ = self.unlock(&mut lock);
    }
}

fn on(path: &str, mode: AccessMode) -> FileLock {
    FileLock::new(PathBuf::from(path), mode)
}

const CONTENDED: Error = Error::LockError(LockFailure::WouldBlock);
const NOT_FOUND: Error = Error::IoError(IoFailure { kind: IoKind::NotFound, code: None });

#[test]
fn writer_succeeds_only_while_nobody_holds_the_lock() {
    let mut os = Machine::new();
    let mut writer = on("/run/a.lock", AccessMode::Write);
    assert_eq!(os.try_lock(&mut writer), Ok(()));
    assert_eq!(os.unlock(&mut writer), Ok(()));

    let mut reader = on("/run/a.lock", AccessMode::Read);
    assert_eq!(os.try_lock(&mut reader), Ok(()));
    assert_eq!(os.try_lock(&mut writer), Err(CONTENDED));
    assert_eq!(os.unlock(&mut reader), Ok(()));
    assert_eq!(os.try_lock(&mut writer), Ok(()));

    let mut second_writer = on("/run/a.lock", AccessMode::Write);
    assert_eq!(os.try_lock(&mut second_writer), Err(CONTENDED));
    // Another path is another lock.
    let mut elsewhere = on("/run/b.lock", AccessMode::Write);
    assert_eq!(os.try_lock(&mut elsewhere), Ok(()));
}

#[test]
fn readers_share_the_lock() {
    let mut os = Machine::new();
    let mut maker = on("/run/shared.lock", AccessMode::Write);
    assert_eq!(os.try_lock(&mut maker), Ok(()));
    os.drop(maker);
    assert!(os.has_file(&PathBuf::from("/run/shared.lock")));

    let mut a = on("/run/shared.lock", AccessMode::Read);
    let mut b = on("/run/shared.lock", AccessMode::Read);
    assert_eq!(os.try_lock(&mut a), Ok(()));
    assert_eq!(os.try_lock(&mut b), Ok(()));
    assert_eq!(os.lock(&mut a), Ok(()));
}

#[test]
fn held_write_lock_keeps_everyone_out_until_unlocked() {
    let mut os = Machine::new();
    let mut holder = on("/run/w.lock", AccessMode::Write);
    assert_eq!(os.lock(&mut holder), Ok(()));

    let mut reader = on("/run/w.lock", AccessMode::Read);
    let mut writer = on("/run/w.lock", AccessMode::Write);
    assert_eq!(os.try_lock(&mut reader), Err(CONTENDED));
    assert_eq!(os.try_lock(&mut writer), Err(CONTENDED));
    assert_eq!(os.try_lock(&mut reader), Err(CONTENDED));

    assert_eq!(os.unlock(&mut holder), Ok(()));
    assert_eq!(os.try_lock(&mut reader), Ok(()));
    assert_eq!(os.try_lock(&mut writer), Err(CONTENDED));
}

#[test]
fn unlock_on_fresh_lock_touches_nothing() {
    let mut os = Machine::new();
    let mut lock = on("/run/fresh.lock", AccessMode::Write);
    assert_eq!(os.unlock(&mut lock), Err(NOT_FOUND));
    assert_eq!(os.opens, 0);
    assert!(!os.has_file(&PathBuf::from("/run/fresh.lock")));
    let mut lock = on("/run/fresh.lock", AccessMode::Read);
    assert_eq!(os.unlock(&mut lock), Err(NOT_FOUND));
    assert_eq!(os.opens, 0);
}

#[test]
fn dropping_a_held_lock_releases_it() {
    let mut os = Machine::new();
    let mut scoped = on("/run/scoped.lock", AccessMode::Write);
    assert_eq!(os.lock(&mut scoped), Ok(()));
    let mut next = on("/run/scoped.lock", AccessMode::Write);
    assert_eq!(os.try_lock(&mut next), Err(CONTENDED));
    os.drop(scoped);
    assert_eq!(os.try_lock(&mut next), Ok(()));
    // Dropping a lock that never opened its file is harmless.
    os.drop(on("/run/scoped.lock", AccessMode::Read));
    let mut reader = on("/run/scoped.lock", AccessMode::Read);
    assert_eq!(os.try_lock(&mut reader), Err(CONTENDED));
}

#[test]
fn lock_unlock_lock_succeeds_each_time() {
    let mut os = Machine::new();
    let mut lock = on("/run/again.lock", AccessMode::Write);
    assert_eq!(os.lock(&mut lock), Ok(()));
    let fd = lock.handle();
    assert_eq!(fd, Some(0));
    assert_eq!(os.unlock(&mut lock), Ok(()));
    assert_eq!(os.lock(&mut lock), Ok(()));
    assert_eq!(lock.handle(), fd);
    // Asking again while the lock is held succeeds too.
    assert_eq!(os.try_lock(&mut lock), Ok(()));
    assert_eq!(os.unlock(&mut lock), Ok(()));
    assert_eq!(os.unlock(&mut lock), Ok(()));
    assert_eq!(os.opens, 1);
}

#[test]
fn first_attempt_creates_the_file() {
    for mode in [AccessMode::Read, AccessMode::Write] {
        let mut os = Machine::new();
        let path = PathBuf::from("/run/made.lock");
        let mut lock = FileLock::new(path.clone(), mode);
        assert!(!os.has_file(&path));
        assert_eq!(os.try_lock(&mut lock), Ok(()));
        assert!(os.has_file(&path));
        // The file is left where it is.
        assert_eq!(os.unlock(&mut lock), Ok(()));
        os.drop(lock);
        assert!(os.has_file(&path));
    }
}

#[test]
fn failed_open_is_tried_again_by_the_next_call() {
    let mut os = Machine::new();
    let mut lock = FileLock::new(PathBuf::new(), AccessMode::Write);
    let failed = Err(Error::IoError(IoFailure { kind: IoKind::NotFound, code: Some(2) }));
    assert_eq!(os.try_lock(&mut lock), failed);
    assert_eq!(os.opens, 1);
    assert_eq!(lock.handle(), None);
    assert_eq!(os.lock(&mut lock), failed);
    assert_eq!(os.opens, 2);
    assert_eq!(os.unlock(&mut lock), Err(NOT_FOUND));
}
