//! A lazily opened, advisory file lock, written as the decision logic of its
//! lifecycle.
//!
//! [`FileLock`] owns a path, an access mode and the descriptor of the lock
//! file once it has been opened. It never touches the filesystem or the
//! operating system's locking calls itself: every operation answers with an
//! [`Action`] that says what has to be done next, and takes the outcome back
//! as an [`Event`]. The program around it performs the actions.
pub mod error;
pub mod flock;
pub mod laws;
pub mod mode;
pub mod protocol;

pub use error::{Error, IoFailure, IoKind, LockFailure};
pub use flock::{FileLock, LockState};
pub use mode::{AccessMode, LockKind};
pub use protocol::{Action, Event, LockRequest, OpenRequest, Phase};
