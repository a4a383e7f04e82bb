//! Advisory whole-file locking, shared or exclusive, for anything that can name
//! its operating-system descriptor.
//!
//! The library holds the decisions and none of the system calls. A caller takes a
//! [`Request`] from the library, performs it, and hands the library the [`Reply`];
//! the library says what the reply means and, on success, wraps the handle in a
//! guard that gives out the unlock request once and only once.
//!
//! ```text
//! handle --lock_*/try_lock_*--> PendingLock --complete(attempt)--> Lock
//!                                   |                                |
//!                                request()                  unlock_ref() / unlock()
//!                                   v                                v
//!                       unix / windows: call and reply      the one unlock request
//! ```

pub mod bridge;
pub mod descriptor;
pub mod guard;
pub mod laws;
pub mod primitive;
pub mod unix;
pub mod windows;

pub use bridge::AsyncLockFileExt;
pub use bridge::PendingLock;
pub use bridge::PendingLockRef;
pub use bridge::PendingView;
pub use descriptor::AsDescriptor;
pub use descriptor::Descriptor;
pub use guard::GuardView;
pub use guard::Lock;
pub use guard::LockRef;
pub use guard::LockResult;
pub use guard::Release;
pub use guard::ReleaseView;
pub use primitive::LockAttempt;
pub use primitive::Operation;
pub use primitive::OsError;
pub use primitive::Reply;
pub use primitive::Request;
