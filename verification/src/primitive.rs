//! The vocabulary shared by both platforms: which lock call is wanted, what the
//! operating system answered, and what that answer amounts to.

use vstd::prelude::*;
use crate::descriptor::Descriptor;

verus! {

/// The five whole-file lock calls.
#[derive(Clone, Copy, Debug, PartialEq, Eq, Hash)]
pub enum Operation {
    /// Wait for a shared lock.
    LockShared,
    /// Wait for an exclusive lock.
    LockExclusive,
    /// Take a shared lock if it is free right now.
    TryLockShared,
    /// Take an exclusive lock if it is free right now.
    TryLockExclusive,
    /// Release the lock held through this descriptor.
    Unlock,
}

impl Operation {
    /// The two calls that return at once instead of waiting.
    pub open spec fn is_try(self) -> bool {
        self is TryLockShared || self is TryLockExclusive
    }

    /// The two calls that ask for an exclusive lock.
    pub open spec fn is_exclusive(self) -> bool {
        self is LockExclusive || self is TryLockExclusive
    }

    /// Whether the call returns at once instead of waiting.
    pub fn returns_at_once(&self) -> (b: bool)
        ensures
            b == self.is_try(),
    {
        match self {
            Operation::TryLockShared => true,
            Operation::TryLockExclusive => true,
            _ => false,
        }
    }
}

/// One lock call to be made: on which descriptor, and which call.
#[derive(Clone, Copy, Debug, PartialEq, Eq, Hash)]
pub struct Request {
    pub descriptor: Descriptor,
    pub operation: Operation,
}

/// The request that releases the lock held through `descriptor`.
pub open spec fn unlock_request(descriptor: Descriptor) -> Request {
    Request { descriptor, operation: Operation::Unlock }
}

/// What the operating system handed back for one lock call: the call's return
/// value, and the calling thread's last error code read right after a failed
/// call. After a call that succeeded `code` means nothing.
#[derive(Clone, Copy, Debug, PartialEq, Eq, Hash)]
pub struct Reply {
    pub ret: i32,
    pub code: i32,
}

/// An operating-system error, by its raw code, as the system reported it.
#[derive(Clone, Copy, Debug, PartialEq, Eq, Hash)]
pub struct OsError {
    pub code: i32,
}

/// What one lock call came to.
#[derive(Clone, Copy, Debug, PartialEq, Eq, Hash)]
pub enum LockAttempt {
    /// The lock is held now.
    Acquired,
    /// Someone else holds the lock and the call did not wait. Not an error.
    WouldBlock,
    /// The call failed for any other reason.
    Error(OsError),
}

} // verus!
