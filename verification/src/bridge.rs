//! The bridge between a lock call and its guard.
//!
//! A lock call may keep its thread waiting for as long as someone else holds
//! the lock, so the caller is expected to make it somewhere that may wait and
//! to come back with the answer. In between, the handle rests in a pending
//! lock: it names the call to make and, once told what the call came to,
//! turns into a guard, hands the handle back, or passes the error on.
//!
//! A pending lock that is dropped before it is completed makes no guard and
//! gives out no unlock request, whatever becomes of the call that was made for
//! it: the lock may then be held with nothing to stand for it until the handle
//! is closed. That is how it is meant to be; nothing here undoes such a lock.
//! A failure to make the call at all is not an answer of the system and has no
//! place among the attempts: it is for the caller to stop on.

use vstd::prelude::*;
use crate::descriptor::AsDescriptor;
use crate::guard::GuardView;
use crate::guard::Lock;
use crate::guard::LockRef;
use crate::guard::LockResult;
use crate::primitive::LockAttempt;
use crate::primitive::Operation;
use crate::primitive::OsError;
use crate::primitive::Request;

verus! {

/// What a pending lock is, whichever way it holds its handle: the handle's
/// value and the lock call that is being made for it.
pub struct PendingView<T> {
    pub file: T,
    pub operation: Operation,
}

impl<T: AsDescriptor> PendingView<T> {
    /// The call to make: the operation, on the handle's descriptor.
    pub open spec fn request(self) -> Request {
        Request { descriptor: self.file.descriptor(), operation: self.operation }
    }
}

/// A handle given up for locking, while the lock call is made.
#[derive(Debug)]
pub struct PendingLock<T: AsDescriptor> {
    file: T,
    operation: Operation,
}

impl<T: AsDescriptor> View for PendingLock<T> {
    type V = PendingView<T>;

    closed spec fn view(&self) -> PendingView<T> {
        PendingView { file: self.file, operation: self.operation }
    }
}

impl<T: AsDescriptor> PendingLock<T> {
    /// The lock call to make.
    pub fn request(&self) -> (request: Request)
        ensures
            request == self@.request(),
    {
        Request { descriptor: self.file.as_descriptor(), operation: self.operation }
    }

    /// Ends the wait with what the call came to: a guard around the handle if
    /// the lock was acquired, the handle itself if the lock is held elsewhere,
    /// the system's error, untouched, if the call failed. Neither platform
    /// reads the reply to a call that waits as would-block, so the wait for
    /// such a call ends in a guard or in an error.
    pub fn complete(self, attempt: LockAttempt) -> (r: Result<LockResult<T>, OsError>)
        ensures
            match attempt {
                LockAttempt::Acquired => r matches Ok(LockResult::Locked(guard)) && guard@ == (
                GuardView { file: self@.file, released: false }),
                LockAttempt::WouldBlock => r matches Ok(LockResult::Blocking(file)) && file
                    == self@.file,
                LockAttempt::Error(e) => r matches Err(error) && error == e,
            },
    {
        match attempt {
            LockAttempt::Acquired => Ok(LockResult::Locked(Lock::new(self.file))),
            LockAttempt::WouldBlock => Ok(LockResult::Blocking(self.file)),
            LockAttempt::Error(e) => Err(e),
        }
    }
}

/// A handle lent for locking, while the lock call is made.
#[derive(Debug)]
pub struct PendingLockRef<'a, T: AsDescriptor> {
    file: &'a mut T,
    operation: Operation,
}

impl<'a, T: AsDescriptor> View for PendingLockRef<'a, T> {
    type V = PendingView<T>;

    closed spec fn view(&self) -> PendingView<T> {
        PendingView { file: *self.file, operation: self.operation }
    }
}

impl<'a, T: AsDescriptor> PendingLockRef<'a, T> {
    /// The borrow that the pending lock holds. What the handle is worth once
    /// the borrow has ended is `*final(pending.borrow())`.
    pub closed spec fn borrow(&self) -> &'a mut T {
        self.file
    }

    /// The lock call to make.
    pub fn request(&self) -> (request: Request)
        ensures
            request == self@.request(),
    {
        Request { descriptor: self.file.as_descriptor(), operation: self.operation }
    }

    /// Ends the wait with what the call came to: a guard around the borrowed
    /// handle if the lock was acquired, nothing if the lock is held elsewhere,
    /// the system's error, untouched, if the call failed. Where no guard is
    /// made the borrow ends here and leaves the handle as it was.
    pub fn complete(self, attempt: LockAttempt) -> (r: Result<Option<LockRef<'a, T>>, OsError>)
        ensures
            match attempt {
                LockAttempt::Acquired => r matches Ok(Some(guard)) && guard@ == (GuardView {
                    file: self@.file,
                    released: false,
                }) && *final(guard.borrow()) == *final(self.borrow()),
                LockAttempt::WouldBlock => r matches Ok(None) && *final(self.borrow())
                    == self@.file,
                LockAttempt::Error(e) => r matches Err(error) && error == e
                    && *final(self.borrow()) == self@.file,
            },
    {
        match attempt {
            LockAttempt::Acquired => Ok(Some(LockRef::new(self.file))),
            LockAttempt::WouldBlock => Ok(None),
            LockAttempt::Error(e) => Err(e),
        }
    }
}

/// Extension trait for file-like types that provides the file locking methods.
///
/// Each method gives the handle up, or lends it, for one lock call and returns
/// the pending lock that names the call. The methods that wait and the methods
/// that try differ in the call they name and in nothing else.
pub trait AsyncLockFileExt: AsDescriptor + Sized {
    /// Wait to obtain a shared lock
    fn lock_shared(self) -> (pending: PendingLock<Self>)
        ensures
            pending@ == (PendingView { file: self, operation: Operation::LockShared }),
    ;

    /// Wait to obtain an exclusive lock
    fn lock_exclusive(self) -> (pending: PendingLock<Self>)
        ensures
            pending@ == (PendingView { file: self, operation: Operation::LockExclusive }),
    ;

    /// Try to obtain a shared lock
    fn try_lock_shared(self) -> (pending: PendingLock<Self>)
        ensures
            pending@ == (PendingView { file: self, operation: Operation::TryLockShared }),
    ;

    /// Try to obtain an exclusive lock
    fn try_lock_exclusive(self) -> (pending: PendingLock<Self>)
        ensures
            pending@ == (PendingView { file: self, operation: Operation::TryLockExclusive }),
    ;

    /// Wait to obtain a shared lock
    fn lock_shared_ref(&mut self) -> (pending: PendingLockRef<'_, Self>)
        ensures
            pending@ == (PendingView { file: *old(self), operation: Operation::LockShared }),
            *final(pending.borrow()) == *final(self),
    ;

    /// Wait to obtain an exclusive lock
    fn lock_exclusive_ref(&mut self) -> (pending: PendingLockRef<'_, Self>)
        ensures
            pending@ == (PendingView { file: *old(self), operation: Operation::LockExclusive }),
            *final(pending.borrow()) == *final(self),
    ;

    /// Try to obtain a shared lock
    fn try_lock_shared_ref(&mut self) -> (pending: PendingLockRef<'_, Self>)
        ensures
            pending@ == (PendingView { file: *old(self), operation: Operation::TryLockShared }),
            *final(pending.borrow()) == *final(self),
    ;

    /// Try to obtain an exclusive lock
    fn try_lock_exclusive_ref(&mut self) -> (pending: PendingLockRef<'_, Self>)
        ensures
            pending@ == (PendingView {
                file: *old(self),
                operation: Operation::TryLockExclusive,
            }),
            *final(pending.borrow()) == *final(self),
    ;
}

impl<T: AsDescriptor> AsyncLockFileExt for T {
    fn lock_shared(self) -> (pending: PendingLock<Self>) {
        PendingLock { file: self, operation: Operation::LockShared }
    }

    fn lock_exclusive(self) -> (pending: PendingLock<Self>) {
        PendingLock { file: self, operation: Operation::LockExclusive }
    }

    fn try_lock_shared(self) -> (pending: PendingLock<Self>) {
        PendingLock { file: self, operation: Operation::TryLockShared }
    }

    fn try_lock_exclusive(self) -> (pending: PendingLock<Self>) {
        PendingLock { file: self, operation: Operation::TryLockExclusive }
    }

    fn lock_shared_ref(&mut self) -> (pending: PendingLockRef<'_, Self>) {
        PendingLockRef { file: self, operation: Operation::LockShared }
    }

    fn lock_exclusive_ref(&mut self) -> (pending: PendingLockRef<'_, Self>) {
        PendingLockRef { file: self, operation: Operation::LockExclusive }
    }

    fn try_lock_shared_ref(&mut self) -> (pending: PendingLockRef<'_, Self>) {
        PendingLockRef { file: self, operation: Operation::TryLockShared }
    }

    fn try_lock_exclusive_ref(&mut self) -> (pending: PendingLockRef<'_, Self>) {
        PendingLockRef { file: self, operation: Operation::TryLockExclusive }
    }
}

} // verus!
