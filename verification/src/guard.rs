//! The lock guards: a handle that is known to be locked, wrapped so that the
//! unlock request for it is given out once and never again.
//!
//! A guard is made by a lock call that succeeded and by nothing else. From then
//! on it is `Locked`; the first of `unlock_ref` and `unlock` to be called gives
//! out the unlock request and leaves it released, which is final.
//!
//! The library makes no system call, so it cannot release on scope exit by
//! itself: whoever drops a guard calls `unlock_ref` first, performs the request
//! it may return and lets the error go, as there is nobody left to report it to.
//! Holding two guards apart is the borrow checker's work: a guard owns its
//! handle or borrows it exclusively, and giving out the request takes the guard
//! exclusively too.

use vstd::prelude::*;
use crate::descriptor::AsDescriptor;
use crate::descriptor::Descriptor;
use crate::primitive::unlock_request;
use crate::primitive::Operation;
use crate::primitive::OsError;
use crate::primitive::Request;

verus! {

/// What a guard is, whichever way it holds its handle: the handle's value and
/// whether the unlock request has been given out.
pub struct GuardView<T> {
    pub file: T,
    pub released: bool,
}

impl<T: AsDescriptor> GuardView<T> {
    /// The request that releasing gives out: the unlock call on the handle's
    /// descriptor the first time, nothing afterwards.
    pub open spec fn unlock_request(self) -> Option<Request> {
        if self.released {
            None
        } else {
            Some(unlock_request(self.file.descriptor()))
        }
    }

    /// The guard after releasing: the same handle, released.
    pub open spec fn after_release(self) -> Self {
        GuardView { file: self.file, released: true }
    }

    /// The explicit unlock of this guard: the handle to give back, and the
    /// same request that releasing gives out.
    pub open spec fn unlocked(self) -> ReleaseView<T> {
        ReleaseView { file: self.file, request: self.unlock_request() }
    }
}

/// What an unlock under way is: the handle to give back and the request that
/// was given out for it, if any.
pub struct ReleaseView<T> {
    pub file: T,
    pub request: Option<Request>,
}

impl<T> ReleaseView<T> {
    /// How the unlock ends: the handle if the system released the lock, else the
    /// system's error.
    pub open spec fn completed(self, outcome: Result<(), OsError>) -> Result<T, OsError> {
        match outcome {
            Ok(_) => Ok(self.file),
            Err(e) => Err(e),
        }
    }
}

/// The release routine both guards share: gives out the unlock request for
/// `descriptor` unless `released` says it went out before, and sets `released`.
fn release_once(released: &mut bool, descriptor: Descriptor) -> (request: Option<Request>)
    ensures
        *final(released),
        request == if *old(released) {
            None
        } else {
            Some(unlock_request(descriptor))
        },
{
    if *released {
        None
    } else {
        *released = true;
        Some(Request { descriptor, operation: Operation::Unlock })
    }
}

/// Guard that holds a locked file.
///
/// The handle is reached through the guard as if the guard were the handle.
/// `unlock` ends the guard and gives the handle back.
#[derive(Debug, PartialEq, Eq, PartialOrd, Ord, Hash)]
pub struct Lock<T: AsDescriptor> {
    file: T,
    released: bool,
}

impl<T: AsDescriptor> View for Lock<T> {
    type V = GuardView<T>;

    closed spec fn view(&self) -> GuardView<T> {
        GuardView { file: self.file, released: self.released }
    }
}

impl<T: AsDescriptor> Lock<T> {
    /// Wraps a handle whose lock call has just succeeded.
    pub(crate) fn new(file: T) -> (guard: Self)
        ensures
            guard@ == (GuardView { file, released: false }),
    {
        Lock { file, released: false }
    }

    /// Whether the unlock request has been given out.
    pub fn is_released(&self) -> (b: bool)
        ensures
            b == self@.released,
    {
        self.released
    }

    /// The handle, for writing.
    pub fn get_mut(&mut self) -> (file: &mut T)
        ensures
            *file == old(self)@.file,
            final(self)@ == (GuardView { file: *final(file), released: old(self)@.released }),
    {
        &mut self.file
    }

    /// Releases without ending the guard: the path taken on scope exit. Gives
    /// out the unlock request the first time and nothing afterwards.
    pub fn unlock_ref(&mut self) -> (request: Option<Request>)
        ensures
            request == old(self)@.unlock_request(),
            final(self)@ == old(self)@.after_release(),
    {
        let descriptor: Descriptor = self.file.as_descriptor();
        release_once(&mut self.released, descriptor)
    }

    /// Unlock the file: ends the guard and starts the release, which holds the
    /// unlock request, unless it went out before, and the handle to give back.
    pub fn unlock(self) -> (release: Release<T>)
        ensures
            release@ == self@.unlocked(),
    {
        let mut guard = self;
        let request = guard.unlock_ref();
        Release { file: guard.file, request }
    }
}

impl<T: AsDescriptor> std::ops::Deref for Lock<T> {
    type Target = T;

    fn deref(&self) -> (file: &T)
        ensures
            *file == self@.file,
    {
        &self.file
    }
}

/// An explicit unlock under way: the guard is gone, the request is out, the
/// system's answer is awaited.
#[derive(Debug)]
pub struct Release<T> {
    file: T,
    request: Option<Request>,
}

impl<T> View for Release<T> {
    type V = ReleaseView<T>;

    closed spec fn view(&self) -> ReleaseView<T> {
        ReleaseView { file: self.file, request: self.request }
    }
}

impl<T> Release<T> {
    /// The unlock request to perform, if the guard had not released before.
    pub fn request(&self) -> (request: Option<Request>)
        ensures
            request == self@.request,
    {
        self.request
    }

    /// Ends the unlock with the system's answer: the handle on success, the
    /// system's error, untouched, on failure.
    pub fn complete(self, outcome: Result<(), OsError>) -> (r: Result<T, OsError>)
        ensures
            r == self@.completed(outcome),
    {
        match outcome {
            Ok(_) => Ok(self.file),
            Err(e) => Err(e),
        }
    }
}

/// Guard that holds a reference to a locked file.
///
/// The handle stays where it is and is borrowed for as long as the guard
/// lives. `unlock` ends the guard and with it the borrow.
#[derive(Debug, PartialEq, Eq, PartialOrd, Ord, Hash)]
pub struct LockRef<'a, T: AsDescriptor> {
    file: &'a mut T,
    released: bool,
}

impl<'a, T: AsDescriptor> View for LockRef<'a, T> {
    type V = GuardView<T>;

    closed spec fn view(&self) -> GuardView<T> {
        GuardView { file: *self.file, released: self.released }
    }
}

impl<'a, T: AsDescriptor> LockRef<'a, T> {
    /// The borrow that the guard holds. What the handle is worth once the
    /// borrow has ended is `*final(guard.borrow())`.
    pub closed spec fn borrow(&self) -> &'a mut T {
        self.file
    }

    /// Wraps a borrowed handle whose lock call has just succeeded.
    pub(crate) fn new(file: &'a mut T) -> (guard: Self)
        ensures
            guard@ == (GuardView { file: *old(file), released: false }),
            *final(guard.borrow()) == *final(file),
    {
        LockRef { file, released: false }
    }

    /// Whether the unlock request has been given out.
    pub fn is_released(&self) -> (b: bool)
        ensures
            b == self@.released,
    {
        self.released
    }

    /// The handle, for writing.
    pub fn get_mut(&mut self) -> (file: &mut T)
        ensures
            *file == old(self)@.file,
            final(self)@ == (GuardView { file: *final(file), released: old(self)@.released }),
            *final(final(self).borrow()) == *final(old(self).borrow()),
    {
        &mut *self.file
    }

    /// Releases without ending the guard: the path taken on scope exit. Gives
    /// out the unlock request the first time and nothing afterwards.
    pub fn unlock_ref(&mut self) -> (request: Option<Request>)
        ensures
            request == old(self)@.unlock_request(),
            final(self)@ == old(self)@.after_release(),
            *final(final(self).borrow()) == *final(old(self).borrow()),
    {
        let descriptor: Descriptor = self.file.as_descriptor();
        release_once(&mut self.released, descriptor)
    }

    /// Unlock the file: ends the guard, and with it the borrow, and gives out
    /// the unlock request unless it went out before. The handle is not touched:
    /// when the borrow ends it is what it was in the guard.
    pub fn unlock(self) -> (request: Option<Request>)
        ensures
            request == self@.unlock_request(),
            *final(self.borrow()) == self@.file,
    {
        let mut guard = self;
        guard.unlock_ref()
    }
}

impl<'a, T: AsDescriptor> std::ops::Deref for LockRef<'a, T> {
    type Target = T;

    fn deref(&self) -> (file: &T)
        ensures
            *file == self@.file,
    {
        &*self.file
    }
}

/// Holds either a [`Lock`] of `T`, or `T` itself, handed back unlocked because
/// the lock was held elsewhere and the call did not wait.
#[derive(Debug)]
pub enum LockResult<T: AsDescriptor> {
    Locked(Lock<T>),
    Blocking(T),
}

impl<T: AsDescriptor> LockResult<T> {
    /// The guard of a result that is `Locked`. A `Blocking` result has none:
    /// the caller rules it out.
    pub fn unwrap(self) -> (guard: Lock<T>)
        requires
            self is Locked,
        ensures
            self == LockResult::Locked(guard),
    {
        match self {
            LockResult::Locked(guard) => guard,
            LockResult::Blocking(_) => vstd::pervasive::unreached(),
        }
    }
}

} // verus!
