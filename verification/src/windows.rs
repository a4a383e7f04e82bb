//! The Windows backend: `LockFileEx` and `UnlockFile` on a file handle, over the
//! whole file.
//!
//! Both calls return nonzero when they succeeded and 0 when they failed; a
//! lock that is held elsewhere makes a non-waiting call fail with the error
//! code `ERROR_LOCK_VIOLATION`. The whole file is named by the range that
//! starts at offset 0 and has the largest length there is.

use vstd::prelude::*;
use crate::primitive::LockAttempt;
use crate::primitive::Operation;
use crate::primitive::OsError;
use crate::primitive::Reply;

verus! {

/// `windows_sys::Win32::Storage::FileSystem::LOCKFILE_EXCLUSIVE_LOCK`, the
/// `LockFileEx` flag that asks for an exclusive lock. Trusted: the value is 2.
#[verifier::external_body]
fn lockfile_exclusive_lock() -> (flag: u32)
    ensures
        flag == 2,
{
    windows_sys::Win32::Storage::FileSystem::LOCKFILE_EXCLUSIVE_LOCK
}

/// `windows_sys::Win32::Storage::FileSystem::LOCKFILE_FAIL_IMMEDIATELY`, the
/// `LockFileEx` flag that keeps a call from waiting. Trusted: the value is 1.
#[verifier::external_body]
fn lockfile_fail_immediately() -> (flag: u32)
    ensures
        flag == 1,
{
    windows_sys::Win32::Storage::FileSystem::LOCKFILE_FAIL_IMMEDIATELY
}

/// `windows_sys::Win32::Foundation::ERROR_LOCK_VIOLATION`, the error code of a
/// non-waiting call that found the lock held. Trusted: the value is 33.
#[verifier::external_body]
fn error_lock_violation() -> (code: u32)
    ensures
        code == 33,
{
    windows_sys::Win32::Foundation::ERROR_LOCK_VIOLATION
}

/// A call into the system, with every argument but the handle and, for
/// `LockFileEx`, the overlapped structure, whose offset is `offset_low` and
/// `offset_high` and whose event is null.
#[derive(Clone, Copy, Debug, PartialEq, Eq, Hash)]
pub enum SystemCall {
    LockFileEx {
        flags: u32,
        reserved: u32,
        length_low: u32,
        length_high: u32,
        offset_low: u32,
        offset_high: u32,
    },
    UnlockFile { offset_low: u32, offset_high: u32, length_low: u32, length_high: u32 },
}

/// The flags of `LockFileEx` for each lock call: `LOCKFILE_EXCLUSIVE_LOCK` (2)
/// for an exclusive lock, with `LOCKFILE_FAIL_IMMEDIATELY` (1) set in it for the
/// calls that must not wait.
pub open spec fn lock_flags(operation: Operation) -> u32 {
    match operation {
        Operation::LockShared => 0,
        Operation::LockExclusive => 2,
        Operation::TryLockShared => 1,
        Operation::TryLockExclusive => 3,
        Operation::Unlock => 0,
    }
}

/// The call to make for each operation, always over the whole file.
pub open spec fn call_for(operation: Operation) -> SystemCall {
    if operation is Unlock {
        SystemCall::UnlockFile {
            offset_low: 0,
            offset_high: 0,
            length_low: u32::MAX,
            length_high: u32::MAX,
        }
    } else {
        SystemCall::LockFileEx {
            flags: lock_flags(operation),
            reserved: 0,
            length_low: u32::MAX,
            length_high: u32::MAX,
            offset_low: 0,
            offset_high: 0,
        }
    }
}

/// What a reply of either call means when would-block is not told apart: 0 is
/// failure with the error the system reported, anything else is success.
pub open spec fn call_result(reply: Reply) -> Result<(), OsError> {
    if reply.ret == 0 {
        Err(OsError { code: reply.code })
    } else {
        Ok(())
    }
}

/// What a reply means for `operation`. Only a call that must not wait can come
/// out as would-block, and it does when the code is `ERROR_LOCK_VIOLATION` (33).
pub open spec fn outcome(operation: Operation, reply: Reply) -> LockAttempt {
    if reply.ret != 0 {
        LockAttempt::Acquired
    } else if operation.is_try() && reply.code == 33 {
        LockAttempt::WouldBlock
    } else {
        LockAttempt::Error(OsError { code: reply.code })
    }
}

/// The flags to pass to `LockFileEx` for a lock call.
fn flags_of(operation: Operation) -> (flags: u32)
    ensures
        flags == lock_flags(operation),
{
    match operation {
        Operation::LockShared => 0,
        Operation::LockExclusive => lockfile_exclusive_lock(),
        Operation::TryLockShared => lockfile_fail_immediately(),
        Operation::TryLockExclusive => {
            assert(1u32 | 2u32 == 3u32) by (bit_vector);
            lockfile_fail_immediately() | lockfile_exclusive_lock()
        },
        Operation::Unlock => 0,
    }
}

/// The call to make for `operation`, with its arguments.
pub fn system_call(operation: Operation) -> (call: SystemCall)
    ensures
        call == call_for(operation),
{
    match operation {
        Operation::Unlock => SystemCall::UnlockFile {
            offset_low: 0,
            offset_high: 0,
            length_low: u32::MAX,
            length_high: u32::MAX,
        },
        _ => SystemCall::LockFileEx {
            flags: flags_of(operation),
            reserved: 0,
            length_low: u32::MAX,
            length_high: u32::MAX,
            offset_low: 0,
            offset_high: 0,
        },
    }
}

/// Reads a reply of `LockFileEx` or `UnlockFile` as success or failure, the
/// error passed on as the system gave it.
pub fn lock_file(reply: Reply) -> (r: Result<(), OsError>)
    ensures
        r == call_result(reply),
{
    if reply.ret == 0 {
        Err(OsError { code: reply.code })
    } else {
        Ok(())
    }
}

/// Reads a reply of `LockFileEx` for `operation`.
pub fn attempt(operation: Operation, reply: Reply) -> (a: LockAttempt)
    ensures
        a == outcome(operation, reply),
{
    match lock_file(reply) {
        Ok(()) => LockAttempt::Acquired,
        Err(e) => {
            let violation: u32 = error_lock_violation();
            if operation.returns_at_once() && e.code == violation as i32 {
                LockAttempt::WouldBlock
            } else {
                LockAttempt::Error(e)
            }
        },
    }
}

} // verus!
