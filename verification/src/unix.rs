//! The POSIX backend: `flock(2)` on a file descriptor.
//!
//! `flock` returns 0 when the call succeeded and something else when it failed;
//! a lock that is held elsewhere makes a non-waiting call fail with the error
//! code `EWOULDBLOCK`.

use vstd::prelude::*;
use crate::primitive::LockAttempt;
use crate::primitive::Operation;
use crate::primitive::OsError;
use crate::primitive::Reply;

verus! {

/// `libc::LOCK_SH`, the `flock` operation for a shared lock. Trusted: the value
/// is 1, as every target of `libc` defines it.
#[verifier::external_body]
fn lock_sh() -> (code: i32)
    ensures
        code == 1,
{
    libc::LOCK_SH
}

/// `libc::LOCK_EX`, the `flock` operation for an exclusive lock. Trusted: the
/// value is 2, as every target of `libc` defines it.
#[verifier::external_body]
fn lock_ex() -> (code: i32)
    ensures
        code == 2,
{
    libc::LOCK_EX
}

/// `libc::LOCK_NB`, the `flock` flag that keeps a call from waiting. Trusted:
/// the value is 4, as every target of `libc` defines it.
#[verifier::external_body]
fn lock_nb() -> (code: i32)
    ensures
        code == 4,
{
    libc::LOCK_NB
}

/// `libc::LOCK_UN`, the `flock` operation that releases a lock. Trusted: the
/// value is 8, as every target of `libc` defines it.
#[verifier::external_body]
fn lock_un() -> (code: i32)
    ensures
        code == 8,
{
    libc::LOCK_UN
}

/// `libc::EWOULDBLOCK`, the error code of a non-waiting call that found the
/// lock held. Its value differs from target to target, so nothing is claimed
/// of it.
#[verifier::external_body]
fn ewouldblock() -> i32 {
    libc::EWOULDBLOCK
}

/// The second argument of `flock` for each call: `LOCK_SH` (1) or `LOCK_EX` (2),
/// with `LOCK_NB` (4) set in it for the calls that must not wait, and `LOCK_UN`
/// (8) to release.
pub open spec fn flock_code(operation: Operation) -> i32 {
    match operation {
        Operation::LockShared => 1,
        Operation::LockExclusive => 2,
        Operation::TryLockShared => 5,
        Operation::TryLockExclusive => 6,
        Operation::Unlock => 8,
    }
}

/// What a reply of `flock` means when would-block is not told apart: 0 is
/// success, anything else is the error the system reported.
pub open spec fn call_result(reply: Reply) -> Result<(), OsError> {
    if reply.ret == 0 {
        Ok(())
    } else {
        Err(OsError { code: reply.code })
    }
}

/// What a reply of `flock` means for `operation`, where `would_block` is the
/// code that stands for "held elsewhere". Only a call that must not wait can
/// come out as would-block.
pub open spec fn outcome(operation: Operation, reply: Reply, would_block: i32) -> LockAttempt {
    if reply.ret == 0 {
        LockAttempt::Acquired
    } else if operation.is_try() && reply.code == would_block {
        LockAttempt::WouldBlock
    } else {
        LockAttempt::Error(OsError { code: reply.code })
    }
}

/// The operation argument to pass to `flock` for `operation`.
pub fn flock_operation(operation: Operation) -> (code: i32)
    ensures
        code == flock_code(operation),
{
    match operation {
        Operation::LockShared => lock_sh(),
        Operation::LockExclusive => lock_ex(),
        Operation::TryLockShared => {
            assert(1i32 | 4i32 == 5i32) by (bit_vector);
            lock_sh() | lock_nb()
        },
        Operation::TryLockExclusive => {
            assert(2i32 | 4i32 == 6i32) by (bit_vector);
            lock_ex() | lock_nb()
        },
        Operation::Unlock => lock_un(),
    }
}

/// Reads a reply of `flock` as success or failure, the error passed on as the
/// system gave it.
pub fn lock_file(reply: Reply) -> (r: Result<(), OsError>)
    ensures
        r == call_result(reply),
{
    if reply.ret == 0 {
        Ok(())
    } else {
        Err(OsError { code: reply.code })
    }
}

/// Reads a reply of `flock` for `operation`, given the code that stands for
/// "held elsewhere".
pub fn classify(operation: Operation, reply: Reply, would_block: i32) -> (a: LockAttempt)
    ensures
        a == outcome(operation, reply, would_block),
{
    match lock_file(reply) {
        Ok(()) => LockAttempt::Acquired,
        Err(e) => {
            if operation.returns_at_once() && e.code == would_block {
                LockAttempt::WouldBlock
            } else {
                LockAttempt::Error(e)
            }
        },
    }
}

/// Reads a reply of `flock` for `operation`, with this target's `EWOULDBLOCK`
/// as the code that stands for "held elsewhere".
///
/// The code's value is the target's own, so the contract says what holds
/// whatever it is: success is success, a waiting call never comes out as
/// would-block, and a failed call comes out as would-block or as the very
/// error the system reported. [`classify`] is exact.
pub fn attempt(operation: Operation, reply: Reply) -> (a: LockAttempt)
    ensures
        reply.ret == 0 <==> a is Acquired,
        a is WouldBlock ==> operation.is_try(),
        a is Error ==> a == LockAttempt::Error(OsError { code: reply.code }),
        exists|would_block: i32| a == #[trigger] outcome(operation, reply, would_block),
{
    classify(operation, reply, ewouldblock())
}

} // verus!
