//! What holds of the library as a whole, proved from the contracts of its
//! parts.

use vstd::prelude::*;
use crate::bridge::PendingView;
use crate::descriptor::AsDescriptor;
use crate::guard::GuardView;
use crate::primitive::unlock_request;
use crate::primitive::LockAttempt;
use crate::primitive::Operation;
use crate::primitive::OsError;
use crate::primitive::Reply;
use crate::primitive::Request;

verus! {

/// The unlock requests that a guard gives out when it is released `n` times
/// in a row, in the order in which they go out.
pub open spec fn requests_given_out<T: AsDescriptor>(guard: GuardView<T>, n: nat) -> Seq<Request>
    decreases n,
{
    if n == 0 {
        Seq::empty()
    } else {
        let first = match guard.unlock_request() {
            Some(request) => seq![request],
            None => Seq::empty(),
        };
        first + requests_given_out(guard.after_release(), (n - 1) as nat)
    }
}

/// No double unlock: however often a guard is released, at most one unlock
/// request goes out. A guard that has not released gives out exactly one, at
/// the first release, for its handle's descriptor; a released guard gives out
/// none.
pub proof fn unlock_goes_out_at_most_once<T: AsDescriptor>(guard: GuardView<T>, n: nat)
    ensures
        requests_given_out(guard, n).len() <= 1,
        guard.released ==> requests_given_out(guard, n) == Seq::<Request>::empty(),
        !guard.released && n > 0 ==> requests_given_out(guard, n) == seq![
            unlock_request(guard.file.descriptor()),
        ],
    decreases n,
{
    if n > 0 {
        unlock_goes_out_at_most_once(guard.after_release(), (n - 1) as nat);
        assert(requests_given_out(guard.after_release(), (n - 1) as nat) == Seq::<
            Request,
        >::empty());
    }
}

/// Released is final: once a guard has released, by either path, neither path
/// gives out a request again, and the handle is the one it was.
pub proof fn released_is_final<T: AsDescriptor>(guard: GuardView<T>)
    ensures
        guard.after_release().released,
        guard.after_release().file == guard.file,
        guard.after_release().unlock_request() is None,
        guard.after_release().unlocked().request is None,
        guard.after_release().after_release() == guard.after_release(),
{
}

/// Scope exit releases exactly as the explicit unlock does: for the same
/// guard, both paths give out the same request, which is the unlock call on
/// the handle's descriptor if the guard has not released, and nothing if it
/// has.
pub proof fn scope_exit_releases_as_unlock<T: AsDescriptor>(guard: GuardView<T>)
    ensures
        guard.unlocked().request == guard.unlock_request(),
        !guard.released ==> guard.unlock_request() == Some(
            unlock_request(guard.file.descriptor()),
        ),
        guard.released ==> guard.unlock_request() is None,
{
}

/// The explicit unlock of an owning guard gives the handle back as it was: a
/// handle that was given up for locking and whose lock was acquired comes back
/// from the unlock as it went in, once the system has released the lock, and
/// the one request that went out in between is the unlock call on its
/// descriptor. If the system refuses, its error comes back untouched.
pub proof fn unlock_returns_the_handle<T: AsDescriptor>(pending: PendingView<T>, error: OsError)
    ensures
        ({
            let guard = GuardView { file: pending.file, released: false };
            &&& guard.unlocked().request == Some(unlock_request(pending.file.descriptor()))
            &&& guard.unlocked().completed(Ok(())) == Ok::<T, OsError>(pending.file)
            &&& guard.unlocked().completed(Err(error)) == Err::<T, OsError>(error)
        }),
{
}

/// A guard never alters its handle: releasing, by either path, leaves the
/// handle's value as it was, so that a borrowed handle is the same handle
/// when the borrow ends.
pub proof fn release_leaves_the_handle<T: AsDescriptor>(guard: GuardView<T>)
    ensures
        guard.after_release().file == guard.file,
        guard.unlocked().file == guard.file,
{
}

/// A lock that is held elsewhere is no error: on both platforms, a call that
/// must not wait and fails with the platform's would-block code comes out as
/// would-block, and with any other code as that very error.
pub proof fn held_elsewhere_is_would_block(operation: Operation, reply: Reply, would_block: i32)
    requires
        operation.is_try(),
    ensures
        reply.ret != 0 ==> crate::unix::outcome(operation, reply, would_block) == (if reply.code
            == would_block {
            LockAttempt::WouldBlock
        } else {
            LockAttempt::Error(OsError { code: reply.code })
        }),
        reply.ret == 0 ==> crate::windows::outcome(operation, reply) == (if reply.code == 33 {
            LockAttempt::WouldBlock
        } else {
            LockAttempt::Error(OsError { code: reply.code })
        }),
{
}

/// Would-block cannot come out of a call that waits: on both platforms such a
/// call, and the unlock call, comes to what the bare reply says, acquired on
/// success and the system's error otherwise.
pub proof fn waiting_never_would_block(operation: Operation, reply: Reply, would_block: i32)
    requires
        !operation.is_try(),
    ensures
        crate::unix::outcome(operation, reply, would_block) == (match crate::unix::call_result(
            reply,
        ) {
            Ok(_) => LockAttempt::Acquired,
            Err(e) => LockAttempt::Error(e),
        }),
        crate::windows::outcome(operation, reply) == (match crate::windows::call_result(reply) {
            Ok(_) => LockAttempt::Acquired,
            Err(e) => LockAttempt::Error(e),
        }),
{
}

/// The two platforms agree: replies that say the same thing, each in its
/// platform's way, come to the same kind of attempt, and for a call that must
/// not wait to the same attempt. "The same thing" is success on both, or failure
/// on both, either with each platform's would-block code or with one and the
/// same other code.
pub proof fn platforms_agree(operation: Operation, posix: Reply, windows: Reply, would_block: i32)
    requires
        posix.ret == 0 <==> windows.ret != 0,
        posix.code == would_block <==> windows.code == 33,
        posix.code != would_block ==> posix.code == windows.code,
    ensures
        crate::unix::outcome(operation, posix, would_block) is Acquired
            <==> crate::windows::outcome(operation, windows) is Acquired,
        crate::unix::outcome(operation, posix, would_block) is WouldBlock
            <==> crate::windows::outcome(operation, windows) is WouldBlock,
        operation.is_try() ==> crate::unix::outcome(operation, posix, would_block)
            == crate::windows::outcome(operation, windows),
{
}

/// Shared and exclusive are distinct lock classes, and waiting and trying are
/// distinct calls: on each platform the five operations name five different
/// calls.
pub proof fn operations_are_told_apart(a: Operation, b: Operation)
    ensures
        crate::unix::flock_code(a) == crate::unix::flock_code(b) <==> a == b,
        crate::windows::call_for(a) == crate::windows::call_for(b) <==> a == b,
{
}

} // verus!
