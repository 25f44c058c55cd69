//! The calls that one guard stands for, from the lock that made it to the unlock that ends it.

use crate::addr::Addr;
use crate::backend::Backend;
use crate::call::{Effect, Request};
use crate::errno::Failure;
use crate::pending::Pending;
use vstd::prelude::*;

verus! {

/// The calls lock the mutex and then only wait with it: whoever made them, all with success, and
/// no others holds the mutex.
pub open spec fn holds<B: Backend>(calls: Seq<B::Call>, mutex: usize) -> bool {
    &&& calls.len() > 0
    &&& B::effect(calls[0]) == (Effect::LockMutex { mutex })
    &&& forall|i: int|
        1 <= i < calls.len() ==> {
            &&& B::effect(#[trigger] calls[i]) is WaitCondvar
            &&& B::effect(calls[i]).on_mutex() == Some(mutex)
        }
}

/// The calls hold the mutex and then, with the last one, give it back.
pub open spec fn gives_back<B: Backend>(calls: Seq<B::Call>, mutex: usize) -> bool {
    &&& calls.len() > 0
    &&& holds::<B>(calls.drop_last(), mutex)
    &&& B::effect(calls.last()) == (Effect::UnlockMutex { mutex })
}

/// How far the use of a mutex by one guard has come.
pub enum Phase {
    /// Nothing has been asked for yet.
    Fresh,
    /// The lock was called and has not returned.
    Locking,
    /// There is the right to open the value, or the guard that opened it.
    Held,
    /// A wait was called and has not returned; there is no guard meanwhile.
    Waiting,
    /// The unlock was called and has not returned; the guard is gone.
    Unlocking,
    /// The mutex was given back.
    Ended,
    /// A call failed; there is no guard and there will be none.
    Failed,
}

/// The phase that a call leads to: a lock starts, and only a guard waits or unlocks. `None` for a
/// call that is not made in that phase.
pub open spec fn phase_after_call(phase: Phase, call: Effect, mutex: usize) -> Option<Phase> {
    match (phase, call) {
        (Phase::Fresh, Effect::LockMutex { mutex: m }) if m == mutex => Some(Phase::Locking),
        (Phase::Held, Effect::WaitCondvar { condvar: _, mutex: m }) if m == mutex => Some(
            Phase::Waiting,
        ),
        (Phase::Held, Effect::UnlockMutex { mutex: m }) if m == mutex => Some(Phase::Unlocking),
        _ => None,
    }
}

/// The phase that the return of a call leads to: zero is success and nothing else is. `None` where
/// no call is out.
pub open spec fn phase_after_return(phase: Phase, code: i32) -> Option<Phase> {
    match phase {
        Phase::Locking | Phase::Waiting => Some(
            if code == 0 {
                Phase::Held
            } else {
                Phase::Failed
            },
        ),
        Phase::Unlocking => Some(
            if code == 0 {
                Phase::Ended
            } else {
                Phase::Failed
            },
        ),
        _ => None,
    }
}

/// With every backend, the calls of a guard take its use of the mutex from phase to phase: a lock
/// begins it, a wait suspends it, an unlock ends it.
pub proof fn guards_go_through_phases<B: Backend>(
    mutex: Addr<B::RawMutex>,
    condvar: Addr<B::RawCondvar>,
)
    ensures
        phase_after_call(
            Phase::Fresh,
            B::effect(B::call_for(Request::LockMutex { mutex })),
            mutex@,
        ) == Some(Phase::Locking),
        phase_after_call(
            Phase::Held,
            B::effect(B::call_for(Request::WaitCondvar { condvar, mutex })),
            mutex@,
        ) == Some(Phase::Waiting),
        phase_after_call(
            Phase::Held,
            B::effect(B::call_for(Request::UnlockMutex { mutex })),
            mutex@,
        ) == Some(Phase::Unlocking),
{
    B::call_serves_request(Request::LockMutex { mutex });
    B::call_serves_request(Request::WaitCondvar { condvar, mutex });
    B::call_serves_request(Request::UnlockMutex { mutex });
}

/// A returned code takes an operation where it takes the guard's phase: there is a guard after a
/// lock or a wait, and an end after an unlock, exactly where the operation succeeds, and otherwise
/// all has failed.
pub proof fn returns_go_through_phases<'p, B: Backend, S>(
    pending: Pending<'p, B, S>,
    code: i32,
    outcome: Result<S, Failure>,
)
    requires
        call_ensures(Pending::<'p, B, S>::resume, (pending, code), outcome),
    ensures
        outcome is Ok <==> phase_after_return(Phase::Locking, code) == Some(Phase::Held),
        outcome is Ok <==> phase_after_return(Phase::Waiting, code) == Some(Phase::Held),
        outcome is Ok <==> phase_after_return(Phase::Unlocking, code) == Some(Phase::Ended),
        outcome is Err <==> phase_after_return(Phase::Locking, code) == Some(Phase::Failed),
        outcome is Err <==> phase_after_return(Phase::Waiting, code) == Some(Phase::Failed),
        outcome is Err <==> phase_after_return(Phase::Unlocking, code) == Some(Phase::Failed),
{
}

/// With every backend, to notify is no step of any guard and touches no mutex.
pub proof fn notifying_leaves_mutexes_alone<B: Backend>(
    condvar: Addr<B::RawCondvar>,
    phase: Phase,
    mutex: usize,
)
    ensures
        B::effect(B::call_for(Request::SignalCondvar { condvar })).on_mutex() is None,
        B::effect(B::call_for(Request::BroadcastCondvar { condvar })).on_mutex() is None,
        phase_after_call(
            phase,
            B::effect(B::call_for(Request::SignalCondvar { condvar })),
            mutex,
        ) is None,
        phase_after_call(
            phase,
            B::effect(B::call_for(Request::BroadcastCondvar { condvar })),
            mutex,
        ) is None,
{
    B::call_serves_request(Request::SignalCondvar { condvar });
    B::call_serves_request(Request::BroadcastCondvar { condvar });
}

} // verus!
