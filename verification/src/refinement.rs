//! The operations are steps of the model of [`exclusion`](crate::exclusion).
//!
//! The value of the model is what a guard shows while there is one, and what the protected value
//! is while there is none. Each operation, as its contract describes it, takes a step of the model
//! and keeps that so.

use crate::addr::Addr;
use crate::backend::Backend;
use crate::call::Request;
use crate::condvar::Condvar;
use crate::errno::Failure;
use crate::exclusion::{Arena, Event};
use crate::mutex::{Locked, Mutex, MutexGuard, Protected};
use crate::pending::Pending;
use crate::session::Phase;
use std::ops::{Deref, DerefMut};
use vstd::prelude::*;

verus! {

/// A new mutex and its value start the model: nobody has asked for the mutex, and the value is the
/// one that the mutex was made with.
pub proof fn a_new_mutex_starts_the_model<T, B: Backend>(
    value: T,
    raw: Addr<B::RawMutex>,
    making: Pending<'static, B, (Mutex<T, B>, Protected<T, B>)>,
    mutex: Mutex<T, B>,
    protected: Protected<T, B>,
    arena: Arena<T>,
)
    requires
        call_ensures(Mutex::<T, B>::new, (value, raw), making),
        call_ensures(
            Pending::<'static, B, (Mutex<T, B>, Protected<T, B>)>::resume,
            (making, 0i32),
            Ok::<(Mutex<T, B>, Protected<T, B>), Failure>((mutex, protected)),
        ),
        arena == (Arena {
            mutex: raw@,
            phases: Map::<int, Phase>::empty(),
            owner: None,
            value,
        }),
    ensures
        arena.is_initial(),
        arena.mutex == mutex.raw()@,
        arena.mutex == protected.raw()@,
        arena.value == protected.value(),
{
}

/// To lock is a step of a user who has asked for nothing.
pub proof fn locking_is_a_step<'a, T, B: Backend>(
    mutex: Mutex<T, B>,
    locking: Pending<'a, B, Locked<'a, T, B>>,
    pre: Arena<T>,
    user: int,
)
    requires
        call_ensures(Mutex::<T, B>::lock, (&mutex,), locking),
        pre.mutex == mutex.raw()@,
        pre.phase(user) is Fresh,
    ensures
        pre.next(
            pre.after_call(user, Phase::Locking),
            user,
            Event::<T, B>::Issue(locking.requested()),
        ),
{
}

/// The return of a call is a step of the user who made it. The user has the mutex after a lock or a
/// wait, and is done after an unlock, exactly where the operation succeeds.
pub proof fn returning_is_a_step<'p, T, B: Backend, S>(
    pending: Pending<'p, B, S>,
    code: i32,
    outcome: Result<S, Failure>,
    pre: Arena<T>,
    user: int,
)
    requires
        call_ensures(Pending::<'p, B, S>::resume, (pending, code), outcome),
        pre.phase(user) is Locking || pre.phase(user) is Waiting || pre.phase(user) is Unlocking,
        outcome is Ok && pre.phase(user) !is Unlocking ==> pre.owner is None,
    ensures
        ({
            let phase = if outcome is Err {
                Phase::Failed
            } else if pre.phase(user) is Unlocking {
                Phase::Ended
            } else {
                Phase::Held
            };
            pre.next(pre.after_return(user, phase), user, Event::<T, B>::Return(code))
        }),
{
}

/// A user who has the mutex can open the value, and the guard shows the value of the model.
pub proof fn opening_shows_the_value<'a, 'v, T, B: Backend>(
    locked: Locked<'a, T, B>,
    protected: &'v mut Protected<T, B>,
    opened: Result<MutexGuard<'a, 'v, T, B>, Locked<'a, T, B>>,
    shown: &T,
    arena: Arena<T>,
)
    requires
        arena.mutex == locked.mutex().raw()@,
        arena.mutex == protected.raw()@,
        arena.value == protected.value(),
        call_ensures(Locked::<'a, T, B>::open, (locked, protected), opened),
        opened is Ok ==> call_ensures(
            MutexGuard::<'a, 'v, T, B>::deref,
            (&opened->Ok_0,),
            shown,
        ),
    ensures
        opened is Ok,
        opened->Ok_0.mutex() == locked.mutex(),
        opened->Ok_0.value() == arena.value,
        *shown == arena.value,
{
}

/// To write through a guard is a step of the user who has it, and the guard goes on to show the
/// value of the model.
pub proof fn writing_is_a_step<'a, 'v, T, B: Backend>(
    guard: &mut MutexGuard<'a, 'v, T, B>,
    value: &mut T,
    pre: Arena<T>,
    user: int,
)
    requires
        call_ensures(MutexGuard::<'a, 'v, T, B>::deref_mut, (guard,), value),
        pre.phase(user) is Held,
        pre.value == guard.value(),
    ensures
        *old(value) == pre.value,
        pre.next(
            pre.after_write(*final(value)),
            user,
            Event::<T, B>::Write(*final(value)),
        ),
        final(guard).value() == pre.after_write(*final(value)).value,
        final(guard).mutex() == old(guard).mutex(),
        *final(final(guard).protected()) == *final(old(guard).protected()),
{
}

/// To unlock is a step of the user who has the guard, and the value of the model is left behind.
pub proof fn unlocking_is_a_step<'a, 'v, T, B: Backend>(
    guard: MutexGuard<'a, 'v, T, B>,
    unlocking: Pending<'a, B, ()>,
    pre: Arena<T>,
    user: int,
)
    requires
        call_ensures(MutexGuard::<'a, 'v, T, B>::drop, (guard,), unlocking),
        pre.mutex == guard.mutex().raw()@,
        pre.phase(user) is Held,
        pre.value == guard.value(),
    ensures
        pre.next(
            pre.after_call(user, Phase::Unlocking),
            user,
            Event::<T, B>::Issue(unlocking.requested()),
        ),
        final(guard.protected()).value() == pre.after_call(user, Phase::Unlocking).value,
        final(guard.protected()).raw() == guard.protected().raw(),
{
}

/// To wait is a step of the user who has the guard, and the value of the model is left behind.
pub proof fn waiting_is_a_step<'c, 'a, 'v, T, B: Backend>(
    condvar: Condvar<B>,
    guard: MutexGuard<'a, 'v, T, B>,
    waiting: Pending<'c, B, Locked<'a, T, B>>,
    pre: Arena<T>,
    user: int,
)
    requires
        call_ensures(Condvar::<B>::wait::<T>, (&condvar, guard), waiting),
        pre.mutex == guard.mutex().raw()@,
        pre.phase(user) is Held,
        pre.value == guard.value(),
    ensures
        pre.next(
            pre.after_call(user, Phase::Waiting),
            user,
            Event::<T, B>::Issue(waiting.requested()),
        ),
        waiting.yields().mutex() == guard.mutex(),
        final(guard.protected()).value() == pre.after_call(user, Phase::Waiting).value,
        final(guard.protected()).raw() == guard.protected().raw(),
{
    B::call_serves_request(
        Request::WaitCondvar { condvar: condvar.raw(), mutex: guard.mutex().raw() },
    );
}

/// What one guard leaves, by an unlock or by a wait and however often it was written through, is
/// what the next guard of the mutex shows.
///
/// `first` is the guard as it was opened and `last` the same guard as it was given up: writing
/// keeps what the guard opened.
pub proof fn the_next_guard_shows_what_the_last_left<'a, 'v, 'b, 'w, 'c, T, B: Backend>(
    locked: Locked<'a, T, B>,
    protected: &'v mut Protected<T, B>,
    first: MutexGuard<'a, 'v, T, B>,
    last: MutexGuard<'a, 'v, T, B>,
    condvar: Condvar<B>,
    unlocking: Pending<'a, B, ()>,
    waiting: Pending<'c, B, Locked<'a, T, B>>,
    next_locked: Locked<'b, T, B>,
    next_protected: &'w mut Protected<T, B>,
    next: MutexGuard<'b, 'w, T, B>,
    shown: &T,
)
    requires
        call_ensures(
            Locked::<'a, T, B>::open,
            (locked, protected),
            Ok::<MutexGuard<'a, 'v, T, B>, Locked<'a, T, B>>(first),
        ),
        *final(last.protected()) == *final(first.protected()),
        call_ensures(MutexGuard::<'a, 'v, T, B>::drop, (last,), unlocking) || call_ensures(
            Condvar::<B>::wait::<T>,
            (&condvar, last),
            waiting,
        ),
        *next_protected == *final(protected),
        call_ensures(
            Locked::<'b, T, B>::open,
            (next_locked, next_protected),
            Ok::<MutexGuard<'b, 'w, T, B>, Locked<'b, T, B>>(next),
        ),
        call_ensures(MutexGuard::<'b, 'w, T, B>::deref, (&next,), shown),
    ensures
        *shown == last.value(),
{
}

} // verus!
