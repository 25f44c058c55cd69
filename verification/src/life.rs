//! The life of a foreign object, from its init to its destroy.
//!
//! Operations that borrow an object may be out in any number: each makes its call and is out until
//! that returns. Three things are supposed, which the types of the library leave to the compiler
//! and to whoever provides the memory. An object is made once at its address. An operation needs
//! the object, which there is from the success of the init until it is given up. It is given up
//! only while nobody borrows it, and each [`Pending`] borrows the objects that its call is about.
//! It follows that every call about the object comes after its init, and that the destroy is the
//! last one and finds no other out.

use crate::addr::Addr;
use crate::backend::Backend;
use crate::call::{Effect, Request};
use crate::condvar::Condvar;
use crate::errno::Failure;
use crate::mutex::{Locked, Mutex, MutexGuard, Protected};
use crate::pending::{Ending, Pending};
use vstd::prelude::*;

verus! {

/// A foreign object, known by its address.
pub enum Object {
    Mutex(usize),
    Condvar(usize),
}

impl Object {
    /// The object takes part.
    pub open spec fn takes_part(self, effect: Effect) -> bool {
        match self {
            Object::Mutex(mutex) => effect.on_mutex() == Some(mutex),
            Object::Condvar(condvar) => effect.on_condvar() == Some(condvar),
        }
    }

    /// The object is initialised.
    pub open spec fn is_init(self, effect: Effect) -> bool {
        self.takes_part(effect) && (effect is InitMutex || effect is InitCondvar)
    }

    /// The object is destroyed.
    pub open spec fn is_destroy(self, effect: Effect) -> bool {
        self.takes_part(effect) && (effect is DestroyMutex || effect is DestroyCondvar)
    }

    /// The object is used, which neither makes nor ends it.
    pub open spec fn is_use(self, effect: Effect) -> bool {
        self.takes_part(effect) && !self.is_init(effect) && !self.is_destroy(effect)
    }
}

/// How far the life of an object has come.
pub enum Stage {
    /// Nothing has happened yet.
    Unmade,
    /// The init was called and has not returned.
    Making,
    /// The init failed, so that there is no object.
    Failed,
    /// There is the object.
    Alive,
    /// The destroy was called; there is no object any more.
    Ended,
}

/// A step in the life of an object.
pub enum Step<B: Backend> {
    /// The init is called.
    Make(B::Call),
    /// The init returns this code.
    Made(i32),
    /// An operation that borrows the object makes its call.
    Use(B::Call),
    /// A call of such an operation returns.
    Used,
    /// The object is given up: the destroy is called.
    End(B::Call),
}

impl<B: Backend> Step<B> {
    /// The call that the step makes, if it makes one.
    pub open spec fn call(self) -> Option<B::Call> {
        match self {
            Step::Make(call) => Some(call),
            Step::Use(call) => Some(call),
            Step::End(call) => Some(call),
            _ => None,
        }
    }
}

/// An object in its life.
pub struct Life {
    pub object: Object,
    pub stage: Stage,
    /// How many calls that use the object are out.
    pub out: nat,
}

impl Life {
    /// The life has not begun.
    pub open spec fn is_initial(self) -> bool {
        self.stage is Unmade && self.out == 0
    }

    /// One step.
    pub open spec fn next<B: Backend>(self, post: Self, step: Step<B>) -> bool {
        match step {
            Step::Make(call) => {
                &&& self.stage is Unmade
                &&& self.object.is_init(B::effect(call))
                &&& post == (Life { stage: Stage::Making, ..self })
            },
            Step::Made(code) => {
                &&& self.stage is Making
                &&& post == (Life {
                    stage: if code == 0 {
                        Stage::Alive
                    } else {
                        Stage::Failed
                    },
                    ..self
                })
            },
            Step::Use(call) => {
                &&& self.stage is Alive
                &&& self.object.is_use(B::effect(call))
                &&& post == (Life { out: self.out + 1, ..self })
            },
            Step::Used => {
                &&& self.out > 0
                &&& post == (Life { out: (self.out - 1) as nat, ..self })
            },
            Step::End(call) => {
                &&& self.stage is Alive
                &&& self.out == 0
                &&& self.object.is_destroy(B::effect(call))
                &&& post == (Life { stage: Stage::Ended, ..self })
            },
        }
    }
}

/// The life goes through `states`, by `steps`.
pub open spec fn lived<B: Backend>(states: Seq<Life>, steps: Seq<Step<B>>) -> bool {
    &&& states.len() == steps.len() + 1
    &&& states[0].is_initial()
    &&& forall|i: int|
        0 <= i < steps.len() ==> states[i].next(states[i + 1], #[trigger] steps[i])
}

/// The calls about the object in the first `n` steps.
pub open spec fn calls_about<B: Backend>(steps: Seq<Step<B>>, n: nat) -> Seq<B::Call>
    decreases n,
{
    if n == 0 {
        seq![]
    } else {
        let before = calls_about(steps, (n - 1) as nat);
        match steps[n - 1].call() {
            Some(call) => before.push(call),
            None => before,
        }
    }
}

/// The calls begin with an init of the object and then only use it.
pub open spec fn inits_and_uses<B: Backend>(calls: Seq<B::Call>, object: Object) -> bool {
    &&& calls.len() > 0
    &&& object.is_init(B::effect(calls[0]))
    &&& forall|i: int|
        1 <= i < calls.len() ==> object.is_use(B::effect(#[trigger] calls[i]))
}

/// Every call about an object comes after its one init and before its one destroy.
pub proof fn calls_follow_the_life<B: Backend>(states: Seq<Life>, steps: Seq<Step<B>>, i: nat)
    requires
        lived(states, steps),
        i < states.len(),
    ensures
        states[i as int].object == states[0].object,
        match states[i as int].stage {
            Stage::Unmade => calls_about(steps, i).len() == 0,
            Stage::Making | Stage::Failed => {
                &&& calls_about(steps, i).len() == 1
                &&& inits_and_uses::<B>(calls_about(steps, i), states[0].object)
            },
            Stage::Alive => inits_and_uses::<B>(calls_about(steps, i), states[0].object),
            Stage::Ended => {
                &&& calls_about(steps, i).len() > 1
                &&& inits_and_uses::<B>(calls_about(steps, i).drop_last(), states[0].object)
                &&& states[0].object.is_destroy(B::effect(calls_about(steps, i).last()))
            },
        },
        states[i as int].stage !is Alive ==> states[i as int].out == 0,
    decreases i,
{
    if i > 0 {
        let n = (i - 1) as nat;
        calls_follow_the_life(states, steps, n);
        assert(states[n as int].next(states[i as int], steps[n as int]));
        let before = calls_about(steps, n);
        match steps[n as int].call() {
            Some(call) => {
                assert(before.push(call).drop_last() =~= before);
                assert(calls_about(steps, i) == before.push(call));
            },
            None => {
                assert(calls_about(steps, i) == before);
            },
        }
    }
}

/// The destroy is the last call about an object: none is out when it is made, and none is made
/// after it.
pub proof fn the_destroy_is_the_last_call<B: Backend>(
    states: Seq<Life>,
    steps: Seq<Step<B>>,
    i: int,
    j: int,
)
    requires
        lived(states, steps),
        0 <= i <= j < steps.len(),
        steps[i] is End,
    ensures
        states[i].out == 0,
        i < j ==> steps[j].call() is None,
        states[j + 1].stage is Ended,
    decreases j,
{
    assert(states[i].next(states[i + 1], steps[i]));
    if i < j {
        the_destroy_is_the_last_call(states, steps, i, j - 1);
        assert(states[j].next(states[j + 1], steps[j]));
        calls_follow_the_life(states, steps, j as nat);
    }
}

/// The operations of a mutex are steps in the life of the object at the address it was made for,
/// and the value that it was made with comes to protection there.
pub proof fn a_mutex_lives_at_one_address<'a, 'v, T, B: Backend>(
    value: T,
    raw: Addr<B::RawMutex>,
    making: Pending<'static, B, (Mutex<T, B>, Protected<T, B>)>,
    code: i32,
    made: Result<(Mutex<T, B>, Protected<T, B>), Failure>,
    locking: Pending<'a, B, Locked<'a, T, B>>,
    guard: MutexGuard<'a, 'v, T, B>,
    unlocking: Pending<'a, B, ()>,
    protected: Protected<T, B>,
    ended: Result<Ending<B, T>, (Mutex<T, B>, Protected<T, B>)>,
    life: Life,
)
    requires
        life.object == Object::Mutex(raw@),
        call_ensures(Mutex::<T, B>::new, (value, raw), making),
        call_ensures(
            Pending::<'static, B, (Mutex<T, B>, Protected<T, B>)>::resume,
            (making, code),
            made,
        ),
        made is Ok ==> {
            &&& call_ensures(Mutex::<T, B>::lock, (&made->Ok_0.0,), locking)
            &&& guard.mutex() == locking.yields().mutex()
            &&& call_ensures(MutexGuard::<'a, 'v, T, B>::drop, (guard,), unlocking)
            &&& protected.raw() == made->Ok_0.1.raw()
            &&& call_ensures(Mutex::<T, B>::drop, (made->Ok_0.0, protected), ended)
        },
    ensures
        life.is_initial() ==> life.next(
            Life { stage: Stage::Making, ..life },
            Step::<B>::Make(making.requested()),
        ),
        life.stage is Making ==> life.next(
            Life {
                stage: if made is Ok {
                    Stage::Alive
                } else {
                    Stage::Failed
                },
                ..life
            },
            Step::<B>::Made(code),
        ),
        made is Ok ==> made->Ok_0.1.value() == value,
        made is Ok && life.stage is Alive ==> {
            &&& life.next(
                Life { out: life.out + 1, ..life },
                Step::<B>::Use(locking.requested()),
            )
            &&& life.next(
                Life { out: life.out + 1, ..life },
                Step::<B>::Use(unlocking.requested()),
            )
        },
        made is Ok ==> ended is Ok && ended->Ok_0.left() == protected.value(),
        made is Ok && life.stage is Alive && life.out == 0 ==> life.next(
            Life { stage: Stage::Ended, ..life },
            Step::<B>::End(ended->Ok_0.requested()),
        ),
{
    B::call_serves_request(Request::InitMutex { mutex: raw });
    B::call_serves_request(Request::LockMutex { mutex: raw });
    B::call_serves_request(Request::UnlockMutex { mutex: raw });
    B::call_serves_request(Request::DestroyMutex { mutex: raw });
}

/// The operations of a condition variable are steps in the life of the object at the address it was
/// made for, and a wait is one in the life of the mutex too.
pub proof fn a_condvar_lives_at_one_address<'c, 'a, 'v, T, B: Backend>(
    raw: Addr<B::RawCondvar>,
    making: Pending<'static, B, Condvar<B>>,
    code: i32,
    made: Result<Condvar<B>, Failure>,
    guard: MutexGuard<'a, 'v, T, B>,
    waiting: Pending<'c, B, Locked<'a, T, B>>,
    signalling: Pending<'c, B, ()>,
    broadcasting: Pending<'c, B, ()>,
    ending: Ending<B, ()>,
    life: Life,
)
    requires
        life.object == Object::Condvar(raw@),
        call_ensures(Condvar::<B>::new, (raw,), making),
        call_ensures(Pending::<'static, B, Condvar<B>>::resume, (making, code), made),
        made is Ok ==> {
            &&& call_ensures(Condvar::<B>::wait::<T>, (&made->Ok_0, guard), waiting)
            &&& call_ensures(Condvar::<B>::notify_one, (&made->Ok_0,), signalling)
            &&& call_ensures(Condvar::<B>::notify_all, (&made->Ok_0,), broadcasting)
            &&& call_ensures(Condvar::<B>::drop, (made->Ok_0,), ending)
        },
    ensures
        life.is_initial() ==> life.next(
            Life { stage: Stage::Making, ..life },
            Step::<B>::Make(making.requested()),
        ),
        life.stage is Making ==> life.next(
            Life {
                stage: if made is Ok {
                    Stage::Alive
                } else {
                    Stage::Failed
                },
                ..life
            },
            Step::<B>::Made(code),
        ),
        made is Ok && life.stage is Alive ==> {
            let used = Life { out: life.out + 1, ..life };
            &&& life.next(used, Step::<B>::Use(waiting.requested()))
            &&& life.next(used, Step::<B>::Use(signalling.requested()))
            &&& life.next(used, Step::<B>::Use(broadcasting.requested()))
            &&& Object::Mutex(guard.mutex().raw()@).is_use(B::effect(waiting.requested()))
        },
        made is Ok && life.stage is Alive && life.out == 0 ==> life.next(
            Life { stage: Stage::Ended, ..life },
            Step::<B>::End(ending.requested()),
        ),
{
    B::call_serves_request(Request::InitCondvar { condvar: raw });
    B::call_serves_request(Request::WaitCondvar { condvar: raw, mutex: guard.mutex().raw() });
    B::call_serves_request(Request::SignalCondvar { condvar: raw });
    B::call_serves_request(Request::BroadcastCondvar { condvar: raw });
    B::call_serves_request(Request::DestroyCondvar { condvar: raw });
}

/// Mutexes made at different addresses never have the same address.
pub proof fn mutexes_stay_apart<T, U, B: Backend>(
    value: T,
    raw: Addr<B::RawMutex>,
    making: Pending<'static, B, (Mutex<T, B>, Protected<T, B>)>,
    made: (Mutex<T, B>, Protected<T, B>),
    other_value: U,
    other_raw: Addr<B::RawMutex>,
    other_making: Pending<'static, B, (Mutex<U, B>, Protected<U, B>)>,
    other: (Mutex<U, B>, Protected<U, B>),
)
    requires
        raw@ != other_raw@,
        call_ensures(Mutex::<T, B>::new, (value, raw), making),
        call_ensures(
            Pending::<'static, B, (Mutex<T, B>, Protected<T, B>)>::resume,
            (making, 0i32),
            Ok::<(Mutex<T, B>, Protected<T, B>), Failure>(made),
        ),
        call_ensures(Mutex::<U, B>::new, (other_value, other_raw), other_making),
        call_ensures(
            Pending::<'static, B, (Mutex<U, B>, Protected<U, B>)>::resume,
            (other_making, 0i32),
            Ok::<(Mutex<U, B>, Protected<U, B>), Failure>(other),
        ),
    ensures
        made.0.raw()@ == raw@,
        other.0.raw()@ == other_raw@,
        made.0.raw() != other.0.raw(),
{
}

/// Condition variables made at different addresses never have the same address.
pub proof fn condvars_stay_apart<B: Backend>(
    raw: Addr<B::RawCondvar>,
    making: Pending<'static, B, Condvar<B>>,
    condvar: Condvar<B>,
    other_raw: Addr<B::RawCondvar>,
    other_making: Pending<'static, B, Condvar<B>>,
    other: Condvar<B>,
)
    requires
        raw@ != other_raw@,
        call_ensures(Condvar::<B>::new, (raw,), making),
        call_ensures(
            Pending::<'static, B, Condvar<B>>::resume,
            (making, 0i32),
            Ok::<Condvar<B>, Failure>(condvar),
        ),
        call_ensures(Condvar::<B>::new, (other_raw,), other_making),
        call_ensures(
            Pending::<'static, B, Condvar<B>>::resume,
            (other_making, 0i32),
            Ok::<Condvar<B>, Failure>(other),
        ),
    ensures
        condvar.raw()@ == raw@,
        other.raw()@ == other_raw@,
        condvar.raw() != other.raw(),
{
}

} // verus!
