//! What the guards of one mutex are worth when many of them are asked for at a time. To have a
//! guard means here to have the right to one, opened or not.
//!
//! The users of a mutex take their steps in any order. Three things are supposed. The foreign mutex
//! grants itself only while it is free. A user who calls to wait or to unlock may lose it from that
//! moment on. The value is written only through a guard. From this and from the order of calls that
//! guards keep to, it follows that no two guards exist at a time, so that nobody changes the value
//! under the one guard, and that what one guard leaves is what the next one finds.

use crate::backend::Backend;
use crate::call::Effect;
use crate::session::Phase;
use vstd::prelude::*;

verus! {

/// A step of one user of the mutex.
pub enum Event<V, B: Backend> {
    /// The user makes a foreign call.
    Issue(B::Call),
    /// The foreign call that the user made returns this code.
    Return(i32),
    /// The user writes the value through the guard.
    Write(V),
}

/// A mutex with all its users.
pub struct Arena<V> {
    /// The address of the foreign mutex.
    pub mutex: usize,
    /// The phases of the users, by their numbers; the others have asked for nothing.
    pub phases: Map<int, Phase>,
    /// To whom the foreign mutex has granted itself.
    pub owner: Option<int>,
    /// The protected value.
    pub value: V,
}

impl<V> Arena<V> {
    pub open spec fn phase(self, user: int) -> Phase {
        if self.phases.contains_key(user) {
            self.phases[user]
        } else {
            Phase::Fresh
        }
    }

    /// A new mutex, which nobody has asked for.
    pub open spec fn is_initial(self) -> bool {
        &&& self.phases == Map::<int, Phase>::empty()
        &&& self.owner is None
    }

    /// The arena after a user's call. With any call but a lock the user may lose the mutex.
    pub open spec fn after_call(self, user: int, phase: Phase) -> Self {
        Arena {
            phases: self.phases.insert(user, phase),
            owner: if phase is Locking {
                self.owner
            } else {
                None
            },
            ..self
        }
    }

    /// The arena after the return of a user's call. With a guard the mutex is granted.
    pub open spec fn after_return(self, user: int, phase: Phase) -> Self {
        Arena {
            phases: self.phases.insert(user, phase),
            owner: if phase is Held {
                Some(user)
            } else {
                self.owner
            },
            ..self
        }
    }

    /// The arena after a write.
    pub open spec fn after_write(self, value: V) -> Self {
        Arena { value, ..self }
    }

    /// One step of one user.
    pub open spec fn next<B: Backend>(self, post: Self, user: int, event: Event<V, B>) -> bool {
        match event {
            Event::Issue(call) => {
                match crate::session::phase_after_call(
                    self.phase(user),
                    B::effect(call),
                    self.mutex,
                ) {
                    Some(phase) => post == self.after_call(user, phase),
                    None => false,
                }
            },
            Event::Return(code) => {
                match crate::session::phase_after_return(self.phase(user), code) {
                    Some(phase) => {
                        &&& phase is Held ==> self.owner is None
                        &&& post == self.after_return(user, phase)
                    },
                    None => false,
                }
            },
            Event::Write(value) => {
                &&& self.phase(user) is Held
                &&& post == self.after_write(value)
            },
        }
    }

    /// There is a guard exactly where the foreign mutex has granted itself.
    pub open spec fn is_exclusive(self) -> bool {
        forall|user: int| (#[trigger] self.phase(user)) is Held <==> self.owner == Some(user)
    }
}

/// The arena goes through `states`, by the steps of `events`.
pub open spec fn execution<V, B: Backend>(states: Seq<Arena<V>>, events: Seq<(int, Event<V, B>)>) -> bool {
    &&& states.len() == events.len() + 1
    &&& states[0].is_initial()
    &&& forall|i: int|
        0 <= i < events.len() ==> states[i].next(
            states[i + 1],
            (#[trigger] events[i]).0,
            events[i].1,
        )
}

/// The calls that a user makes in the first `n` events.
pub open spec fn calls_of<V, B: Backend>(events: Seq<(int, Event<V, B>)>, n: nat, user: int) -> Seq<B::Call>
    decreases n,
{
    if n == 0 {
        seq![]
    } else {
        let before = calls_of(events, (n - 1) as nat, user);
        match events[n - 1] {
            (u, Event::Issue(call)) if u == user => before.push(call),
            _ => before,
        }
    }
}

/// A step keeps guards and grants together.
pub proof fn step_keeps_exclusive<V, B: Backend>(pre: Arena<V>, post: Arena<V>, user: int, event: Event<V, B>)
    requires
        pre.is_exclusive(),
        pre.next(post, user, event),
    ensures
        post.is_exclusive(),
        post.mutex == pre.mutex,
{
    assert(pre.phase(user) is Held <==> pre.owner == Some(user));
    assert forall|u: int| (#[trigger] post.phase(u)) is Held <==> post.owner == Some(u) by {
        assert(pre.phase(u) is Held <==> pre.owner == Some(u));
    }
}

/// Throughout an execution there is a guard exactly where the foreign mutex has granted itself.
pub proof fn always_exclusive<V, B: Backend>(states: Seq<Arena<V>>, events: Seq<(int, Event<V, B>)>, i: int)
    requires
        execution(states, events),
        0 <= i < states.len(),
    ensures
        states[i].is_exclusive(),
        states[i].mutex == states[0].mutex,
    decreases i,
{
    if i > 0 {
        always_exclusive(states, events, i - 1);
        let (user, event) = events[i - 1];
        step_keeps_exclusive(states[i - 1], states[i], user, event);
    }
}

/// No two users have a guard of the same mutex at the same time.
pub proof fn one_guard_at_a_time<V, B: Backend>(
    states: Seq<Arena<V>>,
    events: Seq<(int, Event<V, B>)>,
    i: int,
    a: int,
    b: int,
)
    requires
        execution(states, events),
        0 <= i < states.len(),
        states[i].phase(a) is Held,
        states[i].phase(b) is Held,
    ensures
        a == b,
{
    always_exclusive(states, events, i);
}

/// A mutex is waited with and unlocked only by the user it was granted to.
pub proof fn only_the_owner_releases<V, B: Backend>(
    states: Seq<Arena<V>>,
    events: Seq<(int, Event<V, B>)>,
    i: int,
    call: B::Call,
)
    requires
        execution(states, events),
        0 <= i < events.len(),
        events[i].1 == Event::<V, B>::Issue(call),
        B::effect(call) is UnlockMutex || B::effect(call) is WaitCondvar,
    ensures
        states[i].owner == Some(events[i].0),
{
    always_exclusive(states, events, i);
    let (user, event) = events[i];
    assert(states[i].phase(user) is Held);
}

/// Every user calls in the order that guards keep to: one lock, then waits, then at most one
/// unlock, after which nothing follows. A guard is there only after a lock and waits.
pub proof fn calls_keep_order<V, B: Backend>(
    states: Seq<Arena<V>>,
    events: Seq<(int, Event<V, B>)>,
    i: nat,
    user: int,
)
    requires
        execution(states, events),
        i < states.len(),
    ensures
        match states[i as int].phase(user) {
            Phase::Fresh => calls_of(events, i, user).len() == 0,
            Phase::Locking | Phase::Held | Phase::Waiting => crate::session::holds::<B>(
                calls_of(events, i, user),
                states[0].mutex,
            ),
            Phase::Unlocking | Phase::Ended => crate::session::gives_back::<B>(
                calls_of(events, i, user),
                states[0].mutex,
            ),
            Phase::Failed => {
                ||| crate::session::holds::<B>(calls_of(events, i, user), states[0].mutex)
                ||| crate::session::gives_back::<B>(calls_of(events, i, user), states[0].mutex)
            },
        },
    decreases i,
{
    if i > 0 {
        let n = (i - 1) as nat;
        calls_keep_order(states, events, n, user);
        always_exclusive(states, events, n as int);
        let before = calls_of(events, n, user);
        let (u, event) = events[n as int];
        assert(states[n as int].next(states[i as int], u, event));
        if u == user {
            match event {
                Event::Issue(call) => {
                    assert(before.push(call).drop_last() =~= before);
                    assert(calls_of(events, i, user) == before.push(call));
                },
                _ => {
                    assert(calls_of(events, i, user) == before);
                },
            }
        }
    }
}

/// While a user has the guard, the steps of others change neither that nor the value.
pub proof fn others_leave_the_value<V, B: Backend>(
    pre: Arena<V>,
    post: Arena<V>,
    holder: int,
    user: int,
    event: Event<V, B>,
)
    requires
        pre.is_exclusive(),
        pre.phase(holder) is Held,
        user != holder,
        pre.next(post, user, event),
    ensures
        post.phase(holder) is Held,
        post.value == pre.value,
{
    assert(pre.phase(user) is Held <==> pre.owner == Some(user));
}

/// What a user wrote is what the user reads, for as long as the user takes no further step, no
/// matter what others do.
pub proof fn a_write_is_read_back<V, B: Backend>(
    states: Seq<Arena<V>>,
    events: Seq<(int, Event<V, B>)>,
    i: int,
    j: int,
    value: V,
)
    requires
        execution(states, events),
        0 <= i < j < states.len(),
        events[i].1 == Event::<V, B>::Write(value),
        forall|k: int| i < k < j ==> (#[trigger] events[k]).0 != events[i].0,
    ensures
        states[j].phase(events[i].0) is Held,
        states[j].value == value,
    decreases j,
{
    let writer = events[i].0;
    if j > i + 1 {
        a_write_is_read_back(states, events, i, j - 1, value);
        always_exclusive(states, events, j - 1);
        let (user, event) = events[j - 1];
        others_leave_the_value(states[j - 1], states[j], writer, user, event);
    } else {
        assert(states[i].next(states[j], writer, events[i].1));
    }
}

/// What one guard leaves is what the next one finds: the value stays as it is for as long as the
/// mutex is granted to nobody.
pub proof fn a_free_mutex_keeps_the_value<V, B: Backend>(
    states: Seq<Arena<V>>,
    events: Seq<(int, Event<V, B>)>,
    i: int,
    j: int,
)
    requires
        execution(states, events),
        0 <= i <= j < states.len(),
        forall|k: int| i <= k < j ==> (#[trigger] states[k]).owner is None,
    ensures
        states[j].value == states[i].value,
    decreases j,
{
    if j > i {
        a_free_mutex_keeps_the_value(states, events, i, j - 1);
        always_exclusive(states, events, j - 1);
        let (user, event) = events[j - 1];
        assert(states[j - 1].next(states[j], user, event));
        assert(states[j - 1].phase(user) is Held <==> states[j - 1].owner == Some(user));
    }
}

/// What a guard leaves when it waits or unlocks is what the next guard finds, whoever has it: the
/// value is the same from the step that gives the mutex up until it has been granted again.
pub proof fn the_value_is_handed_over<V, B: Backend>(
    states: Seq<Arena<V>>,
    events: Seq<(int, Event<V, B>)>,
    i: int,
    j: int,
)
    requires
        execution(states, events),
        0 <= i < j < states.len(),
        states[i].phase(events[i].0) is Held,
        events[i].1 is Issue,
        forall|k: int| i < k < j ==> (#[trigger] states[k]).owner is None,
    ensures
        states[j].value == states[i].value,
{
    let (user, event) = events[i];
    assert(states[i].next(states[i + 1], user, event));
    a_free_mutex_keeps_the_value(states, events, i + 1, j);
}

} // verus!
