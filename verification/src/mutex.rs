//! Mutexes, the values that they protect, and the guards of locked mutexes.

use crate::addr::Addr;
use crate::backend::Backend;
use crate::call::Request;
use crate::pending::{Ending, Pending};
use std::marker::PhantomData;
use std::ops::{Deref, DerefMut};
use std::rc::Rc;
use vstd::prelude::*;

verus! {

/// A foreign mutex that protects a `T`. It may be shared: the value stands apart, as a
/// [`Protected`].
pub struct Mutex<T, B: Backend> {
    raw: Addr<B::RawMutex>,
    _value: PhantomData<T>,
    _backend: PhantomData<B>,
}

impl<T, B: Backend> Mutex<T, B> {
    /// Where the foreign mutex lives.
    pub closed spec fn raw(self) -> Addr<B::RawMutex> {
        self.raw
    }

    /// Makes a mutex from the memory at `raw`, which the call initialises, and puts `value` under
    /// its protection.
    pub fn new(value: T, raw: Addr<B::RawMutex>) -> (pending: Pending<
        'static,
        B,
        (Self, Protected<T, B>),
    >)
        ensures
            pending.requested() == B::call_for(Request::InitMutex { mutex: raw }),
            pending.yields().0.raw() == raw,
            pending.yields().1.raw() == raw,
            pending.yields().1.value() == value,
    {
        let mutex = Mutex { raw, _value: PhantomData, _backend: PhantomData };
        Pending::new(B::init_mutex(raw), (mutex, Protected { raw, value }))
    }

    /// Locks the mutex, for the right to open its value.
    pub fn lock(&self) -> (pending: Pending<'_, B, Locked<'_, T, B>>)
        ensures
            pending.requested() == B::call_for(Request::LockMutex { mutex: self.raw() }),
            pending.yields().mutex() == *self,
            pending.yields().history() == seq![pending.requested()],
            crate::session::holds::<B>(pending.yields().history(), self.raw()@),
    {
        let call = B::lock_mutex(self.raw_addr());
        let ghost history = seq![call];
        proof {
            B::call_serves_request(Request::LockMutex { mutex: self.raw });
        }
        Pending::new(call, Locked::new(self, Ghost(history)))
    }

    /// Ends the mutex: the foreign mutex is to be destroyed, and the value that it protects
    /// outlives it. With a value that another mutex protects there is no end, and both come back.
    pub fn drop(self, protected: Protected<T, B>) -> (ended: Result<
        Ending<B, T>,
        (Self, Protected<T, B>),
    >)
        ensures
            protected.raw()@ == self.raw()@ ==> {
                &&& ended is Ok
                &&& ended->Ok_0.requested() == B::call_for(
                    Request::DestroyMutex { mutex: self.raw() },
                )
                &&& ended->Ok_0.left() == protected.value()
            },
            protected.raw()@ != self.raw()@ ==> ended == Err::<
                Ending<B, T>,
                (Self, Protected<T, B>),
            >((self, protected)),
    {
        if protected.raw.addr() == self.raw.addr() {
            Ok(Ending::new(B::destroy_mutex(self.raw_addr()), protected.value))
        } else {
            Err((self, protected))
        }
    }

    pub(crate) fn raw_addr(&self) -> (raw: Addr<B::RawMutex>)
        ensures
            raw == self.raw(),
    {
        self.raw
    }
}

/// A value under the protection of a mutex. Nothing but a guard opens it.
pub struct Protected<T, B: Backend> {
    raw: Addr<B::RawMutex>,
    value: T,
}

impl<T, B: Backend> Protected<T, B> {
    /// Where the mutex lives that protects the value.
    pub closed spec fn raw(self) -> Addr<B::RawMutex> {
        self.raw
    }

    /// The value.
    pub closed spec fn value(self) -> T {
        self.value
    }
}

/// The right to open the value of a locked mutex. Its thread may not pass it on to another.
#[must_use]
pub struct Locked<'a, T, B: Backend> {
    mutex: &'a Mutex<T, B>,
    history: Ghost<Seq<B::Call>>,
    _not_send: PhantomData<Rc<()>>,
}

impl<'a, T, B: Backend> Locked<'a, T, B> {
    /// The mutex that is locked.
    pub closed spec fn mutex(self) -> Mutex<T, B> {
        *self.mutex
    }

    /// The calls by which the right came about.
    pub closed spec fn history(self) -> Seq<B::Call> {
        self.history@
    }

    /// Every such right came of locking the mutex, and has only been waited with since.
    #[verifier::type_invariant]
    closed spec fn wf(self) -> bool {
        crate::session::holds::<B>(self.history@, self.mutex.raw@)
    }

    pub(crate) fn new(mutex: &'a Mutex<T, B>, history: Ghost<Seq<B::Call>>) -> (locked: Self)
        requires
            crate::session::holds::<B>(history@, mutex.raw()@),
        ensures
            locked.mutex() == *mutex,
            locked.history() == history@,
    {
        Locked { mutex, history, _not_send: PhantomData }
    }

    /// Opens the value that the locked mutex protects. A value that another mutex protects stays
    /// closed, and the right comes back.
    pub fn open<'v>(self, protected: &'v mut Protected<T, B>) -> (opened: Result<
        MutexGuard<'a, 'v, T, B>,
        Self,
    >)
        ensures
            old(protected).raw()@ == self.mutex().raw()@ ==> {
                &&& opened is Ok
                &&& opened->Ok_0.locked() == self
                &&& *opened->Ok_0.protected() == *old(protected)
                &&& *final(opened->Ok_0.protected()) == *final(protected)
            },
            old(protected).raw()@ != self.mutex().raw()@ ==> {
                &&& opened == Err::<MutexGuard<'a, 'v, T, B>, Self>(self)
                &&& *final(protected) == *old(protected)
            },
    {
        if protected.raw.addr() == self.mutex.raw.addr() {
            Ok(MutexGuard { locked: self, protected })
        } else {
            Err(self)
        }
    }
}

/// The access to the value of a locked mutex.
#[must_use]
pub struct MutexGuard<'a, 'v, T, B: Backend> {
    locked: Locked<'a, T, B>,
    protected: &'v mut Protected<T, B>,
}

impl<'a, 'v, T, B: Backend> MutexGuard<'a, 'v, T, B> {
    /// The right by which the value was opened.
    pub closed spec fn locked(self) -> Locked<'a, T, B> {
        self.locked
    }

    /// What was opened.
    pub closed spec fn protected(self) -> &'v mut Protected<T, B> {
        self.protected
    }

    /// The mutex that is locked.
    pub open spec fn mutex(self) -> Mutex<T, B> {
        self.locked().mutex()
    }

    /// The calls by which the guard came about.
    pub open spec fn history(self) -> Seq<B::Call> {
        self.locked().history()
    }

    /// The value, as it is now.
    pub open spec fn value(self) -> T {
        self.protected().value()
    }

    /// Gives the guard up without unlocking its mutex. The value stays as it is.
    pub(crate) fn into_mutex(self) -> (mutex: &'a Mutex<T, B>)
        ensures
            *mutex == self.mutex(),
            crate::session::holds::<B>(self.history(), mutex.raw()@),
            *final(self.protected()) == *self.protected(),
    {
        proof {
            use_type_invariant(&self.locked);
        }
        self.locked.mutex
    }

    /// Unlocks the mutex, which ends the guard. The value stays as it is.
    pub fn drop(self) -> (pending: Pending<'a, B, ()>)
        ensures
            pending.requested() == B::call_for(
                Request::UnlockMutex { mutex: self.mutex().raw() },
            ),
            crate::session::gives_back::<B>(
                self.history().push(pending.requested()),
                self.mutex().raw()@,
            ),
            *final(self.protected()) == *self.protected(),
    {
        let ghost history = self.history();
        let mutex = self.into_mutex();
        let call = B::unlock_mutex(mutex.raw_addr());
        proof {
            B::call_serves_request(Request::UnlockMutex { mutex: mutex.raw });
            assert(history.push(call).drop_last() =~= history);
        }
        Pending::new(call, ())
    }
}

impl<T, B: Backend> Deref for MutexGuard<'_, '_, T, B> {
    type Target = T;

    /// Shows the value of the locked mutex.
    fn deref(&self) -> (value: &T)
        ensures
            *value == self.value(),
    {
        &self.protected.value
    }
}

impl<T, B: Backend> DerefMut for MutexGuard<'_, '_, T, B> {
    /// Lets the value of the locked mutex be written, and changes nothing else.
    fn deref_mut(&mut self) -> (value: &mut T)
        ensures
            *value == old(self).value(),
            final(self).value() == *final(value),
            final(self).locked() == old(self).locked(),
            final(self).protected().raw() == old(self).protected().raw(),
            *final(final(self).protected()) == *final(old(self).protected()),
    {
        &mut self.protected.value
    }
}

} // verus!
