//! Condition variables.

use crate::addr::Addr;
use crate::backend::Backend;
use crate::call::Request;
use crate::mutex::{Locked, MutexGuard};
use crate::pending::{Ending, Pending};
use std::marker::PhantomData;
use vstd::prelude::*;

verus! {

/// A foreign condition variable.
pub struct Condvar<B: Backend> {
    raw: Addr<B::RawCondvar>,
    _backend: PhantomData<B>,
}

impl<B: Backend> Condvar<B> {
    /// Where the foreign condition variable lives.
    pub closed spec fn raw(self) -> Addr<B::RawCondvar> {
        self.raw
    }

    /// Makes a condition variable from the memory at `raw`, which the call initialises.
    pub fn new(raw: Addr<B::RawCondvar>) -> (pending: Pending<'static, B, Self>)
        ensures
            pending.requested() == B::call_for(Request::InitCondvar { condvar: raw }),
            pending.yields().raw() == raw,
    {
        Pending::new(B::init_condvar(raw), Condvar { raw, _backend: PhantomData })
    }

    /// Waits to be notified. The guard is given up for the time of the call, without an unlock of
    /// the library's own, and the right to open the value of the same mutex comes back.
    pub fn wait<'c, 'a, 'v, T>(&'c self, guard: MutexGuard<'a, 'v, T, B>) -> (pending: Pending<
        'c,
        B,
        Locked<'a, T, B>,
    >)
        ensures
            pending.requested() == B::call_for(
                Request::WaitCondvar { condvar: self.raw(), mutex: guard.mutex().raw() },
            ),
            pending.yields().mutex() == guard.mutex(),
            pending.yields().history() == guard.history().push(pending.requested()),
            crate::session::holds::<B>(pending.yields().history(), guard.mutex().raw()@),
            *final(guard.protected()) == *guard.protected(),
    {
        let ghost history = guard.history();
        let mutex = guard.into_mutex();
        let call = B::wait_condvar(self.raw_addr(), mutex.raw_addr());
        proof {
            B::call_serves_request(
                Request::WaitCondvar { condvar: self.raw, mutex: mutex.raw() },
            );
        }
        Pending::new(call, Locked::new(mutex, Ghost(history.push(call))))
    }

    /// Wakes one of those that wait.
    pub fn notify_one(&self) -> (pending: Pending<'_, B, ()>)
        ensures
            pending.requested() == B::call_for(Request::SignalCondvar { condvar: self.raw() }),
    {
        Pending::new(B::signal_condvar(self.raw_addr()), ())
    }

    /// Wakes all of those that wait.
    pub fn notify_all(&self) -> (pending: Pending<'_, B, ()>)
        ensures
            pending.requested() == B::call_for(Request::BroadcastCondvar { condvar: self.raw() }),
    {
        Pending::new(B::broadcast_condvar(self.raw_addr()), ())
    }

    /// Ends the condition variable: the foreign one is to be destroyed, and nothing is left.
    pub fn drop(self) -> (ending: Ending<B, ()>)
        ensures
            ending.requested() == B::call_for(Request::DestroyCondvar { condvar: self.raw() }),
    {
        Ending::new(B::destroy_condvar(self.raw_addr()), ())
    }

    fn raw_addr(&self) -> (raw: Addr<B::RawCondvar>)
        ensures
            raw == self.raw(),
    {
        self.raw
    }
}

} // verus!
