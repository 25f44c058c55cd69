//! Which routine each operation calls, backend by backend and routine by routine.

use crate::addr::Addr;
use crate::backend::{
    Backend, LibcBackend, LlvmNewBackend, LlvmOldBackend, MuslBackend, MuslWakeBackend,
};
use crate::call::{Call, Request};
use crate::condvar::Condvar;
use crate::mutex::{Locked, Mutex, MutexGuard, Protected};
use crate::pending::{Ending, Pending};
use crate::raw::{RawLlvmMutex, RawLlvmNewCondvar, RawLlvmOldCondvar, RawMuslCondvar, RawMuslMutex};
use vstd::prelude::*;

verus! {

/// Every call of a backend is a routine of that backend's own implementation, whatever is asked and
/// of whatever addresses: the LLVM backends call the mutex routines of LLVM about mutexes, and each
/// the condition variable routines of its own version about condition variables.
pub proof fn calls_belong_to_their_backend(
    musl: Request<RawMuslMutex, RawMuslCondvar>,
    wake: Request<RawMuslMutex, RawMuslCondvar>,
    system: Request<libc::pthread_mutex_t, libc::pthread_cond_t>,
    old_llvm: Request<RawLlvmMutex, RawLlvmOldCondvar>,
    new_llvm: Request<RawLlvmMutex, RawLlvmNewCondvar>,
)
    ensures
        MuslBackend::call_for(musl).family() is Musl,
        MuslWakeBackend::call_for(wake).family() is MuslWake,
        LibcBackend::call_for(system).family() is Pthread,
        old_llvm.effect().on_condvar() is None ==> LlvmOldBackend::call_for(
            old_llvm,
        ).family() is LlvmMutex,
        old_llvm.effect().on_condvar() is Some ==> LlvmOldBackend::call_for(
            old_llvm,
        ).family() is LlvmOldCondvar,
        new_llvm.effect().on_condvar() is None ==> LlvmNewBackend::call_for(
            new_llvm,
        ).family() is LlvmMutex,
        new_llvm.effect().on_condvar() is Some ==> LlvmNewBackend::call_for(
            new_llvm,
        ).family() is LlvmNewCondvar,
{
}

/// Whatever is asked of the system and of whatever addresses, a mutex or condition variable is
/// initialised with the null attributes, that is with the default ones, and no other call hands
/// over attributes.
pub proof fn system_objects_have_default_attributes(
    request: Request<libc::pthread_mutex_t, libc::pthread_cond_t>,
)
    ensures
        request is InitMutex || request is InitCondvar ==> LibcBackend::call_for(
            request,
        ).attributes() == Some(0usize),
        !(request is InitMutex || request is InitCondvar) ==> LibcBackend::call_for(
            request,
        ).attributes() is None,
{
    Addr::<()>::address_shows_number(0);
}

/// A new system mutex and a new system condition variable are asked for by `pthread_mutex_init` and
/// `pthread_cond_init` with null attributes, at the addresses they are made for.
pub proof fn new_system_objects_are_default_ones<T>(
    value: T,
    mutex: Addr<libc::pthread_mutex_t>,
    making_mutex: Pending<
        'static,
        LibcBackend,
        (Mutex<T, LibcBackend>, Protected<T, LibcBackend>),
    >,
    condvar: Addr<libc::pthread_cond_t>,
    making_condvar: Pending<'static, LibcBackend, Condvar<LibcBackend>>,
)
    requires
        call_ensures(Mutex::<T, LibcBackend>::new, (value, mutex), making_mutex),
        call_ensures(Condvar::<LibcBackend>::new, (condvar,), making_condvar),
    ensures
        making_mutex.requested() matches Call::PthreadMutexInit { mutex: m, attr } && m == mutex
            && attr@ == 0,
        making_condvar.requested() matches Call::PthreadCondInit { condvar: c, attr } && c
            == condvar && attr@ == 0,
{
    Addr::<()>::address_shows_number(0);
}

/// What the backend of musl asks for, request by request:
/// the routine of that name, on just the addresses that were given.
pub proof fn musl_requests(
    mutex: Addr<RawMuslMutex>,
    condvar: Addr<RawMuslCondvar>,
    init_mutex: Call,
    destroy_mutex: Call,
    lock_mutex: Call,
    unlock_mutex: Call,
    init_condvar: Call,
    destroy_condvar: Call,
    wait_condvar: Call,
    signal_condvar: Call,
    broadcast_condvar: Call,
)
    requires
        call_ensures(MuslBackend::init_mutex, (mutex,), init_mutex),
        call_ensures(MuslBackend::destroy_mutex, (mutex,), destroy_mutex),
        call_ensures(MuslBackend::lock_mutex, (mutex,), lock_mutex),
        call_ensures(MuslBackend::unlock_mutex, (mutex,), unlock_mutex),
        call_ensures(MuslBackend::init_condvar, (condvar,), init_condvar),
        call_ensures(MuslBackend::destroy_condvar, (condvar,), destroy_condvar),
        call_ensures(MuslBackend::wait_condvar, (condvar, mutex), wait_condvar),
        call_ensures(MuslBackend::signal_condvar, (condvar,), signal_condvar),
        call_ensures(MuslBackend::broadcast_condvar, (condvar,), broadcast_condvar),
    ensures
        init_mutex == (Call::CvMutexInit { mutex }),
        MuslBackend::call_for(Request::InitMutex { mutex }) == (Call::CvMutexInit { mutex }),
        destroy_mutex == (Call::CvMutexDestroy { mutex }),
        MuslBackend::call_for(Request::DestroyMutex { mutex }) == (Call::CvMutexDestroy { mutex }),
        lock_mutex == (Call::CvMutexLock { mutex }),
        MuslBackend::call_for(Request::LockMutex { mutex }) == (Call::CvMutexLock { mutex }),
        unlock_mutex == (Call::CvMutexUnlock { mutex }),
        MuslBackend::call_for(Request::UnlockMutex { mutex }) == (Call::CvMutexUnlock { mutex }),
        init_condvar == (Call::CvCondInit { condvar }),
        MuslBackend::call_for(Request::InitCondvar { condvar }) == (Call::CvCondInit { condvar }),
        destroy_condvar == (Call::CvCondDestroy { condvar }),
        MuslBackend::call_for(Request::DestroyCondvar { condvar }) == (Call::CvCondDestroy { condvar }),
        wait_condvar == (Call::CvCondWait { condvar, mutex }),
        MuslBackend::call_for(Request::WaitCondvar { condvar, mutex }) == (Call::CvCondWait { condvar, mutex }),
        signal_condvar == (Call::CvCondSignal { condvar }),
        MuslBackend::call_for(Request::SignalCondvar { condvar }) == (Call::CvCondSignal { condvar }),
        broadcast_condvar == (Call::CvCondBroadcast { condvar }),
        MuslBackend::call_for(Request::BroadcastCondvar { condvar }) == (Call::CvCondBroadcast { condvar }),
{
}

/// What the operations on the objects of musl ask for.
pub proof fn musl_operations<'a, 'v, 'c, T>(
    value: T,
    raw: Addr<RawMuslMutex>,
    making_mutex: Pending<'static, MuslBackend, (Mutex<T, MuslBackend>, Protected<T, MuslBackend>)>,
    mutex: Mutex<T, MuslBackend>,
    locking: Pending<'a, MuslBackend, Locked<'a, T, MuslBackend>>,
    guard: MutexGuard<'a, 'v, T, MuslBackend>,
    unlocking: Pending<'a, MuslBackend, ()>,
    protected: Protected<T, MuslBackend>,
    ending_mutex: Ending<MuslBackend, T>,
    raw_condvar: Addr<RawMuslCondvar>,
    making_condvar: Pending<'static, MuslBackend, Condvar<MuslBackend>>,
    condvar: Condvar<MuslBackend>,
    waiting: Pending<'c, MuslBackend, Locked<'a, T, MuslBackend>>,
    signalling: Pending<'c, MuslBackend, ()>,
    broadcasting: Pending<'c, MuslBackend, ()>,
    ending_condvar: Ending<MuslBackend, ()>,
)
    requires
        call_ensures(Mutex::<T, MuslBackend>::new, (value, raw), making_mutex),
        call_ensures(Mutex::<T, MuslBackend>::lock, (&mutex,), locking),
        call_ensures(MutexGuard::<'a, 'v, T, MuslBackend>::drop, (guard,), unlocking),
        call_ensures(
            Mutex::<T, MuslBackend>::drop,
            (mutex, protected),
            Ok::<Ending<MuslBackend, T>, (Mutex<T, MuslBackend>, Protected<T, MuslBackend>)>(ending_mutex),
        ),
        call_ensures(Condvar::<MuslBackend>::new, (raw_condvar,), making_condvar),
        call_ensures(Condvar::<MuslBackend>::wait::<T>, (&condvar, guard), waiting),
        call_ensures(Condvar::<MuslBackend>::notify_one, (&condvar,), signalling),
        call_ensures(Condvar::<MuslBackend>::notify_all, (&condvar,), broadcasting),
        call_ensures(Condvar::<MuslBackend>::drop, (condvar,), ending_condvar),
    ensures
        making_mutex.requested() == (Call::CvMutexInit { mutex: raw }),
        locking.requested() == (Call::CvMutexLock { mutex: mutex.raw() }),
        unlocking.requested() == (Call::CvMutexUnlock { mutex: guard.mutex().raw() }),
        ending_mutex.requested() == (Call::CvMutexDestroy { mutex: mutex.raw() }),
        making_condvar.requested() == (Call::CvCondInit { condvar: raw_condvar }),
        waiting.requested() == (Call::CvCondWait { condvar: condvar.raw(), mutex: guard.mutex().raw() }),
        signalling.requested() == (Call::CvCondSignal { condvar: condvar.raw() }),
        broadcasting.requested() == (Call::CvCondBroadcast { condvar: condvar.raw() }),
        ending_condvar.requested() == (Call::CvCondDestroy { condvar: condvar.raw() }),
{
}

/// What the backend of the system asks for, request by request:
/// the routine of that name, on just the addresses that were given.
pub proof fn system_requests(
    mutex: Addr<libc::pthread_mutex_t>,
    condvar: Addr<libc::pthread_cond_t>,
    init_mutex: Call,
    destroy_mutex: Call,
    lock_mutex: Call,
    unlock_mutex: Call,
    init_condvar: Call,
    destroy_condvar: Call,
    wait_condvar: Call,
    signal_condvar: Call,
    broadcast_condvar: Call,
)
    requires
        call_ensures(LibcBackend::init_mutex, (mutex,), init_mutex),
        call_ensures(LibcBackend::destroy_mutex, (mutex,), destroy_mutex),
        call_ensures(LibcBackend::lock_mutex, (mutex,), lock_mutex),
        call_ensures(LibcBackend::unlock_mutex, (mutex,), unlock_mutex),
        call_ensures(LibcBackend::init_condvar, (condvar,), init_condvar),
        call_ensures(LibcBackend::destroy_condvar, (condvar,), destroy_condvar),
        call_ensures(LibcBackend::wait_condvar, (condvar, mutex), wait_condvar),
        call_ensures(LibcBackend::signal_condvar, (condvar,), signal_condvar),
        call_ensures(LibcBackend::broadcast_condvar, (condvar,), broadcast_condvar),
    ensures
        init_mutex == (Call::PthreadMutexInit { mutex, attr: Addr::at(0) }),
        LibcBackend::call_for(Request::InitMutex { mutex }) == (Call::PthreadMutexInit { mutex, attr: Addr::at(0) }),
        destroy_mutex == (Call::PthreadMutexDestroy { mutex }),
        LibcBackend::call_for(Request::DestroyMutex { mutex }) == (Call::PthreadMutexDestroy { mutex }),
        lock_mutex == (Call::PthreadMutexLock { mutex }),
        LibcBackend::call_for(Request::LockMutex { mutex }) == (Call::PthreadMutexLock { mutex }),
        unlock_mutex == (Call::PthreadMutexUnlock { mutex }),
        LibcBackend::call_for(Request::UnlockMutex { mutex }) == (Call::PthreadMutexUnlock { mutex }),
        init_condvar == (Call::PthreadCondInit { condvar, attr: Addr::at(0) }),
        LibcBackend::call_for(Request::InitCondvar { condvar }) == (Call::PthreadCondInit { condvar, attr: Addr::at(0) }),
        destroy_condvar == (Call::PthreadCondDestroy { condvar }),
        LibcBackend::call_for(Request::DestroyCondvar { condvar }) == (Call::PthreadCondDestroy { condvar }),
        wait_condvar == (Call::PthreadCondWait { condvar, mutex }),
        LibcBackend::call_for(Request::WaitCondvar { condvar, mutex }) == (Call::PthreadCondWait { condvar, mutex }),
        signal_condvar == (Call::PthreadCondSignal { condvar }),
        LibcBackend::call_for(Request::SignalCondvar { condvar }) == (Call::PthreadCondSignal { condvar }),
        broadcast_condvar == (Call::PthreadCondBroadcast { condvar }),
        LibcBackend::call_for(Request::BroadcastCondvar { condvar }) == (Call::PthreadCondBroadcast { condvar }),
{
}

/// What the operations on the objects of the system ask for.
pub proof fn system_operations<'a, 'v, 'c, T>(
    value: T,
    raw: Addr<libc::pthread_mutex_t>,
    making_mutex: Pending<'static, LibcBackend, (Mutex<T, LibcBackend>, Protected<T, LibcBackend>)>,
    mutex: Mutex<T, LibcBackend>,
    locking: Pending<'a, LibcBackend, Locked<'a, T, LibcBackend>>,
    guard: MutexGuard<'a, 'v, T, LibcBackend>,
    unlocking: Pending<'a, LibcBackend, ()>,
    protected: Protected<T, LibcBackend>,
    ending_mutex: Ending<LibcBackend, T>,
    raw_condvar: Addr<libc::pthread_cond_t>,
    making_condvar: Pending<'static, LibcBackend, Condvar<LibcBackend>>,
    condvar: Condvar<LibcBackend>,
    waiting: Pending<'c, LibcBackend, Locked<'a, T, LibcBackend>>,
    signalling: Pending<'c, LibcBackend, ()>,
    broadcasting: Pending<'c, LibcBackend, ()>,
    ending_condvar: Ending<LibcBackend, ()>,
)
    requires
        call_ensures(Mutex::<T, LibcBackend>::new, (value, raw), making_mutex),
        call_ensures(Mutex::<T, LibcBackend>::lock, (&mutex,), locking),
        call_ensures(MutexGuard::<'a, 'v, T, LibcBackend>::drop, (guard,), unlocking),
        call_ensures(
            Mutex::<T, LibcBackend>::drop,
            (mutex, protected),
            Ok::<Ending<LibcBackend, T>, (Mutex<T, LibcBackend>, Protected<T, LibcBackend>)>(ending_mutex),
        ),
        call_ensures(Condvar::<LibcBackend>::new, (raw_condvar,), making_condvar),
        call_ensures(Condvar::<LibcBackend>::wait::<T>, (&condvar, guard), waiting),
        call_ensures(Condvar::<LibcBackend>::notify_one, (&condvar,), signalling),
        call_ensures(Condvar::<LibcBackend>::notify_all, (&condvar,), broadcasting),
        call_ensures(Condvar::<LibcBackend>::drop, (condvar,), ending_condvar),
    ensures
        making_mutex.requested() == (Call::PthreadMutexInit { mutex: raw, attr: Addr::at(0) }),
        locking.requested() == (Call::PthreadMutexLock { mutex: mutex.raw() }),
        unlocking.requested() == (Call::PthreadMutexUnlock { mutex: guard.mutex().raw() }),
        ending_mutex.requested() == (Call::PthreadMutexDestroy { mutex: mutex.raw() }),
        making_condvar.requested() == (Call::PthreadCondInit { condvar: raw_condvar, attr: Addr::at(0) }),
        waiting.requested() == (Call::PthreadCondWait { condvar: condvar.raw(), mutex: guard.mutex().raw() }),
        signalling.requested() == (Call::PthreadCondSignal { condvar: condvar.raw() }),
        broadcasting.requested() == (Call::PthreadCondBroadcast { condvar: condvar.raw() }),
        ending_condvar.requested() == (Call::PthreadCondDestroy { condvar: condvar.raw() }),
{
}

/// What the backend of musl in its wake variant asks for, request by request:
/// the routine of that name, on just the addresses that were given.
pub proof fn musl_wake_requests(
    mutex: Addr<RawMuslMutex>,
    condvar: Addr<RawMuslCondvar>,
    init_mutex: Call,
    destroy_mutex: Call,
    lock_mutex: Call,
    unlock_mutex: Call,
    init_condvar: Call,
    destroy_condvar: Call,
    wait_condvar: Call,
    signal_condvar: Call,
    broadcast_condvar: Call,
)
    requires
        call_ensures(MuslWakeBackend::init_mutex, (mutex,), init_mutex),
        call_ensures(MuslWakeBackend::destroy_mutex, (mutex,), destroy_mutex),
        call_ensures(MuslWakeBackend::lock_mutex, (mutex,), lock_mutex),
        call_ensures(MuslWakeBackend::unlock_mutex, (mutex,), unlock_mutex),
        call_ensures(MuslWakeBackend::init_condvar, (condvar,), init_condvar),
        call_ensures(MuslWakeBackend::destroy_condvar, (condvar,), destroy_condvar),
        call_ensures(MuslWakeBackend::wait_condvar, (condvar, mutex), wait_condvar),
        call_ensures(MuslWakeBackend::signal_condvar, (condvar,), signal_condvar),
        call_ensures(MuslWakeBackend::broadcast_condvar, (condvar,), broadcast_condvar),
    ensures
        init_mutex == (Call::CvwMutexInit { mutex }),
        MuslWakeBackend::call_for(Request::InitMutex { mutex }) == (Call::CvwMutexInit { mutex }),
        destroy_mutex == (Call::CvwMutexDestroy { mutex }),
        MuslWakeBackend::call_for(Request::DestroyMutex { mutex }) == (Call::CvwMutexDestroy { mutex }),
        lock_mutex == (Call::CvwMutexLock { mutex }),
        MuslWakeBackend::call_for(Request::LockMutex { mutex }) == (Call::CvwMutexLock { mutex }),
        unlock_mutex == (Call::CvwMutexUnlock { mutex }),
        MuslWakeBackend::call_for(Request::UnlockMutex { mutex }) == (Call::CvwMutexUnlock { mutex }),
        init_condvar == (Call::CvwCondInit { condvar }),
        MuslWakeBackend::call_for(Request::InitCondvar { condvar }) == (Call::CvwCondInit { condvar }),
        destroy_condvar == (Call::CvwCondDestroy { condvar }),
        MuslWakeBackend::call_for(Request::DestroyCondvar { condvar }) == (Call::CvwCondDestroy { condvar }),
        wait_condvar == (Call::CvwCondWait { condvar, mutex }),
        MuslWakeBackend::call_for(Request::WaitCondvar { condvar, mutex }) == (Call::CvwCondWait { condvar, mutex }),
        signal_condvar == (Call::CvwCondSignal { condvar }),
        MuslWakeBackend::call_for(Request::SignalCondvar { condvar }) == (Call::CvwCondSignal { condvar }),
        broadcast_condvar == (Call::CvwCondBroadcast { condvar }),
        MuslWakeBackend::call_for(Request::BroadcastCondvar { condvar }) == (Call::CvwCondBroadcast { condvar }),
{
}

/// What the operations on the objects of musl in its wake variant ask for.
pub proof fn musl_wake_operations<'a, 'v, 'c, T>(
    value: T,
    raw: Addr<RawMuslMutex>,
    making_mutex: Pending<'static, MuslWakeBackend, (Mutex<T, MuslWakeBackend>, Protected<T, MuslWakeBackend>)>,
    mutex: Mutex<T, MuslWakeBackend>,
    locking: Pending<'a, MuslWakeBackend, Locked<'a, T, MuslWakeBackend>>,
    guard: MutexGuard<'a, 'v, T, MuslWakeBackend>,
    unlocking: Pending<'a, MuslWakeBackend, ()>,
    protected: Protected<T, MuslWakeBackend>,
    ending_mutex: Ending<MuslWakeBackend, T>,
    raw_condvar: Addr<RawMuslCondvar>,
    making_condvar: Pending<'static, MuslWakeBackend, Condvar<MuslWakeBackend>>,
    condvar: Condvar<MuslWakeBackend>,
    waiting: Pending<'c, MuslWakeBackend, Locked<'a, T, MuslWakeBackend>>,
    signalling: Pending<'c, MuslWakeBackend, ()>,
    broadcasting: Pending<'c, MuslWakeBackend, ()>,
    ending_condvar: Ending<MuslWakeBackend, ()>,
)
    requires
        call_ensures(Mutex::<T, MuslWakeBackend>::new, (value, raw), making_mutex),
        call_ensures(Mutex::<T, MuslWakeBackend>::lock, (&mutex,), locking),
        call_ensures(MutexGuard::<'a, 'v, T, MuslWakeBackend>::drop, (guard,), unlocking),
        call_ensures(
            Mutex::<T, MuslWakeBackend>::drop,
            (mutex, protected),
            Ok::<Ending<MuslWakeBackend, T>, (Mutex<T, MuslWakeBackend>, Protected<T, MuslWakeBackend>)>(ending_mutex),
        ),
        call_ensures(Condvar::<MuslWakeBackend>::new, (raw_condvar,), making_condvar),
        call_ensures(Condvar::<MuslWakeBackend>::wait::<T>, (&condvar, guard), waiting),
        call_ensures(Condvar::<MuslWakeBackend>::notify_one, (&condvar,), signalling),
        call_ensures(Condvar::<MuslWakeBackend>::notify_all, (&condvar,), broadcasting),
        call_ensures(Condvar::<MuslWakeBackend>::drop, (condvar,), ending_condvar),
    ensures
        making_mutex.requested() == (Call::CvwMutexInit { mutex: raw }),
        locking.requested() == (Call::CvwMutexLock { mutex: mutex.raw() }),
        unlocking.requested() == (Call::CvwMutexUnlock { mutex: guard.mutex().raw() }),
        ending_mutex.requested() == (Call::CvwMutexDestroy { mutex: mutex.raw() }),
        making_condvar.requested() == (Call::CvwCondInit { condvar: raw_condvar }),
        waiting.requested() == (Call::CvwCondWait { condvar: condvar.raw(), mutex: guard.mutex().raw() }),
        signalling.requested() == (Call::CvwCondSignal { condvar: condvar.raw() }),
        broadcasting.requested() == (Call::CvwCondBroadcast { condvar: condvar.raw() }),
        ending_condvar.requested() == (Call::CvwCondDestroy { condvar: condvar.raw() }),
{
}

/// What the backend of the older LLVM asks for, request by request:
/// the routine of that name, on just the addresses that were given.
pub proof fn llvm_old_requests(
    mutex: Addr<RawLlvmMutex>,
    condvar: Addr<RawLlvmOldCondvar>,
    init_mutex: Call,
    destroy_mutex: Call,
    lock_mutex: Call,
    unlock_mutex: Call,
    init_condvar: Call,
    destroy_condvar: Call,
    wait_condvar: Call,
    signal_condvar: Call,
    broadcast_condvar: Call,
)
    requires
        call_ensures(LlvmOldBackend::init_mutex, (mutex,), init_mutex),
        call_ensures(LlvmOldBackend::destroy_mutex, (mutex,), destroy_mutex),
        call_ensures(LlvmOldBackend::lock_mutex, (mutex,), lock_mutex),
        call_ensures(LlvmOldBackend::unlock_mutex, (mutex,), unlock_mutex),
        call_ensures(LlvmOldBackend::init_condvar, (condvar,), init_condvar),
        call_ensures(LlvmOldBackend::destroy_condvar, (condvar,), destroy_condvar),
        call_ensures(LlvmOldBackend::wait_condvar, (condvar, mutex), wait_condvar),
        call_ensures(LlvmOldBackend::signal_condvar, (condvar,), signal_condvar),
        call_ensures(LlvmOldBackend::broadcast_condvar, (condvar,), broadcast_condvar),
    ensures
        init_mutex == (Call::LlvmMutexInit { mutex }),
        LlvmOldBackend::call_for(Request::InitMutex { mutex }) == (Call::LlvmMutexInit { mutex }),
        destroy_mutex == (Call::LlvmMutexDestroy { mutex }),
        LlvmOldBackend::call_for(Request::DestroyMutex { mutex }) == (Call::LlvmMutexDestroy { mutex }),
        lock_mutex == (Call::LlvmMutexLock { mutex }),
        LlvmOldBackend::call_for(Request::LockMutex { mutex }) == (Call::LlvmMutexLock { mutex }),
        unlock_mutex == (Call::LlvmMutexUnlock { mutex }),
        LlvmOldBackend::call_for(Request::UnlockMutex { mutex }) == (Call::LlvmMutexUnlock { mutex }),
        init_condvar == (Call::LlvmOldCondInit { condvar }),
        LlvmOldBackend::call_for(Request::InitCondvar { condvar }) == (Call::LlvmOldCondInit { condvar }),
        destroy_condvar == (Call::LlvmOldCondDestroy { condvar }),
        LlvmOldBackend::call_for(Request::DestroyCondvar { condvar }) == (Call::LlvmOldCondDestroy { condvar }),
        wait_condvar == (Call::LlvmOldCondWait { condvar, mutex }),
        LlvmOldBackend::call_for(Request::WaitCondvar { condvar, mutex }) == (Call::LlvmOldCondWait { condvar, mutex }),
        signal_condvar == (Call::LlvmOldCondSignal { condvar }),
        LlvmOldBackend::call_for(Request::SignalCondvar { condvar }) == (Call::LlvmOldCondSignal { condvar }),
        broadcast_condvar == (Call::LlvmOldCondBroadcast { condvar }),
        LlvmOldBackend::call_for(Request::BroadcastCondvar { condvar }) == (Call::LlvmOldCondBroadcast { condvar }),
{
}

/// What the operations on the objects of the older LLVM ask for.
pub proof fn llvm_old_operations<'a, 'v, 'c, T>(
    value: T,
    raw: Addr<RawLlvmMutex>,
    making_mutex: Pending<'static, LlvmOldBackend, (Mutex<T, LlvmOldBackend>, Protected<T, LlvmOldBackend>)>,
    mutex: Mutex<T, LlvmOldBackend>,
    locking: Pending<'a, LlvmOldBackend, Locked<'a, T, LlvmOldBackend>>,
    guard: MutexGuard<'a, 'v, T, LlvmOldBackend>,
    unlocking: Pending<'a, LlvmOldBackend, ()>,
    protected: Protected<T, LlvmOldBackend>,
    ending_mutex: Ending<LlvmOldBackend, T>,
    raw_condvar: Addr<RawLlvmOldCondvar>,
    making_condvar: Pending<'static, LlvmOldBackend, Condvar<LlvmOldBackend>>,
    condvar: Condvar<LlvmOldBackend>,
    waiting: Pending<'c, LlvmOldBackend, Locked<'a, T, LlvmOldBackend>>,
    signalling: Pending<'c, LlvmOldBackend, ()>,
    broadcasting: Pending<'c, LlvmOldBackend, ()>,
    ending_condvar: Ending<LlvmOldBackend, ()>,
)
    requires
        call_ensures(Mutex::<T, LlvmOldBackend>::new, (value, raw), making_mutex),
        call_ensures(Mutex::<T, LlvmOldBackend>::lock, (&mutex,), locking),
        call_ensures(MutexGuard::<'a, 'v, T, LlvmOldBackend>::drop, (guard,), unlocking),
        call_ensures(
            Mutex::<T, LlvmOldBackend>::drop,
            (mutex, protected),
            Ok::<Ending<LlvmOldBackend, T>, (Mutex<T, LlvmOldBackend>, Protected<T, LlvmOldBackend>)>(ending_mutex),
        ),
        call_ensures(Condvar::<LlvmOldBackend>::new, (raw_condvar,), making_condvar),
        call_ensures(Condvar::<LlvmOldBackend>::wait::<T>, (&condvar, guard), waiting),
        call_ensures(Condvar::<LlvmOldBackend>::notify_one, (&condvar,), signalling),
        call_ensures(Condvar::<LlvmOldBackend>::notify_all, (&condvar,), broadcasting),
        call_ensures(Condvar::<LlvmOldBackend>::drop, (condvar,), ending_condvar),
    ensures
        making_mutex.requested() == (Call::LlvmMutexInit { mutex: raw }),
        locking.requested() == (Call::LlvmMutexLock { mutex: mutex.raw() }),
        unlocking.requested() == (Call::LlvmMutexUnlock { mutex: guard.mutex().raw() }),
        ending_mutex.requested() == (Call::LlvmMutexDestroy { mutex: mutex.raw() }),
        making_condvar.requested() == (Call::LlvmOldCondInit { condvar: raw_condvar }),
        waiting.requested() == (Call::LlvmOldCondWait { condvar: condvar.raw(), mutex: guard.mutex().raw() }),
        signalling.requested() == (Call::LlvmOldCondSignal { condvar: condvar.raw() }),
        broadcasting.requested() == (Call::LlvmOldCondBroadcast { condvar: condvar.raw() }),
        ending_condvar.requested() == (Call::LlvmOldCondDestroy { condvar: condvar.raw() }),
{
}

/// What the backend of the newer LLVM asks for, request by request:
/// the routine of that name, on just the addresses that were given.
pub proof fn llvm_new_requests(
    mutex: Addr<RawLlvmMutex>,
    condvar: Addr<RawLlvmNewCondvar>,
    init_mutex: Call,
    destroy_mutex: Call,
    lock_mutex: Call,
    unlock_mutex: Call,
    init_condvar: Call,
    destroy_condvar: Call,
    wait_condvar: Call,
    signal_condvar: Call,
    broadcast_condvar: Call,
)
    requires
        call_ensures(LlvmNewBackend::init_mutex, (mutex,), init_mutex),
        call_ensures(LlvmNewBackend::destroy_mutex, (mutex,), destroy_mutex),
        call_ensures(LlvmNewBackend::lock_mutex, (mutex,), lock_mutex),
        call_ensures(LlvmNewBackend::unlock_mutex, (mutex,), unlock_mutex),
        call_ensures(LlvmNewBackend::init_condvar, (condvar,), init_condvar),
        call_ensures(LlvmNewBackend::destroy_condvar, (condvar,), destroy_condvar),
        call_ensures(LlvmNewBackend::wait_condvar, (condvar, mutex), wait_condvar),
        call_ensures(LlvmNewBackend::signal_condvar, (condvar,), signal_condvar),
        call_ensures(LlvmNewBackend::broadcast_condvar, (condvar,), broadcast_condvar),
    ensures
        init_mutex == (Call::LlvmMutexInit { mutex }),
        LlvmNewBackend::call_for(Request::InitMutex { mutex }) == (Call::LlvmMutexInit { mutex }),
        destroy_mutex == (Call::LlvmMutexDestroy { mutex }),
        LlvmNewBackend::call_for(Request::DestroyMutex { mutex }) == (Call::LlvmMutexDestroy { mutex }),
        lock_mutex == (Call::LlvmMutexLock { mutex }),
        LlvmNewBackend::call_for(Request::LockMutex { mutex }) == (Call::LlvmMutexLock { mutex }),
        unlock_mutex == (Call::LlvmMutexUnlock { mutex }),
        LlvmNewBackend::call_for(Request::UnlockMutex { mutex }) == (Call::LlvmMutexUnlock { mutex }),
        init_condvar == (Call::LlvmNewCondInit { condvar }),
        LlvmNewBackend::call_for(Request::InitCondvar { condvar }) == (Call::LlvmNewCondInit { condvar }),
        destroy_condvar == (Call::LlvmNewCondDestroy { condvar }),
        LlvmNewBackend::call_for(Request::DestroyCondvar { condvar }) == (Call::LlvmNewCondDestroy { condvar }),
        wait_condvar == (Call::LlvmNewCondWait { condvar, mutex }),
        LlvmNewBackend::call_for(Request::WaitCondvar { condvar, mutex }) == (Call::LlvmNewCondWait { condvar, mutex }),
        signal_condvar == (Call::LlvmNewCondSignal { condvar }),
        LlvmNewBackend::call_for(Request::SignalCondvar { condvar }) == (Call::LlvmNewCondSignal { condvar }),
        broadcast_condvar == (Call::LlvmNewCondBroadcast { condvar }),
        LlvmNewBackend::call_for(Request::BroadcastCondvar { condvar }) == (Call::LlvmNewCondBroadcast { condvar }),
{
}

/// What the operations on the objects of the newer LLVM ask for.
pub proof fn llvm_new_operations<'a, 'v, 'c, T>(
    value: T,
    raw: Addr<RawLlvmMutex>,
    making_mutex: Pending<'static, LlvmNewBackend, (Mutex<T, LlvmNewBackend>, Protected<T, LlvmNewBackend>)>,
    mutex: Mutex<T, LlvmNewBackend>,
    locking: Pending<'a, LlvmNewBackend, Locked<'a, T, LlvmNewBackend>>,
    guard: MutexGuard<'a, 'v, T, LlvmNewBackend>,
    unlocking: Pending<'a, LlvmNewBackend, ()>,
    protected: Protected<T, LlvmNewBackend>,
    ending_mutex: Ending<LlvmNewBackend, T>,
    raw_condvar: Addr<RawLlvmNewCondvar>,
    making_condvar: Pending<'static, LlvmNewBackend, Condvar<LlvmNewBackend>>,
    condvar: Condvar<LlvmNewBackend>,
    waiting: Pending<'c, LlvmNewBackend, Locked<'a, T, LlvmNewBackend>>,
    signalling: Pending<'c, LlvmNewBackend, ()>,
    broadcasting: Pending<'c, LlvmNewBackend, ()>,
    ending_condvar: Ending<LlvmNewBackend, ()>,
)
    requires
        call_ensures(Mutex::<T, LlvmNewBackend>::new, (value, raw), making_mutex),
        call_ensures(Mutex::<T, LlvmNewBackend>::lock, (&mutex,), locking),
        call_ensures(MutexGuard::<'a, 'v, T, LlvmNewBackend>::drop, (guard,), unlocking),
        call_ensures(
            Mutex::<T, LlvmNewBackend>::drop,
            (mutex, protected),
            Ok::<Ending<LlvmNewBackend, T>, (Mutex<T, LlvmNewBackend>, Protected<T, LlvmNewBackend>)>(ending_mutex),
        ),
        call_ensures(Condvar::<LlvmNewBackend>::new, (raw_condvar,), making_condvar),
        call_ensures(Condvar::<LlvmNewBackend>::wait::<T>, (&condvar, guard), waiting),
        call_ensures(Condvar::<LlvmNewBackend>::notify_one, (&condvar,), signalling),
        call_ensures(Condvar::<LlvmNewBackend>::notify_all, (&condvar,), broadcasting),
        call_ensures(Condvar::<LlvmNewBackend>::drop, (condvar,), ending_condvar),
    ensures
        making_mutex.requested() == (Call::LlvmMutexInit { mutex: raw }),
        locking.requested() == (Call::LlvmMutexLock { mutex: mutex.raw() }),
        unlocking.requested() == (Call::LlvmMutexUnlock { mutex: guard.mutex().raw() }),
        ending_mutex.requested() == (Call::LlvmMutexDestroy { mutex: mutex.raw() }),
        making_condvar.requested() == (Call::LlvmNewCondInit { condvar: raw_condvar }),
        waiting.requested() == (Call::LlvmNewCondWait { condvar: condvar.raw(), mutex: guard.mutex().raw() }),
        signalling.requested() == (Call::LlvmNewCondSignal { condvar: condvar.raw() }),
        broadcasting.requested() == (Call::LlvmNewCondBroadcast { condvar: condvar.raw() }),
        ending_condvar.requested() == (Call::LlvmNewCondDestroy { condvar: condvar.raw() }),
{
}

} // verus!
