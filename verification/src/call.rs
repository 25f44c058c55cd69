//! Requests that the library makes of a backend, and the foreign calls that serve them.

use crate::addr::Addr;
use crate::raw::{RawLlvmMutex, RawLlvmNewCondvar, RawLlvmOldCondvar, RawMuslCondvar, RawMuslMutex};
use vstd::prelude::*;

verus! {

/// What can be asked of a backend whose mutexes are `M` and whose condition variables are `C`.
pub enum Request<M, C> {
    InitMutex { mutex: Addr<M> },
    DestroyMutex { mutex: Addr<M> },
    LockMutex { mutex: Addr<M> },
    UnlockMutex { mutex: Addr<M> },
    InitCondvar { condvar: Addr<C> },
    DestroyCondvar { condvar: Addr<C> },
    WaitCondvar { condvar: Addr<C>, mutex: Addr<M> },
    SignalCondvar { condvar: Addr<C> },
    BroadcastCondvar { condvar: Addr<C> },
}

/// What a request or a call is about, whichever backend it belongs to: what is to be done, and the
/// numbers of the addresses that it is to be done to.
pub enum Effect {
    InitMutex { mutex: usize },
    DestroyMutex { mutex: usize },
    LockMutex { mutex: usize },
    UnlockMutex { mutex: usize },
    InitCondvar { condvar: usize },
    DestroyCondvar { condvar: usize },
    WaitCondvar { condvar: usize, mutex: usize },
    SignalCondvar { condvar: usize },
    BroadcastCondvar { condvar: usize },
}

impl Effect {
    /// The mutex that takes part, if one does.
    pub open spec fn on_mutex(self) -> Option<usize> {
        match self {
            Effect::InitMutex { mutex } => Some(mutex),
            Effect::DestroyMutex { mutex } => Some(mutex),
            Effect::LockMutex { mutex } => Some(mutex),
            Effect::UnlockMutex { mutex } => Some(mutex),
            Effect::WaitCondvar { condvar, mutex } => Some(mutex),
            _ => None,
        }
    }

    /// The condition variable that takes part, if one does.
    pub open spec fn on_condvar(self) -> Option<usize> {
        match self {
            Effect::InitCondvar { condvar } => Some(condvar),
            Effect::DestroyCondvar { condvar } => Some(condvar),
            Effect::WaitCondvar { condvar, mutex } => Some(condvar),
            Effect::SignalCondvar { condvar } => Some(condvar),
            Effect::BroadcastCondvar { condvar } => Some(condvar),
            _ => None,
        }
    }
}

impl<M, C> Request<M, C> {
    /// What the request is about.
    pub open spec fn effect(self) -> Effect {
        match self {
            Request::InitMutex { mutex } => Effect::InitMutex { mutex: mutex@ },
            Request::DestroyMutex { mutex } => Effect::DestroyMutex { mutex: mutex@ },
            Request::LockMutex { mutex } => Effect::LockMutex { mutex: mutex@ },
            Request::UnlockMutex { mutex } => Effect::UnlockMutex { mutex: mutex@ },
            Request::InitCondvar { condvar } => Effect::InitCondvar { condvar: condvar@ },
            Request::DestroyCondvar { condvar } => Effect::DestroyCondvar { condvar: condvar@ },
            Request::WaitCondvar { condvar, mutex } => Effect::WaitCondvar {
                condvar: condvar@,
                mutex: mutex@,
            },
            Request::SignalCondvar { condvar } => Effect::SignalCondvar { condvar: condvar@ },
            Request::BroadcastCondvar { condvar } => Effect::BroadcastCondvar { condvar: condvar@ },
        }
    }
}

impl<M, C> Request<M, C> {
    /// A request is what it is about: no two requests of one backend are about the same.
    pub proof fn effect_determines_request(self, other: Self)
        requires
            self.effect() == other.effect(),
        ensures
            self == other,
    {
        match (self, other) {
            (Request::WaitCondvar { condvar: c, mutex: m }, Request::WaitCondvar {
                condvar: d,
                mutex: n,
            }) => {
                Addr::number_determines_address(c, d);
                Addr::number_determines_address(m, n);
            },
            (Request::InitMutex { mutex: m }, Request::InitMutex { mutex: n })
            | (Request::DestroyMutex { mutex: m }, Request::DestroyMutex { mutex: n })
            | (Request::LockMutex { mutex: m }, Request::LockMutex { mutex: n })
            | (Request::UnlockMutex { mutex: m }, Request::UnlockMutex { mutex: n }) => {
                Addr::number_determines_address(m, n);
            },
            (Request::InitCondvar { condvar: c }, Request::InitCondvar { condvar: d })
            | (Request::DestroyCondvar { condvar: c }, Request::DestroyCondvar { condvar: d })
            | (Request::SignalCondvar { condvar: c }, Request::SignalCondvar { condvar: d })
            | (Request::BroadcastCondvar { condvar: c }, Request::BroadcastCondvar {
                condvar: d,
            }) => {
                Addr::number_determines_address(c, d);
            },
            _ => {},
        }
    }
}

/// One call of a foreign routine of the library's own backends, with its operands. Each variant stands for the routine whose
/// name it has, in the spelling of C: `CvMutexInit` for `cv_mutex_init`.
#[allow(inconsistent_fields)]
#[derive(Clone, Copy)]
pub enum Call {
    CvMutexInit { mutex: Addr<RawMuslMutex> },
    CvMutexDestroy { mutex: Addr<RawMuslMutex> },
    CvMutexLock { mutex: Addr<RawMuslMutex> },
    CvMutexUnlock { mutex: Addr<RawMuslMutex> },
    CvCondInit { condvar: Addr<RawMuslCondvar> },
    CvCondDestroy { condvar: Addr<RawMuslCondvar> },
    CvCondWait { condvar: Addr<RawMuslCondvar>, mutex: Addr<RawMuslMutex> },
    CvCondSignal { condvar: Addr<RawMuslCondvar> },
    CvCondBroadcast { condvar: Addr<RawMuslCondvar> },
    CvwMutexInit { mutex: Addr<RawMuslMutex> },
    CvwMutexDestroy { mutex: Addr<RawMuslMutex> },
    CvwMutexLock { mutex: Addr<RawMuslMutex> },
    CvwMutexUnlock { mutex: Addr<RawMuslMutex> },
    CvwCondInit { condvar: Addr<RawMuslCondvar> },
    CvwCondDestroy { condvar: Addr<RawMuslCondvar> },
    CvwCondWait { condvar: Addr<RawMuslCondvar>, mutex: Addr<RawMuslMutex> },
    CvwCondSignal { condvar: Addr<RawMuslCondvar> },
    CvwCondBroadcast { condvar: Addr<RawMuslCondvar> },
    PthreadMutexInit { mutex: Addr<libc::pthread_mutex_t>, attr: Addr<()> },
    PthreadMutexDestroy { mutex: Addr<libc::pthread_mutex_t> },
    PthreadMutexLock { mutex: Addr<libc::pthread_mutex_t> },
    PthreadMutexUnlock { mutex: Addr<libc::pthread_mutex_t> },
    PthreadCondInit { condvar: Addr<libc::pthread_cond_t>, attr: Addr<()> },
    PthreadCondDestroy { condvar: Addr<libc::pthread_cond_t> },
    PthreadCondWait { condvar: Addr<libc::pthread_cond_t>, mutex: Addr<libc::pthread_mutex_t> },
    PthreadCondSignal { condvar: Addr<libc::pthread_cond_t> },
    PthreadCondBroadcast { condvar: Addr<libc::pthread_cond_t> },
    LlvmMutexInit { mutex: Addr<RawLlvmMutex> },
    LlvmMutexDestroy { mutex: Addr<RawLlvmMutex> },
    LlvmMutexLock { mutex: Addr<RawLlvmMutex> },
    LlvmMutexUnlock { mutex: Addr<RawLlvmMutex> },
    LlvmOldCondInit { condvar: Addr<RawLlvmOldCondvar> },
    LlvmOldCondDestroy { condvar: Addr<RawLlvmOldCondvar> },
    LlvmOldCondWait { condvar: Addr<RawLlvmOldCondvar>, mutex: Addr<RawLlvmMutex> },
    LlvmOldCondSignal { condvar: Addr<RawLlvmOldCondvar> },
    LlvmOldCondBroadcast { condvar: Addr<RawLlvmOldCondvar> },
    LlvmNewCondInit { condvar: Addr<RawLlvmNewCondvar> },
    LlvmNewCondDestroy { condvar: Addr<RawLlvmNewCondvar> },
    LlvmNewCondWait { condvar: Addr<RawLlvmNewCondvar>, mutex: Addr<RawLlvmMutex> },
    LlvmNewCondSignal { condvar: Addr<RawLlvmNewCondvar> },
    LlvmNewCondBroadcast { condvar: Addr<RawLlvmNewCondvar> },
}

impl Call {
    /// What the call is about.
    pub open spec fn effect(self) -> Effect {
        match self {
            Call::CvMutexInit { mutex } => Effect::InitMutex { mutex: mutex@ },
            Call::CvMutexDestroy { mutex } => Effect::DestroyMutex { mutex: mutex@ },
            Call::CvMutexLock { mutex } => Effect::LockMutex { mutex: mutex@ },
            Call::CvMutexUnlock { mutex } => Effect::UnlockMutex { mutex: mutex@ },
            Call::CvCondInit { condvar } => Effect::InitCondvar { condvar: condvar@ },
            Call::CvCondDestroy { condvar } => Effect::DestroyCondvar { condvar: condvar@ },
            Call::CvCondWait { condvar, mutex } => Effect::WaitCondvar {
                condvar: condvar@,
                mutex: mutex@,
            },
            Call::CvCondSignal { condvar } => Effect::SignalCondvar { condvar: condvar@ },
            Call::CvCondBroadcast { condvar } => Effect::BroadcastCondvar { condvar: condvar@ },
            Call::CvwMutexInit { mutex } => Effect::InitMutex { mutex: mutex@ },
            Call::CvwMutexDestroy { mutex } => Effect::DestroyMutex { mutex: mutex@ },
            Call::CvwMutexLock { mutex } => Effect::LockMutex { mutex: mutex@ },
            Call::CvwMutexUnlock { mutex } => Effect::UnlockMutex { mutex: mutex@ },
            Call::CvwCondInit { condvar } => Effect::InitCondvar { condvar: condvar@ },
            Call::CvwCondDestroy { condvar } => Effect::DestroyCondvar { condvar: condvar@ },
            Call::CvwCondWait { condvar, mutex } => Effect::WaitCondvar {
                condvar: condvar@,
                mutex: mutex@,
            },
            Call::CvwCondSignal { condvar } => Effect::SignalCondvar { condvar: condvar@ },
            Call::CvwCondBroadcast { condvar } => Effect::BroadcastCondvar { condvar: condvar@ },
            Call::PthreadMutexInit { mutex, attr } => Effect::InitMutex { mutex: mutex@ },
            Call::PthreadMutexDestroy { mutex } => Effect::DestroyMutex { mutex: mutex@ },
            Call::PthreadMutexLock { mutex } => Effect::LockMutex { mutex: mutex@ },
            Call::PthreadMutexUnlock { mutex } => Effect::UnlockMutex { mutex: mutex@ },
            Call::PthreadCondInit { condvar, attr } => Effect::InitCondvar { condvar: condvar@ },
            Call::PthreadCondDestroy { condvar } => Effect::DestroyCondvar { condvar: condvar@ },
            Call::PthreadCondWait { condvar, mutex } => Effect::WaitCondvar {
                condvar: condvar@,
                mutex: mutex@,
            },
            Call::PthreadCondSignal { condvar } => Effect::SignalCondvar { condvar: condvar@ },
            Call::PthreadCondBroadcast { condvar } => Effect::BroadcastCondvar { condvar: condvar@ },
            Call::LlvmMutexInit { mutex } => Effect::InitMutex { mutex: mutex@ },
            Call::LlvmMutexDestroy { mutex } => Effect::DestroyMutex { mutex: mutex@ },
            Call::LlvmMutexLock { mutex } => Effect::LockMutex { mutex: mutex@ },
            Call::LlvmMutexUnlock { mutex } => Effect::UnlockMutex { mutex: mutex@ },
            Call::LlvmOldCondInit { condvar } => Effect::InitCondvar { condvar: condvar@ },
            Call::LlvmOldCondDestroy { condvar } => Effect::DestroyCondvar { condvar: condvar@ },
            Call::LlvmOldCondWait { condvar, mutex } => Effect::WaitCondvar {
                condvar: condvar@,
                mutex: mutex@,
            },
            Call::LlvmOldCondSignal { condvar } => Effect::SignalCondvar { condvar: condvar@ },
            Call::LlvmOldCondBroadcast { condvar } => Effect::BroadcastCondvar { condvar: condvar@ },
            Call::LlvmNewCondInit { condvar } => Effect::InitCondvar { condvar: condvar@ },
            Call::LlvmNewCondDestroy { condvar } => Effect::DestroyCondvar { condvar: condvar@ },
            Call::LlvmNewCondWait { condvar, mutex } => Effect::WaitCondvar {
                condvar: condvar@,
                mutex: mutex@,
            },
            Call::LlvmNewCondSignal { condvar } => Effect::SignalCondvar { condvar: condvar@ },
            Call::LlvmNewCondBroadcast { condvar } => Effect::BroadcastCondvar { condvar: condvar@ },
        }
    }
}

/// The foreign implementations, each of which works on memory of its own layout.
pub enum Family {
    /// The routines whose names begin with `cv_`.
    Musl,
    /// The routines whose names begin with `cvw_`.
    MuslWake,
    /// The routines whose names begin with `pthread_`.
    Pthread,
    /// The routines whose names begin with `llvm_mutex_`.
    LlvmMutex,
    /// The routines whose names begin with `llvm_old_cond_`.
    LlvmOldCondvar,
    /// The routines whose names begin with `llvm_new_cond_`.
    LlvmNewCondvar,
}

impl Call {
    /// The implementation that the called routine belongs to.
    pub open spec fn family(self) -> Family {
        match self {
            Call::CvMutexInit { .. }
            | Call::CvMutexDestroy { .. }
            | Call::CvMutexLock { .. }
            | Call::CvMutexUnlock { .. }
            | Call::CvCondInit { .. }
            | Call::CvCondDestroy { .. }
            | Call::CvCondWait { .. }
            | Call::CvCondSignal { .. }
            | Call::CvCondBroadcast { .. } => Family::Musl,
            Call::CvwMutexInit { .. }
            | Call::CvwMutexDestroy { .. }
            | Call::CvwMutexLock { .. }
            | Call::CvwMutexUnlock { .. }
            | Call::CvwCondInit { .. }
            | Call::CvwCondDestroy { .. }
            | Call::CvwCondWait { .. }
            | Call::CvwCondSignal { .. }
            | Call::CvwCondBroadcast { .. } => Family::MuslWake,
            Call::PthreadMutexInit { .. }
            | Call::PthreadMutexDestroy { .. }
            | Call::PthreadMutexLock { .. }
            | Call::PthreadMutexUnlock { .. }
            | Call::PthreadCondInit { .. }
            | Call::PthreadCondDestroy { .. }
            | Call::PthreadCondWait { .. }
            | Call::PthreadCondSignal { .. }
            | Call::PthreadCondBroadcast { .. } => Family::Pthread,
            Call::LlvmMutexInit { .. }
            | Call::LlvmMutexDestroy { .. }
            | Call::LlvmMutexLock { .. }
            | Call::LlvmMutexUnlock { .. } => Family::LlvmMutex,
            Call::LlvmOldCondInit { .. }
            | Call::LlvmOldCondDestroy { .. }
            | Call::LlvmOldCondWait { .. }
            | Call::LlvmOldCondSignal { .. }
            | Call::LlvmOldCondBroadcast { .. } => Family::LlvmOldCondvar,
            Call::LlvmNewCondInit { .. }
            | Call::LlvmNewCondDestroy { .. }
            | Call::LlvmNewCondWait { .. }
            | Call::LlvmNewCondSignal { .. }
            | Call::LlvmNewCondBroadcast { .. } => Family::LlvmNewCondvar,
        }
    }

    /// The number of the address of the attributes that the call hands over, if it hands any over.
    pub open spec fn attributes(self) -> Option<usize> {
        match self {
            Call::PthreadMutexInit { mutex: _, attr } => Some(attr@),
            Call::PthreadCondInit { condvar: _, attr } => Some(attr@),
            _ => None,
        }
    }

    /// A call is known by its implementation, by what it is about and by the attributes it hands
    /// over.
    pub proof fn is_determined(self, other: Self)
        requires
            self.family() == other.family(),
            self.effect() == other.effect(),
            self.attributes() == other.attributes(),
        ensures
            self == other,
    {
        match (self, other) {
            (Call::CvMutexInit { mutex: a0 }, Call::CvMutexInit { mutex: b0 }) => {
                Addr::number_determines_address(a0, b0);
            },
            (Call::CvMutexDestroy { mutex: a0 }, Call::CvMutexDestroy { mutex: b0 }) => {
                Addr::number_determines_address(a0, b0);
            },
            (Call::CvMutexLock { mutex: a0 }, Call::CvMutexLock { mutex: b0 }) => {
                Addr::number_determines_address(a0, b0);
            },
            (Call::CvMutexUnlock { mutex: a0 }, Call::CvMutexUnlock { mutex: b0 }) => {
                Addr::number_determines_address(a0, b0);
            },
            (Call::CvCondInit { condvar: a0 }, Call::CvCondInit { condvar: b0 }) => {
                Addr::number_determines_address(a0, b0);
            },
            (Call::CvCondDestroy { condvar: a0 }, Call::CvCondDestroy { condvar: b0 }) => {
                Addr::number_determines_address(a0, b0);
            },
            (Call::CvCondWait { condvar: a0, mutex: a1 }, Call::CvCondWait { condvar: b0, mutex: b1 }) => {
                Addr::number_determines_address(a0, b0);
                Addr::number_determines_address(a1, b1);
            },
            (Call::CvCondSignal { condvar: a0 }, Call::CvCondSignal { condvar: b0 }) => {
                Addr::number_determines_address(a0, b0);
            },
            (Call::CvCondBroadcast { condvar: a0 }, Call::CvCondBroadcast { condvar: b0 }) => {
                Addr::number_determines_address(a0, b0);
            },
            (Call::CvwMutexInit { mutex: a0 }, Call::CvwMutexInit { mutex: b0 }) => {
                Addr::number_determines_address(a0, b0);
            },
            (Call::CvwMutexDestroy { mutex: a0 }, Call::CvwMutexDestroy { mutex: b0 }) => {
                Addr::number_determines_address(a0, b0);
            },
            (Call::CvwMutexLock { mutex: a0 }, Call::CvwMutexLock { mutex: b0 }) => {
                Addr::number_determines_address(a0, b0);
            },
            (Call::CvwMutexUnlock { mutex: a0 }, Call::CvwMutexUnlock { mutex: b0 }) => {
                Addr::number_determines_address(a0, b0);
            },
            (Call::CvwCondInit { condvar: a0 }, Call::CvwCondInit { condvar: b0 }) => {
                Addr::number_determines_address(a0, b0);
            },
            (Call::CvwCondDestroy { condvar: a0 }, Call::CvwCondDestroy { condvar: b0 }) => {
                Addr::number_determines_address(a0, b0);
            },
            (Call::CvwCondWait { condvar: a0, mutex: a1 }, Call::CvwCondWait { condvar: b0, mutex: b1 }) => {
                Addr::number_determines_address(a0, b0);
                Addr::number_determines_address(a1, b1);
            },
            (Call::CvwCondSignal { condvar: a0 }, Call::CvwCondSignal { condvar: b0 }) => {
                Addr::number_determines_address(a0, b0);
            },
            (Call::CvwCondBroadcast { condvar: a0 }, Call::CvwCondBroadcast { condvar: b0 }) => {
                Addr::number_determines_address(a0, b0);
            },
            (Call::PthreadMutexInit { mutex: a0, attr: a1 }, Call::PthreadMutexInit { mutex: b0, attr: b1 }) => {
                Addr::number_determines_address(a0, b0);
                Addr::number_determines_address(a1, b1);
            },
            (Call::PthreadMutexDestroy { mutex: a0 }, Call::PthreadMutexDestroy { mutex: b0 }) => {
                Addr::number_determines_address(a0, b0);
            },
            (Call::PthreadMutexLock { mutex: a0 }, Call::PthreadMutexLock { mutex: b0 }) => {
                Addr::number_determines_address(a0, b0);
            },
            (Call::PthreadMutexUnlock { mutex: a0 }, Call::PthreadMutexUnlock { mutex: b0 }) => {
                Addr::number_determines_address(a0, b0);
            },
            (Call::PthreadCondInit { condvar: a0, attr: a1 }, Call::PthreadCondInit { condvar: b0, attr: b1 }) => {
                Addr::number_determines_address(a0, b0);
                Addr::number_determines_address(a1, b1);
            },
            (Call::PthreadCondDestroy { condvar: a0 }, Call::PthreadCondDestroy { condvar: b0 }) => {
                Addr::number_determines_address(a0, b0);
            },
            (Call::PthreadCondWait { condvar: a0, mutex: a1 }, Call::PthreadCondWait { condvar: b0, mutex: b1 }) => {
                Addr::number_determines_address(a0, b0);
                Addr::number_determines_address(a1, b1);
            },
            (Call::PthreadCondSignal { condvar: a0 }, Call::PthreadCondSignal { condvar: b0 }) => {
                Addr::number_determines_address(a0, b0);
            },
            (Call::PthreadCondBroadcast { condvar: a0 }, Call::PthreadCondBroadcast { condvar: b0 }) => {
                Addr::number_determines_address(a0, b0);
            },
            (Call::LlvmMutexInit { mutex: a0 }, Call::LlvmMutexInit { mutex: b0 }) => {
                Addr::number_determines_address(a0, b0);
            },
            (Call::LlvmMutexDestroy { mutex: a0 }, Call::LlvmMutexDestroy { mutex: b0 }) => {
                Addr::number_determines_address(a0, b0);
            },
            (Call::LlvmMutexLock { mutex: a0 }, Call::LlvmMutexLock { mutex: b0 }) => {
                Addr::number_determines_address(a0, b0);
            },
            (Call::LlvmMutexUnlock { mutex: a0 }, Call::LlvmMutexUnlock { mutex: b0 }) => {
                Addr::number_determines_address(a0, b0);
            },
            (Call::LlvmOldCondInit { condvar: a0 }, Call::LlvmOldCondInit { condvar: b0 }) => {
                Addr::number_determines_address(a0, b0);
            },
            (Call::LlvmOldCondDestroy { condvar: a0 }, Call::LlvmOldCondDestroy { condvar: b0 }) => {
                Addr::number_determines_address(a0, b0);
            },
            (Call::LlvmOldCondWait { condvar: a0, mutex: a1 }, Call::LlvmOldCondWait { condvar: b0, mutex: b1 }) => {
                Addr::number_determines_address(a0, b0);
                Addr::number_determines_address(a1, b1);
            },
            (Call::LlvmOldCondSignal { condvar: a0 }, Call::LlvmOldCondSignal { condvar: b0 }) => {
                Addr::number_determines_address(a0, b0);
            },
            (Call::LlvmOldCondBroadcast { condvar: a0 }, Call::LlvmOldCondBroadcast { condvar: b0 }) => {
                Addr::number_determines_address(a0, b0);
            },
            (Call::LlvmNewCondInit { condvar: a0 }, Call::LlvmNewCondInit { condvar: b0 }) => {
                Addr::number_determines_address(a0, b0);
            },
            (Call::LlvmNewCondDestroy { condvar: a0 }, Call::LlvmNewCondDestroy { condvar: b0 }) => {
                Addr::number_determines_address(a0, b0);
            },
            (Call::LlvmNewCondWait { condvar: a0, mutex: a1 }, Call::LlvmNewCondWait { condvar: b0, mutex: b1 }) => {
                Addr::number_determines_address(a0, b0);
                Addr::number_determines_address(a1, b1);
            },
            (Call::LlvmNewCondSignal { condvar: a0 }, Call::LlvmNewCondSignal { condvar: b0 }) => {
                Addr::number_determines_address(a0, b0);
            },
            (Call::LlvmNewCondBroadcast { condvar: a0 }, Call::LlvmNewCondBroadcast { condvar: b0 }) => {
                Addr::number_determines_address(a0, b0);
            },
            _ => {},
        }
    }
}

} // verus!
