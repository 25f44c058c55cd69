//! The backends: which foreign routine serves each request.

use crate::addr::Addr;
use crate::call::{Call, Effect, Request};
use crate::raw::{RawLlvmMutex, RawLlvmNewCondvar, RawLlvmOldCondvar, RawMuslCondvar, RawMuslMutex};
use vstd::prelude::*;

verus! {

/// An implementation of mutexes and condition variables by foreign routines.
pub trait Backend: Sized {
    /// The name of the backend, by which its failures are reported.
    const NAME: &'static str;

    /// The letters of the name.
    spec fn name() -> Seq<char>;

    /// `NAME` has the letters of the name.
    proof fn name_is_spelled()
        ensures
            Self::NAME@ == Self::name(),
    ;

    type RawMutex;

    type RawCondvar;

    /// The foreign calls that the backend can ask for.
    type Call: Copy;

    /// What a call is about.
    spec fn effect(call: Self::Call) -> Effect;

    /// The foreign call that serves a request.
    spec fn call_for(request: Request<Self::RawMutex, Self::RawCondvar>) -> Self::Call;

    /// The call that serves a request does what was asked, to what it was asked of.
    proof fn call_serves_request(request: Request<Self::RawMutex, Self::RawCondvar>)
        ensures
            Self::effect(Self::call_for(request)) == request.effect(),
    ;

    fn init_mutex(raw: Addr<Self::RawMutex>) -> (call: Self::Call)
        ensures
            call == Self::call_for(Request::InitMutex { mutex: raw }),
    ;

    fn destroy_mutex(raw: Addr<Self::RawMutex>) -> (call: Self::Call)
        ensures
            call == Self::call_for(Request::DestroyMutex { mutex: raw }),
    ;

    fn lock_mutex(raw: Addr<Self::RawMutex>) -> (call: Self::Call)
        ensures
            call == Self::call_for(Request::LockMutex { mutex: raw }),
    ;

    fn unlock_mutex(raw: Addr<Self::RawMutex>) -> (call: Self::Call)
        ensures
            call == Self::call_for(Request::UnlockMutex { mutex: raw }),
    ;

    fn init_condvar(raw: Addr<Self::RawCondvar>) -> (call: Self::Call)
        ensures
            call == Self::call_for(Request::InitCondvar { condvar: raw }),
    ;

    fn destroy_condvar(raw: Addr<Self::RawCondvar>) -> (call: Self::Call)
        ensures
            call == Self::call_for(Request::DestroyCondvar { condvar: raw }),
    ;

    fn wait_condvar(
        condvar: Addr<Self::RawCondvar>,
        mutex: Addr<Self::RawMutex>,
    ) -> (call: Self::Call)
        ensures
            call == Self::call_for(Request::WaitCondvar { condvar, mutex }),
    ;

    fn signal_condvar(raw: Addr<Self::RawCondvar>) -> (call: Self::Call)
        ensures
            call == Self::call_for(Request::SignalCondvar { condvar: raw }),
    ;

    fn broadcast_condvar(raw: Addr<Self::RawCondvar>) -> (call: Self::Call)
        ensures
            call == Self::call_for(Request::BroadcastCondvar { condvar: raw }),
    ;
}

/// The mutexes and condition variables of musl.
pub struct MuslBackend;

impl Backend for MuslBackend {
    const NAME: &'static str = "musl";

    open spec fn name() -> Seq<char> {
        "musl"@
    }

    proof fn name_is_spelled() {
    }

    type RawMutex = RawMuslMutex;

    type RawCondvar = RawMuslCondvar;

    type Call = Call;

    open spec fn effect(call: Call) -> Effect {
        call.effect()
    }

    open spec fn call_for(request: Request<RawMuslMutex, RawMuslCondvar>) -> Call {
        match request {
            Request::InitMutex { mutex } => Call::CvMutexInit { mutex },
            Request::DestroyMutex { mutex } => Call::CvMutexDestroy { mutex },
            Request::LockMutex { mutex } => Call::CvMutexLock { mutex },
            Request::UnlockMutex { mutex } => Call::CvMutexUnlock { mutex },
            Request::InitCondvar { condvar } => Call::CvCondInit { condvar },
            Request::DestroyCondvar { condvar } => Call::CvCondDestroy { condvar },
            Request::WaitCondvar { condvar, mutex } => Call::CvCondWait { condvar, mutex },
            Request::SignalCondvar { condvar } => Call::CvCondSignal { condvar },
            Request::BroadcastCondvar { condvar } => Call::CvCondBroadcast { condvar },
        }
    }

    proof fn call_serves_request(request: Request<RawMuslMutex, RawMuslCondvar>) {
    }

    fn init_mutex(raw: Addr<Self::RawMutex>) -> (call: Call)
        ensures
            call == (Call::CvMutexInit { mutex: raw }),
    {
        Call::CvMutexInit { mutex: raw }
    }

    fn destroy_mutex(raw: Addr<Self::RawMutex>) -> (call: Call)
        ensures
            call == (Call::CvMutexDestroy { mutex: raw }),
    {
        Call::CvMutexDestroy { mutex: raw }
    }

    fn lock_mutex(raw: Addr<Self::RawMutex>) -> (call: Call)
        ensures
            call == (Call::CvMutexLock { mutex: raw }),
    {
        Call::CvMutexLock { mutex: raw }
    }

    fn unlock_mutex(raw: Addr<Self::RawMutex>) -> (call: Call)
        ensures
            call == (Call::CvMutexUnlock { mutex: raw }),
    {
        Call::CvMutexUnlock { mutex: raw }
    }

    fn init_condvar(raw: Addr<Self::RawCondvar>) -> (call: Call)
        ensures
            call == (Call::CvCondInit { condvar: raw }),
    {
        Call::CvCondInit { condvar: raw }
    }

    fn destroy_condvar(raw: Addr<Self::RawCondvar>) -> (call: Call)
        ensures
            call == (Call::CvCondDestroy { condvar: raw }),
    {
        Call::CvCondDestroy { condvar: raw }
    }

    fn wait_condvar(
        condvar: Addr<Self::RawCondvar>,
        mutex: Addr<Self::RawMutex>,
    ) -> (call: Call)
        ensures
            call == (Call::CvCondWait { condvar, mutex }),
    {
        Call::CvCondWait { condvar, mutex }
    }

    fn signal_condvar(raw: Addr<Self::RawCondvar>) -> (call: Call)
        ensures
            call == (Call::CvCondSignal { condvar: raw }),
    {
        Call::CvCondSignal { condvar: raw }
    }

    fn broadcast_condvar(raw: Addr<Self::RawCondvar>) -> (call: Call)
        ensures
            call == (Call::CvCondBroadcast { condvar: raw }),
    {
        Call::CvCondBroadcast { condvar: raw }
    }
}

/// The mutexes and condition variables of the system.
pub struct LibcBackend;

impl Backend for LibcBackend {
    const NAME: &'static str = "libc";

    open spec fn name() -> Seq<char> {
        "libc"@
    }

    proof fn name_is_spelled() {
    }

    type RawMutex = libc::pthread_mutex_t;

    type RawCondvar = libc::pthread_cond_t;

    type Call = Call;

    open spec fn effect(call: Call) -> Effect {
        call.effect()
    }

    open spec fn call_for(request: Request<libc::pthread_mutex_t, libc::pthread_cond_t>) -> Call {
        match request {
            Request::InitMutex { mutex } => Call::PthreadMutexInit { mutex, attr: Addr::at(0) },
            Request::DestroyMutex { mutex } => Call::PthreadMutexDestroy { mutex },
            Request::LockMutex { mutex } => Call::PthreadMutexLock { mutex },
            Request::UnlockMutex { mutex } => Call::PthreadMutexUnlock { mutex },
            Request::InitCondvar { condvar } => Call::PthreadCondInit { condvar, attr: Addr::at(0) },
            Request::DestroyCondvar { condvar } => Call::PthreadCondDestroy { condvar },
            Request::WaitCondvar { condvar, mutex } => Call::PthreadCondWait { condvar, mutex },
            Request::SignalCondvar { condvar } => Call::PthreadCondSignal { condvar },
            Request::BroadcastCondvar { condvar } => Call::PthreadCondBroadcast { condvar },
        }
    }

    proof fn call_serves_request(request: Request<libc::pthread_mutex_t, libc::pthread_cond_t>) {
    }

    fn init_mutex(raw: Addr<Self::RawMutex>) -> (call: Call)
        ensures
            call == (Call::PthreadMutexInit { mutex: raw, attr: Addr::at(0) }),
    {
        let attr = Addr::null();
        Call::PthreadMutexInit { mutex: raw, attr }
    }

    fn destroy_mutex(raw: Addr<Self::RawMutex>) -> (call: Call)
        ensures
            call == (Call::PthreadMutexDestroy { mutex: raw }),
    {
        Call::PthreadMutexDestroy { mutex: raw }
    }

    fn lock_mutex(raw: Addr<Self::RawMutex>) -> (call: Call)
        ensures
            call == (Call::PthreadMutexLock { mutex: raw }),
    {
        Call::PthreadMutexLock { mutex: raw }
    }

    fn unlock_mutex(raw: Addr<Self::RawMutex>) -> (call: Call)
        ensures
            call == (Call::PthreadMutexUnlock { mutex: raw }),
    {
        Call::PthreadMutexUnlock { mutex: raw }
    }

    fn init_condvar(raw: Addr<Self::RawCondvar>) -> (call: Call)
        ensures
            call == (Call::PthreadCondInit { condvar: raw, attr: Addr::at(0) }),
    {
        let attr = Addr::null();
        Call::PthreadCondInit { condvar: raw, attr }
    }

    fn destroy_condvar(raw: Addr<Self::RawCondvar>) -> (call: Call)
        ensures
            call == (Call::PthreadCondDestroy { condvar: raw }),
    {
        Call::PthreadCondDestroy { condvar: raw }
    }

    fn wait_condvar(
        condvar: Addr<Self::RawCondvar>,
        mutex: Addr<Self::RawMutex>,
    ) -> (call: Call)
        ensures
            call == (Call::PthreadCondWait { condvar, mutex }),
    {
        Call::PthreadCondWait { condvar, mutex }
    }

    fn signal_condvar(raw: Addr<Self::RawCondvar>) -> (call: Call)
        ensures
            call == (Call::PthreadCondSignal { condvar: raw }),
    {
        Call::PthreadCondSignal { condvar: raw }
    }

    fn broadcast_condvar(raw: Addr<Self::RawCondvar>) -> (call: Call)
        ensures
            call == (Call::PthreadCondBroadcast { condvar: raw }),
    {
        Call::PthreadCondBroadcast { condvar: raw }
    }
}

/// The wake variant of the mutexes and condition variables of musl.
pub struct MuslWakeBackend;

impl Backend for MuslWakeBackend {
    const NAME: &'static str = "musl_wake";

    open spec fn name() -> Seq<char> {
        "musl_wake"@
    }

    proof fn name_is_spelled() {
    }

    type RawMutex = RawMuslMutex;

    type RawCondvar = RawMuslCondvar;

    type Call = Call;

    open spec fn effect(call: Call) -> Effect {
        call.effect()
    }

    open spec fn call_for(request: Request<RawMuslMutex, RawMuslCondvar>) -> Call {
        match request {
            Request::InitMutex { mutex } => Call::CvwMutexInit { mutex },
            Request::DestroyMutex { mutex } => Call::CvwMutexDestroy { mutex },
            Request::LockMutex { mutex } => Call::CvwMutexLock { mutex },
            Request::UnlockMutex { mutex } => Call::CvwMutexUnlock { mutex },
            Request::InitCondvar { condvar } => Call::CvwCondInit { condvar },
            Request::DestroyCondvar { condvar } => Call::CvwCondDestroy { condvar },
            Request::WaitCondvar { condvar, mutex } => Call::CvwCondWait { condvar, mutex },
            Request::SignalCondvar { condvar } => Call::CvwCondSignal { condvar },
            Request::BroadcastCondvar { condvar } => Call::CvwCondBroadcast { condvar },
        }
    }

    proof fn call_serves_request(request: Request<RawMuslMutex, RawMuslCondvar>) {
    }

    fn init_mutex(raw: Addr<Self::RawMutex>) -> (call: Call)
        ensures
            call == (Call::CvwMutexInit { mutex: raw }),
    {
        Call::CvwMutexInit { mutex: raw }
    }

    fn destroy_mutex(raw: Addr<Self::RawMutex>) -> (call: Call)
        ensures
            call == (Call::CvwMutexDestroy { mutex: raw }),
    {
        Call::CvwMutexDestroy { mutex: raw }
    }

    fn lock_mutex(raw: Addr<Self::RawMutex>) -> (call: Call)
        ensures
            call == (Call::CvwMutexLock { mutex: raw }),
    {
        Call::CvwMutexLock { mutex: raw }
    }

    fn unlock_mutex(raw: Addr<Self::RawMutex>) -> (call: Call)
        ensures
            call == (Call::CvwMutexUnlock { mutex: raw }),
    {
        Call::CvwMutexUnlock { mutex: raw }
    }

    fn init_condvar(raw: Addr<Self::RawCondvar>) -> (call: Call)
        ensures
            call == (Call::CvwCondInit { condvar: raw }),
    {
        Call::CvwCondInit { condvar: raw }
    }

    fn destroy_condvar(raw: Addr<Self::RawCondvar>) -> (call: Call)
        ensures
            call == (Call::CvwCondDestroy { condvar: raw }),
    {
        Call::CvwCondDestroy { condvar: raw }
    }

    fn wait_condvar(
        condvar: Addr<Self::RawCondvar>,
        mutex: Addr<Self::RawMutex>,
    ) -> (call: Call)
        ensures
            call == (Call::CvwCondWait { condvar, mutex }),
    {
        Call::CvwCondWait { condvar, mutex }
    }

    fn signal_condvar(raw: Addr<Self::RawCondvar>) -> (call: Call)
        ensures
            call == (Call::CvwCondSignal { condvar: raw }),
    {
        Call::CvwCondSignal { condvar: raw }
    }

    fn broadcast_condvar(raw: Addr<Self::RawCondvar>) -> (call: Call)
        ensures
            call == (Call::CvwCondBroadcast { condvar: raw }),
    {
        Call::CvwCondBroadcast { condvar: raw }
    }
}

/// The mutexes of LLVM, with its older condition variables.
pub struct LlvmOldBackend;

impl Backend for LlvmOldBackend {
    const NAME: &'static str = "llvm_old";

    open spec fn name() -> Seq<char> {
        "llvm_old"@
    }

    proof fn name_is_spelled() {
    }

    type RawMutex = RawLlvmMutex;

    type RawCondvar = RawLlvmOldCondvar;

    type Call = Call;

    open spec fn effect(call: Call) -> Effect {
        call.effect()
    }

    open spec fn call_for(request: Request<RawLlvmMutex, RawLlvmOldCondvar>) -> Call {
        match request {
            Request::InitMutex { mutex } => Call::LlvmMutexInit { mutex },
            Request::DestroyMutex { mutex } => Call::LlvmMutexDestroy { mutex },
            Request::LockMutex { mutex } => Call::LlvmMutexLock { mutex },
            Request::UnlockMutex { mutex } => Call::LlvmMutexUnlock { mutex },
            Request::InitCondvar { condvar } => Call::LlvmOldCondInit { condvar },
            Request::DestroyCondvar { condvar } => Call::LlvmOldCondDestroy { condvar },
            Request::WaitCondvar { condvar, mutex } => Call::LlvmOldCondWait { condvar, mutex },
            Request::SignalCondvar { condvar } => Call::LlvmOldCondSignal { condvar },
            Request::BroadcastCondvar { condvar } => Call::LlvmOldCondBroadcast { condvar },
        }
    }

    proof fn call_serves_request(request: Request<RawLlvmMutex, RawLlvmOldCondvar>) {
    }

    fn init_mutex(raw: Addr<Self::RawMutex>) -> (call: Call)
        ensures
            call == (Call::LlvmMutexInit { mutex: raw }),
    {
        Call::LlvmMutexInit { mutex: raw }
    }

    fn destroy_mutex(raw: Addr<Self::RawMutex>) -> (call: Call)
        ensures
            call == (Call::LlvmMutexDestroy { mutex: raw }),
    {
        Call::LlvmMutexDestroy { mutex: raw }
    }

    fn lock_mutex(raw: Addr<Self::RawMutex>) -> (call: Call)
        ensures
            call == (Call::LlvmMutexLock { mutex: raw }),
    {
        Call::LlvmMutexLock { mutex: raw }
    }

    fn unlock_mutex(raw: Addr<Self::RawMutex>) -> (call: Call)
        ensures
            call == (Call::LlvmMutexUnlock { mutex: raw }),
    {
        Call::LlvmMutexUnlock { mutex: raw }
    }

    fn init_condvar(raw: Addr<Self::RawCondvar>) -> (call: Call)
        ensures
            call == (Call::LlvmOldCondInit { condvar: raw }),
    {
        Call::LlvmOldCondInit { condvar: raw }
    }

    fn destroy_condvar(raw: Addr<Self::RawCondvar>) -> (call: Call)
        ensures
            call == (Call::LlvmOldCondDestroy { condvar: raw }),
    {
        Call::LlvmOldCondDestroy { condvar: raw }
    }

    fn wait_condvar(
        condvar: Addr<Self::RawCondvar>,
        mutex: Addr<Self::RawMutex>,
    ) -> (call: Call)
        ensures
            call == (Call::LlvmOldCondWait { condvar, mutex }),
    {
        Call::LlvmOldCondWait { condvar, mutex }
    }

    fn signal_condvar(raw: Addr<Self::RawCondvar>) -> (call: Call)
        ensures
            call == (Call::LlvmOldCondSignal { condvar: raw }),
    {
        Call::LlvmOldCondSignal { condvar: raw }
    }

    fn broadcast_condvar(raw: Addr<Self::RawCondvar>) -> (call: Call)
        ensures
            call == (Call::LlvmOldCondBroadcast { condvar: raw }),
    {
        Call::LlvmOldCondBroadcast { condvar: raw }
    }
}

/// The mutexes of LLVM, with its newer condition variables.
pub struct LlvmNewBackend;

impl Backend for LlvmNewBackend {
    const NAME: &'static str = "llvm_new";

    open spec fn name() -> Seq<char> {
        "llvm_new"@
    }

    proof fn name_is_spelled() {
    }

    type RawMutex = RawLlvmMutex;

    type RawCondvar = RawLlvmNewCondvar;

    type Call = Call;

    open spec fn effect(call: Call) -> Effect {
        call.effect()
    }

    open spec fn call_for(request: Request<RawLlvmMutex, RawLlvmNewCondvar>) -> Call {
        match request {
            Request::InitMutex { mutex } => Call::LlvmMutexInit { mutex },
            Request::DestroyMutex { mutex } => Call::LlvmMutexDestroy { mutex },
            Request::LockMutex { mutex } => Call::LlvmMutexLock { mutex },
            Request::UnlockMutex { mutex } => Call::LlvmMutexUnlock { mutex },
            Request::InitCondvar { condvar } => Call::LlvmNewCondInit { condvar },
            Request::DestroyCondvar { condvar } => Call::LlvmNewCondDestroy { condvar },
            Request::WaitCondvar { condvar, mutex } => Call::LlvmNewCondWait { condvar, mutex },
            Request::SignalCondvar { condvar } => Call::LlvmNewCondSignal { condvar },
            Request::BroadcastCondvar { condvar } => Call::LlvmNewCondBroadcast { condvar },
        }
    }

    proof fn call_serves_request(request: Request<RawLlvmMutex, RawLlvmNewCondvar>) {
    }

    fn init_mutex(raw: Addr<Self::RawMutex>) -> (call: Call)
        ensures
            call == (Call::LlvmMutexInit { mutex: raw }),
    {
        Call::LlvmMutexInit { mutex: raw }
    }

    fn destroy_mutex(raw: Addr<Self::RawMutex>) -> (call: Call)
        ensures
            call == (Call::LlvmMutexDestroy { mutex: raw }),
    {
        Call::LlvmMutexDestroy { mutex: raw }
    }

    fn lock_mutex(raw: Addr<Self::RawMutex>) -> (call: Call)
        ensures
            call == (Call::LlvmMutexLock { mutex: raw }),
    {
        Call::LlvmMutexLock { mutex: raw }
    }

    fn unlock_mutex(raw: Addr<Self::RawMutex>) -> (call: Call)
        ensures
            call == (Call::LlvmMutexUnlock { mutex: raw }),
    {
        Call::LlvmMutexUnlock { mutex: raw }
    }

    fn init_condvar(raw: Addr<Self::RawCondvar>) -> (call: Call)
        ensures
            call == (Call::LlvmNewCondInit { condvar: raw }),
    {
        Call::LlvmNewCondInit { condvar: raw }
    }

    fn destroy_condvar(raw: Addr<Self::RawCondvar>) -> (call: Call)
        ensures
            call == (Call::LlvmNewCondDestroy { condvar: raw }),
    {
        Call::LlvmNewCondDestroy { condvar: raw }
    }

    fn wait_condvar(
        condvar: Addr<Self::RawCondvar>,
        mutex: Addr<Self::RawMutex>,
    ) -> (call: Call)
        ensures
            call == (Call::LlvmNewCondWait { condvar, mutex }),
    {
        Call::LlvmNewCondWait { condvar, mutex }
    }

    fn signal_condvar(raw: Addr<Self::RawCondvar>) -> (call: Call)
        ensures
            call == (Call::LlvmNewCondSignal { condvar: raw }),
    {
        Call::LlvmNewCondSignal { condvar: raw }
    }

    fn broadcast_condvar(raw: Addr<Self::RawCondvar>) -> (call: Call)
        ensures
            call == (Call::LlvmNewCondBroadcast { condvar: raw }),
    {
        Call::LlvmNewCondBroadcast { condvar: raw }
    }
}

/// The names of the backends, as failures report them.
pub proof fn backends_have_their_names()
    ensures
        MuslBackend::NAME@ == "musl"@,
        LibcBackend::NAME@ == "libc"@,
        MuslWakeBackend::NAME@ == "musl_wake"@,
        LlvmOldBackend::NAME@ == "llvm_old"@,
        LlvmNewBackend::NAME@ == "llvm_new"@,
        MuslBackend::name() == "musl"@,
        LibcBackend::name() == "libc"@,
        MuslWakeBackend::name() == "musl_wake"@,
        LlvmOldBackend::name() == "llvm_old"@,
        LlvmNewBackend::name() == "llvm_new"@,
{
}

/// The names of the backends tell them apart.
pub proof fn names_differ()
    ensures
        MuslBackend::name() != LibcBackend::name(),
        MuslBackend::name() != MuslWakeBackend::name(),
        MuslBackend::name() != LlvmOldBackend::name(),
        MuslBackend::name() != LlvmNewBackend::name(),
        LibcBackend::name() != MuslWakeBackend::name(),
        LibcBackend::name() != LlvmOldBackend::name(),
        LibcBackend::name() != LlvmNewBackend::name(),
        MuslWakeBackend::name() != LlvmOldBackend::name(),
        MuslWakeBackend::name() != LlvmNewBackend::name(),
        LlvmOldBackend::name() != LlvmNewBackend::name(),
{
    reveal_strlit("musl");
    reveal_strlit("libc");
    reveal_strlit("musl_wake");
    reveal_strlit("llvm_old");
    reveal_strlit("llvm_new");
    assert("musl"@.len() == 4 && "libc"@.len() == 4 && "musl_wake"@.len() == 9);
    assert("llvm_old"@.len() == 8 && "llvm_new"@.len() == 8);
    assert("musl"@[0] != "libc"@[0]);
    assert("llvm_old"@[5] != "llvm_new"@[5]);
}

/// With every backend, different requests lead to different calls.
pub proof fn calls_tell_requests_apart<B: Backend>(
    a: Request<B::RawMutex, B::RawCondvar>,
    b: Request<B::RawMutex, B::RawCondvar>,
)
    requires
        B::call_for(a) == B::call_for(b),
    ensures
        a == b,
{
    B::call_serves_request(a);
    B::call_serves_request(b);
    a.effect_determines_request(b);
}

/// No two backends share a routine, but for the mutexes of the two LLVM backends, which are the
/// same.
pub proof fn backends_share_only_llvm_mutexes(
    musl: Request<RawMuslMutex, RawMuslCondvar>,
    wake: Request<RawMuslMutex, RawMuslCondvar>,
    system: Request<libc::pthread_mutex_t, libc::pthread_cond_t>,
    old_llvm: Request<RawLlvmMutex, RawLlvmOldCondvar>,
    new_llvm: Request<RawLlvmMutex, RawLlvmNewCondvar>,
)
    ensures
        MuslBackend::call_for(musl) != MuslWakeBackend::call_for(wake),
        MuslBackend::call_for(musl) != LibcBackend::call_for(system),
        MuslBackend::call_for(musl) != LlvmOldBackend::call_for(old_llvm),
        MuslBackend::call_for(musl) != LlvmNewBackend::call_for(new_llvm),
        MuslWakeBackend::call_for(wake) != LibcBackend::call_for(system),
        MuslWakeBackend::call_for(wake) != LlvmOldBackend::call_for(old_llvm),
        MuslWakeBackend::call_for(wake) != LlvmNewBackend::call_for(new_llvm),
        LibcBackend::call_for(system) != LlvmOldBackend::call_for(old_llvm),
        LibcBackend::call_for(system) != LlvmNewBackend::call_for(new_llvm),
        LlvmOldBackend::call_for(old_llvm) == LlvmNewBackend::call_for(new_llvm) <==> {
            &&& old_llvm.effect().on_condvar() is None
            &&& old_llvm.effect() == new_llvm.effect()
        },
{
    if old_llvm.effect() == new_llvm.effect() {
        match (old_llvm, new_llvm) {
            (Request::InitMutex { mutex: a }, Request::InitMutex { mutex: b })
            | (Request::DestroyMutex { mutex: a }, Request::DestroyMutex { mutex: b })
            | (Request::LockMutex { mutex: a }, Request::LockMutex { mutex: b })
            | (Request::UnlockMutex { mutex: a }, Request::UnlockMutex { mutex: b }) => {
                Addr::number_determines_address(a, b);
            },
            _ => {},
        }
    }
}

} // verus!
