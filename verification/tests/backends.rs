use condvar::{
    Addr, Backend, Call, LibcBackend, LlvmNewBackend, LlvmOldBackend, MuslBackend, MuslWakeBackend,
};

const MUTEX: usize = 0x1000;
const CONDVAR: usize = 0x2040;

#[test]
fn backends_have_their_names() {
    assert_eq!(MuslBackend::NAME, "musl");
    assert_eq!(LibcBackend::NAME, "libc");
    assert_eq!(MuslWakeBackend::NAME, "musl_wake");
    assert_eq!(LlvmOldBackend::NAME, "llvm_old");
    assert_eq!(LlvmNewBackend::NAME, "llvm_new");
}

#[test]
fn addresses_are_numbers() {
    assert_eq!(Addr::<u8>::new(7).addr(), 7);
    assert_eq!(Addr::<u8>::new(usize::MAX).addr(), usize::MAX);
    assert_eq!(Addr::<u8>::null().addr(), 0);
    let a = Addr::<String>::new(9);
    let b = a;
    assert_eq!(a.addr(), b.clone().addr());
}

#[test]
fn musl_calls() {
    let m = Addr::new(MUTEX);
    let c = Addr::new(CONDVAR);
    assert!(matches!(
        MuslBackend::init_mutex(m),
        Call::CvMutexInit { mutex } if mutex.addr() == MUTEX
    ));
    assert!(matches!(
        MuslBackend::destroy_mutex(m),
        Call::CvMutexDestroy { mutex } if mutex.addr() == MUTEX
    ));
    assert!(matches!(
        MuslBackend::lock_mutex(m),
        Call::CvMutexLock { mutex } if mutex.addr() == MUTEX
    ));
    assert!(matches!(
        MuslBackend::unlock_mutex(m),
        Call::CvMutexUnlock { mutex } if mutex.addr() == MUTEX
    ));
    assert!(matches!(
        MuslBackend::init_condvar(c),
        Call::CvCondInit { condvar } if condvar.addr() == CONDVAR
    ));
    assert!(matches!(
        MuslBackend::destroy_condvar(c),
        Call::CvCondDestroy { condvar } if condvar.addr() == CONDVAR
    ));
    assert!(matches!(
        MuslBackend::signal_condvar(c),
        Call::CvCondSignal { condvar } if condvar.addr() == CONDVAR
    ));
    assert!(matches!(
        MuslBackend::broadcast_condvar(c),
        Call::CvCondBroadcast { condvar } if condvar.addr() == CONDVAR
    ));
    assert!(matches!(
        MuslBackend::wait_condvar(c, m),
        Call::CvCondWait { condvar, mutex }
            if condvar.addr() == CONDVAR && mutex.addr() == MUTEX
    ));
}

#[test]
fn system_calls() {
    let m = Addr::new(MUTEX);
    let c = Addr::new(CONDVAR);
    assert!(matches!(
        LibcBackend::init_mutex(m),
        Call::PthreadMutexInit { mutex, attr } if mutex.addr() == MUTEX && attr.addr() == 0
    ));
    assert!(matches!(
        LibcBackend::destroy_mutex(m),
        Call::PthreadMutexDestroy { mutex } if mutex.addr() == MUTEX
    ));
    assert!(matches!(
        LibcBackend::lock_mutex(m),
        Call::PthreadMutexLock { mutex } if mutex.addr() == MUTEX
    ));
    assert!(matches!(
        LibcBackend::unlock_mutex(m),
        Call::PthreadMutexUnlock { mutex } if mutex.addr() == MUTEX
    ));
    assert!(matches!(
        LibcBackend::init_condvar(c),
        Call::PthreadCondInit { condvar, attr } if condvar.addr() == CONDVAR && attr.addr() == 0
    ));
    assert!(matches!(
        LibcBackend::destroy_condvar(c),
        Call::PthreadCondDestroy { condvar } if condvar.addr() == CONDVAR
    ));
    assert!(matches!(
        LibcBackend::signal_condvar(c),
        Call::PthreadCondSignal { condvar } if condvar.addr() == CONDVAR
    ));
    assert!(matches!(
        LibcBackend::broadcast_condvar(c),
        Call::PthreadCondBroadcast { condvar } if condvar.addr() == CONDVAR
    ));
    assert!(matches!(
        LibcBackend::wait_condvar(c, m),
        Call::PthreadCondWait { condvar, mutex }
            if condvar.addr() == CONDVAR && mutex.addr() == MUTEX
    ));
}

#[test]
fn musl_wake_calls() {
    let m = Addr::new(MUTEX);
    let c = Addr::new(CONDVAR);
    assert!(matches!(
        MuslWakeBackend::init_mutex(m),
        Call::CvwMutexInit { mutex } if mutex.addr() == MUTEX
    ));
    assert!(matches!(
        MuslWakeBackend::destroy_mutex(m),
        Call::CvwMutexDestroy { mutex } if mutex.addr() == MUTEX
    ));
    assert!(matches!(
        MuslWakeBackend::lock_mutex(m),
        Call::CvwMutexLock { mutex } if mutex.addr() == MUTEX
    ));
    assert!(matches!(
        MuslWakeBackend::unlock_mutex(m),
        Call::CvwMutexUnlock { mutex } if mutex.addr() == MUTEX
    ));
    assert!(matches!(
        MuslWakeBackend::init_condvar(c),
        Call::CvwCondInit { condvar } if condvar.addr() == CONDVAR
    ));
    assert!(matches!(
        MuslWakeBackend::destroy_condvar(c),
        Call::CvwCondDestroy { condvar } if condvar.addr() == CONDVAR
    ));
    assert!(matches!(
        MuslWakeBackend::signal_condvar(c),
        Call::CvwCondSignal { condvar } if condvar.addr() == CONDVAR
    ));
    assert!(matches!(
        MuslWakeBackend::broadcast_condvar(c),
        Call::CvwCondBroadcast { condvar } if condvar.addr() == CONDVAR
    ));
    assert!(matches!(
        MuslWakeBackend::wait_condvar(c, m),
        Call::CvwCondWait { condvar, mutex }
            if condvar.addr() == CONDVAR && mutex.addr() == MUTEX
    ));
}

#[test]
fn llvm_old_calls() {
    let m = Addr::new(MUTEX);
    let c = Addr::new(CONDVAR);
    assert!(matches!(
        LlvmOldBackend::init_mutex(m),
        Call::LlvmMutexInit { mutex } if mutex.addr() == MUTEX
    ));
    assert!(matches!(
        LlvmOldBackend::destroy_mutex(m),
        Call::LlvmMutexDestroy { mutex } if mutex.addr() == MUTEX
    ));
    assert!(matches!(
        LlvmOldBackend::lock_mutex(m),
        Call::LlvmMutexLock { mutex } if mutex.addr() == MUTEX
    ));
    assert!(matches!(
        LlvmOldBackend::unlock_mutex(m),
        Call::LlvmMutexUnlock { mutex } if mutex.addr() == MUTEX
    ));
    assert!(matches!(
        LlvmOldBackend::init_condvar(c),
        Call::LlvmOldCondInit { condvar } if condvar.addr() == CONDVAR
    ));
    assert!(matches!(
        LlvmOldBackend::destroy_condvar(c),
        Call::LlvmOldCondDestroy { condvar } if condvar.addr() == CONDVAR
    ));
    assert!(matches!(
        LlvmOldBackend::signal_condvar(c),
        Call::LlvmOldCondSignal { condvar } if condvar.addr() == CONDVAR
    ));
    assert!(matches!(
        LlvmOldBackend::broadcast_condvar(c),
        Call::LlvmOldCondBroadcast { condvar } if condvar.addr() == CONDVAR
    ));
    assert!(matches!(
        LlvmOldBackend::wait_condvar(c, m),
        Call::LlvmOldCondWait { condvar, mutex }
            if condvar.addr() == CONDVAR && mutex.addr() == MUTEX
    ));
}

#[test]
fn llvm_new_calls() {
    let m = Addr::new(MUTEX);
    let c = Addr::new(CONDVAR);
    assert!(matches!(
        LlvmNewBackend::init_mutex(m),
        Call::LlvmMutexInit { mutex } if mutex.addr() == MUTEX
    ));
    assert!(matches!(
        LlvmNewBackend::destroy_mutex(m),
        Call::LlvmMutexDestroy { mutex } if mutex.addr() == MUTEX
    ));
    assert!(matches!(
        LlvmNewBackend::lock_mutex(m),
        Call::LlvmMutexLock { mutex } if mutex.addr() == MUTEX
    ));
    assert!(matches!(
        LlvmNewBackend::unlock_mutex(m),
        Call::LlvmMutexUnlock { mutex } if mutex.addr() == MUTEX
    ));
    assert!(matches!(
        LlvmNewBackend::init_condvar(c),
        Call::LlvmNewCondInit { condvar } if condvar.addr() == CONDVAR
    ));
    assert!(matches!(
        LlvmNewBackend::destroy_condvar(c),
        Call::LlvmNewCondDestroy { condvar } if condvar.addr() == CONDVAR
    ));
    assert!(matches!(
        LlvmNewBackend::signal_condvar(c),
        Call::LlvmNewCondSignal { condvar } if condvar.addr() == CONDVAR
    ));
    assert!(matches!(
        LlvmNewBackend::broadcast_condvar(c),
        Call::LlvmNewCondBroadcast { condvar } if condvar.addr() == CONDVAR
    ));
    assert!(matches!(
        LlvmNewBackend::wait_condvar(c, m),
        Call::LlvmNewCondWait { condvar, mutex }
            if condvar.addr() == CONDVAR && mutex.addr() == MUTEX
    ));
}

#[test]
fn llvm_backends_share_their_mutexes_only() {
    let m = Addr::new(MUTEX);
    assert!(matches!(LlvmOldBackend::lock_mutex(m), Call::LlvmMutexLock { .. }));
    assert!(matches!(LlvmNewBackend::lock_mutex(m), Call::LlvmMutexLock { .. }));
    let old = LlvmOldBackend::signal_condvar(Addr::new(CONDVAR));
    let new = LlvmNewBackend::signal_condvar(Addr::new(CONDVAR));
    assert!(!matches!(old, Call::LlvmNewCondSignal { .. }));
    assert!(!matches!(new, Call::LlvmOldCondSignal { .. }));
}

#[test]
fn musl_backends_share_nothing() {
    let m = Addr::new(MUTEX);
    assert!(!matches!(MuslBackend::lock_mutex(m), Call::CvwMutexLock { .. }));
    assert!(!matches!(MuslWakeBackend::lock_mutex(m), Call::CvMutexLock { .. }));
}
