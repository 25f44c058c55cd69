use condvar::{
    llvm_new, llvm_old, musl, musl_wake, system, Addr, Call, LlvmNewBackend, Pending,
};
use std::collections::VecDeque;
use std::ops::{Deref, DerefMut};

const MUTEX: usize = 0x1000;
const CONDVAR: usize = 0x2000;

fn musl_mutex<T>(value: T) -> (musl::Mutex<T>, musl::Protected<T>) {
    musl::Mutex::new(value, Addr::new(MUTEX)).resume(0).unwrap()
}

fn musl_condvar() -> musl::Condvar {
    musl::Condvar::new(Addr::new(CONDVAR)).resume(0).unwrap()
}

#[test]
fn the_first_guard_finds_the_first_value() {
    let pending = musl::Mutex::new("kept", Addr::new(MUTEX));
    assert!(matches!(pending.call(), Call::CvMutexInit { mutex } if mutex.addr() == MUTEX));
    let (mutex, mut protected) = pending.resume(0).unwrap();
    let guard = mutex.lock().resume(0).unwrap().open(&mut protected).ok().unwrap();
    assert_eq!(*guard.deref(), "kept");
    assert_eq!(guard.len(), 4);
}

#[test]
fn the_next_guard_finds_what_the_last_left() {
    let (mutex, mut protected) = musl_mutex(5);
    let mut guard = mutex.lock().resume(0).unwrap().open(&mut protected).ok().unwrap();
    *guard.deref_mut() = 6;
    assert_eq!(*guard, 6);
    *guard += 2;
    assert!(guard.drop().resume(0).is_ok());
    let guard = mutex.lock().resume(0).unwrap().open(&mut protected).ok().unwrap();
    assert_eq!(*guard, 8);
}

#[test]
fn a_failed_unlock_leaves_the_value_too() {
    let (mutex, mut protected) = musl_mutex(5);
    let mut guard = mutex.lock().resume(0).unwrap().open(&mut protected).ok().unwrap();
    *guard = 7;
    assert!(guard.drop().resume(1).is_err());
    assert_eq!(mutex.drop(protected).ok().unwrap().resume(0, true), (7, Ok(())));
}

#[test]
fn only_its_own_mutex_opens_a_value() {
    let (mutex, mut protected) = musl_mutex(1);
    let (other, mut other_protected) =
        musl::Mutex::new(2, Addr::new(MUTEX + 64)).resume(0).unwrap();
    let locked = mutex.lock().resume(0).unwrap();
    let locked = match locked.open(&mut other_protected) {
        Ok(_) => panic!("opened"),
        Err(locked) => locked,
    };
    assert_eq!(*locked.open(&mut protected).ok().unwrap(), 1);
    let locked = other.lock().resume(0).unwrap();
    assert_eq!(*locked.open(&mut other_protected).ok().unwrap(), 2);
}

#[test]
fn only_with_its_own_value_a_mutex_ends() {
    let (mutex, protected) = musl_mutex(1);
    let (other, other_protected) = musl::Mutex::new(2, Addr::new(MUTEX + 64)).resume(0).unwrap();
    let (mutex, other_protected) = match mutex.drop(other_protected) {
        Ok(_) => panic!("ended"),
        Err(both) => both,
    };
    let ending = mutex.drop(protected).ok().unwrap();
    assert!(matches!(ending.call(), Call::CvMutexDestroy { mutex } if mutex.addr() == MUTEX));
    assert_eq!(ending.resume(0, true).0, 1);
    let ending = other.drop(other_protected).ok().unwrap();
    assert!(matches!(
        ending.call(),
        Call::CvMutexDestroy { mutex } if mutex.addr() == MUTEX + 64
    ));
    assert_eq!(ending.resume(0, true).0, 2);
}

#[test]
fn a_failed_init_makes_no_mutex() {
    let failure = match musl::Mutex::new(1, Addr::new(MUTEX)).resume(12) {
        Ok(_) => panic!("made"),
        Err(failure) => failure,
    };
    assert_eq!(failure.code, 12);
    assert_eq!(failure.message(), "musl failed with errno 12");
}

#[test]
fn a_failed_lock_gives_no_right() {
    let (mutex, _protected) = musl_mutex(1);
    let pending = mutex.lock();
    assert!(matches!(pending.call(), Call::CvMutexLock { mutex } if mutex.addr() == MUTEX));
    match pending.resume(35) {
        Ok(_) => panic!("locked"),
        Err(failure) => assert_eq!(failure.message(), "musl failed with errno 35"),
    }
}

#[test]
fn a_failed_wait_loses_the_guard() {
    let (mutex, mut protected) = musl_mutex(1);
    let condvar = musl_condvar();
    let guard = mutex.lock().resume(0).unwrap().open(&mut protected).ok().unwrap();
    match condvar.wait(guard).resume(1) {
        Ok(_) => panic!("woken"),
        Err(failure) => assert_eq!(failure.message(), "musl failed with errno 1"),
    }
}

#[test]
fn a_failed_unlock_is_reported() {
    let (mutex, mut protected) = musl_mutex(1);
    let guard = mutex.lock().resume(0).unwrap().open(&mut protected).ok().unwrap();
    let failure = guard.drop().resume(-7).unwrap_err();
    assert_eq!(failure.message(), "musl failed with errno -7");
}

#[test]
fn failed_notifications_are_reported() {
    let condvar = musl_condvar();
    assert_eq!(condvar.notify_one().resume(3).unwrap_err().message(), "musl failed with errno 3");
    assert_eq!(condvar.notify_all().resume(4).unwrap_err().message(), "musl failed with errno 4");
    assert!(condvar.notify_one().resume(0).is_ok());
    assert!(condvar.notify_all().resume(0).is_ok());
}

#[test]
fn a_failed_condvar_init_makes_none() {
    match musl::Condvar::new(Addr::new(CONDVAR)).resume(11) {
        Ok(_) => panic!("made"),
        Err(failure) => assert_eq!(failure.message(), "musl failed with errno 11"),
    }
}

#[test]
fn waiting_keeps_mutex_and_value_and_makes_one_call() {
    let (mutex, mut protected) = musl_mutex(5);
    let condvar = musl_condvar();
    let mut guard = mutex.lock().resume(0).unwrap().open(&mut protected).ok().unwrap();
    *guard = 6;
    let pending = condvar.wait(guard);
    assert!(matches!(
        pending.call(),
        Call::CvCondWait { condvar, mutex }
            if condvar.addr() == CONDVAR && mutex.addr() == MUTEX
    ));
    let guard = pending.resume(0).unwrap().open(&mut protected).ok().unwrap();
    assert_eq!(*guard, 6);
    let pending = guard.drop();
    assert!(matches!(pending.call(), Call::CvMutexUnlock { mutex } if mutex.addr() == MUTEX));
    assert!(pending.resume(0).is_ok());
}

#[test]
fn notifying_names_the_condvar_only() {
    let condvar = musl_condvar();
    assert!(matches!(
        condvar.notify_one().call(),
        Call::CvCondSignal { condvar } if condvar.addr() == CONDVAR
    ));
    assert!(matches!(
        condvar.notify_all().call(),
        Call::CvCondBroadcast { condvar } if condvar.addr() == CONDVAR
    ));
}

#[test]
fn ending_destroys_and_gives_the_value_back() {
    let (mutex, protected) = musl_mutex(vec![1, 2, 3]);
    let ending = mutex.drop(protected).ok().unwrap();
    assert!(matches!(ending.call(), Call::CvMutexDestroy { mutex } if mutex.addr() == MUTEX));
    assert_eq!(ending.resume(0, true), (vec![1, 2, 3], Ok(())));
    let ending = musl_condvar().drop();
    assert!(matches!(
        ending.call(),
        Call::CvCondDestroy { condvar } if condvar.addr() == CONDVAR
    ));
    assert_eq!(ending.resume(0, false), ((), Ok(())));
}

#[test]
fn a_failed_end_is_minded_only_when_debugging() {
    let end = |code: i32, debug: bool| {
        let (mutex, protected) = musl_mutex(7);
        mutex.drop(protected).ok().unwrap().resume(code, debug)
    };
    assert_eq!(end(16, false), (7, Ok(())));
    assert_eq!(end(16, true), (7, Err(16)));
    assert_eq!(musl_condvar().drop().resume(-1, false), ((), Ok(())));
    assert_eq!(musl_condvar().drop().resume(-1, true), ((), Err(-1)));
}

#[test]
fn objects_at_different_addresses_stay_apart() {
    let one = musl_condvar();
    let two = musl::Condvar::new(Addr::new(CONDVAR + 64)).resume(0).unwrap();
    let moved = vec![two, one];
    assert!(matches!(
        moved[0].notify_one().call(),
        Call::CvCondSignal { condvar } if condvar.addr() == CONDVAR + 64
    ));
    assert!(matches!(
        moved[1].notify_all().call(),
        Call::CvCondBroadcast { condvar } if condvar.addr() == CONDVAR
    ));
    let (other, _) = musl::Mutex::new((), Addr::new(MUTEX + 8)).resume(0).unwrap();
    assert!(matches!(
        other.lock().call(),
        Call::CvMutexLock { mutex } if mutex.addr() == MUTEX + 8
    ));
}

#[test]
fn each_module_has_its_backend() {
    let m = system::Mutex::new((), Addr::new(MUTEX));
    assert!(matches!(
        m.call(),
        Call::PthreadMutexInit { mutex, attr } if mutex.addr() == MUTEX && attr.addr() == 0
    ));
    let c = system::Condvar::new(Addr::new(CONDVAR));
    assert!(matches!(
        c.call(),
        Call::PthreadCondInit { condvar, attr } if condvar.addr() == CONDVAR && attr.addr() == 0
    ));
    match c.resume(22) {
        Ok(_) => panic!("made"),
        Err(failure) => assert_eq!(failure.message(), "libc failed with errno 22"),
    }
    match musl_wake::Mutex::new((), Addr::new(MUTEX)).resume(22) {
        Ok(_) => panic!("made"),
        Err(failure) => assert_eq!(failure.message(), "musl_wake failed with errno 22"),
    }
    match llvm_old::Mutex::new((), Addr::new(MUTEX)).resume(22) {
        Ok(_) => panic!("made"),
        Err(failure) => assert_eq!(failure.message(), "llvm_old failed with errno 22"),
    }
    match llvm_new::Mutex::new((), Addr::new(MUTEX)).resume(22) {
        Ok(_) => panic!("made"),
        Err(failure) => assert_eq!(failure.message(), "llvm_new failed with errno 22"),
    }
}

/// A foreign mutex and condition variable, run by hand. Which waiter it wakes, and in which order,
/// is its own choice: first in, first out.
struct Simulated {
    held: bool,
    waiting: VecDeque<usize>,
    woken: VecDeque<usize>,
}

impl Simulated {
    fn new() -> Self {
        Simulated { held: false, waiting: VecDeque::new(), woken: VecDeque::new() }
    }

    /// What the call returns to `user`, or nothing while it blocks.
    fn make(&mut self, user: usize, call: Call) -> Option<i32> {
        match call {
            Call::LlvmMutexLock { .. } => {
                if self.held {
                    None
                } else {
                    self.held = true;
                    Some(0)
                }
            }
            Call::LlvmMutexUnlock { .. } => {
                assert!(self.held);
                self.held = false;
                Some(0)
            }
            Call::LlvmNewCondWait { .. } => {
                assert!(self.held);
                self.held = false;
                self.waiting.push_back(user);
                None
            }
            Call::LlvmNewCondSignal { .. } => {
                self.woken.extend(self.waiting.pop_front());
                Some(0)
            }
            Call::LlvmNewCondBroadcast { .. } => {
                self.woken.append(&mut self.waiting);
                Some(0)
            }
            _ => panic!("not expected"),
        }
    }

    /// Grants the mutex to the first of the woken, whose wait returns.
    fn return_from_wait(&mut self) -> Option<usize> {
        assert!(!self.held);
        let user = self.woken.pop_front()?;
        self.held = true;
        Some(user)
    }
}

fn llvm_mutex<T>(value: T) -> (llvm_new::Mutex<T>, llvm_new::Protected<T>) {
    llvm_new::Mutex::new(value, Addr::new(MUTEX)).resume(0).unwrap()
}

fn llvm_condvar() -> llvm_new::Condvar {
    llvm_new::Condvar::new(Addr::new(CONDVAR)).resume(0).unwrap()
}

/// Makes the call of an operation that does not block, and finishes it.
fn run<S>(foreign: &mut Simulated, user: usize, pending: Pending<'_, LlvmNewBackend, S>) -> S {
    let code = foreign.make(user, pending.call()).unwrap();
    pending.resume(code).unwrap()
}

#[test]
fn only_one_guard_at_a_time() {
    let (mutex, mut protected) = llvm_mutex(0);
    let mut foreign = Simulated::new();

    let first = run(&mut foreign, 1, mutex.lock());
    let mut first = first.open(&mut protected).ok().unwrap();
    let second = mutex.lock();
    assert_eq!(foreign.make(2, second.call()), None);

    *first = 41;
    assert_eq!(*first, 41);
    run(&mut foreign, 1, first.drop());

    let second = run(&mut foreign, 2, second);
    assert_eq!(*second.open(&mut protected).ok().unwrap(), 41);
}

#[test]
fn a_signal_resumes_one_waiter() {
    let (mutex, mut protected) = llvm_mutex(0);
    let condvar = llvm_condvar();
    let mut foreign = Simulated::new();
    let mut waits = Vec::new();

    for id in 0..2usize {
        let guard = run(&mut foreign, id, mutex.lock()).open(&mut protected).ok().unwrap();
        let pending = condvar.wait(guard);
        assert_eq!(foreign.make(id, pending.call()), None);
        waits.push(Some(pending));
    }
    for passed in 0..2usize {
        assert_eq!(foreign.return_from_wait(), None);
        run(&mut foreign, 9, condvar.notify_one());
        let id = foreign.return_from_wait().unwrap();
        let locked = waits[id].take().unwrap().resume(0).unwrap();
        let mut guard = locked.open(&mut protected).ok().unwrap();
        assert_eq!(*guard, passed);
        *guard += 1;
        run(&mut foreign, id, guard.drop());
    }
    drop(waits);
    assert_eq!(mutex.drop(protected).ok().unwrap().resume(0, true), (2, Ok(())));
}

#[test]
fn a_broadcast_resumes_every_waiter() {
    let (mutex, mut protected) = llvm_mutex((false, Vec::new()));
    let condvar = llvm_condvar();
    let mut foreign = Simulated::new();
    let mut waits = Vec::new();

    for id in 0..4usize {
        let guard = run(&mut foreign, id, mutex.lock()).open(&mut protected).ok().unwrap();
        let pending = condvar.wait(guard);
        assert_eq!(foreign.make(id, pending.call()), None);
        waits.push(Some(pending));
    }

    let mut guard = run(&mut foreign, 9, mutex.lock()).open(&mut protected).ok().unwrap();
    guard.0 = true;
    run(&mut foreign, 9, guard.drop());
    assert_eq!(foreign.return_from_wait(), None);
    run(&mut foreign, 9, condvar.notify_all());

    while let Some(id) = foreign.return_from_wait() {
        let locked = waits[id].take().unwrap().resume(0).unwrap();
        let mut guard = locked.open(&mut protected).ok().unwrap();
        assert!(guard.0);
        guard.1.push(id);
        run(&mut foreign, id, guard.drop());
    }

    drop(waits);
    let ((_, mut passed), checked) = mutex.drop(protected).ok().unwrap().resume(0, true);
    passed.sort();
    assert_eq!(passed, vec![0, 1, 2, 3]);
    assert!(checked.is_ok());
}
