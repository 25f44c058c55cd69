//! The shapes of the objects that the backends keep their state in.
//!
//! The library never looks inside such an object: it only passes its address on.

use crate::addr::Addr;
use vstd::prelude::*;

verus! {

/// The mutex of the musl backends.
pub struct RawMuslMutex {
    pub lock: i32,
    pub waiters: i32,
}

/// The condition variable of the musl backends.
pub struct RawMuslCondvar {
    pub lock: i32,
    pub head: Addr<()>,
    pub tail: Addr<()>,
}

/// The mutex of the LLVM backends.
pub struct RawLlvmMutex {
    pub futex_word: u32,
}

/// The condition variable of the older LLVM backend.
pub struct RawLlvmOldCondvar {
    pub qmtx: RawLlvmMutex,
    pub head: Addr<()>,
    pub tail: Addr<()>,
}

/// The condition variable of the newer LLVM backend.
pub struct RawLlvmNewCondvar {
    pub waiter_prev: Addr<()>,
    pub waiter_next: Addr<()>,
    pub queue_lock: RawLlvmMutex,
}

/// The type `libc::pthread_mutex_t`, of which nothing is claimed: it only tells what the address
/// of a system mutex points to.
#[verifier::external_type_specification]
#[verifier::external_body]
pub struct ExPthreadMutex(libc::pthread_mutex_t);

/// The type `libc::pthread_cond_t`, of which nothing is claimed: it only tells what the address
/// of a system condition variable points to.
#[verifier::external_type_specification]
#[verifier::external_body]
pub struct ExPthreadCond(libc::pthread_cond_t);

} // verus!
