//! The library with [`LlvmNewBackend`](crate::backend::LlvmNewBackend).

use crate::backend::LlvmNewBackend;
use vstd::prelude::*;

verus! {

pub type Condvar = crate::condvar::Condvar<LlvmNewBackend>;

pub type Mutex<T> = crate::mutex::Mutex<T, LlvmNewBackend>;

pub type Protected<T> = crate::mutex::Protected<T, LlvmNewBackend>;

pub type Locked<'a, T> = crate::mutex::Locked<'a, T, LlvmNewBackend>;

pub type MutexGuard<'a, 'v, T> = crate::mutex::MutexGuard<'a, 'v, T, LlvmNewBackend>;

} // verus!
