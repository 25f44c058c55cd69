//! The library with [`LlvmOldBackend`](crate::backend::LlvmOldBackend).

use crate::backend::LlvmOldBackend;
use vstd::prelude::*;

verus! {

pub type Condvar = crate::condvar::Condvar<LlvmOldBackend>;

pub type Mutex<T> = crate::mutex::Mutex<T, LlvmOldBackend>;

pub type Protected<T> = crate::mutex::Protected<T, LlvmOldBackend>;

pub type Locked<'a, T> = crate::mutex::Locked<'a, T, LlvmOldBackend>;

pub type MutexGuard<'a, 'v, T> = crate::mutex::MutexGuard<'a, 'v, T, LlvmOldBackend>;

} // verus!
