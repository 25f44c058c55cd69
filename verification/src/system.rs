//! The library with [`LibcBackend`](crate::backend::LibcBackend).

use crate::backend::LibcBackend;
use vstd::prelude::*;

verus! {

pub type Condvar = crate::condvar::Condvar<LibcBackend>;

pub type Mutex<T> = crate::mutex::Mutex<T, LibcBackend>;

pub type Protected<T> = crate::mutex::Protected<T, LibcBackend>;

pub type Locked<'a, T> = crate::mutex::Locked<'a, T, LibcBackend>;

pub type MutexGuard<'a, 'v, T> = crate::mutex::MutexGuard<'a, 'v, T, LibcBackend>;

} // verus!
