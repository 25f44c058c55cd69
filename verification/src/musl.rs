//! The library with [`MuslBackend`](crate::backend::MuslBackend).

use crate::backend::MuslBackend;
use vstd::prelude::*;

verus! {

pub type Condvar = crate::condvar::Condvar<MuslBackend>;

pub type Mutex<T> = crate::mutex::Mutex<T, MuslBackend>;

pub type Protected<T> = crate::mutex::Protected<T, MuslBackend>;

pub type Locked<'a, T> = crate::mutex::Locked<'a, T, MuslBackend>;

pub type MutexGuard<'a, 'v, T> = crate::mutex::MutexGuard<'a, 'v, T, MuslBackend>;

} // verus!
