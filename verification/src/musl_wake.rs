//! The library with [`MuslWakeBackend`](crate::backend::MuslWakeBackend).

use crate::backend::MuslWakeBackend;
use vstd::prelude::*;

verus! {

pub type Condvar = crate::condvar::Condvar<MuslWakeBackend>;

pub type Mutex<T> = crate::mutex::Mutex<T, MuslWakeBackend>;

pub type Protected<T> = crate::mutex::Protected<T, MuslWakeBackend>;

pub type Locked<'a, T> = crate::mutex::Locked<'a, T, MuslWakeBackend>;

pub type MutexGuard<'a, 'v, T> = crate::mutex::MutexGuard<'a, 'v, T, MuslWakeBackend>;

} // verus!
