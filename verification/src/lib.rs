//! Mutexes and condition variables over foreign implementations of them.
//!
//! A backend is a set of foreign routines, each of which takes the addresses of the objects it
//! works on and returns a code. This library decides which routine is called for which operation,
//! on which addresses, what each code means, and what the operation yields. It makes no foreign
//! call itself. Every operation comes to a halt at the one call it needs, as a [`Pending`] or an
//! [`Ending`]; whoever runs it makes that call and resumes the operation with the code. When the
//! calls of different operations are made is up to the runner, within what the operations borrow:
//! no object is given up while a [`Pending`] about it is left.
//!
//! [`session`], [`exclusion`], [`refinement`] and [`life`] state what follows for guards, for the
//! value that they open, and for the objects.

pub mod addr;
pub mod backend;
pub mod call;
pub mod condvar;
pub mod errno;
pub mod exclusion;
pub mod life;
pub mod llvm_new;
pub mod llvm_old;
pub mod musl;
pub mod musl_wake;
pub mod mutex;
pub mod pending;
pub mod raw;
pub mod refinement;
pub mod routines;
pub mod session;
pub mod system;

pub use addr::Addr;
pub use backend::{
    Backend, LibcBackend, LlvmNewBackend, LlvmOldBackend, MuslBackend, MuslWakeBackend,
};
pub use call::{Call, Effect, Family, Request};
pub use condvar::Condvar;
pub use errno::{check_destroyed, check_errno, Failure};
pub use mutex::{Locked, Mutex, MutexGuard, Protected};
pub use pending::{Ending, Pending};
pub use raw::{RawLlvmMutex, RawLlvmNewCondvar, RawLlvmOldCondvar, RawMuslCondvar, RawMuslMutex};
