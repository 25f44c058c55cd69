//! Operations that have come to their foreign call.

use crate::backend::Backend;
use crate::errno::{check_destroyed, check_errno, Failure};
use std::marker::PhantomData;
use vstd::prelude::*;

verus! {

/// An operation that waits for its one foreign call to be made. Whoever holds it makes the call,
/// and resumes the operation with the code that the call returned. Until then it borrows for `'p`
/// the objects that the call is about, so that none of them ends meanwhile.
#[must_use]
pub struct Pending<'p, B: Backend, S> {
    call: B::Call,
    done: S,
    _objects: PhantomData<&'p ()>,
}

impl<'p, B: Backend, S> Pending<'p, B, S> {
    /// The call that is to be made.
    pub closed spec fn requested(self) -> B::Call {
        self.call
    }

    /// What the operation yields if the call succeeds.
    pub closed spec fn yields(self) -> S {
        self.done
    }

    pub(crate) fn new(call: B::Call, done: S) -> (pending: Self)
        ensures
            pending.requested() == call,
            pending.yields() == done,
    {
        Pending { call, done, _objects: PhantomData }
    }

    /// Tells the call that is to be made.
    pub fn call(&self) -> (call: B::Call)
        ensures
            call == self.requested(),
    {
        self.call
    }

    /// Finishes the operation, given the code that its call returned. Zero is success; any other
    /// code is a failure of the backend, and what the operation would have yielded is gone.
    pub fn resume(self, code: i32) -> (outcome: Result<S, Failure>)
        ensures
            code == 0 ==> outcome == Ok::<S, Failure>(self.yields()),
            code != 0 ==> outcome == Err::<S, Failure>(Failure { op: B::NAME, code }),
            outcome matches Err(failure) ==> failure.op@ == B::name(),
    {
        proof {
            B::name_is_spelled();
        }
        match check_errno(B::NAME, code) {
            Ok(()) => Ok(self.done),
            Err(failure) => Err(failure),
        }
    }
}

/// The end of an object, which waits for the one foreign call that destroys it to be made. Whoever
/// holds it makes the call, and resumes with the code that the call returned.
#[must_use]
pub struct Ending<B: Backend, T> {
    call: B::Call,
    left: T,
}

impl<B: Backend, T> Ending<B, T> {
    /// The call that is to be made.
    pub closed spec fn requested(self) -> B::Call {
        self.call
    }

    /// What is left of the object.
    pub closed spec fn left(self) -> T {
        self.left
    }

    pub(crate) fn new(call: B::Call, left: T) -> (ending: Self)
        ensures
            ending.requested() == call,
            ending.left() == left,
    {
        Ending { call, left }
    }

    /// Tells the call that is to be made.
    pub fn call(&self) -> (call: B::Call)
        ensures
            call == self.requested(),
    {
        self.call
    }

    /// Finishes the end, given the code that its call returned. Whatever the code, the object is
    /// gone and what is left of it comes back. Only a build for debugging minds a code other than
    /// zero.
    pub fn resume(self, code: i32, debug: bool) -> (end: (T, Result<(), i32>))
        ensures
            end.0 == self.left(),
            code == 0 || !debug ==> end.1 == Ok::<(), i32>(()),
            code != 0 && debug ==> end.1 == Err::<(), i32>(code),
    {
        (self.left, check_destroyed(code, debug))
    }
}

} // verus!
