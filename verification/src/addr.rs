//! Addresses of the objects that foreign routines work on.

use std::marker::PhantomData;
use vstd::prelude::*;

verus! {

/// Where an object of type `R` lives. An address is a plain number here: nothing is read or
/// written through it.
pub struct Addr<R> {
    addr: usize,
    target: PhantomData<R>,
}

impl<R> View for Addr<R> {
    type V = usize;

    closed spec fn view(&self) -> usize {
        self.addr
    }
}

impl<R> Addr<R> {
    /// The address with the given number.
    pub closed spec fn at(addr: usize) -> Self {
        Addr { addr, target: PhantomData }
    }

    /// Makes the address with the given number.
    pub fn new(addr: usize) -> (a: Self)
        ensures
            a == Self::at(addr),
            a@ == addr,
    {
        Addr { addr, target: PhantomData }
    }

    /// Makes the null address.
    pub fn null() -> (a: Self)
        ensures
            a == Self::at(0),
            a@ == 0,
    {
        Self::new(0)
    }

    /// Tells the number of the address.
    pub fn addr(&self) -> (addr: usize)
        ensures
            addr == self@,
    {
        self.addr
    }

    /// An address is its number and nothing else.
    pub proof fn number_determines_address(a: Self, b: Self)
        requires
            a@ == b@,
        ensures
            a == b,
    {
    }

    /// The address with a given number shows that number.
    pub proof fn address_shows_number(addr: usize)
        ensures
            Self::at(addr)@ == addr,
    {
    }
}

impl<R> Clone for Addr<R> {
    fn clone(&self) -> (a: Self)
        ensures
            a == *self,
    {
        *self
    }
}

impl<R> Copy for Addr<R> {

}

} // verus!
