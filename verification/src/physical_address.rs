//! Tagged physical addresses.
//!
//! A [`PhysicalAddress`] is a machine word carrying, at the type level, what
//! it is expected to point at. It has no algorithmic content of its own: the
//! calling convention takes physical addresses as plain words, and the tag
//! only keeps call sites from mixing addresses of different purposes.
//! Deriving an address from a live pointer is the embedding program's
//! business; the verified layer deals in the raw word alone.

use vstd::prelude::*;

verus! {

/// Representation of a physical address, tagged with the type it is expected
/// to point at.
#[derive(Debug)]
pub struct PhysicalAddress<T> {
    pub(crate) addr: usize,
    pub(crate) marker: core::marker::PhantomData<T>,
}

impl<T> PhysicalAddress<T> {
    /// The raw address word.
    pub closed spec fn spec_addr(self) -> usize {
        self.addr
    }

    /// Create a new [`PhysicalAddress`] from the raw integer value.
    pub fn new(value: usize) -> (r: Self)
        ensures
            r.spec_addr() == value,
    {
        Self { addr: value, marker: core::marker::PhantomData }
    }

    /// The raw address word.
    pub fn raw(self) -> (r: usize)
        ensures
            r == self.spec_addr(),
    {
        self.addr
    }
}

impl<T> Clone for PhysicalAddress<T> {
    fn clone(&self) -> (r: Self)
        ensures
            r.spec_addr() == self.spec_addr(),
    {
        PhysicalAddress { addr: self.addr, marker: core::marker::PhantomData }
    }
}

impl<T> Copy for PhysicalAddress<T> {

}

} // verus!
