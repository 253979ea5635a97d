//! Opaque handles: integers that are issued once and never again.
use vstd::prelude::*;

verus! {

/// Issues handles in strictly increasing order, starting at 1. Zero is never
/// issued, so it can stand for "no handle".
#[derive(Debug)]
pub struct HandleAllocator {
    issued: usize,
}

impl HandleAllocator {
    /// The last handle that was issued; zero before the first.
    pub closed spec fn issued(&self) -> nat {
        self.issued as nat
    }

    pub fn new() -> (allocator: HandleAllocator)
        ensures
            allocator.issued() == 0,
    {
        HandleAllocator { issued: 0 }
    }

    /// Whether another handle can be issued: the integers of the machine are
    /// not used up.
    pub fn has_next(&self) -> (b: bool)
        ensures
            b == (self.issued() < usize::MAX),
    {
        self.issued < usize::MAX
    }

    /// The last handle that was issued; zero before the first.
    pub fn last(&self) -> (handle: usize)
        ensures
            handle == self.issued(),
    {
        self.issued
    }

    /// Issues the next handle. It is larger than every handle issued before,
    /// hence different from each of them, and it is not zero.
    pub fn next(&mut self) -> (handle: usize)
        requires
            old(self).issued() < usize::MAX,
        ensures
            handle == old(self).issued() + 1,
            final(self).issued() == handle,
        no_unwind
    {
        self.issued = self.issued + 1;
        self.issued
    }
}

} // verus!
