//! Identities of test runs: each run gets its own number, and with it its
//! own crate name and project directory.
use vstd::prelude::*;

verus! {

/// Hands out identities in increasing order, starting from zero.
pub struct IdentityAllocator {
    next: usize,
}

impl View for IdentityAllocator {
    type V = nat;

    /// The identity handed out next.
    closed spec fn view(&self) -> nat {
        self.next as nat
    }
}

impl IdentityAllocator {
    /// An allocator that has handed out nothing yet.
    pub fn new() -> (r: IdentityAllocator)
        ensures
            r@ == 0,
    {
        IdentityAllocator { next: 0 }
    }

    /// The identity handed out next.
    pub fn peek(&self) -> (r: usize)
        ensures
            r as nat == self@,
    {
        self.next
    }

    /// Hands out the next identity.
    pub fn allocate(&mut self) -> (r: usize)
        requires
            old(self)@ < usize::MAX,
        ensures
            r as nat == old(self)@,
            final(self)@ == old(self)@ + 1,
    {
        let r = self.next;
        self.next = self.next + 1;
        r
    }
}

} // verus!
