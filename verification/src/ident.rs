//! Process identities and the allocator that issues them.

use vstd::prelude::*;

verus! {

/// The identity that is never issued: it reports a submission that did not
/// take place.
pub const NOT_SUBMITTED: u32 = 0;

/// The first identity a fresh allocator issues.
pub const FIRST_PROCESS_ID: u32 = 1;

/// Issues process identities in increasing order, each one once.
pub struct IdAllocator {
    next: u32,
}

impl IdAllocator {
    /// The identity the next call of `allocate` returns.
    pub closed spec fn next_id(&self) -> u32 {
        self.next
    }

    /// Whether an identity is left to issue.
    pub open spec fn has_next(&self) -> bool {
        self.next_id() < u32::MAX
    }

    /// An allocator that has issued nothing.
    pub fn new() -> (allocator: IdAllocator)
        ensures
            allocator.next_id() == FIRST_PROCESS_ID,
    {
        IdAllocator { next: FIRST_PROCESS_ID }
    }

    /// Whether an identity is left to issue.
    pub fn can_allocate(&self) -> (left: bool)
        ensures
            left == self.has_next(),
    {
        self.next < u32::MAX
    }

    /// Hands out the next identity and moves the counter past it.
    pub fn allocate(&mut self) -> (id: u32)
        requires
            old(self).has_next(),
        ensures
            id == old(self).next_id(),
            final(self).next_id() == old(self).next_id() + 1,
    {
        let id: u32 = self.next;
        self.next = self.next + 1;
        id
    }
}

} // verus!
