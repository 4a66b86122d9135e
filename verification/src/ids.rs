//! The identifier allocator: strictly increasing 64-bit identifiers,
//! starting at 1, one independent instance per entity class.

use vstd::prelude::*;

verus! {

/// Issues identifiers in strictly increasing order.  An identifier, once
/// issued, is never issued again, whatever happens to the entity it named.
pub struct IdAllocator {
    pub next_id: u64,
}

impl IdAllocator {
    /// Allocators start at 1 and only count up.
    pub open spec fn wf(self) -> bool {
        self.next_id >= 1
    }

    /// A fresh allocator; its first identifier will be 1.
    pub fn new() -> (r: Self)
        ensures
            r.wf(),
            r.next_id == 1,
    {
        IdAllocator { next_id: 1 }
    }

    /// Reserve and return the next identifier.
    pub fn next(&mut self) -> (id: u64)
        requires
            old(self).wf(),
            old(self).next_id < u64::MAX,
        ensures
            final(self).wf(),
            id == old(self).next_id,
            final(self).next_id == old(self).next_id + 1,
    {
        let id = self.next_id;
        self.next_id = self.next_id + 1;
        id
    }
}

} // verus!
