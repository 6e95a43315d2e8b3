//! Object id allocation.
//!
//! Every protocol object the client creates gets a fresh small integer id,
//! assigned monotonically and never reused within a session. Id 1 belongs to
//! the display itself, so allocation starts at 2.

use vstd::prelude::*;

verus! {

/// The monotonic allocator of object ids.
#[derive(PartialEq, Eq, Structural, Clone, Copy, Debug)]
pub struct IdAllocator {
    /// The next id to hand out; everything below it (and above 1) is taken.
    pub next: u32,
}

impl IdAllocator {
    /// A fresh allocator: ids start after the display's own id 1.
    pub fn new() -> (r: IdAllocator)
        ensures
            r == (IdAllocator { next: 2 }),
    {
        IdAllocator { next: 2 }
    }

    /// Hand out the next id. Ids grow strictly, so no id is ever reused.
    pub fn allocate(&mut self) -> (id: u32)
        requires
            old(self).next < u32::MAX,
        ensures
            id == old(self).next,
            final(self).next == old(self).next + 1,
    {
        let id = self.next;
        self.next = self.next + 1;
        id
    }
}

} // verus!
