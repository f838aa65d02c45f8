//! A counter that hands out the handles of one kind in order.

use vstd::prelude::*;
use crate::handle::{Handle, MAX_INDEX};

verus! {

/// Issues handles for entities that are numbered but stored nowhere: each
/// call of `next` yields the handle after the one before.
#[derive(Debug)]
pub struct IndexCounter<I: Handle> {
    next_id: I,
}

impl<I: Handle> IndexCounter<I> {
    /// The number of handles issued so far.
    pub closed spec fn count(&self) -> nat {
        self.next_id.slot()
    }

    pub fn new() -> (counter: Self)
        ensures
            counter.count() == 0,
    {
        IndexCounter { next_id: I::from_usize(0) }
    }

    /// Issues the next handle: the one whose slot is the number of handles
    /// issued before. No handle is issued twice.
    pub fn next(&mut self) -> (id: I)
        requires
            old(self).count() < MAX_INDEX,
        ensures
            id.slot() == old(self).count(),
            final(self).count() == old(self).count() + 1,
    {
        let next = self.next_id;
        self.next_id = I::from_usize(self.next_id.index() + 1);
        next
    }

    pub fn len(&self) -> (n: usize)
        ensures
            n == self.count(),
    {
        self.next_id.index()
    }
}

impl<I: Handle> Default for IndexCounter<I> {
    fn default() -> (counter: Self)
        ensures
            counter.count() == 0,
    {
        IndexCounter::new()
    }
}

} // verus!
