//! The identifier allocator: one durable counter, shared by every kind of
//! record, that hands out each identifier once.

use crate::stable::{cell_get, cell_init, cell_new, cell_set, cell_value, CounterCell, Partition};
use vstd::prelude::*;

verus! {

/// The counter. Its value is the identifier that will be handed out next:
/// every identifier below it has been handed out, and none from it on.
pub struct IdAllocator {
    cell: CounterCell,
}

impl View for IdAllocator {
    type V = u64;

    /// The identifier that will be handed out next.
    closed spec fn view(&self) -> u64 {
        cell_value(self.cell)
    }
}

impl IdAllocator {
    /// An allocator that starts at zero, whatever the partition held.
    pub(crate) fn new(partition: Partition) -> (allocator: IdAllocator)
        ensures
            allocator@ == 0,
    {
        IdAllocator { cell: cell_new(partition, 0) }
    }

    /// The allocator that the partition holds, or one that starts at zero
    /// where it holds none. Where it starts is whatever the partition held,
    /// so nothing is promised of it: [`IdAllocator::peek`] reads it.
    pub(crate) fn open(partition: Partition) -> IdAllocator {
        IdAllocator { cell: cell_init(partition, 0) }
    }

    /// The identifier that will be handed out next.
    pub fn peek(&self) -> (next: u64)
        ensures
            next == self@,
    {
        cell_get(&self.cell)
    }

    /// Hands out a fresh identifier. The counter is stored before the
    /// identifier is returned, so an identifier that was handed out is never
    /// handed out again, even where the caller then fails to use it.
    pub fn next_id(&mut self) -> (id: u64)
        requires
            old(self)@ < u64::MAX,
        ensures
            id == old(self)@,
            final(self)@ == old(self)@ + 1,
    {
        let current: u64 = cell_get(&self.cell);
        cell_set(&mut self.cell, current + 1)
    }
}

} // verus!
