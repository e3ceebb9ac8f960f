//! A fixed-capacity store of per-entity geometry records.
//!
//! This models the capacity-bounded GPU-side vertex buffer: one record per
//! rendered entity, appended at the end and removed by an O(1) compacting
//! swap (the last record moves into the freed slot). The simulation keeps one
//! such buffer per geometry kind, all in lockstep slot order; the rendering
//! layer mirrors the records verbatim.

use vstd::prelude::*;

verus! {

/// A dense sequence of records with a capacity fixed at construction.
#[derive(Debug)]
pub struct RecordBuffer<T> {
    pub records: Vec<T>,
    pub capacity: usize,
}

impl<T> RecordBuffer<T> {
    /// The records currently held, slot by slot.
    pub open spec fn view(self) -> Seq<T> {
        self.records@
    }

    pub open spec fn spec_capacity(self) -> usize {
        self.capacity
    }

    /// The buffer never outgrows its capacity.
    pub open spec fn wf(self) -> bool {
        self.records@.len() <= self.capacity
    }

    /// An empty buffer able to hold `capacity` records.
    pub fn new(capacity: usize) -> (r: RecordBuffer<T>)
        ensures
            r.wf(),
            r.view() == Seq::<T>::empty(),
            r.spec_capacity() == capacity,
    {
        RecordBuffer { records: Vec::new(), capacity }
    }

    pub fn len(&self) -> (r: usize)
        ensures
            r == self.view().len(),
    {
        self.records.len()
    }

    /// Append one record at the next slot. The caller must leave room; the
    /// buffer cannot grow past its capacity.
    pub fn push(&mut self, record: T)
        requires
            old(self).wf(),
            old(self).view().len() < old(self).spec_capacity(),
        ensures
            final(self).wf(),
            final(self).spec_capacity() == old(self).spec_capacity(),
            final(self).view() == old(self).view().push(record),
    {
        self.records.push(record);
    }

    /// Compacting removal of the record at `slot`: the last record takes its
    /// place (a removal of the last slot is a plain truncation).
    pub fn swap_remove(&mut self, slot: usize)
        requires
            old(self).wf(),
            slot < old(self).view().len(),
        ensures
            final(self).wf(),
            final(self).spec_capacity() == old(self).spec_capacity(),
            final(self).view() == old(self).view().update(
                slot as int,
                old(self).view().last(),
            ).drop_last(),
            final(self).view().len() == old(self).view().len() - 1,
    {
        let _ = self.records.swap_remove(slot);
    }

    /// Read the record at `slot`.
    pub fn record_at(&self, slot: usize) -> (r: &T)
        requires
            slot < self.view().len(),
        ensures
            *r == self.view()[slot as int],
    {
        &self.records[slot]
    }
}

} // verus!
