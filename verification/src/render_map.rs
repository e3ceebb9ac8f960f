//! The slot table that keeps the parallel geometry buffers consistent.
//!
//! Rendered entities occupy dense slots. `index_to_id` maps a slot to the
//! entity id rendered there and `id_to_index` maps an id back to its slot;
//! the two are mutual inverses over exactly the set of rendered entities.
//! Three mirror buffers (world triangles, outlines, selection triangles) hold
//! one fixed-size record per slot, in identical order. Removal compacts in
//! O(1): the last slot's records and id move into the freed slot.

use vstd::prelude::*;

use std::collections::HashMap;

use crate::buffer::RecordBuffer;
use crate::geometry::{Rgba, Vtx, LINE_VERTICES_PER_BOX, TRIANGLE_VERTICES_PER_BOX};
use crate::selection::IdColor;

verus! {

broadcast use vstd::std_specs::hash::group_hash_axioms;

/// The id↔slot tables and the three geometry buffers they index.
#[derive(Debug)]
pub struct RenderTables {
    /// Slot to entity id.
    pub index_to_id: Vec<u32>,
    /// Entity id to slot; inverse of `index_to_id`.
    pub id_to_index: HashMap<u32, usize>,
    /// Per-slot coloured triangle records.
    pub world_triangles: RecordBuffer<Vec<Vtx<Rgba>>>,
    /// Per-slot outline records.
    pub outlines: RecordBuffer<Vec<Vtx<Rgba>>>,
    /// Per-slot selection-colour triangle records.
    pub selection_triangles: RecordBuffer<Vec<Vtx<IdColor>>>,
}

impl RenderTables {
    /// Number of rendered entities (equivalently, of live slots).
    pub open spec fn live_count(self) -> int {
        self.index_to_id@.len() as int
    }

    /// Whether `id` is rendered.
    pub open spec fn contains_id(self, id: u32) -> bool {
        self.id_to_index@.contains_key(id)
    }

    /// The slot `id` is rendered at.
    pub open spec fn slot_of(self, id: u32) -> int {
        self.id_to_index@[id] as int
    }

    /// The id↔slot tables are mutual inverses over the rendered entities.
    pub open spec fn maps_inverse(self) -> bool {
        &&& forall|i: int|
            0 <= i < self.index_to_id@.len() ==> {
                &&& self.id_to_index@.contains_key(#[trigger] self.index_to_id@[i])
                &&& self.id_to_index@[self.index_to_id@[i]] == i
            }
        &&& forall|id: u32|
            #[trigger] self.id_to_index@.contains_key(id) ==> {
                &&& self.id_to_index@[id] < self.index_to_id@.len()
                &&& self.index_to_id@[self.id_to_index@[id] as int] == id
            }
    }

    /// Every buffer holds one fixed-size record per live slot, within a
    /// common capacity.
    pub open spec fn buffers_in_step(self) -> bool {
        &&& self.world_triangles@.len() == self.live_count()
        &&& self.outlines@.len() == self.live_count()
        &&& self.selection_triangles@.len() == self.live_count()
        &&& self.world_triangles.wf()
        &&& self.outlines.wf()
        &&& self.selection_triangles.wf()
        &&& self.outlines.spec_capacity() == self.world_triangles.spec_capacity()
        &&& self.selection_triangles.spec_capacity() == self.world_triangles.spec_capacity()
        &&& forall|i: int|
            0 <= i < self.live_count() ==> (#[trigger] self.world_triangles@[i])@.len()
                == TRIANGLE_VERTICES_PER_BOX
        &&& forall|i: int|
            0 <= i < self.live_count() ==> (#[trigger] self.outlines@[i])@.len()
                == LINE_VERTICES_PER_BOX
        &&& forall|i: int|
            0 <= i < self.live_count() ==> (#[trigger] self.selection_triangles@[i])@.len()
                == TRIANGLE_VERTICES_PER_BOX
    }

    pub open spec fn wf(self) -> bool {
        &&& self.maps_inverse()
        &&& self.buffers_in_step()
    }

    pub open spec fn spec_capacity(self) -> usize {
        self.world_triangles.spec_capacity()
    }

    /// Empty tables over three buffers of `capacity` slots each.
    pub fn new(capacity: usize) -> (r: RenderTables)
        ensures
            r.wf(),
            r.live_count() == 0,
            r.spec_capacity() == capacity,
            r.id_to_index@ == Map::<u32, usize>::empty(),
            r.index_to_id@ == Seq::<u32>::empty(),
    {
        RenderTables {
            index_to_id: Vec::new(),
            id_to_index: HashMap::new(),
            world_triangles: RecordBuffer::new(capacity),
            outlines: RecordBuffer::new(capacity),
            selection_triangles: RecordBuffer::new(capacity),
        }
    }

    pub fn len(&self) -> (r: usize)
        ensures
            r == self.live_count(),
    {
        self.index_to_id.len()
    }

    pub fn contains(&self, id: u32) -> (r: bool)
        ensures
            r == self.contains_id(id),
    {
        self.id_to_index.contains_key(&id)
    }

    /// The slot `id` is rendered at.
    pub fn slot(&self, id: u32) -> (r: usize)
        requires
            self.wf(),
            self.contains_id(id),
        ensures
            r == self.slot_of(id),
            r < self.live_count(),
    {
        match self.id_to_index.get(&id) {
            Some(s) => *s,
            None => vstd::pervasive::unreached(),
        }
    }

    /// The id rendered at `slot`.
    pub fn id_at(&self, slot: usize) -> (r: u32)
        requires
            self.wf(),
            slot < self.live_count(),
        ensures
            r == self.index_to_id@[slot as int],
            self.contains_id(r),
    {
        self.index_to_id[slot]
    }

    /// Render `id` at the next slot: one record goes to each buffer, and the
    /// id↔slot tables record the new slot.
    pub fn append(
        &mut self,
        id: u32,
        triangles: Vec<Vtx<Rgba>>,
        outline: Vec<Vtx<Rgba>>,
        selection: Vec<Vtx<IdColor>>,
    )
        requires
            old(self).wf(),
            !old(self).contains_id(id),
            old(self).live_count() < old(self).spec_capacity(),
            triangles@.len() == TRIANGLE_VERTICES_PER_BOX,
            outline@.len() == LINE_VERTICES_PER_BOX,
            selection@.len() == TRIANGLE_VERTICES_PER_BOX,
        ensures
            final(self).wf(),
            final(self).spec_capacity() == old(self).spec_capacity(),
            final(self).index_to_id@ == old(self).index_to_id@.push(id),
            final(self).id_to_index@ == old(self).id_to_index@.insert(
                id,
                old(self).live_count() as usize,
            ),
            final(self).world_triangles@ == old(self).world_triangles@.push(triangles),
            final(self).outlines@ == old(self).outlines@.push(outline),
            final(self).selection_triangles@ == old(self).selection_triangles@.push(selection),
            final(self).live_count() == old(self).live_count() + 1,
            final(self).contains_id(id),
            final(self).slot_of(id) == old(self).live_count(),
    {
        let slot = self.index_to_id.len();
        self.index_to_id.push(id);
        self.id_to_index.insert(id, slot);
        self.world_triangles.push(triangles);
        self.outlines.push(outline);
        self.selection_triangles.push(selection);
    }

    /// Stop rendering `id`. The freed slot is filled by the records and id of
    /// the last slot (a removal of the last slot is a plain truncation), so
    /// the buffers stay dense and in lockstep: afterwards all three hold
    /// exactly one record per remaining entity, in identical order, and the
    /// id↔slot tables remain mutual inverses.
    pub fn remove(&mut self, id: u32)
        requires
            old(self).wf(),
            old(self).contains_id(id),
        ensures
            final(self).wf(),
            final(self).spec_capacity() == old(self).spec_capacity(),
            final(self).live_count() == old(self).live_count() - 1,
            !final(self).contains_id(id),
            final(self).index_to_id@ == old(self).index_to_id@.update(
                old(self).slot_of(id),
                old(self).index_to_id@.last(),
            ).drop_last(),
            final(self).world_triangles@ == old(self).world_triangles@.update(
                old(self).slot_of(id),
                old(self).world_triangles@.last(),
            ).drop_last(),
            final(self).outlines@ == old(self).outlines@.update(
                old(self).slot_of(id),
                old(self).outlines@.last(),
            ).drop_last(),
            final(self).selection_triangles@ == old(self).selection_triangles@.update(
                old(self).slot_of(id),
                old(self).selection_triangles@.last(),
            ).drop_last(),
            final(self).id_to_index@ == if old(self).index_to_id@.last() == id {
                old(self).id_to_index@.remove(id)
            } else {
                old(self).id_to_index@.remove(id).insert(
                    old(self).index_to_id@.last(),
                    old(self).slot_of(id) as usize,
                )
            },
            final(self).world_triangles@.len() == final(self).live_count(),
            final(self).outlines@.len() == final(self).live_count(),
            final(self).selection_triangles@.len() == final(self).live_count(),
    {
        let slot = self.slot(id);
        let last = self.index_to_id.len() - 1;
        let moved_id = self.index_to_id[last];
        let _ = self.index_to_id.swap_remove(slot);
        self.world_triangles.swap_remove(slot);
        self.outlines.swap_remove(slot);
        self.selection_triangles.swap_remove(slot);
        self.id_to_index.remove(&id);
        if moved_id != id {
            proof {
                // `moved_id` sat at the last slot, `id` at `slot`; distinct
                // ids occupy distinct slots, so `slot` was not the last.
                assert(old(self).id_to_index@[moved_id] == last);
                assert(old(self).id_to_index@[id] == slot);
            }
            self.id_to_index.insert(moved_id, slot);
        }
        proof {
            let olds = old(self).index_to_id@;
            let news = self.index_to_id@;
            assert forall|i: int| 0 <= i < news.len() implies {
                &&& self.id_to_index@.contains_key(#[trigger] news[i])
                &&& self.id_to_index@[news[i]] == i
            } by {
                if i != slot {
                    assert(news[i] == olds[i]);
                    assert(old(self).id_to_index@[olds[i]] == i);
                }
            }
            assert forall|other: u32| #[trigger]
                self.id_to_index@.contains_key(other) implies {
                &&& self.id_to_index@[other] < news.len()
                &&& news[self.id_to_index@[other] as int] == other
            } by {
                if moved_id != id && other == moved_id {
                } else {
                    let j = old(self).id_to_index@[other] as int;
                    assert(olds[j] == other);
                    if j == olds.len() - 1 {
                        assert(other == moved_id);
                    } else {
                        assert(news[j] == olds[j]);
                    }
                }
            }
        }
    }
}

/// Law: in every well-formed state the two slot tables are mutual inverses —
/// each rendered id's slot holds that id, each slot's id maps back to that
/// slot — and their common size equals the number of rendered entities, as
/// does the record count of every geometry buffer.
pub proof fn lemma_slot_tables_inverse(t: RenderTables)
    requires
        t.wf(),
    ensures
        forall|i: int|
            0 <= i < t.index_to_id@.len() ==> t.id_to_index@.contains_key(
                #[trigger] t.index_to_id@[i],
            ) && t.id_to_index@[t.index_to_id@[i]] == i,
        forall|id: u32|
            #[trigger] t.id_to_index@.contains_key(id) ==> t.id_to_index@[id]
                < t.index_to_id@.len() && t.index_to_id@[t.id_to_index@[id] as int] == id,
        t.index_to_id@.len() == t.live_count(),
        t.world_triangles@.len() == t.live_count(),
        t.outlines@.len() == t.live_count(),
        t.selection_triangles@.len() == t.live_count(),
{
}

} // verus!
