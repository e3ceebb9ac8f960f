//! The authoritative entity tables.
//!
//! Bounds and block kinds are two tables sharing the entity id as key: every
//! live block is present in both, and the player (a distinguished entity with
//! a fixed id) has bounds but no block kind. Ids are allocated from a
//! monotonic counter and never reused. A separate id list fixes the order in
//! which collision queries walk the tables.

use vstd::prelude::*;

use std::collections::HashMap;

use crate::aabb::{Aabb, Slide};
use crate::geometry::BlockType;

verus! {

broadcast use vstd::std_specs::hash::group_hash_axioms;

/// The id no entity carries: a decoded selection pixel of 0 means "nothing".
pub const NO_ENTITY_ID: u32 = 0;

/// The player's fixed entity id.
pub const PLAYER_ID: u32 = 1;

/// The first id handed out to a block.
pub const FIRST_BLOCK_ID: u32 = 2;

/// Bounds and kinds of all live entities, keyed by id.
#[derive(Debug)]
pub struct Registry {
    /// Collision bounds of every live entity, the player included.
    pub phys: HashMap<u32, Aabb>,
    /// The keys of `phys`, in insertion order; collision queries walk this.
    pub phys_ids: Vec<u32>,
    /// Block kind of every live block (not the player).
    pub blocks: HashMap<u32, BlockType>,
    /// Next id to allocate; ids only grow.
    pub next_id: u32,
}

impl Registry {
    /// `phys_ids` lists each key of `phys` exactly once.
    pub open spec fn ids_list_ok(self) -> bool {
        &&& forall|i: int, j: int|
            0 <= i < j < self.phys_ids@.len() ==> self.phys_ids@[i] != self.phys_ids@[j]
        &&& forall|i: int|
            0 <= i < self.phys_ids@.len() ==> self.phys@.contains_key(#[trigger] self.phys_ids@[i])
        &&& forall|id: u32| #[trigger] self.phys@.contains_key(id) ==> self.phys_ids@.contains(id)
    }

    pub open spec fn wf(self) -> bool {
        &&& self.ids_list_ok()
        &&& self.phys@.contains_key(PLAYER_ID)
        &&& forall|id: u32|
            #[trigger] self.blocks@.contains_key(id) <==> (self.phys@.contains_key(id) && id
                != PLAYER_ID)
        &&& forall|id: u32| #[trigger] self.phys@.contains_key(id) ==> self.phys@[id].wf()
        &&& FIRST_BLOCK_ID <= self.next_id
        &&& forall|id: u32|
            #[trigger] self.blocks@.contains_key(id) ==> FIRST_BLOCK_ID <= id < self.next_id
    }

    /// A registry holding only the player.
    pub fn new(player_bounds: Aabb) -> (r: Registry)
        requires
            player_bounds.wf(),
        ensures
            r.wf(),
            r.phys@ == Map::<u32, Aabb>::empty().insert(PLAYER_ID, player_bounds),
            r.blocks@ == Map::<u32, BlockType>::empty(),
            r.next_id == FIRST_BLOCK_ID,
            r.phys_ids@ == seq![PLAYER_ID],
    {
        let mut phys: HashMap<u32, Aabb> = HashMap::new();
        phys.insert(PLAYER_ID, player_bounds);
        let mut phys_ids: Vec<u32> = Vec::new();
        phys_ids.push(PLAYER_ID);
        let r = Registry { phys, phys_ids, blocks: HashMap::new(), next_id: FIRST_BLOCK_ID };
        proof {
            assert(r.phys_ids@.len() == 1 && r.phys_ids@[0] == PLAYER_ID);
            assert(r.phys_ids@ =~= seq![PLAYER_ID]);
        }
        r
    }

    /// Consume and return the next id. Ids never repeat; the counter running
    /// out is a machine limit the caller keeps clear of.
    pub fn allocate_id(&mut self) -> (r: u32)
        requires
            old(self).wf(),
            old(self).next_id < u32::MAX,
        ensures
            final(self).wf(),
            r == old(self).next_id,
            final(self).next_id == old(self).next_id + 1,
            final(self).phys@ == old(self).phys@,
            final(self).phys_ids@ == old(self).phys_ids@,
            final(self).blocks@ == old(self).blocks@,
    {
        let r = self.next_id;
        self.next_id = self.next_id + 1;
        r
    }

    /// Record a block in both tables. The id must be a fresh allocated id.
    pub fn insert(&mut self, id: u32, bounds: Aabb, block_type: BlockType)
        requires
            old(self).wf(),
            !old(self).phys@.contains_key(id),
            FIRST_BLOCK_ID <= id < old(self).next_id,
            bounds.wf(),
        ensures
            final(self).wf(),
            final(self).phys@ == old(self).phys@.insert(id, bounds),
            final(self).blocks@ == old(self).blocks@.insert(id, block_type),
            final(self).phys_ids@ == old(self).phys_ids@.push(id),
            final(self).next_id == old(self).next_id,
    {
        self.phys.insert(id, bounds);
        self.blocks.insert(id, block_type);
        self.phys_ids.push(id);
        proof {
            assert forall|jd: u32| #[trigger] self.phys@.contains_key(jd) implies self.phys_ids@.contains(jd) by {
                if jd == id {
                    assert(self.phys_ids@[self.phys_ids@.len() - 1] == id);
                } else {
                    let k = choose|k: int|
                        0 <= k < old(self).phys_ids@.len() && old(self).phys_ids@[k] == jd;
                    assert(self.phys_ids@[k] == jd);
                }
            }
            assert forall|i: int|
                0 <= i < self.phys_ids@.len() implies self.phys@.contains_key(
                #[trigger] self.phys_ids@[i],
            ) by {}
        }
    }

    /// Erase a block from both tables.
    pub fn remove(&mut self, id: u32)
        requires
            old(self).wf(),
            old(self).blocks@.contains_key(id),
        ensures
            final(self).wf(),
            final(self).phys@ == old(self).phys@.remove(id),
            final(self).blocks@ == old(self).blocks@.remove(id),
            final(self).next_id == old(self).next_id,
            final(self).phys_ids@.len() == old(self).phys_ids@.len() - 1,
            exists|k: int|
                {
                    &&& 0 <= k < old(self).phys_ids@.len()
                    &&& old(self).phys_ids@[k] == id
                    &&& final(self).phys_ids@ == old(self).phys_ids@.update(
                        k,
                        old(self).phys_ids@.last(),
                    ).drop_last()
                },
            forall|jd: u32|
                #[trigger] final(self).phys@.contains_key(jd) <==> (old(self).phys@.contains_key(jd)
                    && jd != id),
    {
        let ghost olds = self.phys_ids@;
        proof {
            // `id` is a live block, so it appears in the id list.
            assert(old(self).phys@.contains_key(id));
        }
        let mut k: usize = 0;
        let n = self.phys_ids.len();
        while k < n && self.phys_ids[k] != id
            invariant
                *self == *old(self),
                olds == self.phys_ids@,
                n == olds.len(),
                k <= n,
                forall|j: int| 0 <= j < k ==> olds[j] != id,
                olds.contains(id),
            decreases n - k,
        {
            k = k + 1;
        }
        proof {
            let w = choose|w: int| 0 <= w < olds.len() && olds[w] == id;
            assert(k <= w);
            assert(k < n);
            assert(olds[k as int] == id);
        }
        let _ = self.phys_ids.swap_remove(k);
        self.phys.remove(&id);
        self.blocks.remove(&id);
        proof {
            let news = self.phys_ids@;
            assert(olds[k as int] == id);
            assert forall|jd: u32| #[trigger] self.phys@.contains_key(jd) implies news.contains(jd) by {
                assert(old(self).phys@.contains_key(jd) && jd != id);
                let w = choose|w: int| 0 <= w < olds.len() && olds[w] == jd;
                if w == olds.len() - 1 {
                    assert(news[k as int] == jd);
                } else {
                    assert(w != k);
                    assert(news[w] == jd);
                }
            }
            assert forall|i: int|
                0 <= i < news.len() implies self.phys@.contains_key(#[trigger] news[i]) by {
                if i == k {
                    assert(news[i] == olds[olds.len() - 1]);
                } else {
                    assert(news[i] == olds[i]);
                }
                assert(news[i] != id);
            }
        }
    }

    /// Bounds of a live entity. A missing id would be a broken invariant, so
    /// callers must show the id is live.
    pub fn get_bounds(&self, id: u32) -> (r: Aabb)
        requires
            self.wf(),
            self.phys@.contains_key(id),
        ensures
            r == self.phys@[id],
            r.wf(),
    {
        match self.phys.get(&id) {
            Some(b) => *b,
            None => vstd::pervasive::unreached(),
        }
    }

    /// Replace the bounds of a live entity (the player, when it moves).
    pub fn set_bounds(&mut self, id: u32, bounds: Aabb)
        requires
            old(self).wf(),
            old(self).phys@.contains_key(id),
            bounds.wf(),
        ensures
            final(self).wf(),
            final(self).phys@ == old(self).phys@.insert(id, bounds),
            final(self).blocks@ == old(self).blocks@,
            final(self).phys_ids@ == old(self).phys_ids@,
            final(self).next_id == old(self).next_id,
    {
        self.phys.insert(id, bounds);
        proof {
            assert forall|jd: u32| #[trigger] self.phys@.contains_key(jd) implies self.phys_ids@.contains(jd) by {
                assert(old(self).phys@.contains_key(jd));
            }
        }
    }

    /// Walk every live entity except `self_id` and return the slide vector of
    /// the first one colliding with `b`, or `None` when none collides.
    pub fn first_collision(&self, b: &Aabb, self_id: u32) -> (r: Option<Slide>)
        requires
            self.wf(),
        ensures
            r == spec_first_hit(self.phys_ids@, self.phys@, *b, self_id),
            r is Some <==> spec_hits_any(self.phys@, *b, self_id),
    {
        proof {
            self.lemma_first_hit_some_iff(*b, self_id, 0);
            self.lemma_hits_any_iff(*b, self_id);
        }
        let n = self.phys_ids.len();
        let mut k: usize = 0;
        while k < n
            invariant
                self.wf(),
                n == self.phys_ids@.len(),
                k <= n,
                spec_first_hit(self.phys_ids@, self.phys@, *b, self_id) == spec_first_hit_from(
                    self.phys_ids@,
                    self.phys@,
                    *b,
                    self_id,
                    k as int,
                ),
            decreases n - k,
        {
            let id = self.phys_ids[k];
            if id != self_id {
                let bounds = self.get_bounds(id);
                let hit = b.intersect(&bounds);
                if hit.is_some() {
                    proof {
                        assert(spec_first_hit_from(self.phys_ids@, self.phys@, *b, self_id, k as int)
                            == b.spec_intersect(self.phys@[self.phys_ids@[k as int]]));
                        self.lemma_first_hit_some_iff(*b, self_id, 0);
                        self.lemma_hits_any_iff(*b, self_id);
                    }
                    return hit;
                }
            }
            proof {
                assert(spec_first_hit_from(self.phys_ids@, self.phys@, *b, self_id, k as int)
                    == spec_first_hit_from(self.phys_ids@, self.phys@, *b, self_id, k + 1));
            }
            k = k + 1;
        }
        proof {
            assert(spec_first_hit_from(self.phys_ids@, self.phys@, *b, self_id, n as int) is None);
            self.lemma_first_hit_some_iff(*b, self_id, 0);
            self.lemma_hits_any_iff(*b, self_id);
        }
        None
    }

    /// Every live entity except `excluded_id`, with its bounds, in id-list
    /// order: what a mover collides against (never itself).
    pub fn iter_except(&self, excluded_id: u32) -> (r: Vec<(u32, Aabb)>)
        requires
            self.wf(),
        ensures
            r@ == spec_entries_except_from(self.phys_ids@, self.phys@, excluded_id, 0),
    {
        let n = self.phys_ids.len();
        let mut r: Vec<(u32, Aabb)> = Vec::new();
        let mut k: usize = 0;
        while k < n
            invariant
                self.wf(),
                n == self.phys_ids@.len(),
                k <= n,
                r@ + spec_entries_except_from(self.phys_ids@, self.phys@, excluded_id, k as int)
                    == spec_entries_except_from(self.phys_ids@, self.phys@, excluded_id, 0),
            decreases n - k,
        {
            let ghost rsnap = r@;
            let ghost cur = spec_entries_except_from(
                self.phys_ids@,
                self.phys@,
                excluded_id,
                k as int,
            );
            let ghost nxt = spec_entries_except_from(
                self.phys_ids@,
                self.phys@,
                excluded_id,
                k + 1,
            );
            let id = self.phys_ids[k];
            if id != excluded_id {
                let bounds = self.get_bounds(id);
                r.push((id, bounds));
                proof {
                    assert(cur =~= seq![(id, self.phys@[id])] + nxt);
                    assert(r@ + nxt =~= rsnap + cur);
                }
            }
            k = k + 1;
        }
        proof {
            assert(spec_entries_except_from(self.phys_ids@, self.phys@, excluded_id, n as int)
                =~= Seq::<(u32, Aabb)>::empty());
            assert(r@ =~= r@ + Seq::<(u32, Aabb)>::empty());
        }
        r
    }

    /// A query from position `k` finds a collision exactly when some entity
    /// at or after `k` (other than `self_id`) collides.
    proof fn lemma_first_hit_some_iff(self, b: Aabb, self_id: u32, k: int)
        requires
            self.wf(),
            0 <= k <= self.phys_ids@.len(),
        ensures
            spec_first_hit_from(self.phys_ids@, self.phys@, b, self_id, k) is Some <==> exists|
                j: int,
            |
                k <= j < self.phys_ids@.len() && #[trigger] self.phys_ids@[j] != self_id
                    && b.spec_intersect(self.phys@[self.phys_ids@[j]]) is Some,
        decreases self.phys_ids@.len() - k,
    {
        if k < self.phys_ids@.len() {
            self.lemma_first_hit_some_iff(b, self_id, k + 1);
            if self.phys_ids@[k] != self_id && b.spec_intersect(self.phys@[self.phys_ids@[k]])
                is Some {
                assert(self.phys_ids@[k] != self_id && b.spec_intersect(
                    self.phys@[self.phys_ids@[k]],
                ) is Some);
            }
        }
    }

    /// The id-list positions cover exactly the live entities, so a collision
    /// with some listed entity is a collision with some live entity.
    proof fn lemma_hits_any_iff(self, b: Aabb, self_id: u32)
        requires
            self.wf(),
        ensures
            spec_hits_any(self.phys@, b, self_id) <==> exists|j: int|
                0 <= j < self.phys_ids@.len() && #[trigger] self.phys_ids@[j] != self_id
                    && b.spec_intersect(self.phys@[self.phys_ids@[j]]) is Some,
    {
        if spec_hits_any(self.phys@, b, self_id) {
            let id = choose|id: u32|
                #[trigger] self.phys@.contains_key(id) && id != self_id && b.spec_intersect(
                    self.phys@[id],
                ) is Some;
            let j = choose|j: int| 0 <= j < self.phys_ids@.len() && self.phys_ids@[j] == id;
            assert(self.phys_ids@[j] != self_id && b.spec_intersect(
                self.phys@[self.phys_ids@[j]],
            ) is Some);
        }
    }
}

/// The entities listed from position `k` of `ids` onward, except `ex`, each
/// paired with its bounds.
pub open spec fn spec_entries_except_from(
    ids: Seq<u32>,
    phys: Map<u32, Aabb>,
    ex: u32,
    k: int,
) -> Seq<(u32, Aabb)>
    decreases ids.len() - k,
{
    if k < 0 || k >= ids.len() {
        Seq::empty()
    } else if ids[k] == ex {
        spec_entries_except_from(ids, phys, ex, k + 1)
    } else {
        seq![(ids[k], phys[ids[k]])] + spec_entries_except_from(ids, phys, ex, k + 1)
    }
}

/// The first collision of `b` against the entities listed from position `k`
/// of `ids` onward, skipping `self_id`; `phys` gives each entity's bounds.
pub open spec fn spec_first_hit_from(
    ids: Seq<u32>,
    phys: Map<u32, Aabb>,
    b: Aabb,
    self_id: u32,
    k: int,
) -> Option<Slide>
    decreases ids.len() - k,
{
    if k < 0 || k >= ids.len() {
        None
    } else if ids[k] != self_id && b.spec_intersect(phys[ids[k]]) is Some {
        b.spec_intersect(phys[ids[k]])
    } else {
        spec_first_hit_from(ids, phys, b, self_id, k + 1)
    }
}

/// The result a collision query for `b` returns: the slide vector of the
/// first colliding entity other than `self_id`, in id-list order.
pub open spec fn spec_first_hit(ids: Seq<u32>, phys: Map<u32, Aabb>, b: Aabb, self_id: u32) -> Option<
    Slide,
> {
    spec_first_hit_from(ids, phys, b, self_id, 0)
}

/// Whether any live entity other than `self_id` collides with `b`.
pub open spec fn spec_hits_any(phys: Map<u32, Aabb>, b: Aabb, self_id: u32) -> bool {
    exists|id: u32|
        #[trigger] phys.contains_key(id) && id != self_id && b.spec_intersect(phys[id]) is Some
}

/// A collision query for `self_id` never reads `self_id`'s own bounds, so it
/// is unchanged when the two bounds maps differ only at `self_id`.
pub proof fn lemma_first_hit_ignores_self(
    ids: Seq<u32>,
    m1: Map<u32, Aabb>,
    m2: Map<u32, Aabb>,
    b: Aabb,
    self_id: u32,
    k: int,
)
    requires
        0 <= k <= ids.len(),
        forall|x: u32| x != self_id ==> (#[trigger] m1.contains_key(x) <==> m2.contains_key(x)),
        forall|x: u32| x != self_id ==> #[trigger] m1[x] == m2[x],
    ensures
        spec_first_hit_from(ids, m1, b, self_id, k) == spec_first_hit_from(ids, m2, b, self_id, k),
        spec_hits_any(m1, b, self_id) == spec_hits_any(m2, b, self_id),
    decreases ids.len() - k,
{
    if k < ids.len() {
        lemma_first_hit_ignores_self(ids, m1, m2, b, self_id, k + 1);
    }
    if spec_hits_any(m1, b, self_id) {
        let id = choose|id: u32|
            #[trigger] m1.contains_key(id) && id != self_id && b.spec_intersect(m1[id]) is Some;
        assert(m2.contains_key(id) && id != self_id && b.spec_intersect(m2[id]) is Some);
    }
    if spec_hits_any(m2, b, self_id) {
        let id = choose|id: u32|
            #[trigger] m2.contains_key(id) && id != self_id && b.spec_intersect(m2[id]) is Some;
        assert(m1.contains_key(id) && id != self_id && b.spec_intersect(m1[id]) is Some);
    }
}

/// Every slide vector a collision query returns has each component 0 or 1.
pub proof fn lemma_first_hit_slide_range(
    ids: Seq<u32>,
    phys: Map<u32, Aabb>,
    b: Aabb,
    self_id: u32,
    k: int,
)
    requires
        0 <= k <= ids.len(),
    ensures
        spec_first_hit_from(ids, phys, b, self_id, k) matches Some(sl) ==> {
            &&& sl.x == 0 || sl.x == 1
            &&& sl.y == 0 || sl.y == 1
            &&& sl.z == 0 || sl.z == 1
        },
    decreases ids.len() - k,
{
    if k < ids.len() {
        lemma_first_hit_slide_range(ids, phys, b, self_id, k + 1);
    }
}

} // verus!
