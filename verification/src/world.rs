//! The world: entity registry, render tables, load queue and player, kept in
//! lockstep.
//!
//! Placing a block assigns it the next id and enqueues its descriptor; the
//! incremental loader materializes queued blocks a bounded batch per tick,
//! inserting each into the registry and rendering its geometry in the same
//! step. Removal erases registry entry and render slot together. The player
//! moves one axis at a time against the registry's bounds, sliding along
//! overlapping axes.

use vstd::prelude::*;

use crate::aabb::{Aabb, Slide};
use crate::geometry::{
    block_color, to_outlines, to_triangles, spec_block_color, spec_to_outlines,
    spec_to_triangles, spec_outline_color, BlockType, Rgba,
};
use crate::player::{
    spec_fuel_phase, spec_integrated_speed, Player, JUMP_ACCEL, MAX_JUMP_FUEL, WALK_ACCEL,
};
use crate::registry::{
    lemma_first_hit_ignores_self, lemma_first_hit_slide_range, spec_first_hit, spec_hits_any,
    Registry, FIRST_BLOCK_ID, NO_ENTITY_ID, PLAYER_ID,
};
use crate::render_map::RenderTables;
use crate::selection::{id_color, spec_id_color, IdColor};
use crate::units::{div_trunc, ACCEL_LIMIT, COORD_LIMIT, SPEED_LIMIT, UNIT, V3};

verus! {

/// Capacity of the geometry buffers, in blocks.
pub const MAX_WORLD_BLOCKS: usize = 100000;

/// How many blocks the loader materializes per update tick at most.
pub const LOAD_SPEED: u32 = 4096;

/// Milli-degrees in a full lateral turn.
pub const FULL_TURN: i64 = 360000;

/// Milli-degrees in a quarter turn: the open bound on vertical rotation.
pub const QUARTER_TURN: i64 = 90000;

/// Distance a block placed against a face is offset by: half a unit.
pub const FACE_OFFSET: i64 = 500;

/// A block waiting to be materialized: bounds and kind, with its id fixed by
/// its queue position.
#[derive(Clone, Copy, PartialEq, Eq, Structural, Debug)]
pub struct BlockDesc {
    pub bounds: Aabb,
    pub block_type: BlockType,
}

/// The whole simulation state.
#[derive(Debug)]
pub struct World {
    /// Bounds and kinds of live entities.
    pub registry: Registry,
    /// Slot tables and geometry buffers of the rendered blocks.
    pub render: RenderTables,
    /// Descriptor of block `FIRST_BLOCK_ID + k` at position `k`; blocks keep
    /// their queue entry after loading, the cursor below separates them.
    pub queue: Vec<BlockDesc>,
    /// Id of the next block to materialize; all smaller block ids are loaded
    /// (or were loaded and have been removed).
    pub next_load_id: u32,
    /// The player's motion state; its bounds live in the registry.
    pub player: Player,
    /// Lateral view rotation in milli-degrees, normalized into one turn.
    pub lateral_rotation: i64,
    /// Vertical view rotation in milli-degrees, strictly inside a quarter
    /// turn either way.
    pub vertical_rotation: i64,
}

/// The six face colours of a block's world-triangle record: its fill colour
/// repeated.
pub open spec fn spec_tri_colors(t: BlockType) -> Seq<Rgba> {
    let c = spec_block_color(t);
    seq![c, c, c, c, c, c]
}

/// The six face colours of a block's selection record: each face pixel-
/// encodes `id * 6 + face`.
pub open spec fn spec_sel_colors(id: u32) -> Seq<IdColor> {
    Seq::new(6, |f: int| spec_id_color(((id as int) * 6 + f) as u32))
}

/// The player's motion state after one translation attempt by `v` that met
/// collision result `hit`: on a collision the position is not committed, the
/// velocity is zeroed along every overlapping axis, and a downward attempt
/// refills the jump fuel (a landing); without a collision a downward attempt
/// empties it (still falling).
pub open spec fn spec_translate_player(p: Player, v: V3, hit: Option<Slide>) -> Player {
    match hit {
        Some(sl) => Player {
            speed: V3 {
                x: (p.speed.x + v.x * sl.x - v.x) as i64,
                y: (p.speed.y + v.y * sl.y - v.y) as i64,
                z: (p.speed.z + v.z * sl.z - v.z) as i64,
            },
            jump_fuel: if v.y < 0 {
                MAX_JUMP_FUEL
            } else {
                p.jump_fuel
            },
            ..p
        },
        None => Player {
            jump_fuel: if v.y < 0 {
                0
            } else {
                p.jump_fuel
            },
            ..p
        },
    }
}

/// One translation attempt: the candidate box is the player's bounds shifted
/// by `v`; the first colliding entity (in id-list order) decides the
/// outcome. Returns the player's new motion state and bounds.
pub open spec fn spec_translate_step(
    ids: Seq<u32>,
    phys: Map<u32, Aabb>,
    p: Player,
    b: Aabb,
    v: V3,
) -> (Player, Aabb) {
    let cand = spec_shifted(b, v);
    let hit = spec_first_hit(ids, phys, cand, PLAYER_ID);
    (spec_translate_player(p, v, hit), if hit is Some {
        b
    } else {
        cand
    })
}

/// The player phase of one tick, over a fixed snapshot of the other
/// entities: the jump-fuel phase, one translation attempt per axis with a
/// non-zero velocity component (x, then y, then z — this separation is what
/// lets the player slide along walls), then velocity integration. Returns
/// the player's motion state and bounds after the phase. The snapshot
/// suffices because a player collision query never reads the player's own
/// bounds.
pub open spec fn spec_player_phase(
    ids: Seq<u32>,
    phys: Map<u32, Aabb>,
    p: Player,
    b0: Aabb,
    c: int,
    s: int,
) -> (Player, Aabb) {
    let p1 = spec_fuel_phase(p);
    let dp = p1.speed;
    let (p2, b1) = if dp.x != 0 {
        spec_translate_step(ids, phys, p1, b0, V3 { x: dp.x, y: 0, z: 0 })
    } else {
        (p1, b0)
    };
    let (p3, b2) = if dp.y != 0 {
        spec_translate_step(ids, phys, p2, b1, V3 { x: 0, y: dp.y, z: 0 })
    } else {
        (p2, b1)
    };
    let (p4, b3) = if dp.z != 0 {
        spec_translate_step(ids, phys, p3, b2, V3 { x: 0, y: 0, z: dp.z })
    } else {
        (p3, b2)
    };
    (Player { speed: spec_integrated_speed(p4, c, s), ..p4 }, b3)
}

/// `b` shifted by `v`, componentwise.
pub open spec fn spec_shifted(b: Aabb, v: V3) -> Aabb {
    Aabb {
        low: V3 {
            x: (b.low.x + v.x) as i64,
            y: (b.low.y + v.y) as i64,
            z: (b.low.z + v.z) as i64,
        },
        high: V3 {
            x: (b.high.x + v.x) as i64,
            y: (b.high.y + v.y) as i64,
            z: (b.high.z + v.z) as i64,
        },
    }
}

/// The shift of `b` by `v` stays inside the world's coordinate range.
pub open spec fn spec_shift_ok(b: Aabb, v: V3) -> bool {
    &&& -COORD_LIMIT <= b.low.x + v.x <= COORD_LIMIT
    &&& -COORD_LIMIT <= b.low.y + v.y <= COORD_LIMIT
    &&& -COORD_LIMIT <= b.low.z + v.z <= COORD_LIMIT
    &&& -COORD_LIMIT <= b.high.x + v.x <= COORD_LIMIT
    &&& -COORD_LIMIT <= b.high.y + v.y <= COORD_LIMIT
    &&& -COORD_LIMIT <= b.high.z + v.z <= COORD_LIMIT
}

impl World {
    /// One id past the last allocated block id.
    pub open spec fn spec_next_block_id(self) -> int {
        self.registry.next_id as int
    }

    /// Ids are allocated in step with the queue, and the queue fits the
    /// geometry buffers.
    pub open spec fn queue_ok(self) -> bool {
        &&& self.spec_next_block_id() == FIRST_BLOCK_ID + self.queue@.len()
        &&& self.queue@.len() <= MAX_WORLD_BLOCKS
        &&& forall|k: int| 0 <= k < self.queue@.len() ==> (#[trigger] self.queue@[k]).bounds.wf()
        &&& FIRST_BLOCK_ID <= self.next_load_id <= self.spec_next_block_id()
    }

    /// Registry and render tables hold exactly the loaded, not-removed
    /// blocks, with the bounds and kinds their queue descriptors fixed.
    pub open spec fn tables_ok(self) -> bool {
        &&& forall|id: u32|
            #[trigger] self.render.contains_id(id) <==> self.registry.blocks@.contains_key(id)
        &&& forall|id: u32| #[trigger] self.registry.blocks@.contains_key(id) ==> id
            < self.next_load_id
        &&& forall|id: u32|
            #[trigger] self.registry.blocks@.contains_key(id) ==> {
                &&& self.registry.phys@[id] == self.queue@[id - FIRST_BLOCK_ID].bounds
                &&& self.registry.blocks@[id] == self.queue@[id - FIRST_BLOCK_ID].block_type
            }
        &&& self.render.live_count() <= self.next_load_id - FIRST_BLOCK_ID
        &&& self.render.spec_capacity() == MAX_WORLD_BLOCKS
    }

    /// Every render slot mirrors its block: the three records at a slot are
    /// exactly the geometry of the block rendered there.
    pub open spec fn records_ok(self) -> bool {
        forall|i: int|
            0 <= i < self.render.live_count() ==> {
                let id = #[trigger] self.render.index_to_id@[i];
                let b = self.registry.phys@[id];
                &&& (self.render.world_triangles@[i])@ == spec_to_triangles(
                    b,
                    spec_tri_colors(self.registry.blocks@[id]),
                )
                &&& (self.render.outlines@[i])@ == spec_to_outlines(b, spec_outline_color())
                &&& (self.render.selection_triangles@[i])@ == spec_to_triangles(
                    b,
                    spec_sel_colors(id),
                )
            }
    }

    pub open spec fn rotations_ok(self) -> bool {
        &&& 0 <= self.lateral_rotation < FULL_TURN
        &&& -QUARTER_TURN < self.vertical_rotation < QUARTER_TURN
    }

    pub open spec fn wf(self) -> bool {
        &&& self.registry.wf()
        &&& self.render.wf()
        &&& self.player.wf()
        &&& self.queue_ok()
        &&& self.tables_ok()
        &&& self.records_ok()
        &&& self.rotations_ok()
    }

    /// The player's collision bounds.
    pub open spec fn spec_player_bounds(self) -> Aabb {
        self.registry.phys@[PLAYER_ID]
    }

    /// An empty world: only the player exists, nothing is queued or loaded.
    pub fn new() -> (r: World)
        ensures
            r.wf(),
            r.registry.blocks@ == Map::<u32, BlockType>::empty(),
            r.spec_next_block_id() == FIRST_BLOCK_ID,
            r.next_load_id == FIRST_BLOCK_ID,
            r.queue@ == Seq::<BlockDesc>::empty(),
            r.render.live_count() == 0,
            r.player == (Player {
                speed: V3 { x: 0, y: 0, z: 0 },
                accel: V3 { x: 0, y: -100i64, z: 0 },
                jump_fuel: 0,
                is_jumping: false,
            }),
            r.spec_player_bounds() == (Aabb {
                low: V3 { x: -1000i64, y: -2000i64, z: -1000i64 },
                high: V3 { x: 0, y: 0, z: 0 },
            }),
            r.registry.phys_ids@ == seq![PLAYER_ID],
            r.registry.phys@ == Map::<u32, Aabb>::empty().insert(
                PLAYER_ID,
                r.spec_player_bounds(),
            ),
            r.lateral_rotation == 0,
            r.vertical_rotation == 0,
    {
        let player_bounds = Aabb {
            low: V3 { x: -1000, y: -2000, z: -1000 },
            high: V3 { x: 0, y: 0, z: 0 },
        };
        World {
            registry: Registry::new(player_bounds),
            render: RenderTables::new(MAX_WORLD_BLOCKS),
            queue: Vec::new(),
            next_load_id: FIRST_BLOCK_ID,
            player: Player::new(),
            lateral_rotation: 0,
            vertical_rotation: 0,
        }
    }

    /// How many blocks the next load tick materializes: all queued blocks not
    /// yet loaded, but at most `LOAD_SPEED`.
    pub open spec fn spec_load_count(self) -> int {
        let avail = self.spec_next_block_id() - self.next_load_id;
        if avail <= LOAD_SPEED {
            avail
        } else {
            LOAD_SPEED as int
        }
    }

    /// Whether the next load tick materializes block `id`.
    pub open spec fn spec_in_load_range(self, id: u32) -> bool {
        self.next_load_id <= id < self.next_load_id + self.spec_load_count()
    }

    /// The ids the collision queries walk after the next load tick: the
    /// current list followed by the loaded batch in id order.
    pub open spec fn spec_ids_after_load(self) -> Seq<u32> {
        self.registry.phys_ids@ + Seq::new(
            self.spec_load_count() as nat,
            |k: int| (self.next_load_id + k) as u32,
        )
    }

    /// The bounds map after the next load tick: the loaded batch is added
    /// with the bounds its queue descriptors fixed.
    pub open spec fn spec_phys_after_load(self) -> Map<u32, Aabb> {
        Map::new(
            |id: u32| self.registry.phys@.contains_key(id) || self.spec_in_load_range(id),
            |id: u32|
                if self.spec_in_load_range(id) {
                    self.queue@[id - FIRST_BLOCK_ID].bounds
                } else {
                    self.registry.phys@[id]
                },
        )
    }

    /// The block-kind map after the next load tick.
    pub open spec fn spec_blocks_after_load(self) -> Map<u32, BlockType> {
        Map::new(
            |id: u32| self.registry.blocks@.contains_key(id) || self.spec_in_load_range(id),
            |id: u32|
                if self.spec_in_load_range(id) {
                    self.queue@[id - FIRST_BLOCK_ID].block_type
                } else {
                    self.registry.blocks@[id]
                },
        )
    }

    /// Materialize the next batch of queued blocks, strictly in id order:
    /// each gets its registry entries and its render slot in one step. The
    /// load cursor advances by exactly `min(LOAD_SPEED, next_block_id -
    /// next_load_id)` and never passes `next_block_id`.
    pub fn load_tick(&mut self)
        requires
            old(self).wf(),
        ensures
            final(self).wf(),
            final(self).next_load_id == old(self).next_load_id + old(self).spec_load_count(),
            final(self).next_load_id <= final(self).spec_next_block_id(),
            final(self).registry.phys_ids@ == old(self).spec_ids_after_load(),
            final(self).registry.phys@ == old(self).spec_phys_after_load(),
            final(self).registry.blocks@ == old(self).spec_blocks_after_load(),
            final(self).render.index_to_id@ == old(self).render.index_to_id@ + Seq::new(
                old(self).spec_load_count() as nat,
                |k: int| (old(self).next_load_id + k) as u32,
            ),
            final(self).queue@ == old(self).queue@,
            final(self).spec_next_block_id() == old(self).spec_next_block_id(),
            final(self).player == old(self).player,
            final(self).spec_player_bounds() == old(self).spec_player_bounds(),
            final(self).lateral_rotation == old(self).lateral_rotation,
            final(self).vertical_rotation == old(self).vertical_rotation,
    {
        let mut i: u32 = 0;
        while i < LOAD_SPEED && self.next_load_id < self.registry.next_id
            invariant
                self.wf(),
                i <= LOAD_SPEED,
                self.next_load_id == old(self).next_load_id + i,
                self.queue@ == old(self).queue@,
                self.registry.next_id == old(self).registry.next_id,
                self.player == old(self).player,
                self.lateral_rotation == old(self).lateral_rotation,
                self.vertical_rotation == old(self).vertical_rotation,
                self.registry.phys@.contains_key(PLAYER_ID),
                self.registry.phys@[PLAYER_ID] == old(self).registry.phys@[PLAYER_ID],
                self.registry.phys_ids@ == old(self).registry.phys_ids@ + Seq::new(
                    i as nat,
                    |k: int| (old(self).next_load_id + k) as u32,
                ),
                self.render.index_to_id@ == old(self).render.index_to_id@ + Seq::new(
                    i as nat,
                    |k: int| (old(self).next_load_id + k) as u32,
                ),
                forall|id: u32|
                    #[trigger] self.registry.blocks@.contains_key(id) <==> (old(
                        self,
                    ).registry.blocks@.contains_key(id) || old(self).next_load_id <= id
                        < self.next_load_id),
                forall|id: u32|
                    #[trigger] old(self).registry.phys@.contains_key(id) ==> (
                    self.registry.phys@.contains_key(id) && self.registry.phys@[id] == old(
                        self,
                    ).registry.phys@[id]),
            decreases LOAD_SPEED - i,
        {
            let ghost prev = *self;
            let id = self.next_load_id;
            proof {
                // The id to load is fresh: loaded blocks sit strictly below
                // the cursor, and the player's id is below the block range.
                assert(FIRST_BLOCK_ID <= id);
                if self.registry.phys@.contains_key(id) {
                    assert(self.registry.blocks@.contains_key(id));
                    assert(false);
                }
                // There is room in the buffers: every rendered block was
                // loaded from the queue, which the buffers can hold whole.
                assert(self.render.live_count() <= self.next_load_id - FIRST_BLOCK_ID);
                assert(self.next_load_id - FIRST_BLOCK_ID < self.queue@.len());
            }
            let k = (id - FIRST_BLOCK_ID) as usize;
            let desc = self.queue[k];
            self.registry.insert(id, desc.bounds, desc.block_type);
            let color = block_color(desc.block_type);
            let mut cs: Vec<Rgba> = Vec::new();
            cs.push(color);
            cs.push(color);
            cs.push(color);
            cs.push(color);
            cs.push(color);
            cs.push(color);
            let triangles = to_triangles(&desc.bounds, &cs);
            let outline = to_outlines(&desc.bounds);
            proof {
                assert(id < FIRST_BLOCK_ID + MAX_WORLD_BLOCKS);
            }
            let base = id * 6;
            let mut sel_cs: Vec<IdColor> = Vec::new();
            sel_cs.push(id_color(base));
            sel_cs.push(id_color(base + 1));
            sel_cs.push(id_color(base + 2));
            sel_cs.push(id_color(base + 3));
            sel_cs.push(id_color(base + 4));
            sel_cs.push(id_color(base + 5));
            let selection = to_triangles(&desc.bounds, &sel_cs);
            proof {
                assert(cs@ =~= spec_tri_colors(desc.block_type));
                assert(sel_cs@ =~= spec_sel_colors(id));
            }
            self.render.append(id, triangles, outline, selection);
            self.next_load_id = id + 1;
            i = i + 1;
            proof {
                assert(self.registry.phys_ids@ =~= old(self).registry.phys_ids@ + Seq::new(
                    i as nat,
                    |k: int| (old(self).next_load_id + k) as u32,
                ));
                assert(self.render.index_to_id@ =~= old(self).render.index_to_id@ + Seq::new(
                    i as nat,
                    |k: int| (old(self).next_load_id + k) as u32,
                ));
                assert forall|jd: u32| #[trigger]
                    self.render.contains_id(jd) <==> self.registry.blocks@.contains_key(
                    jd,
                ) by {
                    if jd != id {
                        assert(self.render.contains_id(jd) == prev.render.contains_id(jd));
                    }
                }
                assert forall|jd: u32| #[trigger]
                    self.registry.blocks@.contains_key(jd) implies {
                    &&& self.registry.phys@[jd] == self.queue@[jd - FIRST_BLOCK_ID].bounds
                    &&& self.registry.blocks@[jd] == self.queue@[jd - FIRST_BLOCK_ID].block_type
                } by {
                    if jd != id {
                        assert(prev.registry.blocks@.contains_key(jd));
                    }
                }
                assert forall|slot: int| 0 <= slot < self.render.live_count() implies {
                    let jd = #[trigger] self.render.index_to_id@[slot];
                    let b = self.registry.phys@[jd];
                    &&& (self.render.world_triangles@[slot])@ == spec_to_triangles(
                        b,
                        spec_tri_colors(self.registry.blocks@[jd]),
                    )
                    &&& (self.render.outlines@[slot])@ == spec_to_outlines(
                        b,
                        spec_outline_color(),
                    )
                    &&& (self.render.selection_triangles@[slot])@ == spec_to_triangles(
                        b,
                        spec_sel_colors(jd),
                    )
                } by {
                    if slot < prev.render.live_count() {
                        let jd = self.render.index_to_id@[slot];
                        assert(jd == prev.render.index_to_id@[slot]);
                        assert(prev.render.contains_id(jd));
                        assert(prev.registry.blocks@.contains_key(jd));
                        assert(jd != id);
                        assert(self.render.world_triangles@[slot]
                            == prev.render.world_triangles@[slot]);
                        assert(self.render.outlines@[slot] == prev.render.outlines@[slot]);
                        assert(self.render.selection_triangles@[slot]
                            == prev.render.selection_triangles@[slot]);
                        assert(self.registry.phys@[jd] == prev.registry.phys@[jd]);
                        assert(self.registry.blocks@[jd] == prev.registry.blocks@[jd]);
                    } else {
                        assert(self.render.index_to_id@[slot] == id);
                    }
                }
            }
        }
        proof {
            assert(i == old(self).spec_load_count());
            let ow = *old(self);
            assert forall|jd: u32|
                self.registry.blocks@.contains_key(jd)
                    == #[trigger] ow.spec_blocks_after_load().contains_key(jd) by {}
            assert forall|jd: u32| #[trigger]
                self.registry.blocks@.contains_key(jd) implies self.registry.blocks@[jd]
                == ow.spec_blocks_after_load()[jd] by {
                if !ow.spec_in_load_range(jd) {
                    assert(ow.registry.blocks@.contains_key(jd));
                    assert(ow.registry.blocks@[jd] == ow.queue@[jd - FIRST_BLOCK_ID].block_type);
                }
                assert(self.registry.blocks@[jd] == self.queue@[jd - FIRST_BLOCK_ID].block_type);
            }
            assert(self.registry.blocks@ =~= ow.spec_blocks_after_load());
            assert forall|jd: u32|
                self.registry.phys@.contains_key(jd)
                    == #[trigger] ow.spec_phys_after_load().contains_key(jd) by {
                if jd == PLAYER_ID {
                    assert(self.registry.phys@.contains_key(jd));
                    assert(ow.registry.phys@.contains_key(jd));
                } else {
                    assert(self.registry.phys@.contains_key(jd)
                        == self.registry.blocks@.contains_key(jd));
                    assert(ow.registry.phys@.contains_key(jd)
                        == ow.registry.blocks@.contains_key(jd));
                }
            }
            assert forall|jd: u32| #[trigger]
                self.registry.phys@.contains_key(jd) implies self.registry.phys@[jd]
                == ow.spec_phys_after_load()[jd] by {
                assert(PLAYER_ID < FIRST_BLOCK_ID <= ow.next_load_id);
                if jd == PLAYER_ID {
                    assert(!ow.spec_in_load_range(jd));
                    assert(self.registry.phys@[jd] == ow.registry.phys@[jd]);
                } else {
                    assert(self.registry.blocks@.contains_key(jd));
                    assert(self.registry.phys@[jd] == self.queue@[jd - FIRST_BLOCK_ID].bounds);
                    if !ow.spec_in_load_range(jd) {
                        assert(ow.registry.blocks@.contains_key(jd));
                        assert(ow.registry.phys@[jd] == ow.queue@[jd - FIRST_BLOCK_ID].bounds);
                    }
                }
            }
            assert(self.registry.phys@ =~= ow.spec_phys_after_load());
            assert(self.registry.phys_ids@ =~= ow.spec_ids_after_load());
        }
    }

    /// Whether placing a box at `bounds` is blocked: some live entity or the
    /// player overlaps it.
    pub open spec fn spec_placement_blocked(self, bounds: Aabb) -> bool {
        ||| spec_hits_any(self.registry.phys@, bounds, NO_ENTITY_ID)
        ||| bounds.spec_intersect(self.spec_player_bounds()) is Some
    }

    /// Allocate an id for a new block and enqueue it for loading. With
    /// `check_collisions` the placement is refused (and no id consumed) when
    /// any live entity or the player overlaps the new bounds. Returns whether
    /// the block was placed.
    pub fn place_block(
        &mut self,
        low: V3,
        high: V3,
        block_type: BlockType,
        check_collisions: bool,
    ) -> (placed: bool)
        requires
            old(self).wf(),
            (Aabb { low, high }).wf(),
            old(self).queue@.len() < MAX_WORLD_BLOCKS,
        ensures
            final(self).wf(),
            placed <==> !(check_collisions && old(self).spec_placement_blocked(
                Aabb { low, high },
            )),
            placed ==> {
                &&& final(self).queue@ == old(self).queue@.push(
                    BlockDesc { bounds: Aabb { low, high }, block_type },
                )
                &&& final(self).spec_next_block_id() == old(self).spec_next_block_id() + 1
            },
            !placed ==> final(self).queue@ == old(self).queue@ && final(self).spec_next_block_id()
                == old(self).spec_next_block_id(),
            final(self).registry.phys@ == old(self).registry.phys@,
            final(self).registry.blocks@ == old(self).registry.blocks@,
            final(self).registry.phys_ids@ == old(self).registry.phys_ids@,
            final(self).render == old(self).render,
            final(self).next_load_id == old(self).next_load_id,
            final(self).player == old(self).player,
            final(self).lateral_rotation == old(self).lateral_rotation,
            final(self).vertical_rotation == old(self).vertical_rotation,
    {
        let bounds = Aabb { low, high };
        let collided = if check_collisions {
            let world_hit = self.registry.first_collision(&bounds, NO_ENTITY_ID);
            if world_hit.is_some() {
                true
            } else {
                let player_bounds = self.registry.get_bounds(PLAYER_ID);
                bounds.intersect(&player_bounds).is_some()
            }
        } else {
            false
        };
        if collided {
            proof {
                // A hit on the player is a hit on a live entity, so the
                // placement is blocked in either branch.
                if bounds.spec_intersect(self.spec_player_bounds()) is Some {
                    assert(self.registry.phys@.contains_key(PLAYER_ID) && PLAYER_ID != NO_ENTITY_ID
                        && bounds.spec_intersect(self.registry.phys@[PLAYER_ID]) is Some);
                }
            }
            false
        } else {
            let _ = self.registry.allocate_id();
            self.queue.push(BlockDesc { bounds, block_type });
            true
        }
    }

    /// Attempt to move the player by `v`. The candidate bounds are checked
    /// against every other live entity: on a collision the move is not
    /// committed, the velocity is zeroed along overlapping axes, and the
    /// jump fuel reacts to downward attempts (refilled on landing, emptied
    /// while falling free).
    pub fn translate(&mut self, v: V3)
        requires
            old(self).wf(),
            v.abs_within(SPEED_LIMIT as int),
            -SPEED_LIMIT <= old(self).player.speed.x - v.x <= SPEED_LIMIT,
            -SPEED_LIMIT <= old(self).player.speed.y - v.y <= SPEED_LIMIT,
            -SPEED_LIMIT <= old(self).player.speed.z - v.z <= SPEED_LIMIT,
            spec_shift_ok(old(self).spec_player_bounds(), v),
        ensures
            final(self).wf(),
            ({
                let (p2, b2) = spec_translate_step(
                    old(self).registry.phys_ids@,
                    old(self).registry.phys@,
                    old(self).player,
                    old(self).spec_player_bounds(),
                    v,
                );
                &&& final(self).player == p2
                &&& final(self).spec_player_bounds() == b2
                &&& final(self).registry.phys@ == old(self).registry.phys@.insert(PLAYER_ID, b2)
            }),
            final(self).registry.blocks@ == old(self).registry.blocks@,
            final(self).registry.phys_ids@ == old(self).registry.phys_ids@,
            final(self).spec_next_block_id() == old(self).spec_next_block_id(),
            final(self).render == old(self).render,
            final(self).queue@ == old(self).queue@,
            final(self).next_load_id == old(self).next_load_id,
            final(self).lateral_rotation == old(self).lateral_rotation,
            final(self).vertical_rotation == old(self).vertical_rotation,
    {
        let b = self.registry.get_bounds(PLAYER_ID);
        let cand = b.translated(v);
        let hit = self.registry.first_collision(&cand, PLAYER_ID);
        proof {
            lemma_first_hit_slide_range(
                self.registry.phys_ids@,
                self.registry.phys@,
                cand,
                PLAYER_ID,
                0,
            );
        }
        match hit {
            Some(sl) => {
                self.player.speed = V3 {
                    x: self.player.speed.x + v.x * sl.x - v.x,
                    y: self.player.speed.y + v.y * sl.y - v.y,
                    z: self.player.speed.z + v.z * sl.z - v.z,
                };
                if v.y < 0 {
                    self.player.jump_fuel = MAX_JUMP_FUEL;
                }
                proof {
                    self.lemma_player_bounds_update_preserves_tables(*old(self));
                }
            },
            None => {
                self.registry.set_bounds(PLAYER_ID, cand);
                if v.y < 0 {
                    self.player.jump_fuel = 0;
                }
                proof {
                    self.lemma_player_bounds_update_preserves_tables(*old(self));
                }
            },
        }
    }

    /// The player phase of one tick: jump-fuel bookkeeping, one translation
    /// attempt per axis with a non-zero velocity component, then velocity
    /// integration with the lateral rotation's cosine and sine (scaled by
    /// `UNIT`) given as `c` and `s`.
    #[verifier::rlimit(60)]
    pub fn player_tick(&mut self, c: i64, s: i64)
        requires
            old(self).wf(),
            -UNIT <= c <= UNIT,
            -UNIT <= s <= UNIT,
            old(self).spec_player_bounds().low.abs_within((COORD_LIMIT - SPEED_LIMIT) as int),
            old(self).spec_player_bounds().high.abs_within((COORD_LIMIT - SPEED_LIMIT) as int),
        ensures
            final(self).wf(),
            ({
                let (p, b) = spec_player_phase(
                    old(self).registry.phys_ids@,
                    old(self).registry.phys@,
                    old(self).player,
                    old(self).spec_player_bounds(),
                    c as int,
                    s as int,
                );
                &&& final(self).player == p
                &&& final(self).spec_player_bounds() == b
                &&& final(self).registry.phys@ == old(self).registry.phys@.insert(PLAYER_ID, b)
            }),
            final(self).registry.blocks@ == old(self).registry.blocks@,
            final(self).registry.phys_ids@ == old(self).registry.phys_ids@,
            final(self).spec_next_block_id() == old(self).spec_next_block_id(),
            final(self).render == old(self).render,
            final(self).queue@ == old(self).queue@,
            final(self).next_load_id == old(self).next_load_id,
            final(self).lateral_rotation == old(self).lateral_rotation,
            final(self).vertical_rotation == old(self).vertical_rotation,
    {
        let ghost ids = self.registry.phys_ids@;
        let ghost phys0 = self.registry.phys@;
        self.player.fuel_tick();
        let ghost p1 = self.player;
        let ghost b0 = self.spec_player_bounds();
        let dp = self.player.speed;
        if dp.x != 0 {
            self.translate(V3 { x: dp.x, y: 0, z: 0 });
        }
        let ghost p2 = self.player;
        let ghost b1 = self.spec_player_bounds();
        proof {
            assert((p2, b1) == (if p1.speed.x != 0 {
                spec_translate_step(ids, phys0, p1, b0, V3 { x: p1.speed.x, y: 0, z: 0 })
            } else {
                (p1, b0)
            }));
        }
        if dp.y != 0 {
            proof {
                lemma_first_hit_ignores_self(
                    ids,
                    self.registry.phys@,
                    phys0,
                    spec_shifted(b1, V3 { x: 0, y: dp.y, z: 0 }),
                    PLAYER_ID,
                    0,
                );
            }
            self.translate(V3 { x: 0, y: dp.y, z: 0 });
        }
        let ghost p3 = self.player;
        let ghost b2 = self.spec_player_bounds();
        proof {
            assert((p3, b2) == (if p1.speed.y != 0 {
                spec_translate_step(ids, phys0, p2, b1, V3 { x: 0, y: p1.speed.y, z: 0 })
            } else {
                (p2, b1)
            }));
        }
        if dp.z != 0 {
            proof {
                lemma_first_hit_ignores_self(
                    ids,
                    self.registry.phys@,
                    phys0,
                    spec_shifted(b2, V3 { x: 0, y: 0, z: dp.z }),
                    PLAYER_ID,
                    0,
                );
            }
            self.translate(V3 { x: 0, y: 0, z: dp.z });
        }
        let ghost p4 = self.player;
        let ghost b3 = self.spec_player_bounds();
        proof {
            assert((p4, b3) == (if p1.speed.z != 0 {
                spec_translate_step(ids, phys0, p3, b2, V3 { x: 0, y: 0, z: p1.speed.z })
            } else {
                (p3, b2)
            }));
            assert(self.registry.phys@ =~= phys0.insert(PLAYER_ID, b3));
        }
        self.player.integrate(c, s);
        proof {
            let (p, b) = spec_player_phase(ids, phys0, old(self).player, b0, c as int, s as int);
            assert(self.player == p);
            assert(self.spec_player_bounds() == b);
        }
    }

    /// One full update tick: the loader materializes its batch, then the
    /// player phase runs against the freshly loaded world.
    pub fn tick(&mut self, c: i64, s: i64)
        requires
            old(self).wf(),
            -UNIT <= c <= UNIT,
            -UNIT <= s <= UNIT,
            old(self).spec_player_bounds().low.abs_within((COORD_LIMIT - SPEED_LIMIT) as int),
            old(self).spec_player_bounds().high.abs_within((COORD_LIMIT - SPEED_LIMIT) as int),
        ensures
            final(self).wf(),
            final(self).next_load_id == old(self).next_load_id + old(self).spec_load_count(),
            final(self).next_load_id <= final(self).spec_next_block_id(),
            final(self).registry.blocks@ == old(self).spec_blocks_after_load(),
            ({
                let (p, b) = spec_player_phase(
                    old(self).spec_ids_after_load(),
                    old(self).spec_phys_after_load(),
                    old(self).player,
                    old(self).spec_player_bounds(),
                    c as int,
                    s as int,
                );
                &&& final(self).player == p
                &&& final(self).spec_player_bounds() == b
                &&& final(self).registry.phys@ == old(self).spec_phys_after_load().insert(
                    PLAYER_ID,
                    b,
                )
            }),
            final(self).player.jump_fuel <= MAX_JUMP_FUEL,
            final(self).queue@ == old(self).queue@,
            final(self).spec_next_block_id() == old(self).spec_next_block_id(),
            final(self).lateral_rotation == old(self).lateral_rotation,
            final(self).vertical_rotation == old(self).vertical_rotation,
    {
        self.load_tick();
        self.player_tick(c, s);
    }

    /// Turn the view about the vertical axis by `r` milli-degrees (positive
    /// is counterclockwise), by any amount; the stored rotation is kept
    /// normalized into one full turn.
    pub fn rotate_lateral(&mut self, r: i64)
        requires
            old(self).wf(),
            -FULL_TURN <= r <= FULL_TURN,
        ensures
            final(self).wf(),
            final(self).lateral_rotation == (old(self).lateral_rotation + r) % (FULL_TURN as int),
            *final(self) == (World { lateral_rotation: final(self).lateral_rotation, ..*old(self) }),
    {
        let mut a = self.lateral_rotation + r;
        if a < 0 {
            a = a + FULL_TURN;
        }
        if a >= FULL_TURN {
            a = a - FULL_TURN;
        }
        self.lateral_rotation = a;
    }

    /// Tilt the view by `r` milli-degrees (positive is up). A request that
    /// would take the pitch outside the open interval of a quarter turn
    /// either way is discarded whole: no clamping, no error, no change.
    pub fn rotate_vertical(&mut self, r: i64)
        requires
            old(self).wf(),
            -FULL_TURN <= r <= FULL_TURN,
        ensures
            final(self).wf(),
            (-QUARTER_TURN < old(self).vertical_rotation + r && old(self).vertical_rotation + r
                < QUARTER_TURN) ==> final(self).vertical_rotation == old(self).vertical_rotation
                + r,
            !(-QUARTER_TURN < old(self).vertical_rotation + r && old(self).vertical_rotation + r
                < QUARTER_TURN) ==> final(self).vertical_rotation == old(self).vertical_rotation,
            *final(self) == (World {
                vertical_rotation: final(self).vertical_rotation,
                ..*old(self)
            }),
    {
        let a = self.vertical_rotation + r;
        if -QUARTER_TURN < a && a < QUARTER_TURN {
            self.vertical_rotation = a;
        }
    }

    /// Add a held or released movement key's contribution to the player's
    /// acceleration.
    pub fn walk(&mut self, da: V3)
        requires
            old(self).wf(),
            da.abs_within(UNIT as int),
            -ACCEL_LIMIT <= old(self).player.accel.x + div_trunc(da.x * WALK_ACCEL, UNIT as int)
                <= ACCEL_LIMIT,
            -ACCEL_LIMIT <= old(self).player.accel.y + div_trunc(da.y * WALK_ACCEL, UNIT as int)
                <= ACCEL_LIMIT,
            -ACCEL_LIMIT <= old(self).player.accel.z + div_trunc(da.z * WALK_ACCEL, UNIT as int)
                <= ACCEL_LIMIT,
            old(self).player.is_jumping ==> -ACCEL_LIMIT + JUMP_ACCEL <= old(self).player.accel.y
                + div_trunc(da.y * WALK_ACCEL, UNIT as int),
        ensures
            final(self).wf(),
            final(self).player.accel.x == old(self).player.accel.x + div_trunc(
                da.x * WALK_ACCEL,
                UNIT as int,
            ),
            final(self).player.accel.y == old(self).player.accel.y + div_trunc(
                da.y * WALK_ACCEL,
                UNIT as int,
            ),
            final(self).player.accel.z == old(self).player.accel.z + div_trunc(
                da.z * WALK_ACCEL,
                UNIT as int,
            ),
            final(self).player.speed == old(self).player.speed,
            final(self).player.jump_fuel == old(self).player.jump_fuel,
            final(self).player.is_jumping == old(self).player.is_jumping,
            *final(self) == (World { player: final(self).player, ..*old(self) }),
    {
        self.player.walk(da);
    }

    /// Begin holding a jump (adds the upward impulse once; a jump already
    /// held changes nothing).
    pub fn start_jump(&mut self)
        requires
            old(self).wf(),
            old(self).player.accel.y + JUMP_ACCEL <= ACCEL_LIMIT,
        ensures
            final(self).wf(),
            old(self).player.is_jumping ==> final(self).player == old(self).player,
            !old(self).player.is_jumping ==> final(self).player == (Player {
                is_jumping: true,
                accel: V3 {
                    y: (old(self).player.accel.y + JUMP_ACCEL) as i64,
                    ..old(self).player.accel
                },
                ..old(self).player
            }),
            *final(self) == (World { player: final(self).player, ..*old(self) }),
    {
        self.player.start_jump();
    }

    /// Release the jump (withdraws the upward impulse; with no jump held
    /// nothing changes).
    pub fn stop_jump(&mut self)
        requires
            old(self).wf(),
        ensures
            final(self).wf(),
            !old(self).player.is_jumping ==> final(self).player == old(self).player,
            old(self).player.is_jumping ==> final(self).player == (Player {
                is_jumping: false,
                accel: V3 {
                    y: (old(self).player.accel.y - JUMP_ACCEL) as i64,
                    ..old(self).player.accel
                },
                ..old(self).player
            }),
            *final(self) == (World { player: final(self).player, ..*old(self) }),
    {
        self.player.stop_jump();
    }

    /// The "right" axis: the x unit vector rotated to match the view, for a
    /// lateral rotation with cosine `c` and sine `s` (scaled by `UNIT`).
    pub fn right(&self, c: i64, s: i64) -> (r: V3)
        requires
            -UNIT <= c <= UNIT,
            -UNIT <= s <= UNIT,
        ensures
            r == (V3 { x: c, y: 0, z: (-s) as i64 }),
    {
        V3 { x: c, y: 0, z: -s }
    }

    /// The "forward" axis: the negated z unit vector rotated to match the
    /// view.
    pub fn forward(&self, c: i64, s: i64) -> (r: V3)
        requires
            -UNIT <= c <= UNIT,
            -UNIT <= s <= UNIT,
        ensures
            r == (V3 { x: (-s) as i64, y: 0, z: (-c) as i64 }),
    {
        V3 { x: -s, y: 0, z: -c }
    }

    /// The first collision of `b` with a live entity other than `self_id`,
    /// in id-list order, or `None` when nothing overlaps.
    pub fn world_collision(&self, b: &Aabb, self_id: u32) -> (r: Option<Slide>)
        requires
            self.wf(),
        ensures
            r == spec_first_hit(self.registry.phys_ids@, self.registry.phys@, *b, self_id),
            r is Some <==> spec_hits_any(self.registry.phys@, *b, self_id),
    {
        self.registry.first_collision(b, self_id)
    }

    /// The direction a block placed against face `face` is offset in:
    /// half a unit out of the face, in the face order of the selection
    /// encoding.
    pub open spec fn spec_face_direction(face: int) -> V3 {
        if face == 0 {
            V3 { x: 0, y: 0, z: -FACE_OFFSET as i64 }
        } else if face == 1 {
            V3 { x: -FACE_OFFSET as i64, y: 0, z: 0 }
        } else if face == 2 {
            V3 { x: 0, y: FACE_OFFSET, z: 0 }
        } else if face == 3 {
            V3 { x: 0, y: 0, z: FACE_OFFSET }
        } else if face == 4 {
            V3 { x: FACE_OFFSET, y: 0, z: 0 }
        } else {
            V3 { x: 0, y: -FACE_OFFSET as i64, z: 0 }
        }
    }

    /// Place a new block of the given kind against face `face` of block
    /// `id`: the new bounds are the old block's, offset by half a unit out of
    /// that face. The placement is refused when it would leave the world's
    /// coordinate range or overlap a live entity or the player. Returns
    /// whether the block was placed.
    pub fn place_block_at_face(&mut self, id: u32, face: usize, block_type: BlockType) -> (placed:
        bool)
        requires
            old(self).wf(),
            old(self).registry.blocks@.contains_key(id),
            face < 6,
            old(self).queue@.len() < MAX_WORLD_BLOCKS,
        ensures
            final(self).wf(),
            ({
                let b = old(self).registry.phys@[id];
                let dir = World::spec_face_direction(face as int);
                let cand = spec_shifted(b, dir);
                &&& placed <==> (spec_shift_ok(b, dir) && !old(self).spec_placement_blocked(cand))
                &&& placed ==> final(self).queue@ == old(self).queue@.push(
                    BlockDesc { bounds: cand, block_type },
                ) && final(self).spec_next_block_id() == old(self).spec_next_block_id() + 1
                &&& !placed ==> final(self).queue@ == old(self).queue@
                    && final(self).spec_next_block_id() == old(self).spec_next_block_id()
            }),
            final(self).registry.phys@ == old(self).registry.phys@,
            final(self).registry.blocks@ == old(self).registry.blocks@,
            final(self).render == old(self).render,
            final(self).next_load_id == old(self).next_load_id,
            final(self).player == old(self).player,
    {
        let b = self.registry.get_bounds(id);
        let dir = if face == 0 {
            V3 { x: 0, y: 0, z: -FACE_OFFSET }
        } else if face == 1 {
            V3 { x: -FACE_OFFSET, y: 0, z: 0 }
        } else if face == 2 {
            V3 { x: 0, y: FACE_OFFSET, z: 0 }
        } else if face == 3 {
            V3 { x: 0, y: 0, z: FACE_OFFSET }
        } else if face == 4 {
            V3 { x: FACE_OFFSET, y: 0, z: 0 }
        } else {
            V3 { x: 0, y: -FACE_OFFSET, z: 0 }
        };
        let in_range = -COORD_LIMIT <= b.low.x + dir.x && b.low.x + dir.x <= COORD_LIMIT
            && -COORD_LIMIT <= b.low.y + dir.y && b.low.y + dir.y <= COORD_LIMIT
            && -COORD_LIMIT <= b.low.z + dir.z && b.low.z + dir.z <= COORD_LIMIT
            && -COORD_LIMIT <= b.high.x + dir.x && b.high.x + dir.x <= COORD_LIMIT
            && -COORD_LIMIT <= b.high.y + dir.y && b.high.y + dir.y <= COORD_LIMIT
            && -COORD_LIMIT <= b.high.z + dir.z && b.high.z + dir.z <= COORD_LIMIT;
        if !in_range {
            return false;
        }
        let cand = b.translated(dir);
        self.place_block(cand.low, cand.high, block_type, true)
    }

    /// Changing only the player's entry in the bounds map (and the player's
    /// motion state or rotations) leaves the block tables and every render
    /// slot intact.
    proof fn lemma_player_bounds_update_preserves_tables(self, prev: World)
        requires
            prev.wf(),
            self.registry.blocks@ == prev.registry.blocks@,
            self.registry.phys_ids@ == prev.registry.phys_ids@,
            self.registry.next_id == prev.registry.next_id,
            self.render == prev.render,
            self.queue@ == prev.queue@,
            self.next_load_id == prev.next_load_id,
            forall|id: u32|
                id != PLAYER_ID ==> (#[trigger] self.registry.phys@.contains_key(id)
                    <==> prev.registry.phys@.contains_key(id)),
            forall|id: u32|
                id != PLAYER_ID ==> #[trigger] self.registry.phys@[id] == prev.registry.phys@[id],
        ensures
            self.tables_ok(),
            self.records_ok(),
    {
        assert forall|id: u32| #[trigger]
            self.registry.blocks@.contains_key(id) implies {
            &&& self.registry.phys@[id] == self.queue@[id - FIRST_BLOCK_ID].bounds
            &&& self.registry.blocks@[id] == self.queue@[id - FIRST_BLOCK_ID].block_type
        } by {
            assert(prev.registry.blocks@.contains_key(id));
            assert(id != PLAYER_ID);
        }
        assert forall|i: int| 0 <= i < self.render.live_count() implies {
            let id = #[trigger] self.render.index_to_id@[i];
            let b = self.registry.phys@[id];
            &&& (self.render.world_triangles@[i])@ == spec_to_triangles(
                b,
                spec_tri_colors(self.registry.blocks@[id]),
            )
            &&& (self.render.outlines@[i])@ == spec_to_outlines(b, spec_outline_color())
            &&& (self.render.selection_triangles@[i])@ == spec_to_triangles(
                b,
                spec_sel_colors(id),
            )
        } by {
            let id = self.render.index_to_id@[i];
            assert(prev.render.contains_id(id));
            assert(prev.registry.blocks@.contains_key(id));
            assert(id != PLAYER_ID);
            assert(self.registry.phys@[id] == prev.registry.phys@[id]);
        }
    }

    /// Delete a rendered block: its registry entries and its render slot go
    /// together, the buffers compacting by the last-slot swap.
    pub fn remove_block(&mut self, id: u32)
        requires
            old(self).wf(),
            old(self).registry.blocks@.contains_key(id),
        ensures
            final(self).wf(),
            final(self).registry.blocks@ == old(self).registry.blocks@.remove(id),
            final(self).registry.phys@ == old(self).registry.phys@.remove(id),
            exists|k: int|
                {
                    &&& 0 <= k < old(self).registry.phys_ids@.len()
                    &&& old(self).registry.phys_ids@[k] == id
                    &&& final(self).registry.phys_ids@ == old(self).registry.phys_ids@.update(
                        k,
                        old(self).registry.phys_ids@.last(),
                    ).drop_last()
                },
            final(self).render.live_count() == old(self).render.live_count() - 1,
            !final(self).render.contains_id(id),
            final(self).render.index_to_id@ == old(self).render.index_to_id@.update(
                old(self).render.slot_of(id),
                old(self).render.index_to_id@.last(),
            ).drop_last(),
            final(self).render.world_triangles@.len() == final(self).render.live_count(),
            final(self).render.outlines@.len() == final(self).render.live_count(),
            final(self).render.selection_triangles@.len() == final(self).render.live_count(),
            final(self).queue@ == old(self).queue@,
            final(self).next_load_id == old(self).next_load_id,
            final(self).spec_next_block_id() == old(self).spec_next_block_id(),
            final(self).player == old(self).player,
            final(self).spec_player_bounds() == old(self).spec_player_bounds(),
            final(self).lateral_rotation == old(self).lateral_rotation,
            final(self).vertical_rotation == old(self).vertical_rotation,
    {
        self.render.remove(id);
        self.registry.remove(id);
        proof {
            let oldw = *old(self);
            let slot = oldw.render.slot_of(id);
            let olds = oldw.render.index_to_id@;
            let news = self.render.index_to_id@;
            let moved = olds.last();
            assert(oldw.render.contains_id(id));
            assert(0 <= slot < olds.len());
            assert forall|jd: u32| #[trigger]
                self.render.contains_id(jd) <==> self.registry.blocks@.contains_key(jd) by {
                if jd != id && oldw.render.contains_id(jd) {
                    assert(oldw.registry.blocks@.contains_key(jd));
                }
            }
            assert forall|i: int| 0 <= i < self.render.live_count() implies {
                let jd = #[trigger] self.render.index_to_id@[i];
                let b = self.registry.phys@[jd];
                &&& (self.render.world_triangles@[i])@ == spec_to_triangles(
                    b,
                    spec_tri_colors(self.registry.blocks@[jd]),
                )
                &&& (self.render.outlines@[i])@ == spec_to_outlines(b, spec_outline_color())
                &&& (self.render.selection_triangles@[i])@ == spec_to_triangles(
                    b,
                    spec_sel_colors(jd),
                )
            } by {
                if i == slot && moved != id {
                    // The last slot's id and records moved here together.
                    let last = olds.len() - 1;
                    assert(olds[last] == moved);
                    assert(news[i] == moved);
                    assert(self.render.world_triangles@[i] == oldw.render.world_triangles@[last]);
                    assert(self.render.outlines@[i] == oldw.render.outlines@[last]);
                    assert(self.render.selection_triangles@[i]
                        == oldw.render.selection_triangles@[last]);
                    assert((oldw.render.world_triangles@[last])@ == spec_to_triangles(
                        oldw.registry.phys@[moved],
                        spec_tri_colors(oldw.registry.blocks@[moved]),
                    ));
                    assert(oldw.render.contains_id(moved));
                    assert(self.registry.phys@[moved] == oldw.registry.phys@[moved]);
                    assert(self.registry.blocks@[moved] == oldw.registry.blocks@[moved]);
                } else if i == slot {
                    // `id` sat at the last slot, so the freed slot was the
                    // last and is gone: this case cannot place `i` in range.
                    assert(oldw.render.slot_of(id) == olds.len() - 1);
                    assert(false);
                } else {
                    assert(news[i] == olds[i]);
                    let wt_new = self.render.world_triangles@;
                    let wt_old = oldw.render.world_triangles@;
                    let wt_mid = wt_old.update(slot, wt_old.last());
                    let wt_upd = wt_mid.drop_last();
                    assert(wt_old.len() == olds.len());
                    assert(0 <= slot < wt_old.len());
                    assert(wt_new == wt_upd);
                    assert(wt_new[i] == wt_upd[i]);
                    assert(wt_upd[i] == wt_mid[i]);
                    assert(wt_mid[i] == wt_old[i]);
                    assert(self.render.world_triangles@[i] == oldw.render.world_triangles@[i]);
                    assert(self.render.outlines@[i] == oldw.render.outlines@[i]);
                    assert(self.render.selection_triangles@[i]
                        == oldw.render.selection_triangles@[i]);
                    assert((oldw.render.world_triangles@[i])@ == spec_to_triangles(
                        oldw.registry.phys@[olds[i]],
                        spec_tri_colors(oldw.registry.blocks@[olds[i]]),
                    ));
                    assert(oldw.render.contains_id(olds[i]));
                    assert(olds[i] != id);
                    assert(self.registry.phys@[olds[i]] == oldw.registry.phys@[olds[i]]);
                    assert(self.registry.blocks@[olds[i]] == oldw.registry.blocks@[olds[i]]);
                }
            }
        }
    }
}

} // verus!
