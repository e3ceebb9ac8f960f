//! The initial world layout.
//!
//! The starting world enqueues a fixed arrangement of blocks for incremental
//! loading: two five-by-five dirt platforms, a grass ground plane, and four
//! stone walls closing the play field, all made of half-unit blocks laid out
//! on a half-unit grid. The camera starts lifted above and behind the origin.

use vstd::prelude::*;

use crate::geometry::BlockType;
use crate::registry::FIRST_BLOCK_ID;
use crate::units::V3;
use crate::world::{World, MAX_WORLD_BLOCKS};

verus! {

/// Blocks the initial layout enqueues: two 5x5 platforms, a 129x129 ground,
/// and four 129x65 walls.
pub const INITIAL_BLOCK_COUNT: usize = 25 + 25 + 129 * 129 + 4 * (129 * 65);

/// Build the starting world: the player lifted to its starting position and
/// every block of the fixed layout enqueued (none yet loaded).
pub fn initial_world() -> (w: World)
    ensures
        w.wf(),
        w.queue@.len() == INITIAL_BLOCK_COUNT,
        w.spec_next_block_id() == FIRST_BLOCK_ID + INITIAL_BLOCK_COUNT,
        w.next_load_id == FIRST_BLOCK_ID,
        w.registry.blocks@ == Map::<u32, crate::geometry::BlockType>::empty(),
        w.render.live_count() == 0,
        w.player == (crate::player::Player {
            speed: V3 { x: 0, y: 0, z: 0 },
            accel: V3 { x: 0, y: -100i64, z: 0 },
            jump_fuel: 0,
            is_jumping: false,
        }),
        w.spec_player_bounds() == (crate::aabb::Aabb {
            low: V3 { x: -1000i64, y: 2000, z: 9000 },
            high: V3 { x: 0, y: 4000, z: 10000 },
        }),
        w.lateral_rotation == 0,
        w.vertical_rotation == 0,
{
    let mut w = World::new();
    proof {
        // With no blocks, the camera lift cannot collide: the query skips the
        // player itself and reaches the end of the one-entry id list.
        let cand = crate::world::spec_shifted(
            w.spec_player_bounds(),
            V3 { x: 0, y: 4000, z: 10000 },
        );
        let ids = w.registry.phys_ids@;
        assert(ids.len() == 1 && ids[0] == crate::registry::PLAYER_ID);
        assert(crate::registry::spec_first_hit_from(
            ids,
            w.registry.phys@,
            cand,
            crate::registry::PLAYER_ID,
            1,
        ) is None);
        assert(crate::registry::spec_first_hit(
            ids,
            w.registry.phys@,
            cand,
            crate::registry::PLAYER_ID,
        ) is None);
    }
    w.translate(V3 { x: 0, y: 4000, z: 10000 });
    let ghost phys0 = w.registry.phys@;
    let ghost blocks0 = w.registry.blocks@;
    let ghost player0 = w.player;

    // low dirt platform
    let mut i: i64 = 0;
    while i < 5
        invariant
            w.wf(),
            0 <= i <= 5,
            w.queue@.len() == i * 5,
            w.registry.phys@ == phys0,
            w.registry.blocks@ == blocks0,
            w.player == player0,
            w.render.live_count() == 0,
            w.next_load_id == FIRST_BLOCK_ID,
            w.lateral_rotation == 0,
            w.vertical_rotation == 0,
        decreases 5 - i,
    {
        let mut j: i64 = 0;
        while j < 5
            invariant
                w.wf(),
                0 <= i < 5,
                0 <= j <= 5,
                w.queue@.len() == i * 5 + j,
                w.registry.phys@ == phys0,
                w.registry.blocks@ == blocks0,
                w.player == player0,
                w.render.live_count() == 0,
                w.next_load_id == FIRST_BLOCK_ID,
                w.lateral_rotation == 0,
                w.vertical_rotation == 0,
            decreases 5 - j,
        {
            let dx = (i - 2) * 500;
            let dz = (j - 2) * 500;
            let _ = w.place_block(
                V3 { x: 6000 + dx, y: 6000, z: dz },
                V3 { x: 6500 + dx, y: 6500, z: 500 + dz },
                BlockType::Dirt,
                false,
            );
            j = j + 1;
        }
        i = i + 1;
    }

    // high dirt platform
    let mut i: i64 = 0;
    while i < 5
        invariant
            w.wf(),
            0 <= i <= 5,
            w.queue@.len() == 25 + i * 5,
            w.registry.phys@ == phys0,
            w.registry.blocks@ == blocks0,
            w.player == player0,
            w.render.live_count() == 0,
            w.next_load_id == FIRST_BLOCK_ID,
            w.lateral_rotation == 0,
            w.vertical_rotation == 0,
        decreases 5 - i,
    {
        let mut j: i64 = 0;
        while j < 5
            invariant
                w.wf(),
                0 <= i < 5,
                0 <= j <= 5,
                w.queue@.len() == 25 + i * 5 + j,
                w.registry.phys@ == phys0,
                w.registry.blocks@ == blocks0,
                w.player == player0,
                w.render.live_count() == 0,
                w.next_load_id == FIRST_BLOCK_ID,
                w.lateral_rotation == 0,
                w.vertical_rotation == 0,
            decreases 5 - j,
        {
            let dx = (i - 2) * 500;
            let dz = (j - 2) * 500;
            let _ = w.place_block(
                V3 { x: dx, y: 12000, z: 5000 + dz },
                V3 { x: 500 + dx, y: 12500, z: 5500 + dz },
                BlockType::Dirt,
                false,
            );
            j = j + 1;
        }
        i = i + 1;
    }

    // ground plane
    let mut i: i64 = 0;
    while i < 129
        invariant
            w.wf(),
            0 <= i <= 129,
            w.queue@.len() == 50 + i * 129,
            w.registry.phys@ == phys0,
            w.registry.blocks@ == blocks0,
            w.player == player0,
            w.render.live_count() == 0,
            w.next_load_id == FIRST_BLOCK_ID,
            w.lateral_rotation == 0,
            w.vertical_rotation == 0,
        decreases 129 - i,
    {
        let mut j: i64 = 0;
        while j < 129
            invariant
                w.wf(),
                0 <= i < 129,
                0 <= j <= 129,
                w.queue@.len() == 50 + i * 129 + j,
                w.registry.phys@ == phys0,
                w.registry.blocks@ == blocks0,
                w.player == player0,
                w.render.live_count() == 0,
                w.next_load_id == FIRST_BLOCK_ID,
                w.lateral_rotation == 0,
                w.vertical_rotation == 0,
            decreases 129 - j,
        {
            let x = (i - 64) * 500;
            let z = (j - 64) * 500;
            let _ = w.place_block(
                V3 { x, y: 0, z },
                V3 { x: x + 500, y: 500, z: z + 500 },
                BlockType::Grass,
                false,
            );
            j = j + 1;
        }
        i = i + 1;
    }

    // front wall
    let mut i: i64 = 0;
    while i < 129
        invariant
            w.wf(),
            0 <= i <= 129,
            w.queue@.len() == 50 + 129 * 129 + i * 65,
            w.registry.phys@ == phys0,
            w.registry.blocks@ == blocks0,
            w.player == player0,
            w.render.live_count() == 0,
            w.next_load_id == FIRST_BLOCK_ID,
            w.lateral_rotation == 0,
            w.vertical_rotation == 0,
        decreases 129 - i,
    {
        let mut j: i64 = 0;
        while j < 65
            invariant
                w.wf(),
                0 <= i < 129,
                0 <= j <= 65,
                w.queue@.len() == 50 + 129 * 129 + i * 65 + j,
                w.registry.phys@ == phys0,
                w.registry.blocks@ == blocks0,
                w.player == player0,
                w.render.live_count() == 0,
                w.next_load_id == FIRST_BLOCK_ID,
                w.lateral_rotation == 0,
                w.vertical_rotation == 0,
            decreases 65 - j,
        {
            let x = (i - 64) * 500;
            let y = j * 500;
            let _ = w.place_block(
                V3 { x, y: 500 + y, z: -32000 },
                V3 { x: x + 500, y: 1000 + y, z: -31500 },
                BlockType::Stone,
                false,
            );
            j = j + 1;
        }
        i = i + 1;
    }

    // back wall
    let mut i: i64 = 0;
    while i < 129
        invariant
            w.wf(),
            0 <= i <= 129,
            w.queue@.len() == 50 + 129 * 129 + 129 * 65 + i * 65,
            w.registry.phys@ == phys0,
            w.registry.blocks@ == blocks0,
            w.player == player0,
            w.render.live_count() == 0,
            w.next_load_id == FIRST_BLOCK_ID,
            w.lateral_rotation == 0,
            w.vertical_rotation == 0,
        decreases 129 - i,
    {
        let mut j: i64 = 0;
        while j < 65
            invariant
                w.wf(),
                0 <= i < 129,
                0 <= j <= 65,
                w.queue@.len() == 50 + 129 * 129 + 129 * 65 + i * 65 + j,
                w.registry.phys@ == phys0,
                w.registry.blocks@ == blocks0,
                w.player == player0,
                w.render.live_count() == 0,
                w.next_load_id == FIRST_BLOCK_ID,
                w.lateral_rotation == 0,
                w.vertical_rotation == 0,
            decreases 65 - j,
        {
            let x = (i - 64) * 500;
            let y = j * 500;
            let _ = w.place_block(
                V3 { x: x - 500, y: 500 + y, z: 32000 },
                V3 { x: x + 500, y: 1000 + y, z: 32500 },
                BlockType::Stone,
                false,
            );
            j = j + 1;
        }
        i = i + 1;
    }

    // left wall
    let mut i: i64 = 0;
    while i < 129
        invariant
            w.wf(),
            0 <= i <= 129,
            w.queue@.len() == 50 + 129 * 129 + 2 * (129 * 65) + i * 65,
            w.registry.phys@ == phys0,
            w.registry.blocks@ == blocks0,
            w.player == player0,
            w.render.live_count() == 0,
            w.next_load_id == FIRST_BLOCK_ID,
            w.lateral_rotation == 0,
            w.vertical_rotation == 0,
        decreases 129 - i,
    {
        let mut j: i64 = 0;
        while j < 65
            invariant
                w.wf(),
                0 <= i < 129,
                0 <= j <= 65,
                w.queue@.len() == 50 + 129 * 129 + 2 * (129 * 65) + i * 65 + j,
                w.registry.phys@ == phys0,
                w.registry.blocks@ == blocks0,
                w.player == player0,
                w.render.live_count() == 0,
                w.next_load_id == FIRST_BLOCK_ID,
                w.lateral_rotation == 0,
                w.vertical_rotation == 0,
            decreases 65 - j,
        {
            let z = (i - 64) * 500;
            let y = j * 500;
            let _ = w.place_block(
                V3 { x: -32000, y: 500 + y, z: z - 500 },
                V3 { x: -31500, y: 1000 + y, z: z + 500 },
                BlockType::Stone,
                false,
            );
            j = j + 1;
        }
        i = i + 1;
    }

    // right wall
    let mut i: i64 = 0;
    while i < 129
        invariant
            w.wf(),
            0 <= i <= 129,
            w.queue@.len() == 50 + 129 * 129 + 3 * (129 * 65) + i * 65,
            w.registry.phys@ == phys0,
            w.registry.blocks@ == blocks0,
            w.player == player0,
            w.render.live_count() == 0,
            w.next_load_id == FIRST_BLOCK_ID,
            w.lateral_rotation == 0,
            w.vertical_rotation == 0,
        decreases 129 - i,
    {
        let mut j: i64 = 0;
        while j < 65
            invariant
                w.wf(),
                0 <= i < 129,
                0 <= j <= 65,
                w.queue@.len() == 50 + 129 * 129 + 3 * (129 * 65) + i * 65 + j,
                w.registry.phys@ == phys0,
                w.registry.blocks@ == blocks0,
                w.player == player0,
                w.render.live_count() == 0,
                w.next_load_id == FIRST_BLOCK_ID,
                w.lateral_rotation == 0,
                w.vertical_rotation == 0,
            decreases 65 - j,
        {
            let z = (i - 64) * 500;
            let y = j * 500;
            let _ = w.place_block(
                V3 { x: 32000, y: 500 + y, z },
                V3 { x: 32500, y: 1000 + y, z: z + 500 },
                BlockType::Stone,
                false,
            );
            j = j + 1;
        }
        i = i + 1;
    }

    w
}

} // verus!
