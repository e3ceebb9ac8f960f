use playform::aabb::Aabb;
use playform::geometry::BlockType;
use playform::player::MAX_JUMP_FUEL;
use playform::registry::PLAYER_ID;
use playform::units::V3;
use playform::world::World;

fn v(x: i64, y: i64, z: i64) -> V3 {
    V3 { x, y, z }
}

/// Insert two blocks, remove the first: the second's geometry compacts into
/// slot 0 of all three buffers and the id tables follow.
#[test]
fn removal_compacts_into_freed_slot() {
    let mut w = World::new();
    assert!(w.place_block(v(0, 0, 0), v(1000, 1000, 1000), BlockType::Dirt, false));
    assert!(w.place_block(v(5000, 5000, 5000), v(6000, 6000, 6000), BlockType::Dirt, false));
    w.load_tick();
    assert_eq!(w.render.len(), 2);
    assert_eq!(w.render.slot(2), 0);
    assert_eq!(w.render.slot(3), 1);

    w.remove_block(2);

    assert_eq!(w.render.slot(3), 0);
    assert_eq!(w.render.id_at(0), 3);
    assert_eq!(w.render.len(), 1);
    assert_eq!(w.render.world_triangles.len(), 1);
    assert_eq!(w.render.outlines.len(), 1);
    assert_eq!(w.render.selection_triangles.len(), 1);
    // The records at slot 0 are block 3's: its geometry starts at x = 5000.
    assert_eq!(w.render.world_triangles.record_at(0)[6].pos.x, 5000);
    assert_eq!(w.render.outlines.record_at(0)[0].pos.x, 5000 - 2);
}

/// A downward move onto a ground block collides on the y axis: the vertical
/// speed is zeroed and the jump fuel refilled (a landing).
#[test]
fn landing_refills_jump_fuel() {
    let mut w = World::new();
    w.registry.set_bounds(
        PLAYER_ID,
        Aabb { low: v(-250, 0, 0), high: v(250, 2000, 1000) },
    );
    assert!(w.place_block(v(-1000, -1000, -1000), v(1000, 0, 2000), BlockType::Grass, false));
    w.load_tick();
    w.player.speed = v(0, -100, 0);

    w.translate(v(0, -100, 0));

    assert_eq!(w.player.jump_fuel, MAX_JUMP_FUEL);
    assert_eq!(MAX_JUMP_FUEL, 4);
    assert_eq!(w.player.speed.y, 0);
    // The move was not committed.
    let b = w.registry.get_bounds(PLAYER_ID);
    assert_eq!(b.low.y, 0);
}

/// A downward move with nothing beneath commits and empties the jump fuel
/// (still airborne).
#[test]
fn free_fall_empties_jump_fuel() {
    let mut w = World::new();
    w.player.jump_fuel = 3;
    w.player.speed = v(0, -100, 0);

    w.translate(v(0, -100, 0));

    assert_eq!(w.player.jump_fuel, 0);
    assert_eq!(w.player.speed.y, -100);
    let b = w.registry.get_bounds(PLAYER_ID);
    assert_eq!(b.low.y, -2000 - 100);
}

/// A vertical rotation request that would pass the quarter-turn bound is
/// discarded whole.
#[test]
fn vertical_rotation_clamp_discards_request() {
    let mut w = World::new();
    w.rotate_vertical(89_000);
    assert_eq!(w.vertical_rotation, 89_000);
    w.rotate_vertical(5_000);
    assert_eq!(w.vertical_rotation, 89_000);
    w.rotate_vertical(-5_000);
    assert_eq!(w.vertical_rotation, 84_000);
}

/// Lateral rotation accepts any amount and stays normalized into one turn.
#[test]
fn lateral_rotation_normalizes() {
    let mut w = World::new();
    w.rotate_lateral(-30_000);
    assert_eq!(w.lateral_rotation, 330_000);
    w.rotate_lateral(40_000);
    assert_eq!(w.lateral_rotation, 10_000);
}

/// The loader advances the cursor by exactly the queued amount when that is
/// below the batch bound, and never past the end of the queue.
#[test]
fn loader_advances_by_queued_amount() {
    let mut w = World::new();
    assert!(w.place_block(v(0, 0, 0), v(500, 500, 500), BlockType::Grass, false));
    assert!(w.place_block(v(1000, 0, 0), v(1500, 500, 500), BlockType::Dirt, false));
    assert!(w.place_block(v(2000, 0, 0), v(2500, 500, 500), BlockType::Stone, false));
    assert_eq!(w.next_load_id, 2);
    w.load_tick();
    assert_eq!(w.next_load_id, 5);
    assert_eq!(w.render.len(), 3);
    // A second tick with nothing queued loads nothing.
    w.load_tick();
    assert_eq!(w.next_load_id, 5);
    assert_eq!(w.render.len(), 3);
}

/// A checked placement into an occupied spot is refused and consumes no id.
#[test]
fn blocked_placement_is_refused() {
    let mut w = World::new();
    assert!(w.place_block(v(0, 0, 0), v(1000, 1000, 1000), BlockType::Dirt, false));
    w.load_tick();
    // Overlapping the loaded block.
    assert!(!w.place_block(v(500, 500, 500), v(1500, 1500, 1500), BlockType::Dirt, true));
    // Overlapping the player (which sits at (-1000,-2000,-1000)..(0,0,0)).
    assert!(!w.place_block(v(-500, -1500, -500), v(-100, -500, -100), BlockType::Dirt, true));
    // A free spot is accepted.
    assert!(w.place_block(v(5000, 0, 0), v(6000, 1000, 1000), BlockType::Dirt, true));
    assert_eq!(w.queue.len(), 2);
}

/// Placing against a face offsets the new block by half a unit out of that
/// face.
#[test]
fn face_placement_offsets_by_half_unit() {
    let mut w = World::new();
    assert!(w.place_block(v(0, 0, 0), v(500, 500, 500), BlockType::Dirt, false));
    w.load_tick();
    // Face 2 is the top: the new block sits half a unit higher.
    assert!(w.place_block_at_face(2, 2, BlockType::Dirt));
    w.load_tick();
    let b = w.registry.get_bounds(3);
    assert_eq!(b.low.y, 500);
    assert_eq!(b.high.y, 1000);
    assert_eq!(b.low.x, 0);
}

/// A walking player slides along a wall: the blocked axis is zeroed while
/// the free axis still moves.
#[test]
fn wall_sliding_moves_free_axis() {
    let mut w = World::new();
    // A wall to the east of the player, overlapping its y/z extent.
    assert!(w.place_block(v(500, -2500, -1500), v(1500, 500, 500), BlockType::Stone, false));
    w.load_tick();
    w.player.speed = v(600, 0, -300);
    // Moving east hits the wall (y and z overlap, x overlaps after the
    // shift): the x speed is zeroed and the position stays.
    w.translate(v(600, 0, 0));
    assert_eq!(w.player.speed.x, 0);
    assert_eq!(w.registry.get_bounds(PLAYER_ID).high.x, 0);
    // Moving north is free.
    w.translate(v(0, 0, -300));
    assert_eq!(w.registry.get_bounds(PLAYER_ID).low.z, -1300);
    assert_eq!(w.player.speed.z, -300);
}

/// The slot tables stay mutual inverses through appends and removals.
#[test]
fn slot_tables_stay_inverse() {
    let mut w = World::new();
    for k in 0..6i64 {
        assert!(w.place_block(
            v(k * 2000, 0, 0),
            v(k * 2000 + 1000, 1000, 1000),
            BlockType::Stone,
            false,
        ));
    }
    w.load_tick();
    w.remove_block(3);
    w.remove_block(6);
    assert_eq!(w.render.len(), 4);
    for slot in 0..4usize {
        let id = w.render.id_at(slot);
        assert_eq!(w.render.slot(id), slot);
    }
}

/// A face placement that would leave the world's coordinate range is
/// refused.
#[test]
fn face_placement_at_world_edge_is_refused() {
    let limit: i64 = 0x100_0000_0000;
    let mut w = World::new();
    assert!(w.place_block(
        v(limit - 500, 0, 0),
        v(limit, 500, 500),
        BlockType::Stone,
        false,
    ));
    w.load_tick();
    // Out of the +x face there is no room left.
    assert!(!w.place_block_at_face(2, 4, BlockType::Dirt));
    // Out of the -x face there is.
    assert!(w.place_block_at_face(2, 1, BlockType::Dirt));
}
