use playform::geometry::{block_color, to_outlines, to_triangles, BlockType, Rgba};
use playform::minima::partial_min_by;
use playform::aabb::Aabb;
use playform::input::{apply_event, swap_remove_first, ButtonState, InputEvent};
use playform::player::Player;
use playform::registry::PLAYER_ID;
use playform::units::{scalar_div_trunc, V3};
use playform::world::{World, LOAD_SPEED};
use playform::worldgen::{initial_world, INITIAL_BLOCK_COUNT};

fn v(x: i64, y: i64, z: i64) -> V3 {
    V3 { x, y, z }
}

#[test]
fn truncating_division_rounds_toward_zero() {
    assert_eq!(scalar_div_trunc(7, 10), 0);
    assert_eq!(scalar_div_trunc(-7, 10), 0);
    assert_eq!(scalar_div_trunc(99, 100), 0);
    assert_eq!(scalar_div_trunc(-150, 100), -1);
    assert_eq!(scalar_div_trunc(150, 100), 1);
}

#[test]
fn jump_state_machine_spends_fuel_then_cuts_out() {
    let mut p = Player::new();
    assert_eq!(p.accel.y, -100);
    p.start_jump();
    assert!(p.is_jumping);
    assert_eq!(p.accel.y, 200);
    // Holding the jump again adds nothing.
    p.start_jump();
    assert_eq!(p.accel.y, 200);
    // With fuel, a tick burns one unit.
    p.jump_fuel = 2;
    p.fuel_tick();
    assert_eq!(p.jump_fuel, 1);
    assert!(p.is_jumping);
    p.fuel_tick();
    assert_eq!(p.jump_fuel, 0);
    assert!(p.is_jumping);
    // Out of fuel: the jump ends and the impulse is withdrawn.
    p.fuel_tick();
    assert!(!p.is_jumping);
    assert_eq!(p.accel.y, -100);
    // Releasing with no jump held changes nothing.
    p.stop_jump();
    assert_eq!(p.accel.y, -100);
}

#[test]
fn integration_rotates_and_damps() {
    let mut p = Player::new();
    p.accel = v(1000, 0, 0);
    // Lateral rotation zero: cosine 1000, sine 0. Velocity becomes the
    // acceleration, damped by 7/10 on x.
    p.integrate(1000, 0);
    assert_eq!(p.speed, v(700, 0, 0));
    // A quarter turn (cosine 0, sine 1000) sends x acceleration to -z.
    let mut q = Player::new();
    q.accel = v(1000, 0, 0);
    q.integrate(0, 1000);
    assert_eq!(q.speed, v(0, 0, -700));
}

#[test]
fn integration_applies_gravity_damping() {
    let mut p = Player::new();
    // Gravity -100 joins the speed, damped by 99/100 (truncating).
    p.integrate(1000, 0);
    assert_eq!(p.speed.y, -99);
    p.integrate(1000, 0);
    assert_eq!(p.speed.y, scalar_div_trunc((-99 - 100) * 99, 100));
}

#[test]
fn walk_events_accumulate_and_cancel() {
    let mut w = World::new();
    apply_event(&mut w, InputEvent::Walk(v(-1000, 0, 0)));
    assert_eq!(w.player.accel.x, -200);
    apply_event(&mut w, InputEvent::Walk(v(0, 0, -1000)));
    assert_eq!(w.player.accel.z, -200);
    // The release contributes the opposite direction.
    apply_event(&mut w, InputEvent::Walk(v(1000, 0, 0)));
    assert_eq!(w.player.accel.x, 0);
    apply_event(&mut w, InputEvent::RotateLateral(15_000));
    assert_eq!(w.lateral_rotation, 15_000);
}

#[test]
fn button_state_tracks_held_buttons() {
    let mut b = ButtonState::new();
    assert!(!b.is_pressed(1));
    b.press(1);
    b.press(2);
    assert!(b.is_pressed(1));
    assert!(b.is_pressed(2));
    b.release(1);
    assert!(!b.is_pressed(1));
    assert!(b.is_pressed(2));
    b.release(3);
    assert!(b.is_pressed(2));
}

#[test]
fn swap_remove_first_takes_first_occurrence() {
    let mut xs: Vec<u32> = vec![5, 7, 5, 9];
    swap_remove_first(&mut xs, 5);
    assert_eq!(xs, vec![9, 7, 5]);
    swap_remove_first(&mut xs, 1);
    assert_eq!(xs, vec![9, 7, 5]);
}

#[test]
fn geometry_records_have_fixed_sizes() {
    let b = Aabb { low: v(0, 0, 0), high: v(500, 500, 500) };
    let c = block_color(BlockType::Grass);
    let cs = vec![c, c, c, c, c, c];
    let tri = to_triangles(&b, &cs);
    assert_eq!(tri.len(), 36);
    assert_eq!(tri[0].pos, v(0, 0, 500));
    assert_eq!(tri[0].color, Rgba { r: 0, g: 500, b: 0, a: 1000 });
    let out = to_outlines(&b);
    assert_eq!(out.len(), 24);
    // Outlines are pushed out by the outline distance.
    assert_eq!(out[0].pos, v(-2, -2, -2));
    assert_eq!(out[23].pos, v(502, 502, 502));
}

#[test]
fn block_colors_are_fixed() {
    assert_eq!(block_color(BlockType::Dirt), Rgba { r: 200, g: 150, b: 100, a: 1000 });
    assert_eq!(block_color(BlockType::Stone), Rgba { r: 500, g: 500, b: 500, a: 1000 });
}

#[test]
fn initial_world_loads_in_bounded_batches() {
    let mut w = initial_world();
    assert_eq!(INITIAL_BLOCK_COUNT, 50231);
    assert_eq!(w.queue.len(), INITIAL_BLOCK_COUNT);
    assert_eq!(w.next_load_id, 2);
    assert_eq!(w.render.len(), 0);
    // The camera starts lifted above and behind the origin.
    let b = w.registry.get_bounds(PLAYER_ID);
    assert_eq!(b.low, v(-1000, 2000, 9000));
    assert_eq!(b.high, v(0, 4000, 10000));
    // One tick materializes exactly one batch.
    w.load_tick();
    assert_eq!(w.next_load_id as usize, 2 + LOAD_SPEED as usize);
    assert_eq!(w.render.len(), LOAD_SPEED as usize);
    // Loading the whole world takes a bounded number of ticks.
    let mut ticks = 1;
    while (w.next_load_id as usize) < 2 + INITIAL_BLOCK_COUNT {
        w.load_tick();
        ticks += 1;
    }
    assert_eq!(ticks, (INITIAL_BLOCK_COUNT + LOAD_SPEED as usize - 1) / LOAD_SPEED as usize);
    assert_eq!(w.render.len(), INITIAL_BLOCK_COUNT);
}

#[test]
fn full_tick_runs_loader_and_player() {
    let mut w = World::new();
    assert!(w.place_block(v(3000, 0, 0), v(3500, 500, 500), BlockType::Grass, false));
    w.player.speed = v(0, -100, 0);
    w.tick(1000, 0);
    // The block was loaded.
    assert_eq!(w.next_load_id, 3);
    assert!(w.render.contains(2));
    // Nothing below the player: it fell and gravity accumulated.
    assert_eq!(w.registry.get_bounds(PLAYER_ID).low.y, -2100);
    assert_eq!(w.player.speed.y, scalar_div_trunc((-100 - 100) * 99, 100));
}

#[test]
fn partial_min_collects_all_minima() {
    assert_eq!(partial_min_by(&vec![]), Vec::<i64>::new());
    assert_eq!(partial_min_by(&vec![3]), vec![3]);
    assert_eq!(partial_min_by(&vec![5, 2, 8, 2, 9, 2]), vec![2, 2, 2]);
    assert_eq!(partial_min_by(&vec![7, 5, 3, 1]), vec![1]);
    assert_eq!(partial_min_by(&vec![-4, -4, 0]), vec![-4, -4]);
}
