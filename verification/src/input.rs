//! Input events and pressed-button state.
//!
//! The window layer turns raw device events into tagged variants; a single
//! dispatch function applies each variant to the world. Which mouse buttons
//! are currently held is tracked in a small set with order-insensitive
//! removal.

use vstd::prelude::*;

use crate::player::{Player, JUMP_ACCEL, WALK_ACCEL};
use crate::units::{div_trunc, ACCEL_LIMIT, UNIT, V3};
use crate::world::{World, FULL_TURN};

verus! {

/// One discrete input to the simulation.
#[derive(Clone, Copy, PartialEq, Eq, Structural, Debug)]
pub enum InputEvent {
    /// A movement key went down or up: the direction it contributes, in
    /// milli-units (a release contributes the opposite of its press).
    Walk(V3),
    /// The jump key went down.
    StartJump,
    /// The jump key went up.
    StopJump,
    /// Turn the view laterally by this many milli-degrees.
    RotateLateral(i64),
    /// Tilt the view by this many milli-degrees.
    RotateVertical(i64),
}

/// What an event demands of the world it is applied to (the machine bounds
/// of the affected quantities).
pub open spec fn spec_event_ok(w: World, ev: InputEvent) -> bool {
    match ev {
        InputEvent::Walk(da) => {
            &&& da.abs_within(UNIT as int)
            &&& -ACCEL_LIMIT <= w.player.accel.x + div_trunc(da.x * WALK_ACCEL, UNIT as int)
                <= ACCEL_LIMIT
            &&& -ACCEL_LIMIT <= w.player.accel.y + div_trunc(da.y * WALK_ACCEL, UNIT as int)
                <= ACCEL_LIMIT
            &&& -ACCEL_LIMIT <= w.player.accel.z + div_trunc(da.z * WALK_ACCEL, UNIT as int)
                <= ACCEL_LIMIT
            &&& w.player.is_jumping ==> -ACCEL_LIMIT + JUMP_ACCEL <= w.player.accel.y + div_trunc(
                da.y * WALK_ACCEL,
                UNIT as int,
            )
        },
        InputEvent::StartJump => w.player.accel.y + JUMP_ACCEL <= ACCEL_LIMIT,
        InputEvent::StopJump => true,
        InputEvent::RotateLateral(r) => -FULL_TURN <= r <= FULL_TURN,
        InputEvent::RotateVertical(r) => -FULL_TURN <= r <= FULL_TURN,
    }
}

/// Apply one input event to the world: movement keys steer the player's
/// acceleration, the jump key toggles the jump impulse, and look deltas turn
/// the view.
pub fn apply_event(w: &mut World, ev: InputEvent)
    requires
        old(w).wf(),
        spec_event_ok(*old(w), ev),
    ensures
        final(w).wf(),
        ev matches InputEvent::Walk(da) ==> {
            &&& final(w).player.accel.x == old(w).player.accel.x + div_trunc(
                da.x * WALK_ACCEL,
                UNIT as int,
            )
            &&& final(w).player.accel.y == old(w).player.accel.y + div_trunc(
                da.y * WALK_ACCEL,
                UNIT as int,
            )
            &&& final(w).player.accel.z == old(w).player.accel.z + div_trunc(
                da.z * WALK_ACCEL,
                UNIT as int,
            )
            &&& final(w).player.speed == old(w).player.speed
            &&& final(w).player.jump_fuel == old(w).player.jump_fuel
            &&& final(w).player.is_jumping == old(w).player.is_jumping
            &&& *final(w) == (World { player: final(w).player, ..*old(w) })
        },
        ev == InputEvent::StartJump ==> {
            &&& !old(w).player.is_jumping ==> final(w).player == (Player {
                is_jumping: true,
                accel: V3 {
                    y: (old(w).player.accel.y + JUMP_ACCEL) as i64,
                    ..old(w).player.accel
                },
                ..old(w).player
            })
            &&& old(w).player.is_jumping ==> final(w).player == old(w).player
            &&& *final(w) == (World { player: final(w).player, ..*old(w) })
        },
        ev == InputEvent::StopJump ==> {
            &&& old(w).player.is_jumping ==> final(w).player == (Player {
                is_jumping: false,
                accel: V3 {
                    y: (old(w).player.accel.y - JUMP_ACCEL) as i64,
                    ..old(w).player.accel
                },
                ..old(w).player
            })
            &&& !old(w).player.is_jumping ==> final(w).player == old(w).player
            &&& *final(w) == (World { player: final(w).player, ..*old(w) })
        },
        ev matches InputEvent::RotateLateral(r) ==> *final(w) == (World {
            lateral_rotation: ((old(w).lateral_rotation + r) % (FULL_TURN as int)) as i64,
            ..*old(w)
        }),
        ev matches InputEvent::RotateVertical(r) ==> *final(w) == (World {
            vertical_rotation: final(w).vertical_rotation,
            ..*old(w)
        }) && final(w).vertical_rotation == (if -crate::world::QUARTER_TURN
            < old(w).vertical_rotation + r
            && old(w).vertical_rotation + r < crate::world::QUARTER_TURN {
            (old(w).vertical_rotation + r) as i64
        } else {
            old(w).vertical_rotation
        }),
{
    match ev {
        InputEvent::Walk(da) => w.walk(da),
        InputEvent::StartJump => w.start_jump(),
        InputEvent::StopJump => w.stop_jump(),
        InputEvent::RotateLateral(r) => w.rotate_lateral(r),
        InputEvent::RotateVertical(r) => w.rotate_vertical(r),
    }
}

/// Remove the first occurrence of `t` from `v` by a compacting swap with the
/// last element; a `t` not present leaves `v` unchanged.
pub fn swap_remove_first(v: &mut Vec<u32>, t: u32)
    ensures
        !old(v)@.contains(t) ==> final(v)@ == old(v)@,
        old(v)@.contains(t) ==> exists|i: int|
            {
                &&& 0 <= i < old(v)@.len()
                &&& old(v)@[i] == t
                &&& forall|j: int| 0 <= j < i ==> old(v)@[j] != t
                &&& final(v)@ == old(v)@.update(i, old(v)@.last()).drop_last()
            },
{
    let n = v.len();
    let mut k: usize = 0;
    while k < n && v[k] != t
        invariant
            *v == *old(v),
            n == v@.len(),
            k <= n,
            forall|j: int| 0 <= j < k ==> v@[j] != t,
        decreases n - k,
    {
        k = k + 1;
    }
    if k < n {
        let ghost i = k as int;
        let _ = v.swap_remove(k);
        proof {
            assert(old(v)@[i] == t);
        }
    } else {
        proof {
            if old(v)@.contains(t) {
                let w = choose|w: int| 0 <= w < old(v)@.len() && old(v)@[w] == t;
                assert(old(v)@[w] != t);
            }
        }
    }
}

/// Which mouse buttons are currently held, by a small opaque button code.
#[derive(Debug)]
pub struct ButtonState {
    pub pressed: Vec<u32>,
}

impl ButtonState {
    pub fn new() -> (r: ButtonState)
        ensures
            r.pressed@ == Seq::<u32>::empty(),
    {
        ButtonState { pressed: Vec::new() }
    }

    /// Record a button going down.
    pub fn press(&mut self, b: u32)
        ensures
            final(self).pressed@ == old(self).pressed@.push(b),
    {
        self.pressed.push(b);
    }

    /// Record a button going up: its first recorded press is dropped.
    pub fn release(&mut self, b: u32)
        ensures
            !old(self).pressed@.contains(b) ==> final(self).pressed@ == old(self).pressed@,
            old(self).pressed@.contains(b) ==> exists|i: int|
                {
                    &&& 0 <= i < old(self).pressed@.len()
                    &&& old(self).pressed@[i] == b
                    &&& final(self).pressed@ == old(self).pressed@.update(
                        i,
                        old(self).pressed@.last(),
                    ).drop_last()
                },
    {
        swap_remove_first(&mut self.pressed, b);
    }

    /// Whether some press of `b` is still recorded.
    pub fn is_pressed(&self, b: u32) -> (r: bool)
        ensures
            r == self.pressed@.contains(b),
    {
        let n = self.pressed.len();
        let mut k: usize = 0;
        while k < n
            invariant
                n == self.pressed@.len(),
                k <= n,
                forall|j: int| 0 <= j < k ==> self.pressed@[j] != b,
            decreases n - k,
        {
            if self.pressed[k] == b {
                return true;
            }
            k = k + 1;
        }
        proof {
            if self.pressed@.contains(b) {
                let w = choose|w: int| 0 <= w < self.pressed@.len() && self.pressed@[w] == b;
                assert(self.pressed@[w] != b);
            }
        }
        false
    }
}

} // verus!
