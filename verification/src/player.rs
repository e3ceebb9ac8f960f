//! The player's motion state and its per-tick integration.
//!
//! The player accumulates acceleration from held movement keys, spends a
//! small jump-fuel budget while a jump is held, and integrates velocity once
//! per tick: the horizontal acceleration components are rotated by the
//! current lateral view rotation, added to the velocity, and the velocity is
//! then damped anisotropically (stronger on the horizontal axes). All values
//! are fixed-point milli-units.

use vstd::prelude::*;

use crate::units::{div_trunc, scalar_div_trunc, ACCEL_LIMIT, SPEED_LIMIT, UNIT, V3};

verus! {

/// Ticks of upward impulse a full jump may spend before it cuts out.
pub const MAX_JUMP_FUEL: u32 = 4;

/// Acceleration added per held movement key, in milli-units per tick squared
/// (one fifth of a unit).
pub const WALK_ACCEL: i64 = 200;

/// Upward acceleration while a jump is held.
pub const JUMP_ACCEL: i64 = 300;

/// Constant downward acceleration (gravity).
pub const GRAVITY_ACCEL: i64 = 100;

/// Damping numerator and denominator for the horizontal axes.
pub const DAMP_XZ_NUM: i64 = 7;

pub const DAMP_XZ_DEN: i64 = 10;

/// Damping numerator and denominator for the vertical axis.
pub const DAMP_Y_NUM: i64 = 99;

pub const DAMP_Y_DEN: i64 = 100;

/// The player's motion state. Its collision bounds live in the entity
/// registry under the player's id.
#[derive(Clone, Copy, PartialEq, Eq, Structural, Debug)]
pub struct Player {
    /// Velocity in world milli-units per tick.
    pub speed: V3,
    /// Acceleration; x/z are relative to the player's facing and rotated by
    /// the lateral view rotation at integration time.
    pub accel: V3,
    /// Remaining ticks of jump impulse; replenished on landing.
    pub jump_fuel: u32,
    /// Whether a jump is currently held.
    pub is_jumping: bool,
}

/// A component of the acceleration rotated about the vertical axis:
/// `c` and `s` are the cosine and sine of the lateral rotation, scaled by
/// `UNIT`.
pub open spec fn spec_rot_y_x(c: int, s: int, a: V3) -> int {
    div_trunc(c * a.x + s * a.z, UNIT as int)
}

pub open spec fn spec_rot_y_z(c: int, s: int, a: V3) -> int {
    div_trunc(c * a.z - s * a.x, UNIT as int)
}

/// One damping step of a velocity component.
pub open spec fn spec_damp(v: int, num: int, den: int) -> int {
    div_trunc(v * num, den)
}

/// The velocity after one integration step: acceleration rotated about the
/// vertical axis by `(c, s)`, added to the velocity, then damped.
pub open spec fn spec_integrated_speed(p: Player, c: int, s: int) -> V3 {
    let vx = p.speed.x + spec_rot_y_x(c, s, p.accel);
    let vy = p.speed.y + p.accel.y;
    let vz = p.speed.z + spec_rot_y_z(c, s, p.accel);
    V3 {
        x: spec_damp(vx, DAMP_XZ_NUM as int, DAMP_XZ_DEN as int) as i64,
        y: spec_damp(vy, DAMP_Y_NUM as int, DAMP_Y_DEN as int) as i64,
        z: spec_damp(vz, DAMP_XZ_NUM as int, DAMP_XZ_DEN as int) as i64,
    }
}

/// The jump state at the start of a tick: held jumps burn one unit of fuel,
/// and a jump that has run out of fuel ends, withdrawing its impulse.
pub open spec fn spec_fuel_phase(p: Player) -> Player {
    if p.is_jumping {
        if p.jump_fuel > 0 {
            Player { jump_fuel: (p.jump_fuel - 1) as u32, ..p }
        } else {
            Player {
                is_jumping: false,
                accel: V3 { y: (p.accel.y - JUMP_ACCEL) as i64, ..p.accel },
                ..p
            }
        }
    } else {
        p
    }
}

impl Player {
    /// Speeds, accelerations and fuel stay inside their machine bounds; a
    /// held jump always leaves room to withdraw its impulse.
    pub open spec fn wf(self) -> bool {
        &&& self.speed.abs_within(SPEED_LIMIT as int)
        &&& self.accel.abs_within(ACCEL_LIMIT as int)
        &&& self.jump_fuel <= MAX_JUMP_FUEL
        &&& self.is_jumping ==> -ACCEL_LIMIT + JUMP_ACCEL <= self.accel.y
    }

    /// A player at rest, subject to gravity, with an empty jump budget.
    pub fn new() -> (r: Player)
        ensures
            r.wf(),
            r.speed == (V3 { x: 0, y: 0, z: 0 }),
            r.accel == (V3 { x: 0, y: (-GRAVITY_ACCEL) as i64, z: 0 }),
            r.jump_fuel == 0,
            !r.is_jumping,
    {
        Player {
            speed: V3 { x: 0, y: 0, z: 0 },
            accel: V3 { x: 0, y: -GRAVITY_ACCEL, z: 0 },
            jump_fuel: 0,
            is_jumping: false,
        }
    }

    /// Add a movement key's contribution to the acceleration: `da` is a
    /// direction in milli-units (a held key contributes a unit axis, a
    /// released key the opposite), scaled down to `WALK_ACCEL`.
    pub fn walk(&mut self, da: V3)
        requires
            old(self).wf(),
            da.abs_within(UNIT as int),
            -ACCEL_LIMIT <= old(self).accel.x + div_trunc(da.x * WALK_ACCEL, UNIT as int)
                <= ACCEL_LIMIT,
            -ACCEL_LIMIT <= old(self).accel.y + div_trunc(da.y * WALK_ACCEL, UNIT as int)
                <= ACCEL_LIMIT,
            -ACCEL_LIMIT <= old(self).accel.z + div_trunc(da.z * WALK_ACCEL, UNIT as int)
                <= ACCEL_LIMIT,
            old(self).is_jumping ==> -ACCEL_LIMIT + JUMP_ACCEL <= old(self).accel.y + div_trunc(
                da.y * WALK_ACCEL,
                UNIT as int,
            ),
        ensures
            final(self).wf(),
            final(self).accel.x == old(self).accel.x + div_trunc(da.x * WALK_ACCEL, UNIT as int),
            final(self).accel.y == old(self).accel.y + div_trunc(da.y * WALK_ACCEL, UNIT as int),
            final(self).accel.z == old(self).accel.z + div_trunc(da.z * WALK_ACCEL, UNIT as int),
            final(self).speed == old(self).speed,
            final(self).jump_fuel == old(self).jump_fuel,
            final(self).is_jumping == old(self).is_jumping,
    {
        let dx = scalar_div_trunc(da.x * WALK_ACCEL, UNIT);
        let dy = scalar_div_trunc(da.y * WALK_ACCEL, UNIT);
        let dz = scalar_div_trunc(da.z * WALK_ACCEL, UNIT);
        self.accel = V3 {
            x: self.accel.x + dx,
            y: self.accel.y + dy,
            z: self.accel.z + dz,
        };
    }

    /// Begin holding a jump: adds the upward impulse once. Holding a jump
    /// that is already held changes nothing.
    pub fn start_jump(&mut self)
        requires
            old(self).wf(),
            old(self).accel.y + JUMP_ACCEL <= ACCEL_LIMIT,
        ensures
            final(self).wf(),
            old(self).is_jumping ==> *final(self) == *old(self),
            !old(self).is_jumping ==> *final(self) == (Player {
                is_jumping: true,
                accel: V3 { y: (old(self).accel.y + JUMP_ACCEL) as i64, ..old(self).accel },
                ..*old(self)
            }),
    {
        if !self.is_jumping {
            self.is_jumping = true;
            self.accel = V3 { x: self.accel.x, y: self.accel.y + JUMP_ACCEL, z: self.accel.z };
        }
    }

    /// Release the jump: withdraws the upward impulse. Releasing when no
    /// jump is held changes nothing.
    pub fn stop_jump(&mut self)
        requires
            old(self).wf(),
        ensures
            final(self).wf(),
            !old(self).is_jumping ==> *final(self) == *old(self),
            old(self).is_jumping ==> *final(self) == (Player {
                is_jumping: false,
                accel: V3 { y: (old(self).accel.y - JUMP_ACCEL) as i64, ..old(self).accel },
                ..*old(self)
            }),
    {
        if self.is_jumping {
            self.is_jumping = false;
            self.accel = V3 { x: self.accel.x, y: self.accel.y - JUMP_ACCEL, z: self.accel.z };
        }
    }

    /// The fuel phase of a tick: spend one unit of fuel while jumping, or end
    /// an exhausted jump.
    pub fn fuel_tick(&mut self)
        requires
            old(self).wf(),
        ensures
            final(self).wf(),
            *final(self) == spec_fuel_phase(*old(self)),
    {
        if self.is_jumping {
            if self.jump_fuel > 0 {
                self.jump_fuel = self.jump_fuel - 1;
            } else {
                self.is_jumping = false;
                self.accel = V3 { x: self.accel.x, y: self.accel.y - JUMP_ACCEL, z: self.accel.z };
            }
        }
    }

    /// One velocity integration step: rotate the acceleration's horizontal
    /// components by the lateral rotation whose cosine and sine (scaled by
    /// `UNIT`) are `c` and `s`, add it to the velocity, and damp.
    pub fn integrate(&mut self, c: i64, s: i64)
        requires
            old(self).wf(),
            -UNIT <= c <= UNIT,
            -UNIT <= s <= UNIT,
        ensures
            final(self).wf(),
            final(self).speed == spec_integrated_speed(*old(self), c as int, s as int),
            final(self).accel == old(self).accel,
            final(self).jump_fuel == old(self).jump_fuel,
            final(self).is_jumping == old(self).is_jumping,
    {
        proof {
            lemma_rot_component_bound(c as int, s as int, self.accel.x as int, self.accel.z as int);
            lemma_rot_component_bound(c as int, s as int, self.accel.z as int, -(self.accel.x as int));
            assert((s as int) * (-(self.accel.x as int)) == -((s as int) * (self.accel.x as int)))
                by (nonlinear_arith);
        }
        let dvx = scalar_div_trunc(c * self.accel.x + s * self.accel.z, UNIT);
        let dvz = scalar_div_trunc(c * self.accel.z - s * self.accel.x, UNIT);
        let vx = self.speed.x + dvx;
        let vy = self.speed.y + self.accel.y;
        let vz = self.speed.z + dvz;
        proof {
            lemma_damp_abs_bound(
                vx as int,
                SPEED_LIMIT as int + 2 * ACCEL_LIMIT as int,
                DAMP_XZ_NUM as int,
                DAMP_XZ_DEN as int,
            );
            lemma_damp_abs_bound(
                vy as int,
                SPEED_LIMIT as int + 2 * ACCEL_LIMIT as int,
                DAMP_Y_NUM as int,
                DAMP_Y_DEN as int,
            );
            lemma_damp_abs_bound(
                vz as int,
                SPEED_LIMIT as int + 2 * ACCEL_LIMIT as int,
                DAMP_XZ_NUM as int,
                DAMP_XZ_DEN as int,
            );
        }
        self.speed = V3 {
            x: scalar_div_trunc(vx * DAMP_XZ_NUM, DAMP_XZ_DEN),
            y: scalar_div_trunc(vy * DAMP_Y_NUM, DAMP_Y_DEN),
            z: scalar_div_trunc(vz * DAMP_XZ_NUM, DAMP_XZ_DEN),
        };
    }
}

/// Law: in every well-formed state the jump fuel lies between zero and the
/// full budget. Every operation of the library that touches a player takes
/// and returns well-formed players, so this holds of all reachable states.
pub proof fn lemma_jump_fuel_bounded(p: Player)
    requires
        p.wf(),
    ensures
        0 <= p.jump_fuel <= MAX_JUMP_FUEL,
{
}

/// A rotated acceleration component stays within twice the acceleration
/// bound: `|div_trunc(c*a1 + s*a2, UNIT)| <= 2 * ACCEL_LIMIT` for scaled
/// sine/cosine values.
proof fn lemma_rot_component_bound(c: int, s: int, a1: int, a2: int)
    requires
        -UNIT <= c <= UNIT,
        -UNIT <= s <= UNIT,
        -ACCEL_LIMIT <= a1 <= ACCEL_LIMIT,
        -ACCEL_LIMIT <= a2 <= ACCEL_LIMIT,
    ensures
        -(UNIT as int) * ACCEL_LIMIT <= c * a1 <= (UNIT as int) * ACCEL_LIMIT,
        -(UNIT as int) * ACCEL_LIMIT <= s * a2 <= (UNIT as int) * ACCEL_LIMIT,
        -2 * ACCEL_LIMIT <= div_trunc(c * a1 + s * a2, UNIT as int) <= 2 * ACCEL_LIMIT,
{
    assert(-(UNIT as int) * ACCEL_LIMIT <= c * a1 <= (UNIT as int) * ACCEL_LIMIT) by (nonlinear_arith)
        requires
            -UNIT <= c <= UNIT,
            -ACCEL_LIMIT <= a1 <= ACCEL_LIMIT,
    ;
    assert(-(UNIT as int) * ACCEL_LIMIT <= s * a2 <= (UNIT as int) * ACCEL_LIMIT) by (nonlinear_arith)
        requires
            -UNIT <= s <= UNIT,
            -ACCEL_LIMIT <= a2 <= ACCEL_LIMIT,
    ;
    let sum = c * a1 + s * a2;
    let lim = 2 * (UNIT as int) * ACCEL_LIMIT;
    assert(-lim <= sum <= lim);
    if sum >= 0 {
        vstd::arithmetic::div_mod::lemma_div_is_ordered(sum, lim, UNIT as int);
        vstd::arithmetic::div_mod::lemma_div_is_ordered(0, sum, UNIT as int);
        assert(lim / (UNIT as int) == 2 * ACCEL_LIMIT);
    } else {
        vstd::arithmetic::div_mod::lemma_div_is_ordered(-sum, lim, UNIT as int);
        vstd::arithmetic::div_mod::lemma_div_is_ordered(0, -sum, UNIT as int);
        assert(lim / (UNIT as int) == 2 * ACCEL_LIMIT);
    }
}

/// Damping a velocity component that is within `b` keeps it within
/// `(b * num) / den`.
proof fn lemma_damp_abs_bound(v: int, b: int, num: int, den: int)
    requires
        0 <= b,
        -b <= v <= b,
        0 <= num,
        0 < den,
    ensures
        -((b * num) / den) <= spec_damp(v, num, den) <= (b * num) / den,
{
    if v >= 0 {
        assert(0 <= v * num <= b * num) by (nonlinear_arith)
            requires
                0 <= v <= b,
                0 <= num,
        ;
        vstd::arithmetic::div_mod::lemma_div_is_ordered(v * num, b * num, den);
        vstd::arithmetic::div_mod::lemma_div_is_ordered(0, v * num, den);
    } else {
        assert(0 <= (-v) * num <= b * num) by (nonlinear_arith)
            requires
                -b <= v < 0,
                0 <= num,
        ;
        assert(-(v * num) == (-v) * num) by (nonlinear_arith);
        vstd::arithmetic::div_mod::lemma_div_is_ordered((-v) * num, b * num, den);
        vstd::arithmetic::div_mod::lemma_div_is_ordered(0, (-v) * num, den);
    }
}

} // verus!
