//! Fixed-point scalars and 3-vectors.
//!
//! A world coordinate is an `i64` counting milli-units: `UNIT` (1000) is the
//! side of one standard block. Velocities and accelerations are milli-units
//! per tick. All simulation arithmetic stays well inside `i64` because every
//! coordinate is bounded by `COORD_LIMIT` and every speed or acceleration
//! component by `SPEED_LIMIT` / `ACCEL_LIMIT`.

use vstd::prelude::*;

verus! {

/// Milli-units per world unit: the fixed-point scale.
pub const UNIT: i64 = 1000;

/// Largest magnitude a world coordinate may take.
pub const COORD_LIMIT: i64 = 0x100_0000_0000;

/// Largest magnitude of a velocity component, in milli-units per tick.
pub const SPEED_LIMIT: i64 = 0x1000_0000;

/// Largest magnitude of an acceleration component, in milli-units per tick
/// per tick. `SPEED_LIMIT` is 256 times this, which keeps damped velocities
/// closed under one integration step (see `Player::integrate`).
pub const ACCEL_LIMIT: i64 = 0x10_0000;

/// A fixed-point 3-vector (position, velocity or acceleration).
#[derive(Clone, Copy, PartialEq, Eq, Structural, Debug)]
pub struct V3 {
    pub x: i64,
    pub y: i64,
    pub z: i64,
}

/// Truncating division of `a` by positive `d`: rounds toward zero, so
/// damping always shrinks a value's magnitude.
pub open spec fn div_trunc(a: int, d: int) -> int
    recommends
        d > 0,
{
    if a >= 0 {
        a / d
    } else {
        -((-a) / d)
    }
}

impl V3 {
    /// Every component has magnitude at most `bound`.
    pub open spec fn abs_within(self, bound: int) -> bool {
        &&& -bound <= self.x <= bound
        &&& -bound <= self.y <= bound
        &&& -bound <= self.z <= bound
    }

    /// Componentwise sum.
    pub fn add(self, other: V3) -> (r: V3)
        requires
            self.abs_within(COORD_LIMIT as int),
            other.abs_within(COORD_LIMIT as int),
        ensures
            r.x == self.x + other.x,
            r.y == self.y + other.y,
            r.z == self.z + other.z,
    {
        V3 { x: self.x + other.x, y: self.y + other.y, z: self.z + other.z }
    }
}

/// Truncating division of a bounded scalar by a positive divisor.
pub fn scalar_div_trunc(a: i64, d: i64) -> (r: i64)
    requires
        0 < d,
        -0x4000_0000_0000_0000 < a < 0x4000_0000_0000_0000,
    ensures
        r == div_trunc(a as int, d as int),
{
    if a >= 0 {
        a / d
    } else {
        -((-a) / d)
    }
}

} // verus!
