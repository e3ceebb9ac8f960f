//! Axis-aligned bounding boxes and the sliding collision classification.
//!
//! `intersect` classifies a pair of boxes one axis at a time. The result is
//! either "no collision" (some axis is disjoint) or a per-axis multiplier
//! vector that zeroes motion along every overlapping axis and leaves
//! "contained" axes untouched. The classification is directional (it is not a
//! symmetric overlap test): a "contained" axis is one where the first box's
//! extent lies strictly inside the second box's. This asymmetry is kept
//! exactly as the world's physics expects it.

use vstd::prelude::*;

use crate::units::{COORD_LIMIT, V3};

verus! {

/// How the extents of two boxes relate on one axis. `a` is the moving box.
#[derive(Clone, Copy, PartialEq, Eq, Structural, Debug)]
pub enum AxisClass {
    /// `a`'s extent lies strictly inside `b`'s on this axis.
    Contained,
    /// The extents overlap without `a` being contained in `b`.
    Overlapping,
    /// The extents do not overlap.
    Disjoint,
}

/// An axis-aligned box between two corners, `low` componentwise at most
/// `high`.
#[derive(Clone, Copy, PartialEq, Eq, Structural, Debug)]
pub struct Aabb {
    pub low: V3,
    pub high: V3,
}

/// Per-axis velocity multiplier produced by a collision: 0 on every axis
/// classified overlapping, 1 elsewhere.
#[derive(Clone, Copy, PartialEq, Eq, Structural, Debug)]
pub struct Slide {
    pub x: i64,
    pub y: i64,
    pub z: i64,
}

/// Classification of one axis: `a` spans `[al, ah]`, `b` spans `[bl, bh]`.
pub open spec fn spec_axis_class(al: int, ah: int, bl: int, bh: int) -> AxisClass {
    if al > bl && ah <= bh {
        AxisClass::Contained
    } else if ah > bl && bh > al {
        AxisClass::Overlapping
    } else {
        AxisClass::Disjoint
    }
}

/// Multiplier contributed by one axis of the slide vector.
pub open spec fn spec_axis_slide(c: AxisClass) -> int {
    if c is Overlapping {
        0
    } else {
        1
    }
}

impl Aabb {
    /// A valid box: corners ordered and inside the world's coordinate range.
    pub open spec fn wf(self) -> bool {
        &&& self.low.x <= self.high.x
        &&& self.low.y <= self.high.y
        &&& self.low.z <= self.high.z
        &&& self.low.abs_within(COORD_LIMIT as int)
        &&& self.high.abs_within(COORD_LIMIT as int)
    }

    /// Classification of the x axis of `self` against `other`.
    pub open spec fn class_x(self, other: Aabb) -> AxisClass {
        spec_axis_class(self.low.x as int, self.high.x as int, other.low.x as int, other.high.x as int)
    }

    pub open spec fn class_y(self, other: Aabb) -> AxisClass {
        spec_axis_class(self.low.y as int, self.high.y as int, other.low.y as int, other.high.y as int)
    }

    pub open spec fn class_z(self, other: Aabb) -> AxisClass {
        spec_axis_class(self.low.z as int, self.high.z as int, other.low.z as int, other.high.z as int)
    }

    /// The boxes collide when no axis is disjoint.
    pub open spec fn spec_collides(self, other: Aabb) -> bool {
        &&& !(self.class_x(other) is Disjoint)
        &&& !(self.class_y(other) is Disjoint)
        &&& !(self.class_z(other) is Disjoint)
    }

    /// The slide vector returned on collision.
    pub open spec fn spec_slide(self, other: Aabb) -> Slide {
        Slide {
            x: spec_axis_slide(self.class_x(other)) as i64,
            y: spec_axis_slide(self.class_y(other)) as i64,
            z: spec_axis_slide(self.class_z(other)) as i64,
        }
    }

    /// The full collision classification: `None` when some axis is disjoint,
    /// otherwise the slide vector.
    pub open spec fn spec_intersect(self, other: Aabb) -> Option<Slide> {
        if self.spec_collides(other) {
            Some(self.spec_slide(other))
        } else {
            None
        }
    }

    /// Classify `self` (the moving box) against `other`. Returns `None` when
    /// they do not collide, and otherwise the per-axis velocity multiplier.
    pub fn intersect(&self, other: &Aabb) -> (r: Option<Slide>)
        ensures
            r == self.spec_intersect(*other),
    {
        let cx = axis_class(self.low.x, self.high.x, other.low.x, other.high.x);
        let cy = axis_class(self.low.y, self.high.y, other.low.y, other.high.y);
        let cz = axis_class(self.low.z, self.high.z, other.low.z, other.high.z);
        if matches!(cx, AxisClass::Disjoint) || matches!(cy, AxisClass::Disjoint)
            || matches!(cz, AxisClass::Disjoint) {
            None
        } else {
            Some(Slide { x: axis_slide(cx), y: axis_slide(cy), z: axis_slide(cz) })
        }
    }

    /// The box translated by `v`.
    pub fn translated(&self, v: V3) -> (r: Aabb)
        requires
            self.low.abs_within(COORD_LIMIT as int),
            self.high.abs_within(COORD_LIMIT as int),
            v.abs_within(COORD_LIMIT as int),
        ensures
            r.low.x == self.low.x + v.x,
            r.low.y == self.low.y + v.y,
            r.low.z == self.low.z + v.z,
            r.high.x == self.high.x + v.x,
            r.high.y == self.high.y + v.y,
            r.high.z == self.high.z + v.z,
    {
        Aabb { low: self.low.add(v), high: self.high.add(v) }
    }
}

fn axis_class(al: i64, ah: i64, bl: i64, bh: i64) -> (r: AxisClass)
    ensures
        r == spec_axis_class(al as int, ah as int, bl as int, bh as int),
{
    if al > bl && ah <= bh {
        AxisClass::Contained
    } else if ah > bl && bh > al {
        AxisClass::Overlapping
    } else {
        AxisClass::Disjoint
    }
}

fn axis_slide(c: AxisClass) -> (r: i64)
    ensures
        r == spec_axis_slide(c),
{
    match c {
        AxisClass::Overlapping => 0,
        _ => 1,
    }
}

/// Law: a pair of boxes with a disjoint axis on any dimension never collides,
/// and the all-ones slide vector is returned exactly when every axis is
/// contained.
pub proof fn lemma_intersect_classification(a: Aabb, b: Aabb)
    ensures
        (a.class_x(b) is Disjoint || a.class_y(b) is Disjoint || a.class_z(b) is Disjoint)
            ==> a.spec_intersect(b) is None,
        a.spec_intersect(b) == Some(Slide { x: 1i64, y: 1i64, z: 1i64 })
            <==> (a.class_x(b) is Contained && a.class_y(b) is Contained
                && a.class_z(b) is Contained),
{
}

} // verus!
