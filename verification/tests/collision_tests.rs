use playform::aabb::{Aabb, Slide};
use playform::selection::{decode_selection, id_color, IdColor};
use playform::units::V3;

fn boxed(x1: i64, y1: i64, z1: i64, x2: i64, y2: i64, z2: i64) -> Aabb {
    Aabb { low: V3 { x: x1, y: y1, z: z1 }, high: V3 { x: x2, y: y2, z: z2 } }
}

#[test]
fn disjoint_axis_means_no_collision() {
    // Separated along x only: no collision regardless of the other axes.
    let a = boxed(0, 0, 0, 1000, 1000, 1000);
    let b = boxed(5000, 0, 0, 6000, 1000, 1000);
    assert_eq!(a.intersect(&b), None);
    // Touching boxes do not overlap.
    let c = boxed(1000, 0, 0, 2000, 1000, 1000);
    assert_eq!(a.intersect(&c), None);
}

#[test]
fn contained_axes_keep_their_multiplier() {
    // `a` strictly inside `b` on every axis: the slide vector is all ones.
    let a = boxed(100, 100, 100, 900, 900, 900);
    let b = boxed(0, 0, 0, 1000, 1000, 1000);
    assert_eq!(a.intersect(&b), Some(Slide { x: 1, y: 1, z: 1 }));
}

#[test]
fn overlapping_axis_is_zeroed() {
    // x and z contained, y partially overlapping: motion on y is stopped.
    let a = boxed(100, -100, 100, 900, 900, 900);
    let b = boxed(0, 0, 0, 1000, 1000, 1000);
    assert_eq!(a.intersect(&b), Some(Slide { x: 1, y: 0, z: 1 }));
}

#[test]
fn classification_is_directional() {
    // The box containing the other is itself only "overlapping": the test
    // is not symmetric.
    let inner = boxed(100, 100, 100, 900, 900, 900);
    let outer = boxed(0, 0, 0, 1000, 1000, 1000);
    assert_eq!(inner.intersect(&outer), Some(Slide { x: 1, y: 1, z: 1 }));
    assert_eq!(outer.intersect(&inner), Some(Slide { x: 0, y: 0, z: 0 }));
}

#[test]
fn selection_colors_round_trip() {
    // Block 2, face 2 encodes as 2 * 6 + 2 = 14 and decodes back.
    let c = id_color(14);
    assert_eq!(c, IdColor { r: 0, g: 0, b: 14 });
    assert_eq!(decode_selection(c), Some((2, 2)));
    // A larger id spreads over the channels.
    let c = id_color(0x0102_0304);
    assert_eq!(c, IdColor { r: 2, g: 3, b: 4 });
    // Background pixels decode to nothing.
    assert_eq!(decode_selection(IdColor { r: 0, g: 0, b: 0 }), None);
}
