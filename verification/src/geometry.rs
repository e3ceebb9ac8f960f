//! Render-geometry records for blocks.
//!
//! Every block contributes a fixed-size record to each mirror buffer: 36
//! coloured triangle vertices (six faces, two triangles each), 24 outline
//! vertices (twelve edges, two endpoints each), and 36 selection vertices
//! whose colours pixel-encode the block's faces. Colour intensities are
//! fixed-point per-mil values: `1000` stands for full intensity.

use vstd::prelude::*;

use crate::aabb::Aabb;
use crate::units::{COORD_LIMIT, V3};

verus! {

pub const TRIANGLES_PER_BOX: usize = 12;

pub const VERTICES_PER_TRIANGLE: usize = 3;

pub const TRIANGLE_VERTICES_PER_BOX: usize = 36;

pub const LINES_PER_BOX: usize = 12;

pub const VERTICES_PER_LINE: usize = 2;

pub const LINE_VERTICES_PER_BOX: usize = 24;

/// Distance from a block at which its outline is drawn, in milli-units.
pub const OUTLINE_DISTANCE: i64 = 2;

/// An RGBA colour with per-mil intensities (0 ..= 1000 per channel).
#[derive(Clone, Copy, PartialEq, Eq, Structural, Debug)]
pub struct Rgba {
    pub r: u16,
    pub g: u16,
    pub b: u16,
    pub a: u16,
}

/// The kinds of block in the world.
#[derive(Clone, Copy, PartialEq, Eq, Structural, Debug)]
pub enum BlockType {
    Grass,
    Dirt,
    Stone,
}

/// A vertex of some geometry record: a position and a colour of type `C`.
#[derive(Clone, Copy, PartialEq, Eq, Structural, Debug)]
pub struct Vtx<C> {
    pub pos: V3,
    pub color: C,
}

/// The fill colour of each block kind.
pub open spec fn spec_block_color(t: BlockType) -> Rgba {
    match t {
        BlockType::Grass => Rgba { r: 0, g: 500, b: 0, a: 1000 },
        BlockType::Dirt => Rgba { r: 200, g: 150, b: 100, a: 1000 },
        BlockType::Stone => Rgba { r: 500, g: 500, b: 500, a: 1000 },
    }
}

pub fn block_color(t: BlockType) -> (r: Rgba)
    ensures
        r == spec_block_color(t),
{
    match t {
        BlockType::Grass => Rgba { r: 0, g: 500, b: 0, a: 1000 },
        BlockType::Dirt => Rgba { r: 200, g: 150, b: 100, a: 1000 },
        BlockType::Stone => Rgba { r: 500, g: 500, b: 500, a: 1000 },
    }
}

pub open spec fn spec_vtx<C>(x: i64, y: i64, z: i64, c: C) -> Vtx<C> {
    Vtx { pos: V3 { x, y, z }, color: c }
}

/// The 36 triangle vertices of a box spanning `(x1, y1, z1)` to
/// `(x2, y2, z2)`, with one colour per face in the order front, left, top,
/// back, right, bottom.
pub open spec fn spec_box_vertices<C>(
    x1: i64,
    y1: i64,
    z1: i64,
    x2: i64,
    y2: i64,
    z2: i64,
    cs: Seq<C>,
) -> Seq<Vtx<C>>
    recommends
        cs.len() == 6,
{
    seq![
        // front
        spec_vtx(x1, y1, z2, cs[0]), spec_vtx(x2, y2, z2, cs[0]), spec_vtx(x1, y2, z2, cs[0]),
        spec_vtx(x1, y1, z2, cs[0]), spec_vtx(x2, y1, z2, cs[0]), spec_vtx(x2, y2, z2, cs[0]),
        // left
        spec_vtx(x1, y1, z1, cs[1]), spec_vtx(x1, y2, z2, cs[1]), spec_vtx(x1, y2, z1, cs[1]),
        spec_vtx(x1, y1, z1, cs[1]), spec_vtx(x1, y1, z2, cs[1]), spec_vtx(x1, y2, z2, cs[1]),
        // top
        spec_vtx(x1, y2, z1, cs[2]), spec_vtx(x2, y2, z2, cs[2]), spec_vtx(x2, y2, z1, cs[2]),
        spec_vtx(x1, y2, z1, cs[2]), spec_vtx(x1, y2, z2, cs[2]), spec_vtx(x2, y2, z2, cs[2]),
        // back
        spec_vtx(x1, y1, z1, cs[3]), spec_vtx(x2, y2, z1, cs[3]), spec_vtx(x2, y1, z1, cs[3]),
        spec_vtx(x1, y1, z1, cs[3]), spec_vtx(x1, y2, z1, cs[3]), spec_vtx(x2, y2, z1, cs[3]),
        // right
        spec_vtx(x2, y1, z1, cs[4]), spec_vtx(x2, y2, z2, cs[4]), spec_vtx(x2, y1, z2, cs[4]),
        spec_vtx(x2, y1, z1, cs[4]), spec_vtx(x2, y2, z1, cs[4]), spec_vtx(x2, y2, z2, cs[4]),
        // bottom
        spec_vtx(x1, y1, z1, cs[5]), spec_vtx(x2, y1, z2, cs[5]), spec_vtx(x1, y1, z2, cs[5]),
        spec_vtx(x1, y1, z1, cs[5]), spec_vtx(x2, y1, z1, cs[5]), spec_vtx(x2, y1, z2, cs[5]),
    ]
}

/// The triangle record of box `b` with face colours `cs`.
pub open spec fn spec_to_triangles<C>(b: Aabb, cs: Seq<C>) -> Seq<Vtx<C>>
    recommends
        cs.len() == 6,
{
    spec_box_vertices(b.low.x, b.low.y, b.low.z, b.high.x, b.high.y, b.high.z, cs)
}

/// The 24 outline vertices of box `b`: its twelve edges pushed outward by
/// `OUTLINE_DISTANCE`, all in colour `c`.
pub open spec fn spec_to_outlines<C>(b: Aabb, c: C) -> Seq<Vtx<C>> {
    let x1 = (b.low.x - OUTLINE_DISTANCE) as i64;
    let y1 = (b.low.y - OUTLINE_DISTANCE) as i64;
    let z1 = (b.low.z - OUTLINE_DISTANCE) as i64;
    let x2 = (b.high.x + OUTLINE_DISTANCE) as i64;
    let y2 = (b.high.y + OUTLINE_DISTANCE) as i64;
    let z2 = (b.high.z + OUTLINE_DISTANCE) as i64;
    seq![
        spec_vtx(x1, y1, z1, c), spec_vtx(x2, y1, z1, c),
        spec_vtx(x1, y2, z1, c), spec_vtx(x2, y2, z1, c),
        spec_vtx(x1, y1, z2, c), spec_vtx(x2, y1, z2, c),
        spec_vtx(x1, y2, z2, c), spec_vtx(x2, y2, z2, c),

        spec_vtx(x1, y1, z1, c), spec_vtx(x1, y2, z1, c),
        spec_vtx(x2, y1, z1, c), spec_vtx(x2, y2, z1, c),
        spec_vtx(x1, y1, z2, c), spec_vtx(x1, y2, z2, c),
        spec_vtx(x2, y1, z2, c), spec_vtx(x2, y2, z2, c),

        spec_vtx(x1, y1, z1, c), spec_vtx(x1, y1, z2, c),
        spec_vtx(x2, y1, z1, c), spec_vtx(x2, y1, z2, c),
        spec_vtx(x1, y2, z1, c), spec_vtx(x1, y2, z2, c),
        spec_vtx(x2, y2, z1, c), spec_vtx(x2, y2, z2, c),
    ]
}

/// The colour blocks' outlines are drawn in.
pub open spec fn spec_outline_color() -> Rgba {
    Rgba { r: 0, g: 0, b: 0, a: 1000 }
}

/// Build the 36-vertex triangle record of a box, one colour per face.
pub fn to_triangles<C: Copy>(b: &Aabb, cs: &Vec<C>) -> (r: Vec<Vtx<C>>)
    requires
        cs@.len() == 6,
    ensures
        r@ == spec_to_triangles(*b, cs@),
        r@.len() == TRIANGLE_VERTICES_PER_BOX,
{
    let (x1, y1, z1) = (b.low.x, b.low.y, b.low.z);
    let (x2, y2, z2) = (b.high.x, b.high.y, b.high.z);
    let mut r: Vec<Vtx<C>> = Vec::new();
    let c = cs[0];
    r.push(vtx(x1, y1, z2, c));
    r.push(vtx(x2, y2, z2, c));
    r.push(vtx(x1, y2, z2, c));
    r.push(vtx(x1, y1, z2, c));
    r.push(vtx(x2, y1, z2, c));
    r.push(vtx(x2, y2, z2, c));
    let c = cs[1];
    r.push(vtx(x1, y1, z1, c));
    r.push(vtx(x1, y2, z2, c));
    r.push(vtx(x1, y2, z1, c));
    r.push(vtx(x1, y1, z1, c));
    r.push(vtx(x1, y1, z2, c));
    r.push(vtx(x1, y2, z2, c));
    let c = cs[2];
    r.push(vtx(x1, y2, z1, c));
    r.push(vtx(x2, y2, z2, c));
    r.push(vtx(x2, y2, z1, c));
    r.push(vtx(x1, y2, z1, c));
    r.push(vtx(x1, y2, z2, c));
    r.push(vtx(x2, y2, z2, c));
    let c = cs[3];
    r.push(vtx(x1, y1, z1, c));
    r.push(vtx(x2, y2, z1, c));
    r.push(vtx(x2, y1, z1, c));
    r.push(vtx(x1, y1, z1, c));
    r.push(vtx(x1, y2, z1, c));
    r.push(vtx(x2, y2, z1, c));
    let c = cs[4];
    r.push(vtx(x2, y1, z1, c));
    r.push(vtx(x2, y2, z2, c));
    r.push(vtx(x2, y1, z2, c));
    r.push(vtx(x2, y1, z1, c));
    r.push(vtx(x2, y2, z1, c));
    r.push(vtx(x2, y2, z2, c));
    let c = cs[5];
    r.push(vtx(x1, y1, z1, c));
    r.push(vtx(x2, y1, z2, c));
    r.push(vtx(x1, y1, z2, c));
    r.push(vtx(x1, y1, z1, c));
    r.push(vtx(x2, y1, z1, c));
    r.push(vtx(x2, y1, z2, c));
    proof {
        assert(r@ =~= spec_to_triangles(*b, cs@));
    }
    r
}

/// Build the 24-vertex outline record of a box.
pub fn to_outlines(b: &Aabb) -> (r: Vec<Vtx<Rgba>>)
    requires
        b.wf(),
    ensures
        r@ == spec_to_outlines(*b, spec_outline_color()),
        r@.len() == LINE_VERTICES_PER_BOX,
{
    let x1 = b.low.x - OUTLINE_DISTANCE;
    let y1 = b.low.y - OUTLINE_DISTANCE;
    let z1 = b.low.z - OUTLINE_DISTANCE;
    let x2 = b.high.x + OUTLINE_DISTANCE;
    let y2 = b.high.y + OUTLINE_DISTANCE;
    let z2 = b.high.z + OUTLINE_DISTANCE;
    let c = Rgba { r: 0, g: 0, b: 0, a: 1000 };
    let mut r: Vec<Vtx<Rgba>> = Vec::new();
    r.push(vtx(x1, y1, z1, c));
    r.push(vtx(x2, y1, z1, c));
    r.push(vtx(x1, y2, z1, c));
    r.push(vtx(x2, y2, z1, c));
    r.push(vtx(x1, y1, z2, c));
    r.push(vtx(x2, y1, z2, c));
    r.push(vtx(x1, y2, z2, c));
    r.push(vtx(x2, y2, z2, c));
    r.push(vtx(x1, y1, z1, c));
    r.push(vtx(x1, y2, z1, c));
    r.push(vtx(x2, y1, z1, c));
    r.push(vtx(x2, y2, z1, c));
    r.push(vtx(x1, y1, z2, c));
    r.push(vtx(x1, y2, z2, c));
    r.push(vtx(x2, y1, z2, c));
    r.push(vtx(x2, y2, z2, c));
    r.push(vtx(x1, y1, z1, c));
    r.push(vtx(x1, y1, z2, c));
    r.push(vtx(x2, y1, z1, c));
    r.push(vtx(x2, y1, z2, c));
    r.push(vtx(x1, y2, z1, c));
    r.push(vtx(x1, y2, z2, c));
    r.push(vtx(x2, y2, z1, c));
    r.push(vtx(x2, y2, z2, c));
    proof {
        assert(r@ =~= spec_to_outlines(*b, spec_outline_color()));
    }
    r
}

fn vtx<C>(x: i64, y: i64, z: i64, c: C) -> (r: Vtx<C>)
    ensures
        r == spec_vtx(x, y, z, c),
{
    Vtx { pos: V3 { x, y, z }, color: c }
}

} // verus!
