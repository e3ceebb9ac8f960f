//! Pixel-encoded entity selection.
//!
//! Every selectable face is drawn into an off-screen buffer in a colour that
//! encodes `block_id * 6 + face` in its red, green and blue bytes. Reading a
//! pixel back and decoding it yields the block and face under that pixel.
//! Encoding is a bijection on values below `1 << 24`; the encoder accepts any
//! id below `0xFF00_0000`, exactly the range the world's id allocator feeds
//! it.

use vstd::prelude::*;

verus! {

/// Number of selectable faces of a box.
pub const FACE_COUNT: u32 = 6;

/// Ids at or above this cannot be encoded into a pixel.
pub const MAX_SELECTION_ID: u32 = 0xFF00_0000;

/// An RGB colour holding a pixel-encoded selection id. A component value `n`
/// stands for the intensity `n / 255`.
#[derive(Clone, Copy, PartialEq, Eq, Structural, Debug)]
pub struct IdColor {
    pub r: u8,
    pub g: u8,
    pub b: u8,
}

/// The colour encoding a selection id: one byte per channel.
pub open spec fn spec_id_color(id: u32) -> IdColor {
    IdColor { r: ((id >> 16) & 0xFF) as u8, g: ((id >> 8) & 0xFF) as u8, b: (id & 0xFF) as u8 }
}

/// What a read-back pixel decodes to: `None` for the background (all black),
/// otherwise the block id and face index.
pub open spec fn spec_decode_selection(c: IdColor) -> Option<(u32, u32)> {
    let sel = ((c.r as u32) << 16) | ((c.g as u32) << 8) | (c.b as u32);
    if sel == 0 {
        None
    } else {
        Some((sel / FACE_COUNT, sel % FACE_COUNT))
    }
}

/// Map a selection id to its unique colour.
pub fn id_color(id: u32) -> (r: IdColor)
    requires
        id < MAX_SELECTION_ID,
    ensures
        r == spec_id_color(id),
{
    IdColor { r: ((id >> 16) & 0xFF) as u8, g: ((id >> 8) & 0xFF) as u8, b: (id & 0xFF) as u8 }
}

/// Decode a pixel read back from the selection buffer.
pub fn decode_selection(c: IdColor) -> (r: Option<(u32, u32)>)
    ensures
        r == spec_decode_selection(c),
{
    let sel: u32 = ((c.r as u32) << 16) | ((c.g as u32) << 8) | (c.b as u32);
    if sel == 0 {
        None
    } else {
        Some((sel / FACE_COUNT, sel % FACE_COUNT))
    }
}

/// Law: decoding inverts encoding for every non-background selection id that
/// fits in the three pixel bytes, recovering the block id and face index.
pub proof fn lemma_selection_round_trip(block_id: u32, face: u32)
    requires
        face < FACE_COUNT,
        1 <= block_id * FACE_COUNT + face < 0x100_0000,
    ensures
        spec_decode_selection(spec_id_color((block_id * FACE_COUNT + face) as u32))
            == Some((block_id, face)),
{
    let sel = (block_id * FACE_COUNT + face) as u32;
    let c = spec_id_color(sel);
    let cr = ((sel >> 16) & 0xFF) as u8;
    let cg = ((sel >> 8) & 0xFF) as u8;
    let cb = (sel & 0xFF) as u8;
    let back = ((cr as u32) << 16) | ((cg as u32) << 8) | (cb as u32);
    assert(back == sel) by (bit_vector)
        requires
            sel < 0x100_0000u32,
            cr == ((sel >> 16) & 0xFF) as u8,
            cg == ((sel >> 8) & 0xFF) as u8,
            cb == (sel & 0xFF) as u8,
            back == ((cr as u32) << 16) | ((cg as u32) << 8) | (cb as u32),
    ;
    assert(c.r == cr && c.g == cg && c.b == cb);
    assert(sel / FACE_COUNT == block_id && sel % FACE_COUNT == face) by {
        vstd::arithmetic::div_mod::lemma_fundamental_div_mod_converse(
            sel as int,
            FACE_COUNT as int,
            block_id as int,
            face as int,
        );
    }
}

} // verus!
