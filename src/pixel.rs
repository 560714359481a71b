//! Pixel words of the live preview buffer.

use vstd::prelude::*;

verus! {

/// The 32-bit word of a preview pixel: `0x00RRGGBB`.
pub open spec fn rgb_word(r: u8, g: u8, b: u8) -> int {
    r * 0x1_0000 + g * 0x100 + b
}

/// Packs 8-bit red, green and blue channels into one preview pixel word, red in the
/// high byte and the top byte left zero.
pub fn pack_rgb(r: u8, g: u8, b: u8) -> (p: u32)
    ensures
        p == rgb_word(r, g, b),
{
    let (r32, g32, b32) = (r as u32, g as u32, b as u32);
    assert((r32 << 16u32) | (g32 << 8u32) | b32 == r32 * 0x1_0000 + g32 * 0x100 + b32)
        by (bit_vector)
        requires
            r32 < 0x100,
            g32 < 0x100,
            b32 < 0x100,
    ;
    (r32 << 16u32) | (g32 << 8u32) | b32
}

/// The word shown at a preview pixel, given the channels of the image pixel it samples,
/// or none where it falls outside the image: such a pixel is black.
pub fn preview_word(sample: Option<(u8, u8, u8)>) -> (p: u32)
    ensures
        sample matches Some((r, g, b)) ==> p == rgb_word(r, g, b),
        sample is None ==> p == 0,
{
    match sample {
        Some((r, g, b)) => pack_rgb(r, g, b),
        None => 0,
    }
}

} // verus!
