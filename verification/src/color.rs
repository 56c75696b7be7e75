//! Colour conversion: studio-range BT.709 Y'CbCr to full-range RGB, in Q10
//! fixed point, and the packing of RGB into one integer per pixel.
//!
//! The coefficients hold the BT.709 matrix and the expansion from studio
//! range (luma 16 to 235, chroma 16 to 240 about 128) to full range in one
//! step. Every quotient is rounded down, also where it is negative.

use vstd::prelude::*;

verus! {

/// `x` held to the range of a byte.
pub open spec fn clamp_to_byte(x: int) -> u8 {
    if x < 0 {
        0
    } else if x > 255 {
        255
    } else {
        x as u8
    }
}

/// The luma sample stretched from studio range to full range.
pub open spec fn scaled_luma(y: u8) -> int {
    (y - 16) * 1192 / 1024
}

/// The red component of a pixel.
pub open spec fn red_of(y: u8, u: u8, v: u8) -> u8 {
    clamp_to_byte(scaled_luma(y) + 1836 * (v - 128) / 1024)
}

/// The green component of a pixel.
pub open spec fn green_of(y: u8, u: u8, v: u8) -> u8 {
    clamp_to_byte(scaled_luma(y) - (218 * (u - 128) + 545 * (v - 128)) / 1024)
}

/// The blue component of a pixel.
pub open spec fn blue_of(y: u8, u: u8, v: u8) -> u8 {
    clamp_to_byte(scaled_luma(y) + 2160 * (u - 128) / 1024)
}

/// A pixel as one integer, `0x00RRGGBB`.
pub open spec fn packed_rgb(r: u8, g: u8, b: u8) -> u32 {
    (r as int * 0x1_0000 + g as int * 0x100 + b as int) as u32
}

/// The packed pixel of one luma and two chroma samples.
pub open spec fn packed_yuv(y: u8, u: u8, v: u8) -> u32 {
    packed_rgb(red_of(y, u, v), green_of(y, u, v), blue_of(y, u, v))
}

/// On the values that the conversion meets, shifting right by ten places is
/// dividing by 1024 and rounding down.
proof fn lemma_shift_divides(x: i32)
    ensures
        x >> 10 == x as int / 1024,
{
    assert(x >> 10 == x / 1024) by (bit_vector);
}

fn clamp_i32_to_byte(x: i32) -> (b: u8)
    ensures
        b == clamp_to_byte(x as int),
{
    if x < 0 {
        0
    } else if x > 255 {
        255
    } else {
        x as u8
    }
}

/// Converts one pixel from studio-range BT.709 to full-range RGB.
pub fn yuv_to_rgb_bt709_limited(y: u8, u: u8, v: u8) -> (rgb: (u8, u8, u8))
    ensures
        rgb == (red_of(y, u, v), green_of(y, u, v), blue_of(y, u, v)),
{
    let y_i: i32 = y as i32 - 16;
    let u_i: i32 = u as i32 - 128;
    let v_i: i32 = v as i32 - 128;
    proof {
        lemma_shift_divides((y_i * 1192) as i32);
        lemma_shift_divides((1836 * v_i) as i32);
        lemma_shift_divides((218 * u_i + 545 * v_i) as i32);
        lemma_shift_divides((2160 * u_i) as i32);
    }
    let y_scaled: i32 = (y_i * 1192) >> 10;
    let r: i32 = y_scaled + ((1836 * v_i) >> 10);
    let g: i32 = y_scaled - ((218 * u_i + 545 * v_i) >> 10);
    let b: i32 = y_scaled + ((2160 * u_i) >> 10);
    (clamp_i32_to_byte(r), clamp_i32_to_byte(g), clamp_i32_to_byte(b))
}

/// Packs a pixel as `0x00RRGGBB`.
pub fn pack_rgb(r: u8, g: u8, b: u8) -> (p: u32)
    ensures
        p == packed_rgb(r, g, b),
        p <= 0x00FF_FFFF,
{
    let r32: u32 = r as u32;
    let g32: u32 = g as u32;
    let b32: u32 = b as u32;
    assert((r32 << 16) | (g32 << 8) | b32 == r32 * 0x1_0000 + g32 * 0x100 + b32) by (bit_vector)
        requires
            r32 < 0x100,
            g32 < 0x100,
            b32 < 0x100,
    ;
    (r32 << 16) | (g32 << 8) | b32
}

} // verus!
