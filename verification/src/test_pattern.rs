//! A colour-bar test pattern for trying out the streaming pipeline.

use bytes::Bytes;
use vstd::prelude::*;

use crate::buffer::{bytes_contents, bytes_from_vec};

verus! {

/// The bar that column `x` of a `width` pixels wide pattern lies in. The
/// bars are an eighth of the width wide, rounded down; the columns that are
/// left over at the right belong to the last bar.
pub open spec fn bar_index(x: int, width: int) -> int {
    let bar = x / (width / 8);
    if bar > 7 {
        7
    } else {
        bar
    }
}

/// The four bytes (red, green, blue, alpha) of a bar: white, yellow, cyan,
/// green, magenta, red, blue, black, all opaque.
pub open spec fn bar_color(bar: int) -> Seq<u8> {
    if bar == 0 {
        seq![255u8, 255u8, 255u8, 255u8]
    } else if bar == 1 {
        seq![255u8, 255u8, 0u8, 255u8]
    } else if bar == 2 {
        seq![0u8, 255u8, 255u8, 255u8]
    } else if bar == 3 {
        seq![0u8, 255u8, 0u8, 255u8]
    } else if bar == 4 {
        seq![255u8, 0u8, 255u8, 255u8]
    } else if bar == 5 {
        seq![255u8, 0u8, 0u8, 255u8]
    } else if bar == 6 {
        seq![0u8, 0u8, 255u8, 255u8]
    } else {
        seq![0u8, 0u8, 0u8, 255u8]
    }
}

/// The pattern as RGBA bytes, four per pixel, row after row.
pub open spec fn color_bars(width: u16, height: u16) -> Seq<u8> {
    Seq::new(
        (width * height * 4) as nat,
        |k: int| bar_color(bar_index((k / 4) % (width as int), width as int))[k % 4],
    )
}

fn bar_bytes(bar: usize) -> (c: (u8, u8, u8, u8))
    ensures
        seq![c.0, c.1, c.2, c.3] == bar_color(bar as int),
{
    let c = if bar == 0 {
        (255, 255, 255, 255)
    } else if bar == 1 {
        (255, 255, 0, 255)
    } else if bar == 2 {
        (0, 255, 255, 255)
    } else if bar == 3 {
        (0, 255, 0, 255)
    } else if bar == 4 {
        (255, 0, 255, 255)
    } else if bar == 5 {
        (255, 0, 0, 255)
    } else if bar == 6 {
        (0, 0, 255, 255)
    } else {
        (0, 0, 0, 255)
    };
    assert(seq![c.0, c.1, c.2, c.3] =~= bar_color(bar as int));
    c
}

/// Makes a colour-bar pattern of eight vertical bars: white, yellow, cyan,
/// green, magenta, red, blue and black. A pattern that has pixels must be at
/// least eight pixels wide, so that a bar is at least one.
pub fn generate_color_bars(width: u16, height: u16) -> (pattern: Bytes)
    requires
        width >= 8 || width == 0 || height == 0,
    ensures
        bytes_contents(pattern) == color_bars(width, height),
{
    let w: usize = width as usize;
    let h: usize = height as usize;
    let mut buffer: Vec<u8> = Vec::new();
    let bar_width: usize = w / 8;
    let mut y: usize = 0;
    while y < h
        invariant
            y <= h,
            w == width,
            h == height,
            bar_width == w / 8,
            w >= 8 || w == 0 || h == 0,
            buffer@.len() == y * w * 4,
            forall|k: int| 0 <= k < buffer@.len() ==> buffer@[k] == color_bars(width, height)[k],
        decreases h - y,
    {
        let mut x: usize = 0;
        while x < w
            invariant
                y < h,
                x <= w,
                w == width,
                h == height,
                bar_width == w / 8,
                w >= 8 || w == 0 || h == 0,
                buffer@.len() == (y * w + x) * 4,
                forall|k: int|
                    0 <= k < buffer@.len() ==> buffer@[k] == color_bars(width, height)[k],
            decreases w - x,
        {
            let bar: usize = if x / bar_width > 7 {
                7
            } else {
                x / bar_width
            };
            let (r, g, b, a) = bar_bytes(bar);
            let ghost at = buffer@.len() as int;
            proof {
                let pixel = y * w + x;
                assert(at == pixel * 4);
                vstd::arithmetic::div_mod::lemma_fundamental_div_mod_converse(
                    pixel as int,
                    w as int,
                    y as int,
                    x as int,
                );
                assert(y * w + x < w * h) by (nonlinear_arith)
                    requires
                        0 <= y < h,
                        0 <= x < w,
                ;
                assert(seq![r, g, b, a][0] == r && seq![r, g, b, a][1] == g && seq![r, g, b, a][2]
                    == b && seq![r, g, b, a][3] == a);
            }
            buffer.push(r);
            buffer.push(g);
            buffer.push(b);
            buffer.push(a);
            x = x + 1;
        }
        assert((y + 1) * w * 4 == (y * w + w) * 4) by (nonlinear_arith);
        y = y + 1;
    }
    assert(buffer@.len() == w * h * 4) by (nonlinear_arith)
        requires
            buffer@.len() == y * w * 4,
            y == h,
    ;
    assert(buffer@ =~= color_bars(width, height));
    bytes_from_vec(buffer)
}

} // verus!
