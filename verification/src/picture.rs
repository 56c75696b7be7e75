//! A decoded picture: planar Y'CbCr with the chroma planes at half the
//! resolution in both directions (4:2:0).

use vstd::prelude::*;

use crate::color::packed_yuv;

verus! {

/// One decoded picture. Each plane is stored row after row; a row of a plane
/// starts `stride` samples after the row before it, and a stride may be
/// larger than the row is long.
#[derive(Debug, Clone)]
pub struct Picture {
    /// Width in pixels.
    pub width: usize,
    /// Height in pixels.
    pub height: usize,
    /// The luma plane.
    pub y: Vec<u8>,
    /// The first chroma plane (Cb).
    pub u: Vec<u8>,
    /// The second chroma plane (Cr).
    pub v: Vec<u8>,
    /// Samples from one luma row to the next.
    pub stride_y: usize,
    /// Samples from one Cb row to the next.
    pub stride_u: usize,
    /// Samples from one Cr row to the next.
    pub stride_v: usize,
}

/// Where the chroma sample of pixel (`row`, `col`) stands in a plane of `len`
/// samples: at half the row and half the column, and at the plane's last
/// sample where that would be past its end.
pub open spec fn chroma_index(len: int, stride: int, row: int, col: int) -> int {
    let at = (row / 2) * stride + col / 2;
    if at < len {
        at
    } else {
        len - 1
    }
}

impl Picture {
    /// Whether the picture has pixels: neither dimension is zero.
    pub open spec fn has_pixels(&self) -> bool {
        self.width > 0 && self.height > 0
    }

    /// A picture that can be shown. One without pixels always can: there is
    /// nothing to read, and showing it changes nothing. One with pixels can
    /// where a luma row is no longer than the stride, the luma plane holds
    /// every row, and neither chroma plane is empty.
    pub open spec fn well_formed(&self) -> bool {
        self.has_pixels() ==> {
            &&& self.stride_y >= self.width
            &&& (self.height - 1) * self.stride_y + self.width <= self.y@.len()
            &&& self.u@.len() > 0
            &&& self.v@.len() > 0
        }
    }

    /// Where the luma sample of pixel (`row`, `col`) stands.
    pub open spec fn luma_index(&self, row: int, col: int) -> int {
        row * self.stride_y + col
    }

    /// The packed pixel at (`row`, `col`): its own luma sample, and the
    /// chroma samples that it shares with its neighbours.
    pub open spec fn pixel(&self, row: int, col: int) -> u32 {
        packed_yuv(
            self.y@[self.luma_index(row, col)],
            self.u@[chroma_index(self.u@.len() as int, self.stride_u as int, row, col)],
            self.v@[chroma_index(self.v@.len() as int, self.stride_v as int, row, col)],
        )
    }

    /// The picture as packed pixels, row after row.
    pub open spec fn pixels(&self) -> Seq<u32> {
        Seq::new(
            (self.width * self.height) as nat,
            |i: int| self.pixel(i / self.width as int, i % self.width as int),
        )
    }

    /// Whether the picture can be shown.
    pub fn is_valid(&self) -> (valid: bool)
        ensures
            valid == self.well_formed(),
    {
        if self.width == 0 || self.height == 0 {
            return true;
        }
        if self.stride_y < self.width {
            return false;
        }
        if self.u.len() == 0 || self.v.len() == 0 {
            return false;
        }
        let luma_len: usize = self.y.len();
        let above: usize = self.height - 1;
        assert(above * self.stride_y == (self.height - 1) * self.stride_y) by (nonlinear_arith)
            requires
                above == self.height - 1,
        ;
        match above.checked_mul(self.stride_y) {
            None => false,
            Some(rows) => match rows.checked_add(self.width) {
                None => false,
                Some(needed) => needed <= luma_len,
            },
        }
    }
}

/// The pixels of a well-formed picture fit in memory, and every luma sample
/// that a pixel needs is in the plane.
pub proof fn lemma_picture_bounds(p: &Picture, row: int, col: int)
    requires
        p.well_formed(),
        0 <= row < p.height,
        0 <= col < p.width,
    ensures
        p.width * p.height <= p.y@.len(),
        0 <= row * p.width + col < p.width * p.height,
        0 <= p.luma_index(row, col) < p.y@.len(),
{
    let w = p.width as int;
    let h = p.height as int;
    let s = p.stride_y as int;
    assert(row * s <= (h - 1) * s) by (nonlinear_arith)
        requires
            0 <= row <= h - 1,
            0 <= s,
    ;
    assert(0 <= row * s) by (nonlinear_arith)
        requires
            0 <= row,
            0 <= s,
    ;
    assert((h - 1) * w <= (h - 1) * s) by (nonlinear_arith)
        requires
            0 <= h - 1,
            0 <= w <= s,
    ;
    assert(w * h == (h - 1) * w + w) by (nonlinear_arith);
    assert(row * w <= (h - 1) * w) by (nonlinear_arith)
        requires
            0 <= row <= h - 1,
            0 <= w,
    ;
    assert(0 <= row * w) by (nonlinear_arith)
        requires
            0 <= row,
            0 <= w,
    ;
}

} // verus!
