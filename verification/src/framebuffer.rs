//! The framebuffer that the presentation surface shows: one packed
//! `0x00RRGGBB` integer per pixel, row after row, always as many as the
//! current width times the current height.

use vstd::prelude::*;

use crate::color::{pack_rgb, packed_rgb, yuv_to_rgb_bt709_limited};
use crate::picture::{chroma_index, lemma_picture_bounds, Picture};

verus! {

/// The framebuffer as a mathematical value.
pub struct FramebufferView {
    /// Width in pixels.
    pub width: nat,
    /// Height in pixels.
    pub height: nat,
    /// The packed pixels, row after row.
    pub pixels: Seq<u32>,
}

/// The framebuffer. Its dimensions are those of the last frame that set
/// them.
pub struct Framebuffer {
    width: usize,
    height: usize,
    pixels: Vec<u32>,
}

impl View for Framebuffer {
    type V = FramebufferView;

    closed spec fn view(&self) -> FramebufferView {
        FramebufferView {
            width: self.width as nat,
            height: self.height as nat,
            pixels: self.pixels@,
        }
    }
}

/// `n` black pixels.
pub open spec fn black(n: nat) -> Seq<u32> {
    Seq::new(n, |i: int| 0u32)
}

/// The packed pixel that the `i`-th group of four bytes (red, green, blue and
/// an alpha byte that is ignored) stands for.
pub open spec fn raw_pixel(rgba: Seq<u8>, i: int) -> u32 {
    packed_rgb(rgba[4 * i], rgba[4 * i + 1], rgba[4 * i + 2])
}

/// The pixels after a raw frame is written over them: as many pixels as the
/// payload has whole groups of four bytes are replaced from the front, and
/// the others stay.
pub open spec fn with_raw_frame(pixels: Seq<u32>, rgba: Seq<u8>) -> Seq<u32> {
    Seq::new(
        pixels.len(),
        |i: int|
            if i < rgba.len() / 4 {
                raw_pixel(rgba, i)
            } else {
                pixels[i]
            },
    )
}

impl FramebufferView {
    /// The framebuffer holds exactly width times height pixels.
    pub open spec fn well_formed(self) -> bool {
        self.pixels.len() == self.width * self.height
    }

    /// Whether taking on these dimensions changes anything: both are
    /// non-zero, they differ from the current ones, and their product can be
    /// held.
    pub open spec fn resizes_to(self, width: usize, height: usize) -> bool {
        &&& width != 0
        &&& height != 0
        &&& (width != self.width || height != self.height)
        &&& width * height <= usize::MAX
    }

    /// The framebuffer after it is asked to take on these dimensions: black
    /// in the new dimensions where that changes anything, as before where not.
    pub open spec fn resized(self, width: usize, height: usize) -> FramebufferView {
        if self.resizes_to(width, height) {
            FramebufferView {
                width: width as nat,
                height: height as nat,
                pixels: black((width * height) as nat),
            }
        } else {
            self
        }
    }

    /// The framebuffer after a raw frame is written.
    pub open spec fn with_raw(self, rgba: Seq<u8>) -> FramebufferView {
        FramebufferView { pixels: with_raw_frame(self.pixels, rgba), ..self }
    }

    /// The framebuffer after a picture is shown. A picture with pixels
    /// replaces it: the framebuffer takes on the picture's dimensions and
    /// holds its pixels. A picture of which a dimension is zero changes
    /// nothing: the dimensions stay, and there is nothing to write.
    pub open spec fn with_picture(self, picture: Picture) -> FramebufferView {
        if picture.has_pixels() {
            FramebufferView {
                width: picture.width as nat,
                height: picture.height as nat,
                pixels: picture.pixels(),
            }
        } else {
            self
        }
    }
}

impl Framebuffer {
    /// The framebuffer holds exactly width times height pixels.
    pub open spec fn well_formed(&self) -> bool {
        self@.well_formed()
    }

    /// A black framebuffer of the given dimensions.
    pub fn new(width: usize, height: usize) -> (fb: Framebuffer)
        requires
            width * height <= usize::MAX,
        ensures
            fb.well_formed(),
            fb@ == (FramebufferView {
                width: width as nat,
                height: height as nat,
                pixels: black((width * height) as nat),
            }),
    {
        let pixels: Vec<u32> = vec![0u32; width * height];
        assert(pixels@ =~= black((width * height) as nat));
        Framebuffer { width, height, pixels }
    }

    /// Width in pixels.
    pub fn width(&self) -> (w: usize)
        ensures
            w == self@.width,
    {
        self.width
    }

    /// Height in pixels.
    pub fn height(&self) -> (h: usize)
        ensures
            h == self@.height,
    {
        self.height
    }

    /// The packed pixels, row after row.
    pub fn pixels(&self) -> (p: &[u32])
        ensures
            p@ == self@.pixels,
    {
        self.pixels.as_slice()
    }

    /// Takes on new dimensions. A zero dimension, the current dimensions, and
    /// dimensions whose product cannot be held change nothing. Otherwise the
    /// old contents are discarded and the framebuffer is black until the next
    /// frame is written.
    pub fn resize(&mut self, new_width: usize, new_height: usize) -> (changed: bool)
        requires
            old(self).well_formed(),
        ensures
            final(self).well_formed(),
            changed == old(self)@.resizes_to(new_width, new_height),
            final(self)@ == old(self)@.resized(new_width, new_height),
    {
        if new_width == 0 || new_height == 0 {
            return false;
        }
        if new_width == self.width && new_height == self.height {
            return false;
        }
        match new_width.checked_mul(new_height) {
            None => false,
            Some(count) => {
                let pixels: Vec<u32> = vec![0u32; count];
                assert(pixels@ =~= black((new_width * new_height) as nat));
                self.width = new_width;
                self.height = new_height;
                self.pixels = pixels;
                true
            },
        }
    }

    /// Writes a raw frame: each group of four payload bytes is one pixel,
    /// red, green, blue and an alpha byte that is ignored. Pixels are written
    /// from the first on, as many as the framebuffer has and the payload
    /// holds; the others stay as they are.
    pub fn write_raw(&mut self, rgba: &[u8])
        requires
            old(self).well_formed(),
        ensures
            final(self).well_formed(),
            final(self)@ == old(self)@.with_raw(rgba@),
    {
        let len: usize = rgba.len();
        let groups: usize = len / 4;
        let count: usize = if self.pixels.len() < groups {
            self.pixels.len()
        } else {
            groups
        };
        let mut i: usize = 0;
        while i < count
            invariant
                i <= count,
                len == rgba@.len(),
                groups == len / 4,
                count <= groups,
                count <= self.pixels@.len(),
                count == self.pixels@.len() || count == rgba@.len() / 4,
                self.width == old(self).width,
                self.height == old(self).height,
                self.pixels@.len() == old(self).pixels@.len(),
                forall|j: int| 0 <= j < i ==> self.pixels@[j] == raw_pixel(rgba@, j),
                forall|j: int| i <= j < self.pixels@.len() ==> self.pixels@[j] == old(self).pixels@[j],
            decreases count - i,
        {
            let base: usize = i * 4;
            let p = pack_rgb(rgba[base], rgba[base + 1], rgba[base + 2]);
            self.pixels.set(i, p);
            i = i + 1;
        }
        assert(self.pixels@ =~= with_raw_frame(old(self).pixels@, rgba@));
    }

    /// Shows a decoded picture. The framebuffer takes on the picture's
    /// dimensions, and every pixel is converted from the picture's samples.
    /// A picture of which a dimension is zero leaves the framebuffer as it
    /// is.
    pub fn show_picture(&mut self, picture: &Picture)
        requires
            old(self).well_formed(),
            picture.well_formed(),
        ensures
            final(self).well_formed(),
            final(self)@ == old(self)@.with_picture(*picture),
    {
        let width: usize = picture.width;
        let height: usize = picture.height;
        if width == 0 || height == 0 {
            return;
        }
        proof {
            lemma_picture_bounds(picture, 0, 0);
        }
        let y_len: usize = picture.y.len();
        let u_len: usize = picture.u.len();
        let v_len: usize = picture.v.len();
        let _ = self.resize(width, height);
        assert(self.width == width && self.height == height);
        let mut row: usize = 0;
        while row < height
            invariant
                row <= height,
                width == picture.width,
                height == picture.height,
                y_len == picture.y@.len(),
                u_len == picture.u@.len(),
                v_len == picture.v@.len(),
                picture.well_formed(),
                self.width == width,
                self.height == height,
                self.pixels@.len() == width * height,
                forall|j: int| 0 <= j < row * width ==> self.pixels@[j] == picture.pixels()[j],
            decreases height - row,
        {
            let mut col: usize = 0;
            while col < width
                invariant
                    row < height,
                    col <= width,
                    width == picture.width,
                    height == picture.height,
                    y_len == picture.y@.len(),
                    u_len == picture.u@.len(),
                    v_len == picture.v@.len(),
                    picture.well_formed(),
                    self.width == width,
                    self.height == height,
                    self.pixels@.len() == width * height,
                    forall|j: int|
                        0 <= j < row * width + col ==> self.pixels@[j] == picture.pixels()[j],
                decreases width - col,
            {
                proof {
                    lemma_picture_bounds(picture, row as int, col as int);
                    vstd::arithmetic::div_mod::lemma_fundamental_div_mod_converse(
                        row * width + col,
                        width as int,
                        row as int,
                        col as int,
                    );
                }
                let y = picture.y[row * picture.stride_y + col];
                let u = picture.u[chroma_at(u_len, picture.stride_u, row, col)];
                let v = picture.v[chroma_at(v_len, picture.stride_v, row, col)];
                let (r, g, b) = yuv_to_rgb_bt709_limited(y, u, v);
                let p = pack_rgb(r, g, b);
                self.pixels.set(row * width + col, p);
                col = col + 1;
            }
            assert((row + 1) * width == row * width + width) by (nonlinear_arith);
            row = row + 1;
        }
        assert(self.pixels@ =~= picture.pixels());
    }
}

/// Where the chroma sample of a pixel stands in a plane of `len` samples.
fn chroma_at(len: usize, stride: usize, row: usize, col: usize) -> (at: usize)
    requires
        len > 0,
    ensures
        at == chroma_index(len as int, stride as int, row as int, col as int),
        at < len,
{
    let half_row: usize = row / 2;
    assert(half_row * stride == (row as int / 2) * stride) by (nonlinear_arith)
        requires
            half_row == row as int / 2,
    ;
    match half_row.checked_mul(stride) {
        None => len - 1,
        Some(start) => match start.checked_add(col / 2) {
            None => len - 1,
            Some(at) => if at < len {
                at
            } else {
                len - 1
            },
        },
    }
}

} // verus!
