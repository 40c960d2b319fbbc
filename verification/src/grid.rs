//! The pixels of a viewport, in the order in which a frame evaluates them.
//!
//! A frame walks the viewport column by column, each column from the top
//! down, so that pixel `(x, y)` stands at position `x * height + y`. Every
//! pixel of the viewport occurs exactly once: a frame that colours the pixels
//! of this enumeration overwrites the whole pixel buffer.

use vstd::prelude::*;
use vstd::arithmetic::div_mod::lemma_fundamental_div_mod_converse;

verus! {

/// Size in pixels of the viewport, and of the pixel buffer that covers it.
#[derive(Clone, Copy, Debug, PartialEq, Eq, Structural)]
pub struct Viewport {
    pub width: u16,
    pub height: u16,
}

impl Viewport {
    /// Number of pixels of the viewport.
    pub open spec fn pixel_count(self) -> nat {
        self.width as nat * self.height as nat
    }

    /// The pixel at position `k` of the enumeration, as `(x, y)`.
    pub open spec fn pixel_at(self, k: int) -> (u32, u32) {
        ((k / self.height as int) as u32, (k % self.height as int) as u32)
    }

    /// The pixels of the viewport in the order of evaluation.
    pub open spec fn grid(self) -> Seq<(u32, u32)> {
        Seq::new(self.pixel_count(), |k: int| self.pixel_at(k))
    }

    /// Lists the pixels of the viewport in the order of evaluation.
    pub fn pixels(&self) -> (pixels: Vec<(u32, u32)>)
        ensures
            pixels@ == self.grid(),
    {
        let width = self.width;
        let height = self.height;
        let mut pixels: Vec<(u32, u32)> = Vec::new();
        let mut x: u16 = 0;
        while x < width
            invariant
                width == self.width,
                height == self.height,
                x <= width,
                pixels@.len() == x * height,
                forall|k: int| 0 <= k < pixels@.len() ==> pixels@[k] == self.pixel_at(k),
            decreases width - x,
        {
            let mut y: u16 = 0;
            while y < height
                invariant
                    width == self.width,
                    height == self.height,
                    x < width,
                    y <= height,
                    pixels@.len() == x * height + y,
                    forall|k: int| 0 <= k < pixels@.len() ==> pixels@[k] == self.pixel_at(k),
                decreases height - y,
            {
                proof {
                    lemma_fundamental_div_mod_converse(
                        x * height + y,
                        height as int,
                        x as int,
                        y as int,
                    );
                }
                pixels.push((x as u32, y as u32));
                y += 1;
            }
            assert((x + 1) * height == x * height + height) by (nonlinear_arith);
            x += 1;
        }
        assert(pixels@ =~= self.grid());
        pixels
    }
}

/// Pixel `(x, y)` of the viewport stands at position `x * height + y` of the
/// enumeration, so every pixel of the viewport is listed.
pub proof fn lemma_grid_holds_each_pixel(viewport: Viewport, x: u32, y: u32)
    requires
        x < viewport.width,
        y < viewport.height,
    ensures
        0 <= x * viewport.height + y < viewport.grid().len(),
        viewport.grid()[x * viewport.height + y] == (x, y),
{
    let w = viewport.width as int;
    let h = viewport.height as int;
    assert(x * h + y < w * h) by (nonlinear_arith)
        requires
            0 <= x < w,
            0 <= y < h,
    ;
    assert(0 <= x * h + y) by (nonlinear_arith)
        requires
            0 <= x,
            0 <= y,
            0 <= h,
    ;
    lemma_fundamental_div_mod_converse(x * h + y, h, x as int, y as int);
}

/// Every entry of the enumeration is a pixel of the viewport, listed at the
/// position that its coordinates give; so no pixel is listed twice.
pub proof fn lemma_grid_holds_only_pixels(viewport: Viewport, k: int)
    requires
        0 <= k < viewport.grid().len(),
    ensures
        viewport.grid()[k].0 < viewport.width,
        viewport.grid()[k].1 < viewport.height,
        viewport.grid()[k].0 * viewport.height + viewport.grid()[k].1 == k,
{
    let w = viewport.width as int;
    let h = viewport.height as int;
    assert(h > 0) by (nonlinear_arith)
        requires
            0 <= k < w * h,
            0 <= h,
    ;
    vstd::arithmetic::div_mod::lemma_fundamental_div_mod(k, h);
    vstd::arithmetic::div_mod::lemma_div_pos_is_pos(k, h);
    vstd::arithmetic::div_mod::lemma_mod_bound(k, h);
    assert(k / h < w) by (nonlinear_arith)
        requires
            0 <= k < w * h,
            0 < h,
            k == h * (k / h) + k % h,
            0 <= k % h,
    ;
    assert(h * (k / h) == (k / h) * h) by (nonlinear_arith);
}

} // verus!
