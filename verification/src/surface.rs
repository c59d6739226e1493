//! The offscreen render surface.
//!
//! A `RenderSurface` is the drawable the caller renders into before a frame
//! is presented: a grid of packed 32-bit premultiplied-alpha pixels. A
//! graphics backend is free to rasterize however it likes; what this crate
//! verifies is the pixel grid every backend must produce, so the surface
//! here carries the pixels themselves.
//! A surface is created at one size and never resized: the provider that
//! owns it replaces it wholesale when the window size changes.

use vstd::prelude::*;
use crate::geom::Size;
use crate::grid::{GridModel, spec_clear, spec_fill_rect, lin_covered, lemma_row_major_index_bound};
use vstd::arithmetic::div_mod::lemma_fundamental_div_mod_converse;

verus! {

/// An offscreen drawable: `width * height` packed pixels, row-major,
/// top-left origin, row stride exactly `width` pixels.
pub struct RenderSurface {
    pub(crate) width: u32,
    pub(crate) height: u32,
    pub(crate) pixels: Vec<u32>,
}

impl View for RenderSurface {
    type V = GridModel;

    closed spec fn view(&self) -> GridModel {
        GridModel { width: self.width as nat, height: self.height as nat, data: self.pixels@ }
    }
}

impl RenderSurface {
    /// The surface holds exactly one pixel per cell.
    pub open spec fn wf(self) -> bool {
        self@.wf()
    }

    /// Allocate a surface of the given size with every pixel cleared.
    pub fn new(size: Size) -> (s: RenderSurface)
        requires
            size.area() <= usize::MAX,
        ensures
            s.wf(),
            s@ == crate::grid::fresh_grid(size),
    {
        let n: usize = (size.width as usize) * (size.height as usize);
        let mut pixels: Vec<u32> = Vec::new();
        let mut i: usize = 0;
        while i < n
            invariant
                i <= n,
                pixels@.len() == i,
                forall|k: int| 0 <= k < i ==> pixels@[k] == 0u32,
            decreases n - i,
        {
            pixels.push(0u32);
            i = i + 1;
        }
        let s = RenderSurface { width: size.width, height: size.height, pixels };
        proof {
            assert(s@.data =~= crate::grid::fresh_grid(size).data);
        }
        s
    }

    /// The size of the surface, as created.
    pub fn size(&self) -> (s: Size)
        ensures
            s.width == self@.width,
            s.height == self@.height,
    {
        Size { width: self.width, height: self.height }
    }

    /// The pixel at column `x`, row `y`.
    pub fn pixel(&self, x: u32, y: u32) -> (p: u32)
        requires
            self.wf(),
            x < self@.width,
            y < self@.height,
        ensures
            p == self@.at(x as int, y as int),
    {
        let n: usize = self.pixels.len();
        proof {
            lemma_row_major_index_bound(self@.width as int, self@.height as int, x as int, y as int);
            assert((y as int) * (self.width as int) + (x as int) < n);
        }
        let idx: usize = (y as usize) * (self.width as usize) + (x as usize);
        self.pixels[idx]
    }

    /// The pixel behind row-major linear index `i`: the pixel at column
    /// `i % width`, row `i / width`.
    pub fn pixel_linear(&self, i: usize) -> (p: u32)
        requires
            i < self@.data.len(),
        ensures
            p == self@.data[i as int],
    {
        self.pixels[i]
    }

    /// Set every pixel of the surface to `color`.
    pub fn clear(&mut self, color: u32)
        requires
            old(self).wf(),
        ensures
            final(self).wf(),
            final(self)@ == spec_clear(old(self)@, color),
    {
        let n: usize = self.pixels.len();
        let mut i: usize = 0;
        while i < n
            invariant
                i <= n,
                self.width == old(self).width,
                self.height == old(self).height,
                self.pixels@.len() == n,
                forall|k: int| 0 <= k < i ==> self.pixels@[k] == color,
                forall|k: int| i <= k < n ==> self.pixels@[k] == old(self).pixels@[k],
            decreases n - i,
        {
            self.pixels.set(i, color);
            i = i + 1;
        }
        proof {
            assert(self@.data =~= spec_clear(old(self)@, color).data);
        }
    }

    /// Fill the rectangle with top-left corner `(x, y)` and extent `w` by
    /// `h` with `color`. The part of the rectangle outside the surface is
    /// clipped away; every pixel outside the rectangle keeps its value.
    pub fn fill_rect(&mut self, x: u32, y: u32, w: u32, h: u32, color: u32)
        requires
            old(self).wf(),
        ensures
            final(self).wf(),
            final(self)@ == spec_fill_rect(old(self)@, x, y, w, h, color),
    {
        let width = self.width;
        let height = self.height;
        let n: usize = self.pixels.len();
        let ghost wid: int = width as int;
        let mut j: u32 = 0;
        while j < height
            invariant
                j <= height,
                self.width == width,
                self.height == height,
                wid == width as int,
                self.pixels@.len() == n,
                n == old(self).pixels@.len(),
                n == wid * (height as int),
                forall|i: int| 0 <= i < n ==> self.pixels@[i] == (
                    if i < j * wid && lin_covered(width as nat, x, y, w, h, i) {
                        color
                    } else {
                        old(self).pixels@[i]
                    }
                ),
            decreases height - j,
        {
            let mut c: u32 = 0;
            while c < width
                invariant
                    c <= width,
                    j < height,
                    self.width == width,
                    self.height == height,
                    wid == width as int,
                    self.pixels@.len() == n,
                    n == old(self).pixels@.len(),
                    n == wid * (height as int),
                    forall|i: int| 0 <= i < n ==> self.pixels@[i] == (
                        if i < j * wid + c && lin_covered(width as nat, x, y, w, h, i) {
                            color
                        } else {
                            old(self).pixels@[i]
                        }
                    ),
                decreases width - c,
            {
                proof {
                    lemma_row_major_index_bound(wid, height as int, c as int, j as int);
                    assert(wid * (height as int) == (height as int) * wid) by (nonlinear_arith);
                    lemma_fundamental_div_mod_converse(
                        (j as int) * wid + (c as int), wid, j as int, c as int);
                }
                let idx: usize = (j as usize) * (width as usize) + (c as usize);
                let covered = c >= x && c - x < w && j >= y && j - y < h;
                if covered {
                    self.pixels.set(idx, color);
                }
                c = c + 1;
            }
            proof {
                assert((j as int + 1) * wid == (j as int) * wid + wid) by (nonlinear_arith);
            }
            j = j + 1;
        }
        proof {
            assert((height as int) * wid == wid * (height as int)) by (nonlinear_arith);
            assert(self@.data =~= spec_fill_rect(old(self)@, x, y, w, h, color).data);
        }
    }
}

} // verus!
