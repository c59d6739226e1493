//! The mathematical model of a pixel grid.
//!
//! Both the render surface and the presentation buffer are grids of packed
//! 32-bit premultiplied-alpha pixels, stored row-major with the origin at
//! the top left and a row stride of exactly `width` pixels (`width * 4`
//! bytes, no padding). This module gives that layout a ghost model and the
//! spec-level transitions that drawing performs on it.

use vstd::prelude::*;
use vstd::arithmetic::div_mod::lemma_fundamental_div_mod_converse;

verus! {

/// Ghost model of a pixel grid: dimensions in pixels and the pixel data in
/// row-major order, top-left origin.
#[verifier::ext_equal]
pub ghost struct GridModel {
    pub width: nat,
    pub height: nat,
    pub data: Seq<u32>,
}

impl GridModel {
    /// The grid holds exactly one pixel per cell: tightly packed rows of
    /// `width` pixels, `height` rows.
    pub open spec fn wf(self) -> bool {
        self.data.len() == self.width * self.height
    }

    pub open spec fn in_bounds(self, px: int, py: int) -> bool {
        0 <= px < self.width && 0 <= py < self.height
    }

    /// Row-major linear index of the pixel at column `px`, row `py`.
    pub open spec fn index_of(self, px: int, py: int) -> int {
        py * self.width + px
    }

    /// The pixel at column `px`, row `py`.
    pub open spec fn at(self, px: int, py: int) -> u32 {
        self.data[self.index_of(px, py)]
    }
}

/// A freshly allocated grid of the given size: every pixel cleared to zero.
pub open spec fn fresh_grid(size: crate::geom::Size) -> GridModel {
    GridModel {
        width: size.width as nat,
        height: size.height as nat,
        data: Seq::new((size.width * size.height) as nat, |i: int| 0u32),
    }
}

/// Does the axis-aligned rectangle with top-left corner `(x, y)` and extent
/// `w` by `h` cover the pixel at `(px, py)`? Parts of the rectangle outside
/// the grid are simply never sampled, which is how drawing clips.
pub open spec fn rect_covers(x: u32, y: u32, w: u32, h: u32, px: int, py: int) -> bool {
    x <= px < x + w && y <= py < y + h
}

/// `rect_covers`, asked of the pixel behind row-major linear index `i` of a
/// grid that is `width` pixels wide.
pub open spec fn lin_covered(width: nat, x: u32, y: u32, w: u32, h: u32, i: int) -> bool {
    rect_covers(x, y, w, h, i % (width as int), i / (width as int))
}

/// The grid after every pixel is set to `color`.
pub open spec fn spec_clear(g: GridModel, color: u32) -> GridModel {
    GridModel { width: g.width, height: g.height, data: Seq::new(g.data.len(), |i: int| color) }
}

/// The grid after the rectangle `(x, y, w, h)` is filled with `color`:
/// covered pixels take the color, every other pixel keeps its value.
pub open spec fn spec_fill_rect(g: GridModel, x: u32, y: u32, w: u32, h: u32, color: u32) -> GridModel {
    GridModel {
        width: g.width,
        height: g.height,
        data: Seq::new(
            g.data.len(),
            |i: int| if lin_covered(g.width, x, y, w, h, i) {
                color
            } else {
                g.data[i]
            },
        ),
    }
}

/// A pixel inside the grid has a row-major index inside the data.
pub proof fn lemma_row_major_index_bound(width: int, height: int, px: int, py: int)
    by (nonlinear_arith)
    requires
        0 <= px < width,
        0 <= py < height,
    ensures
        0 <= py * width + px < width * height,
{
}

/// What filling a rectangle does to one pixel, read back through grid
/// coordinates: the color where the rectangle covers it, the old value
/// elsewhere.
pub proof fn lemma_fill_rect_at(g: GridModel, x: u32, y: u32, w: u32, h: u32, color: u32, px: int, py: int)
    requires
        g.wf(),
        g.in_bounds(px, py),
    ensures
        spec_fill_rect(g, x, y, w, h, color).at(px, py) == if rect_covers(x, y, w, h, px, py) {
            color
        } else {
            g.at(px, py)
        },
{
    let width = g.width as int;
    let i = py * width + px;
    lemma_row_major_index_bound(width, g.height as int, px, py);
    lemma_fundamental_div_mod_converse(i, width, py, px);
}

/// What clearing does to one pixel: every pixel takes the color.
pub proof fn lemma_clear_at(g: GridModel, color: u32, px: int, py: int)
    requires
        g.wf(),
        g.in_bounds(px, py),
    ensures
        spec_clear(g, color).at(px, py) == color,
{
    lemma_row_major_index_bound(g.width as int, g.height as int, px, py);
}

/// A fresh grid is well formed, has the requested size, and is all zeroes.
pub proof fn lemma_fresh_grid(size: crate::geom::Size)
    ensures
        fresh_grid(size).wf(),
        fresh_grid(size).width == size.width,
        fresh_grid(size).height == size.height,
        forall|i: int| 0 <= i < fresh_grid(size).data.len() ==> fresh_grid(size).data[i] == 0u32,
{
}

} // verus!
