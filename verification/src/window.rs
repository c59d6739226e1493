//! The software-backed window: render surface, presentation buffer, and
//! the resize/present protocol that keeps them in step.
//!
//! A `SoftSkiaWindow` pairs the render target provider's drawable with the
//! presenter's buffer. Its invariant is the heart of the protocol: the two
//! always have the same dimensions, so the pixel copy in `present` always
//! has correctly-sized ends. `resize` reallocates both or neither, so the
//! pair changes size atomically from the caller's point of view; a
//! zero-area request is a recoverable error that leaves the previous
//! surface and buffer untouched.

use vstd::prelude::*;
use crate::geom::{Size, ResizeError};
use crate::grid::{GridModel, fresh_grid, spec_clear, spec_fill_rect, rect_covers, lemma_fill_rect_at, lemma_clear_at};
use crate::presenter::Presenter;
use crate::surface::RenderSurface;

verus! {

/// Ghost model of the whole window: the drawable the caller renders into,
/// and the buffer the compositor sees.
#[verifier::ext_equal]
pub ghost struct WindowModel {
    pub surface: GridModel,
    pub buffer: GridModel,
}

impl WindowModel {
    /// Both grids are well formed and their dimensions agree.
    pub open spec fn wf(self) -> bool {
        self.surface.wf() && self.buffer.wf() && self.surface.width == self.buffer.width
            && self.surface.height == self.buffer.height
    }
}

/// The window model after a successful resize to `size`: a fresh, zeroed
/// surface and a fresh, zeroed buffer, both of the new size.
pub open spec fn spec_resize(m: WindowModel, size: Size) -> WindowModel {
    WindowModel { surface: fresh_grid(size), buffer: fresh_grid(size) }
}

/// The window model after the caller clears the drawable: the buffer is
/// untouched until the next present.
pub open spec fn spec_draw_clear(m: WindowModel, color: u32) -> WindowModel {
    WindowModel { surface: spec_clear(m.surface, color), buffer: m.buffer }
}

/// The window model after the caller fills a rectangle of the drawable:
/// the buffer is untouched until the next present.
pub open spec fn spec_draw_rect(m: WindowModel, x: u32, y: u32, w: u32, h: u32, color: u32) -> WindowModel {
    WindowModel { surface: spec_fill_rect(m.surface, x, y, w, h, color), buffer: m.buffer }
}

/// The window model after a present: the buffer's pixel data becomes
/// identical to the surface's, and the surface is only read.
pub open spec fn spec_present(m: WindowModel) -> WindowModel {
    WindowModel {
        surface: m.surface,
        buffer: GridModel { width: m.buffer.width, height: m.buffer.height, data: m.surface.data },
    }
}

/// A window drawn by the CPU: the drawable surface and the presentation
/// buffer, kept at the same size through every resize.
pub struct SoftSkiaWindow {
    pub(crate) surface: RenderSurface,
    pub(crate) presenter: Presenter,
}

impl View for SoftSkiaWindow {
    type V = WindowModel;

    closed spec fn view(&self) -> WindowModel {
        WindowModel { surface: self.surface@, buffer: self.presenter@ }
    }
}

impl SoftSkiaWindow {
    /// The protocol invariant: surface and buffer exist at the same size.
    pub open spec fn wf(self) -> bool {
        self@.wf()
    }

    /// Open the window's drawing state at the window's initial size:
    /// surface first, then a matching buffer, both zeroed.
    pub fn new(size: Size) -> (w: SoftSkiaWindow)
        requires
            size.area() <= usize::MAX,
        ensures
            w.wf(),
            w@.surface == fresh_grid(size),
            w@.buffer == fresh_grid(size),
    {
        let surface = RenderSurface::new(size);
        let presenter = Presenter::new(size);
        SoftSkiaWindow { surface, presenter }
    }

    /// The current size of the drawable (and, by the invariant, of the
    /// presentation buffer).
    pub fn size(&self) -> (s: Size)
        ensures
            s.width == self@.surface.width,
            s.height == self@.surface.height,
    {
        self.surface.size()
    }

    /// The number of pixels in the presentation buffer; each is 4 bytes.
    pub fn buffer_len(&self) -> (n: usize)
        ensures
            n == self@.buffer.data.len(),
    {
        self.presenter.len()
    }

    /// The drawable, for reading back what has been drawn so far.
    pub fn surface(&self) -> (s: &RenderSurface)
        ensures
            s@ == self@.surface,
    {
        &self.surface
    }

    /// Reallocate surface and buffer for a new window size, atomically
    /// from the caller's point of view. A zero-area size is rejected with
    /// a recoverable error and neither component changes; on success both
    /// are fresh, zeroed, and of the new size. Asking again for the size
    /// already in effect succeeds and leaves the same state a first call
    /// would: the operation is idempotent in effect.
    pub fn resize(&mut self, new_size: Size) -> (r: Result<(), ResizeError>)
        requires
            old(self).wf(),
            new_size.area() <= usize::MAX,
        ensures
            final(self).wf(),
            r is Ok <==> new_size.is_nonzero(),
            new_size.is_nonzero() ==> final(self)@ == spec_resize(old(self)@, new_size),
            !new_size.is_nonzero() ==> r == Err::<(), ResizeError>(ResizeError::ZeroArea)
                && *final(self) == *old(self),
    {
        let r = self.presenter.resize(new_size);
        match r {
            Ok(_) => {
                self.surface = RenderSurface::new(new_size);
                Ok(())
            },
            Err(e) => Err(e),
        }
    }

    /// Set every pixel of the drawable to `color`.
    pub fn clear(&mut self, color: u32)
        requires
            old(self).wf(),
        ensures
            final(self).wf(),
            final(self)@ == spec_draw_clear(old(self)@, color),
    {
        self.surface.clear(color);
    }

    /// Fill a rectangle of the drawable with `color`; the rectangle is
    /// clipped to the drawable.
    pub fn draw_rect(&mut self, x: u32, y: u32, w: u32, h: u32, color: u32)
        requires
            old(self).wf(),
        ensures
            final(self).wf(),
            final(self)@ == spec_draw_rect(old(self)@, x, y, w, h, color),
    {
        self.surface.fill_rect(x, y, w, h, color);
    }

    /// Present the frame: copy every pixel of the drawable into the
    /// presentation buffer, synchronously. After the call the compositor-
    /// visible data is identical to the drawable's; the drawable itself is
    /// unchanged. The platform submission of the buffer happens outside
    /// this crate, once the copy is complete.
    pub fn present(&mut self)
        requires
            old(self).wf(),
        ensures
            final(self).wf(),
            final(self)@ == spec_present(old(self)@),
    {
        self.presenter.present_from(&self.surface);
    }

    /// The pixel at column `x`, row `y` of the drawable.
    pub fn surface_pixel(&self, x: u32, y: u32) -> (p: u32)
        requires
            self.wf(),
            x < self@.surface.width,
            y < self@.surface.height,
        ensures
            p == self@.surface.at(x as int, y as int),
    {
        self.surface.pixel(x, y)
    }

    /// The pixel at column `x`, row `y` of the presentation buffer: what
    /// the compositor was last handed (or the cleared initial contents).
    pub fn buffer_pixel(&self, x: u32, y: u32) -> (p: u32)
        requires
            self.wf(),
            x < self@.buffer.width,
            y < self@.buffer.height,
        ensures
            p == self@.buffer.at(x as int, y as int),
    {
        self.presenter.pixel(x, y)
    }
}

/// After a successful resize to `size`, the drawable has exactly that
/// size and the presentation buffer holds exactly `width * height` packed
/// pixels — `width * height * 4` bytes — whatever the window held before.
pub proof fn lemma_resize_establishes_size(m: WindowModel, size: Size)
    ensures
        spec_resize(m, size).wf(),
        spec_resize(m, size).surface.width == size.width,
        spec_resize(m, size).surface.height == size.height,
        spec_resize(m, size).buffer.data.len() == size.area(),
{
    crate::grid::lemma_fresh_grid(size);
}

/// Resizing to the size already in effect is idempotent in effect: a
/// second resize to the same size leaves exactly the state the first one
/// did, however the window started out.
pub proof fn lemma_resize_idempotent(m: WindowModel, size: Size)
    ensures
        spec_resize(spec_resize(m, size), size) == spec_resize(m, size),
{
}

/// Presenting is idempotent in effect on the compositor-visible buffer:
/// with no intervening draw, a second present writes back exactly the
/// pixel data the first one did, because the copy is a deterministic
/// function of the unchanged surface.
pub proof fn lemma_present_idempotent(m: WindowModel)
    ensures
        spec_present(spec_present(m)) == spec_present(m),
{
}

/// Resize-then-draw-then-present round trip: whatever the window's prior
/// state, after a successful resize to `size`, filling a rectangle, and
/// presenting, every buffer pixel the rectangle covers holds the fill
/// color. The prior model is universally quantified: stride and origin
/// stay correct across reallocation.
pub proof fn lemma_resize_draw_present_round_trip(
    m: WindowModel,
    size: Size,
    x: u32,
    y: u32,
    w: u32,
    h: u32,
    color: u32,
    px: int,
    py: int,
)
    requires
        0 <= px < size.width,
        0 <= py < size.height,
        rect_covers(x, y, w, h, px, py),
    ensures
        spec_present(spec_draw_rect(spec_resize(m, size), x, y, w, h, color)).buffer.at(px, py)
            == color,
{
    let fresh = fresh_grid(size);
    lemma_fill_rect_at(fresh, x, y, w, h, color, px, py);
}

/// What one presented pixel is, after a draw over a cleared background:
/// the rectangle's color where the rectangle covers it and the background
/// color elsewhere. This pins the whole clear-draw-present pipeline down
/// to single pixels of the compositor-visible buffer.
pub proof fn lemma_clear_draw_present_at(
    m: WindowModel,
    bg: u32,
    x: u32,
    y: u32,
    w: u32,
    h: u32,
    color: u32,
    px: int,
    py: int,
)
    requires
        m.wf(),
        m.surface.in_bounds(px, py),
    ensures
        spec_present(spec_draw_rect(spec_draw_clear(m, bg), x, y, w, h, color)).buffer.at(px, py)
            == if rect_covers(x, y, w, h, px, py) {
                color
            } else {
                bg
            },
{
    let cleared = spec_clear(m.surface, bg);
    lemma_clear_at(m.surface, bg, px, py);
    lemma_fill_rect_at(cleared, x, y, w, h, color, px, py);
}

} // verus!
