//! The presenter and its presentation buffer.
//!
//! The presenter owns the CPU-addressable pixel buffer that is handed to
//! the platform compositor: `width * height` packed 32-bit pixels,
//! row-major, top-left origin, row stride `width * 4` bytes with no
//! padding. Presenting a frame copies the render surface's pixels into the
//! buffer; the platform-specific submission of that buffer happens outside
//! this crate, after the copy is complete.

use vstd::prelude::*;
use crate::geom::{Size, ResizeError};
use crate::grid::{GridModel, fresh_grid, lemma_row_major_index_bound};
use crate::surface::RenderSurface;

verus! {

/// The CPU-side presentation buffer, owned by the presenter.
pub struct Presenter {
    pub(crate) width: u32,
    pub(crate) height: u32,
    pub(crate) buffer: Vec<u32>,
}

impl View for Presenter {
    type V = GridModel;

    closed spec fn view(&self) -> GridModel {
        GridModel { width: self.width as nat, height: self.height as nat, data: self.buffer@ }
    }
}

impl Presenter {
    /// The buffer holds exactly one pixel per cell of the window.
    pub open spec fn wf(self) -> bool {
        self@.wf()
    }

    /// Allocate a presentation buffer of the given size, cleared to zero.
    pub fn new(size: Size) -> (p: Presenter)
        requires
            size.area() <= usize::MAX,
        ensures
            p.wf(),
            p@ == fresh_grid(size),
    {
        let n: usize = (size.width as usize) * (size.height as usize);
        let mut buffer: Vec<u32> = Vec::new();
        let mut i: usize = 0;
        while i < n
            invariant
                i <= n,
                buffer@.len() == i,
                forall|k: int| 0 <= k < i ==> buffer@[k] == 0u32,
            decreases n - i,
        {
            buffer.push(0u32);
            i = i + 1;
        }
        let p = Presenter { width: size.width, height: size.height, buffer };
        proof {
            assert(p@.data =~= fresh_grid(size).data);
        }
        p
    }

    /// The size of the buffer, in pixels per row and rows.
    pub fn size(&self) -> (s: Size)
        ensures
            s.width == self@.width,
            s.height == self@.height,
    {
        Size { width: self.width, height: self.height }
    }

    /// The number of pixels the buffer holds; each pixel is four bytes.
    pub fn len(&self) -> (n: usize)
        ensures
            n == self@.data.len(),
    {
        self.buffer.len()
    }

    /// Reallocate the buffer for a new window size. A size with no pixels
    /// is rejected with a recoverable error and the buffer is left exactly
    /// as it was; any other size yields a fresh, zeroed buffer.
    pub fn resize(&mut self, new_size: Size) -> (r: Result<(), ResizeError>)
        requires
            old(self).wf(),
            new_size.area() <= usize::MAX,
        ensures
            final(self).wf(),
            r is Ok <==> new_size.is_nonzero(),
            new_size.is_nonzero() ==> final(self)@ == fresh_grid(new_size),
            !new_size.is_nonzero() ==> r == Err::<(), ResizeError>(ResizeError::ZeroArea)
                && *final(self) == *old(self),
    {
        if new_size.width == 0 || new_size.height == 0 {
            return Err(ResizeError::ZeroArea);
        }
        let fresh = Presenter::new(new_size);
        *self = fresh;
        Ok(())
    }

    /// Copy every pixel of the render surface into the buffer, making the
    /// buffer's contents identical to the surface's. This is the pixel-copy
    /// half of `present`; the surface is only read.
    pub fn present_from(&mut self, surface: &RenderSurface)
        requires
            old(self).wf(),
            surface.wf(),
            old(self)@.width == surface@.width,
            old(self)@.height == surface@.height,
        ensures
            final(self).wf(),
            final(self)@.width == old(self)@.width,
            final(self)@.height == old(self)@.height,
            final(self)@.data == surface@.data,
    {
        let n: usize = self.buffer.len();
        let mut i: usize = 0;
        while i < n
            invariant
                i <= n,
                self.width == old(self).width,
                self.height == old(self).height,
                self.buffer@.len() == n,
                surface@.data.len() == n,
                forall|k: int| 0 <= k < i ==> self.buffer@[k] == surface@.data[k],
            decreases n - i,
        {
            let p = surface.pixel_linear(i);
            self.buffer.set(i, p);
            i = i + 1;
        }
        proof {
            assert(self@.data =~= surface@.data);
        }
    }

    /// The pixel at column `x`, row `y` of the presentation buffer.
    pub fn pixel(&self, x: u32, y: u32) -> (p: u32)
        requires
            self.wf(),
            x < self@.width,
            y < self@.height,
        ensures
            p == self@.at(x as int, y as int),
    {
        let n: usize = self.buffer.len();
        proof {
            lemma_row_major_index_bound(self@.width as int, self@.height as int, x as int, y as int);
            assert((y as int) * (self.width as int) + (x as int) < n);
        }
        let idx: usize = (y as usize) * (self.width as usize) + (x as usize);
        self.buffer[idx]
    }
}

} // verus!
