//! Sizes in physical pixels, and the recoverable resize error.

use vstd::prelude::*;

verus! {

/// A size in physical pixels, as the platform window reports it.
#[derive(Clone, Copy, Debug, PartialEq, Eq, Structural)]
pub struct Size {
    pub width: u32,
    pub height: u32,
}

impl Size {
    /// Both dimensions are positive; a surface of this size has pixels.
    pub open spec fn is_nonzero(self) -> bool {
        self.width > 0 && self.height > 0
    }

    /// Number of pixels in a grid of this size.
    pub open spec fn area(self) -> int {
        self.width * self.height
    }

    pub fn new(width: u32, height: u32) -> (s: Size)
        ensures
            s.width == width,
            s.height == height,
    {
        Size { width, height }
    }
}

/// The recoverable failure of a resize request: the platform rejects a
/// buffer with no pixels. The previous surface and buffer stay valid.
#[derive(Clone, Copy, Debug, PartialEq, Eq, Structural)]
pub enum ResizeError {
    ZeroArea,
}

} // verus!
