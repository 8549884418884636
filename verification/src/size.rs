//! Extents in physical pixels.

use vstd::prelude::*;

verus! {

/// The extent of a window or of a drawable surface, in physical pixels.
#[derive(Clone, Copy, Debug, PartialEq, Eq)]
pub struct Size {
    pub width: u32,
    pub height: u32,
}

impl Size {
    /// An extent that a surface can be configured with: neither dimension is
    /// zero. Windows report a zero extent while they are minimised.
    pub open spec fn drawable(self) -> bool {
        self.width > 0 && self.height > 0
    }

    pub fn new(width: u32, height: u32) -> (size: Size)
        ensures
            size.width == width,
            size.height == height,
    {
        Size { width, height }
    }

    /// Tells whether a surface can be configured with this extent.
    pub fn is_drawable(&self) -> (yes: bool)
        ensures
            yes == self.drawable(),
    {
        self.width > 0 && self.height > 0
    }
}

} // verus!
