//! Pixel extents used by windows, swapchains and textures.

use vstd::prelude::*;

verus! {

/// Drawable size in physical pixels.
#[derive(Clone, Copy, Debug, Default, PartialEq, Eq, Structural)]
pub struct RenderExtent {
    /// Drawable width in pixels.
    pub width: u32,
    /// Drawable height in pixels.
    pub height: u32,
}

impl RenderExtent {
    /// Creates a drawable extent in physical pixels.
    pub fn new(width: u32, height: u32) -> (extent: Self)
        ensures
            extent.width == width,
            extent.height == height,
    {
        Self { width, height }
    }

    /// Whether either dimension is zero.
    pub open spec fn spec_is_empty(self) -> bool {
        self.width == 0 || self.height == 0
    }

    /// Returns `true` when either dimension is zero.
    pub fn is_empty(self) -> (empty: bool)
        ensures
            empty == self.spec_is_empty(),
    {
        self.width == 0 || self.height == 0
    }
}

} // verus!
