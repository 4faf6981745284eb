//! Specification of a Cartesian grid geometry.
use vstd::prelude::*;

verus! {

/// Specification of a Cartesian grid geometry, used to define the output
/// grid of resampling operations. The origin is the top-left corner.
///
/// The pixel size and origin are the IEEE-754 bit patterns of `f32` metres.
#[derive(Debug, Clone, Copy, PartialEq, Eq)]
pub struct GridSpec {
    /// Grid width in pixels.
    pub width: usize,
    /// Grid height in pixels.
    pub height: usize,
    /// Bit pattern of the size of each pixel in metres.
    pub pixel_size_bits: u32,
    /// Bit patterns of the origin (top-left corner) in metres relative to
    /// the radar, (x, y); x is positive eastward, y northward.
    pub origin_bits: (u32, u32),
}

impl GridSpec {
    /// Creates a grid specification with an explicit origin.
    pub fn new(width: usize, height: usize, pixel_size_bits: u32, origin_bits: (u32, u32)) -> (r: Self)
        ensures
            r == (GridSpec { width, height, pixel_size_bits, origin_bits }),
    {
        GridSpec { width, height, pixel_size_bits, origin_bits }
    }

    /// Total number of pixels in the grid.
    pub fn pixel_count(&self) -> (r: usize)
        requires
            self.width * self.height <= usize::MAX,
        ensures
            r == self.width * self.height,
    {
        self.width * self.height
    }
}

} // verus!
