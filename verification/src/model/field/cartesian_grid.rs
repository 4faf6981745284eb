//! Cartesian grid of radar-derived data.
use vstd::prelude::*;
use crate::model::field::grid_spec::GridSpec;
use crate::model::field::layout::{lemma_row_major_bounds, lemma_row_major_injective, row_major};

verus! {

/// A Cartesian grid of radar-derived data, stored row-major with the origin
/// at the top-left corner: `values[y * width + x]`, `y = 0` being the top row.
///
/// The pixel size and origin are the IEEE-754 bit patterns of `f32` metres.
#[derive(Debug, Clone, PartialEq, Eq)]
pub struct CartesianGrid<T> {
    width: usize,
    height: usize,
    pixel_size_bits: u32,
    origin_x_bits: u32,
    origin_y_bits: u32,
    values: Vec<T>,
}

impl<T> CartesianGrid<T> {
    /// Grid width in pixels.
    pub closed spec fn spec_width(self) -> usize {
        self.width
    }

    /// Grid height in pixels.
    pub closed spec fn spec_height(self) -> usize {
        self.height
    }

    /// Bit pattern of the pixel size.
    pub closed spec fn spec_pixel_size_bits(self) -> u32 {
        self.pixel_size_bits
    }

    /// Bit patterns of the origin.
    pub closed spec fn spec_origin_bits(self) -> (u32, u32) {
        (self.origin_x_bits, self.origin_y_bits)
    }

    /// The values in row-major order.
    pub closed spec fn spec_values(self) -> Seq<T> {
        self.values@
    }

    /// The grid holds exactly one value per pixel.
    pub open spec fn wf(self) -> bool {
        self.spec_values().len() == self.spec_width() * self.spec_height()
    }

    /// Storage position of pixel (`x`, `y`).
    pub open spec fn index_of(self, x: int, y: int) -> int {
        row_major(self.spec_width() as int, y, x)
    }

    /// Whether (`x`, `y`) is a pixel of the grid.
    pub open spec fn in_bounds(self, x: int, y: int) -> bool {
        0 <= x < self.spec_width() && 0 <= y < self.spec_height()
    }

    /// The value of pixel (`x`, `y`).
    pub open spec fn at(self, x: int, y: int) -> T {
        self.spec_values()[self.index_of(x, y)]
    }

    /// Creates a grid with the given geometry and row-major data; the pixel
    /// size and origin are `f32` bit patterns. The data must hold exactly
    /// `width * height` values.
    pub fn new(width: usize, height: usize, pixel_size_bits: u32, origin_bits: (u32, u32), values: Vec<T>) -> (r: Self)
        requires
            values@.len() == width * height,
        ensures
            r.wf(),
            r.spec_width() == width,
            r.spec_height() == height,
            r.spec_pixel_size_bits() == pixel_size_bits,
            r.spec_origin_bits() == origin_bits,
            r.spec_values() == values@,
    {
        CartesianGrid {
            width,
            height,
            pixel_size_bits,
            origin_x_bits: origin_bits.0,
            origin_y_bits: origin_bits.1,
            values,
        }
    }

    /// Creates a grid with the geometry of a grid specification.
    pub fn from_spec(spec: &GridSpec, values: Vec<T>) -> (r: Self)
        requires
            values@.len() == spec.width * spec.height,
        ensures
            r.wf(),
            r.spec_width() == spec.width,
            r.spec_height() == spec.height,
            r.spec_pixel_size_bits() == spec.pixel_size_bits,
            r.spec_origin_bits() == spec.origin_bits,
            r.spec_values() == values@,
    {
        Self::new(spec.width, spec.height, spec.pixel_size_bits, spec.origin_bits, values)
    }

    /// Grid width in pixels.
    pub fn width(&self) -> (r: usize)
        ensures
            r == self.spec_width(),
    {
        self.width
    }

    /// Grid height in pixels.
    pub fn height(&self) -> (r: usize)
        ensures
            r == self.spec_height(),
    {
        self.height
    }

    /// Bit pattern of the size of each pixel in metres.
    pub fn pixel_size_bits(&self) -> (r: u32)
        ensures
            r == self.spec_pixel_size_bits(),
    {
        self.pixel_size_bits
    }

    /// Bit patterns of the origin (top-left corner) in metres.
    pub fn origin_bits(&self) -> (r: (u32, u32))
        ensures
            r == self.spec_origin_bits(),
    {
        (self.origin_x_bits, self.origin_y_bits)
    }

    /// The data values in row-major order.
    pub fn values(&self) -> (r: &[T])
        ensures
            r@ == self.spec_values(),
    {
        self.values.as_slice()
    }

    /// The data values in row-major order, for in-place changes.
    pub fn values_mut(&mut self) -> (r: &mut [T])
        ensures
            r@ == old(self).spec_values(),
            final(self).spec_values() == final(r)@,
            final(self).spec_width() == old(self).spec_width(),
            final(self).spec_height() == old(self).spec_height(),
            final(self).spec_pixel_size_bits() == old(self).spec_pixel_size_bits(),
            final(self).spec_origin_bits() == old(self).spec_origin_bits(),
    {
        self.values.as_mut_slice()
    }

    /// Consumes the grid and returns its values.
    pub fn into_values(self) -> (r: Vec<T>)
        ensures
            r@ == self.spec_values(),
    {
        self.values
    }

    /// Storage position of pixel (`x`, `y`): `y * width + x`.
    pub fn idx(&self, x: usize, y: usize) -> (r: usize)
        requires
            self.wf(),
            x < self.spec_width(),
            y < self.spec_height(),
        ensures
            r == self.index_of(x as int, y as int),
            r < self.spec_values().len(),
    {
        proof {
            lemma_row_major_bounds(self.height as int, self.width as int, y as int, x as int);
            assert(self.values@.len() == self.values.len());
        }
        y * self.width + x
    }

    /// The value of pixel (`x`, `y`).
    pub fn get(&self, x: usize, y: usize) -> (r: &T)
        requires
            self.wf(),
            x < self.spec_width(),
            y < self.spec_height(),
        ensures
            *r == self.at(x as int, y as int),
    {
        let i = self.idx(x, y);
        &self.values[i]
    }

    /// The value of pixel (`x`, `y`), for an in-place change.
    pub fn get_mut(&mut self, x: usize, y: usize) -> (r: &mut T)
        requires
            old(self).wf(),
            x < old(self).spec_width(),
            y < old(self).spec_height(),
        ensures
            *r == old(self).at(x as int, y as int),
            final(self).spec_values() == old(self).spec_values().update(
                old(self).index_of(x as int, y as int),
                *final(r),
            ),
            final(self).spec_width() == old(self).spec_width(),
            final(self).spec_height() == old(self).spec_height(),
            final(self).spec_pixel_size_bits() == old(self).spec_pixel_size_bits(),
            final(self).spec_origin_bits() == old(self).spec_origin_bits(),
    {
        let i = self.idx(x, y);
        &mut self.values[i]
    }

    /// Total number of pixels in the grid.
    pub fn pixel_count(&self) -> (r: usize)
        requires
            self.wf(),
        ensures
            r == self.spec_width() * self.spec_height(),
    {
        proof {
            assert(self.values@.len() == self.values.len());
        }
        self.width * self.height
    }
}

/// Writing one pixel of a grid changes that pixel to the written value and
/// leaves every other pixel as it was.
pub proof fn lemma_grid_write_read<T>(before: CartesianGrid<T>, after: CartesianGrid<T>, x: int, y: int, v: T)
    requires
        before.wf(),
        before.in_bounds(x, y),
        after.spec_width() == before.spec_width(),
        after.spec_height() == before.spec_height(),
        after.spec_values() == before.spec_values().update(before.index_of(x, y), v),
    ensures
        after.wf(),
        after.at(x, y) == v,
        forall|x2: int, y2: int|
            before.in_bounds(x2, y2) && (x2 != x || y2 != y) ==> #[trigger] after.at(x2, y2)
                == before.at(x2, y2),
{
    let w = before.spec_width() as int;
    let h = before.spec_height() as int;
    lemma_row_major_bounds(h, w, y, x);
    assert forall|x2: int, y2: int|
        before.in_bounds(x2, y2) && (x2 != x || y2 != y) implies #[trigger] after.at(x2, y2)
            == before.at(x2, y2) by {
        lemma_row_major_bounds(h, w, y2, x2);
        if row_major(w, y2, x2) == row_major(w, y, x) {
            lemma_row_major_injective(w, y2, x2, y, x);
        }
    }
}

} // verus!
