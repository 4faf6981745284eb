//! Polar sweep of radar data with uniform geometry.
use vstd::prelude::*;
use crate::model::field::layout::{lemma_row_major_bounds, lemma_row_major_injective, row_major};
use crate::model::meta::site::Site;

verus! {

/// A polar sweep of radar data with uniform geometry: one value per (ray,
/// gate), stored row-major with rays as rows: `values[ray * gate_count + gate]`.
///
/// Angles and ranges are the IEEE-754 bit patterns of `f32` degrees and metres.
#[derive(Debug, Clone, PartialEq, Eq)]
pub struct PolarSweep<T> {
    elevation_bits: u32,
    azimuth_bits: Vec<u32>,
    first_gate_range_bits: u32,
    gate_size_bits: u32,
    gate_count: usize,
    values: Vec<T>,
    site: Option<Site>,
}

impl<T> PolarSweep<T> {
    /// Bit pattern of the elevation angle.
    pub closed spec fn spec_elevation_bits(self) -> u32 {
        self.elevation_bits
    }

    /// Bit patterns of the azimuth of each ray.
    pub closed spec fn spec_azimuth_bits(self) -> Seq<u32> {
        self.azimuth_bits@
    }

    /// Bit pattern of the range to the first gate.
    pub closed spec fn spec_first_gate_range_bits(self) -> u32 {
        self.first_gate_range_bits
    }

    /// Bit pattern of each gate's size.
    pub closed spec fn spec_gate_size_bits(self) -> u32 {
        self.gate_size_bits
    }

    /// Number of gates per ray.
    pub closed spec fn spec_gate_count(self) -> usize {
        self.gate_count
    }

    /// The values in row-major order.
    pub closed spec fn spec_values(self) -> Seq<T> {
        self.values@
    }

    /// The site metadata, if any.
    pub closed spec fn spec_site(self) -> Option<Site> {
        self.site
    }

    /// Number of rays.
    pub open spec fn spec_ray_count(self) -> int {
        self.spec_azimuth_bits().len() as int
    }

    /// The sweep holds exactly one value per (ray, gate).
    pub open spec fn wf(self) -> bool {
        self.spec_values().len() == self.spec_ray_count() * self.spec_gate_count()
    }

    /// Storage position of (`ray`, `gate`).
    pub open spec fn index_of(self, ray: int, gate: int) -> int {
        row_major(self.spec_gate_count() as int, ray, gate)
    }

    /// Whether (`ray`, `gate`) is a position of the sweep.
    pub open spec fn in_bounds(self, ray: int, gate: int) -> bool {
        0 <= ray < self.spec_ray_count() && 0 <= gate < self.spec_gate_count()
    }

    /// The value at (`ray`, `gate`).
    pub open spec fn at(self, ray: int, gate: int) -> T {
        self.spec_values()[self.index_of(ray, gate)]
    }

    /// Creates a sweep with the given geometry and row-major data, without
    /// site metadata. The data must hold exactly one value per (ray, gate).
    pub fn new(
        elevation_bits: u32,
        azimuth_bits: Vec<u32>,
        first_gate_range_bits: u32,
        gate_size_bits: u32,
        gate_count: usize,
        values: Vec<T>,
    ) -> (r: Self)
        requires
            values@.len() == azimuth_bits@.len() * gate_count,
        ensures
            r.wf(),
            r.spec_elevation_bits() == elevation_bits,
            r.spec_azimuth_bits() == azimuth_bits@,
            r.spec_first_gate_range_bits() == first_gate_range_bits,
            r.spec_gate_size_bits() == gate_size_bits,
            r.spec_gate_count() == gate_count,
            r.spec_values() == values@,
            r.spec_site() is None,
    {
        PolarSweep {
            elevation_bits,
            azimuth_bits,
            first_gate_range_bits,
            gate_size_bits,
            gate_count,
            values,
            site: None,
        }
    }

    /// Bit pattern of the elevation angle in degrees.
    pub fn elevation_bits(&self) -> (r: u32)
        ensures
            r == self.spec_elevation_bits(),
    {
        self.elevation_bits
    }

    /// Bit patterns of the azimuth angle in degrees of each ray.
    pub fn azimuth_bits(&self) -> (r: &[u32])
        ensures
            r@ == self.spec_azimuth_bits(),
    {
        self.azimuth_bits.as_slice()
    }

    /// Bit pattern of the distance to the centre of the first gate in metres.
    pub fn first_gate_range_bits(&self) -> (r: u32)
        ensures
            r == self.spec_first_gate_range_bits(),
    {
        self.first_gate_range_bits
    }

    /// Bit pattern of the distance between gate centres in metres.
    pub fn gate_size_bits(&self) -> (r: u32)
        ensures
            r == self.spec_gate_size_bits(),
    {
        self.gate_size_bits
    }

    /// Number of rays in the sweep.
    pub fn ray_count(&self) -> (r: usize)
        ensures
            r == self.spec_ray_count(),
    {
        self.azimuth_bits.len()
    }

    /// Number of gates per ray.
    pub fn gate_count(&self) -> (r: usize)
        ensures
            r == self.spec_gate_count(),
    {
        self.gate_count
    }

    /// The data values in row-major order.
    pub fn values(&self) -> (r: &[T])
        ensures
            r@ == self.spec_values(),
    {
        self.values.as_slice()
    }

    /// The data values in row-major order, for in-place changes.
    pub fn values_mut(&mut self) -> (r: &mut [T])
        ensures
            r@ == old(self).spec_values(),
            final(self).spec_values() == final(r)@,
            final(self).spec_azimuth_bits() == old(self).spec_azimuth_bits(),
            final(self).spec_gate_count() == old(self).spec_gate_count(),
            final(self).spec_elevation_bits() == old(self).spec_elevation_bits(),
            final(self).spec_first_gate_range_bits() == old(self).spec_first_gate_range_bits(),
            final(self).spec_gate_size_bits() == old(self).spec_gate_size_bits(),
            final(self).spec_site() == old(self).spec_site(),
    {
        self.values.as_mut_slice()
    }

    /// Consumes the sweep and returns its values.
    pub fn into_values(self) -> (r: Vec<T>)
        ensures
            r@ == self.spec_values(),
    {
        self.values
    }

    /// Optional radar site metadata.
    pub fn site(&self) -> (r: Option<&Site>)
        ensures
            match r {
                Some(s) => self.spec_site() == Some(*s),
                None => self.spec_site() is None,
            },
    {
        self.site.as_ref()
    }

    /// The same sweep with the given site metadata.
    pub fn with_site(self, site: Site) -> (r: Self)
        ensures
            r.spec_site() == Some(site),
            r.spec_values() == self.spec_values(),
            r.spec_azimuth_bits() == self.spec_azimuth_bits(),
            r.spec_gate_count() == self.spec_gate_count(),
            r.spec_elevation_bits() == self.spec_elevation_bits(),
            r.spec_first_gate_range_bits() == self.spec_first_gate_range_bits(),
            r.spec_gate_size_bits() == self.spec_gate_size_bits(),
    {
        let mut s = self;
        s.site = Some(site);
        s
    }

    /// Storage position of (`ray`, `gate`): `ray * gate_count + gate`.
    pub fn idx(&self, ray: usize, gate: usize) -> (r: usize)
        requires
            self.wf(),
            ray < self.spec_ray_count(),
            gate < self.spec_gate_count(),
        ensures
            r == self.index_of(ray as int, gate as int),
            r < self.spec_values().len(),
    {
        proof {
            lemma_row_major_bounds(self.spec_ray_count(), self.gate_count as int, ray as int, gate as int);
            assert(self.values@.len() == self.values.len());
        }
        ray * self.gate_count + gate
    }

    /// The value at (`ray`, `gate`).
    pub fn get(&self, ray: usize, gate: usize) -> (r: &T)
        requires
            self.wf(),
            ray < self.spec_ray_count(),
            gate < self.spec_gate_count(),
        ensures
            *r == self.at(ray as int, gate as int),
    {
        let i = self.idx(ray, gate);
        &self.values[i]
    }

    /// The value at (`ray`, `gate`), for an in-place change.
    pub fn get_mut(&mut self, ray: usize, gate: usize) -> (r: &mut T)
        requires
            old(self).wf(),
            ray < old(self).spec_ray_count(),
            gate < old(self).spec_gate_count(),
        ensures
            *r == old(self).at(ray as int, gate as int),
            final(self).spec_values() == old(self).spec_values().update(
                old(self).index_of(ray as int, gate as int),
                *final(r),
            ),
            final(self).spec_azimuth_bits() == old(self).spec_azimuth_bits(),
            final(self).spec_gate_count() == old(self).spec_gate_count(),
            final(self).spec_elevation_bits() == old(self).spec_elevation_bits(),
            final(self).spec_first_gate_range_bits() == old(self).spec_first_gate_range_bits(),
            final(self).spec_gate_size_bits() == old(self).spec_gate_size_bits(),
            final(self).spec_site() == old(self).spec_site(),
    {
        let i = self.idx(ray, gate);
        &mut self.values[i]
    }

    /// The azimuth bit pattern and the values of ray `ray`.
    pub fn ray(&self, ray: usize) -> (r: (u32, &[T]))
        requires
            self.wf(),
            ray < self.spec_ray_count(),
        ensures
            r.0 == self.spec_azimuth_bits()[ray as int],
            r.1@ == self.spec_values().subrange(
                self.index_of(ray as int, 0),
                self.index_of(ray as int, 0) + self.spec_gate_count(),
            ),
    {
        proof {
            assert(self.values@.len() == self.values.len());
            assert((ray + 1) * self.gate_count == ray * self.gate_count + self.gate_count) by (nonlinear_arith);
            assert((ray + 1) * self.gate_count <= self.spec_ray_count() * self.gate_count) by (nonlinear_arith)
                requires
                    ray < self.spec_ray_count(),
                    0 <= self.gate_count,
            ;
        }
        let start = ray * self.gate_count;
        let end = start + self.gate_count;
        (self.azimuth_bits[ray], &self.values.as_slice()[start..end])
    }

    /// Total number of data points in the sweep.
    pub fn data_count(&self) -> (r: usize)
        ensures
            r == self.spec_values().len(),
    {
        self.values.len()
    }
}

/// Writing one position of a sweep changes that position to the written
/// value and leaves every other position as it was.
pub proof fn lemma_sweep_write_read<T>(before: PolarSweep<T>, after: PolarSweep<T>, ray: int, gate: int, v: T)
    requires
        before.wf(),
        before.in_bounds(ray, gate),
        after.spec_azimuth_bits() == before.spec_azimuth_bits(),
        after.spec_gate_count() == before.spec_gate_count(),
        after.spec_values() == before.spec_values().update(before.index_of(ray, gate), v),
    ensures
        after.wf(),
        after.at(ray, gate) == v,
        forall|r2: int, g2: int|
            before.in_bounds(r2, g2) && (r2 != ray || g2 != gate) ==> #[trigger] after.at(r2, g2)
                == before.at(r2, g2),
{
    let n = before.spec_gate_count() as int;
    let m = before.spec_ray_count();
    lemma_row_major_bounds(m, n, ray, gate);
    assert forall|r2: int, g2: int|
        before.in_bounds(r2, g2) && (r2 != ray || g2 != gate) implies #[trigger] after.at(r2, g2)
            == before.at(r2, g2) by {
        lemma_row_major_bounds(m, n, r2, g2);
        if row_major(n, r2, g2) == row_major(n, ray, gate) {
            lemma_row_major_injective(n, r2, g2, ray, gate);
        }
    }
}

} // verus!
