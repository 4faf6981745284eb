//! A polar field of values for one sweep of one product, with a status for
//! every gate.
use vstd::prelude::*;
use crate::model::data::gate_status::GateStatus;
use crate::model::field::layout::{lemma_row_major_bounds, row_major};
use crate::model::float_order::{F32_MAX_BITS, F32_MIN_BITS, f32_bits_lt, f32_is_nan, f32_le};

verus! {

/// A 2D polar field of values for one sweep of one product: the data surface
/// that processing algorithms read and produce.
///
/// Values and statuses are parallel arrays in row-major order:
/// `values[azimuth_index * gate_count + gate_index]`. Values, angles and
/// ranges are kept as IEEE-754 bit patterns: `f32` values and degrees, `f64`
/// kilometres.
#[derive(Debug, PartialEq, Eq)]
pub struct SweepField {
    label: String,
    unit: String,
    elevation_bits: u32,
    azimuth_bits: Vec<u32>,
    azimuth_spacing_bits: u32,
    first_gate_range_bits: u64,
    gate_interval_bits: u64,
    gate_count: usize,
    values: Vec<u32>,
    status: Vec<GateStatus>,
}

impl SweepField {
    /// Human-readable label (e.g., "Reflectivity").
    pub closed spec fn spec_label(self) -> Seq<char> {
        self.label@
    }

    /// Physical unit (e.g., "dBZ").
    pub closed spec fn spec_unit(self) -> Seq<char> {
        self.unit@
    }

    /// Bit pattern of the `f32` elevation angle in degrees.
    pub closed spec fn spec_elevation_bits(self) -> u32 {
        self.elevation_bits
    }

    /// Bit patterns of the `f32` azimuth of each row, in degrees.
    pub closed spec fn spec_azimuths(self) -> Seq<u32> {
        self.azimuth_bits@
    }

    /// Bit pattern of the `f32` azimuthal spacing in degrees.
    pub closed spec fn spec_azimuth_spacing_bits(self) -> u32 {
        self.azimuth_spacing_bits
    }

    /// Bit pattern of the `f64` range to the first gate in kilometres.
    pub closed spec fn spec_first_gate_range_bits(self) -> u64 {
        self.first_gate_range_bits
    }

    /// Bit pattern of the `f64` gate spacing in kilometres.
    pub closed spec fn spec_gate_interval_bits(self) -> u64 {
        self.gate_interval_bits
    }

    /// Number of gates per row.
    pub closed spec fn spec_gate_count(self) -> usize {
        self.gate_count
    }

    /// Bit patterns of the `f32` gate values, row-major.
    pub closed spec fn spec_values(self) -> Seq<u32> {
        self.values@
    }

    /// Status of each gate, row-major.
    pub closed spec fn spec_status(self) -> Seq<GateStatus> {
        self.status@
    }

    /// The field holds one value and one status per gate of every row.
    #[verifier::type_invariant]
    pub open spec fn wf(self) -> bool {
        &&& self.spec_values().len() == self.spec_azimuths().len() * self.spec_gate_count()
        &&& self.spec_status().len() == self.spec_values().len()
    }

    /// Storage position of gate `gate` of row `az`.
    pub open spec fn index_of(self, az: int, gate: int) -> int {
        row_major(self.spec_gate_count() as int, az, gate)
    }

    /// Whether (`az`, `gate`) is a gate of the field.
    pub open spec fn in_bounds(self, az: int, gate: int) -> bool {
        0 <= az < self.spec_azimuths().len() && 0 <= gate < self.spec_gate_count()
    }

    /// The geometry and labels are those of `other`.
    pub open spec fn same_geometry(self, other: SweepField) -> bool {
        &&& self.spec_label() == other.spec_label()
        &&& self.spec_unit() == other.spec_unit()
        &&& self.spec_elevation_bits() == other.spec_elevation_bits()
        &&& self.spec_azimuths() == other.spec_azimuths()
        &&& self.spec_azimuth_spacing_bits() == other.spec_azimuth_spacing_bits()
        &&& self.spec_first_gate_range_bits() == other.spec_first_gate_range_bits()
        &&& self.spec_gate_interval_bits() == other.spec_gate_interval_bits()
        &&& self.spec_gate_count() == other.spec_gate_count()
    }

    /// Creates a field from its geometry and row-major data; the data must
    /// hold one value and one status per gate of every row.
    pub fn from_parts(
        label: &str,
        unit: &str,
        elevation_bits: u32,
        azimuth_bits: Vec<u32>,
        azimuth_spacing_bits: u32,
        first_gate_range_bits: u64,
        gate_interval_bits: u64,
        gate_count: usize,
        values: Vec<u32>,
        status: Vec<GateStatus>,
    ) -> (r: Self)
        requires
            values@.len() == azimuth_bits@.len() * gate_count,
            status@.len() == values@.len(),
        ensures
            r.wf(),
            r.spec_label() == label@,
            r.spec_unit() == unit@,
            r.spec_elevation_bits() == elevation_bits,
            r.spec_azimuths() == azimuth_bits@,
            r.spec_azimuth_spacing_bits() == azimuth_spacing_bits,
            r.spec_first_gate_range_bits() == first_gate_range_bits,
            r.spec_gate_interval_bits() == gate_interval_bits,
            r.spec_gate_count() == gate_count,
            r.spec_values() == values@,
            r.spec_status() == status@,
    {
        SweepField {
            label: label.to_owned(),
            unit: unit.to_owned(),
            elevation_bits,
            azimuth_bits,
            azimuth_spacing_bits,
            first_gate_range_bits,
            gate_interval_bits,
            gate_count,
            values,
            status,
        }
    }

    /// Creates an empty field with the given geometry (for processing
    /// output): every value is `0.0` and every status `NoData`.
    pub fn new_empty(
        label: &str,
        unit: &str,
        elevation_bits: u32,
        azimuth_bits: Vec<u32>,
        azimuth_spacing_bits: u32,
        first_gate_range_bits: u64,
        gate_interval_bits: u64,
        gate_count: usize,
    ) -> (r: Self)
        requires
            azimuth_bits@.len() * gate_count <= usize::MAX,
        ensures
            r.wf(),
            r.spec_label() == label@,
            r.spec_unit() == unit@,
            r.spec_elevation_bits() == elevation_bits,
            r.spec_azimuths() == azimuth_bits@,
            r.spec_azimuth_spacing_bits() == azimuth_spacing_bits,
            r.spec_first_gate_range_bits() == first_gate_range_bits,
            r.spec_gate_interval_bits() == gate_interval_bits,
            r.spec_gate_count() == gate_count,
            forall|i: int| 0 <= i < r.spec_values().len() ==> #[trigger] r.spec_values()[i] == 0,
            forall|i: int| 0 <= i < r.spec_status().len() ==> #[trigger] r.spec_status()[i] == GateStatus::NoData,
    {
        let total = azimuth_bits.len() * gate_count;
        let mut values: Vec<u32> = Vec::new();
        let mut status: Vec<GateStatus> = Vec::new();
        let mut i: usize = 0;
        while i < total
            invariant
                i <= total,
                values@.len() == i,
                status@.len() == i,
                forall|k: int| 0 <= k < i ==> #[trigger] values@[k] == 0,
                forall|k: int| 0 <= k < i ==> #[trigger] status@[k] == GateStatus::NoData,
            decreases total - i,
        {
            values.push(0);
            status.push(GateStatus::NoData);
            i = i + 1;
        }
        SweepField {
            label: label.to_owned(),
            unit: unit.to_owned(),
            elevation_bits,
            azimuth_bits,
            azimuth_spacing_bits,
            first_gate_range_bits,
            gate_interval_bits,
            gate_count,
            values,
            status,
        }
    }

    /// Creates a field with the same geometry as this one, the given label
    /// and unit, and empty data.
    pub fn new_like(&self, label: &str, unit: &str) -> (r: Self)
        ensures
            r.wf(),
            r.spec_label() == label@,
            r.spec_unit() == unit@,
            r.spec_elevation_bits() == self.spec_elevation_bits(),
            r.spec_azimuths() == self.spec_azimuths(),
            r.spec_azimuth_spacing_bits() == self.spec_azimuth_spacing_bits(),
            r.spec_first_gate_range_bits() == self.spec_first_gate_range_bits(),
            r.spec_gate_interval_bits() == self.spec_gate_interval_bits(),
            r.spec_gate_count() == self.spec_gate_count(),
            forall|i: int| 0 <= i < r.spec_values().len() ==> #[trigger] r.spec_values()[i] == 0,
            forall|i: int| 0 <= i < r.spec_status().len() ==> #[trigger] r.spec_status()[i] == GateStatus::NoData,
    {
        proof {
            use_type_invariant(self);
        }
        proof {
            assert(self.values@.len() == self.values.len());
        }
        let azimuths = self.azimuth_bits.clone();
        assert(azimuths@ == self.azimuth_bits@);
        SweepField::new_empty(
            label,
            unit,
            self.elevation_bits,
            azimuths,
            self.azimuth_spacing_bits,
            self.first_gate_range_bits,
            self.gate_interval_bits,
            self.gate_count,
        )
    }

    /// A field with this field's geometry and labels and the given data,
    /// which must hold one value and one status per gate.
    pub fn with_data(&self, values: Vec<u32>, status: Vec<GateStatus>) -> (r: Self)
        requires
            values@.len() == self.spec_values().len(),
            status@.len() == values@.len(),
        ensures
            r.wf(),
            r.same_geometry(*self),
            r.spec_values() == values@,
            r.spec_status() == status@,
    {
        proof {
            use_type_invariant(self);
        }
        let azimuths = self.azimuth_bits.clone();
        assert(azimuths@ == self.azimuth_bits@);
        SweepField {
            label: self.label.clone(),
            unit: self.unit.clone(),
            elevation_bits: self.elevation_bits,
            azimuth_bits: azimuths,
            azimuth_spacing_bits: self.azimuth_spacing_bits,
            first_gate_range_bits: self.first_gate_range_bits,
            gate_interval_bits: self.gate_interval_bits,
            gate_count: self.gate_count,
            values,
            status,
        }
    }

    /// A copy of the field.
    pub fn duplicate(&self) -> (r: Self)
        ensures
            r.wf(),
            r.same_geometry(*self),
            r.spec_values() == self.spec_values(),
            r.spec_status() == self.spec_status(),
    {
        proof {
            use_type_invariant(self);
        }
        let values = self.values.clone();
        assert(values@ == self.values@);
        let status = copy_statuses(&self.status);
        self.with_data(values, status)
    }

    /// Human-readable label for this field.
    pub fn label(&self) -> (r: &str)
        ensures
            r@ == self.spec_label(),
    {
        self.label.as_str()
    }

    /// Physical unit string.
    pub fn unit(&self) -> (r: &str)
        ensures
            r@ == self.spec_unit(),
    {
        self.unit.as_str()
    }

    /// Bit pattern of the `f32` elevation angle in degrees.
    pub fn elevation_bits(&self) -> (r: u32)
        ensures
            r == self.spec_elevation_bits(),
    {
        self.elevation_bits
    }

    /// Number of azimuth rows.
    pub fn azimuth_count(&self) -> (r: usize)
        ensures
            r == self.spec_azimuths().len(),
    {
        self.azimuth_bits.len()
    }

    /// Number of gates per radial.
    pub fn gate_count(&self) -> (r: usize)
        ensures
            r == self.spec_gate_count(),
    {
        self.gate_count
    }

    /// Bit patterns of the `f32` azimuth of each row.
    pub fn azimuth_bits(&self) -> (r: &[u32])
        ensures
            r@ == self.spec_azimuths(),
    {
        self.azimuth_bits.as_slice()
    }

    /// Bit pattern of the `f32` azimuthal spacing in degrees.
    pub fn azimuth_spacing_bits(&self) -> (r: u32)
        ensures
            r == self.spec_azimuth_spacing_bits(),
    {
        self.azimuth_spacing_bits
    }

    /// Bit pattern of the `f64` range to the first gate in kilometres.
    pub fn first_gate_range_bits(&self) -> (r: u64)
        ensures
            r == self.spec_first_gate_range_bits(),
    {
        self.first_gate_range_bits
    }

    /// Bit pattern of the `f64` gate spacing in kilometres.
    pub fn gate_interval_bits(&self) -> (r: u64)
        ensures
            r == self.spec_gate_interval_bits(),
    {
        self.gate_interval_bits
    }

    /// All gate values, row-major.
    pub fn values(&self) -> (r: &[u32])
        ensures
            r@ == self.spec_values(),
    {
        self.values.as_slice()
    }

    /// All gate statuses, row-major.
    pub fn statuses(&self) -> (r: &[GateStatus])
        ensures
            r@ == self.spec_status(),
    {
        self.status.as_slice()
    }

    /// Storage position of gate `gate` of row `az`: `az * gate_count + gate`.
    pub fn idx(&self, az: usize, gate: usize) -> (r: usize)
        requires
            self.in_bounds(az as int, gate as int),
        ensures
            r == self.index_of(az as int, gate as int),
            r < self.spec_values().len(),
    {
        proof {
            use_type_invariant(self);
        }
        proof {
            lemma_row_major_bounds(
                self.azimuth_bits@.len() as int,
                self.gate_count as int,
                az as int,
                gate as int,
            );
            assert(self.values@.len() == self.values.len());
        }
        az * self.gate_count + gate
    }

    /// The value and status of gate `gate` of row `az`.
    pub fn get(&self, az: usize, gate: usize) -> (r: (u32, GateStatus))
        requires
            self.in_bounds(az as int, gate as int),
        ensures
            r.0 == self.spec_values()[self.index_of(az as int, gate as int)],
            r.1 == self.spec_status()[self.index_of(az as int, gate as int)],
    {
        proof {
            use_type_invariant(self);
        }
        let i = self.idx(az, gate);
        (self.values[i], self.status[i])
    }

    /// Sets the value and status of gate `gate` of row `az`.
    pub fn set(&mut self, az: usize, gate: usize, value_bits: u32, status: GateStatus)
        requires
            old(self).in_bounds(az as int, gate as int),
        ensures
            final(self).wf(),
            final(self).same_geometry(*old(self)),
            final(self).spec_values() == old(self).spec_values().update(
                old(self).index_of(az as int, gate as int),
                value_bits,
            ),
            final(self).spec_status() == old(self).spec_status().update(
                old(self).index_of(az as int, gate as int),
                status,
            ),
    {
        proof {
            use_type_invariant(&*self);
        }
        let i = self.idx(az, gate);
        let mut taken = SweepField::new_empty("", "", 0, Vec::new(), 0, 0, 0, 0);
        std::mem::swap(self, &mut taken);
        let SweepField {
            label,
            unit,
            elevation_bits,
            azimuth_bits,
            azimuth_spacing_bits,
            first_gate_range_bits,
            gate_interval_bits,
            gate_count,
            mut values,
            status: mut statuses,
        } = taken;
        values.set(i, value_bits);
        statuses.set(i, status);
        *self = SweepField {
            label,
            unit,
            elevation_bits,
            azimuth_bits,
            azimuth_spacing_bits,
            first_gate_range_bits,
            gate_interval_bits,
            gate_count,
            values,
            status: statuses,
        };
    }

    /// The values of the row of azimuth `az`.
    pub fn radial_values(&self, az: usize) -> (r: &[u32])
        requires
            az < self.spec_azimuths().len(),
        ensures
            r@ == self.spec_values().subrange(
                self.index_of(az as int, 0),
                self.index_of(az as int, 0) + self.spec_gate_count(),
            ),
    {
        let start = self.row_start(az);
        let end = start + self.gate_count;
        slice_range(self.values.as_slice(), start, end)
    }

    /// The statuses of the row of azimuth `az`.
    pub fn radial_statuses(&self, az: usize) -> (r: &[GateStatus])
        requires
            az < self.spec_azimuths().len(),
        ensures
            r@ == self.spec_status().subrange(
                self.index_of(az as int, 0),
                self.index_of(az as int, 0) + self.spec_gate_count(),
            ),
    {
        proof {
            use_type_invariant(self);
        }
        let start = self.row_start(az);
        let end = start + self.gate_count;
        slice_range(self.status.as_slice(), start, end)
    }

    /// Gate `i` is valid and holds a number (not a NaN).
    pub open spec fn holds_number(self, i: int) -> bool {
        self.spec_status()[i] == GateStatus::Valid && !f32_is_nan(self.spec_values()[i])
    }

    /// The least and greatest of the valid values, as `f32` bit patterns,
    /// folded from `f32::MAX` and `f32::MIN` with `f32::min` and `f32::max`
    /// (which pass over a NaN). `None` when no gate is valid. Of two equal
    /// zeros either may be returned, as with `f32::min` and `f32::max`.
    pub fn value_range_bits(&self) -> (r: Option<(u32, u32)>)
        ensures
            r is None <==> forall|i: int| 0 <= i < self.spec_status().len() ==> #[trigger] self.spec_status()[i]
                != GateStatus::Valid,
            r matches Some((lo, hi)) ==> {
                &&& lo == F32_MAX_BITS || exists|i: int|
                    0 <= i < self.spec_values().len() && self.holds_number(i) && #[trigger] self.spec_values()[i] == lo
                &&& hi == F32_MIN_BITS || exists|i: int|
                    0 <= i < self.spec_values().len() && self.holds_number(i) && #[trigger] self.spec_values()[i] == hi
                &&& f32_le(lo, F32_MAX_BITS) && f32_le(F32_MIN_BITS, hi)
                &&& forall|i: int|
                    0 <= i < self.spec_values().len() && self.holds_number(i) ==> f32_le(lo, #[trigger] self.spec_values()[i])
                        && f32_le(self.spec_values()[i], hi)
            },
    {
        proof {
            use_type_invariant(self);
        }
        let mut lo: u32 = F32_MAX_BITS;
        let mut hi: u32 = F32_MIN_BITS;
        let mut found = false;
        let mut i: usize = 0;
        while i < self.values.len()
            invariant
                self.wf(),
                i <= self.spec_values().len(),
                found <==> exists|k: int| 0 <= k < i && #[trigger] self.spec_status()[k] == GateStatus::Valid,
                lo == F32_MAX_BITS || exists|k: int|
                    0 <= k < i && self.holds_number(k) && #[trigger] self.spec_values()[k] == lo,
                hi == F32_MIN_BITS || exists|k: int|
                    0 <= k < i && self.holds_number(k) && #[trigger] self.spec_values()[k] == hi,
                f32_le(lo, F32_MAX_BITS) && f32_le(F32_MIN_BITS, hi),
                forall|k: int|
                    0 <= k < i && self.holds_number(k) ==> f32_le(lo, #[trigger] self.spec_values()[k]) && f32_le(
                        self.spec_values()[k],
                        hi,
                    ),
            decreases self.spec_values().len() - i,
        {
            let valid = match self.status[i] {
                GateStatus::Valid => true,
                _ => false,
            };
            if valid {
                let v = self.values[i];
                if f32_bits_lt(v, lo) {
                    lo = v;
                }
                if f32_bits_lt(hi, v) {
                    hi = v;
                }
                found = true;
            }
            i = i + 1;
        }
        if found {
            Some((lo, hi))
        } else {
            proof {
                assert forall|k: int| 0 <= k < self.spec_status().len() implies #[trigger] self.spec_status()[k]
                    != GateStatus::Valid by {
                    if self.spec_status()[k] == GateStatus::Valid {
                        assert(exists|m: int| 0 <= m < i && #[trigger] self.spec_status()[m] == GateStatus::Valid);
                    }
                }
            }
            None
        }
    }

    /// Storage position of the first gate of row `az`; the whole row fits.
    fn row_start(&self, az: usize) -> (r: usize)
        requires
            az < self.spec_azimuths().len(),
        ensures
            r == self.index_of(az as int, 0),
            r + self.spec_gate_count() <= self.spec_values().len(),
            self.spec_values().len() <= usize::MAX,
    {
        proof {
            use_type_invariant(self);
        }
        proof {
            assert(self.values@.len() == self.values.len());
            assert((az + 1) * self.gate_count <= self.azimuth_bits@.len() * self.gate_count) by (nonlinear_arith)
                requires
                    az + 1 <= self.azimuth_bits@.len(),
            ;
            assert((az + 1) * self.gate_count == az * self.gate_count + self.gate_count) by (nonlinear_arith);
        }
        az * self.gate_count
    }
}

impl Clone for SweepField {
    /// A copy of the field: same geometry, labels, values and statuses.
    fn clone(&self) -> (r: Self)
        ensures
            r.same_geometry(*self),
            r.spec_values() == self.spec_values(),
            r.spec_status() == self.spec_status(),
    {
        self.duplicate()
    }
}

/// A copy of a list of gate statuses.
fn copy_statuses(s: &Vec<GateStatus>) -> (r: Vec<GateStatus>)
    ensures
        r@ == s@,
{
    let mut out: Vec<GateStatus> = Vec::new();
    let mut i: usize = 0;
    while i < s.len()
        invariant
            i <= s@.len(),
            out@ == s@.take(i as int),
        decreases s@.len() - i,
    {
        out.push(s[i]);
        i = i + 1;
        assert(out@ =~= s@.take(i as int));
    }
    assert(s@.take(i as int) =~= s@);
    out
}

/// The items of a slice from `start` up to `end`.
fn slice_range<T>(s: &[T], start: usize, end: usize) -> (r: &[T])
    requires
        start <= end <= s@.len(),
    ensures
        r@ == s@.subrange(start as int, end as int),
{
    &s[start..end]
}

/// Setting a gate of a field changes that gate and leaves every other gate
/// as it was.
pub proof fn lemma_field_write_read(
    before: SweepField,
    after: SweepField,
    az: int,
    gate: int,
    value_bits: u32,
    status: GateStatus,
)
    requires
        before.wf(),
        before.in_bounds(az, gate),
        after.same_geometry(before),
        after.spec_values() == before.spec_values().update(before.index_of(az, gate), value_bits),
        after.spec_status() == before.spec_status().update(before.index_of(az, gate), status),
    ensures
        after.wf(),
        after.spec_values()[after.index_of(az, gate)] == value_bits,
        after.spec_status()[after.index_of(az, gate)] == status,
        forall|a: int, g: int|
            #![trigger after.index_of(a, g)]
            before.in_bounds(a, g) && (a != az || g != gate) ==> after.spec_values()[after.index_of(a, g)]
                == before.spec_values()[before.index_of(a, g)] && after.spec_status()[after.index_of(
                a,
                g,
            )] == before.spec_status()[before.index_of(a, g)],
{
    lemma_row_major_bounds(
        before.spec_azimuths().len() as int,
        before.spec_gate_count() as int,
        az,
        gate,
    );
    assert forall|a: int, g: int|
        #![trigger after.index_of(a, g)]
        before.in_bounds(a, g) && (a != az || g != gate) implies after.spec_values()[after.index_of(a, g)]
            == before.spec_values()[before.index_of(a, g)] && after.spec_status()[after.index_of(a, g)]
            == before.spec_status()[before.index_of(a, g)] by {
        lemma_row_major_bounds(
            before.spec_azimuths().len() as int,
            before.spec_gate_count() as int,
            a,
            g,
        );
        if before.index_of(a, g) == before.index_of(az, gate) {
            crate::model::field::layout::lemma_row_major_injective(
                before.spec_gate_count() as int,
                a,
                g,
                az,
                gate,
            );
        }
    }
}

} // verus!
