//! Assembly of the radials of one sweep into a uniform polar layout.
use vstd::prelude::*;
use crate::model::data::moment::{CFPMomentData, MomentCode, MomentData, MomentDataBlock};
use crate::model::data::radial::{Radial, same_option};
use crate::model::field::error::FieldError;
use crate::model::field::metres::{beyond_tolerance, exceeds_tolerance};

verus! {

/// Selector for which radar product to extract from radials.
#[derive(Debug, Clone, Copy, PartialEq, Eq, Structural, Hash)]
pub enum ProductSelector {
    /// Reflectivity (dBZ).
    Reflectivity,
    /// Radial velocity (m/s).
    Velocity,
    /// Spectrum width (m/s).
    SpectrumWidth,
    /// Differential reflectivity (dB).
    DifferentialReflectivity,
    /// Differential phase (degrees).
    DifferentialPhase,
    /// Correlation coefficient (unitless, 0-1).
    CorrelationCoefficient,
    /// Specific differential phase (degrees/km), read from the moment that the
    /// radial also offers as clutter filter power.
    SpecificDifferentialPhase,
}

/// The encoded block of an optional moment.
pub open spec fn block_of<M>(m: Option<M>, f: spec_fn(M) -> MomentDataBlock) -> Option<MomentDataBlock> {
    match m {
        Some(x) => Some(f(x)),
        None => None,
    }
}

impl ProductSelector {
    /// The encoded moment that this selector picks from a radial.
    pub open spec fn block_in(self, radial: Radial) -> Option<MomentDataBlock> {
        match self {
            ProductSelector::Reflectivity => block_of(radial.spec_reflectivity(), |m: MomentData| m.block()),
            ProductSelector::Velocity => block_of(radial.spec_velocity(), |m: MomentData| m.block()),
            ProductSelector::SpectrumWidth => block_of(radial.spec_spectrum_width(), |m: MomentData| m.block()),
            ProductSelector::DifferentialReflectivity => block_of(
                radial.spec_differential_reflectivity(),
                |m: MomentData| m.block(),
            ),
            ProductSelector::DifferentialPhase => block_of(radial.spec_differential_phase(), |m: MomentData| m.block()),
            ProductSelector::CorrelationCoefficient => block_of(
                radial.spec_correlation_coefficient(),
                |m: MomentData| m.block(),
            ),
            ProductSelector::SpecificDifferentialPhase => block_of(
                radial.spec_clutter_filter_power(),
                |m: CFPMomentData| m.block(),
            ),
        }
    }

    /// Extracts the encoded moment for this product from a radial.
    pub fn get_moment<'a>(&self, radial: &'a Radial) -> (r: Option<&'a MomentDataBlock>)
        ensures
            same_option(r, self.block_in(*radial)),
    {
        match self {
            ProductSelector::Reflectivity => match radial.reflectivity() {
                Some(m) => Some(m.data()),
                None => None,
            },
            ProductSelector::Velocity => match radial.velocity() {
                Some(m) => Some(m.data()),
                None => None,
            },
            ProductSelector::SpectrumWidth => match radial.spectrum_width() {
                Some(m) => Some(m.data()),
                None => None,
            },
            ProductSelector::DifferentialReflectivity => match radial.differential_reflectivity() {
                Some(m) => Some(m.data()),
                None => None,
            },
            ProductSelector::DifferentialPhase => match radial.differential_phase() {
                Some(m) => Some(m.data()),
                None => None,
            },
            ProductSelector::CorrelationCoefficient => match radial.correlation_coefficient() {
                Some(m) => Some(m.data()),
                None => None,
            },
            ProductSelector::SpecificDifferentialPhase => match radial.clutter_filter_power() {
                Some(m) => Some(m.data()),
                None => None,
            },
        }
    }
}

/// Each selector picks the encoded block of the radial's moment of the same
/// name: it is present exactly when that moment is, and is that moment's
/// block. Specific differential phase picks the radial's CFP data.
pub proof fn lemma_selector_picks_named_moment(radial: Radial)
    ensures
        ProductSelector::Reflectivity.block_in(radial) is Some <==> radial.spec_reflectivity() is Some,
        radial.spec_reflectivity() matches Some(m) ==> ProductSelector::Reflectivity.block_in(radial) == Some(m.block()),
        ProductSelector::Velocity.block_in(radial) is Some <==> radial.spec_velocity() is Some,
        radial.spec_velocity() matches Some(m) ==> ProductSelector::Velocity.block_in(radial) == Some(m.block()),
        ProductSelector::SpectrumWidth.block_in(radial) is Some <==> radial.spec_spectrum_width() is Some,
        radial.spec_spectrum_width() matches Some(m) ==> ProductSelector::SpectrumWidth.block_in(radial) == Some(
            m.block(),
        ),
        ProductSelector::DifferentialReflectivity.block_in(radial) is Some
            <==> radial.spec_differential_reflectivity() is Some,
        radial.spec_differential_reflectivity() matches Some(m) ==> ProductSelector::DifferentialReflectivity.block_in(
            radial,
        ) == Some(m.block()),
        ProductSelector::DifferentialPhase.block_in(radial) is Some <==> radial.spec_differential_phase() is Some,
        radial.spec_differential_phase() matches Some(m) ==> ProductSelector::DifferentialPhase.block_in(radial)
            == Some(m.block()),
        ProductSelector::CorrelationCoefficient.block_in(radial) is Some
            <==> radial.spec_correlation_coefficient() is Some,
        radial.spec_correlation_coefficient() matches Some(m) ==> ProductSelector::CorrelationCoefficient.block_in(
            radial,
        ) == Some(m.block()),
        ProductSelector::SpecificDifferentialPhase.block_in(radial) is Some
            <==> radial.spec_clutter_filter_power() is Some,
        radial.spec_clutter_filter_power() matches Some(m) ==> ProductSelector::SpecificDifferentialPhase.block_in(
            radial,
        ) == Some(m.block()),
{
}

/// The error that ray `i` raises when checked against the first ray, if any:
/// a missing product, then a differing gate count, first gate range or gate
/// interval, in that order.
pub open spec fn ray_error(radials: Seq<Radial>, p: ProductSelector, i: int) -> Option<FieldError> {
    match (p.block_in(radials[0]), p.block_in(radials[i])) {
        (Some(f), Some(b)) => if b.spec_gate_count() != f.spec_gate_count() {
            Some(
                FieldError::InconsistentGateCount {
                    expected: f.spec_gate_count(),
                    found: b.spec_gate_count(),
                    ray_index: i as usize,
                },
            )
        } else if beyond_tolerance(b.spec_first_gate_range(), f.spec_first_gate_range()) {
            Some(
                FieldError::InconsistentFirstGateRange {
                    expected: f.spec_first_gate_range(),
                    found: b.spec_first_gate_range(),
                    ray_index: i as usize,
                },
            )
        } else if beyond_tolerance(b.spec_gate_interval(), f.spec_gate_interval()) {
            Some(
                FieldError::InconsistentGateInterval {
                    expected: f.spec_gate_interval(),
                    found: b.spec_gate_interval(),
                    ray_index: i as usize,
                },
            )
        } else {
            None
        },
        _ => Some(FieldError::ProductNotAvailable),
    }
}

/// The first error among rays `0..k`, checked in order.
pub open spec fn first_error(radials: Seq<Radial>, p: ProductSelector, k: int) -> Option<FieldError>
    decreases k,
{
    if k <= 0 {
        None
    } else {
        match first_error(radials, p, k - 1) {
            Some(e) => Some(e),
            None => ray_error(radials, p, k - 1),
        }
    }
}

/// The decoded gates of the selected product, ray after ray.
pub open spec fn sweep_codes(radials: Seq<Radial>, p: ProductSelector) -> Seq<MomentCode>
    decreases radials.len(),
{
    if radials.len() == 0 {
        Seq::empty()
    } else {
        sweep_codes(radials.drop_last(), p) + p.block_in(radials.last()).unwrap().moment_codes_spec()
    }
}

/// When every radial provides exactly `gate_count` gates of the product,
/// the laid out gates fill a grid of one row per radial.
pub proof fn lemma_sweep_codes_fill_grid(radials: Seq<Radial>, p: ProductSelector, gate_count: nat)
    requires
        forall|i: int|
            0 <= i < radials.len() ==> (#[trigger] p.block_in(radials[i])) is Some && p.block_in(
                radials[i],
            ).unwrap().words().len() == gate_count,
    ensures
        sweep_codes(radials, p).len() == radials.len() * gate_count,
    decreases radials.len(),
{
    if radials.len() > 0 {
        let prev = radials.drop_last();
        assert forall|i: int| 0 <= i < prev.len() implies (#[trigger] p.block_in(prev[i])) is Some
            && p.block_in(prev[i]).unwrap().words().len() == gate_count by {
            assert(prev[i] == radials[i]);
        }
        lemma_sweep_codes_fill_grid(prev, p, gate_count);
        assert(p.block_in(radials[radials.len() - 1]) is Some);
        assert(radials.len() * gate_count == (radials.len() - 1) * gate_count + gate_count) by (nonlinear_arith)
            requires
                radials.len() > 0,
        ;
    }
}

/// The radials of one sweep for one product, laid out ray by ray, before the
/// scale and offset of each ray turn its codes into physical values.
#[derive(Debug, Clone, PartialEq, Eq)]
pub struct PolarCodes {
    /// Bit pattern of the `f32` elevation angle of the first radial.
    pub elevation_bits: u32,
    /// Bit patterns of the `f32` azimuth of each ray.
    pub azimuth_bits: Vec<u32>,
    /// Range to the first gate in metres, shared by all rays.
    pub first_gate_range_m: u16,
    /// Distance between gate centres in metres, shared by all rays.
    pub gate_interval_m: u16,
    /// Number of gates of each ray.
    pub gate_count: usize,
    /// The decoded gates of all rays, ray after ray.
    pub codes: Vec<MomentCode>,
    /// Bit pattern of the `f32` scale of each ray.
    pub scale_bits: Vec<u32>,
    /// Bit pattern of the `f32` offset of each ray.
    pub offset_bits: Vec<u32>,
}

/// Checks that the radials of a sweep share one geometry for a product and
/// lays out their gates ray by ray.
///
/// Errors: no radials; the product missing from a radial; a radial whose gate
/// count differs from the first radial's, or whose first gate range or gate
/// interval is more than one metre from the first radial's, compared as
/// single-precision metres (see [`beyond_tolerance`]). The first failing
/// radial, in order, decides the error.
pub fn radials_to_polar_sweep(radials: &[Radial], product: ProductSelector) -> (r: Result<
    PolarCodes,
    FieldError,
>)
    ensures
        radials@.len() == 0 ==> r == Err::<PolarCodes, FieldError>(FieldError::EmptyInput),
        radials@.len() > 0 ==> (r is Err <==> first_error(radials@, product, radials@.len() as int)
            is Some),
        radials@.len() > 0 ==> (r matches Err(e) ==> first_error(
            radials@,
            product,
            radials@.len() as int,
        ) == Some(e)),
        r matches Ok(pc) ==> {
            let f = product.block_in(radials@[0]).unwrap();
            &&& pc.elevation_bits == radials@[0].spec_elevation_angle_bits()
            &&& pc.azimuth_bits@ == radials@.map_values(|x: Radial| x.spec_azimuth_angle_bits())
            &&& pc.first_gate_range_m == f.spec_first_gate_range()
            &&& pc.gate_interval_m == f.spec_gate_interval()
            &&& pc.gate_count == f.spec_gate_count()
            &&& pc.codes@ == sweep_codes(radials@, product)
            &&& pc.scale_bits@ == radials@.map_values(
                |x: Radial| product.block_in(x).unwrap().spec_scale_bits(),
            )
            &&& pc.offset_bits@ == radials@.map_values(
                |x: Radial| product.block_in(x).unwrap().spec_offset_bits(),
            )
        },
{
    if radials.len() == 0 {
        return Err(FieldError::EmptyInput);
    }
    let first = match product.get_moment(&radials[0]) {
        Some(b) => b,
        None => {
            assert(first_error(radials@, product, 0) is None);
            assert(first_error(radials@, product, 1) == Some(FieldError::ProductNotAvailable));
            proof {
                lemma_first_error_sticks(radials@, product, 1, radials@.len() as int);
            }
            return Err(FieldError::ProductNotAvailable);
        },
    };
    let gate_count = first.gate_count();
    let first_range = first.first_gate_range_m();
    let interval = first.gate_interval_m();
    let mut azimuth_bits: Vec<u32> = Vec::new();
    let mut codes: Vec<MomentCode> = Vec::new();
    let mut scale_bits: Vec<u32> = Vec::new();
    let mut offset_bits: Vec<u32> = Vec::new();
    let mut i: usize = 0;
    while i < radials.len()
        invariant
            0 < radials@.len(),
            i <= radials@.len(),
            product.block_in(radials@[0]) == Some(*first),
            gate_count == first.spec_gate_count(),
            first_range == first.spec_first_gate_range(),
            interval == first.spec_gate_interval(),
            first_error(radials@, product, i as int) is None,
            azimuth_bits@ == radials@.take(i as int).map_values(
                |x: Radial| x.spec_azimuth_angle_bits(),
            ),
            codes@ == sweep_codes(radials@.take(i as int), product),
            scale_bits@ == radials@.take(i as int).map_values(
                |x: Radial| product.block_in(x).unwrap().spec_scale_bits(),
            ),
            offset_bits@ == radials@.take(i as int).map_values(
                |x: Radial| product.block_in(x).unwrap().spec_offset_bits(),
            ),
        decreases radials@.len() - i,
    {
        let radial = &radials[i];
        let b = match product.get_moment(radial) {
            Some(b) => b,
            None => {
                proof {
                    lemma_first_error_sticks(radials@, product, i + 1, radials@.len() as int);
                }
                return Err(FieldError::ProductNotAvailable);
            },
        };
        let found = b.gate_count();
        if found != gate_count {
            proof {
                lemma_first_error_sticks(radials@, product, i + 1, radials@.len() as int);
            }
            return Err(
                FieldError::InconsistentGateCount { expected: gate_count, found, ray_index: i },
            );
        }
        let this_range = b.first_gate_range_m();
        if exceeds_tolerance(this_range, first_range) {
            proof {
                lemma_first_error_sticks(radials@, product, i + 1, radials@.len() as int);
            }
            return Err(
                FieldError::InconsistentFirstGateRange {
                    expected: first_range,
                    found: this_range,
                    ray_index: i,
                },
            );
        }
        let this_interval = b.gate_interval_m();
        if exceeds_tolerance(this_interval, interval) {
            proof {
                lemma_first_error_sticks(radials@, product, i + 1, radials@.len() as int);
            }
            return Err(
                FieldError::InconsistentGateInterval {
                    expected: interval,
                    found: this_interval,
                    ray_index: i,
                },
            );
        }
        let ghost before = radials@.take(i as int);
        azimuth_bits.push(radial.azimuth_angle_bits());
        let mut ray_codes = b.moment_codes();
        codes.append(&mut ray_codes);
        scale_bits.push(b.scale_bits());
        offset_bits.push(b.offset_bits());
        i = i + 1;
        proof {
            let now = radials@.take(i as int);
            assert(now.drop_last() =~= before);
            assert(now.last() == *radial);
            assert(azimuth_bits@ =~= now.map_values(|x: Radial| x.spec_azimuth_angle_bits()));
            assert(scale_bits@ =~= now.map_values(
                |x: Radial| product.block_in(x).unwrap().spec_scale_bits(),
            ));
            assert(offset_bits@ =~= now.map_values(
                |x: Radial| product.block_in(x).unwrap().spec_offset_bits(),
            ));
        }
    }
    assert(radials@.take(radials@.len() as int) =~= radials@);
    Ok(
        PolarCodes {
            elevation_bits: radials[0].elevation_angle_bits(),
            azimuth_bits,
            first_gate_range_m: first_range,
            gate_interval_m: interval,
            gate_count: gate_count as usize,
            codes,
            scale_bits,
            offset_bits,
        },
    )
}

/// Once the rays before `j` have raised an error, the rays before any
/// `k >= j` raise the same one.
proof fn lemma_first_error_sticks(radials: Seq<Radial>, p: ProductSelector, j: int, k: int)
    requires
        j <= k,
        first_error(radials, p, j) is Some,
    ensures
        first_error(radials, p, k) == first_error(radials, p, j),
    decreases k - j,
{
    if j < k {
        lemma_first_error_sticks(radials, p, j, k - 1);
    }
}

} // verus!
