//! Correlation coefficient based clutter removal: the geometry it needs.
use vstd::prelude::*;
use vstd::string::StringExecFns;
use crate::model::text::{decimal_text, push_decimal};
use crate::model::data::gate_status::GateStatus;
use crate::model::data::sweep_field::SweepField;
use crate::model::float_order::{f32_bits_le, f32_bits_lt, f32_le, f32_lt};
use crate::model::field::layout::{lemma_row_major_bounds, lemma_row_major_injective};
use crate::process::result::Error;

verus! {

/// The message of a correlation coefficient field whose azimuth count
/// differs from the target field's.
pub open spec fn azimuth_mismatch_text(cc_azimuths: usize, input_azimuths: usize) -> Seq<char> {
    "CC field azimuth count ("@ + decimal_text(cc_azimuths as nat) + ") does not match input field ("@
        + decimal_text(input_azimuths as nat) + ")"@
}

/// Checks that a correlation coefficient field can mask a target field: both
/// must have the same number of azimuths. Returns the number of gates the
/// two fields share, over which the mask applies; gates beyond it are left
/// unchanged.
pub fn shared_gate_count(
    input_azimuths: usize,
    input_gates: usize,
    cc_azimuths: usize,
    cc_gates: usize,
) -> (r: Result<usize, Error>)
    ensures
        input_azimuths != cc_azimuths <==> r is Err,
        r matches Err(e) ==> (e matches Error::InvalidGeometry(m) && m@ == azimuth_mismatch_text(
            cc_azimuths,
            input_azimuths,
        )),
        r matches Ok(n) ==> n == if input_gates < cc_gates {
            input_gates
        } else {
            cc_gates
        },
{
    if input_azimuths != cc_azimuths {
        let mut m = String::from_str("CC field azimuth count (");
        push_decimal(&mut m, cc_azimuths as u64);
        m.append(") does not match input field (");
        push_decimal(&mut m, input_azimuths as u64);
        m.append(")");
        return Err(Error::InvalidGeometry(m));
    }
    Ok(
        if input_gates < cc_gates {
            input_gates
        } else {
            cc_gates
        },
    )
}

/// Bit pattern of the `f32` number one.
pub const F32_ONE_BITS: u32 = 0x3f80_0000u32;

/// Correlation coefficient based clutter removal.
///
/// Masks gates of a target field (e.g., reflectivity) where the matching gate of a
/// correlation coefficient (CC) field falls below a threshold, or is not
/// valid: a standard way of removing non-meteorological echoes such as
/// ground clutter, biological targets and debris. Typical thresholds are
/// 0.85 to 0.95.
pub struct CorrelationCoefficientFilter {
    threshold_bits: u32,
    cc_field: SweepField,
}

impl CorrelationCoefficientFilter {
    /// The threshold, as an `f32` bit pattern.
    pub closed spec fn spec_threshold_bits(self) -> u32 {
        self.threshold_bits
    }

    /// The correlation coefficient field.
    pub closed spec fn spec_cc_field(self) -> SweepField {
        self.cc_field
    }

    /// Creates a filter from a threshold (an `f32` bit pattern) and a CC
    /// field. Fails with `InvalidParameter` when the threshold is not in
    /// `(0, 1]` by `f32` comparison (a NaN threshold is accepted).
    pub fn new(threshold_bits: u32, cc_field: SweepField) -> (r: Result<Self, Error>)
        ensures
            (f32_le(threshold_bits, 0) || f32_lt(F32_ONE_BITS, threshold_bits)) <==> r is Err,
            r matches Err(e) ==> (e matches Error::InvalidParameter(m) && m@ == "CC threshold must be in (0, 1]"@),
            r matches Ok(f) ==> f.spec_threshold_bits() == threshold_bits && f.spec_cc_field() == cc_field,
    {
        if f32_bits_le(threshold_bits, 0) || f32_bits_lt(F32_ONE_BITS, threshold_bits) {
            return Err(Error::InvalidParameter("CC threshold must be in (0, 1]".to_owned()));
        }
        Ok(CorrelationCoefficientFilter { threshold_bits, cc_field })
    }

    /// The name of the filter.
    pub fn name(&self) -> (r: &'static str)
        ensures
            r@ == "CorrelationCoefficientFilter"@,
    {
        "CorrelationCoefficientFilter"
    }

    /// Whether the target gate (`az`, `gate`) of `input` is masked: it is
    /// valid, and the CC gate at the same place is not valid or is below the
    /// threshold.
    pub open spec fn masks(self, input: SweepField, az: int, gate: int) -> bool {
        let cc = self.spec_cc_field();
        let i = input.index_of(az, gate);
        let j = cc.index_of(az, gate);
        &&& input.spec_status()[i] == GateStatus::Valid
        &&& (cc.spec_status()[j] != GateStatus::Valid || f32_lt(cc.spec_values()[j], self.spec_threshold_bits()))
    }

    /// Masks the target field where the CC field rejects a gate: its value
    /// becomes `0.0` and the status `NoData`. Over the gates that both fields
    /// have; gates beyond the CC field's range are left unchanged. Fails with
    /// `InvalidGeometry` when the azimuth counts differ.
    pub fn process(&self, input: &SweepField) -> (r: Result<SweepField, Error>)
        ensures
            (input.spec_azimuths().len() != self.spec_cc_field().spec_azimuths().len()) <==> r is Err,
            r matches Err(e) ==> (e matches Error::InvalidGeometry(m) && m@ == azimuth_mismatch_text(
                self.spec_cc_field().spec_azimuths().len() as usize,
                input.spec_azimuths().len() as usize,
            )),
            r matches Ok(out) ==> out.wf() && out.same_geometry(*input) && forall|az: int, gate: int|
                #![trigger input.index_of(az, gate)]
                input.in_bounds(az, gate) ==> if gate < self.spec_cc_field().spec_gate_count() && self.masks(
                    *input,
                    az,
                    gate,
                ) {
                    out.spec_values()[input.index_of(az, gate)] == 0 && out.spec_status()[input.index_of(
                        az,
                        gate,
                    )] == GateStatus::NoData
                } else {
                    out.spec_values()[input.index_of(az, gate)] == input.spec_values()[input.index_of(
                        az,
                        gate,
                    )] && out.spec_status()[input.index_of(az, gate)] == input.spec_status()[input.index_of(
                        az,
                        gate,
                    )]
                },
    {
        proof {
            use_type_invariant(input);
            use_type_invariant(&self.cc_field);
        }
        let az_count = input.azimuth_count();
        let shared = shared_gate_count(
            az_count,
            input.gate_count(),
            self.cc_field.azimuth_count(),
            self.cc_field.gate_count(),
        )?;
        let mut out = input.duplicate();
        let mut az: usize = 0;
        while az < az_count
            invariant
                input.wf(),
                self.cc_field.wf(),
                out.wf(),
                out.same_geometry(*input),
                az_count == input.spec_azimuths().len(),
                az_count == self.cc_field.spec_azimuths().len(),
                shared <= input.spec_gate_count(),
                shared <= self.cc_field.spec_gate_count(),
                shared == input.spec_gate_count() || shared == self.cc_field.spec_gate_count(),
                az <= az_count,
                forall|a: int, g: int|
                    #![trigger input.index_of(a, g)]
                    input.in_bounds(a, g) ==> if a < az && g < shared && self.masks(*input, a, g) {
                        out.spec_values()[input.index_of(a, g)] == 0 && out.spec_status()[input.index_of(a, g)]
                            == GateStatus::NoData
                    } else {
                        out.spec_values()[input.index_of(a, g)] == input.spec_values()[input.index_of(a, g)]
                            && out.spec_status()[input.index_of(a, g)] == input.spec_status()[input.index_of(a, g)]
                    },
            decreases az_count - az,
        {
            let mut gate: usize = 0;
            while gate < shared
                invariant
                    input.wf(),
                    self.cc_field.wf(),
                    out.wf(),
                    out.same_geometry(*input),
                    az_count == input.spec_azimuths().len(),
                    az_count == self.cc_field.spec_azimuths().len(),
                    shared <= input.spec_gate_count(),
                    shared <= self.cc_field.spec_gate_count(),
                    shared == input.spec_gate_count() || shared == self.cc_field.spec_gate_count(),
                    az < az_count,
                    gate <= shared,
                    forall|a: int, g: int|
                        #![trigger input.index_of(a, g)]
                        input.in_bounds(a, g) ==> if (a < az || (a == az && g < gate)) && g < shared
                            && self.masks(*input, a, g) {
                            out.spec_values()[input.index_of(a, g)] == 0 && out.spec_status()[input.index_of(a, g)]
                                == GateStatus::NoData
                        } else {
                            out.spec_values()[input.index_of(a, g)] == input.spec_values()[input.index_of(a, g)]
                                && out.spec_status()[input.index_of(a, g)] == input.spec_status()[input.index_of(
                                a,
                                g,
                            )]
                        },
                decreases shared - gate,
            {
                let (_, input_status) = input.get(az, gate);
                let (cc_value, cc_status) = self.cc_field.get(az, gate);
                let input_valid = match input_status {
                    GateStatus::Valid => true,
                    _ => false,
                };
                let cc_valid = match cc_status {
                    GateStatus::Valid => true,
                    _ => false,
                };
                if input_valid && (!cc_valid || f32_bits_lt(cc_value, self.threshold_bits)) {
                    let ghost before = out;
                    out.set(az, gate, 0, GateStatus::NoData);
                    proof {
                        lemma_row_major_bounds(az_count as int, input.spec_gate_count() as int, az as int, gate as int);
                        assert forall|a: int, g: int|
                            #![trigger input.index_of(a, g)]
                            input.in_bounds(a, g) && (a != az || g != gate) implies out.spec_values()[input.index_of(a, g)]
                                == before.spec_values()[input.index_of(a, g)] && out.spec_status()[input.index_of(a, g)]
                                == before.spec_status()[input.index_of(a, g)] by {
                            lemma_row_major_bounds(az_count as int, input.spec_gate_count() as int, a, g);
                            if input.index_of(a, g) == input.index_of(az as int, gate as int) {
                                lemma_row_major_injective(input.spec_gate_count() as int, a, g, az as int, gate as int);
                            }
                        }
                    }
                }
                gate = gate + 1;
            }
            az = az + 1;
        }
        Ok(out)
    }
}

} // verus!
