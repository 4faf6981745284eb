//! Masking of gates whose values fall outside a range.
use vstd::prelude::*;
use crate::model::data::gate_status::GateStatus;
use crate::model::data::sweep_field::SweepField;
use crate::model::float_order::{f32_bits_lt, f32_lt};
use crate::process::result::Error;

verus! {

/// Masks gates whose values fall outside a range: valid gates below `min` or
/// above `max` become `NoData` with value `0.0`. Either bound may be `None`
/// to leave that side unbounded. Bounds are `f32` bit patterns.
#[derive(Debug, Clone, Copy, PartialEq, Eq, Structural)]
pub struct ThresholdFilter {
    /// Minimum acceptable value. Gates below this are masked.
    pub min_bits: Option<u32>,
    /// Maximum acceptable value. Gates above this are masked.
    pub max_bits: Option<u32>,
}

/// Whether a value lies outside the bounds, by `f32` comparison (a NaN lies
/// inside).
pub open spec fn outside_bounds(min_bits: Option<u32>, max_bits: Option<u32>, v: u32) -> bool {
    (min_bits matches Some(m) && f32_lt(v, m)) || (max_bits matches Some(m) && f32_lt(m, v))
}

impl ThresholdFilter {
    /// The name of the filter.
    pub fn name(&self) -> (r: &'static str)
        ensures
            r@ == "ThresholdFilter"@,
    {
        "ThresholdFilter"
    }

    /// Whether a gate with this value and status is masked.
    pub open spec fn masks(self, v: u32, s: GateStatus) -> bool {
        s == GateStatus::Valid && outside_bounds(self.min_bits, self.max_bits, v)
    }

    /// The field with every valid gate outside the bounds masked: its value
    /// becomes `0.0` and its status `NoData`; every other gate is kept.
    pub fn process(&self, input: &SweepField) -> (r: Result<SweepField, Error>)
        ensures
            r matches Ok(out) && out.wf() && out.same_geometry(*input) && forall|i: int|
                0 <= i < input.spec_values().len() ==> if self.masks(
                    input.spec_values()[i],
                    input.spec_status()[i],
                ) {
                    #[trigger] out.spec_values()[i] == 0 && out.spec_status()[i] == GateStatus::NoData
                } else {
                    out.spec_values()[i] == input.spec_values()[i] && out.spec_status()[i]
                        == input.spec_status()[i]
                },
    {
        proof {
            use_type_invariant(input);
        }
        let values = input.values();
        let statuses = input.statuses();
        let mut out_values: Vec<u32> = Vec::new();
        let mut out_status: Vec<GateStatus> = Vec::new();
        let mut i: usize = 0;
        while i < values.len()
            invariant
                input.wf(),
                values@ == input.spec_values(),
                statuses@ == input.spec_status(),
                i <= values@.len(),
                out_values@.len() == i,
                out_status@.len() == i,
                forall|k: int|
                    0 <= k < i ==> if self.masks(input.spec_values()[k], input.spec_status()[k]) {
                        #[trigger] out_values@[k] == 0 && out_status@[k] == GateStatus::NoData
                    } else {
                        out_values@[k] == input.spec_values()[k] && out_status@[k] == input.spec_status()[k]
                    },
            decreases values@.len() - i,
        {
            let v = values[i];
            let s = statuses[i];
            let below = match self.min_bits {
                Some(m) => f32_bits_lt(v, m),
                None => false,
            };
            let above = match self.max_bits {
                Some(m) => f32_bits_lt(m, v),
                None => false,
            };
            let valid = match s {
                GateStatus::Valid => true,
                _ => false,
            };
            let ghost ov = out_values@;
            let ghost os = out_status@;
            if valid && (below || above) {
                out_values.push(0);
                out_status.push(GateStatus::NoData);
            } else {
                out_values.push(v);
                out_status.push(s);
            }
            proof {
                assert forall|k: int| 0 <= k < i implies out_values@[k] == ov[k] && out_status@[k] == os[k] by {}
            }
            i = i + 1;
        }
        Ok(input.with_data(out_values, out_status))
    }
}

} // verus!
