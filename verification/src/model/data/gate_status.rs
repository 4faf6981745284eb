use vstd::prelude::*;

verus! {

/// Status of one gate of a field, kept beside its value.
#[derive(Debug, Clone, Copy, PartialEq, Eq, Structural, Hash)]
pub enum GateStatus {
    /// A valid data value is present.
    Valid,
    /// No data for this gate (masked, missing, or a status code).
    NoData,
    /// The value for this gate was below the signal threshold.
    BelowThreshold,
    /// The value for this gate exceeded the maximum unambiguous range.
    RangeFolded,
}

} // verus!
