//! Errors of field data operations.
use vstd::prelude::*;

verus! {

/// Errors that can occur during field data operations.
///
/// Ranges are in whole metres, as the radials encode them.
#[derive(Debug, Clone, Copy, PartialEq, Eq, Structural)]
pub enum FieldError {
    /// No radials provided for conversion.
    EmptyInput,
    /// Radials have inconsistent gate counts.
    InconsistentGateCount {
        /// Expected gate count from the first radial.
        expected: u16,
        /// Gate count found at the specified ray.
        found: u16,
        /// Index of the ray with the inconsistent gate count.
        ray_index: usize,
    },
    /// Radials have inconsistent gate intervals.
    InconsistentGateInterval {
        /// Expected gate interval from the first radial, in metres.
        expected: u16,
        /// Gate interval found at the specified ray, in metres.
        found: u16,
        /// Index of the ray with the inconsistent interval.
        ray_index: usize,
    },
    /// Radials have inconsistent first gate ranges.
    InconsistentFirstGateRange {
        /// Expected first gate range from the first radial, in metres.
        expected: u16,
        /// First gate range found at the specified ray, in metres.
        found: u16,
        /// Index of the ray with the inconsistent range.
        ray_index: usize,
    },
    /// The requested product is not available in the radial data.
    ProductNotAvailable,
    /// Values array size does not match geometry.
    ValuesSizeMismatch {
        /// Expected number of values based on geometry.
        expected: usize,
        /// Actual number of values provided.
        actual: usize,
    },
}

} // verus!
