//! Errors of model operations.
use vstd::prelude::*;

verus! {

/// Errors that can occur during NEXRAD model operations.
#[derive(Debug, Clone, Copy, PartialEq, Eq, Structural)]
pub enum Error {
    /// Attempted to merge sweeps with mismatched elevation numbers.
    ElevationMismatchError,
}

} // verus!
