use vstd::prelude::*;

verus! {

/// Errors that can occur during processing.
#[derive(Debug, PartialEq, Eq)]
pub enum Error {
    /// The input field has invalid geometry for this algorithm.
    InvalidGeometry(String),
    /// The algorithm requires data that is not present.
    MissingData(String),
    /// A parameter value is out of the acceptable range.
    InvalidParameter(String),
}

} // verus!
