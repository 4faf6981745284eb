//! Composite reflectivity: the strongest echo above each point of a grid.
use vstd::prelude::*;
use crate::process::result::Error;

verus! {

/// Composite reflectivity (CREF): the maximum reflectivity at each
/// geographic point across all elevation tilts of a volume.
///
/// For each cell of the output grid, the cell centre is projected onto every
/// tilt, the reflectivity there is sampled, and the largest valid value is
/// kept.
#[derive(Debug, Clone, Copy, PartialEq, Eq, Structural)]
pub struct CompositeReflectivity;

impl CompositeReflectivity {
    /// The name of the product.
    pub fn name(&self) -> (r: &'static str)
        ensures
            r@ == "CompositeReflectivity"@,
    {
        "CompositeReflectivity"
    }

    /// Checks the inputs of a composite: at least one sweep field, and an
    /// output grid with both dimensions positive. The missing fields are
    /// reported first.
    pub fn check_inputs(&self, field_count: usize, output_resolution: (usize, usize)) -> (r: Result<(), Error>)
        ensures
            field_count == 0 ==> (r matches Err(Error::MissingData(m)) && m@ == "no sweep fields provided"@),
            field_count != 0 && (output_resolution.0 == 0 || output_resolution.1 == 0) ==> (r matches Err(
                Error::InvalidParameter(m),
            ) && m@ == "output resolution must be > 0"@),
            field_count != 0 && output_resolution.0 != 0 && output_resolution.1 != 0 ==> r is Ok,
    {
        if field_count == 0 {
            return Err(Error::MissingData("no sweep fields provided".to_owned()));
        }
        let (width, height) = output_resolution;
        if width == 0 || height == 0 {
            return Err(Error::InvalidParameter("output resolution must be > 0".to_owned()));
        }
        Ok(())
    }
}

} // verus!
