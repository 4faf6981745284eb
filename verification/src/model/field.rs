//! Interchange types for radar field data in polar and Cartesian layouts.

pub mod cartesian_grid;
pub mod convert;
pub mod error;
pub mod grid_spec;
pub mod layout;
pub mod metres;
pub mod polar_sweep;

pub use cartesian_grid::CartesianGrid;
pub use convert::{radials_to_polar_sweep, PolarCodes, ProductSelector};
pub use error::FieldError;
pub use grid_spec::GridSpec;
pub use polar_sweep::PolarSweep;
