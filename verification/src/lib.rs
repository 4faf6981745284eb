//! Verified core of a NEXRAD weather-radar data model and processing toolkit.
//!
//! The library keeps the model and its algorithms on integers and on the
//! IEEE-754 bit patterns of floating-point quantities: enumerations and their
//! codes, fixed-point gate decoding, sweep assembly and field layouts, grid
//! indexing, the radar site registry, `f32` ordering on bit patterns, and the
//! threshold, clutter and median filters and storm-cell component labelling
//! that need only comparisons. Arithmetic on floating-point values (scaling,
//! trigonometry, interpolation) is left to the caller.

pub mod model;
pub mod process;
