//! Filtering algorithms for sweep fields.

pub mod clutter;
pub mod smoothing;
pub mod threshold;

pub use clutter::{shared_gate_count, CorrelationCoefficientFilter};
pub use smoothing::{KernelTap, MedianFilter};
pub use threshold::ThresholdFilter;
