//! Products derived from several sweeps of a volume.

pub mod composite;

pub use composite::CompositeReflectivity;
