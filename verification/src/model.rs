//! Data model for NEXRAD radar data.

pub mod binary_data;
pub mod data;
pub mod float_order;
pub mod field;
pub mod meta;
pub mod result;
pub mod sorting;
pub mod text;

pub use result::Error;
