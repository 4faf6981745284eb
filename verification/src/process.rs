//! Processing algorithms over radar fields.

pub mod derived;
pub mod detection;
pub mod filter;
pub mod result;
pub mod strength;

pub use result::Error;
