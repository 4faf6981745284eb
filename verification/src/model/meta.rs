//! Radar site metadata.

pub mod lookup;
pub mod registry;
pub mod site;

pub use registry::SiteEntry;
pub use site::Site;
