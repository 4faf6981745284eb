//! Radar data: scans, sweeps, radials, moments and their enumerations.

pub mod channel_configuration;
pub mod elevation_cut;
pub mod gate_status;
pub mod moment;
pub mod pulse_width;
pub mod product;
pub mod radial;
pub mod scan;
pub mod sweep;
pub mod sweep_field;
pub mod sweep_layout;
pub mod vcp_number;
pub mod volume_coverage_pattern;
pub mod waveform_type;

pub use channel_configuration::ChannelConfiguration;
pub use elevation_cut::ElevationCut;
pub use gate_status::GateStatus;
pub use moment::{CFPMomentCode, CFPMomentData, CFPStatus, MomentCode, MomentData, MomentDataBlock};
pub use pulse_width::PulseWidth;
pub use product::Product;
pub use radial::{Radial, RadialStatus};
pub use scan::Scan;
pub use sweep::Sweep;
pub use sweep_field::SweepField;
pub use sweep_layout::{sweep_layout, SweepLayout};
pub use vcp_number::VCPNumber;
pub use volume_coverage_pattern::VolumeCoveragePattern;
pub use waveform_type::WaveformType;
