//! Radials: one beam direction at one point in time with its moment data.
use vstd::prelude::*;
use crate::model::data::moment::{CFPMomentData, MomentData};

verus! {

/// Describe a radial's position within the sequence of radials comprising a scan.
#[derive(Debug, Clone, Copy, PartialEq, Eq, Structural, Hash)]
pub enum RadialStatus {
    /// First radial of an elevation sweep (not the first sweep in the volume).
    ElevationStart,
    /// A radial within an elevation sweep (not the first or last radial).
    IntermediateRadialData,
    /// Last radial of an elevation sweep.
    ElevationEnd,
    /// First radial of the first elevation sweep in a volume scan.
    VolumeScanStart,
    /// Last radial of the last elevation sweep in a volume scan.
    VolumeScanEnd,
    /// Start of new elevation which is the last in the VCP.
    ElevationStartVCPFinal,
}

/// A borrowed optional value agrees with an owned optional value.
pub open spec fn same_option<T>(r: Option<&T>, v: Option<T>) -> bool {
    match r {
        Some(x) => v == Some(*x),
        None => v is None,
    }
}

/// A single radar ray composed of a series of gates: one azimuth and
/// elevation at a point in time, with the moment data of each product.
///
/// Angles are kept as the IEEE-754 bit patterns of the `f32` degrees.
#[derive(Debug, Clone, PartialEq, Eq)]
pub struct Radial {
    collection_timestamp: i64,
    azimuth_number: u16,
    azimuth_angle_bits: u32,
    azimuth_spacing_bits: u32,
    radial_status: RadialStatus,
    elevation_number: u8,
    elevation_angle_bits: u32,
    reflectivity: Option<MomentData>,
    velocity: Option<MomentData>,
    spectrum_width: Option<MomentData>,
    differential_reflectivity: Option<MomentData>,
    differential_phase: Option<MomentData>,
    correlation_coefficient: Option<MomentData>,
    clutter_filter_power: Option<CFPMomentData>,
}

impl Radial {
    /// Collection time in milliseconds since the UNIX epoch.
    pub closed spec fn spec_collection_timestamp(self) -> i64 {
        self.collection_timestamp
    }

    /// Index of the radial's azimuth in its sweep.
    pub closed spec fn spec_azimuth_number(self) -> u16 {
        self.azimuth_number
    }

    /// Bit pattern of the azimuth angle in degrees.
    pub closed spec fn spec_azimuth_angle_bits(self) -> u32 {
        self.azimuth_angle_bits
    }

    /// Bit pattern of the azimuth spacing in degrees.
    pub closed spec fn spec_azimuth_spacing_bits(self) -> u32 {
        self.azimuth_spacing_bits
    }

    /// Position of the radial in the scan sequence.
    pub closed spec fn spec_radial_status(self) -> RadialStatus {
        self.radial_status
    }

    /// Elevation number of the radial in the volume scan.
    pub closed spec fn spec_elevation_number(self) -> u8 {
        self.elevation_number
    }

    /// Bit pattern of the elevation angle in degrees.
    pub closed spec fn spec_elevation_angle_bits(self) -> u32 {
        self.elevation_angle_bits
    }

    /// Reflectivity data, if present.
    pub closed spec fn spec_reflectivity(self) -> Option<MomentData> {
        self.reflectivity
    }

    /// Velocity data, if present.
    pub closed spec fn spec_velocity(self) -> Option<MomentData> {
        self.velocity
    }

    /// Spectrum width data, if present.
    pub closed spec fn spec_spectrum_width(self) -> Option<MomentData> {
        self.spectrum_width
    }

    /// Differential reflectivity data, if present.
    pub closed spec fn spec_differential_reflectivity(self) -> Option<MomentData> {
        self.differential_reflectivity
    }

    /// Differential phase data, if present.
    pub closed spec fn spec_differential_phase(self) -> Option<MomentData> {
        self.differential_phase
    }

    /// Correlation coefficient data, if present.
    pub closed spec fn spec_correlation_coefficient(self) -> Option<MomentData> {
        self.correlation_coefficient
    }

    /// Clutter filter power data, if present.
    pub closed spec fn spec_clutter_filter_power(self) -> Option<CFPMomentData> {
        self.clutter_filter_power
    }

    /// Creates a radial; the angles are the bit patterns of `f32` degrees.
    pub fn new(
        collection_timestamp: i64,
        azimuth_number: u16,
        azimuth_angle_bits: u32,
        azimuth_spacing_bits: u32,
        radial_status: RadialStatus,
        elevation_number: u8,
        elevation_angle_bits: u32,
        reflectivity: Option<MomentData>,
        velocity: Option<MomentData>,
        spectrum_width: Option<MomentData>,
        differential_reflectivity: Option<MomentData>,
        differential_phase: Option<MomentData>,
        correlation_coefficient: Option<MomentData>,
        clutter_filter_power: Option<CFPMomentData>,
    ) -> (r: Self)
        ensures
            r.spec_collection_timestamp() == collection_timestamp,
            r.spec_azimuth_number() == azimuth_number,
            r.spec_azimuth_angle_bits() == azimuth_angle_bits,
            r.spec_azimuth_spacing_bits() == azimuth_spacing_bits,
            r.spec_radial_status() == radial_status,
            r.spec_elevation_number() == elevation_number,
            r.spec_elevation_angle_bits() == elevation_angle_bits,
            r.spec_reflectivity() == reflectivity,
            r.spec_velocity() == velocity,
            r.spec_spectrum_width() == spectrum_width,
            r.spec_differential_reflectivity() == differential_reflectivity,
            r.spec_differential_phase() == differential_phase,
            r.spec_correlation_coefficient() == correlation_coefficient,
            r.spec_clutter_filter_power() == clutter_filter_power,
    {
        Radial {
            collection_timestamp,
            azimuth_number,
            azimuth_angle_bits,
            azimuth_spacing_bits,
            radial_status,
            elevation_number,
            elevation_angle_bits,
            reflectivity,
            velocity,
            spectrum_width,
            differential_reflectivity,
            differential_phase,
            correlation_coefficient,
            clutter_filter_power,
        }
    }

    /// The collection timestamp in milliseconds since the UNIX epoch.
    pub fn collection_timestamp(&self) -> (r: i64)
        ensures
            r == self.spec_collection_timestamp(),
    {
        self.collection_timestamp
    }

    /// The index number of this radial's azimuth in the elevation sweep.
    pub fn azimuth_number(&self) -> (r: u16)
        ensures
            r == self.spec_azimuth_number(),
    {
        self.azimuth_number
    }

    /// Bit pattern of the azimuth angle in degrees.
    pub fn azimuth_angle_bits(&self) -> (r: u32)
        ensures
            r == self.spec_azimuth_angle_bits(),
    {
        self.azimuth_angle_bits
    }

    /// Bit pattern of the azimuthal spacing between radials in degrees.
    pub fn azimuth_spacing_bits(&self) -> (r: u32)
        ensures
            r == self.spec_azimuth_spacing_bits(),
    {
        self.azimuth_spacing_bits
    }

    /// The radial's position in the sequence of radials making up a scan.
    pub fn radial_status(&self) -> (r: RadialStatus)
        ensures
            r == self.spec_radial_status(),
    {
        self.radial_status
    }

    /// The elevation number for this radial in the volume scan.
    pub fn elevation_number(&self) -> (r: u8)
        ensures
            r == self.spec_elevation_number(),
    {
        self.elevation_number
    }

    /// Bit pattern of the elevation angle in degrees.
    pub fn elevation_angle_bits(&self) -> (r: u32)
        ensures
            r == self.spec_elevation_angle_bits(),
    {
        self.elevation_angle_bits
    }

    /// Reflectivity data for this radial if available.
    pub fn reflectivity(&self) -> (r: Option<&MomentData>)
        ensures
            same_option(r, self.spec_reflectivity()),
    {
        self.reflectivity.as_ref()
    }

    /// Velocity data for this radial if available.
    pub fn velocity(&self) -> (r: Option<&MomentData>)
        ensures
            same_option(r, self.spec_velocity()),
    {
        self.velocity.as_ref()
    }

    /// Spectrum width data for this radial if available.
    pub fn spectrum_width(&self) -> (r: Option<&MomentData>)
        ensures
            same_option(r, self.spec_spectrum_width()),
    {
        self.spectrum_width.as_ref()
    }

    /// Differential reflectivity data for this radial if available.
    pub fn differential_reflectivity(&self) -> (r: Option<&MomentData>)
        ensures
            same_option(r, self.spec_differential_reflectivity()),
    {
        self.differential_reflectivity.as_ref()
    }

    /// Differential phase data for this radial if available.
    pub fn differential_phase(&self) -> (r: Option<&MomentData>)
        ensures
            same_option(r, self.spec_differential_phase()),
    {
        self.differential_phase.as_ref()
    }

    /// Correlation coefficient data for this radial if available.
    pub fn correlation_coefficient(&self) -> (r: Option<&MomentData>)
        ensures
            same_option(r, self.spec_correlation_coefficient()),
    {
        self.correlation_coefficient.as_ref()
    }

    /// Clutter filter power (CFP) data for this radial if available.
    pub fn clutter_filter_power(&self) -> (r: Option<&CFPMomentData>)
        ensures
            same_option(r, self.spec_clutter_filter_power()),
    {
        self.clutter_filter_power.as_ref()
    }

    /// Former name of the clutter filter power data.
    pub fn specific_differential_phase(&self) -> (r: Option<&CFPMomentData>)
        ensures
            same_option(r, self.spec_clutter_filter_power()),
    {
        self.clutter_filter_power.as_ref()
    }
}

} // verus!
