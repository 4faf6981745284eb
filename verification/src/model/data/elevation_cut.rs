//! Per-elevation settings of a volume coverage pattern.
use vstd::prelude::*;
use crate::model::data::channel_configuration::ChannelConfiguration;
use crate::model::data::waveform_type::WaveformType;

verus! {

/// Configuration for a single elevation cut in a volume coverage pattern: the
/// radar settings used when scanning at one elevation angle.
///
/// Floating-point settings are kept as IEEE-754 bit patterns.
#[derive(Debug, Clone, Copy, PartialEq, Eq)]
pub struct ElevationCut {
    elevation_angle_bits: u64,
    channel_configuration: ChannelConfiguration,
    waveform_type: WaveformType,
    azimuth_rate_bits: u64,
    super_resolution_half_degree_azimuth: bool,
    super_resolution_quarter_km_reflectivity: bool,
    super_resolution_doppler_to_300km: bool,
    super_resolution_dual_pol_to_300km: bool,
    surveillance_prf_number: u8,
    surveillance_prf_pulse_count: u16,
    reflectivity_threshold_bits: u32,
    velocity_threshold_bits: u32,
    spectrum_width_threshold_bits: u32,
    differential_reflectivity_threshold_bits: u32,
    differential_phase_threshold_bits: u32,
    correlation_coefficient_threshold_bits: u32,
    is_sails_cut: bool,
    sails_sequence_number: u8,
    is_mrle_cut: bool,
    mrle_sequence_number: u8,
    is_mpda_cut: bool,
    is_base_tilt_cut: bool,
}

impl ElevationCut {
    /// Bit pattern of the `f64` elevation angle of this cut in degrees.
    pub closed spec fn spec_elevation_angle_bits(self) -> u64 {
        self.elevation_angle_bits
    }

    /// The channel configuration (phase coding) for this cut.
    pub closed spec fn spec_channel_configuration(self) -> ChannelConfiguration {
        self.channel_configuration
    }

    /// The waveform type used for this cut.
    pub closed spec fn spec_waveform_type(self) -> WaveformType {
        self.waveform_type
    }

    /// Bit pattern of the `f64` azimuth rotation rate in degrees per second.
    pub closed spec fn spec_azimuth_rate_bits(self) -> u64 {
        self.azimuth_rate_bits
    }

    /// Whether 0.5 degree azimuth super resolution is enabled.
    pub closed spec fn spec_super_resolution_half_degree_azimuth(self) -> bool {
        self.super_resolution_half_degree_azimuth
    }

    /// Whether 1/4 km reflectivity super resolution is enabled.
    pub closed spec fn spec_super_resolution_quarter_km_reflectivity(self) -> bool {
        self.super_resolution_quarter_km_reflectivity
    }

    /// Whether Doppler to 300 km super resolution is enabled.
    pub closed spec fn spec_super_resolution_doppler_to_300km(self) -> bool {
        self.super_resolution_doppler_to_300km
    }

    /// Whether dual polarization to 300 km super resolution is enabled.
    pub closed spec fn spec_super_resolution_dual_pol_to_300km(self) -> bool {
        self.super_resolution_dual_pol_to_300km
    }

    /// The pulse repetition frequency number for surveillance cuts.
    pub closed spec fn spec_surveillance_prf_number(self) -> u8 {
        self.surveillance_prf_number
    }

    /// The pulse count per radial for surveillance cuts.
    pub closed spec fn spec_surveillance_prf_pulse_count(self) -> u16 {
        self.surveillance_prf_pulse_count
    }

    /// Bit pattern of the `f32` reflectivity signal to noise threshold in dB.
    pub closed spec fn spec_reflectivity_threshold_bits(self) -> u32 {
        self.reflectivity_threshold_bits
    }

    /// Bit pattern of the `f32` velocity signal to noise threshold in dB.
    pub closed spec fn spec_velocity_threshold_bits(self) -> u32 {
        self.velocity_threshold_bits
    }

    /// Bit pattern of the `f32` spectrum width signal to noise threshold in dB.
    pub closed spec fn spec_spectrum_width_threshold_bits(self) -> u32 {
        self.spectrum_width_threshold_bits
    }

    /// Bit pattern of the `f32` differential reflectivity signal to noise threshold in dB.
    pub closed spec fn spec_differential_reflectivity_threshold_bits(self) -> u32 {
        self.differential_reflectivity_threshold_bits
    }

    /// Bit pattern of the `f32` differential phase signal to noise threshold in dB.
    pub closed spec fn spec_differential_phase_threshold_bits(self) -> u32 {
        self.differential_phase_threshold_bits
    }

    /// Bit pattern of the `f32` correlation coefficient signal to noise threshold in dB.
    pub closed spec fn spec_correlation_coefficient_threshold_bits(self) -> u32 {
        self.correlation_coefficient_threshold_bits
    }

    /// Whether this is a SAILS (Supplemental Adaptive Intra-volume Low-level Scan) cut.
    pub closed spec fn spec_is_sails_cut(self) -> bool {
        self.is_sails_cut
    }

    /// The SAILS sequence number for this cut.
    pub closed spec fn spec_sails_sequence_number(self) -> u8 {
        self.sails_sequence_number
    }

    /// Whether this is an MRLE (Mid-volume Rescan of Low Elevation) cut.
    pub closed spec fn spec_is_mrle_cut(self) -> bool {
        self.is_mrle_cut
    }

    /// The MRLE sequence number for this cut.
    pub closed spec fn spec_mrle_sequence_number(self) -> u8 {
        self.mrle_sequence_number
    }

    /// Whether this is an MPDA (Multiple PRF Dealiasing Algorithm) cut.
    pub closed spec fn spec_is_mpda_cut(self) -> bool {
        self.is_mpda_cut
    }

    /// Whether this is a base tilt cut.
    pub closed spec fn spec_is_base_tilt_cut(self) -> bool {
        self.is_base_tilt_cut
    }

    /// Creates a new value with the given fields.
    pub fn new(
        elevation_angle_bits: u64,
        channel_configuration: ChannelConfiguration,
        waveform_type: WaveformType,
        azimuth_rate_bits: u64,
        super_resolution_half_degree_azimuth: bool,
        super_resolution_quarter_km_reflectivity: bool,
        super_resolution_doppler_to_300km: bool,
        super_resolution_dual_pol_to_300km: bool,
        surveillance_prf_number: u8,
        surveillance_prf_pulse_count: u16,
        reflectivity_threshold_bits: u32,
        velocity_threshold_bits: u32,
        spectrum_width_threshold_bits: u32,
        differential_reflectivity_threshold_bits: u32,
        differential_phase_threshold_bits: u32,
        correlation_coefficient_threshold_bits: u32,
        is_sails_cut: bool,
        sails_sequence_number: u8,
        is_mrle_cut: bool,
        mrle_sequence_number: u8,
        is_mpda_cut: bool,
        is_base_tilt_cut: bool,
    ) -> (r: Self)
        ensures
            r.spec_elevation_angle_bits() == elevation_angle_bits,
            r.spec_channel_configuration() == channel_configuration,
            r.spec_waveform_type() == waveform_type,
            r.spec_azimuth_rate_bits() == azimuth_rate_bits,
            r.spec_super_resolution_half_degree_azimuth() == super_resolution_half_degree_azimuth,
            r.spec_super_resolution_quarter_km_reflectivity() == super_resolution_quarter_km_reflectivity,
            r.spec_super_resolution_doppler_to_300km() == super_resolution_doppler_to_300km,
            r.spec_super_resolution_dual_pol_to_300km() == super_resolution_dual_pol_to_300km,
            r.spec_surveillance_prf_number() == surveillance_prf_number,
            r.spec_surveillance_prf_pulse_count() == surveillance_prf_pulse_count,
            r.spec_reflectivity_threshold_bits() == reflectivity_threshold_bits,
            r.spec_velocity_threshold_bits() == velocity_threshold_bits,
            r.spec_spectrum_width_threshold_bits() == spectrum_width_threshold_bits,
            r.spec_differential_reflectivity_threshold_bits() == differential_reflectivity_threshold_bits,
            r.spec_differential_phase_threshold_bits() == differential_phase_threshold_bits,
            r.spec_correlation_coefficient_threshold_bits() == correlation_coefficient_threshold_bits,
            r.spec_is_sails_cut() == is_sails_cut,
            r.spec_sails_sequence_number() == sails_sequence_number,
            r.spec_is_mrle_cut() == is_mrle_cut,
            r.spec_mrle_sequence_number() == mrle_sequence_number,
            r.spec_is_mpda_cut() == is_mpda_cut,
            r.spec_is_base_tilt_cut() == is_base_tilt_cut,
    {
        ElevationCut {
            elevation_angle_bits,
            channel_configuration,
            waveform_type,
            azimuth_rate_bits,
            super_resolution_half_degree_azimuth,
            super_resolution_quarter_km_reflectivity,
            super_resolution_doppler_to_300km,
            super_resolution_dual_pol_to_300km,
            surveillance_prf_number,
            surveillance_prf_pulse_count,
            reflectivity_threshold_bits,
            velocity_threshold_bits,
            spectrum_width_threshold_bits,
            differential_reflectivity_threshold_bits,
            differential_phase_threshold_bits,
            correlation_coefficient_threshold_bits,
            is_sails_cut,
            sails_sequence_number,
            is_mrle_cut,
            mrle_sequence_number,
            is_mpda_cut,
            is_base_tilt_cut,
        }
    }

    /// Bit pattern of the `f64` elevation angle of this cut in degrees.
    pub fn elevation_angle_bits(&self) -> (r: u64)
        ensures
            r == self.spec_elevation_angle_bits(),
    {
        self.elevation_angle_bits
    }

    /// The channel configuration (phase coding) for this cut.
    pub fn channel_configuration(&self) -> (r: ChannelConfiguration)
        ensures
            r == self.spec_channel_configuration(),
    {
        self.channel_configuration
    }

    /// The waveform type used for this cut.
    pub fn waveform_type(&self) -> (r: WaveformType)
        ensures
            r == self.spec_waveform_type(),
    {
        self.waveform_type
    }

    /// Bit pattern of the `f64` azimuth rotation rate in degrees per second.
    pub fn azimuth_rate_bits(&self) -> (r: u64)
        ensures
            r == self.spec_azimuth_rate_bits(),
    {
        self.azimuth_rate_bits
    }

    /// Whether 0.5 degree azimuth super resolution is enabled.
    pub fn super_resolution_half_degree_azimuth(&self) -> (r: bool)
        ensures
            r == self.spec_super_resolution_half_degree_azimuth(),
    {
        self.super_resolution_half_degree_azimuth
    }

    /// Whether 1/4 km reflectivity super resolution is enabled.
    pub fn super_resolution_quarter_km_reflectivity(&self) -> (r: bool)
        ensures
            r == self.spec_super_resolution_quarter_km_reflectivity(),
    {
        self.super_resolution_quarter_km_reflectivity
    }

    /// Whether Doppler to 300 km super resolution is enabled.
    pub fn super_resolution_doppler_to_300km(&self) -> (r: bool)
        ensures
            r == self.spec_super_resolution_doppler_to_300km(),
    {
        self.super_resolution_doppler_to_300km
    }

    /// Whether dual polarization to 300 km super resolution is enabled.
    pub fn super_resolution_dual_pol_to_300km(&self) -> (r: bool)
        ensures
            r == self.spec_super_resolution_dual_pol_to_300km(),
    {
        self.super_resolution_dual_pol_to_300km
    }

    /// The pulse repetition frequency number for surveillance cuts.
    pub fn surveillance_prf_number(&self) -> (r: u8)
        ensures
            r == self.spec_surveillance_prf_number(),
    {
        self.surveillance_prf_number
    }

    /// The pulse count per radial for surveillance cuts.
    pub fn surveillance_prf_pulse_count(&self) -> (r: u16)
        ensures
            r == self.spec_surveillance_prf_pulse_count(),
    {
        self.surveillance_prf_pulse_count
    }

    /// Bit pattern of the `f32` reflectivity signal to noise threshold in dB.
    pub fn reflectivity_threshold_bits(&self) -> (r: u32)
        ensures
            r == self.spec_reflectivity_threshold_bits(),
    {
        self.reflectivity_threshold_bits
    }

    /// Bit pattern of the `f32` velocity signal to noise threshold in dB.
    pub fn velocity_threshold_bits(&self) -> (r: u32)
        ensures
            r == self.spec_velocity_threshold_bits(),
    {
        self.velocity_threshold_bits
    }

    /// Bit pattern of the `f32` spectrum width signal to noise threshold in dB.
    pub fn spectrum_width_threshold_bits(&self) -> (r: u32)
        ensures
            r == self.spec_spectrum_width_threshold_bits(),
    {
        self.spectrum_width_threshold_bits
    }

    /// Bit pattern of the `f32` differential reflectivity signal to noise threshold in dB.
    pub fn differential_reflectivity_threshold_bits(&self) -> (r: u32)
        ensures
            r == self.spec_differential_reflectivity_threshold_bits(),
    {
        self.differential_reflectivity_threshold_bits
    }

    /// Bit pattern of the `f32` differential phase signal to noise threshold in dB.
    pub fn differential_phase_threshold_bits(&self) -> (r: u32)
        ensures
            r == self.spec_differential_phase_threshold_bits(),
    {
        self.differential_phase_threshold_bits
    }

    /// Bit pattern of the `f32` correlation coefficient signal to noise threshold in dB.
    pub fn correlation_coefficient_threshold_bits(&self) -> (r: u32)
        ensures
            r == self.spec_correlation_coefficient_threshold_bits(),
    {
        self.correlation_coefficient_threshold_bits
    }

    /// Whether this is a SAILS (Supplemental Adaptive Intra-volume Low-level Scan) cut.
    pub fn is_sails_cut(&self) -> (r: bool)
        ensures
            r == self.spec_is_sails_cut(),
    {
        self.is_sails_cut
    }

    /// The SAILS sequence number for this cut.
    pub fn sails_sequence_number(&self) -> (r: u8)
        ensures
            r == self.spec_sails_sequence_number(),
    {
        self.sails_sequence_number
    }

    /// Whether this is an MRLE (Mid-volume Rescan of Low Elevation) cut.
    pub fn is_mrle_cut(&self) -> (r: bool)
        ensures
            r == self.spec_is_mrle_cut(),
    {
        self.is_mrle_cut
    }

    /// The MRLE sequence number for this cut.
    pub fn mrle_sequence_number(&self) -> (r: u8)
        ensures
            r == self.spec_mrle_sequence_number(),
    {
        self.mrle_sequence_number
    }

    /// Whether this is an MPDA (Multiple PRF Dealiasing Algorithm) cut.
    pub fn is_mpda_cut(&self) -> (r: bool)
        ensures
            r == self.spec_is_mpda_cut(),
    {
        self.is_mpda_cut
    }

    /// Whether this is a base tilt cut.
    pub fn is_base_tilt_cut(&self) -> (r: bool)
        ensures
            r == self.spec_is_base_tilt_cut(),
    {
        self.is_base_tilt_cut
    }
}

} // verus!
