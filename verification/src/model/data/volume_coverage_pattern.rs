//! Volume coverage patterns: the scanning strategy of a volume scan.
use vstd::prelude::*;
use vstd::string::StringExecFns;
use crate::model::data::elevation_cut::ElevationCut;
use crate::model::data::pulse_width::PulseWidth;
use crate::model::text::{decimal_text, push_decimal};

verus! {

/// The list of enabled special modes in a pattern summary: each present
/// item is preceded by a comma and a space.
pub open spec fn features_text(sails: bool, sails_cuts: u8, mrle: bool, mrle_cuts: u8, mpda: bool) -> Seq<char> {
    (if sails { ", SAILS("@ + decimal_text(sails_cuts as nat) + ")"@ } else { Seq::empty() })
        + (if mrle { ", MRLE("@ + decimal_text(mrle_cuts as nat) + ")"@ } else { Seq::empty() })
        + (if mpda { ", MPDA"@ } else { Seq::empty() })
}

/// Volume Coverage Pattern (VCP) configuration describing how the radar scans a
/// volume: the elevation cuts and the settings of each, and the special
/// scanning modes (SAILS, MRLE, MPDA).
///
/// The Doppler velocity resolution is kept as an IEEE-754 bit pattern.
#[derive(Debug, Clone, PartialEq, Eq)]
pub struct VolumeCoveragePattern {
    pattern_number: u16,
    version: u8,
    doppler_velocity_resolution_bits: u32,
    pulse_width: PulseWidth,
    sails_enabled: bool,
    sails_cuts: u8,
    mrle_enabled: bool,
    mrle_cuts: u8,
    mpda_enabled: bool,
    base_tilt_enabled: bool,
    base_tilt_count: u8,
    sequence_active: bool,
    truncated: bool,
    elevation_cuts: Vec<ElevationCut>,
}

impl VolumeCoveragePattern {
    /// The volume coverage pattern number (e.g., 12, 31, 35, 212, 215).
    pub closed spec fn spec_pattern_number(self) -> u16 {
        self.pattern_number
    }

    /// The VCP version number.
    pub closed spec fn spec_version(self) -> u8 {
        self.version
    }

    /// Bit pattern of the `f32` Doppler velocity resolution in m/s.
    pub closed spec fn spec_doppler_velocity_resolution_bits(self) -> u32 {
        self.doppler_velocity_resolution_bits
    }

    /// The pulse width configuration.
    pub closed spec fn spec_pulse_width(self) -> PulseWidth {
        self.pulse_width
    }

    /// Whether SAILS (Supplemental Adaptive Intra-volume Low-level Scan) is enabled.
    pub closed spec fn spec_sails_enabled(self) -> bool {
        self.sails_enabled
    }

    /// The number of SAILS cuts in this VCP.
    pub closed spec fn spec_sails_cuts(self) -> u8 {
        self.sails_cuts
    }

    /// Whether MRLE (Mid-volume Rescan of Low Elevation) is enabled.
    pub closed spec fn spec_mrle_enabled(self) -> bool {
        self.mrle_enabled
    }

    /// The number of MRLE cuts in this VCP.
    pub closed spec fn spec_mrle_cuts(self) -> u8 {
        self.mrle_cuts
    }

    /// Whether MPDA (Multiple PRF Dealiasing Algorithm) is enabled.
    pub closed spec fn spec_mpda_enabled(self) -> bool {
        self.mpda_enabled
    }

    /// Whether base tilt scanning is enabled.
    pub closed spec fn spec_base_tilt_enabled(self) -> bool {
        self.base_tilt_enabled
    }

    /// The number of base tilts in this VCP.
    pub closed spec fn spec_base_tilt_count(self) -> u8 {
        self.base_tilt_count
    }

    /// Whether the VCP sequence is currently active.
    pub closed spec fn spec_sequence_active(self) -> bool {
        self.sequence_active
    }

    /// Whether the VCP was truncated.
    pub closed spec fn spec_truncated(self) -> bool {
        self.truncated
    }

    /// The elevation cuts comprising this volume coverage pattern.
    pub closed spec fn spec_elevation_cuts(self) -> Seq<ElevationCut> {
        self.elevation_cuts@
    }

    /// Creates a new value with the given fields.
    pub fn new(
        pattern_number: u16,
        version: u8,
        doppler_velocity_resolution_bits: u32,
        pulse_width: PulseWidth,
        sails_enabled: bool,
        sails_cuts: u8,
        mrle_enabled: bool,
        mrle_cuts: u8,
        mpda_enabled: bool,
        base_tilt_enabled: bool,
        base_tilt_count: u8,
        sequence_active: bool,
        truncated: bool,
        elevation_cuts: Vec<ElevationCut>,
    ) -> (r: Self)
        ensures
            r.spec_pattern_number() == pattern_number,
            r.spec_version() == version,
            r.spec_doppler_velocity_resolution_bits() == doppler_velocity_resolution_bits,
            r.spec_pulse_width() == pulse_width,
            r.spec_sails_enabled() == sails_enabled,
            r.spec_sails_cuts() == sails_cuts,
            r.spec_mrle_enabled() == mrle_enabled,
            r.spec_mrle_cuts() == mrle_cuts,
            r.spec_mpda_enabled() == mpda_enabled,
            r.spec_base_tilt_enabled() == base_tilt_enabled,
            r.spec_base_tilt_count() == base_tilt_count,
            r.spec_sequence_active() == sequence_active,
            r.spec_truncated() == truncated,
            r.spec_elevation_cuts() == elevation_cuts@,
    {
        VolumeCoveragePattern {
            pattern_number,
            version,
            doppler_velocity_resolution_bits,
            pulse_width,
            sails_enabled,
            sails_cuts,
            mrle_enabled,
            mrle_cuts,
            mpda_enabled,
            base_tilt_enabled,
            base_tilt_count,
            sequence_active,
            truncated,
            elevation_cuts,
        }
    }

    /// The volume coverage pattern number (e.g., 12, 31, 35, 212, 215).
    pub fn pattern_number(&self) -> (r: u16)
        ensures
            r == self.spec_pattern_number(),
    {
        self.pattern_number
    }

    /// The VCP version number.
    pub fn version(&self) -> (r: u8)
        ensures
            r == self.spec_version(),
    {
        self.version
    }

    /// Bit pattern of the `f32` Doppler velocity resolution in m/s.
    pub fn doppler_velocity_resolution_bits(&self) -> (r: u32)
        ensures
            r == self.spec_doppler_velocity_resolution_bits(),
    {
        self.doppler_velocity_resolution_bits
    }

    /// The pulse width configuration.
    pub fn pulse_width(&self) -> (r: PulseWidth)
        ensures
            r == self.spec_pulse_width(),
    {
        self.pulse_width
    }

    /// Whether SAILS (Supplemental Adaptive Intra-volume Low-level Scan) is enabled.
    pub fn sails_enabled(&self) -> (r: bool)
        ensures
            r == self.spec_sails_enabled(),
    {
        self.sails_enabled
    }

    /// The number of SAILS cuts in this VCP.
    pub fn sails_cuts(&self) -> (r: u8)
        ensures
            r == self.spec_sails_cuts(),
    {
        self.sails_cuts
    }

    /// Whether MRLE (Mid-volume Rescan of Low Elevation) is enabled.
    pub fn mrle_enabled(&self) -> (r: bool)
        ensures
            r == self.spec_mrle_enabled(),
    {
        self.mrle_enabled
    }

    /// The number of MRLE cuts in this VCP.
    pub fn mrle_cuts(&self) -> (r: u8)
        ensures
            r == self.spec_mrle_cuts(),
    {
        self.mrle_cuts
    }

    /// Whether MPDA (Multiple PRF Dealiasing Algorithm) is enabled.
    pub fn mpda_enabled(&self) -> (r: bool)
        ensures
            r == self.spec_mpda_enabled(),
    {
        self.mpda_enabled
    }

    /// Whether base tilt scanning is enabled.
    pub fn base_tilt_enabled(&self) -> (r: bool)
        ensures
            r == self.spec_base_tilt_enabled(),
    {
        self.base_tilt_enabled
    }

    /// The number of base tilts in this VCP.
    pub fn base_tilt_count(&self) -> (r: u8)
        ensures
            r == self.spec_base_tilt_count(),
    {
        self.base_tilt_count
    }

    /// Whether the VCP sequence is currently active.
    pub fn sequence_active(&self) -> (r: bool)
        ensures
            r == self.spec_sequence_active(),
    {
        self.sequence_active
    }

    /// Whether the VCP was truncated.
    pub fn truncated(&self) -> (r: bool)
        ensures
            r == self.spec_truncated(),
    {
        self.truncated
    }

    /// The elevation cuts comprising this volume coverage pattern.
    pub fn elevation_cuts(&self) -> (r: &[ElevationCut])
        ensures
            r@ == self.spec_elevation_cuts(),
    {
        self.elevation_cuts.as_slice()
    }

    /// The number of elevation cuts in this VCP.
    pub fn number_of_elevation_cuts(&self) -> (r: usize)
        ensures
            r == self.spec_elevation_cuts().len(),
    {
        self.elevation_cuts.len()
    }

    /// The one-line summary of the pattern: number, version, cut count and
    /// the special scanning modes that are enabled.
    pub open spec fn summary_text(self) -> Seq<char> {
        let head = "VCP "@ + decimal_text(self.spec_pattern_number() as nat) + " (v"@
            + decimal_text(self.spec_version() as nat) + ", "@
            + decimal_text(self.spec_elevation_cuts().len()) + " cuts"@;
        head + features_text(self.spec_sails_enabled(), self.spec_sails_cuts(),
            self.spec_mrle_enabled(), self.spec_mrle_cuts(), self.spec_mpda_enabled()) + ")"@
    }

    /// The one-line summary of the pattern, as `summary_text` describes it.
    pub fn to_summary_string(&self) -> (r: String)
        ensures
            r@ == self.summary_text(),
    {
        let mut s = String::from_str("VCP ");
        push_decimal(&mut s, self.pattern_number as u64);
        s.append(" (v");
        push_decimal(&mut s, self.version as u64);
        s.append(", ");
        push_decimal(&mut s, self.elevation_cuts.len() as u64);
        s.append(" cuts");
        if self.sails_enabled {
            s.append(", SAILS(");
            push_decimal(&mut s, self.sails_cuts as u64);
            s.append(")");
        }
        if self.mrle_enabled {
            s.append(", MRLE(");
            push_decimal(&mut s, self.mrle_cuts as u64);
            s.append(")");
        }
        if self.mpda_enabled {
            s.append(", MPDA");
        }
        s.append(")");
        s
    }
}

} // verus!
