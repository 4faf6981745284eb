use vstd::prelude::*;

verus! {

/// Radar waveform type used for an elevation cut.
#[derive(Debug, Clone, Copy, PartialEq, Eq, Structural, Hash)]
pub enum WaveformType {
    /// Contiguous Surveillance.
    CS,
    /// Contiguous Doppler with Ambiguity Resolution.
    CDW,
    /// Contiguous Doppler without Ambiguity Resolution.
    CDWO,
    /// Batch.
    B,
    /// Staggered Pulse Pair.
    SPP,
    /// Unknown waveform type.
    Unknown,
}

impl WaveformType {
    /// The long name of each waveform type.
    pub open spec fn display_text(self) -> Seq<char> {
        match self {
            WaveformType::CS => "Contiguous Surveillance"@,
            WaveformType::CDW => "Contiguous Doppler w/ Ambiguity Resolution"@,
            WaveformType::CDWO => "Contiguous Doppler w/o Ambiguity Resolution"@,
            WaveformType::B => "Batch"@,
            WaveformType::SPP => "Staggered Pulse Pair"@,
            WaveformType::Unknown => "Unknown"@,
        }
    }

    /// The abbreviation of each waveform type.
    pub open spec fn code_text(self) -> Seq<char> {
        match self {
            WaveformType::CS => "CS"@,
            WaveformType::CDW => "CDW"@,
            WaveformType::CDWO => "CDWO"@,
            WaveformType::B => "B"@,
            WaveformType::SPP => "SPP"@,
            WaveformType::Unknown => "Unknown"@,
        }
    }

    /// The human-readable name of the waveform type.
    pub fn display_name(&self) -> (r: &'static str)
        ensures
            r@ == self.display_text(),
    {
        match self {
            WaveformType::CS => "Contiguous Surveillance",
            WaveformType::CDW => "Contiguous Doppler w/ Ambiguity Resolution",
            WaveformType::CDWO => "Contiguous Doppler w/o Ambiguity Resolution",
            WaveformType::B => "Batch",
            WaveformType::SPP => "Staggered Pulse Pair",
            WaveformType::Unknown => "Unknown",
        }
    }

    /// The abbreviation of the waveform type, as shown in debug output.
    pub fn code(&self) -> (r: &'static str)
        ensures
            r@ == self.code_text(),
    {
        match self {
            WaveformType::CS => "CS",
            WaveformType::CDW => "CDW",
            WaveformType::CDWO => "CDWO",
            WaveformType::B => "B",
            WaveformType::SPP => "SPP",
            WaveformType::Unknown => "Unknown",
        }
    }
}

} // verus!
