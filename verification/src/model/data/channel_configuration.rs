use vstd::prelude::*;

verus! {

/// Channel configuration (phase coding) for an elevation cut.
#[derive(Debug, Clone, Copy, PartialEq, Eq, Structural, Hash)]
pub enum ChannelConfiguration {
    /// Constant phase.
    ConstantPhase,
    /// Random phase.
    RandomPhase,
    /// SZ2 phase coding.
    SZ2Phase,
    /// Unknown phase configuration.
    Unknown,
}

impl ChannelConfiguration {
    /// The text shown for each configuration.
    pub open spec fn display_text(self) -> Seq<char> {
        match self {
            ChannelConfiguration::ConstantPhase => "Constant Phase"@,
            ChannelConfiguration::RandomPhase => "Random Phase"@,
            ChannelConfiguration::SZ2Phase => "SZ2 Phase"@,
            ChannelConfiguration::Unknown => "Unknown"@,
        }
    }

    /// The human-readable name of the configuration.
    pub fn display_name(&self) -> (r: &'static str)
        ensures
            r@ == self.display_text(),
    {
        match self {
            ChannelConfiguration::ConstantPhase => "Constant Phase",
            ChannelConfiguration::RandomPhase => "Random Phase",
            ChannelConfiguration::SZ2Phase => "SZ2 Phase",
            ChannelConfiguration::Unknown => "Unknown",
        }
    }
}

} // verus!
