use vstd::prelude::*;

verus! {

/// Radar pulse width configuration.
#[derive(Debug, Clone, Copy, PartialEq, Eq, Structural, Hash)]
pub enum PulseWidth {
    /// Short pulse width.
    Short,
    /// Long pulse width.
    Long,
    /// Unknown pulse width value.
    Unknown,
}

impl PulseWidth {
    /// The text shown for each pulse width (both as display and as debug text).
    pub open spec fn display_text(self) -> Seq<char> {
        match self {
            PulseWidth::Short => "Short"@,
            PulseWidth::Long => "Long"@,
            PulseWidth::Unknown => "Unknown"@,
        }
    }

    /// The human-readable name of the pulse width.
    pub fn display_name(&self) -> (r: &'static str)
        ensures
            r@ == self.display_text(),
    {
        match self {
            PulseWidth::Short => "Short",
            PulseWidth::Long => "Long",
            PulseWidth::Unknown => "Unknown",
        }
    }
}

} // verus!
