use vstd::prelude::*;
use vstd::string::StringExecFns;
use crate::model::text::{decimal_text, push_decimal};

verus! {

/// Volume Coverage Pattern (VCP) number identifying the radar's scanning strategy.
///
/// Known patterns have their own variant; any other pattern number is kept in
/// `Unknown` so that it survives a round trip through the raw number.
#[derive(Debug, Clone, Copy, PartialEq, Eq, Structural, Hash)]
pub enum VCPNumber {
    /// VCP 12: precipitation mode, fast update.
    Precipitation12,
    /// VCP 31: clear air mode, long pulse.
    ClearAirLongPulse31,
    /// VCP 32: clear air mode, short pulse.
    ClearAirShortPulse32,
    /// VCP 35: clear air mode with SZ-2.
    ClearAir35,
    /// VCP 112: precipitation mode with MPDA and SZ-2.
    PrecipitationMpda112,
    /// VCP 212: precipitation mode with SZ-2.
    PrecipitationSz2_212,
    /// VCP 215: general surveillance with SZ-2.
    GeneralSurveillance215,
    /// An unrecognized VCP number.
    Unknown(u16),
}

/// Whether `n` is one of the pattern numbers that has a variant of its own.
pub open spec fn is_known_pattern(n: u16) -> bool {
    n == 12 || n == 31 || n == 32 || n == 35 || n == 112 || n == 212 || n == 215
}

/// The variant that a raw pattern number denotes.
pub open spec fn vcp_from_number(n: u16) -> VCPNumber {
    if n == 12 {
        VCPNumber::Precipitation12
    } else if n == 31 {
        VCPNumber::ClearAirLongPulse31
    } else if n == 32 {
        VCPNumber::ClearAirShortPulse32
    } else if n == 35 {
        VCPNumber::ClearAir35
    } else if n == 112 {
        VCPNumber::PrecipitationMpda112
    } else if n == 212 {
        VCPNumber::PrecipitationSz2_212
    } else if n == 215 {
        VCPNumber::GeneralSurveillance215
    } else {
        VCPNumber::Unknown(n)
    }
}

impl VCPNumber {
    /// The raw pattern number of a VCP.
    pub open spec fn pattern(self) -> u16 {
        match self {
            VCPNumber::Precipitation12 => 12,
            VCPNumber::ClearAirLongPulse31 => 31,
            VCPNumber::ClearAirShortPulse32 => 32,
            VCPNumber::ClearAir35 => 35,
            VCPNumber::PrecipitationMpda112 => 112,
            VCPNumber::PrecipitationSz2_212 => 212,
            VCPNumber::GeneralSurveillance215 => 215,
            VCPNumber::Unknown(n) => n,
        }
    }

    /// A value is canonical when it is what `from_number` gives for its own
    /// number, i.e. it is not `Unknown` of a known pattern number.
    pub open spec fn is_canonical(self) -> bool {
        match self {
            VCPNumber::Unknown(n) => !is_known_pattern(n),
            _ => true,
        }
    }

    /// The description text of each pattern.
    pub open spec fn description_text(self) -> Seq<char> {
        match self {
            VCPNumber::Precipitation12 => "Precipitation, fast update"@,
            VCPNumber::ClearAirLongPulse31 => "Clear air, long pulse"@,
            VCPNumber::ClearAirShortPulse32 => "Clear air, short pulse"@,
            VCPNumber::ClearAir35 => "Clear air, SZ-2"@,
            VCPNumber::PrecipitationMpda112 => "Precipitation, MPDA + SZ-2"@,
            VCPNumber::PrecipitationSz2_212 => "Precipitation, SZ-2"@,
            VCPNumber::GeneralSurveillance215 => "General surveillance, SZ-2"@,
            VCPNumber::Unknown(_) => "Unknown"@,
        }
    }

    /// Creates a `VCPNumber` from a raw `u16` pattern number.
    pub fn from_number(number: u16) -> (r: Self)
        ensures
            r == vcp_from_number(number),
    {
        match number {
            12 => VCPNumber::Precipitation12,
            31 => VCPNumber::ClearAirLongPulse31,
            32 => VCPNumber::ClearAirShortPulse32,
            35 => VCPNumber::ClearAir35,
            112 => VCPNumber::PrecipitationMpda112,
            212 => VCPNumber::PrecipitationSz2_212,
            215 => VCPNumber::GeneralSurveillance215,
            other => VCPNumber::Unknown(other),
        }
    }

    /// Returns the raw `u16` pattern number.
    pub fn number(&self) -> (r: u16)
        ensures
            r == self.pattern(),
    {
        match self {
            VCPNumber::Precipitation12 => 12,
            VCPNumber::ClearAirLongPulse31 => 31,
            VCPNumber::ClearAirShortPulse32 => 32,
            VCPNumber::ClearAir35 => 35,
            VCPNumber::PrecipitationMpda112 => 112,
            VCPNumber::PrecipitationSz2_212 => 212,
            VCPNumber::GeneralSurveillance215 => 215,
            VCPNumber::Unknown(n) => *n,
        }
    }

    /// A human-readable description of the scan strategy.
    pub fn description(&self) -> (r: &'static str)
        ensures
            r@ == self.description_text(),
    {
        match self {
            VCPNumber::Precipitation12 => "Precipitation, fast update",
            VCPNumber::ClearAirLongPulse31 => "Clear air, long pulse",
            VCPNumber::ClearAirShortPulse32 => "Clear air, short pulse",
            VCPNumber::ClearAir35 => "Clear air, SZ-2",
            VCPNumber::PrecipitationMpda112 => "Precipitation, MPDA + SZ-2",
            VCPNumber::PrecipitationSz2_212 => "Precipitation, SZ-2",
            VCPNumber::GeneralSurveillance215 => "General surveillance, SZ-2",
            VCPNumber::Unknown(_) => "Unknown",
        }
    }

    /// The label of a pattern: `VCP n` for an unknown number, and
    /// `VCP n (description)` for a known one.
    pub open spec fn label_text(self) -> Seq<char> {
        match self {
            VCPNumber::Unknown(n) => "VCP "@ + decimal_text(n as nat),
            _ => "VCP "@ + decimal_text(self.pattern() as nat) + " ("@ + self.description_text()
                + ")"@,
        }
    }

    /// The label of the pattern, as `label_text` describes it.
    pub fn to_label_string(&self) -> (r: String)
        ensures
            r@ == self.label_text(),
    {
        let mut s = String::from_str("VCP ");
        push_decimal(&mut s, self.number() as u64);
        match self {
            VCPNumber::Unknown(_) => {},
            _ => {
                s.append(" (");
                s.append(self.description());
                s.append(")");
            },
        }
        s
    }
}

impl From<u16> for VCPNumber {
    fn from(number: u16) -> (r: Self) {
        VCPNumber::from_number(number)
    }
}

impl vstd::std_specs::convert::FromSpecImpl<u16> for VCPNumber {
    open spec fn obeys_from_spec() -> bool {
        true
    }

    open spec fn from_spec(number: u16) -> Self {
        vcp_from_number(number)
    }
}

impl From<VCPNumber> for u16 {
    fn from(vcp: VCPNumber) -> (r: Self) {
        vcp.number()
    }
}

impl vstd::std_specs::convert::FromSpecImpl<VCPNumber> for u16 {
    open spec fn obeys_from_spec() -> bool {
        true
    }

    open spec fn from_spec(vcp: VCPNumber) -> Self {
        vcp.pattern()
    }
}

/// Reading a pattern number back from the variant built from it gives the
/// same number, for every `u16`.
pub proof fn lemma_vcp_number_round_trip(n: u16)
    ensures
        vcp_from_number(n).pattern() == n,
        vcp_from_number(n).is_canonical(),
{
}

/// Building a variant from the number of a canonical variant gives that
/// variant back.
pub proof fn lemma_vcp_variant_round_trip(v: VCPNumber)
    requires
        v.is_canonical(),
    ensures
        vcp_from_number(v.pattern()) == v,
{
}

/// Two canonical variants with the same pattern number are the same variant.
pub proof fn lemma_vcp_number_injective(a: VCPNumber, b: VCPNumber)
    requires
        a.is_canonical(),
        b.is_canonical(),
        a.pattern() == b.pattern(),
    ensures
        a == b,
{
    lemma_vcp_variant_round_trip(a);
    lemma_vcp_variant_round_trip(b);
}

} // verus!
