//! Volume scans: the sweeps of one pass of a volume coverage pattern.
use vstd::prelude::*;
use vstd::string::StringExecFns;
use crate::model::data::sweep::Sweep;
use crate::model::data::volume_coverage_pattern::VolumeCoveragePattern;
use crate::model::text::{decimal_text, push_decimal};

verus! {

/// A single radar scan: the sweeps at the different elevations of one volume,
/// with the volume coverage pattern that determined them.
#[derive(Debug, Clone, PartialEq, Eq)]
pub struct Scan {
    coverage_pattern: VolumeCoveragePattern,
    sweeps: Vec<Sweep>,
}

impl Scan {
    /// The volume coverage pattern of the scan.
    pub closed spec fn spec_coverage_pattern(self) -> VolumeCoveragePattern {
        self.coverage_pattern
    }

    /// The sweeps of the scan.
    pub closed spec fn spec_sweeps(self) -> Seq<Sweep> {
        self.sweeps@
    }

    /// Creates a scan with the given volume coverage pattern and sweeps.
    pub fn new(coverage_pattern: VolumeCoveragePattern, sweeps: Vec<Sweep>) -> (r: Self)
        ensures
            r.spec_coverage_pattern() == coverage_pattern,
            r.spec_sweeps() == sweeps@,
    {
        Scan { coverage_pattern, sweeps }
    }

    /// This scan's volume coverage pattern number.
    pub fn coverage_pattern_number(&self) -> (r: u16)
        ensures
            r == self.spec_coverage_pattern().spec_pattern_number(),
    {
        self.coverage_pattern.pattern_number()
    }

    /// The volume coverage pattern configuration for this scan.
    pub fn coverage_pattern(&self) -> (r: &VolumeCoveragePattern)
        ensures
            *r == self.spec_coverage_pattern(),
    {
        &self.coverage_pattern
    }

    /// The elevation sweeps comprising this scan.
    pub fn sweeps(&self) -> (r: &[Sweep])
        ensures
            r@ == self.spec_sweeps(),
    {
        self.sweeps.as_slice()
    }

    /// The one-line summary of the scan: its pattern number and sweep count.
    pub open spec fn summary_text(self) -> Seq<char> {
        "Scan (VCP "@ + decimal_text(self.spec_coverage_pattern().spec_pattern_number() as nat)
            + ", "@ + decimal_text(self.spec_sweeps().len()) + " sweeps)"@
    }

    /// The one-line summary of the scan, as `summary_text` describes it.
    pub fn to_summary_string(&self) -> (r: String)
        ensures
            r@ == self.summary_text(),
    {
        let mut s = String::from_str("Scan (VCP ");
        push_decimal(&mut s, self.coverage_pattern.pattern_number() as u64);
        s.append(", ");
        push_decimal(&mut s, self.sweeps.len() as u64);
        s.append(" sweeps)");
        s
    }
}

} // verus!
