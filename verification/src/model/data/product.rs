//! Radar data products (moment types).
use vstd::prelude::*;
use crate::model::data::moment::{CFPMomentData, MomentData};
use crate::model::data::radial::{same_option, Radial};

verus! {

/// Identifies a radar data product (moment type).
#[derive(Debug, Copy, Clone, PartialEq, Eq, Structural, Hash)]
pub enum Product {
    /// Base reflectivity (dBZ).
    Reflectivity,
    /// Radial velocity (m/s).
    Velocity,
    /// Spectrum width (m/s).
    SpectrumWidth,
    /// Differential reflectivity (dB).
    DifferentialReflectivity,
    /// Differential phase (degrees).
    DifferentialPhase,
    /// Correlation coefficient (0-1).
    CorrelationCoefficient,
    /// Clutter filter power (CFP).
    ClutterFilterPower,
}

impl Product {
    /// The standard moment data of this product in a radial; clutter filter
    /// power has none (it is CFP data).
    pub open spec fn moment_in(self, radial: Radial) -> Option<MomentData> {
        match self {
            Product::Reflectivity => radial.spec_reflectivity(),
            Product::Velocity => radial.spec_velocity(),
            Product::SpectrumWidth => radial.spec_spectrum_width(),
            Product::DifferentialReflectivity => radial.spec_differential_reflectivity(),
            Product::DifferentialPhase => radial.spec_differential_phase(),
            Product::CorrelationCoefficient => radial.spec_correlation_coefficient(),
            Product::ClutterFilterPower => None,
        }
    }

    /// The CFP data of this product in a radial: only clutter filter power has it.
    pub open spec fn cfp_in(self, radial: Radial) -> Option<CFPMomentData> {
        match self {
            Product::ClutterFilterPower => radial.spec_clutter_filter_power(),
            _ => None,
        }
    }

    /// The typical value range of each product.
    pub open spec fn range_of(self) -> (i32, i32) {
        match self {
            Product::Reflectivity => (-32i32, 95i32),
            Product::Velocity => (-64i32, 64i32),
            Product::SpectrumWidth => (0i32, 30i32),
            Product::DifferentialReflectivity => (-2i32, 6i32),
            Product::DifferentialPhase => (0i32, 360i32),
            Product::CorrelationCoefficient => (0i32, 1i32),
            Product::ClutterFilterPower => (-20i32, 20i32),
        }
    }

    /// The unit text of each product.
    pub open spec fn unit_text(self) -> Seq<char> {
        match self {
            Product::Reflectivity => "dBZ"@,
            Product::Velocity => "m/s"@,
            Product::SpectrumWidth => "m/s"@,
            Product::DifferentialReflectivity => "dB"@,
            Product::DifferentialPhase => "°"@,
            Product::CorrelationCoefficient => ""@,
            Product::ClutterFilterPower => "dB"@,
        }
    }

    /// The label text of each product.
    pub open spec fn label_text(self) -> Seq<char> {
        match self {
            Product::Reflectivity => "Reflectivity"@,
            Product::Velocity => "Velocity"@,
            Product::SpectrumWidth => "Spectrum Width"@,
            Product::DifferentialReflectivity => "Differential Reflectivity"@,
            Product::DifferentialPhase => "Differential Phase"@,
            Product::CorrelationCoefficient => "Correlation Coefficient"@,
            Product::ClutterFilterPower => "Clutter Filter Power"@,
        }
    }

    /// Returns the moment data for this product from a radial, if present.
    ///
    /// For [`Product::ClutterFilterPower`] this is always `None`; use
    /// [`cfp_moment_data`](Self::cfp_moment_data) instead.
    pub fn moment_data<'a>(&self, radial: &'a Radial) -> (r: Option<&'a MomentData>)
        ensures
            same_option(r, self.moment_in(*radial)),
    {
        match self {
            Product::Reflectivity => radial.reflectivity(),
            Product::Velocity => radial.velocity(),
            Product::SpectrumWidth => radial.spectrum_width(),
            Product::DifferentialReflectivity => radial.differential_reflectivity(),
            Product::DifferentialPhase => radial.differential_phase(),
            Product::CorrelationCoefficient => radial.correlation_coefficient(),
            Product::ClutterFilterPower => None,
        }
    }

    /// Returns the CFP moment data from a radial, if this product is
    /// [`Product::ClutterFilterPower`] and the data is present.
    pub fn cfp_moment_data<'a>(&self, radial: &'a Radial) -> (r: Option<&'a CFPMomentData>)
        ensures
            same_option(r, self.cfp_in(*radial)),
    {
        match self {
            Product::ClutterFilterPower => radial.clutter_filter_power(),
            _ => None,
        }
    }

    /// Whether a radial carries data for this product.
    pub fn radial_has_product(&self, radial: &Radial) -> (r: bool)
        ensures
            r == (self.moment_in(*radial) is Some || self.cfp_in(*radial) is Some),
    {
        self.moment_data(radial).is_some() || self.cfp_moment_data(radial).is_some()
    }

    /// Returns the typical value range `(min, max)` of this product, used for
    /// colour mapping and normalisation. All bounds are whole numbers.
    pub fn value_range(&self) -> (r: (i32, i32))
        ensures
            r == self.range_of(),
    {
        match self {
            Product::Reflectivity => (-32, 95),
            Product::Velocity => (-64, 64),
            Product::SpectrumWidth => (0, 30),
            Product::DifferentialReflectivity => (-2, 6),
            Product::DifferentialPhase => (0, 360),
            Product::CorrelationCoefficient => (0, 1),
            Product::ClutterFilterPower => (-20, 20),
        }
    }

    /// Returns the standard unit string for this product.
    pub fn unit(&self) -> (r: &'static str)
        ensures
            r@ == self.unit_text(),
    {
        match self {
            Product::Reflectivity => "dBZ",
            Product::Velocity => "m/s",
            Product::SpectrumWidth => "m/s",
            Product::DifferentialReflectivity => "dB",
            Product::DifferentialPhase => "°",
            Product::CorrelationCoefficient => "",
            Product::ClutterFilterPower => "dB",
        }
    }

    /// Returns a human-readable label for this product.
    pub fn label(&self) -> (r: &'static str)
        ensures
            r@ == self.label_text(),
    {
        match self {
            Product::Reflectivity => "Reflectivity",
            Product::Velocity => "Velocity",
            Product::SpectrumWidth => "Spectrum Width",
            Product::DifferentialReflectivity => "Differential Reflectivity",
            Product::DifferentialPhase => "Differential Phase",
            Product::CorrelationCoefficient => "Correlation Coefficient",
            Product::ClutterFilterPower => "Clutter Filter Power",
        }
    }
}

/// A product selects standard moment data or CFP data from a radial, never
/// both: clutter filter power selects only CFP data, every other product
/// only standard moment data.
pub proof fn lemma_product_data_kind(p: Product, radial: Radial)
    ensures
        p.moment_in(radial) is None || p.cfp_in(radial) is None,
        p == Product::ClutterFilterPower ==> p.moment_in(radial) is None,
        p != Product::ClutterFilterPower ==> p.cfp_in(radial) is None,
{
}

/// Each product selects the radial's moment of the same name: reflectivity
/// the reflectivity moment, velocity the velocity moment, and so on; clutter
/// filter power selects the radial's CFP data.
pub proof fn lemma_product_selects_named_moment(radial: Radial)
    ensures
        Product::Reflectivity.moment_in(radial) == radial.spec_reflectivity(),
        Product::Velocity.moment_in(radial) == radial.spec_velocity(),
        Product::SpectrumWidth.moment_in(radial) == radial.spec_spectrum_width(),
        Product::DifferentialReflectivity.moment_in(radial) == radial.spec_differential_reflectivity(),
        Product::DifferentialPhase.moment_in(radial) == radial.spec_differential_phase(),
        Product::CorrelationCoefficient.moment_in(radial) == radial.spec_correlation_coefficient(),
        Product::ClutterFilterPower.cfp_in(radial) == radial.spec_clutter_filter_power(),
{
}

} // verus!
