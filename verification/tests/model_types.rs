use nexrad::model::data::{
    CFPMomentCode, CFPMomentData, CFPStatus, ChannelConfiguration, ElevationCut, MomentCode, MomentData, PulseWidth,
    Radial, RadialStatus, Scan, Sweep, VCPNumber, VolumeCoveragePattern, WaveformType,
};
use nexrad::model::data::sweep::MiddleAngles;
use nexrad::model::data::sweep::{EARLIEST_CHRONO_MILLIS, LATEST_CHRONO_MILLIS};
use nexrad::model::data::Product;
use nexrad::model::meta::Site;

/// Helper to create a minimal VCP for testing
fn test_vcp(pattern_number: u16) -> VolumeCoveragePattern {
    VolumeCoveragePattern::new(
        pattern_number,
        1,                  // version
        0.5f32.to_bits(),   // doppler_velocity_resolution
        PulseWidth::Short,
        false,  // sails_enabled
        0,      // sails_cuts
        false,  // mrle_enabled
        0,      // mrle_cuts
        false,  // mpda_enabled
        false,  // base_tilt_enabled
        0,      // base_tilt_count
        false,  // sequence_active
        false,  // truncated
        vec![], // elevation_cuts
    )
}

fn radial_at(timestamp: i64, azimuth_number: u16, elevation_number: u8, elevation: f32) -> Radial {
    Radial::new(
        timestamp,
        azimuth_number,
        (azimuth_number as f32).to_bits(),
        1.0f32.to_bits(),
        RadialStatus::IntermediateRadialData,
        elevation_number,
        elevation.to_bits(),
        None,
        None,
        None,
        None,
        None,
        None,
        None,
    )
}

#[test]
fn test_site_creation() {
    let site = Site::new(*b"KTLX", 35.3331f32.to_bits(), (-97.2778f32).to_bits(), 370, 401);

    assert_eq!(site.identifier(), b"KTLX");
    assert_eq!(site.identifier_string(), "KTLX");
    assert!((f32::from_bits(site.latitude_bits()) - 35.3331).abs() < 0.0001);
    assert!((f32::from_bits(site.longitude_bits()) - (-97.2778)).abs() < 0.0001);
    assert_eq!(site.height_meters(), 370);
    assert_eq!(site.tower_height_meters(), 401);
}

#[test]
fn site_identifier_string_replaces_invalid_utf8() {
    let site = Site::new([b'K', 0xFF, b'T', b'X'], 0, 0, 0, 0);
    assert_eq!(site.identifier_string(), "K\u{FFFD}TX");
}

#[test]
fn test_site_clone() {
    let site = Site::new(*b"KTLX", 35.3331f32.to_bits(), (-97.2778f32).to_bits(), 370, 401);
    let cloned = site.clone();

    assert_eq!(site.identifier(), cloned.identifier());
    assert_eq!(site.latitude_bits(), cloned.latitude_bits());
}

#[test]
fn test_scan_creation() {
    let sweeps = vec![Sweep::new(1, vec![]), Sweep::new(2, vec![])];
    let scan = Scan::new(test_vcp(212), sweeps);

    assert_eq!(scan.coverage_pattern_number(), 212);
    assert_eq!(scan.sweeps().len(), 2);
}

#[test]
fn test_scan_display() {
    let sweeps = vec![
        Sweep::new(1, vec![]),
        Sweep::new(2, vec![]),
        Sweep::new(3, vec![]),
    ];
    let scan = Scan::new(test_vcp(212), sweeps);
    let display = scan.to_summary_string();

    assert!(display.contains("VCP 212"));
    assert!(display.contains("3 sweeps"));
}

#[test]
fn test_moment_data_values_16bit_special_values() {
    // 16-bit raw values 0 and 1 should map to special cases when scale != 0.
    let values = vec![0x00, 0x00, 0x00, 0x01];
    let moment = MomentData::from_fixed_point(2, 500, 250, 16, 2.0f32.to_bits(), 0.0f32.to_bits(), values);

    let decoded_values = moment.codes();
    assert_eq!(decoded_values.len(), 2);
    assert_eq!(decoded_values[0], MomentCode::BelowThreshold);
    assert_eq!(decoded_values[1], MomentCode::RangeFolded);
}

#[test]
fn scan_summary_is_exact() {
    let scan = Scan::new(test_vcp(12), vec![Sweep::new(1, vec![])]);
    assert_eq!(scan.to_summary_string(), "Scan (VCP 12, 1 sweeps)");
}

#[test]
fn vcp_summary_lists_enabled_modes() {
    let cut = ElevationCut::new(
        0.5f64.to_bits(),
        ChannelConfiguration::ConstantPhase,
        WaveformType::CS,
        21.15f64.to_bits(),
        true,
        true,
        false,
        false,
        1,
        15,
        2.0f32.to_bits(),
        3.5f32.to_bits(),
        3.5f32.to_bits(),
        3.5f32.to_bits(),
        3.5f32.to_bits(),
        3.5f32.to_bits(),
        false,
        0,
        false,
        0,
        false,
        false,
    );
    let vcp = VolumeCoveragePattern::new(
        215,
        2,
        0.5f32.to_bits(),
        PulseWidth::Short,
        true,
        2,
        true,
        3,
        true,
        false,
        0,
        true,
        false,
        vec![cut, cut],
    );
    assert_eq!(vcp.to_summary_string(), "VCP 215 (v2, 2 cuts, SAILS(2), MRLE(3), MPDA)");
    assert_eq!(vcp.number_of_elevation_cuts(), 2);
    assert_eq!(test_vcp(31).to_summary_string(), "VCP 31 (v1, 0 cuts)");
}

#[test]
fn vcp_number_labels() {
    assert_eq!(VCPNumber::from_number(212).to_label_string(), "VCP 212 (Precipitation, SZ-2)");
    assert_eq!(VCPNumber::from_number(999).to_label_string(), "VCP 999");
    assert_eq!(VCPNumber::from_number(35).number(), 35);
    assert_eq!(VCPNumber::from_number(7), VCPNumber::Unknown(7));
    assert_eq!(VCPNumber::from_number(12).description(), "Precipitation, fast update");
}

#[test]
fn sweep_time_range_spans_radials() {
    let sweep = Sweep::new(
        1,
        vec![radial_at(1_700_000_000_500, 0, 1, 0.5), radial_at(1_700_000_000_100, 1, 1, 0.5), radial_at(1_700_000_000_900, 2, 1, 0.5)],
    );
    assert_eq!(sweep.time_range_millis(), Some((1_700_000_000_100, 1_700_000_000_900)));
    assert_eq!(Sweep::new(1, vec![]).time_range_millis(), None);
    // A time chrono cannot represent takes no part.
    let odd = Sweep::new(1, vec![radial_at(i64::MAX, 0, 1, 0.5), radial_at(5, 1, 1, 0.5)]);
    assert_eq!(odd.time_range_millis(), Some((5, 5)));
}

#[test]
fn sweep_time_range_chrono_bounds() {
    let lo = EARLIEST_CHRONO_MILLIS;
    let hi = LATEST_CHRONO_MILLIS;
    let edges = Sweep::new(1, vec![radial_at(lo, 0, 1, 0.5), radial_at(hi, 1, 1, 0.5)]);
    assert_eq!(edges.time_range_millis(), Some((lo, hi)));
    let beyond = Sweep::new(1, vec![radial_at(lo - 1, 0, 1, 0.5), radial_at(hi + 1, 1, 1, 0.5)]);
    assert_eq!(beyond.time_range_millis(), None);
}

#[test]
fn sweep_middle_elevation() {
    let sweep = Sweep::new(
        1,
        vec![radial_at(0, 0, 1, 0.9), radial_at(0, 1, 1, 0.5), radial_at(0, 2, 1, 0.4)],
    );
    assert_eq!(sweep.middle_elevation_bits(), Some(MiddleAngles::One(0.5f32.to_bits())));
    let even = Sweep::new(1, vec![radial_at(0, 0, 1, 0.9), radial_at(0, 1, 1, -0.5)]);
    assert_eq!(even.middle_elevation_bits(), Some(MiddleAngles::Two((-0.5f32).to_bits(), 0.9f32.to_bits())));
    assert_eq!(Sweep::new(1, vec![]).middle_elevation_bits(), None);
}

#[test]
fn sweep_from_radials_splits_by_elevation() {
    let radials = vec![radial_at(0, 0, 1, 0.5), radial_at(0, 1, 1, 0.5), radial_at(0, 0, 2, 1.5), radial_at(0, 0, 1, 0.5)];
    let sweeps = Sweep::from_radials(radials);
    assert_eq!(sweeps.len(), 3);
    assert_eq!(sweeps[0].elevation_number(), 1);
    assert_eq!(sweeps[0].radials().len(), 2);
    assert_eq!(sweeps[1].elevation_number(), 2);
    assert_eq!(sweeps[2].elevation_number(), 1);
}

#[test]
fn sweep_merge_orders_by_azimuth_number() {
    let a = Sweep::new(4, vec![radial_at(1, 3, 4, 0.5), radial_at(2, 1, 4, 0.5)]);
    let b = Sweep::new(4, vec![radial_at(3, 2, 4, 0.5), radial_at(4, 1, 4, 0.5)]);
    let merged = a.merge(b).unwrap();
    let order: Vec<(u16, i64)> = merged.radials().iter().map(|r| (r.azimuth_number(), r.collection_timestamp())).collect();
    assert_eq!(order, vec![(1, 2), (1, 4), (2, 3), (3, 1)]);
}

#[test]
fn test_sweep_creation() {
    let sweep = Sweep::new(5, vec![]);

    assert_eq!(sweep.elevation_number(), 5);
    assert!(sweep.radials().is_empty());
}

#[test]
fn test_sweep_merge_same_elevation() {
    let sweep1 = Sweep::new(3, vec![]);
    let sweep2 = Sweep::new(3, vec![]);

    let merged = sweep1.merge(sweep2);
    assert!(merged.is_ok());
    assert_eq!(merged.unwrap().elevation_number(), 3);
}

#[test]
fn test_sweep_merge_different_elevation() {
    let sweep1 = Sweep::new(3, vec![]);
    let sweep2 = Sweep::new(5, vec![]);

    let merged = sweep1.merge(sweep2);
    assert!(merged.is_err());
}

#[test]
fn test_moment_data_creation() {
    let values = vec![0, 1, 50, 100, 150, 200, 255];
    let moment = MomentData::from_fixed_point(7, 500, 250, 8, 2.0f32.to_bits(), 33.0f32.to_bits(), values);

    assert_eq!(moment.data().gate_count(), 7);
    assert!((moment.data().first_gate_range_m() as f64 * 0.001 - 0.5).abs() < 0.001);
    assert!((moment.data().gate_interval_m() as f64 * 0.001 - 0.25).abs() < 0.001);
}

#[test]
fn test_cfp_moment_values_status_and_data() {
    let values = vec![0, 1, 2, 3, 7, 8, 10];
    let moment = CFPMomentData::from_fixed_point(7, 500, 250, 8, 1.0f32.to_bits(), 0.0f32.to_bits(), values);

    let decoded = moment.codes();
    assert_eq!(decoded[0], CFPMomentCode::Status(CFPStatus::FilterNotApplied));
    assert_eq!(decoded[1], CFPMomentCode::Status(CFPStatus::PointClutterFilterApplied));
    assert_eq!(decoded[2], CFPMomentCode::Status(CFPStatus::DualPolOnlyFilterApplied));
    assert_eq!(decoded[3], CFPMomentCode::Status(CFPStatus::Reserved(3)));
    assert_eq!(decoded[4], CFPMomentCode::Status(CFPStatus::Reserved(7)));
    assert_eq!(decoded[5], CFPMomentCode::Scaled(8));
    assert_eq!(decoded[6], CFPMomentCode::Scaled(10));
}

#[test]
fn moment_codes_mark_special_values() {
    let moment = MomentData::from_fixed_point(4, 500, 250, 8, 2.0f32.to_bits(), 33.0f32.to_bits(), vec![0, 1, 50, 100]);
    assert_eq!(
        moment.codes(),
        vec![MomentCode::BelowThreshold, MomentCode::RangeFolded, MomentCode::Scaled(50), MomentCode::Scaled(100)]
    );
}

#[test]
fn product_labels_units_and_ranges() {
    assert_eq!(Product::Reflectivity.label(), "Reflectivity");
    assert_eq!(Product::Reflectivity.unit(), "dBZ");
    assert_eq!(Product::DifferentialPhase.unit(), "°");
    assert_eq!(Product::CorrelationCoefficient.unit(), "");
    assert_eq!(Product::Velocity.value_range(), (-64, 64));
    assert_eq!(Product::ClutterFilterPower.label(), "Clutter Filter Power");
    assert_eq!(Product::ClutterFilterPower.value_range(), (-20, 20));
}

#[test]
fn product_data_kind_is_exclusive() {
    let cfp = CFPMomentData::from_fixed_point(2, 500, 250, 8, 1.0f32.to_bits(), 0.0f32.to_bits(), vec![8, 9]);
    let refl = MomentData::from_fixed_point(2, 500, 250, 8, 2.0f32.to_bits(), 66.0f32.to_bits(), vec![80, 90]);
    let radial = Radial::new(
        0,
        0,
        0.0f32.to_bits(),
        1.0f32.to_bits(),
        RadialStatus::ElevationStart,
        1,
        0.5f32.to_bits(),
        Some(refl),
        None,
        None,
        None,
        None,
        None,
        Some(cfp),
    );
    assert!(Product::ClutterFilterPower.moment_data(&radial).is_none());
    assert!(Product::ClutterFilterPower.cfp_moment_data(&radial).is_some());
    assert!(Product::Reflectivity.moment_data(&radial).is_some());
    assert!(Product::Reflectivity.cfp_moment_data(&radial).is_none());
    assert!(Product::Velocity.radial_has_product(&radial) == false);
    assert!(radial.specific_differential_phase().is_some());
}

#[test]
fn display_names_of_configuration_enums() {
    assert_eq!(WaveformType::CDWO.display_name(), "Contiguous Doppler w/o Ambiguity Resolution");
    assert_eq!(WaveformType::SPP.code(), "SPP");
    assert_eq!(PulseWidth::Long.display_name(), "Long");
    assert_eq!(ChannelConfiguration::SZ2Phase.display_name(), "SZ2 Phase");
}
