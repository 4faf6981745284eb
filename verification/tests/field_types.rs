use nexrad::model::data::{
    CFPMomentData, GateStatus, MomentCode, MomentData, Product, Radial, RadialStatus, SweepField,
};
use nexrad::model::data::sweep_layout::sweep_layout;
use nexrad::model::field::metres::{exceeds_tolerance, f32_metres_exec};
use nexrad::model::field::{radials_to_polar_sweep, CartesianGrid, FieldError, GridSpec, PolarSweep, ProductSelector};
use nexrad::model::meta::Site;

fn f(x: f32) -> u32 {
    x.to_bits()
}

fn reflectivity(values: Vec<u8>, first_gate_range: u16, gate_interval: u16) -> MomentData {
    MomentData::from_fixed_point(values.len() as u16, first_gate_range, gate_interval, 8, f(2.0), f(66.0), values)
}

fn radial(azimuth: f32, moment: Option<MomentData>, cfp: Option<CFPMomentData>) -> Radial {
    Radial::new(
        0,
        azimuth as u16,
        f(azimuth),
        f(1.0),
        RadialStatus::IntermediateRadialData,
        1,
        f(0.5),
        moment,
        None,
        None,
        None,
        None,
        None,
        cfp,
    )
}

#[test]
fn test_cartesian_grid_creation() {
    let grid = CartesianGrid::new(100, 100, f(250.0), (f(-12500.0), f(12500.0)), vec![0.0f32; 10000]);

    assert_eq!(grid.width(), 100);
    assert_eq!(grid.height(), 100);
    assert_eq!(f32::from_bits(grid.pixel_size_bits()), 250.0);
    assert_eq!(grid.origin_bits(), (f(-12500.0), f(12500.0)));
}

#[test]
fn test_cartesian_grid_from_spec() {
    // A grid centred on the radar: origin at (-width * size / 2, height * size / 2).
    let spec = GridSpec::new(100, 100, f(250.0), (f(-12500.0), f(12500.0)));
    let grid = CartesianGrid::from_spec(&spec, vec![0.0f32; 10000]);

    assert_eq!(grid.width(), 100);
    assert_eq!(grid.height(), 100);
    // Centered grid should have center at (0, 0)
    let size = f32::from_bits(grid.pixel_size_bits()) as f64;
    let (ox, oy) = grid.origin_bits();
    let center = (
        f32::from_bits(ox) as f64 + grid.width() as f64 * size / 2.0,
        f32::from_bits(oy) as f64 - grid.height() as f64 * size / 2.0,
    );
    assert!((center.0).abs() < 0.01);
    assert!((center.1).abs() < 0.01);
}

#[test]
fn test_cartesian_grid_indexing() {
    let grid = CartesianGrid::new(10, 10, f(100.0), (f(0.0), f(1000.0)), (0..100).collect::<Vec<i32>>());

    assert_eq!(*grid.get(0, 0), 0);
    assert_eq!(*grid.get(9, 0), 9);
    assert_eq!(*grid.get(0, 1), 10);
    assert_eq!(*grid.get(5, 5), 55);
    assert_eq!(grid.idx(3, 2), 23);
}

#[test]
fn test_radials_to_polar_sweep_empty() {
    let result = radials_to_polar_sweep(&[], ProductSelector::Reflectivity);
    assert!(matches!(result, Err(FieldError::EmptyInput)));
}

#[test]
fn test_polar_sweep_creation() {
    let sweep = PolarSweep::new(f(0.5), vec![f(0.0), f(1.0), f(2.0)], f(2125.0), f(250.0), 100, vec![0.0f32; 300]);

    assert_eq!(sweep.ray_count(), 3);
    assert_eq!(sweep.gate_count(), 100);
    assert_eq!(f32::from_bits(sweep.elevation_bits()), 0.5);
    assert_eq!(f32::from_bits(sweep.first_gate_range_bits()), 2125.0);
    assert_eq!(f32::from_bits(sweep.gate_size_bits()), 250.0);
}

#[test]
fn test_polar_sweep_indexing() {
    let sweep = PolarSweep::new(f(0.5), vec![f(0.0), f(1.0)], f(2125.0), f(250.0), 3, vec![1.0, 2.0, 3.0, 4.0, 5.0, 6.0]);

    assert_eq!(*sweep.get(0, 0), 1.0);
    assert_eq!(*sweep.get(0, 2), 3.0);
    assert_eq!(*sweep.get(1, 0), 4.0);
    assert_eq!(sweep.idx(1, 2), 5);
    assert_eq!(*sweep.get(1, 2), 6.0);
}

#[test]
fn test_polar_sweep_with_site() {
    let site = Site::new(*b"KTLX", f(35.3331), f(-97.2778), 370, 386);
    let sweep = PolarSweep::new(f(0.5), vec![f(0.0)], f(2125.0), f(250.0), 10, vec![0.0f32; 10]).with_site(site.clone());

    assert!(sweep.site().is_some());
    assert_eq!(sweep.site().map(|s| s.identifier_string()), Some("KTLX".to_string()));
}

#[test]
fn test_polar_sweep_rays_iterator() {
    let sweep = PolarSweep::new(f(0.5), vec![f(0.0), f(90.0), f(180.0)], f(2125.0), f(250.0), 2, vec![1.0, 2.0, 3.0, 4.0, 5.0, 6.0]);

    let rays: Vec<_> = (0..sweep.ray_count()).map(|i| sweep.ray(i)).collect();
    assert_eq!(rays.len(), 3);
    assert_eq!(rays[0], (f(0.0), &[1.0, 2.0][..]));
    assert_eq!(rays[1], (f(90.0), &[3.0, 4.0][..]));
    assert_eq!(rays[2], (f(180.0), &[5.0, 6.0][..]));
}

#[test]
fn polar_sweep_from_radials_lays_out_codes() {
    let radials = vec![
        radial(10.0, Some(reflectivity(vec![0, 1, 100], 2125, 250)), None),
        radial(11.0, Some(reflectivity(vec![80, 90, 2], 2126, 250)), None),
    ];
    let pc = radials_to_polar_sweep(&radials, ProductSelector::Reflectivity).unwrap();
    assert_eq!(pc.gate_count, 3);
    assert_eq!(pc.first_gate_range_m, 2125);
    assert_eq!(pc.gate_interval_m, 250);
    assert_eq!(pc.azimuth_bits, vec![f(10.0), f(11.0)]);
    assert_eq!(
        pc.codes,
        vec![
            MomentCode::BelowThreshold,
            MomentCode::RangeFolded,
            MomentCode::Scaled(100),
            MomentCode::Scaled(80),
            MomentCode::Scaled(90),
            MomentCode::Scaled(2)
        ]
    );
    assert_eq!(pc.scale_bits, vec![f(2.0), f(2.0)]);
    assert_eq!(pc.elevation_bits, f(0.5));
}

#[test]
fn polar_sweep_from_radials_reports_first_inconsistency() {
    let missing = vec![radial(1.0, Some(reflectivity(vec![5, 5], 2000, 250)), None), radial(2.0, None, None)];
    assert_eq!(radials_to_polar_sweep(&missing, ProductSelector::Reflectivity), Err(FieldError::ProductNotAvailable));
    assert_eq!(radials_to_polar_sweep(&missing, ProductSelector::Velocity), Err(FieldError::ProductNotAvailable));

    let gates = vec![radial(1.0, Some(reflectivity(vec![5, 5], 2000, 250)), None), radial(2.0, Some(reflectivity(vec![5, 5, 5], 2000, 250)), None)];
    assert_eq!(
        radials_to_polar_sweep(&gates, ProductSelector::Reflectivity),
        Err(FieldError::InconsistentGateCount { expected: 2, found: 3, ray_index: 1 })
    );

    let range = vec![radial(1.0, Some(reflectivity(vec![5, 5], 2000, 250)), None), radial(2.0, Some(reflectivity(vec![5, 5], 2002, 260)), None)];
    assert_eq!(
        radials_to_polar_sweep(&range, ProductSelector::Reflectivity),
        Err(FieldError::InconsistentFirstGateRange { expected: 2000, found: 2002, ray_index: 1 })
    );

    let interval = vec![radial(1.0, Some(reflectivity(vec![5, 5], 2000, 250)), None), radial(2.0, Some(reflectivity(vec![5, 5], 2001, 248)), None)];
    assert_eq!(
        radials_to_polar_sweep(&interval, ProductSelector::Reflectivity),
        Err(FieldError::InconsistentGateInterval { expected: 250, found: 248, ray_index: 1 })
    );
}

#[test]
fn polar_sweep_geometry_tolerance_in_single_precision() {
    // 126 m and 127 m are 1.0000076 m apart once taken through f64 km and f32 m.
    let range = vec![radial(1.0, Some(reflectivity(vec![5], 126, 250)), None), radial(2.0, Some(reflectivity(vec![5], 127, 250)), None)];
    assert_eq!(
        radials_to_polar_sweep(&range, ProductSelector::Reflectivity),
        Err(FieldError::InconsistentFirstGateRange { expected: 126, found: 127, ray_index: 1 })
    );
    let near = vec![radial(1.0, Some(reflectivity(vec![5], 2000, 250)), None), radial(2.0, Some(reflectivity(vec![5], 2001, 251)), None)];
    assert!(radials_to_polar_sweep(&near, ProductSelector::Reflectivity).is_ok());
    let interval = vec![radial(1.0, Some(reflectivity(vec![5], 2000, 251)), None), radial(2.0, Some(reflectivity(vec![5], 2000, 252)), None)];
    assert_eq!(
        radials_to_polar_sweep(&interval, ProductSelector::Reflectivity),
        Err(FieldError::InconsistentGateInterval { expected: 251, found: 252, ray_index: 1 })
    );
}

#[test]
fn single_precision_metre_tolerance() {
    assert!(exceeds_tolerance(126, 127));
    assert!(exceeds_tolerance(127, 126));
    assert!(exceeds_tolerance(65534, 65535));
    assert!(exceeds_tolerance(0, 65535));
    assert!(!exceeds_tolerance(250, 251));
    assert!(!exceeds_tolerance(0, 1));
    assert!(!exceeds_tolerance(126, 126));
    let mut rejected_neighbours = 0;
    for m in 0..65535u16 {
        let expected = ((m as f64 * 0.001) as f32 * 1000.0 - ((m + 1) as f64 * 0.001) as f32 * 1000.0).abs() > 1.0;
        assert_eq!(exceeds_tolerance(m, m + 1), expected, "{m}");
        let metres = (m as f64 * 0.001) as f32 * 1000.0;
        assert_eq!(f32_metres_exec(m), (metres as f64 * 4611686018427387904.0) as u128, "{m}");
        if expected {
            rejected_neighbours += 1;
        }
    }
    assert_eq!(rejected_neighbours, 472);
}

#[test]
fn sweep_layout_sorts_rows_by_azimuth() {
    let cfp = CFPMomentData::from_fixed_point(3, 2000, 250, 8, f(1.0), f(0.0), vec![0, 9, 12]);
    let radials = vec![
        radial(30.0, Some(reflectivity(vec![0, 1, 100], 2125, 250)), None),
        radial(5.0, None, Some(cfp)),
        radial(-0.0, Some(reflectivity(vec![70, 71], 2000, 500)), None),
        radial(0.0, Some(reflectivity(vec![72, 73, 74, 75], 2000, 500)), None),
    ];
    let layout = sweep_layout(&radials, Product::Reflectivity).unwrap();
    assert_eq!(layout.rows, vec![2, 3, 0]);
    assert_eq!(layout.gate_count, 3);
    assert_eq!(layout.first_gate_range_m, 2125);
    assert_eq!(layout.gate_interval_m, 250);
    assert_eq!(layout.azimuth_bits, vec![f(-0.0), f(0.0), f(30.0)]);
    assert_eq!(
        layout.status,
        vec![
            GateStatus::Valid,
            GateStatus::Valid,
            GateStatus::NoData,
            GateStatus::Valid,
            GateStatus::Valid,
            GateStatus::Valid,
            GateStatus::BelowThreshold,
            GateStatus::RangeFolded,
            GateStatus::Valid
        ]
    );

    let cfp_layout = sweep_layout(&radials, Product::ClutterFilterPower).unwrap();
    assert_eq!(cfp_layout.rows, vec![1]);
    assert_eq!(cfp_layout.status, vec![GateStatus::NoData, GateStatus::Valid, GateStatus::Valid]);

    assert!(sweep_layout(&radials, Product::Velocity).is_none());
    assert!(sweep_layout(&[], Product::Reflectivity).is_none());
}

#[test]
fn sweep_field_value_range() {
    let mut field = SweepField::new_empty("Reflectivity", "dBZ", f(0.5), vec![f(0.0), f(1.0)], f(1.0), 2.0f64.to_bits(), 0.25f64.to_bits(), 3);
    assert_eq!(field.value_range_bits(), None);
    field.set(0, 0, f(12.5), GateStatus::Valid);
    assert_eq!(field.value_range_bits(), Some((f(12.5), f(12.5))));
    field.set(0, 1, f(-7.0), GateStatus::Valid);
    field.set(1, 2, f(30.0), GateStatus::Valid);
    field.set(1, 0, f32::NAN.to_bits(), GateStatus::Valid);
    field.set(1, 1, f(99.0), GateStatus::BelowThreshold);
    assert_eq!(field.value_range_bits(), Some((f(-7.0), f(30.0))));
    // Valid gates that are all NaN leave the starting bounds.
    let mut nan_only = SweepField::new_empty("Reflectivity", "dBZ", f(0.5), vec![f(0.0)], f(1.0), 2.0f64.to_bits(), 0.25f64.to_bits(), 1);
    nan_only.set(0, 0, f32::NAN.to_bits(), GateStatus::Valid);
    assert_eq!(nan_only.value_range_bits(), Some((f(f32::MAX), f(f32::MIN))));
}

#[test]
fn sweep_field_set_and_get() {
    let mut field = SweepField::new_empty("Reflectivity", "dBZ", f(0.5), vec![f(0.0), f(1.0), f(2.0)], f(1.0), 2.0f64.to_bits(), 0.25f64.to_bits(), 4);
    assert_eq!(field.values().len(), 12);
    assert_eq!(field.get(2, 3), (0, GateStatus::NoData));
    field.set(2, 3, f(42.5), GateStatus::Valid);
    assert_eq!(field.get(2, 3), (f(42.5), GateStatus::Valid));
    assert_eq!(field.idx(2, 3), 11);
    assert_eq!(field.radial_values(2), &[0, 0, 0, f(42.5)][..]);
    assert_eq!(field.radial_statuses(1), &[GateStatus::NoData; 4][..]);
    let like = field.new_like("Copy", "m/s");
    assert_eq!(like.label(), "Copy");
    assert_eq!(like.unit(), "m/s");
    assert_eq!(like.azimuth_count(), 3);
    assert_eq!(like.get(2, 3), (0, GateStatus::NoData));
}
