use nexrad::model::data::{GateStatus, SweepField};
use nexrad::process::derived::CompositeReflectivity;
use nexrad::process::detection::StormCellDetector;
use nexrad::process::filter::smoothing::kernel_taps_at;
use nexrad::process::filter::{shared_gate_count, CorrelationCoefficientFilter, MedianFilter, ThresholdFilter};
use nexrad::model::float_order::F32_MIN_BITS;
use nexrad::process::strength::{strength_order, strongest_gate};
use nexrad::process::Error;

fn f(x: f32) -> u32 {
    x.to_bits()
}

/// Create a 360-azimuth, `gate_count`-gate field with all gates set to NoData.
fn make_empty_field(gate_count: usize) -> SweepField {
    let azimuths: Vec<u32> = (0..360).map(|i| f(i as f32)).collect();
    SweepField::new_empty("Reflectivity", "dBZ", f(0.5), azimuths, f(1.0), 2.0f64.to_bits(), 0.25f64.to_bits(), gate_count)
}

/// Create a uniform field where all gates have the given value.
fn make_uniform_field(gate_count: usize, value: f32) -> SweepField {
    let mut field = make_empty_field(gate_count);
    for az in 0..360 {
        for gate in 0..gate_count {
            field.set(az, gate, f(value), GateStatus::Valid);
        }
    }
    field
}

fn value(field: &SweepField, az: usize, gate: usize) -> (f32, GateStatus) {
    let (v, s) = field.get(az, gate);
    (f32::from_bits(v), s)
}

#[test]
fn test_no_cells_below_threshold() {
    let field = make_uniform_field(100, 20.0);

    let detector = StormCellDetector::new(f(35.0), 5).unwrap();
    let cells = detector.detect_components(&field).unwrap();

    assert!(cells.is_empty());
}

/// The cells of a field from strongest to weakest, numbered in that order:
/// (id, gate count, maximum reflectivity).
fn ranked_cells(detector: &StormCellDetector, field: &SweepField) -> Vec<(u32, usize, f32)> {
    let components = detector.detect_components(field).unwrap();
    let maxima: Vec<u32> = components.iter().map(|c| strongest_gate(field, c).0).collect();
    strength_order(&maxima)
        .iter()
        .enumerate()
        .map(|(id, &i)| (id as u32, components[i].len(), f32::from_bits(maxima[i])))
        .collect()
}

#[test]
fn test_single_cell_detected() {
    let mut field = make_empty_field(100);

    // Paint a 5x5 block at 40 dBZ
    for az in 10..15 {
        for gate in 20..25 {
            field.set(az, gate, f(40.0), GateStatus::Valid);
        }
    }

    let detector = StormCellDetector::new(f(35.0), 5).unwrap();
    let cells = ranked_cells(&detector, &field);

    assert_eq!(cells.len(), 1);
    assert_eq!(cells[0].1, 25);
    assert_eq!(cells[0].2, 40.0);
    assert_eq!(cells[0].0, 0);
}

#[test]
fn test_two_separated_cells() {
    let mut field = make_empty_field(100);

    // Block A: strong
    for az in 10..15 {
        for gate in 20..25 {
            field.set(az, gate, f(50.0), GateStatus::Valid);
        }
    }

    // Block B: weaker, well-separated
    for az in 100..105 {
        for gate in 50..55 {
            field.set(az, gate, f(40.0), GateStatus::Valid);
        }
    }

    let detector = StormCellDetector::new(f(35.0), 5).unwrap();
    let cells = ranked_cells(&detector, &field);

    assert_eq!(cells.len(), 2);
    // Sorted by descending max reflectivity
    assert!(cells[0].2 >= cells[1].2);
    assert_eq!(cells[0].2, 50.0);
    assert_eq!(cells[1].2, 40.0);
}

#[test]
fn strongest_cell_comes_first_and_ties_keep_order() {
    let mut field = make_empty_field(100);
    // Three separated blocks, in row-major order: 40, 55, 40 dBZ.
    for (az0, v) in [(10usize, 40.0f32), (100, 55.0), (200, 40.0)] {
        for az in az0..az0 + 3 {
            for gate in 10..13 {
                field.set(az, gate, f(v), GateStatus::Valid);
            }
        }
    }
    let detector = StormCellDetector::new(f(35.0), 5).unwrap();
    let components = detector.detect_components(&field).unwrap();
    let maxima: Vec<u32> = components.iter().map(|c| strongest_gate(&field, c).0).collect();
    assert_eq!(strength_order(&maxima), vec![1, 0, 2]);
}

#[test]
fn strongest_gate_is_first_maximum() {
    let mut field = make_empty_field(10);
    field.set(0, 0, f(41.0), GateStatus::Valid);
    field.set(0, 1, f(47.5), GateStatus::Valid);
    field.set(0, 2, f(47.5), GateStatus::Valid);
    field.set(0, 3, f(-0.0), GateStatus::Valid);
    let gates = vec![(0usize, 0usize), (0, 1), (0, 2), (0, 3)];
    assert_eq!(strongest_gate(&field, &gates), (f(47.5), Some(1)));
    // Zeros of both signs are equal: the first one stays.
    assert_eq!(strongest_gate(&field, &[(0, 3), (5, 5)]), (f(-0.0), Some(0)));
    // NaN is greater than nothing; f32::MIN is not above itself.
    field.set(1, 0, f32::NAN.to_bits(), GateStatus::Valid);
    field.set(1, 1, f(f32::MIN), GateStatus::Valid);
    assert_eq!(strongest_gate(&field, &[(1, 0), (1, 1)]), (F32_MIN_BITS, None));
    assert_eq!(strongest_gate(&field, &[]), (F32_MIN_BITS, None));
    assert_eq!(strength_order(&[f(1.0), f(-0.0), f(0.0), f(3.0)]), vec![3, 0, 1, 2]);
}

#[test]
fn test_min_gate_count_filters_noise() {
    let mut field = make_empty_field(100);

    // Single gate at 60 dBZ — below the min_gate_count threshold
    field.set(50, 30, f(60.0), GateStatus::Valid);

    let detector = StormCellDetector::new(f(35.0), 5).unwrap();
    let cells = detector.detect_components(&field).unwrap();

    assert!(cells.is_empty());
}

#[test]
fn test_azimuth_wrapping() {
    let mut field = make_empty_field(100);

    // Gates spanning the azimuth wrap: 358, 359, 0, 1, 2
    for &az in &[358, 359, 0, 1, 2] {
        field.set(az, 30, f(40.0), GateStatus::Valid);
    }

    let detector = StormCellDetector::new(f(35.0), 3).unwrap();
    let cells = detector.detect_components(&field).unwrap();

    // Should be a single cell, not two
    assert_eq!(cells.len(), 1);
    assert_eq!(cells[0].len(), 5);
}

#[test]
fn test_invalid_min_gate_count_zero() {
    let result = StormCellDetector::new(f(35.0), 0);
    assert!(result.is_err());
}

#[test]
fn test_empty_field_no_error() {
    let field = make_empty_field(100);

    let detector = StormCellDetector::new(f(35.0), 5).unwrap();
    let cells = detector.detect_components(&field).unwrap();

    assert!(cells.is_empty());
}

#[test]
fn test_nodata_gates_not_included() {
    let mut field = make_empty_field(100);

    // Create a 3x3 block with a NoData hole in the center
    for az in 10..13 {
        for gate in 20..23 {
            field.set(az, gate, f(40.0), GateStatus::Valid);
        }
    }
    // Punch a hole — this gate stays NoData so it's not part of any cell
    field.set(11, 21, f(0.0), GateStatus::NoData);

    let detector = StormCellDetector::new(f(35.0), 1).unwrap();
    let cells = detector.detect_components(&field).unwrap();

    // The NoData gate should not be counted
    let total_gates: usize = cells.iter().map(|c| c.len()).sum();
    assert_eq!(total_gates, 8); // 9 - 1 NoData
}

#[test]
fn detection_separates_blocks_and_rejects_empty_geometry() {
    let mut field = make_empty_field(100);
    for az in 10..15 {
        for gate in 20..25 {
            field.set(az, gate, f(50.0), GateStatus::Valid);
        }
    }
    for az in 100..105 {
        for gate in 50..55 {
            field.set(az, gate, f(35.0), GateStatus::Valid);
        }
    }
    let detector = StormCellDetector::new(f(35.0), 5).unwrap();
    let cells = detector.detect_components(&field).unwrap();
    assert_eq!(cells.len(), 2);
    assert_eq!(cells[0].len(), 25);
    assert_eq!(cells[0][0], (10, 20));
    assert_eq!(cells[1][0], (100, 50));

    let no_gates = SweepField::new_empty("R", "dBZ", f(0.5), vec![f(0.0)], f(1.0), 0, 0, 0);
    assert_eq!(
        detector.detect_components(&no_gates),
        Err(Error::InvalidGeometry("field has zero gates".to_string()))
    );
    let no_azimuths = SweepField::new_empty("R", "dBZ", f(0.5), vec![], f(1.0), 0, 0, 5);
    assert_eq!(
        detector.detect_components(&no_azimuths),
        Err(Error::InvalidGeometry("field has zero azimuths".to_string()))
    );
}

fn make_fields(gate_count: usize) -> (SweepField, SweepField) {
    let azimuths = vec![f(0.0), f(1.0), f(2.0)];
    let mut target = SweepField::new_empty("Reflectivity", "dBZ", f(0.5), azimuths.clone(), f(1.0), 2.0f64.to_bits(), 0.25f64.to_bits(), gate_count);
    let mut cc = SweepField::new_empty("CC", "", f(0.5), azimuths, f(1.0), 2.0f64.to_bits(), 0.25f64.to_bits(), gate_count);
    for az in 0..3 {
        for gate in 0..gate_count {
            target.set(az, gate, f(30.0), GateStatus::Valid);
            cc.set(az, gate, f(0.98), GateStatus::Valid);
        }
    }
    (target, cc)
}

#[test]
fn test_cc_filter_preserves_high_cc() {
    let (target, cc) = make_fields(5);
    let filter = CorrelationCoefficientFilter::new(f(0.90), cc).unwrap();
    let result = filter.process(&target).unwrap();

    for az in 0..3 {
        for gate in 0..5 {
            let (val, status) = value(&result, az, gate);
            assert_eq!(val, 30.0);
            assert_eq!(status, GateStatus::Valid);
        }
    }
}

#[test]
fn test_cc_filter_masks_low_cc() {
    let (target, mut cc) = make_fields(5);
    // Set low CC for some gates
    cc.set(1, 2, f(0.5), GateStatus::Valid);
    cc.set(1, 3, f(0.8), GateStatus::Valid);

    let filter = CorrelationCoefficientFilter::new(f(0.90), cc).unwrap();
    let result = filter.process(&target).unwrap();

    // Low CC gates should be masked
    let (_, status) = value(&result, 1, 2);
    assert_eq!(status, GateStatus::NoData);

    let (_, status) = value(&result, 1, 3);
    assert_eq!(status, GateStatus::NoData);

    // High CC gate should be preserved
    let (val, status) = value(&result, 1, 1);
    assert_eq!(val, 30.0);
    assert_eq!(status, GateStatus::Valid);
}

#[test]
fn test_cc_filter_masks_invalid_cc() {
    let (target, mut cc) = make_fields(5);
    cc.set(0, 0, f(0.0), GateStatus::NoData);

    let filter = CorrelationCoefficientFilter::new(f(0.90), cc).unwrap();
    let result = filter.process(&target).unwrap();

    let (_, status) = value(&result, 0, 0);
    assert_eq!(status, GateStatus::NoData);
}

#[test]
fn test_cc_filter_invalid_threshold() {
    let (_, cc) = make_fields(5);
    assert!(CorrelationCoefficientFilter::new(f(0.0), cc).is_err());

    let (_, cc) = make_fields(5);
    assert!(CorrelationCoefficientFilter::new(f(1.5), cc).is_err());
}

#[test]
fn cc_threshold_bounds_and_message() {
    let (_, cc) = make_fields(5);
    assert_eq!(
        CorrelationCoefficientFilter::new(f(-0.5), cc.duplicate()).err(),
        Some(Error::InvalidParameter("CC threshold must be in (0, 1]".to_string()))
    );
    assert!(CorrelationCoefficientFilter::new(f(1.0), cc.duplicate()).is_ok());
    assert!(CorrelationCoefficientFilter::new(f(f32::NAN), cc).is_ok());
}

#[test]
fn test_cc_filter_different_gate_counts_ok() {
    // REF with more gates than CC (common: REF 460 km vs CC 300 km)
    let (target, _) = make_fields(10);
    let (_, cc_shorter) = make_fields(5);

    let filter = CorrelationCoefficientFilter::new(f(0.90), cc_shorter).unwrap();
    let result = filter.process(&target).unwrap();

    // Gates in the shared range should be preserved (high CC)
    let (val, status) = value(&result, 0, 2);
    assert_eq!(val, 30.0);
    assert_eq!(status, GateStatus::Valid);

    // Gates beyond CC range should be left unchanged
    let (val, status) = value(&result, 0, 7);
    assert_eq!(val, 30.0);
    assert_eq!(status, GateStatus::Valid);
}

#[test]
fn test_cc_filter_azimuth_mismatch_error() {
    // Different azimuth counts should still error
    let azimuths_3 = vec![f(0.0), f(1.0), f(2.0)];
    let azimuths_4 = vec![f(0.0), f(1.0), f(2.0), f(3.0)];

    let mut target = SweepField::new_empty("Reflectivity", "dBZ", f(0.5), azimuths_3, f(1.0), 2.0f64.to_bits(), 0.25f64.to_bits(), 5);
    let mut cc = SweepField::new_empty("CC", "", f(0.5), azimuths_4, f(1.0), 2.0f64.to_bits(), 0.25f64.to_bits(), 5);

    for az in 0..3 {
        for gate in 0..5 {
            target.set(az, gate, f(30.0), GateStatus::Valid);
        }
    }
    for az in 0..4 {
        for gate in 0..5 {
            cc.set(az, gate, f(0.98), GateStatus::Valid);
        }
    }

    let filter = CorrelationCoefficientFilter::new(f(0.90), cc).unwrap();
    assert!(filter.process(&target).is_err());
}

#[test]
fn cc_geometry_message_names_both_counts() {
    assert_eq!(
        shared_gate_count(3, 5, 4, 5),
        Err(Error::InvalidGeometry("CC field azimuth count (4) does not match input field (3)".to_string()))
    );
    assert_eq!(shared_gate_count(3, 10, 3, 5), Ok(5));
}

fn make_test_field() -> SweepField {
    let azimuths = vec![f(0.0), f(1.0), f(2.0), f(3.0), f(4.0)];
    let mut field = SweepField::new_empty("Test", "dBZ", f(0.5), azimuths, f(1.0), 2.0f64.to_bits(), 0.25f64.to_bits(), 5);
    for az in 0..5 {
        for gate in 0..5 {
            field.set(az, gate, f(30.0), GateStatus::Valid);
        }
    }
    field
}

#[test]
fn test_median_filter_uniform() {
    let field = make_test_field();
    let filter = MedianFilter { azimuth_kernel: 3, range_kernel: 3 };

    let result = filter.process(&field).unwrap();

    // Uniform input should produce uniform output
    for az in 0..5 {
        for gate in 0..5 {
            let (val, status) = value(&result, az, gate);
            assert_eq!(val, 30.0);
            assert_eq!(status, GateStatus::Valid);
        }
    }
}

#[test]
fn test_median_filter_removes_spike() {
    let mut field = make_test_field();
    // Add a single spike
    field.set(2, 2, f(100.0), GateStatus::Valid);

    let filter = MedianFilter { azimuth_kernel: 3, range_kernel: 3 };

    let result = filter.process(&field).unwrap();

    // The spike should be removed (median of mostly 30.0 values)
    let (val, _) = value(&result, 2, 2);
    assert_eq!(val, 30.0);
}

#[test]
fn test_median_filter_even_kernel_error() {
    let field = make_test_field();
    let filter = MedianFilter { azimuth_kernel: 2, range_kernel: 3 };

    assert!(filter.process(&field).is_err());
}

#[test]
fn test_median_filter_1x1_noop() {
    let mut field = make_test_field();
    field.set(2, 2, f(99.0), GateStatus::Valid);

    let filter = MedianFilter { azimuth_kernel: 1, range_kernel: 1 };

    let result = filter.process(&field).unwrap();
    let (val, _) = value(&result, 2, 2);
    assert_eq!(val, 99.0);
}

#[test]
fn test_median_filter_preserves_nodata() {
    let mut field = make_test_field();
    field.set(2, 2, f(0.0), GateStatus::NoData);

    let filter = MedianFilter { azimuth_kernel: 3, range_kernel: 3 };

    let result = filter.process(&field).unwrap();
    let (_, status) = value(&result, 2, 2);
    assert_eq!(status, GateStatus::NoData);
}

#[test]
fn median_takes_middle_of_sorted_neighbours() {
    // One row of five gates: 10, 50, 20, 40, 30 with a 1 x 3 kernel.
    let mut field = SweepField::new_empty("T", "dBZ", f(0.5), vec![f(0.0)], f(1.0), 0, 0, 5);
    for (gate, v) in [10.0f32, 50.0, 20.0, 40.0, 30.0].iter().enumerate() {
        field.set(0, gate, f(*v), GateStatus::Valid);
    }
    let out = MedianFilter { azimuth_kernel: 1, range_kernel: 3 }.process(&field).unwrap();
    let got: Vec<f32> = (0..5).map(|g| value(&out, 0, g).0).collect();
    // Edges have two neighbours: the median is the larger (index len / 2).
    assert_eq!(got, vec![50.0, 20.0, 40.0, 30.0, 40.0]);
}

#[test]
fn kernel_taps_wrap_azimuth_and_clip_range() {
    let taps = kernel_taps_at(0, 0, 4, 3, 3, 3);
    let pos: Vec<(usize, usize)> = taps.iter().map(|t| (t.azimuth, t.gate)).collect();
    assert_eq!(pos, vec![(3, 0), (3, 1), (0, 0), (0, 1), (1, 0), (1, 1)]);
    assert_eq!(MedianFilter { azimuth_kernel: 1, range_kernel: 1 }.is_identity(), true);
}

fn make_threshold_field() -> SweepField {
    let mut field = SweepField::new_empty("Test", "dBZ", f(0.5), vec![f(0.0), f(1.0), f(2.0)], f(1.0), 2.0f64.to_bits(), 0.25f64.to_bits(), 5);
    for az in 0..3 {
        for gate in 0..5 {
            let value = (az * 5 + gate) as f32 * 5.0; // 0, 5, 10, ..., 70
            field.set(az, gate, f(value), GateStatus::Valid);
        }
    }
    field
}

#[test]
fn test_threshold_min_only() {
    let field = make_threshold_field();
    let filter = ThresholdFilter { min_bits: Some(f(20.0)), max_bits: None };

    let result = filter.process(&field).unwrap();

    for az in 0..3 {
        for gate in 0..5 {
            let input_value = (az * 5 + gate) as f32 * 5.0;
            let (val, status) = value(&result, az, gate);
            if input_value < 20.0 {
                assert_eq!(status, GateStatus::NoData);
                assert_eq!(val, 0.0);
            } else {
                assert_eq!(status, GateStatus::Valid);
                assert_eq!(val, input_value);
            }
        }
    }
}

#[test]
fn test_threshold_max_only() {
    let field = make_threshold_field();
    let filter = ThresholdFilter { min_bits: None, max_bits: Some(f(40.0)) };

    let result = filter.process(&field).unwrap();

    for az in 0..3 {
        for gate in 0..5 {
            let input_value = (az * 5 + gate) as f32 * 5.0;
            let (_, status) = value(&result, az, gate);
            if input_value > 40.0 {
                assert_eq!(status, GateStatus::NoData);
            } else {
                assert_eq!(status, GateStatus::Valid);
            }
        }
    }
}

#[test]
fn test_threshold_both_bounds() {
    let field = make_threshold_field();
    let filter = ThresholdFilter { min_bits: Some(f(15.0)), max_bits: Some(f(50.0)) };

    let result = filter.process(&field).unwrap();

    for az in 0..3 {
        for gate in 0..5 {
            let input_value = (az * 5 + gate) as f32 * 5.0;
            let (_, status) = value(&result, az, gate);
            if input_value < 15.0 || input_value > 50.0 {
                assert_eq!(status, GateStatus::NoData);
            } else {
                assert_eq!(status, GateStatus::Valid);
            }
        }
    }
}

#[test]
fn test_threshold_preserves_nodata() {
    let mut field = make_threshold_field();
    field.set(1, 2, f(0.0), GateStatus::NoData);

    let filter = ThresholdFilter { min_bits: Some(f(0.0)), max_bits: None };

    let result = filter.process(&field).unwrap();
    let (_, status) = value(&result, 1, 2);
    assert_eq!(status, GateStatus::NoData);
}

#[test]
fn test_threshold_no_bounds() {
    let field = make_threshold_field();
    let filter = ThresholdFilter { min_bits: None, max_bits: None };

    let result = filter.process(&field).unwrap();

    // All valid values should remain valid
    for az in 0..3 {
        for gate in 0..5 {
            let (orig_val, _) = value(&field, az, gate);
            let (result_val, result_status) = value(&result, az, gate);
            assert_eq!(result_val, orig_val);
            assert_eq!(result_status, GateStatus::Valid);
        }
    }
}

#[test]
fn threshold_compares_negative_values_and_zeros() {
    let mut field = SweepField::new_empty("T", "dB", f(0.5), vec![f(0.0)], f(1.0), 0, 0, 4);
    for (gate, v) in [-5.0f32, -0.0, 0.0, 3.0].iter().enumerate() {
        field.set(0, gate, f(*v), GateStatus::Valid);
    }
    let out = ThresholdFilter { min_bits: Some(f(0.0)), max_bits: Some(f(-1.0)) }.process(&field).unwrap();
    let statuses: Vec<GateStatus> = (0..4).map(|g| value(&out, 0, g).1).collect();
    // -5 is below 0.0; -0.0 and 0.0 are above -1.0; so is 3.0.
    assert_eq!(statuses, vec![GateStatus::NoData; 4]);
    let out = ThresholdFilter { min_bits: Some(f(0.0)), max_bits: None }.process(&field).unwrap();
    let statuses: Vec<GateStatus> = (0..4).map(|g| value(&out, 0, g).1).collect();
    assert_eq!(statuses, vec![GateStatus::NoData, GateStatus::Valid, GateStatus::Valid, GateStatus::Valid]);
}

#[test]
fn test_cref_empty_fields_error() {
    let result = CompositeReflectivity.check_inputs(0, (10, 10));
    assert!(result.is_err());
}

#[test]
fn composite_input_errors() {
    assert_eq!(CompositeReflectivity.check_inputs(0, (0, 10)), Err(Error::MissingData("no sweep fields provided".to_string())));
    assert_eq!(
        CompositeReflectivity.check_inputs(2, (0, 10)),
        Err(Error::InvalidParameter("output resolution must be > 0".to_string()))
    );
    assert_eq!(CompositeReflectivity.check_inputs(2, (800, 800)), Ok(()));
    assert_eq!(CompositeReflectivity.name(), "CompositeReflectivity");
}
