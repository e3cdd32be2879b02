use cloud_speed::fixed::Fixed;
use cloud_speed::measurements::{
    aggregate_bandwidth, bandwidth_bps, calculate_bandwidth_bps, calculate_speed_mbps, jitter_f64,
    latency_f64, BandwidthMeasurement, LatencyDirection, LoadedLatencyCollector,
};
use std::time::Duration;

/// The fixed-point number nearest to `x`.
fn fx(x: f64) -> Fixed {
    Fixed::from_millionths((x * 1_000_000.0).round() as i64)
}

fn fxs(xs: &[f64]) -> Vec<Fixed> {
    xs.iter().map(|x| fx(*x)).collect()
}

fn measurement(bandwidth_bps: f64, duration_ms: f64, ttfb_ms: f64) -> BandwidthMeasurement {
    BandwidthMeasurement {
        bytes: 100000,
        bandwidth_bps: fx(bandwidth_bps),
        duration_ms: fx(duration_ms),
        server_time_ms: fx(1.0),
        ttfb_ms: fx(ttfb_ms),
    }
}

// calculate_bandwidth_bps

#[test]
fn test_calculate_bandwidth_bps_basic() {
    // 1000 bytes in 1 second = 8000 bps
    let result = calculate_bandwidth_bps(1000, Duration::from_secs(1), Duration::from_secs(0));
    assert_eq!(result, fx(8000.0));
}

#[test]
fn test_calculate_bandwidth_bps_with_server_time() {
    // 1000 bytes, 1 second total, 0.5 second server time = 0.5 second transfer
    // 8000 bits / 0.5 seconds = 16000 bps
    let result =
        calculate_bandwidth_bps(1000, Duration::from_secs(1), Duration::from_millis(500));
    assert_eq!(result, fx(16000.0));
}

#[test]
fn test_calculate_bandwidth_bps_duration_equals_server_time() {
    let result = calculate_bandwidth_bps(1000, Duration::from_secs(1), Duration::from_secs(1));
    assert_eq!(result, fx(0.0));
}

#[test]
fn test_calculate_bandwidth_bps_duration_less_than_server_time() {
    let result =
        calculate_bandwidth_bps(1000, Duration::from_millis(500), Duration::from_secs(1));
    assert_eq!(result, fx(0.0));
}

#[test]
fn test_bandwidth_bps_rounding_and_saturation() {
    // 1 byte in 3 ns: 8e15 / 3 millionths of a bit per second, rounded down.
    assert_eq!(bandwidth_bps(1, 3, 0), Fixed::from_millionths(2_666_666_666_666_666));
    // The largest byte count in one nanosecond does not fit and saturates.
    assert_eq!(bandwidth_bps(u64::MAX, 1, 0), Fixed::from_millionths(i64::MAX));
    // Nothing transferred.
    assert_eq!(bandwidth_bps(0, 10, 0), Fixed::from_millionths(0));
    // Twice the bytes, twice the bandwidth; twice the time, half of it.
    let base = bandwidth_bps(1_000_000, 2_000_000_000, 0);
    assert_eq!(base, fx(4_000_000.0));
    assert_eq!(bandwidth_bps(2_000_000, 2_000_000_000, 0), fx(8_000_000.0));
    assert_eq!(bandwidth_bps(1_000_000, 4_000_000_000, 0), fx(2_000_000.0));
    assert_eq!(bandwidth_bps(1_000_000, 4_500_000_000, 500_000_000), fx(2_000_000.0));
}

// calculate_speed_mbps

#[test]
fn test_calculate_speed_mbps_basic() {
    // 1,000,000 bps = 1 Mbps
    assert_eq!(calculate_speed_mbps(fx(1_000_000.0)), fx(1.0));
}

#[test]
fn test_calculate_speed_mbps_large_value() {
    // 100,000,000 bps = 100 Mbps
    assert_eq!(calculate_speed_mbps(fx(100_000_000.0)), fx(100.0));
}

#[test]
fn test_calculate_speed_mbps_zero() {
    assert_eq!(calculate_speed_mbps(fx(0.0)), fx(0.0));
}

#[test]
fn test_calculate_speed_mbps_rounds_down() {
    assert_eq!(
        calculate_speed_mbps(Fixed::from_millionths(1_999_999)),
        Fixed::from_millionths(1)
    );
    assert_eq!(
        calculate_speed_mbps(Fixed::from_millionths(-1)),
        Fixed::from_millionths(-1)
    );
    assert_eq!(
        calculate_speed_mbps(Fixed::from_millionths(-1_000_000)),
        Fixed::from_millionths(-1)
    );
    assert_eq!(calculate_speed_mbps(fx(11_800_000.0)), fx(11.8));
}

// jitter_f64

#[test]
fn test_jitter_f64_basic() {
    // Measurements: [10.0, 15.0, 12.0, 18.0]
    // Differences: |15-10|=5, |12-15|=3, |18-12|=6
    // Mean: (5 + 3 + 6) / 3 = 4.666...
    let measurements = fxs(&[10.0, 15.0, 12.0, 18.0]);
    let result = jitter_f64(&measurements).unwrap();
    assert_eq!(result, Fixed::from_millionths(4_666_666));
}

#[test]
fn test_jitter_f64_two_measurements() {
    let measurements = fxs(&[10.0, 15.0]);
    assert_eq!(jitter_f64(&measurements), Some(fx(5.0)));
}

#[test]
fn test_jitter_f64_single_measurement() {
    let measurements = fxs(&[10.0]);
    assert_eq!(jitter_f64(&measurements), None);
}

#[test]
fn test_jitter_f64_empty() {
    let measurements: Vec<Fixed> = vec![];
    assert_eq!(jitter_f64(&measurements), None);
}

#[test]
fn test_jitter_f64_constant_values() {
    let measurements = fxs(&[10.0, 10.0, 10.0, 10.0]);
    assert_eq!(jitter_f64(&measurements), Some(fx(0.0)));
}

#[test]
fn test_jitter_f64_always_non_negative() {
    let measurements = fxs(&[20.0, 10.0, 30.0, 5.0]);
    let result = jitter_f64(&measurements).unwrap();
    assert!(result >= fx(0.0));
}

#[test]
fn test_jitter_is_the_same_in_reverse() {
    let measurements = fxs(&[20.0, 10.0, 30.0, 5.0, 5.0, -7.25, 44.0]);
    let mut reversed = measurements.clone();
    reversed.reverse();
    assert_eq!(jitter_f64(&measurements), jitter_f64(&reversed));
    // |10| + |20| + |25| + 0 + |12.25| + |51.25| = 118.5 over 6.
    assert_eq!(jitter_f64(&measurements), Some(fx(19.75)));
}

#[test]
fn test_jitter_saturates() {
    let measurements =
        vec![Fixed::from_millionths(i64::MIN), Fixed::from_millionths(i64::MAX)];
    assert_eq!(jitter_f64(&measurements), Some(Fixed::from_millionths(i64::MAX)));
}

#[test]
fn test_latency_is_the_median() {
    assert_eq!(latency_f64(&fxs(&[30.0, 10.0, 20.0])), fx(20.0));
    assert_eq!(latency_f64(&fxs(&[30.0, 10.0])), fx(20.0));
    // The samples given are left as they are.
    let samples = fxs(&[3.0, 1.0, 2.0]);
    let _ = latency_f64(&samples);
    assert_eq!(samples, fxs(&[3.0, 1.0, 2.0]));
}

// aggregate_bandwidth

#[test]
fn test_aggregate_bandwidth_empty() {
    let measurements: Vec<BandwidthMeasurement> = vec![];
    assert_eq!(aggregate_bandwidth(&measurements, fx(0.9), fx(10.0)), None);
}

#[test]
fn test_aggregate_bandwidth_all_filtered() {
    let measurements = vec![
        measurement(8_000_000.0, 5.0, 2.0), // Below threshold
        measurement(9_000_000.0, 8.0, 3.0), // Below threshold
    ];
    assert_eq!(aggregate_bandwidth(&measurements, fx(0.9), fx(10.0)), None);
}

#[test]
fn test_aggregate_bandwidth_some_filtered() {
    let measurements = vec![
        measurement(8_000_000.0, 5.0, 2.0),   // Below threshold - filtered out
        measurement(10_000_000.0, 15.0, 3.0), // Above threshold - included
        measurement(12_000_000.0, 20.0, 4.0), // Above threshold - included
    ];
    // Only 10_000_000 and 12_000_000 are included
    // 90th percentile of [10_000_000, 12_000_000] = 11_800_000
    let result = aggregate_bandwidth(&measurements, fx(0.9), fx(10.0)).unwrap();
    assert_eq!(result, fx(11_800_000.0));
}

#[test]
fn test_aggregate_bandwidth_none_filtered() {
    let measurements = vec![
        measurement(8_000_000.0, 15.0, 2.0),
        measurement(10_000_000.0, 12.0, 3.0),
        measurement(12_000_000.0, 20.0, 4.0),
    ];
    // All measurements included: 50th percentile (median) = 10_000_000
    let result = aggregate_bandwidth(&measurements, fx(0.5), fx(10.0)).unwrap();
    assert_eq!(result, fx(10_000_000.0));
}

#[test]
fn test_aggregate_bandwidth_exact_threshold() {
    // Exactly at threshold - should be included
    let measurements = vec![measurement(8_000_000.0, 10.0, 2.0)];
    let result = aggregate_bandwidth(&measurements, fx(0.5), fx(10.0)).unwrap();
    assert_eq!(result, fx(8_000_000.0));
}

#[test]
fn test_aggregate_bandwidth_single_measurement() {
    let measurements = vec![measurement(8_000_000.0, 15.0, 2.0)];
    let result = aggregate_bandwidth(&measurements, fx(0.9), fx(10.0)).unwrap();
    assert_eq!(result, fx(8_000_000.0));
}

#[test]
fn test_aggregate_bandwidth_ignores_short_measurements_anywhere() {
    let base = vec![
        measurement(8_000_000.0, 15.0, 2.0),
        measurement(10_000_000.0, 12.0, 3.0),
        measurement(12_000_000.0, 20.0, 4.0),
    ];
    let expected = aggregate_bandwidth(&base, fx(0.9), fx(10.0));
    let short = measurement(999_000_000.0, 9.999999, 1.0);
    for at in 0..=base.len() {
        let mut with = base.clone();
        with.insert(at, short);
        assert_eq!(aggregate_bandwidth(&with, fx(0.9), fx(10.0)), expected);
    }
    // A percentile outside [0, 1] gives nothing even where measurements qualify.
    assert_eq!(aggregate_bandwidth(&base, fx(1.5), fx(10.0)), None);
}

// LoadedLatencyCollector

#[test]
fn test_loaded_latency_collector_new() {
    let collector = LoadedLatencyCollector::new();
    assert_eq!(collector.max_capacity(), LoadedLatencyCollector::DEFAULT_MAX_CAPACITY);
    assert!(collector.is_empty(LatencyDirection::Download));
    assert!(collector.is_empty(LatencyDirection::Upload));
}

#[test]
fn test_loaded_latency_collector_default() {
    let collector = LoadedLatencyCollector::default();
    assert_eq!(collector.max_capacity(), 20);
    assert_eq!(LoadedLatencyCollector::DEFAULT_MIN_REQUEST_DURATION_MS, 250_000_000);
    assert_eq!(collector.len(LatencyDirection::Download), 0);
}

#[test]
fn test_loaded_latency_collector_add_valid() {
    let mut collector = LoadedLatencyCollector::new();

    // Add a measurement with duration above threshold (250ms)
    let added = collector.add(LatencyDirection::Download, fx(15.5), fx(300.0));
    assert!(added);
    assert_eq!(collector.len(LatencyDirection::Download), 1);
    assert_eq!(collector.len(LatencyDirection::Upload), 0);

    let latencies = collector.get_latencies(LatencyDirection::Download);
    assert_eq!(latencies.len(), 1);
    assert_eq!(latencies[0], fx(15.5));
}

#[test]
fn test_loaded_latency_collector_filter_short_duration() {
    let mut collector = LoadedLatencyCollector::new();

    // Add a measurement with duration below threshold (< 250ms)
    let added = collector.add(LatencyDirection::Download, fx(15.5), fx(200.0));
    assert!(!added);
    assert!(collector.is_empty(LatencyDirection::Download));
}

#[test]
fn test_loaded_latency_collector_threshold_is_inclusive() {
    let mut collector = LoadedLatencyCollector::new();
    assert!(collector.add(LatencyDirection::Upload, fx(1.0), fx(250.0)));
    assert!(!collector.add(LatencyDirection::Upload, fx(2.0), fx(249.999999)));
    assert_eq!(collector.get_latencies(LatencyDirection::Upload), fxs(&[1.0]));
}

#[test]
fn test_loaded_latency_collector_fifo_eviction() {
    let mut collector = LoadedLatencyCollector::with_config(3, fx(250.0));

    // Add 3 measurements
    collector.add(LatencyDirection::Download, fx(10.0), fx(300.0));
    collector.add(LatencyDirection::Download, fx(20.0), fx(300.0));
    collector.add(LatencyDirection::Download, fx(30.0), fx(300.0));
    assert_eq!(collector.len(LatencyDirection::Download), 3);

    // Add a 4th measurement - should evict the first one
    collector.add(LatencyDirection::Download, fx(40.0), fx(300.0));
    assert_eq!(collector.len(LatencyDirection::Download), 3);

    let latencies = collector.get_latencies(LatencyDirection::Download);
    assert_eq!(latencies, fxs(&[20.0, 30.0, 40.0]));
}

#[test]
fn test_loaded_latency_collector_separate_directions() {
    let mut collector = LoadedLatencyCollector::new();

    collector.add(LatencyDirection::Download, fx(10.0), fx(300.0));
    collector.add(LatencyDirection::Upload, fx(20.0), fx(300.0));

    assert_eq!(collector.len(LatencyDirection::Download), 1);
    assert_eq!(collector.len(LatencyDirection::Upload), 1);

    let download_latencies = collector.get_latencies(LatencyDirection::Download);
    let upload_latencies = collector.get_latencies(LatencyDirection::Upload);

    assert_eq!(download_latencies, fxs(&[10.0]));
    assert_eq!(upload_latencies, fxs(&[20.0]));
}

#[test]
fn test_loaded_latency_collector_clear() {
    let mut collector = LoadedLatencyCollector::new();

    collector.add(LatencyDirection::Download, fx(10.0), fx(300.0));
    collector.add(LatencyDirection::Upload, fx(20.0), fx(300.0));

    collector.clear(LatencyDirection::Download);
    assert!(collector.is_empty(LatencyDirection::Download));
    assert!(!collector.is_empty(LatencyDirection::Upload));

    collector.clear_all();
    assert!(collector.is_empty(LatencyDirection::Download));
    assert!(collector.is_empty(LatencyDirection::Upload));
}

#[test]
fn test_loaded_latency_collector_never_exceeds_capacity() {
    let mut collector = LoadedLatencyCollector::new();
    for i in 0..100 {
        let direction =
            if i % 3 == 0 { LatencyDirection::Upload } else { LatencyDirection::Download };
        let duration = if i % 5 == 0 { fx(100.0) } else { fx(400.0) };
        let before_down = collector.get_latencies(LatencyDirection::Download);
        let before_up = collector.get_latencies(LatencyDirection::Upload);
        let added = collector.add(direction, fx(i as f64), duration);
        assert_eq!(added, i % 5 != 0);
        assert!(collector.len(LatencyDirection::Download) <= 20);
        assert!(collector.len(LatencyDirection::Upload) <= 20);
        let after_down = collector.get_latencies(LatencyDirection::Download);
        let after_up = collector.get_latencies(LatencyDirection::Upload);
        if !added {
            assert_eq!(before_down, after_down);
            assert_eq!(before_up, after_up);
        } else if direction == LatencyDirection::Upload {
            assert_eq!(before_down, after_down);
            assert_eq!(after_up.last(), Some(&fx(i as f64)));
        } else {
            assert_eq!(before_up, after_up);
            assert_eq!(after_down.last(), Some(&fx(i as f64)));
        }
    }
    // Downloads accepted: i not divisible by 3 nor 5; the last twenty of them, in order.
    let expected: Vec<Fixed> = (0..100)
        .filter(|i| i % 3 != 0 && i % 5 != 0)
        .map(|i| fx(i as f64))
        .collect();
    assert_eq!(
        collector.get_latencies(LatencyDirection::Download),
        expected[expected.len() - 20..].to_vec()
    );
}

#[test]
fn test_loaded_latency_collector_zero_capacity_holds_one() {
    let mut collector = LoadedLatencyCollector::with_config(0, fx(0.0));
    assert!(collector.add(LatencyDirection::Download, fx(1.0), fx(0.0)));
    assert!(collector.add(LatencyDirection::Download, fx(2.0), fx(0.0)));
    assert_eq!(collector.get_latencies(LatencyDirection::Download), fxs(&[2.0]));
    assert_eq!(collector.max_capacity(), 0);
}

#[test]
fn test_bandwidth_is_linear_in_bytes_and_inverse_in_time() {
    let server = Duration::from_millis(500);
    let one = calculate_bandwidth_bps(1000, Duration::from_millis(1000), server);
    assert_eq!(one, fx(16000.0));
    for k in [0u64, 1, 2, 7, 1000] {
        let many = calculate_bandwidth_bps(1000 * k, Duration::from_millis(1000), server);
        assert_eq!(many.millionths, one.millionths * k as i64);
    }
    for k in [1u64, 2, 5, 1000] {
        let slow = calculate_bandwidth_bps(1000, server + Duration::from_millis(500 * k), server);
        assert_eq!(slow.millionths * k as i64, one.millionths);
    }
    // Rounding breaks the exact proportion: one byte in three nanoseconds.
    let single = calculate_bandwidth_bps(1, Duration::from_nanos(3), Duration::ZERO);
    let double = calculate_bandwidth_bps(2, Duration::from_nanos(3), Duration::ZERO);
    assert_eq!(single.millionths, 2_666_666_666_666_666);
    assert_eq!(double.millionths, 5_333_333_333_333_333);
}

#[test]
fn test_bandwidth_proportion_holds_up_to_rounding() {
    let server = Duration::from_nanos(7);
    for bytes in [1u64, 3, 1000, 99_999, 500_000_000] {
        for transfer in [1u64, 3, 7, 1_000_003, 999_999_999, 86_400_000_000_007] {
            let one =
                calculate_bandwidth_bps(bytes, server + Duration::from_nanos(transfer), server);
            let twice_the_bytes =
                calculate_bandwidth_bps(2 * bytes, server + Duration::from_nanos(transfer), server);
            let twice_the_time =
                calculate_bandwidth_bps(bytes, server + Duration::from_nanos(2 * transfer), server);
            if twice_the_bytes.millionths < i64::MAX {
                let more = twice_the_bytes.millionths - 2 * one.millionths;
                assert!(more == 0 || more == 1, "{} bytes in {} ns", bytes, transfer);
            }
            if one.millionths < i64::MAX {
                let less = one.millionths - 2 * twice_the_time.millionths;
                assert!(less == 0 || less == 1, "{} bytes in {} ns", bytes, transfer);
            }
        }
    }
    // A transfer too slow for a millionth of a bit per second gives zero.
    assert_eq!(
        calculate_bandwidth_bps(1, Duration::from_nanos(8_000_000_000_000_001), Duration::ZERO)
            .millionths,
        0
    );
    assert_eq!(
        calculate_bandwidth_bps(1, Duration::from_nanos(8_000_000_000_000_000), Duration::ZERO)
            .millionths,
        1
    );
}
