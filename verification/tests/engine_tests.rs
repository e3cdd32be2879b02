use cloud_speed::engine::{
    DataBlock, EngineAction, EnginePhase, SpeedTestOutput, TestConfig, TestEngine,
};
use cloud_speed::fixed::Fixed;
use cloud_speed::harness::TestResults;
use cloud_speed::measurements::{BandwidthMeasurement, LatencyDirection};
use cloud_speed::retry::RetryConfig;
use cloud_speed::tui::progress::{BandwidthDirection, ProgressEvent, TestPhase};
use std::time::Duration;

/// The fixed-point number nearest to `x`.
fn fx(x: f64) -> Fixed {
    Fixed::from_millionths((x * 1_000_000.0).round() as i64)
}

fn fxs(xs: &[f64]) -> Vec<Fixed> {
    xs.iter().map(|x| fx(*x)).collect()
}

/// The timings of a transfer that took `duration_ms` with a TCP handshake of
/// `tcp_ms`.
fn timed(bytes: u64, tcp_ms: u64, duration_ms: u64) -> TestResults {
    TestResults::new(
        Duration::from_millis(tcp_ms),
        Duration::from_millis(1),
        Duration::from_millis(0),
        Duration::from_millis(duration_ms),
        bytes,
    )
}

fn config(download: &[(u64, usize)], upload: &[(u64, usize)], probes: usize) -> TestConfig {
    TestConfig {
        download_sizes: download.iter().map(|(b, c)| DataBlock::new(*b, *c)).collect(),
        upload_sizes: upload.iter().map(|(b, c)| DataBlock::new(*b, *c)).collect(),
        latency_packets: probes,
        ..TestConfig::default()
    }
}

/// Runs the warm-up and the idle latency phase with probes of the given
/// handshake times (`None` for a failed probe).
fn through_latency(engine: &mut TestEngine, probes: &[Option<u64>]) {
    assert_eq!(
        engine.next_action(),
        EngineAction::ProbeLatency { bytes: 1000, current: 1, total: 1 }
    );
    engine.record_probe(Some(timed(1000, 5, 50)));
    assert_eq!(
        engine.next_action(),
        EngineAction::Transfer {
            direction: LatencyDirection::Download,
            bytes: 100_000,
            current: 1,
            total: 1,
            sample_latency: false,
        }
    );
    engine.record_transfer(Some(timed(100_000, 5, 50)), &vec![]);
    for (i, probe) in probes.iter().enumerate() {
        assert_eq!(
            engine.next_action(),
            EngineAction::ProbeLatency { bytes: 1000, current: i + 1, total: probes.len() }
        );
        engine.record_probe(probe.map(|tcp| timed(1000, tcp, 50)));
    }
}

fn transfer(direction: LatencyDirection, bytes: u64, current: usize, total: usize) -> EngineAction {
    EngineAction::Transfer { direction, bytes, current, total, sample_latency: true }
}

fn finished(engine: TestEngine) -> SpeedTestOutput {
    assert_eq!(engine.next_action(), EngineAction::Finish);
    assert_eq!(engine.phase(), EnginePhase::Complete);
    engine.finish().unwrap()
}

#[test]
fn test_config_default() {
    let config = TestConfig::default();
    assert_eq!(config.latency_packets, 20);
    assert_eq!(config.loaded_latency_throttle_ms, 400);
    assert_eq!(config.bandwidth_finish_duration_ms, fx(1000.0));
    assert_eq!(config.bandwidth_min_duration_ms, fx(10.0));
    assert_eq!(config.loaded_request_min_duration_ms, fx(250.0));
    assert_eq!(config.bandwidth_percentile, fx(0.9));
    assert_eq!(config.download_sizes.len(), 5);
    assert_eq!(config.upload_sizes.len(), 5);
}

#[test]
fn test_config_default_blocks() {
    let config = TestConfig::default();
    assert_eq!(
        config.download_sizes,
        vec![
            DataBlock::new(100_000, 10),
            DataBlock::new(1_000_000, 8),
            DataBlock::new(10_000_000, 6),
            DataBlock::new(25_000_000, 4),
            DataBlock::new(100_000_000, 3),
        ]
    );
    assert_eq!(
        config.upload_sizes,
        vec![
            DataBlock::new(100_000, 8),
            DataBlock::new(1_000_000, 6),
            DataBlock::new(10_000_000, 4),
            DataBlock::new(25_000_000, 4),
            DataBlock::new(50_000_000, 3),
        ]
    );
    assert_eq!(config.retry_config, RetryConfig::new(3, 100, 5000));
}

#[test]
fn test_data_block_new() {
    let block = DataBlock::new(100_000, 10);
    assert_eq!(block.bytes, 100_000);
    assert_eq!(block.count, 10);
}

#[test]
fn test_calculate_block_speed_empty() {
    let engine = TestEngine::new(TestConfig::default());
    let measurements: Vec<BandwidthMeasurement> = vec![];
    let speed = engine.calculate_block_speed(&measurements);
    assert_eq!(speed, fx(0.0));
}

#[test]
fn test_calculate_block_speed_all_filtered() {
    let engine = TestEngine::new(TestConfig::default());
    let measurements = vec![BandwidthMeasurement {
        bytes: 100_000,
        bandwidth_bps: fx(8_000_000.0),
        duration_ms: fx(5.0), // Below 10ms threshold
        server_time_ms: fx(1.0),
        ttfb_ms: fx(2.0),
    }];
    let speed = engine.calculate_block_speed(&measurements);
    assert_eq!(speed, fx(0.0));
}

#[test]
fn test_calculate_block_speed_single_measurement() {
    let engine = TestEngine::new(TestConfig::default());
    let measurements = vec![BandwidthMeasurement {
        bytes: 100_000,
        bandwidth_bps: fx(10_000_000.0), // 10 Mbps
        duration_ms: fx(15.0),
        server_time_ms: fx(1.0),
        ttfb_ms: fx(5.0),
    }];
    let speed = engine.calculate_block_speed(&measurements);
    // 10_000_000 bps = 10 Mbps
    assert_eq!(speed, fx(10.0));
}

#[test]
fn test_early_termination_suppresses_larger_download_blocks() {
    // A download block of 100000 bytes, 3 iterations, with durations 1200 ms,
    // 50 ms, 50 ms against a finish duration of 1000 ms.
    let mut engine = TestEngine::new(config(
        &[(100_000, 3), (1_000_000, 2), (10_000_000, 2)],
        &[(100_000, 1), (1_000_000, 1)],
        1,
    ));
    through_latency(&mut engine, &[Some(12)]);

    let durations = [1200, 50, 50];
    for (i, d) in durations.iter().enumerate() {
        // The block is not cut short.
        assert_eq!(
            engine.next_action(),
            transfer(LatencyDirection::Download, 100_000, i + 1, 3)
        );
        engine.record_transfer(Some(timed(100_000, 5, *d)), &vec![]);
    }
    // The upload block of the same index follows; no larger download block does.
    assert_eq!(engine.next_action(), transfer(LatencyDirection::Upload, 100_000, 1, 1));
    engine.record_transfer(Some(timed(100_000, 5, 40)), &vec![]);
    assert_eq!(engine.next_action(), transfer(LatencyDirection::Upload, 1_000_000, 1, 1));
    engine.record_transfer(Some(timed(1_000_000, 5, 400)), &vec![]);

    let output = finished(engine);
    assert!(output.download.early_terminated);
    assert_eq!(output.download.measurements.len(), 1);
    let block = &output.download.measurements[0];
    assert!(block.triggered_early_termination);
    assert_eq!(block.bytes, 100_000);
    assert_eq!(block.count, 3);
    assert_eq!(block.measurements.len(), 3);
    assert_eq!(
        block.measurements.iter().map(|m| m.duration_ms).collect::<Vec<_>>(),
        fxs(&[1200.0, 50.0, 50.0])
    );
    // Uploads were not affected.
    assert!(!output.upload.early_terminated);
    assert_eq!(output.upload.measurements.len(), 2);
    assert!(!output.upload.measurements[0].triggered_early_termination);
    assert!(!output.upload.measurements[1].triggered_early_termination);
}

#[test]
fn test_interleaving_and_speeds() {
    let mut engine = TestEngine::new(config(&[(1000, 2), (2000, 1)], &[(3000, 1)], 3));
    through_latency(&mut engine, &[Some(30), None, Some(10)]);

    // Index 0: download, then upload; index 1: download only.
    assert_eq!(engine.next_action(), transfer(LatencyDirection::Download, 1000, 1, 2));
    // 1000 bytes in 20 ms: 400 000 bps.
    engine.record_transfer(Some(timed(1000, 5, 20)), &vec![]);
    assert_eq!(engine.next_action(), transfer(LatencyDirection::Download, 1000, 2, 2));
    // A failed iteration is not counted.
    engine.record_transfer(None, &fxs(&[77.0]));
    assert_eq!(engine.next_action(), transfer(LatencyDirection::Upload, 3000, 1, 1));
    // 3000 bytes in 5 ms: recorded, but too short to count for the speed.
    engine.record_transfer(Some(timed(3000, 5, 5)), &vec![]);
    assert_eq!(engine.next_action(), transfer(LatencyDirection::Download, 2000, 1, 1));
    // 2000 bytes in 10 ms: 1 600 000 bps.
    engine.record_transfer(Some(timed(2000, 5, 10)), &vec![]);

    let output = finished(engine);
    // Idle latency: median and jitter of the handshakes that succeeded.
    assert_eq!(output.latency.idle_ms, fx(20.0));
    assert_eq!(output.latency.idle_jitter_ms, Some(fx(20.0)));
    assert_eq!(output.latency.loaded_down_ms, None);
    assert_eq!(output.latency.loaded_down_jitter_ms, None);
    assert_eq!(output.latency.loaded_up_ms, None);
    assert_eq!(output.latency.loaded_up_jitter_ms, None);

    assert_eq!(output.download.measurements.len(), 2);
    let first = &output.download.measurements[0];
    assert_eq!((first.bytes, first.count), (1000, 1));
    assert_eq!(first.speed_mbps, fx(0.4));
    assert_eq!(first.measurements[0].bandwidth_bps, fx(400_000.0));
    assert_eq!(first.measurements[0].duration_ms, fx(20.0));
    assert_eq!(first.measurements[0].ttfb_ms, fx(1.0));
    assert_eq!(first.measurements[0].server_time_ms, fx(0.0));
    let second = &output.download.measurements[1];
    assert_eq!((second.bytes, second.count), (2000, 1));
    assert_eq!(second.speed_mbps, fx(1.6));
    // Overall: the 90th percentile of 0.4 and 1.6 Mbps.
    assert_eq!(output.download.speed_mbps, fx(1.48));
    assert!(!output.download.early_terminated);

    // The short upload is in the list and counted, but gives no speed.
    assert_eq!(output.upload.measurements.len(), 1);
    let up = &output.upload.measurements[0];
    assert_eq!((up.bytes, up.count), (3000, 1));
    assert_eq!(up.measurements.len(), 1);
    assert_eq!(up.speed_mbps, fx(0.0));
    assert_eq!(output.upload.speed_mbps, fx(0.0));
}

#[test]
fn test_loaded_latencies_are_collected_per_direction() {
    let mut engine = TestEngine::new(config(&[(1000, 2)], &[(1000, 2)], 1));
    through_latency(&mut engine, &[Some(10)]);

    // A download of 300 ms: its samples count.
    engine.record_transfer(Some(timed(1000, 5, 300)), &fxs(&[11.0, 13.0]));
    // A download of 249 ms: its samples are rejected.
    engine.record_transfer(Some(timed(1000, 5, 249)), &fxs(&[99.0]));
    // An upload of exactly 250 ms: its samples count.
    engine.record_transfer(Some(timed(1000, 5, 250)), &fxs(&[40.0]));
    // A failed upload: its samples are dropped.
    engine.record_transfer(None, &fxs(&[1.0, 2.0, 3.0]));

    let output = finished(engine);
    assert_eq!(output.latency.loaded_down_ms, Some(fx(12.0)));
    assert_eq!(output.latency.loaded_down_jitter_ms, Some(fx(2.0)));
    assert_eq!(output.latency.loaded_up_ms, Some(fx(40.0)));
    assert_eq!(output.latency.loaded_up_jitter_ms, None);
}

#[test]
fn test_loaded_latencies_keep_the_last_twenty() {
    let mut engine = TestEngine::new(config(&[(1000, 1)], &[], 1));
    through_latency(&mut engine, &[Some(10)]);
    let samples: Vec<Fixed> = (1..=25).map(|i| fx(i as f64)).collect();
    engine.record_transfer(Some(timed(1000, 5, 300)), &samples);
    let output = finished(engine);
    // Samples 6 to 25 remain: median 15.5, every step 1.
    assert_eq!(output.latency.loaded_down_ms, Some(fx(15.5)));
    assert_eq!(output.latency.loaded_down_jitter_ms, Some(fx(1.0)));
}

#[test]
fn test_all_latency_probes_failing_is_fatal() {
    let mut engine = TestEngine::new(config(&[(1000, 1)], &[(1000, 1)], 3));
    through_latency(&mut engine, &[None, None, None]);
    assert_eq!(engine.phase(), EnginePhase::Failed);
    assert_eq!(engine.next_action(), EngineAction::Finish);
    assert_eq!(
        engine.finish().err(),
        Some("All 3 latency measurements failed".to_string())
    );
}

#[test]
fn test_no_latency_probes_is_fatal() {
    let mut engine = TestEngine::new(config(&[(1000, 1)], &[], 0));
    through_latency(&mut engine, &[]);
    assert_eq!(engine.phase(), EnginePhase::Failed);
    assert_eq!(
        engine.finish().err(),
        Some("All 0 latency measurements failed".to_string())
    );
}

#[test]
fn test_warmup_failures_are_ignored() {
    let mut engine = TestEngine::new(config(&[], &[], 1));
    engine.record_probe(None);
    engine.record_transfer(None, &vec![]);
    assert_eq!(
        engine.next_action(),
        EngineAction::ProbeLatency { bytes: 1000, current: 1, total: 1 }
    );
    engine.record_probe(Some(timed(1000, 8, 50)));
    let output = finished(engine);
    assert_eq!(output.latency.idle_ms, fx(8.0));
    assert_eq!(output.latency.idle_jitter_ms, None);
    assert!(output.download.measurements.is_empty());
    assert_eq!(output.download.speed_mbps, fx(0.0));
    assert!(output.upload.measurements.is_empty());
}

#[test]
fn test_failed_measurements_never_abort_a_block() {
    let mut engine = TestEngine::new(config(&[(1000, 3), (2000, 1)], &[], 1));
    through_latency(&mut engine, &[Some(10)]);
    for i in 0..3 {
        assert_eq!(
            engine.next_action(),
            transfer(LatencyDirection::Download, 1000, i + 1, 3)
        );
        engine.record_transfer(None, &vec![]);
    }
    // The next block is run all the same.
    assert_eq!(engine.next_action(), transfer(LatencyDirection::Download, 2000, 1, 1));
    engine.record_transfer(None, &vec![]);
    let output = finished(engine);
    assert_eq!(output.download.measurements.len(), 2);
    assert_eq!(output.download.measurements[0].count, 0);
    assert_eq!(output.download.measurements[0].speed_mbps, fx(0.0));
    assert_eq!(output.download.speed_mbps, fx(0.0));
    assert!(!output.download.early_terminated);
}

#[test]
fn test_events_out_of_turn_change_nothing() {
    let mut engine = TestEngine::new(config(&[(1000, 1)], &[], 1));
    // A transfer reported while the first probe is due.
    engine.record_transfer(Some(timed(1000, 5, 50)), &vec![]);
    assert_eq!(engine.phase(), EnginePhase::WarmupLatency);
    engine.record_probe(None);
    // A probe reported while the warm-up download is due.
    engine.record_probe(Some(timed(1000, 5, 50)));
    assert_eq!(engine.phase(), EnginePhase::WarmupDownload);
    engine.record_transfer(None, &vec![]);
    assert_eq!(engine.phase(), EnginePhase::Latency);
    engine.record_probe(Some(timed(1000, 5, 50)));
    assert_eq!(engine.phase(), EnginePhase::Bandwidth);
    // A probe reported while a transfer is due.
    engine.record_probe(Some(timed(1000, 5, 50)));
    assert_eq!(engine.next_action(), transfer(LatencyDirection::Download, 1000, 1, 1));
    engine.record_transfer(Some(timed(1000, 5, 50)), &vec![]);
    // Anything reported once the run is complete.
    engine.record_probe(None);
    engine.record_transfer(None, &vec![]);
    let output = finished(engine);
    assert_eq!(output.download.measurements.len(), 1);
    assert_eq!(output.latency.idle_ms, fx(5.0));
}

#[test]
fn test_blocks_without_iterations_are_recorded_empty() {
    let mut engine = TestEngine::new(config(&[(1000, 0), (2000, 1)], &[(500, 0)], 1));
    through_latency(&mut engine, &[Some(10)]);
    assert_eq!(engine.next_action(), transfer(LatencyDirection::Download, 2000, 1, 1));
    engine.record_transfer(Some(timed(2000, 5, 2000)), &vec![]);
    let output = finished(engine);
    assert_eq!(output.download.measurements.len(), 2);
    assert_eq!(output.download.measurements[0].bytes, 1000);
    assert_eq!(output.download.measurements[0].count, 0);
    assert!(!output.download.measurements[0].triggered_early_termination);
    assert!(output.download.measurements[1].triggered_early_termination);
    assert!(output.download.early_terminated);
    assert_eq!(output.upload.measurements.len(), 1);
    assert_eq!(output.upload.measurements[0].count, 0);
}

#[test]
fn test_upload_timings() {
    let up = TestResults::upload(Duration::from_millis(7), Duration::from_millis(500), 1_000_000);
    assert_eq!(up.ttfb_duration, Duration::from_millis(500));
    assert_eq!(up.end_duration, Duration::from_millis(500));
    assert_eq!(up.server_time, Duration::ZERO);
    let m = up.to_bandwidth_measurement();
    // 8 000 000 bits in half a second.
    assert_eq!(m.bandwidth_bps, fx(16_000_000.0));
    assert_eq!(m.duration_ms, fx(500.0));
    assert_eq!(m.server_time_ms, fx(0.0));
    assert_eq!(m.bytes, 1_000_000);
    assert_eq!(up.tcp_latency_ms(), fx(7.0));

    // A download: the server time is deducted.
    let down = TestResults::new(
        Duration::from_millis(7),
        Duration::from_millis(30),
        Duration::from_millis(100),
        Duration::from_millis(600),
        1_000_000,
    );
    let m = down.to_bandwidth_measurement();
    assert_eq!(m.bandwidth_bps, fx(16_000_000.0));
    assert_eq!(m.duration_ms, fx(600.0));
    assert_eq!(m.server_time_ms, fx(100.0));
    assert_eq!(m.ttfb_ms, fx(30.0));
}

#[test]
fn test_progress_events_of_a_run() {
    let mut engine = TestEngine::new(config(&[(1000, 2), (2000, 1)], &[(3000, 1)], 2));
    // The warm-up probe changes nothing that is shown.
    assert_eq!(engine.record_probe(Some(timed(1000, 5, 50))), vec![]);
    // The warm-up download opens the latency phase.
    assert_eq!(
        engine.record_transfer(Some(timed(100_000, 5, 50)), &vec![]),
        vec![ProgressEvent::PhaseChange(TestPhase::Latency)]
    );
    // A failed probe is not announced.
    assert_eq!(engine.record_probe(None), vec![]);
    assert_eq!(
        engine.record_probe(Some(timed(1000, 9, 50))),
        vec![
            ProgressEvent::LatencyMeasurement { value_ms: fx(9.0), current: 2, total: 2 },
            ProgressEvent::PhaseComplete(TestPhase::Latency),
            ProgressEvent::PhaseChange(TestPhase::Download),
        ]
    );
    // 1000 bytes in 20 ms: 0.4 Mbps.
    assert_eq!(
        engine.record_transfer(Some(timed(1000, 5, 20)), &vec![]),
        vec![ProgressEvent::BandwidthMeasurement {
            direction: BandwidthDirection::Download,
            speed_mbps: fx(0.4),
            bytes: 1000,
            current: 1,
            total: 2,
        }]
    );
    // A failed transfer closes the block; the upload block is due.
    assert_eq!(
        engine.record_transfer(None, &vec![]),
        vec![ProgressEvent::PhaseChange(TestPhase::Upload)]
    );
    // The only upload block: uploads are complete, downloads go on.
    assert_eq!(
        engine.record_transfer(Some(timed(3000, 5, 10)), &vec![]),
        vec![
            ProgressEvent::BandwidthMeasurement {
                direction: BandwidthDirection::Upload,
                speed_mbps: fx(2.4),
                bytes: 3000,
                current: 1,
                total: 1,
            },
            ProgressEvent::PhaseComplete(TestPhase::Upload),
            ProgressEvent::PhaseChange(TestPhase::Download),
        ]
    );
    assert_eq!(
        engine.record_transfer(Some(timed(2000, 5, 10)), &vec![]),
        vec![
            ProgressEvent::BandwidthMeasurement {
                direction: BandwidthDirection::Download,
                speed_mbps: fx(1.6),
                bytes: 2000,
                current: 1,
                total: 1,
            },
            ProgressEvent::PhaseComplete(TestPhase::Download),
            ProgressEvent::PhaseChange(TestPhase::Complete),
        ]
    );
    // Nothing more happens.
    assert_eq!(engine.record_transfer(None, &vec![]), vec![]);
    assert_eq!(engine.record_probe(None), vec![]);
}

#[test]
fn test_progress_events_of_early_termination_and_failure() {
    let mut engine = TestEngine::new(config(&[(1000, 1), (2000, 1)], &[(500, 1), (600, 1)], 1));
    through_latency(&mut engine, &[Some(10)]);
    // The download reaches the finish duration: downloads are complete at once.
    assert_eq!(
        engine.record_transfer(Some(timed(1000, 5, 1000)), &vec![]),
        vec![
            ProgressEvent::BandwidthMeasurement {
                direction: BandwidthDirection::Download,
                speed_mbps: fx(0.008),
                bytes: 1000,
                current: 1,
                total: 1,
            },
            ProgressEvent::PhaseComplete(TestPhase::Download),
            ProgressEvent::PhaseChange(TestPhase::Upload),
        ]
    );
    assert_eq!(engine.record_transfer(None, &vec![]), vec![]);
    assert_eq!(
        engine.record_transfer(None, &vec![]),
        vec![
            ProgressEvent::PhaseComplete(TestPhase::Upload),
            ProgressEvent::PhaseChange(TestPhase::Complete),
        ]
    );

    // A run whose latency probes all fail announces no completion.
    let mut failing = TestEngine::new(config(&[(1000, 1)], &[], 1));
    failing.record_probe(None);
    failing.record_transfer(None, &vec![]);
    assert_eq!(failing.record_probe(None), vec![]);
    assert_eq!(failing.phase(), EnginePhase::Failed);
}
