use cloud_speed::engine::{
    BandwidthResults as EngineBandwidthResults, LatencyResults as EngineLatencyResults,
    SizeMeasurement as EngineSizeMeasurement, SpeedTestOutput,
};
use cloud_speed::fixed::Fixed;
use cloud_speed::packet_loss::PacketLossResult;
use cloud_speed::results::{
    quality_score_to_string, AimScoresOutput, BandwidthResults, ConnectionMeta, LatencyResults,
    PacketLossResults, ServerLocation, SizeMeasurement, SpeedTestResults,
};
use cloud_speed::scoring::{AimScores, QualityScore};

/// The fixed-point number nearest to `x`.
fn fx(x: f64) -> Fixed {
    Fixed::from_millionths((x * 1_000_000.0).round() as i64)
}

#[test]
fn test_server_location_new() {
    let loc = ServerLocation::new("San Francisco".to_string(), "SFO".to_string());
    assert_eq!(loc.city, "San Francisco");
    assert_eq!(loc.iata, "SFO");
}

#[test]
fn test_connection_meta_new() {
    let meta = ConnectionMeta::new(
        "192.168.1.1".to_string(),
        "US".to_string(),
        "Example ISP".to_string(),
        12345,
    );
    assert_eq!(meta.ip, "192.168.1.1");
    assert_eq!(meta.country, "US");
    assert_eq!(meta.isp, "Example ISP");
    assert_eq!(meta.asn, 12345);
}

#[test]
fn test_latency_results_new() {
    let latency = LatencyResults::new(
        fx(15.5),
        Some(fx(2.3)),
        Some(fx(25.0)),
        Some(fx(5.0)),
        Some(fx(30.0)),
        Some(fx(6.0)),
    );
    assert_eq!(latency.idle_ms, fx(15.5));
    assert_eq!(latency.idle_jitter_ms.unwrap(), fx(2.3));
    assert_eq!(latency.loaded_down_ms.unwrap(), fx(25.0));
    assert_eq!(latency.loaded_down_jitter_ms, Some(fx(5.0)));
    assert_eq!(latency.loaded_up_ms, Some(fx(30.0)));
    assert_eq!(latency.loaded_up_jitter_ms, Some(fx(6.0)));
}

#[test]
fn test_latency_results_idle_only() {
    let latency = LatencyResults::idle_only(fx(15.5), Some(fx(2.3)));
    assert_eq!(latency.idle_ms, fx(15.5));
    assert_eq!(latency.idle_jitter_ms, Some(fx(2.3)));
    assert!(latency.loaded_down_ms.is_none());
    assert!(latency.loaded_up_ms.is_none());
    assert!(latency.loaded_down_jitter_ms.is_none());
    assert!(latency.loaded_up_jitter_ms.is_none());
}

#[test]
fn test_bandwidth_results_new() {
    let measurements = vec![
        SizeMeasurement::new(100_000, fx(50.0), 10),
        SizeMeasurement::new(1_000_000, fx(75.0), 8),
    ];
    let bandwidth = BandwidthResults::new(fx(80.0), measurements, false);
    assert_eq!(bandwidth.speed_mbps, fx(80.0));
    assert_eq!(bandwidth.measurements.len(), 2);
    assert!(!bandwidth.early_terminated);
}

#[test]
fn test_size_measurement_new() {
    let measurement = SizeMeasurement::new(100_000, fx(50.0), 10);
    assert_eq!(measurement.bytes, 100_000);
    assert_eq!(measurement.speed_mbps, fx(50.0));
    assert_eq!(measurement.count, 10);
}

#[test]
fn test_packet_loss_results_new() {
    let pl = PacketLossResults::new(fx(0.05), 1000, 50, 950, Some(fx(15.5)));
    assert_eq!(pl.ratio, fx(0.05));
    assert_eq!(pl.percent, fx(5.0));
    assert_eq!(pl.packets_sent, 1000);
    assert_eq!(pl.packets_lost, 50);
    assert_eq!(pl.packets_received, 950);
    assert_eq!(pl.avg_rtt_ms, Some(fx(15.5)));
}

#[test]
fn test_aim_scores_output() {
    let scores = AimScores::new(QualityScore::Great, QualityScore::Good, QualityScore::Average);
    let output = AimScoresOutput::from_aim_scores(&scores);
    assert_eq!(output.streaming, "great");
    assert_eq!(output.gaming, "good");
    assert_eq!(output.video_conferencing, "average");
    assert_eq!(output.overall, "average");
}

#[test]
fn test_quality_score_to_string() {
    assert_eq!(quality_score_to_string(&QualityScore::Great), "great");
    assert_eq!(quality_score_to_string(&QualityScore::Good), "good");
    assert_eq!(quality_score_to_string(&QualityScore::Average), "average");
    assert_eq!(quality_score_to_string(&QualityScore::Poor), "poor");
}

fn engine_output() -> SpeedTestOutput {
    SpeedTestOutput {
        latency: EngineLatencyResults {
            idle_ms: fx(20.0),
            idle_jitter_ms: None,
            loaded_down_ms: Some(fx(35.0)),
            loaded_down_jitter_ms: Some(fx(3.0)),
            loaded_up_ms: None,
            loaded_up_jitter_ms: None,
        },
        download: EngineBandwidthResults {
            speed_mbps: fx(100.0),
            measurements: vec![
                EngineSizeMeasurement {
                    bytes: 100_000,
                    speed_mbps: fx(90.0),
                    count: 2,
                    measurements: vec![],
                    triggered_early_termination: false,
                },
                EngineSizeMeasurement {
                    bytes: 1_000_000,
                    speed_mbps: fx(110.0),
                    count: 1,
                    measurements: vec![],
                    triggered_early_termination: true,
                },
            ],
            early_terminated: true,
        },
        upload: EngineBandwidthResults {
            speed_mbps: fx(7.0),
            measurements: vec![],
            early_terminated: false,
        },
    }
}

#[test]
fn test_from_engine_conversions() {
    let output = engine_output();
    let latency = LatencyResults::from_engine(&output.latency);
    assert_eq!(latency.idle_ms, fx(20.0));
    assert_eq!(latency.idle_jitter_ms, None);
    assert_eq!(latency.loaded_down_ms, Some(fx(35.0)));
    assert_eq!(latency.loaded_down_jitter_ms, Some(fx(3.0)));
    let download = BandwidthResults::from_engine(&output.download);
    assert_eq!(download.speed_mbps, fx(100.0));
    assert!(download.early_terminated);
    assert_eq!(
        download.measurements,
        vec![
            SizeMeasurement::new(100_000, fx(90.0), 2),
            SizeMeasurement::new(1_000_000, fx(110.0), 1),
        ]
    );
    let size = SizeMeasurement::from_engine(&output.download.measurements[1]);
    assert_eq!(size, SizeMeasurement::new(1_000_000, fx(110.0), 1));
    let loss = PacketLossResults::from_engine(&PacketLossResult::new(200, 150, Some(fx(9.0))));
    assert_eq!(loss.ratio, fx(0.25));
    assert_eq!(loss.percent, fx(25.0));
    assert_eq!(loss.packets_sent, 200);
    assert_eq!(loss.packets_lost, 50);
    assert_eq!(loss.packets_received, 150);
    assert_eq!(loss.avg_rtt_ms, Some(fx(9.0)));
}

#[test]
fn test_speed_test_results_from_parts() {
    let results = SpeedTestResults::new_at(
        1_700_000_000_000,
        ServerLocation::new("San Francisco".to_string(), "SFO".to_string()),
        ConnectionMeta::new("192.168.1.1".to_string(), "US".to_string(), "ISP".to_string(), 1),
        LatencyResults::idle_only(fx(15.5), Some(fx(2.3))),
        BandwidthResults::new(fx(100.0), vec![], false),
        BandwidthResults::new(fx(50.0), vec![], false),
        None,
        AimScoresOutput {
            streaming: "great".to_string(),
            gaming: "good".to_string(),
            video_conferencing: "good".to_string(),
            overall: "good".to_string(),
        },
    );
    assert_eq!(results.timestamp, 1_700_000_000_000);
    assert_eq!(results.server.iata, "SFO");
    assert_eq!(results.connection.asn, 1);
    assert_eq!(results.download.speed_mbps, fx(100.0));
    assert_eq!(results.upload.speed_mbps, fx(50.0));
    assert!(results.packet_loss.is_none());
    assert_eq!(results.scores.overall, "good");
}

#[test]
fn test_speed_test_results_from_engine_output() {
    let output = engine_output();
    let server = ServerLocation::new("Berlin".to_string(), "TXL".to_string());
    let connection =
        ConnectionMeta::new("10.0.0.1".to_string(), "DE".to_string(), "ISP".to_string(), 7);
    // Without packet loss: 100 Mbps down, 7 Mbps up, loaded latency 35 ms, no jitter.
    let results =
        SpeedTestResults::from_engine_output_at(42, &output, server.clone(), connection.clone(), None);
    assert_eq!(results.timestamp, 42);
    assert_eq!(results.server.city, "Berlin");
    assert_eq!(results.connection.country, "DE");
    assert!(results.packet_loss.is_none());
    assert_eq!(results.latency.idle_ms, fx(20.0));
    assert_eq!(results.download.measurements.len(), 2);
    assert_eq!(results.scores.streaming, "great");
    // Gaming: loaded latency 35 ms is good.
    assert_eq!(results.scores.gaming, "good");
    // Video conferencing: 7 Mbps up is good, latency (download, 35 ms) great.
    assert_eq!(results.scores.video_conferencing, "good");
    assert_eq!(results.scores.overall, "good");

    // A measurement in which nothing was sent is left out.
    let unavailable = PacketLossResult::unavailable();
    let results = SpeedTestResults::from_engine_output_at(
        42,
        &output,
        server.clone(),
        connection.clone(),
        Some(&unavailable),
    );
    assert!(results.packet_loss.is_none());
    assert_eq!(results.scores.gaming, "good");

    // Ten percent lost makes gaming and video conferencing poor.
    let lossy = PacketLossResult::new(100, 90, None);
    let results =
        SpeedTestResults::from_engine_output_at(42, &output, server, connection, Some(&lossy));
    let reported = results.packet_loss.unwrap();
    assert_eq!(reported.ratio, fx(0.1));
    assert_eq!(reported.percent, fx(10.0));
    assert_eq!(reported.packets_lost, 10);
    assert_eq!(results.scores.streaming, "great");
    assert_eq!(results.scores.gaming, "poor");
    assert_eq!(results.scores.video_conferencing, "poor");
    assert_eq!(results.scores.overall, "poor");
}

#[test]
fn test_speed_test_results_are_stamped_with_the_clock() {
    let results = SpeedTestResults::new(
        ServerLocation::new("San Francisco".to_string(), "SFO".to_string()),
        ConnectionMeta::new("192.168.1.1".to_string(), "US".to_string(), "ISP".to_string(), 1),
        LatencyResults::idle_only(fx(15.5), Some(fx(2.3))),
        BandwidthResults::new(fx(100.0), vec![], false),
        BandwidthResults::new(fx(50.0), vec![], false),
        None,
        AimScoresOutput {
            streaming: "great".to_string(),
            gaming: "good".to_string(),
            video_conferencing: "good".to_string(),
            overall: "good".to_string(),
        },
    );
    assert!(results.timestamp >= 0);
    assert_eq!(results.server.city, "San Francisco");
    assert_eq!(results.latency.idle_ms, fx(15.5));
    assert_eq!(results.scores.streaming, "great");

    let output = engine_output();
    let stamped = SpeedTestResults::from_engine_output(
        &output,
        ServerLocation::new("Berlin".to_string(), "TXL".to_string()),
        ConnectionMeta::new("10.0.0.1".to_string(), "DE".to_string(), "ISP".to_string(), 7),
        None,
    );
    assert!(stamped.timestamp >= 0);
    assert_eq!(stamped.server.iata, "TXL");
    assert_eq!(stamped.scores.overall, "good");
}
