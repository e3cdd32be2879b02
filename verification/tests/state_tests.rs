use cloud_speed::fixed::Fixed;
use cloud_speed::requests::{trace_pairs, RequestBody, Upload};
use cloud_speed::results::{
    AimScoresOutput, BandwidthResults, ConnectionMeta, LatencyResults, ServerLocation,
    SpeedTestResults,
};
use cloud_speed::tui::progress::{BandwidthDirection, ProgressEvent, TestPhase};
use cloud_speed::tui::state::{
    BandwidthState, ConnectionInfo, QualityRating, ServerInfo, TuiState,
};

/// The fixed-point number nearest to `x`.
fn fx(x: f64) -> Fixed {
    Fixed::from_millionths((x * 1_000_000.0).round() as i64)
}

fn speed(direction: BandwidthDirection, mbps: f64, current: usize, total: usize) -> ProgressEvent {
    ProgressEvent::BandwidthMeasurement {
        direction,
        speed_mbps: fx(mbps),
        bytes: 10_000_000,
        current,
        total,
    }
}

#[test]
fn state_test_set_metadata() {
    let mut state = TuiState::new();
    let server = ServerInfo { city: "San Francisco".to_string(), iata: "SFO".to_string() };
    let connection = ConnectionInfo {
        ip: "203.0.113.1".to_string(),
        country: "US".to_string(),
        isp: "Comcast".to_string(),
        asn: 7922,
    };

    state.set_metadata(server.clone(), connection.clone());

    assert!(state.server.is_some());
    assert!(state.connection.is_some());
    assert_eq!(state.server.as_ref().unwrap().city, "San Francisco");
    assert_eq!(state.server.as_ref().unwrap().iata, "SFO");
    assert_eq!(state.connection.as_ref().unwrap().ip, "203.0.113.1");
    assert_eq!(state.connection.as_ref().unwrap().isp, "Comcast");
}

#[test]
fn test_set_error() {
    let mut state = TuiState::new();
    state.set_error(
        "Connection failed".to_string(),
        Some("Check your internet connection".to_string()),
    );

    assert!(state.error.is_some());
    let error = state.error.as_ref().unwrap();
    assert_eq!(error.message, "Connection failed");
    assert_eq!(error.suggestion, Some("Check your internet connection".to_string()));
}

#[test]
fn test_update_from_phase_change() {
    let mut state = TuiState::new();
    assert_eq!(state.phase, TestPhase::Initializing);

    state.update_from_event(&ProgressEvent::PhaseChange(TestPhase::Latency));
    assert_eq!(state.phase, TestPhase::Latency);

    state.update_from_event(&ProgressEvent::PhaseChange(TestPhase::Download));
    assert_eq!(state.phase, TestPhase::Download);
}

#[test]
fn test_update_from_latency_measurement() {
    let mut state = TuiState::new();

    state.update_from_event(
        &ProgressEvent::LatencyMeasurement { value_ms: fx(15.5), current: 1, total: 10 },
    );

    assert_eq!(state.latency.measurements.len(), 1);
    assert_eq!(state.latency.measurements[0], fx(15.5));
    assert_eq!(state.latency.current, 1);
    assert_eq!(state.latency.total, 10);
}

#[test]
fn test_update_from_bandwidth_measurement() {
    let mut state = TuiState::new();

    state.update_from_event(&speed(BandwidthDirection::Download, 95.5, 3, 8));

    assert_eq!(state.download.current_speed_mbps, Some(fx(95.5)));
    assert_eq!(state.download.current_bytes, 10_000_000);
    assert_eq!(state.download.current_measurement, 3);
    assert_eq!(state.download.total_measurements, 8);
    assert_eq!(state.download.speed_history.len(), 1);
    assert_eq!(state.download.speed_history[0].speed_mbps, fx(95.5));
    // The sample is stamped with the time since the display was made.
    assert!(state.download.speed_history[0].timestamp >= fx(0.0));
    assert!(state.upload.speed_history.is_empty());
    assert_eq!(state.upload.current_speed_mbps, None);
}

#[test]
fn test_update_from_bandwidth_measurement_at_a_time() {
    let mut state = TuiState::new();

    state.update_from_event_at(&speed(BandwidthDirection::Upload, 95.5, 3, 8), fx(2.5));

    assert_eq!(state.upload.current_speed_mbps, Some(fx(95.5)));
    assert_eq!(state.upload.current_bytes, 10_000_000);
    assert_eq!(state.upload.current_measurement, 3);
    assert_eq!(state.upload.total_measurements, 8);
    assert_eq!(state.upload.speed_history.len(), 1);
    assert_eq!(state.upload.speed_history[0].speed_mbps, fx(95.5));
    assert_eq!(state.upload.speed_history[0].timestamp, fx(2.5));
    assert!(state.download.speed_history.is_empty());
    assert_eq!(state.download.current_speed_mbps, None);
}

#[test]
fn test_update_from_phase_complete_latency() {
    let mut state = TuiState::new();

    for value in [10.0, 15.0, 12.0, 18.0, 14.0] {
        state.update_from_event(
            &ProgressEvent::LatencyMeasurement { value_ms: fx(value), current: 1, total: 5 },
        );
    }

    state.update_from_event(&ProgressEvent::PhaseComplete(TestPhase::Latency));

    assert!(state.latency.median_ms.is_some());
    assert_eq!(state.latency.median_ms.unwrap(), fx(14.0));
    assert!(state.latency.jitter_ms.is_some());
    // |5| + |3| + |6| + |4| over 4.
    assert_eq!(state.latency.jitter_ms, Some(fx(4.5)));
    // The measurements stay in the order in which they came.
    assert_eq!(
        state.latency.measurements,
        vec![fx(10.0), fx(15.0), fx(12.0), fx(18.0), fx(14.0)]
    );
}

#[test]
fn test_update_from_phase_complete_download() {
    let mut state = TuiState::new();

    state.update_from_event(&speed(BandwidthDirection::Download, 95.5, 8, 8));
    state.update_from_event(&ProgressEvent::PhaseComplete(TestPhase::Download));

    assert!(state.download.completed);
    assert_eq!(state.download.final_speed_mbps, Some(fx(95.5)));
    assert_eq!(state.download.percentile_90, Some(fx(95.5)));
    assert!(!state.upload.completed);
}

#[test]
fn test_update_from_error() {
    let mut state = TuiState::new();

    state.update_from_event(&ProgressEvent::Error("Network timeout".to_string()));

    assert!(state.error.is_some());
    assert_eq!(state.error.as_ref().unwrap().message, "Network timeout");
    assert_eq!(state.error.as_ref().unwrap().suggestion, None);
}

#[test]
fn test_percentile_of_the_history() {
    // Ten speeds: the ninth in ascending order.
    let mut state = TuiState::new();
    for (i, mbps) in [50.0, 10.0, 90.0, 30.0, 70.0, 20.0, 100.0, 40.0, 80.0, 60.0]
        .iter()
        .enumerate()
    {
        state.update_from_event_at(&speed(BandwidthDirection::Upload, *mbps, i + 1, 10), fx(i as f64));
    }
    state.update_from_event_at(&ProgressEvent::PhaseComplete(TestPhase::Upload), fx(10.0));
    assert!(state.upload.completed);
    assert_eq!(state.upload.final_speed_mbps, Some(fx(60.0)));
    assert_eq!(state.upload.percentile_90, Some(fx(90.0)));
    assert_eq!(state.upload.speed_history.len(), 10);
    assert_eq!(state.upload.speed_history[2].speed_mbps, fx(90.0));

    // Eleven speeds: nine tenths of eleven, rounded up, is the tenth.
    let mut history = BandwidthState::new();
    for i in 1..=11 {
        history.record(fx(i as f64), 1, i, 11, fx(0.0));
    }
    history.complete();
    assert_eq!(history.percentile_90, Some(fx(10.0)));

    // Nothing measured: nothing final, no percentile.
    let mut empty = BandwidthState::new();
    empty.complete();
    assert!(empty.completed);
    assert_eq!(empty.final_speed_mbps, None);
    assert_eq!(empty.percentile_90, None);
}

#[test]
fn test_phase_complete_of_other_phases_changes_nothing() {
    let mut state = TuiState::new();
    state.update_from_event(&speed(BandwidthDirection::Download, 5.0, 1, 1));
    state.update_from_event(&ProgressEvent::PhaseComplete(TestPhase::Complete));
    state.update_from_event(&ProgressEvent::PhaseComplete(TestPhase::Initializing));
    assert!(!state.download.completed);
    assert_eq!(state.download.final_speed_mbps, None);
    assert_eq!(state.latency.median_ms, None);
    assert_eq!(state.phase, TestPhase::Initializing);
}

#[test]
fn test_quality_scores_and_reset() {
    let mut state = TuiState::new();
    state.set_quality_scores("great", "Good", "nonsense");
    assert_eq!(state.quality_scores.streaming, Some(QualityRating::Great));
    assert_eq!(state.quality_scores.gaming, Some(QualityRating::Good));
    assert_eq!(state.quality_scores.video_conferencing, Some(QualityRating::Poor));

    state.set_metadata(
        ServerInfo { city: "Berlin".to_string(), iata: "TXL".to_string() },
        ConnectionInfo::default(),
    );
    state.terminal_width = 132;
    state.set_error("oops".to_string(), None);
    state.update_from_event(&speed(BandwidthDirection::Download, 5.0, 1, 1));
    state.update_from_event(
        &ProgressEvent::LatencyMeasurement { value_ms: fx(1.0), current: 1, total: 1 },
    );
    state.waiting_for_exit = true;
    state.retest_requested = true;

    state.reset_for_retest();
    assert_eq!(state.phase, TestPhase::Initializing);
    assert!(state.latency.measurements.is_empty());
    assert!(state.download.speed_history.is_empty());
    assert_eq!(state.download.current_speed_mbps, None);
    assert_eq!(state.quality_scores.streaming, None);
    assert!(state.error.is_none());
    assert!(!state.waiting_for_exit);
    assert!(!state.retest_requested);
    // Server, connection and terminal size stay.
    assert_eq!(state.server.as_ref().unwrap().city, "Berlin");
    assert!(state.connection.is_some());
    assert_eq!(state.terminal_width, 132);
    assert_eq!(state.terminal_height, 24);
}

#[test]
fn test_partial_results() {
    let mut state = TuiState::new();
    assert!(state.get_partial_results().is_none());

    state.update_from_event(&ProgressEvent::PhaseChange(TestPhase::Download));
    assert!(state.get_partial_results().is_none());

    state.update_from_event(&speed(BandwidthDirection::Download, 40.0, 1, 2));
    let partial = state.get_partial_results().unwrap();
    assert_eq!(partial.download_speed_mbps, Some(fx(40.0)));
    assert!(!partial.download_completed);
    assert_eq!(partial.upload_speed_mbps, None);
    assert_eq!(partial.latency_measurements, 0);
    assert_eq!(partial.phase, TestPhase::Download);

    // The final speed comes before the last one measured.
    state.update_from_event(&ProgressEvent::PhaseComplete(TestPhase::Download));
    state.update_from_event(&speed(BandwidthDirection::Download, 70.0, 2, 2));
    let partial = state.get_partial_results().unwrap();
    assert_eq!(partial.download_speed_mbps, Some(fx(40.0)));
    assert!(partial.download_completed);
}

#[test]
fn test_show_results() {
    let mut state = TuiState::new();
    let results = SpeedTestResults::new_at(
        0,
        ServerLocation::new("A".to_string(), "B".to_string()),
        ConnectionMeta::new("1".to_string(), "2".to_string(), "3".to_string(), 4),
        LatencyResults::idle_only(fx(15.5), Some(fx(2.3))),
        BandwidthResults::new(fx(100.0), vec![], false),
        BandwidthResults::new(fx(50.0), vec![], true),
        None,
        AimScoresOutput {
            streaming: "great".to_string(),
            gaming: "good".to_string(),
            video_conferencing: "good".to_string(),
            overall: "good".to_string(),
        },
    );
    state.show_results(&results);
    assert_eq!(state.phase, TestPhase::Complete);
    assert_eq!(state.latency.median_ms, Some(fx(15.5)));
    assert_eq!(state.latency.jitter_ms, Some(fx(2.3)));
    assert_eq!(state.download.final_speed_mbps, Some(fx(100.0)));
    assert!(state.download.completed);
    assert_eq!(state.upload.final_speed_mbps, Some(fx(50.0)));
    assert!(state.upload.completed);
}

#[test]
fn test_upload_request() {
    assert_eq!(RequestBody::<String>::default(), RequestBody::Empty);
    let upload = Upload::new(5);
    assert_eq!(upload.body(), RequestBody::Text("00000".to_string()));
    assert_eq!(upload.content_length(), 5);
    assert_eq!(upload.endpoint(), "/__up");
    assert_eq!(Upload::new(0).body(), RequestBody::Text(String::new()));
    assert_eq!(Upload::new(0).content_length(), 0);
}

fn pair(key: &str, value: &str) -> (String, String) {
    (key.to_string(), value.to_string())
}

#[test]
fn test_trace_pairs() {
    let text = "fl=29f123\nh=speed.cloudflare.com\nip=203.0.113.1\ncolo=SFO\nloc=US\n";
    assert_eq!(
        trace_pairs(text),
        vec![
            pair("fl", "29f123"),
            pair("h", "speed.cloudflare.com"),
            pair("ip", "203.0.113.1"),
            pair("colo", "SFO"),
            pair("loc", "US"),
        ]
    );
}

#[test]
fn test_trace_pairs_edge_cases() {
    assert!(trace_pairs("").is_empty());
    assert!(trace_pairs("no mark here\n\n").is_empty());
    // Only the text up to a second mark is the value.
    assert_eq!(trace_pairs("a=b=c"), vec![pair("a", "b")]);
    // Keys and values may be empty, and nothing is trimmed.
    assert_eq!(trace_pairs("=\n k = v \r\nx="), vec![
        pair("", ""),
        pair(" k ", " v \r"),
        pair("x", ""),
    ]);
}
