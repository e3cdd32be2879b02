use cloud_speed::fixed::Fixed;
use cloud_speed::output::{
    human_report, metadata_report, quality_score_name, LineKind, ReportLine,
};
use cloud_speed::results::{
    BandwidthResults, ConnectionMeta, LatencyResults, PacketLossResults, ServerLocation,
    SizeMeasurement,
};
use cloud_speed::scoring::{AimScores, QualityScore};

/// The fixed-point number nearest to `x`.
fn fx(x: f64) -> Fixed {
    Fixed::from_millionths((x * 1_000_000.0).round() as i64)
}

fn line(label: &str, value: &str, kind: LineKind) -> ReportLine {
    ReportLine { label: label.to_string(), value: value.to_string(), kind }
}

fn blank() -> ReportLine {
    line("", "", LineKind::Blank)
}

#[test]
fn test_human_report_with_everything() {
    let latency = LatencyResults::new(
        fx(15.5),
        Some(fx(2.345)),
        Some(fx(25.0)),
        Some(fx(5.0)),
        Some(fx(30.119)),
        None,
    );
    let download = BandwidthResults::new(
        fx(93.456),
        vec![
            SizeMeasurement::new(100_000, fx(50.0), 10),
            SizeMeasurement::new(25_000_000, fx(75.125), 4),
        ],
        false,
    );
    let upload =
        BandwidthResults::new(fx(20.0), vec![SizeMeasurement::new(1_000_000, fx(19.5), 6)], true);
    let loss = Some(PacketLossResults::new(fx(0.0125), 1000, 12, 988, Some(fx(15.5))));
    let scores = AimScores::new(QualityScore::Great, QualityScore::Average, QualityScore::Poor);

    let report = human_report(&latency, &download, &upload, &loss, &scores);
    assert_eq!(
        report,
        vec![
            line("Latency:\t", "15.50 ms", LineKind::Latency),
            line("Jitter:\t\t", "2.34 ms", LineKind::Latency),
            line("Loaded (down):\t", "25.00 ms", LineKind::Latency),
            line("Loaded (up):\t", "30.12 ms", LineKind::Latency),
            blank(),
            line("100kB speed:\t", "50.00 Mbps", LineKind::BlockSpeed),
            line("25MB speed:\t", "75.12 Mbps", LineKind::BlockSpeed),
            line("Download speed:\t", "93.46 Mbps", LineKind::Speed),
            blank(),
            line("1MB up:\t", "19.50 Mbps", LineKind::BlockSpeed),
            line("Upload speed:\t", "20.00 Mbps", LineKind::Speed),
            blank(),
            line("Packet loss:\t", "1.25%", LineKind::PacketLoss),
            blank(),
            line("Quality Scores:", "", LineKind::Heading),
            line("  Streaming:\t", "Great", LineKind::Score(QualityScore::Great)),
            line("  Gaming:\t\t", "Average", LineKind::Score(QualityScore::Average)),
            line("  Video Calls:\t", "Poor", LineKind::Score(QualityScore::Poor)),
        ]
    );
}

#[test]
fn test_human_report_with_the_least() {
    let latency = LatencyResults::idle_only(fx(8.0), None);
    let download = BandwidthResults::new(fx(0.0), vec![], false);
    let upload = BandwidthResults::new(fx(0.0), vec![], false);
    let scores = AimScores::new(QualityScore::Good, QualityScore::Good, QualityScore::Good);

    let report = human_report(&latency, &download, &upload, &None, &scores);
    assert_eq!(
        report,
        vec![
            line("Latency:\t", "8.00 ms", LineKind::Latency),
            line("Jitter:\t\t", "N/A", LineKind::Latency),
            blank(),
            line("Download speed:\t", "0.00 Mbps", LineKind::Speed),
            blank(),
            line("Upload speed:\t", "0.00 Mbps", LineKind::Speed),
            blank(),
            line("Quality Scores:", "", LineKind::Heading),
            line("  Streaming:\t", "Good", LineKind::Score(QualityScore::Good)),
            line("  Gaming:\t\t", "Good", LineKind::Score(QualityScore::Good)),
            line("  Video Calls:\t", "Good", LineKind::Score(QualityScore::Good)),
        ]
    );
    assert_eq!(quality_score_name(&QualityScore::Great), "Great");
    assert_eq!(quality_score_name(&QualityScore::Poor), "Poor");
}

#[test]
fn test_metadata_report() {
    let server = ServerLocation::new("San Francisco".to_string(), "SFO".to_string());
    let connection = ConnectionMeta::new(
        "203.0.113.1".to_string(),
        "US".to_string(),
        "Example ISP".to_string(),
        7922,
    );
    assert_eq!(
        metadata_report(&server, &connection),
        vec![
            line("Server Location:", "San Francisco (SFO)", LineKind::Metadata),
            line("Your network:\t", "Example ISP (AS7922)", LineKind::Metadata),
            line("Your IP:\t", "203.0.113.1 (US)", LineKind::Metadata),
        ]
    );

    let odd = ConnectionMeta::new(String::new(), String::new(), String::new(), -5);
    let report = metadata_report(&ServerLocation::new(String::new(), String::new()), &odd);
    assert_eq!(report[0].value, " ()");
    assert_eq!(report[1].value, " (AS-5)");
    assert_eq!(report[2].value, " ()");
    let least = ConnectionMeta::new(String::new(), String::new(), String::new(), i64::MIN);
    let report = metadata_report(&ServerLocation::new(String::new(), String::new()), &least);
    assert_eq!(report[1].value, " (AS-9223372036854775808)");
}
