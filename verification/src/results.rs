//! The results of a speed test as they are reported: metadata, latency,
//! bandwidth, packet loss and quality scores.

use crate::engine::{
    BandwidthResults as EngineBandwidthResults, LatencyResults as EngineLatencyResults,
    SizeMeasurement as EngineSizeMeasurement, SpeedTestOutput,
};
use crate::fixed::{saturated, Fixed};
use crate::packet_loss::{percent_of, PacketLossResult as EnginePacketLossResult};
use crate::scoring::{
    aim_scores_of, calculate_aim_scores, AimScores, ConnectionMetrics, QualityScore,
};
use crate::time::now_millis;
use vstd::prelude::*;

verus! {

/// Server location information.
#[derive(Clone, Debug)]
pub struct ServerLocation {
    /// City name.
    pub city: String,
    /// IATA airport code, such as `SFO`.
    pub iata: String,
}

impl ServerLocation {
    /// A server location.
    pub fn new(city: String, iata: String) -> (r: Self)
        ensures
            r.city == city,
            r.iata == iata,
    {
        ServerLocation { city, iata }
    }
}

/// Connection metadata.
#[derive(Clone, Debug)]
pub struct ConnectionMeta {
    /// Client IP address.
    pub ip: String,
    /// Country code, such as `US`.
    pub country: String,
    /// ISP or organization name.
    pub isp: String,
    /// Autonomous System Number.
    pub asn: i64,
}

impl ConnectionMeta {
    /// Connection metadata.
    pub fn new(ip: String, country: String, isp: String, asn: i64) -> (r: Self)
        ensures
            r.ip == ip,
            r.country == country,
            r.isp == isp,
            r.asn == asn,
    {
        ConnectionMeta { ip, country, isp, asn }
    }
}

/// Latency results: idle and loaded latency and jitter.
#[derive(Clone, Copy, Debug, PartialEq, Eq)]
pub struct LatencyResults {
    /// Idle latency (median) in milliseconds.
    pub idle_ms: Fixed,
    /// Idle jitter in milliseconds.
    pub idle_jitter_ms: Option<Fixed>,
    /// Loaded latency during downloads (median) in milliseconds.
    pub loaded_down_ms: Option<Fixed>,
    /// Loaded jitter during downloads in milliseconds.
    pub loaded_down_jitter_ms: Option<Fixed>,
    /// Loaded latency during uploads (median) in milliseconds.
    pub loaded_up_ms: Option<Fixed>,
    /// Loaded jitter during uploads in milliseconds.
    pub loaded_up_jitter_ms: Option<Fixed>,
}

impl LatencyResults {
    /// Latency results with all values.
    pub fn new(
        idle_ms: Fixed,
        idle_jitter_ms: Option<Fixed>,
        loaded_down_ms: Option<Fixed>,
        loaded_down_jitter_ms: Option<Fixed>,
        loaded_up_ms: Option<Fixed>,
        loaded_up_jitter_ms: Option<Fixed>,
    ) -> (r: Self)
        ensures
            r == (LatencyResults {
                idle_ms,
                idle_jitter_ms,
                loaded_down_ms,
                loaded_down_jitter_ms,
                loaded_up_ms,
                loaded_up_jitter_ms,
            }),
    {
        LatencyResults {
            idle_ms,
            idle_jitter_ms,
            loaded_down_ms,
            loaded_down_jitter_ms,
            loaded_up_ms,
            loaded_up_jitter_ms,
        }
    }

    /// The latency results of the engine.
    pub fn from_engine(engine: &EngineLatencyResults) -> (r: Self)
        ensures
            r == (LatencyResults {
                idle_ms: engine.idle_ms,
                idle_jitter_ms: engine.idle_jitter_ms,
                loaded_down_ms: engine.loaded_down_ms,
                loaded_down_jitter_ms: engine.loaded_down_jitter_ms,
                loaded_up_ms: engine.loaded_up_ms,
                loaded_up_jitter_ms: engine.loaded_up_jitter_ms,
            }),
    {
        LatencyResults {
            idle_ms: engine.idle_ms,
            idle_jitter_ms: engine.idle_jitter_ms,
            loaded_down_ms: engine.loaded_down_ms,
            loaded_down_jitter_ms: engine.loaded_down_jitter_ms,
            loaded_up_ms: engine.loaded_up_ms,
            loaded_up_jitter_ms: engine.loaded_up_jitter_ms,
        }
    }

    /// Latency results with idle measurements only.
    pub fn idle_only(idle_ms: Fixed, idle_jitter_ms: Option<Fixed>) -> (r: Self)
        ensures
            r == (LatencyResults {
                idle_ms,
                idle_jitter_ms,
                loaded_down_ms: None,
                loaded_down_jitter_ms: None,
                loaded_up_ms: None,
                loaded_up_jitter_ms: None,
            }),
    {
        LatencyResults {
            idle_ms,
            idle_jitter_ms,
            loaded_down_ms: None,
            loaded_down_jitter_ms: None,
            loaded_up_ms: None,
            loaded_up_jitter_ms: None,
        }
    }
}

/// Results of the measurements made with one data block.
#[derive(Clone, Copy, Debug, PartialEq, Eq)]
pub struct SizeMeasurement {
    /// Size of the data block in bytes.
    pub bytes: u64,
    /// Speed in Mbps for this size.
    pub speed_mbps: Fixed,
    /// Number of measurements performed.
    pub count: usize,
}

impl SizeMeasurement {
    /// The results of one data block.
    pub fn new(bytes: u64, speed_mbps: Fixed, count: usize) -> (r: Self)
        ensures
            r == (SizeMeasurement { bytes, speed_mbps, count }),
    {
        SizeMeasurement { bytes, speed_mbps, count }
    }

    /// The results of one data block of the engine, without its
    /// measurements.
    pub fn from_engine(engine: &EngineSizeMeasurement) -> (r: Self)
        ensures
            r == (SizeMeasurement {
                bytes: engine.bytes,
                speed_mbps: engine.speed_mbps,
                count: engine.count,
            }),
    {
        SizeMeasurement {
            bytes: engine.bytes,
            speed_mbps: engine.speed_mbps,
            count: engine.count,
        }
    }
}

/// What is reported of the results of one data block.
pub open spec fn reported_size(s: EngineSizeMeasurement) -> SizeMeasurement {
    SizeMeasurement { bytes: s.bytes, speed_mbps: s.speed_mbps, count: s.count }
}

/// Bandwidth results of one direction.
#[derive(Clone, Debug)]
pub struct BandwidthResults {
    /// Final speed in Mbps.
    pub speed_mbps: Fixed,
    /// Results per data block.
    pub measurements: Vec<SizeMeasurement>,
    /// Whether the direction stopped before its last block.
    pub early_terminated: bool,
}

impl BandwidthResults {
    /// Bandwidth results.
    pub fn new(speed_mbps: Fixed, measurements: Vec<SizeMeasurement>, early_terminated: bool) -> (r:
        Self)
        ensures
            r.speed_mbps == speed_mbps,
            r.measurements == measurements,
            r.early_terminated == early_terminated,
    {
        BandwidthResults { speed_mbps, measurements, early_terminated }
    }

    /// The bandwidth results of the engine: the speed, the flag, and of
    /// each data block its size, speed and count, in order.
    pub fn from_engine(engine: &EngineBandwidthResults) -> (r: Self)
        ensures
            r.speed_mbps == engine.speed_mbps,
            r.early_terminated == engine.early_terminated,
            r.measurements@ == engine.measurements@.map_values(
                |s: EngineSizeMeasurement| reported_size(s),
            ),
    {
        let mut measurements: Vec<SizeMeasurement> = Vec::new();
        let mut i: usize = 0;
        while i < engine.measurements.len()
            invariant
                i <= engine.measurements.len(),
                measurements@ == engine.measurements@.take(i as int).map_values(
                    |s: EngineSizeMeasurement| reported_size(s),
                ),
            decreases engine.measurements.len() - i,
        {
            measurements.push(SizeMeasurement::from_engine(&engine.measurements[i]));
            assert(measurements@ =~= engine.measurements@.take(i + 1).map_values(
                |s: EngineSizeMeasurement| reported_size(s),
            ));
            i += 1;
        }
        assert(engine.measurements@.take(engine.measurements.len() as int)
            =~= engine.measurements@);
        BandwidthResults {
            speed_mbps: engine.speed_mbps,
            measurements,
            early_terminated: engine.early_terminated,
        }
    }
}

/// Packet loss results.
#[derive(Clone, Copy, Debug, PartialEq, Eq)]
pub struct PacketLossResults {
    /// Packet loss ratio from 0 to 1.
    pub ratio: Fixed,
    /// Packet loss as a percentage from 0 to 100.
    pub percent: Fixed,
    /// Number of packets sent.
    pub packets_sent: usize,
    /// Number of packets lost.
    pub packets_lost: usize,
    /// Number of packets received.
    pub packets_received: usize,
    /// Average round-trip time in milliseconds, if available.
    pub avg_rtt_ms: Option<Fixed>,
}

impl PacketLossResults {
    /// Packet loss results; the percentage is the ratio times 100.
    pub fn new(
        ratio: Fixed,
        packets_sent: usize,
        packets_lost: usize,
        packets_received: usize,
        avg_rtt_ms: Option<Fixed>,
    ) -> (r: Self)
        ensures
            r == (PacketLossResults {
                ratio,
                percent: saturated(ratio.millionths * 100),
                packets_sent,
                packets_lost,
                packets_received,
                avg_rtt_ms,
            }),
    {
        PacketLossResults {
            ratio,
            percent: percent_of(ratio),
            packets_sent,
            packets_lost,
            packets_received,
            avg_rtt_ms,
        }
    }

    /// The packet loss results of a measurement.
    pub fn from_engine(engine: &EnginePacketLossResult) -> (r: Self)
        ensures
            r == (PacketLossResults {
                ratio: engine.packet_loss_ratio,
                percent: saturated(engine.packet_loss_ratio.millionths * 100),
                packets_sent: engine.packets_sent,
                packets_lost: engine.packets_lost,
                packets_received: engine.packets_received,
                avg_rtt_ms: engine.avg_rtt_ms,
            }),
    {
        PacketLossResults {
            ratio: engine.packet_loss_ratio,
            percent: engine.packet_loss_percent(),
            packets_sent: engine.packets_sent,
            packets_lost: engine.packets_lost,
            packets_received: engine.packets_received,
            avg_rtt_ms: engine.avg_rtt_ms,
        }
    }
}

/// The name of a quality score in the output.
pub open spec fn score_name(score: QualityScore) -> Seq<char> {
    match score {
        QualityScore::Great => "great"@,
        QualityScore::Good => "good"@,
        QualityScore::Average => "average"@,
        QualityScore::Poor => "poor"@,
    }
}

/// The name of a quality score in the output, in lower case.
pub fn quality_score_to_string(score: &QualityScore) -> (r: String)
    ensures
        r@ == score_name(*score),
{
    match score {
        QualityScore::Great => "great".to_owned(),
        QualityScore::Good => "good".to_owned(),
        QualityScore::Average => "average".to_owned(),
        QualityScore::Poor => "poor".to_owned(),
    }
}

/// Quality scores by name.
#[derive(Clone, Debug)]
pub struct AimScoresOutput {
    /// Quality score for video streaming.
    pub streaming: String,
    /// Quality score for online gaming.
    pub gaming: String,
    /// Quality score for video conferencing.
    pub video_conferencing: String,
    /// Overall quality score: the lowest of the three.
    pub overall: String,
}

impl AimScoresOutput {
    /// The names of the three scores and of the lowest of them.
    pub fn from_aim_scores(scores: &AimScores) -> (r: Self)
        ensures
            r.streaming@ == score_name(scores.streaming),
            r.gaming@ == score_name(scores.gaming),
            r.video_conferencing@ == score_name(scores.video_conferencing),
            r.overall@ == score_name(scores.overall_of()),
    {
        let overall = scores.overall();
        AimScoresOutput {
            streaming: quality_score_to_string(&scores.streaming),
            gaming: quality_score_to_string(&scores.gaming),
            video_conferencing: quality_score_to_string(&scores.video_conferencing),
            overall: quality_score_to_string(&overall),
        }
    }
}

/// The metrics that the scores of a run are computed from: the speeds,
/// the idle latency, the idle jitter or zero where there is none, the
/// loaded latencies, and the packet loss ratio where it was measured.
pub open spec fn metrics_of(
    latency: EngineLatencyResults,
    download_mbps: Fixed,
    upload_mbps: Fixed,
    packet_loss: Option<Fixed>,
) -> ConnectionMetrics {
    ConnectionMetrics {
        download_mbps,
        upload_mbps,
        latency_ms: latency.idle_ms,
        jitter_ms: match latency.idle_jitter_ms {
            Some(j) => j,
            None => Fixed { millionths: 0 },
        },
        packet_loss,
        loaded_latency_down_ms: latency.loaded_down_ms,
        loaded_latency_up_ms: latency.loaded_up_ms,
    }
}

/// The packet loss that is reported: that of a measurement in which
/// packets were sent.
pub open spec fn reported_loss(packet_loss: Option<EnginePacketLossResult>) -> Option<Fixed> {
    match packet_loss {
        Some(p) => if p.packets_sent > 0 {
            Some(p.packet_loss_ratio)
        } else {
            None
        },
        None => None,
    }
}

/// The metrics that the scores of a run are computed from.
pub fn connection_metrics(
    latency: &EngineLatencyResults,
    download_mbps: Fixed,
    upload_mbps: Fixed,
    packet_loss: Option<Fixed>,
) -> (r: ConnectionMetrics)
    ensures
        r == metrics_of(*latency, download_mbps, upload_mbps, packet_loss),
{
    let jitter_ms = match latency.idle_jitter_ms {
        Some(j) => j,
        None => Fixed::zero(),
    };
    let metrics = ConnectionMetrics::new(download_mbps, upload_mbps, latency.idle_ms, jitter_ms)
        .with_loaded_latency(latency.loaded_down_ms, latency.loaded_up_ms);
    match packet_loss {
        Some(ratio) => metrics.with_packet_loss(ratio),
        None => metrics,
    }
}

/// Complete results of a speed test run.
#[derive(Clone, Debug)]
pub struct SpeedTestResults {
    /// When the test was completed, in milliseconds since the Unix epoch.
    pub timestamp: i64,
    /// Server location information.
    pub server: ServerLocation,
    /// Connection metadata.
    pub connection: ConnectionMeta,
    /// Latency results.
    pub latency: LatencyResults,
    /// Download results.
    pub download: BandwidthResults,
    /// Upload results.
    pub upload: BandwidthResults,
    /// Packet loss results, if available.
    pub packet_loss: Option<PacketLossResults>,
    /// Quality scores.
    pub scores: AimScoresOutput,
}

/// Whether `r` reports a run as its parts give it: the latency and
/// bandwidth results as the engine gives them, the packet loss of a
/// measurement in which packets were sent, and the quality scores of the
/// metrics so made up. The time of the report is left open.
pub open spec fn reports(
    r: SpeedTestResults,
    output: SpeedTestOutput,
    server: ServerLocation,
    connection: ConnectionMeta,
    packet_loss: Option<EnginePacketLossResult>,
) -> bool {
    &&& r.server == server
    &&& r.connection == connection
    &&& r.latency.idle_ms == output.latency.idle_ms
    &&& r.latency.idle_jitter_ms == output.latency.idle_jitter_ms
    &&& r.latency.loaded_down_ms == output.latency.loaded_down_ms
    &&& r.latency.loaded_down_jitter_ms == output.latency.loaded_down_jitter_ms
    &&& r.latency.loaded_up_ms == output.latency.loaded_up_ms
    &&& r.latency.loaded_up_jitter_ms == output.latency.loaded_up_jitter_ms
    &&& r.download.speed_mbps == output.download.speed_mbps
    &&& r.download.early_terminated == output.download.early_terminated
    &&& r.download.measurements@ == output.download.measurements@.map_values(
        |s: EngineSizeMeasurement| reported_size(s),
    )
    &&& r.upload.speed_mbps == output.upload.speed_mbps
    &&& r.upload.early_terminated == output.upload.early_terminated
    &&& r.upload.measurements@ == output.upload.measurements@.map_values(
        |s: EngineSizeMeasurement| reported_size(s),
    )
    &&& match packet_loss {
        Some(p) => if p.packets_sent > 0 {
            r.packet_loss is Some && r.packet_loss->0.ratio == p.packet_loss_ratio
                && r.packet_loss->0.packets_sent == p.packets_sent
                && r.packet_loss->0.packets_lost == p.packets_lost
                && r.packet_loss->0.packets_received == p.packets_received
        } else {
            r.packet_loss is None
        },
        None => r.packet_loss is None,
    }
    &&& ({
        let scores = aim_scores_of(
            metrics_of(
                output.latency,
                output.download.speed_mbps,
                output.upload.speed_mbps,
                reported_loss(packet_loss),
            ),
        );
        &&& r.scores.streaming@ == score_name(scores.streaming)
        &&& r.scores.gaming@ == score_name(scores.gaming)
        &&& r.scores.video_conferencing@ == score_name(scores.video_conferencing)
        &&& r.scores.overall@ == score_name(scores.overall_of())
    })
}

/// A packet loss measurement taken by value, if there is one.
pub open spec fn loss_of(packet_loss: Option<&EnginePacketLossResult>) -> Option<
    EnginePacketLossResult,
> {
    match packet_loss {
        Some(p) => Some(*p),
        None => None,
    }
}

impl SpeedTestResults {
    /// The results of a run from their parts, stamped with the time of the
    /// call.
    pub fn new(
        server: ServerLocation,
        connection: ConnectionMeta,
        latency: LatencyResults,
        download: BandwidthResults,
        upload: BandwidthResults,
        packet_loss: Option<PacketLossResults>,
        scores: AimScoresOutput,
    ) -> (r: Self)
        ensures
            r.timestamp >= 0,
            r.server == server,
            r.connection == connection,
            r.latency == latency,
            r.download == download,
            r.upload == upload,
            r.packet_loss == packet_loss,
            r.scores == scores,
    {
        Self::new_at(
            now_millis(),
            server,
            connection,
            latency,
            download,
            upload,
            packet_loss,
            scores,
        )
    }

    /// The results of a run from their parts, stamped with a given time.
    pub fn new_at(
        timestamp: i64,
        server: ServerLocation,
        connection: ConnectionMeta,
        latency: LatencyResults,
        download: BandwidthResults,
        upload: BandwidthResults,
        packet_loss: Option<PacketLossResults>,
        scores: AimScoresOutput,
    ) -> (r: Self)
        ensures
            r.timestamp == timestamp,
            r.server == server,
            r.connection == connection,
            r.latency == latency,
            r.download == download,
            r.upload == upload,
            r.packet_loss == packet_loss,
            r.scores == scores,
    {
        SpeedTestResults {
            timestamp,
            server,
            connection,
            latency,
            download,
            upload,
            packet_loss,
            scores,
        }
    }

    /// The results of a run from the output of the engine, stamped with the
    /// time of the call.
    pub fn from_engine_output(
        output: &SpeedTestOutput,
        server: ServerLocation,
        connection: ConnectionMeta,
        packet_loss: Option<&EnginePacketLossResult>,
    ) -> (r: Self)
        ensures
            r.timestamp >= 0,
            reports(r, *output, server, connection, loss_of(packet_loss)),
    {
        Self::from_engine_output_at(now_millis(), output, server, connection, packet_loss)
    }

    /// The results of a run from the output of the engine, stamped with a
    /// given time.
    pub fn from_engine_output_at(
        timestamp: i64,
        output: &SpeedTestOutput,
        server: ServerLocation,
        connection: ConnectionMeta,
        packet_loss: Option<&EnginePacketLossResult>,
    ) -> (r: Self)
        ensures
            r.timestamp == timestamp,
            reports(r, *output, server, connection, loss_of(packet_loss)),
    {
        let latency = LatencyResults::from_engine(&output.latency);
        let download = BandwidthResults::from_engine(&output.download);
        let upload = BandwidthResults::from_engine(&output.upload);
        let packet_loss_results = match packet_loss {
            Some(p) => if p.is_available() {
                Some(PacketLossResults::from_engine(p))
            } else {
                None
            },
            None => None,
        };
        let loss = match &packet_loss_results {
            Some(p) => Some(p.ratio),
            None => None,
        };
        let metrics = connection_metrics(
            &output.latency,
            download.speed_mbps,
            upload.speed_mbps,
            loss,
        );
        let aim_scores = calculate_aim_scores(&metrics);
        let scores = AimScoresOutput::from_aim_scores(&aim_scores);
        SpeedTestResults {
            timestamp,
            server,
            connection,
            latency,
            download,
            upload,
            packet_loss: packet_loss_results,
            scores,
        }
    }
}

} // verus!
