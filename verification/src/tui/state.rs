//! What the terminal display shows of a run besides its measurements.

use crate::fixed::Fixed;
use crate::measurements::{jitter_f64, jitter_of};
use crate::results::SpeedTestResults;
use crate::stats::{
    lemma_ascending_permutation_is_sorted, median_f64, median_of, sort_ascending, sorted,
};
use crate::text::{chars_of, lowercase_of};
use crate::time::duration_seconds;
use crate::tui::progress::{BandwidthDirection, ProgressEvent, TestPhase};
use std::time::Instant;
use vstd::prelude::*;

verus! {

/// Server location information.
#[derive(Clone, Debug, Default)]
pub struct ServerInfo {
    /// City name.
    pub city: String,
    /// IATA airport code.
    pub iata: String,
}

/// Connection metadata.
#[derive(Clone, Debug, Default)]
pub struct ConnectionInfo {
    /// Client IP address.
    pub ip: String,
    /// Country code.
    pub country: String,
    /// ISP name.
    pub isp: String,
    /// Autonomous System Number.
    pub asn: i64,
}

/// Error information for display.
#[derive(Clone, Debug)]
pub struct ErrorInfo {
    /// Error message.
    pub message: String,
    /// Optional suggestion for resolution.
    pub suggestion: Option<String>,
}

/// Quality of the connection for a use case, as it is shown.
#[derive(Clone, Copy, Debug, PartialEq, Eq, Structural)]
pub enum QualityRating {
    Great,
    Good,
    Average,
    Poor,
}

impl QualityRating {
    /// The name of the rating.
    pub fn as_str(&self) -> (r: &'static str)
        ensures
            r@ == (match *self {
                QualityRating::Great => "Great"@,
                QualityRating::Good => "Good"@,
                QualityRating::Average => "Average"@,
                QualityRating::Poor => "Poor"@,
            }),
    {
        match self {
            QualityRating::Great => "Great",
            QualityRating::Good => "Good",
            QualityRating::Average => "Average",
            QualityRating::Poor => "Poor",
        }
    }
}

/// Quality ratings for the three use cases.
#[derive(Clone, Copy, Debug, Default, PartialEq, Eq)]
pub struct QualityScores {
    pub streaming: Option<QualityRating>,
    pub gaming: Option<QualityRating>,
    pub video_conferencing: Option<QualityRating>,
}

/// The rating that a name in lower case stands for; `Poor` for any other
/// text.
pub open spec fn rating_of(lower: Seq<char>) -> QualityRating {
    if lower == "great"@ {
        QualityRating::Great
    } else if lower == "good"@ {
        QualityRating::Good
    } else if lower == "average"@ {
        QualityRating::Average
    } else {
        QualityRating::Poor
    }
}

/// Whether two texts are the same.
fn same_text(a: &Vec<char>, b: &str) -> (r: bool)
    ensures
        r == (a@ == b@),
{
    let other = chars_of(b);
    if a.len() != other.len() {
        return false;
    }
    let mut i: usize = 0;
    while i < a.len()
        invariant
            i <= a.len(),
            a.len() == other.len(),
            other@ == b@,
            forall|k: int| 0 <= k < i ==> a@[k] == other@[k],
        decreases a.len() - i,
    {
        if a[i] != other[i] {
            assert(a@[i as int] != b@[i as int]);
            return false;
        }
        i += 1;
    }
    assert(a@ =~= other@);
    true
}

/// The rating that a name already in lower case stands for.
pub fn rating_of_lowercase(lower: &str) -> (r: QualityRating)
    ensures
        r == rating_of(lower@),
{
    let chars = chars_of(lower);
    if same_text(&chars, "great") {
        QualityRating::Great
    } else if same_text(&chars, "good") {
        QualityRating::Good
    } else if same_text(&chars, "average") {
        QualityRating::Average
    } else {
        QualityRating::Poor
    }
}

/// The rating that a name stands for, whatever its case; `Poor` for any
/// other text.
pub fn parse_quality_rating(s: &str) -> (r: QualityRating)
    ensures
        r == rating_of(lowercase_of(s@)),
{
    let lower = s.to_lowercase();
    rating_of_lowercase(lower.as_str())
}

/// Latency as it is shown.
#[derive(Clone, Debug, Default)]
pub struct LatencyState {
    /// The latency measurements so far in ms.
    pub measurements: Vec<Fixed>,
    /// Number of the last measurement.
    pub current: usize,
    /// Total number of measurements.
    pub total: usize,
    /// Median latency in ms.
    pub median_ms: Option<Fixed>,
    /// Jitter in ms.
    pub jitter_ms: Option<Fixed>,
    /// Loaded latency during downloads in ms.
    pub loaded_down_ms: Option<Fixed>,
    /// Loaded jitter during downloads in ms.
    pub loaded_down_jitter_ms: Option<Fixed>,
    /// Loaded latency during uploads in ms.
    pub loaded_up_ms: Option<Fixed>,
    /// Loaded jitter during uploads in ms.
    pub loaded_up_jitter_ms: Option<Fixed>,
}

/// One speed measurement of the history that the graph shows.
#[derive(Clone, Copy, Debug, PartialEq, Eq)]
pub struct SpeedSample {
    /// Speed in Mbps.
    pub speed_mbps: Fixed,
    /// Seconds since the start of the test.
    pub timestamp: Fixed,
}

/// Bandwidth of one direction as it is shown.
#[derive(Clone, Debug, Default)]
pub struct BandwidthState {
    /// Speed of the last measurement in Mbps.
    pub current_speed_mbps: Option<Fixed>,
    /// Bytes of the last measurement.
    pub current_bytes: u64,
    /// Number of the last measurement.
    pub current_measurement: usize,
    /// Total number of measurements.
    pub total_measurements: usize,
    /// Final speed in Mbps.
    pub final_speed_mbps: Option<Fixed>,
    /// Whether the direction is complete.
    pub completed: bool,
    /// The speeds measured so far.
    pub speed_history: Vec<SpeedSample>,
    /// The speed at the ninetieth of a hundred ranks.
    pub percentile_90: Option<Fixed>,
}

/// The speeds of a history, in order.
pub open spec fn speeds_of(history: Seq<SpeedSample>) -> Seq<Fixed> {
    history.map_values(|s: SpeedSample| s.speed_mbps)
}

/// The rank, from zero, of the ninetieth percentile among `len` speeds in
/// ascending order: nine tenths of `len`, rounded up, less one.
pub open spec fn rank_90(len: nat) -> int {
    if len == 0 {
        0
    } else {
        (9 * len + 9) / 10 - 1
    }
}

/// The speed shown as the ninetieth percentile once a direction is
/// complete: that of rank `rank_90` among the speeds of the history, or
/// the final speed where there is no history.
pub open spec fn shown_percentile(history: Seq<SpeedSample>, final_speed: Option<Fixed>, before: Option<
    Fixed,
>) -> Option<Fixed> {
    if history.len() > 0 {
        Some(sorted(speeds_of(history))[rank_90(history.len())])
    } else if final_speed is Some {
        final_speed
    } else {
        before
    }
}

impl BandwidthState {
    /// Nothing measured yet.
    pub fn new() -> (r: Self)
        ensures
            bandwidth_is_new(r),
    {
        BandwidthState {
            current_speed_mbps: None,
            current_bytes: 0,
            current_measurement: 0,
            total_measurements: 0,
            final_speed_mbps: None,
            completed: false,
            speed_history: Vec::new(),
            percentile_90: None,
        }
    }

    /// Takes in a measurement made `elapsed` seconds into the test.
    pub fn record(&mut self, speed_mbps: Fixed, bytes: u64, current: usize, total: usize, elapsed: Fixed)
        ensures
            bandwidth_recorded(*old(self), *final(self), speed_mbps, bytes, current, total, elapsed),
    {
        self.current_speed_mbps = Some(speed_mbps);
        self.current_bytes = bytes;
        self.current_measurement = current;
        self.total_measurements = total;
        self.speed_history.push(SpeedSample { speed_mbps, timestamp: elapsed });
    }

    /// Marks the direction complete: the last speed becomes the final
    /// speed, and the ninetieth percentile of the history is taken.
    pub fn complete(&mut self)
        ensures
            bandwidth_completed(*old(self), *final(self)),
    {
        self.completed = true;
        self.final_speed_mbps = self.current_speed_mbps;
        let n = self.speed_history.len();
        if n > 0 {
            let mut speeds: Vec<Fixed> = Vec::new();
            let mut i: usize = 0;
            while i < n
                invariant
                    i <= n,
                    n == self.speed_history.len(),
                    speeds@ == speeds_of(self.speed_history@).take(i as int),
                decreases n - i,
            {
                speeds.push(self.speed_history[i].speed_mbps);
                assert(speeds@ =~= speeds_of(self.speed_history@).take(i + 1));
                i += 1;
            }
            assert(speeds@ =~= speeds_of(self.speed_history@));
            let ghost unsorted = speeds@;
            sort_ascending(&mut speeds);
            proof {
                lemma_ascending_permutation_is_sorted(unsorted, speeds@);
            }
            // Nine tenths of the count, rounded up, less one.
            let tenth = n / 10;
            let rest = n % 10;
            let rank = 9 * tenth + (9 * rest + 9) / 10 - 1;
            assert(rank == rank_90(n as nat));
            self.percentile_90 = Some(speeds[rank]);
        } else {
            match self.final_speed_mbps {
                Some(speed) => {
                    self.percentile_90 = Some(speed);
                },
                None => {},
            }
        }
    }
}

/// What a test that was interrupted has to show.
#[derive(Clone, Debug)]
pub struct PartialResults {
    /// Server location.
    pub server: Option<ServerInfo>,
    /// Connection metadata.
    pub connection: Option<ConnectionInfo>,
    /// Median latency in ms, if it has been computed.
    pub latency_median_ms: Option<Fixed>,
    /// Jitter in ms, if it has been computed.
    pub latency_jitter_ms: Option<Fixed>,
    /// Number of latency measurements.
    pub latency_measurements: usize,
    /// Final download speed in Mbps, else the last one measured.
    pub download_speed_mbps: Option<Fixed>,
    /// Whether downloads were complete.
    pub download_completed: bool,
    /// Final upload speed in Mbps, else the last one measured.
    pub upload_speed_mbps: Option<Fixed>,
    /// Whether uploads were complete.
    pub upload_completed: bool,
    /// The phase in which the test was interrupted.
    pub phase: TestPhase,
}

/// The first of two optional values that is there.
pub open spec fn first_of(a: Option<Fixed>, b: Option<Fixed>) -> Option<Fixed> {
    if a is Some {
        a
    } else {
        b
    }
}

/// Everything that the terminal display shows.
#[derive(Clone, Debug)]
pub struct TuiState {
    /// Current test phase.
    pub phase: TestPhase,
    /// Server location.
    pub server: Option<ServerInfo>,
    /// Connection metadata.
    pub connection: Option<ConnectionInfo>,
    /// Latency measurements.
    pub latency: LatencyState,
    /// Download progress and results.
    pub download: BandwidthState,
    /// Upload progress and results.
    pub upload: BandwidthState,
    /// Quality ratings.
    pub quality_scores: QualityScores,
    /// Error, if any.
    pub error: Option<ErrorInfo>,
    /// Terminal width in columns.
    pub terminal_width: u16,
    /// Terminal height in rows.
    pub terminal_height: u16,
    /// Whether the test is complete and the display waits to be left.
    pub waiting_for_exit: bool,
    /// When the test started, for the time axis of the graphs.
    pub test_start_time: Instant,
    /// Whether the test is to be run again.
    pub retest_requested: bool,
}

impl LatencyState {
    /// Nothing measured yet.
    pub fn new() -> (r: Self)
        ensures
            latency_is_new(r),
    {
        LatencyState {
            measurements: Vec::new(),
            current: 0,
            total: 0,
            median_ms: None,
            jitter_ms: None,
            loaded_down_ms: None,
            loaded_down_jitter_ms: None,
            loaded_up_ms: None,
            loaded_up_jitter_ms: None,
        }
    }

    /// Jitter of the measurements: the mean distance between consecutive
    /// ones, nothing for fewer than two.
    pub fn calculate_jitter(&self) -> (r: Option<Fixed>)
        ensures
            r == jitter_of(self.measurements@),
    {
        jitter_f64(&self.measurements)
    }

    /// Takes the median and the jitter of the measurements.
    pub fn summarize(&mut self)
        ensures
            latency_summarized(*old(self), *final(self)),
    {
        let mut copy = self.measurements.clone();
        self.median_ms = median_f64(&mut copy);
        self.jitter_ms = self.calculate_jitter();
    }
}

/// Whether nothing has been measured of the latency yet.
pub open spec fn latency_is_new(latency: LatencyState) -> bool {
    &&& latency.measurements@.len() == 0
    &&& latency.current == 0
    &&& latency.total == 0
    &&& latency.median_ms is None
    &&& latency.jitter_ms is None
    &&& latency.loaded_down_ms is None
    &&& latency.loaded_down_jitter_ms is None
    &&& latency.loaded_up_ms is None
    &&& latency.loaded_up_jitter_ms is None
}

/// Whether nothing has been measured of a direction yet.
pub open spec fn bandwidth_is_new(bandwidth: BandwidthState) -> bool {
    &&& bandwidth.current_speed_mbps is None
    &&& bandwidth.current_bytes == 0
    &&& bandwidth.current_measurement == 0
    &&& bandwidth.total_measurements == 0
    &&& bandwidth.final_speed_mbps is None
    &&& !bandwidth.completed
    &&& bandwidth.speed_history@.len() == 0
    &&& bandwidth.percentile_90 is None
}

/// Whether `after` is the latency `before` with one more measurement, the
/// `current`-th of `total`: it joins the measurements, and nothing else
/// changes.
pub open spec fn latency_measured(
    before: LatencyState,
    after: LatencyState,
    value_ms: Fixed,
    current: usize,
    total: usize,
) -> bool {
    &&& after.measurements@ == before.measurements@.push(value_ms)
    &&& after.current == current
    &&& after.total == total
    &&& after.median_ms == before.median_ms
    &&& after.jitter_ms == before.jitter_ms
    &&& after.loaded_down_ms == before.loaded_down_ms
    &&& after.loaded_down_jitter_ms == before.loaded_down_jitter_ms
    &&& after.loaded_up_ms == before.loaded_up_ms
    &&& after.loaded_up_jitter_ms == before.loaded_up_jitter_ms
}

/// Whether `after` is the latency `before` with the median and the jitter
/// of its measurements taken, and nothing else changed.
pub open spec fn latency_summarized(before: LatencyState, after: LatencyState) -> bool {
    &&& after.median_ms == median_of(before.measurements@)
    &&& after.jitter_ms == jitter_of(before.measurements@)
    &&& after.measurements == before.measurements
    &&& after.current == before.current
    &&& after.total == before.total
    &&& after.loaded_down_ms == before.loaded_down_ms
    &&& after.loaded_down_jitter_ms == before.loaded_down_jitter_ms
    &&& after.loaded_up_ms == before.loaded_up_ms
    &&& after.loaded_up_jitter_ms == before.loaded_up_jitter_ms
}

/// Whether `after` is the direction `before` with one more measurement
/// made `elapsed` seconds into the test: it becomes the current one and
/// joins the history, and nothing else changes.
pub open spec fn bandwidth_recorded(
    before: BandwidthState,
    after: BandwidthState,
    speed_mbps: Fixed,
    bytes: u64,
    current: usize,
    total: usize,
    elapsed: Fixed,
) -> bool {
    &&& after.current_speed_mbps == Some(speed_mbps)
    &&& after.current_bytes == bytes
    &&& after.current_measurement == current
    &&& after.total_measurements == total
    &&& after.speed_history@ == before.speed_history@.push(
        SpeedSample { speed_mbps, timestamp: elapsed },
    )
    &&& after.final_speed_mbps == before.final_speed_mbps
    &&& after.completed == before.completed
    &&& after.percentile_90 == before.percentile_90
}

/// Whether `after` is the direction `before` marked complete: the last
/// speed is the final speed, the ninetieth percentile of the history is
/// taken, and nothing else changes.
pub open spec fn bandwidth_completed(before: BandwidthState, after: BandwidthState) -> bool {
    &&& after.completed
    &&& after.final_speed_mbps == before.current_speed_mbps
    &&& after.percentile_90 == shown_percentile(
        before.speed_history@,
        before.current_speed_mbps,
        before.percentile_90,
    )
    &&& after.current_speed_mbps == before.current_speed_mbps
    &&& after.current_bytes == before.current_bytes
    &&& after.current_measurement == before.current_measurement
    &&& after.total_measurements == before.total_measurements
    &&& after.speed_history == before.speed_history
}

/// Whether `after` is the display `before` with a progress event taken
/// in that occurred `elapsed` seconds into the test. A change of phase is
/// shown; a latency measurement joins the measurements; a bandwidth
/// measurement becomes the current speed of its direction and joins its
/// history; the completion of the latency phase gives median and jitter;
/// the completion of a direction makes its last speed final and gives the
/// ninetieth percentile of its history; an error is shown.
pub open spec fn event_applied(
    before: TuiState,
    after: TuiState,
    event: ProgressEvent,
    elapsed: Fixed,
) -> bool {
    &&& after.server == before.server
    &&& after.connection == before.connection
    &&& after.quality_scores == before.quality_scores
    &&& after.terminal_width == before.terminal_width
    &&& after.terminal_height == before.terminal_height
    &&& after.waiting_for_exit == before.waiting_for_exit
    &&& after.retest_requested == before.retest_requested
    &&& after.test_start_time == before.test_start_time
    &&& match event {
        ProgressEvent::PhaseChange(phase) => {
            &&& after.phase == phase
            &&& after.latency == before.latency
            &&& after.download == before.download
            &&& after.upload == before.upload
            &&& after.error == before.error
        },
        ProgressEvent::LatencyMeasurement { value_ms, current, total } => {
            &&& latency_measured(before.latency, after.latency, value_ms, current, total)
            &&& after.phase == before.phase
            &&& after.download == before.download
            &&& after.upload == before.upload
            &&& after.error == before.error
        },
        ProgressEvent::BandwidthMeasurement { direction, speed_mbps, bytes, current, total } => {
            let (changed, prior, other, other_before) = match direction {
                BandwidthDirection::Download => (
                    after.download,
                    before.download,
                    after.upload,
                    before.upload,
                ),
                BandwidthDirection::Upload => (
                    after.upload,
                    before.upload,
                    after.download,
                    before.download,
                ),
            };
            &&& bandwidth_recorded(prior, changed, speed_mbps, bytes, current, total, elapsed)
            &&& other == other_before
            &&& after.phase == before.phase
            &&& after.latency == before.latency
            &&& after.error == before.error
        },
        ProgressEvent::PhaseComplete(phase) => {
            &&& after.phase == before.phase
            &&& after.error == before.error
            &&& match phase {
                TestPhase::Latency => {
                    &&& latency_summarized(before.latency, after.latency)
                    &&& after.download == before.download
                    &&& after.upload == before.upload
                },
                TestPhase::Download => {
                    &&& bandwidth_completed(before.download, after.download)
                    &&& after.latency == before.latency
                    &&& after.upload == before.upload
                },
                TestPhase::Upload => {
                    &&& bandwidth_completed(before.upload, after.upload)
                    &&& after.latency == before.latency
                    &&& after.download == before.download
                },
                _ => {
                    &&& after.latency == before.latency
                    &&& after.download == before.download
                    &&& after.upload == before.upload
                },
            }
        },
        ProgressEvent::Error(message) => {
            &&& after.error == Some(ErrorInfo { message, suggestion: None })
            &&& after.phase == before.phase
            &&& after.latency == before.latency
            &&& after.download == before.download
            &&& after.upload == before.upload
        },
    }
}

impl TuiState {
    /// The display before anything has happened: initializing, 80 columns
    /// by 24 rows.
    pub fn new() -> (r: Self)
        ensures
            r.phase == TestPhase::Initializing,
            r.server is None,
            r.connection is None,
            r.quality_scores == (QualityScores {
                streaming: None,
                gaming: None,
                video_conferencing: None,
            }),
            latency_is_new(r.latency),
            bandwidth_is_new(r.download),
            bandwidth_is_new(r.upload),
            r.error is None,
            r.terminal_width == 80,
            r.terminal_height == 24,
            !r.waiting_for_exit,
            !r.retest_requested,
    {
        TuiState {
            phase: TestPhase::Initializing,
            server: None,
            connection: None,
            latency: LatencyState::new(),
            download: BandwidthState::new(),
            upload: BandwidthState::new(),
            quality_scores: QualityScores {
                streaming: None,
                gaming: None,
                video_conferencing: None,
            },
            error: None,
            terminal_width: 80,
            terminal_height: 24,
            waiting_for_exit: false,
            test_start_time: Instant::now(),
            retest_requested: false,
        }
    }

    /// Sets the connection metadata.
    pub fn set_metadata(&mut self, server: ServerInfo, connection: ConnectionInfo)
        ensures
            *final(self) == (TuiState {
                server: Some(server),
                connection: Some(connection),
                ..*old(self)
            }),
    {
        self.server = Some(server);
        self.connection = Some(connection);
    }

    /// Sets the error that is shown.
    pub fn set_error(&mut self, message: String, suggestion: Option<String>)
        ensures
            *final(self) == (TuiState {
                error: Some(ErrorInfo { message, suggestion }),
                ..*old(self)
            }),
    {
        self.error = Some(ErrorInfo { message, suggestion });
    }

    /// Sets the quality ratings from their names.
    pub fn set_quality_scores(&mut self, streaming: &str, gaming: &str, video_conferencing: &str)
        ensures
            *final(self) == (TuiState {
                quality_scores: QualityScores {
                    streaming: Some(rating_of(lowercase_of(streaming@))),
                    gaming: Some(rating_of(lowercase_of(gaming@))),
                    video_conferencing: Some(rating_of(lowercase_of(video_conferencing@))),
                },
                ..*old(self)
            }),
    {
        self.quality_scores = QualityScores {
            streaming: Some(parse_quality_rating(streaming)),
            gaming: Some(parse_quality_rating(gaming)),
            video_conferencing: Some(parse_quality_rating(video_conferencing)),
        };
    }

    /// Takes in a progress event, at the time that has passed since the
    /// start of the test.
    pub fn update_from_event(&mut self, event: &ProgressEvent)
        ensures
            exists|elapsed: Fixed|
                elapsed.millionths >= 0 && event_applied(
                    *old(self),
                    *final(self),
                    *event,
                    elapsed,
                ),
    {
        let elapsed = duration_seconds(self.test_start_time.elapsed());
        self.update_from_event_at(event, elapsed);
    }

    /// Takes in a progress event that occurred `elapsed` seconds into the
    /// test.
    pub fn update_from_event_at(&mut self, event: &ProgressEvent, elapsed: Fixed)
        ensures
            event_applied(*old(self), *final(self), *event, elapsed),
    {
        match event {
            ProgressEvent::PhaseChange(phase) => {
                self.phase = *phase;
            },
            ProgressEvent::LatencyMeasurement { value_ms, current, total } => {
                self.latency.measurements.push(*value_ms);
                self.latency.current = *current;
                self.latency.total = *total;
            },
            ProgressEvent::BandwidthMeasurement { direction, speed_mbps, bytes, current, total } => {
                match direction {
                    BandwidthDirection::Download => {
                        self.download.record(*speed_mbps, *bytes, *current, *total, elapsed);
                    },
                    BandwidthDirection::Upload => {
                        self.upload.record(*speed_mbps, *bytes, *current, *total, elapsed);
                    },
                }
            },
            ProgressEvent::PhaseComplete(phase) => {
                match phase {
                    TestPhase::Latency => {
                        self.latency.summarize();
                    },
                    TestPhase::Download => {
                        self.download.complete();
                    },
                    TestPhase::Upload => {
                        self.upload.complete();
                    },
                    _ => {},
                }
            },
            ProgressEvent::Error(message) => {
                self.error = Some(ErrorInfo { message: message.clone(), suggestion: None });
            },
        }
    }

    /// Shows final results: the idle latency and jitter, the final speeds
    /// of both directions, and the phase complete. Nothing else changes.
    pub fn show_results(&mut self, results: &SpeedTestResults)
        ensures
            *final(self) == (TuiState {
                phase: TestPhase::Complete,
                latency: LatencyState {
                    median_ms: Some(results.latency.idle_ms),
                    jitter_ms: results.latency.idle_jitter_ms,
                    ..old(self).latency
                },
                download: BandwidthState {
                    final_speed_mbps: Some(results.download.speed_mbps),
                    completed: true,
                    ..old(self).download
                },
                upload: BandwidthState {
                    final_speed_mbps: Some(results.upload.speed_mbps),
                    completed: true,
                    ..old(self).upload
                },
                ..*old(self)
            }),
    {
        self.latency.median_ms = Some(results.latency.idle_ms);
        self.latency.jitter_ms = results.latency.idle_jitter_ms;
        self.download.final_speed_mbps = Some(results.download.speed_mbps);
        self.download.completed = true;
        self.upload.final_speed_mbps = Some(results.upload.speed_mbps);
        self.upload.completed = true;
        self.phase = TestPhase::Complete;
    }

    /// Whether anything has been measured.
    pub open spec fn has_data(&self) -> bool {
        ||| self.latency.measurements@.len() > 0
        ||| self.download.current_speed_mbps is Some
        ||| self.upload.current_speed_mbps is Some
    }

    /// What there is to show of a test that was interrupted; nothing if
    /// nothing has been measured.
    pub fn get_partial_results(&self) -> (r: Option<PartialResults>)
        ensures
            r is Some == self.has_data(),
            r matches Some(p) ==> {
                &&& p.server == self.server
                &&& p.connection == self.connection
                &&& p.latency_median_ms == self.latency.median_ms
                &&& p.latency_jitter_ms == self.latency.jitter_ms
                &&& p.latency_measurements == self.latency.measurements@.len()
                &&& p.download_speed_mbps == first_of(
                    self.download.final_speed_mbps,
                    self.download.current_speed_mbps,
                )
                &&& p.download_completed == self.download.completed
                &&& p.upload_speed_mbps == first_of(
                    self.upload.final_speed_mbps,
                    self.upload.current_speed_mbps,
                )
                &&& p.upload_completed == self.upload.completed
                &&& p.phase == self.phase
            },
    {
        if self.latency.measurements.len() == 0 && self.download.current_speed_mbps.is_none()
            && self.upload.current_speed_mbps.is_none() {
            return None;
        }
        let download_speed_mbps = match self.download.final_speed_mbps {
            Some(s) => Some(s),
            None => self.download.current_speed_mbps,
        };
        let upload_speed_mbps = match self.upload.final_speed_mbps {
            Some(s) => Some(s),
            None => self.upload.current_speed_mbps,
        };
        let server = match &self.server {
            Some(s) => Some(ServerInfo { city: s.city.clone(), iata: s.iata.clone() }),
            None => None,
        };
        let connection = match &self.connection {
            Some(c) => Some(
                ConnectionInfo {
                    ip: c.ip.clone(),
                    country: c.country.clone(),
                    isp: c.isp.clone(),
                    asn: c.asn,
                },
            ),
            None => None,
        };
        Some(
            PartialResults {
                server,
                connection,
                latency_median_ms: self.latency.median_ms,
                latency_jitter_ms: self.latency.jitter_ms,
                latency_measurements: self.latency.measurements.len(),
                download_speed_mbps,
                download_completed: self.download.completed,
                upload_speed_mbps,
                upload_completed: self.upload.completed,
                phase: self.phase,
            },
        )
    }

    /// Makes the display ready for another test: measurements, ratings and
    /// error are dropped and the clock starts anew; server, connection and
    /// terminal size stay.
    pub fn reset_for_retest(&mut self)
        ensures
            final(self).phase == TestPhase::Initializing,
            latency_is_new(final(self).latency),
            bandwidth_is_new(final(self).download),
            bandwidth_is_new(final(self).upload),
            final(self).quality_scores == (QualityScores {
                streaming: None,
                gaming: None,
                video_conferencing: None,
            }),
            final(self).error is None,
            !final(self).waiting_for_exit,
            !final(self).retest_requested,
            final(self).server == old(self).server,
            final(self).connection == old(self).connection,
            final(self).terminal_width == old(self).terminal_width,
            final(self).terminal_height == old(self).terminal_height,
    {
        self.phase = TestPhase::Initializing;
        self.latency = LatencyState::new();
        self.download = BandwidthState::new();
        self.upload = BandwidthState::new();
        self.quality_scores = QualityScores {
            streaming: None,
            gaming: None,
            video_conferencing: None,
        };
        self.error = None;
        self.waiting_for_exit = false;
        self.test_start_time = Instant::now();
        self.retest_requested = false;
    }
}

} // verus!
