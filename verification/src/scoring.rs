//! Quality scores for streaming, gaming and video conferencing, derived
//! from the measured speeds, latency, jitter and packet loss.
//!
//! Each use case grades several metrics against its own thresholds and
//! takes the lowest grade; the overall score is the lowest of the three.

pub mod gaming_thresholds;
pub mod streaming_thresholds;
pub mod video_conferencing_thresholds;

use crate::fixed::Fixed;
use vstd::prelude::*;

verus! {

/// Quality of the connection for a use case, from worst to best.
#[derive(Clone, Copy, Debug, PartialEq, Eq, PartialOrd, Ord, Hash, Structural)]
pub enum QualityScore {
    /// Poor performance: significant issues are likely.
    Poor,
    /// Acceptable performance: occasional issues may occur.
    Average,
    /// Good performance: suitable for the use case.
    Good,
    /// Excellent performance: optimal for the use case.
    Great,
}

/// The lower of two scores.
pub open spec fn lower_of(a: QualityScore, b: QualityScore) -> QualityScore {
    if a.level() <= b.level() {
        a
    } else {
        b
    }
}

/// The grade of a metric for which more is better.
pub open spec fn grade_at_least(value: Fixed, great: i64, good: i64, average: i64) -> QualityScore {
    if value.millionths >= great {
        QualityScore::Great
    } else if value.millionths >= good {
        QualityScore::Good
    } else if value.millionths >= average {
        QualityScore::Average
    } else {
        QualityScore::Poor
    }
}

/// The grade of a metric for which less is better.
pub open spec fn grade_at_most(value: Fixed, great: i64, good: i64, average: i64) -> QualityScore {
    if value.millionths <= great {
        QualityScore::Great
    } else if value.millionths <= good {
        QualityScore::Good
    } else if value.millionths <= average {
        QualityScore::Average
    } else {
        QualityScore::Poor
    }
}

/// The grade of a packet loss ratio; Great where none was measured.
pub open spec fn grade_packet_loss(loss: Option<Fixed>, great: i64, good: i64, average: i64) -> QualityScore {
    match loss {
        Some(l) => grade_at_most(l, great, good, average),
        None => QualityScore::Great,
    }
}

impl QualityScore {
    /// The place of the score in the order, from 0 for Poor to 3 for Great.
    pub open spec fn level(self) -> int {
        match self {
            QualityScore::Poor => 0,
            QualityScore::Average => 1,
            QualityScore::Good => 2,
            QualityScore::Great => 3,
        }
    }

    /// The place of the score in the order, from 0 for Poor to 3 for Great.
    pub fn rank(&self) -> (r: u8)
        ensures
            r == self.level(),
    {
        match self {
            QualityScore::Poor => 0,
            QualityScore::Average => 1,
            QualityScore::Good => 2,
            QualityScore::Great => 3,
        }
    }

    /// A human-readable description of the score.
    pub fn description(&self) -> (r: &'static str)
        ensures
            r@ == (match *self {
                QualityScore::Great => "Excellent"@,
                QualityScore::Good => "Good"@,
                QualityScore::Average => "Average"@,
                QualityScore::Poor => "Poor"@,
            }),
    {
        match self {
            QualityScore::Great => "Excellent",
            QualityScore::Good => "Good",
            QualityScore::Average => "Average",
            QualityScore::Poor => "Poor",
        }
    }

    /// Whether this score is as good as `other` or better.
    pub fn is_at_least(&self, other: QualityScore) -> (r: bool)
        ensures
            r == (self.level() >= other.level()),
    {
        self.rank() >= other.rank()
    }

    /// The lower of two scores.
    pub fn lower(self, other: QualityScore) -> (r: QualityScore)
        ensures
            r == lower_of(self, other),
    {
        if self.rank() <= other.rank() {
            self
        } else {
            other
        }
    }
}

/// Quality scores for the three use cases.
#[derive(Clone, Copy, Debug, PartialEq, Eq, Structural)]
pub struct AimScores {
    /// Quality score for video streaming.
    pub streaming: QualityScore,
    /// Quality score for online gaming.
    pub gaming: QualityScore,
    /// Quality score for video conferencing.
    pub video_conferencing: QualityScore,
}

impl AimScores {
    /// The three scores together.
    pub fn new(
        streaming: QualityScore,
        gaming: QualityScore,
        video_conferencing: QualityScore,
    ) -> (r: Self)
        ensures
            r.streaming == streaming,
            r.gaming == gaming,
            r.video_conferencing == video_conferencing,
    {
        AimScores { streaming, gaming, video_conferencing }
    }

    /// The overall score: the lowest of the three.
    pub open spec fn overall_of(self) -> QualityScore {
        lower_of(lower_of(self.streaming, self.gaming), self.video_conferencing)
    }

    /// The overall score: the lowest of the three use-case scores.
    pub fn overall(&self) -> (r: QualityScore)
        ensures
            r == self.overall_of(),
            r.level() <= self.streaming.level(),
            r.level() <= self.gaming.level(),
            r.level() <= self.video_conferencing.level(),
            r == self.streaming || r == self.gaming || r == self.video_conferencing,
    {
        self.streaming.lower(self.gaming).lower(self.video_conferencing)
    }
}

/// Connection metrics that the scores are computed from. Speeds are in
/// Mbps, latency and jitter in milliseconds, packet loss is a ratio.
#[derive(Clone, Copy, Debug, PartialEq, Eq)]
pub struct ConnectionMetrics {
    /// Download speed in Mbps.
    pub download_mbps: Fixed,
    /// Upload speed in Mbps.
    pub upload_mbps: Fixed,
    /// Idle latency in milliseconds.
    pub latency_ms: Fixed,
    /// Idle jitter in milliseconds.
    pub jitter_ms: Fixed,
    /// Packet loss ratio from 0 to 1, if measured.
    pub packet_loss: Option<Fixed>,
    /// Loaded latency during downloads in milliseconds, if measured.
    pub loaded_latency_down_ms: Option<Fixed>,
    /// Loaded latency during uploads in milliseconds, if measured.
    pub loaded_latency_up_ms: Option<Fixed>,
}

impl ConnectionMetrics {
    /// Metrics with the given speeds, latency and jitter, and neither
    /// packet loss nor loaded latency.
    pub fn new(download_mbps: Fixed, upload_mbps: Fixed, latency_ms: Fixed, jitter_ms: Fixed) -> (r:
        Self)
        ensures
            r == (ConnectionMetrics {
                download_mbps,
                upload_mbps,
                latency_ms,
                jitter_ms,
                packet_loss: None,
                loaded_latency_down_ms: None,
                loaded_latency_up_ms: None,
            }),
    {
        ConnectionMetrics {
            download_mbps,
            upload_mbps,
            latency_ms,
            jitter_ms,
            packet_loss: None,
            loaded_latency_down_ms: None,
            loaded_latency_up_ms: None,
        }
    }

    /// The same metrics with the packet loss ratio set.
    pub fn with_packet_loss(self, packet_loss: Fixed) -> (r: Self)
        ensures
            r == (ConnectionMetrics { packet_loss: Some(packet_loss), ..self }),
    {
        ConnectionMetrics { packet_loss: Some(packet_loss), ..self }
    }

    /// The same metrics with the loaded latencies set.
    pub fn with_loaded_latency(self, down_ms: Option<Fixed>, up_ms: Option<Fixed>) -> (r: Self)
        ensures
            r == (ConnectionMetrics {
                loaded_latency_down_ms: down_ms,
                loaded_latency_up_ms: up_ms,
                ..self
            }),
    {
        ConnectionMetrics { loaded_latency_down_ms: down_ms, loaded_latency_up_ms: up_ms, ..self }
    }

    /// The latency that counts for streaming: loaded latency during
    /// downloads, else idle latency.
    pub open spec fn streaming_latency(self) -> Fixed {
        match self.loaded_latency_down_ms {
            Some(l) => l,
            None => self.latency_ms,
        }
    }

    /// The latency that counts for gaming: loaded latency during downloads,
    /// else during uploads, else idle latency.
    pub open spec fn gaming_latency(self) -> Fixed {
        match self.loaded_latency_down_ms {
            Some(l) => l,
            None => match self.loaded_latency_up_ms {
                Some(l) => l,
                None => self.latency_ms,
            },
        }
    }

    /// The latency that counts for video conferencing: loaded latency
    /// during uploads, else during downloads, else idle latency.
    pub open spec fn conferencing_latency(self) -> Fixed {
        match self.loaded_latency_up_ms {
            Some(l) => l,
            None => match self.loaded_latency_down_ms {
                Some(l) => l,
                None => self.latency_ms,
            },
        }
    }
}

/// The streaming score: the lower of the grades of download speed and
/// latency.
pub open spec fn streaming_score_of(m: ConnectionMetrics) -> QualityScore {
    lower_of(
        grade_at_least(
            m.download_mbps,
            streaming_thresholds::DOWNLOAD_GREAT,
            streaming_thresholds::DOWNLOAD_GOOD,
            streaming_thresholds::DOWNLOAD_AVERAGE,
        ),
        grade_at_most(
            m.streaming_latency(),
            streaming_thresholds::LATENCY_GREAT,
            streaming_thresholds::LATENCY_GOOD,
            streaming_thresholds::LATENCY_AVERAGE,
        ),
    )
}

/// The gaming score: the lowest of the grades of latency, jitter, packet
/// loss and download speed.
pub open spec fn gaming_score_of(m: ConnectionMetrics) -> QualityScore {
    lower_of(
        lower_of(
            lower_of(
                grade_at_most(
                    m.gaming_latency(),
                    gaming_thresholds::LATENCY_GREAT,
                    gaming_thresholds::LATENCY_GOOD,
                    gaming_thresholds::LATENCY_AVERAGE,
                ),
                grade_at_most(
                    m.jitter_ms,
                    gaming_thresholds::JITTER_GREAT,
                    gaming_thresholds::JITTER_GOOD,
                    gaming_thresholds::JITTER_AVERAGE,
                ),
            ),
            grade_packet_loss(
                m.packet_loss,
                gaming_thresholds::PACKET_LOSS_GREAT,
                gaming_thresholds::PACKET_LOSS_GOOD,
                gaming_thresholds::PACKET_LOSS_AVERAGE,
            ),
        ),
        grade_at_least(
            m.download_mbps,
            gaming_thresholds::DOWNLOAD_GREAT,
            gaming_thresholds::DOWNLOAD_GOOD,
            gaming_thresholds::DOWNLOAD_AVERAGE,
        ),
    )
}

/// The video conferencing score: the lowest of the grades of download
/// speed, upload speed, latency, jitter and packet loss.
pub open spec fn video_conferencing_score_of(m: ConnectionMetrics) -> QualityScore {
    lower_of(
        lower_of(
            lower_of(
                lower_of(
                    grade_at_least(
                        m.download_mbps,
                        video_conferencing_thresholds::DOWNLOAD_GREAT,
                        video_conferencing_thresholds::DOWNLOAD_GOOD,
                        video_conferencing_thresholds::DOWNLOAD_AVERAGE,
                    ),
                    grade_at_least(
                        m.upload_mbps,
                        video_conferencing_thresholds::UPLOAD_GREAT,
                        video_conferencing_thresholds::UPLOAD_GOOD,
                        video_conferencing_thresholds::UPLOAD_AVERAGE,
                    ),
                ),
                grade_at_most(
                    m.conferencing_latency(),
                    video_conferencing_thresholds::LATENCY_GREAT,
                    video_conferencing_thresholds::LATENCY_GOOD,
                    video_conferencing_thresholds::LATENCY_AVERAGE,
                ),
            ),
            grade_at_most(
                m.jitter_ms,
                video_conferencing_thresholds::JITTER_GREAT,
                video_conferencing_thresholds::JITTER_GOOD,
                video_conferencing_thresholds::JITTER_AVERAGE,
            ),
        ),
        grade_packet_loss(
            m.packet_loss,
            video_conferencing_thresholds::PACKET_LOSS_GREAT,
            video_conferencing_thresholds::PACKET_LOSS_GOOD,
            video_conferencing_thresholds::PACKET_LOSS_AVERAGE,
        ),
    )
}

/// The three scores of the metrics.
pub open spec fn aim_scores_of(m: ConnectionMetrics) -> AimScores {
    AimScores {
        streaming: streaming_score_of(m),
        gaming: gaming_score_of(m),
        video_conferencing: video_conferencing_score_of(m),
    }
}

/// Grades a metric for which more is better.
fn grade_min(value: Fixed, great: i64, good: i64, average: i64) -> (r: QualityScore)
    ensures
        r == grade_at_least(value, great, good, average),
{
    if value.millionths >= great {
        QualityScore::Great
    } else if value.millionths >= good {
        QualityScore::Good
    } else if value.millionths >= average {
        QualityScore::Average
    } else {
        QualityScore::Poor
    }
}

/// Grades a metric for which less is better.
fn grade_max(value: Fixed, great: i64, good: i64, average: i64) -> (r: QualityScore)
    ensures
        r == grade_at_most(value, great, good, average),
{
    if value.millionths <= great {
        QualityScore::Great
    } else if value.millionths <= good {
        QualityScore::Good
    } else if value.millionths <= average {
        QualityScore::Average
    } else {
        QualityScore::Poor
    }
}

/// Grades a packet loss ratio; Great where none was measured.
fn grade_loss(loss: Option<Fixed>, great: i64, good: i64, average: i64) -> (r: QualityScore)
    ensures
        r == grade_packet_loss(loss, great, good, average),
{
    match loss {
        Some(l) => grade_max(l, great, good, average),
        None => QualityScore::Great,
    }
}

/// The streaming score: download speed first, latency second.
pub fn calculate_streaming_score(metrics: &ConnectionMetrics) -> (r: QualityScore)
    ensures
        r == streaming_score_of(*metrics),
{
    let download_score = grade_min(
        metrics.download_mbps,
        streaming_thresholds::DOWNLOAD_GREAT,
        streaming_thresholds::DOWNLOAD_GOOD,
        streaming_thresholds::DOWNLOAD_AVERAGE,
    );
    let effective_latency = match metrics.loaded_latency_down_ms {
        Some(l) => l,
        None => metrics.latency_ms,
    };
    let latency_score = grade_max(
        effective_latency,
        streaming_thresholds::LATENCY_GREAT,
        streaming_thresholds::LATENCY_GOOD,
        streaming_thresholds::LATENCY_AVERAGE,
    );
    download_score.lower(latency_score)
}

/// The gaming score: latency, jitter, packet loss and download speed.
pub fn calculate_gaming_score(metrics: &ConnectionMetrics) -> (r: QualityScore)
    ensures
        r == gaming_score_of(*metrics),
{
    let effective_latency = match metrics.loaded_latency_down_ms {
        Some(l) => l,
        None => match metrics.loaded_latency_up_ms {
            Some(l) => l,
            None => metrics.latency_ms,
        },
    };
    let latency_score = grade_max(
        effective_latency,
        gaming_thresholds::LATENCY_GREAT,
        gaming_thresholds::LATENCY_GOOD,
        gaming_thresholds::LATENCY_AVERAGE,
    );
    let jitter_score = grade_max(
        metrics.jitter_ms,
        gaming_thresholds::JITTER_GREAT,
        gaming_thresholds::JITTER_GOOD,
        gaming_thresholds::JITTER_AVERAGE,
    );
    let packet_loss_score = grade_loss(
        metrics.packet_loss,
        gaming_thresholds::PACKET_LOSS_GREAT,
        gaming_thresholds::PACKET_LOSS_GOOD,
        gaming_thresholds::PACKET_LOSS_AVERAGE,
    );
    let download_score = grade_min(
        metrics.download_mbps,
        gaming_thresholds::DOWNLOAD_GREAT,
        gaming_thresholds::DOWNLOAD_GOOD,
        gaming_thresholds::DOWNLOAD_AVERAGE,
    );
    latency_score.lower(jitter_score).lower(packet_loss_score).lower(download_score)
}

/// The video conferencing score: download and upload speed, latency,
/// jitter and packet loss.
pub fn calculate_video_conferencing_score(metrics: &ConnectionMetrics) -> (r: QualityScore)
    ensures
        r == video_conferencing_score_of(*metrics),
{
    let download_score = grade_min(
        metrics.download_mbps,
        video_conferencing_thresholds::DOWNLOAD_GREAT,
        video_conferencing_thresholds::DOWNLOAD_GOOD,
        video_conferencing_thresholds::DOWNLOAD_AVERAGE,
    );
    let upload_score = grade_min(
        metrics.upload_mbps,
        video_conferencing_thresholds::UPLOAD_GREAT,
        video_conferencing_thresholds::UPLOAD_GOOD,
        video_conferencing_thresholds::UPLOAD_AVERAGE,
    );
    let effective_latency = match metrics.loaded_latency_up_ms {
        Some(l) => l,
        None => match metrics.loaded_latency_down_ms {
            Some(l) => l,
            None => metrics.latency_ms,
        },
    };
    let latency_score = grade_max(
        effective_latency,
        video_conferencing_thresholds::LATENCY_GREAT,
        video_conferencing_thresholds::LATENCY_GOOD,
        video_conferencing_thresholds::LATENCY_AVERAGE,
    );
    let jitter_score = grade_max(
        metrics.jitter_ms,
        video_conferencing_thresholds::JITTER_GREAT,
        video_conferencing_thresholds::JITTER_GOOD,
        video_conferencing_thresholds::JITTER_AVERAGE,
    );
    let packet_loss_score = grade_loss(
        metrics.packet_loss,
        video_conferencing_thresholds::PACKET_LOSS_GREAT,
        video_conferencing_thresholds::PACKET_LOSS_GOOD,
        video_conferencing_thresholds::PACKET_LOSS_AVERAGE,
    );
    download_score.lower(upload_score).lower(latency_score).lower(jitter_score).lower(
        packet_loss_score,
    )
}

/// The quality scores for streaming, gaming and video conferencing.
pub fn calculate_aim_scores(metrics: &ConnectionMetrics) -> (r: AimScores)
    ensures
        r == aim_scores_of(*metrics),
{
    AimScores {
        streaming: calculate_streaming_score(metrics),
        gaming: calculate_gaming_score(metrics),
        video_conferencing: calculate_video_conferencing_score(metrics),
    }
}

/// An optional measurement `a` is no worse than `b` where less is better:
/// both are absent, or both are present and `a` is no larger.
pub open spec fn no_larger(a: Option<Fixed>, b: Option<Fixed>) -> bool {
    match (a, b) {
        (Some(x), Some(y)) => x.millionths <= y.millionths,
        (None, None) => true,
        _ => false,
    }
}

/// The metrics `a` are no worse than `b` in any respect: no slower, no
/// more latency, jitter or packet loss, with the same measurements present
/// (an unmeasured packet loss counts as the best).
pub open spec fn no_worse(a: ConnectionMetrics, b: ConnectionMetrics) -> bool {
    &&& a.download_mbps.millionths >= b.download_mbps.millionths
    &&& a.upload_mbps.millionths >= b.upload_mbps.millionths
    &&& a.latency_ms.millionths <= b.latency_ms.millionths
    &&& a.jitter_ms.millionths <= b.jitter_ms.millionths
    &&& (a.packet_loss is None || no_larger(a.packet_loss, b.packet_loss))
    &&& no_larger(a.loaded_latency_down_ms, b.loaded_latency_down_ms)
    &&& no_larger(a.loaded_latency_up_ms, b.loaded_latency_up_ms)
}

/// Improving any metric, or several, never lowers a score: metrics that
/// are no worse give scores that are no lower, for each use case and
/// overall.
pub proof fn lemma_scores_monotonic(a: ConnectionMetrics, b: ConnectionMetrics)
    requires
        no_worse(a, b),
    ensures
        streaming_score_of(a).level() >= streaming_score_of(b).level(),
        gaming_score_of(a).level() >= gaming_score_of(b).level(),
        video_conferencing_score_of(a).level() >= video_conferencing_score_of(b).level(),
        aim_scores_of(a).overall_of().level() >= aim_scores_of(b).overall_of().level(),
{
}

/// The overall score is the minimum of the three use-case scores: it is
/// one of them and none of them is lower.
pub proof fn lemma_overall_is_minimum(s: AimScores)
    ensures
        s.overall_of() == s.streaming || s.overall_of() == s.gaming || s.overall_of()
            == s.video_conferencing,
        s.overall_of().level() <= s.streaming.level(),
        s.overall_of().level() <= s.gaming.level(),
        s.overall_of().level() <= s.video_conferencing.level(),
{
}

} // verus!
