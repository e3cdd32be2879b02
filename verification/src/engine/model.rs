//! The model of the test engine: the state of a run as values, the steps
//! of a run as functions on such states, the invariant that the steps keep,
//! and what follows from it.

use crate::engine::{
    BandwidthResults, DataBlock, EngineAction, EnginePhase, LatencyResults, SizeMeasurement,
    SpeedTestOutput, TestConfig, PROBE_BYTES, WARMUP_BYTES,
};
use crate::fixed::{Fixed, SCALE};
use crate::harness::TestResults;
use crate::measurements::{
    after_add, aggregate_of, jitter_of, BandwidthMeasurement, LatencyDirection,
};
use crate::stats::median_of;
use crate::text::decimal_digits;
use crate::tui::progress::{BandwidthDirection, ProgressEvent, TestPhase};
use vstd::prelude::*;

verus! {

/// The results of one data block, as values.
pub struct SizeView {
    pub bytes: u64,
    pub speed_mbps: Fixed,
    pub count: nat,
    pub measurements: Seq<BandwidthMeasurement>,
    pub triggered_early_termination: bool,
}

/// The state of one direction, as values.
pub struct DirectionView {
    /// Every measurement of the direction, in order.
    pub measurements: Seq<BandwidthMeasurement>,
    /// The results of the blocks that have been run, in order.
    pub sizes: Seq<SizeView>,
    /// Whether a block of the direction reached the finish duration.
    pub early_terminated: bool,
}

/// The state of a run, as values.
pub struct EngineView {
    pub phase: EnginePhase,
    /// Idle latency probes reported so far.
    pub probes: nat,
    /// Idle latency samples so far.
    pub idle_latencies: Seq<Fixed>,
    /// Index of the data block that is due.
    pub block_index: nat,
    /// Whether the upload block of that index is due, the download block
    /// being done or left out.
    pub uploading: bool,
    /// Iterations of the current block reported so far.
    pub iteration: nat,
    /// Measurements of the current block so far.
    pub current: Seq<BandwidthMeasurement>,
    /// Whether one of them reached the finish duration.
    pub current_triggered: bool,
    pub download: DirectionView,
    pub upload: DirectionView,
    /// Loaded latency samples held for downloads, oldest first.
    pub loaded_down: Seq<Fixed>,
    /// Loaded latency samples held for uploads, oldest first.
    pub loaded_up: Seq<Fixed>,
}

/// Capacity of the loaded latency queues.
pub open spec fn loaded_capacity() -> nat {
    20
}

/// Request duration, in millionths of a millisecond, below which loaded
/// latency samples are rejected.
pub open spec fn loaded_floor() -> int {
    250_000_000
}

/// The number of block indices of a run: the length of the longer list of
/// blocks.
pub open spec fn block_count(c: &TestConfig) -> nat {
    if c.download_sizes@.len() >= c.upload_sizes@.len() {
        c.download_sizes@.len()
    } else {
        c.upload_sizes@.len()
    }
}

/// The blocks of a direction.
pub open spec fn blocks_of(c: &TestConfig, uploading: bool) -> Seq<DataBlock> {
    if uploading {
        c.upload_sizes@
    } else {
        c.download_sizes@
    }
}

/// One of the measurements lasted at least `finish`.
pub open spec fn any_long(ms: Seq<BandwidthMeasurement>, finish: Fixed) -> bool {
    exists|i: int| 0 <= i < ms.len() && (#[trigger] ms[i]).duration_ms.millionths >= finish.millionths
}

/// The speed in Mbps that measurements give: the configured percentile of
/// the bandwidths of those that lasted the minimum duration, zero where
/// there is none.
pub open spec fn speed_of(c: &TestConfig, ms: Seq<BandwidthMeasurement>) -> Fixed {
    match aggregate_of(ms, c.bandwidth_percentile, c.bandwidth_min_duration_ms) {
        Some(bps) => Fixed { millionths: (bps.millionths / SCALE) as i64 },
        None => Fixed { millionths: 0 },
    }
}

/// A queue of loaded latencies after the samples of one request of the
/// given duration have been offered to it in order.
pub open spec fn offer_all(q: Seq<Fixed>, samples: Seq<Fixed>, duration_ms: Fixed) -> Seq<Fixed>
    decreases samples.len(),
{
    if samples.len() == 0 || duration_ms.millionths < loaded_floor() {
        q
    } else {
        after_add(offer_all(q, samples.drop_last(), duration_ms), loaded_capacity(), samples.last())
    }
}

/// The measurements of the blocks, one block after the other.
pub open spec fn flatten(sizes: Seq<SizeView>) -> Seq<BandwidthMeasurement>
    decreases sizes.len(),
{
    if sizes.len() == 0 {
        Seq::empty()
    } else {
        flatten(sizes.drop_last()) + sizes.last().measurements
    }
}

impl EngineView {
    /// The state of a run before anything has been done.
    pub open spec fn initial() -> EngineView {
        EngineView {
            phase: EnginePhase::WarmupLatency,
            probes: 0,
            idle_latencies: Seq::empty(),
            block_index: 0,
            uploading: false,
            iteration: 0,
            current: Seq::empty(),
            current_triggered: false,
            download: DirectionView {
                measurements: Seq::empty(),
                sizes: Seq::empty(),
                early_terminated: false,
            },
            upload: DirectionView {
                measurements: Seq::empty(),
                sizes: Seq::empty(),
                early_terminated: false,
            },
            loaded_down: Seq::empty(),
            loaded_up: Seq::empty(),
        }
    }

    /// The state of the direction that is due.
    pub open spec fn direction(self) -> DirectionView {
        if self.uploading {
            self.upload
        } else {
            self.download
        }
    }

    /// The block of the current index exists in the direction that is due
    /// and that direction has not stopped.
    pub open spec fn runnable(self, c: &TestConfig) -> bool {
        &&& self.block_index < blocks_of(c, self.uploading).len()
        &&& !self.direction().early_terminated
    }

    /// The block that is due.
    pub open spec fn block(self, c: &TestConfig) -> DataBlock {
        blocks_of(c, self.uploading)[self.block_index as int]
    }

    /// The state with the next direction or index due.
    pub open spec fn advance(self) -> EngineView {
        if self.uploading {
            EngineView {
                block_index: self.block_index + 1,
                uploading: false,
                iteration: 0,
                current: Seq::empty(),
                current_triggered: false,
                ..self
            }
        } else {
            EngineView {
                uploading: true,
                iteration: 0,
                current: Seq::empty(),
                current_triggered: false,
                ..self
            }
        }
    }

    /// The state of the direction that is due once its current block is
    /// closed: the block's results join the direction's, and the direction
    /// stops if the block reached the finish duration.
    pub open spec fn closed_direction(self, c: &TestConfig) -> DirectionView {
        DirectionView {
            measurements: self.direction().measurements + self.current,
            sizes: self.direction().sizes.push(
                SizeView {
                    bytes: self.block(c).bytes,
                    speed_mbps: speed_of(c, self.current),
                    count: self.current.len(),
                    measurements: self.current,
                    triggered_early_termination: self.current_triggered,
                },
            ),
            early_terminated: self.direction().early_terminated || self.current_triggered,
        }
    }

    /// The state once the current block is closed and the next direction
    /// or index is due.
    pub open spec fn close_block(self, c: &TestConfig) -> EngineView {
        if self.uploading {
            EngineView { upload: self.closed_direction(c), ..self }.advance()
        } else {
            EngineView { download: self.closed_direction(c), ..self }.advance()
        }
    }

    /// What is left of the order of blocks, as a number that every step
    /// lowers.
    pub open spec fn remaining(self, c: &TestConfig) -> int {
        2 * (block_count(c) - self.block_index) - (if self.uploading {
            1int
        } else {
            0int
        })
    }

    /// The state moved on to the next transfer that is due: blocks whose
    /// iterations are all done are closed; blocks that do not exist, or
    /// whose direction has stopped, are passed over; past the last index
    /// the run is complete.
    pub open spec fn settle(self, c: &TestConfig) -> EngineView
        decreases self.remaining(c),
    {
        if self.block_index >= block_count(c) {
            EngineView { phase: EnginePhase::Complete, ..self }
        } else if self.runnable(c) {
            if self.iteration < self.block(c).count {
                self
            } else {
                self.close_block(c).settle(c)
            }
        } else {
            self.advance().settle(c)
        }
    }

    /// The state after the outcome of a latency probe: the latency sample
    /// of a success, nothing for a failure. The warm-up probe only moves
    /// the run on. The last idle probe opens the bandwidth phase, or fails
    /// the run if no probe gave a sample.
    pub open spec fn after_probe(self, c: &TestConfig, sample: Option<Fixed>) -> EngineView {
        match self.phase {
            EnginePhase::WarmupLatency => EngineView { phase: EnginePhase::WarmupDownload, ..self },
            EnginePhase::Latency => {
                let idle = match sample {
                    Some(ms) => self.idle_latencies.push(ms),
                    None => self.idle_latencies,
                };
                let counted = EngineView {
                    probes: self.probes + 1,
                    idle_latencies: idle,
                    ..self
                };
                if counted.probes < c.latency_packets {
                    counted
                } else if idle.len() == 0 {
                    EngineView { phase: EnginePhase::Failed, ..counted }
                } else {
                    EngineView { phase: EnginePhase::Bandwidth, ..counted }.settle(c)
                }
            },
            _ => self,
        }
    }

    /// The state with the measurement of a successful transfer and the
    /// latency samples taken during it taken in.
    pub open spec fn with_measurement(
        self,
        c: &TestConfig,
        m: BandwidthMeasurement,
        samples: Seq<Fixed>,
    ) -> EngineView {
        EngineView {
            current: self.current.push(m),
            current_triggered: self.current_triggered || m.duration_ms.millionths
                >= c.bandwidth_finish_duration_ms.millionths,
            loaded_down: if self.uploading {
                self.loaded_down
            } else {
                offer_all(self.loaded_down, samples, m.duration_ms)
            },
            loaded_up: if self.uploading {
                offer_all(self.loaded_up, samples, m.duration_ms)
            } else {
                self.loaded_up
            },
            ..self
        }
    }

    /// The state after the outcome of a transfer: its measurement for a
    /// success, nothing for a failure, and the latency samples taken while
    /// it ran. The warm-up download only moves the run on, to the idle
    /// latency phase, or fails it where no probe is configured.
    pub open spec fn after_transfer(
        self,
        c: &TestConfig,
        outcome: Option<BandwidthMeasurement>,
        samples: Seq<Fixed>,
    ) -> EngineView {
        match self.phase {
            EnginePhase::WarmupDownload => if c.latency_packets == 0 {
                EngineView { phase: EnginePhase::Failed, ..self }
            } else {
                EngineView { phase: EnginePhase::Latency, ..self }
            },
            EnginePhase::Bandwidth => {
                let taken = match outcome {
                    Some(m) => self.with_measurement(c, m, samples),
                    None => self,
                };
                EngineView { iteration: self.iteration + 1, ..taken }.settle(c)
            },
            _ => self,
        }
    }

    /// What the caller is to do in this state.
    pub open spec fn action(self, c: &TestConfig) -> EngineAction {
        match self.phase {
            EnginePhase::WarmupLatency => EngineAction::ProbeLatency {
                bytes: PROBE_BYTES,
                current: 1,
                total: 1,
            },
            EnginePhase::WarmupDownload => EngineAction::Transfer {
                direction: LatencyDirection::Download,
                bytes: WARMUP_BYTES,
                current: 1,
                total: 1,
                sample_latency: false,
            },
            EnginePhase::Latency => EngineAction::ProbeLatency {
                bytes: PROBE_BYTES,
                current: (self.probes + 1) as usize,
                total: c.latency_packets,
            },
            EnginePhase::Bandwidth => EngineAction::Transfer {
                direction: if self.uploading {
                    LatencyDirection::Upload
                } else {
                    LatencyDirection::Download
                },
                bytes: self.block(c).bytes,
                current: (self.iteration + 1) as usize,
                total: self.block(c).count,
                sample_latency: true,
            },
            _ => EngineAction::Finish,
        }
    }
}

/// The results of a block are those of `block` under configuration `c`.
pub open spec fn size_ok(c: &TestConfig, s: SizeView, block: DataBlock) -> bool {
    &&& s.bytes == block.bytes
    &&& s.count == s.measurements.len()
    &&& s.measurements.len() <= block.count
    &&& s.speed_mbps == speed_of(c, s.measurements)
    &&& s.triggered_early_termination == any_long(s.measurements, c.bandwidth_finish_duration_ms)
}

/// The state of a direction is that of a run over `blocks`: the blocks run
/// so far are the first of `blocks`, in order; only the last of them can
/// have reached the finish duration, and the direction has stopped exactly
/// if it did; the direction's measurements are those of its blocks.
pub open spec fn direction_ok(c: &TestConfig, d: DirectionView, blocks: Seq<DataBlock>) -> bool {
    &&& d.sizes.len() <= blocks.len()
    &&& forall|k: int| 0 <= k < d.sizes.len() ==> size_ok(c, #[trigger] d.sizes[k], blocks[k])
    &&& forall|k: int|
        0 <= k < d.sizes.len() - 1 ==> !(#[trigger] d.sizes[k]).triggered_early_termination
    &&& d.early_terminated == (d.sizes.len() > 0 && d.sizes.last().triggered_early_termination)
    &&& d.measurements == flatten(d.sizes)
}

/// The number of blocks of a direction that lie before the position
/// `(block_index, uploading)` in the order of the run.
pub open spec fn blocks_before(len: nat, block_index: nat, passed: bool) -> nat {
    let upto = if passed {
        block_index + 1
    } else {
        block_index
    };
    if upto <= len {
        upto
    } else {
        len
    }
}

/// A direction has run every block before the current position, unless it
/// has stopped.
pub open spec fn progress_ok(d: DirectionView, len: nat, block_index: nat, passed: bool) -> bool {
    if d.early_terminated {
        d.sizes.len() <= blocks_before(len, block_index, passed)
    } else {
        d.sizes.len() == blocks_before(len, block_index, passed)
    }
}

/// The invariant of a run under configuration `c`.
pub open spec fn view_ok(c: &TestConfig, v: EngineView) -> bool {
    &&& v.idle_latencies.len() <= v.probes <= c.latency_packets
    &&& v.loaded_down.len() <= loaded_capacity()
    &&& v.loaded_up.len() <= loaded_capacity()
    &&& direction_ok(c, v.download, c.download_sizes@)
    &&& direction_ok(c, v.upload, c.upload_sizes@)
    &&& progress_ok(v.download, c.download_sizes@.len(), v.block_index, v.uploading)
    &&& progress_ok(v.upload, c.upload_sizes@.len(), v.block_index, false)
    &&& v.current.len() <= v.iteration
    &&& v.current_triggered == any_long(v.current, c.bandwidth_finish_duration_ms)
    &&& match v.phase {
        EnginePhase::WarmupLatency | EnginePhase::WarmupDownload => fresh(v) && v.probes == 0,
        EnginePhase::Latency => fresh(v) && v.probes < c.latency_packets,
        EnginePhase::Failed => fresh(v) && v.idle_latencies.len() == 0,
        EnginePhase::Bandwidth => {
            &&& v.idle_latencies.len() > 0
            &&& v.block_index < block_count(c)
            &&& v.runnable(c)
            &&& v.iteration < v.block(c).count
        },
        EnginePhase::Complete => {
            &&& v.idle_latencies.len() > 0
            &&& v.block_index == block_count(c)
            &&& !v.uploading
            &&& v.iteration == 0
            &&& v.current.len() == 0
        },
    }
}

/// No transfer of a data block has been made yet.
pub open spec fn fresh(v: EngineView) -> bool {
    &&& v.block_index == 0
    &&& !v.uploading
    &&& v.iteration == 0
    &&& v.current.len() == 0
    &&& v.download.sizes.len() == 0
    &&& v.upload.sizes.len() == 0
    &&& !v.download.early_terminated
    &&& !v.upload.early_terminated
    &&& v.loaded_down.len() == 0
    &&& v.loaded_up.len() == 0
}

/// The invariant of the bandwidth phase while the state is being moved
/// on: as `view_ok` in that phase, except that the current block may have
/// all its iterations done, not exist, or belong to a direction that has
/// stopped.
pub open spec fn moving_ok(c: &TestConfig, v: EngineView) -> bool {
    &&& v.phase == EnginePhase::Bandwidth
    &&& v.idle_latencies.len() > 0
    &&& v.idle_latencies.len() <= v.probes <= c.latency_packets
    &&& v.loaded_down.len() <= loaded_capacity()
    &&& v.loaded_up.len() <= loaded_capacity()
    &&& direction_ok(c, v.download, c.download_sizes@)
    &&& direction_ok(c, v.upload, c.upload_sizes@)
    &&& progress_ok(v.download, c.download_sizes@.len(), v.block_index, v.uploading)
    &&& progress_ok(v.upload, c.upload_sizes@.len(), v.block_index, false)
    &&& v.current.len() <= v.iteration
    &&& v.current_triggered == any_long(v.current, c.bandwidth_finish_duration_ms)
    &&& v.block_index <= block_count(c)
    &&& v.block_index == block_count(c) ==> !v.uploading && v.iteration == 0 && v.current.len()
        == 0
    &&& v.block_index < block_count(c) && v.runnable(c) ==> v.iteration <= v.block(c).count
    &&& v.block_index < block_count(c) && !v.runnable(c) ==> v.iteration == 0 && v.current.len()
        == 0
}

/// The measurements of blocks with one more block are those of the blocks
/// followed by those of the new block.
pub proof fn lemma_flatten_push(sizes: Seq<SizeView>, last: SizeView)
    ensures
        flatten(sizes.push(last)) == flatten(sizes) + last.measurements,
{
    assert(sizes.push(last).drop_last() =~= sizes);
}

/// One more measurement reaches the finish duration if it does itself or
/// one before it did.
pub proof fn lemma_any_long_push(ms: Seq<BandwidthMeasurement>, m: BandwidthMeasurement, finish: Fixed)
    ensures
        any_long(ms.push(m), finish) == (any_long(ms, finish) || m.duration_ms.millionths
            >= finish.millionths),
{
    let more = ms.push(m);
    if any_long(ms, finish) {
        let i = choose|i: int|
            0 <= i < ms.len() && (#[trigger] ms[i]).duration_ms.millionths >= finish.millionths;
        assert(more[i] == ms[i]);
    }
    if m.duration_ms.millionths >= finish.millionths {
        assert(more[ms.len() as int] == m);
    }
    if any_long(more, finish) {
        let i = choose|i: int|
            0 <= i < more.len() && (#[trigger] more[i]).duration_ms.millionths
                >= finish.millionths;
        if i < ms.len() {
            assert(ms[i] == more[i]);
        }
    }
}

/// A queue within its capacity stays within it whatever is offered.
pub proof fn lemma_offer_all_bounded(q: Seq<Fixed>, samples: Seq<Fixed>, duration_ms: Fixed)
    requires
        q.len() <= loaded_capacity(),
    ensures
        offer_all(q, samples, duration_ms).len() <= loaded_capacity(),
    decreases samples.len(),
{
    if samples.len() > 0 && duration_ms.millionths >= loaded_floor() {
        lemma_offer_all_bounded(q, samples.drop_last(), duration_ms);
    }
}

/// Samples of a request shorter than the floor change nothing.
pub proof fn lemma_offer_all_rejected(q: Seq<Fixed>, samples: Seq<Fixed>, duration_ms: Fixed)
    requires
        duration_ms.millionths < loaded_floor(),
    ensures
        offer_all(q, samples, duration_ms) == q,
{
}

/// Closing a block whose iterations are all done keeps the invariant of
/// the move.
pub proof fn lemma_close_block_ok(c: &TestConfig, v: EngineView)
    requires
        moving_ok(c, v),
        v.block_index < block_count(c),
        v.runnable(c),
        v.iteration == v.block(c).count,
    ensures
        moving_ok(c, v.close_block(c)),
        v.close_block(c).remaining(c) < v.remaining(c),
        v.close_block(c).remaining(c) >= 0,
{
    let w = v.close_block(c);
    let d = v.direction();
    let blocks = blocks_of(c, v.uploading);
    let e = v.closed_direction(c);
    let last = e.sizes.last();
    assert(d.sizes.len() == v.block_index);
    lemma_flatten_push(d.sizes, last);
    assert(e.sizes.drop_last() =~= d.sizes);
    assert(direction_ok(c, e, blocks)) by {
        assert forall|k: int| 0 <= k < e.sizes.len() implies size_ok(
            c,
            #[trigger] e.sizes[k],
            blocks[k],
        ) by {
            if k < d.sizes.len() {
                assert(e.sizes[k] == d.sizes[k]);
            }
        }
        assert forall|k: int| 0 <= k < e.sizes.len() - 1 implies !(
        #[trigger] e.sizes[k]).triggered_early_termination by {
            assert(e.sizes[k] == d.sizes[k]);
            if k == d.sizes.len() - 1 {
                assert(d.sizes.last() == d.sizes[k]);
            }
        }
    }
    assert(w.current =~= Seq::<BandwidthMeasurement>::empty());
}

/// Passing over a block that does not exist, or whose direction has
/// stopped, keeps the invariant of the move.
pub proof fn lemma_advance_ok(c: &TestConfig, v: EngineView)
    requires
        moving_ok(c, v),
        v.block_index < block_count(c),
        !v.runnable(c),
    ensures
        moving_ok(c, v.advance()),
        v.advance().remaining(c) < v.remaining(c),
        v.advance().remaining(c) >= 0,
{
    assert(v.advance().current =~= Seq::<BandwidthMeasurement>::empty());
}

/// Moving the state on leads to a state that satisfies the invariant of a
/// run, in the bandwidth phase or complete, and moves no direction back:
/// a direction that has stopped stays stopped, and the results of the
/// blocks already run stay as they are.
pub proof fn lemma_settle_ok(c: &TestConfig, v: EngineView)
    requires
        moving_ok(c, v),
    ensures
        view_ok(c, v.settle(c)),
        v.settle(c).phase == EnginePhase::Bandwidth || v.settle(c).phase == EnginePhase::Complete,
        v.settle(c).idle_latencies == v.idle_latencies,
        v.settle(c).probes == v.probes,
        v.settle(c).loaded_down == v.loaded_down,
        v.settle(c).loaded_up == v.loaded_up,
        v.download.early_terminated ==> v.settle(c).download.early_terminated,
        v.upload.early_terminated ==> v.settle(c).upload.early_terminated,
        v.download.sizes.len() <= v.settle(c).download.sizes.len(),
        v.upload.sizes.len() <= v.settle(c).upload.sizes.len(),
        forall|k: int|
            0 <= k < v.download.sizes.len() ==> v.settle(c).download.sizes[k]
                == v.download.sizes[k],
        forall|k: int|
            0 <= k < v.upload.sizes.len() ==> v.settle(c).upload.sizes[k] == v.upload.sizes[k],
    decreases v.remaining(c),
{
    if v.block_index >= block_count(c) {
    } else if v.runnable(c) {
        if v.iteration < v.block(c).count {
        } else {
            lemma_close_block_ok(c, v);
            lemma_settle_ok(c, v.close_block(c));
            let w = v.close_block(c);
            assert forall|k: int| 0 <= k < v.download.sizes.len() implies w.download.sizes[k]
                == v.download.sizes[k] by {}
            assert forall|k: int| 0 <= k < v.upload.sizes.len() implies w.upload.sizes[k]
                == v.upload.sizes[k] by {}
        }
    } else {
        lemma_advance_ok(c, v);
        lemma_settle_ok(c, v.advance());
    }
}

/// The outcome of a latency probe keeps the invariant of a run.
pub proof fn lemma_probe_ok(c: &TestConfig, v: EngineView, sample: Option<Fixed>)
    requires
        view_ok(c, v),
    ensures
        view_ok(c, v.after_probe(c, sample)),
{
    if v.phase == EnginePhase::Latency {
        let idle = match sample {
            Some(ms) => v.idle_latencies.push(ms),
            None => v.idle_latencies,
        };
        let counted = EngineView { probes: v.probes + 1, idle_latencies: idle, ..v };
        if counted.probes >= c.latency_packets && idle.len() > 0 {
            let opened = EngineView { phase: EnginePhase::Bandwidth, ..counted };
            assert(moving_ok(c, opened));
            lemma_settle_ok(c, opened);
        }
    }
}

/// The outcome of a transfer keeps the invariant of a run.
pub proof fn lemma_transfer_ok(
    c: &TestConfig,
    v: EngineView,
    outcome: Option<BandwidthMeasurement>,
    samples: Seq<Fixed>,
)
    requires
        view_ok(c, v),
    ensures
        view_ok(c, v.after_transfer(c, outcome, samples)),
{
    if v.phase == EnginePhase::Bandwidth {
        let taken = match outcome {
            Some(m) => v.with_measurement(c, m, samples),
            None => v,
        };
        match outcome {
            Some(m) => {
                lemma_any_long_push(v.current, m, c.bandwidth_finish_duration_ms);
                lemma_offer_all_bounded(v.loaded_down, samples, m.duration_ms);
                lemma_offer_all_bounded(v.loaded_up, samples, m.duration_ms);
            },
            None => {},
        }
        let counted = EngineView { iteration: v.iteration + 1, ..taken };
        assert(counted.direction() == v.direction());
        assert(moving_ok(c, counted));
        lemma_settle_ok(c, counted);
    }
}

/// A direction that has stopped runs no further block: whenever a transfer
/// of a data block is due, its direction has not stopped.
pub proof fn lemma_stopped_direction_runs_no_block(c: &TestConfig, v: EngineView)
    requires
        view_ok(c, v),
        v.phase == EnginePhase::Bandwidth,
    ensures
        v.action(c) is Transfer,
        v.action(c)->direction == LatencyDirection::Download ==> !v.download.early_terminated,
        v.action(c)->direction == LatencyDirection::Upload ==> !v.upload.early_terminated,
{
}

/// Once a direction has stopped it stays stopped, and the results of the
/// blocks that have been run never change.
pub proof fn lemma_early_termination_is_final(
    c: &TestConfig,
    v: EngineView,
    outcome: Option<BandwidthMeasurement>,
    samples: Seq<Fixed>,
)
    requires
        view_ok(c, v),
    ensures
        v.download.early_terminated ==> v.after_transfer(c, outcome, samples).download.early_terminated
            && v.after_transfer(c, outcome, samples).download.sizes == v.download.sizes,
        v.upload.early_terminated ==> v.after_transfer(c, outcome, samples).upload.early_terminated
            && v.after_transfer(c, outcome, samples).upload.sizes == v.upload.sizes,
{
    if v.phase == EnginePhase::Bandwidth {
        let w = v.after_transfer(c, outcome, samples);
        lemma_transfer_ok(c, v, outcome, samples);
        let taken = match outcome {
            Some(m) => v.with_measurement(c, m, samples),
            None => v,
        };
        match outcome {
            Some(m) => {
                lemma_any_long_push(v.current, m, c.bandwidth_finish_duration_ms);
                lemma_offer_all_bounded(v.loaded_down, samples, m.duration_ms);
                lemma_offer_all_bounded(v.loaded_up, samples, m.duration_ms);
            },
            None => {},
        }
        let counted = EngineView { iteration: v.iteration + 1, ..taken };
        assert(counted.direction() == v.direction());
        assert(moving_ok(c, counted));
        lemma_settle_ok(c, counted);
        if v.download.early_terminated {
            lemma_stopped_sizes_stay(c, v.download, w.download, c.download_sizes@);
        }
        if v.upload.early_terminated {
            lemma_stopped_sizes_stay(c, v.upload, w.upload, c.upload_sizes@);
        }
    }
}

/// A stopped direction whose blocks are kept by a later state has the
/// same blocks in that state: nothing can follow a block that reached the
/// finish duration.
pub proof fn lemma_stopped_sizes_stay(
    c: &TestConfig,
    before: DirectionView,
    after: DirectionView,
    blocks: Seq<DataBlock>,
)
    requires
        direction_ok(c, before, blocks),
        direction_ok(c, after, blocks),
        before.early_terminated,
        before.sizes.len() <= after.sizes.len(),
        forall|k: int| 0 <= k < before.sizes.len() ==> after.sizes[k] == before.sizes[k],
    ensures
        after.sizes == before.sizes,
{
    let n = before.sizes.len() as int;
    assert(before.sizes.last() == before.sizes[n - 1]);
    if after.sizes.len() > n {
        assert(after.sizes[n - 1].triggered_early_termination);
    }
    assert(after.sizes =~= before.sizes);
}

/// A measurement that lasted the finish duration marks its block and
/// stops its direction: after it, either its block is still open and
/// marked, or the block has been closed and the direction has stopped.
pub proof fn lemma_long_measurement_stops_direction(
    c: &TestConfig,
    v: EngineView,
    m: BandwidthMeasurement,
    samples: Seq<Fixed>,
)
    requires
        view_ok(c, v),
        v.phase == EnginePhase::Bandwidth,
        m.duration_ms.millionths >= c.bandwidth_finish_duration_ms.millionths,
    ensures
        ({
            let w = v.after_transfer(c, Some(m), samples);
            let stopped = if v.uploading {
                w.upload
            } else {
                w.download
            };
            ||| (w.phase == EnginePhase::Bandwidth && w.block_index == v.block_index && w.uploading
                == v.uploading && w.current_triggered)
            ||| (stopped.early_terminated && stopped.sizes.len() == v.block_index + 1
                && stopped.sizes.last().triggered_early_termination && stopped.sizes.last().bytes
                == v.block(c).bytes)
        }),
{
    let taken = v.with_measurement(c, m, samples);
    lemma_any_long_push(v.current, m, c.bandwidth_finish_duration_ms);
    lemma_offer_all_bounded(v.loaded_down, samples, m.duration_ms);
    lemma_offer_all_bounded(v.loaded_up, samples, m.duration_ms);
    let counted = EngineView { iteration: v.iteration + 1, ..taken };
    assert(counted.direction() == v.direction());
    assert(moving_ok(c, counted));
    if counted.iteration < counted.block(c).count {
    } else {
        let closed = counted.close_block(c);
        lemma_close_block_ok(c, counted);
        lemma_settle_ok(c, closed);
        let w = closed.settle(c);
        let d0 = if v.uploading {
            closed.upload
        } else {
            closed.download
        };
        let d1 = if v.uploading {
            w.upload
        } else {
            w.download
        };
        assert(d0.early_terminated);
        assert(d0.sizes.len() == v.block_index + 1);
        lemma_stopped_sizes_stay(c, d0, d1, blocks_of(c, v.uploading));
    }
}

/// The phase that is shown for a state: the warm-up counts as
/// initializing, and in the bandwidth phase the direction that is due
/// shows.
pub open spec fn shown_phase(v: EngineView) -> TestPhase {
    match v.phase {
        EnginePhase::WarmupLatency | EnginePhase::WarmupDownload => TestPhase::Initializing,
        EnginePhase::Latency | EnginePhase::Failed => TestPhase::Latency,
        EnginePhase::Bandwidth => if v.uploading {
            TestPhase::Upload
        } else {
            TestPhase::Download
        },
        EnginePhase::Complete => TestPhase::Complete,
    }
}

/// A direction will run no further block: the bandwidth phase has been
/// reached and the direction has stopped or run all its blocks.
pub open spec fn direction_done(v: EngineView, d: DirectionView, blocks: Seq<DataBlock>) -> bool {
    &&& v.phase == EnginePhase::Bandwidth || v.phase == EnginePhase::Complete
    &&& d.early_terminated || d.sizes.len() == blocks.len()
}

/// The event, if any, that announces what was taken in.
pub open spec fn optional_event(event: Option<ProgressEvent>) -> Seq<ProgressEvent> {
    match event {
        Some(e) => seq![e],
        None => Seq::empty(),
    }
}

/// The event for a phase that has come to its end, if it has.
pub open spec fn completion_event(done: bool, phase: TestPhase) -> Seq<ProgressEvent> {
    if done {
        seq![ProgressEvent::PhaseComplete(phase)]
    } else {
        Seq::empty()
    }
}

/// The progress events of a step from state `before` to state `after`:
/// the measurement that was accepted, if any; the completion of the
/// latency phase and of each direction, where the step brought it about;
/// and the change of the phase shown, if it changed.
pub open spec fn events_of(
    c: &TestConfig,
    before: EngineView,
    after: EngineView,
    accepted: Option<ProgressEvent>,
) -> Seq<ProgressEvent> {
    optional_event(accepted) + completion_event(
        before.phase == EnginePhase::Latency && after.phase != EnginePhase::Latency && after.phase
            != EnginePhase::Failed,
        TestPhase::Latency,
    ) + completion_event(
        !direction_done(before, before.download, c.download_sizes@) && direction_done(
            after,
            after.download,
            c.download_sizes@,
        ),
        TestPhase::Download,
    ) + completion_event(
        !direction_done(before, before.upload, c.upload_sizes@) && direction_done(
            after,
            after.upload,
            c.upload_sizes@,
        ),
        TestPhase::Upload,
    ) + (if shown_phase(after) != shown_phase(before) {
        seq![ProgressEvent::PhaseChange(shown_phase(after))]
    } else {
        Seq::empty()
    })
}

/// The event that announces the latency sample of a probe, if the probe
/// was an idle latency probe and gave one.
pub open spec fn probe_event(c: &TestConfig, v: EngineView, sample: Option<Fixed>) -> Option<
    ProgressEvent,
> {
    match sample {
        Some(ms) => if v.phase == EnginePhase::Latency {
            Some(
                ProgressEvent::LatencyMeasurement {
                    value_ms: ms,
                    current: (v.probes + 1) as usize,
                    total: c.latency_packets,
                },
            )
        } else {
            None
        },
        None => None,
    }
}

/// The event that announces the measurement of a transfer, if the
/// transfer was that of a data block and succeeded.
pub open spec fn transfer_event(
    c: &TestConfig,
    v: EngineView,
    outcome: Option<BandwidthMeasurement>,
) -> Option<ProgressEvent> {
    match outcome {
        Some(m) => if v.phase == EnginePhase::Bandwidth {
            Some(
                ProgressEvent::BandwidthMeasurement {
                    direction: if v.uploading {
                        BandwidthDirection::Upload
                    } else {
                        BandwidthDirection::Download
                    },
                    speed_mbps: Fixed { millionths: (m.bandwidth_bps.millionths / SCALE) as i64 },
                    bytes: m.bytes,
                    current: (v.iteration + 1) as usize,
                    total: v.block(c).count,
                },
            )
        } else {
            None
        },
        None => None,
    }
}

/// The results of one data block, as values.
pub open spec fn size_view(s: SizeMeasurement) -> SizeView {
    SizeView {
        bytes: s.bytes,
        speed_mbps: s.speed_mbps,
        count: s.count as nat,
        measurements: s.measurements@,
        triggered_early_termination: s.triggered_early_termination,
    }
}

/// The results of data blocks, as values.
pub open spec fn size_views(sizes: Seq<SizeMeasurement>) -> Seq<SizeView> {
    sizes.map_values(|s: SizeMeasurement| size_view(s))
}

/// The results of one direction, as values.
pub struct BandwidthView {
    pub speed_mbps: Fixed,
    pub measurements: Seq<SizeView>,
    pub early_terminated: bool,
}

/// The results of a run, as values.
pub struct OutputView {
    pub latency: LatencyResults,
    pub download: BandwidthView,
    pub upload: BandwidthView,
}

/// The results of one direction, as values.
pub open spec fn bandwidth_view(r: BandwidthResults) -> BandwidthView {
    BandwidthView {
        speed_mbps: r.speed_mbps,
        measurements: size_views(r.measurements@),
        early_terminated: r.early_terminated,
    }
}

/// The results of a run, as values.
pub open spec fn output_view(o: SpeedTestOutput) -> OutputView {
    OutputView {
        latency: o.latency,
        download: bandwidth_view(o.download),
        upload: bandwidth_view(o.upload),
    }
}

/// The median of samples that are known to exist.
pub open spec fn median_or_zero(s: Seq<Fixed>) -> Fixed {
    match median_of(s) {
        Some(m) => m,
        None => Fixed { millionths: 0 },
    }
}

/// The results that a complete run gives: the median and jitter of the
/// idle latencies and of the loaded latencies of each direction, and for
/// each direction the speed over all its measurements, the results of its
/// blocks and whether it stopped early.
pub open spec fn output_of(c: &TestConfig, v: EngineView) -> OutputView {
    OutputView {
        latency: LatencyResults {
            idle_ms: median_or_zero(v.idle_latencies),
            idle_jitter_ms: jitter_of(v.idle_latencies),
            loaded_down_ms: median_of(v.loaded_down),
            loaded_down_jitter_ms: jitter_of(v.loaded_down),
            loaded_up_ms: median_of(v.loaded_up),
            loaded_up_jitter_ms: jitter_of(v.loaded_up),
        },
        download: BandwidthView {
            speed_mbps: speed_of(c, v.download.measurements),
            measurements: v.download.sizes,
            early_terminated: v.download.early_terminated,
        },
        upload: BandwidthView {
            speed_mbps: speed_of(c, v.upload.measurements),
            measurements: v.upload.sizes,
            early_terminated: v.upload.early_terminated,
        },
    }
}

/// The message of a run in which every latency probe failed.
pub open spec fn failure_text(c: &TestConfig) -> Seq<char> {
    "All "@ + decimal_digits(c.latency_packets as nat) + " latency measurements failed"@
}

/// The latency sample of the outcome of a probe.
pub open spec fn sample_of(outcome: Option<TestResults>) -> Option<Fixed> {
    match outcome {
        Some(t) => Some(t.latency()),
        None => None,
    }
}

/// The measurement of the outcome of a transfer.
pub open spec fn measurement_of(outcome: Option<TestResults>) -> Option<BandwidthMeasurement> {
    match outcome {
        Some(t) => Some(t.measurement()),
        None => None,
    }
}

} // verus!
