//! The test engine: the order of a speed test as a state machine.
//!
//! What the engine does is laid down in [`model`], on values; this file
//! holds the types of a run and the engine that keeps to the model.
//!
//! The engine performs no network operation itself. It names the next
//! operation ([`TestEngine::next_action`]), the caller performs it and
//! reports the outcome ([`TestEngine::record_probe`],
//! [`TestEngine::record_transfer`]), and at the end the engine assembles
//! the results ([`TestEngine::finish`]).
//!
//! A run goes through a discarded latency probe and a discarded download,
//! the idle latency probes, and then the data blocks: for each index the
//! download block of that index and then the upload block, each iteration
//! in turn. A direction in which one measurement took as long as the finish
//! duration completes its block and runs no further block.

pub mod model;

use crate::engine::model::{
    block_count, completion_event, direction_done, events_of, failure_text, lemma_advance_ok,
    lemma_any_long_push, lemma_close_block_ok, lemma_offer_all_bounded, lemma_probe_ok,
    lemma_settle_ok, lemma_transfer_ok, loaded_capacity, loaded_floor, measurement_of,
    moving_ok, offer_all, optional_event, output_of, output_view, probe_event, sample_of,
    shown_phase, size_view, size_views, speed_of, transfer_event, view_ok, DirectionView,
    EngineView, SizeView,
};
use crate::fixed::{Fixed, SCALE};
use crate::harness::TestResults;
use crate::measurements::{
    aggregate_bandwidth, calculate_speed_mbps, jitter_f64, latency_f64, BandwidthMeasurement,
    LatencyDirection, LoadedLatencyCollector,
};
use crate::retry::RetryConfig;
use crate::stats::median_f64;
use crate::text::push_decimal;
use crate::tui::progress::{BandwidthDirection, ProgressEvent, TestPhase};
use vstd::prelude::*;

verus! {

/// A data block of a bandwidth test: a payload size and the number of
/// measurements to make with it.
#[derive(Clone, Copy, Debug, PartialEq, Eq, Structural)]
pub struct DataBlock {
    /// Size of the data block in bytes.
    pub bytes: u64,
    /// Number of measurements to perform at this size.
    pub count: usize,
}

impl DataBlock {
    /// A data block.
    pub fn new(bytes: u64, count: usize) -> (r: Self)
        ensures
            r.bytes == bytes,
            r.count == count,
    {
        DataBlock { bytes, count }
    }
}

/// Configuration of the test engine.
#[derive(Clone, Debug)]
pub struct TestConfig {
    /// Data blocks for download tests, smallest first.
    pub download_sizes: Vec<DataBlock>,
    /// Data blocks for upload tests, smallest first.
    pub upload_sizes: Vec<DataBlock>,
    /// Number of probes for idle latency.
    pub latency_packets: usize,
    /// Minimum interval between loaded latency samples in ms.
    pub loaded_latency_throttle_ms: u64,
    /// Duration in ms from which a measurement stops the progression to
    /// larger blocks.
    pub bandwidth_finish_duration_ms: Fixed,
    /// Minimum duration in ms for a measurement to count in bandwidth
    /// aggregation.
    pub bandwidth_min_duration_ms: Fixed,
    /// Minimum duration in ms that a request must have run before loaded
    /// latency is sampled.
    pub loaded_request_min_duration_ms: Fixed,
    /// Percentile of the bandwidths that gives a speed.
    pub bandwidth_percentile: Fixed,
    /// Retry configuration for failed measurements.
    pub retry_config: RetryConfig,
}

impl Default for TestConfig {
    /// Downloads of 100 kB (10), 1 MB (8), 10 MB (6), 25 MB (4) and 100 MB
    /// (3); uploads of 100 kB (8), 1 MB (6), 10 MB (4), 25 MB (4) and 50 MB
    /// (3); 20 latency probes; a sample every 400 ms; finish duration 1000
    /// ms; minimum duration 10 ms; loaded latency from 250 ms; the 90th
    /// percentile; three retries.
    fn default() -> (r: Self)
        ensures
            r.download_sizes@ == seq![
                DataBlock { bytes: 100_000, count: 10 },
                DataBlock { bytes: 1_000_000, count: 8 },
                DataBlock { bytes: 10_000_000, count: 6 },
                DataBlock { bytes: 25_000_000, count: 4 },
                DataBlock { bytes: 100_000_000, count: 3 },
            ],
            r.upload_sizes@ == seq![
                DataBlock { bytes: 100_000, count: 8 },
                DataBlock { bytes: 1_000_000, count: 6 },
                DataBlock { bytes: 10_000_000, count: 4 },
                DataBlock { bytes: 25_000_000, count: 4 },
                DataBlock { bytes: 50_000_000, count: 3 },
            ],
            r.latency_packets == 20,
            r.loaded_latency_throttle_ms == 400,
            r.bandwidth_finish_duration_ms.millionths == 1000 * SCALE,
            r.bandwidth_min_duration_ms.millionths == 10 * SCALE,
            r.loaded_request_min_duration_ms.millionths == 250 * SCALE,
            r.bandwidth_percentile.millionths == 900_000,
            r.retry_config.max_retries == 3,
            r.retry_config.base_delay_ms == 100,
            r.retry_config.max_delay_ms == 5000,
    {
        let download_sizes = vec![
            DataBlock::new(100_000, 10),
            DataBlock::new(1_000_000, 8),
            DataBlock::new(10_000_000, 6),
            DataBlock::new(25_000_000, 4),
            DataBlock::new(100_000_000, 3),
        ];
        let upload_sizes = vec![
            DataBlock::new(100_000, 8),
            DataBlock::new(1_000_000, 6),
            DataBlock::new(10_000_000, 4),
            DataBlock::new(25_000_000, 4),
            DataBlock::new(50_000_000, 3),
        ];
        assert(download_sizes@ =~= seq![
            DataBlock { bytes: 100_000, count: 10 },
            DataBlock { bytes: 1_000_000, count: 8 },
            DataBlock { bytes: 10_000_000, count: 6 },
            DataBlock { bytes: 25_000_000, count: 4 },
            DataBlock { bytes: 100_000_000, count: 3 },
        ]);
        assert(upload_sizes@ =~= seq![
            DataBlock { bytes: 100_000, count: 8 },
            DataBlock { bytes: 1_000_000, count: 6 },
            DataBlock { bytes: 10_000_000, count: 4 },
            DataBlock { bytes: 25_000_000, count: 4 },
            DataBlock { bytes: 50_000_000, count: 3 },
        ]);
        TestConfig {
            download_sizes,
            upload_sizes,
            latency_packets: 20,
            loaded_latency_throttle_ms: 400,
            bandwidth_finish_duration_ms: Fixed { millionths: 1_000_000_000 },
            bandwidth_min_duration_ms: Fixed { millionths: 10_000_000 },
            loaded_request_min_duration_ms: Fixed { millionths: 250_000_000 },
            bandwidth_percentile: Fixed { millionths: 900_000 },
            retry_config: RetryConfig::default(),
        }
    }
}

/// Results of the measurements made with one data block.
#[derive(Clone, Debug)]
pub struct SizeMeasurement {
    /// Size of the data block in bytes.
    pub bytes: u64,
    /// Speed in Mbps for this size.
    pub speed_mbps: Fixed,
    /// Number of measurements that succeeded.
    pub count: usize,
    /// The measurements.
    pub measurements: Vec<BandwidthMeasurement>,
    /// Whether a measurement reached the finish duration.
    pub triggered_early_termination: bool,
}

/// Results of the latency measurements.
#[derive(Clone, Copy, Debug, PartialEq, Eq)]
pub struct LatencyResults {
    /// Idle latency (median) in milliseconds.
    pub idle_ms: Fixed,
    /// Idle jitter in milliseconds.
    pub idle_jitter_ms: Option<Fixed>,
    /// Loaded latency during downloads (median) in milliseconds.
    pub loaded_down_ms: Option<Fixed>,
    /// Loaded jitter during downloads in milliseconds.
    pub loaded_down_jitter_ms: Option<Fixed>,
    /// Loaded latency during uploads (median) in milliseconds.
    pub loaded_up_ms: Option<Fixed>,
    /// Loaded jitter during uploads in milliseconds.
    pub loaded_up_jitter_ms: Option<Fixed>,
}

/// Results of the bandwidth measurements of one direction.
#[derive(Clone, Debug)]
pub struct BandwidthResults {
    /// Speed in Mbps over all measurements of the direction.
    pub speed_mbps: Fixed,
    /// Results per data block, in the order the blocks were run.
    pub measurements: Vec<SizeMeasurement>,
    /// Whether the direction stopped before its last block.
    pub early_terminated: bool,
}

/// Complete results of a speed test run.
#[derive(Clone, Debug)]
pub struct SpeedTestOutput {
    /// Latency results.
    pub latency: LatencyResults,
    /// Download results.
    pub download: BandwidthResults,
    /// Upload results.
    pub upload: BandwidthResults,
}

/// Where a run stands.
#[derive(Clone, Copy, Debug, PartialEq, Eq, Structural)]
pub enum EnginePhase {
    /// The discarded latency probe is due.
    WarmupLatency,
    /// The discarded download is due.
    WarmupDownload,
    /// Idle latency probes are due.
    Latency,
    /// Transfers of data blocks are due.
    Bandwidth,
    /// Every operation has been made.
    Complete,
    /// Every idle latency probe failed.
    Failed,
}

/// What the caller is to do next.
#[derive(Clone, Copy, Debug, PartialEq, Eq, Structural)]
pub enum EngineAction {
    /// Time a download of `bytes` bytes and report it with `record_probe`.
    ProbeLatency {
        /// Payload size in bytes.
        bytes: u64,
        /// Number of this probe, from 1.
        current: usize,
        /// Number of probes of the phase.
        total: usize,
    },
    /// Time a transfer of `bytes` bytes and report it with
    /// `record_transfer`.
    Transfer {
        /// Direction of the transfer.
        direction: LatencyDirection,
        /// Payload size in bytes.
        bytes: u64,
        /// Number of this iteration within its block, from 1.
        current: usize,
        /// Number of iterations of the block.
        total: usize,
        /// Whether latency is to be sampled while the transfer runs.
        sample_latency: bool,
    },
    /// The run is over: call `finish`.
    Finish,
}

/// Payload of a latency probe in bytes.
pub const PROBE_BYTES: u64 = 1000;

/// Payload of the discarded download in bytes.
pub const WARMUP_BYTES: u64 = 100_000;

/// Appends a copy of `more` to `target`.
fn append_copy(target: &mut Vec<BandwidthMeasurement>, more: &Vec<BandwidthMeasurement>)
    ensures
        final(target)@ == old(target)@ + more@,
{
    let mut i: usize = 0;
    assert(more@.take(0) =~= Seq::<BandwidthMeasurement>::empty());
    assert(target@ =~= old(target)@ + more@.take(0));
    while i < more.len()
        invariant
            i <= more.len(),
            target@ == old(target)@ + more@.take(i as int),
        decreases more.len() - i,
    {
        target.push(more[i]);
        assert(target@ =~= old(target)@ + more@.take(i + 1));
        i += 1;
    }
    assert(more@.take(more.len() as int) =~= more@);
}

/// The test engine: the state of one run.
#[derive(Debug)]
pub struct TestEngine {
    config: TestConfig,
    phase: EnginePhase,
    probes: usize,
    idle_latencies: Vec<Fixed>,
    block_index: usize,
    uploading: bool,
    iteration: usize,
    current: Vec<BandwidthMeasurement>,
    current_triggered: bool,
    download_measurements: Vec<BandwidthMeasurement>,
    download_results: Vec<SizeMeasurement>,
    download_early_terminated: bool,
    upload_measurements: Vec<BandwidthMeasurement>,
    upload_results: Vec<SizeMeasurement>,
    upload_early_terminated: bool,
    collector: LoadedLatencyCollector,
}

impl View for TestEngine {
    type V = EngineView;

    closed spec fn view(&self) -> EngineView {
        EngineView {
            phase: self.phase,
            probes: self.probes as nat,
            idle_latencies: self.idle_latencies@,
            block_index: self.block_index as nat,
            uploading: self.uploading,
            iteration: self.iteration as nat,
            current: self.current@,
            current_triggered: self.current_triggered,
            download: DirectionView {
                measurements: self.download_measurements@,
                sizes: size_views(self.download_results@),
                early_terminated: self.download_early_terminated,
            },
            upload: DirectionView {
                measurements: self.upload_measurements@,
                sizes: size_views(self.upload_results@),
                early_terminated: self.upload_early_terminated,
            },
            loaded_down: self.collector.queue(LatencyDirection::Download),
            loaded_up: self.collector.queue(LatencyDirection::Upload),
        }
    }
}

impl TestEngine {
    /// The configuration of the run.
    pub closed spec fn settings(&self) -> &TestConfig {
        &self.config
    }

    /// What holds of the engine apart from the invariant of its state.
    spec fn collector_ok(&self) -> bool {
        &&& self.collector.wf()
        &&& self.collector.limit() == loaded_capacity()
        &&& self.collector.floor().millionths == loaded_floor()
    }

    /// The invariant of a run holds of the engine.
    pub closed spec fn wf(&self) -> bool {
        &&& view_ok(&self.config, self@)
        &&& self.collector_ok()
    }

    /// The invariant of a run that is being moved on holds of the engine.
    spec fn moving(&self) -> bool {
        &&& moving_ok(&self.config, self@)
        &&& self.collector_ok()
    }

    /// The invariant of a run holds of the state of a well-formed engine.
    pub proof fn lemma_wf(&self)
        requires
            self.wf(),
        ensures
            view_ok(self.settings(), self@),
    {
    }

    /// An engine for a run with the given configuration, with nothing done
    /// yet.
    pub fn new(config: TestConfig) -> (r: Self)
        ensures
            r.wf(),
            r@ == EngineView::initial(),
            *r.settings() == config,
    {
        let r = TestEngine {
            config,
            phase: EnginePhase::WarmupLatency,
            probes: 0,
            idle_latencies: Vec::new(),
            block_index: 0,
            uploading: false,
            iteration: 0,
            current: Vec::new(),
            current_triggered: false,
            download_measurements: Vec::new(),
            download_results: Vec::new(),
            download_early_terminated: false,
            upload_measurements: Vec::new(),
            upload_results: Vec::new(),
            upload_early_terminated: false,
            collector: LoadedLatencyCollector::new(),
        };
        proof {
            assert(size_views(r.download_results@) =~= Seq::<SizeView>::empty());
            assert(size_views(r.upload_results@) =~= Seq::<SizeView>::empty());
            assert(r@ =~= EngineView::initial());
        }
        r
    }

    /// The phase of the run.
    pub fn phase(&self) -> (r: EnginePhase)
        ensures
            r == self@.phase,
    {
        self.phase
    }

    /// The configuration of the run.
    pub fn config(&self) -> (r: &TestConfig)
        ensures
            r == self.settings(),
    {
        &self.config
    }

    /// What the caller is to do next.
    pub fn next_action(&self) -> (r: EngineAction)
        requires
            self.wf(),
        ensures
            r == self@.action(self.settings()),
    {
        match self.phase {
            EnginePhase::WarmupLatency => EngineAction::ProbeLatency {
                bytes: PROBE_BYTES,
                current: 1,
                total: 1,
            },
            EnginePhase::WarmupDownload => EngineAction::Transfer {
                direction: LatencyDirection::Download,
                bytes: WARMUP_BYTES,
                current: 1,
                total: 1,
                sample_latency: false,
            },
            EnginePhase::Latency => EngineAction::ProbeLatency {
                bytes: PROBE_BYTES,
                current: self.probes + 1,
                total: self.config.latency_packets,
            },
            EnginePhase::Bandwidth => {
                if self.uploading {
                    let block = self.config.upload_sizes[self.block_index];
                    EngineAction::Transfer {
                        direction: LatencyDirection::Upload,
                        bytes: block.bytes,
                        current: self.iteration + 1,
                        total: block.count,
                        sample_latency: true,
                    }
                } else {
                    let block = self.config.download_sizes[self.block_index];
                    EngineAction::Transfer {
                        direction: LatencyDirection::Download,
                        bytes: block.bytes,
                        current: self.iteration + 1,
                        total: block.count,
                        sample_latency: true,
                    }
                }
            },
            _ => EngineAction::Finish,
        }
    }

    /// The speed in Mbps that the measurements of a block give: the
    /// configured percentile of the bandwidths of those that lasted the
    /// minimum duration, zero where there is none.
    pub fn calculate_block_speed(&self, measurements: &Vec<BandwidthMeasurement>) -> (r: Fixed)
        ensures
            r == speed_of(self.settings(), measurements@),
    {
        match aggregate_bandwidth(
            measurements,
            self.config.bandwidth_percentile,
            self.config.bandwidth_min_duration_ms,
        ) {
            Some(bps) => calculate_speed_mbps(bps),
            None => Fixed::zero(),
        }
    }

    /// Makes the next direction or index due.
    fn advance(&mut self)
        requires
            old(self).block_index < usize::MAX,
            old(self).current@.len() == 0,
        ensures
            final(self)@ == old(self)@.advance(),
            final(self).config == old(self).config,
            final(self).collector == old(self).collector,
    {
        if self.uploading {
            self.block_index = self.block_index + 1;
            self.uploading = false;
        } else {
            self.uploading = true;
        }
        self.iteration = 0;
        self.current_triggered = false;
        assert(self@.current =~= Seq::<BandwidthMeasurement>::empty());
        assert(self@ =~= old(self)@.advance());
    }

    /// Closes the current block, whose iterations are all done.
    fn close_block(&mut self)
        requires
            old(self).moving(),
            old(self)@.block_index < block_count(&old(self).config),
            old(self)@.runnable(&old(self).config),
        ensures
            final(self)@ == old(self)@.close_block(&old(self).config),
            final(self).config == old(self).config,
            final(self).collector == old(self).collector,
    {
        let bytes = if self.uploading {
            self.config.upload_sizes[self.block_index].bytes
        } else {
            self.config.download_sizes[self.block_index].bytes
        };
        let speed_mbps = self.calculate_block_speed(&self.current);
        let measurements = self.current.clone();
        let size = SizeMeasurement {
            bytes,
            speed_mbps,
            count: self.current.len(),
            measurements,
            triggered_early_termination: self.current_triggered,
        };
        let ghost closed = old(self)@.closed_direction(&old(self).config);
        assert(size_view(size) == closed.sizes.last());
        if self.uploading {
            let ghost before = self.upload_results@;
            self.upload_results.push(size);
            assert(size_views(self.upload_results@) =~= size_views(before).push(size_view(size)));
            append_copy(&mut self.upload_measurements, &self.current);
            if self.current_triggered {
                self.upload_early_terminated = true;
            }
        } else {
            let ghost before = self.download_results@;
            self.download_results.push(size);
            assert(size_views(self.download_results@) =~= size_views(before).push(
                size_view(size),
            ));
            append_copy(&mut self.download_measurements, &self.current);
            if self.current_triggered {
                self.download_early_terminated = true;
            }
        }
        self.current.clear();
        assert(self.block_index < usize::MAX) by {
            assert(self.config.download_sizes@.len() == self.config.download_sizes.len());
            assert(self.config.upload_sizes@.len() == self.config.upload_sizes.len());
        }
        self.advance();
    }

    /// Moves the run on to the next transfer that is due.
    fn settle(&mut self)
        requires
            old(self).moving(),
        ensures
            final(self).wf(),
            final(self)@ == old(self)@.settle(&old(self).config),
            final(self).config == old(self).config,
    {
        proof {
            lemma_settle_ok(&self.config, self@);
        }
        loop
            invariant
                self.moving(),
                self.config == old(self).config,
                self@.settle(&self.config) == old(self)@.settle(&self.config),
                view_ok(&self.config, old(self)@.settle(&self.config)),
            decreases self@.remaining(&self.config),
        {
            let blocks = if self.config.download_sizes.len() >= self.config.upload_sizes.len() {
                self.config.download_sizes.len()
            } else {
                self.config.upload_sizes.len()
            };
            if self.block_index >= blocks {
                self.phase = EnginePhase::Complete;
                return ;
            }
            let runnable = if self.uploading {
                self.block_index < self.config.upload_sizes.len() && !self.upload_early_terminated
            } else {
                self.block_index < self.config.download_sizes.len()
                    && !self.download_early_terminated
            };
            if runnable {
                let count = if self.uploading {
                    self.config.upload_sizes[self.block_index].count
                } else {
                    self.config.download_sizes[self.block_index].count
                };
                if self.iteration < count {
                    return ;
                }
                proof {
                    lemma_close_block_ok(&self.config, self@);
                }
                self.close_block();
            } else {
                proof {
                    lemma_advance_ok(&self.config, self@);
                }
                self.advance();
            }
        }
    }

    /// The phase that is shown.
    fn shown(&self) -> (r: TestPhase)
        ensures
            r == shown_phase(self@),
    {
        match self.phase {
            EnginePhase::WarmupLatency | EnginePhase::WarmupDownload => TestPhase::Initializing,
            EnginePhase::Latency | EnginePhase::Failed => TestPhase::Latency,
            EnginePhase::Bandwidth => if self.uploading {
                TestPhase::Upload
            } else {
                TestPhase::Download
            },
            EnginePhase::Complete => TestPhase::Complete,
        }
    }

    /// Whether a direction will run no further block.
    fn done(&self, uploading: bool) -> (r: bool)
        ensures
            r == (if uploading {
                direction_done(self@, self@.upload, self.config.upload_sizes@)
            } else {
                direction_done(self@, self@.download, self.config.download_sizes@)
            }),
    {
        let reached = match self.phase {
            EnginePhase::Bandwidth | EnginePhase::Complete => true,
            _ => false,
        };
        if uploading {
            assert(size_views(self.upload_results@).len() == self.upload_results@.len());
            reached && (self.upload_early_terminated || self.upload_results.len()
                == self.config.upload_sizes.len())
        } else {
            assert(size_views(self.download_results@).len() == self.download_results@.len());
            reached && (self.download_early_terminated || self.download_results.len()
                == self.config.download_sizes.len())
        }
    }

    /// The progress events of a step that started in the state described
    /// by the first four arguments and led to this state.
    fn events_since(
        &self,
        Ghost(before): Ghost<EngineView>,
        was_latency: bool,
        download_was_done: bool,
        upload_was_done: bool,
        was_shown: TestPhase,
        accepted: Option<ProgressEvent>,
    ) -> (r: Vec<ProgressEvent>)
        requires
            was_latency == (before.phase == EnginePhase::Latency),
            download_was_done == direction_done(before, before.download, self.config.download_sizes@),
            upload_was_done == direction_done(before, before.upload, self.config.upload_sizes@),
            was_shown == shown_phase(before),
        ensures
            r@ == events_of(&self.config, before, self@, accepted),
    {
        let mut events: Vec<ProgressEvent> = Vec::new();
        match accepted {
            Some(e) => {
                events.push(e);
            },
            None => {},
        }
        assert(events@ =~= optional_event(accepted));
        let latency_over = match self.phase {
            EnginePhase::Latency | EnginePhase::Failed => false,
            _ => was_latency,
        };
        if latency_over {
            events.push(ProgressEvent::PhaseComplete(TestPhase::Latency));
        }
        let ghost e1 = events@;
        assert(e1 =~= optional_event(accepted) + completion_event(
            latency_over,
            TestPhase::Latency,
        ));
        let download_over = !download_was_done && self.done(false);
        if download_over {
            events.push(ProgressEvent::PhaseComplete(TestPhase::Download));
        }
        let ghost e2 = events@;
        assert(e2 =~= e1 + completion_event(download_over, TestPhase::Download));
        let upload_over = !upload_was_done && self.done(true);
        if upload_over {
            events.push(ProgressEvent::PhaseComplete(TestPhase::Upload));
        }
        let ghost e3 = events@;
        assert(e3 =~= e2 + completion_event(upload_over, TestPhase::Upload));
        let now_shown = self.shown();
        if now_shown != was_shown {
            events.push(ProgressEvent::PhaseChange(now_shown));
        }
        assert(events@ =~= events_of(&self.config, before, self@, accepted));
        events
    }

    /// Takes the outcome of the latency probe that was due: the timings of
    /// a success, `None` for a failure. The time to open the TCP connection
    /// is the latency sample. Does nothing if no probe was due. Returns the
    /// progress events of the step, in the order in which they are to be
    /// announced.
    pub fn record_probe(&mut self, outcome: Option<TestResults>) -> (events: Vec<ProgressEvent>)
        requires
            old(self).wf(),
        ensures
            final(self).wf(),
            final(self).settings() == old(self).settings(),
            final(self)@ == old(self)@.after_probe(old(self).settings(), sample_of(outcome)),
            events@ == events_of(
                old(self).settings(),
                old(self)@,
                final(self)@,
                probe_event(old(self).settings(), old(self)@, sample_of(outcome)),
            ),
    {
        proof {
            lemma_probe_ok(&self.config, self@, sample_of(outcome));
        }
        let was_latency = match self.phase {
            EnginePhase::Latency => true,
            _ => false,
        };
        let download_was_done = self.done(false);
        let upload_was_done = self.done(true);
        let was_shown = self.shown();
        let accepted = match outcome {
            Some(t) => if was_latency {
                Some(
                    ProgressEvent::LatencyMeasurement {
                        value_ms: t.tcp_latency_ms(),
                        current: self.probes + 1,
                        total: self.config.latency_packets,
                    },
                )
            } else {
                None
            },
            None => None,
        };
        self.apply_probe(outcome);
        self.events_since(
            Ghost(old(self)@),
            was_latency,
            download_was_done,
            upload_was_done,
            was_shown,
            accepted,
        )
    }

    /// Takes the outcome of a latency probe into the state.
    fn apply_probe(&mut self, outcome: Option<TestResults>)
        requires
            old(self).wf(),
            view_ok(&old(self).config, old(self)@.after_probe(&old(self).config, sample_of(outcome))),
        ensures
            final(self).wf(),
            final(self).config == old(self).config,
            final(self)@ == old(self)@.after_probe(&old(self).config, sample_of(outcome)),
    {
        match self.phase {
            EnginePhase::WarmupLatency => {
                self.phase = EnginePhase::WarmupDownload;
            },
            EnginePhase::Latency => {
                match outcome {
                    Some(t) => {
                        self.idle_latencies.push(t.tcp_latency_ms());
                    },
                    None => {},
                }
                self.probes = self.probes + 1;
                if self.probes >= self.config.latency_packets {
                    if self.idle_latencies.len() == 0 {
                        self.phase = EnginePhase::Failed;
                    } else {
                        self.phase = EnginePhase::Bandwidth;
                        self.settle();
                    }
                }
            },
            _ => {},
        }
    }

    /// Offers the latency samples of one request to the collector.
    #[verifier::loop_isolation(false)]
    fn offer(&mut self, samples: &Vec<Fixed>, duration_ms: Fixed)
        requires
            old(self).collector_ok(),
        ensures
            final(self).collector_ok(),
            final(self)@ == (EngineView {
                loaded_down: if old(self).uploading {
                    old(self)@.loaded_down
                } else {
                    offer_all(old(self)@.loaded_down, samples@, duration_ms)
                },
                loaded_up: if old(self).uploading {
                    offer_all(old(self)@.loaded_up, samples@, duration_ms)
                } else {
                    old(self)@.loaded_up
                },
                ..old(self)@
            }),
            final(self).config == old(self).config,
    {
        let direction = if self.uploading {
            LatencyDirection::Upload
        } else {
            LatencyDirection::Download
        };
        let other = if self.uploading {
            LatencyDirection::Download
        } else {
            LatencyDirection::Upload
        };
        let ghost start = self.collector.queue(direction);
        let mut i: usize = 0;
        assert(samples@.take(0) =~= Seq::<Fixed>::empty());
        while i < samples.len()
            invariant
                i <= samples.len(),
                self.collector_ok(),
                self.collector.queue(direction) == offer_all(
                    start,
                    samples@.take(i as int),
                    duration_ms,
                ),
                self.collector.queue(other) == old(self).collector.queue(other),
                self.config == old(self).config,
                self.phase == old(self).phase,
                self.probes == old(self).probes,
                self.idle_latencies == old(self).idle_latencies,
                self.block_index == old(self).block_index,
                self.uploading == old(self).uploading,
                self.iteration == old(self).iteration,
                self.current == old(self).current,
                self.current_triggered == old(self).current_triggered,
                self.download_measurements == old(self).download_measurements,
                self.download_results == old(self).download_results,
                self.download_early_terminated == old(self).download_early_terminated,
                self.upload_measurements == old(self).upload_measurements,
                self.upload_results == old(self).upload_results,
                self.upload_early_terminated == old(self).upload_early_terminated,
            decreases samples.len() - i,
        {
            proof {
                assert(samples@.take(i + 1).drop_last() =~= samples@.take(i as int));
                assert(samples@.take(i + 1).last() == samples@[i as int]);
            }
            self.collector.add(direction, samples[i], duration_ms);
            i += 1;
        }
        assert(samples@.take(samples.len() as int) =~= samples@);
    }

    /// Takes the outcome of the transfer that was due: the timings of a
    /// success, `None` for a failure, and the latency samples taken while
    /// the transfer ran. The samples of a success are offered to the
    /// collector under the duration of its measurement; those of a failure
    /// are dropped. Does nothing if no transfer was due. Returns the
    /// progress events of the step, in the order in which they are to be
    /// announced.
    pub fn record_transfer(&mut self, outcome: Option<TestResults>, loaded_latencies: &Vec<Fixed>) -> (events:
        Vec<ProgressEvent>)
        requires
            old(self).wf(),
        ensures
            final(self).wf(),
            final(self).settings() == old(self).settings(),
            final(self)@ == old(self)@.after_transfer(
                old(self).settings(),
                measurement_of(outcome),
                loaded_latencies@,
            ),
            events@ == events_of(
                old(self).settings(),
                old(self)@,
                final(self)@,
                transfer_event(old(self).settings(), old(self)@, measurement_of(outcome)),
            ),
    {
        proof {
            lemma_transfer_ok(&self.config, self@, measurement_of(outcome), loaded_latencies@);
        }
        let in_block = match self.phase {
            EnginePhase::Bandwidth => true,
            _ => false,
        };
        let was_latency = match self.phase {
            EnginePhase::Latency => true,
            _ => false,
        };
        let download_was_done = self.done(false);
        let upload_was_done = self.done(true);
        let was_shown = self.shown();
        let accepted = match outcome {
            Some(t) => if in_block {
                let m = t.to_bandwidth_measurement();
                let total = if self.uploading {
                    self.config.upload_sizes[self.block_index].count
                } else {
                    self.config.download_sizes[self.block_index].count
                };
                Some(
                    ProgressEvent::BandwidthMeasurement {
                        direction: if self.uploading {
                            BandwidthDirection::Upload
                        } else {
                            BandwidthDirection::Download
                        },
                        speed_mbps: calculate_speed_mbps(m.bandwidth_bps),
                        bytes: m.bytes,
                        current: self.iteration + 1,
                        total,
                    },
                )
            } else {
                None
            },
            None => None,
        };
        self.apply_transfer(outcome, loaded_latencies);
        self.events_since(
            Ghost(old(self)@),
            was_latency,
            download_was_done,
            upload_was_done,
            was_shown,
            accepted,
        )
    }

    /// Takes the outcome of a transfer into the state.
    fn apply_transfer(&mut self, outcome: Option<TestResults>, loaded_latencies: &Vec<Fixed>)
        requires
            old(self).wf(),
            view_ok(
                &old(self).config,
                old(self)@.after_transfer(
                    &old(self).config,
                    measurement_of(outcome),
                    loaded_latencies@,
                ),
            ),
        ensures
            final(self).wf(),
            final(self).config == old(self).config,
            final(self)@ == old(self)@.after_transfer(
                &old(self).config,
                measurement_of(outcome),
                loaded_latencies@,
            ),
    {
        match self.phase {
            EnginePhase::WarmupDownload => {
                if self.config.latency_packets == 0 {
                    self.phase = EnginePhase::Failed;
                } else {
                    self.phase = EnginePhase::Latency;
                }
            },
            EnginePhase::Bandwidth => {
                match outcome {
                    Some(t) => {
                        let m = t.to_bandwidth_measurement();
                        proof {
                            lemma_any_long_push(
                                self.current@,
                                m,
                                self.config.bandwidth_finish_duration_ms,
                            );
                            lemma_offer_all_bounded(
                                self@.loaded_down,
                                loaded_latencies@,
                                m.duration_ms,
                            );
                            lemma_offer_all_bounded(
                                self@.loaded_up,
                                loaded_latencies@,
                                m.duration_ms,
                            );
                        }
                        self.current.push(m);
                        if m.duration_ms.millionths
                            >= self.config.bandwidth_finish_duration_ms.millionths {
                            self.current_triggered = true;
                        }
                        self.offer(loaded_latencies, m.duration_ms);
                        assert(self@ == old(self)@.with_measurement(
                            &self.config,
                            m,
                            loaded_latencies@,
                        ));
                    },
                    None => {},
                }
                self.iteration = self.iteration + 1;
                self.settle();
            },
            _ => {},
        }
    }

    /// The results of the run. A run in which every idle latency probe
    /// failed gives the message `All <n> latency measurements failed`; a
    /// complete run gives its results.
    pub fn finish(self) -> (r: Result<SpeedTestOutput, String>)
        requires
            self.wf(),
            self@.action(self.settings()) is Finish,
        ensures
            match r {
                Ok(out) => self@.phase == EnginePhase::Complete && output_view(out) == output_of(
                    self.settings(),
                    self@,
                ),
                Err(message) => self@.phase == EnginePhase::Failed && message@ == failure_text(
                    self.settings(),
                ),
            },
    {
        match self.phase {
            EnginePhase::Complete => {},
            _ => {
                let mut message = "All ".to_owned();
                push_decimal(&mut message, self.config.latency_packets as u64);
                message.append(" latency measurements failed");
                return Err(message);
            },
        }
        let idle_ms = latency_f64(&self.idle_latencies);
        let idle_jitter_ms = jitter_f64(&self.idle_latencies);
        let mut loaded_down = self.collector.get_latencies(LatencyDirection::Download);
        let mut loaded_up = self.collector.get_latencies(LatencyDirection::Upload);
        let loaded_down_jitter_ms = jitter_f64(&loaded_down);
        let loaded_up_jitter_ms = jitter_f64(&loaded_up);
        let loaded_down_ms = median_f64(&mut loaded_down);
        let loaded_up_ms = median_f64(&mut loaded_up);
        let download_speed = self.calculate_block_speed(&self.download_measurements);
        let upload_speed = self.calculate_block_speed(&self.upload_measurements);
        Ok(
            SpeedTestOutput {
                latency: LatencyResults {
                    idle_ms,
                    idle_jitter_ms,
                    loaded_down_ms,
                    loaded_down_jitter_ms,
                    loaded_up_ms,
                    loaded_up_jitter_ms,
                },
                download: BandwidthResults {
                    speed_mbps: download_speed,
                    measurements: self.download_results,
                    early_terminated: self.download_early_terminated,
                },
                upload: BandwidthResults {
                    speed_mbps: upload_speed,
                    measurements: self.upload_results,
                    early_terminated: self.upload_early_terminated,
                },
            },
        )
    }
}

} // verus!
