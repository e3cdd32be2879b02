//! Progress events of a run and the interface that receives them.

use crate::fixed::Fixed;
use vstd::prelude::*;

verus! {

/// Phases of a speed test as they are shown.
#[derive(Clone, Copy, Debug, PartialEq, Eq, Structural)]
pub enum TestPhase {
    /// The test is being set up.
    Initializing,
    /// Latency is being measured.
    Latency,
    /// Download speed is being measured.
    Download,
    /// Upload speed is being measured.
    Upload,
    /// All measurements are done.
    Complete,
}

/// Direction of a bandwidth measurement.
#[derive(Clone, Copy, Debug, PartialEq, Eq, Structural)]
pub enum BandwidthDirection {
    /// Download.
    Download,
    /// Upload.
    Upload,
}

/// Progress events emitted during a run.
#[derive(Clone, Debug, PartialEq, Eq)]
pub enum ProgressEvent {
    /// The phase has changed.
    PhaseChange(TestPhase),
    /// A latency measurement was accepted.
    LatencyMeasurement {
        /// Measured latency in milliseconds.
        value_ms: Fixed,
        /// Number of the measurement, from 1.
        current: usize,
        /// Total number of measurements.
        total: usize,
    },
    /// A bandwidth measurement was accepted.
    BandwidthMeasurement {
        /// Direction of the measurement.
        direction: BandwidthDirection,
        /// Measured speed in Mbps.
        speed_mbps: Fixed,
        /// Number of bytes transferred.
        bytes: u64,
        /// Number of the measurement within its block, from 1.
        current: usize,
        /// Total number of measurements of the block.
        total: usize,
    },
    /// A phase is complete.
    PhaseComplete(TestPhase),
    /// An error occurred.
    Error(String),
}

/// Receiver of progress events. Implementations must not block, or they
/// distort the timings.
pub trait ProgressCallback: Send + Sync {
    /// Called when a progress event occurs.
    fn on_progress(&self, event: ProgressEvent);
}

} // verus!
