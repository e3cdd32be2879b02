//! Measurement core of a network speed test: fixed-point statistics, the
//! bounded loaded-latency collector, retry policy, error classification,
//! quality scoring and the orchestration state machine.
//!
//! Every real-valued quantity (milliseconds, bits per second, megabits per
//! second, ratios) is carried as a [`fixed::Fixed`], a signed count of
//! millionths of the unit, so that all arithmetic is exact integer arithmetic.

pub mod engine;
pub mod errors;
pub mod fixed;
pub mod harness;
pub mod headers;
pub mod measurements;
pub mod output;
pub mod packet_loss;
pub mod requests;
pub mod results;
pub mod retry;
pub mod scoring;
pub mod server_timing;
pub mod stats;
pub mod target;
pub mod text;
pub mod time;
pub mod tui;
