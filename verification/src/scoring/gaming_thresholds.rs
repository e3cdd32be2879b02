//! Thresholds for gaming quality, in millionths of milliseconds, of a
//! ratio and of Mbps.

use vstd::prelude::*;

verus! {

/// Maximum latency for Great quality: 30 ms.
pub const LATENCY_GREAT: i64 = 30_000_000;

/// Maximum latency for Good quality: 50 ms.
pub const LATENCY_GOOD: i64 = 50_000_000;

/// Maximum latency for Average quality: 100 ms.
pub const LATENCY_AVERAGE: i64 = 100_000_000;

/// Maximum jitter for Great quality: 10 ms.
pub const JITTER_GREAT: i64 = 10_000_000;

/// Maximum jitter for Good quality: 20 ms.
pub const JITTER_GOOD: i64 = 20_000_000;

/// Maximum jitter for Average quality: 30 ms.
pub const JITTER_AVERAGE: i64 = 30_000_000;

/// Maximum packet loss ratio for Great quality: 1%.
pub const PACKET_LOSS_GREAT: i64 = 10_000;

/// Maximum packet loss ratio for Good quality: 2%.
pub const PACKET_LOSS_GOOD: i64 = 20_000;

/// Maximum packet loss ratio for Average quality: 5%.
pub const PACKET_LOSS_AVERAGE: i64 = 50_000;

/// Minimum download speed for Great quality: 15 Mbps.
pub const DOWNLOAD_GREAT: i64 = 15_000_000;

/// Minimum download speed for Good quality: 5 Mbps.
pub const DOWNLOAD_GOOD: i64 = 5_000_000;

/// Minimum download speed for Average quality: 3 Mbps.
pub const DOWNLOAD_AVERAGE: i64 = 3_000_000;

} // verus!
