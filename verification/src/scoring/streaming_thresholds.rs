//! Thresholds for streaming quality, in millionths of Mbps and of
//! milliseconds.

use vstd::prelude::*;

verus! {

/// Minimum download speed for Great quality: 25 Mbps.
pub const DOWNLOAD_GREAT: i64 = 25_000_000;

/// Minimum download speed for Good quality: 10 Mbps.
pub const DOWNLOAD_GOOD: i64 = 10_000_000;

/// Minimum download speed for Average quality: 5 Mbps.
pub const DOWNLOAD_AVERAGE: i64 = 5_000_000;

/// Maximum latency for Great quality: 100 ms.
pub const LATENCY_GREAT: i64 = 100_000_000;

/// Maximum latency for Good quality: 200 ms.
pub const LATENCY_GOOD: i64 = 200_000_000;

/// Maximum latency for Average quality: 400 ms.
pub const LATENCY_AVERAGE: i64 = 400_000_000;

} // verus!
