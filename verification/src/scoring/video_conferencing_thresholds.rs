//! Thresholds for video conferencing quality, in millionths of Mbps, of
//! milliseconds and of a ratio.

use vstd::prelude::*;

verus! {

/// Minimum download speed for Great quality: 10 Mbps.
pub const DOWNLOAD_GREAT: i64 = 10_000_000;

/// Minimum download speed for Good quality: 5 Mbps.
pub const DOWNLOAD_GOOD: i64 = 5_000_000;

/// Minimum download speed for Average quality: 2 Mbps.
pub const DOWNLOAD_AVERAGE: i64 = 2_000_000;

/// Minimum upload speed for Great quality: 10 Mbps.
pub const UPLOAD_GREAT: i64 = 10_000_000;

/// Minimum upload speed for Good quality: 5 Mbps.
pub const UPLOAD_GOOD: i64 = 5_000_000;

/// Minimum upload speed for Average quality: 2 Mbps.
pub const UPLOAD_AVERAGE: i64 = 2_000_000;

/// Maximum latency for Great quality: 50 ms.
pub const LATENCY_GREAT: i64 = 50_000_000;

/// Maximum latency for Good quality: 100 ms.
pub const LATENCY_GOOD: i64 = 100_000_000;

/// Maximum latency for Average quality: 200 ms.
pub const LATENCY_AVERAGE: i64 = 200_000_000;

/// Maximum jitter for Great quality: 15 ms.
pub const JITTER_GREAT: i64 = 15_000_000;

/// Maximum jitter for Good quality: 30 ms.
pub const JITTER_GOOD: i64 = 30_000_000;

/// Maximum jitter for Average quality: 50 ms.
pub const JITTER_AVERAGE: i64 = 50_000_000;

/// Maximum packet loss ratio for Great quality: 1%.
pub const PACKET_LOSS_GREAT: i64 = 10_000;

/// Maximum packet loss ratio for Good quality: 3%.
pub const PACKET_LOSS_GOOD: i64 = 30_000;

/// Maximum packet loss ratio for Average quality: 5%.
pub const PACKET_LOSS_AVERAGE: i64 = 50_000;

} // verus!
