//! Latency and bandwidth measurements: the bounded loaded-latency
//! collector, jitter, bandwidth arithmetic and percentile aggregation.

use crate::fixed::{saturated, Fixed, SCALE};
use crate::stats::{median_f64, median_of, percentile_f64, percentile_of};
use crate::time::duration_nanos;
use std::collections::VecDeque;
use std::time::Duration;
use vstd::prelude::*;

verus! {

/// Direction of network traffic for loaded latency measurements.
#[derive(Clone, Copy, Debug, PartialEq, Eq, Structural)]
pub enum LatencyDirection {
    /// Latency measured during download tests.
    Download,
    /// Latency measured during upload tests.
    Upload,
}

/// A single loaded latency measurement.
#[derive(Clone, Copy, Debug, PartialEq, Eq, Structural)]
pub struct LoadedLatencyMeasurement {
    /// The latency in milliseconds.
    pub latency_ms: Fixed,
}

/// The latencies held by a queue of measurements, oldest first.
pub open spec fn latency_values(q: Seq<LoadedLatencyMeasurement>) -> Seq<Fixed> {
    q.map_values(|m: LoadedLatencyMeasurement| m.latency_ms)
}

/// A queue of latencies after `x` joins it under a limit of `limit`
/// entries: a queue that is at its limit first loses its oldest entry.
pub open spec fn after_add(q: Seq<Fixed>, limit: nat, x: Fixed) -> Seq<Fixed> {
    if q.len() >= limit && q.len() > 0 {
        q.drop_first().push(x)
    } else {
        q.push(x)
    }
}

/// The largest number of entries a queue with limit `limit` ever holds.
pub open spec fn queue_bound(limit: nat) -> nat {
    if limit == 0 {
        1
    } else {
        limit
    }
}

/// Collector for latency samples taken while a transfer is in flight: one
/// bounded first-in-first-out queue per direction.
#[derive(Clone, Debug)]
pub struct LoadedLatencyCollector {
    download_measurements: VecDeque<LoadedLatencyMeasurement>,
    upload_measurements: VecDeque<LoadedLatencyMeasurement>,
    max_capacity: usize,
    min_request_duration_ms: Fixed,
}

impl LoadedLatencyCollector {
    /// Default maximum number of samples per direction.
    pub const DEFAULT_MAX_CAPACITY: usize = 20;

    /// Default minimum request duration for a sample to count, in
    /// millionths of a millisecond (250 ms).
    pub const DEFAULT_MIN_REQUEST_DURATION_MS: i64 = 250_000_000;

    /// Neither queue holds more than its bound.
    pub closed spec fn wf(&self) -> bool {
        &&& self.download_measurements@.len() <= queue_bound(self.max_capacity as nat)
        &&& self.upload_measurements@.len() <= queue_bound(self.max_capacity as nat)
    }

    /// The samples held for `direction`, oldest first.
    pub closed spec fn queue(&self, direction: LatencyDirection) -> Seq<Fixed> {
        match direction {
            LatencyDirection::Download => latency_values(self.download_measurements@),
            LatencyDirection::Upload => latency_values(self.upload_measurements@),
        }
    }

    /// The configured capacity per direction.
    pub closed spec fn limit(&self) -> nat {
        self.max_capacity as nat
    }

    /// The request duration below which a sample is rejected.
    pub closed spec fn floor(&self) -> Fixed {
        self.min_request_duration_ms
    }

    /// A collector with capacity 20 per direction and a minimum request
    /// duration of 250 ms.
    pub fn new() -> (r: Self)
        ensures
            r.wf(),
            r.queue(LatencyDirection::Download) == Seq::<Fixed>::empty(),
            r.queue(LatencyDirection::Upload) == Seq::<Fixed>::empty(),
            r.limit() == 20,
            r.floor().millionths == 250_000_000,
    {
        Self::with_config(
            Self::DEFAULT_MAX_CAPACITY,
            Fixed { millionths: Self::DEFAULT_MIN_REQUEST_DURATION_MS },
        )
    }

    /// A collector with the given capacity per direction and minimum
    /// request duration.
    pub fn with_config(max_capacity: usize, min_request_duration_ms: Fixed) -> (r: Self)
        ensures
            r.wf(),
            r.queue(LatencyDirection::Download) == Seq::<Fixed>::empty(),
            r.queue(LatencyDirection::Upload) == Seq::<Fixed>::empty(),
            r.limit() == max_capacity,
            r.floor() == min_request_duration_ms,
    {
        let r = LoadedLatencyCollector {
            download_measurements: VecDeque::new(),
            upload_measurements: VecDeque::new(),
            max_capacity,
            min_request_duration_ms,
        };
        assert(r.queue(LatencyDirection::Download) =~= Seq::<Fixed>::empty());
        assert(r.queue(LatencyDirection::Upload) =~= Seq::<Fixed>::empty());
        r
    }

    /// Adds a sample for `direction`. A sample taken during a request
    /// shorter than the minimum duration is rejected and nothing changes;
    /// otherwise the sample joins the end of that direction's queue, after
    /// the oldest entry has left a queue that is at capacity. The other
    /// direction is never touched.
    pub fn add(
        &mut self,
        direction: LatencyDirection,
        latency_ms: Fixed,
        request_duration_ms: Fixed,
    ) -> (added: bool)
        requires
            old(self).wf(),
        ensures
            final(self).wf(),
            added == (request_duration_ms.millionths >= old(self).floor().millionths),
            !added ==> *final(self) == *old(self),
            final(self).limit() == old(self).limit(),
            final(self).floor() == old(self).floor(),
            added ==> final(self).queue(direction) == after_add(
                old(self).queue(direction),
                old(self).limit(),
                latency_ms,
            ),
            forall|other: LatencyDirection|
                other != direction ==> final(self).queue(other) == old(self).queue(other),
            final(self).queue(direction).len() <= queue_bound(final(self).limit()),
    {
        if request_duration_ms.millionths < self.min_request_duration_ms.millionths {
            return false;
        }
        let measurement = LoadedLatencyMeasurement { latency_ms };
        match direction {
            LatencyDirection::Download => {
                let ghost before = self.download_measurements@;
                if self.download_measurements.len() >= self.max_capacity {
                    self.download_measurements.pop_front();
                }
                self.download_measurements.push_back(measurement);
                assert(latency_values(self.download_measurements@) =~= after_add(
                    latency_values(before),
                    self.max_capacity as nat,
                    latency_ms,
                ));
            },
            LatencyDirection::Upload => {
                let ghost before = self.upload_measurements@;
                if self.upload_measurements.len() >= self.max_capacity {
                    self.upload_measurements.pop_front();
                }
                self.upload_measurements.push_back(measurement);
                assert(latency_values(self.upload_measurements@) =~= after_add(
                    latency_values(before),
                    self.max_capacity as nat,
                    latency_ms,
                ));
            },
        }
        true
    }

    /// The samples held for `direction`, oldest first.
    pub fn get_latencies(&self, direction: LatencyDirection) -> (r: Vec<Fixed>)
        ensures
            r@ == self.queue(direction),
            self.wf() ==> r@.len() <= queue_bound(self.limit()),
    {
        let queue = match direction {
            LatencyDirection::Download => &self.download_measurements,
            LatencyDirection::Upload => &self.upload_measurements,
        };
        let mut out: Vec<Fixed> = Vec::new();
        let mut i: usize = 0;
        while i < queue.len()
            invariant
                i <= queue@.len(),
                out@ == latency_values(queue@).take(i as int),
            decreases queue@.len() - i,
        {
            out.push(queue[i].latency_ms);
            assert(out@ =~= latency_values(queue@).take(i + 1));
            i += 1;
        }
        assert(out@ =~= latency_values(queue@));
        out
    }

    /// The number of samples held for `direction`.
    pub fn len(&self, direction: LatencyDirection) -> (r: usize)
        ensures
            r == self.queue(direction).len(),
            self.wf() ==> r <= queue_bound(self.limit()),
    {
        match direction {
            LatencyDirection::Download => self.download_measurements.len(),
            LatencyDirection::Upload => self.upload_measurements.len(),
        }
    }

    /// Whether no sample is held for `direction`.
    pub fn is_empty(&self, direction: LatencyDirection) -> (r: bool)
        ensures
            r == (self.queue(direction).len() == 0),
    {
        self.len(direction) == 0
    }

    /// The configured capacity per direction.
    pub fn max_capacity(&self) -> (r: usize)
        ensures
            r == self.limit(),
    {
        self.max_capacity
    }

    /// Drops every sample held for `direction`.
    pub fn clear(&mut self, direction: LatencyDirection)
        ensures
            old(self).wf() ==> final(self).wf(),
            final(self).queue(direction) == Seq::<Fixed>::empty(),
            forall|other: LatencyDirection|
                other != direction ==> final(self).queue(other) == old(self).queue(other),
            final(self).limit() == old(self).limit(),
            final(self).floor() == old(self).floor(),
    {
        match direction {
            LatencyDirection::Download => {
                self.download_measurements.clear();
                assert(latency_values(self.download_measurements@) =~= Seq::<Fixed>::empty());
            },
            LatencyDirection::Upload => {
                self.upload_measurements.clear();
                assert(latency_values(self.upload_measurements@) =~= Seq::<Fixed>::empty());
            },
        }
    }

    /// Drops every sample of both directions.
    pub fn clear_all(&mut self)
        ensures
            final(self).wf(),
            final(self).queue(LatencyDirection::Download) == Seq::<Fixed>::empty(),
            final(self).queue(LatencyDirection::Upload) == Seq::<Fixed>::empty(),
            final(self).limit() == old(self).limit(),
            final(self).floor() == old(self).floor(),
    {
        self.clear(LatencyDirection::Download);
        self.clear(LatencyDirection::Upload);
        assert(self.download_measurements@.len() == latency_values(
            self.download_measurements@,
        ).len());
        assert(self.upload_measurements@.len() == latency_values(
            self.upload_measurements@,
        ).len());
    }
}

impl Default for LoadedLatencyCollector {
    fn default() -> (r: Self)
        ensures
            r.wf(),
            r.queue(LatencyDirection::Download) == Seq::<Fixed>::empty(),
            r.queue(LatencyDirection::Upload) == Seq::<Fixed>::empty(),
            r.limit() == 20,
            r.floor().millionths == 250_000_000,
    {
        Self::new()
    }
}

/// A queue that respects its bound still does after a sample joins it.
pub proof fn lemma_add_keeps_bound(q: Seq<Fixed>, limit: nat, x: Fixed)
    requires
        q.len() <= queue_bound(limit),
    ensures
        after_add(q, limit, x).len() <= queue_bound(limit),
        after_add(q, limit, x).last() == x,
{
}

/// Once a queue with a positive limit is full, a new sample pushes out the
/// oldest one and every other sample moves up by one place.
pub proof fn lemma_add_evicts_oldest(q: Seq<Fixed>, limit: nat, x: Fixed)
    requires
        limit >= 1,
        q.len() == limit,
    ensures
        after_add(q, limit, x).len() == limit,
        forall|i: int| 0 <= i < limit - 1 ==> after_add(q, limit, x)[i] == q[i + 1],
        after_add(q, limit, x)[limit - 1] == x,
{
}

/// A single bandwidth measurement with its timing details.
#[derive(Clone, Copy, Debug, PartialEq, Eq, Structural)]
pub struct BandwidthMeasurement {
    /// Number of bytes transferred.
    pub bytes: u64,
    /// Bandwidth in bits per second.
    pub bandwidth_bps: Fixed,
    /// Total duration of the transfer in milliseconds.
    pub duration_ms: Fixed,
    /// Server processing time in milliseconds.
    pub server_time_ms: Fixed,
    /// Time to first byte in milliseconds.
    pub ttfb_ms: Fixed,
}

/// Millionths of a bit per second in one byte per nanosecond.
pub const BYTE_PER_NANOSECOND: u128 = 8_000_000_000_000_000;

/// Bandwidth in bits per second for `bytes` bytes moved in `duration_ns`
/// nanoseconds of which `server_ns` were spent by the server: zero when the
/// server time uses up the duration, else bits over transfer seconds,
/// rounded down and saturated.
pub open spec fn bandwidth_bps_of(bytes: int, duration_ns: int, server_ns: int) -> Fixed {
    if duration_ns <= server_ns {
        Fixed { millionths: 0 }
    } else {
        saturated((bytes * BYTE_PER_NANOSECOND) / (duration_ns - server_ns))
    }
}

/// Bandwidth in bits per second from byte count and nanosecond timings.
pub fn bandwidth_bps(bytes: u64, duration_ns: u128, server_ns: u128) -> (r: Fixed)
    ensures
        r == bandwidth_bps_of(bytes as int, duration_ns as int, server_ns as int),
{
    if duration_ns <= server_ns {
        return Fixed::zero();
    }
    let transfer: u128 = duration_ns - server_ns;
    assert(bytes * BYTE_PER_NANOSECOND <= u64::MAX * BYTE_PER_NANOSECOND) by (nonlinear_arith)
        requires
            bytes <= u64::MAX,
    ;
    let bits_scaled: u128 = bytes as u128 * BYTE_PER_NANOSECOND;
    Fixed::saturating_from_u128(bits_scaled / transfer)
}

/// Bandwidth in bits per second: zero if `duration <= server_time`,
/// otherwise `bytes * 8` over the seconds of `duration - server_time`.
pub fn calculate_bandwidth_bps(bytes: u64, duration: Duration, server_time: Duration) -> (r: Fixed)
    ensures
        r == bandwidth_bps_of(
            bytes as int,
            duration_nanos(duration) as int,
            duration_nanos(server_time) as int,
        ),
{
    bandwidth_bps(bytes, duration.as_nanos(), server_time.as_nanos())
}

/// Converts bits per second to megabits per second, rounding toward
/// negative infinity.
pub fn calculate_speed_mbps(bandwidth_bps: Fixed) -> (r: Fixed)
    ensures
        r.millionths == bandwidth_bps.millionths / SCALE,
{
    Fixed { millionths: bandwidth_bps.floor_units() }
}

/// More bytes in the same time never give a lower bandwidth.
pub proof fn lemma_bandwidth_grows_with_bytes(b1: int, b2: int, duration_ns: int, server_ns: int)
    requires
        0 <= b1 <= b2,
        0 <= server_ns,
        0 <= duration_ns,
    ensures
        bandwidth_bps_of(b1, duration_ns, server_ns).millionths <= bandwidth_bps_of(
            b2,
            duration_ns,
            server_ns,
        ).millionths,
{
    if duration_ns > server_ns {
        let t = duration_ns - server_ns;
        assert(b1 * BYTE_PER_NANOSECOND <= b2 * BYTE_PER_NANOSECOND) by (nonlinear_arith)
            requires
                0 <= b1 <= b2,
        ;
        vstd::arithmetic::div_mod::lemma_div_is_ordered(
            b1 * BYTE_PER_NANOSECOND,
            b2 * BYTE_PER_NANOSECOND,
            t,
        );
    }
}

/// The same bytes over a longer transfer time never give a higher
/// bandwidth, and a transfer no longer than the server time gives zero.
pub proof fn lemma_bandwidth_shrinks_with_time(bytes: int, d1: int, d2: int, server_ns: int)
    requires
        0 <= bytes,
        0 <= server_ns < d1 <= d2,
    ensures
        bandwidth_bps_of(bytes, d2, server_ns).millionths <= bandwidth_bps_of(
            bytes,
            d1,
            server_ns,
        ).millionths,
        0 <= bandwidth_bps_of(bytes, d2, server_ns).millionths,
{
    let x = bytes * BYTE_PER_NANOSECOND;
    assert(0 <= x) by (nonlinear_arith)
        requires
            0 <= bytes,
            x == bytes * BYTE_PER_NANOSECOND,
    ;
    vstd::arithmetic::div_mod::lemma_div_is_ordered_by_denominator(
        x,
        d1 - server_ns,
        d2 - server_ns,
    );
    vstd::arithmetic::div_mod::lemma_div_pos_is_pos(x, d2 - server_ns);
}

/// A whole multiple of a number, divided and rounded down, is the multiple
/// of the number divided and rounded down, and at most the multiple less
/// one more.
proof fn lemma_scaled_quotient(x: int, k: int, d: int)
    requires
        0 <= x,
        1 <= k,
        0 < d,
    ensures
        k * (x / d) <= (k * x) / d <= k * (x / d) + (k - 1),
        0 <= x / d,
{
    let q = x / d;
    let r = x % d;
    vstd::arithmetic::div_mod::lemma_fundamental_div_mod(x, d);
    vstd::arithmetic::div_mod::lemma_mod_pos_bound(x, d);
    vstd::arithmetic::div_mod::lemma_div_pos_is_pos(x, d);
    let s = k * r;
    assert(0 <= s && s < k * d) by (nonlinear_arith)
        requires
            s == k * r,
            0 <= r < d,
            1 <= k,
    ;
    let u = s / d;
    let v = s % d;
    vstd::arithmetic::div_mod::lemma_fundamental_div_mod(s, d);
    vstd::arithmetic::div_mod::lemma_mod_pos_bound(s, d);
    vstd::arithmetic::div_mod::lemma_div_pos_is_pos(s, d);
    assert(u <= k - 1) by (nonlinear_arith)
        requires
            s == d * u + v,
            0 <= v,
            s < k * d,
            0 < d,
    ;
    assert(k * x == (k * q + u) * d + v) by (nonlinear_arith)
        requires
            x == d * q + r,
            k * r == d * u + v,
    ;
    vstd::arithmetic::div_mod::lemma_fundamental_div_mod_converse(k * x, d, k * q + u, v);
}

/// Whatever the rounding, `k` times the bytes in the same time give `k`
/// times the bandwidth or up to `k - 1` millionths more, where that is not
/// too large to be held: twice the bytes give twice the bandwidth, or one
/// millionth of a bit per second more.
pub proof fn lemma_bandwidth_scales_with_bytes(bytes: int, k: int, duration_ns: int, server_ns: int)
    requires
        0 <= bytes,
        1 <= k,
        0 <= server_ns < duration_ns,
        ((k * bytes) * BYTE_PER_NANOSECOND) / (duration_ns - server_ns) <= i64::MAX,
    ensures
        ({
            let one = bandwidth_bps_of(bytes, duration_ns, server_ns).millionths;
            let many = bandwidth_bps_of(k * bytes, duration_ns, server_ns).millionths;
            &&& one == (bytes * BYTE_PER_NANOSECOND) / (duration_ns - server_ns)
            &&& k * one <= many <= k * one + (k - 1)
        }),
{
    let t = duration_ns - server_ns;
    let x = bytes * BYTE_PER_NANOSECOND;
    assert(0 <= x) by (nonlinear_arith)
        requires
            0 <= bytes,
            x == bytes * BYTE_PER_NANOSECOND,
    ;
    lemma_scaled_quotient(x, k, t);
    assert((k * bytes) * BYTE_PER_NANOSECOND == k * x) by (nonlinear_arith)
        requires
            x == bytes * BYTE_PER_NANOSECOND,
    ;
    assert(x / t <= k * (x / t)) by (nonlinear_arith)
        requires
            1 <= k,
            0 <= x / t,
    ;
}

/// Whatever the rounding, the same bytes over `k` times the transfer time
/// give a `k`-th of the bandwidth: `k` times the slower bandwidth is the
/// faster one or up to `k - 1` millionths less, where the faster one is
/// not too large to be held.
pub proof fn lemma_bandwidth_scales_with_time(bytes: int, k: int, transfer_ns: int, server_ns: int)
    requires
        0 <= bytes,
        1 <= k,
        0 < transfer_ns,
        0 <= server_ns,
        (bytes * BYTE_PER_NANOSECOND) / transfer_ns <= i64::MAX,
    ensures
        ({
            let fast = bandwidth_bps_of(bytes, server_ns + transfer_ns, server_ns).millionths;
            let slow = bandwidth_bps_of(bytes, server_ns + k * transfer_ns, server_ns).millionths;
            &&& slow == (bytes * BYTE_PER_NANOSECOND) / (k * transfer_ns)
            &&& k * slow <= fast <= k * slow + (k - 1)
        }),
{
    let x = bytes * BYTE_PER_NANOSECOND;
    let long = k * transfer_ns;
    assert(0 < long && transfer_ns <= long) by (nonlinear_arith)
        requires
            1 <= k,
            0 < transfer_ns,
            long == k * transfer_ns,
    ;
    assert(0 <= x) by (nonlinear_arith)
        requires
            0 <= bytes,
            x == bytes * BYTE_PER_NANOSECOND,
    ;
    // With y the quotient by the longer time: x = y * long + r, r < long.
    let y = x / long;
    let r = x % long;
    vstd::arithmetic::div_mod::lemma_fundamental_div_mod(x, long);
    vstd::arithmetic::div_mod::lemma_mod_pos_bound(x, long);
    vstd::arithmetic::div_mod::lemma_div_pos_is_pos(x, long);
    let u = r / transfer_ns;
    let v = r % transfer_ns;
    vstd::arithmetic::div_mod::lemma_fundamental_div_mod(r, transfer_ns);
    vstd::arithmetic::div_mod::lemma_mod_pos_bound(r, transfer_ns);
    vstd::arithmetic::div_mod::lemma_div_pos_is_pos(r, transfer_ns);
    assert(u <= k - 1) by (nonlinear_arith)
        requires
            r == transfer_ns * u + v,
            0 <= v,
            r < k * transfer_ns,
            0 < transfer_ns,
    ;
    assert(x == (k * y + u) * transfer_ns + v) by (nonlinear_arith)
        requires
            x == long * y + r,
            long == k * transfer_ns,
            r == transfer_ns * u + v,
    ;
    vstd::arithmetic::div_mod::lemma_fundamental_div_mod_converse(x, transfer_ns, k * y + u, v);
    assert(y <= k * y) by (nonlinear_arith)
        requires
            1 <= k,
            0 <= y,
    ;
}

/// The bandwidth is above zero exactly where the transfer takes time and
/// moves at least a millionth of a bit per second.
pub proof fn lemma_bandwidth_positive(bytes: int, duration_ns: int, server_ns: int)
    requires
        0 <= bytes,
        0 <= server_ns,
        0 <= duration_ns,
    ensures
        bandwidth_bps_of(bytes, duration_ns, server_ns).millionths >= 0,
        bandwidth_bps_of(bytes, duration_ns, server_ns).millionths > 0 <==> (server_ns < duration_ns
            && bytes * BYTE_PER_NANOSECOND >= duration_ns - server_ns),
{
    if server_ns < duration_ns {
        let t = duration_ns - server_ns;
        let x = bytes * BYTE_PER_NANOSECOND;
        assert(0 <= x) by (nonlinear_arith)
            requires
                0 <= bytes,
                x == bytes * BYTE_PER_NANOSECOND,
        ;
        vstd::arithmetic::div_mod::lemma_div_pos_is_pos(x, t);
        if x >= t {
            vstd::arithmetic::div_mod::lemma_div_is_ordered(t, x, t);
            vstd::arithmetic::div_mod::lemma_div_basics(t);
        } else {
            vstd::arithmetic::div_mod::lemma_basic_div(x, t);
        }
    }
}

/// Bandwidth is linear in the bytes: `k` times the bytes in the same time
/// give `k` times the bandwidth, where the bandwidth of the bytes is a whole
/// number of millionths and its multiple is not too large to be held.
pub proof fn lemma_bandwidth_linear_in_bytes(bytes: int, k: int, duration_ns: int, server_ns: int)
    requires
        0 <= bytes,
        0 <= k,
        0 <= server_ns < duration_ns,
        (bytes * BYTE_PER_NANOSECOND) % (duration_ns - server_ns) == 0,
        k * ((bytes * BYTE_PER_NANOSECOND) / (duration_ns - server_ns)) <= i64::MAX,
    ensures
        bandwidth_bps_of(k * bytes, duration_ns, server_ns).millionths == k * bandwidth_bps_of(
            bytes,
            duration_ns,
            server_ns,
        ).millionths,
{
    let t = duration_ns - server_ns;
    let x = bytes * BYTE_PER_NANOSECOND;
    let q = x / t;
    assert(0 <= x) by (nonlinear_arith)
        requires
            0 <= bytes,
            x == bytes * BYTE_PER_NANOSECOND,
    ;
    vstd::arithmetic::div_mod::lemma_fundamental_div_mod(x, t);
    vstd::arithmetic::div_mod::lemma_div_pos_is_pos(x, t);
    assert((k * bytes) * BYTE_PER_NANOSECOND == (k * q) * t) by (nonlinear_arith)
        requires
            bytes * BYTE_PER_NANOSECOND == t * q,
    ;
    vstd::arithmetic::div_mod::lemma_div_by_multiple(k * q, t);
    assert(0 <= k * q) by (nonlinear_arith)
        requires
            0 <= k,
            0 <= q,
    ;
    assert(q <= k * q || k == 0) by (nonlinear_arith)
        requires
            0 <= k,
            0 <= q,
    ;
}

/// Bandwidth is inverse to the transfer time: the same bytes over `k`
/// times the transfer time give a `k`-th of the bandwidth, where that is a
/// whole number of millionths and the bandwidth is not too large to be
/// held.
pub proof fn lemma_bandwidth_inverse_in_time(bytes: int, k: int, transfer_ns: int, server_ns: int)
    requires
        0 <= bytes,
        1 <= k,
        0 < transfer_ns,
        0 <= server_ns,
        (bytes * BYTE_PER_NANOSECOND) % (k * transfer_ns) == 0,
        (bytes * BYTE_PER_NANOSECOND) / transfer_ns <= i64::MAX,
    ensures
        k * bandwidth_bps_of(bytes, server_ns + k * transfer_ns, server_ns).millionths
            == bandwidth_bps_of(bytes, server_ns + transfer_ns, server_ns).millionths,
{
    let x = bytes * BYTE_PER_NANOSECOND;
    let long = k * transfer_ns;
    assert(0 < long) by (nonlinear_arith)
        requires
            1 <= k,
            0 < transfer_ns,
            long == k * transfer_ns,
    ;
    let q = x / long;
    assert(0 <= x) by (nonlinear_arith)
        requires
            0 <= bytes,
            x == bytes * BYTE_PER_NANOSECOND,
    ;
    vstd::arithmetic::div_mod::lemma_fundamental_div_mod(x, long);
    vstd::arithmetic::div_mod::lemma_div_pos_is_pos(x, long);
    assert(x == (k * q) * transfer_ns) by (nonlinear_arith)
        requires
            x == long * q,
            long == k * transfer_ns,
    ;
    vstd::arithmetic::div_mod::lemma_div_by_multiple(k * q, transfer_ns);
    assert(q <= k * q) by (nonlinear_arith)
        requires
            1 <= k,
            0 <= q,
    ;
}

/// The distance between two samples.
pub open spec fn distance(a: Fixed, b: Fixed) -> int {
    if a.millionths >= b.millionths {
        a.millionths - b.millionths
    } else {
        b.millionths - a.millionths
    }
}

/// The sum of the distances between consecutive samples.
pub open spec fn total_variation(s: Seq<Fixed>) -> int
    decreases s.len(),
{
    if s.len() < 2 {
        0
    } else {
        total_variation(s.drop_last()) + distance(s[s.len() - 2], s[s.len() - 1])
    }
}

/// Jitter: the mean distance between consecutive samples, rounded down and
/// saturated; nothing for fewer than two samples.
pub open spec fn jitter_of(s: Seq<Fixed>) -> Option<Fixed> {
    if s.len() < 2 {
        None
    } else {
        Some(saturated(total_variation(s) / (s.len() - 1)))
    }
}

/// The median of a non-empty list of latency samples.
pub fn latency_f64(measurements: &Vec<Fixed>) -> (r: Fixed)
    requires
        measurements.len() > 0,
    ensures
        Some(r) == median_of(measurements@),
{
    let mut copy = measurements.clone();
    match median_f64(&mut copy) {
        Some(m) => m,
        None => Fixed::zero(),
    }
}

/// Jitter of the samples in the order given, or `None` for fewer than two.
pub fn jitter_f64(measurements: &Vec<Fixed>) -> (r: Option<Fixed>)
    ensures
        r == jitter_of(measurements@),
{
    let n = measurements.len();
    if n < 2 {
        return None;
    }
    let mut sum: u128 = 0;
    let mut i: usize = 1;
    assert(total_variation(measurements@.take(1)) == 0);
    while i < n
        invariant
            1 <= i <= n,
            n == measurements.len(),
            sum == total_variation(measurements@.take(i as int)),
            sum <= (i - 1) * 0xFFFF_FFFF_FFFF_FFFF,
        decreases n - i,
    {
        let a = measurements[i - 1].millionths as i128;
        let b = measurements[i].millionths as i128;
        let d: i128 = if a >= b {
            a - b
        } else {
            b - a
        };
        proof {
            let next = measurements@.take(i + 1);
            assert(next.drop_last() =~= measurements@.take(i as int));
            assert(d == distance(next[next.len() - 2], next[next.len() - 1]));
            assert(i * 0xFFFF_FFFF_FFFF_FFFF <= 0xFFFF_FFFF_FFFF_FFFF * 0xFFFF_FFFF_FFFF_FFFF)
                by (nonlinear_arith)
                requires
                    i <= 0xFFFF_FFFF_FFFF_FFFF,
            ;
            assert((i - 1) * 0xFFFF_FFFF_FFFF_FFFF + 0xFFFF_FFFF_FFFF_FFFF == i
                * 0xFFFF_FFFF_FFFF_FFFF) by (nonlinear_arith);
        }
        sum = sum + d as u128;
        i += 1;
    }
    assert(measurements@.take(n as int) =~= measurements@);
    Some(Fixed::saturating_from_u128(sum / ((n - 1) as u128)))
}

/// The total variation is never negative.
pub proof fn lemma_total_variation_non_negative(s: Seq<Fixed>)
    ensures
        total_variation(s) >= 0,
    decreases s.len(),
{
    if s.len() >= 2 {
        lemma_total_variation_non_negative(s.drop_last());
    }
}

/// Jitter is defined exactly for two or more samples and is never
/// negative.
pub proof fn lemma_jitter_non_negative(s: Seq<Fixed>)
    ensures
        jitter_of(s) is Some <==> s.len() >= 2,
        jitter_of(s) is Some ==> jitter_of(s)->0.millionths >= 0,
{
    lemma_total_variation_non_negative(s);
    if s.len() >= 2 {
        vstd::arithmetic::div_mod::lemma_div_pos_is_pos(total_variation(s), s.len() - 1);
    }
}

/// Samples that are all equal have no variation.
pub proof fn lemma_total_variation_constant(s: Seq<Fixed>)
    requires
        forall|i: int, j: int| 0 <= i < s.len() && 0 <= j < s.len() ==> s[i] == s[j],
    ensures
        total_variation(s) == 0,
    decreases s.len(),
{
    if s.len() >= 2 {
        let t = s.drop_last();
        assert forall|i: int, j: int| 0 <= i < t.len() && 0 <= j < t.len() implies t[i]
            == t[j] by {
            assert(t[i] == s[i] && t[j] == s[j]);
        }
        lemma_total_variation_constant(t);
    }
}

/// Jitter of constant samples is zero.
pub proof fn lemma_jitter_constant(s: Seq<Fixed>)
    requires
        s.len() >= 2,
        forall|i: int, j: int| 0 <= i < s.len() && 0 <= j < s.len() ==> s[i] == s[j],
    ensures
        jitter_of(s) == Some(Fixed { millionths: 0 }),
{
    lemma_total_variation_constant(s);
}

/// The total variation can be taken from the front as well as from the
/// back.
pub proof fn lemma_total_variation_front(s: Seq<Fixed>)
    requires
        s.len() >= 2,
    ensures
        total_variation(s) == distance(s[0], s[1]) + total_variation(s.drop_first()),
    decreases s.len(),
{
    if s.len() == 2 {
        assert(total_variation(s.drop_last()) == 0);
        assert(total_variation(s.drop_first()) == 0);
    } else {
        let init = s.drop_last();
        lemma_total_variation_front(init);
        assert(init.drop_first() =~= s.drop_first().drop_last());
        let tail = s.drop_first();
        assert(tail[tail.len() - 2] == s[s.len() - 2]);
        assert(tail[tail.len() - 1] == s[s.len() - 1]);
    }
}

/// Reversing the samples keeps their total variation.
pub proof fn lemma_total_variation_reverse(s: Seq<Fixed>)
    ensures
        total_variation(s.reverse()) == total_variation(s),
    decreases s.len(),
{
    let r = s.reverse();
    if s.len() >= 2 {
        lemma_total_variation_front(r);
        assert(r.drop_first() =~= s.drop_last().reverse());
        lemma_total_variation_reverse(s.drop_last());
        assert(r[0] == s[s.len() - 1]);
        assert(r[1] == s[s.len() - 2]);
    }
}

/// Jitter is the same for the samples in reverse order.
pub proof fn lemma_jitter_reverse(s: Seq<Fixed>)
    ensures
        jitter_of(s.reverse()) == jitter_of(s),
{
    lemma_total_variation_reverse(s);
}

/// The bandwidths of the measurements that lasted at least `min_duration_ms`,
/// in their order.
pub open spec fn qualifying(ms: Seq<BandwidthMeasurement>, min_duration_ms: Fixed) -> Seq<Fixed>
    decreases ms.len(),
{
    if ms.len() == 0 {
        Seq::empty()
    } else if ms.last().duration_ms.millionths >= min_duration_ms.millionths {
        qualifying(ms.drop_last(), min_duration_ms).push(ms.last().bandwidth_bps)
    } else {
        qualifying(ms.drop_last(), min_duration_ms)
    }
}

/// The percentile of the qualifying bandwidths, nothing where none
/// qualifies or the percentile is outside `[0, 1]`.
pub open spec fn aggregate_of(
    ms: Seq<BandwidthMeasurement>,
    percentile: Fixed,
    min_duration_ms: Fixed,
) -> Option<Fixed> {
    percentile_of(qualifying(ms, min_duration_ms), percentile)
}

/// Collects the bandwidths of the measurements that lasted at least
/// `min_duration_ms`.
pub fn qualifying_bandwidths(measurements: &Vec<BandwidthMeasurement>, min_duration_ms: Fixed) -> (r:
    Vec<Fixed>)
    ensures
        r@ == qualifying(measurements@, min_duration_ms),
{
    let mut out: Vec<Fixed> = Vec::new();
    let mut i: usize = 0;
    while i < measurements.len()
        invariant
            i <= measurements.len(),
            out@ == qualifying(measurements@.take(i as int), min_duration_ms),
        decreases measurements.len() - i,
    {
        assert(measurements@.take(i + 1).drop_last() =~= measurements@.take(i as int));
        if measurements[i].duration_ms.millionths >= min_duration_ms.millionths {
            out.push(measurements[i].bandwidth_bps);
        }
        i += 1;
    }
    assert(measurements@.take(measurements.len() as int) =~= measurements@);
    out
}

/// Aggregates bandwidth measurements: drops those shorter than
/// `min_duration_ms`, then takes the given percentile of the remaining
/// bandwidths. `None` if none remain or the percentile is outside `[0, 1]`.
pub fn aggregate_bandwidth(
    measurements: &Vec<BandwidthMeasurement>,
    percentile: Fixed,
    min_duration_ms: Fixed,
) -> (r: Option<Fixed>)
    ensures
        r == aggregate_of(measurements@, percentile, min_duration_ms),
{
    let mut filtered = qualifying_bandwidths(measurements, min_duration_ms);
    if filtered.len() == 0 {
        return None;
    }
    percentile_f64(&mut filtered, percentile)
}

/// Qualifying distributes over concatenation.
pub proof fn lemma_qualifying_concat(
    a: Seq<BandwidthMeasurement>,
    b: Seq<BandwidthMeasurement>,
    min_duration_ms: Fixed,
)
    ensures
        qualifying(a + b, min_duration_ms) == qualifying(a, min_duration_ms) + qualifying(
            b,
            min_duration_ms,
        ),
    decreases b.len(),
{
    if b.len() == 0 {
        assert(a + b =~= a);
        assert(qualifying(a, min_duration_ms) + qualifying(b, min_duration_ms) =~= qualifying(
            a,
            min_duration_ms,
        ));
    } else {
        assert((a + b).drop_last() =~= a + b.drop_last());
        assert((a + b).last() == b.last());
        lemma_qualifying_concat(a, b.drop_last(), min_duration_ms);
        let qa = qualifying(a, min_duration_ms);
        let qb = qualifying(b.drop_last(), min_duration_ms);
        if b.last().duration_ms.millionths >= min_duration_ms.millionths {
            assert((qa + qb).push(b.last().bandwidth_bps) =~= qa + qb.push(
                b.last().bandwidth_bps,
            ));
        }
    }
}

/// A measurement shorter than the floor, added anywhere, leaves the
/// aggregate unchanged.
pub proof fn lemma_short_measurement_ignored(
    ms: Seq<BandwidthMeasurement>,
    at: int,
    extra: BandwidthMeasurement,
    percentile: Fixed,
    min_duration_ms: Fixed,
)
    requires
        0 <= at <= ms.len(),
        extra.duration_ms.millionths < min_duration_ms.millionths,
    ensures
        aggregate_of(ms.insert(at, extra), percentile, min_duration_ms) == aggregate_of(
            ms,
            percentile,
            min_duration_ms,
        ),
{
    let head = ms.subrange(0, at);
    let tail = ms.subrange(at, ms.len() as int);
    let one = seq![extra];
    assert(ms =~= head + tail);
    assert(ms.insert(at, extra) =~= (head + one) + tail);
    lemma_qualifying_concat(head, tail, min_duration_ms);
    lemma_qualifying_concat(head + one, tail, min_duration_ms);
    lemma_qualifying_concat(head, one, min_duration_ms);
    assert(one.drop_last() =~= Seq::<BandwidthMeasurement>::empty());
    assert(qualifying(one.drop_last(), min_duration_ms) =~= Seq::<Fixed>::empty());
    assert(one.last() == extra);
    assert(qualifying(one, min_duration_ms) =~= Seq::<Fixed>::empty());
    assert(qualifying(head, min_duration_ms) + Seq::<Fixed>::empty() =~= qualifying(
        head,
        min_duration_ms,
    ));
}

/// A measurement that lasted exactly the floor, or longer, is counted.
pub proof fn lemma_measurement_at_floor_counts(
    ms: Seq<BandwidthMeasurement>,
    extra: BandwidthMeasurement,
    min_duration_ms: Fixed,
)
    requires
        extra.duration_ms.millionths >= min_duration_ms.millionths,
    ensures
        qualifying(ms.push(extra), min_duration_ms) == qualifying(ms, min_duration_ms).push(
            extra.bandwidth_bps,
        ),
{
    assert(ms.push(extra).drop_last() =~= ms);
}

} // verus!
