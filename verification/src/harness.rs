//! The timing harness: what one timed request yields, and the decisions
//! around it that need no network.

use crate::fixed::{saturated, Fixed};
use crate::headers::{
    extract_http_headers, field_count, first_value, first_value_of, header_values, headers_of,
};
use crate::measurements::{bandwidth_bps, bandwidth_bps_of, BandwidthMeasurement};
use crate::server_timing::{server_timing_nanos, server_timing_of};
use crate::target::{request_target, url_target, url_text, Target, TargetView};
use crate::text::{decimal_digits, push_decimal};
use crate::time::{duration_ms, duration_nanos};
use http::header::{HeaderMap, HeaderValue};
use std::time::Duration;
use vstd::prelude::*;

verus! {

/// The timings of one network operation.
#[derive(Clone, Copy, Debug)]
pub struct TestResults {
    /// Time to open the TCP connection.
    pub tcp_duration: Duration,
    /// Time to the first byte of the response.
    pub ttfb_duration: Duration,
    /// Processing time that the server reports for the request.
    pub server_time: Duration,
    /// Time to the last byte of the response.
    pub end_duration: Duration,
    /// Bytes transferred.
    pub bytes: u64,
}

impl TestResults {
    /// The timings of a request.
    pub fn new(
        tcp_duration: Duration,
        ttfb_duration: Duration,
        server_time: Duration,
        end_duration: Duration,
        bytes: u64,
    ) -> (r: Self)
        ensures
            r.tcp_duration == tcp_duration,
            r.ttfb_duration == ttfb_duration,
            r.server_time == server_time,
            r.end_duration == end_duration,
            r.bytes == bytes,
    {
        TestResults { tcp_duration, ttfb_duration, server_time, end_duration, bytes }
    }

    /// The timings of an upload. The time from the start of the request to
    /// the first byte of the response is the time the upload took: it
    /// stands for both the time to first byte and the total duration, and
    /// no server time is deducted from it.
    pub fn upload(tcp_duration: Duration, transfer: Duration, bytes: u64) -> (r: Self)
        ensures
            r.tcp_duration == tcp_duration,
            r.ttfb_duration == transfer,
            duration_nanos(r.server_time) == 0,
            r.end_duration == transfer,
            r.bytes == bytes,
    {
        TestResults {
            tcp_duration,
            ttfb_duration: transfer,
            server_time: Duration::from_nanos(0),
            end_duration: transfer,
            bytes,
        }
    }

    /// The latency sample that the operation gives: the time to open the
    /// TCP connection, in milliseconds.
    pub open spec fn latency(&self) -> Fixed {
        saturated(duration_nanos(self.tcp_duration) as int)
    }

    /// The bandwidth measurement that the operation gives.
    pub open spec fn measurement(&self) -> BandwidthMeasurement {
        BandwidthMeasurement {
            bytes: self.bytes,
            bandwidth_bps: bandwidth_bps_of(
                self.bytes as int,
                duration_nanos(self.end_duration) as int,
                duration_nanos(self.server_time) as int,
            ),
            duration_ms: saturated(duration_nanos(self.end_duration) as int),
            server_time_ms: saturated(duration_nanos(self.server_time) as int),
            ttfb_ms: saturated(duration_nanos(self.ttfb_duration) as int),
        }
    }

    /// The latency sample that the operation gives: the time to open the
    /// TCP connection, in milliseconds.
    pub fn tcp_latency_ms(&self) -> (r: Fixed)
        ensures
            r == self.latency(),
    {
        duration_ms(self.tcp_duration)
    }

    /// The bandwidth measurement that the operation gives: the bytes over
    /// the total duration less the server time.
    pub fn to_bandwidth_measurement(&self) -> (r: BandwidthMeasurement)
        ensures
            r == self.measurement(),
    {
        BandwidthMeasurement {
            bytes: self.bytes,
            bandwidth_bps: bandwidth_bps(
                self.bytes,
                self.end_duration.as_nanos(),
                self.server_time.as_nanos(),
            ),
            duration_ms: duration_ms(self.end_duration),
            server_time_ms: duration_ms(self.server_time),
            ttfb_ms: duration_ms(self.ttfb_duration),
        }
    }
}

/// Capacity of the queue that delivers loaded latency samples.
pub const LATENCY_QUEUE_CAPACITY: usize = 100;

/// Time in ms that the sampler is given to stop once the transfer is over.
pub const SAMPLER_GRACE_MS: u64 = 100;

/// Bound in seconds on the TCP connect of a latency probe.
pub const PROBE_TIMEOUT_SECS: u64 = 5;

/// The family of a resolved address.
#[derive(Clone, Copy, Debug, PartialEq, Eq, Structural)]
pub enum AddressFamily {
    /// IPv4.
    V4,
    /// IPv6.
    V6,
}

/// The index of the address to connect to among those that a name
/// resolved to: the first IPv4 address if there is one, else the first
/// address; none if there is no address.
pub fn choose_address(families: &Vec<AddressFamily>) -> (r: Option<usize>)
    ensures
        match r {
            None => families@.len() == 0,
            Some(i) => {
                &&& i < families@.len()
                &&& forall|j: int| 0 <= j < i ==> families@[j] == AddressFamily::V6
                &&& families@[i as int] == AddressFamily::V4 || (i == 0 && forall|j: int|
                    0 <= j < families@.len() ==> families@[j] == AddressFamily::V6)
            },
        },
{
    if families.len() == 0 {
        return None;
    }
    let mut i: usize = 0;
    while i < families.len()
        invariant
            i <= families.len(),
            forall|j: int| 0 <= j < i ==> families@[j] == AddressFamily::V6,
        decreases families.len() - i,
    {
        match families[i] {
            AddressFamily::V4 => {
                return Some(i);
            },
            AddressFamily::V6 => {},
        }
        i += 1;
    }
    Some(0)
}

/// The bytes end with an empty line: carriage return, line feed, carriage
/// return, line feed.
pub open spec fn ends_with_blank_line(bytes: Seq<u8>) -> bool {
    &&& bytes.len() >= 4
    &&& bytes[bytes.len() - 4] == 13
    &&& bytes[bytes.len() - 3] == 10
    &&& bytes[bytes.len() - 2] == 13
    &&& bytes[bytes.len() - 1] == 10
}

/// Whether the bytes read so far hold the whole head of a response: they
/// end with an empty line.
pub fn headers_complete(received: &Vec<u8>) -> (r: bool)
    ensures
        r == ends_with_blank_line(received@),
{
    let n = received.len();
    n >= 4 && received[n - 4] == 13 && received[n - 3] == 10 && received[n - 2] == 13
        && received[n - 1] == 10
}

/// The payload of an upload: `bytes` times the ASCII digit zero.
pub fn upload_payload(bytes: usize) -> (r: Vec<u8>)
    ensures
        r@.len() == bytes,
        forall|i: int| 0 <= i < bytes ==> r@[i] == 48,
{
    let mut data: Vec<u8> = Vec::new();
    let mut i: usize = 0;
    while i < bytes
        invariant
            i <= bytes,
            data@.len() == i,
            forall|k: int| 0 <= k < i ==> data@[k] == 48,
        decreases bytes - i,
    {
        data.push(48u8);
        i += 1;
    }
    data
}

/// The query of a download of `bytes` bytes.
pub open spec fn download_query_of(bytes: nat) -> Seq<char> {
    "bytes="@ + decimal_digits(bytes)
}

/// The query of a download of `bytes` bytes: `bytes=<n>`.
pub fn download_query(bytes: u64) -> (r: String)
    ensures
        r@ == download_query_of(bytes as nat),
{
    let mut out = "bytes=".to_owned();
    push_decimal(&mut out, bytes);
    out
}

/// The text of a download request.
pub open spec fn get_request_of(
    path: Seq<char>,
    query: Seq<char>,
    host: Seq<char>,
    user_agent: Seq<char>,
) -> Seq<char> {
    "GET "@ + path + "?"@ + query + " HTTP/1.1\r\nHost: "@ + host + "\r\nUser-Agent: "@
        + user_agent
        + "\r\nAccept: */*\r\nAccept-Encoding: gzip, deflate, br, zstd\r\nConnection: close\r\n\r\n"@
}

/// The request that is written to the socket for a download: request
/// line, `Host`, `User-Agent`, `Accept`, `Accept-Encoding` and
/// `Connection: close`, closed by an empty line.
pub fn build_http_header(path: &str, query: &str, host: &str, user_agent: &str) -> (r: String)
    ensures
        r@ == get_request_of(path@, query@, host@, user_agent@),
{
    let mut out = "GET ".to_owned();
    out.append(path);
    out.append("?");
    out.append(query);
    out.append(" HTTP/1.1\r\nHost: ");
    out.append(host);
    out.append("\r\nUser-Agent: ");
    out.append(user_agent);
    out.append(
        "\r\nAccept: */*\r\nAccept-Encoding: gzip, deflate, br, zstd\r\nConnection: close\r\n\r\n",
    );
    out
}

/// The text of the head of an upload request.
pub open spec fn post_request_of(
    path: Seq<char>,
    host: Seq<char>,
    user_agent: Seq<char>,
    content_length: nat,
) -> Seq<char> {
    "POST "@ + path + " HTTP/1.1\r\nHost: "@ + host + "\r\nUser-Agent: "@ + user_agent
        + "\r\nAccept: */*\r\nContent-Type: text/plain;charset=UTF-8\r\nContent-Length: "@
        + decimal_digits(content_length) + "\r\nConnection: close\r\n\r\n"@
}

/// The head of the request that is written to the socket for an upload:
/// as for a download, with `Content-Type` and `Content-Length` and without
/// `Accept-Encoding`. The body follows it.
pub fn build_http_post_header(path: &str, host: &str, user_agent: &str, content_length: usize) -> (r:
    String)
    ensures
        r@ == post_request_of(path@, host@, user_agent@, content_length as nat),
{
    let mut out = "POST ".to_owned();
    out.append(path);
    out.append(" HTTP/1.1\r\nHost: ");
    out.append(host);
    out.append("\r\nUser-Agent: ");
    out.append(user_agent);
    out.append("\r\nAccept: */*\r\nContent-Type: text/plain;charset=UTF-8\r\nContent-Length: ");
    push_decimal(&mut out, content_length as u64);
    out.append("\r\nConnection: close\r\n\r\n");
    out
}

/// The target and the text of the request for a download of `bytes`
/// bytes: the URL of the endpoint `__down` with the query `bytes=<n>`, and
/// the request made of its path, query and host. `None` where the URL
/// gives no target or no query.
pub open spec fn download_request_of(bytes: nat, user_agent: Seq<char>) -> Option<
    (TargetView, Seq<char>),
> {
    match url_target(url_text("__down"@, Some(download_query_of(bytes)))) {
        Some(target) => match target.query {
            Some(query) => Some(
                (target, get_request_of(target.path, query, target.host, user_agent)),
            ),
            None => None,
        },
        None => None,
    }
}

/// The target of a download of `bytes` bytes and the request that is
/// written to it.
pub fn download_request(bytes: u64, user_agent: &str) -> (r: Option<(Target, String)>)
    ensures
        match r {
            Some(p) => download_request_of(bytes as nat, user_agent@) == Some((p.0@, p.1@)),
            None => download_request_of(bytes as nat, user_agent@) is None,
        },
{
    let query = download_query(bytes);
    match request_target("__down", Some(query.as_str())) {
        Some(target) => {
            let text = match &target.query {
                Some(q) => Some(
                    build_http_header(
                        target.path.as_str(),
                        q.as_str(),
                        target.host.as_str(),
                        user_agent,
                    ),
                ),
                None => None,
            };
            match text {
                Some(text) => Some((target, text)),
                None => None,
            }
        },
        None => None,
    }
}

/// The target and the head of the request for an upload of
/// `content_length` bytes: the URL of the endpoint `__up`, and the head
/// made of its path and host. `None` where the URL gives no target.
pub open spec fn upload_request_of(content_length: nat, user_agent: Seq<char>) -> Option<
    (TargetView, Seq<char>),
> {
    match url_target(url_text("__up"@, None)) {
        Some(target) => Some(
            (target, post_request_of(target.path, target.host, user_agent, content_length)),
        ),
        None => None,
    }
}

/// The target of an upload of `content_length` bytes and the head of the
/// request that is written to it.
pub fn upload_request(content_length: usize, user_agent: &str) -> (r: Option<(Target, String)>)
    ensures
        match r {
            Some(p) => upload_request_of(content_length as nat, user_agent@) == Some((p.0@, p.1@)),
            None => upload_request_of(content_length as nat, user_agent@) is None,
        },
{
    match request_target("__up", None) {
        Some(target) => {
            let text = build_http_post_header(
                target.path.as_str(),
                target.host.as_str(),
                user_agent,
                content_length,
            );
            Some((target, text))
        },
        None => None,
    }
}

/// The value of the header `name` that a response head gives: the text of
/// the first valid field of that name, in any case of the name's letters.
pub open spec fn header_of(head: Seq<char>, name: Seq<char>) -> Option<Seq<char>> {
    first_value_of(headers_of(head), name)
}

/// The value of the header `name` in the head of a response. `None` where
/// the head has no such header, and where the header map took no more,
/// which does not happen to a head of fewer than 3,277 valid fields.
pub fn header_value(head: &str, name: &str) -> (r: Option<String>)
    ensures
        r matches Some(value) ==> header_of(head@, name@) == Some(value@),
        r is None && field_count(head@) < 3_277 ==> header_of(head@, name@) is None,
{
    match extract_http_headers(head) {
        Some(headers) => first_value(&headers, name),
        None => None,
    }
}

/// The server time, in nanoseconds, that header fields report under
/// `server-timing`; zero where the header is absent or gives no valid
/// time.
pub open spec fn server_nanos_in(values: Map<Seq<char>, Seq<Option<Seq<char>>>>) -> u64 {
    match first_value_of(values, "server-timing"@) {
        Some(value) => match server_timing_of(value) {
            Some(nanos) => nanos,
            None => 0,
        },
        None => 0,
    }
}

/// The server time that header fields report under `server-timing`; zero
/// where the header is absent or gives no valid time.
pub fn server_time_in(headers: &HeaderMap<HeaderValue>) -> (r: Duration)
    ensures
        duration_nanos(r) == server_nanos_in(header_values(*headers)),
{
    let nanos = match first_value(headers, "server-timing") {
        Some(value) => match server_timing_nanos(value.as_str()) {
            Some(nanos) => nanos,
            None => 0,
        },
        None => 0,
    };
    Duration::from_nanos(nanos)
}

/// The server time that the head of a response reports in its
/// `server-timing` header; zero where the header is absent or gives no
/// valid time, and where the header map took no more, which does not
/// happen to a head of fewer than 3,277 valid fields.
pub fn server_time_of(head: &str) -> (r: Duration)
    ensures
        duration_nanos(r) == server_nanos_in(headers_of(head@)) || duration_nanos(r) == 0,
        field_count(head@) < 3_277 ==> duration_nanos(r) == server_nanos_in(headers_of(head@)),
{
    match extract_http_headers(head) {
        Some(headers) => server_time_in(&headers),
        None => Duration::from_nanos(0),
    }
}

/// How long the sampler waits before its next sample: what is left of the
/// throttle interval since the last sample, nothing if the interval has
/// passed.
pub fn sampling_wait(since_last: Duration, throttle_ms: u64) -> (r: Option<Duration>)
    ensures
        match r {
            Some(wait) => duration_nanos(since_last) < throttle_ms * 1_000_000 && duration_nanos(
                wait,
            ) == throttle_ms * 1_000_000 - duration_nanos(since_last),
            None => duration_nanos(since_last) >= throttle_ms * 1_000_000,
        },
{
    let throttle = Duration::from_millis(throttle_ms);
    if since_last.as_nanos() >= throttle.as_nanos() {
        return None;
    }
    throttle.checked_sub(since_last)
}

/// Whether latency is sampled at this point of a transfer: only once the
/// transfer has run for the minimum request duration.
pub fn should_sample(request_elapsed: Duration, min_request_duration_ms: u64) -> (r: bool)
    ensures
        r == (duration_nanos(request_elapsed) >= min_request_duration_ms * 1_000_000),
{
    request_elapsed.as_nanos() >= Duration::from_millis(min_request_duration_ms).as_nanos()
}

} // verus!
