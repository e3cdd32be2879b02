//! Packet loss: the configuration of a measurement and what it yields.

use crate::fixed::{saturated, Fixed, SCALE};
use crate::text::{
    all_digits, chars_of, digits_value, find, find_char, is_digit, lemma_digits_value_prefix,
    slice_of, string_of,
};
use crate::time::{duration_nanos, now_micros};
use std::time::Duration;
use vstd::prelude::*;

verus! {

/// Configuration of a packet loss measurement through a TURN server.
#[derive(Clone, Debug)]
pub struct PacketLossConfig {
    /// TURN server URI, such as `turn:turn.example.com:3478`.
    pub turn_server_uri: String,
    /// Number of UDP packets to send.
    pub num_packets: usize,
    /// Number of packets in each batch.
    pub batch_size: usize,
    /// Wait between batches in ms.
    pub batch_wait_time_ms: u64,
    /// Timeout for the response to a packet in ms.
    pub packet_timeout_ms: u64,
}

impl PacketLossConfig {
    /// Default number of packets to send.
    pub const DEFAULT_NUM_PACKETS: usize = 1000;

    /// Default batch size.
    pub const DEFAULT_BATCH_SIZE: usize = 100;

    /// Default wait between batches in milliseconds.
    pub const DEFAULT_BATCH_WAIT_TIME_MS: u64 = 10;

    /// Default packet timeout in milliseconds.
    pub const DEFAULT_PACKET_TIMEOUT_MS: u64 = 1000;

    /// A configuration for the given server with the default numbers.
    pub fn new(turn_server_uri: String) -> (r: Self)
        ensures
            r.turn_server_uri == turn_server_uri,
            r.num_packets == 1000,
            r.batch_size == 100,
            r.batch_wait_time_ms == 10,
            r.packet_timeout_ms == 1000,
    {
        PacketLossConfig {
            turn_server_uri,
            num_packets: Self::DEFAULT_NUM_PACKETS,
            batch_size: Self::DEFAULT_BATCH_SIZE,
            batch_wait_time_ms: Self::DEFAULT_BATCH_WAIT_TIME_MS,
            packet_timeout_ms: Self::DEFAULT_PACKET_TIMEOUT_MS,
        }
    }
}

/// The share of packets lost: `(sent - received) / sent` rounded down to
/// the millionth, zero where nothing was sent.
pub open spec fn loss_ratio_of(sent: nat, received: nat) -> Fixed {
    if sent == 0 {
        Fixed { millionths: 0 }
    } else {
        Fixed { millionths: (((sent - received) * SCALE) / (sent as int)) as i64 }
    }
}

/// Result of a packet loss measurement.
#[derive(Clone, Copy, Debug, PartialEq, Eq)]
pub struct PacketLossResult {
    /// Packet loss ratio from 0 (none lost) to 1 (all lost).
    pub packet_loss_ratio: Fixed,
    /// Number of packets that were to be sent.
    pub total_packets: usize,
    /// Number of packets sent.
    pub packets_sent: usize,
    /// Number of packets sent without a response.
    pub packets_lost: usize,
    /// Number of packets that received a response.
    pub packets_received: usize,
    /// Average round-trip time of the received packets in ms.
    pub avg_rtt_ms: Option<Fixed>,
}

impl PacketLossResult {
    /// The result of a measurement in which `packets_sent` packets were
    /// sent and `packets_received` of them answered.
    pub fn new(packets_sent: usize, packets_received: usize, avg_rtt_ms: Option<Fixed>) -> (r: Self)
        requires
            packets_received <= packets_sent,
        ensures
            r.packet_loss_ratio == loss_ratio_of(packets_sent as nat, packets_received as nat),
            0 <= r.packet_loss_ratio.millionths <= SCALE,
            r.total_packets == packets_sent,
            r.packets_sent == packets_sent,
            r.packets_lost == packets_sent - packets_received,
            r.packets_received == packets_received,
            r.avg_rtt_ms == avg_rtt_ms,
    {
        let packets_lost = packets_sent - packets_received;
        let packet_loss_ratio = if packets_sent > 0 {
            assert(0 <= packets_lost * SCALE <= packets_sent * SCALE) by (nonlinear_arith)
                requires
                    0 <= packets_lost <= packets_sent,
            ;
            assert((packets_lost * SCALE) / (packets_sent as int) <= SCALE) by {
                vstd::arithmetic::div_mod::lemma_div_is_ordered(
                    packets_lost * SCALE,
                    packets_sent * SCALE,
                    packets_sent as int,
                );
                vstd::arithmetic::div_mod::lemma_div_multiples_vanish(
                    SCALE as int,
                    packets_sent as int,
                );
                assert(packets_sent * SCALE == SCALE * packets_sent) by (nonlinear_arith);
            }
            assert(0 <= (packets_lost * SCALE) / (packets_sent as int)) by {
                vstd::arithmetic::div_mod::lemma_div_pos_is_pos(
                    packets_lost * SCALE,
                    packets_sent as int,
                );
            }
            let scaled: u128 = packets_lost as u128 * 1_000_000u128;
            Fixed { millionths: (scaled / packets_sent as u128) as i64 }
        } else {
            Fixed::zero()
        };
        PacketLossResult {
            packet_loss_ratio,
            total_packets: packets_sent,
            packets_sent,
            packets_lost,
            packets_received,
            avg_rtt_ms,
        }
    }

    /// The result that stands for no measurement.
    pub fn unavailable() -> (r: Self)
        ensures
            r == (PacketLossResult {
                packet_loss_ratio: Fixed { millionths: 0 },
                total_packets: 0,
                packets_sent: 0,
                packets_lost: 0,
                packets_received: 0,
                avg_rtt_ms: None,
            }),
    {
        PacketLossResult {
            packet_loss_ratio: Fixed::zero(),
            total_packets: 0,
            packets_sent: 0,
            packets_lost: 0,
            packets_received: 0,
            avg_rtt_ms: None,
        }
    }

    /// Whether packets were sent.
    pub fn is_available(&self) -> (r: bool)
        ensures
            r == (self.packets_sent > 0),
    {
        self.packets_sent > 0
    }

    /// The packet loss as a percentage from 0 to 100.
    pub fn packet_loss_percent(&self) -> (r: Fixed)
        ensures
            r == saturated(self.packet_loss_ratio.millionths * 100),
    {
        percent_of(self.packet_loss_ratio)
    }
}

/// A ratio as a percentage.
pub fn percent_of(ratio: Fixed) -> (r: Fixed)
    ensures
        r == saturated(ratio.millionths * 100),
{
    let scaled: i128 = ratio.millionths as i128 * 100;
    if scaled > i64::MAX as i128 {
        Fixed { millionths: i64::MAX }
    } else if scaled < i64::MIN as i128 {
        Fixed { millionths: i64::MIN }
    } else {
        Fixed { millionths: scaled as i64 }
    }
}

/// The packet loss ratio of a measurement: the share of the packets sent
/// that were not received.
pub fn calculate_packet_loss_ratio(packets_sent: usize, packets_received: usize) -> (r: Fixed)
    requires
        packets_received <= packets_sent,
    ensures
        r == loss_ratio_of(packets_sent as nat, packets_received as nat),
        0 <= r.millionths <= SCALE,
{
    PacketLossResult::new(packets_sent, packets_received, None).packet_loss_ratio
}

/// The count of a measurement while it runs: the packets sent, those
/// answered, and the round-trip times of the answers added up.
#[derive(Clone, Copy, Debug, PartialEq, Eq)]
pub struct PacketTally {
    /// Number of packets sent.
    pub sent: usize,
    /// Number of packets that were answered.
    pub received: usize,
    /// Sum of the round-trip times of the answers in nanoseconds.
    pub total_rtt_nanos: u128,
}

/// The average round-trip time in ms of `received` answers that took
/// `total_rtt_nanos` nanoseconds together, rounded down; none without an
/// answer.
pub open spec fn average_rtt_of(received: nat, total_rtt_nanos: nat) -> Option<Fixed> {
    if received > 0 {
        Some(saturated(total_rtt_nanos as int / received as int))
    } else {
        None
    }
}

impl PacketTally {
    /// No packet is answered that was not sent.
    pub open spec fn wf(&self) -> bool {
        self.received <= self.sent
    }

    /// The count before the first packet.
    pub fn new() -> (r: Self)
        ensures
            r == (PacketTally { sent: 0, received: 0, total_rtt_nanos: 0 }),
            r.wf(),
    {
        PacketTally { sent: 0, received: 0, total_rtt_nanos: 0 }
    }

    /// Counts a packet that was sent.
    pub fn record_sent(&mut self)
        requires
            old(self).sent < usize::MAX,
        ensures
            *final(self) == (PacketTally { sent: (old(self).sent + 1) as usize, ..*old(self) }),
            old(self).wf() ==> final(self).wf(),
    {
        self.sent = self.sent + 1;
    }

    /// Counts a valid answer to the packet sent last, with its round-trip
    /// time. The sum of the times stops at the largest number it can hold.
    pub fn record_answer(&mut self, rtt: Duration)
        requires
            old(self).received < old(self).sent,
        ensures
            *final(self) == (PacketTally {
                received: (old(self).received + 1) as usize,
                total_rtt_nanos: if old(self).total_rtt_nanos + duration_nanos(rtt) > u128::MAX {
                    u128::MAX
                } else {
                    (old(self).total_rtt_nanos + duration_nanos(rtt)) as u128
                },
                ..*old(self)
            }),
            final(self).wf(),
    {
        self.received = self.received + 1;
        self.total_rtt_nanos = self.total_rtt_nanos.saturating_add(rtt.as_nanos());
    }

    /// The result of the measurement so counted.
    pub fn result(&self) -> (r: PacketLossResult)
        requires
            self.wf(),
        ensures
            r.packet_loss_ratio == loss_ratio_of(self.sent as nat, self.received as nat),
            r.total_packets == self.sent,
            r.packets_sent == self.sent,
            r.packets_lost == self.sent - self.received,
            r.packets_received == self.received,
            r.avg_rtt_ms == average_rtt_of(self.received as nat, self.total_rtt_nanos as nat),
    {
        let avg_rtt_ms = if self.received > 0 {
            Some(Fixed::saturating_from_u128(self.total_rtt_nanos / (self.received as u128)))
        } else {
            None
        };
        PacketLossResult::new(self.sent, self.received, avg_rtt_ms)
    }
}

/// Why a packet loss measurement could not be made.
#[derive(Clone, Debug)]
pub enum PacketLossError {
    /// The TURN server could not be reached.
    ConnectionFailed(String),
    /// The TURN server URI is not valid.
    InvalidUri(String),
}

impl PacketLossError {
    /// The text of the error.
    pub fn to_string(&self) -> (r: String)
        ensures
            r@ == (match *self {
                PacketLossError::ConnectionFailed(m) => "Failed to connect to TURN server: "@
                    + m@,
                PacketLossError::InvalidUri(m) => "Invalid TURN server URI: "@ + m@,
            }),
    {
        match self {
            PacketLossError::ConnectionFailed(m) => {
                let mut out = "Failed to connect to TURN server: ".to_owned();
                out.append(m.as_str());
                out
            },
            PacketLossError::InvalidUri(m) => {
                let mut out = "Invalid TURN server URI: ".to_owned();
                out.append(m.as_str());
                out
            },
        }
    }
}

/// Default port of a TURN server.
pub const DEFAULT_TURN_PORT: u16 = 3478;

/// Length of a probe packet in bytes.
pub const PACKET_LEN: usize = 16;

/// `s` begins with `prefix`.
pub open spec fn has_prefix(s: Seq<char>, prefix: Seq<char>) -> bool {
    prefix.len() <= s.len() && s.take(prefix.len() as int) == prefix
}

/// The URI without its scheme: without a leading `turn:`, `turns:` or
/// `//`.
pub open spec fn without_scheme(uri: Seq<char>) -> Seq<char> {
    if has_prefix(uri, seq!['t', 'u', 'r', 'n', ':']) {
        uri.skip(5)
    } else if has_prefix(uri, seq!['t', 'u', 'r', 'n', 's', ':']) {
        uri.skip(6)
    } else if has_prefix(uri, seq!['/', '/']) {
        uri.skip(2)
    } else {
        uri
    }
}

/// The port that a text writes: decimal digits, with an optional plus sign
/// before them, of a number that 16 bits hold.
pub open spec fn port_of(text: Seq<char>) -> Option<u16> {
    let digits = if text.len() > 0 && text[0] == '+' {
        text.drop_first()
    } else {
        text
    };
    if digits.len() > 0 && all_digits(digits) && digits_value(digits) <= u16::MAX {
        Some(digits_value(digits) as u16)
    } else {
        None
    }
}

/// What a TURN server URI names.
pub enum TurnTarget {
    /// A host and a port.
    Server { host: Seq<char>, port: u16 },
    /// A host and something that is no port.
    InvalidPort,
    /// More than a host and a port.
    Unparsable,
}

/// What a TURN server URI names: after the scheme, a host alone, with the
/// default port, or a host, a colon and a port.
pub open spec fn turn_target_of(uri: Seq<char>) -> TurnTarget {
    let rest = without_scheme(uri);
    let first = find_char(rest, ':', 0);
    if first >= rest.len() {
        TurnTarget::Server { host: rest, port: DEFAULT_TURN_PORT }
    } else if find_char(rest, ':', first + 1) < rest.len() {
        TurnTarget::Unparsable
    } else {
        match port_of(rest.skip(first + 1)) {
            Some(port) => TurnTarget::Server { host: rest.take(first), port },
            None => TurnTarget::InvalidPort,
        }
    }
}

/// The byte of `n` that counts multiples of `unit`, a power of 256.
pub open spec fn byte_at(n: nat, unit: nat) -> u8 {
    ((n / unit) % 256) as u8
}

/// A probe packet: the sequence number in four bytes and the time stamp in
/// eight, both big-endian, and four bytes of zero.
pub open spec fn packet_of(seq: u32, timestamp: u64) -> Seq<u8> {
    seq![
        byte_at(seq as nat, 16_777_216),
        byte_at(seq as nat, 65_536),
        byte_at(seq as nat, 256),
        byte_at(seq as nat, 1),
        byte_at(timestamp as nat, 72_057_594_037_927_936),
        byte_at(timestamp as nat, 281_474_976_710_656),
        byte_at(timestamp as nat, 1_099_511_627_776),
        byte_at(timestamp as nat, 4_294_967_296),
        byte_at(timestamp as nat, 16_777_216),
        byte_at(timestamp as nat, 65_536),
        byte_at(timestamp as nat, 256),
        byte_at(timestamp as nat, 1),
        0u8,
        0u8,
        0u8,
        0u8,
    ]
}

/// The sequence number that a response carries in its first four bytes.
pub open spec fn sequence_of(data: Seq<u8>) -> nat {
    (data[0] as nat) * 16_777_216 + (data[1] as nat) * 65_536 + (data[2] as nat) * 256 + (
    data[3] as nat)
}

/// A response answers the packet with sequence number `expected`: it has
/// at least four bytes and they carry that number.
pub open spec fn answers(data: Seq<u8>, expected: u32) -> bool {
    data.len() >= 4 && sequence_of(data) == expected
}

/// The number that digits write, if they are digits and the number is one
/// that 16 bits hold.
fn small_number(digits: &Vec<char>) -> (r: Option<u16>)
    ensures
        r == (if all_digits(digits@) && digits_value(digits@) <= u16::MAX {
            Some(digits_value(digits@) as u16)
        } else {
            None
        }),
{
    let mut value: u32 = 0;
    let mut i: usize = 0;
    assert(digits@.take(0) =~= Seq::<char>::empty());
    while i < digits.len()
        invariant
            i <= digits.len(),
            forall|k: int| 0 <= k < i ==> is_digit(#[trigger] digits@[k]),
            value == digits_value(digits@.take(i as int)),
            value <= u16::MAX,
        decreases digits.len() - i,
    {
        let c = digits[i];
        if !('0' <= c && c <= '9') {
            assert(!is_digit(digits@[i as int]));
            return None;
        }
        let d = c as u32 - '0' as u32;
        proof {
            assert(digits@.take(i + 1).drop_last() =~= digits@.take(i as int));
            assert(digits@.take(i + 1).last() == c);
            assert(digits_value(digits@.take(i + 1)) == value * 10 + d);
            lemma_digits_value_prefix(digits@, i + 1);
        }
        value = value * 10 + d;
        if value > 65535 {
            return None;
        }
        i += 1;
    }
    assert(digits@.take(digits.len() as int) =~= digits@);
    Some(value as u16)
}

/// The port that a text writes, if it writes one.
fn parse_port(text: &Vec<char>) -> (r: Option<u16>)
    ensures
        r == port_of(text@),
{
    let n = text.len();
    let digits = if n > 0 && text[0] == '+' {
        slice_of(text, 1, n)
    } else {
        slice_of(text, 0, n)
    };
    assert(digits@ =~= (if text@.len() > 0 && text@[0] == '+' {
        text@.drop_first()
    } else {
        text@
    }));
    if digits.len() == 0 {
        return None;
    }
    small_number(&digits)
}

/// A packet loss measurement.
#[derive(Clone, Debug)]
pub struct PacketLossTest {
    config: PacketLossConfig,
}

impl PacketLossTest {
    /// A measurement with the given configuration.
    pub fn new(config: PacketLossConfig) -> (r: Self)
        ensures
            *r.settings() == config,
    {
        PacketLossTest { config }
    }

    /// The configuration of the measurement.
    pub closed spec fn settings(&self) -> &PacketLossConfig {
        &self.config
    }

    /// The configuration of the measurement.
    pub fn config(&self) -> (r: &PacketLossConfig)
        ensures
            r == self.settings(),
    {
        &self.config
    }

    /// The host and port that the TURN server URI names. A URI with
    /// something other than a port after the host, or with more than a host
    /// and a port, is invalid.
    pub fn parse_turn_uri(&self) -> (r: Result<(String, u16), PacketLossError>)
        ensures
            match turn_target_of(self.settings().turn_server_uri@) {
                TurnTarget::Server { host, port } => r matches Ok(pair) && pair.0@ == host
                    && pair.1 == port,
                TurnTarget::InvalidPort => r matches Err(PacketLossError::InvalidUri(m)) && m@
                    == "Invalid port in URI: "@ + self.settings().turn_server_uri@,
                TurnTarget::Unparsable => r matches Err(PacketLossError::InvalidUri(m)) && m@
                    == "Cannot parse TURN URI: "@ + self.settings().turn_server_uri@,
            },
    {
        let uri = chars_of(self.config.turn_server_uri.as_str());
        let n = uri.len();
        let start: usize = if n >= 5 && uri[0] == 't' && uri[1] == 'u' && uri[2] == 'r' && uri[3]
            == 'n' && uri[4] == ':' {
            assert(uri@.take(5) =~= seq!['t', 'u', 'r', 'n', ':']);
            5
        } else if n >= 6 && uri[0] == 't' && uri[1] == 'u' && uri[2] == 'r' && uri[3] == 'n'
            && uri[4] == 's' && uri[5] == ':' {
            assert(uri@.take(6) =~= seq!['t', 'u', 'r', 'n', 's', ':']);
            assert(uri@.take(5)[4] != ':');
            6
        } else if n >= 2 && uri[0] == '/' && uri[1] == '/' {
            assert(uri@.take(2) =~= seq!['/', '/']);
            assert(!has_prefix(uri@, seq!['t', 'u', 'r', 'n', ':'])) by {
                if n >= 5 {
                    assert(uri@.take(5)[0] == '/');
                }
            }
            assert(!has_prefix(uri@, seq!['t', 'u', 'r', 'n', 's', ':'])) by {
                if n >= 6 {
                    assert(uri@.take(6)[0] == '/');
                }
            }
            2
        } else {
            assert(!has_prefix(uri@, seq!['t', 'u', 'r', 'n', ':'])) by {
                if n >= 5 {
                    let t = uri@.take(5);
                    assert(t[0] == uri@[0] && t[1] == uri@[1] && t[2] == uri@[2] && t[3] == uri@[3]
                        && t[4] == uri@[4]);
                }
            }
            assert(!has_prefix(uri@, seq!['t', 'u', 'r', 'n', 's', ':'])) by {
                if n >= 6 {
                    let t = uri@.take(6);
                    assert(t[0] == uri@[0] && t[1] == uri@[1] && t[2] == uri@[2] && t[3] == uri@[3]
                        && t[4] == uri@[4] && t[5] == uri@[5]);
                }
            }
            assert(!has_prefix(uri@, seq!['/', '/'])) by {
                if n >= 2 {
                    let t = uri@.take(2);
                    assert(t[0] == uri@[0] && t[1] == uri@[1]);
                }
            }
            0
        };
        let rest = slice_of(&uri, start, n);
        assert(rest@ =~= without_scheme(uri@));
        let first = find(&rest, ':', 0);
        if first >= rest.len() {
            return Ok((string_of(&rest, 0, rest.len()), DEFAULT_TURN_PORT));
        }
        let second = find(&rest, ':', first + 1);
        if second < rest.len() {
            let mut message = "Cannot parse TURN URI: ".to_owned();
            message.append(self.config.turn_server_uri.as_str());
            return Err(PacketLossError::InvalidUri(message));
        }
        let port_text = slice_of(&rest, first + 1, rest.len());
        assert(port_text@ =~= rest@.skip(first + 1));
        match parse_port(&port_text) {
            Some(port) => {
                let host = string_of(&rest, 0, first);
                assert(rest@.subrange(0, first as int) =~= rest@.take(first as int));
                Ok((host, port))
            },
            None => {
                let mut message = "Invalid port in URI: ".to_owned();
                message.append(self.config.turn_server_uri.as_str());
                Err(PacketLossError::InvalidUri(message))
            },
        }
    }

    /// The probe packet with the given sequence number, stamped with the
    /// time of the call.
    pub fn create_packet(&self, seq: u32) -> (r: Vec<u8>)
        ensures
            exists|timestamp: u64| r@ == packet_of(seq, timestamp),
            r@.len() == PACKET_LEN,
            answers(r@, seq),
    {
        let timestamp = now_micros();
        proof {
            lemma_packet_answers_itself(seq, timestamp, seq);
        }
        self.create_packet_at(seq, timestamp)
    }

    /// The probe packet with the given sequence number, stamped with a
    /// given time in microseconds since the Unix epoch.
    pub fn create_packet_at(&self, seq: u32, timestamp_micros: u64) -> (r: Vec<u8>)
        ensures
            r@ == packet_of(seq, timestamp_micros),
            r@.len() == PACKET_LEN,
    {
        let mut packet: Vec<u8> = Vec::new();
        packet.push(((seq / 16_777_216) % 256) as u8);
        packet.push(((seq / 65_536) % 256) as u8);
        packet.push(((seq / 256) % 256) as u8);
        packet.push((seq % 256) as u8);
        packet.push(((timestamp_micros / 72_057_594_037_927_936) % 256) as u8);
        packet.push(((timestamp_micros / 281_474_976_710_656) % 256) as u8);
        packet.push(((timestamp_micros / 1_099_511_627_776) % 256) as u8);
        packet.push(((timestamp_micros / 4_294_967_296) % 256) as u8);
        packet.push(((timestamp_micros / 16_777_216) % 256) as u8);
        packet.push(((timestamp_micros / 65_536) % 256) as u8);
        packet.push(((timestamp_micros / 256) % 256) as u8);
        packet.push((timestamp_micros % 256) as u8);
        packet.push(0u8);
        packet.push(0u8);
        packet.push(0u8);
        packet.push(0u8);
        assert(packet@ =~= packet_of(seq, timestamp_micros));
        packet
    }

    /// Whether a response answers the packet with sequence number
    /// `expected_seq`.
    pub fn validate_response(&self, data: &Vec<u8>, expected_seq: u32) -> (r: bool)
        ensures
            r == answers(data@, expected_seq),
    {
        if data.len() < 4 {
            return false;
        }
        let seq: u32 = (data[0] as u32) * 16_777_216 + (data[1] as u32) * 65_536 + (data[2] as u32)
            * 256 + (data[3] as u32);
        seq == expected_seq
    }

    /// The number of batches in which the packets are sent.
    pub fn num_batches(&self) -> (r: usize)
        requires
            self.settings().batch_size > 0,
        ensures
            r == (self.settings().num_packets + self.settings().batch_size - 1)
                / (self.settings().batch_size as int),
    {
        let size = self.config.batch_size;
        let whole = self.config.num_packets / size;
        let rest = self.config.num_packets % size;
        assert(self.config.num_packets == whole * size + rest) by (nonlinear_arith)
            requires
                whole == self.config.num_packets / size,
                rest == self.config.num_packets % size,
                size > 0,
        ;
        if rest > 0 {
            assert((whole * size + rest + size - 1) / (size as int) == whole + 1) by (nonlinear_arith)
                requires
                    0 < rest < size,
                    whole >= 0,
            ;
            assert(whole < usize::MAX) by (nonlinear_arith)
                requires
                    whole * size + rest <= usize::MAX,
                    rest > 0,
                    size > 0,
                    whole >= 0,
            ;
            whole + 1
        } else {
            assert((whole * size + size - 1) / (size as int) == whole) by (nonlinear_arith)
                requires
                    0 < size,
                    whole >= 0,
            ;
            whole
        }
    }

    /// The sequence numbers of a batch: from the first, inclusive, to the
    /// last, exclusive. Batches past the last packet are empty.
    pub fn batch_bounds(&self, batch: usize) -> (r: (usize, usize))
        ensures
            r.0 <= r.1 <= self.settings().num_packets,
            r.0 == (if batch * self.settings().batch_size <= self.settings().num_packets {
                batch * self.settings().batch_size
            } else {
                self.settings().num_packets as int
            }),
            r.1 == (if r.0 + self.settings().batch_size <= self.settings().num_packets {
                r.0 + self.settings().batch_size
            } else {
                self.settings().num_packets as int
            }),
    {
        let n = self.config.num_packets;
        let size = self.config.batch_size;
        let start = match batch.checked_mul(size) {
            Some(s) => if s <= n {
                s
            } else {
                n
            },
            None => n,
        };
        let end = if size <= n - start {
            start + size
        } else {
            n
        };
        (start, end)
    }
}

/// A number that 32 bits hold is made up of its four bytes.
proof fn lemma_four_bytes(n: nat)
    requires
        n <= u32::MAX,
    ensures
        n == (byte_at(n, 16_777_216) as nat) * 16_777_216 + (byte_at(n, 65_536) as nat) * 65_536
            + (byte_at(n, 256) as nat) * 256 + (byte_at(n, 1) as nat),
{
    let q1 = n / 256;
    let q2 = q1 / 256;
    let q3 = q2 / 256;
    vstd::arithmetic::div_mod::lemma_div_denominator(n as int, 256, 256);
    vstd::arithmetic::div_mod::lemma_div_denominator(n as int, 65_536, 256);
    assert(n / 65_536 == q2);
    assert(n / 16_777_216 == q3);
    assert(n == 256 * q1 + n % 256);
    assert(q1 == 256 * q2 + q1 % 256);
    assert(q2 == 256 * q3 + q2 % 256);
    assert(q3 < 256);
    assert(n / 1 == n);
}

/// A packet is answered by itself and by no packet with another sequence
/// number.
pub proof fn lemma_packet_answers_itself(seq: u32, timestamp: u64, expected: u32)
    ensures
        answers(packet_of(seq, timestamp), expected) == (seq == expected),
{
    let p = packet_of(seq, timestamp);
    lemma_four_bytes(seq as nat);
    assert(p[0] == byte_at(seq as nat, 16_777_216));
    assert(p[1] == byte_at(seq as nat, 65_536));
    assert(p[2] == byte_at(seq as nat, 256));
    assert(p[3] == byte_at(seq as nat, 1));
    assert(sequence_of(p) == seq);
}

} // verus!
