//! Labels of the human-readable report.

use crate::fixed::{two_decimals, write_two_decimals, Fixed};
use crate::results::{
    BandwidthResults, ConnectionMeta, LatencyResults, PacketLossResults, ServerLocation,
    SizeMeasurement,
};
use crate::scoring::{AimScores, QualityScore};
use crate::text::{decimal_digits, push_decimal};
use vstd::prelude::*;

verus! {

/// The label of a payload size: in whole GB, MB or kB (powers of 1000,
/// rounded down) from one such unit on, else in bytes.
pub open spec fn size_label_of(bytes: nat) -> Seq<char> {
    if bytes >= 1_000_000_000 {
        decimal_digits(bytes / 1_000_000_000) + "GB"@
    } else if bytes >= 1_000_000 {
        decimal_digits(bytes / 1_000_000) + "MB"@
    } else if bytes >= 1_000 {
        decimal_digits(bytes / 1_000) + "kB"@
    } else {
        decimal_digits(bytes) + "B"@
    }
}

/// The label of a payload size for the report.
pub fn format_size_label(bytes: u64) -> (r: String)
    ensures
        r@ == size_label_of(bytes as nat),
{
    let mut out = String::new();
    if bytes >= 1_000_000_000 {
        push_decimal(&mut out, bytes / 1_000_000_000);
        out.append("GB");
    } else if bytes >= 1_000_000 {
        push_decimal(&mut out, bytes / 1_000_000);
        out.append("MB");
    } else if bytes >= 1_000 {
        push_decimal(&mut out, bytes / 1_000);
        out.append("kB");
    } else {
        push_decimal(&mut out, bytes);
        out.append("B");
    }
    assert(out@ =~= size_label_of(bytes as nat));
    out
}

/// What a line of the report says, which decides how it is set off.
#[derive(Clone, Copy, Debug, PartialEq, Eq, Structural)]
pub enum LineKind {
    /// A latency or a jitter.
    Latency,
    /// The speed of one data block.
    BlockSpeed,
    /// The speed of a direction.
    Speed,
    /// The packet loss.
    PacketLoss,
    /// The heading of the quality scores.
    Heading,
    /// A quality score.
    Score(QualityScore),
    /// An empty line.
    Blank,
    /// What is known of the server or of the connection.
    Metadata,
}

/// A line of the report: a label and a value.
#[derive(Clone, Debug, PartialEq, Eq)]
pub struct ReportLine {
    /// The label, with the tabs that align the values.
    pub label: String,
    /// The value.
    pub value: String,
    /// What the line says.
    pub kind: LineKind,
}

/// A line of the report, as values.
pub struct LineView {
    pub label: Seq<char>,
    pub value: Seq<char>,
    pub kind: LineKind,
}

/// A line of the report, as values.
pub open spec fn line_view(line: ReportLine) -> LineView {
    LineView { label: line.label@, value: line.value@, kind: line.kind }
}

/// Lines of the report, as values.
pub open spec fn line_views(lines: Seq<ReportLine>) -> Seq<LineView> {
    lines.map_values(|l: ReportLine| line_view(l))
}

/// An empty line.
pub open spec fn blank_line() -> LineView {
    LineView { label: Seq::empty(), value: Seq::empty(), kind: LineKind::Blank }
}

/// A number of milliseconds as the report writes it.
pub open spec fn millis_text(ms: Fixed) -> Seq<char> {
    two_decimals(ms) + " ms"@
}

/// A speed as the report writes it.
pub open spec fn speed_text(mbps: Fixed) -> Seq<char> {
    two_decimals(mbps) + " Mbps"@
}

/// The line of an optional latency, if it is there.
pub open spec fn optional_latency_line(label: Seq<char>, ms: Option<Fixed>) -> Seq<LineView> {
    match ms {
        Some(v) => seq![LineView { label, value: millis_text(v), kind: LineKind::Latency }],
        None => Seq::empty(),
    }
}

/// The lines of the latency section.
pub open spec fn latency_lines(latency: LatencyResults) -> Seq<LineView> {
    seq![
        LineView {
            label: "Latency:\t"@,
            value: millis_text(latency.idle_ms),
            kind: LineKind::Latency,
        },
        LineView {
            label: "Jitter:\t\t"@,
            value: match latency.idle_jitter_ms {
                Some(j) => millis_text(j),
                None => "N/A"@,
            },
            kind: LineKind::Latency,
        },
    ] + optional_latency_line("Loaded (down):\t"@, latency.loaded_down_ms) + optional_latency_line(
        "Loaded (up):\t"@,
        latency.loaded_up_ms,
    )
}

/// The line of one data block.
pub open spec fn block_line(m: SizeMeasurement, suffix: Seq<char>) -> LineView {
    LineView {
        label: size_label_of(m.bytes as nat) + suffix,
        value: speed_text(m.speed_mbps),
        kind: LineKind::BlockSpeed,
    }
}

/// The lines of the data blocks of a direction, in order.
pub open spec fn block_lines(ms: Seq<SizeMeasurement>, suffix: Seq<char>) -> Seq<LineView> {
    ms.map_values(|m: SizeMeasurement| block_line(m, suffix))
}

/// The name of a quality score in the report.
pub open spec fn score_text(score: QualityScore) -> Seq<char> {
    match score {
        QualityScore::Great => "Great"@,
        QualityScore::Good => "Good"@,
        QualityScore::Average => "Average"@,
        QualityScore::Poor => "Poor"@,
    }
}

/// The line of a quality score.
pub open spec fn score_line(label: Seq<char>, score: QualityScore) -> LineView {
    LineView { label, value: score_text(score), kind: LineKind::Score(score) }
}

/// The lines of the packet loss section: none where packet loss was not
/// measured.
pub open spec fn packet_loss_lines(packet_loss: Option<PacketLossResults>) -> Seq<LineView> {
    match packet_loss {
        Some(p) => seq![
            LineView {
                label: "Packet loss:\t"@,
                value: two_decimals(p.percent) + "%"@,
                kind: LineKind::PacketLoss,
            },
            blank_line(),
        ],
        None => Seq::empty(),
    }
}

/// The lines of a direction: the speed of each data block, the speed of
/// the direction, and an empty line.
pub open spec fn direction_lines(
    results: &BandwidthResults,
    suffix: Seq<char>,
    label: Seq<char>,
) -> Seq<LineView> {
    block_lines(results.measurements@, suffix) + seq![
        LineView { label, value: speed_text(results.speed_mbps), kind: LineKind::Speed },
        blank_line(),
    ]
}

/// The lines of the quality scores.
pub open spec fn score_lines(scores: AimScores) -> Seq<LineView> {
    seq![
        LineView { label: "Quality Scores:"@, value: Seq::empty(), kind: LineKind::Heading },
        score_line("  Streaming:\t"@, scores.streaming),
        score_line("  Gaming:\t\t"@, scores.gaming),
        score_line("  Video Calls:\t"@, scores.video_conferencing),
    ]
}

/// The report: latency and jitter, loaded latencies where measured; the
/// speed of each download block and of downloads; the same for uploads;
/// the packet loss where measured; the quality scores.
pub open spec fn report_of(
    latency: LatencyResults,
    download: &BandwidthResults,
    upload: &BandwidthResults,
    packet_loss: Option<PacketLossResults>,
    scores: AimScores,
) -> Seq<LineView> {
    latency_lines(latency) + seq![blank_line()] + direction_lines(
        download,
        " speed:\t"@,
        "Download speed:\t"@,
    ) + direction_lines(upload, " up:\t"@, "Upload speed:\t"@) + packet_loss_lines(packet_loss)
        + score_lines(scores)
}

/// A line with the given label and value.
fn line(label: &str, value: String, kind: LineKind) -> (r: ReportLine)
    ensures
        line_view(r) == (LineView { label: label@, value: value@, kind }),
{
    ReportLine { label: label.to_owned(), value, kind }
}

/// An empty line.
fn blank() -> (r: ReportLine)
    ensures
        line_view(r) == blank_line(),
{
    ReportLine { label: String::new(), value: String::new(), kind: LineKind::Blank }
}

/// A number of milliseconds as the report writes it.
fn millis(ms: Fixed) -> (r: String)
    ensures
        r@ == millis_text(ms),
{
    let mut out = write_two_decimals(ms);
    out.append(" ms");
    out
}

/// A speed as the report writes it.
fn speed(mbps: Fixed) -> (r: String)
    ensures
        r@ == speed_text(mbps),
{
    let mut out = write_two_decimals(mbps);
    out.append(" Mbps");
    out
}

/// The name of a quality score in the report.
pub fn quality_score_name(score: &QualityScore) -> (r: &'static str)
    ensures
        r@ == score_text(*score),
{
    match score {
        QualityScore::Great => "Great",
        QualityScore::Good => "Good",
        QualityScore::Average => "Average",
        QualityScore::Poor => "Poor",
    }
}

/// Appends a line to the report.
fn put(lines: &mut Vec<ReportLine>, new: ReportLine)
    ensures
        line_views(final(lines)@) == line_views(old(lines)@).push(line_view(new)),
{
    lines.push(new);
    assert(line_views(lines@) =~= line_views(old(lines)@).push(line_view(new)));
}

/// Appends the lines of the data blocks of a direction.
fn put_blocks(lines: &mut Vec<ReportLine>, blocks: &Vec<SizeMeasurement>, suffix: &str)
    ensures
        line_views(final(lines)@) == line_views(old(lines)@) + block_lines(blocks@, suffix@),
{
    let mut i: usize = 0;
    assert(line_views(lines@) =~= line_views(old(lines)@) + block_lines(blocks@.take(0), suffix@));
    while i < blocks.len()
        invariant
            i <= blocks.len(),
            line_views(lines@) == line_views(old(lines)@) + block_lines(
                blocks@.take(i as int),
                suffix@,
            ),
        decreases blocks.len() - i,
    {
        let m = blocks[i];
        let mut label = format_size_label(m.bytes);
        label.append(suffix);
        let new = ReportLine { label, value: speed(m.speed_mbps), kind: LineKind::BlockSpeed };
        assert(line_view(new) == block_line(m, suffix@));
        put(lines, new);
        assert(block_lines(blocks@.take(i + 1), suffix@) =~= block_lines(
            blocks@.take(i as int),
            suffix@,
        ).push(block_line(m, suffix@)));
        assert(line_views(lines@) =~= line_views(old(lines)@) + block_lines(
            blocks@.take(i + 1),
            suffix@,
        ));
        i += 1;
    }
    assert(blocks@.take(blocks.len() as int) =~= blocks@);
}

/// Appends the lines of the latency section and an empty line.
fn put_latency(lines: &mut Vec<ReportLine>, latency: &LatencyResults)
    ensures
        line_views(final(lines)@) == line_views(old(lines)@) + (latency_lines(*latency)
            + seq![blank_line()]),
{
    put(lines, line("Latency:\t", millis(latency.idle_ms), LineKind::Latency));
    let jitter = match latency.idle_jitter_ms {
        Some(j) => millis(j),
        None => "N/A".to_owned(),
    };
    put(lines, line("Jitter:\t\t", jitter, LineKind::Latency));
    match latency.loaded_down_ms {
        Some(v) => {
            put(lines, line("Loaded (down):\t", millis(v), LineKind::Latency));
        },
        None => {},
    }
    match latency.loaded_up_ms {
        Some(v) => {
            put(lines, line("Loaded (up):\t", millis(v), LineKind::Latency));
        },
        None => {},
    }
    assert(line_views(lines@) =~= line_views(old(lines)@) + latency_lines(*latency));
    put(lines, blank());
    assert(line_views(lines@) =~= line_views(old(lines)@) + (latency_lines(*latency)
        + seq![blank_line()]));
}

/// Appends the lines of a direction.
fn put_direction(lines: &mut Vec<ReportLine>, results: &BandwidthResults, suffix: &str, label: &str)
    ensures
        line_views(final(lines)@) == line_views(old(lines)@) + direction_lines(
            results,
            suffix@,
            label@,
        ),
{
    put_blocks(lines, &results.measurements, suffix);
    put(lines, line(label, speed(results.speed_mbps), LineKind::Speed));
    put(lines, blank());
    assert(line_views(lines@) =~= line_views(old(lines)@) + direction_lines(
        results,
        suffix@,
        label@,
    ));
}

/// Appends the lines of the packet loss section.
fn put_packet_loss(lines: &mut Vec<ReportLine>, packet_loss: &Option<PacketLossResults>)
    ensures
        line_views(final(lines)@) == line_views(old(lines)@) + packet_loss_lines(*packet_loss),
{
    match packet_loss {
        Some(p) => {
            let mut percent = write_two_decimals(p.percent);
            percent.append("%");
            put(lines, line("Packet loss:\t", percent, LineKind::PacketLoss));
            put(lines, blank());
        },
        None => {},
    }
    assert(line_views(lines@) =~= line_views(old(lines)@) + packet_loss_lines(*packet_loss));
}

/// Appends the lines of the quality scores.
fn put_scores(lines: &mut Vec<ReportLine>, scores: &AimScores)
    ensures
        line_views(final(lines)@) == line_views(old(lines)@) + score_lines(*scores),
{
    put(lines, line("Quality Scores:", String::new(), LineKind::Heading));
    put(
        lines,
        line(
            "  Streaming:\t",
            quality_score_name(&scores.streaming).to_owned(),
            LineKind::Score(scores.streaming),
        ),
    );
    put(
        lines,
        line(
            "  Gaming:\t\t",
            quality_score_name(&scores.gaming).to_owned(),
            LineKind::Score(scores.gaming),
        ),
    );
    put(
        lines,
        line(
            "  Video Calls:\t",
            quality_score_name(&scores.video_conferencing).to_owned(),
            LineKind::Score(scores.video_conferencing),
        ),
    );
    assert(line_views(lines@) =~= line_views(old(lines)@) + score_lines(*scores));
}

/// The lines of the human-readable report, in order. The caller prints
/// each line: the label, a space and the value, set off by the kind of the
/// line.
pub fn human_report(
    latency: &LatencyResults,
    download: &BandwidthResults,
    upload: &BandwidthResults,
    packet_loss: &Option<PacketLossResults>,
    aim_scores: &AimScores,
) -> (r: Vec<ReportLine>)
    ensures
        line_views(r@) == report_of(*latency, download, upload, *packet_loss, *aim_scores),
{
    let mut lines: Vec<ReportLine> = Vec::new();
    assert(line_views(lines@) =~= Seq::<LineView>::empty());
    put_latency(&mut lines, latency);
    let ghost a = line_views(lines@);
    assert(a =~= latency_lines(*latency) + seq![blank_line()]);
    put_direction(&mut lines, download, " speed:\t", "Download speed:\t");
    let ghost b = line_views(lines@);
    put_direction(&mut lines, upload, " up:\t", "Upload speed:\t");
    let ghost c = line_views(lines@);
    put_packet_loss(&mut lines, packet_loss);
    let ghost d = line_views(lines@);
    put_scores(&mut lines, aim_scores);
    lines
}

/// A whole number in decimal, with a minus sign if it is below zero.
pub open spec fn signed_digits(n: int) -> Seq<char> {
    if n < 0 {
        seq!['-'] + decimal_digits((-n) as nat)
    } else {
        decimal_digits(n as nat)
    }
}

/// A text followed by a note in parentheses.
pub open spec fn with_note(text: Seq<char>, note: Seq<char>) -> Seq<char> {
    text + " ("@ + note + ")"@
}

/// The lines that say what is known of the server and of the connection:
/// the city of the server with its airport code, the network with its
/// number, and the address with its country.
pub open spec fn metadata_lines(server: ServerLocation, connection: ConnectionMeta) -> Seq<
    LineView,
> {
    seq![
        LineView {
            label: "Server Location:"@,
            value: with_note(server.city@, server.iata@),
            kind: LineKind::Metadata,
        },
        LineView {
            label: "Your network:\t"@,
            value: with_note(connection.isp@, "AS"@ + signed_digits(connection.asn as int)),
            kind: LineKind::Metadata,
        },
        LineView {
            label: "Your IP:\t"@,
            value: with_note(connection.ip@, connection.country@),
            kind: LineKind::Metadata,
        },
    ]
}

/// Writes a text followed by a note in parentheses.
fn noted(text: &str, note: &str) -> (r: String)
    ensures
        r@ == with_note(text@, note@),
{
    let mut out = text.to_owned();
    out.append(" (");
    out.append(note);
    out.append(")");
    out
}

/// Writes the number of a network: `AS` and the number.
fn network_number(asn: i64) -> (r: String)
    ensures
        r@ == "AS"@ + signed_digits(asn as int),
{
    let mut out = "AS".to_owned();
    if asn < 0 {
        out.push('-');
        push_decimal(&mut out, (-(asn as i128)) as u64);
        assert(out@ =~= "AS"@ + signed_digits(asn as int));
    } else {
        push_decimal(&mut out, asn as u64);
    }
    out
}

/// The lines that say what is known of the server and of the connection,
/// in order. The caller prints each line as those of the report.
pub fn metadata_report(server: &ServerLocation, connection: &ConnectionMeta) -> (r: Vec<
    ReportLine,
>)
    ensures
        line_views(r@) == metadata_lines(*server, *connection),
{
    let mut lines: Vec<ReportLine> = Vec::new();
    put(
        &mut lines,
        line(
            "Server Location:",
            noted(server.city.as_str(), server.iata.as_str()),
            LineKind::Metadata,
        ),
    );
    put(
        &mut lines,
        line(
            "Your network:\t",
            noted(connection.isp.as_str(), network_number(connection.asn).as_str()),
            LineKind::Metadata,
        ),
    );
    put(
        &mut lines,
        line(
            "Your IP:\t",
            noted(connection.ip.as_str(), connection.country.as_str()),
            LineKind::Metadata,
        ),
    );
    assert(line_views(lines@) =~= metadata_lines(*server, *connection));
    lines
}

} // verus!
