//! Values as they are shown on the terminal.

use crate::fixed::{two_decimals, write_two_decimals, Fixed};
use crate::text::{decimal_digits, push_decimal};
use crate::tui::progress::TestPhase;
use crate::tui::state::{QualityRating, SpeedSample};
use vstd::prelude::*;

verus! {

/// A colour in which a value is shown.
#[derive(Clone, Copy, Debug, PartialEq, Eq, Structural)]
pub enum Color {
    Green,
    LightGreen,
    Yellow,
    Red,
}

/// The colour of a value for which less is better: green up to `good`,
/// yellow up to `fair`, else red.
pub open spec fn color_up_to(value: Fixed, good: int, fair: int) -> Color {
    if value.millionths <= good {
        Color::Green
    } else if value.millionths <= fair {
        Color::Yellow
    } else {
        Color::Red
    }
}

/// The colour of a speed: green from 100 Mbps on, yellow from 25 Mbps on,
/// else red.
pub fn speed_color(speed_mbps: Fixed) -> (r: Color)
    ensures
        r == (if speed_mbps.millionths >= 100_000_000 {
            Color::Green
        } else if speed_mbps.millionths >= 25_000_000 {
            Color::Yellow
        } else {
            Color::Red
        }),
{
    if speed_mbps.millionths >= 100_000_000 {
        Color::Green
    } else if speed_mbps.millionths >= 25_000_000 {
        Color::Yellow
    } else {
        Color::Red
    }
}

/// The colour of a quality rating.
pub fn quality_color(rating: &QualityRating) -> (r: Color)
    ensures
        r == (match *rating {
            QualityRating::Great => Color::Green,
            QualityRating::Good => Color::LightGreen,
            QualityRating::Average => Color::Yellow,
            QualityRating::Poor => Color::Red,
        }),
{
    match rating {
        QualityRating::Great => Color::Green,
        QualityRating::Good => Color::LightGreen,
        QualityRating::Average => Color::Yellow,
        QualityRating::Poor => Color::Red,
    }
}

/// The colour of a latency: green up to 30 ms, yellow up to 100 ms, else
/// red.
pub fn latency_color(latency_ms: Fixed) -> (r: Color)
    ensures
        r == color_up_to(latency_ms, 30_000_000, 100_000_000),
{
    if latency_ms.millionths <= 30_000_000 {
        Color::Green
    } else if latency_ms.millionths <= 100_000_000 {
        Color::Yellow
    } else {
        Color::Red
    }
}

/// The colour of a jitter: green up to 10 ms, yellow up to 30 ms, else
/// red.
pub fn jitter_color(jitter_ms: Fixed) -> (r: Color)
    ensures
        r == color_up_to(jitter_ms, 10_000_000, 30_000_000),
{
    if jitter_ms.millionths <= 10_000_000 {
        Color::Green
    } else if jitter_ms.millionths <= 30_000_000 {
        Color::Yellow
    } else {
        Color::Red
    }
}

/// The highest speed of a history, in millionths of a Mbps; zero where
/// none is above zero.
pub open spec fn peak_of(history: Seq<SpeedSample>) -> int
    decreases history.len(),
{
    if history.len() == 0 {
        0
    } else {
        let rest = peak_of(history.drop_last());
        if history.last().speed_mbps.millionths > rest {
            history.last().speed_mbps.millionths as int
        } else {
            rest
        }
    }
}

/// The height of the bar of a speed in a graph whose highest speed is
/// `peak`: the speed in whole percent of the peak, rounded down; zero for
/// a speed below zero and where the peak is zero.
pub open spec fn bar_of(speed: Fixed, peak: int) -> int {
    if peak > 0 && speed.millionths > 0 {
        (speed.millionths * 100) / peak
    } else {
        0
    }
}

/// The highest speed of a history.
fn peak(history: &Vec<SpeedSample>) -> (r: i64)
    ensures
        r == peak_of(history@),
        r >= 0,
        forall|i: int| 0 <= i < history@.len() ==> history@[i].speed_mbps.millionths <= r,
{
    let mut best: i64 = 0;
    let mut i: usize = 0;
    while i < history.len()
        invariant
            i <= history.len(),
            best == peak_of(history@.take(i as int)),
            best >= 0,
            forall|k: int| 0 <= k < i ==> history@[k].speed_mbps.millionths <= best,
        decreases history.len() - i,
    {
        assert(history@.take(i + 1).drop_last() =~= history@.take(i as int));
        if history[i].speed_mbps.millionths > best {
            best = history[i].speed_mbps.millionths;
        }
        i += 1;
    }
    assert(history@.take(history.len() as int) =~= history@);
    best
}

/// The bars of the graph of a history: each speed in whole percent of the
/// highest.
pub fn graph_data(history: &Vec<SpeedSample>) -> (r: Vec<u64>)
    ensures
        r@.len() == history@.len(),
        forall|i: int|
            0 <= i < r@.len() ==> r@[i] == bar_of(history@[i].speed_mbps, peak_of(history@)),
        forall|i: int| 0 <= i < r@.len() ==> r@[i] <= 100,
{
    let top = peak(history);
    let mut bars: Vec<u64> = Vec::new();
    let mut i: usize = 0;
    while i < history.len()
        invariant
            i <= history.len(),
            bars@.len() == i,
            top == peak_of(history@),
            top >= 0,
            forall|k: int| 0 <= k < history@.len() ==> history@[k].speed_mbps.millionths <= top,
            forall|k: int|
                0 <= k < i ==> bars@[k] == bar_of(history@[k].speed_mbps, top as int) && bars@[k]
                    <= 100,
        decreases history.len() - i,
    {
        let speed = history[i].speed_mbps.millionths;
        let bar: u64 = if top > 0 && speed > 0 {
            assert(0 <= (speed * 100) / (top as int) <= 100) by (nonlinear_arith)
                requires
                    0 < speed <= top,
            ;
            ((speed as i128 * 100) / (top as i128)) as u64
        } else {
            0
        };
        bars.push(bar);
        i += 1;
    }
    bars
}

/// Terminal width in columns below which the minimal layout is used.
pub const MINIMAL_MODE_THRESHOLD: u16 = 60;

/// Whether the minimal layout is to be used for a terminal of the given
/// width.
pub fn is_minimal_mode(width: u16) -> (r: bool)
    ensures
        r == (width < MINIMAL_MODE_THRESHOLD),
{
    width < MINIMAL_MODE_THRESHOLD
}

/// Bytes in a kibibyte.
pub const KB: u64 = 1024;

/// Bytes in a mebibyte.
pub const MB: u64 = 1_048_576;

/// Bytes in a gibibyte.
pub const GB: u64 = 1_073_741_824;

/// The tenths of `unit` in `bytes`, rounded to the nearest tenth, halves
/// to the even tenth.
pub open spec fn tenths_of(bytes: nat, unit: nat) -> nat {
    let whole = (bytes * 10) / unit;
    let rest = (bytes * 10) % unit;
    if 2 * rest > unit || (2 * rest == unit && whole % 2 == 1) {
        whole + 1
    } else {
        whole
    }
}

/// A number of tenths written with one decimal place, followed by a unit.
pub open spec fn one_decimal(tenths: nat, unit: Seq<char>) -> Seq<char> {
    decimal_digits(tenths / 10) + seq!['.'] + decimal_digits(tenths % 10) + unit
}

/// The label of a size in bytes: in GB, MB or KB (powers of 1024) with one
/// decimal place from one such unit on, else in bytes.
pub open spec fn size_label_of(bytes: nat) -> Seq<char> {
    if bytes >= GB {
        one_decimal(tenths_of(bytes, GB as nat), "GB"@)
    } else if bytes >= MB {
        one_decimal(tenths_of(bytes, MB as nat), "MB"@)
    } else if bytes >= KB {
        one_decimal(tenths_of(bytes, KB as nat), "KB"@)
    } else {
        decimal_digits(bytes) + "B"@
    }
}

/// The tenths of `unit` in `bytes`, rounded to the nearest tenth, halves
/// to the even tenth.
fn tenths(bytes: u64, unit: u64) -> (r: u64)
    requires
        unit >= 1024,
    ensures
        r == tenths_of(bytes as nat, unit as nat),
{
    let scaled: u128 = bytes as u128 * 10;
    let whole: u128 = scaled / unit as u128;
    let rest: u128 = scaled % unit as u128;
    assert(whole <= scaled);
    assert(whole < u64::MAX) by {
        assert(scaled <= 10 * 0xFFFF_FFFF_FFFF_FFFF);
        assert(whole * 1024 <= whole * unit) by (nonlinear_arith)
            requires
                unit >= 1024,
                whole >= 0,
        ;
        assert(whole * unit <= scaled) by (nonlinear_arith)
            requires
                whole == scaled / unit as u128,
                unit > 0,
                scaled >= 0,
        ;
    }
    if 2 * rest > unit as u128 || (2 * rest == unit as u128 && whole % 2 == 1) {
        (whole + 1) as u64
    } else {
        whole as u64
    }
}

/// Writes a number of tenths with one decimal place, followed by a unit.
fn write_tenths(tenths: u64, unit: &str) -> (r: String)
    ensures
        r@ == one_decimal(tenths as nat, unit@),
{
    let mut out = String::new();
    push_decimal(&mut out, tenths / 10);
    out.push('.');
    push_decimal(&mut out, tenths % 10);
    out.append(unit);
    assert(out@ =~= one_decimal(tenths as nat, unit@));
    out
}

/// The label of a size in bytes for display.
pub fn format_size_label(bytes: u64) -> (r: String)
    ensures
        r@ == size_label_of(bytes as nat),
{
    if bytes >= GB {
        write_tenths(tenths(bytes, GB), "GB")
    } else if bytes >= MB {
        write_tenths(tenths(bytes, MB), "MB")
    } else if bytes >= KB {
        write_tenths(tenths(bytes, KB), "KB")
    } else {
        let mut out = String::new();
        push_decimal(&mut out, bytes);
        out.append("B");
        assert(out@ =~= decimal_digits(bytes as nat) + "B"@);
        out
    }
}

/// A speed with two decimal places: `<speed> Mbps`.
pub fn format_speed(speed_mbps: Fixed) -> (r: String)
    ensures
        r@ == two_decimals(speed_mbps) + " Mbps"@,
{
    let mut out = write_two_decimals(speed_mbps);
    out.append(" Mbps");
    out
}

/// A latency with two decimal places: `<latency> ms`.
pub fn format_latency(latency_ms: Fixed) -> (r: String)
    ensures
        r@ == two_decimals(latency_ms) + " ms"@,
{
    let mut out = write_two_decimals(latency_ms);
    out.append(" ms");
    out
}

/// The share of `total` that `current` is, in whole percent, rounded
/// down; zero where the total is zero.
pub fn progress_percent(current: usize, total: usize) -> (r: u128)
    ensures
        r == (if total == 0 {
            0
        } else {
            (current * 100) / (total as int)
        }),
{
    if total == 0 {
        0
    } else {
        (current as u128 * 100) / (total as u128)
    }
}

/// The line of the status bar: how to leave while the display waits, else
/// what the phase is doing.
pub fn status_text(phase: TestPhase, waiting_for_exit: bool) -> (r: &'static str)
    ensures
        r@ == (if waiting_for_exit {
            "Press 'r' to retest • 'q' or Esc to exit"@
        } else {
            match phase {
                TestPhase::Initializing => "Connecting to Cloudflare..."@,
                TestPhase::Latency => "Measuring latency..."@,
                TestPhase::Download => "Testing download speed..."@,
                TestPhase::Upload => "Testing upload speed..."@,
                TestPhase::Complete => "Speed test complete"@,
            }
        }),
{
    if waiting_for_exit {
        "Press 'r' to retest • 'q' or Esc to exit"
    } else {
        match phase {
            TestPhase::Initializing => "Connecting to Cloudflare...",
            TestPhase::Latency => "Measuring latency...",
            TestPhase::Download => "Testing download speed...",
            TestPhase::Upload => "Testing upload speed...",
            TestPhase::Complete => "Speed test complete",
        }
    }
}

} // verus!
