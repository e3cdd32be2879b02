//! Fixed-point numbers with six fractional decimal digits.

use crate::text::{decimal_digits, digit_char, push_decimal};
use vstd::prelude::*;

verus! {

/// Number of millionths in one whole unit.
pub const SCALE: i64 = 1_000_000;

/// A fixed-point number: `millionths / 1_000_000` of whatever unit the
/// holder names (ms, bps, Mbps, a ratio). One millionth of a millisecond is
/// a nanosecond; one millionth of a Mbps is a bit per second.
#[derive(Clone, Copy, Debug, PartialEq, Eq, PartialOrd, Ord, Hash, Structural)]
pub struct Fixed {
    pub millionths: i64,
}

/// The fixed-point number nearest to `x` millionths: `x` itself where it
/// fits, else the largest or the smallest number there is.
pub open spec fn saturated(x: int) -> Fixed {
    Fixed {
        millionths: if x > i64::MAX {
            i64::MAX
        } else if x < i64::MIN {
            i64::MIN
        } else {
            x as i64
        },
    }
}

impl Fixed {
    /// The number `millionths / 1_000_000`.
    pub fn from_millionths(millionths: i64) -> (r: Fixed)
        ensures
            r.millionths == millionths,
    {
        Fixed { millionths }
    }

    /// Zero.
    pub fn zero() -> (r: Fixed)
        ensures
            r.millionths == 0,
    {
        Fixed { millionths: 0 }
    }

    /// `x` millionths, or the largest number where `x` does not fit.
    pub fn saturating_from_u128(x: u128) -> (r: Fixed)
        ensures
            r == saturated(x as int),
    {
        if x > i64::MAX as u128 {
            Fixed { millionths: i64::MAX }
        } else {
            Fixed { millionths: x as i64 }
        }
    }

    /// The number in whole units, rounded toward negative infinity.
    pub fn floor_units(self) -> (r: i64)
        ensures
            r == self.millionths / SCALE,
    {
        let q = self.millionths / SCALE;
        if self.millionths % SCALE < 0 {
            q - 1
        } else {
            q
        }
    }
}

/// The hundredths in the size of a number, rounded to the nearest
/// hundredth, halves to the even hundredth.
pub open spec fn hundredths_of(value: Fixed) -> nat {
    let size = if value.millionths < 0 {
        -value.millionths
    } else {
        value.millionths as int
    };
    let whole = size / 10_000;
    let rest = size % 10_000;
    if rest > 5_000 || (rest == 5_000 && whole % 2 == 1) {
        (whole + 1) as nat
    } else {
        whole as nat
    }
}

/// A number written with two decimal places, with a minus sign if it is
/// below zero.
pub open spec fn two_decimals(value: Fixed) -> Seq<char> {
    let h = hundredths_of(value);
    (if value.millionths < 0 {
        seq!['-']
    } else {
        Seq::<char>::empty()
    }) + decimal_digits(h / 100) + seq!['.', digit_char((h / 10) % 10), digit_char(h % 10)]
}

/// Writes a number with two decimal places.
pub fn write_two_decimals(value: Fixed) -> (r: String)
    ensures
        r@ == two_decimals(value),
{
    let negative = value.millionths < 0;
    let size: u64 = if negative {
        (-(value.millionths as i128)) as u64
    } else {
        value.millionths as u64
    };
    let whole = size / 10_000;
    let rest = size % 10_000;
    let h = if rest > 5_000 || (rest == 5_000 && whole % 2 == 1) {
        whole + 1
    } else {
        whole
    };
    assert(h == hundredths_of(value));
    let mut out = String::new();
    if negative {
        out.push('-');
    }
    push_decimal(&mut out, h / 100);
    out.push('.');
    let tens = ((h / 10) % 10) as u8;
    let ones = (h % 10) as u8;
    out.push((48u8 + tens) as char);
    out.push((48u8 + ones) as char);
    assert(out@ =~= two_decimals(value));
    out
}

/// The tenths in the size of a number, rounded to the nearest tenth,
/// halves to the even tenth.
pub open spec fn tenths_in(value: Fixed) -> nat {
    let size = if value.millionths < 0 {
        -value.millionths
    } else {
        value.millionths as int
    };
    let whole = size / 100_000;
    let rest = size % 100_000;
    if rest > 50_000 || (rest == 50_000 && whole % 2 == 1) {
        (whole + 1) as nat
    } else {
        whole as nat
    }
}

/// A number written with one decimal place, with a minus sign if it is
/// below zero.
pub open spec fn one_decimal(value: Fixed) -> Seq<char> {
    let t = tenths_in(value);
    (if value.millionths < 0 {
        seq!['-']
    } else {
        Seq::<char>::empty()
    }) + decimal_digits(t / 10) + seq!['.', digit_char(t % 10)]
}

/// Writes a number with one decimal place.
pub fn write_one_decimal(value: Fixed) -> (r: String)
    ensures
        r@ == one_decimal(value),
{
    let negative = value.millionths < 0;
    let size: u64 = if negative {
        (-(value.millionths as i128)) as u64
    } else {
        value.millionths as u64
    };
    let whole = size / 100_000;
    let rest = size % 100_000;
    let t = if rest > 50_000 || (rest == 50_000 && whole % 2 == 1) {
        whole + 1
    } else {
        whole
    };
    assert(t == tenths_in(value));
    let mut out = String::new();
    if negative {
        out.push('-');
    }
    push_decimal(&mut out, t / 10);
    out.push('.');
    let ones = (t % 10) as u8;
    out.push((48u8 + ones) as char);
    assert(out@ =~= one_decimal(value));
    out
}

} // verus!
