//! The `server-timing` response header: `cfRequestDuration;dur=<ms>[;...]`.
//!
//! The header is a list of segments separated by `;`. The first segment
//! that, trimmed, begins with `dur=` decides: what follows the key is the
//! server's processing time as a decimal number of milliseconds, and where
//! it is no such number, or one below zero, the header gives no time,
//! whatever later segments say. The number is an optional sign, digits with
//! at most one point among them, and optionally an exponent: `e` or `E`, an
//! optional sign and digits. It is taken down to the nanosecond; what lies
//! beyond that is dropped.

use crate::text::{
    all_digits, chars_of, digit_value, digits_value, find, find_char, is_digit,
    lemma_digits_value_prefix, lemma_find_char, slice_of, trim_range, trimmed,
};
use crate::time::duration_nanos;
use std::time::Duration;
use vstd::prelude::*;

verus! {

/// Ten to the power `n`.
pub open spec fn pow10(n: nat) -> nat
    decreases n,
{
    if n == 0 {
        1
    } else {
        10 * pow10((n - 1) as nat)
    }
}

/// Every character of `s` is the digit zero.
pub open spec fn all_zeros(s: Seq<char>) -> bool {
    forall|i: int| 0 <= i < s.len() ==> #[trigger] s[i] == '0'
}

/// The text carries a sign.
pub open spec fn is_signed(t: Seq<char>) -> bool {
    t.len() > 0 && (t[0] == '-' || t[0] == '+')
}

/// The text without its sign.
pub open spec fn unsigned_part(t: Seq<char>) -> Seq<char> {
    if is_signed(t) {
        t.drop_first()
    } else {
        t
    }
}

/// The first index at or after `from` at which `s` holds the mark of an
/// exponent, `e` or `E`, or `s.len()` if there is none.
pub open spec fn find_exponent(s: Seq<char>, from: int) -> int
    decreases s.len() - from,
{
    if from >= s.len() {
        s.len() as int
    } else if s[from] == 'e' || s[from] == 'E' {
        from
    } else {
        find_exponent(s, from + 1)
    }
}

/// The number before the mark of the exponent.
pub open spec fn mantissa_part(body: Seq<char>) -> Seq<char> {
    body.take(find_exponent(body, 0))
}

/// The text after the mark of the exponent, if there is a mark.
pub open spec fn exponent_part(body: Seq<char>) -> Option<Seq<char>> {
    if find_exponent(body, 0) < body.len() {
        Some(body.skip(find_exponent(body, 0) + 1))
    } else {
        None
    }
}

/// The digits before the point.
pub open spec fn whole_part(mantissa: Seq<char>) -> Seq<char> {
    mantissa.take(find_char(mantissa, '.', 0))
}

/// The digits after the point; none where there is no point.
pub open spec fn fraction_part(mantissa: Seq<char>) -> Seq<char> {
    if find_char(mantissa, '.', 0) < mantissa.len() {
        mantissa.skip(find_char(mantissa, '.', 0) + 1)
    } else {
        Seq::empty()
    }
}

/// The text is a mantissa: digits with at most one point among them and
/// at least one digit.
pub open spec fn is_mantissa(mantissa: Seq<char>) -> bool {
    &&& all_digits(whole_part(mantissa))
    &&& all_digits(fraction_part(mantissa))
    &&& whole_part(mantissa).len() + fraction_part(mantissa).len() > 0
}

/// The exponent that a number has: zero without a mark; else the number
/// that the digits after the mark write, at least one, with an optional
/// sign before them. Nothing where the text after the mark is no such
/// number.
pub open spec fn exponent_of(text: Option<Seq<char>>) -> Option<int> {
    match text {
        None => Some(0),
        Some(t) => {
            let digits = unsigned_part(t);
            if digits.len() > 0 && all_digits(digits) {
                Some(
                    if t[0] == '-' {
                        -(digits_value(digits) as int)
                    } else {
                        digits_value(digits) as int
                    },
                )
            } else {
                None
            }
        },
    }
}

/// The number that `digits` write times ten to the power `shift`, rounded
/// down.
pub open spec fn scaled_value(digits: Seq<char>, shift: int) -> nat {
    if shift >= 0 {
        digits_value(digits) * pow10(shift as nat)
    } else if digits.len() + shift <= 0 {
        0
    } else {
        digits_value(digits.take(digits.len() + shift))
    }
}

/// The nanoseconds in a number of milliseconds given by its sign, its
/// digits without the point, the number of digits after the point, and its
/// exponent; rounded down. Nothing where the number is below zero or the
/// nanoseconds exceed what 64 bits hold.
pub open spec fn nanos_of(negative: bool, digits: Seq<char>, places: nat, exponent: int) -> Option<
    u64,
> {
    let nanos = scaled_value(digits, exponent - places + 6);
    if negative && digits_value(digits) != 0 {
        None
    } else if nanos > u64::MAX {
        None
    } else {
        Some(nanos as u64)
    }
}

/// The nanoseconds in the number of milliseconds that `t` writes, rounded
/// down. The number is an optional sign, a mantissa and an optional
/// exponent. Nothing where `t` is no such number, where the number is
/// below zero, or where the nanoseconds exceed what 64 bits hold.
pub open spec fn decimal_nanos(t: Seq<char>) -> Option<u64> {
    let body = unsigned_part(t);
    let mantissa = mantissa_part(body);
    if !is_mantissa(mantissa) {
        None
    } else {
        match exponent_of(exponent_part(body)) {
            None => None,
            Some(exponent) => nanos_of(
                t[0] == '-',
                whole_part(mantissa) + fraction_part(mantissa),
                fraction_part(mantissa).len(),
                exponent,
            ),
        }
    }
}

/// The four characters `dur=`.
pub open spec fn duration_key() -> Seq<char> {
    seq!['d', 'u', 'r', '=']
}

/// Whether a segment of the header, trimmed, begins with `dur=`.
pub open spec fn is_duration_segment(segment: Seq<char>) -> bool {
    let t = trimmed(segment);
    t.len() >= 4 && t.take(4) == duration_key()
}

/// The server time that a segment beginning with `dur=` gives: that of
/// the number after the key, nothing where it gives none.
pub open spec fn segment_timing(segment: Seq<char>) -> Option<u64> {
    decimal_nanos(trimmed(segment).skip(4))
}

/// The server time given by the segments at or after `from`: that of the
/// first segment that begins with `dur=`, whether it gives a time or not;
/// nothing where no segment begins so.
pub open spec fn server_timing_from(s: Seq<char>, from: int) -> Option<u64>
    decreases s.len() - from,
{
    if from < 0 || from > s.len() {
        None
    } else {
        let end = find_char(s, ';', from);
        if is_duration_segment(s.subrange(from, end)) {
            segment_timing(s.subrange(from, end))
        } else if end >= s.len() {
            None
        } else {
            proof {
                lemma_find_char(s, ';', from);
            }
            server_timing_from(s, end + 1)
        }
    }
}

/// The server time, in nanoseconds, that the header value gives, if any.
pub open spec fn server_timing_of(s: Seq<char>) -> Option<u64> {
    server_timing_from(s, 0)
}

/// Digits that are all zero write zero, and so does each of their
/// prefixes; digits that write zero are all zero.
pub proof fn lemma_zero_digits(s: Seq<char>)
    requires
        all_digits(s),
    ensures
        all_zeros(s) <==> digits_value(s) == 0,
        all_zeros(s) ==> forall|k: int| 0 <= k <= s.len() ==> digits_value(#[trigger] s.take(k)) == 0,
    decreases s.len(),
{
    if s.len() > 0 {
        let init = s.drop_last();
        assert forall|i: int| 0 <= i < init.len() implies is_digit(#[trigger] init[i]) by {
            assert(init[i] == s[i]);
        }
        lemma_zero_digits(init);
        assert(is_digit(s.last()));
        if all_zeros(s) {
            assert forall|i: int| 0 <= i < init.len() implies #[trigger] init[i] == '0' by {
                assert(init[i] == s[i]);
            }
            assert(s.last() == s[s.len() - 1]);
            assert forall|k: int| 0 <= k <= s.len() implies digits_value(#[trigger] s.take(k))
                == 0 by {
                if k == s.len() {
                    assert(s.take(k) =~= s);
                } else {
                    assert(s.take(k) =~= init.take(k));
                }
            }
        }
        if digits_value(s) == 0 {
            assert(digits_value(init) == 0 && digit_value(s.last()) == 0);
            assert forall|i: int| 0 <= i < s.len() implies #[trigger] s[i] == '0' by {
                if i < init.len() {
                    assert(init[i] == s[i]);
                }
            }
        }
    } else {
        assert forall|k: int| 0 <= k <= s.len() implies digits_value(#[trigger] s.take(k)) == 0 by {
            assert(s.take(k) =~= s);
        }
    }
}

/// Powers of ten grow with the exponent, and from the twentieth on they
/// exceed what 64 bits hold.
pub proof fn lemma_pow10_grows(a: nat, b: nat)
    requires
        a <= b,
    ensures
        1 <= pow10(a) <= pow10(b),
        a >= 20 ==> pow10(a) > u64::MAX,
    decreases b,
{
    if b > a {
        lemma_pow10_grows(a, (b - 1) as nat);
    } else if a > 0 {
        lemma_pow10_grows((a - 1) as nat, (a - 1) as nat);
        if a == 20 {
            reveal_with_fuel(pow10, 21);
            assert(pow10(20) == 100_000_000_000_000_000_000);
        }
    }
}

/// Whether every character is a decimal digit.
fn only_digits(v: &Vec<char>) -> (r: bool)
    ensures
        r == all_digits(v@),
{
    let mut i: usize = 0;
    while i < v.len()
        invariant
            i <= v.len(),
            forall|k: int| 0 <= k < i ==> is_digit(#[trigger] v@[k]),
        decreases v.len() - i,
    {
        if !('0' <= v[i] && v[i] <= '9') {
            return false;
        }
        i += 1;
    }
    true
}

/// Whether every character is the digit zero.
fn only_zeros(v: &Vec<char>) -> (r: bool)
    ensures
        r == all_zeros(v@),
{
    let mut i: usize = 0;
    while i < v.len()
        invariant
            i <= v.len(),
            forall|k: int| 0 <= k < i ==> #[trigger] v@[k] == '0',
        decreases v.len() - i,
    {
        if v[i] != '0' {
            return false;
        }
        i += 1;
    }
    true
}

/// The largest exponent that is read exactly; beyond it a number is either
/// zero or out of range.
pub const EXPONENT_LIMIT: u128 = 0x1_0000_0000_0000_0000_0000;

/// The number that the first `upto` digits write, or `None` where it
/// exceeds `limit`.
fn prefix_value(v: &Vec<char>, upto: usize, limit: u128) -> (r: Option<u128>)
    requires
        all_digits(v@),
        upto <= v.len(),
        limit <= 0xFFFF_FFFF_FFFF_FFFF_FFFF_FFFF_FFFF,
    ensures
        match r {
            Some(x) => x == digits_value(v@.take(upto as int)) && x <= limit,
            None => digits_value(v@.take(upto as int)) > limit,
        },
{
    let mut acc: u128 = 0;
    let mut i: usize = 0;
    assert(v@.take(0) =~= Seq::<char>::empty());
    while i < upto
        invariant
            i <= upto <= v.len(),
            all_digits(v@),
            acc == digits_value(v@.take(i as int)),
            acc <= limit,
            limit <= 0xFFFF_FFFF_FFFF_FFFF_FFFF_FFFF_FFFF,
        decreases upto - i,
    {
        assert(is_digit(v@[i as int]));
        let d = (v[i] as u32 - '0' as u32) as u128;
        proof {
            assert(v@.take(i + 1).drop_last() =~= v@.take(i as int));
            assert(v@.take(i + 1).last() == v@[i as int]);
            assert(digits_value(v@.take(i + 1)) == acc * 10 + d);
            assert(v@.take(upto as int).take(i + 1) =~= v@.take(i + 1));
            lemma_digits_value_prefix(v@.take(upto as int), i + 1);
        }
        acc = acc * 10 + d;
        if acc > limit {
            return None;
        }
        i += 1;
    }
    Some(acc)
}

/// `value` times ten to the power `shift`, or `None` where it exceeds what
/// 64 bits hold.
fn times_pow10(value: u64, shift: u128) -> (r: Option<u64>)
    ensures
        match r {
            Some(x) => x == value * pow10(shift as nat),
            None => value * pow10(shift as nat) > u64::MAX,
        },
{
    if value == 0 {
        assert(0 * pow10(shift as nat) == 0) by (nonlinear_arith);
        return Some(0);
    }
    let mut acc: u64 = value;
    let mut i: u128 = 0;
    assert(acc == value * pow10(0)) by (nonlinear_arith)
        requires
            acc == value,
            pow10(0) == 1,
    ;
    while i < shift
        invariant
            i <= shift,
            value >= 1,
            acc == value * pow10(i as nat),
        decreases shift - i,
    {
        proof {
            lemma_pow10_grows((i + 1) as nat, shift as nat);
            assert(value * pow10((i + 1) as nat) == 10 * (value * pow10(i as nat)))
                by (nonlinear_arith)
                requires
                    pow10((i + 1) as nat) == 10 * pow10(i as nat),
            ;
            assert(value * pow10((i + 1) as nat) <= value * pow10(shift as nat))
                by (nonlinear_arith)
                requires
                    pow10((i + 1) as nat) <= pow10(shift as nat),
                    value >= 1,
            ;
        }
        if acc > u64::MAX / 10 {
            return None;
        }
        acc = acc * 10;
        i += 1;
    }
    Some(acc)
}

/// The first index at which a text holds the mark of an exponent, or its
/// length.
fn find_exponent_mark(v: &Vec<char>) -> (r: usize)
    ensures
        r == find_exponent(v@, 0),
        r <= v.len(),
{
    let mut i: usize = 0;
    while i < v.len() && v[i] != 'e' && v[i] != 'E'
        invariant
            i <= v.len(),
            find_exponent(v@, 0) == find_exponent(v@, i as int),
        decreases v.len() - i,
    {
        i += 1;
    }
    i
}

/// What the exponent of a number is found to be.
enum Exponent {
    /// The text after the mark is no exponent.
    Invalid,
    /// An exponent within the limit, as its sign and size.
    Exact { negative: bool, size: u128 },
    /// An exponent beyond the limit, as its sign.
    Beyond { negative: bool },
}

/// Reads the text after the mark of the exponent.
fn read_exponent(text: &Vec<char>) -> (r: Exponent)
    ensures
        match r {
            Exponent::Invalid => exponent_of(Some(text@)) is None,
            Exponent::Exact { negative, size } => size <= EXPONENT_LIMIT && exponent_of(
                Some(text@),
            ) == Some(
                if negative {
                    -(size as int)
                } else {
                    size as int
                },
            ),
            Exponent::Beyond { negative } => exponent_of(Some(text@)) matches Some(e) && (
            if negative {
                e < -(EXPONENT_LIMIT as int)
            } else {
                e > EXPONENT_LIMIT
            }),
        },
{
    let n = text.len();
    let signed = n > 0 && (text[0] == '-' || text[0] == '+');
    let negative = n > 0 && text[0] == '-';
    let digits = if signed {
        slice_of(text, 1, n)
    } else {
        slice_of(text, 0, n)
    };
    assert(digits@ =~= unsigned_part(text@));
    if digits.len() == 0 || !only_digits(&digits) {
        return Exponent::Invalid;
    }
    assert(digits@.take(digits.len() as int) =~= digits@);
    match prefix_value(&digits, digits.len(), EXPONENT_LIMIT) {
        Some(size) => Exponent::Exact { negative, size },
        None => Exponent::Beyond { negative },
    }
}

/// The digits of a mantissa without its point.
fn join(whole: &Vec<char>, frac: &Vec<char>) -> (r: Vec<char>)
    ensures
        r@ == whole@ + frac@,
{
    let mut out = slice_of(whole, 0, whole.len());
    assert(out@ =~= whole@);
    let mut i: usize = 0;
    while i < frac.len()
        invariant
            i <= frac.len(),
            out@ == whole@ + frac@.take(i as int),
        decreases frac.len() - i,
    {
        out.push(frac[i]);
        assert(out@ =~= whole@ + frac@.take(i + 1));
        i += 1;
    }
    assert(frac@.take(frac.len() as int) =~= frac@);
    out
}

/// The number that digits, not all zero, write times ten to the power
/// `exponent + 6 - places`, rounded down, where it is one that 64 bits
/// hold.
fn scale(digits: &Vec<char>, places: usize, negative: bool, size: u128) -> (r: Option<u64>)
    requires
        all_digits(digits@),
        size <= EXPONENT_LIMIT,
    ensures
        ({
            let exponent = if negative {
                -(size as int)
            } else {
                size as int
            };
            let nanos = scaled_value(digits@, exponent - places + 6);
            match r {
                Some(x) => x == nanos,
                None => nanos > u64::MAX,
            }
        }),
{
    let exponent: i128 = if negative {
        -(size as i128)
    } else {
        size as i128
    };
    let shift: i128 = exponent - places as i128 + 6;
    if shift >= 0 {
        assert(digits@.take(digits.len() as int) =~= digits@);
        match prefix_value(digits, digits.len(), 0xFFFF_FFFF_FFFF_FFFF) {
            None => {
                proof {
                    lemma_pow10_grows(shift as nat, shift as nat);
                    assert(digits_value(digits@) * pow10(shift as nat) >= digits_value(digits@))
                        by (nonlinear_arith)
                        requires
                            pow10(shift as nat) >= 1,
                    ;
                }
                None
            },
            Some(value) => times_pow10(value as u64, shift as u128),
        }
    } else {
        let keep: i128 = digits.len() as i128 + shift;
        if keep <= 0 {
            Some(0)
        } else {
            match prefix_value(digits, keep as usize, 0xFFFF_FFFF_FFFF_FFFF) {
                None => None,
                Some(value) => Some(value as u64),
            }
        }
    }
}

/// The nanoseconds of a number whose exponent is within the limit.
fn nanos_exact(negative: bool, digits: &Vec<char>, places: usize, down: bool, size: u128) -> (r:
    Option<u64>)
    requires
        all_digits(digits@),
        size <= EXPONENT_LIMIT,
    ensures
        r == nanos_of(
            negative,
            digits@,
            places as nat,
            if down {
                -(size as int)
            } else {
                size as int
            },
        ),
{
    proof {
        lemma_zero_digits(digits@);
    }
    if only_zeros(digits) {
        proof {
            let shift = (if down {
                -(size as int)
            } else {
                size as int
            }) - places + 6;
            if shift >= 0 {
                assert(0 * pow10(shift as nat) == 0) by (nonlinear_arith);
            }
        }
        Some(0)
    } else if negative {
        None
    } else {
        scale(digits, places, down, size)
    }
}

/// The nanoseconds of a number whose exponent is beyond the limit: zero
/// if the digits are, else nothing for a negative number, zero for an
/// exponent below zero, and nothing for one above.
fn nanos_beyond(
    negative: bool,
    digits: &Vec<char>,
    places: usize,
    down: bool,
    Ghost(exponent): Ghost<int>,
) -> (r: Option<u64>)
    requires
        all_digits(digits@),
        digits@.len() <= 2 * usize::MAX,
        if down {
            exponent < -(EXPONENT_LIMIT as int)
        } else {
            exponent > EXPONENT_LIMIT
        },
    ensures
        r == nanos_of(negative, digits@, places as nat, exponent),
{
    let ghost shift = exponent - places + 6;
    proof {
        lemma_zero_digits(digits@);
    }
    if only_zeros(digits) {
        proof {
            if shift >= 0 {
                assert(0 * pow10(shift as nat) == 0) by (nonlinear_arith);
            }
        }
        Some(0)
    } else if negative {
        None
    } else if down {
        // So far below the point that nothing is left.
        assert(digits@.len() + shift <= 0);
        Some(0)
    } else {
        // So far above the point that 64 bits cannot hold it.
        proof {
            assert(shift >= 20);
            lemma_pow10_grows(20, shift as nat);
            assert(digits_value(digits@) * pow10(shift as nat) >= pow10(shift as nat))
                by (nonlinear_arith)
                requires
                    digits_value(digits@) >= 1,
            ;
        }
        None
    }
}

/// The parts of the text of a number.
struct NumberText {
    /// Whether the number has a minus sign.
    negative: bool,
    /// The digits before the point.
    whole: Vec<char>,
    /// The digits after the point.
    frac: Vec<char>,
    /// The text after the mark of the exponent.
    exponent: Option<Vec<char>>,
}

/// Takes the text of a number apart.
fn split_number(t: &Vec<char>) -> (r: NumberText)
    ensures
        r.negative == (t@.len() > 0 && t@[0] == '-'),
        r.whole@ == whole_part(mantissa_part(unsigned_part(t@))),
        r.frac@ == fraction_part(mantissa_part(unsigned_part(t@))),
        match r.exponent {
            Some(e) => exponent_part(unsigned_part(t@)) == Some(e@),
            None => exponent_part(unsigned_part(t@)) is None,
        },
{
    let n = t.len();
    let signed = n > 0 && (t[0] == '-' || t[0] == '+');
    let negative = n > 0 && t[0] == '-';
    let body = if signed {
        slice_of(t, 1, n)
    } else {
        slice_of(t, 0, n)
    };
    assert(body@ =~= unsigned_part(t@));
    let mark = find_exponent_mark(&body);
    let mantissa = slice_of(&body, 0, mark);
    assert(mantissa@ =~= mantissa_part(body@));
    let dot = find(&mantissa, '.', 0);
    let whole = slice_of(&mantissa, 0, dot);
    assert(whole@ =~= whole_part(mantissa@));
    let frac = if dot < mantissa.len() {
        slice_of(&mantissa, dot + 1, mantissa.len())
    } else {
        Vec::new()
    };
    assert(frac@ =~= fraction_part(mantissa@));
    let exponent = if mark < body.len() {
        let text = slice_of(&body, mark + 1, body.len());
        assert(text@ =~= body@.skip(mark + 1));
        Some(text)
    } else {
        None
    };
    NumberText { negative, whole, frac, exponent }
}

/// Reads a number of milliseconds as nanoseconds.
pub fn parse_decimal_nanos(t: &Vec<char>) -> (r: Option<u64>)
    ensures
        r == decimal_nanos(t@),
{
    let parts = split_number(t);
    if !only_digits(&parts.whole) || !only_digits(&parts.frac) {
        return None;
    }
    if parts.whole.len() == 0 && parts.frac.len() == 0 {
        return None;
    }
    let digits = join(&parts.whole, &parts.frac);
    assert(all_digits(digits@)) by {
        assert forall|i: int| 0 <= i < digits@.len() implies is_digit(#[trigger] digits@[i]) by {
            if i < parts.whole@.len() {
                assert(digits@[i] == parts.whole@[i]);
            } else {
                assert(digits@[i] == parts.frac@[i - parts.whole@.len()]);
            }
        }
    }
    match &parts.exponent {
        None => nanos_exact(parts.negative, &digits, parts.frac.len(), false, 0),
        Some(text) => match read_exponent(text) {
            Exponent::Invalid => None,
            Exponent::Exact { negative, size } => nanos_exact(
                parts.negative,
                &digits,
                parts.frac.len(),
                negative,
                size,
            ),
            Exponent::Beyond { negative } => nanos_beyond(
                parts.negative,
                &digits,
                parts.frac.len(),
                negative,
                Ghost(exponent_of(Some(text@))->0),
            ),
        },
    }
}

/// What one segment of the header says of the server time: nothing if it
/// does not begin with `dur=`, else the time that it gives or fails to
/// give.
fn parse_segment(v: &Vec<char>, from: usize, to: usize) -> (r: Option<Option<u64>>)
    requires
        from <= to <= v.len(),
    ensures
        r == (if is_duration_segment(v@.subrange(from as int, to as int)) {
            Some(segment_timing(v@.subrange(from as int, to as int)))
        } else {
            None
        }),
{
    let (a, b) = trim_range(v, from, to);
    let t = slice_of(v, a, b);
    if t.len() < 4 {
        return None;
    }
    if !(t[0] == 'd' && t[1] == 'u' && t[2] == 'r' && t[3] == '=') {
        assert(t@.take(4)[0] == t@[0] && t@.take(4)[1] == t@[1] && t@.take(4)[2] == t@[2]
            && t@.take(4)[3] == t@[3]);
        return None;
    }
    assert(t@.take(4) =~= duration_key());
    let value = slice_of(&t, 4, t.len());
    assert(value@ =~= t@.skip(4));
    Some(parse_decimal_nanos(&value))
}

/// The server's processing time in nanoseconds, from the value of a
/// `server-timing` header: that of the first segment that begins with
/// `dur=`. `None` where that segment gives no valid time, and where no
/// segment begins so.
pub fn server_timing_nanos(header_value: &str) -> (r: Option<u64>)
    ensures
        r == server_timing_of(header_value@),
{
    let v = chars_of(header_value);
    let mut from: usize = 0;
    loop
        invariant
            from <= v.len(),
            v@ == header_value@,
            server_timing_of(v@) == server_timing_from(v@, from as int),
        decreases v.len() - from,
    {
        let end = find(&v, ';', from);
        match parse_segment(&v, from, end) {
            Some(timing) => {
                return timing;
            },
            None => {
                if end >= v.len() {
                    return None;
                }
                from = end + 1;
            },
        }
    }
}

/// Parses the value of a `server-timing` header into the server's
/// processing time. `None` if the first segment that begins with `dur=`
/// gives no valid, non-negative time, and if no segment begins so.
pub fn parse_server_timing(header_value: &str) -> (r: Option<Duration>)
    ensures
        match r {
            Some(d) => server_timing_of(header_value@) matches Some(n) && duration_nanos(d) == n,
            None => server_timing_of(header_value@) is None,
        },
{
    match server_timing_nanos(header_value) {
        Some(nanos) => Some(Duration::from_nanos(nanos)),
        None => None,
    }
}

} // verus!
