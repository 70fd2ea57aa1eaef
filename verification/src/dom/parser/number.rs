//! The grammar of numbers.
//!
//! A number is an optional sign, digits with an optional fractional part (or a fractional
//! part alone), and an optional exponent: `12`, `-0.5`, `.25`, `1e3`, `+2.5E-1`. An `e`
//! that no digit follows is not part of the number, so that `1em` is the number `1` before
//! the unit `em`.

use crate::number::{Number, RAW_MAX, RAW_MIN};
use vstd::prelude::*;

verus! {

pub open spec fn is_digit(c: char) -> bool {
    '0' <= c && c <= '9'
}

/// The value of the digit `c`.
pub open spec fn digit_value(c: char) -> int {
    c as int - '0' as int
}

pub fn is_digit_char(c: char) -> (r: bool)
    ensures
        r == is_digit(c),
{
    c >= '0' && c <= '9'
}

fn digit_of(c: char) -> (r: u128)
    requires
        is_digit(c),
    ensures
        r == digit_value(c),
        r <= 9,
{
    (c as u32 - '0' as u32) as u128
}

/// The place after the digits that start at `at`.
pub open spec fn digits_end(s: Seq<char>, at: int) -> int
    decreases s.len() - at,
{
    if 0 <= at < s.len() && is_digit(s[at]) {
        digits_end(s, at + 1)
    } else {
        at
    }
}

pub proof fn lemma_digits_end_bounds(s: Seq<char>, at: int)
    requires
        0 <= at <= s.len(),
    ensures
        at <= digits_end(s, at) <= s.len(),
        forall|i: int| at <= i < digits_end(s, at) ==> is_digit(#[trigger] s[i]),
    decreases s.len() - at,
{
    if at < s.len() && is_digit(s[at]) {
        lemma_digits_end_bounds(s, at + 1);
    }
}

/// The place after the digits that start at `at`.
pub fn scan_digits(s: &[char], at: usize) -> (end: usize)
    requires
        at <= s@.len(),
    ensures
        end == digits_end(s@, at as int),
        at <= end <= s@.len(),
        forall|i: int| at <= i < end ==> is_digit(#[trigger] s@[i]),
{
    let mut i: usize = at;
    while i < s.len() && is_digit_char(s[i])
        invariant
            at <= i <= s@.len(),
            digits_end(s@, at as int) == digits_end(s@, i as int),
            forall|j: int| at <= j < i ==> is_digit(#[trigger] s@[j]),
        decreases s@.len() - i,
    {
        i = i + 1;
    }
    i
}

/// The largest value to which a run of digits is read; longer runs stay at it.
pub const DIGITS_CAP: u128 = 10_000_000_000_000_000_000;

/// `v` or the cap, whichever is less.
pub open spec fn capped(v: int, cap: int) -> int {
    if v > cap {
        cap
    } else {
        v
    }
}

/// The value of the digits `s[from..to]`, or `cap` where it is above that.
pub open spec fn digits_value(s: Seq<char>, from: int, to: int, cap: int) -> int
    decreases to - from,
{
    if to <= from {
        0
    } else {
        capped(digits_value(s, from, to - 1, cap) * 10 + digit_value(s[to - 1]), cap)
    }
}

/// The value of the digits `s[from..to]`, or `cap` where it is above that.
pub fn read_digits(s: &[char], from: usize, to: usize, cap: u128) -> (r: u128)
    requires
        from <= to <= s@.len(),
        forall|i: int| from <= i < to ==> is_digit(#[trigger] s@[i]),
        cap <= DIGITS_CAP,
    ensures
        r == digits_value(s@, from as int, to as int, cap as int),
        r <= cap,
{
    let mut acc: u128 = 0;
    let mut i: usize = from;
    while i < to
        invariant
            from <= i <= to <= s@.len(),
            forall|j: int| from <= j < to ==> is_digit(#[trigger] s@[j]),
            cap <= DIGITS_CAP,
            acc == digits_value(s@, from as int, i as int, cap as int),
            acc <= cap,
        decreases to - i,
    {
        let next: u128 = acc * 10 + digit_of(s[i]);
        acc = if next > cap {
            cap
        } else {
            next
        };
        i = i + 1;
    }
    acc
}

/// Ten to the power `n`.
pub open spec fn pow10(n: nat) -> int
    decreases n,
{
    if n == 0 {
        1
    } else {
        10 * pow10((n - 1) as nat)
    }
}

/// How many digits after the point count.
pub const FRACTION_DIGITS: usize = 18;

/// Ten to the power [`FRACTION_DIGITS`].
pub const FRACTION_UNIT: u128 = 1_000_000_000_000_000_000;

/// The number of units of [`FRACTION_UNIT`] in a millionth.
pub const MICRO_UNIT: u128 = 1_000_000_000_000;

/// The largest value that the scaled mantissa takes; it stays there when the exponent
/// would lead above.
pub const MANTISSA_CAP: u128 = 10_000_000_000_000_000_000_000_000_000_000_000_000;

/// The largest exponent that is read; larger ones stay at it.
pub const EXPONENT_CAP: u128 = 64;

proof fn lemma_pow10_values()
    ensures
        pow10(0) == 1,
        pow10(1) == 10,
        pow10(2) == 100,
        pow10(3) == 1_000,
        pow10(4) == 10_000,
        pow10(5) == 100_000,
        pow10(6) == 1_000_000,
        pow10(7) == 10_000_000,
        pow10(8) == 100_000_000,
        pow10(9) == 1_000_000_000,
        pow10(10) == 10_000_000_000,
        pow10(11) == 100_000_000_000,
        pow10(12) == 1_000_000_000_000,
        pow10(13) == 10_000_000_000_000,
        pow10(14) == 100_000_000_000_000,
        pow10(15) == 1_000_000_000_000_000,
        pow10(16) == 10_000_000_000_000_000,
        pow10(17) == 100_000_000_000_000_000,
        pow10(18) == 1_000_000_000_000_000_000,
{
    reveal_with_fuel(pow10, 20);
}

fn pow10_exec(n: usize) -> (r: u128)
    requires
        n <= FRACTION_DIGITS,
    ensures
        r == pow10(n as nat),
        1 <= r <= FRACTION_UNIT,
{
    proof {
        lemma_pow10_values();
    }
    let mut r: u128 = 1;
    let mut i: usize = 0;
    while i < n
        invariant
            i <= n <= FRACTION_DIGITS,
            r == pow10(i as nat),
        decreases n - i,
    {
        proof {
            lemma_pow10_values();
        }
        r = r * 10;
        i = i + 1;
    }
    proof {
        lemma_pow10_values();
    }
    r
}

/// `v` multiplied by ten `e` times, staying at [`MANTISSA_CAP`] once above it.
pub open spec fn shift_up(v: int, e: nat) -> int
    decreases e,
{
    if e == 0 {
        v
    } else {
        shift_up(capped(v * 10, MANTISSA_CAP as int), (e - 1) as nat)
    }
}

/// `v` divided by ten `e` times, each time rounded down.
pub open spec fn shift_down(v: int, e: nat) -> int
    decreases e,
{
    if e == 0 {
        v
    } else {
        shift_down(v / 10, (e - 1) as nat)
    }
}

fn shift_up_exec(v: u128, e: u128) -> (r: u128)
    requires
        v <= MANTISSA_CAP,
    ensures
        r == shift_up(v as int, e as nat),
        r <= MANTISSA_CAP,
{
    let mut r: u128 = v;
    let mut i: u128 = e;
    while i > 0
        invariant
            r <= MANTISSA_CAP,
            shift_up(v as int, e as nat) == shift_up(r as int, i as nat),
        decreases i,
    {
        let next: u128 = r * 10;
        r = if next > MANTISSA_CAP {
            MANTISSA_CAP
        } else {
            next
        };
        i = i - 1;
    }
    r
}

fn shift_down_exec(v: u128, e: u128) -> (r: u128)
    ensures
        r == shift_down(v as int, e as nat),
        r <= v,
{
    let mut r: u128 = v;
    let mut i: u128 = e;
    while i > 0
        invariant
            r <= v,
            shift_down(v as int, e as nat) == shift_down(r as int, i as nat),
        decreases i,
    {
        r = r / 10;
        i = i - 1;
    }
    r
}

/// Whether `c` is a sign.
pub open spec fn is_sign(c: char) -> bool {
    c == '+' || c == '-'
}

/// The place after an optional sign at `at`.
pub open spec fn after_sign(s: Seq<char>, at: int) -> int {
    if 0 <= at < s.len() && is_sign(s[at]) {
        at + 1
    } else {
        at
    }
}

/// Whether a minus sign stands at `at`.
pub open spec fn is_negative_at(s: Seq<char>, at: int) -> bool {
    0 <= at < s.len() && s[at] == '-'
}

/// The exponent that starts at `at`, as its sign, its value and the place after it; where
/// none starts there, the value is `0` and the place is `at`.
pub open spec fn exponent_at(s: Seq<char>, at: int) -> (bool, int, int) {
    if 0 <= at < s.len() && (s[at] == 'e' || s[at] == 'E') {
        let d0 = after_sign(s, at + 1);
        let d1 = digits_end(s, d0);
        if d1 > d0 {
            (is_negative_at(s, at + 1), digits_value(s, d0, d1, EXPONENT_CAP as int), d1)
        } else {
            (false, 0, at)
        }
    } else {
        (false, 0, at)
    }
}

/// The mantissa of the number whose digits before the point are `s[i0..i1]` and whose
/// digits after the point are `s[f0..f1]`, in units of [`FRACTION_UNIT`]: of the digits
/// after the point the first [`FRACTION_DIGITS`] count.
pub open spec fn mantissa(s: Seq<char>, i0: int, i1: int, f0: int, f1: int) -> int {
    let count = if f1 - f0 > FRACTION_DIGITS as int {
        FRACTION_DIGITS as int
    } else {
        f1 - f0
    };
    digits_value(s, i0, i1, DIGITS_CAP as int) * (FRACTION_UNIT as int) + digits_value(
        s,
        f0,
        f0 + count,
        DIGITS_CAP as int,
    ) * pow10((FRACTION_DIGITS as int - count) as nat)
}

/// The count of millionths of a number with the given sign whose mantissa, with the
/// exponent applied, is `scaled`: rounded toward zero, and kept within the range of a
/// [`Number`].
pub open spec fn to_raw(negative: bool, scaled: int) -> int {
    let micros = scaled / (MICRO_UNIT as int);
    if negative {
        if micros > -(RAW_MIN as int) {
            RAW_MIN as int
        } else {
            -micros
        }
    } else {
        if micros > RAW_MAX as int {
            RAW_MAX as int
        } else {
            micros
        }
    }
}

/// The number that starts at `at`, and the place after it; `None` where no number starts
/// there.
pub open spec fn number_at(s: Seq<char>, at: int) -> Option<(Number, int)> {
    let i0 = after_sign(s, at);
    let i1 = digits_end(s, i0);
    let has_point = 0 <= i1 < s.len() && s[i1] == '.' && (i1 > i0 || digits_end(s, i1 + 1) > i1
        + 1);
    let f0 = if has_point {
        i1 + 1
    } else {
        i1
    };
    let f1 = if has_point {
        digits_end(s, f0)
    } else {
        i1
    };
    if i1 == i0 && f1 == f0 {
        None
    } else {
        let (negative_exponent, exponent, end) = exponent_at(s, f1);
        let m = mantissa(s, i0, i1, f0, f1);
        let scaled = if negative_exponent {
            shift_down(m, exponent as nat)
        } else {
            shift_up(m, exponent as nat)
        };
        Some((Number { raw: to_raw(is_negative_at(s, at), scaled) as i64 }, end))
    }
}

fn to_raw_exec(negative: bool, scaled: u128) -> (r: i64)
    ensures
        r as int == to_raw(negative, scaled as int),
{
    let micros: u128 = scaled / MICRO_UNIT;
    if negative {
        if micros > 0x8000_0000_0000_0000 {
            RAW_MIN
        } else if micros == 0x8000_0000_0000_0000 {
            RAW_MIN
        } else {
            -(micros as i64)
        }
    } else {
        if micros > RAW_MAX as u128 {
            RAW_MAX
        } else {
            micros as i64
        }
    }
}

fn read_exponent(s: &[char], at: usize) -> (r: (bool, u128, usize))
    requires
        at <= s@.len(),
    ensures
        (r.0, r.1 as int, r.2 as int) == exponent_at(s@, at as int),
        at <= r.2 <= s@.len(),
        r.1 <= EXPONENT_CAP,
{
    let len: usize = s.len();
    if at < len && (s[at] == 'e' || s[at] == 'E') {
        let q: usize = at + 1;
        let d0: usize = if q < len && (s[q] == '+' || s[q] == '-') {
            q + 1
        } else {
            q
        };
        let d1: usize = scan_digits(s, d0);
        if d1 > d0 {
            return (q < len && s[q] == '-', read_digits(s, d0, d1, EXPONENT_CAP), d1);
        }
    }
    (false, 0, at)
}

fn read_mantissa(s: &[char], i0: usize, i1: usize, f0: usize, f1: usize) -> (m: u128)
    requires
        i0 <= i1 <= s@.len(),
        f0 <= f1 <= s@.len(),
        forall|i: int| i0 <= i < i1 ==> is_digit(#[trigger] s@[i]),
        forall|i: int| f0 <= i < f1 ==> is_digit(#[trigger] s@[i]),
    ensures
        m == mantissa(s@, i0 as int, i1 as int, f0 as int, f1 as int),
{
    let count: usize = if f1 - f0 > FRACTION_DIGITS {
        FRACTION_DIGITS
    } else {
        f1 - f0
    };
    let whole: u128 = read_digits(s, i0, i1, DIGITS_CAP);
    let fraction: u128 = read_digits(s, f0, f0 + count, DIGITS_CAP);
    let unit: u128 = pow10_exec(FRACTION_DIGITS - count);
    assert(whole * FRACTION_UNIT <= DIGITS_CAP * FRACTION_UNIT) by (nonlinear_arith)
        requires
            whole <= DIGITS_CAP,
    ;
    assert(fraction * unit <= DIGITS_CAP * FRACTION_UNIT) by (nonlinear_arith)
        requires
            fraction <= DIGITS_CAP,
            unit <= FRACTION_UNIT,
    ;
    whole * FRACTION_UNIT + fraction * unit
}

fn scale_mantissa(negative: bool, m: u128, negative_exponent: bool, exponent: u128) -> (r: i64)
    ensures
        r as int == to_raw(
            negative,
            if negative_exponent {
                shift_down(m as int, exponent as nat)
            } else {
                shift_up(m as int, exponent as nat)
            },
        ),
{
    let scaled: u128 = if negative_exponent {
        shift_down_exec(m, exponent)
    } else {
        let capped_m: u128 = if m > MANTISSA_CAP {
            MANTISSA_CAP
        } else {
            m
        };
        proof {
            lemma_shift_up_capped(m as int, exponent as nat);
        }
        shift_up_exec(capped_m, exponent)
    };
    to_raw_exec(negative, scaled)
}

/// Reads the number that starts at `at`.
pub fn parse_number_at(s: &[char], at: usize) -> (r: Option<(Number, usize)>)
    requires
        at <= s@.len(),
    ensures
        match r {
            Some((n, end)) => number_at(s@, at as int) == Some((n, end as int)) && at < end
                <= s@.len(),
            None => number_at(s@, at as int) is None,
        },
{
    let len: usize = s.len();
    let negative: bool = at < len && s[at] == '-';
    let i0: usize = if at < len && (s[at] == '+' || s[at] == '-') {
        at + 1
    } else {
        at
    };
    let i1: usize = scan_digits(s, i0);
    let has_point: bool = i1 < len && s[i1] == '.' && (i1 > i0 || scan_digits(s, i1 + 1) > i1
        + 1);
    let f0: usize = if has_point {
        i1 + 1
    } else {
        i1
    };
    let f1: usize = if has_point {
        scan_digits(s, f0)
    } else {
        i1
    };
    if i1 == i0 && f1 == f0 {
        return None;
    }
    let (negative_exponent, exponent, end) = read_exponent(s, f1);
    let m: u128 = read_mantissa(s, i0, i1, f0, f1);
    Some((Number { raw: scale_mantissa(negative, m, negative_exponent, exponent) }, end))
}

/// Multiplying by ten and staying at the cap gives the same from a value above the cap as
/// from the cap itself.
proof fn lemma_shift_up_capped(v: int, e: nat)
    requires
        v >= 0,
    ensures
        to_raw(false, shift_up(v, e)) == to_raw(false, shift_up(capped(v, MANTISSA_CAP as int), e)),
        to_raw(true, shift_up(v, e)) == to_raw(true, shift_up(capped(v, MANTISSA_CAP as int), e)),
    decreases e,
{
    if e == 0 {
        // both are far above what a number holds
        if v > MANTISSA_CAP as int {
            assert(v / (MICRO_UNIT as int) >= (MANTISSA_CAP as int) / (MICRO_UNIT as int))
                by (nonlinear_arith)
                requires
                    v > 10_000_000_000_000_000_000_000_000_000_000_000_000,
                    MICRO_UNIT == 1_000_000_000_000,
                    MANTISSA_CAP == 10_000_000_000_000_000_000_000_000_000_000_000_000,
            ;
        }
    } else {
        if v > MANTISSA_CAP as int {
            assert(capped(v * 10, MANTISSA_CAP as int) == MANTISSA_CAP as int);
            assert(capped(capped(v, MANTISSA_CAP as int) * 10, MANTISSA_CAP as int)
                == MANTISSA_CAP as int);
        }
    }
}

} // verus!
