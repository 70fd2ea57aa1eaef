//! Fixed-point decimal numbers.
//!
//! Every quantity of a drawing (a coordinate, a time, an opacity, a fraction
//! of an animation) is a [`Number`]: a signed count of millionths. Arithmetic
//! saturates at the ends of the representable range and division truncates
//! toward zero, so every operation is total and its result is stated exactly.

use vstd::prelude::*;

verus! {

/// How many units of `raw` make one.
pub const SCALE: i64 = 1_000_000;

/// The largest count of millionths a [`Number`] can hold.
pub const RAW_MAX: i64 = 0x7fff_ffff_ffff_ffff;

/// The smallest count of millionths a [`Number`] can hold.
pub const RAW_MIN: i64 = -0x8000_0000_0000_0000;

/// A signed decimal number with six fractional digits, stored in millionths.
#[derive(Clone, Copy, PartialEq, Eq, Structural, Debug)]
pub struct Number {
    pub raw: i64,
}

/// `v` brought into the range `RAW_MIN ..= RAW_MAX`.
pub open spec fn saturate(v: int) -> int {
    if v > RAW_MAX as int {
        RAW_MAX as int
    } else if v < RAW_MIN as int {
        RAW_MIN as int
    } else {
        v
    }
}

/// The quotient of `a` by `b` rounded toward zero; `0` when `b` is `0`.
pub open spec fn trunc_div(a: int, b: int) -> int {
    if b == 0 {
        0
    } else if a >= 0 {
        if b > 0 {
            a / b
        } else {
            -(a / (-b))
        }
    } else {
        if b > 0 {
            -((-a) / b)
        } else {
            (-a) / (-b)
        }
    }
}

/// The largest integer that is not above `a / b`, for positive `b`.
pub open spec fn floor_div(a: int, b: int) -> int
    recommends
        b > 0,
{
    a / b
}

/// The smallest integer that is not below `a / b`, for positive `b`.
pub open spec fn ceil_div(a: int, b: int) -> int
    recommends
        b > 0,
{
    -((-a) / b)
}

/// Whether `r` is the square root of `v` rounded down.
pub open spec fn is_int_sqrt(v: int, r: int) -> bool {
    0 <= r && r * r <= v && v < (r + 1) * (r + 1)
}

/// The square root of `v` rounded down, for `v >= 0`.
pub open spec fn int_sqrt(v: int) -> int {
    choose|r: int| is_int_sqrt(v, r)
}

proof fn lemma_int_sqrt_unique(v: int, r: int)
    requires
        is_int_sqrt(v, r),
    ensures
        int_sqrt(v) == r,
{
    let c = int_sqrt(v);
    assert(is_int_sqrt(v, c));
    if c < r {
        assert((c + 1) * (c + 1) <= r * r) by (nonlinear_arith)
            requires
                0 <= c,
                c + 1 <= r,
        ;
    }
    if c > r {
        assert((r + 1) * (r + 1) <= c * c) by (nonlinear_arith)
            requires
                0 <= r,
                r + 1 <= c,
        ;
    }
}

fn magnitude(v: i64) -> (m: u128)
    ensures
        m == (if v < 0 { -(v as int) } else { v as int }),
        m <= 0x8000_0000_0000_0000,
{
    if v < 0 {
        let w: i128 = -(v as i128);
        w as u128
    } else {
        v as u128
    }
}

fn saturate_signed(negative: bool, m: u128) -> (r: i64)
    ensures
        r as int == saturate(if negative { -(m as int) } else { m as int }),
{
    if m > RAW_MAX as u128 {
        if negative {
            RAW_MIN
        } else {
            RAW_MAX
        }
    } else {
        let v: i64 = m as i64;
        if negative {
            -v
        } else {
            v
        }
    }
}

proof fn lemma_trunc_div_by_magnitudes(a: int, b: int, c: int, ma: int, mb: int, mc: int)
    requires
        c != 0,
        ma == (if a < 0 { -a } else { a }),
        mb == (if b < 0 { -b } else { b }),
        mc == (if c < 0 { -c } else { c }),
    ensures
        ma * mb >= 0,
        (ma * mb) / mc >= 0,
        trunc_div(a * b, c) == (if ((a < 0) != (b < 0)) != (c < 0) {
            -((ma * mb) / mc)
        } else {
            (ma * mb) / mc
        }),
{
    assert(ma * mb >= 0) by (nonlinear_arith)
        requires
            ma >= 0,
            mb >= 0,
    ;
    assert((ma * mb) / mc >= 0) by (nonlinear_arith)
        requires
            ma * mb >= 0,
            mc > 0,
    ;
    assert(a * b == (if (a < 0) != (b < 0) { -(ma * mb) } else { ma * mb })) by (nonlinear_arith)
        requires
            ma == (if a < 0 { -a } else { a }),
            mb == (if b < 0 { -b } else { b }),
    ;
    if ma * mb == 0 {
        assert(0int / mc == 0) by (nonlinear_arith)
            requires
                mc > 0,
        ;
    }
}

proof fn lemma_floor_by_magnitudes(n: int, d: int, mn: int, md: int)
    requires
        d != 0,
        mn == (if n < 0 { -n } else { n }),
        md == (if d < 0 { -d } else { d }),
    ensures
        mn / md >= 0,
        (if d > 0 { n / d } else { (-n) / (-d) }) == (if (n < 0) != (d < 0) {
            if mn % md != 0 {
                -(mn / md + 1)
            } else {
                -(mn / md)
            }
        } else {
            mn / md
        }),
{
    // the quotient of the magnitudes and its remainder
    let q = mn / md;
    let r = mn % md;
    assert(mn == md * q + r && 0 <= r < md) by {
        vstd::arithmetic::div_mod::lemma_fundamental_div_mod(mn, md);
    }
    assert(q >= 0) by (nonlinear_arith)
        requires
            mn >= 0,
            md > 0,
            q == mn / md,
    ;
    // the numerator and the divisor of the floor, with the divisor made positive
    let a = if d > 0 { n } else { -n };
    if (n < 0) != (d < 0) {
        // a == -mn
        if r != 0 {
            assert(a == md * (-(q + 1)) + (md - r)) by (nonlinear_arith)
                requires
                    a == -mn,
                    mn == md * q + r,
            ;
            vstd::arithmetic::div_mod::lemma_fundamental_div_mod_converse(a, md, -(q + 1), md - r);
        } else {
            assert(a == md * (-q) + 0) by (nonlinear_arith)
                requires
                    a == -mn,
                    mn == md * q + r,
                    r == 0,
            ;
            vstd::arithmetic::div_mod::lemma_fundamental_div_mod_converse(a, md, -q, 0);
        }
    } else {
        assert(a == mn);
    }
}

/// `a * b / c`, rounded toward zero and saturated; `0` when `c` is `0`.
fn mul_div_raw(a: i64, b: i64, c: i64) -> (r: i64)
    ensures
        r as int == saturate(trunc_div(a as int * b as int, c as int)),
{
    if c == 0 {
        return 0;
    }
    let ma: u128 = magnitude(a);
    let mb: u128 = magnitude(b);
    let mc: u128 = magnitude(c);
    assert(ma * mb <= 0x8000_0000_0000_0000 * 0x8000_0000_0000_0000) by (nonlinear_arith)
        requires
            ma <= 0x8000_0000_0000_0000,
            mb <= 0x8000_0000_0000_0000,
    ;
    let q: u128 = ma * mb / mc;
    proof {
        lemma_trunc_div_by_magnitudes(a as int, b as int, c as int, ma as int, mb as int, mc as int);
    }
    let negative: bool = ((a < 0) != (b < 0)) != (c < 0);
    saturate_signed(negative, q)
}

impl Number {
    /// The number as a count of millionths.
    pub open spec fn micros(self) -> int {
        self.raw as int
    }

    pub open spec fn of(v: int) -> Number {
        Number { raw: saturate(v) as i64 }
    }

    pub open spec fn zero_spec() -> Number {
        Number { raw: 0 }
    }

    pub open spec fn one_spec() -> Number {
        Number { raw: SCALE }
    }

    pub open spec fn from_int_spec(v: i64) -> Number {
        Number::of(v as int * SCALE as int)
    }

    pub open spec fn from_ratio_spec(n: i64, d: i64) -> Number {
        Number::of(trunc_div(n as int * SCALE as int, d as int))
    }

    pub open spec fn add_spec(self, rhs: Number) -> Number {
        Number::of(self.raw as int + rhs.raw as int)
    }

    pub open spec fn sub_spec(self, rhs: Number) -> Number {
        Number::of(self.raw as int - rhs.raw as int)
    }

    pub open spec fn neg_spec(self) -> Number {
        Number::of(-(self.raw as int))
    }

    pub open spec fn mul_spec(self, rhs: Number) -> Number {
        Number::of(trunc_div(self.raw as int * rhs.raw as int, SCALE as int))
    }

    /// Division; by zero it gives the end of the range on the side of `self`, and `0` for `0 / 0`.
    pub open spec fn div_spec(self, rhs: Number) -> Number {
        if rhs.raw == 0 {
            if self.raw > 0 {
                Number { raw: RAW_MAX }
            } else if self.raw < 0 {
                Number { raw: RAW_MIN }
            } else {
                Number { raw: 0 }
            }
        } else {
            Number::of(trunc_div(self.raw as int * SCALE as int, rhs.raw as int))
        }
    }

    /// Division rounded down to a millionth; by zero as [`Number::div_spec`].
    pub open spec fn div_floor_spec(self, rhs: Number) -> Number {
        if rhs.raw == 0 {
            self.div_spec(rhs)
        } else if rhs.raw > 0 {
            Number::of((self.raw as int * SCALE as int) / (rhs.raw as int))
        } else {
            Number::of((-(self.raw as int * SCALE as int)) / (-(rhs.raw as int)))
        }
    }

    /// `self * n / d` with a single rounding; `0` when `d` is `0`.
    pub open spec fn mul_ratio_spec(self, n: i64, d: i64) -> Number {
        Number::of(trunc_div(self.raw as int * n as int, d as int))
    }

    pub open spec fn lt_spec(self, rhs: Number) -> bool {
        self.raw < rhs.raw
    }

    pub open spec fn le_spec(self, rhs: Number) -> bool {
        self.raw <= rhs.raw
    }

    pub open spec fn min_spec(self, rhs: Number) -> Number {
        if self.raw <= rhs.raw {
            self
        } else {
            rhs
        }
    }

    pub open spec fn max_spec(self, rhs: Number) -> Number {
        if self.raw >= rhs.raw {
            self
        } else {
            rhs
        }
    }

    pub open spec fn abs_spec(self) -> Number {
        if self.raw < 0 {
            self.neg_spec()
        } else {
            self
        }
    }

    /// The largest whole number that is not above `self`, as an integer.
    pub open spec fn floor_spec(self) -> int {
        floor_div(self.raw as int, SCALE as int)
    }

    /// The smallest whole number that is not below `self`, as an integer.
    pub open spec fn ceil_spec(self) -> int {
        ceil_div(self.raw as int, SCALE as int)
    }

    /// The number as one of the 256 levels of a colour channel, `1` being the highest:
    /// multiplied by 255 and rounded to the nearest whole number, between 0 and 255.
    pub open spec fn round_to_u8_spec(self) -> u8 {
        let v = self.mul_ratio_spec(255, 1).raw as int;
        if v <= 0 {
            0u8
        } else {
            let q = (v + SCALE as int / 2) / (SCALE as int);
            if q > 255 {
                255u8
            } else {
                q as u8
            }
        }
    }

    /// As [`Number::round_to_u8_spec`], but rounded down.
    pub open spec fn trunc_to_u8_spec(self) -> u8 {
        let v = self.mul_ratio_spec(255, 1).raw as int;
        if v <= 0 {
            0u8
        } else {
            let q = v / (SCALE as int);
            if q > 255 {
                255u8
            } else {
                q as u8
            }
        }
    }

    /// The square root rounded down to a millionth; `0` for a negative number.
    pub open spec fn sqrt_spec(self) -> Number {
        if self.raw <= 0 {
            Number { raw: 0 }
        } else {
            Number { raw: int_sqrt(self.raw as int * SCALE as int) as i64 }
        }
    }

    pub fn from_raw(raw: i64) -> (r: Number)
        ensures
            r.raw == raw,
    {
        Number { raw }
    }

    pub fn zero() -> (r: Number)
        ensures
            r == Number::zero_spec(),
    {
        Number { raw: 0 }
    }

    pub fn one() -> (r: Number)
        ensures
            r == Number::one_spec(),
    {
        Number { raw: SCALE }
    }

    /// The whole number `v`.
    pub fn from_int(v: i64) -> (r: Number)
        ensures
            r == Number::from_int_spec(v),
    {
        let raw: i64 = mul_div_raw(v, SCALE, 1);
        Number { raw }
    }

    /// The fraction `n / d`, rounded toward zero to a millionth; `0` when `d` is `0`.
    pub fn from_ratio(n: i64, d: i64) -> (r: Number)
        ensures
            r == Number::from_ratio_spec(n, d),
    {
        let raw: i64 = mul_div_raw(n, SCALE, d);
        Number { raw }
    }

    pub fn add(self, rhs: Number) -> (r: Number)
        ensures
            r == self.add_spec(rhs),
    {
        let v: i128 = self.raw as i128 + rhs.raw as i128;
        if v < 0 {
            let m: i128 = -v;
            Number { raw: saturate_signed(true, m as u128) }
        } else {
            Number { raw: saturate_signed(false, v as u128) }
        }
    }

    pub fn sub(self, rhs: Number) -> (r: Number)
        ensures
            r == self.sub_spec(rhs),
    {
        let v: i128 = self.raw as i128 - rhs.raw as i128;
        if v < 0 {
            let m: i128 = -v;
            Number { raw: saturate_signed(true, m as u128) }
        } else {
            Number { raw: saturate_signed(false, v as u128) }
        }
    }

    pub fn neg(self) -> (r: Number)
        ensures
            r == self.neg_spec(),
    {
        let m: u128 = magnitude(self.raw);
        Number { raw: saturate_signed(self.raw > 0, m) }
    }

    pub fn mul(self, rhs: Number) -> (r: Number)
        ensures
            r == self.mul_spec(rhs),
    {
        Number { raw: mul_div_raw(self.raw, rhs.raw, SCALE) }
    }

    pub fn div(self, rhs: Number) -> (r: Number)
        ensures
            r == self.div_spec(rhs),
    {
        if rhs.raw == 0 {
            if self.raw > 0 {
                Number { raw: RAW_MAX }
            } else if self.raw < 0 {
                Number { raw: RAW_MIN }
            } else {
                Number { raw: 0 }
            }
        } else {
            Number { raw: mul_div_raw(self.raw, SCALE, rhs.raw) }
        }
    }

    pub fn div_floor(self, rhs: Number) -> (r: Number)
        ensures
            r == self.div_floor_spec(rhs),
    {
        if rhs.raw == 0 {
            return self.div(rhs);
        }
        let mn: u128 = magnitude(self.raw);
        let md: u128 = magnitude(rhs.raw);
        assert(mn * 1_000_000 <= 0x8000_0000_0000_0000 * 1_000_000) by (nonlinear_arith)
            requires
                mn <= 0x8000_0000_0000_0000,
        ;
        let n: u128 = mn * (SCALE as u128);
        let q: u128 = n / md;
        let rem: u128 = n % md;
        let negative: bool = (self.raw < 0) != (rhs.raw < 0);
        proof {
            lemma_floor_by_magnitudes(self.raw as int * SCALE as int, rhs.raw as int, n as int, md as int);
        }
        if negative && rem != 0 {
            Number { raw: saturate_signed(true, q + 1) }
        } else {
            Number { raw: saturate_signed(negative, q) }
        }
    }

    pub fn mul_ratio(self, n: i64, d: i64) -> (r: Number)
        ensures
            r == self.mul_ratio_spec(n, d),
    {
        Number { raw: mul_div_raw(self.raw, n, d) }
    }

    pub fn round_to_u8(self) -> (r: u8)
        ensures
            r == self.round_to_u8_spec(),
    {
        let v: i64 = self.mul_ratio(255, 1).raw;
        if v <= 0 {
            0
        } else {
            let q: i128 = (v as i128 + (SCALE as i128) / 2) / (SCALE as i128);
            if q > 255 {
                255
            } else {
                q as u8
            }
        }
    }

    pub fn trunc_to_u8(self) -> (r: u8)
        ensures
            r == self.trunc_to_u8_spec(),
    {
        let v: i64 = self.mul_ratio(255, 1).raw;
        if v <= 0 {
            0
        } else {
            let q: i64 = v / SCALE;
            if q > 255 {
                255
            } else {
                q as u8
            }
        }
    }

    /// The largest whole number that is not above `self`.
    pub fn floor(self) -> (r: i64)
        ensures
            r == self.floor_spec(),
    {
        let m: u128 = magnitude(self.raw);
        let q: u128 = m / (SCALE as u128);
        let rem: u128 = m % (SCALE as u128);
        proof {
            lemma_floor_by_magnitudes(self.raw as int, SCALE as int, m as int, SCALE as int);
        }
        if self.raw < 0 {
            if rem != 0 {
                -((q + 1) as i64)
            } else {
                -(q as i64)
            }
        } else {
            q as i64
        }
    }

    /// The smallest whole number that is not below `self`.
    pub fn ceil(self) -> (r: i64)
        ensures
            r == self.ceil_spec(),
    {
        let m: u128 = magnitude(self.raw);
        let q: u128 = m / (SCALE as u128);
        let rem: u128 = m % (SCALE as u128);
        proof {
            lemma_floor_by_magnitudes(-(self.raw as int), SCALE as int, m as int, SCALE as int);
        }
        if self.raw > 0 {
            if rem != 0 {
                (q + 1) as i64
            } else {
                q as i64
            }
        } else {
            -(q as i64)
        }
    }

    /// The square root, rounded down to a millionth; `0` for a negative number.
    pub fn sqrt(self) -> (r: Number)
        ensures
            r == self.sqrt_spec(),
    {
        if self.raw <= 0 {
            return Number { raw: 0 };
        }
        let m: u128 = self.raw as u128;
        assert(m * 1_000_000 <= 0x7fff_ffff_ffff_ffff * 1_000_000) by (nonlinear_arith)
            requires
                m <= 0x7fff_ffff_ffff_ffff,
        ;
        let v: u128 = m * (SCALE as u128);
        // the root lies in lo ..= hi
        let mut lo: u128 = 0;
        let mut hi: u128 = 0x1_0000_0000_0000;
        assert(v < 0x1_0000_0000_0000_0000_0000_0000);
        assert(0x1_0000_0000_0000_0000_0000_0000 == (0x1_0000_0000_0000 + 1) * (0x1_0000_0000_0000
            + 1) - 2 * 0x1_0000_0000_0000 - 1) by (nonlinear_arith);
        while lo < hi
            invariant
                lo <= hi <= 0x1_0000_0000_0000,
                lo * lo <= v,
                v < (hi + 1) * (hi + 1),
            decreases hi - lo,
        {
            let mid: u128 = lo + (hi - lo + 1) / 2;
            assert(mid * mid <= 0x1_0000_0000_0000_0000_0000_0000) by (nonlinear_arith)
                requires
                    mid <= 0x1_0000_0000_0000,
            ;
            if mid * mid <= v {
                lo = mid;
            } else {
                hi = mid - 1;
            }
        }
        proof {
            lemma_int_sqrt_unique(v as int, lo as int);
            assert(lo < 0x8000_0000_0000_0000);
        }
        Number { raw: lo as i64 }
    }

    pub fn lt(self, rhs: Number) -> (r: bool)
        ensures
            r == self.lt_spec(rhs),
    {
        self.raw < rhs.raw
    }

    pub fn le(self, rhs: Number) -> (r: bool)
        ensures
            r == self.le_spec(rhs),
    {
        self.raw <= rhs.raw
    }

    pub fn is_zero(self) -> (r: bool)
        ensures
            r == (self.raw == 0),
    {
        self.raw == 0
    }

    pub fn is_positive(self) -> (r: bool)
        ensures
            r == (self.raw > 0),
    {
        self.raw > 0
    }

    pub fn min(self, rhs: Number) -> (r: Number)
        ensures
            r == self.min_spec(rhs),
    {
        if self.raw <= rhs.raw {
            self
        } else {
            rhs
        }
    }

    pub fn max(self, rhs: Number) -> (r: Number)
        ensures
            r == self.max_spec(rhs),
    {
        if self.raw >= rhs.raw {
            self
        } else {
            rhs
        }
    }

    pub fn abs(self) -> (r: Number)
        ensures
            r == self.abs_spec(),
    {
        if self.raw < 0 {
            self.neg()
        } else {
            self
        }
    }
}

/// A full turn in degrees, in millionths.
pub const FULL_TURN: i64 = 360_000_000;

/// A quarter turn in degrees, in millionths.
pub const QUARTER_TURN: i64 = 90_000_000;

/// An eighth of a turn in degrees, in millionths.
pub const EIGHTH_TURN: i64 = 45_000_000;

/// Half a turn in radians, in millionths.
pub const PI_MICROS: i64 = 3_141_593;

/// Half a turn in degrees, in millionths.
pub const HALF_TURN: i64 = 180_000_000;

/// The angle `raw` (degrees, in millionths) brought into `0 .. FULL_TURN`.
pub open spec fn reduce_angle(raw: int) -> int {
    if raw >= 0 {
        raw % (FULL_TURN as int)
    } else {
        let r = (-raw) % (FULL_TURN as int);
        if r == 0 {
            0
        } else {
            FULL_TURN as int - r
        }
    }
}

fn reduce_angle_exec(raw: i64) -> (r: i64)
    ensures
        r as int == reduce_angle(raw as int),
        0 <= r < FULL_TURN,
{
    let m: u128 = magnitude(raw);
    let rem: u128 = m % (FULL_TURN as u128);
    if raw >= 0 || rem == 0 {
        rem as i64
    } else {
        FULL_TURN - (rem as i64)
    }
}

impl Number {
    /// The sine of an angle of at most an eighth of a turn, given in radians: the terms of its
    /// power series up to the ninth power.
    pub open spec fn sin_series(self) -> Number {
        let x = self;
        let x2 = x.mul_spec(x);
        let x3 = x2.mul_spec(x);
        let x5 = x3.mul_spec(x2);
        let x7 = x5.mul_spec(x2);
        let x9 = x7.mul_spec(x2);
        x.sub_spec(x3.mul_ratio_spec(1, 6)).add_spec(x5.mul_ratio_spec(1, 120)).sub_spec(
            x7.mul_ratio_spec(1, 5040),
        ).add_spec(x9.mul_ratio_spec(1, 362880))
    }

    /// The cosine of an angle of at most an eighth of a turn, given in radians: the terms of
    /// its power series up to the eighth power.
    pub open spec fn cos_series(self) -> Number {
        let x = self;
        let x2 = x.mul_spec(x);
        let x4 = x2.mul_spec(x2);
        let x6 = x4.mul_spec(x2);
        let x8 = x6.mul_spec(x2);
        Number::one_spec().sub_spec(x2.mul_ratio_spec(1, 2)).add_spec(x4.mul_ratio_spec(1, 24))
            .sub_spec(x6.mul_ratio_spec(1, 720)).add_spec(x8.mul_ratio_spec(1, 40320))
    }

    /// The sine and cosine of an angle between `0` and a quarter turn, in degrees. Up to an
    /// eighth of a turn the series are taken of the angle, above it of what it lacks to a
    /// quarter turn, with sine and cosine exchanged.
    pub open spec fn sin_cos_first_quadrant(self) -> (Number, Number) {
        if self.raw <= EIGHTH_TURN {
            let x = self.mul_ratio_spec(PI_MICROS, HALF_TURN);
            (x.sin_series(), x.cos_series())
        } else {
            let x = Number { raw: (QUARTER_TURN - self.raw) as i64 }.mul_ratio_spec(
                PI_MICROS,
                HALF_TURN,
            );
            (x.cos_series(), x.sin_series())
        }
    }

    /// The sine and the cosine of this angle in degrees. The angle is brought into a full
    /// turn, its quarter is told apart, and the rest goes to
    /// [`Number::sin_cos_first_quadrant`]; at whole quarter turns the result is exact.
    pub open spec fn sin_cos_spec(self) -> (Number, Number) {
        let a = reduce_angle(self.raw as int);
        let quarter = a / (QUARTER_TURN as int);
        let rest = Number { raw: (a % (QUARTER_TURN as int)) as i64 };
        let (s, c) = rest.sin_cos_first_quadrant();
        if quarter == 0 {
            (s, c)
        } else if quarter == 1 {
            (c, s.neg_spec())
        } else if quarter == 2 {
            (s.neg_spec(), c.neg_spec())
        } else {
            (c.neg_spec(), s)
        }
    }

    /// The tangent of this angle in degrees: its sine divided by its cosine.
    pub open spec fn tan_spec(self) -> Number {
        let (s, c) = self.sin_cos_spec();
        s.div_spec(c)
    }

    fn sin_series_exec(self) -> (r: Number)
        ensures
            r == self.sin_series(),
    {
        let x = self;
        let x2 = x.mul(x);
        let x3 = x2.mul(x);
        let x5 = x3.mul(x2);
        let x7 = x5.mul(x2);
        let x9 = x7.mul(x2);
        x.sub(x3.mul_ratio(1, 6)).add(x5.mul_ratio(1, 120)).sub(x7.mul_ratio(1, 5040)).add(
            x9.mul_ratio(1, 362880),
        )
    }

    fn cos_series_exec(self) -> (r: Number)
        ensures
            r == self.cos_series(),
    {
        let x = self;
        let x2 = x.mul(x);
        let x4 = x2.mul(x2);
        let x6 = x4.mul(x2);
        let x8 = x6.mul(x2);
        Number::one().sub(x2.mul_ratio(1, 2)).add(x4.mul_ratio(1, 24)).sub(
            x6.mul_ratio(1, 720),
        ).add(x8.mul_ratio(1, 40320))
    }

    /// The sine and the cosine of this angle in degrees.
    pub fn sin_cos(self) -> (r: (Number, Number))
        ensures
            r == self.sin_cos_spec(),
    {
        let a: i64 = reduce_angle_exec(self.raw);
        let quarter: i64 = a / QUARTER_TURN;
        let rest: i64 = a % QUARTER_TURN;
        let (s, c) = if rest <= EIGHTH_TURN {
            let x = Number { raw: rest }.mul_ratio(PI_MICROS, HALF_TURN);
            (x.sin_series_exec(), x.cos_series_exec())
        } else {
            let x = Number { raw: QUARTER_TURN - rest }.mul_ratio(PI_MICROS, HALF_TURN);
            (x.cos_series_exec(), x.sin_series_exec())
        };
        if quarter == 0 {
            (s, c)
        } else if quarter == 1 {
            (c, s.neg())
        } else if quarter == 2 {
            (s.neg(), c.neg())
        } else {
            (c.neg(), s)
        }
    }

    /// The tangent of this angle in degrees.
    pub fn tan(self) -> (r: Number)
        ensures
            r == self.tan_spec(),
    {
        let (s, c) = self.sin_cos();
        s.div(c)
    }
}

impl DeepView for Number {
    type V = Number;

    open spec fn deep_view(&self) -> Number {
        *self
    }
}

/// Multiplying by one changes nothing.
pub proof fn lemma_mul_one(a: Number)
    ensures
        a.mul_spec(Number::one_spec()) == a,
        Number::one_spec().mul_spec(a) == a,
{
    let s = SCALE as int;
    let v = a.raw as int;
    assert((v * s) / s == v) by (nonlinear_arith)
        requires
            s > 0,
    ;
    assert(((-v) * s) / s == -v) by (nonlinear_arith)
        requires
            s > 0,
    ;
    assert(-(v * s) == (-v) * s) by (nonlinear_arith);
    assert(s * v == v * s) by (nonlinear_arith);
    assert(v >= 0 ==> v * s >= 0) by (nonlinear_arith)
        requires
            s > 0,
    ;
    assert(v < 0 ==> v * s < 0) by (nonlinear_arith)
        requires
            s > 0,
    ;
}

/// Multiplying by zero gives zero.
pub proof fn lemma_mul_zero(a: Number)
    ensures
        a.mul_spec(Number::zero_spec()) == Number::zero_spec(),
        Number::zero_spec().mul_spec(a) == Number::zero_spec(),
{
    assert(a.raw as int * 0 == 0) by (nonlinear_arith);
    assert(0 * a.raw as int == 0) by (nonlinear_arith);
}

} // verus!
