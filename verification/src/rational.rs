//! Exact ratios, and the conversion of lengths from one edit rate to
//! another.

use vstd::prelude::*;
use vstd::arithmetic::div_mod::lemma_fundamental_div_mod_converse;

verus! {

/// An exact ratio of two signed 32-bit integers: an edit rate, an aspect
/// ratio or a sampling rate. The pair is kept as given and never reduced.
#[derive(Clone, Copy, Debug, PartialEq, Eq, Structural, Hash)]
pub struct MXFRational {
    pub numerator: i32,
    pub denominator: i32,
}

impl MXFRational {
    /// A ratio that measures time: neither part is zero, so lengths can be
    /// converted both to it and from it.
    pub open spec fn spec_is_rate(self) -> bool {
        self.numerator != 0 && self.denominator != 0
    }

    /// The ratio rounded to the nearest integer, halves upwards.
    pub open spec fn spec_rounded(self) -> int
        recommends
            self.denominator != 0,
    {
        round_half_up(self.numerator as int, self.denominator as int)
    }

    pub fn new(numerator: i32, denominator: i32) -> (r: MXFRational)
        ensures
            r.numerator == numerator,
            r.denominator == denominator,
    {
        MXFRational { numerator, denominator }
    }

    pub fn is_rate(&self) -> (b: bool)
        ensures
            b == self.spec_is_rate(),
    {
        self.numerator != 0 && self.denominator != 0
    }

    /// Rounds the ratio to the nearest integer, halves upwards.
    pub fn rounded(&self) -> (r: i64)
        requires
            self.denominator != 0,
        ensures
            r == self.spec_rounded(),
    {
        let n: i128 = self.numerator as i128;
        let d: i128 = self.denominator as i128;
        let q: i128 = round_div(n, d);
        proof {
            lemma_round_half_up_bound(n as int, d as int, 0x8000_0000);
        }
        q as i64
    }
}

impl Default for MXFRational {
    fn default() -> (r: MXFRational)
        ensures
            r.numerator == 0,
            r.denominator == 0,
    {
        MXFRational { numerator: 0, denominator: 0 }
    }
}

/// `n / d` rounded to the nearest integer, with halves rounded upwards:
/// the floor of `n / d + 1/2`.
pub open spec fn round_half_up(n: int, d: int) -> int
    recommends
        d != 0,
{
    if d > 0 {
        (2 * n + d) / (2 * d)
    } else {
        (2 * (-n) + (-d)) / (2 * (-d))
    }
}

/// The value of `x` brought into the range of `i64`.
pub open spec fn saturate_i64(x: int) -> i64 {
    if x > i64::MAX {
        i64::MAX
    } else if x < i64::MIN {
        i64::MIN
    } else {
        x as i64
    }
}

/// A length measured at `source` re-expressed in units of `target`:
/// `length * target / source`, rounded half up, kept within `i64`.
pub open spec fn spec_convert_length(target: MXFRational, source: MXFRational, length: i64) -> i64
    recommends
        target.denominator != 0,
        source.numerator != 0,
{
    saturate_i64(
        round_half_up(
            length * target.numerator * source.denominator,
            target.denominator * source.numerator,
        ),
    )
}

/// `length_a` minus `length_b` re-expressed at `rate_a`, kept within `i64`:
/// zero when the two are as long, positive when `a` is longer.
pub open spec fn spec_compare_length(
    rate_a: MXFRational,
    length_a: i64,
    rate_b: MXFRational,
    length_b: i64,
) -> i64
    recommends
        rate_a.denominator != 0,
        rate_b.numerator != 0,
{
    saturate_i64(length_a - spec_convert_length(rate_a, rate_b, length_b))
}

proof fn lemma_floor_div_negative(a: int, b: int)
    requires
        a < 0,
        b > 0,
    ensures
        a / b == -(((-a) + b - 1) / b),
{
    let m = (-a) + b - 1;
    let q = m / b;
    let r = m % b;
    assert(m == b * q + r && 0 <= r < b) by (nonlinear_arith)
        requires
            b > 0,
            q == m / b,
            r == m % b,
    ;
    // a == -m + b - 1 == b * (-q) + (b - 1 - r)
    assert(a == (-q) * b + (b - 1 - r)) by (nonlinear_arith)
        requires
            m == b * q + r,
            m == (-a) + b - 1,
    ;
    lemma_fundamental_div_mod_converse(a, b, -q, b - 1 - r);
}

proof fn lemma_round_half_up_bound(n: int, d: int, bound: int)
    requires
        d != 0,
        bound >= 0,
        -bound <= n <= bound,
    ensures
        -bound - 1 <= round_half_up(n, d) <= bound + 1,
{
    let (n2, d2) = if d > 0 {
        (n, d)
    } else {
        (-n, -d)
    };
    let a = 2 * n2 + d2;
    let b = 2 * d2;
    let q = a / b;
    assert(-bound - 1 <= q <= bound + 1) by (nonlinear_arith)
        requires
            d2 >= 1,
            a == 2 * n2 + d2,
            b == 2 * d2,
            q == a / b,
            -bound <= n2 <= bound,
            bound >= 0,
    ;
}

/// The floor of `a / b` for a positive `b`.
fn floor_div(a: i128, b: i128) -> (q: i128)
    requires
        b > 0,
        a > i128::MIN + b,
    ensures
        q == a as int / b as int,
{
    if a >= 0 {
        a / b
    } else {
        proof {
            lemma_floor_div_negative(a as int, b as int);
        }
        let m: i128 = (-a) + b - 1;
        -(m / b)
    }
}

/// `n / d` rounded to the nearest integer, halves upwards.
fn round_div(n: i128, d: i128) -> (q: i128)
    requires
        d != 0,
        -0x2000_0000_0000_0000_0000_0000_0000_0000 <= n <= 0x2000_0000_0000_0000_0000_0000_0000_0000,
        -0x4000_0000_0000_0000 <= d <= 0x4000_0000_0000_0000,
    ensures
        q == round_half_up(n as int, d as int),
{
    if d > 0 {
        floor_div(2 * n + d, 2 * d)
    } else {
        floor_div(2 * (-n) + (-d), 2 * (-d))
    }
}

pub(crate) fn saturate(x: i128) -> (r: i64)
    ensures
        r == saturate_i64(x as int),
{
    if x > i64::MAX as i128 {
        i64::MAX
    } else if x < i64::MIN as i128 {
        i64::MIN
    } else {
        x as i64
    }
}

/// Re-expresses `length`, measured at the rate `source`, in units of the
/// rate `target`.
pub fn convert_length(target: &MXFRational, source: &MXFRational, length: i64) -> (r: i64)
    requires
        target.denominator != 0,
        source.numerator != 0,
    ensures
        r == spec_convert_length(*target, *source, length),
{
    let tn: i128 = target.numerator as i128;
    let td: i128 = target.denominator as i128;
    let sn: i128 = source.numerator as i128;
    let sd: i128 = source.denominator as i128;
    let l: i128 = length as i128;
    assert(-0x4000_0000_0000_0000_0000_0000 <= l * tn <= 0x4000_0000_0000_0000_0000_0000)
        by (nonlinear_arith)
        requires
            -0x8000_0000_0000_0000 <= l <= 0x8000_0000_0000_0000,
            -0x8000_0000 <= tn <= 0x8000_0000,
    ;
    let ltn: i128 = l * tn;
    assert(-0x2000_0000_0000_0000_0000_0000_0000_0000 <= ltn * sd
        <= 0x2000_0000_0000_0000_0000_0000_0000_0000) by (nonlinear_arith)
        requires
            -0x4000_0000_0000_0000_0000_0000 <= ltn <= 0x4000_0000_0000_0000_0000_0000,
            -0x8000_0000 <= sd <= 0x8000_0000,
    ;
    let n: i128 = ltn * sd;
    assert(-0x4000_0000_0000_0000 <= td * sn <= 0x4000_0000_0000_0000 && td * sn != 0)
        by (nonlinear_arith)
        requires
            -0x8000_0000 <= td <= 0x8000_0000,
            -0x8000_0000 <= sn <= 0x8000_0000,
            td != 0,
            sn != 0,
    ;
    let d: i128 = td * sn;
    saturate(round_div(n, d))
}

/// Compares two lengths measured at different rates: `length_a` minus
/// `length_b` re-expressed at `edit_rate_a`.
pub fn compare_length(
    edit_rate_a: &MXFRational,
    length_a: i64,
    edit_rate_b: &MXFRational,
    length_b: i64,
) -> (r: i64)
    requires
        edit_rate_a.denominator != 0,
        edit_rate_b.numerator != 0,
    ensures
        r == spec_compare_length(*edit_rate_a, length_a, *edit_rate_b, length_b),
{
    let converted: i64 = convert_length(edit_rate_a, edit_rate_b, length_b);
    saturate(length_a as i128 - converted as i128)
}

/// Converting a length to the rate it is already measured at changes
/// nothing.
pub proof fn lemma_convert_length_identity(rate: MXFRational, length: i64)
    requires
        rate.spec_is_rate(),
    ensures
        spec_convert_length(rate, rate, length) == length,
{
    let n = rate.numerator as int;
    let d = rate.denominator as int;
    let l = length as int;
    let big_n = l * n * d;
    let big_d = d * n;
    assert(big_d != 0) by (nonlinear_arith)
        requires
            big_d == d * n,
            n != 0,
            d != 0,
    ;
    if big_d > 0 {
        assert(2 * big_n + big_d == l * (2 * big_d) + big_d) by (nonlinear_arith)
            requires
                big_n == l * n * d,
                big_d == d * n,
        ;
        lemma_fundamental_div_mod_converse(2 * big_n + big_d, 2 * big_d, l, big_d);
    } else {
        assert(2 * (-big_n) + (-big_d) == l * (2 * (-big_d)) + (-big_d)) by (nonlinear_arith)
            requires
                big_n == l * n * d,
                big_d == d * n,
        ;
        lemma_fundamental_div_mod_converse(2 * (-big_n) + (-big_d), 2 * (-big_d), l, -big_d);
    }
    assert(round_half_up(big_n, big_d) == l);
}

/// A length compared with itself at one rate is equal to itself.
pub proof fn lemma_compare_length_self(rate: MXFRational, length: i64)
    requires
        rate.spec_is_rate(),
    ensures
        spec_compare_length(rate, length, rate, length) == 0,
{
    lemma_convert_length_identity(rate, length);
}

} // verus!
