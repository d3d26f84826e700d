//! Exact decimal arithmetic for money amounts and fee rates.
//!
//! A `Dec` denotes the rational number `m / 10^s`.  All operations here are
//! exact: nothing is ever rounded.  Overflow is ruled out by keeping every
//! mantissa strictly below `MANTISSA_BOUND` and every scale at most
//! `MAX_SCALE`, so that any cross-multiplied comparison or sum still fits in
//! an `i128`.

use vstd::prelude::*;
use vstd::arithmetic::power::{pow, lemma_pow_adds, lemma_pow_positive, lemma_pow_increases};

verus! {

/// Largest scale (number of decimal places) a well-formed `Dec` may carry.
pub const MAX_SCALE: u32 = 12;

/// Exclusive bound on the magnitude of a well-formed mantissa: 10^24.
pub const MANTISSA_BOUND: i128 = 1_000_000_000_000_000_000_000_000;

/// An exact decimal number: the rational `m / 10^s`.
#[derive(Clone, Copy, Debug)]
pub struct Dec {
    /// Mantissa.
    pub m: i128,
    /// Scale: the power of ten dividing the mantissa.
    pub s: u32,
}

/// 10 to the power `n`.
pub open spec fn pow10(n: nat) -> int {
    pow(10, n)
}

/// A decimal the rest of the library may hold: scale and mantissa bounded so
/// that comparisons and sums cannot overflow.
pub open spec fn dec_wf(d: Dec) -> bool {
    d.s <= MAX_SCALE && -MANTISSA_BOUND < d.m < MANTISSA_BOUND
}

/// The integer numerator of `d` rewritten over the denominator `10^s`.
pub open spec fn num_at(d: Dec, s: nat) -> int
    recommends
        d.s <= s,
{
    d.m * pow10((s - d.s) as nat)
}

/// `a` and `b` denote the same rational number (compared by
/// cross-multiplication over the common denominator `10^(a.s + b.s)`).
pub open spec fn same_value(a: Dec, b: Dec) -> bool {
    a.m * pow10(b.s as nat) == b.m * pow10(a.s as nat)
}

pub proof fn lemma_pow10_pos(n: nat)
    ensures
        pow10(n) >= 1,
{
    lemma_pow_positive(10, n);
}

pub proof fn lemma_pow10_adds(a: nat, b: nat)
    ensures
        pow10(a + b) == pow10(a) * pow10(b),
{
    lemma_pow_adds(10, a, b);
}

/// `pow10` is monotone, so every scale up to `MAX_SCALE` gives a factor of at
/// most `10^MAX_SCALE`.
pub proof fn lemma_pow10_le(a: nat, b: nat)
    requires
        a <= b,
    ensures
        pow10(a) <= pow10(b),
{
    lemma_pow_increases(10, a, b);
}

/// The concrete values of the powers of ten this module's bounds rest on.
pub proof fn lemma_pow10_values()
    ensures
        pow10(0) == 1,
        pow10(1) == 10,
        pow10(2) == 100,
        pow10(12) == 1_000_000_000_000,
        pow10(24) == MANTISSA_BOUND,
{
    reveal_with_fuel(pow, 25);
}

impl Dec {
    /// Build a decimal from an integer mantissa and a scale.
    pub fn new(m: i64, s: u32) -> (r: Dec)
        requires
            s <= MAX_SCALE,
        ensures
            r.m == m,
            r.s == s,
            dec_wf(r),
    {
        Dec { m: m as i128, s }
    }

    /// The number zero, at scale zero.
    pub fn zero() -> (r: Dec)
        ensures
            r.m == 0,
            r.s == 0,
            dec_wf(r),
    {
        Dec { m: 0, s: 0 }
    }
}

/// 10^n as an `i128`, for the scales a well-formed decimal may carry.
pub fn pow10_i128(n: u32) -> (r: i128)
    requires
        n <= MAX_SCALE,
    ensures
        r == pow10(n as nat),
{
    proof {
        lemma_pow10_values();
    }
    let mut r: i128 = 1;
    let mut i: u32 = 0;
    while i < n
        invariant
            i <= n,
            n <= MAX_SCALE,
            r == pow10(i as nat),
        decreases n - i,
    {
        proof {
            lemma_pow10_adds(i as nat, 1);
            lemma_pow10_values();
            lemma_pow10_le((i + 1) as nat, 12);
            lemma_pow10_pos(i as nat);
        }
        r = r * 10;
        i = i + 1;
    }
    r
}

/// Exclusive bound on any cross product `m * 10^e` of a well-formed
/// mantissa and scale: 10^36, comfortably inside an `i128`.
pub const CROSS_BOUND: i128 = 1_000_000_000_000_000_000_000_000_000_000_000_000;

/// The cross product `d.m * 10^e` stays inside an `i128` whenever `d` is
/// well formed and `e` is at most the maximal scale.
proof fn lemma_cross_mul_fits(m: int, e: nat)
    requires
        -MANTISSA_BOUND < m < MANTISSA_BOUND,
        e <= MAX_SCALE,
    ensures
        -CROSS_BOUND < m * pow10(e) < CROSS_BOUND,
{
    lemma_pow10_values();
    lemma_pow10_pos(e);
    lemma_pow10_le(e, 12);
    assert(-CROSS_BOUND < m * pow10(e) < CROSS_BOUND)
        by (nonlinear_arith)
        requires
            -MANTISSA_BOUND < m < MANTISSA_BOUND,
            1 <= pow10(e) <= 1_000_000_000_000,
            MANTISSA_BOUND == 1_000_000_000_000_000_000_000_000i128,
            CROSS_BOUND == 1_000_000_000_000_000_000_000_000_000_000_000_000i128,
    ;
}

/// Whether two well-formed decimals denote the same number.
pub fn dec_eq(a: &Dec, b: &Dec) -> (r: bool)
    requires
        dec_wf(*a),
        dec_wf(*b),
    ensures
        r == same_value(*a, *b),
{
    proof {
        lemma_cross_mul_fits(a.m as int, b.s as nat);
        lemma_cross_mul_fits(b.m as int, a.s as nat);
    }
    let left: i128 = a.m * pow10_i128(b.s);
    let right: i128 = b.m * pow10_i128(a.s);
    left == right
}

/// The common scale two decimals are brought to before adding or
/// comparing: the larger of the two.
pub open spec fn common_scale(a: Dec, b: Dec) -> u32 {
    if a.s >= b.s {
        a.s
    } else {
        b.s
    }
}

/// Whether the exact sum of `a` and `b` still has a well-formed mantissa.
pub open spec fn add_fits(a: Dec, b: Dec) -> bool {
    -MANTISSA_BOUND < num_at(a, common_scale(a, b) as nat) + num_at(b, common_scale(a, b) as nat)
        < MANTISSA_BOUND
}

/// The exact sum of `a` and `b`, written over the common scale.
pub open spec fn add_spec(a: Dec, b: Dec) -> Dec {
    Dec {
        m: (num_at(a, common_scale(a, b) as nat) + num_at(b, common_scale(a, b) as nat)) as i128,
        s: common_scale(a, b),
    }
}

/// Exact sum of two well-formed decimals, at the larger of the two scales.
/// Returns `None` exactly when the resulting mantissa would leave the
/// well-formed range.
pub fn dec_add(a: &Dec, b: &Dec) -> (r: Option<Dec>)
    requires
        dec_wf(*a),
        dec_wf(*b),
    ensures
        r == if add_fits(*a, *b) {
            Some(add_spec(*a, *b))
        } else {
            None::<Dec>
        },
        add_fits(*a, *b) ==> dec_wf(add_spec(*a, *b)),
{
    let s: u32 = if a.s >= b.s { a.s } else { b.s };
    proof {
        lemma_cross_mul_fits(a.m as int, (s - a.s) as nat);
        lemma_cross_mul_fits(b.m as int, (s - b.s) as nat);
        lemma_pow10_values();
    }
    let am: i128 = a.m * pow10_i128(s - a.s);
    let bm: i128 = b.m * pow10_i128(s - b.s);
    let sum: i128 = am + bm;
    if -MANTISSA_BOUND < sum && sum < MANTISSA_BOUND {
        Some(Dec { m: sum, s })
    } else {
        None
    }
}

/// Exact product of two well-formed decimals: mantissas multiply and scales
/// add.  Returns `None` exactly when the product leaves the well-formed
/// range.
pub fn dec_mul(a: &Dec, b: &Dec) -> (r: Option<Dec>)
    requires
        dec_wf(*a),
        dec_wf(*b),
    ensures
        match r {
            Some(c) => c.m == a.m * b.m && c.s == a.s + b.s && dec_wf(c),
            None => !(-MANTISSA_BOUND < a.m * b.m < MANTISSA_BOUND) || a.s + b.s > MAX_SCALE,
        },
{
    if a.s + b.s > MAX_SCALE {
        return None;
    }
    match a.m.checked_mul(b.m) {
        Some(p) => {
            if -MANTISSA_BOUND < p && p < MANTISSA_BOUND {
                Some(Dec { m: p, s: a.s + b.s })
            } else {
                None
            }
        },
        None => {
            proof {
                lemma_pow10_values();
            }
            None
        },
    }
}

/// Exact division by 100: the scale grows by two, the mantissa is untouched.
/// Returns `None` exactly when the scale would pass `MAX_SCALE`.
pub fn dec_div100(a: &Dec) -> (r: Option<Dec>)
    requires
        dec_wf(*a),
    ensures
        match r {
            Some(c) => c.m == a.m && c.s == a.s + 2 && dec_wf(c),
            None => a.s + 2 > MAX_SCALE,
        },
{
    if a.s + 2 > MAX_SCALE {
        None
    } else {
        Some(Dec { m: a.m, s: a.s + 2 })
    }
}

/// Whether the exact fee on `salary` at `rate` is representable.
pub open spec fn fee_fits(salary: Dec, rate: Dec) -> bool {
    &&& -MANTISSA_BOUND < salary.m * rate.m < MANTISSA_BOUND
    &&& salary.s + rate.s + 2 <= MAX_SCALE
}

/// The exact fee on `salary` at the percentage `rate`: mantissas multiply,
/// scales add, and the division by 100 raises the scale by two.
pub open spec fn fee_spec(salary: Dec, rate: Dec) -> Dec {
    Dec { m: (salary.m * rate.m) as i128, s: (salary.s + rate.s + 2) as u32 }
}

/// The fee owed on `salary` at the percentage `rate`: exactly
/// `salary * rate / 100`, computed as an exact decimal (mantissas multiply,
/// scales add, and dividing by 100 only raises the scale by two).
/// Returns `None` exactly when the product leaves the well-formed range.
pub fn fee_amount(salary: &Dec, rate: &Dec) -> (r: Option<Dec>)
    requires
        dec_wf(*salary),
        dec_wf(*rate),
    ensures
        r == if fee_fits(*salary, *rate) {
            Some(fee_spec(*salary, *rate))
        } else {
            None::<Dec>
        },
        fee_fits(*salary, *rate) ==> dec_wf(fee_spec(*salary, *rate)),
{
    if salary.s + rate.s + 2 > MAX_SCALE {
        return None;
    }
    match salary.m.checked_mul(rate.m) {
        Some(p) => {
            if -MANTISSA_BOUND < p && p < MANTISSA_BOUND {
                Some(Dec { m: p, s: salary.s + rate.s + 2 })
            } else {
                None
            }
        },
        None => {
            proof {
                lemma_pow10_values();
            }
            None
        },
    }
}

/// The computed fee is exactly `salary * rate / 100`, with no rounding: as
/// rationals, `100 * fee == salary * rate`, stated here by cross-multiplying
/// both sides over their denominators `10^fee.s` and `10^(salary.s + rate.s)`.
pub proof fn lemma_fee_is_exact(salary: Dec, rate: Dec, fee: Dec)
    requires
        fee.m == salary.m * rate.m,
        fee.s == salary.s + rate.s + 2,
    ensures
        100 * fee.m * pow10((salary.s + rate.s) as nat) == salary.m * rate.m * pow10(fee.s as nat),
{
    let e = (salary.s + rate.s) as nat;
    lemma_pow10_adds(e, 2);
    lemma_pow10_values();
    assert(100 * fee.m * pow10(e) == fee.m * (pow10(e) * 100)) by (nonlinear_arith);
}

/// Exactly `s` decimal digits of `n`, least significant last, padded
/// with leading zeros: the fractional part of a decimal rendering.
pub open spec fn frac_digits(n: int, s: nat) -> Seq<char>
    decreases s,
{
    if s == 0 {
        Seq::empty()
    } else {
        frac_digits(n / 10, (s - 1) as nat).push(crate::numeric::digit_char(n % 10))
    }
}

/// The decimal rendering of `d`: the integer part, and, at a positive
/// scale, a point and exactly `d.s` fractional digits.
pub open spec fn dec_string(d: Dec) -> Seq<char> {
    let sign: Seq<char> = if d.m < 0 {
        "-"@
    } else {
        ""@
    };
    let mag = if d.m < 0 {
        -(d.m as int)
    } else {
        d.m as int
    };
    if d.s == 0 {
        sign + crate::numeric::digits_of(mag)
    } else {
        sign + crate::numeric::digits_of(mag / pow10(d.s as nat)) + "."@ + frac_digits(
            mag % pow10(d.s as nat),
            d.s as nat,
        )
    }
}

/// Exactly `s` digits of `n`, with leading zeros.
fn frac_digit_string(n: i128, s: u32) -> (r: String)
    requires
        n >= 0,
    ensures
        r@ == frac_digits(n as int, s as nat),
    decreases s,
{
    if s == 0 {
        String::new()
    } else {
        let mut out = frac_digit_string(n / 10, s - 1);
        let d: u64 = (n % 10) as u64;
        out.append(crate::numeric::digit_str(d));
        out
    }
}

/// Render a well-formed decimal: sign, integer part, and, at a positive
/// scale, a point and exactly the scale's number of fractional digits.
pub fn dec_to_string(d: &Dec) -> (r: String)
    requires
        dec_wf(*d),
    ensures
        r@ == dec_string(*d),
{
    proof {
        reveal_strlit("-");
        reveal_strlit("");
        reveal_strlit(".");
        lemma_pow10_values();
        lemma_pow10_pos(d.s as nat);
        lemma_pow10_le(d.s as nat, 12);
    }
    let mag: i128 = if d.m < 0 {
        -d.m
    } else {
        d.m
    };
    let mut out = if d.m < 0 {
        String::from_str("-")
    } else {
        String::new()
    };
    if d.s == 0 {
        out.append(u128_digits(mag as u128).as_str());
        proof {
            assert(out@ =~= dec_string(*d));
        }
        out
    } else {
        let p = pow10_i128(d.s);
        out.append(u128_digits((mag / p) as u128).as_str());
        out.append(".");
        out.append(frac_digit_string(mag % p, d.s).as_str());
        proof {
            assert(out@ =~= dec_string(*d));
        }
        out
    }
}

/// The decimal digits of a non-negative number too wide for a u64.
fn u128_digits(n: u128) -> (r: String)
    ensures
        r@ == crate::numeric::digits_of(n as int),
    decreases n,
{
    if n < 10 {
        crate::numeric::digit_str(n as u64).to_owned()
    } else {
        let mut s = u128_digits(n / 10);
        s.append(crate::numeric::digit_str((n % 10) as u64));
        s
    }
}

/// Whether `r` is a percentage between 0 and 100 inclusive.
pub open spec fn rate_in_range_spec(r: Dec) -> bool {
    0 <= r.m && r.m <= 100 * pow10(r.s as nat)
}

/// Whether a well-formed decimal lies between 0 and 100 inclusive, as a fee
/// rate must.
pub fn rate_in_range(r: &Dec) -> (b: bool)
    requires
        dec_wf(*r),
    ensures
        b == rate_in_range_spec(*r),
{
    proof {
        lemma_pow10_values();
        lemma_pow10_le(r.s as nat, 12);
        lemma_pow10_pos(r.s as nat);
    }
    let p: i128 = pow10_i128(r.s);
    0 <= r.m && r.m <= 100 * p
}

} // verus!
