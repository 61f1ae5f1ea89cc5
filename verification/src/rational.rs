//! Exact rational sample values.
//!
//! Scaling a pixel value between formats is a linear map with integer
//! coefficients, so every intermediate quantity is a rational number. The
//! core carries samples as [`Rational`] values and all contracts speak about
//! the exact numerator/denominator pair; callers that want a machine float
//! can divide at the very end.

use vstd::arithmetic::power2::{lemma_pow2_pos, lemma_pow2_strictly_increases, pow2};
use vstd::prelude::*;

verus! {

/// An exact sample value: the fraction `num / den`.
///
/// The representation is not normalised; two values denote the same sample
/// exactly when they cross-multiply equal, see [`fraction_eq`].
#[derive(Clone, Copy, Debug, Eq, PartialEq, Structural)]
pub struct Rational {
    /// Numerator.
    pub num: i128,
    /// Denominator; positive for every well-formed value.
    pub den: i128,
}

/// `n1 / d1` and `n2 / d2` denote the same rational number (for positive
/// denominators).
pub open spec fn fraction_eq(n1: int, d1: int, n2: int, d2: int) -> bool {
    n1 * d2 == n2 * d1
}

impl Rational {
    /// A well-formed value has a positive denominator.
    pub open spec fn wf(self) -> bool {
        self.den > 0
    }

    /// The fraction `num / den`.
    pub fn new(num: i128, den: i128) -> (result: Rational)
        requires
            den > 0,
        ensures
            result.num == num,
            result.den == den,
            result.wf(),
    {
        Rational { num, den }
    }

    /// The whole number `value`.
    pub fn from_int(value: i64) -> (result: Rational)
        ensures
            result.num == value,
            result.den == 1,
            result.wf(),
    {
        Rational { num: value as i128, den: 1 }
    }

    /// Whether `self` and `other` denote the same rational number.
    pub fn eq_value(&self, other: &Rational) -> (result: bool)
        requires
            self.wf(),
            other.wf(),
            self.num * other.den <= i128::MAX,
            self.num * other.den >= i128::MIN,
            other.num * self.den <= i128::MAX,
            other.num * self.den >= i128::MIN,
        ensures
            result == fraction_eq(self.num as int, self.den as int, other.num as int, other.den as int),
    {
        self.num * other.den == other.num * self.den
    }
}

/// `2^exponent`, as an executable number.
pub fn pow2_u64(exponent: u32) -> (result: u64)
    requires
        exponent <= 32,
    ensures
        result == pow2(exponent as nat),
        1 <= result <= 0x1_0000_0000u64,
{
    let mut result: u64 = 1;
    let mut i: u32 = 0;
    proof {
        vstd::arithmetic::power2::lemma2_to64();
    }
    while i < exponent
        invariant
            i <= exponent <= 32,
            result == pow2(i as nat),
        decreases exponent - i,
    {
        proof {
            vstd::arithmetic::power2::lemma2_to64();
            if i < 31 {
                lemma_pow2_strictly_increases(i as nat, 31);
            }
            vstd::arithmetic::power2::lemma_pow2_unfold((i + 1) as nat);
        }
        result = result * 2;
        i = i + 1;
    }
    proof {
        lemma_pow2_pos(exponent as nat);
        vstd::arithmetic::power2::lemma2_to64();
        if exponent < 32 {
            lemma_pow2_strictly_increases(exponent as nat, 32);
        }
    }
    result
}

/// Round `n / d` to the nearest integer, halves away from zero.
pub open spec fn round_half_away(n: int, d: int) -> int
    recommends
        d > 0,
{
    let m = if n >= 0 { n } else { -n };
    let q = m / d;
    let r = m % d;
    let magnitude = if 2 * r >= d { q + 1 } else { q };
    if n >= 0 { magnitude } else { -magnitude }
}

/// `x` forced into `[lo, hi]`.
pub open spec fn clamp_spec(x: int, lo: int, hi: int) -> int
    recommends
        lo <= hi,
{
    if x < lo { lo } else if x > hi { hi } else { x }
}

/// Rounding never strays from the exact quotient by more than half a unit:
/// `|round_half_away(n, d) * d - n| <= d / 2`.
pub proof fn lemma_round_error(n: int, d: int)
    requires
        d > 0,
    ensures
        2 * (round_half_away(n, d) * d - n) <= d,
        2 * (n - round_half_away(n, d) * d) <= d,
{
    let m = if n >= 0 { n } else { -n };
    let q = m / d;
    let r = m % d;
    vstd::arithmetic::div_mod::lemma_fundamental_div_mod(m, d);
    assert(m == q * d + r);
    assert(0 <= r < d);
    let magnitude = if 2 * r >= d { q + 1 } else { q };
    assert(2 * (magnitude * d - m) <= d && 2 * (m - magnitude * d) <= d) by {
        if 2 * r >= d {
            assert(magnitude * d == q * d + d) by (nonlinear_arith)
                requires magnitude == q + 1;
        }
    }
    if n < 0 {
        assert(round_half_away(n, d) * d == -(magnitude * d)) by (nonlinear_arith)
            requires round_half_away(n, d) == -magnitude;
    }
}

/// Rounding is the unique integer within half a unit: if `t * d` is strictly
/// closer than half a unit to `n`, the rounding is `t`.
pub proof fn lemma_round_unique(n: int, d: int, t: int)
    requires
        d > 0,
        2 * (n - t * d) < d,
        2 * (t * d - n) < d,
    ensures
        round_half_away(n, d) == t,
{
    lemma_round_error(n, d);
    let rd = round_half_away(n, d);
    assert(2 * (rd * d - t * d) < 2 * d && 2 * (t * d - rd * d) < 2 * d);
    assert((rd - t) * d == rd * d - t * d) by (nonlinear_arith);
    assert(-d < (rd - t) * d < d) by {
        assert(2 * ((rd - t) * d) < 2 * d && 2 * (-((rd - t) * d)) < 2 * d);
    }
    assert(rd == t) by (nonlinear_arith)
        requires -d < (rd - t) * d < d, d > 0;
}

/// A nonnegative quotient bounded by `bound` rounds into `[0, bound]`.
pub proof fn lemma_round_bounds(n: int, d: int, bound: int)
    requires
        d > 0,
        0 <= n,
        n <= bound * d,
    ensures
        0 <= round_half_away(n, d) <= bound,
{
    lemma_round_error(n, d);
    let rd = round_half_away(n, d);
    assert(rd >= 0) by {
        assert(n >= 0 ==> rd == n / d + (if 2 * (n % d) >= d { 1int } else { 0int }));
        vstd::arithmetic::div_mod::lemma_div_is_ordered(0, n, d);
    }
    assert(rd <= bound) by {
        assert(2 * (rd * d - n) <= d);
        assert(2 * (rd * d) <= 2 * (bound * d) + d);
        assert((rd - bound) * d == rd * d - bound * d) by (nonlinear_arith);
        assert(2 * ((rd - bound) * d) <= d);
        if rd > bound {
            assert((rd - bound) * d >= d) by (nonlinear_arith)
                requires rd - bound >= 1, d > 0;
        }
    }
}

/// Round `n / d` to the nearest integer, halves away from zero.
pub fn round_nearest(n: i128, d: i128) -> (result: i128)
    requires
        d > 0,
        n > i128::MIN,
    ensures
        result == round_half_away(n as int, d as int),
{
    let negative = n < 0;
    let m: u128 = if negative { (-n) as u128 } else { n as u128 };
    let du: u128 = d as u128;
    let q: u128 = m / du;
    let r: u128 = m % du;
    proof {
        vstd::arithmetic::div_mod::lemma_fundamental_div_mod(m as int, du as int);
        vstd::arithmetic::div_mod::lemma_mod_bound(m as int, du as int);
        assert(m == du * q + r);
        assert(q <= du * q) by (nonlinear_arith)
            requires du >= 1, q >= 0;
    }
    let magnitude: u128 = if r >= du - r { q + 1 } else { q };
    proof {
        let spec_m: int = if n >= 0 { n as int } else { -(n as int) };
        assert(m == spec_m);
        assert((r >= du - r) == (2 * (r as int) >= d as int));
        if 2 * (r as int) >= d as int {
            assert(r >= 1);
            assert(magnitude <= m);
        }
        assert(magnitude as int == (if 2 * (spec_m % (d as int)) >= d as int {
            spec_m / (d as int) + 1
        } else {
            spec_m / (d as int)
        }));
    }
    if negative {
        -(magnitude as i128)
    } else {
        magnitude as i128
    }
}

/// `x` forced into `[lo, hi]`.
pub fn clamp(x: i128, lo: i128, hi: i128) -> (result: i128)
    requires
        lo <= hi,
    ensures
        result == clamp_spec(x as int, lo as int, hi as int),
{
    if x < lo {
        lo
    } else if x > hi {
        hi
    } else {
        x
    }
}

} // verus!
