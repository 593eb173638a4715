//! Exact rational rates. Exchange rates, fee shares and withdraw rates are
//! all ratios of two 64-bit integers; products are computed in 128 bits so
//! multiplication and comparison are exact, with no floating point anywhere.

use vstd::prelude::*;

verus! {

/// A non-negative rational number `num / den` with a positive denominator.
#[derive(Clone, Copy, Debug, PartialEq, Eq, Structural)]
pub struct Rate {
    pub num: u64,
    pub den: u64,
}

/// `floor(a * r)`: the amount `a` scaled by the rate `r`, rounded down.
pub open spec fn mul_rate(a: int, r: Rate) -> int {
    (a * r.num) / (r.den as int)
}

/// `floor(a / r)`: the amount `a` divided by the rate `r`, rounded down.
pub open spec fn div_rate(a: int, r: Rate) -> int {
    (a * r.den) / (r.num as int)
}

impl Rate {
    /// A rate is well formed when its denominator is positive.
    pub open spec fn wf(self) -> bool {
        self.den >= 1
    }

    /// The exact value of `self` is strictly below the exact value of `other`.
    pub open spec fn lt(self, other: Rate) -> bool {
        self.num * other.den < other.num * self.den
    }

    /// The exact value of `self` is at most the exact value of `other`.
    pub open spec fn le(self, other: Rate) -> bool {
        self.num * other.den <= other.num * self.den
    }

    /// The rate one, at which amounts pass through unchanged.
    pub fn one() -> (r: Rate)
        ensures
            r == (Rate { num: 1, den: 1 }),
            r.wf(),
    {
        Rate { num: 1, den: 1 }
    }

    /// The exact ratio `num / den`.
    pub fn from_ratio(num: u64, den: u64) -> (r: Rate)
        requires
            den >= 1,
        ensures
            r == (Rate { num, den }),
            r.wf(),
    {
        Rate { num, den }
    }

    /// Exact comparison by cross multiplication.
    pub fn is_below(&self, other: &Rate) -> (b: bool)
        ensures
            b == self.lt(*other),
    {
        proof {
            lemma_u64_mul_fits(self.num, other.den);
            lemma_u64_mul_fits(other.num, self.den);
        }
        (self.num as u128) * (other.den as u128) < (other.num as u128) * (self.den as u128)
    }
}

/// The product of two 64-bit values fits in 128 bits.
pub proof fn lemma_u64_mul_fits(a: u64, b: u64)
    ensures
        a * b < u128::MAX,
{
    assert(a * b <= u64::MAX * u64::MAX) by (nonlinear_arith)
        requires
            a <= u64::MAX,
            b <= u64::MAX,
    ;
}

/// `floor(a * r)`, exact in 128-bit arithmetic.
pub fn mul_rate_floor(a: u64, r: Rate) -> (res: u64)
    requires
        r.wf(),
        mul_rate(a as int, r) <= u64::MAX,
    ensures
        res == mul_rate(a as int, r),
{
    proof {
        lemma_u64_mul_fits(a, r.num);
    }
    let p: u128 = (a as u128) * (r.num as u128);
    let q: u128 = p / (r.den as u128);
    q as u64
}

/// `floor(a / r)`, exact in 128-bit arithmetic.
pub fn div_rate_floor(a: u64, r: Rate) -> (res: u64)
    requires
        r.num >= 1,
        div_rate(a as int, r) <= u64::MAX,
    ensures
        res == div_rate(a as int, r),
{
    proof {
        lemma_u64_mul_fits(a, r.den);
    }
    let p: u128 = (a as u128) * (r.den as u128);
    let q: u128 = p / (r.num as u128);
    q as u64
}

/// Scaling by a rate of at most one never increases an amount.
pub proof fn lemma_mul_rate_le_one(a: int, r: Rate)
    requires
        r.wf(),
        0 <= a,
        r.num <= r.den,
    ensures
        mul_rate(a, r) <= a,
{
    assert((a * r.num) / (r.den as int) <= a) by (nonlinear_arith)
        requires
            0 <= a,
            1 <= r.den,
            r.num <= r.den,
    ;
}

/// Scaling amounts separately never pays more than scaling their sum: the
/// floor is superadditive in the amount.
pub proof fn lemma_mul_rate_subadditive(x: int, y: int, r: Rate)
    requires
        r.wf(),
        0 <= x,
        0 <= y,
    ensures
        mul_rate(x, r) + mul_rate(y, r) <= mul_rate(x + y, r),
{
    let d = r.den as int;
    let n = r.num as int;
    let q1 = (x * n) / d;
    let q2 = (y * n) / d;
    vstd::arithmetic::div_mod::lemma_fundamental_div_mod(x * n, d);
    vstd::arithmetic::div_mod::lemma_fundamental_div_mod(y * n, d);
    vstd::arithmetic::div_mod::lemma_mod_bound(x * n, d);
    vstd::arithmetic::div_mod::lemma_mod_bound(y * n, d);
    assert((x + y) * n == x * n + y * n) by (nonlinear_arith);
    assert(d * (q1 + q2) == d * q1 + d * q2) by (nonlinear_arith);
    vstd::arithmetic::div_mod::lemma_div_is_ordered(d * (q1 + q2), (x + y) * n, d);
    vstd::arithmetic::div_mod::lemma_div_multiples_vanish(q1 + q2, d);
}

/// Scaling a part of the denominator never exceeds the numerator: with
/// `a <= den`, `floor(a * num / den) <= num`.
pub proof fn lemma_mul_rate_le_num(a: int, r: Rate)
    requires
        r.wf(),
        0 <= a <= r.den,
    ensures
        mul_rate(a, r) <= r.num,
{
    assert((a * r.num) / (r.den as int) <= r.num) by (nonlinear_arith)
        requires
            0 <= a <= r.den,
            1 <= r.den,
            0 <= r.num,
    ;
}

/// Scaling zero by any rate is zero.
pub proof fn lemma_mul_rate_zero(r: Rate)
    requires
        r.wf(),
    ensures
        mul_rate(0, r) == 0,
{
    assert((0int * r.num) / (r.den as int) == 0) by (nonlinear_arith)
        requires
            1 <= r.den,
    ;
}

/// Dividing a non-negative amount by a rate stays non-negative.
pub proof fn lemma_div_rate_nonneg(a: int, r: Rate)
    requires
        r.num >= 1,
        0 <= a,
    ensures
        0 <= div_rate(a, r),
{
    assert(0 <= (a * r.den) / (r.num as int)) by (nonlinear_arith)
        requires
            0 <= a,
            1 <= r.num,
    ;
}

/// Scaling a non-negative amount by a rate stays non-negative.
pub proof fn lemma_mul_rate_nonneg(a: int, r: Rate)
    requires
        r.wf(),
        0 <= a,
    ensures
        0 <= mul_rate(a, r),
{
    assert(0 <= (a * r.num) / (r.den as int)) by (nonlinear_arith)
        requires
            0 <= a,
            1 <= r.den,
    ;
}

} // verus!
