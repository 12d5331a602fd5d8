//! Fixed-point decimal arithmetic: scale constants, rounding half to even,
//! and an exact integer square root.
//!
//! A quantity is stored as an integer holding its value times a power of ten.
//! `Q8` values (eight decimal places) are the working scale of the library;
//! wider scales appear only inside intermediate products.

use vstd::arithmetic::div_mod::{
    lemma_div_is_ordered, lemma_fundamental_div_mod, lemma_fundamental_div_mod_converse,
    lemma_mod_bound,
};
use vstd::prelude::*;

verus! {

/// One, at the working scale of eight decimal places.
pub const ONE_Q8: i64 = 100_000_000;

/// One, at the twelve-decimal scale that trigonometric values use.
pub const ONE_Q12: i64 = 1_000_000_000_000;

/// Rounding half to even (banker's rounding) of the exact rational `n / d`,
/// for a positive divisor `d`. This is the single rounding rule of the
/// library, matching the default strategy of the decimal arithmetic that the
/// trigonometric tables come from.
pub open spec fn round_half_even(n: int, d: int) -> int {
    let q = n / d;
    let r = n % d;
    if 2 * r < d {
        q
    } else if 2 * r > d {
        q + 1
    } else if q % 2 == 0 {
        q
    } else {
        q + 1
    }
}

/// A magnitude bound carries over from the dividend to the rounded quotient.
pub proof fn lemma_rhe_magnitude(n: int, d: int, bound: int)
    requires
        d > 0,
        bound >= 0,
        -bound <= n <= bound,
    ensures
        -(bound / d) - 1 <= round_half_even(n, d) <= bound / d + 1,
{
    lemma_div_is_ordered(n, bound, d);
    lemma_div_is_ordered(-bound, n, d);
    lemma_fundamental_div_mod(bound, d);
    lemma_mod_bound(bound, d);
    let qb = bound / d;
    let rb = bound % d;
    if rb == 0 {
        assert(-bound == (-qb) * d + 0) by (nonlinear_arith)
            requires
                bound == d * qb + rb,
                rb == 0,
        ;
        lemma_fundamental_div_mod_converse(-bound, d, -qb, 0);
    } else {
        assert(-bound == (-qb - 1) * d + (d - rb)) by (nonlinear_arith)
            requires
                bound == d * qb + rb,
        ;
        lemma_fundamental_div_mod_converse(-bound, d, -qb - 1, d - rb);
    }
}

/// A product of values within the given magnitudes stays within the product
/// of the magnitudes.
pub proof fn lemma_mul_bound(a: int, b: int, ma: int, mb: int)
    by (nonlinear_arith)
    requires
        -ma <= a <= ma,
        -mb <= b <= mb,
        0 <= ma,
        0 <= mb,
    ensures
        -(ma * mb) <= a * b <= ma * mb,
{
}

/// Scaling the rounded quotient back up lands within half a divisor of the
/// dividend.
pub proof fn lemma_rhe_error(n: int, d: int)
    requires
        d > 0,
    ensures
        -d <= 2 * (round_half_even(n, d) * d - n) <= d,
{
    lemma_fundamental_div_mod(n, d);
    lemma_mod_bound(n, d);
    let q = n / d;
    assert((q + 1) * d == q * d + d) by (nonlinear_arith);
    assert(q * d == d * q) by (nonlinear_arith);
}

/// Exact division leaves the value unchanged.
pub proof fn lemma_rhe_exact(v: int, d: int)
    requires
        d > 0,
    ensures
        round_half_even(v * d, d) == v,
{
    lemma_fundamental_div_mod_converse(v * d, d, v, 0);
}

/// Rounding half to even, computed on machine integers.
///
/// The bounds on `n` and `d` keep every intermediate step inside `i128`.
pub fn rhe_i128(n: i128, d: i128) -> (r: i128)
    requires
        0 < d <= 0x4000_0000_0000_0000_0000_0000_0000_0000,
        -0x4000_0000_0000_0000_0000_0000_0000_0000 <= n
            <= 0x4000_0000_0000_0000_0000_0000_0000_0000,
    ensures
        r == round_half_even(n as int, d as int),
{
    let du: u128 = d as u128;
    if n >= 0 {
        let m: u128 = n as u128;
        let q0: u128 = m / du;
        let r0: u128 = m % du;
        proof {
            lemma_mod_bound(m as int, du as int);
            lemma_fundamental_div_mod(m as int, du as int);
            lemma_fundamental_div_mod_converse(n as int, d as int, q0 as int, r0 as int);
        }
        let q: i128 = q0 as i128;
        if 2 * r0 < du {
            q
        } else if 2 * r0 > du {
            q + 1
        } else if q0 % 2 == 0 {
            q
        } else {
            q + 1
        }
    } else {
        let m: u128 = (-n) as u128;
        let q0: u128 = m / du;
        let r0: u128 = m % du;
        proof {
            lemma_mod_bound(m as int, du as int);
            lemma_fundamental_div_mod(m as int, du as int);
        }
        if r0 == 0 {
            // n == -(q0 * d): the division is exact.
            let q: i128 = -(q0 as i128);
            proof {
                assert(n == (-(q0 as int)) * d + 0) by (nonlinear_arith)
                    requires
                        m == du * q0 + r0,
                        r0 == 0,
                        n == -(m as int),
                        d == du,
                ;
                lemma_fundamental_div_mod_converse(n as int, d as int, -(q0 as int), 0);
            }
            q
        } else {
            // n == (-q0 - 1) * d + (d - r0), with 0 < d - r0 < d.
            let q: i128 = -(q0 as i128) - 1;
            let r1: u128 = du - r0;
            proof {
                assert(n == (-(q0 as int) - 1) * d + (d - r0)) by (nonlinear_arith)
                    requires
                        m == du * q0 + r0,
                        n == -(m as int),
                        d == du,
                ;
                lemma_fundamental_div_mod_converse(n as int, d as int, -(q0 as int) - 1, d - r0);
            }
            if 2 * r1 < du {
                q
            } else if 2 * r1 > du {
                q + 1
            } else {
                // q == -q0 - 1 is even exactly when q0 is odd.
                let odd = q0 % 2 == 1;
                proof {
                    let k = (q0 / 2) as int;
                    lemma_fundamental_div_mod(q0 as int, 2);
                    lemma_mod_bound(q0 as int, 2);
                    if q0 % 2 == 1 {
                        assert(q == (-k - 1) * 2 + 0) by (nonlinear_arith)
                            requires
                                q0 == 2 * k + 1,
                                q == -(q0 as int) - 1,
                        ;
                        lemma_fundamental_div_mod_converse(q as int, 2, -k - 1, 0);
                    } else {
                        assert(q == (-k - 1) * 2 + 1) by (nonlinear_arith)
                            requires
                                q0 == 2 * k,
                                q == -(q0 as int) - 1,
                        ;
                        lemma_fundamental_div_mod_converse(q as int, 2, -k - 1, 1);
                    }
                }
                if odd {
                    q
                } else {
                    q + 1
                }
            }
        }
    }
}

/// The floor of the real square root of `n`: the unique non-negative `r`
/// with `r * r <= n < (r + 1) * (r + 1)`.
pub open spec fn sqrt_floor(n: int) -> int {
    choose|r: int| 0 <= r && #[trigger] (r * r) <= n && n < (r + 1) * (r + 1)
}

/// Two integers both satisfying the square-root bracketing are equal.
pub proof fn lemma_sqrt_floor_unique(n: int, r: int)
    requires
        0 <= r,
        r * r <= n,
        n < (r + 1) * (r + 1),
    ensures
        sqrt_floor(n) == r,
{
    assert(exists|s: int| 0 <= s && #[trigger] (s * s) <= n && n < (s + 1) * (s + 1)) by {
        assert(0 <= r && r * r <= n && n < (r + 1) * (r + 1));
    }
    let s = sqrt_floor(n);
    assert(0 <= s && s * s <= n && n < (s + 1) * (s + 1));
    if s < r {
        assert((s + 1) * (s + 1) <= r * r) by (nonlinear_arith)
            requires
                0 <= s,
                s + 1 <= r,
        ;
    }
    if r < s {
        assert((r + 1) * (r + 1) <= s * s) by (nonlinear_arith)
            requires
                0 <= r,
                r + 1 <= s,
        ;
    }
}

/// Integer square root by bisection.
pub fn isqrt_u128(n: u128) -> (r: u128)
    requires
        n <= 100_000_000_000_000_000_000_000_000_000_000,
    ensures
        r * r <= n,
        n < (r + 1) * (r + 1),
        r == sqrt_floor(n as int),
        r <= 10_000_000_000_000_000,
{
    let mut lo: u128 = 0;
    let mut hi: u128 = 10_000_000_000_000_000;
    proof {
        assert((hi + 1) * (hi + 1) > n) by (nonlinear_arith)
            requires
                hi == 10_000_000_000_000_000,
                n <= 100_000_000_000_000_000_000_000_000_000_000,
        ;
    }
    while lo < hi
        invariant
            lo <= hi <= 10_000_000_000_000_000,
            lo * lo <= n,
            n < (hi + 1) * (hi + 1),
        decreases hi - lo,
    {
        let mid: u128 = lo + (hi - lo + 1) / 2;
        proof {
            assert(lo < mid <= hi);
            assert(mid * mid <= 100_000_000_000_000_000_000_000_000_000_000) by (nonlinear_arith)
                requires
                    mid <= 10_000_000_000_000_000,
            ;
        }
        if mid * mid <= n {
            lo = mid;
        } else {
            hi = mid - 1;
        }
    }
    proof {
        lemma_sqrt_floor_unique(n as int, lo as int);
    }
    lo
}

} // verus!
