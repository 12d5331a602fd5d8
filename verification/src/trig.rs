//! Trigonometry at fixed decimal scales.
//!
//! Sine and cosine come from the decimal arithmetic of an outside crate,
//! behind trusted wrappers whose results carry twelve decimal places.
//! The inverse functions — arctangent and arccosine — are the library's own
//! fixed-point routines at the working scale of eight decimal places, fully
//! verified against their defining formulas: a degree-nine polynomial
//! approximation of the arctangent on `[0, 1]` with explicit truncating
//! divisions, extended by quadrant symmetry.

use crate::fixed::{isqrt_u128, sqrt_floor, ONE_Q12, ONE_Q8};
use vstd::arithmetic::div_mod::{lemma_div_is_ordered, lemma_fundamental_div_mod_converse};
use vstd::prelude::*;

verus! {

/// Pi, at the working scale of eight decimal places.
pub const PI_Q8: i64 = 314_159_265;

/// Half pi, at the working scale of eight decimal places.
pub const HALF_PI_Q8: i64 = 157_079_633;

/// The sine of an angle held as radians times `10^8`, as a value times
/// `10^12`: whatever the decimal sine of the outside crate returns for that
/// argument, rounded to twelve decimal places (zero in its overflow case).
pub uninterp spec fn sin_q12(x: int) -> int;

/// The cosine counterpart of [`sin_q12`].
pub uninterp spec fn cos_q12(x: int) -> int;

/// Relies on rust_decimal's `checked_sin` (`maths` feature): the sine of a
/// decimal angle in radians, a function of the argument alone. Its overflow
/// case (`None`) is taken as zero; the result is rounded half to even at
/// twelve decimal places. Its source returns exactly zero for a zero angle.
#[verifier::external_body]
fn sin_q12_raw(x: i64) -> (r: i64)
    ensures
        r == sin_q12(x as int),
        x == 0 ==> r == 0,
{
    let d = rust_decimal::Decimal::new(x, 8);
    let s = match rust_decimal::MathematicalOps::checked_sin(&d) {
        Some(v) => v,
        None => rust_decimal::Decimal::ZERO,
    };
    let mut s = s.round_dp(12);
    s.rescale(12);
    s.mantissa() as i64
}

/// Relies on rust_decimal's `checked_cos` (`maths` feature), in the same way
/// as [`sin_q12_raw`]. Its source returns exactly one for a zero angle.
#[verifier::external_body]
fn cos_q12_raw(x: i64) -> (r: i64)
    ensures
        r == cos_q12(x as int),
        x == 0 ==> r == 1_000_000_000_000,
{
    let d = rust_decimal::Decimal::new(x, 8);
    let c = match rust_decimal::MathematicalOps::checked_cos(&d) {
        Some(v) => v,
        None => rust_decimal::Decimal::ZERO,
    };
    let mut c = c.round_dp(12);
    c.rescale(12);
    c.mantissa() as i64
}

/// A trigonometric value clipped to `[-1, 1]` at twelve decimal places.
/// Clipping is the library's policy: it turns the unbounded word of the
/// outside crate into a value whose products provably stay in range.
pub open spec fn clamp_q12(v: int) -> int {
    if v > ONE_Q12 {
        ONE_Q12 as int
    } else if v < -(ONE_Q12 as int) {
        -(ONE_Q12 as int)
    } else {
        v
    }
}

/// The sine used throughout the library: the outside sine, clipped.
pub open spec fn sin_c(x: int) -> int {
    clamp_q12(sin_q12(x))
}

/// The cosine used throughout the library: the outside cosine, clipped.
pub open spec fn cos_c(x: int) -> int {
    clamp_q12(cos_q12(x))
}

/// Sine of a `Q8` angle as a clipped `Q12` value.
pub fn sin_fx(x: i64) -> (r: i64)
    ensures
        r == sin_c(x as int),
        -ONE_Q12 <= r <= ONE_Q12,
        x == 0 ==> r == 0,
{
    let v = sin_q12_raw(x);
    if v > ONE_Q12 {
        ONE_Q12
    } else if v < -ONE_Q12 {
        -ONE_Q12
    } else {
        v
    }
}

/// Cosine of a `Q8` angle as a clipped `Q12` value.
pub fn cos_fx(x: i64) -> (r: i64)
    ensures
        r == cos_c(x as int),
        -ONE_Q12 <= r <= ONE_Q12,
        x == 0 ==> r == ONE_Q12,
{
    let v = cos_q12_raw(x);
    if v > ONE_Q12 {
        ONE_Q12
    } else if v < -ONE_Q12 {
        -ONE_Q12
    } else {
        v
    }
}

/// The library's arctangent of `t / 10^8` for `t` in `[0, 10^8]`, as radians
/// times `10^8`: a degree-nine odd minimax polynomial evaluated by Horner's
/// rule with truncating division at each step. This formula is the
/// definition of the library's arctangent on `[0, 1]`.
pub open spec fn atan_frac_q8(t: int) -> int {
    let s = ONE_Q8 as int;
    let t2 = (t * t) / s;
    let l4 = 8_513_300 - (t2 * 2_083_510) / s;
    let l3 = 18_014_100 - (t2 * l4) / s;
    let l2 = 33_029_950 - (t2 * l3) / s;
    let p = 99_986_600 - (t2 * l2) / s;
    (t * p) / s
}

/// Evaluates [`atan_frac_q8`] on machine integers.
pub fn atan_frac(t: u64) -> (r: u64)
    requires
        t <= 100_000_000,
    ensures
        r == atan_frac_q8(t as int),
        r <= 99_986_600,
{
    let s: u64 = 100_000_000;
    proof {
        assert(t * t <= 100_000_000 * 100_000_000) by (nonlinear_arith)
            requires
                t <= 100_000_000,
        ;
        lemma_div_is_ordered((t * t) as int, (100_000_000 * 100_000_000) as int, 100_000_000);
    }
    let t2: u64 = t * t / s;
    proof {
        lemma_div_is_ordered((t2 * 2_083_510) as int, (100_000_000 * 2_083_510) as int, 100_000_000);
    }
    let l4: u64 = 8_513_300 - t2 * 2_083_510 / s;
    proof {
        assert(t2 * l4 <= 100_000_000 * 8_513_300) by (nonlinear_arith)
            requires
                t2 <= 100_000_000,
                l4 <= 8_513_300,
        ;
        lemma_div_is_ordered((t2 * l4) as int, (100_000_000 * 8_513_300) as int, 100_000_000);
    }
    let l3: u64 = 18_014_100 - t2 * l4 / s;
    proof {
        assert(t2 * l3 <= 100_000_000 * 18_014_100) by (nonlinear_arith)
            requires
                t2 <= 100_000_000,
                l3 <= 18_014_100,
        ;
        lemma_div_is_ordered((t2 * l3) as int, (100_000_000 * 18_014_100) as int, 100_000_000);
    }
    let l2: u64 = 33_029_950 - t2 * l3 / s;
    proof {
        assert(t2 * l2 <= 100_000_000 * 33_029_950) by (nonlinear_arith)
            requires
                t2 <= 100_000_000,
                l2 <= 33_029_950,
        ;
        lemma_div_is_ordered((t2 * l2) as int, (100_000_000 * 33_029_950) as int, 100_000_000);
    }
    let p: u64 = 99_986_600 - t2 * l2 / s;
    proof {
        assert(t * p <= 100_000_000 * 99_986_600) by (nonlinear_arith)
            requires
                t <= 100_000_000,
                p <= 99_986_600,
        ;
        lemma_div_is_ordered((t * p) as int, (100_000_000 * 99_986_600) as int, 100_000_000);
    }
    t * p / s
}

/// The library's two-argument arctangent at the working scale: the angle of
/// the point `(y, z)` — first coordinate horizontal, second vertical — in
/// `(-pi, pi]` as radians times `10^8`. Defined from [`atan_frac_q8`] by the
/// octant reductions `atan(1/t) = pi/2 - atan(t)` and the usual sign and
/// quadrant symmetries.
pub open spec fn atan2_q8_spec(z: int, y: int) -> int {
    if z == 0 && y == 0 {
        0
    } else {
        let az = if z >= 0 {
            z
        } else {
            -z
        };
        let ay = if y >= 0 {
            y
        } else {
            -y
        };
        let core = if az <= ay {
            atan_frac_q8((az * (ONE_Q8 as int)) / ay)
        } else {
            (HALF_PI_Q8 as int) - atan_frac_q8((ay * (ONE_Q8 as int)) / az)
        };
        let mag = if y >= 0 {
            core
        } else {
            (PI_Q8 as int) - core
        };
        if z >= 0 {
            mag
        } else {
            -mag
        }
    }
}

/// A ratio of magnitudes `num <= den`, scaled to `Q8`, stays within one.
proof fn lemma_ratio_in_range(num: int, den: int)
    requires
        0 <= num <= den,
        0 < den,
    ensures
        0 <= (num * 100_000_000) / den <= 100_000_000,
{
    assert(num * 100_000_000 <= den * 100_000_000) by (nonlinear_arith)
        requires
            num <= den,
    ;
    lemma_div_is_ordered(num * 100_000_000, den * 100_000_000, den);
    assert(den * 100_000_000 == 100_000_000 * den + 0) by (nonlinear_arith);
    lemma_fundamental_div_mod_converse(den * 100_000_000, den, 100_000_000, 0);
    assert(num * 100_000_000 >= 0) by (nonlinear_arith)
        requires
            num >= 0,
    ;
    lemma_div_is_ordered(0, num * 100_000_000, den);
}

/// Evaluates [`atan2_q8_spec`] on machine integers.
pub fn atan2_q8(z: i64, y: i64) -> (r: i64)
    requires
        -400_000_000_000_000 <= z <= 400_000_000_000_000,
        -400_000_000_000_000 <= y <= 400_000_000_000_000,
    ensures
        r == atan2_q8_spec(z as int, y as int),
        -PI_Q8 <= r <= PI_Q8,
        z >= 0 ==> 0 <= r,
{
    if z == 0 && y == 0 {
        return 0;
    }
    let az: i64 = if z >= 0 {
        z
    } else {
        -z
    };
    let ay: i64 = if y >= 0 {
        y
    } else {
        -y
    };
    let core: i64 = if az <= ay {
        proof {
            lemma_ratio_in_range(az as int, ay as int);
        }
        let t: u64 = ((az as u128 * 100_000_000u128) / (ay as u128)) as u64;
        atan_frac(t) as i64
    } else {
        proof {
            lemma_ratio_in_range(ay as int, az as int);
        }
        let t: u64 = ((ay as u128 * 100_000_000u128) / (az as u128)) as u64;
        HALF_PI_Q8 - (atan_frac(t) as i64)
    };
    let mag: i64 = if y >= 0 {
        core
    } else {
        PI_Q8 - core
    };
    if z >= 0 {
        mag
    } else {
        -mag
    }
}

/// The library's arccosine of `c / 10^8` for `c` in `[-1, 1]`, as radians
/// times `10^8` in `[0, pi]`: the angle of the point whose horizontal
/// coordinate is `c` and whose vertical coordinate is the square root of
/// `1 - c^2`.
pub open spec fn acos_q8_spec(c: int) -> int {
    atan2_q8_spec(
        sqrt_floor((100_000_000 - c) * (100_000_000 + c)),
        c,
    )
}

/// Evaluates [`acos_q8_spec`] on machine integers.
pub fn acos_q8(c: i64) -> (r: i64)
    requires
        -100_000_000 <= c <= 100_000_000,
    ensures
        r == acos_q8_spec(c as int),
        0 <= r <= PI_Q8,
{
    let a: u128 = (100_000_000 - c) as u128;
    let b: u128 = (100_000_000 + c) as u128;
    proof {
        assert(a * b <= 200_000_000 * 200_000_000) by (nonlinear_arith)
            requires
                a <= 200_000_000,
                b <= 200_000_000,
        ;
    }
    let s = isqrt_u128(a * b);
    proof {
        assert(s <= 200_000_000) by (nonlinear_arith)
            requires
                s * s <= 200_000_000 * 200_000_000,
        ;
    }
    let sz: i64 = s as i64;
    atan2_q8(sz, c)
}

} // verus!
