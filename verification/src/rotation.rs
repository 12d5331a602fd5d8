//! The rotation builder: a roll/pitch/yaw triple becomes a 3x3 rotation
//! matrix, composed as yaw about Z, then pitch about Y, then roll about X.
//!
//! Every entry is rounded to four decimal places once, at this boundary, so
//! that repeated solves are reproducible bit for bit; entries are stored at
//! the working scale of eight decimal places, low four digits zero.

use crate::fixed::{lemma_rhe_magnitude, rhe_i128, round_half_even, ONE_Q12, ONE_Q8};
use crate::trig::{cos_c, cos_fx, sin_c, sin_fx};
use vstd::prelude::*;

verus! {

/// Rounds a product of two trigonometric values (scale `10^24`) to four
/// decimal places, expressed at the working scale.
pub open spec fn entry_from_q24(v: int) -> int {
    round_half_even(v, 100_000_000_000_000_000_000) * 10_000
}

/// Rounds a sum of products of three trigonometric values (scale `10^36`)
/// to four decimal places, expressed at the working scale.
pub open spec fn entry_from_q36(v: int) -> int {
    round_half_even(v, 100_000_000_000_000_000_000_000_000_000_000) * 10_000
}

/// Rounds a single trigonometric value (scale `10^12`) to four decimal
/// places, expressed at the working scale.
pub open spec fn entry_from_q12(v: int) -> int {
    round_half_even(v, 100_000_000) * 10_000
}

/// The mathematical model of a rotation matrix: nine entries at the working
/// scale.
pub ghost struct Mat3 {
    pub m00: int,
    pub m01: int,
    pub m02: int,
    pub m10: int,
    pub m11: int,
    pub m12: int,
    pub m20: int,
    pub m21: int,
    pub m22: int,
}

/// The identity matrix at the working scale.
pub open spec fn identity_mat() -> Mat3 {
    Mat3 {
        m00: ONE_Q8 as int,
        m01: 0,
        m02: 0,
        m10: 0,
        m11: ONE_Q8 as int,
        m12: 0,
        m20: 0,
        m21: 0,
        m22: ONE_Q8 as int,
    }
}

/// The rotation matrix of an orientation, entry by entry, over the clipped
/// trigonometric values: with `a` the yaw, `b` the pitch and `g` the roll,
///
/// ```text
/// [ cos a cos b,   cos a sin b sin g - sin a cos g,   sin a sin g + cos a cos g sin b ]
/// [ sin a cos b,   cos a cos g + sin a sin b sin g,   cos g sin a sin b - cos a sin g ]
/// [ -sin b,        cos b sin g,                       cos b cos g                     ]
/// ```
///
/// each entry rounded once to four decimal places.
pub open spec fn rot_spec(roll: int, pitch: int, yaw: int) -> Mat3 {
    let sa = sin_c(yaw);
    let ca = cos_c(yaw);
    let sb = sin_c(pitch);
    let cb = cos_c(pitch);
    let sg = sin_c(roll);
    let cg = cos_c(roll);
    let k = ONE_Q12 as int;
    Mat3 {
        m00: entry_from_q24(ca * cb),
        m01: entry_from_q36(ca * sb * sg - sa * cg * k),
        m02: entry_from_q36(sa * sg * k + ca * cg * sb),
        m10: entry_from_q24(sa * cb),
        m11: entry_from_q36(ca * cg * k + sa * sb * sg),
        m12: entry_from_q36(cg * sa * sb - ca * sg * k),
        m20: entry_from_q12(-sb),
        m21: entry_from_q24(cb * sg),
        m22: entry_from_q24(cb * cg),
    }
}

/// A 3x3 rotation matrix at the working scale. Entries are rounded to four
/// decimal places, so each lies in `[-1.0001, 1.0001]` scaled by `10^8` and
/// its low four digits are zero.
#[derive(Clone, Copy, Debug, PartialEq, Eq, Structural)]
pub struct RotationMatrix {
    pub m00: i64,
    pub m01: i64,
    pub m02: i64,
    pub m10: i64,
    pub m11: i64,
    pub m12: i64,
    pub m20: i64,
    pub m21: i64,
    pub m22: i64,
}

impl View for RotationMatrix {
    type V = Mat3;

    open spec fn view(&self) -> Mat3 {
        Mat3 {
            m00: self.m00 as int,
            m01: self.m01 as int,
            m02: self.m02 as int,
            m10: self.m10 as int,
            m11: self.m11 as int,
            m12: self.m12 as int,
            m20: self.m20 as int,
            m21: self.m21 as int,
            m22: self.m22 as int,
        }
    }
}

/// Every entry of a rounded rotation matrix is at most `2.0001` in
/// magnitude at the working scale.
pub open spec fn entries_bounded(m: Mat3) -> bool {
    &&& -200_010_000 <= m.m00 <= 200_010_000
    &&& -200_010_000 <= m.m01 <= 200_010_000
    &&& -200_010_000 <= m.m02 <= 200_010_000
    &&& -200_010_000 <= m.m10 <= 200_010_000
    &&& -200_010_000 <= m.m11 <= 200_010_000
    &&& -200_010_000 <= m.m12 <= 200_010_000
    &&& -200_010_000 <= m.m20 <= 200_010_000
    &&& -200_010_000 <= m.m21 <= 200_010_000
    &&& -200_010_000 <= m.m22 <= 200_010_000
}

/// The product of two clipped trigonometric values, at scale `10^24`.
fn mul2(a: i64, b: i64) -> (r: i128)
    requires
        -ONE_Q12 <= a <= ONE_Q12,
        -ONE_Q12 <= b <= ONE_Q12,
    ensures
        r == a * b,
        -1_000_000_000_000_000_000_000_000 <= r <= 1_000_000_000_000_000_000_000_000,
{
    proof {
        assert(-1_000_000_000_000_000_000_000_000 <= (a as int) * (b as int)
            <= 1_000_000_000_000_000_000_000_000) by (nonlinear_arith)
            requires
                -1_000_000_000_000 <= a <= 1_000_000_000_000,
                -1_000_000_000_000 <= b <= 1_000_000_000_000,
        ;
    }
    (a as i128) * (b as i128)
}

/// The product of three clipped trigonometric values, at scale `10^36`.
fn mul3(a: i64, b: i64, c: i64) -> (r: i128)
    requires
        -ONE_Q12 <= a <= ONE_Q12,
        -ONE_Q12 <= b <= ONE_Q12,
        -ONE_Q12 <= c <= ONE_Q12,
    ensures
        r == a * b * c,
        -1_000_000_000_000_000_000_000_000_000_000_000_000 <= r
            <= 1_000_000_000_000_000_000_000_000_000_000_000_000,
{
    let ab = mul2(a, b);
    proof {
        assert(-1_000_000_000_000_000_000_000_000_000_000_000_000 <= ab * (c as int)
            <= 1_000_000_000_000_000_000_000_000_000_000_000_000) by (nonlinear_arith)
            requires
                -1_000_000_000_000_000_000_000_000 <= ab <= 1_000_000_000_000_000_000_000_000,
                -1_000_000_000_000 <= c <= 1_000_000_000_000,
        ;
    }
    ab * (c as i128)
}

/// A product of two clipped trigonometric values widened to scale `10^36`.
fn mul2_wide(a: i64, b: i64) -> (r: i128)
    requires
        -ONE_Q12 <= a <= ONE_Q12,
        -ONE_Q12 <= b <= ONE_Q12,
    ensures
        r == a * b * (ONE_Q12 as int),
        -1_000_000_000_000_000_000_000_000_000_000_000_000 <= r
            <= 1_000_000_000_000_000_000_000_000_000_000_000_000,
{
    let ab = mul2(a, b);
    proof {
        assert(-1_000_000_000_000_000_000_000_000_000_000_000_000 <= ab * 1_000_000_000_000
            <= 1_000_000_000_000_000_000_000_000_000_000_000_000) by (nonlinear_arith)
            requires
                -1_000_000_000_000_000_000_000_000 <= ab <= 1_000_000_000_000_000_000_000_000,
        ;
    }
    ab * 1_000_000_000_000i128
}

/// Rounds a `10^24`-scale product to a matrix entry.
fn entry24(v: i128) -> (r: i64)
    requires
        -1_000_000_000_000_000_000_000_000 <= v <= 1_000_000_000_000_000_000_000_000,
    ensures
        r == entry_from_q24(v as int),
        -100_010_000 <= r <= 100_010_000,
{
    proof {
        lemma_rhe_magnitude(v as int, 100_000_000_000_000_000_000, 1_000_000_000_000_000_000_000_000);
    }
    let q = rhe_i128(v, 100_000_000_000_000_000_000);
    (q as i64) * 10_000
}

/// Rounds a `10^36`-scale sum of products to a matrix entry.
fn entry36(v: i128) -> (r: i64)
    requires
        -2_000_000_000_000_000_000_000_000_000_000_000_000 <= v
            <= 2_000_000_000_000_000_000_000_000_000_000_000_000,
    ensures
        r == entry_from_q36(v as int),
        -200_010_000 <= r <= 200_010_000,
{
    proof {
        lemma_rhe_magnitude(
            v as int,
            100_000_000_000_000_000_000_000_000_000_000,
            2_000_000_000_000_000_000_000_000_000_000_000_000,
        );
    }
    let q = rhe_i128(v, 100_000_000_000_000_000_000_000_000_000_000);
    (q as i64) * 10_000
}

/// Rounds a single `10^12`-scale trigonometric value to a matrix entry.
fn entry12(v: i64) -> (r: i64)
    requires
        -ONE_Q12 <= v <= ONE_Q12,
    ensures
        r == entry_from_q12(v as int),
        -100_010_000 <= r <= 100_010_000,
{
    proof {
        lemma_rhe_magnitude(v as int, 100_000_000, 1_000_000_000_000);
    }
    let q = rhe_i128(v as i128, 100_000_000);
    (q as i64) * 10_000
}

/// Builds the rotation matrix of the given orientation, angles in radians at
/// the working scale. Any inputs are accepted; for the zero orientation the
/// result is exactly the identity.
pub fn build_rotation(roll: i64, pitch: i64, yaw: i64) -> (r: RotationMatrix)
    ensures
        r@ == rot_spec(roll as int, pitch as int, yaw as int),
        entries_bounded(r@),
        roll == 0 && pitch == 0 && yaw == 0 ==> r@ == identity_mat(),
{
    let sa = sin_fx(yaw);
    let ca = cos_fx(yaw);
    let sb = sin_fx(pitch);
    let cb = cos_fx(pitch);
    let sg = sin_fx(roll);
    let cg = cos_fx(roll);
    let m00 = entry24(mul2(ca, cb));
    let m01 = entry36(mul3(ca, sb, sg) - mul2_wide(sa, cg));
    let m02 = entry36(mul2_wide(sa, sg) + mul3(ca, cg, sb));
    let m10 = entry24(mul2(sa, cb));
    let m11 = entry36(mul2_wide(ca, cg) + mul3(sa, sb, sg));
    let m12 = entry36(mul3(cg, sa, sb) - mul2_wide(ca, sg));
    let m20 = entry12(-sb);
    let m21 = entry24(mul2(cb, sg));
    let m22 = entry24(mul2(cb, cg));
    let result = RotationMatrix { m00, m01, m02, m10, m11, m12, m20, m21, m22 };
    proof {
        if roll == 0 && pitch == 0 && yaw == 0 {
            assert(sa == 0 && sb == 0 && sg == 0);
            assert(ca == ONE_Q12 && cb == ONE_Q12 && cg == ONE_Q12);
            let k: int = ONE_Q12 as int;
            assert(ca * cb == 1_000_000_000_000_000_000_000_000
                && cb * cg == 1_000_000_000_000_000_000_000_000
                && sa * cb == 0
                && cb * sg == 0
                && ca * sb * sg - sa * cg * k == 0
                && sa * sg * k + ca * cg * sb == 0
                && ca * cg * k + sa * sb * sg == 1_000_000_000_000_000_000_000_000_000_000_000_000
                && cg * sa * sb - ca * sg * k == 0) by (nonlinear_arith)
                requires
                    sa == 0i64,
                    sb == 0i64,
                    sg == 0i64,
                    ca == 1_000_000_000_000i64,
                    cb == 1_000_000_000_000i64,
                    cg == 1_000_000_000_000i64,
                    k == 1_000_000_000_000int,
            ;
            assert(result@ == identity_mat());
        }
    }
    result
}

/// Whether a sine/cosine pair lies on the unit circle within `10^-11`:
/// both clipped to `[-1, 1]`, and the sum of their squares within `10^-11`
/// of one, at the trigonometric scale. The true sine and cosine of any
/// angle, rounded to twelve decimal places, satisfy this with room to
/// spare.
pub open spec fn on_unit_circle(s: int, c: int) -> bool {
    &&& -(ONE_Q12 as int) <= s <= ONE_Q12 as int
    &&& -(ONE_Q12 as int) <= c <= ONE_Q12 as int
    &&& -10_000_000_000_000 <= s * s + c * c - 1_000_000_000_000_000_000_000_000
        <= 10_000_000_000_000
}

/// Orthonormality of the rounded matrix, first diagonal entry: for any
/// orientation whose yaw and pitch sine/cosine pairs lie on the unit circle
/// within `10^-11`, the first column of the rotation matrix has unit
/// squared norm within `10^-3`. This is the entry `(0, 0)` of `R^T * R`
/// compared against one, at the working scale.
pub proof fn lemma_first_column_unit(roll: int, pitch: int, yaw: int)
    requires
        on_unit_circle(sin_c(yaw), cos_c(yaw)),
        on_unit_circle(sin_c(pitch), cos_c(pitch)),
    ensures
        ({
            let m = rot_spec(roll, pitch, yaw);
            -10_000_000_000_000 <= m.m00 * m.m00 + m.m10 * m.m10 + m.m20 * m.m20
                - 10_000_000_000_000_000 <= 10_000_000_000_000
        }),
{
    let sa = sin_c(yaw);
    let ca = cos_c(yaw);
    let sb = sin_c(pitch);
    let cb = cos_c(pitch);
    let m = rot_spec(roll, pitch, yaw);
    let x00 = ca * cb;
    let x10 = sa * cb;
    let x20 = -sb;
    crate::fixed::lemma_mul_bound(ca, cb, ONE_Q12 as int, ONE_Q12 as int);
    crate::fixed::lemma_mul_bound(sa, cb, ONE_Q12 as int, ONE_Q12 as int);
    // Each entry of the column is its exact product plus a rounding error.
    crate::fixed::lemma_rhe_error(x00, 100_000_000_000_000_000_000);
    crate::fixed::lemma_rhe_error(x10, 100_000_000_000_000_000_000);
    crate::fixed::lemma_rhe_error(x20, 100_000_000);
    let e00 = m.m00 * 10_000_000_000_000_000 - x00;
    let e10 = m.m10 * 10_000_000_000_000_000 - x10;
    let e20 = m.m20 * 10_000 - x20;
    assert(-100_000_000_000_000_000_000 <= e00 <= 100_000_000_000_000_000_000);
    assert(-100_000_000_000_000_000_000 <= e10 <= 100_000_000_000_000_000_000);
    assert(-100_000_000 <= e20 <= 100_000_000);
    // Squared entries, at scale 10^48.
    assert(m.m00 * m.m00 * 100_000_000_000_000_000_000_000_000_000_000 == x00 * x00 + e00 * (x00
        + x00 + e00)) by (nonlinear_arith)
        requires
            m.m00 * 10_000_000_000_000_000 == x00 + e00,
    ;
    assert(m.m10 * m.m10 * 100_000_000_000_000_000_000_000_000_000_000 == x10 * x10 + e10 * (x10
        + x10 + e10)) by (nonlinear_arith)
        requires
            m.m10 * 10_000_000_000_000_000 == x10 + e10,
    ;
    assert(m.m20 * m.m20 * 100_000_000 == x20 * x20 + e20 * (x20 + x20 + e20)) by (nonlinear_arith)
        requires
            m.m20 * 10_000 == x20 + e20,
    ;
    crate::fixed::lemma_mul_bound(
        e00,
        x00 + x00 + e00,
        100_000_000_000_000_000_000,
        2_100_000_000_000_000_000_000_000,
    );
    crate::fixed::lemma_mul_bound(
        e10,
        x10 + x10 + e10,
        100_000_000_000_000_000_000,
        2_100_000_000_000_000_000_000_000,
    );
    crate::fixed::lemma_mul_bound(e20, x20 + x20 + e20, 100_000_000, 2_100_000_000_000);
    // The exact column norm, through the circle identities.
    let h1 = ca * ca + sa * sa - 1_000_000_000_000_000_000_000_000;
    let h2 = sb * sb + cb * cb - 1_000_000_000_000_000_000_000_000;
    assert(x00 * x00 + x10 * x10 == (cb * cb) * 1_000_000_000_000_000_000_000_000 + (cb * cb)
        * h1) by (nonlinear_arith)
        requires
            x00 == ca * cb,
            x10 == sa * cb,
            h1 == ca * ca + sa * sa - 1_000_000_000_000_000_000_000_000,
    ;
    assert(0 <= cb * cb <= 1_000_000_000_000_000_000_000_000) by (nonlinear_arith)
        requires
            -1_000_000_000_000 <= cb <= 1_000_000_000_000,
    ;
    crate::fixed::lemma_mul_bound(
        cb * cb,
        h1,
        1_000_000_000_000_000_000_000_000,
        10_000_000_000_000,
    );
    assert(x20 * x20 == sb * sb) by (nonlinear_arith)
        requires
            x20 == -sb,
    ;
    // Assemble: the squared norm at scale 10^48 is 10^48 plus small terms.
    let total = m.m00 * m.m00 + m.m10 * m.m10 + m.m20 * m.m20;
    assert(total * 100_000_000_000_000_000_000_000_000_000_000 == (cb * cb + sb * sb)
        * 1_000_000_000_000_000_000_000_000 + (cb * cb) * h1 + e00 * (x00 + x00 + e00) + e10 * (
    x10 + x10 + e10) + (e20 * (x20 + x20 + e20)) * 1_000_000_000_000_000_000_000_000)
        by (nonlinear_arith)
        requires
            m.m00 * m.m00 * 100_000_000_000_000_000_000_000_000_000_000 == x00 * x00 + e00 * (x00
                + x00 + e00),
            m.m10 * m.m10 * 100_000_000_000_000_000_000_000_000_000_000 == x10 * x10 + e10 * (x10
                + x10 + e10),
            m.m20 * m.m20 * 100_000_000 == x20 * x20 + e20 * (x20 + x20 + e20),
            x00 * x00 + x10 * x10 == (cb * cb) * 1_000_000_000_000_000_000_000_000 + (cb * cb)
                * h1,
            x20 * x20 == sb * sb,
            total == m.m00 * m.m00 + m.m10 * m.m10 + m.m20 * m.m20,
    ;
    assert((cb * cb + sb * sb) * 1_000_000_000_000_000_000_000_000
        == 1_000_000_000_000_000_000_000_000_000_000_000_000_000_000_000_000 + h2
        * 1_000_000_000_000_000_000_000_000) by (nonlinear_arith)
        requires
            h2 == sb * sb + cb * cb - 1_000_000_000_000_000_000_000_000,
    ;
}

/// Orthonormality of the rounded matrix, entry `(0, 1)` of `R^T * R`: under
/// the same unit-circle hypotheses (here for all three angles), the first
/// two columns of the rotation matrix are orthogonal within `10^-3` at the
/// working scale.
pub proof fn lemma_first_columns_orthogonal(roll: int, pitch: int, yaw: int)
    requires
        on_unit_circle(sin_c(yaw), cos_c(yaw)),
        on_unit_circle(sin_c(pitch), cos_c(pitch)),
        on_unit_circle(sin_c(roll), cos_c(roll)),
    ensures
        ({
            let m = rot_spec(roll, pitch, yaw);
            -10_000_000_000_000 <= m.m00 * m.m01 + m.m10 * m.m11 + m.m20 * m.m21
                <= 10_000_000_000_000
        }),
{
    let sa = sin_c(yaw);
    let ca = cos_c(yaw);
    let sb = sin_c(pitch);
    let cb = cos_c(pitch);
    let sg = sin_c(roll);
    let cg = cos_c(roll);
    let k: int = ONE_Q12 as int;
    let m = rot_spec(roll, pitch, yaw);
    let x00 = ca * cb;
    let x10 = sa * cb;
    let x20 = -sb;
    let x01 = ca * sb * sg - sa * cg * k;
    let x11 = ca * cg * k + sa * sb * sg;
    let x21 = cb * sg;
    // Magnitude of the three-factor sums.
    crate::fixed::lemma_mul_bound(ca, cb, ONE_Q12 as int, ONE_Q12 as int);
    crate::fixed::lemma_mul_bound(sa, cb, ONE_Q12 as int, ONE_Q12 as int);
    crate::fixed::lemma_mul_bound(cb, sg, ONE_Q12 as int, ONE_Q12 as int);
    crate::fixed::lemma_mul_bound(ca, sb, ONE_Q12 as int, ONE_Q12 as int);
    crate::fixed::lemma_mul_bound(
        ca * sb,
        sg,
        1_000_000_000_000_000_000_000_000,
        ONE_Q12 as int,
    );
    crate::fixed::lemma_mul_bound(sa, cg, ONE_Q12 as int, ONE_Q12 as int);
    crate::fixed::lemma_mul_bound(
        sa * cg,
        k,
        1_000_000_000_000_000_000_000_000,
        ONE_Q12 as int,
    );
    crate::fixed::lemma_mul_bound(ca, cg, ONE_Q12 as int, ONE_Q12 as int);
    crate::fixed::lemma_mul_bound(
        ca * cg,
        k,
        1_000_000_000_000_000_000_000_000,
        ONE_Q12 as int,
    );
    crate::fixed::lemma_mul_bound(sa, sb, ONE_Q12 as int, ONE_Q12 as int);
    crate::fixed::lemma_mul_bound(
        sa * sb,
        sg,
        1_000_000_000_000_000_000_000_000,
        ONE_Q12 as int,
    );
    // Rounding errors of the six entries involved.
    crate::fixed::lemma_rhe_error(x00, 100_000_000_000_000_000_000);
    crate::fixed::lemma_rhe_error(x10, 100_000_000_000_000_000_000);
    crate::fixed::lemma_rhe_error(x21, 100_000_000_000_000_000_000);
    crate::fixed::lemma_rhe_error(x20, 100_000_000);
    crate::fixed::lemma_rhe_error(x01, 100_000_000_000_000_000_000_000_000_000_000);
    crate::fixed::lemma_rhe_error(x11, 100_000_000_000_000_000_000_000_000_000_000);
    let e00 = m.m00 * 10_000_000_000_000_000 - x00;
    let e10 = m.m10 * 10_000_000_000_000_000 - x10;
    let e21 = m.m21 * 10_000_000_000_000_000 - x21;
    let e20 = m.m20 * 10_000 - x20;
    let e01 = m.m01 * 10_000_000_000_000_000_000_000_000_000 - x01;
    let e11 = m.m11 * 10_000_000_000_000_000_000_000_000_000 - x11;
    // Each product of entries, at scale 10^60.
    assert(m.m00 * m.m01
        * 100_000_000_000_000_000_000_000_000_000_000_000_000_000_000 == x00 * x01 + x00 * e01
        + e00 * x01 + e00 * e01) by (nonlinear_arith)
        requires
            m.m00 * 10_000_000_000_000_000 == x00 + e00,
            m.m01 * 10_000_000_000_000_000_000_000_000_000 == x01 + e01,
    ;
    assert(m.m10 * m.m11
        * 100_000_000_000_000_000_000_000_000_000_000_000_000_000_000 == x10 * x11 + x10 * e11
        + e10 * x11 + e10 * e11) by (nonlinear_arith)
        requires
            m.m10 * 10_000_000_000_000_000 == x10 + e10,
            m.m11 * 10_000_000_000_000_000_000_000_000_000 == x11 + e11,
    ;
    assert(m.m20 * m.m21 * 100_000_000_000_000_000_000 == x20 * x21 + x20 * e21 + e20 * x21 + e20
        * e21) by (nonlinear_arith)
        requires
            m.m20 * 10_000 == x20 + e20,
            m.m21 * 10_000_000_000_000_000 == x21 + e21,
    ;
    // The exact dot product collapses to the circle defect of the yaw pair,
    // in small steps: expand each product, then cancel.
    let h1 = ca * ca + sa * sa - 1_000_000_000_000_000_000_000_000;
    let t1 = (cb * sb) * sg;
    let u = ((ca * sa) * (cb * cg)) * k;
    let w1 = ca * sb * sg;
    let w2 = sa * cg * k;
    let w3 = ca * cg * k;
    let w4 = sa * sb * sg;
    assert(x00 * x01 == x00 * w1 - x00 * w2) by (nonlinear_arith)
        requires
            x01 == w1 - w2,
    ;
    assert(x00 * w1 == (ca * ca) * t1) by (nonlinear_arith)
        requires
            x00 == ca * cb,
            w1 == ca * sb * sg,
            t1 == (cb * sb) * sg,
    ;
    assert(x00 * w2 == u) by (nonlinear_arith)
        requires
            x00 == ca * cb,
            w2 == sa * cg * k,
            u == ((ca * sa) * (cb * cg)) * k,
    ;
    assert(x10 * x11 == x10 * w3 + x10 * w4) by (nonlinear_arith)
        requires
            x11 == w3 + w4,
    ;
    assert(x10 * w3 == u) by (nonlinear_arith)
        requires
            x10 == sa * cb,
            w3 == ca * cg * k,
            u == ((ca * sa) * (cb * cg)) * k,
    ;
    assert(x10 * w4 == (sa * sa) * t1) by (nonlinear_arith)
        requires
            x10 == sa * cb,
            w4 == sa * sb * sg,
            t1 == (cb * sb) * sg,
    ;
    assert(x20 * x21 == -t1) by (nonlinear_arith)
        requires
            x20 == -sb,
            x21 == cb * sg,
            t1 == (cb * sb) * sg,
    ;
    assert(x00 * x01 + x10 * x11 + (x20 * x21) * 1_000_000_000_000_000_000_000_000 == t1 * h1)
        by (nonlinear_arith)
        requires
            x00 * x01 == (ca * ca) * t1 - u,
            x10 * x11 == u + (sa * sa) * t1,
            x20 * x21 == -t1,
            h1 == ca * ca + sa * sa - 1_000_000_000_000_000_000_000_000,
    ;
    // Bound every error product.
    crate::fixed::lemma_mul_bound(
        x00,
        e01,
        1_000_000_000_000_000_000_000_000,
        100_000_000_000_000_000_000_000_000_000_000,
    );
    crate::fixed::lemma_mul_bound(
        e00,
        x01,
        100_000_000_000_000_000_000,
        2_000_000_000_000_000_000_000_000_000_000_000_000,
    );
    crate::fixed::lemma_mul_bound(
        e00,
        e01,
        100_000_000_000_000_000_000,
        100_000_000_000_000_000_000_000_000_000_000,
    );
    crate::fixed::lemma_mul_bound(
        x10,
        e11,
        1_000_000_000_000_000_000_000_000,
        100_000_000_000_000_000_000_000_000_000_000,
    );
    crate::fixed::lemma_mul_bound(
        e10,
        x11,
        100_000_000_000_000_000_000,
        2_000_000_000_000_000_000_000_000_000_000_000_000,
    );
    crate::fixed::lemma_mul_bound(
        e10,
        e11,
        100_000_000_000_000_000_000,
        100_000_000_000_000_000_000_000_000_000_000,
    );
    crate::fixed::lemma_mul_bound(x20, e21, 1_000_000_000_000, 100_000_000_000_000_000_000);
    crate::fixed::lemma_mul_bound(e20, x21, 100_000_000, 1_000_000_000_000_000_000_000_000);
    crate::fixed::lemma_mul_bound(e20, e21, 100_000_000, 100_000_000_000_000_000_000);
    crate::fixed::lemma_mul_bound(cb, sb, ONE_Q12 as int, ONE_Q12 as int);
    crate::fixed::lemma_mul_bound(
        cb * sb,
        sg,
        1_000_000_000_000_000_000_000_000,
        ONE_Q12 as int,
    );
    crate::fixed::lemma_mul_bound(
        t1,
        h1,
        1_000_000_000_000_000_000_000_000_000_000_000_000,
        10_000_000_000_000,
    );
    // Assemble at scale 10^60 and scale back down.
    let dot = m.m00 * m.m01 + m.m10 * m.m11 + m.m20 * m.m21;
    assert(dot * 100_000_000_000_000_000_000_000_000_000_000_000_000_000_000 == t1 * h1 + (x00
        * e01 + e00 * x01 + e00 * e01) + (x10 * e11 + e10 * x11 + e10 * e11) + (x20 * e21 + e20
        * x21 + e20 * e21) * 1_000_000_000_000_000_000_000_000) by (nonlinear_arith)
        requires
            m.m00 * m.m01
                * 100_000_000_000_000_000_000_000_000_000_000_000_000_000_000 == x00 * x01 + x00
                * e01 + e00 * x01 + e00 * e01,
            m.m10 * m.m11
                * 100_000_000_000_000_000_000_000_000_000_000_000_000_000_000 == x10 * x11 + x10
                * e11 + e10 * x11 + e10 * e11,
            m.m20 * m.m21 * 100_000_000_000_000_000_000 == x20 * x21 + x20 * e21 + e20 * x21 + e20
                * e21,
            x00 * x01 + x10 * x11 + (x20 * x21) * 1_000_000_000_000_000_000_000_000 == t1 * h1,
            dot == m.m00 * m.m01 + m.m10 * m.m11 + m.m20 * m.m21,
    ;
}

/// Orthonormality of the rounded matrix, entry `(0, 2)` of `R^T * R`: under
/// the unit-circle hypotheses, the first and third columns of the rotation
/// matrix are orthogonal within `10^-3` at the working scale.
pub proof fn lemma_first_and_third_columns_orthogonal(roll: int, pitch: int, yaw: int)
    requires
        on_unit_circle(sin_c(yaw), cos_c(yaw)),
        on_unit_circle(sin_c(pitch), cos_c(pitch)),
        on_unit_circle(sin_c(roll), cos_c(roll)),
    ensures
        ({
            let m = rot_spec(roll, pitch, yaw);
            -10_000_000_000_000 <= m.m00 * m.m02 + m.m10 * m.m12 + m.m20 * m.m22
                <= 10_000_000_000_000
        }),
{
    let sa = sin_c(yaw);
    let ca = cos_c(yaw);
    let sb = sin_c(pitch);
    let cb = cos_c(pitch);
    let sg = sin_c(roll);
    let cg = cos_c(roll);
    let k: int = ONE_Q12 as int;
    let m = rot_spec(roll, pitch, yaw);
    let x00 = ca * cb;
    let x10 = sa * cb;
    let x20 = -sb;
    let x02 = sa * sg * k + ca * cg * sb;
    let x12 = cg * sa * sb - ca * sg * k;
    let x22 = cb * cg;
    let v1 = sa * sg * k;
    let v2 = ca * cg * sb;
    let v3 = cg * sa * sb;
    let v4 = ca * sg * k;
    crate::fixed::lemma_mul_bound(ca, cb, ONE_Q12 as int, ONE_Q12 as int);
    crate::fixed::lemma_mul_bound(sa, cb, ONE_Q12 as int, ONE_Q12 as int);
    crate::fixed::lemma_mul_bound(cb, cg, ONE_Q12 as int, ONE_Q12 as int);
    crate::fixed::lemma_mul_bound(sa, sg, ONE_Q12 as int, ONE_Q12 as int);
    crate::fixed::lemma_mul_bound(
        sa * sg,
        k,
        1_000_000_000_000_000_000_000_000,
        ONE_Q12 as int,
    );
    crate::fixed::lemma_mul_bound(ca, cg, ONE_Q12 as int, ONE_Q12 as int);
    crate::fixed::lemma_mul_bound(
        ca * cg,
        sb,
        1_000_000_000_000_000_000_000_000,
        ONE_Q12 as int,
    );
    crate::fixed::lemma_mul_bound(cg, sa, ONE_Q12 as int, ONE_Q12 as int);
    crate::fixed::lemma_mul_bound(
        cg * sa,
        sb,
        1_000_000_000_000_000_000_000_000,
        ONE_Q12 as int,
    );
    crate::fixed::lemma_mul_bound(ca, sg, ONE_Q12 as int, ONE_Q12 as int);
    crate::fixed::lemma_mul_bound(
        ca * sg,
        k,
        1_000_000_000_000_000_000_000_000,
        ONE_Q12 as int,
    );
    crate::fixed::lemma_rhe_error(x00, 100_000_000_000_000_000_000);
    crate::fixed::lemma_rhe_error(x10, 100_000_000_000_000_000_000);
    crate::fixed::lemma_rhe_error(x22, 100_000_000_000_000_000_000);
    crate::fixed::lemma_rhe_error(x20, 100_000_000);
    crate::fixed::lemma_rhe_error(x02, 100_000_000_000_000_000_000_000_000_000_000);
    crate::fixed::lemma_rhe_error(x12, 100_000_000_000_000_000_000_000_000_000_000);
    let e00 = m.m00 * 10_000_000_000_000_000 - x00;
    let e10 = m.m10 * 10_000_000_000_000_000 - x10;
    let e22 = m.m22 * 10_000_000_000_000_000 - x22;
    let e20 = m.m20 * 10_000 - x20;
    let e02 = m.m02 * 10_000_000_000_000_000_000_000_000_000 - x02;
    let e12 = m.m12 * 10_000_000_000_000_000_000_000_000_000 - x12;
    assert(m.m00 * m.m02
        * 100_000_000_000_000_000_000_000_000_000_000_000_000_000_000 == x00 * x02 + x00 * e02
        + e00 * x02 + e00 * e02) by (nonlinear_arith)
        requires
            m.m00 * 10_000_000_000_000_000 == x00 + e00,
            m.m02 * 10_000_000_000_000_000_000_000_000_000 == x02 + e02,
    ;
    assert(m.m10 * m.m12
        * 100_000_000_000_000_000_000_000_000_000_000_000_000_000_000 == x10 * x12 + x10 * e12
        + e10 * x12 + e10 * e12) by (nonlinear_arith)
        requires
            m.m10 * 10_000_000_000_000_000 == x10 + e10,
            m.m12 * 10_000_000_000_000_000_000_000_000_000 == x12 + e12,
    ;
    assert(m.m20 * m.m22 * 100_000_000_000_000_000_000 == x20 * x22 + x20 * e22 + e20 * x22 + e20
        * e22) by (nonlinear_arith)
        requires
            m.m20 * 10_000 == x20 + e20,
            m.m22 * 10_000_000_000_000_000 == x22 + e22,
    ;
    // The exact dot product collapses to the circle defect of the yaw pair.
    let h1 = ca * ca + sa * sa - 1_000_000_000_000_000_000_000_000;
    let t2 = (cb * sb) * cg;
    let u2 = ((ca * sa) * (cb * sg)) * k;
    assert(x00 * x02 == x00 * v1 + x00 * v2) by (nonlinear_arith)
        requires
            x02 == v1 + v2,
    ;
    assert(x00 * v1 == u2) by (nonlinear_arith)
        requires
            x00 == ca * cb,
            v1 == sa * sg * k,
            u2 == ((ca * sa) * (cb * sg)) * k,
    ;
    assert(x00 * v2 == (ca * ca) * t2) by (nonlinear_arith)
        requires
            x00 == ca * cb,
            v2 == ca * cg * sb,
            t2 == (cb * sb) * cg,
    ;
    assert(x10 * x12 == x10 * v3 - x10 * v4) by (nonlinear_arith)
        requires
            x12 == v3 - v4,
    ;
    assert(x10 * v3 == (sa * sa) * t2) by (nonlinear_arith)
        requires
            x10 == sa * cb,
            v3 == cg * sa * sb,
            t2 == (cb * sb) * cg,
    ;
    assert(x10 * v4 == u2) by (nonlinear_arith)
        requires
            x10 == sa * cb,
            v4 == ca * sg * k,
            u2 == ((ca * sa) * (cb * sg)) * k,
    ;
    assert(x20 * x22 == -t2) by (nonlinear_arith)
        requires
            x20 == -sb,
            x22 == cb * cg,
            t2 == (cb * sb) * cg,
    ;
    assert(x00 * x02 + x10 * x12 + (x20 * x22) * 1_000_000_000_000_000_000_000_000 == t2 * h1)
        by (nonlinear_arith)
        requires
            x00 * x02 == u2 + (ca * ca) * t2,
            x10 * x12 == (sa * sa) * t2 - u2,
            x20 * x22 == -t2,
            h1 == ca * ca + sa * sa - 1_000_000_000_000_000_000_000_000,
    ;
    // Bound every error product.
    crate::fixed::lemma_mul_bound(
        x00,
        e02,
        1_000_000_000_000_000_000_000_000,
        100_000_000_000_000_000_000_000_000_000_000,
    );
    crate::fixed::lemma_mul_bound(
        e00,
        x02,
        100_000_000_000_000_000_000,
        2_000_000_000_000_000_000_000_000_000_000_000_000,
    );
    crate::fixed::lemma_mul_bound(
        e00,
        e02,
        100_000_000_000_000_000_000,
        100_000_000_000_000_000_000_000_000_000_000,
    );
    crate::fixed::lemma_mul_bound(
        x10,
        e12,
        1_000_000_000_000_000_000_000_000,
        100_000_000_000_000_000_000_000_000_000_000,
    );
    crate::fixed::lemma_mul_bound(
        e10,
        x12,
        100_000_000_000_000_000_000,
        2_000_000_000_000_000_000_000_000_000_000_000_000,
    );
    crate::fixed::lemma_mul_bound(
        e10,
        e12,
        100_000_000_000_000_000_000,
        100_000_000_000_000_000_000_000_000_000_000,
    );
    crate::fixed::lemma_mul_bound(x20, e22, 1_000_000_000_000, 100_000_000_000_000_000_000);
    crate::fixed::lemma_mul_bound(e20, x22, 100_000_000, 1_000_000_000_000_000_000_000_000);
    crate::fixed::lemma_mul_bound(e20, e22, 100_000_000, 100_000_000_000_000_000_000);
    crate::fixed::lemma_mul_bound(cb, sb, ONE_Q12 as int, ONE_Q12 as int);
    crate::fixed::lemma_mul_bound(
        cb * sb,
        cg,
        1_000_000_000_000_000_000_000_000,
        ONE_Q12 as int,
    );
    crate::fixed::lemma_mul_bound(
        t2,
        h1,
        1_000_000_000_000_000_000_000_000_000_000_000_000,
        10_000_000_000_000,
    );
    let dot = m.m00 * m.m02 + m.m10 * m.m12 + m.m20 * m.m22;
    assert(dot * 100_000_000_000_000_000_000_000_000_000_000_000_000_000_000 == t2 * h1 + (x00
        * e02 + e00 * x02 + e00 * e02) + (x10 * e12 + e10 * x12 + e10 * e12) + (x20 * e22 + e20
        * x22 + e20 * e22) * 1_000_000_000_000_000_000_000_000) by (nonlinear_arith)
        requires
            m.m00 * m.m02
                * 100_000_000_000_000_000_000_000_000_000_000_000_000_000_000 == x00 * x02 + x00
                * e02 + e00 * x02 + e00 * e02,
            m.m10 * m.m12
                * 100_000_000_000_000_000_000_000_000_000_000_000_000_000_000 == x10 * x12 + x10
                * e12 + e10 * x12 + e10 * e12,
            m.m20 * m.m22 * 100_000_000_000_000_000_000 == x20 * x22 + x20 * e22 + e20 * x22 + e20
                * e22,
            x00 * x02 + x10 * x12 + (x20 * x22) * 1_000_000_000_000_000_000_000_000 == t2 * h1,
            dot == m.m00 * m.m02 + m.m10 * m.m12 + m.m20 * m.m22,
    ;
}

/// Orthonormality of the rounded matrix, entry `(1, 2)` of `R^T * R`: under
/// the unit-circle hypotheses, the second and third columns of the rotation
/// matrix are orthogonal within `10^-3` at the working scale.
pub proof fn lemma_second_and_third_columns_orthogonal(roll: int, pitch: int, yaw: int)
    requires
        on_unit_circle(sin_c(yaw), cos_c(yaw)),
        on_unit_circle(sin_c(pitch), cos_c(pitch)),
        on_unit_circle(sin_c(roll), cos_c(roll)),
    ensures
        ({
            let m = rot_spec(roll, pitch, yaw);
            -10_000_000_000_000 <= m.m01 * m.m02 + m.m11 * m.m12 + m.m21 * m.m22
                <= 10_000_000_000_000
        }),
{
    let sa = sin_c(yaw);
    let ca = cos_c(yaw);
    let sb = sin_c(pitch);
    let cb = cos_c(pitch);
    let sg = sin_c(roll);
    let cg = cos_c(roll);
    let k: int = ONE_Q12 as int;
    let m = rot_spec(roll, pitch, yaw);
    let w1 = ca * sb * sg;
    let w2 = sa * cg * k;
    let w3 = ca * cg * k;
    let w4 = sa * sb * sg;
    let v1 = sa * sg * k;
    let v2 = ca * cg * sb;
    let v3 = cg * sa * sb;
    let v4 = ca * sg * k;
    let x01 = w1 - w2;
    let x11 = w3 + w4;
    let x21 = cb * sg;
    let x02 = v1 + v2;
    let x12 = v3 - v4;
    let x22 = cb * cg;
    // Magnitudes of the entries' exact values.
    crate::fixed::lemma_mul_bound(ca, sb, ONE_Q12 as int, ONE_Q12 as int);
    crate::fixed::lemma_mul_bound(ca * sb, sg, 1_000_000_000_000_000_000_000_000, ONE_Q12 as int);
    crate::fixed::lemma_mul_bound(sa, cg, ONE_Q12 as int, ONE_Q12 as int);
    crate::fixed::lemma_mul_bound(sa * cg, k, 1_000_000_000_000_000_000_000_000, ONE_Q12 as int);
    crate::fixed::lemma_mul_bound(ca, cg, ONE_Q12 as int, ONE_Q12 as int);
    crate::fixed::lemma_mul_bound(ca * cg, k, 1_000_000_000_000_000_000_000_000, ONE_Q12 as int);
    crate::fixed::lemma_mul_bound(sa, sb, ONE_Q12 as int, ONE_Q12 as int);
    crate::fixed::lemma_mul_bound(sa * sb, sg, 1_000_000_000_000_000_000_000_000, ONE_Q12 as int);
    crate::fixed::lemma_mul_bound(sa, sg, ONE_Q12 as int, ONE_Q12 as int);
    crate::fixed::lemma_mul_bound(sa * sg, k, 1_000_000_000_000_000_000_000_000, ONE_Q12 as int);
    crate::fixed::lemma_mul_bound(ca * cg, sb, 1_000_000_000_000_000_000_000_000, ONE_Q12 as int);
    crate::fixed::lemma_mul_bound(cg, sa, ONE_Q12 as int, ONE_Q12 as int);
    crate::fixed::lemma_mul_bound(cg * sa, sb, 1_000_000_000_000_000_000_000_000, ONE_Q12 as int);
    crate::fixed::lemma_mul_bound(ca, sg, ONE_Q12 as int, ONE_Q12 as int);
    crate::fixed::lemma_mul_bound(ca * sg, k, 1_000_000_000_000_000_000_000_000, ONE_Q12 as int);
    crate::fixed::lemma_mul_bound(cb, sg, ONE_Q12 as int, ONE_Q12 as int);
    crate::fixed::lemma_mul_bound(cb, cg, ONE_Q12 as int, ONE_Q12 as int);
    // Rounding errors, at half a last-place unit each.
    crate::fixed::lemma_rhe_error(x01, 100_000_000_000_000_000_000_000_000_000_000);
    crate::fixed::lemma_rhe_error(x11, 100_000_000_000_000_000_000_000_000_000_000);
    crate::fixed::lemma_rhe_error(x02, 100_000_000_000_000_000_000_000_000_000_000);
    crate::fixed::lemma_rhe_error(x12, 100_000_000_000_000_000_000_000_000_000_000);
    crate::fixed::lemma_rhe_error(x21, 100_000_000_000_000_000_000);
    crate::fixed::lemma_rhe_error(x22, 100_000_000_000_000_000_000);
    let e01 = m.m01 * 10_000_000_000_000_000_000_000_000_000 - x01;
    let e11 = m.m11 * 10_000_000_000_000_000_000_000_000_000 - x11;
    let e02 = m.m02 * 10_000_000_000_000_000_000_000_000_000 - x02;
    let e12 = m.m12 * 10_000_000_000_000_000_000_000_000_000 - x12;
    let e21 = m.m21 * 10_000_000_000_000_000 - x21;
    let e22 = m.m22 * 10_000_000_000_000_000 - x22;
    assert(-50_000_000_000_000_000_000_000_000_000_000 <= e01 <= 50_000_000_000_000_000_000_000_000_000_000);
    assert(-50_000_000_000_000_000_000_000_000_000_000 <= e11 <= 50_000_000_000_000_000_000_000_000_000_000);
    assert(-50_000_000_000_000_000_000_000_000_000_000 <= e02 <= 50_000_000_000_000_000_000_000_000_000_000);
    assert(-50_000_000_000_000_000_000_000_000_000_000 <= e12 <= 50_000_000_000_000_000_000_000_000_000_000);
    assert(-50_000_000_000_000_000_000 <= e21 <= 50_000_000_000_000_000_000);
    assert(-50_000_000_000_000_000_000 <= e22 <= 50_000_000_000_000_000_000);
    // Each product of entries, at scale 10^56.
    assert(m.m01 * m.m02 * (10_000_000_000_000_000_000_000_000_000 * 10_000_000_000_000_000_000_000_000_000)
        == x01 * x02 + x01 * e02 + e01 * x02 + e01 * e02) by (nonlinear_arith)
        requires
            m.m01 * 10_000_000_000_000_000_000_000_000_000 == x01 + e01,
            m.m02 * 10_000_000_000_000_000_000_000_000_000 == x02 + e02,
    ;
    assert(m.m11 * m.m12 * (10_000_000_000_000_000_000_000_000_000 * 10_000_000_000_000_000_000_000_000_000)
        == x11 * x12 + x11 * e12 + e11 * x12 + e11 * e12) by (nonlinear_arith)
        requires
            m.m11 * 10_000_000_000_000_000_000_000_000_000 == x11 + e11,
            m.m12 * 10_000_000_000_000_000_000_000_000_000 == x12 + e12,
    ;
    assert(m.m21 * m.m22 * 100_000_000_000_000_000_000_000_000_000_000 == x21 * x22 + x21 * e22
        + e21 * x22 + e21 * e22) by (nonlinear_arith)
        requires
            m.m21 * 10_000_000_000_000_000 == x21 + e21,
            m.m22 * 10_000_000_000_000_000 == x22 + e22,
    ;
    // The exact dot product: expand, cancel the mixed monomials, and group
    // what is left into the circle defects.
    let h1 = ca * ca + sa * sa - 1_000_000_000_000_000_000_000_000;
    let g = sg * cg;
    let ssb = sb * sb;
    let scb = cb * cb;
    let h2 = ssb + scb - 1_000_000_000_000_000_000_000_000;
    let aa = ca * ca + sa * sa;
    assert(x01 * x02 == w1 * v1 + w1 * v2 - w2 * v1 - w2 * v2) by (nonlinear_arith)
        requires
            x01 == w1 - w2,
            x02 == v1 + v2,
    ;
    assert(x11 * x12 == w3 * v3 - w3 * v4 + w4 * v3 - w4 * v4) by (nonlinear_arith)
        requires
            x11 == w3 + w4,
            x12 == v3 - v4,
    ;
    assert(w1 * v1 == w4 * v4) by (nonlinear_arith)
        requires
            w1 == ca * sb * sg,
            v1 == sa * sg * k,
            w4 == sa * sb * sg,
            v4 == ca * sg * k,
    ;
    assert(w2 * v2 == w3 * v3) by (nonlinear_arith)
        requires
            w2 == sa * cg * k,
            v2 == ca * cg * sb,
            w3 == ca * cg * k,
            v3 == cg * sa * sb,
    ;
    assert(w1 * v2 == (ca * ca) * (ssb * g)) by (nonlinear_arith)
        requires
            w1 == ca * sb * sg,
            v2 == ca * cg * sb,
            ssb == sb * sb,
            g == sg * cg,
    ;
    assert(w4 * v3 == (sa * sa) * (ssb * g)) by (nonlinear_arith)
        requires
            w4 == sa * sb * sg,
            v3 == cg * sa * sb,
            ssb == sb * sb,
            g == sg * cg,
    ;
    assert(w2 * v1 == ((sa * sa) * g) * 1_000_000_000_000_000_000_000_000) by (nonlinear_arith)
        requires
            w2 == sa * cg * k,
            v1 == sa * sg * k,
            k == 1_000_000_000_000int,
            g == sg * cg,
    ;
    assert(w3 * v4 == ((ca * ca) * g) * 1_000_000_000_000_000_000_000_000) by (nonlinear_arith)
        requires
            w3 == ca * cg * k,
            v4 == ca * sg * k,
            k == 1_000_000_000_000int,
            g == sg * cg,
    ;
    assert(x21 * x22 == scb * g) by (nonlinear_arith)
        requires
            x21 == cb * sg,
            x22 == cb * cg,
            scb == cb * cb,
            g == sg * cg,
    ;
    assert((ca * ca) * (ssb * g) + (sa * sa) * (ssb * g) == aa * (ssb * g)) by (nonlinear_arith)
        requires
            aa == ca * ca + sa * sa,
    ;
    assert(((sa * sa) * g) * 1_000_000_000_000_000_000_000_000 + ((ca * ca) * g)
        * 1_000_000_000_000_000_000_000_000 == (aa * g) * 1_000_000_000_000_000_000_000_000)
        by (nonlinear_arith)
        requires
            aa == ca * ca + sa * sa,
    ;
    assert(aa * (ssb * g) - (aa * g) * 1_000_000_000_000_000_000_000_000 + (scb * g)
        * 1_000_000_000_000_000_000_000_000 == g * (h2 * 1_000_000_000_000_000_000_000_000) + (g
        * (ssb - 1_000_000_000_000_000_000_000_000)) * h1) by (nonlinear_arith)
        requires
            aa == 1_000_000_000_000_000_000_000_000 + h1,
            h2 == ssb + scb - 1_000_000_000_000_000_000_000_000,
    ;
    assert(x01 * x02 + x11 * x12 + (x21 * x22) * 1_000_000_000_000_000_000_000_000 == g * (h2
        * 1_000_000_000_000_000_000_000_000) + (g * (ssb - 1_000_000_000_000_000_000_000_000))
        * h1);
    // Bound the two defect terms and every error product.
    crate::fixed::lemma_mul_bound(sg, cg, ONE_Q12 as int, ONE_Q12 as int);
    assert(0 <= sb * sb <= 1_000_000_000_000_000_000_000_000) by (nonlinear_arith)
        requires
            -1_000_000_000_000 <= sb <= 1_000_000_000_000,
    ;
    crate::fixed::lemma_mul_bound(
        h2,
        1_000_000_000_000_000_000_000_000,
        10_000_000_000_000,
        1_000_000_000_000_000_000_000_000,
    );
    crate::fixed::lemma_mul_bound(
        g,
        h2 * 1_000_000_000_000_000_000_000_000,
        1_000_000_000_000_000_000_000_000,
        10_000_000_000_000_000_000_000_000_000_000_000_000,
    );
    crate::fixed::lemma_mul_bound(
        g,
        ssb - 1_000_000_000_000_000_000_000_000,
        1_000_000_000_000_000_000_000_000,
        1_000_000_000_000_000_000_000_000,
    );
    crate::fixed::lemma_mul_bound(
        g * (ssb - 1_000_000_000_000_000_000_000_000),
        h1,
        ((1_000_000_000_000_000_000_000_000 * 1_000_000_000_000_000_000_000_000) as int),
        10_000_000_000_000,
    );
    crate::fixed::lemma_mul_bound(
        x01,
        e02,
        2_000_000_000_000_000_000_000_000_000_000_000_000,
        50_000_000_000_000_000_000_000_000_000_000,
    );
    crate::fixed::lemma_mul_bound(
        e01,
        x02,
        50_000_000_000_000_000_000_000_000_000_000,
        2_000_000_000_000_000_000_000_000_000_000_000_000,
    );
    crate::fixed::lemma_mul_bound(
        e01,
        e02,
        50_000_000_000_000_000_000_000_000_000_000,
        50_000_000_000_000_000_000_000_000_000_000,
    );
    crate::fixed::lemma_mul_bound(
        x11,
        e12,
        2_000_000_000_000_000_000_000_000_000_000_000_000,
        50_000_000_000_000_000_000_000_000_000_000,
    );
    crate::fixed::lemma_mul_bound(
        e11,
        x12,
        50_000_000_000_000_000_000_000_000_000_000,
        2_000_000_000_000_000_000_000_000_000_000_000_000,
    );
    crate::fixed::lemma_mul_bound(
        e11,
        e12,
        50_000_000_000_000_000_000_000_000_000_000,
        50_000_000_000_000_000_000_000_000_000_000,
    );
    crate::fixed::lemma_mul_bound(
        x21,
        e22,
        1_000_000_000_000_000_000_000_000,
        50_000_000_000_000_000_000,
    );
    crate::fixed::lemma_mul_bound(
        e21,
        x22,
        50_000_000_000_000_000_000,
        1_000_000_000_000_000_000_000_000,
    );
    crate::fixed::lemma_mul_bound(
        e21,
        e22,
        50_000_000_000_000_000_000,
        50_000_000_000_000_000_000,
    );
    // Assemble at scale 10^56 and scale back down.
    let dot = m.m01 * m.m02 + m.m11 * m.m12 + m.m21 * m.m22;
    assert(dot * (10_000_000_000_000_000_000_000_000_000 * 10_000_000_000_000_000_000_000_000_000)
        == (x01 * x02 + x11 * x12 + (x21 * x22) * 1_000_000_000_000_000_000_000_000) + (x01 * e02
        + e01 * x02 + e01 * e02) + (x11 * e12 + e11 * x12 + e11 * e12) + (x21 * e22 + e21 * x22
        + e21 * e22) * 1_000_000_000_000_000_000_000_000) by (nonlinear_arith)
        requires
            m.m01 * m.m02
                * (10_000_000_000_000_000_000_000_000_000 * 10_000_000_000_000_000_000_000_000_000)
                == x01 * x02 + x01 * e02 + e01 * x02 + e01 * e02,
            m.m11 * m.m12
                * (10_000_000_000_000_000_000_000_000_000 * 10_000_000_000_000_000_000_000_000_000)
                == x11 * x12 + x11 * e12 + e11 * x12 + e11 * e12,
            m.m21 * m.m22 * 100_000_000_000_000_000_000_000_000_000_000 == x21 * x22 + x21 * e22
                + e21 * x22 + e21 * e22,
            dot == m.m01 * m.m02 + m.m11 * m.m12 + m.m21 * m.m22,
    ;
}


/// Orthonormality of the rounded matrix, entry `(1, 1)` of `R^T * R`: under
/// the unit-circle hypotheses, the second column of the rotation matrix has
/// unit squared norm within `10^-3` at the working scale.
pub proof fn lemma_second_column_unit(roll: int, pitch: int, yaw: int)
    requires
        on_unit_circle(sin_c(yaw), cos_c(yaw)),
        on_unit_circle(sin_c(pitch), cos_c(pitch)),
        on_unit_circle(sin_c(roll), cos_c(roll)),
    ensures
        ({
            let m = rot_spec(roll, pitch, yaw);
            -10_000_000_000_000 <= m.m01 * m.m01 + m.m11 * m.m11 + m.m21 * m.m21
                - 10_000_000_000_000_000 <= 10_000_000_000_000
        }),
{
    let sa = sin_c(yaw);
    let ca = cos_c(yaw);
    let sb = sin_c(pitch);
    let cb = cos_c(pitch);
    let sg = sin_c(roll);
    let cg = cos_c(roll);
    let k: int = ONE_Q12 as int;
    let m = rot_spec(roll, pitch, yaw);
    let w1 = ca * sb * sg;
    let w2 = sa * cg * k;
    let w3 = ca * cg * k;
    let w4 = sa * sb * sg;
    let x01 = w1 - w2;
    let x11 = w3 + w4;
    let x21 = cb * sg;
    crate::fixed::lemma_mul_bound(ca, sb, ONE_Q12 as int, ONE_Q12 as int);
    crate::fixed::lemma_mul_bound(ca * sb, sg, 1_000_000_000_000_000_000_000_000, ONE_Q12 as int);
    crate::fixed::lemma_mul_bound(sa, cg, ONE_Q12 as int, ONE_Q12 as int);
    crate::fixed::lemma_mul_bound(sa * cg, k, 1_000_000_000_000_000_000_000_000, ONE_Q12 as int);
    crate::fixed::lemma_mul_bound(ca, cg, ONE_Q12 as int, ONE_Q12 as int);
    crate::fixed::lemma_mul_bound(ca * cg, k, 1_000_000_000_000_000_000_000_000, ONE_Q12 as int);
    crate::fixed::lemma_mul_bound(sa, sb, ONE_Q12 as int, ONE_Q12 as int);
    crate::fixed::lemma_mul_bound(sa * sb, sg, 1_000_000_000_000_000_000_000_000, ONE_Q12 as int);
    crate::fixed::lemma_mul_bound(cb, sg, ONE_Q12 as int, ONE_Q12 as int);
    crate::fixed::lemma_rhe_error(x01, 100_000_000_000_000_000_000_000_000_000_000);
    crate::fixed::lemma_rhe_error(x11, 100_000_000_000_000_000_000_000_000_000_000);
    crate::fixed::lemma_rhe_error(x21, 100_000_000_000_000_000_000);
    let e01 = m.m01 * 10_000_000_000_000_000_000_000_000_000 - x01;
    let e11 = m.m11 * 10_000_000_000_000_000_000_000_000_000 - x11;
    let e21 = m.m21 * 10_000_000_000_000_000 - x21;
    assert(-50_000_000_000_000_000_000_000_000_000_000 <= e01
        <= 50_000_000_000_000_000_000_000_000_000_000);
    assert(-50_000_000_000_000_000_000_000_000_000_000 <= e11
        <= 50_000_000_000_000_000_000_000_000_000_000);
    assert(-50_000_000_000_000_000_000 <= e21 <= 50_000_000_000_000_000_000);
    // Squared entries, at scale 10^72.
    assert(m.m01 * m.m01 * (10_000_000_000_000_000_000_000_000_000 * 10_000_000_000_000_000_000_000_000_000) == x01 * x01 + e01 * (x01 + x01 + e01)) by (nonlinear_arith)
        requires
            m.m01 * 10_000_000_000_000_000_000_000_000_000 == x01 + e01,
    ;
    assert(m.m11 * m.m11 * (10_000_000_000_000_000_000_000_000_000 * 10_000_000_000_000_000_000_000_000_000) == x11 * x11 + e11 * (x11 + x11 + e11)) by (nonlinear_arith)
        requires
            m.m11 * 10_000_000_000_000_000_000_000_000_000 == x11 + e11,
    ;
    assert(m.m21 * m.m21 * (10_000_000_000_000_000 * 10_000_000_000_000_000) == x21 * x21 + e21 * (x21 + x21 + e21)) by (nonlinear_arith)
        requires
            m.m21 * 10_000_000_000_000_000 == x21 + e21,
    ;
    crate::fixed::lemma_mul_bound(e01, x01 + x01 + e01, 50_000_000_000_000_000_000_000_000_000_000,
        4_100_000_000_000_000_000_000_000_000_000_000_000);
    crate::fixed::lemma_mul_bound(e11, x11 + x11 + e11, 50_000_000_000_000_000_000_000_000_000_000,
        4_100_000_000_000_000_000_000_000_000_000_000_000);
    crate::fixed::lemma_mul_bound(e21, x21 + x21 + e21, 50_000_000_000_000_000_000,
        2_100_000_000_000_000_000_000_000);
    // The exact squared column norm, through the circle identities.
    let h1 = ca * ca + sa * sa - 1_000_000_000_000_000_000_000_000;
    let aa = ca * ca + sa * sa;
    let ssg = sg * sg;
    let scg = cg * cg;
    let ssb = sb * sb;
    let scb = cb * cb;
    let h2 = ssb + scb - 1_000_000_000_000_000_000_000_000;
    let h3 = ssg + scg - 1_000_000_000_000_000_000_000_000;
    assert(x01 * x01 == w1 * w1 - (w1 * w2 + w1 * w2) + w2 * w2) by (nonlinear_arith)
        requires
            x01 == w1 - w2,
    ;
    assert(x11 * x11 == w3 * w3 + (w3 * w4 + w3 * w4) + w4 * w4) by (nonlinear_arith)
        requires
            x11 == w3 + w4,
    ;
    assert(w1 * w2 == w3 * w4) by (nonlinear_arith)
        requires
            w1 == ca * sb * sg,
            w2 == sa * cg * k,
            w3 == ca * cg * k,
            w4 == sa * sb * sg,
    ;
    assert(w1 * w1 == (ca * ca) * (ssb * ssg)) by (nonlinear_arith)
        requires
            w1 == ca * sb * sg,
            ssb == sb * sb,
            ssg == sg * sg,
    ;
    assert(w4 * w4 == (sa * sa) * (ssb * ssg)) by (nonlinear_arith)
        requires
            w4 == sa * sb * sg,
            ssb == sb * sb,
            ssg == sg * sg,
    ;
    assert(w2 * w2 == ((sa * sa) * scg) * 1_000_000_000_000_000_000_000_000) by (nonlinear_arith)
        requires
            w2 == sa * cg * k,
            scg == cg * cg,
            k == 1_000_000_000_000int,
    ;
    assert(w3 * w3 == ((ca * ca) * scg) * 1_000_000_000_000_000_000_000_000) by (nonlinear_arith)
        requires
            w3 == ca * cg * k,
            scg == cg * cg,
            k == 1_000_000_000_000int,
    ;
    assert(x21 * x21 == scb * ssg) by (nonlinear_arith)
        requires
            x21 == cb * sg,
            scb == cb * cb,
            ssg == sg * sg,
    ;
    assert((ca * ca) * (ssb * ssg) + (sa * sa) * (ssb * ssg) == aa * (ssb * ssg))
        by (nonlinear_arith)
        requires
            aa == ca * ca + sa * sa,
    ;
    assert(((sa * sa) * scg) * 1_000_000_000_000_000_000_000_000 + ((ca * ca) * scg) * 1_000_000_000_000_000_000_000_000 == (aa * scg) * 1_000_000_000_000_000_000_000_000)
        by (nonlinear_arith)
        requires
            aa == ca * ca + sa * sa,
    ;
    assert(aa * (ssb * ssg) + (aa * scg) * 1_000_000_000_000_000_000_000_000 + (scb * ssg) * 1_000_000_000_000_000_000_000_000 == (1_000_000_000_000_000_000_000_000 * 1_000_000_000_000_000_000_000_000) * 1_000_000_000_000_000_000_000_000
        + h3 * (1_000_000_000_000_000_000_000_000 * 1_000_000_000_000_000_000_000_000) + (ssg * h2) * 1_000_000_000_000_000_000_000_000 + h1 * (ssb * ssg + scg * 1_000_000_000_000_000_000_000_000)) by (nonlinear_arith)
        requires
            aa == 1_000_000_000_000_000_000_000_000 + h1,
            h2 == ssb + scb - 1_000_000_000_000_000_000_000_000,
            h3 == ssg + scg - 1_000_000_000_000_000_000_000_000,
    ;
    // Bound the defect terms.
    assert(0 <= ssg <= 1_000_000_000_000_000_000_000_000 && 0 <= scg <= 1_000_000_000_000_000_000_000_000 && 0 <= ssb <= 1_000_000_000_000_000_000_000_000 && 0 <= scb <= 1_000_000_000_000_000_000_000_000)
        by (nonlinear_arith)
        requires
            -1_000_000_000_000 <= sg <= 1_000_000_000_000,
            -1_000_000_000_000 <= cg <= 1_000_000_000_000,
            -1_000_000_000_000 <= sb <= 1_000_000_000_000,
            -1_000_000_000_000 <= cb <= 1_000_000_000_000,
            ssg == sg * sg,
            scg == cg * cg,
            ssb == sb * sb,
            scb == cb * cb,
    ;
    crate::fixed::lemma_mul_bound(h3, (1_000_000_000_000_000_000_000_000 * 1_000_000_000_000_000_000_000_000) as int, 10_000_000_000_000, ((1_000_000_000_000_000_000_000_000 * 1_000_000_000_000_000_000_000_000)) as int);
    crate::fixed::lemma_mul_bound(ssg, h2, 1_000_000_000_000_000_000_000_000, 10_000_000_000_000);
    crate::fixed::lemma_mul_bound(ssg * h2, 1_000_000_000_000_000_000_000_000, 10_000_000_000_000_000_000_000_000_000_000_000_000, 1_000_000_000_000_000_000_000_000);
    crate::fixed::lemma_mul_bound(ssb, ssg, 1_000_000_000_000_000_000_000_000, 1_000_000_000_000_000_000_000_000);
    crate::fixed::lemma_mul_bound(scg, 1_000_000_000_000_000_000_000_000, 1_000_000_000_000_000_000_000_000, 1_000_000_000_000_000_000_000_000);
    crate::fixed::lemma_mul_bound(h1, ssb * ssg + scg * 1_000_000_000_000_000_000_000_000, 10_000_000_000_000, (1_000_000_000_000_000_000_000_000 * 2_000_000_000_000_000_000_000_000) as int);
    // Assemble at scale 10^72 and scale back down.
    let total = m.m01 * m.m01 + m.m11 * m.m11 + m.m21 * m.m21;
    assert(total * (10_000_000_000_000_000_000_000_000_000 * 10_000_000_000_000_000_000_000_000_000) == (x01 * x01 + x11 * x11 + (x21 * x21) * 1_000_000_000_000_000_000_000_000) + e01 * (x01 + x01
        + e01) + e11 * (x11 + x11 + e11) + (e21 * (x21 + x21 + e21)) * 1_000_000_000_000_000_000_000_000) by (nonlinear_arith)
        requires
            m.m01 * m.m01 * (10_000_000_000_000_000_000_000_000_000 * 10_000_000_000_000_000_000_000_000_000) == x01 * x01 + e01 * (x01 + x01 + e01),
            m.m11 * m.m11 * (10_000_000_000_000_000_000_000_000_000 * 10_000_000_000_000_000_000_000_000_000) == x11 * x11 + e11 * (x11 + x11 + e11),
            m.m21 * m.m21 * (10_000_000_000_000_000 * 10_000_000_000_000_000) == x21 * x21 + e21 * (x21 + x21 + e21),
            total == m.m01 * m.m01 + m.m11 * m.m11 + m.m21 * m.m21,
    ;
}

/// Orthonormality of the rounded matrix, entry `(2, 2)` of `R^T * R`: under
/// the unit-circle hypotheses, the third column of the rotation matrix has
/// unit squared norm within `10^-3` at the working scale.
pub proof fn lemma_third_column_unit(roll: int, pitch: int, yaw: int)
    requires
        on_unit_circle(sin_c(yaw), cos_c(yaw)),
        on_unit_circle(sin_c(pitch), cos_c(pitch)),
        on_unit_circle(sin_c(roll), cos_c(roll)),
    ensures
        ({
            let m = rot_spec(roll, pitch, yaw);
            -10_000_000_000_000 <= m.m02 * m.m02 + m.m12 * m.m12 + m.m22 * m.m22
                - 10_000_000_000_000_000 <= 10_000_000_000_000
        }),
{
    let sa = sin_c(yaw);
    let ca = cos_c(yaw);
    let sb = sin_c(pitch);
    let cb = cos_c(pitch);
    let sg = sin_c(roll);
    let cg = cos_c(roll);
    let k: int = ONE_Q12 as int;
    let m = rot_spec(roll, pitch, yaw);
    let v1 = sa * sg * k;
    let v2 = ca * cg * sb;
    let v3 = cg * sa * sb;
    let v4 = ca * sg * k;
    let x02 = v1 + v2;
    let x12 = v3 - v4;
    let x22 = cb * cg;
    crate::fixed::lemma_mul_bound(sa, sg, ONE_Q12 as int, ONE_Q12 as int);
    crate::fixed::lemma_mul_bound(sa * sg, k, 1_000_000_000_000_000_000_000_000, ONE_Q12 as int);
    crate::fixed::lemma_mul_bound(ca, cg, ONE_Q12 as int, ONE_Q12 as int);
    crate::fixed::lemma_mul_bound(ca * cg, sb, 1_000_000_000_000_000_000_000_000, ONE_Q12 as int);
    crate::fixed::lemma_mul_bound(cg, sa, ONE_Q12 as int, ONE_Q12 as int);
    crate::fixed::lemma_mul_bound(cg * sa, sb, 1_000_000_000_000_000_000_000_000, ONE_Q12 as int);
    crate::fixed::lemma_mul_bound(ca, sg, ONE_Q12 as int, ONE_Q12 as int);
    crate::fixed::lemma_mul_bound(ca * sg, k, 1_000_000_000_000_000_000_000_000, ONE_Q12 as int);
    crate::fixed::lemma_mul_bound(cb, cg, ONE_Q12 as int, ONE_Q12 as int);
    crate::fixed::lemma_rhe_error(x02, 100_000_000_000_000_000_000_000_000_000_000);
    crate::fixed::lemma_rhe_error(x12, 100_000_000_000_000_000_000_000_000_000_000);
    crate::fixed::lemma_rhe_error(x22, 100_000_000_000_000_000_000);
    let e02 = m.m02 * 10_000_000_000_000_000_000_000_000_000 - x02;
    let e12 = m.m12 * 10_000_000_000_000_000_000_000_000_000 - x12;
    let e22 = m.m22 * 10_000_000_000_000_000 - x22;
    assert(-50_000_000_000_000_000_000_000_000_000_000 <= e02
        <= 50_000_000_000_000_000_000_000_000_000_000);
    assert(-50_000_000_000_000_000_000_000_000_000_000 <= e12
        <= 50_000_000_000_000_000_000_000_000_000_000);
    assert(-50_000_000_000_000_000_000 <= e22 <= 50_000_000_000_000_000_000);
    // Squared entries, at scale 10^72.
    assert(m.m02 * m.m02 * (10_000_000_000_000_000_000_000_000_000 * 10_000_000_000_000_000_000_000_000_000) == x02 * x02 + e02 * (x02 + x02 + e02)) by (nonlinear_arith)
        requires
            m.m02 * 10_000_000_000_000_000_000_000_000_000 == x02 + e02,
    ;
    assert(m.m12 * m.m12 * (10_000_000_000_000_000_000_000_000_000 * 10_000_000_000_000_000_000_000_000_000) == x12 * x12 + e12 * (x12 + x12 + e12)) by (nonlinear_arith)
        requires
            m.m12 * 10_000_000_000_000_000_000_000_000_000 == x12 + e12,
    ;
    assert(m.m22 * m.m22 * (10_000_000_000_000_000 * 10_000_000_000_000_000) == x22 * x22 + e22 * (x22 + x22 + e22)) by (nonlinear_arith)
        requires
            m.m22 * 10_000_000_000_000_000 == x22 + e22,
    ;
    crate::fixed::lemma_mul_bound(e02, x02 + x02 + e02, 50_000_000_000_000_000_000_000_000_000_000,
        4_100_000_000_000_000_000_000_000_000_000_000_000);
    crate::fixed::lemma_mul_bound(e12, x12 + x12 + e12, 50_000_000_000_000_000_000_000_000_000_000,
        4_100_000_000_000_000_000_000_000_000_000_000_000);
    crate::fixed::lemma_mul_bound(e22, x22 + x22 + e22, 50_000_000_000_000_000_000,
        2_100_000_000_000_000_000_000_000);
    // The exact squared column norm, through the circle identities.
    let h1 = ca * ca + sa * sa - 1_000_000_000_000_000_000_000_000;
    let aa = ca * ca + sa * sa;
    let ssg = sg * sg;
    let scg = cg * cg;
    let ssb = sb * sb;
    let scb = cb * cb;
    let h2 = ssb + scb - 1_000_000_000_000_000_000_000_000;
    let h3 = ssg + scg - 1_000_000_000_000_000_000_000_000;
    assert(x02 * x02 == v1 * v1 + (v1 * v2 + v1 * v2) + v2 * v2) by (nonlinear_arith)
        requires
            x02 == v1 + v2,
    ;
    assert(x12 * x12 == v3 * v3 - (v3 * v4 + v3 * v4) + v4 * v4) by (nonlinear_arith)
        requires
            x12 == v3 - v4,
    ;
    assert(v1 * v2 == v3 * v4) by (nonlinear_arith)
        requires
            v1 == sa * sg * k,
            v2 == ca * cg * sb,
            v3 == cg * sa * sb,
            v4 == ca * sg * k,
    ;
    assert(v1 * v1 == ((sa * sa) * ssg) * 1_000_000_000_000_000_000_000_000) by (nonlinear_arith)
        requires
            v1 == sa * sg * k,
            ssg == sg * sg,
            k == 1_000_000_000_000int,
    ;
    assert(v4 * v4 == ((ca * ca) * ssg) * 1_000_000_000_000_000_000_000_000) by (nonlinear_arith)
        requires
            v4 == ca * sg * k,
            ssg == sg * sg,
            k == 1_000_000_000_000int,
    ;
    assert(v2 * v2 == (ca * ca) * (ssb * scg)) by (nonlinear_arith)
        requires
            v2 == ca * cg * sb,
            ssb == sb * sb,
            scg == cg * cg,
    ;
    assert(v3 * v3 == (sa * sa) * (ssb * scg)) by (nonlinear_arith)
        requires
            v3 == cg * sa * sb,
            ssb == sb * sb,
            scg == cg * cg,
    ;
    assert(x22 * x22 == scb * scg) by (nonlinear_arith)
        requires
            x22 == cb * cg,
            scb == cb * cb,
            scg == cg * cg,
    ;
    assert(((sa * sa) * ssg) * 1_000_000_000_000_000_000_000_000 + ((ca * ca) * ssg) * 1_000_000_000_000_000_000_000_000 == (aa * ssg) * 1_000_000_000_000_000_000_000_000)
        by (nonlinear_arith)
        requires
            aa == ca * ca + sa * sa,
    ;
    assert((ca * ca) * (ssb * scg) + (sa * sa) * (ssb * scg) == aa * (ssb * scg))
        by (nonlinear_arith)
        requires
            aa == ca * ca + sa * sa,
    ;
    assert((aa * ssg) * 1_000_000_000_000_000_000_000_000 + aa * (ssb * scg) + (scb * scg) * 1_000_000_000_000_000_000_000_000 == (1_000_000_000_000_000_000_000_000 * 1_000_000_000_000_000_000_000_000) * 1_000_000_000_000_000_000_000_000
        + h3 * (1_000_000_000_000_000_000_000_000 * 1_000_000_000_000_000_000_000_000) + (scg * h2) * 1_000_000_000_000_000_000_000_000 + h1 * (ssb * scg + ssg * 1_000_000_000_000_000_000_000_000)) by (nonlinear_arith)
        requires
            aa == 1_000_000_000_000_000_000_000_000 + h1,
            h2 == ssb + scb - 1_000_000_000_000_000_000_000_000,
            h3 == ssg + scg - 1_000_000_000_000_000_000_000_000,
    ;
    // Bound the defect terms.
    assert(0 <= ssg <= 1_000_000_000_000_000_000_000_000 && 0 <= scg <= 1_000_000_000_000_000_000_000_000 && 0 <= ssb <= 1_000_000_000_000_000_000_000_000 && 0 <= scb <= 1_000_000_000_000_000_000_000_000)
        by (nonlinear_arith)
        requires
            -1_000_000_000_000 <= sg <= 1_000_000_000_000,
            -1_000_000_000_000 <= cg <= 1_000_000_000_000,
            -1_000_000_000_000 <= sb <= 1_000_000_000_000,
            -1_000_000_000_000 <= cb <= 1_000_000_000_000,
            ssg == sg * sg,
            scg == cg * cg,
            ssb == sb * sb,
            scb == cb * cb,
    ;
    crate::fixed::lemma_mul_bound(h3, (1_000_000_000_000_000_000_000_000 * 1_000_000_000_000_000_000_000_000) as int, 10_000_000_000_000, ((1_000_000_000_000_000_000_000_000 * 1_000_000_000_000_000_000_000_000)) as int);
    crate::fixed::lemma_mul_bound(scg, h2, 1_000_000_000_000_000_000_000_000, 10_000_000_000_000);
    crate::fixed::lemma_mul_bound(scg * h2, 1_000_000_000_000_000_000_000_000, 10_000_000_000_000_000_000_000_000_000_000_000_000, 1_000_000_000_000_000_000_000_000);
    crate::fixed::lemma_mul_bound(ssb, scg, 1_000_000_000_000_000_000_000_000, 1_000_000_000_000_000_000_000_000);
    crate::fixed::lemma_mul_bound(ssg, 1_000_000_000_000_000_000_000_000, 1_000_000_000_000_000_000_000_000, 1_000_000_000_000_000_000_000_000);
    crate::fixed::lemma_mul_bound(h1, ssb * scg + ssg * 1_000_000_000_000_000_000_000_000, 10_000_000_000_000, (1_000_000_000_000_000_000_000_000 * 2_000_000_000_000_000_000_000_000) as int);
    // Assemble at scale 10^72 and scale back down.
    let total = m.m02 * m.m02 + m.m12 * m.m12 + m.m22 * m.m22;
    assert(total * (10_000_000_000_000_000_000_000_000_000 * 10_000_000_000_000_000_000_000_000_000) == (x02 * x02 + x12 * x12 + (x22 * x22) * 1_000_000_000_000_000_000_000_000) + e02 * (x02 + x02
        + e02) + e12 * (x12 + x12 + e12) + (e22 * (x22 + x22 + e22)) * 1_000_000_000_000_000_000_000_000) by (nonlinear_arith)
        requires
            m.m02 * m.m02 * (10_000_000_000_000_000_000_000_000_000 * 10_000_000_000_000_000_000_000_000_000) == x02 * x02 + e02 * (x02 + x02 + e02),
            m.m12 * m.m12 * (10_000_000_000_000_000_000_000_000_000 * 10_000_000_000_000_000_000_000_000_000) == x12 * x12 + e12 * (x12 + x12 + e12),
            m.m22 * m.m22 * (10_000_000_000_000_000 * 10_000_000_000_000_000) == x22 * x22 + e22 * (x22 + x22 + e22),
            total == m.m02 * m.m02 + m.m12 * m.m12 + m.m22 * m.m22,
    ;
}

} // verus!
