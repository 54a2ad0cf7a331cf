//! Fixed-size square matrices of exact integer scalars, stored as rows.
//!
//! Besides the element-wise algebra, the matrices support the multiplicative
//! identity, transposition, matrix-vector and matrix-matrix products, exact
//! inversion of matrices with determinant one or minus one, and the
//! `fold`-style reductions (sum, max, min and the norms built from them).

use vstd::prelude::*;

use crate::vector::{in_i64, mul_wide, v3_in_i64, v3_neg, v3_scale, Vec3s, Vector};

verus! {

/// Mathematical model of a 3 x 3 matrix: three rows of unbounded integers.
pub ghost struct Mat3s {
    pub r0: Vec3s,
    pub r1: Vec3s,
    pub r2: Vec3s,
}

pub open spec fn v3_dot(a: Vec3s, b: Vec3s) -> int {
    a.x * b.x + a.y * b.y + a.z * b.z
}

pub open spec fn m3_col0(m: Mat3s) -> Vec3s {
    Vec3s { x: m.r0.x, y: m.r1.x, z: m.r2.x }
}

pub open spec fn m3_col1(m: Mat3s) -> Vec3s {
    Vec3s { x: m.r0.y, y: m.r1.y, z: m.r2.y }
}

pub open spec fn m3_col2(m: Mat3s) -> Vec3s {
    Vec3s { x: m.r0.z, y: m.r1.z, z: m.r2.z }
}

/// Matrix-vector product.
pub open spec fn m3_apply(m: Mat3s, v: Vec3s) -> Vec3s {
    Vec3s { x: v3_dot(m.r0, v), y: v3_dot(m.r1, v), z: v3_dot(m.r2, v) }
}

/// Matrix-matrix product.
pub open spec fn m3_mul(a: Mat3s, b: Mat3s) -> Mat3s {
    Mat3s {
        r0: Vec3s {
            x: v3_dot(a.r0, m3_col0(b)),
            y: v3_dot(a.r0, m3_col1(b)),
            z: v3_dot(a.r0, m3_col2(b)),
        },
        r1: Vec3s {
            x: v3_dot(a.r1, m3_col0(b)),
            y: v3_dot(a.r1, m3_col1(b)),
            z: v3_dot(a.r1, m3_col2(b)),
        },
        r2: Vec3s {
            x: v3_dot(a.r2, m3_col0(b)),
            y: v3_dot(a.r2, m3_col1(b)),
            z: v3_dot(a.r2, m3_col2(b)),
        },
    }
}

/// The multiplicative identity matrix.
pub open spec fn m3_one() -> Mat3s {
    Mat3s {
        r0: Vec3s { x: 1, y: 0, z: 0 },
        r1: Vec3s { x: 0, y: 1, z: 0 },
        r2: Vec3s { x: 0, y: 0, z: 1 },
    }
}

pub open spec fn m3_transpose(m: Mat3s) -> Mat3s {
    Mat3s { r0: m3_col0(m), r1: m3_col1(m), r2: m3_col2(m) }
}

pub open spec fn m3_add(a: Mat3s, b: Mat3s) -> Mat3s {
    Mat3s {
        r0: crate::vector::v3_add(a.r0, b.r0),
        r1: crate::vector::v3_add(a.r1, b.r1),
        r2: crate::vector::v3_add(a.r2, b.r2),
    }
}

pub open spec fn m3_neg(a: Mat3s) -> Mat3s {
    Mat3s {
        r0: crate::vector::v3_neg(a.r0),
        r1: crate::vector::v3_neg(a.r1),
        r2: crate::vector::v3_neg(a.r2),
    }
}

/// Element-wise product with a scalar.
pub open spec fn m3_scale(a: Mat3s, k: int) -> Mat3s {
    Mat3s {
        r0: crate::vector::v3_scale(a.r0, k),
        r1: crate::vector::v3_scale(a.r1, k),
        r2: crate::vector::v3_scale(a.r2, k),
    }
}

pub open spec fn m3_in_i64(m: Mat3s) -> bool {
    v3_in_i64(m.r0) && v3_in_i64(m.r1) && v3_in_i64(m.r2)
}

/// Determinant of a 3 x 3 matrix, expanded along the first row.
pub open spec fn m3_det(m: Mat3s) -> int {
    m.r0.x * (m.r1.y * m.r2.z - m.r1.z * m.r2.y)
        - m.r0.y * (m.r1.x * m.r2.z - m.r1.z * m.r2.x)
        + m.r0.z * (m.r1.x * m.r2.y - m.r1.y * m.r2.x)
}

/// Adjugate (transposed cofactor matrix) of a 3 x 3 matrix.
pub open spec fn m3_adj(m: Mat3s) -> Mat3s {
    Mat3s {
        r0: Vec3s {
            x: m.r1.y * m.r2.z - m.r1.z * m.r2.y,
            y: -(m.r0.y * m.r2.z - m.r0.z * m.r2.y),
            z: m.r0.y * m.r1.z - m.r0.z * m.r1.y,
        },
        r1: Vec3s {
            x: -(m.r1.x * m.r2.z - m.r1.z * m.r2.x),
            y: m.r0.x * m.r2.z - m.r0.z * m.r2.x,
            z: -(m.r0.x * m.r1.z - m.r0.z * m.r1.x),
        },
        r2: Vec3s {
            x: m.r1.x * m.r2.y - m.r1.y * m.r2.x,
            y: -(m.r0.x * m.r2.y - m.r0.y * m.r2.x),
            z: m.r0.x * m.r1.y - m.r0.y * m.r1.x,
        },
    }
}

/// Exact inverse of a matrix whose determinant is 1 or -1.
pub open spec fn m3_inv(m: Mat3s) -> Mat3s {
    m3_scale(m3_adj(m), m3_det(m))
}

/// The determinant expanded into its six monomials.
proof fn lemma_det3_expand(a: int, b: int, c: int, d: int, e: int, f: int, g: int, h: int, i: int)
    ensures
        a * (e * i - f * h) - b * (d * i - f * g) + c * (d * h - e * g) == a * (e * i) - a * (f * h) - b * (d * i) + b * (f * g) + c * (d * h) - c * (e * g),
{
    assert(a * (e * i - f * h) == a * (e * i) - a * (f * h)) by (nonlinear_arith);
    assert(b * (d * i - f * g) == b * (d * i) - b * (f * g)) by (nonlinear_arith);
    assert(c * (d * h - e * g) == c * (d * h) - c * (e * g)) by (nonlinear_arith);
}

proof fn lemma_cramer3_ma_00(a: int, b: int, c: int, d: int, e: int, f: int, g: int, h: int, i: int)
    ensures
        a * (e * i - f * h) + b * (-(d * i - f * g)) + c * (d * h - e * g) == a * (e * i - f * h) - b * (d * i - f * g) + c * (d * h - e * g),
{
    assert(a * (e * i - f * h) == a * (e * i) - a * (f * h)) by (nonlinear_arith);
    assert(b * (-(d * i - f * g)) == -(b * (d * i)) + b * (f * g)) by (nonlinear_arith);
    assert(c * (d * h - e * g) == c * (d * h) - c * (e * g)) by (nonlinear_arith);
    lemma_det3_expand(a, b, c, d, e, f, g, h, i);
}

proof fn lemma_cramer3_ma_01(a: int, b: int, c: int, d: int, e: int, f: int, g: int, h: int, i: int)
    ensures
        a * (-(b * i - c * h)) + b * (a * i - c * g) + c * (-(a * h - b * g)) == 0,
{
    assert(a * (-(b * i - c * h)) == -(a * (b * i)) + a * (c * h)) by (nonlinear_arith);
    assert(b * (a * i - c * g) == a * (b * i) - b * (c * g)) by (nonlinear_arith);
    assert(c * (-(a * h - b * g)) == -(a * (c * h)) + b * (c * g)) by (nonlinear_arith);
}

proof fn lemma_cramer3_ma_02(a: int, b: int, c: int, d: int, e: int, f: int, g: int, h: int, i: int)
    ensures
        a * (b * f - c * e) + b * (-(a * f - c * d)) + c * (a * e - b * d) == 0,
{
    assert(a * (b * f - c * e) == a * (b * f) - a * (c * e)) by (nonlinear_arith);
    assert(b * (-(a * f - c * d)) == -(a * (b * f)) + b * (c * d)) by (nonlinear_arith);
    assert(c * (a * e - b * d) == a * (c * e) - b * (c * d)) by (nonlinear_arith);
}

proof fn lemma_cramer3_ma_10(a: int, b: int, c: int, d: int, e: int, f: int, g: int, h: int, i: int)
    ensures
        d * (e * i - f * h) + e * (-(d * i - f * g)) + f * (d * h - e * g) == 0,
{
    assert(d * (e * i - f * h) == d * (e * i) - d * (f * h)) by (nonlinear_arith);
    assert(e * (-(d * i - f * g)) == -(d * (e * i)) + e * (f * g)) by (nonlinear_arith);
    assert(f * (d * h - e * g) == d * (f * h) - e * (f * g)) by (nonlinear_arith);
}

proof fn lemma_cramer3_ma_11(a: int, b: int, c: int, d: int, e: int, f: int, g: int, h: int, i: int)
    ensures
        d * (-(b * i - c * h)) + e * (a * i - c * g) + f * (-(a * h - b * g)) == a * (e * i - f * h) - b * (d * i - f * g) + c * (d * h - e * g),
{
    assert(d * (-(b * i - c * h)) == -(b * (d * i)) + c * (d * h)) by (nonlinear_arith);
    assert(e * (a * i - c * g) == a * (e * i) - c * (e * g)) by (nonlinear_arith);
    assert(f * (-(a * h - b * g)) == -(a * (f * h)) + b * (f * g)) by (nonlinear_arith);
    lemma_det3_expand(a, b, c, d, e, f, g, h, i);
}

proof fn lemma_cramer3_ma_12(a: int, b: int, c: int, d: int, e: int, f: int, g: int, h: int, i: int)
    ensures
        d * (b * f - c * e) + e * (-(a * f - c * d)) + f * (a * e - b * d) == 0,
{
    assert(d * (b * f - c * e) == b * (d * f) - c * (d * e)) by (nonlinear_arith);
    assert(e * (-(a * f - c * d)) == -(a * (e * f)) + c * (d * e)) by (nonlinear_arith);
    assert(f * (a * e - b * d) == a * (e * f) - b * (d * f)) by (nonlinear_arith);
}

proof fn lemma_cramer3_ma_20(a: int, b: int, c: int, d: int, e: int, f: int, g: int, h: int, i: int)
    ensures
        g * (e * i - f * h) + h * (-(d * i - f * g)) + i * (d * h - e * g) == 0,
{
    assert(g * (e * i - f * h) == e * (g * i) - f * (g * h)) by (nonlinear_arith);
    assert(h * (-(d * i - f * g)) == -(d * (h * i)) + f * (g * h)) by (nonlinear_arith);
    assert(i * (d * h - e * g) == d * (h * i) - e * (g * i)) by (nonlinear_arith);
}

proof fn lemma_cramer3_ma_21(a: int, b: int, c: int, d: int, e: int, f: int, g: int, h: int, i: int)
    ensures
        g * (-(b * i - c * h)) + h * (a * i - c * g) + i * (-(a * h - b * g)) == 0,
{
    assert(g * (-(b * i - c * h)) == -(b * (g * i)) + c * (g * h)) by (nonlinear_arith);
    assert(h * (a * i - c * g) == a * (h * i) - c * (g * h)) by (nonlinear_arith);
    assert(i * (-(a * h - b * g)) == -(a * (h * i)) + b * (g * i)) by (nonlinear_arith);
}

proof fn lemma_cramer3_ma_22(a: int, b: int, c: int, d: int, e: int, f: int, g: int, h: int, i: int)
    ensures
        g * (b * f - c * e) + h * (-(a * f - c * d)) + i * (a * e - b * d) == a * (e * i - f * h) - b * (d * i - f * g) + c * (d * h - e * g),
{
    assert(g * (b * f - c * e) == b * (f * g) - c * (e * g)) by (nonlinear_arith);
    assert(h * (-(a * f - c * d)) == -(a * (f * h)) + c * (d * h)) by (nonlinear_arith);
    assert(i * (a * e - b * d) == a * (e * i) - b * (d * i)) by (nonlinear_arith);
    lemma_det3_expand(a, b, c, d, e, f, g, h, i);
}

proof fn lemma_cramer3_am_00(a: int, b: int, c: int, d: int, e: int, f: int, g: int, h: int, i: int)
    ensures
        (e * i - f * h) * a + (-(b * i - c * h)) * d + (b * f - c * e) * g == a * (e * i - f * h) - b * (d * i - f * g) + c * (d * h - e * g),
{
    assert((e * i - f * h) * a == a * (e * i) - a * (f * h)) by (nonlinear_arith);
    assert((-(b * i - c * h)) * d == -(b * (d * i)) + c * (d * h)) by (nonlinear_arith);
    assert((b * f - c * e) * g == b * (f * g) - c * (e * g)) by (nonlinear_arith);
    lemma_det3_expand(a, b, c, d, e, f, g, h, i);
}

proof fn lemma_cramer3_am_01(a: int, b: int, c: int, d: int, e: int, f: int, g: int, h: int, i: int)
    ensures
        (e * i - f * h) * b + (-(b * i - c * h)) * e + (b * f - c * e) * h == 0,
{
    assert((e * i - f * h) * b == b * (e * i) - b * (f * h)) by (nonlinear_arith);
    assert((-(b * i - c * h)) * e == -(b * (e * i)) + c * (e * h)) by (nonlinear_arith);
    assert((b * f - c * e) * h == b * (f * h) - c * (e * h)) by (nonlinear_arith);
}

proof fn lemma_cramer3_am_02(a: int, b: int, c: int, d: int, e: int, f: int, g: int, h: int, i: int)
    ensures
        (e * i - f * h) * c + (-(b * i - c * h)) * f + (b * f - c * e) * i == 0,
{
    assert((e * i - f * h) * c == c * (e * i) - c * (f * h)) by (nonlinear_arith);
    assert((-(b * i - c * h)) * f == -(b * (f * i)) + c * (f * h)) by (nonlinear_arith);
    assert((b * f - c * e) * i == b * (f * i) - c * (e * i)) by (nonlinear_arith);
}

proof fn lemma_cramer3_am_10(a: int, b: int, c: int, d: int, e: int, f: int, g: int, h: int, i: int)
    ensures
        (-(d * i - f * g)) * a + (a * i - c * g) * d + (-(a * f - c * d)) * g == 0,
{
    assert((-(d * i - f * g)) * a == -(a * (d * i)) + a * (f * g)) by (nonlinear_arith);
    assert((a * i - c * g) * d == a * (d * i) - c * (d * g)) by (nonlinear_arith);
    assert((-(a * f - c * d)) * g == -(a * (f * g)) + c * (d * g)) by (nonlinear_arith);
}

proof fn lemma_cramer3_am_11(a: int, b: int, c: int, d: int, e: int, f: int, g: int, h: int, i: int)
    ensures
        (-(d * i - f * g)) * b + (a * i - c * g) * e + (-(a * f - c * d)) * h == a * (e * i - f * h) - b * (d * i - f * g) + c * (d * h - e * g),
{
    assert((-(d * i - f * g)) * b == -(b * (d * i)) + b * (f * g)) by (nonlinear_arith);
    assert((a * i - c * g) * e == a * (e * i) - c * (e * g)) by (nonlinear_arith);
    assert((-(a * f - c * d)) * h == -(a * (f * h)) + c * (d * h)) by (nonlinear_arith);
    lemma_det3_expand(a, b, c, d, e, f, g, h, i);
}

proof fn lemma_cramer3_am_12(a: int, b: int, c: int, d: int, e: int, f: int, g: int, h: int, i: int)
    ensures
        (-(d * i - f * g)) * c + (a * i - c * g) * f + (-(a * f - c * d)) * i == 0,
{
    assert((-(d * i - f * g)) * c == -(c * (d * i)) + c * (f * g)) by (nonlinear_arith);
    assert((a * i - c * g) * f == a * (f * i) - c * (f * g)) by (nonlinear_arith);
    assert((-(a * f - c * d)) * i == -(a * (f * i)) + c * (d * i)) by (nonlinear_arith);
}

proof fn lemma_cramer3_am_20(a: int, b: int, c: int, d: int, e: int, f: int, g: int, h: int, i: int)
    ensures
        (d * h - e * g) * a + (-(a * h - b * g)) * d + (a * e - b * d) * g == 0,
{
    assert((d * h - e * g) * a == a * (d * h) - a * (e * g)) by (nonlinear_arith);
    assert((-(a * h - b * g)) * d == -(a * (d * h)) + b * (d * g)) by (nonlinear_arith);
    assert((a * e - b * d) * g == a * (e * g) - b * (d * g)) by (nonlinear_arith);
}

proof fn lemma_cramer3_am_21(a: int, b: int, c: int, d: int, e: int, f: int, g: int, h: int, i: int)
    ensures
        (d * h - e * g) * b + (-(a * h - b * g)) * e + (a * e - b * d) * h == 0,
{
    assert((d * h - e * g) * b == b * (d * h) - b * (e * g)) by (nonlinear_arith);
    assert((-(a * h - b * g)) * e == -(a * (e * h)) + b * (e * g)) by (nonlinear_arith);
    assert((a * e - b * d) * h == a * (e * h) - b * (d * h)) by (nonlinear_arith);
}

proof fn lemma_cramer3_am_22(a: int, b: int, c: int, d: int, e: int, f: int, g: int, h: int, i: int)
    ensures
        (d * h - e * g) * c + (-(a * h - b * g)) * f + (a * e - b * d) * i == a * (e * i - f * h) - b * (d * i - f * g) + c * (d * h - e * g),
{
    assert((d * h - e * g) * c == c * (d * h) - c * (e * g)) by (nonlinear_arith);
    assert((-(a * h - b * g)) * f == -(a * (f * h)) + b * (f * g)) by (nonlinear_arith);
    assert((a * e - b * d) * i == a * (e * i) - b * (d * i)) by (nonlinear_arith);
    lemma_det3_expand(a, b, c, d, e, f, g, h, i);
}

/// A dot product distributes over negation of either operand.
proof fn lemma_dot3_neg(u: Vec3s, v: Vec3s)
    ensures
        v3_dot(u, v3_neg(v)) == -v3_dot(u, v),
        v3_dot(v3_neg(u), v) == -v3_dot(u, v),
{
    assert(u.x * (-v.x) + u.y * (-v.y) + u.z * (-v.z) == -(u.x * v.x + u.y * v.y + u.z * v.z))
        by (nonlinear_arith);
    assert((-u.x) * v.x + (-u.y) * v.y + (-u.z) * v.z == -(u.x * v.x + u.y * v.y + u.z * v.z))
        by (nonlinear_arith);
}

/// Cramer's identity: a matrix times its adjugate is the determinant times
/// the identity, on either side.
pub proof fn lemma_cramer3(m: Mat3s)
    ensures
        m3_mul(m, m3_adj(m)) == m3_scale(m3_one(), m3_det(m)),
        m3_mul(m3_adj(m), m) == m3_scale(m3_one(), m3_det(m)),
{
    let a = m.r0.x;
    let b = m.r0.y;
    let c = m.r0.z;
    let d = m.r1.x;
    let e = m.r1.y;
    let f = m.r1.z;
    let g = m.r2.x;
    let h = m.r2.y;
    let i = m.r2.z;
    lemma_cramer3_ma_00(a, b, c, d, e, f, g, h, i);
    lemma_cramer3_ma_01(a, b, c, d, e, f, g, h, i);
    lemma_cramer3_ma_02(a, b, c, d, e, f, g, h, i);
    lemma_cramer3_ma_10(a, b, c, d, e, f, g, h, i);
    lemma_cramer3_ma_11(a, b, c, d, e, f, g, h, i);
    lemma_cramer3_ma_12(a, b, c, d, e, f, g, h, i);
    lemma_cramer3_ma_20(a, b, c, d, e, f, g, h, i);
    lemma_cramer3_ma_21(a, b, c, d, e, f, g, h, i);
    lemma_cramer3_ma_22(a, b, c, d, e, f, g, h, i);
    lemma_cramer3_am_00(a, b, c, d, e, f, g, h, i);
    lemma_cramer3_am_01(a, b, c, d, e, f, g, h, i);
    lemma_cramer3_am_02(a, b, c, d, e, f, g, h, i);
    lemma_cramer3_am_10(a, b, c, d, e, f, g, h, i);
    lemma_cramer3_am_11(a, b, c, d, e, f, g, h, i);
    lemma_cramer3_am_12(a, b, c, d, e, f, g, h, i);
    lemma_cramer3_am_20(a, b, c, d, e, f, g, h, i);
    lemma_cramer3_am_21(a, b, c, d, e, f, g, h, i);
    lemma_cramer3_am_22(a, b, c, d, e, f, g, h, i);
}

/// For a matrix with determinant 1 or -1, the adjugate scaled by the
/// determinant is an exact two-sided inverse.
pub proof fn lemma_m3_inverse(m: Mat3s)
    requires
        m3_det(m) == 1 || m3_det(m) == -1,
    ensures
        m3_mul(m, m3_inv(m)) == m3_one(),
        m3_mul(m3_inv(m), m) == m3_one(),
{
    lemma_cramer3(m);
    let adj = m3_adj(m);
    if m3_det(m) == 1 {
        assert(m3_inv(m) == adj);
    } else {
        assert(m3_inv(m) == m3_neg(adj));
        lemma_dot3_neg(m.r0, m3_col0(adj));
        lemma_dot3_neg(m.r0, m3_col1(adj));
        lemma_dot3_neg(m.r0, m3_col2(adj));
        lemma_dot3_neg(m.r1, m3_col0(adj));
        lemma_dot3_neg(m.r1, m3_col1(adj));
        lemma_dot3_neg(m.r1, m3_col2(adj));
        lemma_dot3_neg(m.r2, m3_col0(adj));
        lemma_dot3_neg(m.r2, m3_col1(adj));
        lemma_dot3_neg(m.r2, m3_col2(adj));
        assert(m3_col0(m3_neg(adj)) == v3_neg(m3_col0(adj)));
        assert(m3_col1(m3_neg(adj)) == v3_neg(m3_col1(adj)));
        assert(m3_col2(m3_neg(adj)) == v3_neg(m3_col2(adj)));
        lemma_dot3_neg(adj.r0, m3_col0(m));
        lemma_dot3_neg(adj.r0, m3_col1(m));
        lemma_dot3_neg(adj.r0, m3_col2(m));
        lemma_dot3_neg(adj.r1, m3_col0(m));
        lemma_dot3_neg(adj.r1, m3_col1(m));
        lemma_dot3_neg(adj.r1, m3_col2(m));
        lemma_dot3_neg(adj.r2, m3_col0(m));
        lemma_dot3_neg(adj.r2, m3_col1(m));
        lemma_dot3_neg(adj.r2, m3_col2(m));
    }
}

/// Left-to-right pairwise maximum, as `fold_first` computes it.
pub open spec fn int_max(a: int, b: int) -> int {
    if a < b { b } else { a }
}

/// Left-to-right pairwise minimum, as `fold_first` computes it.
pub open spec fn int_min(a: int, b: int) -> int {
    if a < b { a } else { b }
}

/// Sum of all nine entries.
pub open spec fn m3_sum(m: Mat3s) -> int {
    m.r0.x + m.r0.y + m.r0.z + m.r1.x + m.r1.y + m.r1.z + m.r2.x + m.r2.y + m.r2.z
}

/// Greatest entry, reduced pairwise left to right in row-major order.
pub open spec fn m3_max(m: Mat3s) -> int {
    int_max(int_max(int_max(int_max(int_max(int_max(int_max(int_max(
        m.r0.x, m.r0.y), m.r0.z), m.r1.x), m.r1.y), m.r1.z), m.r2.x), m.r2.y), m.r2.z)
}

/// Least entry, reduced pairwise left to right in row-major order.
pub open spec fn m3_min(m: Mat3s) -> int {
    int_min(int_min(int_min(int_min(int_min(int_min(int_min(int_min(
        m.r0.x, m.r0.y), m.r0.z), m.r1.x), m.r1.y), m.r1.z), m.r2.x), m.r2.y), m.r2.z)
}


/// Absolute value.
pub open spec fn int_abs(x: int) -> int {
    if x < 0 { -x } else { x }
}

/// L1 norm: the sum of the absolute values of all entries.
pub open spec fn m3_norm_l1(m: Mat3s) -> int {
    int_abs(m.r0.x) + int_abs(m.r0.y) + int_abs(m.r0.z) + int_abs(m.r1.x) + int_abs(m.r1.y)
        + int_abs(m.r1.z) + int_abs(m.r2.x) + int_abs(m.r2.y) + int_abs(m.r2.z)
}

/// Squared L2 norm: the sum of the squares of all entries.
pub open spec fn m3_norm_l2_sqr(m: Mat3s) -> int {
    m.r0.x * m.r0.x + m.r0.y * m.r0.y + m.r0.z * m.r0.z + m.r1.x * m.r1.x + m.r1.y * m.r1.y
        + m.r1.z * m.r1.z + m.r2.x * m.r2.x + m.r2.y * m.r2.y + m.r2.z * m.r2.z
}

/// L-infinity norm: the greatest absolute value among the entries.
pub open spec fn m3_norm_l_inf(m: Mat3s) -> int {
    int_max(int_max(int_max(int_max(int_max(int_max(int_max(int_max(
        int_abs(m.r0.x), int_abs(m.r0.y)), int_abs(m.r0.z)), int_abs(m.r1.x)),
        int_abs(m.r1.y)), int_abs(m.r1.z)), int_abs(m.r2.x)), int_abs(m.r2.y)), int_abs(m.r2.z))
}

/// A square is never negative.
proof fn lemma_square_nonneg(x: int)
    by (nonlinear_arith)
    ensures
        x * x >= 0,
{
}

/// Absolute value of a scalar, in the wide type so that the least scalar
/// has one too.
fn abs_wide(x: i64) -> (r: i128)
    ensures
        r as int == int_abs(x as int),
{
    if x < 0 {
        -(x as i128)
    } else {
        x as i128
    }
}

/// A 3 x 3 matrix of scalars, stored as three row vectors.
#[derive(Clone, Copy, PartialEq, Eq, Structural, Debug)]
pub struct Matrix {
    r0: Vector,
    r1: Vector,
    r2: Vector,
}

impl View for Matrix {
    type V = Mat3s;

    closed spec fn view(&self) -> Mat3s {
        Mat3s { r0: self.r0@, r1: self.r1@, r2: self.r2@ }
    }
}

/// Exact dot product of two rows, accumulated in the wide type.
fn dot3(a: Vector, b: Vector) -> (r: i64)
    requires
        in_i64(v3_dot(a@, b@)),
    ensures
        r == v3_dot(a@, b@),
{
    let p0 = mul_wide(a.x(), b.x());
    let p1 = mul_wide(a.y(), b.y());
    let p2 = mul_wide(a.z(), b.z());
    proof {
        assert(p0 + p1 + p2 == v3_dot(a@, b@));
    }
    let s = p0 + p1 + p2;
    s as i64
}

impl Matrix {
    pub fn from_rows(r0: Vector, r1: Vector, r2: Vector) -> (r: Self)
        ensures
            r@ == (Mat3s { r0: r0@, r1: r1@, r2: r2@ }),
    {
        Matrix { r0, r1, r2 }
    }

    pub fn row0(&self) -> (r: Vector)
        ensures
            r@ == self@.r0,
    {
        self.r0
    }

    pub fn row1(&self) -> (r: Vector)
        ensures
            r@ == self@.r1,
    {
        self.r1
    }

    pub fn row2(&self) -> (r: Vector)
        ensures
            r@ == self@.r2,
    {
        self.r2
    }

    /// The multiplicative identity matrix.
    pub fn one() -> (r: Self)
        ensures
            r@ == m3_one(),
    {
        Matrix {
            r0: Vector::new(1, 0, 0),
            r1: Vector::new(0, 1, 0),
            r2: Vector::new(0, 0, 1),
        }
    }

    pub fn transpose(self) -> (r: Self)
        ensures
            r@ == m3_transpose(self@),
    {
        Matrix {
            r0: Vector::new(self.r0.x(), self.r1.x(), self.r2.x()),
            r1: Vector::new(self.r0.y(), self.r1.y(), self.r2.y()),
            r2: Vector::new(self.r0.z(), self.r1.z(), self.r2.z()),
        }
    }

    /// Element-wise product with a scalar.
    pub fn scale(self, k: i64) -> (r: Self)
        requires
            m3_in_i64(m3_scale(self@, k as int)),
        ensures
            r@ == m3_scale(self@, k as int),
    {
        Matrix { r0: self.r0.scale(k), r1: self.r1.scale(k), r2: self.r2.scale(k) }
    }

    /// Matrix-vector product.
    pub fn dot_vec(&self, v: Vector) -> (r: Vector)
        requires
            v3_in_i64(m3_apply(self@, v@)),
        ensures
            r@ == m3_apply(self@, v@),
    {
        Vector::new(dot3(self.r0, v), dot3(self.r1, v), dot3(self.r2, v))
    }

    /// Matrix-matrix product.
    pub fn dot(&self, other: &Matrix) -> (r: Matrix)
        requires
            m3_in_i64(m3_mul(self@, other@)),
        ensures
            r@ == m3_mul(self@, other@),
    {
        let c0 = Vector::new(other.r0.x(), other.r1.x(), other.r2.x());
        let c1 = Vector::new(other.r0.y(), other.r1.y(), other.r2.y());
        let c2 = Vector::new(other.r0.z(), other.r1.z(), other.r2.z());
        Matrix {
            r0: Vector::new(dot3(self.r0, c0), dot3(self.r0, c1), dot3(self.r0, c2)),
            r1: Vector::new(dot3(self.r1, c0), dot3(self.r1, c1), dot3(self.r1, c2)),
            r2: Vector::new(dot3(self.r2, c0), dot3(self.r2, c1), dot3(self.r2, c2)),
        }
    }

    /// Determinant, exact; the cofactors must be representable.
    pub fn det(&self) -> (r: i64)
        requires
            m3_in_i64(m3_adj(self@)),
            in_i64(m3_det(self@)),
        ensures
            r == m3_det(self@),
    {
        let c00 = (mul_wide(self.r1.y(), self.r2.z()) - mul_wide(self.r1.z(), self.r2.y())) as i64;
        let c10 = (mul_wide(self.r0.z(), self.r2.y()) - mul_wide(self.r0.y(), self.r2.z())) as i64;
        let c20 = (mul_wide(self.r0.y(), self.r1.z()) - mul_wide(self.r0.z(), self.r1.y())) as i64;
        proof {
            lemma_cramer3_am_00(
                self@.r0.x, self@.r0.y, self@.r0.z,
                self@.r1.x, self@.r1.y, self@.r1.z,
                self@.r2.x, self@.r2.y, self@.r2.z,
            );
        }
        let p0 = mul_wide(c00, self.r0.x());
        let p1 = mul_wide(c10, self.r1.x());
        let p2 = mul_wide(c20, self.r2.x());
        proof {
            assert(p0 + p1 + p2 == m3_det(self@));
        }
        let d = p0 + p1 + p2;
        d as i64
    }

    /// Exact inverse of a matrix whose determinant is 1 or -1; such an
    /// inverse undoes the matrix on either side.
    pub fn inv(self) -> (r: Self)
        requires
            m3_in_i64(m3_adj(self@)),
            m3_det(self@) == 1 || m3_det(self@) == -1,
        ensures
            r@ == m3_inv(self@),
            m3_mul(self@, r@) == m3_one(),
            m3_mul(r@, self@) == m3_one(),
    {
        let a00 = (mul_wide(self.r1.y(), self.r2.z()) - mul_wide(self.r1.z(), self.r2.y())) as i64;
        let a01 = (mul_wide(self.r0.z(), self.r2.y()) - mul_wide(self.r0.y(), self.r2.z())) as i64;
        let a02 = (mul_wide(self.r0.y(), self.r1.z()) - mul_wide(self.r0.z(), self.r1.y())) as i64;
        let a10 = (mul_wide(self.r1.z(), self.r2.x()) - mul_wide(self.r1.x(), self.r2.z())) as i64;
        let a11 = (mul_wide(self.r0.x(), self.r2.z()) - mul_wide(self.r0.z(), self.r2.x())) as i64;
        let a12 = (mul_wide(self.r0.z(), self.r1.x()) - mul_wide(self.r0.x(), self.r1.z())) as i64;
        let a20 = (mul_wide(self.r1.x(), self.r2.y()) - mul_wide(self.r1.y(), self.r2.x())) as i64;
        let a21 = (mul_wide(self.r0.y(), self.r2.x()) - mul_wide(self.r0.x(), self.r2.y())) as i64;
        let a22 = (mul_wide(self.r0.x(), self.r1.y()) - mul_wide(self.r0.y(), self.r1.x())) as i64;
        proof {
            lemma_cramer3_ma_00(
                self@.r0.x, self@.r0.y, self@.r0.z,
                self@.r1.x, self@.r1.y, self@.r1.z,
                self@.r2.x, self@.r2.y, self@.r2.z,
            );
            lemma_m3_inverse(self@);
        }
        let p0 = mul_wide(self.r0.x(), a00);
        let p1 = mul_wide(self.r0.y(), a10);
        let p2 = mul_wide(self.r0.z(), a20);
        proof {
            assert(p0 + p1 + p2 == m3_det(self@));
        }
        let d = p0 + p1 + p2;
        if d == 1 {
            Matrix {
                r0: Vector::new(a00, a01, a02),
                r1: Vector::new(a10, a11, a12),
                r2: Vector::new(a20, a21, a22),
            }
        } else {
            Matrix {
                r0: Vector::new(-a00, -a01, -a02),
                r1: Vector::new(-a10, -a11, -a12),
                r2: Vector::new(-a20, -a21, -a22),
            }
        }
    }

    /// Sum of all entries, reduced pairwise left to right.
    pub fn sum(self) -> (r: i64)
        requires
            in_i64(m3_sum(self@)),
        ensures
            r == m3_sum(self@),
    {
        let s = (self.r0.x() as i128) + (self.r0.y() as i128) + (self.r0.z() as i128)
            + (self.r1.x() as i128) + (self.r1.y() as i128) + (self.r1.z() as i128)
            + (self.r2.x() as i128) + (self.r2.y() as i128) + (self.r2.z() as i128);
        s as i64
    }

    /// Greatest entry, reduced pairwise left to right.
    pub fn max(self) -> (r: i64)
        ensures
            r == m3_max(self@),
    {
        let mut m = self.r0.x();
        if m < self.r0.y() { m = self.r0.y(); }
        if m < self.r0.z() { m = self.r0.z(); }
        if m < self.r1.x() { m = self.r1.x(); }
        if m < self.r1.y() { m = self.r1.y(); }
        if m < self.r1.z() { m = self.r1.z(); }
        if m < self.r2.x() { m = self.r2.x(); }
        if m < self.r2.y() { m = self.r2.y(); }
        if m < self.r2.z() { m = self.r2.z(); }
        m
    }

    /// Least entry, reduced pairwise left to right.
    pub fn min(self) -> (r: i64)
        ensures
            r == m3_min(self@),
    {
        let mut m = self.r0.x();
        if self.r0.y() < m { m = self.r0.y(); }
        if self.r0.z() < m { m = self.r0.z(); }
        if self.r1.x() < m { m = self.r1.x(); }
        if self.r1.y() < m { m = self.r1.y(); }
        if self.r1.z() < m { m = self.r1.z(); }
        if self.r2.x() < m { m = self.r2.x(); }
        if self.r2.y() < m { m = self.r2.y(); }
        if self.r2.z() < m { m = self.r2.z(); }
        m
    }

    /// L1 norm: the sum of the absolute values of all entries, reduced
    /// left to right.
    pub fn norm_l1(self) -> (r: i64)
        requires
            in_i64(m3_norm_l1(self@)),
        ensures
            r == m3_norm_l1(self@),
    {
        let s = abs_wide(self.r0.x()) + abs_wide(self.r0.y()) + abs_wide(self.r0.z())
            + abs_wide(self.r1.x()) + abs_wide(self.r1.y()) + abs_wide(self.r1.z())
            + abs_wide(self.r2.x()) + abs_wide(self.r2.y()) + abs_wide(self.r2.z());
        s as i64
    }

    /// Squared L2 norm: the sum of the squares of all entries.
    pub fn norm_l2_sqr(self) -> (r: i64)
        requires
            in_i64(m3_norm_l2_sqr(self@)),
        ensures
            r == m3_norm_l2_sqr(self@),
    {
        let p0 = mul_wide(self.r0.x(), self.r0.x());
        let p1 = mul_wide(self.r0.y(), self.r0.y());
        let p2 = mul_wide(self.r0.z(), self.r0.z());
        let p3 = mul_wide(self.r1.x(), self.r1.x());
        let p4 = mul_wide(self.r1.y(), self.r1.y());
        let p5 = mul_wide(self.r1.z(), self.r1.z());
        let p6 = mul_wide(self.r2.x(), self.r2.x());
        let p7 = mul_wide(self.r2.y(), self.r2.y());
        let p8 = mul_wide(self.r2.z(), self.r2.z());
        proof {
            lemma_square_nonneg(self@.r0.x);
            lemma_square_nonneg(self@.r0.y);
            lemma_square_nonneg(self@.r0.z);
            lemma_square_nonneg(self@.r1.x);
            lemma_square_nonneg(self@.r1.y);
            lemma_square_nonneg(self@.r1.z);
            lemma_square_nonneg(self@.r2.x);
            lemma_square_nonneg(self@.r2.y);
            lemma_square_nonneg(self@.r2.z);
            assert(p0 + p1 + p2 + p3 + p4 + p5 + p6 + p7 + p8 == m3_norm_l2_sqr(self@));
        }
        let s = p0 + p1 + p2 + p3 + p4 + p5 + p6 + p7 + p8;
        s as i64
    }

    /// L-infinity norm: the greatest absolute value among the entries,
    /// reduced pairwise left to right.
    pub fn norm_l_inf(self) -> (r: i64)
        requires
            in_i64(m3_norm_l_inf(self@)),
        ensures
            r == m3_norm_l_inf(self@),
    {
        let mut m = abs_wide(self.r0.x());
        let v = abs_wide(self.r0.y());
        if m < v { m = v; }
        let v = abs_wide(self.r0.z());
        if m < v { m = v; }
        let v = abs_wide(self.r1.x());
        if m < v { m = v; }
        let v = abs_wide(self.r1.y());
        if m < v { m = v; }
        let v = abs_wide(self.r1.z());
        if m < v { m = v; }
        let v = abs_wide(self.r2.x());
        if m < v { m = v; }
        let v = abs_wide(self.r2.y());
        if m < v { m = v; }
        let v = abs_wide(self.r2.z());
        if m < v { m = v; }
        m as i64
    }
}

} // verus!
