//! The algebraic laws of the transform algebra, stated over the
//! mathematical models and proved once and for all.

use vstd::prelude::*;

use crate::vector::{v3_add, v3_neg, v3_scale, v3_zero, Vec3s};
use crate::matrix::{
    m3_apply, m3_det, m3_inv, m3_mul, m3_one, m3_scale, lemma_m3_inverse, Mat3s,
};

verus! {

/// One row of the matrix product applied to a point equals the row applied
/// to the already-mapped point: the scalar core of composition.
proof fn lemma_compose_row(
    u1: int, u2: int, u3: int,
    b00: int, b01: int, b02: int,
    b10: int, b11: int, b12: int,
    b20: int, b21: int, b22: int,
    px: int, py: int, pz: int,
)
    ensures
        (u1 * b00 + u2 * b10 + u3 * b20) * px + (u1 * b01 + u2 * b11 + u3 * b21) * py + (u1
            * b02 + u2 * b12 + u3 * b22) * pz == u1 * (b00 * px + b01 * py + b02 * pz) + u2 * (b10
            * px + b11 * py + b12 * pz) + u3 * (b20 * px + b21 * py + b22 * pz),
{
    assert((u1 * b00 + u2 * b10 + u3 * b20) * px == (u1 * b00) * px + (u2 * b10) * px + (u3
        * b20) * px) by (nonlinear_arith);
    assert((u1 * b00) * px == u1 * (b00 * px)) by (nonlinear_arith);
    assert((u2 * b10) * px == u2 * (b10 * px)) by (nonlinear_arith);
    assert((u3 * b20) * px == u3 * (b20 * px)) by (nonlinear_arith);
    assert((u1 * b01 + u2 * b11 + u3 * b21) * py == (u1 * b01) * py + (u2 * b11) * py + (u3
        * b21) * py) by (nonlinear_arith);
    assert((u1 * b01) * py == u1 * (b01 * py)) by (nonlinear_arith);
    assert((u2 * b11) * py == u2 * (b11 * py)) by (nonlinear_arith);
    assert((u3 * b21) * py == u3 * (b21 * py)) by (nonlinear_arith);
    assert((u1 * b02 + u2 * b12 + u3 * b22) * pz == (u1 * b02) * pz + (u2 * b12) * pz + (u3
        * b22) * pz) by (nonlinear_arith);
    assert((u1 * b02) * pz == u1 * (b02 * pz)) by (nonlinear_arith);
    assert((u2 * b12) * pz == u2 * (b12 * pz)) by (nonlinear_arith);
    assert((u3 * b22) * pz == u3 * (b22 * pz)) by (nonlinear_arith);
    assert(u1 * (b00 * px + b01 * py + b02 * pz) == u1 * (b00 * px) + u1 * (b01 * py) + u1 * (b02
        * pz)) by (nonlinear_arith);
    assert(u2 * (b10 * px + b11 * py + b12 * pz) == u2 * (b10 * px) + u2 * (b11 * py) + u2 * (b12
        * pz)) by (nonlinear_arith);
    assert(u3 * (b20 * px + b21 * py + b22 * pz) == u3 * (b20 * px) + u3 * (b21 * py) + u3 * (b22
        * pz)) by (nonlinear_arith);
}

/// Composition law for linear maps: applying a matrix product is applying
/// the inner matrix, then the outer one.
pub proof fn lemma_linear_compose(a: Mat3s, b: Mat3s, p: Vec3s)
    ensures
        m3_apply(m3_mul(a, b), p) == m3_apply(a, m3_apply(b, p)),
{
    lemma_compose_row(
        a.r0.x, a.r0.y, a.r0.z,
        b.r0.x, b.r0.y, b.r0.z,
        b.r1.x, b.r1.y, b.r1.z,
        b.r2.x, b.r2.y, b.r2.z,
        p.x, p.y, p.z,
    );
    lemma_compose_row(
        a.r1.x, a.r1.y, a.r1.z,
        b.r0.x, b.r0.y, b.r0.z,
        b.r1.x, b.r1.y, b.r1.z,
        b.r2.x, b.r2.y, b.r2.z,
        p.x, p.y, p.z,
    );
    lemma_compose_row(
        a.r2.x, a.r2.y, a.r2.z,
        b.r0.x, b.r0.y, b.r0.z,
        b.r1.x, b.r1.y, b.r1.z,
        b.r2.x, b.r2.y, b.r2.z,
        p.x, p.y, p.z,
    );
}

/// Composition law for shifts: applying a sum of offsets is applying the
/// inner offset, then the outer one.
pub proof fn lemma_shift_compose(a: Vec3s, b: Vec3s, p: Vec3s)
    ensures
        v3_add(p, v3_add(a, b)) == v3_add(v3_add(p, b), a),
{
}

/// Identity law: chaining with the identity on either side changes neither
/// a linear map nor what it does to any point.
pub proof fn lemma_linear_identity(m: Mat3s, p: Vec3s)
    ensures
        m3_mul(m, m3_one()) == m,
        m3_mul(m3_one(), m) == m,
        m3_apply(m3_one(), p) == p,
{
}

/// Identity law for shifts: the zero offset is a unit for chaining and
/// leaves every point in place.
pub proof fn lemma_shift_identity(s: Vec3s, p: Vec3s)
    ensures
        v3_add(s, v3_zero()) == s,
        v3_add(v3_zero(), s) == s,
        v3_add(p, v3_zero()) == p,
{
}

/// Inverse law for shifts: the negated offset undoes the offset exactly,
/// in either order of application.
pub proof fn lemma_shift_inverse(s: Vec3s, p: Vec3s)
    ensures
        v3_add(v3_add(p, s), v3_neg(s)) == p,
        v3_add(v3_add(p, v3_neg(s)), s) == p,
{
}

/// Inverse law for linear maps of determinant 1 or -1: the exact inverse
/// undoes the map on every point, in either order of application.
pub proof fn lemma_linear_inverse(m: Mat3s, p: Vec3s)
    requires
        m3_det(m) == 1 || m3_det(m) == -1,
    ensures
        m3_apply(m3_inv(m), m3_apply(m, p)) == p,
        m3_apply(m, m3_apply(m3_inv(m), p)) == p,
{
    lemma_m3_inverse(m);
    lemma_linear_compose(m3_inv(m), m, p);
    lemma_linear_compose(m, m3_inv(m), p);
    assert(m3_apply(m3_one(), p) == p);
}

/// The scalar core of linearity: scaling a row and scaling the point act
/// the same way on a dot product, and both equal scaling the result.
proof fn lemma_linearity_row(u1: int, u2: int, u3: int, x1: int, x2: int, x3: int, k: int)
    ensures
        (u1 * k) * x1 + (u2 * k) * x2 + (u3 * k) * x3 == (u1 * x1 + u2 * x2 + u3 * x3) * k,
        u1 * (x1 * k) + u2 * (x2 * k) + u3 * (x3 * k) == (u1 * x1 + u2 * x2 + u3 * x3) * k,
{
    assert((u1 * k) * x1 == (u1 * x1) * k) by (nonlinear_arith);
    assert((u2 * k) * x2 == (u2 * x2) * k) by (nonlinear_arith);
    assert((u3 * k) * x3 == (u3 * x3) * k) by (nonlinear_arith);
    assert(u1 * (x1 * k) == (u1 * x1) * k) by (nonlinear_arith);
    assert(u2 * (x2 * k) == (u2 * x2) * k) by (nonlinear_arith);
    assert(u3 * (x3 * k) == (u3 * x3) * k) by (nonlinear_arith);
    assert((u1 * x1 + u2 * x2 + u3 * x3) * k == (u1 * x1) * k + (u2 * x2) * k + (u3 * x3) * k)
        by (nonlinear_arith);
}

/// Linearity: scaling the matrix, scaling the point, and scaling the
/// mapped point all produce the same point.
pub proof fn lemma_linearity(m: Mat3s, x: Vec3s, k: int)
    ensures
        m3_apply(m3_scale(m, k), x) == v3_scale(m3_apply(m, x), k),
        m3_apply(m, v3_scale(x, k)) == v3_scale(m3_apply(m, x), k),
{
    lemma_linearity_row(m.r0.x, m.r0.y, m.r0.z, x.x, x.y, x.z, k);
    lemma_linearity_row(m.r1.x, m.r1.y, m.r1.z, x.x, x.y, x.z, k);
    lemma_linearity_row(m.r2.x, m.r2.y, m.r2.z, x.x, x.y, x.z, k);
}

/// Reorder round trip: pulling an offset back through the inverse of a map
/// of determinant 1 or -1 and pushing it forward again (or the other way
/// round) reproduces the offset, so reordering a (shift, linear) pair twice
/// reproduces the pair exactly.
pub proof fn lemma_reorder_round_trip(s: Vec3s, l: Mat3s)
    requires
        m3_det(l) == 1 || m3_det(l) == -1,
    ensures
        m3_apply(l, m3_apply(m3_inv(l), s)) == s,
        m3_apply(m3_inv(l), m3_apply(l, s)) == s,
{
    lemma_linear_inverse(l, s);
}

} // verus!
