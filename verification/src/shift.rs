//! The translation-only transform: adds a fixed offset to every point.

use vstd::prelude::*;

use crate::vector::{v3_add, v3_in_i64, v3_neg, v3_zero, Vec3s, Vector};
use crate::matrix::{m3_adj, m3_apply, m3_det, m3_in_i64, m3_inv};
use crate::linear::Linear;

verus! {

/// A transform that shifts every point by a fixed offset vector.
/// It abstracts to the offset itself.
#[derive(Clone, Copy, PartialEq, Eq, Structural, Debug)]
pub struct Shift {
    pos: Vector,
}

impl View for Shift {
    type V = Vec3s;

    closed spec fn view(&self) -> Vec3s {
        self.pos@
    }
}

impl Shift {
    pub fn from_vector(pos: Vector) -> (r: Self)
        ensures
            r@ == pos@,
    {
        Shift { pos }
    }

    pub fn into_vector(self) -> (r: Vector)
        ensures
            r@ == self@,
    {
        self.pos
    }

    /// The shift with no effect: the zero offset.
    pub fn identity() -> (r: Self)
        ensures
            r@ == v3_zero(),
    {
        Shift { pos: Vector::zero() }
    }

    /// The shift that undoes this one: the negated offset.
    pub fn inv(self) -> (r: Self)
        requires
            v3_in_i64(self@),
        ensures
            r@ == v3_neg(self@),
    {
        Shift { pos: self.pos.neg() }
    }

    /// Moves a point by the offset.
    pub fn apply(&self, pos: Vector) -> (r: Vector)
        requires
            v3_in_i64(v3_add(pos@, self@)),
        ensures
            r@ == v3_add(pos@, self@),
    {
        pos.add(self.pos)
    }

    /// Directional derivative of `apply`: a translation moves every point
    /// the same way, so directions pass through unchanged.
    pub fn deriv(&self, _pos: Vector, dir: Vector) -> (r: Vector)
        ensures
            r@ == dir@,
    {
        dir
    }

    /// The shift equivalent to applying `other` first, then this one.
    pub fn chain(self, other: Self) -> (r: Self)
        requires
            v3_in_i64(v3_add(self@, other@)),
        ensures
            r@ == v3_add(self@, other@),
    {
        Shift { pos: self.pos.add(other.pos) }
    }

    /// A pure translation preserves tangent directions exactly.
    pub fn apply_dir(&self, _pos: Vector, dir: Vector) -> (r: Vector)
        ensures
            r@ == dir@,
    {
        dir
    }

    /// A pure translation preserves surface normals exactly.
    pub fn apply_normal(&self, _pos: Vector, normal: Vector) -> (r: Vector)
        ensures
            r@ == normal@,
    {
        normal
    }

    /// Swaps a pipeline of shape "apply `other`, then this shift" into the
    /// equivalent "apply the returned shift, then the returned linear map":
    /// the offset is pulled back through the inverse of the linear map.
    pub fn reorder(self, other: Linear) -> (r: (Linear, Shift))
        requires
            m3_in_i64(m3_adj(other@)),
            m3_det(other@) == 1 || m3_det(other@) == -1,
            v3_in_i64(m3_apply(m3_inv(other@), self@)),
        ensures
            r.0 == other,
            r.1@ == m3_apply(m3_inv(other@), self@),
    {
        (other, Shift::from_vector(other.inv().apply(self.into_vector())))
    }
}

} // verus!
