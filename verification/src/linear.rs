//! The linear-map transform: multiplies every point by a fixed square matrix.

use vstd::prelude::*;

use crate::vector::{v3_in_i64, Vec3s, Vector};
use crate::matrix::{
    m3_adj, m3_apply, m3_det, m3_in_i64, m3_inv, m3_mul, m3_one, m3_transpose, Mat3s, Matrix,
};
use crate::shift::Shift;

verus! {

/// A transform that maps every point through a linear map.
/// It abstracts to the map's matrix.
#[derive(Clone, Copy, PartialEq, Eq, Structural, Debug)]
pub struct Linear {
    lin: Matrix,
}

impl View for Linear {
    type V = Mat3s;

    closed spec fn view(&self) -> Mat3s {
        self.lin@
    }
}

impl Linear {
    pub fn from_matrix(lin: Matrix) -> (r: Self)
        ensures
            r@ == lin@,
    {
        Linear { lin }
    }

    pub fn into_matrix(self) -> (r: Matrix)
        ensures
            r@ == self@,
    {
        self.lin
    }

    /// The linear map with no effect: the identity matrix.
    pub fn identity() -> (r: Self)
        ensures
            r@ == m3_one(),
    {
        Linear { lin: Matrix::one() }
    }

    /// The exact inverse map; defined for matrices of determinant 1 or -1,
    /// and then an exact two-sided inverse.
    pub fn inv(self) -> (r: Self)
        requires
            m3_in_i64(m3_adj(self@)),
            m3_det(self@) == 1 || m3_det(self@) == -1,
        ensures
            r@ == m3_inv(self@),
            m3_mul(self@, r@) == m3_one(),
            m3_mul(r@, self@) == m3_one(),
    {
        Linear { lin: self.lin.inv() }
    }

    /// Maps a point through the matrix.
    pub fn apply(&self, pos: Vector) -> (r: Vector)
        requires
            v3_in_i64(m3_apply(self@, pos@)),
        ensures
            r@ == m3_apply(self@, pos@),
    {
        self.lin.dot_vec(pos)
    }

    /// Directional derivative of `apply`: a linear map is its own
    /// derivative everywhere, independent of the position.
    pub fn deriv(&self, _pos: Vector, dir: Vector) -> (r: Vector)
        requires
            v3_in_i64(m3_apply(self@, dir@)),
        ensures
            r@ == m3_apply(self@, dir@),
    {
        self.apply(dir)
    }

    /// The linear map equivalent to applying `other` first, then this one:
    /// the matrix product.
    pub fn chain(self, other: Self) -> (r: Self)
        requires
            m3_in_i64(m3_mul(self@, other@)),
        ensures
            r@ == m3_mul(self@, other@),
    {
        Linear { lin: self.lin.dot(&other.lin) }
    }

    /// The map that carries surface normals: the inverse transpose. This is
    /// the contravariant correction needed under non-uniform scaling; for
    /// rotation-only maps it coincides with the map itself.
    pub fn normal_transform(self) -> (r: Self)
        requires
            m3_in_i64(m3_adj(self@)),
            m3_det(self@) == 1 || m3_det(self@) == -1,
        ensures
            r@ == m3_transpose(m3_inv(self@)),
    {
        Linear { lin: self.lin.inv().transpose() }
    }

    /// Swaps a pipeline of shape "apply `other`, then this linear map" into
    /// the equivalent "apply the returned linear map, then the returned
    /// shift": the offset is pushed forward through the map.
    pub fn reorder(self, other: Shift) -> (r: (Shift, Linear))
        requires
            v3_in_i64(m3_apply(self@, other@)),
        ensures
            r.0@ == m3_apply(self@, other@),
            r.1 == self,
    {
        (Shift::from_vector(self.apply(other.into_vector())), self)
    }
}

} // verus!
