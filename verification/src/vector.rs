//! Fixed-size vectors of 2, 3 and 4 exact integer scalars.
//!
//! Each executable vector type abstracts to a ghost record of unbounded
//! integers; every operation's contract says exactly which record the result
//! abstracts to. Arithmetic is exact: an operation requires only that its
//! result fits in the scalar type, and computes through a wide intermediate
//! type that cannot overflow on the way there.

use vstd::prelude::*;

verus! {

/// The symmetric range of scalars the executable types can hold.
///
/// The range is symmetric (it leaves out `i64::MIN`) so that negation is
/// total on every representable scalar.
pub open spec fn in_i64(x: int) -> bool {
    -(i64::MAX as int) <= x <= i64::MAX as int
}

/// Mathematical model of a 2-vector: a pair of unbounded integers.
pub ghost struct Vec2s {
    pub x: int,
    pub y: int,
}

/// Mathematical model of a 3-vector.
pub ghost struct Vec3s {
    pub x: int,
    pub y: int,
    pub z: int,
}

/// Mathematical model of a 4-vector.
pub ghost struct Vec4s {
    pub x: int,
    pub y: int,
    pub z: int,
    pub w: int,
}

pub open spec fn v2_in_i64(v: Vec2s) -> bool {
    in_i64(v.x) && in_i64(v.y)
}

pub open spec fn v3_in_i64(v: Vec3s) -> bool {
    in_i64(v.x) && in_i64(v.y) && in_i64(v.z)
}

pub open spec fn v4_in_i64(v: Vec4s) -> bool {
    in_i64(v.x) && in_i64(v.y) && in_i64(v.z) && in_i64(v.w)
}

pub open spec fn v2_add(a: Vec2s, b: Vec2s) -> Vec2s {
    Vec2s { x: a.x + b.x, y: a.y + b.y }
}

pub open spec fn v3_add(a: Vec3s, b: Vec3s) -> Vec3s {
    Vec3s { x: a.x + b.x, y: a.y + b.y, z: a.z + b.z }
}

pub open spec fn v2_neg(a: Vec2s) -> Vec2s {
    Vec2s { x: -a.x, y: -a.y }
}

pub open spec fn v3_neg(a: Vec3s) -> Vec3s {
    Vec3s { x: -a.x, y: -a.y, z: -a.z }
}

pub open spec fn v2_scale(a: Vec2s, k: int) -> Vec2s {
    Vec2s { x: a.x * k, y: a.y * k }
}

pub open spec fn v3_scale(a: Vec3s, k: int) -> Vec3s {
    Vec3s { x: a.x * k, y: a.y * k, z: a.z * k }
}

pub open spec fn v2_zero() -> Vec2s {
    Vec2s { x: 0, y: 0 }
}

pub open spec fn v3_zero() -> Vec3s {
    Vec3s { x: 0, y: 0, z: 0 }
}

/// Scalar (pseudo-)cross product of two 2-vectors.
pub open spec fn v2_cross(a: Vec2s, b: Vec2s) -> int {
    a.x * b.y - a.y * b.x
}

/// Cross product of two 3-vectors.
pub open spec fn v3_cross(a: Vec3s, b: Vec3s) -> Vec3s {
    Vec3s {
        x: a.y * b.z - a.z * b.y,
        y: a.z * b.x - a.x * b.z,
        z: a.x * b.y - a.y * b.x,
    }
}

/// Cross product of the first three components of two 4-vectors; the fourth
/// component of the result is zero.
pub open spec fn v4_cross(a: Vec4s, b: Vec4s) -> Vec4s {
    Vec4s {
        x: a.y * b.z - a.z * b.y,
        y: a.z * b.x - a.x * b.z,
        z: a.x * b.y - a.y * b.x,
        w: 0,
    }
}

/// The product of two `i64` values stays well inside the `i128` range, so
/// wide intermediates never overflow.
pub(crate) proof fn lemma_i64_product_range(a: int, b: int) by (nonlinear_arith)
    requires
        i64::MIN <= a <= i64::MAX,
        i64::MIN <= b <= i64::MAX,
    ensures
        -(0x40000000000000000000000000000000 - 0x8000000000000000) <= a * b
            <= 0x40000000000000000000000000000000,
{
}

/// Exact product of two scalars, computed in the wide intermediate type.
pub(crate) fn mul_wide(a: i64, b: i64) -> (r: i128)
    ensures
        r as int == a * b,
        -(0x40000000000000000000000000000000 - 0x8000000000000000) <= r
            <= 0x40000000000000000000000000000000,
{
    proof {
        lemma_i64_product_range(a as int, b as int);
    }
    (a as i128) * (b as i128)
}

/// A vector of exactly two scalars.
#[derive(Clone, Copy, PartialEq, Eq, Structural, Debug)]
pub struct Vector2 {
    x: i64,
    y: i64,
}

impl View for Vector2 {
    type V = Vec2s;

    closed spec fn view(&self) -> Vec2s {
        Vec2s { x: self.x as int, y: self.y as int }
    }
}

impl Vector2 {
    pub fn new(x: i64, y: i64) -> (r: Self)
        ensures
            r@ == (Vec2s { x: x as int, y: y as int }),
    {
        Vector2 { x, y }
    }

    pub fn x(&self) -> (r: i64)
        ensures
            r == self@.x,
    {
        self.x
    }

    pub fn y(&self) -> (r: i64)
        ensures
            r == self@.y,
    {
        self.y
    }

    pub fn zero() -> (r: Self)
        ensures
            r@ == v2_zero(),
    {
        Vector2 { x: 0, y: 0 }
    }

    pub fn add(self, other: Self) -> (r: Self)
        requires
            v2_in_i64(v2_add(self@, other@)),
        ensures
            r@ == v2_add(self@, other@),
    {
        Vector2 { x: self.x + other.x, y: self.y + other.y }
    }

    pub fn neg(self) -> (r: Self)
        requires
            v2_in_i64(self@),
        ensures
            r@ == v2_neg(self@),
    {
        Vector2 { x: -self.x, y: -self.y }
    }

    pub fn scale(self, k: i64) -> (r: Self)
        requires
            v2_in_i64(v2_scale(self@, k as int)),
        ensures
            r@ == v2_scale(self@, k as int),
    {
        let x = mul_wide(self.x, k);
        let y = mul_wide(self.y, k);
        Vector2 { x: x as i64, y: y as i64 }
    }

    /// Scalar (pseudo-)cross product of two 2-vectors.
    pub fn cross(self, other: Self) -> (r: i64)
        requires
            in_i64(v2_cross(self@, other@)),
        ensures
            r == v2_cross(self@, other@),
    {
        let p = mul_wide(self.x, other.y);
        let q = mul_wide(self.y, other.x);
        (p - q) as i64
    }

    pub fn from_tuple(t: (i64, i64)) -> (r: Self)
        ensures
            r@ == (Vec2s { x: t.0 as int, y: t.1 as int }),
    {
        Vector2 { x: t.0, y: t.1 }
    }

    pub fn into_tuple(self) -> (r: (i64, i64))
        ensures
            r.0 == self@.x,
            r.1 == self@.y,
    {
        (self.x, self.y)
    }
}

/// A vector of exactly three scalars.
#[derive(Clone, Copy, PartialEq, Eq, Structural, Debug)]
pub struct Vector {
    x: i64,
    y: i64,
    z: i64,
}

impl View for Vector {
    type V = Vec3s;

    closed spec fn view(&self) -> Vec3s {
        Vec3s { x: self.x as int, y: self.y as int, z: self.z as int }
    }
}

impl Vector {
    pub fn new(x: i64, y: i64, z: i64) -> (r: Self)
        ensures
            r@ == (Vec3s { x: x as int, y: y as int, z: z as int }),
    {
        Vector { x, y, z }
    }

    pub fn x(&self) -> (r: i64)
        ensures
            r == self@.x,
    {
        self.x
    }

    pub fn y(&self) -> (r: i64)
        ensures
            r == self@.y,
    {
        self.y
    }

    pub fn z(&self) -> (r: i64)
        ensures
            r == self@.z,
    {
        self.z
    }

    pub fn zero() -> (r: Self)
        ensures
            r@ == v3_zero(),
    {
        Vector { x: 0, y: 0, z: 0 }
    }

    pub fn add(self, other: Self) -> (r: Self)
        requires
            v3_in_i64(v3_add(self@, other@)),
        ensures
            r@ == v3_add(self@, other@),
    {
        Vector { x: self.x + other.x, y: self.y + other.y, z: self.z + other.z }
    }

    pub fn neg(self) -> (r: Self)
        requires
            v3_in_i64(self@),
        ensures
            r@ == v3_neg(self@),
    {
        Vector { x: -self.x, y: -self.y, z: -self.z }
    }

    pub fn scale(self, k: i64) -> (r: Self)
        requires
            v3_in_i64(v3_scale(self@, k as int)),
        ensures
            r@ == v3_scale(self@, k as int),
    {
        let x = mul_wide(self.x, k);
        let y = mul_wide(self.y, k);
        let z = mul_wide(self.z, k);
        Vector { x: x as i64, y: y as i64, z: z as i64 }
    }

    /// Cross product.
    pub fn cross(self, other: Self) -> (r: Self)
        requires
            v3_in_i64(v3_cross(self@, other@)),
        ensures
            r@ == v3_cross(self@, other@),
    {
        let (a, b) = (&self, &other);
        let x = mul_wide(a.y, b.z) - mul_wide(a.z, b.y);
        let y = mul_wide(a.z, b.x) - mul_wide(a.x, b.z);
        let z = mul_wide(a.x, b.y) - mul_wide(a.y, b.x);
        Vector { x: x as i64, y: y as i64, z: z as i64 }
    }

    pub fn from_tuple(t: (i64, i64, i64)) -> (r: Self)
        ensures
            r@ == (Vec3s { x: t.0 as int, y: t.1 as int, z: t.2 as int }),
    {
        Vector { x: t.0, y: t.1, z: t.2 }
    }

    pub fn into_tuple(self) -> (r: (i64, i64, i64))
        ensures
            r.0 == self@.x,
            r.1 == self@.y,
            r.2 == self@.z,
    {
        (self.x, self.y, self.z)
    }
}

/// A vector of exactly four scalars.
#[derive(Clone, Copy, PartialEq, Eq, Structural, Debug)]
pub struct Vector4 {
    x: i64,
    y: i64,
    z: i64,
    w: i64,
}

impl View for Vector4 {
    type V = Vec4s;

    closed spec fn view(&self) -> Vec4s {
        Vec4s { x: self.x as int, y: self.y as int, z: self.z as int, w: self.w as int }
    }
}

impl Vector4 {
    pub fn new(x: i64, y: i64, z: i64, w: i64) -> (r: Self)
        ensures
            r@ == (Vec4s { x: x as int, y: y as int, z: z as int, w: w as int }),
    {
        Vector4 { x, y, z, w }
    }

    pub fn x(&self) -> (r: i64)
        ensures
            r == self@.x,
    {
        self.x
    }

    pub fn y(&self) -> (r: i64)
        ensures
            r == self@.y,
    {
        self.y
    }

    pub fn z(&self) -> (r: i64)
        ensures
            r == self@.z,
    {
        self.z
    }

    pub fn w(&self) -> (r: i64)
        ensures
            r == self@.w,
    {
        self.w
    }

    /// Cross product of the first three components; the fourth component of
    /// the result is zero.
    pub fn cross(self, other: Self) -> (r: Self)
        requires
            v4_in_i64(v4_cross(self@, other@)),
        ensures
            r@ == v4_cross(self@, other@),
    {
        let (a, b) = (&self, &other);
        let x = mul_wide(a.y, b.z) - mul_wide(a.z, b.y);
        let y = mul_wide(a.z, b.x) - mul_wide(a.x, b.z);
        let z = mul_wide(a.x, b.y) - mul_wide(a.y, b.x);
        Vector4 { x: x as i64, y: y as i64, z: z as i64, w: 0 }
    }

    pub fn from_tuple(t: (i64, i64, i64, i64)) -> (r: Self)
        ensures
            r@ == (Vec4s { x: t.0 as int, y: t.1 as int, z: t.2 as int, w: t.3 as int }),
    {
        Vector4 { x: t.0, y: t.1, z: t.2, w: t.3 }
    }

    pub fn into_tuple(self) -> (r: (i64, i64, i64, i64))
        ensures
            r.0 == self@.x,
            r.1 == self@.y,
            r.2 == self@.z,
            r.3 == self@.w,
    {
        (self.x, self.y, self.z, self.w)
    }
}

} // verus!
