use vecmat::linear::Linear;
use vecmat::matrix::Matrix;
use vecmat::shift::Shift;
use vecmat::vector::{Vector2, Vector, Vector4};

fn shear() -> Matrix {
    Matrix::from_rows(
        Vector::new(1, 1, 0),
        Vector::new(0, 1, 0),
        Vector::new(0, 0, 1),
    )
}

fn quarter_turn() -> Matrix {
    Matrix::from_rows(
        Vector::new(0, -1, 0),
        Vector::new(1, 0, 0),
        Vector::new(0, 0, 1),
    )
}

fn sample() -> Matrix {
    Matrix::from_rows(
        Vector::new(2, 3, 5),
        Vector::new(7, -1, 4),
        Vector::new(0, 6, -2),
    )
}

#[test]
fn linearity() {
    let m = sample();
    let x = Vector::new(3, -4, 9);
    let k: i64 = 6;
    let lhs = Linear::from_matrix(m.scale(k)).apply(x);
    assert_eq!(lhs, Linear::from_matrix(m).apply(x.scale(k)));
    assert_eq!(lhs, Linear::from_matrix(m).apply(x).scale(k));
}

#[test]
fn chaining() {
    let a = Linear::from_matrix(sample());
    let b = Linear::from_matrix(shear());
    let c = Vector::new(1, -2, 3);
    assert_eq!(a.chain(Linear::identity()), a);
    assert_eq!(Linear::identity().chain(b), b);
    assert_eq!(a.chain(b).apply(c), a.apply(b.apply(c)));
}

#[test]
fn inversion() {
    let a = Linear::from_matrix(quarter_turn());
    let x = Vector::new(5, -8, 13);
    assert_eq!(a.chain(a.inv()), Linear::identity());
    assert_eq!(a.inv().chain(a), Linear::identity());
    assert_eq!(a.inv().apply(a.apply(x)), x);
    assert_eq!(a.apply(a.inv().apply(x)), x);
}

#[test]
fn shift_laws() {
    let t = Shift::from_vector(Vector::new(4, -5, 6));
    let p = Vector::new(10, 20, 30);
    assert_eq!(t.chain(Shift::identity()).apply(p), t.apply(p));
    assert_eq!(Shift::identity().chain(t).apply(p), t.apply(p));
    assert_eq!(t.inv().apply(t.apply(p)), p);
    assert_eq!(t.apply(t.inv().apply(p)), p);
    let u = Shift::from_vector(Vector::new(-1, 2, 7));
    assert_eq!(t.chain(u).apply(p), t.apply(u.apply(p)));
}

#[test]
fn derivatives_and_directions() {
    let t = Shift::from_vector(Vector::new(4, -5, 6));
    let p = Vector::new(1, 1, 1);
    let d = Vector::new(2, 0, -3);
    assert_eq!(t.deriv(p, d), d);
    assert_eq!(t.apply_dir(p, d), d);
    assert_eq!(t.apply_normal(p, d), d);
    let a = Linear::from_matrix(shear());
    assert_eq!(a.deriv(p, d), a.apply(d));
}

#[test]
fn normal_transform_of_rotation() {
    // The inverse transpose of a rotation is the rotation itself.
    let a = Linear::from_matrix(quarter_turn());
    assert_eq!(a.normal_transform(), a);
    assert_eq!(
        Linear::identity().normal_transform(),
        Linear::identity()
    );
}

#[test]
fn reorder_round_trip() {
    let s = Shift::from_vector(Vector::new(9, -4, 2));
    let l = Linear::from_matrix(shear());
    let (l2, s2) = s.reorder(l);
    assert_eq!(l2, l);
    let (s3, l3) = l2.reorder(s2);
    assert_eq!(s3, s);
    assert_eq!(l3, l);
}

#[test]
fn reorder_identity() {
    let s = Shift::from_vector(Vector::new(1, 2, 3));
    let (l2, s2) = s.reorder(Linear::identity());
    assert_eq!(l2, Linear::identity());
    assert_eq!(s2, s);
}

#[test]
fn reorder_preserves_effect() {
    // Shift-after-linear and its reordering map every probed point alike.
    let s = Shift::from_vector(Vector::new(9, -4, 2));
    let l = Linear::from_matrix(quarter_turn());
    let (l2, s2) = s.reorder(l);
    for p in [Vector::new(0, 0, 0), Vector::new(1, -2, 3), Vector::new(-7, 5, 11)] {
        assert_eq!(s.apply(l.apply(p)), l2.apply(s2.apply(p)));
    }
}

#[test]
fn cross_products() {
    assert_eq!(Vector2::new(1, 0).cross(Vector2::new(0, 1)), 1);
    assert_eq!(
        Vector::new(1, 0, 0).cross(Vector::new(0, 1, 0)),
        Vector::new(0, 0, 1)
    );
    assert_eq!(
        Vector4::new(1, 0, 0, 5).cross(Vector4::new(0, 1, 0, 7)),
        Vector4::new(0, 0, 1, 0)
    );
    // Anticommutativity on one concrete pair.
    let a = Vector::new(2, -3, 4);
    let b = Vector::new(5, 1, -2);
    assert_eq!(a.cross(b), b.cross(a).neg());
}

#[test]
fn tuple_conversions() {
    assert_eq!(Vector2::from_tuple((3, -4)).into_tuple(), (3, -4));
    assert_eq!(Vector::from_tuple((1, 2, -3)).into_tuple(), (1, 2, -3));
    assert_eq!(Vector4::from_tuple((0, -1, 2, 9)).into_tuple(), (0, -1, 2, 9));
    let v = Vector::from_tuple((8, -6, 7));
    assert_eq!((v.x(), v.y(), v.z()), (8, -6, 7));
}

#[test]
fn matrix_reductions() {
    let m = sample();
    assert_eq!(m.sum(), 24);
    assert_eq!(m.max(), 7);
    assert_eq!(m.min(), -2);
    assert_eq!(m.det(), 2 * (-22) - 3 * (-14) + 5 * 42);
    assert_eq!(shear().det(), 1);
    assert_eq!(quarter_turn().det(), 1);
}

#[test]
fn matrix_norms() {
    let m = sample();
    assert_eq!(m.norm_l1(), 30);
    assert_eq!(m.norm_l2_sqr(), 144);
    assert_eq!(m.norm_l_inf(), 7);
}

#[test]
fn matrix_structure() {
    let m = sample();
    assert_eq!(m.transpose().transpose(), m);
    assert_eq!(m.transpose().row0(), Vector::new(2, 7, 0));
    let v = Vector::new(1, 0, 0);
    assert_eq!(Matrix::one().dot_vec(v), v);
    assert_eq!(Matrix::one().dot(&m), m);
    assert_eq!(m.dot(&Matrix::one()), m);
}

#[test]
fn conversions_round_trip() {
    let m = sample();
    assert_eq!(Linear::from_matrix(m).into_matrix(), m);
    let v = Vector::new(-2, 0, 14);
    assert_eq!(Shift::from_vector(v).into_vector(), v);
}
