use vecmat::complex::{Complex, Quaternion};

#[test]
fn quaternion() {
    let q = Quaternion::new(1, -2, 3, -4);
    assert_eq!(q.format_debug(), "Quaternion(1, -2, 3, -4)");
    assert_eq!(q.format_display(), "Quaternion(1, -2, 3, -4)");
}

#[test]
fn complex_format() {
    let c = Complex::new(5, -7);
    assert_eq!(c.format_debug(), "Complex(5, -7)");
    assert_eq!(c.format_display(), "Complex(5, -7)");
}

#[test]
fn multi_digit_rendering() {
    let q = Quaternion::new(1234567890, -987, 0, 42);
    assert_eq!(q.format_debug(), "Quaternion(1234567890, -987, 0, 42)");
    let c = Complex::new(-1000000, 10);
    assert_eq!(c.format_display(), "Complex(-1000000, 10)");
}
