//! Complex and quaternion value wrappers and their text rendering.
//!
//! Rendering follows the pattern `TypeName(field, field, ...)` with
//! comma-space separation; the decimal renderer is verified against a
//! recursive specification of decimal notation.

use vstd::prelude::*;

verus! {

/// The decimal digit character for a value below ten.
pub open spec fn dec_digit(d: int) -> char {
    if d == 0 { '0' }
    else if d == 1 { '1' }
    else if d == 2 { '2' }
    else if d == 3 { '3' }
    else if d == 4 { '4' }
    else if d == 5 { '5' }
    else if d == 6 { '6' }
    else if d == 7 { '7' }
    else if d == 8 { '8' }
    else { '9' }
}

/// Decimal notation of a natural number, most significant digit first.
pub open spec fn dec_seq(n: nat) -> Seq<char>
    decreases n,
{
    if n < 10 {
        seq![dec_digit(n as int)]
    } else {
        dec_seq(n / 10).push(dec_digit((n % 10) as int))
    }
}

/// Decimal notation of an integer: a leading minus sign for negatives.
pub open spec fn int_seq(v: int) -> Seq<char> {
    if v < 0 {
        seq!['-'] + dec_seq((-v) as nat)
    } else {
        dec_seq(v as nat)
    }
}

/// The one-character string for a decimal digit.
fn digit_str(d: u64) -> (r: &'static str)
    requires
        d < 10,
    ensures
        r@ == seq![dec_digit(d as int)],
{
    proof {
        reveal_strlit("0");
        reveal_strlit("1");
        reveal_strlit("2");
        reveal_strlit("3");
        reveal_strlit("4");
        reveal_strlit("5");
        reveal_strlit("6");
        reveal_strlit("7");
        reveal_strlit("8");
        reveal_strlit("9");
    }
    if d == 0 { proof { assert("0"@ =~= seq![dec_digit(0)]); } "0" }
    else if d == 1 { proof { assert("1"@ =~= seq![dec_digit(1)]); } "1" }
    else if d == 2 { proof { assert("2"@ =~= seq![dec_digit(2)]); } "2" }
    else if d == 3 { proof { assert("3"@ =~= seq![dec_digit(3)]); } "3" }
    else if d == 4 { proof { assert("4"@ =~= seq![dec_digit(4)]); } "4" }
    else if d == 5 { proof { assert("5"@ =~= seq![dec_digit(5)]); } "5" }
    else if d == 6 { proof { assert("6"@ =~= seq![dec_digit(6)]); } "6" }
    else if d == 7 { proof { assert("7"@ =~= seq![dec_digit(7)]); } "7" }
    else if d == 8 { proof { assert("8"@ =~= seq![dec_digit(8)]); } "8" }
    else { proof { assert("9"@ =~= seq![dec_digit(9)]); } "9" }
}

/// Decimal rendering of a natural number.
fn u64_dec(n: u64) -> (s: String)
    ensures
        s@ == dec_seq(n as nat),
    decreases n,
{
    if n < 10 {
        digit_str(n).to_owned()
    } else {
        let mut s = u64_dec(n / 10);
        let d = digit_str(n % 10);
        s.append(d);
        proof {
            assert(s@ =~= dec_seq((n / 10) as nat).push(dec_digit((n % 10) as int)));
        }
        s
    }
}

/// Decimal rendering of an integer, with a leading minus for negatives.
fn i64_dec(v: i64) -> (s: String)
    ensures
        s@ == int_seq(v as int),
{
    if v >= 0 {
        u64_dec(v as u64)
    } else {
        let mut s = "-".to_owned();
        proof {
            reveal_strlit("-");
            assert("-"@ =~= seq!['-']);
        }
        let m: u64 = ((-(v + 1)) as u64) + 1;
        proof {
            assert(m as int == -(v as int));
        }
        let t = u64_dec(m);
        s.append(t.as_str());
        proof {
            assert(s@ =~= seq!['-'] + dec_seq((-(v as int)) as nat));
        }
        s
    }
}

/// The rendered form of a complex value: `Complex(re, im)`.
pub open spec fn complex_text(re: int, im: int) -> Seq<char> {
    "Complex("@ + int_seq(re) + ", "@ + int_seq(im) + ")"@
}

/// The rendered form of a quaternion: `Quaternion(w, x, y, z)`.
pub open spec fn quaternion_text(w: int, x: int, y: int, z: int) -> Seq<char> {
    "Quaternion("@ + int_seq(w) + ", "@ + int_seq(x) + ", "@ + int_seq(y) + ", "@ + int_seq(z)
        + ")"@
}

/// A complex number over the exact integer scalar.
#[derive(Clone, Copy, PartialEq, Eq, Structural, Debug)]
pub struct Complex {
    pub re: i64,
    pub im: i64,
}

impl Complex {
    pub fn new(re: i64, im: i64) -> (r: Self)
        ensures
            r.re == re,
            r.im == im,
    {
        Complex { re, im }
    }

    /// The debug rendering, `Complex(re, im)`.
    pub fn format_debug(&self) -> (s: String)
        ensures
            s@ == complex_text(self.re as int, self.im as int),
    {
        let mut s = "Complex(".to_owned();
        s.append(i64_dec(self.re).as_str());
        s.append(", ");
        s.append(i64_dec(self.im).as_str());
        s.append(")");
        proof {
            assert(s@ =~= complex_text(self.re as int, self.im as int));
        }
        s
    }

    /// The display rendering; for integer scalars it coincides with the
    /// debug rendering.
    pub fn format_display(&self) -> (s: String)
        ensures
            s@ == complex_text(self.re as int, self.im as int),
    {
        self.format_debug()
    }
}

/// A quaternion over the exact integer scalar, stored as `w + xi + yj + zk`.
#[derive(Clone, Copy, PartialEq, Eq, Structural, Debug)]
pub struct Quaternion {
    pub w: i64,
    pub x: i64,
    pub y: i64,
    pub z: i64,
}

impl Quaternion {
    pub fn new(w: i64, x: i64, y: i64, z: i64) -> (r: Self)
        ensures
            r.w == w,
            r.x == x,
            r.y == y,
            r.z == z,
    {
        Quaternion { w, x, y, z }
    }

    /// The debug rendering, `Quaternion(w, x, y, z)`.
    pub fn format_debug(&self) -> (s: String)
        ensures
            s@ == quaternion_text(self.w as int, self.x as int, self.y as int, self.z as int),
    {
        let mut s = "Quaternion(".to_owned();
        s.append(i64_dec(self.w).as_str());
        s.append(", ");
        s.append(i64_dec(self.x).as_str());
        s.append(", ");
        s.append(i64_dec(self.y).as_str());
        s.append(", ");
        s.append(i64_dec(self.z).as_str());
        s.append(")");
        proof {
            assert(s@ =~= quaternion_text(
                self.w as int, self.x as int, self.y as int, self.z as int));
        }
        s
    }

    /// The display rendering; for integer scalars it coincides with the
    /// debug rendering.
    pub fn format_display(&self) -> (s: String)
        ensures
            s@ == quaternion_text(self.w as int, self.x as int, self.y as int, self.z as int),
    {
        self.format_debug()
    }
}

} // verus!
