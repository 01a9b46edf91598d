//! An exact scalar: a rational number held as a 64-bit numerator and a
//! nonzero 64-bit denominator.
//!
//! Values are not kept in lowest terms and the denominator may be negative;
//! equality compares by cross-multiplication, so `2/4 == 1/2`. The
//! mathematical model of a scalar is the pair of its numerator and
//! denominator as unbounded integers, and every operation's contract states
//! the exact pair it produces.

use vstd::prelude::*;

verus! {

/// The model of a scalar: numerator and denominator as unbounded integers.
pub type QVal = (int, int);

/// A well-formed scalar value has a nonzero denominator.
pub open spec fn q_wf(a: QVal) -> bool {
    a.1 != 0
}

/// Two rationals are equal exactly when they cross-multiply equally.
pub open spec fn q_eq(a: QVal, b: QVal) -> bool {
    a.0 * b.1 == b.0 * a.1
}

/// The rational denotes zero: its numerator is zero (meaningful when well-formed).
pub open spec fn q_is_zero(a: QVal) -> bool {
    a.0 == 0
}

/// Exact rational sum.
pub open spec fn q_add(a: QVal, b: QVal) -> QVal {
    (a.0 * b.1 + b.0 * a.1, a.1 * b.1)
}

/// Exact rational difference.
pub open spec fn q_sub(a: QVal, b: QVal) -> QVal {
    (a.0 * b.1 - b.0 * a.1, a.1 * b.1)
}

/// Exact rational product.
pub open spec fn q_mul(a: QVal, b: QVal) -> QVal {
    (a.0 * b.0, a.1 * b.1)
}

/// Exact rational quotient (meaningful when `b` is not zero).
pub open spec fn q_div(a: QVal, b: QVal) -> QVal {
    (a.0 * b.1, a.1 * b.0)
}

/// Exact rational negation.
pub open spec fn q_neg(a: QVal) -> QVal {
    (-a.0, a.1)
}

/// `x` fits in a 64-bit signed machine word.
pub open spec fn fits_i64(x: int) -> bool {
    -0x8000_0000_0000_0000 <= x <= 0x7fff_ffff_ffff_ffff
}

/// The machine can form the sum of `a` and `b` without overflow.
pub open spec fn add_fits(a: QVal, b: QVal) -> bool {
    &&& fits_i64(a.0 * b.1)
    &&& fits_i64(b.0 * a.1)
    &&& fits_i64(a.0 * b.1 + b.0 * a.1)
    &&& fits_i64(a.1 * b.1)
}

/// The machine can form the difference of `a` and `b` without overflow.
pub open spec fn sub_fits(a: QVal, b: QVal) -> bool {
    &&& fits_i64(a.0 * b.1)
    &&& fits_i64(b.0 * a.1)
    &&& fits_i64(a.0 * b.1 - b.0 * a.1)
    &&& fits_i64(a.1 * b.1)
}

/// The machine can form the product of `a` and `b` without overflow.
pub open spec fn mul_fits(a: QVal, b: QVal) -> bool {
    &&& fits_i64(a.0 * b.0)
    &&& fits_i64(a.1 * b.1)
}

/// The machine can form the quotient of `a` by `b` without overflow.
pub open spec fn div_fits(a: QVal, b: QVal) -> bool {
    &&& fits_i64(a.0 * b.1)
    &&& fits_i64(a.1 * b.0)
}

/// The machine can negate `a` without overflow.
pub open spec fn neg_fits(a: QVal) -> bool {
    fits_i64(-a.0)
}

/// An exact rational scalar.
#[derive(Clone, Copy, Debug)]
pub struct Scalar {
    pub num: i64,
    pub den: i64,
}

impl View for Scalar {
    type V = QVal;

    open spec fn view(&self) -> QVal {
        (self.num as int, self.den as int)
    }
}

impl Scalar {
    /// The scalar is well-formed: its denominator is nonzero.
    pub open spec fn wf(self) -> bool {
        q_wf(self@)
    }

    /// Builds the rational `num / den`.
    pub fn new(num: i64, den: i64) -> (r: Scalar)
        requires
            den != 0,
        ensures
            r@ == (num as int, den as int),
            r.wf(),
    {
        Scalar { num, den }
    }

    /// Builds the integer `n` as a rational with denominator one.
    pub fn from_int(n: i64) -> (r: Scalar)
        ensures
            r@ == (n as int, 1int),
            r.wf(),
    {
        Scalar { num: n, den: 1 }
    }

    /// Whether the scalar denotes zero.
    pub fn is_zero(&self) -> (r: bool)
        requires
            self.wf(),
        ensures
            r == q_is_zero(self@),
    {
        self.num == 0
    }

    /// Exact sum of two scalars.
    pub fn add(self, rhs: Scalar) -> (r: Scalar)
        requires
            self.wf(),
            rhs.wf(),
            add_fits(self@, rhs@),
        ensures
            r@ == q_add(self@, rhs@),
            r.wf(),
    {
        proof {
            lemma_nonzero_mul(self.den as int, rhs.den as int);
        }
        Scalar { num: self.num * rhs.den + rhs.num * self.den, den: self.den * rhs.den }
    }

    /// Exact difference of two scalars.
    pub fn sub(self, rhs: Scalar) -> (r: Scalar)
        requires
            self.wf(),
            rhs.wf(),
            sub_fits(self@, rhs@),
        ensures
            r@ == q_sub(self@, rhs@),
            r.wf(),
    {
        proof {
            lemma_nonzero_mul(self.den as int, rhs.den as int);
        }
        Scalar { num: self.num * rhs.den - rhs.num * self.den, den: self.den * rhs.den }
    }

    /// Exact product of two scalars.
    pub fn mul(self, rhs: Scalar) -> (r: Scalar)
        requires
            self.wf(),
            rhs.wf(),
            mul_fits(self@, rhs@),
        ensures
            r@ == q_mul(self@, rhs@),
            r.wf(),
    {
        proof {
            lemma_nonzero_mul(self.den as int, rhs.den as int);
        }
        Scalar { num: self.num * rhs.num, den: self.den * rhs.den }
    }

    /// Exact quotient of two scalars; the divisor must not denote zero.
    pub fn div(self, rhs: Scalar) -> (r: Scalar)
        requires
            self.wf(),
            rhs.wf(),
            !q_is_zero(rhs@),
            div_fits(self@, rhs@),
        ensures
            r@ == q_div(self@, rhs@),
            r.wf(),
    {
        proof {
            lemma_nonzero_mul(self.den as int, rhs.num as int);
        }
        Scalar { num: self.num * rhs.den, den: self.den * rhs.num }
    }

    /// Exact negation of a scalar.
    pub fn neg(self) -> (r: Scalar)
        requires
            self.wf(),
            neg_fits(self@),
        ensures
            r@ == q_neg(self@),
            r.wf(),
    {
        Scalar { num: -self.num, den: self.den }
    }
}

/// The product of two nonzero integers is nonzero.
proof fn lemma_nonzero_mul(a: int, b: int)
    requires
        a != 0,
        b != 0,
    ensures
        a * b != 0,
{
    assert(a * b != 0) by (nonlinear_arith)
        requires
            a != 0,
            b != 0;
}

/// On well-formed values, equality by cross-multiplication is a genuine
/// equivalence: reflexive, symmetric, and transitive. This is what makes
/// the hand-written `==` on scalars behave as equality, representation
/// notwithstanding.
pub proof fn lemma_q_eq_equivalence(a: QVal, b: QVal, c: QVal)
    requires
        q_wf(b),
    ensures
        q_eq(a, a),
        q_eq(a, b) ==> q_eq(b, a),
        q_eq(a, b) && q_eq(b, c) ==> q_eq(a, c),
{
    if q_eq(a, b) && q_eq(b, c) {
        assert(a.0 * c.1 == c.0 * a.1) by (nonlinear_arith)
            requires
                a.0 * b.1 == b.0 * a.1,
                b.0 * c.1 == c.0 * b.1,
                b.1 != 0;
    }
}

impl PartialEq for Scalar {
    fn eq(&self, other: &Scalar) -> (r: bool) {
        proof {
            lemma_i64_prod_in_i128(self.num as int, other.den as int);
            lemma_i64_prod_in_i128(other.num as int, self.den as int);
        }
        (self.num as i128) * (other.den as i128) == (other.num as i128) * (self.den as i128)
    }
}

impl vstd::std_specs::cmp::PartialEqSpecImpl for Scalar {
    open spec fn obeys_eq_spec() -> bool {
        true
    }

    open spec fn eq_spec(&self, other: &Scalar) -> bool {
        q_eq(self@, other@)
    }
}

/// The product of two values of 64-bit range fits in a 128-bit signed word.
proof fn lemma_i64_prod_in_i128(a: int, b: int)
    requires
        -0x8000_0000_0000_0000 <= a <= 0x7fff_ffff_ffff_ffff,
        -0x8000_0000_0000_0000 <= b <= 0x7fff_ffff_ffff_ffff,
    ensures
        -0x8000_0000_0000_0000_0000_0000_0000_0000 <= a * b
            <= 0x7fff_ffff_ffff_ffff_ffff_ffff_ffff_ffff,
{
    assert(-0x4000_0000_0000_0000_0000_0000_0000_0000 <= a * b
        <= 0x4000_0000_0000_0000_0000_0000_0000_0000) by (nonlinear_arith)
        requires
            -0x8000_0000_0000_0000 <= a <= 0x7fff_ffff_ffff_ffff,
            -0x8000_0000_0000_0000 <= b <= 0x7fff_ffff_ffff_ffff;
}

} // verus!
