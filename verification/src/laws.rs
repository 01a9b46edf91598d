//! The algebraic laws of the vector operations, stated over the spec-level
//! model and proved once and for all:
//!
//! - the dot product is commutative;
//! - the cross product is anticommutative, and the cross product of a
//!   vector with itself is the zero vector;
//! - the dot product of a vector with itself is zero exactly when the
//!   vector is zero;
//! - the cross product is orthogonal to both of its operands;
//! - projecting a nonzero vector onto itself gives the vector back, and
//!   projecting any vector keeps its dot product with the axis;
//! - scaling a vector scales its squared norm by the scalar's square.

use vstd::prelude::*;

use crate::scalar::QVal;
use crate::scalar::Scalar;
use crate::scalar::lemma_q_eq_equivalence;
use crate::scalar::q_add;
use crate::scalar::q_div;
use crate::scalar::q_eq;
use crate::scalar::q_is_zero;
use crate::scalar::q_mul;
use crate::scalar::q_sub;
use crate::scalar::q_wf;
use crate::vector::VVal;
use crate::vector::Vector;
use crate::vector::v_cross;
use crate::vector::v_dot;
use crate::vector::v_eq;
use crate::vector::v_is_zero;
use crate::vector::v_neg;
use crate::vector::v_proj;
use crate::vector::v_scale;
use crate::vector::v_wf;

verus! {

/// Squaring a product squares each factor: `(p q)(p q) == (q q)(p p)`.
proof fn lemma_sq_swap(p: int, q: int)
    by (nonlinear_arith)
    ensures
        (p * q) * (p * q) == (q * q) * (p * p),
{
}

/// Multiplication by `t` distributes over a sum of rationals.
proof fn lemma_q_mul_factors_add(t: QVal, x: QVal, y: QVal)
    ensures
        q_eq(q_add(q_mul(t, x), q_mul(t, y)), q_mul(t, q_add(x, y))),
{
    let w: int = x.0 * y.1 + y.0 * x.1;
    assert(t.0 * x.0 * (t.1 * y.1) == t.0 * t.1 * (x.0 * y.1)) by (nonlinear_arith);
    assert(t.0 * y.0 * (t.1 * x.1) == t.0 * t.1 * (y.0 * x.1)) by (nonlinear_arith);
    assert(t.0 * t.1 * (x.0 * y.1) + t.0 * t.1 * (y.0 * x.1) == t.0 * t.1 * w) by (nonlinear_arith)
        requires
            w == x.0 * y.1 + y.0 * x.1;
    assert((t.0 * t.1 * w) * (t.1 * (x.1 * y.1)) == (t.0 * w) * ((t.1 * x.1) * (t.1
        * y.1))) by (nonlinear_arith);
}

/// Replacing a summand by a rationally equal one keeps the sum rationally
/// equal.
proof fn lemma_q_add_congruent(x: QVal, xp: QVal, y: QVal)
    requires
        q_eq(x, xp),
    ensures
        q_eq(q_add(x, y), q_add(xp, y)),
{
    assert((x.0 * y.1 + y.0 * x.1) * (xp.1 * y.1) == (xp.0 * y.1 + y.0 * xp.1) * (x.1
        * y.1)) by (nonlinear_arith)
        requires
            x.0 * xp.1 == xp.0 * x.1;
}

/// Products of two pairs commute factor by factor and as a whole:
/// `(p q)(r s) == (q p)(s r) == (s r)(q p)`.
proof fn lemma_comm4(p: int, q: int, r: int, s: int)
    by (nonlinear_arith)
    ensures
        (p * q) * (r * s) == (q * p) * (s * r),
        (p * q) * (r * s) == (s * r) * (q * p),
{
}

/// A square times two squares is nonnegative; it is positive when none of
/// the three factors is zero, and zero when the first is zero.
proof fn lemma_square_term(x: int, y: int, z: int)
    by (nonlinear_arith)
    ensures
        x * x * ((y * y) * (z * z)) >= 0,
        (x != 0 && y != 0 && z != 0) ==> x * x * ((y * y) * (z * z)) > 0,
        x == 0 ==> x * x * ((y * y) * (z * z)) == 0,
{
}

/// Multiplication reassociates and commutes around three factors.
proof fn lemma_mul_shuffle(p: int, q: int, r: int)
    by (nonlinear_arith)
    ensures
        (p * q) * r == p * (q * r),
        p * (q * r) == q * (p * r),
        p * (q * r) == r * (p * q),
{
}

/// A negated first factor negates the whole product.
proof fn lemma_neg_mul_mul(p: int, q: int, r: int)
    by (nonlinear_arith)
    ensures
        ((-p) * q) * r == -((p * q) * r),
{
}

/// Multiplying the negation of a value negates the product.
proof fn lemma_mul_neg_of(s: int, p: int, q: int)
    by (nonlinear_arith)
    requires
        s == -p,
    ensures
        s * q == -(p * q),
{
}

/// The numerator of `(u × v) · u` vanishes identically, whatever the
/// representation of the components: the six products of the expanded
/// sum cancel in pairs.
proof fn lemma_triple_product_first(u: VVal, v: VVal)
    ensures
        v_dot(v_cross(u, v), u).0 == 0,
{
    let (a, b, c) = u;
    let (d, e, f) = v;
    let m1: int = (b.0 * f.0) * (c.1 * e.1);
    let m2: int = (c.0 * e.0) * (b.1 * f.1);
    let n1: int = (c.0 * d.0) * (a.1 * f.1);
    let n2: int = (a.0 * f.0) * (c.1 * d.1);
    let o1: int = (a.0 * e.0) * (b.1 * d.1);
    let o2: int = (b.0 * d.0) * (a.1 * e.1);
    let x0: int = m1 - m2;
    let y0: int = n1 - n2;
    let z0: int = o1 - o2;
    let xch: int = ((b.1 * f.1) * (c.1 * e.1)) * a.1;
    let ych: int = ((c.1 * d.1) * (a.1 * f.1)) * b.1;
    let zch: int = ((a.1 * e.1) * (b.1 * d.1)) * c.1;
    assert(v_dot(v_cross(u, v), u).0 == ((x0 * a.0) * ych + (y0 * b.0) * xch) * zch + (z0 * c.0) * (
    xch * ych));

    // Distribute each cross-component numerator over its product.
    assert((x0 * a.0) * ych == (m1 * a.0) * ych - (m2 * a.0) * ych) by (nonlinear_arith)
        requires
            x0 == m1 - m2;
    assert((y0 * b.0) * xch == (n1 * b.0) * xch - (n2 * b.0) * xch) by (nonlinear_arith)
        requires
            y0 == n1 - n2;
    assert((z0 * c.0) * (xch * ych) == (o1 * c.0) * (xch * ych) - (o2 * c.0) * (xch
        * ych)) by (nonlinear_arith)
        requires
            z0 == o1 - o2;
    assert(((m1 * a.0) * ych - (m2 * a.0) * ych + ((n1 * b.0) * xch - (n2 * b.0) * xch)) * zch == ((
    m1 * a.0) * ych) * zch - ((m2 * a.0) * ych) * zch + ((n1 * b.0) * xch) * zch - ((n2 * b.0)
        * xch) * zch) by (nonlinear_arith);
    let t1: int = ((m1 * a.0) * ych) * zch;
    let t2: int = ((m2 * a.0) * ych) * zch;
    let t3: int = ((n1 * b.0) * xch) * zch;
    let t4: int = ((n2 * b.0) * xch) * zch;
    let t5: int = (o1 * c.0) * (xch * ych);
    let t6: int = (o2 * c.0) * (xch * ych);
    assert(v_dot(v_cross(u, v), u).0 == t1 - t2 + t3 - t4 + t5 - t6);

    // First pair: both numerators reorder to a.0 b.0 f.0 times one product
    // of denominators.
    let num1: int = a.0 * (b.0 * f.0);
    assert(((b.0 * f.0) * (c.1 * e.1)) * a.0 == num1 * (c.1 * e.1)) by (nonlinear_arith)
        requires
            num1 == a.0 * (b.0 * f.0);
    assert(((a.0 * f.0) * (c.1 * d.1)) * b.0 == num1 * (c.1 * d.1)) by (nonlinear_arith)
        requires
            num1 == a.0 * (b.0 * f.0);
    lemma_mul_shuffle(num1, c.1 * e.1, ych);
    lemma_mul_shuffle(num1, c.1 * d.1, xch);
    assert((c.1 * e.1) * (((c.1 * d.1) * (a.1 * f.1)) * b.1) == (c.1 * d.1) * (((b.1 * f.1) * (c.1
        * e.1)) * a.1)) by (nonlinear_arith);
    assert((m1 * a.0) * ych == (n2 * b.0) * xch);
    assert(t1 == t4);

    // Second pair: both numerators reorder to a.0 c.0 e.0.
    let num2: int = a.0 * (c.0 * e.0);
    assert(((c.0 * e.0) * (b.1 * f.1)) * a.0 == num2 * (b.1 * f.1)) by (nonlinear_arith)
        requires
            num2 == a.0 * (c.0 * e.0);
    assert(((a.0 * e.0) * (b.1 * d.1)) * c.0 == num2 * (b.1 * d.1)) by (nonlinear_arith)
        requires
            num2 == a.0 * (c.0 * e.0);
    lemma_mul_shuffle(num2, b.1 * f.1, ych);
    lemma_mul_shuffle(num2, (b.1 * f.1) * ych, zch);
    lemma_mul_shuffle(num2, b.1 * d.1, xch * ych);
    lemma_mul_shuffle(b.1 * f.1, ych, zch);
    lemma_mul_shuffle(b.1 * d.1, xch, ych);
    assert((b.1 * f.1) * (((a.1 * e.1) * (b.1 * d.1)) * c.1) == (b.1 * d.1) * (((b.1 * f.1) * (c.1
        * e.1)) * a.1)) by (nonlinear_arith);
    assert(t2 == t5);

    // Third pair: both numerators reorder to b.0 c.0 d.0.
    let num3: int = b.0 * (c.0 * d.0);
    assert(((c.0 * d.0) * (a.1 * f.1)) * b.0 == num3 * (a.1 * f.1)) by (nonlinear_arith)
        requires
            num3 == b.0 * (c.0 * d.0);
    assert(((b.0 * d.0) * (a.1 * e.1)) * c.0 == num3 * (a.1 * e.1)) by (nonlinear_arith)
        requires
            num3 == b.0 * (c.0 * d.0);
    lemma_mul_shuffle(num3, a.1 * f.1, xch);
    lemma_mul_shuffle(num3, (a.1 * f.1) * xch, zch);
    lemma_mul_shuffle(num3, a.1 * e.1, xch * ych);
    lemma_mul_shuffle(a.1 * f.1, xch, zch);
    lemma_mul_shuffle(a.1 * e.1, xch, ych);
    assert((a.1 * f.1) * (((a.1 * e.1) * (b.1 * d.1)) * c.1) == (a.1 * e.1) * (((c.1 * d.1) * (a.1
        * f.1)) * b.1)) by (nonlinear_arith);
    assert(t3 == t6);
}

/// Negating the left vector of a dot product negates its numerator and
/// keeps its denominator.
proof fn lemma_dot_neg_left(w: VVal, r: VVal)
    ensures
        v_dot(v_neg(w), r).0 == -v_dot(w, r).0,
        v_dot(v_neg(w), r).1 == v_dot(w, r).1,
{
    lemma_neg_mul_mul(w.0.0, r.0.0, (w.1.1) * (r.1.1));
    lemma_neg_mul_mul(w.1.0, r.1.0, (w.0.1) * (r.0.1));
    lemma_neg_mul_mul(w.2.0, r.2.0, ((w.0.1) * (r.0.1)) * ((w.1.1) * (r.1.1)));
    lemma_mul_neg_of(
        ((-w.0.0) * r.0.0) * ((w.1.1) * (r.1.1)) + ((-w.1.0) * r.1.0) * ((w.0.1) * (r.0.1)),
        (w.0.0 * r.0.0) * ((w.1.1) * (r.1.1)) + (w.1.0 * r.1.0) * ((w.0.1) * (r.0.1)),
        (w.2.1) * (r.2.1),
    );
}

/// The dot product is commutative: `u · v == v · u`, exactly.
pub proof fn lemma_dot_product_commutes(u: Vector, v: Vector)
    ensures
        v_dot(u@, v@) == v_dot(v@, u@),
{
    let (a, b, c) = u@;
    let (d, e, f) = v@;
    assert(a.0 * d.0 == d.0 * a.0) by (nonlinear_arith);
    assert(a.1 * d.1 == d.1 * a.1) by (nonlinear_arith);
    assert(b.0 * e.0 == e.0 * b.0) by (nonlinear_arith);
    assert(b.1 * e.1 == e.1 * b.1) by (nonlinear_arith);
    assert(c.0 * f.0 == f.0 * c.0) by (nonlinear_arith);
    assert(c.1 * f.1 == f.1 * c.1) by (nonlinear_arith);
}

/// The cross product is anticommutative: `u × v == -(v × u)`, exactly.
pub proof fn lemma_cross_product_anticommutes(u: Vector, v: Vector)
    ensures
        v_cross(u@, v@) == v_neg(v_cross(v@, u@)),
{
    let (a, b, c) = u@;
    let (d, e, f) = v@;
    lemma_comm4(b.0, f.0, c.1, e.1);
    lemma_comm4(c.0, e.0, b.1, f.1);
    lemma_comm4(b.1, f.1, c.1, e.1);
    lemma_comm4(c.0, d.0, a.1, f.1);
    lemma_comm4(a.0, f.0, c.1, d.1);
    lemma_comm4(c.1, d.1, a.1, f.1);
    lemma_comm4(a.0, e.0, b.1, d.1);
    lemma_comm4(b.0, d.0, a.1, e.1);
    lemma_comm4(a.1, e.1, b.1, d.1);
}

/// The cross product of a vector with itself equals its own negation, and
/// both are the zero vector.
pub proof fn lemma_cross_product_self(u: Vector)
    ensures
        v_cross(u@, u@) == v_neg(v_cross(u@, u@)),
        v_is_zero(v_cross(u@, u@)),
{
    lemma_cross_product_anticommutes(u, u);
}

/// The dot product of a well-formed vector with itself denotes zero
/// exactly when the vector denotes the zero vector.
pub proof fn lemma_dot_self_zero(v: Vector)
    requires
        v.wf(),
    ensures
        q_is_zero(v_dot(v@, v@)) <==> v_is_zero(v@),
{
    let (a, b, c) = v@;
    let n: int = v_dot(v@, v@).0;
    let ta: int = a.0 * a.0 * ((b.1 * b.1) * (c.1 * c.1));
    let tb: int = b.0 * b.0 * ((a.1 * a.1) * (c.1 * c.1));
    let tc: int = c.0 * c.0 * ((a.1 * a.1) * (b.1 * b.1));
    assert((a.0 * a.0 * (b.1 * b.1) + b.0 * b.0 * (a.1 * a.1)) * (c.1 * c.1) + (c.0 * c.0) * ((a.1
        * a.1) * (b.1 * b.1)) == a.0 * a.0 * ((b.1 * b.1) * (c.1 * c.1)) + b.0 * b.0 * ((a.1 * a.1)
        * (c.1 * c.1)) + c.0 * c.0 * ((a.1 * a.1) * (b.1 * b.1))) by (nonlinear_arith);
    assert(n == ta + tb + tc);
    lemma_square_term(a.0, b.1, c.1);
    lemma_square_term(b.0, a.1, c.1);
    lemma_square_term(c.0, a.1, b.1);
}

/// Projecting a nonzero vector onto itself gives the vector back:
/// `v_proj(v, v)` and `v` are equal component by component as rationals.
pub proof fn lemma_proj_self(v: Vector)
    requires
        v.wf(),
        !v_is_zero(v@),
    ensures
        v_eq(v_proj(v@, v@), v@),
{
    let (a, b, c) = v@;
    let k: QVal = v_dot(v@, v@);
    assert((a.0 * (k.0 * k.1)) * a.1 == a.0 * (a.1 * (k.1 * k.0))) by (nonlinear_arith);
    assert((b.0 * (k.0 * k.1)) * b.1 == b.0 * (b.1 * (k.1 * k.0))) by (nonlinear_arith);
    assert((c.0 * (k.0 * k.1)) * c.1 == c.0 * (c.1 * (k.1 * k.0))) by (nonlinear_arith);
}

/// Scaling the left vector of a dot product with itself factors the
/// scalar out: `(l s) · l == s (l · l)`, as rationals.
proof fn lemma_dot_scale_left(l: VVal, s: QVal)
    requires
        v_wf(l),
        q_wf(s),
    ensures
        q_eq(v_dot(v_scale(l, s), l), q_mul(s, v_dot(l, l))),
{
    let (a, b, c) = l;
    let m1: QVal = q_mul(a, a);
    let m2: QVal = q_mul(b, b);
    let m3: QVal = q_mul(c, c);

    // Each scaled square is the scalar times the square of the component.
    assert((a.0 * s.0) * a.0 == s.0 * (a.0 * a.0)) by (nonlinear_arith);
    assert((a.1 * s.1) * a.1 == s.1 * (a.1 * a.1)) by (nonlinear_arith);
    assert((b.0 * s.0) * b.0 == s.0 * (b.0 * b.0)) by (nonlinear_arith);
    assert((b.1 * s.1) * b.1 == s.1 * (b.1 * b.1)) by (nonlinear_arith);
    assert((c.0 * s.0) * c.0 == s.0 * (c.0 * c.0)) by (nonlinear_arith);
    assert((c.1 * s.1) * c.1 == s.1 * (c.1 * c.1)) by (nonlinear_arith);
    assert(q_mul(q_mul(a, s), a) == q_mul(s, m1));
    assert(q_mul(q_mul(b, s), b) == q_mul(s, m2));
    assert(q_mul(q_mul(c, s), c) == q_mul(s, m3));

    // Factor the scalar out of the three-term sum.
    let s12: QVal = q_add(m1, m2);
    let mid: QVal = q_add(q_mul(s, s12), q_mul(s, m3));
    lemma_q_mul_factors_add(s, m1, m2);
    lemma_q_add_congruent(q_add(q_mul(s, m1), q_mul(s, m2)), q_mul(s, s12), q_mul(s, m3));
    lemma_q_mul_factors_add(s, s12, m3);
    assert(mid.1 != 0) by (nonlinear_arith)
        requires
            mid.1 == (s.1 * ((a.1 * a.1) * (b.1 * b.1))) * (s.1 * (c.1 * c.1)),
            a.1 != 0,
            b.1 != 0,
            c.1 != 0,
            s.1 != 0;
    lemma_q_eq_equivalence(v_dot(v_scale(l, s), l), mid, q_mul(s, v_dot(l, l)));
}

/// The projection of `r` onto `l` keeps exactly `r`'s dot product with
/// `l`: the residual `r − proj` is orthogonal to the axis, since the
/// difference of the two dot products denotes zero.
pub proof fn lemma_proj_residual_orthogonal(l: Vector, r: Vector)
    requires
        l.wf(),
        r.wf(),
        !v_is_zero(l@),
    ensures
        q_eq(v_dot(v_proj(l@, r@), l@), v_dot(r@, l@)),
        q_is_zero(q_sub(v_dot(r@, l@), v_dot(v_proj(l@, r@), l@))),
{
    let k1: QVal = v_dot(r@, l@);
    let k2: QVal = v_dot(l@, l@);
    let s: QVal = q_div(k1, k2);
    let (a, b, c) = l@;
    let (d, e, f) = r@;
    lemma_dot_self_zero(l);
    assert(k1.1 != 0) by (nonlinear_arith)
        requires
            k1.1 == ((d.1 * a.1) * (e.1 * b.1)) * (f.1 * c.1),
            a.1 != 0,
            b.1 != 0,
            c.1 != 0,
            d.1 != 0,
            e.1 != 0,
            f.1 != 0;
    assert(k2.1 != 0) by (nonlinear_arith)
        requires
            k2.1 == ((a.1 * a.1) * (b.1 * b.1)) * (c.1 * c.1),
            a.1 != 0,
            b.1 != 0,
            c.1 != 0;
    assert(s.1 != 0) by (nonlinear_arith)
        requires
            s.1 == k1.1 * k2.0,
            k1.1 != 0,
            k2.0 != 0;
    lemma_dot_scale_left(l@, s);

    // The scalar is the ratio of the two dot products, so multiplying it
    // back by the divisor gives the dividend.
    assert(((k1.0 * k2.1) * k2.0) * k1.1 == k1.0 * ((k1.1 * k2.0) * k2.1)) by (nonlinear_arith);
    assert(q_eq(q_mul(s, k2), k1));
    assert(q_wf(q_mul(s, k2))) by (nonlinear_arith)
        requires
            q_mul(s, k2).1 == s.1 * k2.1,
            s.1 != 0,
            k2.1 != 0;
    lemma_q_eq_equivalence(v_dot(v_proj(l@, r@), l@), q_mul(s, k2), k1);
}

/// The cross product is orthogonal to both of its operands: the dot
/// product of `u × v` with `u` and with `v` denotes zero.
pub proof fn lemma_cross_orthogonal(u: Vector, v: Vector)
    ensures
        q_is_zero(v_dot(v_cross(u@, v@), u@)),
        q_is_zero(v_dot(v_cross(u@, v@), v@)),
{
    lemma_triple_product_first(u@, v@);
    // For the second operand: u × v is the negation of v × u, whose dot
    // product with v has the vanishing numerator of the first case.
    lemma_cross_product_anticommutes(u, v);
    lemma_triple_product_first(v@, u@);
    lemma_dot_neg_left(v_cross(v@, u@), v@);
}

/// Scaling a vector scales its squared norm by the square of the scalar:
/// `(u s) · (u s) == s² (u · u)`, as rationals. This is the exact content
/// of normalization being unchanged by scaling: the norm of `u` scaled by
/// a positive `s` is `s` times the norm of `u`.
pub proof fn lemma_scale_magnitude_squared(u: Vector, s: Scalar)
    requires
        u.wf(),
        s.wf(),
    ensures
        q_eq(v_dot(v_scale(u@, s@), v_scale(u@, s@)), q_mul(q_mul(s@, s@), v_dot(u@, u@))),
{
    let (a, b, c) = u@;
    let t: QVal = q_mul(s@, s@);
    let m1: QVal = q_mul(a, a);
    let m2: QVal = q_mul(b, b);
    let m3: QVal = q_mul(c, c);

    // Each scaled square is the square of the scalar times the square of
    // the component, exactly.
    lemma_sq_swap(a.0, s@.0);
    lemma_sq_swap(a.1, s@.1);
    lemma_sq_swap(b.0, s@.0);
    lemma_sq_swap(b.1, s@.1);
    lemma_sq_swap(c.0, s@.0);
    lemma_sq_swap(c.1, s@.1);
    assert(q_mul(q_mul(a, s@), q_mul(a, s@)) == q_mul(t, m1));
    assert(q_mul(q_mul(b, s@), q_mul(b, s@)) == q_mul(t, m2));
    assert(q_mul(q_mul(c, s@), q_mul(c, s@)) == q_mul(t, m3));

    // Factor the square of the scalar out of the three-term sum.
    let s12: QVal = q_add(m1, m2);
    let mid: QVal = q_add(q_mul(t, s12), q_mul(t, m3));
    lemma_q_mul_factors_add(t, m1, m2);
    lemma_q_add_congruent(q_add(q_mul(t, m1), q_mul(t, m2)), q_mul(t, s12), q_mul(t, m3));
    lemma_q_mul_factors_add(t, s12, m3);
    assert(mid.1 != 0) by (nonlinear_arith)
        requires
            mid.1 == ((s@.1 * s@.1) * ((a.1 * a.1) * (b.1 * b.1))) * ((s@.1 * s@.1) * (c.1 * c.1)),
            a.1 != 0,
            b.1 != 0,
            c.1 != 0,
            s@.1 != 0;
    lemma_q_eq_equivalence(
        v_dot(v_scale(u@, s@), v_scale(u@, s@)),
        mid,
        q_mul(t, v_dot(u@, u@)),
    );
}

} // verus!
