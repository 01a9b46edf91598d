//! A three-component vector over exact rational scalars.
//!
//! The operations mirror classical Euclidean vector algebra: component-wise
//! addition, negation, scaling by a scalar, the dot and cross products, and
//! vector projection. Every operation returns a new value and its contract
//! states the exact rational components of the result.

use vstd::prelude::*;

use crate::scalar::QVal;
use crate::scalar::Scalar;
use crate::scalar::add_fits;
use crate::scalar::div_fits;
use crate::scalar::mul_fits;
use crate::scalar::neg_fits;
use crate::scalar::q_add;
use crate::scalar::q_div;
use crate::scalar::q_eq;
use crate::scalar::q_is_zero;
use crate::scalar::q_mul;
use crate::scalar::q_neg;
use crate::scalar::q_sub;
use crate::scalar::q_wf;
use crate::scalar::sub_fits;

verus! {

/// The model of a vector: its three components as exact rationals.
pub type VVal = (QVal, QVal, QVal);

/// Every component is a well-formed rational.
pub open spec fn v_wf(u: VVal) -> bool {
    q_wf(u.0) && q_wf(u.1) && q_wf(u.2)
}

/// Component-wise rational equality.
pub open spec fn v_eq(u: VVal, v: VVal) -> bool {
    q_eq(u.0, v.0) && q_eq(u.1, v.1) && q_eq(u.2, v.2)
}

/// The vector denotes the zero vector: every component denotes zero.
pub open spec fn v_is_zero(u: VVal) -> bool {
    q_is_zero(u.0) && q_is_zero(u.1) && q_is_zero(u.2)
}

/// Component-wise sum.
pub open spec fn v_add(u: VVal, v: VVal) -> VVal {
    (q_add(u.0, v.0), q_add(u.1, v.1), q_add(u.2, v.2))
}

/// Component-wise negation.
pub open spec fn v_neg(u: VVal) -> VVal {
    (q_neg(u.0), q_neg(u.1), q_neg(u.2))
}

/// Component-wise scaling by the rational `s`.
pub open spec fn v_scale(u: VVal, s: QVal) -> VVal {
    (q_mul(u.0, s), q_mul(u.1, s), q_mul(u.2, s))
}

/// The inner product `u.x v.x + u.y v.y + u.z v.z`.
pub open spec fn v_dot(u: VVal, v: VVal) -> QVal {
    q_add(q_add(q_mul(u.0, v.0), q_mul(u.1, v.1)), q_mul(u.2, v.2))
}

/// The right-handed cross product of `u` and `v`.
pub open spec fn v_cross(u: VVal, v: VVal) -> VVal {
    (
        q_sub(q_mul(u.1, v.2), q_mul(u.2, v.1)),
        q_sub(q_mul(u.2, v.0), q_mul(u.0, v.2)),
        q_sub(q_mul(u.0, v.1), q_mul(u.1, v.0)),
    )
}

/// The projection of `r` onto `l`: `l` scaled by `(r · l) / (l · l)`.
pub open spec fn v_proj(l: VVal, r: VVal) -> VVal {
    v_scale(l, q_div(v_dot(r, l), v_dot(l, l)))
}

/// The machine can form `v_add(u, v)` without overflow.
pub open spec fn v_add_fits(u: VVal, v: VVal) -> bool {
    add_fits(u.0, v.0) && add_fits(u.1, v.1) && add_fits(u.2, v.2)
}

/// The machine can form `v_neg(u)` without overflow.
pub open spec fn v_neg_fits(u: VVal) -> bool {
    neg_fits(u.0) && neg_fits(u.1) && neg_fits(u.2)
}

/// The machine can form `v_scale(u, s)` without overflow.
pub open spec fn v_scale_fits(u: VVal, s: QVal) -> bool {
    mul_fits(u.0, s) && mul_fits(u.1, s) && mul_fits(u.2, s)
}

/// The machine can form `v_dot(u, v)` without overflow.
pub open spec fn v_dot_fits(u: VVal, v: VVal) -> bool {
    &&& mul_fits(u.0, v.0)
    &&& mul_fits(u.1, v.1)
    &&& mul_fits(u.2, v.2)
    &&& add_fits(q_mul(u.0, v.0), q_mul(u.1, v.1))
    &&& add_fits(q_add(q_mul(u.0, v.0), q_mul(u.1, v.1)), q_mul(u.2, v.2))
}

/// The machine can form `v_cross(u, v)` without overflow.
pub open spec fn v_cross_fits(u: VVal, v: VVal) -> bool {
    &&& mul_fits(u.1, v.2)
    &&& mul_fits(u.2, v.1)
    &&& sub_fits(q_mul(u.1, v.2), q_mul(u.2, v.1))
    &&& mul_fits(u.2, v.0)
    &&& mul_fits(u.0, v.2)
    &&& sub_fits(q_mul(u.2, v.0), q_mul(u.0, v.2))
    &&& mul_fits(u.0, v.1)
    &&& mul_fits(u.1, v.0)
    &&& sub_fits(q_mul(u.0, v.1), q_mul(u.1, v.0))
}

/// The machine can form `v_proj(l, r)` without overflow.
pub open spec fn v_proj_fits(l: VVal, r: VVal) -> bool {
    &&& v_dot_fits(r, l)
    &&& v_dot_fits(l, l)
    &&& div_fits(v_dot(r, l), v_dot(l, l))
    &&& v_scale_fits(l, q_div(v_dot(r, l), v_dot(l, l)))
}

/// A three-component vector of exact rational scalars.
#[derive(Clone, Copy, Debug)]
pub struct Vector {
    pub x: Scalar,
    pub y: Scalar,
    pub z: Scalar,
}

impl View for Vector {
    type V = VVal;

    open spec fn view(&self) -> VVal {
        (self.x@, self.y@, self.z@)
    }
}

impl Vector {
    /// Every component is well-formed.
    pub open spec fn wf(self) -> bool {
        v_wf(self@)
    }

    /// Builds a vector from three scalar components.
    pub fn new(x: Scalar, y: Scalar, z: Scalar) -> (r: Vector)
        ensures
            r@ == ((x@, y@, z@)),
    {
        Vector { x, y, z }
    }

    /// Builds a vector with the three given integer components.
    pub fn from_ints(x: i64, y: i64, z: i64) -> (r: Vector)
        ensures
            r@ == (((x as int, 1int), (y as int, 1int), (z as int, 1int))),
            r.wf(),
    {
        Vector { x: Scalar::from_int(x), y: Scalar::from_int(y), z: Scalar::from_int(z) }
    }

    /// Whether every component denotes zero.
    pub fn is_zero(&self) -> (r: bool)
        requires
            self.wf(),
        ensures
            r == v_is_zero(self@),
    {
        self.x.is_zero() && self.y.is_zero() && self.z.is_zero()
    }

    /// Component-wise sum of two vectors.
    pub fn add(&self, rhs: &Vector) -> (r: Vector)
        requires
            self.wf(),
            rhs.wf(),
            v_add_fits(self@, rhs@),
        ensures
            r@ == v_add(self@, rhs@),
            r.wf(),
    {
        Vector { x: self.x.add(rhs.x), y: self.y.add(rhs.y), z: self.z.add(rhs.z) }
    }

    /// Negation: every component's sign is flipped.
    pub fn negate(&self) -> (r: Vector)
        requires
            self.wf(),
            v_neg_fits(self@),
        ensures
            r@ == v_neg(self@),
            r.wf(),
    {
        Vector { x: self.x.neg(), y: self.y.neg(), z: self.z.neg() }
    }

    /// Scaling: every component is multiplied by the scalar `rhs`.
    pub fn scale(&self, rhs: Scalar) -> (r: Vector)
        requires
            self.wf(),
            rhs.wf(),
            v_scale_fits(self@, rhs@),
        ensures
            r@ == v_scale(self@, rhs@),
            r.wf(),
    {
        Vector { x: self.x.mul(rhs), y: self.y.mul(rhs), z: self.z.mul(rhs) }
    }

    /// The inner product of two vectors.
    pub fn dot_product(&self, rhs: &Vector) -> (r: Scalar)
        requires
            self.wf(),
            rhs.wf(),
            v_dot_fits(self@, rhs@),
        ensures
            r@ == v_dot(self@, rhs@),
            r.wf(),
    {
        self.x.mul(rhs.x).add(self.y.mul(rhs.y)).add(self.z.mul(rhs.z))
    }

    /// The square of the Euclidean norm: the dot product of the vector
    /// with itself. The norm itself is the square root of this value,
    /// which is irrational in general and so is not computed here.
    pub fn magnitude_squared(&self) -> (r: Scalar)
        requires
            self.wf(),
            v_dot_fits(self@, self@),
        ensures
            r@ == v_dot(self@, self@),
            r.wf(),
    {
        self.dot_product(self)
    }

    /// The right-handed cross product of two vectors.
    pub fn cross_product(&self, rhs: &Vector) -> (r: Vector)
        requires
            self.wf(),
            rhs.wf(),
            v_cross_fits(self@, rhs@),
        ensures
            r@ == v_cross(self@, rhs@),
            r.wf(),
    {
        Vector {
            x: self.y.mul(rhs.z).sub(self.z.mul(rhs.y)),
            y: self.z.mul(rhs.x).sub(self.x.mul(rhs.z)),
            z: self.x.mul(rhs.y).sub(self.y.mul(rhs.x)),
        }
    }

    /// The projection of `rhs` onto `lhs`: `lhs` scaled by
    /// `(rhs · lhs) / (lhs · lhs)`. `lhs` must not be the zero vector,
    /// since the scale would otherwise divide by zero.
    pub fn proj(lhs: &Vector, rhs: &Vector) -> (r: Vector)
        requires
            lhs.wf(),
            rhs.wf(),
            !v_is_zero(lhs@),
            v_proj_fits(lhs@, rhs@),
        ensures
            r@ == v_proj(lhs@, rhs@),
            r.wf(),
    {
        proof {
            crate::laws::lemma_dot_self_zero(*lhs);
        }
        lhs.scale(rhs.dot_product(lhs).div(lhs.dot_product(lhs)))
    }

    /// Projects `self` onto `rhs`. Note the argument order: the result is
    /// the component of `self` lying along `rhs`, not the reverse.
    pub fn proj_onto(&self, rhs: &Vector) -> (r: Vector)
        requires
            self.wf(),
            rhs.wf(),
            !v_is_zero(rhs@),
            v_proj_fits(rhs@, self@),
        ensures
            r@ == v_proj(rhs@, self@),
            r.wf(),
    {
        Vector::proj(rhs, self)
    }

    /// Rotation about the x axis, given the exact sine and cosine of the
    /// angle: `y' = y cos − z sin`, `z' = y sin + z cos`, `x` unchanged.
    /// Every output component is computed from the original components.
    pub fn rotate_x_with(&self, sin: Scalar, cos: Scalar) -> (r: Vector)
        requires
            self.wf(),
            sin.wf(),
            cos.wf(),
            mul_fits(self@.1, cos@),
            mul_fits(self@.2, sin@),
            sub_fits(q_mul(self@.1, cos@), q_mul(self@.2, sin@)),
            mul_fits(self@.1, sin@),
            mul_fits(self@.2, cos@),
            add_fits(q_mul(self@.1, sin@), q_mul(self@.2, cos@)),
        ensures
            r@ == ((
                self@.0,
                q_sub(q_mul(self@.1, cos@), q_mul(self@.2, sin@)),
                q_add(q_mul(self@.1, sin@), q_mul(self@.2, cos@)),
            )),
            r.wf(),
    {
        Vector {
            x: self.x,
            y: self.y.mul(cos).sub(self.z.mul(sin)),
            z: self.y.mul(sin).add(self.z.mul(cos)),
        }
    }

    /// Rotation about the y axis, given the exact sine and cosine of the
    /// angle: `x' = x cos + z sin`, `z' = −x sin + z cos`, `y` unchanged.
    /// Every output component is computed from the original components.
    pub fn rotate_y_with(&self, sin: Scalar, cos: Scalar) -> (r: Vector)
        requires
            self.wf(),
            sin.wf(),
            cos.wf(),
            mul_fits(self@.0, cos@),
            mul_fits(self@.2, sin@),
            add_fits(q_mul(self@.0, cos@), q_mul(self@.2, sin@)),
            neg_fits(self@.0),
            mul_fits(q_neg(self@.0), sin@),
            mul_fits(self@.2, cos@),
            add_fits(q_mul(q_neg(self@.0), sin@), q_mul(self@.2, cos@)),
        ensures
            r@ == ((
                q_add(q_mul(self@.0, cos@), q_mul(self@.2, sin@)),
                self@.1,
                q_add(q_mul(q_neg(self@.0), sin@), q_mul(self@.2, cos@)),
            )),
            r.wf(),
    {
        Vector {
            x: self.x.mul(cos).add(self.z.mul(sin)),
            y: self.y,
            z: self.x.neg().mul(sin).add(self.z.mul(cos)),
        }
    }

    /// Rotation about the z axis, given the exact sine and cosine of the
    /// angle: `x' = x cos − y sin`, `y' = x sin + y cos`, `z` unchanged.
    /// Every output component is computed from the original components.
    pub fn rotate_z_with(&self, sin: Scalar, cos: Scalar) -> (r: Vector)
        requires
            self.wf(),
            sin.wf(),
            cos.wf(),
            mul_fits(self@.0, cos@),
            mul_fits(self@.1, sin@),
            sub_fits(q_mul(self@.0, cos@), q_mul(self@.1, sin@)),
            mul_fits(self@.0, sin@),
            mul_fits(self@.1, cos@),
            add_fits(q_mul(self@.0, sin@), q_mul(self@.1, cos@)),
        ensures
            r@ == ((
                q_sub(q_mul(self@.0, cos@), q_mul(self@.1, sin@)),
                q_add(q_mul(self@.0, sin@), q_mul(self@.1, cos@)),
                self@.2,
            )),
            r.wf(),
    {
        Vector {
            x: self.x.mul(cos).sub(self.y.mul(sin)),
            y: self.x.mul(sin).add(self.y.mul(cos)),
            z: self.z,
        }
    }

    /// The cosine ratio of the historical angle formula:
    /// `(self · rhs) / (self · self)`. The angle itself is the arccosine
    /// of this ratio, which is irrational and is not computed here; the
    /// ratio equals the cosine of the angle only when `self` and `rhs`
    /// have equal norm, since the denominator squares `self`'s norm.
    pub fn angle_cos_ratio(&self, rhs: &Vector) -> (r: Scalar)
        requires
            self.wf(),
            rhs.wf(),
            !v_is_zero(self@),
            v_dot_fits(self@, rhs@),
            v_dot_fits(self@, self@),
            div_fits(v_dot(self@, rhs@), v_dot(self@, self@)),
        ensures
            r@ == q_div(v_dot(self@, rhs@), v_dot(self@, self@)),
            r.wf(),
    {
        proof {
            crate::laws::lemma_dot_self_zero(*self);
        }
        self.dot_product(rhs).div(self.dot_product(self))
    }

    /// Projection of `rhs` onto `lhs` with the zero vector rejected
    /// explicitly: returns `None` exactly when `lhs` denotes the zero
    /// vector, for which the projection is undefined.
    pub fn checked_proj(lhs: &Vector, rhs: &Vector) -> (r: Option<Vector>)
        requires
            lhs.wf(),
            rhs.wf(),
            !v_is_zero(lhs@) ==> v_proj_fits(lhs@, rhs@),
        ensures
            r is None <==> v_is_zero(lhs@),
            r matches Some(p) ==> p@ == v_proj(lhs@, rhs@) && p.wf(),
    {
        if lhs.is_zero() {
            None
        } else {
            Some(Vector::proj(lhs, rhs))
        }
    }
}

impl PartialEq for Vector {
    fn eq(&self, other: &Vector) -> (r: bool) {
        self.x == other.x && self.y == other.y && self.z == other.z
    }
}

impl vstd::std_specs::cmp::PartialEqSpecImpl for Vector {
    open spec fn obeys_eq_spec() -> bool {
        true
    }

    open spec fn eq_spec(&self, other: &Vector) -> bool {
        v_eq(self@, other@)
    }
}

impl From<(Scalar, Scalar, Scalar)> for Vector {
    fn from(t: (Scalar, Scalar, Scalar)) -> (r: Vector) {
        Vector { x: t.0, y: t.1, z: t.2 }
    }
}

impl vstd::std_specs::convert::FromSpecImpl<(Scalar, Scalar, Scalar)> for Vector {
    open spec fn obeys_from_spec() -> bool {
        true
    }

    open spec fn from_spec(t: (Scalar, Scalar, Scalar)) -> Vector {
        Vector { x: t.0, y: t.1, z: t.2 }
    }
}

} // verus!
