use vector_lib::scalar::Scalar;
use vector_lib::vector::Vector;

#[test]
fn unit_cross_product() {
    let i_unit_vector: Vector = Vector::from_ints(1, 0, 0);
    let j_unit_vector: Vector = Vector::from_ints(0, 1, 0);
    let k_unit_vector: Vector = Vector::from_ints(0, 0, 1);

    assert_eq!(i_unit_vector.cross_product(&j_unit_vector), k_unit_vector);
    assert_eq!(j_unit_vector.cross_product(&k_unit_vector), i_unit_vector);
    assert_eq!(k_unit_vector.cross_product(&i_unit_vector), j_unit_vector);

    assert_eq!(
        j_unit_vector.cross_product(&j_unit_vector),
        j_unit_vector.cross_product(&j_unit_vector).negate()
    );
}

#[test]
fn basis_magnitude_squared_is_one() {
    let i_unit_vector: Vector = Vector::from_ints(1, 0, 0);
    let j_unit_vector: Vector = Vector::from_ints(0, 1, 0);
    let k_unit_vector: Vector = Vector::from_ints(0, 0, 1);
    let one: Scalar = Scalar::from_int(1);

    assert_eq!(i_unit_vector.magnitude_squared(), one);
    assert_eq!(j_unit_vector.magnitude_squared(), one);
    assert_eq!(k_unit_vector.magnitude_squared(), one);
}

#[test]
fn zero_vector_magnitude_squared_is_zero() {
    let zero: Vector = Vector::from_ints(0, 0, 0);

    assert_eq!(zero.magnitude_squared(), Scalar::from_int(0));
    assert!(zero.is_zero());
}

#[test]
fn cross_product_self_is_zero() {
    let v: Vector = Vector::new(Scalar::new(3, 2), Scalar::new(-7, 5), Scalar::from_int(4));
    let c: Vector = v.cross_product(&v);

    assert_eq!(c, Vector::from_ints(0, 0, 0));
    assert_eq!(c, c.negate());
}

#[test]
fn cross_product_anticommutes() {
    let u: Vector = Vector::from_ints(1, 2, 3);
    let v: Vector = Vector::from_ints(-4, 5, -6);

    assert_eq!(u.cross_product(&v), v.cross_product(&u).negate());
}

#[test]
fn dot_product_commutes() {
    let a: Vector = Vector::new(Scalar::new(1, 2), Scalar::new(-3, 4), Scalar::from_int(7));
    let b: Vector = Vector::new(Scalar::new(5, 3), Scalar::from_int(-2), Scalar::new(1, 7));

    assert_eq!(a.dot_product(&b), b.dot_product(&a));

    // (1/2)(5/3) + (-3/4)(-2) + 7(1/7) = 5/6 + 3/2 + 1 = 10/3
    assert_eq!(a.dot_product(&b), Scalar::new(10, 3));
}

#[test]
fn end_to_end_scenario() {
    let u: Vector = Vector::from_ints(-8, -2, 20);
    let v: Vector = Vector::from_ints(-6, -12, 36);

    // u · v = 48 + 24 + 720 = 792
    assert_eq!(u.dot_product(&v), Scalar::from_int(792));

    // u × v = (-2*36 - 20*(-12), 20*(-6) - (-8)*36, (-8)*(-12) - (-2)*(-6))
    assert_eq!(u.cross_product(&v), Vector::from_ints(168, 168, 84));

    assert_eq!(u.scale(Scalar::from_int(2)), Vector::from_ints(-16, -4, 40));
}

#[test]
fn proj_onto_self_returns_vector() {
    let v: Vector = Vector::new(Scalar::from_int(3), Scalar::new(-2, 5), Scalar::from_int(5));

    assert_eq!(v.proj_onto(&v), v);
}

#[test]
fn proj_exact_value() {
    // Projecting (1, 1, 0) onto (2, 0, 0) keeps only the x component: (1, 0, 0).
    let axis: Vector = Vector::from_ints(2, 0, 0);
    let v: Vector = Vector::from_ints(1, 1, 0);

    assert_eq!(Vector::proj(&axis, &v), Vector::from_ints(1, 0, 0));
    assert_eq!(v.proj_onto(&axis), Vector::from_ints(1, 0, 0));

    // u projected onto v, from the end-to-end vectors: v scaled by 792/1476.
    let u: Vector = Vector::from_ints(-8, -2, 20);
    let w: Vector = Vector::from_ints(-6, -12, 36);
    let expected: Vector = Vector::new(
        Scalar::new(-4752, 1476),
        Scalar::new(-9504, 1476),
        Scalar::new(28512, 1476),
    );

    assert_eq!(u.proj_onto(&w), expected);
}

#[test]
fn checked_proj_rejects_zero_vector() {
    let zero: Vector = Vector::from_ints(0, 0, 0);
    let v: Vector = Vector::from_ints(1, 2, 3);

    assert!(Vector::checked_proj(&zero, &v).is_none());

    let p: Option<Vector> = Vector::checked_proj(&v, &zero);
    assert_eq!(p.unwrap(), Vector::from_ints(0, 0, 0));
}

#[test]
fn scalar_equality_ignores_representation() {
    assert_eq!(Scalar::new(2, 4), Scalar::new(1, 2));
    assert_eq!(Scalar::new(1, -2), Scalar::new(-1, 2));
    assert_ne!(Scalar::new(1, 2), Scalar::new(1, 3));
    assert_eq!(Scalar::from_int(0), Scalar::new(0, -7));

    // Cross-multiplication is compared in 128 bits, so the extremes of the
    // 64-bit range compare exactly.
    assert_eq!(Scalar::new(i64::MAX, i64::MAX), Scalar::from_int(1));
    assert_eq!(Scalar::new(i64::MIN, i64::MIN), Scalar::from_int(1));
    assert_ne!(Scalar::new(i64::MAX, i64::MAX - 1), Scalar::from_int(1));
}

#[test]
fn scalar_arithmetic_exact_values() {
    let half: Scalar = Scalar::new(1, 2);
    let third: Scalar = Scalar::new(1, 3);

    assert_eq!(half.add(third), Scalar::new(5, 6));
    assert_eq!(half.sub(third), Scalar::new(1, 6));
    assert_eq!(half.mul(third), Scalar::new(1, 6));
    assert_eq!(half.div(third), Scalar::new(3, 2));
    assert_eq!(half.neg(), Scalar::new(-1, 2));
    assert!(Scalar::new(0, 5).is_zero());
    assert!(!half.is_zero());
}

#[test]
fn vector_add_negate_from_tuple() {
    let u: Vector = Vector::from_ints(1, -2, 3);
    let v: Vector = Vector::new(Scalar::new(1, 2), Scalar::new(3, 2), Scalar::from_int(-3));

    assert_eq!(u.add(&v), Vector::new(Scalar::new(3, 2), Scalar::new(-1, 2), Scalar::from_int(0)));
    assert_eq!(u.negate(), Vector::from_ints(-1, 2, -3));

    let t: Vector = Vector::from((Scalar::from_int(1), Scalar::from_int(-2), Scalar::from_int(3)));
    assert_eq!(t, u);
}

#[test]
fn scale_magnitude_squared() {
    // |v s|^2 == s^2 |v|^2, exactly: scaling cannot change the direction,
    // only the length. (1,0,0) scaled by 2 has squared norm 4 = 2^2 * 1.
    let i: Vector = Vector::from_ints(1, 0, 0);
    assert_eq!(i.scale(Scalar::from_int(2)).magnitude_squared(), Scalar::from_int(4));

    let v: Vector = Vector::new(Scalar::new(1, 2), Scalar::from_int(-3), Scalar::new(5, 4));
    let s: Scalar = Scalar::new(7, 3);
    assert_eq!(
        v.scale(s).magnitude_squared(),
        s.mul(s).mul(v.magnitude_squared())
    );
}

#[test]
fn cross_product_is_orthogonal() {
    let u: Vector = Vector::new(Scalar::new(1, 2), Scalar::from_int(2), Scalar::new(-3, 4));
    let v: Vector = Vector::from_ints(-4, 5, -6);
    let c: Vector = u.cross_product(&v);

    assert_eq!(c.dot_product(&u), Scalar::from_int(0));
    assert_eq!(c.dot_product(&v), Scalar::from_int(0));
}

#[test]
fn proj_keeps_dot_with_axis() {
    // The residual r - proj is orthogonal to the axis: projecting keeps
    // the dot product with the axis exactly. dot(r,l) = 5 + 0 + 2 = 7.
    let l: Vector = Vector::from_ints(1, 2, 2);
    let r: Vector = Vector::from_ints(5, 0, 1);
    let p: Vector = Vector::proj(&l, &r);

    assert_eq!(p.dot_product(&l), r.dot_product(&l));
    assert_eq!(p.dot_product(&l), Scalar::from_int(7));
}

#[test]
fn rotation_quarter_turn() {
    // A quarter turn has sine 1 and cosine 0, exactly. Rotating (1,0,0)
    // about the z axis by it gives (0,1,0); the other axes cycle likewise.
    let sin: Scalar = Scalar::from_int(1);
    let cos: Scalar = Scalar::from_int(0);

    let i: Vector = Vector::from_ints(1, 0, 0);
    let j: Vector = Vector::from_ints(0, 1, 0);
    let k: Vector = Vector::from_ints(0, 0, 1);

    assert_eq!(i.rotate_z_with(sin, cos), j);
    assert_eq!(j.rotate_x_with(sin, cos), k);
    assert_eq!(k.rotate_y_with(sin, cos), i);
}

#[test]
fn rotation_three_four_five() {
    // sin = 3/5, cos = 4/5 lie on the unit circle exactly; rotating
    // (5, 0, 0) about the z axis by that angle gives (4, 3, 0).
    let sin: Scalar = Scalar::new(3, 5);
    let cos: Scalar = Scalar::new(4, 5);
    let v: Vector = Vector::from_ints(5, 0, 0);

    assert_eq!(v.rotate_z_with(sin, cos), Vector::from_ints(4, 3, 0));
}

#[test]
fn rotation_reads_original_components() {
    // Each output component comes from the vector before the rotation:
    // about the x axis, (0, 1, 1) with sine 1 and cosine 0 maps to
    // (0, -1, 1), not to a value computed from a half-written result.
    let sin: Scalar = Scalar::from_int(1);
    let cos: Scalar = Scalar::from_int(0);
    let v: Vector = Vector::from_ints(0, 1, 1);

    assert_eq!(v.rotate_x_with(sin, cos), Vector::from_ints(0, -1, 1));
}

#[test]
fn angle_cos_ratio_values() {
    // (2,0,0) against (1,1,0): dot = 2, self-dot = 4, ratio 1/2.
    let u: Vector = Vector::from_ints(2, 0, 0);
    let v: Vector = Vector::from_ints(1, 1, 0);
    assert_eq!(u.angle_cos_ratio(&v), Scalar::new(1, 2));

    // Against itself the ratio is exactly 1: the angle is zero.
    assert_eq!(u.angle_cos_ratio(&u), Scalar::from_int(1));

    // The historical denominator squares the left norm, so the ratio is
    // not symmetric when the norms differ.
    assert_eq!(v.angle_cos_ratio(&u), Scalar::from_int(1));
}

#[test]
fn scale_by_rational_scalar() {
    let u: Vector = Vector::from_ints(-8, -2, 20);

    // u scaled by one half, as the demonstration program prints it.
    assert_eq!(
        u.scale(Scalar::new(1, 2)),
        Vector::new(Scalar::from_int(-4), Scalar::from_int(-1), Scalar::from_int(10))
    );
}
