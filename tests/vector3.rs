use skala_engine_numerics::{SignedFractional, Vec3};

#[test]
fn vector3_sanity_check() {
    let x = Vec3::new(2.into(), 3.into(), 6.into());
    let y = Vec3::new(5.into(), 7.into(), 9.into());

    assert_eq!(x, x);
    assert_ne!(x, y);
}

#[test]
fn vector3_from_tuple() {
    let x: Vec3 = (5.into(), 7.into(), 9.into()).into();
    let y = Vec3::new(5.into(), 7.into(), 9.into());

    assert_eq!(x, y);
}

#[test]
fn vector3_into_tuple() {
    let x: (SignedFractional, SignedFractional, SignedFractional) =
        Vec3::new(5.into(), 7.into(), 9.into()).into();
    let y: (SignedFractional, SignedFractional, SignedFractional) =
        (5.into(), 7.into(), 9.into());

    assert_eq!(x, y);
}

#[test]
fn vector3_addition() {
    let x = Vec3::new(2.into(), 3.into(), 9.into());
    let y = Vec3::new(5.into(), 7.into(), 9.into());

    assert_eq!(x + y, Vec3::new(7.into(), 10.into(), 18.into()));
}

#[test]
fn magnitude() {
    let x = Vec3::new(3.into(), 4.into(), 12.into());
    let y = Vec3::new(2.into(), 4.into(), 4.into());

    assert_eq!(x.magintude_pow2(), SignedFractional::from(169));
    assert_eq!(x.magnitude(), SignedFractional::from(13));
    assert_eq!(y.magnitude(), SignedFractional::from(6));
}

#[test]
fn vector3_length() {
    let x = Vec3::new(3.into(), 4.into(), 12.into());

    assert_eq!(x.len_pow2(), SignedFractional::from(169));
    assert_eq!(x.len(), SignedFractional::from(13));
}

#[test]
fn vector3_scalar_multiplication() {
    let x = Vec3::new(3.into(), 4.into(), 5.into());
    let y = Vec3::new(6.into(), 8.into(), 10.into());

    assert_eq!(x * 2.into(), y);
}

#[test]
fn vector3_scalar_division() {
    let x = Vec3::new(6.into(), 8.into(), 10.into());
    let y = Vec3::new(3.into(), 4.into(), 5.into());

    assert_eq!(x / 2.into(), y);
}

#[test]
fn vector3_vector_normalization() {
    let x = Vec3::new(6.into(), 0.into(), 0.into());
    let y = Vec3::new(1.into(), 0.into(), 0.into());
    let diagonal = Vec3::new(4.into(), 4.into(), 4.into());
    let wrong = Vec3::zero();

    assert_eq!(x.get_normalized(), y);
    assert_eq!(diagonal.get_normalized().magnitude(), SignedFractional::from(1));
    assert_eq!(wrong.try_get_normalized(), None)
}

#[test]
fn vector3_normalize_in_place() {
    let mut x = Vec3::new(0.into(), (-20).into(), 0.into());
    assert_eq!(x.magnitude(), SignedFractional::from(20));
    x.normalize();
    assert_eq!(x, Vec3::new(0.into(), (-1).into(), 0.into()));
    assert_eq!(x.magnitude(), SignedFractional::from(1));
}

#[test]
fn vector3_try_normalized_some() {
    let x = Vec3::new(0.into(), 0.into(), 10.into());
    assert_eq!(x.try_get_normalized(), Some(Vec3::new(0.into(), 0.into(), 1.into())));
}

#[test]
fn vector3_negation_and_cancellation() {
    let v = Vec3::new(1.into(), SignedFractional::from_bits(-3), 7.into());
    assert_eq!(-v, Vec3::new((-1).into(), SignedFractional::from_bits(3), (-7).into()));
    assert_eq!(v + (-v), Vec3::zero());
    assert_eq!(v - v, Vec3::zero());
}

#[test]
fn vector3_tuple_operands_and_assignment() {
    let t = (SignedFractional::from(1), SignedFractional::from(2), SignedFractional::from(3));
    let v = Vec3::new(1.into(), 1.into(), 1.into());
    assert_eq!(v + t, Vec3::new(2.into(), 3.into(), 4.into()));
    assert_eq!(v - t, Vec3::new(0.into(), (-1).into(), (-2).into()));
    let mut w = v;
    w.add_assign_tuple(t);
    w.add_assign(v);
    assert_eq!(w, Vec3::new(3.into(), 4.into(), 5.into()));
    w.sub_assign(v);
    w.sub_assign_tuple(t);
    assert_eq!(w, v);
    w.mul_assign(5.into());
    w.div_assign(2.into());
    assert_eq!(w, Vec3::new(SignedFractional::from_bits(10737418240), SignedFractional::from_bits(10737418240), SignedFractional::from_bits(10737418240)));
}

#[test]
fn vector3_tuple_round_trip() {
    let v = Vec3::new(SignedFractional::from_bits(i64::MIN), 0.into(), SignedFractional::from_bits(99));
    let t: (SignedFractional, SignedFractional, SignedFractional) = v.into();
    let back: Vec3 = t.into();
    assert_eq!(back, v);
}

#[test]
fn vector3_double_then_halve() {
    let v = Vec3::new(SignedFractional::from_bits(7), (-3).into(), 0.into());
    assert_eq!((v * 2.into()) / 2.into(), v);
    let even = Vec3::new(2.into(), (-4).into(), 6.into());
    assert_eq!((even / 2.into()) * 2.into(), even);
}
