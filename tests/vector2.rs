use skala_engine_numerics::{SignedFractional, Vec2};

#[test]
fn it_works() {
    let result = 2 + 2;
    assert_eq!(result, 4);
}

#[test]
fn vector2_sanity_check() {
    let x = Vec2::new(2.into(), 3.into());
    let y = Vec2::new(5.into(), 7.into());

    assert_eq!(x, x);
    assert_ne!(x, y);
}

#[test]
fn vector2_from_tuple() {
    let x: Vec2 = (5.into(), 7.into()).into();
    let y = Vec2::new(5.into(), 7.into());

    assert_eq!(x, y);
}

#[test]
fn vector2_into_tuple() {
    let x: (SignedFractional, SignedFractional) = Vec2::new(5.into(), 7.into()).into();
    let y: (SignedFractional, SignedFractional) = (5.into(), 7.into());

    assert_eq!(x, y);
}

#[test]
fn vector2_addition() {
    let x = Vec2::new(2.into(), 3.into());
    let y = Vec2::new(5.into(), 7.into());

    assert_eq!(x + y, Vec2::new(7.into(), 10.into()));
}

#[test]
fn vector2_length() {
    let x = Vec2::new(3.into(), 4.into());

    assert_eq!(x.len_pow2(), SignedFractional::from(25));
    assert_eq!(x.len(), SignedFractional::from(5));
}

#[test]
fn vector2_scalar_multiplication() {
    let x = Vec2::new(3.into(), 4.into());
    let y = Vec2::new(6.into(), 8.into());

    assert_eq!(x * 2.into(), y);
}

#[test]
fn vector2_scalar_division() {
    let x = Vec2::new(6.into(), 8.into());
    let y = Vec2::new(3.into(), 4.into());

    assert_eq!(x / 2.into(), y);
}

#[test]
fn vector2_vector_normalization() {
    let x = Vec2::new(6.into(), 0.into());
    let y = Vec2::new(1.into(), 0.into());
    let wrong = Vec2::zero();

    assert_eq!(x.get_normalized(), y);
    assert_eq!(wrong.try_get_normalized(), None)
}

#[test]
fn vector2_try_normalized_some() {
    let x = Vec2::new(0.into(), (-4).into());
    assert_eq!(x.try_get_normalized(), Some(Vec2::new(0.into(), (-1).into())));
}

#[test]
fn vector2_normalize_in_place() {
    let mut x = Vec2::new(3.into(), 4.into());
    x.normalize();
    // 3/5 and 4/5, each rounded toward zero to 32 fractional bits.
    assert_eq!(x, Vec2::new(SignedFractional::from_bits(2576980377), SignedFractional::from_bits(3435973836)));
}

#[test]
fn vector2_tiny_vector_has_zero_length() {
    let x = Vec2::new(SignedFractional::from_bits(1), SignedFractional::from_bits(-1));
    assert_eq!(x.len_pow2(), SignedFractional::zero());
    assert_eq!(x.try_get_normalized(), None);
}

#[test]
fn vector2_negation_and_cancellation() {
    let v = Vec2::new(SignedFractional::from_bits(-12345), 9.into());
    assert_eq!(-v, Vec2::new(SignedFractional::from_bits(12345), (-9).into()));
    assert_eq!(v + (-v), Vec2::zero());
    assert_eq!(v - v, Vec2::zero());
}

#[test]
fn vector2_tuple_operands() {
    let v = Vec2::new(1.into(), 2.into());
    assert_eq!(v + (SignedFractional::from(3), SignedFractional::from(4)), Vec2::new(4.into(), 6.into()));
    assert_eq!(v - (SignedFractional::from(3), SignedFractional::from(4)), Vec2::new((-2).into(), (-2).into()));
}

#[test]
fn vector2_compound_assignment() {
    let mut v = Vec2::new(1.into(), 2.into());
    v.add_assign(Vec2::new(1.into(), 1.into()));
    assert_eq!(v, Vec2::new(2.into(), 3.into()));
    v.add_assign_tuple((SignedFractional::from(2), SignedFractional::from(2)));
    assert_eq!(v, Vec2::new(4.into(), 5.into()));
    v.sub_assign(Vec2::new(1.into(), 1.into()));
    assert_eq!(v, Vec2::new(3.into(), 4.into()));
    v.sub_assign_tuple((SignedFractional::from(1), SignedFractional::from(2)));
    assert_eq!(v, Vec2::new(2.into(), 2.into()));
    v.mul_assign(3.into());
    assert_eq!(v, Vec2::new(6.into(), 6.into()));
    v.div_assign(4.into());
    assert_eq!(v, Vec2::new(SignedFractional::from_bits(6442450944), SignedFractional::from_bits(6442450944)));
}

#[test]
fn vector2_tuple_round_trip() {
    let v = Vec2::new(SignedFractional::from_bits(-7), SignedFractional::from_bits(i64::MAX));
    let t: (SignedFractional, SignedFractional) = v.into();
    let back: Vec2 = t.into();
    assert_eq!(back, v);
}

#[test]
fn vector2_double_then_halve() {
    let v = Vec2::new(SignedFractional::from_bits(-5), 1000.into());
    assert_eq!((v * 2.into()) / 2.into(), v);
    let even = Vec2::new((-8).into(), 14.into());
    assert_eq!((even / 2.into()) * 2.into(), even);
}
