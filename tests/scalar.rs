use skala_engine_numerics::SignedFractional;

fn bits(b: i64) -> SignedFractional {
    SignedFractional::from_bits(b)
}

#[test]
fn scalar_from_integer() {
    assert_eq!(SignedFractional::from(3).to_bits(), 3 << 32);
    assert_eq!(SignedFractional::from(-1).to_bits(), -(1i64 << 32));
    assert_eq!(SignedFractional::from(i32::MIN).to_bits(), i64::MIN);
    assert_eq!(SignedFractional::one(), SignedFractional::from(1));
    assert_eq!(SignedFractional::zero(), SignedFractional::from(0));
}

#[test]
fn scalar_add_sub_cancel() {
    let a = bits(123_456_789);
    let b = SignedFractional::from(-77);
    assert_eq!(a + b, bits(123_456_789 - (77i64 << 32)));
    assert_eq!(a + b - b, a);
}

#[test]
fn scalar_identities() {
    let a = bits(-987_654_321_012);
    assert_eq!(a * SignedFractional::one(), a);
    assert_eq!(a / SignedFractional::one(), a);
}

#[test]
fn scalar_negation() {
    assert_eq!(-SignedFractional::from(5), SignedFractional::from(-5));
    assert_eq!(-bits(i64::MAX), bits(-i64::MAX));
}

#[test]
fn scalar_multiplication_rounds_down() {
    let half = bits(1 << 31);
    assert_eq!(bits(1) * half, bits(0));
    assert_eq!(bits(-1) * half, bits(-1));
    assert_eq!(SignedFractional::from(6) * SignedFractional::from(7), SignedFractional::from(42));
}

#[test]
fn scalar_division_rounds_toward_zero() {
    let two = SignedFractional::from(2);
    assert_eq!(bits(1) / two, bits(0));
    assert_eq!(bits(-1) / two, bits(0));
    assert_eq!(bits(-3) / two, bits(-1));
    assert_eq!(SignedFractional::from(1) / SignedFractional::from(3), bits(1431655765));
    assert_eq!(SignedFractional::from(-1) / SignedFractional::from(3), bits(-1431655765));
}

#[test]
fn scalar_square_root() {
    assert_eq!(SignedFractional::from(25).sqrt(), SignedFractional::from(5));
    assert_eq!(SignedFractional::from(0).sqrt(), SignedFractional::from(0));
    assert_eq!(SignedFractional::from(2).sqrt(), bits(92681 << 16));
    assert_eq!(bits(1).sqrt(), bits(1 << 16));
}

#[test]
fn scalar_ordering_is_numeric() {
    assert!(SignedFractional::from(-1) < bits(0));
    assert!(bits(1) > SignedFractional::zero());
    assert!(SignedFractional::from(3) <= SignedFractional::from(3));
    let mut values = vec![SignedFractional::from(2), bits(-5), SignedFractional::zero()];
    values.sort();
    assert_eq!(values, vec![bits(-5), SignedFractional::zero(), SignedFractional::from(2)]);
}
