use svarog_curve25519::abstraction::TrCurve;
use svarog_curve25519::curve::Curve25519;

#[test]
fn generator_is_not_identity() {
    assert_ne!(Curve25519::generator(), Curve25519::identity());
}

#[test]
fn identity_plus_generator_is_generator() {
    let sum = Curve25519::identity().add(&Curve25519::generator());
    assert_eq!(sum, Curve25519::generator());
}

#[test]
fn identity_plus_identity_is_identity() {
    let sum = Curve25519::identity().add(&Curve25519::identity());
    assert_eq!(sum, Curve25519::identity());
}

#[test]
fn generator_plus_identity_is_generator() {
    let sum = Curve25519::generator().add(&Curve25519::identity());
    assert_eq!(sum, Curve25519::generator());
}

#[test]
fn doubling_the_generator_moves_it() {
    let doubled = Curve25519::generator().add(&Curve25519::generator());
    assert_ne!(doubled, Curve25519::generator());
    assert_ne!(doubled, Curve25519::identity());
}

#[test]
fn zero_plus_one_is_one() {
    let sum = Curve25519::zero().add(&Curve25519::one());
    assert_eq!(sum, Curve25519::one());
}

#[test]
fn one_times_one_is_one() {
    let prod = Curve25519::one().mul(&Curve25519::one());
    assert_eq!(prod, Curve25519::one());
}

#[test]
fn one_plus_zero_is_one() {
    let sum = Curve25519::one().add(&Curve25519::zero());
    assert_eq!(sum, Curve25519::one());
}

#[test]
fn one_plus_one_is_not_one() {
    let sum = Curve25519::one().add(&Curve25519::one());
    assert_ne!(sum, Curve25519::one());
    assert_ne!(sum, Curve25519::zero());
}

#[test]
fn elements_are_referentially_stable() {
    assert_eq!(Curve25519::generator(), Curve25519::generator());
    assert_eq!(Curve25519::identity(), Curve25519::identity());
    assert_eq!(Curve25519::zero(), Curve25519::zero());
    assert_eq!(Curve25519::one(), Curve25519::one());
}

#[test]
fn zero_is_not_one() {
    assert_ne!(Curve25519::zero(), Curve25519::one());
}

#[test]
fn generator_encodes_to_the_basepoint_constant() {
    let mut expected = vec![0x58u8];
    expected.extend(std::iter::repeat(0x66u8).take(31));
    assert_eq!(Curve25519::generator().encode(), expected);
}

#[test]
fn identity_encodes_to_one_then_zeros() {
    let mut expected = vec![0x01u8];
    expected.extend(std::iter::repeat(0x00u8).take(31));
    assert_eq!(Curve25519::identity().encode(), expected);
}

#[test]
fn zero_encodes_to_all_zero_bytes() {
    assert_eq!(Curve25519::zero().encode(), vec![0u8; 32]);
}

#[test]
fn one_encodes_to_one_then_zeros() {
    let mut expected = vec![0x01u8];
    expected.extend(std::iter::repeat(0x00u8).take(31));
    assert_eq!(Curve25519::one().encode(), expected);
}

#[test]
fn two_times_two_is_not_two() {
    let two = Curve25519::one().add(&Curve25519::one());
    let four = two.mul(&two);
    assert_ne!(four, two);
    assert_eq!(four.encode()[0], 4);
    assert_eq!(two.encode()[0], 2);
}
