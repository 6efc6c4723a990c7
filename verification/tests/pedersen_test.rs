use blstrs::{G1Projective, Scalar};
use ff::Field;
use group::Group;
use zk_interval::constants::{g, h};
use zk_interval::pedersen::commitment;

#[test]
fn commit_to_zero() {
    let c: G1Projective = commitment(Scalar::from(0), Scalar::from(0));
    assert_eq!(c, G1Projective::identity());
}

#[test]
fn commit_to_generator() {
    let c: G1Projective = commitment(Scalar::from(0), Scalar::from(1));
    assert_eq!(c, g());
}

#[test]
fn commit_to_square() {
    let c: G1Projective = commitment(Scalar::from(0), Scalar::from(2));
    assert_eq!(c, h());
}

#[test]
fn simple_addition() {
    let a: G1Projective = commitment(Scalar::from(1), Scalar::from(2));
    let b: G1Projective = commitment(Scalar::from(2), Scalar::from(1));
    let expected: G1Projective = commitment(Scalar::from(3), Scalar::from(3));

    assert_eq!(a + b, expected);
}

#[test]
fn commit_is_value_times_h_plus_blinding_times_g() {
    let v = Scalar::from(3u64);
    let r = Scalar::from(5u64);
    assert_eq!(commitment(v, r), h() * v + g() * r);
    // h = 2g, so the commitment is (2 * 3 + 5) g.
    assert_eq!(commitment(v, r), g() * Scalar::from(11u64));
}

#[test]
fn commit_to_one_is_h() {
    assert_eq!(commitment(Scalar::from(1u64), Scalar::from(0u64)), h());
}

#[test]
fn commit_is_not_the_identity_for_small_values() {
    assert_ne!(commitment(Scalar::from(1u64), Scalar::from(0u64)), G1Projective::identity());
    assert_ne!(commitment(Scalar::from(0u64), Scalar::from(1u64)), G1Projective::identity());
    assert_ne!(commitment(Scalar::from(7u64), Scalar::from(9u64)), G1Projective::identity());
}

#[test]
fn blinding_of_minus_twice_the_value_gives_the_identity() {
    // h = 2g, so v * h + (-2v) * g is the identity though v is not zero.
    let v = Scalar::from(1u64);
    let r = -Scalar::from(2u64);
    assert_eq!(commitment(v, r), G1Projective::identity());
    let v = Scalar::from(41u64);
    let r = -Scalar::from(82u64);
    assert_eq!(commitment(v, r), G1Projective::identity());
}

#[test]
fn addition_wraps_around_the_group_order() {
    let minus_one = -Scalar::ONE;
    let a = commitment(minus_one, minus_one);
    let b = commitment(Scalar::from(2u64), Scalar::from(3u64));
    let expected = commitment(Scalar::from(1u64), Scalar::from(2u64));
    assert_eq!(a + b, expected);
    assert_eq!(a + b, commitment(minus_one + Scalar::from(2u64), minus_one + Scalar::from(3u64)));
}
