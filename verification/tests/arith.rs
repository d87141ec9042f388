use rbig::nonzero_ubig::NonZeroUBig;
use rbig::reexport::ibig::UBig;
use rbig::{RBig, Sign};

fn frac(sign: Sign, numer: u64, denom: u64) -> RBig {
    RBig::new(sign, UBig::from(numer), NonZeroUBig::new(UBig::from(denom)).unwrap())
}

fn pos(numer: u64, denom: u64) -> RBig {
    frac(Sign::Positive, numer, denom)
}

fn neg(numer: u64, denom: u64) -> RBig {
    frac(Sign::Negative, numer, denom)
}

fn parts(r: &RBig) -> (Sign, UBig, UBig) {
    (r.sign, r.numer.clone(), r.denom.clone().get())
}

#[test]
fn in_place_add_keeps_sign_when_own_magnitude_is_larger() {
    let mut a = pos(3, 4);
    a += neg(1, 4);
    assert_eq!(a, pos(1, 2));
    assert_eq!(parts(&a), (Sign::Positive, UBig::from(8u8), UBig::from(16u8)));
}

#[test]
fn in_place_add_flips_sign_when_other_magnitude_is_larger() {
    let mut a = pos(1, 4);
    a += neg(3, 4);
    assert_eq!(a, neg(1, 2));
    assert_eq!(parts(&a), (Sign::Negative, UBig::from(8u8), UBig::from(16u8)));
}

#[test]
fn in_place_add_of_equal_signs_adds_magnitudes() {
    let mut a = neg(1, 2);
    a += neg(1, 3);
    assert_eq!(parts(&a), (Sign::Negative, UBig::from(5u8), UBig::from(6u8)));
}

#[test]
fn in_place_add_to_zero_keeps_stored_sign() {
    let mut a = neg(1, 2);
    a += pos(1, 2);
    assert_eq!(parts(&a), (Sign::Negative, UBig::from(0u8), UBig::from(4u8)));
    assert_eq!(a, pos(0, 1));
}

#[test]
fn in_place_sub_adds_the_negation() {
    let mut a = pos(1, 4);
    a -= pos(3, 4);
    assert_eq!(a, neg(1, 2));
    assert_eq!(parts(&a), (Sign::Negative, UBig::from(8u8), UBig::from(16u8)));
}

#[test]
fn add_uses_product_of_denominators() {
    let r = pos(1, 2) + pos(1, 6);
    assert_eq!(parts(&r), (Sign::Positive, UBig::from(8u8), UBig::from(12u8)));
    assert_eq!(r, pos(2, 3));
}

#[test]
fn add_of_opposite_values_is_positive_zero() {
    let r = neg(1, 2) + pos(1, 2);
    assert_eq!(parts(&r), (Sign::Positive, UBig::from(0u8), UBig::from(4u8)));
}

#[test]
fn sub_crosses_zero() {
    let r = pos(1, 3) - pos(1, 2);
    assert_eq!(parts(&r), (Sign::Negative, UBig::from(1u8), UBig::from(6u8)));
}

#[test]
fn add_then_sub_is_exact() {
    let a = neg(22, 7);
    let b = pos(355, 113);
    assert_eq!(a.clone() + b.clone() - b, a);
}

#[test]
fn mul_multiplies_parts() {
    let r = neg(2, 3) * pos(9, 4);
    assert_eq!(parts(&r), (Sign::Negative, UBig::from(18u8), UBig::from(12u8)));
    let r = neg(2, 3) * neg(1, 5);
    assert_eq!(parts(&r), (Sign::Positive, UBig::from(2u8), UBig::from(15u8)));
}

#[test]
fn div_multiplies_by_reciprocal() {
    let r = pos(2, 3) / neg(5, 7);
    assert_eq!(parts(&r), (Sign::Negative, UBig::from(14u8), UBig::from(15u8)));
}

#[test]
fn mul_then_div_is_exact() {
    let a = neg(22, 7);
    let b = neg(113, 355);
    assert_eq!(a.clone() * b.clone() / b, a);
}

#[test]
fn in_place_mul_and_div() {
    let mut a = pos(2, 3);
    a *= neg(3, 5);
    assert_eq!(parts(&a), (Sign::Negative, UBig::from(6u8), UBig::from(15u8)));
    a /= neg(2, 1);
    assert_eq!(parts(&a), (Sign::Positive, UBig::from(6u8), UBig::from(30u8)));
    assert_eq!(a, pos(1, 5));
}

#[test]
fn negation_flips_only_the_sign() {
    let r = -pos(3, 6);
    assert_eq!(parts(&r), (Sign::Negative, UBig::from(3u8), UBig::from(6u8)));
    let z = -pos(0, 6);
    assert_eq!(parts(&z), (Sign::Negative, UBig::from(0u8), UBig::from(6u8)));
}

#[test]
fn arithmetic_beyond_machine_words() {
    let big = UBig::from(u64::MAX) * UBig::from(u64::MAX);
    let a = RBig::new(Sign::Positive, big.clone(), NonZeroUBig::one());
    let b = RBig::new(Sign::Positive, UBig::from(1u8), NonZeroUBig::new(big.clone()).unwrap());
    assert_eq!(a.clone() * b.clone(), pos(1, 1));
    let sum = a + b;
    assert_eq!(sum.numer, big.clone() * big.clone() + UBig::from(1u8));
    assert_eq!(sum.denom.get(), big);
}
