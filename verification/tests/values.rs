use rbig::nonzero_ubig::NonZeroUBig;
use rbig::reexport::ibig::{IBig, UBig};
use rbig::{RBig, RoundingDirection, Sign};

fn frac(sign: Sign, numer: u64, denom: u64) -> RBig {
    RBig::new(sign, UBig::from(numer), NonZeroUBig::new(UBig::from(denom)).unwrap())
}

fn pos(numer: u64, denom: u64) -> RBig {
    frac(Sign::Positive, numer, denom)
}

fn neg(numer: u64, denom: u64) -> RBig {
    frac(Sign::Negative, numer, denom)
}

fn parts(r: &RBig) -> (Sign, UBig, UBig) {
    (r.sign, r.numer.clone(), r.denom.clone().get())
}

fn triple(sign: Sign, numer: u64, denom: u64) -> (Sign, UBig, UBig) {
    (sign, UBig::from(numer), UBig::from(denom))
}

#[test]
fn from_numer_denom_rejects_zero_denominator() {
    assert!(RBig::from_numer_denom(IBig::from(1), IBig::from(0)).is_none());
    assert!(RBig::from_numer_denom(IBig::from(0), IBig::from(0)).is_none());
}

#[test]
fn from_numer_denom_sign_is_positive_where_signs_agree() {
    let make =
        |n: i64, d: i64| parts(&RBig::from_numer_denom(IBig::from(n), IBig::from(d)).unwrap());
    assert_eq!(make(3, 4), triple(Sign::Positive, 3, 4));
    assert_eq!(make(-3, -4), triple(Sign::Positive, 3, 4));
    assert_eq!(make(-3, 4), triple(Sign::Negative, 3, 4));
    assert_eq!(make(3, -4), triple(Sign::Negative, 3, 4));
    assert_eq!(make(0, 4), triple(Sign::Positive, 0, 4));
    assert_eq!(make(0, -4), triple(Sign::Negative, 0, 4));
}

#[test]
fn from_numer_unsigned_denom_takes_sign_of_numerator() {
    let d = || NonZeroUBig::new(UBig::from(7u8)).unwrap();
    let make = |n: i64| parts(&RBig::from_numer_unsigned_denom(IBig::from(n), d()));
    assert_eq!(make(-3), triple(Sign::Negative, 3, 7));
    assert_eq!(make(3), triple(Sign::Positive, 3, 7));
    assert_eq!(make(0), triple(Sign::Positive, 0, 7));
}

#[test]
fn from_integers() {
    assert_eq!(parts(&RBig::from(UBig::from(5u8))), triple(Sign::Positive, 5, 1));
    assert_eq!(parts(&RBig::from(IBig::from(-5))), triple(Sign::Negative, 5, 1));
    assert_eq!(parts(&RBig::from(IBig::from(5))), triple(Sign::Positive, 5, 1));
}

#[test]
fn clone_keeps_the_representation() {
    assert_eq!(parts(&neg(4, 6).clone()), triple(Sign::Negative, 4, 6));
}

#[test]
fn reciprocal_swaps_numerator_and_denominator() {
    assert_eq!(parts(&neg(2, 3).recip()), triple(Sign::Negative, 3, 2));
    assert_eq!(parts(&pos(2, 3).checked_recip().unwrap()), triple(Sign::Positive, 3, 2));
    assert_eq!(parts(&pos(2, 3).unchecked_recip()), triple(Sign::Positive, 3, 2));
}

#[test]
fn checked_reciprocal_of_zero_is_none() {
    assert!(pos(0, 3).checked_recip().is_none());
    assert!(neg(0, 1).checked_recip().is_none());
}

#[test]
fn reciprocal_is_an_involution() {
    for a in [pos(2, 3), neg(7, 1), pos(4, 6)] {
        assert_eq!(parts(&a.clone().recip().recip()), parts(&a));
    }
}

#[test]
fn reduce_divides_by_the_gcd() {
    let mut a = neg(12, 18);
    a.reduce();
    assert_eq!(parts(&a), triple(Sign::Negative, 2, 3));
    assert_eq!(parts(&pos(0, 5).reduced()), triple(Sign::Positive, 0, 1));
    assert_eq!(parts(&neg(0, 5).reduced()), triple(Sign::Negative, 0, 1));
    assert_eq!(parts(&pos(7, 5).reduced()), triple(Sign::Positive, 7, 5));
    assert_eq!(parts(&pos(8, 4).reduced()), triple(Sign::Positive, 2, 1));
}

#[test]
fn integer_predicates() {
    assert!(pos(6, 3).is_int());
    assert!(neg(6, 3).is_int());
    assert!(pos(0, 3).is_int());
    assert!(!pos(7, 3).is_int());
    assert!(pos(6, 3).is_uint());
    assert!(!neg(6, 3).is_uint());
    assert!(neg(0, 3).is_uint());
    assert!(!pos(7, 3).is_uint());
}

#[test]
fn integer_extraction_succeeds_on_integers() {
    assert_eq!(pos(6, 3).try_into_int().unwrap(), IBig::from(2));
    assert_eq!(neg(6, 3).try_into_int().unwrap(), IBig::from(-2));
    assert_eq!(neg(0, 3).try_into_int().unwrap(), IBig::from(0));
    assert_eq!(neg(6, 3).try_to_int(), Some(IBig::from(-2)));
    assert_eq!(pos(6, 3).try_into_uint().unwrap(), UBig::from(2u8));
    assert_eq!(pos(6, 3).try_to_uint(), Some(UBig::from(2u8)));
    assert_eq!(neg(0, 3).try_to_uint(), Some(UBig::from(0u8)));
}

#[test]
fn integer_extraction_hands_back_the_value_otherwise() {
    assert_eq!(parts(&neg(14, 4).try_into_int().unwrap_err()), triple(Sign::Negative, 14, 4));
    assert_eq!(parts(&pos(14, 4).try_into_uint().unwrap_err()), triple(Sign::Positive, 14, 4));
    assert_eq!(parts(&neg(4, 2).try_into_uint().unwrap_err()), triple(Sign::Negative, 4, 2));
    assert_eq!(pos(7, 3).try_to_int(), None);
    assert_eq!(pos(7, 3).try_to_uint(), None);
    assert_eq!(neg(6, 3).try_to_uint(), None);
}

#[test]
fn sign_predicates() {
    assert!(pos(1, 2).is_positive() && !pos(1, 2).is_negative() && !pos(1, 2).is_zero());
    assert!(neg(1, 2).is_negative() && !neg(1, 2).is_positive() && !neg(1, 2).is_zero());
    assert!(neg(0, 2).is_zero() && !neg(0, 2).is_negative() && !neg(0, 2).is_positive());
    assert!(pos(0, 2).is_zero() && !pos(0, 2).is_positive());
}

#[test]
fn signum_is_zero_or_a_unit() {
    assert_eq!(parts(&pos(5, 3).signum()), triple(Sign::Positive, 1, 1));
    assert_eq!(parts(&neg(5, 3).signum()), triple(Sign::Negative, 1, 1));
    assert_eq!(parts(&neg(0, 3).signum()), triple(Sign::Positive, 0, 1));
}

#[test]
fn abs_makes_the_sign_positive() {
    assert_eq!(parts(&neg(5, 3).abs()), triple(Sign::Positive, 5, 3));
    assert_eq!(parts(&pos(5, 3).abs()), triple(Sign::Positive, 5, 3));
}

#[test]
fn unsigned_pow_raises_each_part() {
    assert_eq!(parts(&pos(2, 3).unsigned_pow(3)), triple(Sign::Positive, 8, 27));
    assert_eq!(parts(&neg(1, 2).unsigned_pow(3)), triple(Sign::Negative, 1, 8));
    assert_eq!(parts(&neg(1, 2).unsigned_pow(2)), triple(Sign::Positive, 1, 4));
    assert_eq!(parts(&neg(5, 7).unsigned_pow(0)), triple(Sign::Positive, 1, 1));
    assert_eq!(parts(&pos(0, 7).unsigned_pow(0)), triple(Sign::Positive, 1, 1));
}

#[test]
fn signed_pow_takes_reciprocal_for_negative_exponent() {
    assert_eq!(parts(&pos(2, 3).signed_pow(-2)), triple(Sign::Positive, 9, 4));
    assert_eq!(parts(&pos(2, 3).signed_pow(3)), triple(Sign::Positive, 8, 27));
    assert_eq!(parts(&neg(1, 2).signed_pow(-3)), triple(Sign::Negative, 8, 1));
    assert_eq!(parts(&neg(2, 3).signed_pow(0)), triple(Sign::Positive, 1, 1));
    assert_eq!(parts(&pos(0, 3).signed_pow(0)), triple(Sign::Positive, 1, 1));
    assert_eq!(parts(&pos(0, 3).signed_pow(2)), triple(Sign::Positive, 0, 9));
}

#[test]
fn abs_floor_and_abs_ceil() {
    assert_eq!(neg(7, 2).abs_floor(), UBig::from(3u8));
    assert_eq!(neg(7, 2).abs_ceil(), UBig::from(4u8));
    assert_eq!(pos(6, 2).abs_floor(), UBig::from(3u8));
    assert_eq!(pos(6, 2).abs_ceil(), UBig::from(3u8));
    assert_eq!(pos(0, 2).abs_floor(), UBig::from(0u8));
    assert_eq!(pos(0, 2).abs_ceil(), UBig::from(0u8));
    assert_eq!(pos(1, 5).abs_ceil(), UBig::from(1u8));
    assert_eq!(pos(1, 5).abs_floor(), UBig::from(0u8));
}

#[test]
fn round_with_a_plain_direction() {
    assert_eq!(neg(7, 2).round(RoundingDirection::TowardsZero), IBig::from(-3));
    assert_eq!(neg(7, 2).round(RoundingDirection::AwayFromZero), IBig::from(-4));
    assert_eq!(pos(7, 2).round(RoundingDirection::TowardsZero), IBig::from(3));
    assert_eq!(pos(7, 2).round(RoundingDirection::AwayFromZero), IBig::from(4));
}

#[test]
fn trunc_and_fract() {
    assert_eq!(parts(&neg(7, 2).trunc()), triple(Sign::Negative, 3, 1));
    assert_eq!(parts(&neg(7, 2).fract()), triple(Sign::Negative, 1, 2));
    assert_eq!(parts(&pos(1, 2).trunc()), triple(Sign::Positive, 0, 1));
    assert_eq!(parts(&neg(1, 2).trunc()), triple(Sign::Positive, 0, 1));
    assert_eq!(parts(&pos(6, 3).fract()), triple(Sign::Positive, 0, 3));
}

#[test]
fn trunc_plus_fract_is_the_value() {
    for a in [pos(7, 2), neg(7, 2), pos(1, 3), neg(1, 3), pos(6, 3), neg(0, 4), pos(22, 7)] {
        assert_eq!(a.clone().trunc() + a.clone().fract(), a);
    }
}
