use rbig::nonzero_ubig::NonZeroUBig;
use rbig::reexport::ibig::{IBig, UBig};
use rbig::rounding::{Ceil, Floor, TowardNearest, TowardNearestEven, TowardNearestOdd};
use rbig::{RBig, Sign};

fn frac(sign: Sign, numer: u64, denom: u64) -> RBig {
    RBig::new(sign, UBig::from(numer), NonZeroUBig::new(UBig::from(denom)).unwrap())
}

#[test]
fn floor_rounds_towards_negative_infinity() {
    assert_eq!(frac(Sign::Positive, 7, 2).round(Floor), IBig::from(3));
    assert_eq!(frac(Sign::Negative, 7, 2).round(Floor), IBig::from(-4));
}

#[test]
fn ceil_rounds_towards_positive_infinity() {
    assert_eq!(frac(Sign::Positive, 7, 2).round(Ceil), IBig::from(4));
    assert_eq!(frac(Sign::Negative, 7, 2).round(Ceil), IBig::from(-3));
}

#[test]
fn nearest_breaks_ties_by_parity() {
    let even = || TowardNearest { tie_breaker: TowardNearestEven };
    let odd = || TowardNearest { tie_breaker: TowardNearestOdd };
    assert_eq!(frac(Sign::Positive, 5, 2).round(even()), IBig::from(2));
    assert_eq!(frac(Sign::Positive, 7, 2).round(even()), IBig::from(4));
    assert_eq!(frac(Sign::Positive, 3, 2).round(odd()), IBig::from(1));
}

#[test]
fn floor_and_ceil_leave_integers_alone() {
    assert_eq!(frac(Sign::Negative, 6, 2).round(Floor), IBig::from(-3));
    assert_eq!(frac(Sign::Positive, 6, 2).round(Ceil), IBig::from(3));
    assert_eq!(frac(Sign::Negative, 0, 2).round(Floor), IBig::from(0));
    assert_eq!(frac(Sign::Positive, 0, 2).round(Ceil), IBig::from(0));
}

#[test]
fn nearest_without_a_tie_goes_to_the_closer_integer() {
    let even = || TowardNearest { tie_breaker: TowardNearestEven };
    let odd = || TowardNearest { tie_breaker: TowardNearestOdd };
    assert_eq!(frac(Sign::Positive, 7, 3).round(even()), IBig::from(2));
    assert_eq!(frac(Sign::Positive, 8, 3).round(even()), IBig::from(3));
    assert_eq!(frac(Sign::Negative, 7, 3).round(odd()), IBig::from(-2));
    assert_eq!(frac(Sign::Negative, 8, 3).round(odd()), IBig::from(-3));
    assert_eq!(frac(Sign::Positive, 4, 2).round(odd()), IBig::from(2));
}

#[test]
fn nearest_ties_on_negative_values() {
    let even = || TowardNearest { tie_breaker: TowardNearestEven };
    let odd = || TowardNearest { tie_breaker: TowardNearestOdd };
    assert_eq!(frac(Sign::Negative, 5, 2).round(even()), IBig::from(-2));
    assert_eq!(frac(Sign::Negative, 7, 2).round(even()), IBig::from(-4));
    assert_eq!(frac(Sign::Negative, 5, 2).round(odd()), IBig::from(-3));
    assert_eq!(frac(Sign::Positive, 10, 4).round(odd()), IBig::from(3));
}

#[test]
fn round_abs_decides_on_the_absolute_value() {
    assert_eq!(frac(Sign::Negative, 7, 2).round_abs(Floor), UBig::from(3u8));
    assert_eq!(frac(Sign::Negative, 7, 2).round_abs(Ceil), UBig::from(4u8));
    assert_eq!(frac(Sign::Positive, 7, 2).round_abs(Floor), UBig::from(3u8));
    let even = TowardNearest { tie_breaker: TowardNearestEven };
    assert_eq!(frac(Sign::Negative, 5, 2).round_abs(even), UBig::from(2u8));
}

#[test]
fn parity_tie_breakers_alone() {
    assert_eq!(frac(Sign::Positive, 9, 4).round(TowardNearestEven), IBig::from(2));
    assert_eq!(frac(Sign::Positive, 13, 4).round(TowardNearestEven), IBig::from(4));
    assert_eq!(frac(Sign::Positive, 9, 4).round(TowardNearestOdd), IBig::from(3));
    assert_eq!(frac(Sign::Positive, 13, 4).round(TowardNearestOdd), IBig::from(3));
}
