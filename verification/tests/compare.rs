use rbig::nonzero_ubig::NonZeroUBig;
use rbig::reexport::ibig::UBig;
use rbig::{RBig, Sign};
use std::cmp::Ordering;
use std::collections::hash_map::DefaultHasher;
use std::hash::{Hash, Hasher};

fn frac(sign: Sign, numer: u64, denom: u64) -> RBig {
    RBig::new(sign, UBig::from(numer), NonZeroUBig::new(UBig::from(denom)).unwrap())
}

fn pos(numer: u64, denom: u64) -> RBig {
    frac(Sign::Positive, numer, denom)
}

fn neg(numer: u64, denom: u64) -> RBig {
    frac(Sign::Negative, numer, denom)
}

fn hash_of(r: &RBig) -> u64 {
    let mut h = DefaultHasher::new();
    r.hash(&mut h);
    h.finish()
}

#[test]
fn equality_ignores_the_representation() {
    assert_eq!(pos(1, 2), pos(2, 4));
    assert_eq!(neg(6, 9), neg(2, 3));
    assert_eq!(pos(10, 5), pos(2, 1));
}

#[test]
fn equality_tells_values_apart() {
    assert_ne!(pos(1, 2), pos(1, 3));
    assert_ne!(pos(1, 2), neg(1, 2));
    assert_ne!(pos(0, 2), pos(1, 2));
}

#[test]
fn zeros_are_equal_whatever_sign_and_denominator() {
    assert_eq!(pos(0, 1), neg(0, 7));
    assert_eq!(neg(0, 3), neg(0, 5));
    assert_eq!(pos(0, 3).cmp(&neg(0, 5)), Ordering::Equal);
}

#[test]
fn order_goes_by_class_first() {
    assert_eq!(neg(100, 1).cmp(&pos(0, 1)), Ordering::Less);
    assert_eq!(neg(1, 100).cmp(&neg(0, 1)), Ordering::Less);
    assert_eq!(pos(0, 1).cmp(&pos(1, 100)), Ordering::Less);
    assert_eq!(neg(0, 1).cmp(&pos(1, 100)), Ordering::Less);
    assert_eq!(pos(1, 100).cmp(&neg(100, 1)), Ordering::Greater);
    assert_eq!(pos(0, 1).cmp(&neg(1, 3)), Ordering::Greater);
}

#[test]
fn order_of_positive_values_is_by_cross_products() {
    assert_eq!(pos(1, 3).cmp(&pos(1, 2)), Ordering::Less);
    assert_eq!(pos(2, 3).cmp(&pos(1, 2)), Ordering::Greater);
    assert_eq!(pos(2, 4).cmp(&pos(1, 2)), Ordering::Equal);
    assert!(pos(1, 3) < pos(1, 2));
    assert!(pos(7, 2) >= pos(14, 4));
}

#[test]
fn order_within_negative_class_is_by_magnitude() {
    assert_eq!(neg(1, 3).cmp(&neg(1, 2)), Ordering::Less);
    assert_eq!(neg(1, 2).cmp(&neg(1, 3)), Ordering::Greater);
    assert_eq!(neg(2, 4).cmp(&neg(1, 2)), Ordering::Equal);
}

#[test]
fn partial_cmp_agrees_with_cmp() {
    let values = [neg(3, 2), neg(1, 2), neg(0, 4), pos(0, 1), pos(1, 3), pos(2, 6), pos(5, 1)];
    for a in values.iter() {
        for b in values.iter() {
            assert_eq!(a.partial_cmp(b), Some(a.cmp(b)));
            assert_eq!(a.cmp(b) == Ordering::Equal, a == b);
            assert_eq!(a.cmp(b), b.cmp(a).reverse());
        }
    }
}

#[test]
fn equal_values_hash_alike() {
    assert_eq!(hash_of(&pos(1, 2)), hash_of(&pos(2, 4)));
    assert_eq!(hash_of(&neg(6, 9)), hash_of(&neg(10, 15)));
    assert_eq!(hash_of(&pos(0, 1)), hash_of(&neg(0, 7)));
}

#[test]
fn hash_key_is_lowest_terms_with_positive_zero() {
    let k = neg(6, 9).hash_key();
    let expected = (Sign::Negative, UBig::from(2u8), UBig::from(3u8));
    assert_eq!((k.sign, k.numer, k.denom.get()), expected);
    let z = neg(0, 9).hash_key();
    let expected = (Sign::Positive, UBig::from(0u8), UBig::from(1u8));
    assert_eq!((z.sign, z.numer, z.denom.get()), expected);
}
