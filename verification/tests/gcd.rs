use rbig::reexport::ibig::UBig;
use rbig::util::gcd;

fn g(n: u64, m: u64) -> UBig {
    gcd(UBig::from(n), UBig::from(m))
}

#[test]
fn gcd_with_zero_is_the_other_number() {
    for n in [0u64, 1, 2, 4, 6, 7, 96, 1 << 40] {
        assert_eq!(g(0, n), UBig::from(n));
        assert_eq!(g(n, 0), UBig::from(n));
    }
}

#[test]
fn gcd_of_a_number_with_itself() {
    for n in [1u64, 2, 3, 12, 97, 1 << 33] {
        assert_eq!(g(n, n), UBig::from(n));
    }
}

#[test]
fn gcd_known_values() {
    assert_eq!(g(12, 18), UBig::from(6u8));
    assert_eq!(g(48, 180), UBig::from(12u8));
    assert_eq!(g(17, 5), UBig::from(1u8));
    assert_eq!(g(1 << 20, 1 << 12), UBig::from(1u64 << 12));
    assert_eq!(g(3 << 7, 5 << 9), UBig::from(1u64 << 7));
    assert_eq!(g(7919 * 104729, 7919 * 1299709), UBig::from(7919u64));
}

#[test]
fn gcd_is_symmetric_and_greatest() {
    let samples = [1u64, 2, 3, 4, 6, 8, 9, 15, 16, 21, 64, 97, 100, 101, 1024, 3 * 1024];
    for &a in samples.iter() {
        for &b in samples.iter() {
            let d = g(a, b);
            assert_eq!(d, g(b, a));
            let d = u64::try_from(&d).unwrap();
            assert_eq!(a % d, 0);
            assert_eq!(b % d, 0);
            for c in (d + 1)..=a.min(b) {
                assert!(a % c != 0 || b % c != 0);
            }
        }
    }
}

#[test]
fn gcd_of_numbers_beyond_machine_words() {
    let p = UBig::from(u64::MAX) * UBig::from(u64::MAX - 58);
    let a = p.clone() * UBig::from(6u8);
    let b = p.clone() * UBig::from(35u8);
    assert_eq!(gcd(a, b), p);
}
