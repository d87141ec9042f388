//! The integer primitives that the rational type is built on.
//!
//! The unbounded integers come from the `ibig` crate. Nothing in this module is
//! proved: each function states what the corresponding `ibig` operation
//! computes, in terms of the mathematical value of its operands. `ibig` refuses
//! to build a number longer than `UBig::MAX_BIT_LEN` bits; like running out of
//! memory, that limit is outside what these contracts describe.

use ibig::ops::UnsignedAbs;
use ibig::{IBig, UBig};
use vstd::arithmetic::power::pow;
use vstd::arithmetic::power2::pow2;
use vstd::prelude::*;

verus! {

#[verifier::external_type_specification]
#[verifier::external_body]
pub struct ExUBig(ibig::UBig);

#[verifier::external_type_specification]
#[verifier::external_body]
pub struct ExIBig(ibig::IBig);

/// The natural number that an `ibig::UBig` holds.
pub uninterp spec fn unat(u: UBig) -> nat;

/// The integer that an `ibig::IBig` holds.
pub uninterp spec fn ival(i: IBig) -> int;

/// `UBig::from(u64)`: the unbounded integer with the value of `x`.
#[verifier::external_body]
pub(crate) fn ubig_from_u64(x: u64) -> (r: UBig)
    ensures
        unat(r) == x,
{
    UBig::from(x)
}

/// `UBig::clone`: a copy with the same value.
#[verifier::external_body]
pub(crate) fn ubig_clone(a: &UBig) -> (r: UBig)
    ensures
        unat(r) == unat(*a),
{
    a.clone()
}

/// `&UBig == &UBig`: whether the two values are the same number.
#[verifier::external_body]
pub(crate) fn ubig_eq(a: &UBig, b: &UBig) -> (r: bool)
    ensures
        r == (unat(*a) == unat(*b)),
{
    a == b
}

/// `&UBig < &UBig`: whether the first value is the smaller number.
#[verifier::external_body]
pub(crate) fn ubig_lt(a: &UBig, b: &UBig) -> (r: bool)
    ensures
        r == (unat(*a) < unat(*b)),
{
    a < b
}

/// `num_traits::Zero::is_zero` on a `UBig`: whether the value is zero.
#[verifier::external_body]
pub(crate) fn ubig_is_zero(a: &UBig) -> (r: bool)
    ensures
        r == (unat(*a) == 0),
{
    num_traits::Zero::is_zero(a)
}

/// `&UBig + &UBig`: the sum of the two values.
#[verifier::external_body]
pub(crate) fn ubig_add(a: &UBig, b: &UBig) -> (r: UBig)
    ensures
        unat(r) == unat(*a) + unat(*b),
{
    a + b
}

/// `&UBig - &UBig`: the difference of the two values. `ibig` panics where the
/// difference would be negative, so the first value may not be the smaller.
#[verifier::external_body]
pub(crate) fn ubig_sub(a: &UBig, b: &UBig) -> (r: UBig)
    requires
        unat(*a) >= unat(*b),
    ensures
        unat(r) == unat(*a) - unat(*b),
{
    a - b
}

/// `&UBig * &UBig`: the product of the two values.
#[verifier::external_body]
pub(crate) fn ubig_mul(a: &UBig, b: &UBig) -> (r: UBig)
    ensures
        unat(r) == unat(*a) * unat(*b),
{
    a * b
}

/// `&UBig / &UBig`: the quotient rounded down. `ibig` panics on a zero divisor.
#[verifier::external_body]
pub(crate) fn ubig_div(a: &UBig, b: &UBig) -> (r: UBig)
    requires
        unat(*b) != 0,
    ensures
        unat(r) == unat(*a) / unat(*b),
{
    a / b
}

/// `&UBig % &UBig`: the remainder of the division. `ibig` panics on a zero
/// divisor.
#[verifier::external_body]
pub(crate) fn ubig_rem(a: &UBig, b: &UBig) -> (r: UBig)
    requires
        unat(*b) != 0,
    ensures
        unat(r) == unat(*a) % unat(*b),
{
    a % b
}

/// `UBig * u8`: the value multiplied by the small number `m`.
#[verifier::external_body]
pub(crate) fn ubig_mul_u8(a: UBig, m: u8) -> (r: UBig)
    ensures
        unat(r) == unat(a) * m,
{
    a * m
}

/// `UBig % u8`: the remainder of the division by the small number `m`. `ibig`
/// panics on a zero divisor.
#[verifier::external_body]
pub(crate) fn ubig_rem_u8(a: UBig, m: u8) -> (r: u8)
    requires
        m != 0,
    ensures
        r == unat(a) % (m as nat),
{
    a % m
}

/// `UBig >> usize`: the value divided by two to the power of `n`, rounded down.
#[verifier::external_body]
pub(crate) fn ubig_shr(a: UBig, n: usize) -> (r: UBig)
    ensures
        unat(r) == unat(a) / pow2(n as nat),
{
    a >> n
}

/// `UBig << usize`: the value multiplied by two to the power of `n`.
#[verifier::external_body]
pub(crate) fn ubig_shl(a: UBig, n: usize) -> (r: UBig)
    ensures
        unat(r) == unat(a) * pow2(n as nat),
{
    a << n
}

/// `UBig::trailing_zeros`: nothing for zero; otherwise the number of zero bits
/// below the lowest one bit, that is the largest power of two that divides the
/// value.
#[verifier::external_body]
pub(crate) fn ubig_trailing_zeros(a: &UBig) -> (r: Option<usize>)
    ensures
        r is None <==> unat(*a) == 0,
        r matches Some(k) ==> unat(*a) % pow2(k as nat) == 0 && (unat(*a) / pow2(k as nat)) % 2
            == 1,
{
    a.trailing_zeros()
}

/// `UBig::pow`: the value raised to the power of `exp`.
#[verifier::external_body]
pub(crate) fn ubig_pow(a: &UBig, exp: usize) -> (r: UBig)
    ensures
        unat(r) == pow(unat(*a) as int, exp as nat),
{
    a.pow(exp)
}

/// `IBig::from(i64)`: the unbounded integer with the value of `x`.
#[verifier::external_body]
pub(crate) fn ibig_from_i64(x: i64) -> (r: IBig)
    ensures
        ival(r) == x,
{
    IBig::from(x)
}

/// `IBig::from(UBig)`: the same number as a signed integer.
#[verifier::external_body]
pub(crate) fn ibig_from_ubig(a: UBig) -> (r: IBig)
    ensures
        ival(r) == unat(a),
{
    IBig::from(a)
}

/// `&IBig < &IBig`: whether the first value is the smaller number.
#[verifier::external_body]
pub(crate) fn ibig_lt(a: &IBig, b: &IBig) -> (r: bool)
    ensures
        r == (ival(*a) < ival(*b)),
{
    a < b
}

/// `-IBig`: the negated value.
#[verifier::external_body]
pub(crate) fn ibig_neg(a: IBig) -> (r: IBig)
    ensures
        ival(r) == -ival(a),
{
    -a
}

/// `IBig + IBig`: the sum of the two values.
#[verifier::external_body]
pub(crate) fn ibig_add(a: IBig, b: IBig) -> (r: IBig)
    ensures
        ival(r) == ival(a) + ival(b),
{
    a + b
}

/// `IBig - IBig`: the difference of the two values.
#[verifier::external_body]
pub(crate) fn ibig_sub(a: IBig, b: IBig) -> (r: IBig)
    ensures
        ival(r) == ival(a) - ival(b),
{
    a - b
}

/// `UnsignedAbs::unsigned_abs` on an `IBig`: the magnitude of the value.
#[verifier::external_body]
pub(crate) fn ibig_unsigned_abs(a: IBig) -> (r: UBig)
    ensures
        unat(r) == (if ival(a) >= 0 { ival(a) } else { -ival(a) }),
{
    a.unsigned_abs()
}

} // verus!
