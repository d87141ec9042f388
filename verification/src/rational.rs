//! The rational number type.

use crate::big::{
    ibig_from_i64, ibig_from_ubig, ibig_lt, ibig_unsigned_abs, ival, ubig_add, ubig_clone,
    ubig_div, ubig_from_u64, ubig_is_zero, ubig_mul, ubig_pow, ubig_rem, ubig_sub, unat,
};
use crate::divisibility::{lemma_gcd_divides, lemma_gcd_of_multiple};
use crate::nonzero_ubig::NonZeroUBig;
use crate::ratio::{magnitude, Ratio};
use crate::rounding::{RoundingDirection, RoundingDirectionDecider};
use crate::sign::Sign;
use crate::util::{gcd, LogicalSignum, Pair};
use ibig::{IBig, UBig};
use vstd::arithmetic::div_mod::{lemma_fundamental_div_mod, lemma_fundamental_div_mod_converse};
use vstd::arithmetic::power::lemma_pow_positive;
use vstd::prelude::*;
use vstd::std_specs::convert::FromSpecImpl;

verus! {

/// An arbitrary-size rational number: `sign * numer / denom`.
///
/// Zero has many representations, `+0/x` and `-0/x` for every non-zero `x`, and
/// a value is not kept in lowest terms: see [`RBig::reduce`].
#[derive(Debug)]
pub struct RBig {
    pub sign: Sign,
    pub numer: UBig,
    pub denom: NonZeroUBig,
}

impl View for RBig {
    type V = Ratio;

    open spec fn view(&self) -> Ratio {
        Ratio { sign: self.sign, numer: unat(self.numer), denom: self.denom@ }
    }
}

impl Clone for RBig {
    fn clone(&self) -> (r: Self)
        ensures
            r@ == self@,
    {
        RBig { sign: self.sign, numer: ubig_clone(&self.numer), denom: self.denom.clone() }
    }
}

/// Whether `n` is not negative.
pub(crate) fn ibig_is_nonnegative(n: &IBig) -> (r: bool)
    ensures
        r == (ival(*n) >= 0),
{
    let zero = ibig_from_i64(0);
    !ibig_lt(n, &zero)
}

impl RBig {
    /// The value with the given sign, numerator and denominator.
    pub fn new(sign: Sign, numer: UBig, denom: NonZeroUBig) -> (r: Self)
        ensures
            r@ == (Ratio { sign, numer: unat(numer), denom: denom@ }),
            r@.wf(),
    {
        let _ = denom.as_ref();
        RBig { sign, numer, denom }
    }

    /// The value `numer / denom` of two signed integers, unless `denom` is zero.
    /// The sign is `Positive` where both are negative or neither is.
    pub fn from_numer_denom(numer: IBig, denom: IBig) -> (r: Option<Self>)
        ensures
            r is None <==> ival(denom) == 0,
            r matches Some(v) ==> v@ == (Ratio {
                sign: if (ival(numer) >= 0) == (ival(denom) >= 0) {
                    Sign::Positive
                } else {
                    Sign::Negative
                },
                numer: magnitude(ival(numer)),
                denom: magnitude(ival(denom)),
            }),
    {
        let is_positive = ibig_is_nonnegative(&numer) == ibig_is_nonnegative(&denom);
        match NonZeroUBig::new(ibig_unsigned_abs(denom)) {
            Some(d) => Some(Self::new(Sign::positive_if(is_positive), ibig_unsigned_abs(numer), d)),
            None => None,
        }
    }

    /// The value `numer / denom` of a signed numerator and a denominator.
    pub fn from_numer_unsigned_denom(numer: IBig, denom: NonZeroUBig) -> (r: Self)
        ensures
            r@ == Ratio::from_int(ival(numer), denom@),
            r@.wf(),
    {
        let positive = ibig_is_nonnegative(&numer);
        Self::new(Sign::positive_if(positive), ibig_unsigned_abs(numer), denom)
    }

    /// The products `self.numer * rhs.denom` and `rhs.numer * self.denom`, by
    /// which the magnitudes of the two values compare.
    pub(crate) fn cross_mul_abs(&self, rhs: &RBig) -> (r: Pair<UBig>)
        ensures
            unat(r.0) == self@.numer * rhs@.denom,
            unat(r.1) == rhs@.numer * self@.denom,
    {
        Pair(ubig_mul(&self.numer, rhs.denom.as_ref()), ubig_mul(&rhs.numer, self.denom.as_ref()))
    }

    /// The signed products `self.num() * rhs.denom` and `rhs.num() * self.denom`:
    /// the numerators of the two values over the product of the denominators.
    pub(crate) fn cross_mul_signed(&self, rhs: &RBig) -> (r: Pair<IBig>)
        ensures
            ival(r.0) == self@.num() * rhs@.denom,
            ival(r.1) == rhs@.num() * self@.denom,
    {
        let p = self.cross_mul_abs(rhs);
        proof {
            let (s1, n1, d1) = (self@.sign.unit(), self@.numer as int, self@.denom as int);
            let (s2, n2, d2) = (rhs@.sign.unit(), rhs@.numer as int, rhs@.denom as int);
            assert(s1 * (n1 * d2) == (s1 * n1) * d2) by (nonlinear_arith);
            assert(s2 * (n2 * d1) == (s2 * n2) * d1) by (nonlinear_arith);
        }
        Pair(self.sign * ibig_from_ubig(p.0), rhs.sign * ibig_from_ubig(p.1))
    }

    /// Negative, zero or positive. A zero numerator is zero whatever the stored
    /// sign.
    pub(crate) fn logical_signum(&self) -> (r: LogicalSignum)
        ensures
            r == self@.class(),
    {
        if ubig_is_zero(&self.numer) {
            LogicalSignum::Zero
        } else {
            match self.sign {
                Sign::Positive => LogicalSignum::Pos,
                Sign::Negative => LogicalSignum::Neg,
            }
        }
    }

    /// Whether the value is greater than zero.
    pub fn is_positive(&self) -> (r: bool)
        ensures
            r == self@.is_positive(),
    {
        !ubig_is_zero(&self.numer) && self.sign.is_positive()
    }

    /// Whether the value is less than zero.
    pub fn is_negative(&self) -> (r: bool)
        ensures
            r == self@.is_negative(),
    {
        !ubig_is_zero(&self.numer) && !self.sign.is_positive()
    }

    /// Whether the value is zero.
    pub fn is_zero(&self) -> (r: bool)
        ensures
            r == self@.is_zero(),
    {
        ubig_is_zero(&self.numer)
    }

    /// The reciprocal of a value whose numerator is known not to be zero:
    /// numerator and denominator change places.
    pub fn unchecked_recip(self) -> (r: Self)
        requires
            !self@.is_zero(),
        ensures
            r@ == self@.reciprocal(),
    {
        let RBig { sign, numer, denom } = self;
        RBig { sign, numer: denom.get(), denom: NonZeroUBig::new_unchecked(numer) }
    }

    /// The reciprocal, unless the value is zero.
    pub fn checked_recip(self) -> (r: Option<Self>)
        ensures
            r is None <==> self@.is_zero(),
            r matches Some(v) ==> v@ == self@.reciprocal(),
    {
        if ubig_is_zero(&self.numer) {
            return None;
        }
        Some(self.unchecked_recip())
    }

    /// The reciprocal of a value other than zero.
    pub fn recip(self) -> (r: Self)
        requires
            !self@.is_zero(),
        ensures
            r@ == self@.reciprocal(),
    {
        self.unchecked_recip()
    }

    /// Brings the value to lowest terms: divides numerator and denominator by
    /// their greatest common divisor.
    pub fn reduce(&mut self)
        ensures
            final(self)@ == old(self)@.reduced(),
    {
        let g = gcd(ubig_clone(&self.numer), ubig_clone(self.denom.as_ref()));
        proof {
            lemma_gcd_divides(unat(self.numer), self.denom@);
        }
        self.numer = ubig_div(&self.numer, &g);
        core::ops::DivAssign::div_assign(&mut self.denom, g);
    }

    /// The value in lowest terms.
    pub fn reduced(self) -> (r: Self)
        ensures
            r@ == self@.reduced(),
    {
        let mut r = self;
        r.reduce();
        r
    }

    /// Whether the value is an integer: the denominator divides the numerator.
    pub fn is_int(&self) -> (r: bool)
        ensures
            r == self@.is_int(),
    {
        let rem = ubig_rem(&self.numer, self.denom.as_ref());
        ubig_is_zero(&rem)
    }

    /// The value as a signed integer where it is one, else the value itself.
    pub fn try_into_int(self) -> (r: Result<IBig, Self>)
        ensures
            r is Ok <==> self@.is_int(),
            r matches Ok(i) ==> ival(i) == self@.sign.unit() * (self@.numer / self@.denom),
            r matches Err(e) ==> e == self,
    {
        if self.is_int() {
            let sign = self.sign;
            let _ = self.denom.as_ref();
            proof {
                lemma_gcd_of_multiple(self@.numer, self@.denom);
            }
            Ok(sign * ibig_from_ubig(self.reduced().numer))
        } else {
            Err(self)
        }
    }

    /// The value as a signed integer, where it is one.
    pub fn try_to_int(&self) -> (r: Option<IBig>)
        ensures
            r is Some <==> self@.is_int(),
            r matches Some(i) ==> ival(i) == self@.sign.unit() * (self@.numer / self@.denom),
    {
        if self.is_int() {
            let _ = self.denom.as_ref();
            proof {
                lemma_gcd_of_multiple(self@.numer, self@.denom);
            }
            Some(self.sign * ibig_from_ubig(self.clone().reduced().numer))
        } else {
            None
        }
    }

    /// Whether the value is an integer that is not negative.
    pub fn is_uint(&self) -> (r: bool)
        ensures
            r == self@.is_uint(),
    {
        self.is_int() && !self.is_negative()
    }

    /// The value as an unsigned integer where it is one, else the value itself.
    pub fn try_into_uint(self) -> (r: Result<UBig, Self>)
        ensures
            r is Ok <==> self@.is_uint(),
            r matches Ok(u) ==> unat(u) == self@.numer / self@.denom,
            r matches Err(e) ==> e == self,
    {
        if self.is_uint() {
            let _ = self.denom.as_ref();
            proof {
                lemma_gcd_of_multiple(self@.numer, self@.denom);
            }
            Ok(self.reduced().numer)
        } else {
            Err(self)
        }
    }

    /// The value as an unsigned integer, where it is one.
    pub fn try_to_uint(&self) -> (r: Option<UBig>)
        ensures
            r is Some <==> self@.is_uint(),
            r matches Some(u) ==> unat(u) == self@.numer / self@.denom,
    {
        if self.is_uint() {
            let _ = self.denom.as_ref();
            proof {
                lemma_gcd_of_multiple(self@.numer, self@.denom);
            }
            Some(self.clone().reduced().numer)
        } else {
            None
        }
    }

    /// Zero for zero, otherwise one with the sign of the value.
    pub fn signum(&self) -> (r: Self)
        ensures
            r@ == self@.signum(),
    {
        if self.is_zero() {
            Self::from(ubig_from_u64(0))
        } else {
            Self::from(self.sign * ibig_from_i64(1))
        }
    }

    /// The value raised to the power of `exp`: sign, numerator and denominator
    /// each raised to it.
    pub fn unsigned_pow(self, exp: usize) -> (r: Self)
        ensures
            r@ == self@.power(exp as nat),
    {
        RBig {
            sign: self.sign.pow(exp),
            numer: ubig_pow(&self.numer, exp),
            denom: self.denom.pow(exp),
        }
    }

    /// The value raised to the power of `exp`. For an exponent that is not
    /// positive it is the reciprocal of the power by the magnitude of `exp`, so
    /// with a negative exponent the value may not be zero.
    pub fn signed_pow(self, exp: isize) -> (r: Self)
        requires
            exp < 0 ==> !self@.is_zero(),
        ensures
            r@ == (if exp > 0 {
                self@.power(exp as nat)
            } else {
                self@.power((-exp) as nat).reciprocal()
            }),
    {
        let n: usize = if exp >= 0 {
            exp as usize
        } else {
            (-(exp + 1)) as usize + 1
        };
        proof {
            vstd::arithmetic::power::lemma_pow0(self@.numer as int);
            if self@.numer != 0 {
                lemma_pow_positive(self@.numer as int, n as nat);
            }
        }
        let res = self.unsigned_pow(n);
        if exp > 0 {
            res
        } else {
            res.recip()
        }
    }

    /// The magnitude rounded towards zero.
    pub fn abs_floor(self) -> (r: UBig)
        ensures
            unat(r) == self@.abs_floor(),
    {
        ubig_div(&self.numer, self.denom.as_ref())
    }

    /// The magnitude rounded away from zero, for a value other than zero.
    fn abs_ceil_impl(self) -> (r: UBig)
        requires
            !self@.is_zero(),
        ensures
            unat(r) == self@.abs_ceil(),
    {
        let one = ubig_from_u64(1);
        let d = self.denom.as_ref();
        proof {
            let n = self@.numer as int;
            let dd = self@.denom as int;
            lemma_fundamental_div_mod(n, dd);
            let q = n / dd;
            let m = n % dd;
            if m == 0 {
                assert(q >= 1) by (nonlinear_arith)
                    requires
                        n == dd * q,
                        n > 0,
                        dd > 0,
                ;
                assert(n - 1 == (q - 1) * dd + (dd - 1)) by (nonlinear_arith)
                    requires
                        n == dd * q,
                ;
                lemma_fundamental_div_mod_converse(n - 1, dd, q - 1, dd - 1);
            } else {
                assert(n - 1 == q * dd + (m - 1)) by (nonlinear_arith)
                    requires
                        n == dd * q + m,
                ;
                lemma_fundamental_div_mod_converse(n - 1, dd, q, m - 1);
            }
        }
        let less = ubig_sub(&self.numer, &one);
        ubig_add(&ubig_div(&less, d), &one)
    }

    /// The magnitude rounded away from zero.
    pub fn abs_ceil(self) -> (r: UBig)
        ensures
            unat(r) == self@.abs_ceil(),
    {
        if ubig_is_zero(&self.numer) {
            let _ = self.denom.as_ref();
            return ubig_from_u64(0);
        }
        self.abs_ceil_impl()
    }

    /// The magnitude rounded to an integer, in the direction that `dir` chooses
    /// for the absolute value.
    pub fn round_abs<D: RoundingDirectionDecider>(self, dir: D) -> (r: UBig)
        ensures
            unat(r) == self@.absolute().abs_rounded(dir.decision(self@.absolute())),
    {
        let a = self.abs();
        match dir.decide(&a) {
            RoundingDirection::TowardsZero => a.abs_floor(),
            RoundingDirection::AwayFromZero => a.abs_ceil(),
        }
    }

    /// The value rounded to an integer, in the direction that `dir` chooses for
    /// it: the rounded magnitude with the sign of the value.
    pub fn round<D: RoundingDirectionDecider>(self, dir: D) -> (r: IBig)
        ensures
            ival(r) == self@.rounded(dir.decision(self@)),
    {
        let sign = self.sign;
        let abs = match dir.decide(&self) {
            RoundingDirection::TowardsZero => self.abs_floor(),
            RoundingDirection::AwayFromZero => self.abs_ceil(),
        };
        sign * ibig_from_ubig(abs)
    }

    /// The integer part: the value rounded towards zero, over one.
    pub fn trunc(self) -> (r: Self)
        ensures
            r@ == self@.trunc(),
    {
        Self::from(self.round(RoundingDirection::TowardsZero))
    }

    /// The fractional part: what is left of the value beside its integer part,
    /// with the sign and the denominator of the value.
    pub fn fract(self) -> (r: Self)
        ensures
            r@ == self@.fract(),
    {
        let rem = ubig_rem(&self.numer, self.denom.as_ref());
        Self::new(self.sign, rem, self.denom)
    }

    /// The value with its sign made `Positive`.
    pub fn abs(self) -> (r: Self)
        ensures
            r@ == self@.absolute(),
    {
        let mut r = self;
        r.sign = Sign::Positive;
        r
    }
}

impl From<UBig> for RBig {
    /// The integer `numer` over one.
    fn from(numer: UBig) -> (r: RBig)
        ensures
            r@ == (Ratio { sign: Sign::Positive, numer: unat(numer), denom: 1 }),
    {
        RBig::new(Sign::Positive, numer, NonZeroUBig::one())
    }
}

/// The result is stated by the operation's own contract, over the numbers held:
/// an unbounded integer has no value that a specification could construct.
impl FromSpecImpl<UBig> for RBig {
    open spec fn obeys_from_spec() -> bool {
        false
    }

    open spec fn from_spec(numer: UBig) -> RBig {
        arbitrary()
    }
}

impl From<IBig> for RBig {
    /// The integer `numer` over one.
    fn from(numer: IBig) -> (r: RBig)
        ensures
            r@ == Ratio::from_int(ival(numer), 1),
    {
        RBig::from_numer_unsigned_denom(numer, NonZeroUBig::one())
    }
}

/// The result is stated by the operation's own contract, over the numbers held:
/// an unbounded integer has no value that a specification could construct.
impl FromSpecImpl<IBig> for RBig {
    open spec fn obeys_from_spec() -> bool {
        false
    }

    open spec fn from_spec(numer: IBig) -> RBig {
        arbitrary()
    }
}

} // verus!
