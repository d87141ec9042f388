//! An unsigned integer that is never zero.

use crate::big::{
    ubig_add, ubig_clone, ubig_div, ubig_from_u64, ubig_is_zero, ubig_mul, ubig_pow, unat,
};
use crate::divisibility::{divides, lemma_divides_quotient};
use ibig::UBig;
use vstd::arithmetic::power::{lemma_pow_positive, pow};
use vstd::prelude::*;
use vstd::std_specs::ops::{AddSpecImpl, DivSpecImpl, MulSpecImpl};

verus! {

/// An unbounded unsigned integer other than zero.
#[derive(Debug, Eq, PartialEq, Ord, PartialOrd, Hash)]
pub struct NonZeroUBig(UBig);

impl View for NonZeroUBig {
    type V = nat;

    /// The number that is held.
    closed spec fn view(&self) -> nat {
        unat(self.0)
    }
}

impl Clone for NonZeroUBig {
    fn clone(&self) -> (r: Self)
        ensures
            r@ == self@,
    {
        proof {
            use_type_invariant(self);
        }
        NonZeroUBig(ubig_clone(&self.0))
    }
}

impl NonZeroUBig {
    #[verifier::type_invariant]
    spec fn nonzero(self) -> bool {
        unat(self.0) != 0
    }

    /// The number one.
    pub fn one() -> (r: Self)
        ensures
            r@ == 1,
    {
        NonZeroUBig(ubig_from_u64(1))
    }

    /// Wraps `u` without a test. The caller has to know that `u` is not zero.
    pub fn new_unchecked(u: UBig) -> (r: Self)
        requires
            unat(u) != 0,
        ensures
            r@ == unat(u),
    {
        NonZeroUBig(u)
    }

    /// Wraps `u`, unless it is zero.
    pub fn new(u: UBig) -> (r: Option<Self>)
        ensures
            r is None <==> unat(u) == 0,
            r matches Some(nz) ==> nz@ == unat(u),
    {
        if ubig_is_zero(&u) {
            None
        } else {
            Some(NonZeroUBig(u))
        }
    }

    /// The number that is held, which is not zero.
    pub fn get(self) -> (r: UBig)
        ensures
            unat(r) == self@,
            unat(r) != 0,
    {
        proof {
            use_type_invariant(&self);
        }
        self.0
    }

    /// The number raised to the power of `exp`, which is not zero either.
    pub fn pow(self, exp: usize) -> (r: NonZeroUBig)
        ensures
            r@ == pow(self@ as int, exp as nat),
    {
        proof {
            use_type_invariant(&self);
            lemma_pow_positive(unat(self.0) as int, exp as nat);
        }
        NonZeroUBig(ubig_pow(&self.0, exp))
    }
}

impl core::ops::Mul for NonZeroUBig {
    type Output = NonZeroUBig;

    /// The product, which is not zero since neither factor is.
    fn mul(self, rhs: NonZeroUBig) -> (r: NonZeroUBig)
        ensures
            r@ == self@ * rhs@,
    {
        proof {
            use_type_invariant(&self);
            use_type_invariant(&rhs);
            assert(unat(self.0) * unat(rhs.0) != 0) by (nonlinear_arith)
                requires
                    unat(self.0) != 0,
                    unat(rhs.0) != 0,
            ;
        }
        NonZeroUBig(ubig_mul(&self.0, &rhs.0))
    }
}

/// The result is stated by the operation's own contract, over the numbers held:
/// an unbounded integer has no value that a specification could construct.
impl MulSpecImpl for NonZeroUBig {
    open spec fn obeys_mul_spec() -> bool {
        false
    }

    open spec fn mul_req(self, rhs: NonZeroUBig) -> bool {
        true
    }

    open spec fn mul_spec(self, rhs: NonZeroUBig) -> NonZeroUBig {
        arbitrary()
    }
}

impl core::ops::MulAssign for NonZeroUBig {
    fn mul_assign(&mut self, rhs: NonZeroUBig)
        ensures
            final(self)@ == old(self)@ * rhs@,
    {
        proof {
            use_type_invariant(&*self);
            use_type_invariant(&rhs);
            assert(unat(self.0) * unat(rhs.0) != 0) by (nonlinear_arith)
                requires
                    unat(self.0) != 0,
                    unat(rhs.0) != 0,
            ;
        }
        self.0 = ubig_mul(&self.0, &rhs.0);
    }
}

impl core::ops::Div<UBig> for NonZeroUBig {
    type Output = NonZeroUBig;

    /// The quotient by a divisor of the number, which is not zero.
    fn div(self, rhs: UBig) -> (r: NonZeroUBig)
        ensures
            r@ == self@ / unat(rhs),
    {
        proof {
            use_type_invariant(&self);
            lemma_divides_quotient(unat(rhs), unat(self.0));
            assert(unat(self.0) / unat(rhs) != 0) by (nonlinear_arith)
                requires
                    unat(self.0) != 0,
                    unat(self.0) == unat(rhs) * (unat(self.0) / unat(rhs)),
            ;
        }
        NonZeroUBig(ubig_div(&self.0, &rhs))
    }
}

/// The result is stated by the operation's own contract, over the numbers held:
/// an unbounded integer has no value that a specification could construct.
impl DivSpecImpl<UBig> for NonZeroUBig {
    open spec fn obeys_div_spec() -> bool {
        false
    }

    open spec fn div_req(self, rhs: UBig) -> bool {
        unat(rhs) != 0 && divides(unat(rhs), self@)
    }

    open spec fn div_spec(self, rhs: UBig) -> NonZeroUBig {
        arbitrary()
    }
}

impl core::ops::DivAssign<UBig> for NonZeroUBig {
    fn div_assign(&mut self, rhs: UBig)
        requires
            unat(rhs) != 0,
            divides(unat(rhs), old(self)@),
        ensures
            final(self)@ == old(self)@ / unat(rhs),
    {
        proof {
            use_type_invariant(&*self);
            lemma_divides_quotient(unat(rhs), unat(self.0));
            assert(unat(self.0) / unat(rhs) != 0) by (nonlinear_arith)
                requires
                    unat(self.0) != 0,
                    unat(self.0) == unat(rhs) * (unat(self.0) / unat(rhs)),
            ;
        }
        self.0 = ubig_div(&self.0, &rhs);
    }
}

impl core::ops::Add for NonZeroUBig {
    type Output = NonZeroUBig;

    /// The sum, which is not zero since neither term is.
    fn add(self, rhs: NonZeroUBig) -> (r: NonZeroUBig)
        ensures
            r@ == self@ + rhs@,
    {
        proof {
            use_type_invariant(&self);
        }
        NonZeroUBig(ubig_add(&self.0, &rhs.0))
    }
}

/// The result is stated by the operation's own contract, over the numbers held:
/// an unbounded integer has no value that a specification could construct.
impl AddSpecImpl for NonZeroUBig {
    open spec fn obeys_add_spec() -> bool {
        false
    }

    open spec fn add_req(self, rhs: NonZeroUBig) -> bool {
        true
    }

    open spec fn add_spec(self, rhs: NonZeroUBig) -> NonZeroUBig {
        arbitrary()
    }
}

impl From<NonZeroUBig> for UBig {
    fn from(nz: NonZeroUBig) -> (r: UBig)
        ensures
            unat(r) == nz@,
    {
        nz.0
    }
}

/// The result is stated by the operation's own contract, over the numbers held:
/// an unbounded integer has no value that a specification could construct.
impl vstd::std_specs::convert::FromSpecImpl<NonZeroUBig> for UBig {
    open spec fn obeys_from_spec() -> bool {
        false
    }

    open spec fn from_spec(nz: NonZeroUBig) -> UBig {
        arbitrary()
    }
}

impl AsRef<UBig> for NonZeroUBig {
    /// A reference to the number that is held, which is not zero.
    fn as_ref(&self) -> (r: &UBig)
        ensures
            unat(*r) == self@,
            unat(*r) != 0,
    {
        proof {
            use_type_invariant(self);
        }
        &self.0
    }
}

} // verus!
