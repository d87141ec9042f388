//! The arithmetic operators of the rational number type. Each result is exact
//! and, in general, not in lowest terms.

use crate::big::{ibig_add, ibig_sub, ubig_add, ubig_lt, ubig_mul, ubig_sub};
use crate::rational::RBig;
use vstd::prelude::*;
use vstd::std_specs::ops::{AddSpecImpl, DivSpecImpl, MulSpecImpl, NegSpecImpl, SubSpecImpl};

verus! {

impl core::ops::Mul for RBig {
    type Output = RBig;

    /// The product: signs, numerators and denominators multiplied.
    fn mul(self, rhs: RBig) -> (r: RBig)
        ensures
            r@ == self@.product(rhs@),
    {
        RBig {
            sign: self.sign * rhs.sign,
            numer: ubig_mul(&self.numer, &rhs.numer),
            denom: self.denom * rhs.denom,
        }
    }
}

/// The result is stated by the operation's own contract, over the numbers held:
/// an unbounded integer has no value that a specification could construct.
impl MulSpecImpl for RBig {
    open spec fn obeys_mul_spec() -> bool {
        false
    }

    open spec fn mul_req(self, rhs: RBig) -> bool {
        true
    }

    open spec fn mul_spec(self, rhs: RBig) -> RBig {
        arbitrary()
    }
}

impl core::ops::Div for RBig {
    type Output = RBig;

    /// The quotient by a value other than zero: the product with its
    /// reciprocal.
    fn div(self, rhs: RBig) -> (r: RBig)
        ensures
            r@ == self@.quotient(rhs@),
    {
        self * rhs.recip()
    }
}

/// The result is stated by the operation's own contract, over the numbers held:
/// an unbounded integer has no value that a specification could construct.
impl DivSpecImpl for RBig {
    open spec fn obeys_div_spec() -> bool {
        false
    }

    open spec fn div_req(self, rhs: RBig) -> bool {
        !rhs@.is_zero()
    }

    open spec fn div_spec(self, rhs: RBig) -> RBig {
        arbitrary()
    }
}

impl core::ops::MulAssign for RBig {
    /// Multiplies the value by `rhs`.
    fn mul_assign(&mut self, rhs: RBig)
        ensures
            final(self)@ == old(self)@.product(rhs@),
    {
        self.sign = self.sign * rhs.sign;
        self.numer = ubig_mul(&self.numer, &rhs.numer);
        core::ops::MulAssign::mul_assign(&mut self.denom, rhs.denom);
    }
}

impl core::ops::DivAssign for RBig {
    /// Divides the value by `rhs`, which is not zero.
    fn div_assign(&mut self, rhs: RBig)
        requires
            !rhs@.is_zero(),
        ensures
            final(self)@ == old(self)@.quotient(rhs@),
    {
        core::ops::MulAssign::mul_assign(self, rhs.recip());
    }
}

impl core::ops::Add for RBig {
    type Output = RBig;

    /// The sum, over the product of the denominators.
    fn add(self, rhs: RBig) -> (r: RBig)
        ensures
            r@ == self@.sum(rhs@),
    {
        let denom = self.denom.clone() * rhs.denom.clone();
        let numer = self.cross_mul_signed(&rhs).fold(ibig_add);
        RBig::from_numer_unsigned_denom(numer, denom)
    }
}

/// The result is stated by the operation's own contract, over the numbers held:
/// an unbounded integer has no value that a specification could construct.
impl AddSpecImpl for RBig {
    open spec fn obeys_add_spec() -> bool {
        false
    }

    open spec fn add_req(self, rhs: RBig) -> bool {
        true
    }

    open spec fn add_spec(self, rhs: RBig) -> RBig {
        arbitrary()
    }
}

impl core::ops::Sub for RBig {
    type Output = RBig;

    /// The difference, over the product of the denominators.
    fn sub(self, rhs: RBig) -> (r: RBig)
        ensures
            r@ == self@.difference(rhs@),
    {
        let denom = self.denom.clone() * rhs.denom.clone();
        let numer = self.cross_mul_signed(&rhs).fold(ibig_sub);
        RBig::from_numer_unsigned_denom(numer, denom)
    }
}

/// The result is stated by the operation's own contract, over the numbers held:
/// an unbounded integer has no value that a specification could construct.
impl SubSpecImpl for RBig {
    open spec fn obeys_sub_spec() -> bool {
        false
    }

    open spec fn sub_req(self, rhs: RBig) -> bool {
        true
    }

    open spec fn sub_spec(self, rhs: RBig) -> RBig {
        arbitrary()
    }
}

impl core::ops::AddAssign for RBig {
    /// Adds `rhs` to the value without going through signed integers. Both
    /// numerators are scaled to the product of the denominators. Signs that
    /// agree add the magnitudes; otherwise the smaller magnitude is taken from
    /// the larger, and the sign flips where that of `rhs` was the larger.
    fn add_assign(&mut self, rhs: RBig)
        ensures
            final(self)@ == old(self)@.sum_in_place(rhs@),
    {
        let delta = ubig_mul(&rhs.numer, self.denom.as_ref());
        self.numer = ubig_mul(&self.numer, rhs.denom.as_ref());
        core::ops::MulAssign::mul_assign(&mut self.denom, rhs.denom);
        let rel_sign = rhs.sign * self.sign;
        if rel_sign.is_positive() {
            self.numer = ubig_add(&self.numer, &delta);
        } else if !ubig_lt(&self.numer, &delta) {
            self.numer = ubig_sub(&self.numer, &delta);
        } else {
            self.sign = core::ops::Neg::neg(self.sign);
            self.numer = ubig_sub(&delta, &self.numer);
        }
    }
}

impl core::ops::SubAssign for RBig {
    /// Subtracts `rhs` from the value: adds its negation in place.
    fn sub_assign(&mut self, rhs: RBig)
        ensures
            final(self)@ == old(self)@.sum_in_place(rhs@.negated()),
    {
        core::ops::AddAssign::add_assign(self, core::ops::Neg::neg(rhs));
    }
}

impl core::ops::Neg for RBig {
    type Output = RBig;

    /// The value with its sign flipped.
    fn neg(self) -> (r: RBig)
        ensures
            r@ == self@.negated(),
    {
        let mut r = self;
        r.sign = core::ops::Neg::neg(r.sign);
        r
    }
}

/// The result is stated by the operation's own contract, over the numbers held:
/// an unbounded integer has no value that a specification could construct.
impl NegSpecImpl for RBig {
    open spec fn obeys_neg_spec() -> bool {
        false
    }

    open spec fn neg_req(self) -> bool {
        true
    }

    open spec fn neg_spec(self) -> RBig {
        arbitrary()
    }
}

} // verus!
