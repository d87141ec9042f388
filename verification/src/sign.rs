//! The sign of a rational value.

use crate::big::{ibig_neg, ival};
use ibig::IBig;
use vstd::prelude::*;
use vstd::std_specs::ops::{MulSpecImpl, NegSpecImpl};

verus! {

/// The sign of a value. `Negative` orders before `Positive`.
#[derive(Debug, Copy, Clone, Eq, PartialEq, Ord, PartialOrd, Hash, Structural)]
pub enum Sign {
    Negative,
    Positive,
}

impl Default for Sign {
    fn default() -> (r: Sign)
        ensures
            r == Sign::Positive,
    {
        Sign::Positive
    }
}

impl Sign {
    /// The factor that the sign stands for: 1 or -1.
    pub open spec fn unit(self) -> int {
        match self {
            Sign::Positive => 1,
            Sign::Negative => -1,
        }
    }

    /// The opposite sign.
    pub open spec fn flipped(self) -> Sign {
        match self {
            Sign::Positive => Sign::Negative,
            Sign::Negative => Sign::Positive,
        }
    }

    /// The sign of a product of two factors with these signs.
    pub open spec fn times(self, rhs: Sign) -> Sign {
        if self == rhs {
            Sign::Positive
        } else {
            Sign::Negative
        }
    }

    /// `Positive` if `b` holds, `Negative` otherwise.
    pub fn positive_if(b: bool) -> (r: Sign)
        ensures
            r == (if b { Sign::Positive } else { Sign::Negative }),
    {
        if b {
            Sign::Positive
        } else {
            Sign::Negative
        }
    }

    /// Whether the sign is `Positive`.
    pub fn is_positive(self) -> (r: bool)
        ensures
            r == (self == Sign::Positive),
    {
        matches!(self, Sign::Positive)
    }

    /// The sign of a value with this sign raised to the power of `exp`:
    /// `Negative` only for a negative base and an odd exponent.
    pub fn pow(self, exp: usize) -> (r: Sign)
        ensures
            r == (if self == Sign::Negative && exp % 2 == 1 {
                Sign::Negative
            } else {
                Sign::Positive
            }),
    {
        match self {
            Sign::Positive => Sign::Positive,
            Sign::Negative => Sign::positive_if(exp % 2 == 0),
        }
    }

}

impl core::ops::Neg for Sign {
    type Output = Sign;

    fn neg(self) -> (r: Sign) {
        match self {
            Sign::Positive => Sign::Negative,
            Sign::Negative => Sign::Positive,
        }
    }
}

impl NegSpecImpl for Sign {
    open spec fn obeys_neg_spec() -> bool {
        true
    }

    open spec fn neg_req(self) -> bool {
        true
    }

    open spec fn neg_spec(self) -> Sign {
        self.flipped()
    }
}

impl core::ops::Mul for Sign {
    type Output = Sign;

    fn mul(self, rhs: Sign) -> (r: Sign) {
        Sign::positive_if(self == rhs)
    }
}

impl MulSpecImpl for Sign {
    open spec fn obeys_mul_spec() -> bool {
        true
    }

    open spec fn mul_req(self, rhs: Sign) -> bool {
        true
    }

    open spec fn mul_spec(self, rhs: Sign) -> Sign {
        self.times(rhs)
    }
}

impl core::ops::Mul<IBig> for Sign {
    type Output = IBig;

    /// The integer `rhs` with this sign applied: `rhs` itself for `Positive`, its
    /// negation for `Negative`.
    fn mul(self, rhs: IBig) -> (r: IBig)
        ensures
            ival(r) == self.unit() * ival(rhs),
    {
        match self {
            Sign::Positive => rhs,
            Sign::Negative => ibig_neg(rhs),
        }
    }
}

/// The result is stated by the operation's own contract, over the numbers held:
/// an unbounded integer has no value that a specification could construct.
impl MulSpecImpl<IBig> for Sign {
    open spec fn obeys_mul_spec() -> bool {
        false
    }

    open spec fn mul_req(self, rhs: IBig) -> bool {
        true
    }

    open spec fn mul_spec(self, rhs: IBig) -> IBig {
        arbitrary()
    }
}

} // verus!
