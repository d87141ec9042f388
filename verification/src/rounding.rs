//! Rounding directions and the strategies that choose one for a value.

use crate::big::{ubig_lt, ubig_mul_u8, ubig_rem_u8};
use vstd::arithmetic::div_mod::lemma_fundamental_div_mod;
use crate::ratio::{lemma_from_int_num, magnitude, Ratio};
use crate::rational::RBig;
use vstd::prelude::*;

verus! {

/// The direction in which a value is rounded to an integer.
#[derive(Debug, Copy, Clone, Eq, PartialEq, Ord, PartialOrd, Hash, Structural)]
pub enum RoundingDirection {
    TowardsZero,
    AwayFromZero,
}

/// A strategy that chooses, for a value, whether it is rounded towards zero or
/// away from it.
pub trait RoundingDirectionDecider: Sized {
    /// The direction that the strategy chooses for the value `v`.
    spec fn decision(self, v: Ratio) -> RoundingDirection;

    /// Chooses the direction for `to_round`.
    fn decide(self, to_round: &RBig) -> (d: RoundingDirection)
        ensures
            d == self.decision(to_round@),
    ;
}

/// A direction chooses itself, whatever the value.
impl RoundingDirectionDecider for RoundingDirection {
    open spec fn decision(self, v: Ratio) -> RoundingDirection {
        self
    }

    fn decide(self, to_round: &RBig) -> (d: RoundingDirection) {
        self
    }
}

/// Round towards negative infinity.
pub struct Floor;

pub type TowardsNegativeInfinity = Floor;

impl RoundingDirectionDecider for Floor {
    /// Away from zero for a negative value, towards zero otherwise.
    open spec fn decision(self, v: Ratio) -> RoundingDirection {
        if v.is_negative() {
            RoundingDirection::AwayFromZero
        } else {
            RoundingDirection::TowardsZero
        }
    }

    fn decide(self, to_round: &RBig) -> (d: RoundingDirection) {
        if to_round.is_negative() {
            RoundingDirection::AwayFromZero
        } else {
            RoundingDirection::TowardsZero
        }
    }
}

/// Round towards positive infinity.
pub struct Ceil;

pub type TowardsPositiveInfinity = Ceil;

impl RoundingDirectionDecider for Ceil {
    /// Away from zero for a positive value, towards zero otherwise.
    open spec fn decision(self, v: Ratio) -> RoundingDirection {
        if v.is_positive() {
            RoundingDirection::AwayFromZero
        } else {
            RoundingDirection::TowardsZero
        }
    }

    fn decide(self, to_round: &RBig) -> (d: RoundingDirection) {
        if to_round.is_positive() {
            RoundingDirection::AwayFromZero
        } else {
            RoundingDirection::TowardsZero
        }
    }
}

/// Round towards the nearest integer, with `tie_breaker` for a value halfway
/// between two integers.
pub struct TowardNearest<T: RoundingDirectionDecider> {
    pub tie_breaker: T,
}

impl<T: RoundingDirectionDecider> RoundingDirectionDecider for TowardNearest<T> {
    /// Away from zero where the fractional part is more than a half, towards
    /// zero where it is less, and what the tie breaker chooses for the value
    /// where it is exactly a half.
    open spec fn decision(self, v: Ratio) -> RoundingDirection {
        let rest = v.numer % v.denom;
        if 2 * rest > v.denom {
            RoundingDirection::AwayFromZero
        } else if 2 * rest < v.denom {
            RoundingDirection::TowardsZero
        } else {
            self.tie_breaker.decision(v)
        }
    }

    fn decide(self, to_round: &RBig) -> (d: RoundingDirection) {
        let _ = to_round.denom.as_ref();
        let whole = RBig::from(to_round.clone().round(RoundingDirection::TowardsZero));
        let fract = to_round.clone() - whole;
        let abs_fract = fract.abs();
        proof {
            let v = to_round@;
            let s = v.sign.unit();
            let n = v.numer as int;
            let d = v.denom as int;
            let q = n / d;
            lemma_fundamental_div_mod(n, d);
            lemma_from_int_num(s * q, 1);
            assert(whole@.num() == s * q);
            assert((s * n) * 1 - (s * q) * d == s * (n % d)) by (nonlinear_arith)
                requires
                    n == d * q + n % d,
            ;
            let m = n % d;
            assert(v.num() * 1 - whole@.num() * d == s * m);
            assert(s * m == m || s * m == -m) by (nonlinear_arith)
                requires
                    s == 1 || s == -1,
            ;
            assert(magnitude(s * m) == m);
            assert(fract@ == v.difference(whole@));
            assert(d * 1 == d);
            assert(abs_fract@.denom == v.denom);
            assert(abs_fract@.numer == v.numer % v.denom);
        }
        let twice = ubig_mul_u8(abs_fract.numer, 2u8);
        let denom = abs_fract.denom.as_ref();
        // `2a [?] b` is equivalent to `a/b [?] 1/2`
        if ubig_lt(denom, &twice) {
            RoundingDirection::AwayFromZero
        } else if ubig_lt(&twice, denom) {
            RoundingDirection::TowardsZero
        } else {
            self.tie_breaker.decide(to_round)
        }
    }
}

/// Round towards the nearest even integer: the tie breaker of bankers' rounding.
pub struct TowardNearestEven;

impl RoundingDirectionDecider for TowardNearestEven {
    /// Towards zero where the integer part of the magnitude is even, away from
    /// zero where it is odd.
    open spec fn decision(self, v: Ratio) -> RoundingDirection {
        if (v.numer / v.denom) % 2 == 0 {
            RoundingDirection::TowardsZero
        } else {
            RoundingDirection::AwayFromZero
        }
    }

    fn decide(self, to_round: &RBig) -> (d: RoundingDirection) {
        if ubig_rem_u8(to_round.clone().round_abs(RoundingDirection::TowardsZero), 2u8) == 0 {
            RoundingDirection::TowardsZero
        } else {
            RoundingDirection::AwayFromZero
        }
    }
}

/// Round towards the nearest odd integer.
pub struct TowardNearestOdd;

impl RoundingDirectionDecider for TowardNearestOdd {
    /// Towards zero where the integer part of the magnitude is odd, away from
    /// zero where it is even.
    open spec fn decision(self, v: Ratio) -> RoundingDirection {
        if (v.numer / v.denom) % 2 == 1 {
            RoundingDirection::TowardsZero
        } else {
            RoundingDirection::AwayFromZero
        }
    }

    fn decide(self, to_round: &RBig) -> (d: RoundingDirection) {
        if ubig_rem_u8(to_round.clone().round_abs(RoundingDirection::TowardsZero), 2u8) == 1 {
            RoundingDirection::TowardsZero
        } else {
            RoundingDirection::AwayFromZero
        }
    }
}

} // verus!
