//! The mathematical model of a rational value: a sign and two natural numbers.
//!
//! A value is not kept in lowest terms, so the model keeps the stored triple
//! and the contracts can say exactly which representation an operation leaves.
//! What the triple stands for is the fraction `num() / denom`.

use crate::divisibility::spec_gcd;
use crate::rounding::RoundingDirection;
use crate::sign::Sign;
use crate::util::LogicalSignum;
use vstd::arithmetic::power::pow;
use vstd::prelude::*;

verus! {

/// A sign, a numerator and a denominator, as mathematical values.
pub struct Ratio {
    pub sign: Sign,
    pub numer: nat,
    pub denom: nat,
}

/// The magnitude of an integer.
pub open spec fn magnitude(n: int) -> nat {
    if n >= 0 {
        n as nat
    } else {
        (-n) as nat
    }
}

/// The sign that a signed integer is stored with: `Positive` unless it is
/// negative.
pub open spec fn sign_of(n: int) -> Sign {
    if n >= 0 {
        Sign::Positive
    } else {
        Sign::Negative
    }
}

/// The quotient of two natural numbers rounded up.
pub open spec fn ceil_div(n: nat, d: nat) -> nat {
    if n % d == 0 {
        n / d
    } else {
        n / d + 1
    }
}

impl Ratio {
    /// The denominator is not zero.
    pub open spec fn wf(self) -> bool {
        self.denom != 0
    }

    /// The signed numerator: the fraction that the triple stands for is
    /// `num() / denom`.
    pub open spec fn num(self) -> int {
        self.sign.unit() * self.numer
    }

    /// The triple for a signed numerator over a denominator.
    pub open spec fn from_int(n: int, d: nat) -> Ratio {
        Ratio { sign: sign_of(n), numer: magnitude(n), denom: d }
    }

    pub open spec fn is_zero(self) -> bool {
        self.numer == 0
    }

    pub open spec fn is_positive(self) -> bool {
        self.numer != 0 && self.sign == Sign::Positive
    }

    pub open spec fn is_negative(self) -> bool {
        self.numer != 0 && self.sign == Sign::Negative
    }

    /// Negative, zero or positive. A zero numerator is zero whatever the stored
    /// sign.
    pub open spec fn class(self) -> LogicalSignum {
        if self.numer == 0 {
            LogicalSignum::Zero
        } else if self.sign == Sign::Positive {
            LogicalSignum::Pos
        } else {
            LogicalSignum::Neg
        }
    }

    /// The two triples stand for the same fraction.
    pub open spec fn eqv(self, other: Ratio) -> bool {
        self.num() * other.denom == other.num() * self.denom
    }

    /// The order of the values: first by class, negative before zero before
    /// positive; within one class by cross-multiplied magnitudes, the smaller
    /// magnitude first.
    pub open spec fn precedes(self, other: Ratio) -> bool {
        self.class().rank() < other.class().rank() || (self.class() == other.class()
            && self.numer * other.denom < other.numer * self.denom)
    }

    pub open spec fn negated(self) -> Ratio {
        Ratio { sign: self.sign.flipped(), numer: self.numer, denom: self.denom }
    }

    pub open spec fn absolute(self) -> Ratio {
        Ratio { sign: Sign::Positive, numer: self.numer, denom: self.denom }
    }

    /// Numerator and denominator exchanged. It is a value only where the
    /// numerator is not zero.
    pub open spec fn reciprocal(self) -> Ratio {
        Ratio { sign: self.sign, numer: self.denom, denom: self.numer }
    }

    pub open spec fn product(self, rhs: Ratio) -> Ratio {
        Ratio {
            sign: self.sign.times(rhs.sign),
            numer: self.numer * rhs.numer,
            denom: self.denom * rhs.denom,
        }
    }

    pub open spec fn quotient(self, rhs: Ratio) -> Ratio {
        self.product(rhs.reciprocal())
    }

    /// The sum over the product of the denominators.
    pub open spec fn sum(self, rhs: Ratio) -> Ratio {
        Ratio::from_int(self.num() * rhs.denom + rhs.num() * self.denom, self.denom * rhs.denom)
    }

    /// The difference over the product of the denominators.
    pub open spec fn difference(self, rhs: Ratio) -> Ratio {
        Ratio::from_int(self.num() * rhs.denom - rhs.num() * self.denom, self.denom * rhs.denom)
    }

    /// The sum as adding in place leaves it: over the product of the
    /// denominators, and with the sign of `self` unless the magnitude of `rhs`
    /// is opposite and strictly larger.
    pub open spec fn sum_in_place(self, rhs: Ratio) -> Ratio {
        let scaled = self.numer * rhs.denom;
        let delta = rhs.numer * self.denom;
        let denom = self.denom * rhs.denom;
        if rhs.sign == self.sign {
            Ratio { sign: self.sign, numer: scaled + delta, denom }
        } else if scaled >= delta {
            Ratio { sign: self.sign, numer: (scaled - delta) as nat, denom }
        } else {
            Ratio { sign: self.sign.flipped(), numer: (delta - scaled) as nat, denom }
        }
    }

    /// Numerator and denominator divided by their greatest common divisor.
    pub open spec fn reduced(self) -> Ratio {
        let g = spec_gcd(self.numer, self.denom);
        Ratio { sign: self.sign, numer: self.numer / g, denom: self.denom / g }
    }

    /// The reduced triple with the sign of zero made `Positive`: the one triple
    /// that stands for the value.
    pub open spec fn canonical(self) -> Ratio {
        let r = self.reduced();
        Ratio {
            sign: if r.numer == 0 {
                Sign::Positive
            } else {
                r.sign
            },
            numer: r.numer,
            denom: r.denom,
        }
    }

    pub open spec fn is_int(self) -> bool {
        self.numer % self.denom == 0
    }

    pub open spec fn is_uint(self) -> bool {
        self.is_int() && !self.is_negative()
    }

    /// Zero for zero, otherwise one with the stored sign, over one.
    pub open spec fn signum(self) -> Ratio {
        if self.numer == 0 {
            Ratio { sign: Sign::Positive, numer: 0, denom: 1 }
        } else {
            Ratio { sign: self.sign, numer: 1, denom: 1 }
        }
    }

    pub open spec fn power(self, exp: nat) -> Ratio {
        Ratio {
            sign: if self.sign == Sign::Negative && exp % 2 == 1 {
                Sign::Negative
            } else {
                Sign::Positive
            },
            numer: pow(self.numer as int, exp) as nat,
            denom: pow(self.denom as int, exp) as nat,
        }
    }

    /// The magnitude rounded towards zero.
    pub open spec fn abs_floor(self) -> nat {
        self.numer / self.denom
    }

    /// The magnitude rounded away from zero.
    pub open spec fn abs_ceil(self) -> nat {
        ceil_div(self.numer, self.denom)
    }

    /// The magnitude rounded in the given direction.
    pub open spec fn abs_rounded(self, dir: RoundingDirection) -> nat {
        match dir {
            RoundingDirection::TowardsZero => self.abs_floor(),
            RoundingDirection::AwayFromZero => self.abs_ceil(),
        }
    }

    /// The value rounded in the given direction: the rounded magnitude with the
    /// stored sign.
    pub open spec fn rounded(self, dir: RoundingDirection) -> int {
        self.sign.unit() * self.abs_rounded(dir)
    }

    /// The integer part: the magnitude rounded towards zero, with the sign, over
    /// one.
    pub open spec fn trunc(self) -> Ratio {
        Ratio::from_int(self.rounded(RoundingDirection::TowardsZero), 1)
    }

    /// The fractional part: the remainder of the numerator, with the stored sign
    /// and denominator.
    pub open spec fn fract(self) -> Ratio {
        Ratio { sign: self.sign, numer: self.numer % self.denom, denom: self.denom }
    }
}

/// The triple for a signed numerator stands for that numerator.
pub proof fn lemma_from_int_num(n: int, d: nat)
    ensures
        Ratio::from_int(n, d).num() == n,
        Ratio::from_int(n, d).denom == d,
{
}

/// Two values are the same fraction exactly where both numerators are zero,
/// or the signs agree and the cross-multiplied magnitudes are equal.
pub proof fn lemma_eqv_by_magnitudes(a: Ratio, b: Ratio)
    requires
        a.wf(),
        b.wf(),
    ensures
        a.eqv(b) <==> (a.numer == 0 && b.numer == 0) || (a.sign == b.sign && a.numer * b.denom
            == b.numer * a.denom),
{
    let (s1, n1, d1) = (a.sign.unit(), a.numer as int, a.denom as int);
    let (s2, n2, d2) = (b.sign.unit(), b.numer as int, b.denom as int);
    assert((s1 * n1) * d2 == s1 * (n1 * d2)) by (nonlinear_arith);
    assert((s2 * n2) * d1 == s2 * (n2 * d1)) by (nonlinear_arith);
    assert(n1 * d2 >= 0 && n2 * d1 >= 0) by (nonlinear_arith)
        requires
            n1 >= 0,
            n2 >= 0,
            d1 > 0,
            d2 > 0,
    ;
    assert(n1 * d2 == 0 <==> n1 == 0) by (nonlinear_arith)
        requires
            d2 > 0,
            n1 >= 0,
    ;
    assert(n2 * d1 == 0 <==> n2 == 0) by (nonlinear_arith)
        requires
            d1 > 0,
            n2 >= 0,
    ;
    let x = n1 * d2;
    let y = n2 * d1;
    assert(s1 * x == x || s1 * x == -x) by (nonlinear_arith)
        requires
            s1 == 1 || s1 == -1,
    ;
    assert(s2 * y == y || s2 * y == -y) by (nonlinear_arith)
        requires
            s2 == 1 || s2 == -1,
    ;
    assert(s1 == 1 ==> s1 * x == x) by (nonlinear_arith);
    assert(s1 == -1 ==> s1 * x == -x) by (nonlinear_arith);
    assert(s2 == 1 ==> s2 * y == y) by (nonlinear_arith);
    assert(s2 == -1 ==> s2 * y == -y) by (nonlinear_arith);
}

} // verus!
