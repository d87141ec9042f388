//! Small helpers: a pair of values, the three-way sign class, and the binary
//! greatest common divisor.

use crate::big::{ubig_lt, ubig_shl, ubig_shr, ubig_sub, ubig_trailing_zeros, unat};
use crate::divisibility::{
    lemma_gcd_base, lemma_gcd_pow2_factors, lemma_gcd_strip_pow2, lemma_gcd_sub,
    lemma_gcd_symmetric, spec_gcd,
};
use ibig::UBig;
use vstd::arithmetic::div_mod::lemma_fundamental_div_mod;
use vstd::arithmetic::power2::{lemma_pow2_pos, pow2};
use vstd::prelude::*;

verus! {

/// Two values of one type, carried together through a combining step.
#[derive(Debug, Copy, Clone, Eq, PartialEq, Hash)]
pub struct Pair<T>(pub T, pub T);

impl<T> Pair<T> {
    /// The pair of references to the two values.
    pub fn as_ref(&self) -> (r: Pair<&T>)
        ensures
            *r.0 == self.0,
            *r.1 == self.1,
    {
        Pair(&self.0, &self.1)
    }

    /// Applies `f` to the two values, first and second.
    pub fn fold<F: FnOnce(T, T) -> U, U>(self, f: F) -> (r: U)
        requires
            f.requires((self.0, self.1)),
        ensures
            f.ensures((self.0, self.1), r),
    {
        f(self.0, self.1)
    }
}

/// The class of a value by its sign: negative, zero or positive, in that order.
#[derive(Debug, Copy, Clone, Ord, PartialOrd, Eq, PartialEq, Hash, Structural)]
pub enum LogicalSignum {
    Neg,
    Zero,
    Pos,
}

impl LogicalSignum {
    /// The position of the class in the order: 0 for negative, 1 for zero, 2 for
    /// positive.
    pub open spec fn rank(self) -> int {
        match self {
            LogicalSignum::Neg => 0,
            LogicalSignum::Zero => 1,
            LogicalSignum::Pos => 2,
        }
    }
}

impl LogicalSignum {
    /// The position of the class in the order, as a number.
    pub fn order(self) -> (r: u8)
        ensures
            r == self.rank(),
    {
        match self {
            LogicalSignum::Neg => 0,
            LogicalSignum::Zero => 1,
            LogicalSignum::Pos => 2,
        }
    }
}

/// The greatest common divisor of `n` and `m`, computed with subtractions,
/// shifts and parity tests only. With zero it is the other number.
pub fn gcd(n: UBig, m: UBig) -> (r: UBig)
    ensures
        unat(r) == spec_gcd(unat(n), unat(m)),
{
    let ghost n0 = unat(n);
    let ghost m0 = unat(m);
    proof {
        lemma_gcd_base(n0);
        lemma_gcd_base(m0);
    }
    let i = match ubig_trailing_zeros(&n) {
        Some(x) => x,
        None => {
            return m;
        },
    };
    let j = match ubig_trailing_zeros(&m) {
        Some(x) => x,
        None => {
            return n;
        },
    };
    let mut a = ubig_shr(n, i);
    let mut b = ubig_shr(m, j);
    let k = if i <= j {
        i
    } else {
        j
    };
    let ghost g = spec_gcd(unat(a), unat(b));
    proof {
        lemma_pow2_pos(i as nat);
        lemma_pow2_pos(j as nat);
        lemma_fundamental_div_mod(n0 as int, pow2(i as nat) as int);
        lemma_fundamental_div_mod(m0 as int, pow2(j as nat) as int);
        lemma_gcd_pow2_factors(unat(a), unat(b), i as nat, j as nat);
        assert(spec_gcd(n0, m0) == pow2(k as nat) * g);
    }
    loop
        invariant
            n0 == unat(n),
            m0 == unat(m),
            unat(a) % 2 == 1,
            unat(b) % 2 == 1,
            spec_gcd(unat(a), unat(b)) == g,
            spec_gcd(n0, m0) == pow2(k as nat) * g,
        decreases unat(a) + unat(b),
    {
        if ubig_lt(&b, &a) {
            proof {
                lemma_gcd_symmetric(unat(a), unat(b));
            }
            core::mem::swap(&mut a, &mut b);
        }
        let ghost before = unat(b);
        b = ubig_sub(&b, &a);
        proof {
            lemma_gcd_sub(unat(a), before);
        }
        match ubig_trailing_zeros(&b) {
            None => {
                proof {
                    lemma_gcd_base(unat(a));
                    assert(unat(a) * pow2(k as nat) == pow2(k as nat) * unat(a))
                        by (nonlinear_arith);
                }
                return ubig_shl(a, k);
            },
            Some(t) => {
                let ghost diff = unat(b);
                b = ubig_shr(b, t);
                proof {
                    lemma_pow2_pos(t as nat);
                    lemma_fundamental_div_mod(diff as int, pow2(t as nat) as int);
                    lemma_gcd_strip_pow2(unat(a), unat(b), t as nat);
                    assert(unat(b) <= diff) by (nonlinear_arith)
                        requires
                            diff == pow2(t as nat) * unat(b),
                            pow2(t as nat) > 0,
                    ;
                }
            },
        }
    }
}

} // verus!
