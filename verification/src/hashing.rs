//! Hashing of rational values, in agreement with their equality.

use crate::big::ubig_is_zero;
use crate::nonzero_ubig::NonZeroUBig;
use crate::rational::RBig;
use crate::sign::Sign;
use ibig::UBig;
use std::hash::{Hash, Hasher};
use vstd::prelude::*;

verus! {

/// `Hash::hash` on the tuple of a sign, a numerator and a denominator: feeds
/// the three to `state`, in that order. Nothing is stated of the state.
#[verifier::external_body]
fn hash_parts<H: Hasher>(sign: Sign, numer: &UBig, denom: &NonZeroUBig, state: &mut H) {
    (sign, numer, denom).hash(state)
}

impl RBig {
    /// The representation that is hashed: the value in lowest terms, with the
    /// sign `Positive` where it is zero. Equal values have the same one.
    pub fn hash_key(&self) -> (r: RBig)
        ensures
            r@ == self@.canonical(),
    {
        let reduced = self.clone().reduced();
        let sign = if ubig_is_zero(&reduced.numer) {
            Sign::Positive
        } else {
            reduced.sign
        };
        RBig { sign, numer: reduced.numer, denom: reduced.denom }
    }
}

impl Hash for RBig {
    /// Hashes the value by its `hash_key`, so that equal values hash alike
    /// whatever their representation.
    fn hash<H: Hasher>(&self, state: &mut H) {
        let key = self.hash_key();
        hash_parts(key.sign, &key.numer, &key.denom, state)
    }
}

} // verus!
