//! Equality and order of rational values. Both compare the fractions that the
//! values stand for, by cross-multiplication, whatever the representation.

use crate::big::{ubig_eq, ubig_is_zero, ubig_lt};
use crate::rational::RBig;
use crate::ratio::lemma_eqv_by_magnitudes;
use core::cmp::Ordering;
use vstd::prelude::*;
use vstd::std_specs::cmp::{PartialEqSpecImpl, PartialOrdSpecImpl};

verus! {

impl PartialEq for RBig {
    /// Whether the two values are the same fraction. All representations of
    /// zero are equal.
    fn eq(&self, other: &Self) -> (r: bool) {
        let _ = self.denom.as_ref();
        let _ = other.denom.as_ref();
        proof {
            lemma_eqv_by_magnitudes(self@, other@);
        }
        if ubig_is_zero(&self.numer) && ubig_is_zero(&other.numer) {
            return true;
        }
        let p = self.cross_mul_abs(other);
        self.sign == other.sign && ubig_eq(&p.0, &p.1)
    }
}

impl PartialEqSpecImpl for RBig {
    open spec fn obeys_eq_spec() -> bool {
        true
    }

    open spec fn eq_spec(&self, other: &RBig) -> bool {
        self@.eqv(other@)
    }
}

impl Eq for RBig {

}

impl RBig {
    /// How the value compares to `other`: by class first, negative before zero
    /// before positive, and within one class by the cross-multiplied
    /// magnitudes.
    pub fn cmp(&self, other: &Self) -> (r: Ordering)
        ensures
            r == Ordering::Less <==> self@.precedes(other@),
            r == Ordering::Greater <==> other@.precedes(self@),
    {
        let a = self.logical_signum().order();
        let b = other.logical_signum().order();
        if a < b {
            Ordering::Less
        } else if a > b {
            Ordering::Greater
        } else {
            let p = self.cross_mul_abs(other);
            if ubig_lt(&p.0, &p.1) {
                Ordering::Less
            } else if ubig_lt(&p.1, &p.0) {
                Ordering::Greater
            } else {
                Ordering::Equal
            }
        }
    }
}

impl PartialOrd for RBig {
    fn partial_cmp(&self, other: &Self) -> (r: Option<Ordering>) {
        Some(self.cmp(other))
    }
}

impl PartialOrdSpecImpl for RBig {
    open spec fn obeys_partial_cmp_spec() -> bool {
        true
    }

    open spec fn partial_cmp_spec(&self, other: &RBig) -> Option<Ordering> {
        if self@.precedes(other@) {
            Some(Ordering::Less)
        } else if other@.precedes(self@) {
            Some(Ordering::Greater)
        } else {
            Some(Ordering::Equal)
        }
    }
}

} // verus!
