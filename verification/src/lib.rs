//! Arbitrary-precision rational numbers: a sign, an unsigned numerator and a
//! denominator that is never zero, with exact arithmetic, comparison,
//! reduction and rounding.

pub mod arith;
pub mod big;
pub mod compare;
pub mod divisibility;
pub mod hashing;
pub mod laws;
pub mod nonzero_ubig;
pub mod ratio;
pub mod rational;
pub mod reexport;
pub mod rounding;
pub mod sign;
pub mod util;

pub use rational::RBig;
pub use rounding::{RoundingDirection, RoundingDirectionDecider};
pub use sign::Sign;
