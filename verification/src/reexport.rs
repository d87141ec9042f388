//! The integer crate that the rational type is built on.

pub use ibig;
