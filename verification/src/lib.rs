//! Computable real numbers: values that are approximated on demand by
//! arbitrary-precision rationals, to any requested accuracy.
//!
//! `computable` holds the numbers themselves, `expression` the mathematics
//! that their contracts are stated in, `laws` what holds between their
//! operations, and `rational` the arithmetic of the `num` crate that they are
//! built on.

pub mod computable;
pub mod expression;
pub mod laws;
pub mod rational;

pub use crate::computable::Real;
pub use crate::expression::Expression;
