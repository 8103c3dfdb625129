//! Root finding for real scalar functions.
//!
//! A double-precision value travels through the library as its IEEE-754 bit
//! pattern (`f64::to_bits`). The library holds every part of the root finders
//! that reads such values without computing new ones: classification, order
//! and sign tests, the closed interval and the sign-change bracket with their
//! invariants, the convergence criteria, the function-evaluation
//! capabilities, the generic iteration driver and the bias bookkeeping of the
//! Illinois method.
pub mod ieee;
pub mod bracket;
pub mod wrap;
pub mod convergence;
pub mod solver;
pub mod bias;
