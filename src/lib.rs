//! A two-sided synthetic-position ledger whose pools are re-based against a
//! price signal through per-side divisors, in fixed-point integer arithmetic.
pub mod contract;
pub mod laws;
pub mod ledger;
pub mod market;
