//! A constant-product automated-market-maker swap calculator.
//!
//! Given two token reserves and an input amount, the engine computes the
//! output amount a trader receives and the resulting reserve balances,
//! after a proportional trading fee. All quantities are exact rational
//! numbers, so every result is pinned down bit-for-bit by the
//! constant-product formula, and the economic laws of the formula
//! (output bounds, monotonicity, fee growth of the invariant product,
//! round-trip erosion) are proved, not sampled.

pub mod engine;
pub mod laws;
pub mod rational;
