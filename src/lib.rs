//! Weighted quote selection and paced, typewriter-style output.
//!
//! Real numbers read from configuration are carried as [`number::Number`]:
//! a finite value counted in thousandths, or one of the non-finite values.
//! All weight arithmetic is exact, so the pool's effective weights are
//! rationals that share one denominator.

pub mod error;
pub mod number;
pub mod config;
mod random;
pub mod quote_pool;
pub mod pacing;
pub mod emission;
pub mod tokenizer;
