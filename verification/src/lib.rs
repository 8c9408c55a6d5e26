//! A small deterministic pseudo-random number generator, verified with Verus.
//!
//! The generator is an xorshift64* stream: one 64-bit word of state, advanced by
//! three shift-xor steps and scrambled by a wrapping multiplication. Every
//! draw is a pure function of the state before it, so a seed fixes the whole
//! stream on every platform.

pub mod laws;
pub mod rng;
pub mod unit;
