//! The Xoroshiro128+ pseudo-random number generator, with every operation
//! proved against a mathematical model of its 128-bit state.
//!
//! `model` holds that model, `xoroshiro` the generator, and `laws` the
//! properties of its streams that follow from the two.
pub mod laws;
pub mod model;
pub mod xoroshiro;

pub use xoroshiro::Xoroshiro128Rng;
