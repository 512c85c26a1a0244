//! A Metropolis Monte-Carlo simulator for a periodic particle system
//! with a pairwise short-ranged potential (Lennard-Jones / Mie).
//!
//! All arithmetic is saturating fixed point over `i128` raw values with
//! 32 fractional bits, so every function has an exact integer contract:
//! the periodic minimum-image metric, the cutoff-filtered energy
//! evaluator (whole system and single particle), and the trial-move
//! engine with its exponential acceptance rule are verified against
//! those contracts. Randomness enters only through thin trusted
//! wrappers over a seedable xorshift generator, and everything derived
//! from the raw draws is verified code.

pub mod fixed;
pub mod vec3;
pub mod errors;
pub mod metric;
pub mod potential;
pub mod energy;
pub mod accept;
pub mod rng;
pub mod engine;
