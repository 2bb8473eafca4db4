//! Monte Carlo engine for estimating the probability that an asset's price
//! exceeds a target level after a fixed number of discrete time steps.
//!
//! The engine draws shocks uniformly with replacement from an empirical pool,
//! evolves each trial's price path, and reduces the binary trial outcomes
//! (terminal price above target, or not) into a hit count over the total
//! number of trials. Everything that can be stated over plain values is
//! verified here: input validation, uniform index sampling into the pool,
//! and the commutative counting reduction. The floating-point path
//! arithmetic itself lives outside the verified library.

pub mod counting;
pub mod engine;
pub mod errors;
pub mod sampling;
