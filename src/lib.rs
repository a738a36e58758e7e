//! A single-chain Metropolis sampler over a caller-supplied state space,
//! with a step-budget stopping policy, burn-in, and resampling of the
//! finished chain as an empirical distribution.
pub mod chain;
pub mod random;
pub mod sampler;
pub mod stop;
