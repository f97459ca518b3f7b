//! Pricing engine and trade execution for a continuous token sale on the bonding curve
//! `y(x) = A - K / (C + x)`, where `x` is the cumulative base-asset deposit.
//!
//! - `curve`: the curve, its four trades and their exact results;
//! - `laws`: how the trades relate to one another (monotonicity, the asymptote, round trips);
//! - `trade`: admission checks, commission, thresholds and graduation;
//! - `swap`: the four trade entry points built on them;
//! - `state`, `params`, `errors`: the records a trade reads, the deployed parameters, the
//!   errors.
mod arith;
pub mod curve;
pub mod errors;
pub mod laws;
pub mod params;
pub mod state;
pub mod swap;
pub mod trade;
