//! Verified fixed-point core of a European option pricing engine.
//!
//! The library prices a European call or put two independent ways — the
//! Black-Scholes closed form and a Monte Carlo average of simulated terminal
//! payoffs — and compares the two prices against a tolerance.  Every quantity
//! is a fixed-point `i64` counting millionths of a unit, so the arithmetic
//! here is exact integer arithmetic and fully verified.  Transcendental
//! inputs that the formulas need (the standard normal CDF, the discount
//! factor, the simulated terminal prices) are plain values supplied by the
//! caller.

pub mod closed_form;
pub mod contract;
pub mod convergence;
pub mod monte_carlo;
