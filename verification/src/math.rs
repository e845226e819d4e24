//! Pricing arithmetic.

pub mod risk_adjusted_curve;
