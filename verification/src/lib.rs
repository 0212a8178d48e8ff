//! Capacity, fault-tolerance and scaling estimates for erasure-coded storage
//! clusters.
//!
//! A [`configuration::Configuration`] describes the physical layout (racks,
//! servers, drives) and the erasure-coding scheme (stripe size, parity
//! count). [`calc::calculate`] maps it to a
//! [`calculation_result::CalculationResult`], and [`calc::recommend_scaling`]
//! proposes a rack count for a target usable capacity.
//!
//! All quantities are exact: capacities are 128-bit integers, ratios are
//! kept as numerator and denominator, and any value that does not fit its
//! integer type is reported as [`error::CalcError::Overflow`].

pub mod ratio;
pub mod text;
pub mod arith;
pub mod calc;
pub mod calculation_result;
pub mod configuration;
pub mod error;
pub mod utils;
