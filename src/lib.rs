//! Biquad filter design and processing.
//!
//! The coefficient formulas of every filter type are built here as
//! expression trees over the physical parameters, and the per-sample
//! recursion keeps its memory in a verified history buffer. Numeric
//! evaluation of the trees and the recursion arithmetic live with the
//! caller, who owns the floating-point representation.
pub mod biquad;
pub mod engine;
pub mod expr;
pub mod filter;
pub mod laws;
