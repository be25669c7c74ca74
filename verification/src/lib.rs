//! Core accounting and math engine of a two-asset constant-product
//! automated market maker.
//!
//! The engine custodies nothing itself: reserves and LP-share supply live in
//! an external ledger and are handed in as plain values, and every operation
//! returns the exact amounts the host must then transfer, mint or burn.
//! Each operation validates all guards and computes all amounts before any
//! irreversible effect is issued, so a failure leaves no partial state.

pub mod admin;
pub mod analytics;
pub mod errors;
pub mod fees;
pub mod laws;
pub mod liquidity;
pub mod math;
pub mod pool;
pub mod registry;
pub mod swap;
