//! An arithmetic-safety layer for fixed-width ledger accounting.
//!
//! Two independent, stateless primitives make up the core:
//!
//! - [`debit`] computes `balance - amount` in checked mode, rejecting the
//!   borrow-out condition as [`ArithmeticError::InsufficientFunds`] instead
//!   of letting the subtraction wrap around and fabricate value.
//! - [`apply_rate`] computes `amount * rate_bps / scale` with the
//!   multiplication performed first, in full, at double width, so that the
//!   only truncation in the pipeline is the final floored division; the
//!   narrowing back to 64 bits is an explicit range check that fails with
//!   [`ArithmeticError::ArithmeticOverflow`] rather than an implicit cast.
//!
//! Every balance-affecting computation either produces a mathematically
//! exact, non-wrapping, non-truncating result, or fails explicitly.

pub mod balance;
pub mod error;
pub mod rate;

pub use balance::debit;
pub use error::ArithmeticError;
pub use rate::apply_rate;
