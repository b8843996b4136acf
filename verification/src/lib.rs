//! Epoch-gated share-vault accounting core.
//!
//! Users deposit a fungible asset into a shared pool and receive shares, a
//! proportional claim on pool assets. Strategy premium is folded into the
//! pool at discrete epoch boundaries, and a queued withdrawal settles only
//! in an epoch strictly later than the one it was filed in, so nobody can
//! exit at a valuation that was stale when they committed to leave.
//!
//! The crate holds the pure accounting: share-price math, the withdrawal
//! request lifecycle, the per-epoch notional-exposure cap, and the running
//! average premium rate. Asset custody, signature checks and record storage
//! are external collaborators; they hand this core plain values and commit
//! or roll back its results.

pub mod errors;
pub mod math;
pub mod vault;
pub mod withdrawal;
pub mod laws;
