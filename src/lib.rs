//! Share accounting for a single-asset vault: depositors lock an asset and
//! receive shares that claim a proportional part of the pool. The rate is
//! recomputed on every operation from the pool's live balance and the live
//! share supply, and every conversion rounds in the pool's favour.
//!
//! `shares` converts between assets and shares, `vault` prices deposits and
//! withdrawals into the custody calls that carry them out, and `laws` states
//! what holds of them for all inputs.

pub mod error;
pub mod shares;
pub mod vault;
pub mod laws;
