//! Confidential order validation and on-ledger settlement for a perpetuals market.
//!
//! `circuits` holds the pure verdict functions run over decrypted trade
//! parameters; `settlement` holds the request ledger, the position merger and
//! the open-interest aggregator that apply an accepted verdict exactly once.

pub mod circuits;
pub mod settlement;
