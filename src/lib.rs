//! Relays an asset's redemption rate from a source ledger to a destination contract,
//! submitting only observations that moved enough or that keep the destination fresh.

pub mod decimal;
pub mod quote;
pub mod policy;
pub mod config;
pub mod querier;
pub mod schedule;
pub mod handoff;
pub mod oracle;
pub mod utils;
