//! A verified implementation of a limit-order instruction protocol for
//! co-signable transaction fragments.
//!
//! A structured trade order (account, sell amount, buy amount, settlement and
//! venue fees) is mapped to a canonical sequence of ledger instructions by a
//! builder, and an arbitrary instruction sequence is mapped back to the
//! structured order — or rejected — by a single-pass validator. The two
//! directions are proved inverse over the instruction model: building then
//! validating recovers the order exactly ([`guarantees`]), and the
//! validator accepts nothing beyond the canonical shape it was built to
//! recognize ([`acceptance`]).

#![verifier::loop_isolation(false)]

pub mod types;
pub mod model;
pub mod trade_api;
pub mod config;
pub mod manifest;
pub mod validate;
pub mod subintents;
pub mod guarantees;
pub mod acceptance;
pub mod orders;
