//! Settlement engine for a two-outcome dice wager: a player stakes an asset on
//! a threshold and a direction, and a later call resolves the wager against a
//! draw in `[0, 100)` from a randomness oracle.
//!
//! Everything here works on plain values. The host environment loads and
//! stores records, queries the oracle and dispatches the transfer
//! instructions that settlement produces.
pub mod asset;
pub mod error;
pub mod msg;
pub mod state;
pub mod odds;
pub mod contract;
pub mod ledger;
pub mod laws;
