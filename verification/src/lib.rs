//! A governance-proposal engine: weighted voting on proposals, pass/reject
//! resolution under configurable threshold policies, and per-voter ballot
//! bookkeeping that prevents double voting.

pub mod bindings;
pub mod decimal;
pub mod error;
pub mod laws;
pub mod ledger;
pub mod msg;
pub mod state;
pub mod store;
pub mod validation;
