//! Ledger transfer aggregation: turning raw transactions into two-party
//! transfer records, deciding what a block contributes to the store, building
//! the retrieval queries, and steering the slot subscription.

pub mod block;
pub mod decimal;
pub mod error;
pub mod keys;
pub mod orchestrator;
pub mod query;
pub mod record;
pub mod timestamp;
pub mod transfer;
