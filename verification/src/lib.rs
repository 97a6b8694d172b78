//! The commit bridge of a replicated ledger: the decisions that turn ordered,
//! certified blocks into durable ledger state, and the protocol that keeps a
//! single record of how far this replica has advanced.
//!
//! The crate holds the rules only. Whatever suspends (running transactions,
//! writing to storage, fetching from peers) is done by the caller, which hands
//! plain values in and carries the returned requests and observations out.

pub mod types;
pub mod sequence;
pub mod metrics;
pub mod progress;
pub mod channel;
pub mod coordinator;
pub mod synchronizer;
pub mod state_computer;
pub mod storage_proto;
