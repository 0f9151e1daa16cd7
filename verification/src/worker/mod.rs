//! The off-chain checkpoint worker: the decisions it makes between RPC calls.
pub mod bundle;
pub mod lookup_tables;
pub mod schedule;
