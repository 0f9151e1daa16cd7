//! The state transitions of the program's instructions.
pub mod directory;
pub mod admin;
pub mod staking;
pub mod migration;
pub mod rebase;
pub mod selection;
pub mod lookup_table;
