//! Verified accounting, directory and leaderboard logic of the ORE boost staking program.
pub mod chain;
pub mod cli;
pub mod consts;
pub mod error;
pub mod hash;
pub mod instruction;
pub mod loaders;
pub mod numeric;
pub mod program;
pub mod pubkey;
pub mod reserves;
pub mod sdk;
pub mod state;
pub mod worker;
