//! Program accounts.
pub mod boost;
pub mod config;
pub mod stake;
pub mod leaderboard;
pub mod rewards;
pub mod directory;
pub mod legacy;
pub mod checkpoint;
pub mod codec;
