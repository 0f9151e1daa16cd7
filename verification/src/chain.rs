//! The values the program reads from accounts owned by other programs:
//! the ORE proof, the clock sysvar and SPL token accounts.
use vstd::prelude::*;

use crate::pubkey::Pubkey;

verus! {

/// An ORE mining proof; the boost program reads its unclaimed `balance`.
#[derive(Clone, Copy, Debug)]
pub struct Proof {
    pub authority: Pubkey,
    pub balance: u64,
    pub challenge: [u8; 32],
    pub last_hash: [u8; 32],
    pub last_hash_at: i64,
    pub last_stake_at: i64,
    pub miner: Pubkey,
    pub total_hashes: u64,
    pub total_rewards: u64,
}

impl Proof {
    /// A proof holding `balance` unclaimed rewards, every other field zero.
    pub fn holding(balance: u64) -> (r: Proof)
        ensures
            r.balance == balance,
    {
        Proof {
            authority: Pubkey::default(),
            balance,
            challenge: [0u8; 32],
            last_hash: [0u8; 32],
            last_hash_at: 0,
            last_stake_at: 0,
            miner: Pubkey::default(),
            total_hashes: 0,
            total_rewards: 0,
        }
    }
}

/// The clock sysvar.
#[derive(Clone, Copy, Debug)]
pub struct Clock {
    pub slot: u64,
    pub epoch_start_timestamp: i64,
    pub epoch: u64,
    pub leader_schedule_epoch: u64,
    pub unix_timestamp: i64,
}

/// An SPL token account.
#[derive(Clone, Copy, Debug)]
pub struct TokenAccount {
    pub mint: Pubkey,
    pub owner: Pubkey,
    pub amount: u64,
}

impl TokenAccount {
    /// The token balance.
    pub fn amount(&self) -> (r: u64)
        ensures
            r == self.amount,
    {
        self.amount
    }
}

} // verus!
