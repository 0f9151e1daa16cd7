//! Accounts of earlier program versions, as the migrations read them.
use vstd::prelude::*;

use crate::numeric::Numeric;
use crate::pubkey::Pubkey;

verus! {

/// A boost account before the weighted-rewards upgrade.
#[derive(Clone, Copy, Debug)]
pub struct OldBoost {
    pub expires_at: i64,
    pub mint: Pubkey,
    pub rewards_factor: Numeric,
    pub total_deposits: u64,
    pub total_stakers: u64,
    pub withdraw_fee: u64,
}

/// A boost account of the first program version.
#[derive(Clone, Copy, Debug)]
pub struct BoostV1 {
    pub mint: Pubkey,
    pub total_stakers: u64,
}

/// A stake account of the first program version.
#[derive(Clone, Copy, Debug)]
pub struct StakeV1 {
    pub authority: Pubkey,
    pub boost: Pubkey,
    pub id: u64,
    pub balance: u64,
    pub rewards: u64,
}

} // verus!
