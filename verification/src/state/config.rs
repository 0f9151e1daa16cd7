//! The singleton account holding program-wide variables.
use vstd::prelude::*;

use crate::numeric::{Numeric, scale};
use crate::pubkey::Pubkey;

verus! {

/// Config holds onto global program variables.
#[derive(Clone, Copy)]
pub struct Config {
    /// The admin with authority to create and update boost incentives.
    pub admin: Pubkey,
    /// The list of all boosts available for activation.
    pub boosts: [Pubkey; 256],
    /// The number of boosts available in the directory.
    pub len: u64,
    /// The cumulative rewards collected by all boosts, divided by the total weight at the time of collection.
    pub rewards_factor: Numeric,
    /// The portion of rewards boost stakers should receive (in basis points).
    pub take_rate: u64,
    /// The total weight of all boosts.
    pub total_weight: u64,
}

impl Config {
    /// The global rewards factor (raw bits) after `proof_balance` newly collected rewards
    /// are spread over the total weight; unchanged while the total weight is zero.
    pub open spec fn collected_rewards_factor(self, proof_balance: u64) -> int {
        if self.total_weight > 0 {
            self.rewards_factor.bits + (proof_balance * scale()) / (self.total_weight as int)
        } else {
            self.rewards_factor.bits as int
        }
    }

    /// The listed boosts.
    pub open spec fn listed(self) -> Seq<Pubkey> {
        self.boosts@.take(self.len as int)
    }
}

} // verus!
