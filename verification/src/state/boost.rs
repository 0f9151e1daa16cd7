//! Boost accounts: one per staked mint.
use vstd::prelude::*;

use crate::chain::Proof;
use crate::numeric::{Numeric, fits_i128, scale, mul_bits, div_bits};
use crate::pubkey::Pubkey;
use crate::state::config::Config;

verus! {

/// Boost tracks the priority, deposits, and rewards of a staking incentive.
#[derive(Clone, Copy, Debug)]
pub struct Boost {
    /// The unix timestamp this boost expires.
    pub expires_at: i64,
    /// The config rewards factor the last time rewards were collected by this boost.
    pub last_rewards_factor: Numeric,
    /// The mint address of the token associated with this boost.
    pub mint: Pubkey,
    /// The cumulative rewards collected by this boost, divided by the total deposits at the time of collection.
    pub rewards_factor: Numeric,
    /// The total amount of stake deposited in this boost.
    pub total_deposits: u64,
    /// The number of stakers in this boost.
    pub total_stakers: u64,
    /// The weight of this boost relative to other boosts.
    pub weight: u64,
    /// A protocol fee charged for withdrawing from this boost (in basis points).
    pub withdraw_fee: u64,
}

/// The increase of a boost's rewards factor (raw bits) when the global factor moves from
/// `last` to `global`: the weighted growth spread over the deposits, rounded down.
/// Zero when the global factor did not grow or nothing is deposited.
pub open spec fn boost_increment(global: int, last: int, weight: u64, total_deposits: u64) -> int {
    if global > last && total_deposits > 0 {
        ((global - last) * weight) / (total_deposits as int)
    } else {
        0
    }
}

impl Boost {
    /// The rewards factor (raw bits) after collecting at global factor `global`.
    pub open spec fn collected_rewards_factor(self, global: int) -> int {
        self.rewards_factor.bits + boost_increment(
            global,
            self.last_rewards_factor.bits as int,
            self.weight,
            self.total_deposits,
        )
    }

    /// No intermediate value of `collect_rewards` leaves the raw `i128` range.
    pub open spec fn collect_fits(self, config: Config, proof_balance: u64) -> bool {
        let g = config.collected_rewards_factor(proof_balance);
        let acc = g - self.last_rewards_factor.bits;
        &&& fits_i128(g)
        &&& (g > self.last_rewards_factor.bits && self.total_deposits > 0) ==> {
            &&& fits_i128(acc)
            &&& fits_i128(acc * self.weight)
            &&& fits_i128(self.collected_rewards_factor(g))
        }
    }

    /// Collect weighted rewards from the global rewards pool.
    pub fn collect_rewards(&mut self, config: &mut Config, proof: &Proof)
        requires
            old(self).collect_fits(*old(config), proof.balance),
        ensures
            final(config).rewards_factor.bits == old(config).collected_rewards_factor(proof.balance),
            final(config).admin == old(config).admin,
            final(config).boosts == old(config).boosts,
            final(config).len == old(config).len,
            final(config).take_rate == old(config).take_rate,
            final(config).total_weight == old(config).total_weight,
            final(self).rewards_factor.bits == old(self).collected_rewards_factor(
                final(config).rewards_factor.bits as int,
            ),
            final(self).last_rewards_factor == final(config).rewards_factor,
            final(self).expires_at == old(self).expires_at,
            final(self).mint == old(self).mint,
            final(self).total_deposits == old(self).total_deposits,
            final(self).total_stakers == old(self).total_stakers,
            final(self).weight == old(self).weight,
            final(self).withdraw_fee == old(self).withdraw_fee,
    {
        // Increment the global rewards factor
        if config.total_weight > 0 {
            let inc = Numeric::from_fraction(proof.balance, config.total_weight);
            config.rewards_factor = config.rewards_factor.add(inc);
        }
        // Accumulate weighted rewards into the boost rewards factor
        if config.rewards_factor.gt(self.last_rewards_factor) && self.total_deposits > 0 {
            let accumulated_rewards = config.rewards_factor.sub(self.last_rewards_factor);
            let w = Numeric::from_u64(self.weight);
            proof {
                lemma_mul_by_scaled(accumulated_rewards.bits as int, self.weight as int);
            }
            let boost_rewards = accumulated_rewards.mul(w);
            let d = Numeric::from_u64(self.total_deposits);
            proof {
                lemma_div_by_scaled(boost_rewards.bits as int, self.total_deposits as int);
            }
            let inc = boost_rewards.div(d);
            self.rewards_factor = self.rewards_factor.add(inc);
        }
        // Update this boost's last seen rewards factor
        self.last_rewards_factor = config.rewards_factor;
    }
}

/// Multiplying by an integer converted to fixed point multiplies the raw bits exactly.
pub proof fn lemma_mul_by_scaled(a: int, w: int)
    ensures
        mul_bits(a, w * scale()) == a * w,
{
    assert(a * (w * scale()) == (a * w) * scale()) by (nonlinear_arith);
    assert(((a * w) * scale()) / scale() == a * w) by {
        vstd::arithmetic::div_mod::lemma_div_multiples_vanish(a * w, scale());
        assert((a * w) * scale() == scale() * (a * w)) by (nonlinear_arith);
    }
}

/// Dividing non-negative raw bits by an integer converted to fixed point is integer division.
pub proof fn lemma_div_by_scaled(a: int, d: int)
    requires
        a >= 0,
        d > 0,
    ensures
        div_bits(a, d * scale()) == a / d,
{
    assert(a * scale() >= 0) by (nonlinear_arith)
        requires
            a >= 0,
    ;
    assert(d * scale() > 0) by (nonlinear_arith)
        requires
            d > 0,
    ;
    vstd::arithmetic::div_mod::lemma_div_multiples_vanish_quotient(scale(), a, d);
    assert(scale() * a == a * scale()) by (nonlinear_arith);
    assert(scale() * d == d * scale()) by (nonlinear_arith);
}

} // verus!
