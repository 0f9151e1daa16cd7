//! Stake accounts: one per staker per boost.
use vstd::prelude::*;

use crate::chain::{Clock, Proof, TokenAccount};
use crate::numeric::{Numeric, fits_i128, scale};
use crate::pubkey::Pubkey;
use crate::state::boost::{Boost, lemma_mul_by_scaled};
use crate::state::config::Config;

verus! {

/// Stake tracks the deposits and rewards of a staker.
#[derive(Clone, Copy)]
pub struct Stake {
    /// The authority of this stake account.
    pub authority: Pubkey,
    /// The balance of this stake account.
    pub balance: u64,
    /// The boost this stake account is associated with.
    pub boost: Pubkey,
    /// The timestamp of the last time rewards were claimed from this account.
    pub last_claim_at: i64,
    /// The timestamp of the last time stake was added to this account.
    pub last_deposit_at: i64,
    /// The timestamp of the last time stake was withdrawn from this account.
    pub last_withdraw_at: i64,
    /// The boost rewards factor last time rewards were updated on this stake account.
    pub last_rewards_factor: Numeric,
    /// The amount of rewards claimable by this staker.
    pub rewards: u64,
    /// A buffer for future config variables.
    pub _buffer: [u8; 1024],
}

/// The rewards credited to a stake of `balance` when its boost's rewards factor has
/// grown from `last` to `boost_factor` (raw bits): the growth times the balance, rounded down.
pub open spec fn stake_reward(boost_factor: int, last: int, balance: u64) -> int {
    if boost_factor > last {
        ((boost_factor - last) * balance) / scale()
    } else {
        0
    }
}

/// The smaller of two amounts.
pub open spec fn min_u64(a: u64, b: u64) -> u64 {
    if a <= b {
        a
    } else {
        b
    }
}

impl Stake {
    /// The boost rewards factor (raw bits) this stake sees after collecting.
    pub open spec fn boost_factor_after(boost: Boost, config: Config, proof_balance: u64) -> int {
        boost.collected_rewards_factor(config.collected_rewards_factor(proof_balance))
    }

    /// The rewards this stake holds after collecting.
    pub open spec fn rewards_after_collect(self, boost: Boost, config: Config, proof_balance: u64) -> int {
        self.rewards + stake_reward(
            Self::boost_factor_after(boost, config, proof_balance),
            self.last_rewards_factor.bits as int,
            self.balance,
        )
    }

    /// No intermediate value of `collect_rewards` overflows.
    pub open spec fn collect_fits(self, boost: Boost, config: Config, proof_balance: u64) -> bool {
        let b = Self::boost_factor_after(boost, config, proof_balance);
        let acc = b - self.last_rewards_factor.bits;
        &&& boost.collect_fits(config, proof_balance)
        &&& b > self.last_rewards_factor.bits ==> {
            &&& fits_i128(acc)
            &&& fits_i128(acc * self.balance)
        }
        &&& self.rewards_after_collect(boost, config, proof_balance) <= u64::MAX
    }

    /// What `collect_rewards` leaves in the three accounts.
    pub open spec fn collected(
        old_stake: Stake,
        old_boost: Boost,
        old_config: Config,
        proof_balance: u64,
        stake: Stake,
        boost: Boost,
        config: Config,
    ) -> bool {
        &&& config.rewards_factor.bits == old_config.collected_rewards_factor(proof_balance)
        &&& config.admin == old_config.admin
        &&& config.boosts == old_config.boosts
        &&& config.len == old_config.len
        &&& config.take_rate == old_config.take_rate
        &&& config.total_weight == old_config.total_weight
        &&& boost.rewards_factor.bits == Self::boost_factor_after(old_boost, old_config, proof_balance)
        &&& boost.last_rewards_factor == config.rewards_factor
        &&& boost.expires_at == old_boost.expires_at
        &&& boost.mint == old_boost.mint
        &&& boost.total_deposits == old_boost.total_deposits
        &&& boost.total_stakers == old_boost.total_stakers
        &&& boost.weight == old_boost.weight
        &&& boost.withdraw_fee == old_boost.withdraw_fee
        &&& stake.rewards == old_stake.rewards_after_collect(old_boost, old_config, proof_balance)
        &&& stake.last_rewards_factor == boost.rewards_factor
        &&& stake._buffer == old_stake._buffer
    }

    /// What `claim(amount, ..)` leaves in the three accounts and returns.
    pub open spec fn claimed(
        old_stake: Stake,
        old_boost: Boost,
        old_config: Config,
        proof_balance: u64,
        amount: u64,
        now: i64,
        stake: Stake,
        boost: Boost,
        config: Config,
        r: u64,
    ) -> bool {
        let accrued = old_stake.rewards_after_collect(old_boost, old_config, proof_balance);
        &&& Self::collected(
            old_stake,
            old_boost,
            old_config,
            proof_balance,
            Stake { rewards: (stake.rewards + r) as u64, ..stake },
            boost,
            config,
        )
        &&& r == min_u64(amount, accrued as u64)
        &&& stake.rewards == accrued - r
        &&& stake.last_claim_at == now
        &&& stake.balance == old_stake.balance
        &&& stake.authority == old_stake.authority
        &&& stake.boost == old_stake.boost
        &&& stake.last_deposit_at == old_stake.last_deposit_at
        &&& stake.last_withdraw_at == old_stake.last_withdraw_at
    }

    /// What `deposit(amount, ..)` leaves in the three accounts and returns.
    pub open spec fn deposited(
        old_stake: Stake,
        old_boost: Boost,
        old_config: Config,
        proof_balance: u64,
        amount: u64,
        now: i64,
        stake: Stake,
        boost: Boost,
        config: Config,
        r: u64,
    ) -> bool {
        &&& r == amount
        &&& stake.balance == old_stake.balance + r
        &&& boost.total_deposits == old_boost.total_deposits + r
        &&& stake.last_deposit_at == now
        &&& Self::collected(
            old_stake,
            old_boost,
            old_config,
            proof_balance,
            stake,
            Boost { total_deposits: old_boost.total_deposits, ..boost },
            config,
        )
        &&& stake.authority == old_stake.authority
        &&& stake.boost == old_stake.boost
        &&& stake.last_claim_at == old_stake.last_claim_at
        &&& stake.last_withdraw_at == old_stake.last_withdraw_at
    }

    /// What `withdraw(amount, ..)` leaves in the three accounts and returns.
    pub open spec fn withdrawn(
        old_stake: Stake,
        old_boost: Boost,
        old_config: Config,
        proof_balance: u64,
        amount: u64,
        now: i64,
        stake: Stake,
        boost: Boost,
        config: Config,
        r: u64,
    ) -> bool {
        &&& r == min_u64(amount, old_stake.balance)
        &&& stake.balance == old_stake.balance - r
        &&& boost.total_deposits == old_boost.total_deposits - r
        &&& stake.last_withdraw_at == now
        &&& Self::collected(
            old_stake,
            old_boost,
            old_config,
            proof_balance,
            stake,
            Boost { total_deposits: old_boost.total_deposits, ..boost },
            config,
        )
        &&& stake.authority == old_stake.authority
        &&& stake.boost == old_stake.boost
        &&& stake.last_claim_at == old_stake.last_claim_at
        &&& stake.last_deposit_at == old_stake.last_deposit_at
    }

    /// Claim rewards: collects, then pays out the requested amount, capped at the claimable rewards.
    pub fn claim(
        &mut self,
        amount: u64,
        boost: &mut Boost,
        clock: &Clock,
        config: &mut Config,
        proof: &Proof,
    ) -> (r: u64)
        requires
            old(self).collect_fits(*old(boost), *old(config), proof.balance),
        ensures
            Self::claimed(
                *old(self),
                *old(boost),
                *old(config),
                proof.balance,
                amount,
                clock.unix_timestamp,
                *final(self),
                *final(boost),
                *final(config),
                r,
            ),
    {
        self.collect_rewards(boost, config, proof);
        let amount = if amount <= self.rewards { amount } else { self.rewards };
        self.last_claim_at = clock.unix_timestamp;
        self.rewards = self.rewards - amount;
        amount
    }

    /// Deposit into the boost: collects, then moves the requested amount, capped at the sender's balance.
    pub fn deposit(
        &mut self,
        amount: u64,
        boost: &mut Boost,
        clock: &Clock,
        config: &mut Config,
        proof: &Proof,
        sender: &TokenAccount,
    ) -> (r: u64)
        requires
            old(self).collect_fits(*old(boost), *old(config), proof.balance),
            old(boost).total_deposits + min_u64(amount, sender.amount) <= u64::MAX,
            old(self).balance + min_u64(amount, sender.amount) <= u64::MAX,
        ensures
            Self::deposited(
                *old(self),
                *old(boost),
                *old(config),
                proof.balance,
                min_u64(amount, sender.amount),
                clock.unix_timestamp,
                *final(self),
                *final(boost),
                *final(config),
                r,
            ),
    {
        self.collect_rewards(boost, config, proof);
        let sender_amount = sender.amount();
        let amount = if amount <= sender_amount { amount } else { sender_amount };
        boost.total_deposits = boost.total_deposits + amount;
        self.balance = self.balance + amount;
        self.last_deposit_at = clock.unix_timestamp;
        amount
    }

    /// Withdraw from the boost: collects, then moves the requested amount, capped at the stake balance.
    pub fn withdraw(
        &mut self,
        amount: u64,
        boost: &mut Boost,
        clock: &Clock,
        config: &mut Config,
        proof: &Proof,
    ) -> (r: u64)
        requires
            old(self).collect_fits(*old(boost), *old(config), proof.balance),
            old(boost).total_deposits >= min_u64(amount, old(self).balance),
        ensures
            Self::withdrawn(
                *old(self),
                *old(boost),
                *old(config),
                proof.balance,
                amount,
                clock.unix_timestamp,
                *final(self),
                *final(boost),
                *final(config),
                r,
            ),
    {
        self.collect_rewards(boost, config, proof);
        let amount = if amount <= self.balance { amount } else { self.balance };
        self.balance = self.balance - amount;
        self.last_withdraw_at = clock.unix_timestamp;
        boost.total_deposits = boost.total_deposits - amount;
        amount
    }

    /// Collect staking rewards: updates the boost, then credits this stake its share.
    pub fn collect_rewards(&mut self, boost: &mut Boost, config: &mut Config, proof: &Proof)
        requires
            old(self).collect_fits(*old(boost), *old(config), proof.balance),
        ensures
            Self::collected(
                *old(self),
                *old(boost),
                *old(config),
                proof.balance,
                *final(self),
                *final(boost),
                *final(config),
            ),
            final(self).balance == old(self).balance,
            final(self).authority == old(self).authority,
            final(self).boost == old(self).boost,
            final(self).last_claim_at == old(self).last_claim_at,
            final(self).last_deposit_at == old(self).last_deposit_at,
            final(self).last_withdraw_at == old(self).last_withdraw_at,
    {
        // Update the boost rewards factor.
        boost.collect_rewards(config, proof);
        // Accumulate stake-weighted boost rewards into the stake account.
        if boost.rewards_factor.gt(self.last_rewards_factor) {
            let accumulated_rewards = boost.rewards_factor.sub(self.last_rewards_factor);
            proof {
                lemma_mul_by_scaled(accumulated_rewards.bits as int, self.balance as int);
                assert(accumulated_rewards.bits * self.balance >= 0) by (nonlinear_arith)
                    requires
                        accumulated_rewards.bits > 0,
                ;
            }
            let personal_rewards = accumulated_rewards.mul(Numeric::from_u64(self.balance));
            self.rewards = self.rewards + personal_rewards.to_u64();
        }
        // Update this stake account's last seen rewards factor.
        self.last_rewards_factor = boost.rewards_factor;
    }
}

/// Law: withdrawing what a deposit moved in gives the stake and the boost back their balance
/// and total deposits, whatever rewards were collected in between.
pub proof fn law_withdraw_undoes_deposit(
    s0: Stake, b0: Boost, c0: Config, p1: u64, amount: u64, t1: i64, s1: Stake, b1: Boost, c1: Config, r1: u64,
    p2: u64, t2: i64, s2: Stake, b2: Boost, c2: Config, r2: u64,
)
    requires
        Stake::deposited(s0, b0, c0, p1, amount, t1, s1, b1, c1, r1),
        Stake::withdrawn(s1, b1, c1, p2, r1, t2, s2, b2, c2, r2),
    ensures
        r2 == r1,
        s2.balance == s0.balance,
        b2.total_deposits == b0.total_deposits,
{
}

} // verus!
