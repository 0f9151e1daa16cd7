//! Checking that a boost's reserves cover the rewards its stakers are owed.
use vstd::prelude::*;

use crate::consts::ORE_MINT_ADDRESS;
use crate::numeric::{fits_i128, mul_bits, scale, Numeric};
use crate::pubkey::Pubkey;

verus! {

/// What the reserve check reads of a stake account.
#[derive(Clone, Copy, Debug)]
pub struct StakeRewards {
    /// The boost rewards factor when the stake last collected.
    pub last_rewards_factor: Numeric,
    /// The staked balance.
    pub balance: u64,
    /// Rewards already credited and not claimed.
    pub rewards: u64,
}

/// The outcome of the reserve check of one boost.
#[derive(Clone, Copy, Debug, PartialEq, Eq, Structural)]
pub struct ReserveReport {
    /// The rewards the stakers are owed.
    pub rewards: u64,
    /// The tokens held for them: the proof balance and the rewards account.
    pub reserves: u64,
    /// The reserves cover the rewards.
    pub sufficient: bool,
}

/// The rewards growth of a stake, as raw bits, when the boost factor is `factor`.
pub open spec fn pending_bits(factor: int, stake: StakeRewards) -> int {
    if stake.last_rewards_factor.bits < factor {
        mul_bits(factor - stake.last_rewards_factor.bits, stake.balance * scale())
    } else {
        0
    }
}

/// What a stake is owed when the boost factor is `factor`: its credited rewards and its
/// pending growth, rounded down.
pub open spec fn owed(factor: int, stake: StakeRewards) -> int {
    stake.rewards + pending_bits(factor, stake) / scale()
}

/// What the stakes are owed in all.
pub open spec fn total_owed(factor: int, stakes: Seq<StakeRewards>) -> int
    decreases stakes.len(),
{
    if stakes.len() == 0 {
        0
    } else {
        total_owed(factor, stakes.drop_last()) + owed(factor, stakes.last())
    }
}

/// The boost factor after collecting the proof balance: `factor + balance / deposits`.
pub open spec fn collected_factor(factor: int, proof_balance: u64, total_deposits: u64) -> int {
    factor + (proof_balance * scale()) / (total_deposits as int)
}

/// Each stake's pending growth is representable.
pub open spec fn growth_fits(factor: int, stakes: Seq<StakeRewards>) -> bool {
    forall|i: int| 0 <= i < stakes.len()
        ==> #[trigger] fits_i128(factor - stakes[i].last_rewards_factor.bits)
            && fits_i128(pending_bits(factor, stakes[i]))
}

proof fn lemma_owed_nonneg(factor: int, stake: StakeRewards)
    ensures
        0 <= pending_bits(factor, stake),
        stake.rewards <= owed(factor, stake),
{
    if stake.last_rewards_factor.bits < factor {
        let d = factor - stake.last_rewards_factor.bits;
        let b = stake.balance * scale();
        assert(d * b >= 0) by (nonlinear_arith)
            requires
                d > 0,
                b >= 0,
        ;
    }
}

proof fn lemma_total_owed_grows(factor: int, stakes: Seq<StakeRewards>, i: int)
    requires
        0 <= i <= stakes.len(),
    ensures
        0 <= total_owed(factor, stakes.take(i)) <= total_owed(factor, stakes),
    decreases stakes.len(),
{
    if stakes.len() > 0 {
        lemma_owed_nonneg(factor, stakes.last());
        if i == stakes.len() {
            assert(stakes.take(i) =~= stakes);
            lemma_total_owed_grows(factor, stakes.drop_last(), i - 1);
            assert(stakes.drop_last().take(i - 1) =~= stakes.drop_last());
        } else {
            lemma_total_owed_grows(factor, stakes.drop_last(), i);
            assert(stakes.drop_last().take(i) =~= stakes.take(i));
        }
    } else {
        assert(stakes.take(i) =~= stakes);
    }
}

/// Checks one boost's reserves: the factor it reaches after collecting the proof balance,
/// what each stake is owed at that factor, and the tokens held (the proof balance and the
/// rewards account, less the deposits when the boost stakes ORE itself).
pub fn validate_reserves(
    mint: Pubkey,
    rewards_factor: Numeric,
    total_deposits: u64,
    proof_balance: u64,
    token_amount: u64,
    stakes: &Vec<StakeRewards>,
) -> (r: ReserveReport)
    requires
        total_deposits > 0,
        fits_i128(collected_factor(rewards_factor.bits as int, proof_balance, total_deposits)),
        growth_fits(collected_factor(rewards_factor.bits as int, proof_balance, total_deposits), stakes@),
        total_owed(collected_factor(rewards_factor.bits as int, proof_balance, total_deposits), stakes@)
            <= u64::MAX,
        mint.bytes == ORE_MINT_ADDRESS ==> total_deposits <= token_amount,
        proof_balance + token_amount - (if mint.bytes == ORE_MINT_ADDRESS { total_deposits as int } else { 0 })
            <= u64::MAX,
    ensures
        r.rewards == total_owed(collected_factor(rewards_factor.bits as int, proof_balance, total_deposits), stakes@),
        r.reserves == proof_balance + token_amount - (if mint.bytes == ORE_MINT_ADDRESS {
            total_deposits as int
        } else {
            0
        }),
        r.sufficient == (r.reserves >= r.rewards),
{
    let ghost factor = collected_factor(rewards_factor.bits as int, proof_balance, total_deposits);
    let increment = Numeric::from_fraction(proof_balance, total_deposits);
    proof {
        vstd::arithmetic::div_mod::lemma_div_pos_is_pos(proof_balance * scale(), total_deposits as int);
    }
    let new_factor = rewards_factor.add(increment);
    let mut rewards: u64 = 0;
    let mut i: usize = 0;
    while i < stakes.len()
        invariant
            0 <= i <= stakes.len(),
            new_factor.bits == factor,
            growth_fits(factor, stakes@),
            total_owed(factor, stakes@) <= u64::MAX,
            rewards == total_owed(factor, stakes@.take(i as int)),
        decreases stakes.len() - i,
    {
        let stake = stakes[i];
        proof {
            lemma_total_owed_grows(factor, stakes@, i + 1);
            assert(stakes@.take(i + 1).drop_last() =~= stakes@.take(i as int));
            assert(fits_i128(factor - stakes@[i as int].last_rewards_factor.bits));
            lemma_owed_nonneg(factor, stake);
        }
        let mut owed_now: u64 = stake.rewards;
        if stake.last_rewards_factor.lt(new_factor) {
            let accumulated = new_factor.sub(stake.last_rewards_factor);
            let personal = accumulated.mul(Numeric::from_u64(stake.balance));
            let amount = personal.to_u64();
            owed_now = stake.rewards + amount;
        }
        rewards = rewards + owed_now;
        i = i + 1;
    }
    proof {
        assert(stakes@.take(stakes.len() as int) =~= stakes@);
    }
    let mut tokens = token_amount;
    if mint == (Pubkey { bytes: ORE_MINT_ADDRESS }) {
        tokens = tokens - total_deposits;
    }
    let reserves = proof_balance + tokens;
    ReserveReport { rewards, reserves, sufficient: reserves >= rewards }
}

} // verus!
