//! Laws of the rewards accounting: what one collection hands out never exceeds what came in.
use vstd::prelude::*;

use crate::numeric::scale;
use crate::state::boost::boost_increment;
use crate::state::config::Config;
use crate::state::stake::stake_reward;

verus! {

/// The sum of a sequence of amounts.
pub open spec fn sum_u64(s: Seq<u64>) -> int
    decreases s.len(),
{
    if s.len() == 0 {
        0
    } else {
        sum_u64(s.drop_last()) + s.last()
    }
}

/// The rewards credited to stakes with the given balances when their boost's factor moves
/// from `old_factor` to `new_factor`.
pub open spec fn sum_stake_rewards(new_factor: int, old_factor: int, balances: Seq<u64>) -> int
    decreases balances.len(),
{
    if balances.len() == 0 {
        0
    } else {
        sum_stake_rewards(new_factor, old_factor, balances.drop_last()) + stake_reward(
            new_factor,
            old_factor,
            balances.last(),
        )
    }
}

pub proof fn lemma_sum_nonneg(s: Seq<u64>)
    ensures
        sum_u64(s) >= 0,
    decreases s.len(),
{
    if s.len() > 0 {
        lemma_sum_nonneg(s.drop_last());
    }
}

pub proof fn lemma_floor_add(a: int, b: int, d: int)
    requires
        a >= 0,
        b >= 0,
        d > 0,
    ensures
        a / d + b / d <= (a + b) / d,
{
    vstd::arithmetic::div_mod::lemma_fundamental_div_mod(a, d);
    vstd::arithmetic::div_mod::lemma_fundamental_div_mod(b, d);
    vstd::arithmetic::div_mod::lemma_remainder_lower(a, d);
    vstd::arithmetic::div_mod::lemma_remainder_lower(b, d);
    let q = a / d + b / d;
    assert(d * q <= a + b) by (nonlinear_arith)
        requires
            a == d * (a / d) + a % d,
            b == d * (b / d) + b % d,
            a % d >= 0,
            b % d >= 0,
            q == a / d + b / d,
    ;
    vstd::arithmetic::div_mod::lemma_div_is_ordered(d * q, a + b, d);
    vstd::arithmetic::div_mod::lemma_div_multiples_vanish(q, d);
}

/// Credited rewards of a group of stakes are at most the growth times their total balance.
proof fn lemma_stake_rewards_bound(old_factor: int, inc: int, balances: Seq<u64>)
    requires
        inc >= 0,
    ensures
        sum_stake_rewards(old_factor + inc, old_factor, balances) <= (inc * sum_u64(balances)) / scale(),
    decreases balances.len(),
{
    if balances.len() > 0 {
        let rest = balances.drop_last();
        let b = balances.last();
        lemma_stake_rewards_bound(old_factor, inc, rest);
        lemma_sum_nonneg(rest);
        let x = inc * sum_u64(rest);
        let y = inc * b;
        assert(x >= 0 && y >= 0) by (nonlinear_arith)
            requires
                x == inc * sum_u64(rest),
                y == inc * b,
                inc >= 0,
                sum_u64(rest) >= 0,
                b >= 0,
        ;
        assert(x + y == inc * sum_u64(balances)) by (nonlinear_arith)
            requires
                x == inc * sum_u64(rest),
                y == inc * b,
                sum_u64(balances) == sum_u64(rest) + b,
        ;
        lemma_floor_add(x, y, scale());
        if inc == 0 {
            assert(stake_reward(old_factor + inc, old_factor, b) == 0);
        }
    }
}

/// Law: in one collection, the stakers of a boost are together credited no more than the
/// boost's weighted growth — whatever their balances, as long as those add up to at most the
/// boost's total deposits.
pub proof fn law_stakers_share_within_boost_growth(
    global: int,
    last: int,
    weight: u64,
    total_deposits: u64,
    boost_factor: int,
    balances: Seq<u64>,
)
    requires
        sum_u64(balances) <= total_deposits,
    ensures
        sum_stake_rewards(
            boost_factor + boost_increment(global, last, weight, total_deposits),
            boost_factor,
            balances,
        ) <= if global > last {
            ((global - last) * weight) / scale()
        } else {
            0
        },
{
    let inc = boost_increment(global, last, weight, total_deposits);
    lemma_sum_nonneg(balances);
    if global > last && total_deposits > 0 {
        let g = (global - last) * weight;
        assert(g >= 0) by (nonlinear_arith)
            requires
                g == (global - last) * weight,
                global > last,
                weight >= 0,
        ;
        vstd::arithmetic::div_mod::lemma_div_pos_is_pos(g, total_deposits as int);
        lemma_stake_rewards_bound(boost_factor, inc, balances);
        vstd::arithmetic::div_mod::lemma_fundamental_div_mod(g, total_deposits as int);
        vstd::arithmetic::div_mod::lemma_remainder_lower(g, total_deposits as int);
        assert(inc * sum_u64(balances) <= g) by (nonlinear_arith)
            requires
                inc >= 0,
                sum_u64(balances) <= total_deposits,
                g == total_deposits * inc + g % (total_deposits as int),
                g % (total_deposits as int) >= 0,
        ;
        assert(inc * sum_u64(balances) >= 0) by (nonlinear_arith)
            requires
                inc >= 0,
                sum_u64(balances) >= 0,
        ;
        vstd::arithmetic::div_mod::lemma_div_is_ordered(inc * sum_u64(balances), g, scale());
    } else {
        lemma_stake_rewards_bound(boost_factor, 0, balances);
        assert(0 * sum_u64(balances) == 0);
    }
}

/// Law: in one collection, the weighted growth handed to boosts whose weights add up to at
/// most the total weight never exceeds the collected proof balance.
pub proof fn law_boosts_share_within_collected(config: Config, proof_balance: u64, weights: Seq<u64>)
    requires
        sum_u64(weights) <= config.total_weight,
    ensures
        (config.collected_rewards_factor(proof_balance) - config.rewards_factor.bits) * sum_u64(weights)
            <= proof_balance * scale(),
{
    lemma_sum_nonneg(weights);
    if config.total_weight > 0 {
        let n = proof_balance * scale();
        let tw = config.total_weight as int;
        let delta = n / tw;
        assert(n >= 0) by (nonlinear_arith)
            requires
                n == proof_balance * scale(),
        ;
        vstd::arithmetic::div_mod::lemma_div_pos_is_pos(n, tw);
        vstd::arithmetic::div_mod::lemma_fundamental_div_mod(n, tw);
        vstd::arithmetic::div_mod::lemma_remainder_lower(n, tw);
        assert(delta * sum_u64(weights) <= n) by (nonlinear_arith)
            requires
                delta >= 0,
                sum_u64(weights) <= tw,
                n == tw * delta + n % tw,
                n % tw >= 0,
        ;
    } else {
        assert(0 * sum_u64(weights) == 0);
        assert(proof_balance * scale() >= 0) by (nonlinear_arith);
    }
}

} // verus!
