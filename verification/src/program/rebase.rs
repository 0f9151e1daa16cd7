//! Rebase: the checkpoint run that commits pending stake and pays out a boost's rewards by stake weight.
use vstd::prelude::*;

use crate::error::ProgramError;
use crate::pubkey::Pubkey;
use crate::state::checkpoint::Checkpoint;
use crate::state::rewards::sum_u64;

verus! {

/// The boost fields a checkpoint run reads and writes.
#[derive(Clone, Copy, Debug)]
pub struct RebaseBoost {
    /// Nonzero while a checkpoint is in progress.
    pub locked: u64,
    /// The committed deposits.
    pub total_deposits: u64,
    /// The number of stakers.
    pub total_stakers: u64,
}

/// The checkpoint, with the rewards it distributes.
#[derive(Clone, Copy, Debug)]
pub struct RebaseCheckpoint {
    /// The checkpoint proper; its pending stake is the stake committed during the run.
    pub checkpoint: Checkpoint,
    /// The rewards this run distributes.
    pub total_rewards: u64,
}

/// The stake fields a checkpoint run reads and writes.
#[derive(Clone, Copy, Debug)]
pub struct RebaseStake {
    /// The boost of the stake.
    pub boost: Pubkey,
    /// The position of the stake in the run.
    pub id: u64,
    /// The committed balance.
    pub balance: u64,
    /// Deposits waiting for the next checkpoint.
    pub balance_pending: u64,
    /// Claimable rewards.
    pub rewards: u64,
}

/// A staker's share of a run's rewards: proportional to its committed balance, rounded down,
/// and cut to 64 bits.
pub open spec fn staker_share(total_rewards: u64, balance: u64, total_deposits: u64) -> u64 {
    ((total_rewards * balance) / (total_deposits as int)) as u64
}

/// What `process_rebase` needs in order not to overflow.
pub open spec fn rebase_fits(boost: RebaseBoost, cp: RebaseCheckpoint, stake: RebaseStake, proof_balance: u64) -> bool {
    let c = cp.checkpoint;
    let tr = if c.current_id == 0 { proof_balance } else { cp.total_rewards };
    let processes = boost.total_stakers > 0 && stake.id == c.current_id;
    let pays = processes && c.current_id < c.total_stakers && boost.total_deposits > 0;
    let pending = if processes { c.total_pending_stake + stake.balance_pending } else { c.total_pending_stake as int };
    &&& pays ==> stake.rewards + staker_share(tr, stake.balance, boost.total_deposits) <= u64::MAX
    &&& processes ==> c.total_pending_stake + stake.balance_pending <= u64::MAX
    &&& processes ==> stake.balance + stake.balance_pending <= u64::MAX
    &&& (boost.total_stakers == 0 || processes) ==> {
        &&& c.current_id < u64::MAX
        &&& c.current_id + 1 >= boost.total_stakers ==> boost.total_deposits + pending <= u64::MAX
    }
}

/// What `process_rebase` leaves and returns: `boost`, `cp` and `stake` are the accounts
/// after the call on `old_boost`, `old_cp` and `old_stake`, and `r` is its result.
pub open spec fn rebased(
    boost_address: Pubkey,
    signed: bool,
    proof_authority: Pubkey,
    old_boost: RebaseBoost,
    old_cp: RebaseCheckpoint,
    old_stake: RebaseStake,
    proof_balance: u64,
    now: i64,
    boost: RebaseBoost,
    cp: RebaseCheckpoint,
    stake: RebaseStake,
    r: Result<Option<u64>, ProgramError>,
) -> bool {
        let c = old_cp.checkpoint;
        let valid = signed && proof_authority == boost_address && c.boost == boost_address && now > c.ts && (
        old_boost.total_stakers > 0 ==> old_stake.boost == boost_address);
        let kickoff = c.current_id == 0;
        let tr = if kickoff { proof_balance } else { old_cp.total_rewards };
        let locked = if kickoff { 1 } else { old_boost.locked };
        let skipped = old_boost.total_stakers > 0 && old_stake.id != c.current_id;
        let processes = old_boost.total_stakers > 0 && !skipped;
        let pays = processes && c.current_id < c.total_stakers && old_boost.total_deposits > 0;
        let pending = if processes {
            c.total_pending_stake + old_stake.balance_pending
        } else {
            c.total_pending_stake as int
        };
        let next_id = c.current_id + 1;
        let finalizes = !skipped && next_id >= old_boost.total_stakers;
        &&& !signed ==> r == Err::<Option<u64>, ProgramError>(ProgramError::MissingRequiredSignature)
        &&& signed ==> (!valid <==> r == Err::<Option<u64>, ProgramError>(ProgramError::InvalidAccountData))
        &&& !valid ==> boost == old_boost && cp == old_cp
            && stake == old_stake
        &&& valid ==> {
            &&& r == Ok::<Option<u64>, ProgramError>(
                if kickoff {
                    Some(proof_balance)
                } else {
                    None
                },
            )
            &&& cp.total_rewards == if finalizes {
                0
            } else {
                tr
            }
            &&& boost.locked == if finalizes {
                0
            } else {
                locked
            }
            &&& stake.rewards == if pays {
                old_stake.rewards + staker_share(tr, old_stake.balance, old_boost.total_deposits)
            } else {
                old_stake.rewards as int
            }
            &&& stake.balance == if processes {
                old_stake.balance + old_stake.balance_pending
            } else {
                old_stake.balance as int
            }
            &&& stake.balance_pending == if processes {
                0
            } else {
                old_stake.balance_pending
            }
            &&& stake.id == old_stake.id
            &&& stake.boost == old_stake.boost
            &&& boost.total_stakers == old_boost.total_stakers
            &&& boost.total_deposits == if finalizes {
                old_boost.total_deposits + pending
            } else {
                old_boost.total_deposits as int
            }
            &&& cp.checkpoint.boost == c.boost
            &&& cp.checkpoint.current_id == if skipped {
                c.current_id as int
            } else if finalizes {
                0
            } else {
                next_id
            }
            &&& cp.checkpoint.total_pending_stake == if finalizes {
                0
            } else {
                pending
            }
            &&& cp.checkpoint.total_stakers == if finalizes {
                old_boost.total_stakers
            } else {
                c.total_stakers
            }
            &&& cp.checkpoint.ts == if finalizes {
                now
            } else {
                c.ts
            }
        }
}

/// Rebase processes one stake account of a boost's checkpoint run.
///
/// Fails with `MissingRequiredSignature` when the signer did not sign, and with
/// `InvalidAccountData` when the boost's proof belongs to another account than the boost, the
/// checkpoint belongs to another boost or is not older than `now`, or (when the boost has
/// stakers) the stake belongs to another boost.
/// The first call of a run locks the boost, records the boost's proof balance as the rewards
/// to distribute and asks for them to be claimed (returned as `Some(amount)`). A stake that is
/// not the next in the run changes nothing more. The next stake gets its share of the rewards
/// and has its pending stake committed; after the last one, the run is finalized: the boost
/// is unlocked and takes the committed stake, and the checkpoint is reset and stamped.
pub fn process_rebase(
    boost_address: &Pubkey,
    signed: bool,
    proof_authority: &Pubkey,
    boost: &mut RebaseBoost,
    checkpoint: &mut RebaseCheckpoint,
    stake: &mut RebaseStake,
    proof_balance: u64,
    now: i64,
) -> (r: Result<Option<u64>, ProgramError>)
    requires
        rebase_fits(*old(boost), *old(checkpoint), *old(stake), proof_balance),
    ensures
        rebased(
            *boost_address,
            signed,
            *proof_authority,
            *old(boost),
            *old(checkpoint),
            *old(stake),
            proof_balance,
            now,
            *final(boost),
            *final(checkpoint),
            *final(stake),
            r,
        ),
{
    if !signed {
        return Err(ProgramError::MissingRequiredSignature);
    }
    if !(*proof_authority == *boost_address) {
        return Err(ProgramError::InvalidAccountData);
    }
    if !(checkpoint.checkpoint.boost == *boost_address) || !(now > checkpoint.checkpoint.ts) {
        return Err(ProgramError::InvalidAccountData);
    }
    if boost.total_stakers > 0 && !(stake.boost == *boost_address) {
        return Err(ProgramError::InvalidAccountData);
    }
    // Kickoff checkpoint.
    let mut claim = None;
    if checkpoint.checkpoint.current_id == 0 {
        // Lock the boost.
        boost.locked = 1;
        // Record the total rewards to distribute.
        checkpoint.total_rewards = proof_balance;
        // Claim staking rewards for this boost.
        claim = Some(proof_balance);
    }
    // Process stake account if it exists.
    if boost.total_stakers > 0 {
        // Silently return if the provided stake account is not the expected stake account.
        if stake.id != checkpoint.checkpoint.current_id {
            return Ok(claim);
        }
        // Distribute staker rewards according to stake weight.
        if checkpoint.checkpoint.current_id < checkpoint.checkpoint.total_stakers && boost.total_deposits > 0 {
            proof {
                assert(checkpoint.total_rewards * stake.balance <= u64::MAX * u64::MAX) by (nonlinear_arith)
                    requires
                        checkpoint.total_rewards <= u64::MAX,
                        stake.balance <= u64::MAX,
                ;
            }
            let product = (checkpoint.total_rewards as u128) * (stake.balance as u128);
            let rewards = #[verifier::truncate] ((product / (boost.total_deposits as u128)) as u64);
            stake.rewards = stake.rewards + rewards;
        }
        // Commit pending stake.
        checkpoint.checkpoint.total_pending_stake = checkpoint.checkpoint.total_pending_stake + stake.balance_pending;
        stake.balance = stake.balance + stake.balance_pending;
        stake.balance_pending = 0;
    }
    // Increment the current id.
    checkpoint.checkpoint.current_id = checkpoint.checkpoint.current_id + 1;
    // Finalize the checkpoint.
    if checkpoint.checkpoint.current_id >= boost.total_stakers {
        boost.locked = 0;
        boost.total_deposits = boost.total_deposits + checkpoint.checkpoint.total_pending_stake;
        checkpoint.checkpoint.current_id = 0;
        checkpoint.checkpoint.total_pending_stake = 0;
        checkpoint.total_rewards = 0;
        checkpoint.checkpoint.total_stakers = boost.total_stakers;
        checkpoint.checkpoint.ts = now;
    }
    Ok(claim)
}

/// The rewards a run hands to stakes with the given balances.
pub open spec fn run_payout(total_rewards: u64, balances: Seq<u64>, total_deposits: u64) -> int
    decreases balances.len(),
{
    if balances.len() == 0 {
        0
    } else {
        run_payout(total_rewards, balances.drop_last(), total_deposits) + (total_rewards
            * balances.last()) / (total_deposits as int)
    }
}

proof fn lemma_run_payout_bound(total_rewards: u64, balances: Seq<u64>, total_deposits: u64)
    requires
        total_deposits > 0,
    ensures
        run_payout(total_rewards, balances, total_deposits) <= (total_rewards * sum_u64(balances))
            / (total_deposits as int),
    decreases balances.len(),
{
    if balances.len() > 0 {
        let rest = balances.drop_last();
        lemma_run_payout_bound(total_rewards, rest, total_deposits);
        crate::state::rewards::lemma_sum_nonneg(rest);
        let x = total_rewards * sum_u64(rest);
        let y = total_rewards * balances.last();
        assert(x >= 0 && y >= 0) by (nonlinear_arith)
            requires
                x == total_rewards * sum_u64(rest),
                y == total_rewards * balances.last(),
                sum_u64(rest) >= 0,
        ;
        assert(x + y == total_rewards * sum_u64(balances)) by (nonlinear_arith)
            requires
                x == total_rewards * sum_u64(rest),
                y == total_rewards * balances.last(),
                sum_u64(balances) == sum_u64(rest) + balances.last(),
        ;
        crate::state::rewards::lemma_floor_add(x, y, total_deposits as int);
    }
}

/// Law: a checkpoint run never pays out more than the rewards it distributes, when the
/// stakes' committed balances add up to at most the boost's deposits.
pub proof fn law_run_pays_at_most_rewards(total_rewards: u64, balances: Seq<u64>, total_deposits: u64)
    requires
        total_deposits > 0,
        sum_u64(balances) <= total_deposits,
    ensures
        run_payout(total_rewards, balances, total_deposits) <= total_rewards,
{
    lemma_run_payout_bound(total_rewards, balances, total_deposits);
    crate::state::rewards::lemma_sum_nonneg(balances);
    assert(total_rewards * sum_u64(balances) <= total_rewards * total_deposits) by (nonlinear_arith)
        requires
            sum_u64(balances) <= total_deposits,
            sum_u64(balances) >= 0,
    ;
    assert(total_rewards * sum_u64(balances) >= 0) by (nonlinear_arith)
        requires
            sum_u64(balances) >= 0,
    ;
    vstd::arithmetic::div_mod::lemma_div_is_ordered(
        total_rewards * sum_u64(balances),
        total_rewards * total_deposits,
        total_deposits as int,
    );
    vstd::arithmetic::div_mod::lemma_div_by_multiple(total_rewards as int, total_deposits as int);
}

/// The boost is locked exactly while a checkpoint run is under way.
pub open spec fn lock_follows_run(boost: RebaseBoost, cp: RebaseCheckpoint) -> bool {
    (boost.locked == 1) == (cp.checkpoint.current_id > 0)
}

/// Law: a rebase that processes the expected stake (or runs without stakers) keeps the boost
/// locked exactly while the run is under way; once the next id reaches the number of stakers
/// the run is finalized: the boost is unlocked and takes the committed stake, and the
/// checkpoint is reset and stamped.
pub proof fn law_rebase_keeps_lock(
    boost_address: Pubkey,
    old_boost: RebaseBoost,
    old_cp: RebaseCheckpoint,
    old_stake: RebaseStake,
    proof_balance: u64,
    now: i64,
    boost: RebaseBoost,
    cp: RebaseCheckpoint,
    stake: RebaseStake,
    r: Result<Option<u64>, ProgramError>,
)
    requires
        rebased(boost_address, true, boost_address, old_boost, old_cp, old_stake, proof_balance, now, boost, cp, stake, r),
        lock_follows_run(old_boost, old_cp),
        r is Ok,
        old_boost.total_stakers == 0 || old_stake.id == old_cp.checkpoint.current_id,
    ensures
        lock_follows_run(boost, cp),
        old_cp.checkpoint.current_id + 1 >= old_boost.total_stakers ==> {
            &&& boost.locked == 0
            &&& boost.total_deposits == old_boost.total_deposits + old_cp.checkpoint.total_pending_stake + (
            if old_boost.total_stakers > 0 {
                old_stake.balance_pending as int
            } else {
                0
            })
            &&& cp.checkpoint.current_id == 0
            &&& cp.checkpoint.total_pending_stake == 0
            &&& cp.total_rewards == 0
            &&& cp.checkpoint.total_stakers == old_boost.total_stakers
            &&& cp.checkpoint.ts == now
        },
{
}

/// The rewards the stakes gained over the first `k` calls of a run.
pub open spec fn run_gain(olds: Seq<RebaseStake>, news: Seq<RebaseStake>, k: int) -> int
    decreases k,
{
    if k <= 0 {
        0
    } else {
        run_gain(olds, news, k - 1) + news[k - 1].rewards - olds[k - 1].rewards
    }
}

/// The pending stake of the first `k` stakes.
pub open spec fn pending_sum(stakes: Seq<RebaseStake>, k: int) -> int
    decreases k,
{
    if k <= 0 {
        0
    } else {
        pending_sum(stakes, k - 1) + stakes[k - 1].balance_pending
    }
}

/// The committed balances of the stakes.
pub open spec fn balances_of(stakes: Seq<RebaseStake>) -> Seq<u64> {
    stakes.map_values(|st: RebaseStake| st.balance)
}

/// A complete checkpoint run: call `i` rebases stake `olds[i]` (whose id is `i`) from the
/// accounts `boosts[i]` and `cps[i]` into `boosts[i + 1]`, `cps[i + 1]` and `news[i]`,
/// succeeding; the run starts at id 0, and the boost has one staker per call.
pub open spec fn checkpoint_run(
    boost_address: Pubkey,
    boosts: Seq<RebaseBoost>,
    cps: Seq<RebaseCheckpoint>,
    olds: Seq<RebaseStake>,
    news: Seq<RebaseStake>,
    proof_balances: Seq<u64>,
    nows: Seq<i64>,
    results: Seq<Result<Option<u64>, ProgramError>>,
) -> bool {
    let n = olds.len();
    &&& n > 0
    &&& boosts.len() == n + 1 && cps.len() == n + 1
    &&& news.len() == n && proof_balances.len() == n && nows.len() == n && results.len() == n
    &&& cps[0].checkpoint.current_id == 0
    &&& boosts[0].total_stakers == n
    &&& forall|i: int| 0 <= i < n ==> (#[trigger] olds[i]).id == i
    &&& forall|i: int| 0 <= i < n ==> (#[trigger] results[i]) is Ok
    &&& forall|i: int|
        0 <= i < n ==> #[trigger] rebased(
            boost_address,
            true,
            boost_address,
            boosts[i],
            cps[i],
            olds[i],
            proof_balances[i],
            nows[i],
            boosts[i + 1],
            cps[i + 1],
            news[i],
            results[i],
        )
}

proof fn lemma_elem_le_sum(s: Seq<u64>, i: int)
    requires
        0 <= i < s.len(),
    ensures
        s[i] <= sum_u64(s),
    decreases s.len(),
{
    crate::state::rewards::lemma_sum_nonneg(s.drop_last());
    if i < s.len() - 1 {
        lemma_elem_le_sum(s.drop_last(), i);
    }
}

proof fn lemma_run_prefix(
    boost_address: Pubkey,
    boosts: Seq<RebaseBoost>,
    cps: Seq<RebaseCheckpoint>,
    olds: Seq<RebaseStake>,
    news: Seq<RebaseStake>,
    proof_balances: Seq<u64>,
    nows: Seq<i64>,
    results: Seq<Result<Option<u64>, ProgramError>>,
    k: int,
)
    requires
        checkpoint_run(boost_address, boosts, cps, olds, news, proof_balances, nows, results),
        sum_u64(balances_of(olds)) <= boosts[0].total_deposits,
        0 <= k <= olds.len(),
    ensures
        run_gain(olds, news, k) <= if boosts[0].total_deposits > 0 {
            run_payout(proof_balances[0], balances_of(olds).take(k), boosts[0].total_deposits)
        } else {
            0
        },
        k < olds.len() ==> {
            &&& cps[k].checkpoint.current_id == k
            &&& boosts[k].total_deposits == boosts[0].total_deposits
            &&& boosts[k].total_stakers == olds.len()
            &&& k > 0 ==> cps[k].total_rewards == proof_balances[0]
            &&& cps[k].checkpoint.total_pending_stake == cps[0].checkpoint.total_pending_stake
                + pending_sum(olds, k)
        },
    decreases k,
{
    let n = olds.len() as int;
    let r0 = proof_balances[0];
    let d = boosts[0].total_deposits;
    let bal = balances_of(olds);
    if k == 0 {
        assert(bal.take(0) =~= Seq::<u64>::empty());
    } else {
        let j = k - 1;
        lemma_run_prefix(boost_address, boosts, cps, olds, news, proof_balances, nows, results, j);
        assert(olds[j].id == j);
        assert(results[j] is Ok);
        assert(rebased(
            boost_address,
            true,
            boost_address,
            boosts[j],
            cps[j],
            olds[j],
            proof_balances[j],
            nows[j],
            boosts[j + 1],
            cps[j + 1],
            news[j],
            results[j],
        ));
        assert(bal.take(k).drop_last() =~= bal.take(j));
        assert(bal.take(k).last() == olds[j].balance);
        let b = olds[j].balance;
        assert(bal[j] == b);
        lemma_elem_le_sum(bal, j);
        let c = cps[j].checkpoint;
        assert(c.current_id == j);
        let tr = if c.current_id == 0 { proof_balances[j] } else { cps[j].total_rewards };
        assert(tr == r0);
        assert(boosts[j].total_deposits == d);
        if d > 0 {
            assert(r0 * b <= r0 * d) by (nonlinear_arith)
                requires
                    b <= d,
            ;
            assert(r0 * b >= 0) by (nonlinear_arith);
            vstd::arithmetic::div_mod::lemma_div_is_ordered(r0 * b, r0 * d, d as int);
            vstd::arithmetic::div_mod::lemma_div_by_multiple(r0 as int, d as int);
            vstd::arithmetic::div_mod::lemma_div_pos_is_pos(r0 * b, d as int);
            assert(staker_share(r0, b, d) == (r0 * b) / (d as int));
            assert(run_payout(r0, bal.take(k), d) == run_payout(r0, bal.take(j), d) + (r0 * b) / (d as int));
        }
    }
}

/// Law: a complete checkpoint run, made of `process_rebase` calls on the stakes in id order,
/// credits the stakes together at most the rewards recorded at its start (the proof balance
/// at the first call), when the stakes' committed balances add up to at most the boost's
/// deposits; at its end the boost is unlocked and has taken all the stake that was pending,
/// and the checkpoint is reset.
pub proof fn law_checkpoint_run_pays_at_most_recorded(
    boost_address: Pubkey,
    boosts: Seq<RebaseBoost>,
    cps: Seq<RebaseCheckpoint>,
    olds: Seq<RebaseStake>,
    news: Seq<RebaseStake>,
    proof_balances: Seq<u64>,
    nows: Seq<i64>,
    results: Seq<Result<Option<u64>, ProgramError>>,
)
    requires
        checkpoint_run(boost_address, boosts, cps, olds, news, proof_balances, nows, results),
        sum_u64(balances_of(olds)) <= boosts[0].total_deposits,
    ensures
        run_gain(olds, news, olds.len() as int) <= proof_balances[0],
        boosts[olds.len() as int].total_deposits == boosts[0].total_deposits
            + cps[0].checkpoint.total_pending_stake + pending_sum(olds, olds.len() as int),
        boosts[olds.len() as int].locked == 0,
        cps[olds.len() as int].checkpoint.current_id == 0,
        cps[olds.len() as int].checkpoint.total_pending_stake == 0,
        cps[olds.len() as int].total_rewards == 0,
{
    let n = olds.len() as int;
    lemma_run_prefix(boost_address, boosts, cps, olds, news, proof_balances, nows, results, n);
    lemma_run_prefix(boost_address, boosts, cps, olds, news, proof_balances, nows, results, n - 1);
    let m = n - 1;
    assert(olds[m].id == m);
    assert(results[m] is Ok);
    assert(rebased(
        boost_address,
        true,
        boost_address,
        boosts[m],
        cps[m],
        olds[m],
        proof_balances[m],
        nows[m],
        boosts[m + 1],
        cps[m + 1],
        news[m],
        results[m],
    ));
    assert(balances_of(olds).take(n) =~= balances_of(olds));
    if boosts[0].total_deposits > 0 {
        law_run_pays_at_most_rewards(proof_balances[0], balances_of(olds), boosts[0].total_deposits);
    }
}

} // verus!
