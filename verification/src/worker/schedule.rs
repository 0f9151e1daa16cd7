//! When the checkpoint worker acts, on which stake accounts, and how its loop proceeds.
use vstd::prelude::*;

use crate::consts::CHECKPOINT_INTERVAL;
use crate::pubkey::Pubkey;
use crate::state::checkpoint::Checkpoint;
use crate::worker::bundle::{WorkerError, bytes_eq};

verus! {

broadcast use vstd::array::group_array_axioms;

/// Checks that a checkpoint interval has passed since the last checkpoint.
pub fn check_for_time(now: i64, last_checkpoint_at: i64) -> (r: Result<(), WorkerError>)
    requires
        i64::MIN <= now - last_checkpoint_at <= i64::MAX,
    ensures
        now - last_checkpoint_at < CHECKPOINT_INTERVAL <==> r == Err::<(), WorkerError>(WorkerError::ClockStillTicking),
        now - last_checkpoint_at >= CHECKPOINT_INTERVAL <==> r is Ok,
{
    let time_since_last = now - last_checkpoint_at;
    if time_since_last < CHECKPOINT_INTERVAL {
        return Err(WorkerError::ClockStillTicking);
    }
    Ok(())
}

/// The ids in non-decreasing order.
pub open spec fn sorted_by_id(s: Seq<(Pubkey, u64)>) -> bool {
    forall|i: int, j: int| 0 <= i < j < s.len() ==> s[i].1 <= s[j].1
}

/// `pos` tells where each entry of `r` comes from in `s`, and entries with equal ids come in
/// the order they have in `s`.
pub open spec fn stable_from(r: Seq<(Pubkey, u64)>, s: Seq<(Pubkey, u64)>, pos: Seq<int>) -> bool {
    &&& pos.len() == r.len()
    &&& forall|k: int| 0 <= k < pos.len() ==> 0 <= #[trigger] pos[k] < s.len() && r[k] == s[pos[k]]
    &&& forall|k: int, l: int| 0 <= k < l < pos.len() && r[k].1 == r[l].1 ==> #[trigger] pos[k] < #[trigger] pos[l]
}

/// The stake accounts whose id is at least `current_id`, sorted by id (accounts with equal
/// ids keep their order).
fn sorted_from(stake_accounts: &Vec<(Pubkey, u64)>, current_id: u64) -> (r: Vec<(Pubkey, u64)>)
    ensures
        sorted_by_id(r@),
        r@.to_multiset() == stake_accounts@.filter(|a: (Pubkey, u64)| a.1 >= current_id).to_multiset(),
        exists|pos: Seq<int>| stable_from(r@, stake_accounts@, pos),
{
    let mut out: Vec<(Pubkey, u64)> = Vec::new();
    let mut i: usize = 0;
    let ghost keep = |a: (Pubkey, u64)| a.1 >= current_id;
    let ghost mut pos: Seq<int> = Seq::empty();
    proof {
        assert(stake_accounts@.take(0).filter(keep) =~= Seq::<(Pubkey, u64)>::empty());
    }
    while i < stake_accounts.len()
        invariant
            0 <= i <= stake_accounts@.len(),
            keep == (|a: (Pubkey, u64)| a.1 >= current_id),
            sorted_by_id(out@),
            out@.to_multiset() == stake_accounts@.take(i as int).filter(keep).to_multiset(),
            stable_from(out@, stake_accounts@, pos),
            forall|k: int| 0 <= k < pos.len() ==> #[trigger] pos[k] < i,
        decreases stake_accounts.len() - i,
    {
        let item = stake_accounts[i];
        proof {
            reveal_with_fuel(Seq::<_>::filter, 1);
            assert(stake_accounts@.take(i + 1).drop_last() =~= stake_accounts@.take(i as int));
        }
        if item.1 >= current_id {
            // insert after the entries with an id not above it, keeping the order stable
            let mut at: usize = out.len();
            while at > 0 && out[at - 1].1 > item.1
                invariant
                    0 <= at <= out@.len(),
                    sorted_by_id(out@),
                    forall|k: int| at <= k < out@.len() ==> out@[k].1 > item.1,
                decreases at,
            {
                at -= 1;
            }
            let ghost before = out@;
            let ghost before_pos = pos;
            out.insert(at, item);
            proof {
                pos = before_pos.insert(at as int, i as int);
                assert(out@ =~= before.insert(at as int, item));
                vstd::seq_lib::to_multiset_insert(before, at as int, item);
                let f = stake_accounts@.take(i as int).filter(keep);
                assert(stake_accounts@.take(i + 1).filter(keep) =~= f.push(item));
                vstd::seq_lib::to_multiset_build(f, item);
                assert forall|a: int, b: int| 0 <= a < b < out@.len() implies out@[a].1 <= out@[b].1 by {
                    if a < at && b == at {
                        assert(before[a].1 <= before[at - 1].1);
                    } else if a == at && b > at {
                        assert(out@[b] == before[b - 1]);
                    } else if a < at && b > at {
                        assert(out@[b] == before[b - 1]);
                    } else if a > at {
                        assert(out@[a] == before[a - 1]);
                        assert(out@[b] == before[b - 1]);
                    }
                }
                assert forall|k: int| 0 <= k < pos.len() implies 0 <= #[trigger] pos[k] < stake_accounts@.len()
                    && out@[k] == stake_accounts@[pos[k]] by {
                    if k > at {
                        assert(pos[k] == before_pos[k - 1]);
                        assert(out@[k] == before[k - 1]);
                    }
                }
                assert forall|k: int, l: int| 0 <= k < l < pos.len() && out@[k].1 == out@[l].1
                    implies #[trigger] pos[k] < #[trigger] pos[l] by {
                    if k < at && l == at {
                        assert(before_pos[k] < i);
                    } else if k == at && l > at {
                        assert(out@[l] == before[l - 1]);
                    } else if k < at && l > at {
                        assert(pos[l] == before_pos[l - 1]);
                        assert(out@[l] == before[l - 1]);
                    } else if k > at {
                        assert(pos[k] == before_pos[k - 1]);
                        assert(pos[l] == before_pos[l - 1]);
                        assert(out@[k] == before[k - 1]);
                        assert(out@[l] == before[l - 1]);
                    }
                }
                assert forall|k: int| 0 <= k < pos.len() implies #[trigger] pos[k] < i + 1 by {
                    if k > at {
                        assert(pos[k] == before_pos[k - 1]);
                    } else if k < at {
                        assert(pos[k] == before_pos[k]);
                    }
                }
            }
        } else {
            assert(stake_accounts@.take(i + 1).filter(keep) =~= stake_accounts@.take(i as int).filter(keep));
        }
        i += 1;
    }
    assert(stake_accounts@.take(stake_accounts@.len() as int) =~= stake_accounts@);
    out
}

/// The addresses of the accounts whose id is at least `current_id`, in order.
pub open spec fn remaining_keys(s: Seq<(Pubkey, u64)>, current_id: u64) -> Seq<Pubkey>
    decreases s.len(),
{
    if s.len() == 0 {
        Seq::empty()
    } else if s.last().1 >= current_id {
        remaining_keys(s.drop_last(), current_id).push(s.last().0)
    } else {
        remaining_keys(s.drop_last(), current_id)
    }
}

proof fn lemma_filter_all(s: Seq<(Pubkey, u64)>)
    ensures
        s.filter(|a: (Pubkey, u64)| a.1 >= 0u64) == s,
    decreases s.len(),
{
    reveal_with_fuel(Seq::<_>::filter, 1);
    if s.len() > 0 {
        lemma_filter_all(s.drop_last());
        assert(s.drop_last().push(s.last()) =~= s);
    }
}

/// Sorts the stake accounts by id in place (accounts with equal ids keep their order) and
/// returns the addresses of those a checkpoint still has to process: the ones whose id is at
/// least the checkpoint's current id, in that order.
pub fn remaining_stake_accounts(stake_accounts: &mut Vec<(Pubkey, u64)>, current_id: u64) -> (r: Vec<Pubkey>)
    ensures
        sorted_by_id(final(stake_accounts)@),
        final(stake_accounts)@.to_multiset() == old(stake_accounts)@.to_multiset(),
        exists|pos: Seq<int>| stable_from(final(stake_accounts)@, old(stake_accounts)@, pos),
        r@ == remaining_keys(final(stake_accounts)@, current_id),
{
    let sorted = sorted_from(stake_accounts, 0);
    proof {
        lemma_filter_all(old(stake_accounts)@);
    }
    *stake_accounts = sorted;
    let mut out: Vec<Pubkey> = Vec::new();
    let mut i: usize = 0;
    while i < stake_accounts.len()
        invariant
            0 <= i <= stake_accounts@.len(),
            out@ == remaining_keys(stake_accounts@.take(i as int), current_id),
        decreases stake_accounts.len() - i,
    {
        assert(stake_accounts@.take(i + 1).drop_last() =~= stake_accounts@.take(i as int));
        if stake_accounts[i].1 >= current_id {
            out.push(stake_accounts[i].0);
        }
        i += 1;
    }
    assert(stake_accounts@.take(stake_accounts@.len() as int) =~= stake_accounts@);
    out
}

/// Solana clusters the worker can run against.
#[derive(Clone, Copy, Debug, PartialEq, Eq, Structural)]
pub enum HeliusCluster {
    MainnetBeta,
    StakedMainnetBeta,
    Devnet,
}

/// `mainnet`
pub const MAINNET: [u8; 7] = [109, 97, 105, 110, 110, 101, 116];
/// `mainnet-staked`
pub const MAINNET_STAKED: [u8; 14] = [109, 97, 105, 110, 110, 101, 116, 45, 115, 116, 97, 107, 101, 100];
/// `devnet`
pub const DEVNET: [u8; 6] = [100, 101, 118, 110, 101, 116];

/// The cluster a name stands for.
pub fn helius_cluster(name: &[u8]) -> (r: Result<HeliusCluster, WorkerError>)
    ensures
        name@ == MAINNET@ ==> r == Ok::<HeliusCluster, WorkerError>(HeliusCluster::MainnetBeta),
        name@ == MAINNET_STAKED@ ==> r == Ok::<HeliusCluster, WorkerError>(HeliusCluster::StakedMainnetBeta),
        name@ == DEVNET@ ==> r == Ok::<HeliusCluster, WorkerError>(HeliusCluster::Devnet),
        name@ != MAINNET@ && name@ != MAINNET_STAKED@ && name@ != DEVNET@ ==> r == Err::<HeliusCluster, WorkerError>(
            WorkerError::InvalidHeliusCluster,
        ),
{
    assert(MAINNET@.len() == 7 && MAINNET_STAKED@.len() == 14 && DEVNET@.len() == 6);
    assert(MAINNET@ != MAINNET_STAKED@ && MAINNET@ != DEVNET@ && MAINNET_STAKED@ != DEVNET@);
    if bytes_eq(name, vstd::array::array_as_slice(&MAINNET)) {
        Ok(HeliusCluster::MainnetBeta)
    } else if bytes_eq(name, vstd::array::array_as_slice(&MAINNET_STAKED)) {
        Ok(HeliusCluster::StakedMainnetBeta)
    } else if bytes_eq(name, vstd::array::array_as_slice(&DEVNET)) {
        Ok(HeliusCluster::Devnet)
    } else {
        Err(WorkerError::InvalidHeliusCluster)
    }
}


/// Consecutive failed iterations after which the admin is notified.
pub const MAX_ATTEMPTS: u64 = 10;

/// Where the worker is within one iteration of its loop.
#[derive(Clone, Copy, Debug, PartialEq, Eq, Structural)]
pub enum Phase {
    /// About to start an iteration.
    Begin,
    /// Notifying the admin.
    Notifying,
    /// Fetching the boost.
    FetchingBoost,
    /// Fetching the stake accounts of a boost with this many stakers.
    FetchingStakes(u64),
    /// Fetching the checkpoint.
    FetchingCheckpoint,
    /// Syncing the lookup tables after a new checkpoint.
    Syncing,
    /// Fetching the clock.
    FetchingClock,
    /// Rebasing the remaining stake accounts.
    Rebasing,
    /// Pausing before the next iteration.
    Sleeping,
}

/// What the worker remembers between steps.
#[derive(Clone, Copy, Debug)]
pub struct WorkerState {
    /// Where the worker is.
    pub phase: Phase,
    /// Failed iterations since the last notification or success.
    pub attempt: u64,
    /// The number of stakers whose accounts the worker has fetched.
    pub total_stakers: u64,
    /// The last checkpoint fetched.
    pub checkpoint: Checkpoint,
}

/// What happened since the last step.
#[derive(Clone, Copy, Debug)]
pub enum Event {
    /// The pause is over (or the worker starts).
    Tick,
    /// The notification was sent, or failed.
    Notified(bool),
    /// The boost's number of stakers, or `None` when fetching failed.
    BoostFetched(Option<u64>),
    /// The stake accounts were fetched, or fetching failed.
    StakesFetched(bool),
    /// The checkpoint, or `None` when fetching failed.
    CheckpointFetched(Option<Checkpoint>),
    /// The lookup tables were synced, or syncing failed.
    Synced(bool),
    /// The cluster time, or `None` when fetching failed.
    ClockFetched(Option<i64>),
    /// The rebase of the remaining stake accounts succeeded, or failed.
    Rebased(bool),
}

/// What the worker does next.
#[derive(Clone, Copy, Debug, PartialEq, Eq, Structural)]
pub enum Action {
    Notify,
    FetchBoost,
    /// Fetch the stake accounts of the boost.
    FetchStakes,
    FetchCheckpoint,
    /// Sync the lookup tables with the stake accounts.
    SyncLookupTables,
    FetchClock,
    /// Rebase the stake accounts whose id is at least this one.
    Rebase(u64),
    /// Pause, then tick.
    Sleep,
}

/// The worker's state is sane: its failure count stays within the notification threshold,
/// and below it once an iteration is under way; a pending fetch of stake accounts is for
/// more stakers than the worker knows.
pub open spec fn worker_wf(state: WorkerState) -> bool {
    &&& state.attempt <= MAX_ATTEMPTS
    &&& (state.phase != Phase::Begin && state.phase != Phase::Sleeping ==> state.attempt < MAX_ATTEMPTS)
    &&& (state.phase matches Phase::FetchingStakes(n) ==> n > state.total_stakers)
}

/// The action that belongs to a phase.
fn phase_action(state: &WorkerState) -> (r: Action)
    ensures
        r == match state.phase {
            Phase::Begin => Action::Sleep,
            Phase::Notifying => Action::Notify,
            Phase::FetchingBoost => Action::FetchBoost,
            Phase::FetchingStakes(_) => Action::FetchStakes,
            Phase::FetchingCheckpoint => Action::FetchCheckpoint,
            Phase::Syncing => Action::SyncLookupTables,
            Phase::FetchingClock => Action::FetchClock,
            Phase::Rebasing => Action::Rebase(state.checkpoint.current_id),
            Phase::Sleeping => Action::Sleep,
        },
{
    match state.phase {
        Phase::Begin => Action::Sleep,
        Phase::Notifying => Action::Notify,
        Phase::FetchingBoost => Action::FetchBoost,
        Phase::FetchingStakes(_) => Action::FetchStakes,
        Phase::FetchingCheckpoint => Action::FetchCheckpoint,
        Phase::Syncing => Action::SyncLookupTables,
        Phase::FetchingClock => Action::FetchClock,
        Phase::Rebasing => Action::Rebase(state.checkpoint.current_id),
        Phase::Sleeping => Action::Sleep,
    }
}

/// A failed step: count it and pause.
pub open spec fn failed(state: WorkerState) -> WorkerState {
    WorkerState { phase: Phase::Sleeping, attempt: (state.attempt + 1) as u64, ..state }
}

/// One step of the checkpoint loop: from the worker's state and what just happened, the
/// next state and what to do.
///
/// An iteration notifies the admin first when `MAX_ATTEMPTS` iterations in a row have failed
/// (and starts counting again), fetches the boost, fetches the stake accounts when the boost
/// has more stakers than known, fetches the checkpoint (a checkpoint with a new timestamp has
/// completed: the failure count restarts and the lookup tables are synced again), fetches the
/// clock, and rebases the stake accounts from the checkpoint's current id once a checkpoint
/// interval has passed. Failing to fetch the boost, the stakes or the checkpoint, to sync, or
/// to rebase, counts as a failed iteration; a failed notification, a failed clock read or a
/// checkpoint that is not due only pause. Every iteration ends in a pause.
/// An event the current phase does not expect changes nothing.
pub fn step(state: WorkerState, event: Event) -> (r: (WorkerState, Action))
    requires
        worker_wf(state),
        event matches Event::ClockFetched(Some(now)) ==> i64::MIN <= now - state.checkpoint.ts <= i64::MAX,
    ensures
        worker_wf(r.0),
        r.0.total_stakers >= state.total_stakers,
        (match (state.phase, event) {
            (Phase::Begin, Event::Tick) => if state.attempt == MAX_ATTEMPTS {
                r == (WorkerState { phase: Phase::Notifying, attempt: 0, ..state }, Action::Notify)
            } else {
                r == (WorkerState { phase: Phase::FetchingBoost, ..state }, Action::FetchBoost)
            },
            (Phase::Sleeping, Event::Tick) => if state.attempt == MAX_ATTEMPTS {
                r == (WorkerState { phase: Phase::Notifying, attempt: 0, ..state }, Action::Notify)
            } else {
                r == (WorkerState { phase: Phase::FetchingBoost, ..state }, Action::FetchBoost)
            },
            (Phase::Notifying, Event::Notified(ok)) => if ok {
                r == (WorkerState { phase: Phase::FetchingBoost, ..state }, Action::FetchBoost)
            } else {
                r == (WorkerState { phase: Phase::Sleeping, ..state }, Action::Sleep)
            },
            (Phase::FetchingBoost, Event::BoostFetched(found)) => match found {
                None => r == (failed(state), Action::Sleep),
                Some(n) => if n > state.total_stakers {
                    r == (WorkerState { phase: Phase::FetchingStakes(n), ..state }, Action::FetchStakes)
                } else {
                    r == (WorkerState { phase: Phase::FetchingCheckpoint, ..state }, Action::FetchCheckpoint)
                },
            },
            (Phase::FetchingStakes(n), Event::StakesFetched(ok)) => if ok {
                r == (WorkerState { phase: Phase::FetchingCheckpoint, total_stakers: n, ..state }, Action::FetchCheckpoint)
            } else {
                r == (failed(state), Action::Sleep)
            },
            (Phase::FetchingCheckpoint, Event::CheckpointFetched(found)) => match found {
                None => r == (failed(state), Action::Sleep),
                Some(cp) => if cp.ts != state.checkpoint.ts {
                    r == (WorkerState { phase: Phase::Syncing, attempt: 0, checkpoint: cp, ..state }, Action::SyncLookupTables)
                } else {
                    r == (WorkerState { phase: Phase::FetchingClock, checkpoint: cp, ..state }, Action::FetchClock)
                },
            },
            (Phase::Syncing, Event::Synced(ok)) => if ok {
                r == (WorkerState { phase: Phase::FetchingClock, ..state }, Action::FetchClock)
            } else {
                r == (failed(state), Action::Sleep)
            },
            (Phase::FetchingClock, Event::ClockFetched(found)) => match found {
                None => r == (WorkerState { phase: Phase::Sleeping, ..state }, Action::Sleep),
                Some(now) => if now - state.checkpoint.ts < CHECKPOINT_INTERVAL {
                    r == (WorkerState { phase: Phase::Sleeping, ..state }, Action::Sleep)
                } else {
                    r == (WorkerState { phase: Phase::Rebasing, ..state }, Action::Rebase(state.checkpoint.current_id))
                },
            },
            (Phase::Rebasing, Event::Rebased(ok)) => if ok {
                r == (WorkerState { phase: Phase::Sleeping, ..state }, Action::Sleep)
            } else {
                r == (failed(state), Action::Sleep)
            },
            _ => r.0 == state && r.1 == match state.phase {
                Phase::Begin => Action::Sleep,
                Phase::Notifying => Action::Notify,
                Phase::FetchingBoost => Action::FetchBoost,
                Phase::FetchingStakes(_) => Action::FetchStakes,
                Phase::FetchingCheckpoint => Action::FetchCheckpoint,
                Phase::Syncing => Action::SyncLookupTables,
                Phase::FetchingClock => Action::FetchClock,
                Phase::Rebasing => Action::Rebase(state.checkpoint.current_id),
                Phase::Sleeping => Action::Sleep,
            },
        }),
{
    match (state.phase, event) {
        (Phase::Begin, Event::Tick) | (Phase::Sleeping, Event::Tick) => {
            // notify admin if worker is stalling
            if state.attempt == MAX_ATTEMPTS {
                (WorkerState { phase: Phase::Notifying, attempt: 0, ..state }, Action::Notify)
            } else {
                (WorkerState { phase: Phase::FetchingBoost, ..state }, Action::FetchBoost)
            }
        },
        (Phase::Notifying, Event::Notified(ok)) => {
            if ok {
                (WorkerState { phase: Phase::FetchingBoost, ..state }, Action::FetchBoost)
            } else {
                (WorkerState { phase: Phase::Sleeping, ..state }, Action::Sleep)
            }
        },
        (Phase::FetchingBoost, Event::BoostFetched(found)) => {
            match found {
                None => (WorkerState { phase: Phase::Sleeping, attempt: state.attempt + 1, ..state }, Action::Sleep),
                Some(n) => {
                    // check for new stakers
                    if n > state.total_stakers {
                        (WorkerState { phase: Phase::FetchingStakes(n), ..state }, Action::FetchStakes)
                    } else {
                        (WorkerState { phase: Phase::FetchingCheckpoint, ..state }, Action::FetchCheckpoint)
                    }
                },
            }
        },
        (Phase::FetchingStakes(n), Event::StakesFetched(ok)) => {
            if ok {
                (WorkerState { phase: Phase::FetchingCheckpoint, total_stakers: n, ..state }, Action::FetchCheckpoint)
            } else {
                (WorkerState { phase: Phase::Sleeping, attempt: state.attempt + 1, ..state }, Action::Sleep)
            }
        },
        (Phase::FetchingCheckpoint, Event::CheckpointFetched(found)) => {
            match found {
                None => (WorkerState { phase: Phase::Sleeping, attempt: state.attempt + 1, ..state }, Action::Sleep),
                Some(cp) => {
                    if cp.ts != state.checkpoint.ts {
                        // a new timestamp means a completed checkpoint: reset the failures
                        // and sync the lookup tables
                        (WorkerState { phase: Phase::Syncing, attempt: 0, checkpoint: cp, ..state }, Action::SyncLookupTables)
                    } else {
                        (WorkerState { phase: Phase::FetchingClock, checkpoint: cp, ..state }, Action::FetchClock)
                    }
                },
            }
        },
        (Phase::Syncing, Event::Synced(ok)) => {
            if ok {
                (WorkerState { phase: Phase::FetchingClock, ..state }, Action::FetchClock)
            } else {
                (WorkerState { phase: Phase::Sleeping, attempt: state.attempt + 1, ..state }, Action::Sleep)
            }
        },
        (Phase::FetchingClock, Event::ClockFetched(found)) => {
            match found {
                None => (WorkerState { phase: Phase::Sleeping, ..state }, Action::Sleep),
                Some(now) => {
                    match check_for_time(now, state.checkpoint.ts) {
                        Err(_) => (WorkerState { phase: Phase::Sleeping, ..state }, Action::Sleep),
                        Ok(()) => (
                            WorkerState { phase: Phase::Rebasing, ..state },
                            Action::Rebase(state.checkpoint.current_id),
                        ),
                    }
                },
            }
        },
        (Phase::Rebasing, Event::Rebased(ok)) => {
            if ok {
                (WorkerState { phase: Phase::Sleeping, ..state }, Action::Sleep)
            } else {
                (WorkerState { phase: Phase::Sleeping, attempt: state.attempt + 1, ..state }, Action::Sleep)
            }
        },
        _ => (state, phase_action(&state)),
    }
}

} // verus!
