use ore_boost::pubkey::Pubkey;
use ore_boost::state::checkpoint::Checkpoint;
use ore_boost::worker::bundle::{
    bytes_eq, check_bundle_size, chunks, chunks_of_vecs, confirmation_step, insert_compute_units, plan_rebase_all,
    read_bundle_status, BundleStatus, ConfirmStep, WorkerError,
};
use ore_boost::worker::schedule::{
    check_for_time, helius_cluster, remaining_stake_accounts, step, Action, Event, HeliusCluster, Phase, WorkerState,
    MAX_ATTEMPTS,
};

fn key(n: u8) -> Pubkey {
    Pubkey::new_from_array([n; 32])
}

#[test]
fn check_for_time_needs_a_full_interval() {
    assert_eq!(check_for_time(3_599, 0), Err(WorkerError::ClockStillTicking));
    assert_eq!(check_for_time(3_600, 0), Ok(()));
    assert_eq!(check_for_time(10_000, 9_000), Err(WorkerError::ClockStillTicking));
    assert_eq!(check_for_time(5, 10), Err(WorkerError::ClockStillTicking));
}

#[test]
fn remaining_stake_accounts_filters_and_sorts() {
    let mut accounts = vec![(key(1), 5), (key(2), 1), (key(3), 3), (key(4), 2), (key(5), 3)];
    let rest = remaining_stake_accounts(&mut accounts, 3);
    // The caller's list is sorted by id in place, equal ids in their old order.
    let sorted: Vec<(u8, u64)> = accounts.iter().map(|(k, id)| (k.bytes[0], *id)).collect();
    assert_eq!(sorted, vec![(2, 1), (4, 2), (3, 3), (5, 3), (1, 5)]);
    let keys: Vec<u8> = rest.iter().map(|k| k.bytes[0]).collect();
    assert_eq!(keys, vec![3, 5, 1]);
    assert!(remaining_stake_accounts(&mut accounts, 6).is_empty());
    assert_eq!(remaining_stake_accounts(&mut accounts, 0).len(), 5);
}

#[test]
fn helius_cluster_names() {
    assert_eq!(helius_cluster(b"mainnet"), Ok(HeliusCluster::MainnetBeta));
    assert_eq!(helius_cluster(b"mainnet-staked"), Ok(HeliusCluster::StakedMainnetBeta));
    assert_eq!(helius_cluster(b"devnet"), Ok(HeliusCluster::Devnet));
    assert_eq!(helius_cluster(b"testnet"), Err(WorkerError::InvalidHeliusCluster));
    assert_eq!(helius_cluster(b""), Err(WorkerError::InvalidHeliusCluster));
}

#[test]
fn chunks_split_in_order() {
    let items: Vec<u32> = (0..45).collect();
    let pieces = chunks(&items, 20);
    assert_eq!(pieces.len(), 3);
    assert_eq!(pieces[0], (0..20).collect::<Vec<_>>());
    assert_eq!(pieces[2], (40..45).collect::<Vec<_>>());
    assert!(chunks::<u32>(&[], 5).is_empty());
    let grouped = chunks_of_vecs(&pieces, 2);
    assert_eq!(grouped.len(), 2);
    assert_eq!(grouped[1].len(), 1);
}

#[test]
fn plan_rebase_all_groups_transactions_and_bundles() {
    assert!(plan_rebase_all(&[]).is_none());
    let accounts: Vec<Pubkey> = (0..=220u32).map(|n| key((n % 256) as u8)).collect();
    let bundles = plan_rebase_all(&accounts).unwrap();
    // 221 accounts: 12 transactions (11 of 20, 1 of 1), in bundles of at most 5.
    assert_eq!(bundles.len(), 3);
    assert_eq!(bundles.iter().map(|b| b.len()).collect::<Vec<_>>(), vec![5, 5, 2]);
    assert_eq!(bundles[2][1].len(), 1);
    let flat: Vec<Pubkey> = bundles.into_iter().flatten().flatten().collect();
    assert!(flat.iter().zip(accounts.iter()).all(|(a, b)| a == b));
    assert_eq!(flat.len(), accounts.len());
}

#[test]
fn compute_units_per_transaction() {
    let bundle = vec![vec![key(1); 20], vec![key(2); 20], vec![key(3); 3]];
    assert_eq!(insert_compute_units(&bundle), vec![30_000 + 140_000, 140_000, 21_000 + 1_000]);
    let single = vec![vec![key(1); 2]];
    assert_eq!(insert_compute_units(&single), vec![30_000 + 14_000 + 1_000]);
}

#[test]
fn bundle_size_limits() {
    assert_eq!(check_bundle_size(0), Err(WorkerError::EmptyJitoBundle));
    assert_eq!(check_bundle_size(1), Ok(()));
    assert_eq!(check_bundle_size(5), Ok(()));
    assert_eq!(check_bundle_size(6), Err(WorkerError::TooManyTransactionsInJitoBundle));
}

#[test]
fn confirmation_retries_then_gives_up() {
    assert_eq!(confirmation_step(0, true), ConfirmStep::Confirmed);
    assert_eq!(confirmation_step(0, false), ConfirmStep::Retry(1));
    assert_eq!(confirmation_step(13, false), ConfirmStep::Retry(14));
    assert_eq!(confirmation_step(14, false), ConfirmStep::GiveUp);
}

#[test]
fn bundle_status_replies() {
    assert_eq!(read_bundle_status(true, Some(b"Landed")), BundleStatus::RpcError);
    assert_eq!(read_bundle_status(false, None), BundleStatus::Missing);
    assert_eq!(read_bundle_status(false, Some(b"Landed")), BundleStatus::Landed);
    assert_eq!(read_bundle_status(false, Some(b"Pending")), BundleStatus::Pending);
    assert!(bytes_eq(b"abc", b"abc"));
    assert!(!bytes_eq(b"abc", b"abd"));
    assert!(!bytes_eq(b"abc", b"ab"));
}

fn start() -> WorkerState {
    WorkerState {
        phase: Phase::Begin,
        attempt: 0,
        total_stakers: 0,
        checkpoint: Checkpoint { boost: key(1), current_id: 2, total_pending_stake: 0, total_stakers: 4, ts: 100 },
    }
}

#[test]
fn worker_runs_an_iteration() {
    let (s, a) = step(start(), Event::Tick);
    assert_eq!(a, Action::FetchBoost);
    let (s, a) = step(s, Event::BoostFetched(Some(4)));
    assert_eq!(a, Action::FetchStakes);
    assert_eq!(s.phase, Phase::FetchingStakes(4));
    let (s, a) = step(s, Event::StakesFetched(true));
    assert_eq!(a, Action::FetchCheckpoint);
    assert_eq!(s.total_stakers, 4);
    let cp = Checkpoint { boost: key(1), current_id: 3, total_pending_stake: 0, total_stakers: 4, ts: 200 };
    // A checkpoint with a new timestamp: the lookup tables are synced again.
    let (s, a) = step(s, Event::CheckpointFetched(Some(cp)));
    assert_eq!(a, Action::SyncLookupTables);
    assert_eq!(s.attempt, 0);
    let (s, a) = step(s, Event::Synced(true));
    assert_eq!(a, Action::FetchClock);
    let (s, a) = step(s, Event::ClockFetched(Some(200 + 3_600)));
    assert_eq!(a, Action::Rebase(3));
    let (s, a) = step(s, Event::Rebased(true));
    assert_eq!(a, Action::Sleep);
    assert_eq!(s.phase, Phase::Sleeping);
    assert_eq!(s.attempt, 0);
    // No new stakers: straight to the checkpoint; too early: pause.
    let (s, _) = step(s, Event::Tick);
    let (s, a) = step(s, Event::BoostFetched(Some(4)));
    assert_eq!(a, Action::FetchCheckpoint);
    let (s, _) = step(s, Event::CheckpointFetched(Some(cp)));
    let (s, a) = step(s, Event::ClockFetched(Some(201)));
    assert_eq!(a, Action::Sleep);
    assert_eq!(s.attempt, 0);
}

#[test]
fn worker_notifies_after_repeated_failures() {
    let mut s = start();
    for n in 0..MAX_ATTEMPTS {
        let (next, a) = step(s, Event::Tick);
        assert_eq!(a, Action::FetchBoost);
        let (next, a) = step(next, Event::BoostFetched(None));
        assert_eq!(a, Action::Sleep);
        assert_eq!(next.attempt, n + 1);
        s = next;
    }
    let (s, a) = step(s, Event::Tick);
    assert_eq!(a, Action::Notify);
    assert_eq!(s.attempt, 0);
    let (s, a) = step(s, Event::Notified(false));
    assert_eq!(a, Action::Sleep);
    let (_, a) = step(s, Event::Tick);
    assert_eq!(a, Action::FetchBoost);
}

#[test]
fn worker_ignores_unexpected_events() {
    let s = WorkerState { phase: Phase::FetchingCheckpoint, ..start() };
    let (next, a) = step(s, Event::Rebased(true));
    assert_eq!(a, Action::FetchCheckpoint);
    assert_eq!(next.phase, Phase::FetchingCheckpoint);
    let (_, a) = step(start(), Event::ClockFetched(None));
    assert_eq!(a, Action::Sleep);
}

#[test]
fn worker_resets_failures_on_a_new_checkpoint() {
    let s = WorkerState { phase: Phase::FetchingCheckpoint, attempt: 7, ..start() };
    let same = s.checkpoint;
    let (next, a) = step(s, Event::CheckpointFetched(Some(same)));
    assert_eq!(a, Action::FetchClock);
    assert_eq!(next.attempt, 7);
    let newer = Checkpoint { ts: 999, ..same };
    let (next, a) = step(s, Event::CheckpointFetched(Some(newer)));
    assert_eq!(a, Action::SyncLookupTables);
    assert_eq!(next.attempt, 0);
    let (failed, a) = step(next, Event::Synced(false));
    assert_eq!(a, Action::Sleep);
    assert_eq!(failed.attempt, 1);
}
