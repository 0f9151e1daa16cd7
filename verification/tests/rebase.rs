use ore_boost::error::ProgramError;
use ore_boost::program::rebase::{process_rebase, RebaseBoost, RebaseCheckpoint, RebaseStake};
use ore_boost::pubkey::Pubkey;
use ore_boost::state::checkpoint::Checkpoint;

fn key(n: u8) -> Pubkey {
    Pubkey::new_from_array([n; 32])
}

fn stake(id: u64, balance: u64, pending: u64) -> RebaseStake {
    RebaseStake { boost: key(1), id, balance, balance_pending: pending, rewards: 0 }
}

#[test]
fn rebase_runs_a_full_checkpoint() {
    let boost_address = key(1);
    let mut boost = RebaseBoost { locked: 0, total_deposits: 300, total_stakers: 2 };
    let mut cp = RebaseCheckpoint {
        checkpoint: Checkpoint { boost: boost_address, current_id: 0, total_pending_stake: 0, total_stakers: 2, ts: 10 },
        total_rewards: 0,
    };
    let mut first = stake(0, 100, 5);
    let mut second = stake(1, 200, 0);
    // The first call locks the boost and asks for the proof balance to be claimed.
    assert_eq!(process_rebase(&boost_address, true, &key(1), &mut boost, &mut cp, &mut first, 90, 20), Ok(Some(90)));
    assert_eq!(boost.locked, 1);
    assert_eq!(first.rewards, 30);
    assert_eq!(first.balance, 105);
    assert_eq!(first.balance_pending, 0);
    assert_eq!(cp.checkpoint.current_id, 1);
    // A stake out of turn changes nothing.
    let mut again = stake(0, 100, 0);
    assert_eq!(process_rebase(&boost_address, true, &key(1), &mut boost, &mut cp, &mut again, 0, 21), Ok(None));
    assert_eq!(again.rewards, 0);
    assert_eq!(cp.checkpoint.current_id, 1);
    // The last stake finalizes the run.
    assert_eq!(process_rebase(&boost_address, true, &key(1), &mut boost, &mut cp, &mut second, 0, 22), Ok(None));
    assert_eq!(second.rewards, 60);
    assert_eq!(boost.locked, 0);
    assert_eq!(boost.total_deposits, 305);
    assert_eq!(cp.checkpoint.current_id, 0);
    assert_eq!(cp.checkpoint.total_pending_stake, 0);
    assert_eq!(cp.total_rewards, 0);
    assert_eq!(cp.checkpoint.ts, 22);
    // Paid out no more than the rewards.
    assert!(first.rewards + second.rewards <= 90);
}

#[test]
fn rebase_without_stakers_resets_the_checkpoint() {
    let boost_address = key(1);
    let mut boost = RebaseBoost { locked: 0, total_deposits: 0, total_stakers: 0 };
    let mut cp = RebaseCheckpoint {
        checkpoint: Checkpoint { boost: boost_address, current_id: 0, total_pending_stake: 0, total_stakers: 0, ts: 0 },
        total_rewards: 0,
    };
    let mut anything = RebaseStake { boost: Pubkey::default(), id: 0, balance: 0, balance_pending: 0, rewards: 0 };
    assert_eq!(process_rebase(&boost_address, true, &key(1), &mut boost, &mut cp, &mut anything, 7, 50), Ok(Some(7)));
    assert_eq!(boost.locked, 0);
    assert_eq!(cp.checkpoint.ts, 50);
    assert_eq!(cp.total_rewards, 0);
}

#[test]
fn rebase_errors() {
    let boost_address = key(1);
    let mut boost = RebaseBoost { locked: 0, total_deposits: 10, total_stakers: 1 };
    let mut cp = RebaseCheckpoint {
        checkpoint: Checkpoint { boost: boost_address, current_id: 0, total_pending_stake: 0, total_stakers: 1, ts: 10 },
        total_rewards: 0,
    };
    let mut s = stake(0, 10, 0);
    // Checkpoint of another boost.
    assert_eq!(process_rebase(&key(2), true, &key(1), &mut boost, &mut cp, &mut s, 5, 20), Err(ProgramError::InvalidAccountData));
    // Not later than the last checkpoint.
    assert_eq!(process_rebase(&boost_address, true, &key(1), &mut boost, &mut cp, &mut s, 5, 10), Err(ProgramError::InvalidAccountData));
    // Stake of another boost.
    let mut foreign = RebaseStake { boost: key(3), ..s };
    assert_eq!(process_rebase(&boost_address, true, &key(1), &mut boost, &mut cp, &mut foreign, 5, 20), Err(ProgramError::InvalidAccountData));
    assert_eq!(boost.locked, 0);
    assert_eq!(cp.checkpoint.current_id, 0);
}

#[test]
fn rebase_needs_the_signature_and_the_boost_proof() {
    let boost_address = key(1);
    let mut boost = RebaseBoost { locked: 0, total_deposits: 10, total_stakers: 1 };
    let mut cp = RebaseCheckpoint {
        checkpoint: Checkpoint { boost: boost_address, current_id: 0, total_pending_stake: 0, total_stakers: 1, ts: 10 },
        total_rewards: 0,
    };
    let mut s = stake(0, 10, 0);
    assert_eq!(
        process_rebase(&boost_address, false, &key(1), &mut boost, &mut cp, &mut s, 5, 20),
        Err(ProgramError::MissingRequiredSignature)
    );
    assert_eq!(
        process_rebase(&boost_address, true, &key(2), &mut boost, &mut cp, &mut s, 5, 20),
        Err(ProgramError::InvalidAccountData)
    );
    assert_eq!(boost.locked, 0);
    assert_eq!(cp.checkpoint.current_id, 0);
}
