use ore_boost::chain::{Clock, Proof};
use ore_boost::consts::{DEFAULT_TAKE_RATE, ORE_MINT_ADDRESS};
use ore_boost::error::ProgramError;
use ore_boost::loaders::AccountView;
use ore_boost::numeric::Numeric;
use ore_boost::program::migration::{
    process_migrate, process_migrate_boost, process_migrate_config, process_migrate_hotfix, MIGRATED_BOOST_0,
    MIGRATED_BOOST_3,
};
use ore_boost::pubkey::Pubkey;
use ore_boost::state::boost::Boost;
use ore_boost::state::config::Config;
use ore_boost::state::legacy::{BoostV1, OldBoost, StakeV1};

fn key(n: u8) -> Pubkey {
    Pubkey::new_from_array([n; 32])
}

fn config(admin: Pubkey) -> Config {
    Config {
        admin,
        boosts: [Pubkey::default(); 256],
        len: 0,
        rewards_factor: Numeric::from_u64(2),
        take_rate: DEFAULT_TAKE_RATE,
        total_weight: 0,
    }
}

fn clock(t: i64) -> Clock {
    Clock { slot: 0, epoch_start_timestamp: 0, epoch: 0, leader_schedule_epoch: 0, unix_timestamp: t }
}

fn empty_writable(key: Pubkey) -> AccountView {
    AccountView { key, owner: Pubkey::default(), is_signer: false, is_writable: true, data: vec![] }
}

#[test]
fn migrate_config_lists_the_carried_over_boosts() {
    let ore = Pubkey::new_from_array(ORE_MINT_ADDRESS);
    let (p, w) = (empty_writable(key(7)), empty_writable(key(8)));
    let (config, refund) = process_migrate_config(&key(1), true, &key(1), 4, &ore, &p, &w, 5_000_000, 3_500_000).unwrap();
    assert_eq!(refund, 1_500_000);
    assert_eq!(config.admin, key(1));
    assert_eq!(config.len, 4);
    assert_eq!(config.boosts[0].bytes, MIGRATED_BOOST_0);
    assert_eq!(config.boosts[3].bytes, MIGRATED_BOOST_3);
    assert!(config.boosts[4..].iter().all(|b| *b == Pubkey::default()));
    assert_eq!(config.take_rate, 5_000);
    assert_eq!(config.rewards_factor, Numeric::zero());
    assert_eq!(process_migrate_config(&key(2), true, &key(1), 4, &ore, &p, &w, 1, 1).err(), Some(ProgramError::InvalidAccountData));
    assert_eq!(process_migrate_config(&key(1), false, &key(1), 4, &ore, &p, &w, 1, 1).err(), Some(ProgramError::MissingRequiredSignature));
    assert_eq!(process_migrate_config(&key(1), true, &key(1), 4, &key(3), &p, &w, 1, 1).err(), Some(ProgramError::InvalidAccountData));
    let opened = AccountView { data: vec![1], ..empty_writable(key(7)) };
    assert_eq!(process_migrate_config(&key(1), true, &key(1), 4, &ore, &opened, &w, 1, 1).err(), Some(ProgramError::AccountAlreadyInitialized));
    let readonly = AccountView { is_writable: false, ..empty_writable(key(8)) };
    assert_eq!(process_migrate_config(&key(1), true, &key(1), 4, &ore, &p, &readonly, 1, 1).err(), Some(ProgramError::MissingRequiredSignature));
}

fn old_boost(mint: Pubkey) -> OldBoost {
    OldBoost {
        expires_at: 5,
        mint,
        rewards_factor: Numeric::from_u64(1),
        total_deposits: 30,
        total_stakers: 2,
        withdraw_fee: 0,
    }
}

#[test]
fn migrate_boost_moves_the_rewards() {
    let signer = key(3);
    let boost_address = key(4);
    let mut p = Proof::holding(0);
    p.authority = boost_address;
    let (boost, moved) = process_migrate_boost(&signer, true, &boost_address, &old_boost(signer), &p, 100, &config(signer)).unwrap();
    assert_eq!(moved, 100);
    assert_eq!(boost.weight, 0);
    assert_eq!(boost.total_deposits, 30);
    assert_eq!(boost.rewards_factor, Numeric::from_u64(1));
    assert_eq!(boost.last_rewards_factor, Numeric::zero());
}

#[test]
fn migrate_ore_boost_keeps_its_deposits() {
    let ore = Pubkey::new_from_array(ORE_MINT_ADDRESS);
    let boost_address = key(4);
    let mut p = Proof::holding(0);
    p.authority = boost_address;
    let (_, moved) = process_migrate_boost(&ore, true, &boost_address, &old_boost(ore), &p, 100, &config(ore)).unwrap();
    assert_eq!(moved, 70);
}

#[test]
fn migrate_boost_errors() {
    let signer = key(3);
    let boost_address = key(4);
    let mut p = Proof::holding(0);
    p.authority = boost_address;
    let err = Some(ProgramError::InvalidAccountData);
    assert_eq!(process_migrate_boost(&signer, true, &boost_address, &old_boost(key(9)), &p, 1, &config(signer)).err(), err);
    assert_eq!(process_migrate_boost(&signer, true, &boost_address, &old_boost(signer), &p, 1, &config(key(9))).err(), err);
    let mut unclaimed = p;
    unclaimed.balance = 1;
    assert_eq!(process_migrate_boost(&signer, true, &boost_address, &old_boost(signer), &unclaimed, 1, &config(signer)).err(), err);
    let mut foreign = p;
    foreign.authority = key(8);
    assert_eq!(process_migrate_boost(&signer, true, &boost_address, &old_boost(signer), &foreign, 1, &config(signer)).err(), err);
}

#[test]
fn migrate_hotfix_aligns_the_last_factor() {
    let admin = key(1);
    let c = config(admin);
    let mut boost = Boost {
        expires_at: 0,
        last_rewards_factor: Numeric::zero(),
        mint: key(2),
        rewards_factor: Numeric::zero(),
        total_deposits: 0,
        total_stakers: 0,
        weight: 1,
        withdraw_fee: 0,
    };
    assert_eq!(process_migrate_hotfix(&key(9), true, &mut boost, &c), Err(ProgramError::InvalidAccountData));
    assert_eq!(boost.last_rewards_factor, Numeric::zero());
    assert_eq!(process_migrate_hotfix(&admin, true, &mut boost, &c), Ok(()));
    assert_eq!(boost.last_rewards_factor, Numeric::from_u64(2));
}

#[test]
fn migrate_carries_stakes_in_order_and_finishes_the_factor() {
    let admin = key(1);
    let c = config(admin);
    let mint = key(2);
    let (boost_address, v1_address) = (key(3), key(4));
    let mut boost = Boost {
        expires_at: 0,
        last_rewards_factor: Numeric::zero(),
        mint,
        rewards_factor: Numeric::zero(),
        total_deposits: 0,
        total_stakers: 0,
        weight: 0,
        withdraw_fee: 0,
    };
    let v1 = BoostV1 { mint, total_stakers: 2 };
    let first = StakeV1 { authority: key(5), boost: v1_address, id: 0, balance: 10, rewards: 3 };
    let second = StakeV1 { authority: key(6), boost: v1_address, id: 1, balance: 30, rewards: 5 };
    // Out of order: nothing happens.
    assert!(matches!(process_migrate(&admin, true, &key(6), &boost_address, &v1_address, &mint, &c, &mut boost, &v1, &second, false, &clock(1)), Ok(None)));
    let stake = process_migrate(&admin, true, &key(5), &boost_address, &v1_address, &mint, &c, &mut boost, &v1, &first, false, &clock(1)).unwrap().unwrap();
    assert_eq!(stake.balance, 10);
    assert_eq!(stake.boost, boost_address);
    assert_eq!(stake.last_claim_at, 1);
    assert_eq!(boost.rewards_factor, Numeric::from_u64(3));
    // An existing stake account is left alone.
    assert!(matches!(process_migrate(&admin, true, &key(6), &boost_address, &v1_address, &mint, &c, &mut boost, &v1, &second, true, &clock(2)), Ok(None)));
    let stake = process_migrate(&admin, true, &key(6), &boost_address, &v1_address, &mint, &c, &mut boost, &v1, &second, false, &clock(2)).unwrap().unwrap();
    assert_eq!(stake.balance, 30);
    assert_eq!(boost.total_stakers, 2);
    assert_eq!(boost.total_deposits, 40);
    // The last stake divides the accumulated rewards by the deposits: 8 / 40.
    assert_eq!(boost.rewards_factor, Numeric::from_fraction(8, 40));
    // Errors.
    assert!(process_migrate(&key(9), true, &key(6), &boost_address, &v1_address, &mint, &c, &mut boost, &v1, &second, false, &clock(2)).is_err());
    assert!(process_migrate(&admin, true, &key(7), &boost_address, &v1_address, &mint, &c, &mut boost, &v1, &second, false, &clock(2)).is_err());
}
