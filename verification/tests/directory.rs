use ore_boost::consts::{DEFAULT_TAKE_RATE, INITIALIZER_ADDRESS, ORE_MINT_ADDRESS, PROGRAM_ID};
use ore_boost::loaders::AccountView;
use ore_boost::sdk::{config_pda, reserve_pda};
use ore_boost::error::ProgramError;
use ore_boost::numeric::Numeric;
use ore_boost::program::admin::{process_initialize, process_new, process_update_admin, process_update_boost};
use ore_boost::program::directory::{process_activate, process_deactivate};
use ore_boost::pubkey::{array_contains, Pubkey};
use ore_boost::state::boost::Boost;
use ore_boost::state::config::Config;
use ore_boost::state::directory::Directory;

fn key(n: u8) -> Pubkey {
    Pubkey::new_from_array([n; 32])
}

fn config_with_admin(admin: Pubkey) -> Config {
    Config {
        admin,
        boosts: [Pubkey::default(); 256],
        len: 0,
        rewards_factor: Numeric::zero(),
        take_rate: DEFAULT_TAKE_RATE,
        total_weight: 0,
    }
}

fn empty_directory() -> Directory {
    Directory { boosts: [Pubkey::default(); 256], len: 0 }
}

#[test]
fn activate_appends_once() {
    let admin = key(1);
    let config = config_with_admin(admin);
    let mut dir = empty_directory();
    assert_eq!(process_activate(&admin, true, &key(7), &mut dir, &config), Ok(()));
    assert_eq!(process_activate(&admin, true, &key(8), &mut dir, &config), Ok(()));
    assert_eq!(dir.len, 2);
    assert_eq!(dir.boosts[0], key(7));
    assert_eq!(dir.boosts[1], key(8));
    // Activating again changes nothing.
    assert_eq!(process_activate(&admin, true, &key(7), &mut dir, &config), Ok(()));
    assert_eq!(dir.len, 2);
}

#[test]
fn activate_rejects_non_admin_and_full_directory() {
    let admin = key(1);
    let config = config_with_admin(admin);
    let mut dir = empty_directory();
    assert_eq!(process_activate(&key(2), true, &key(7), &mut dir, &config), Err(ProgramError::InvalidAccountData));
    assert_eq!(dir.len, 0);
    let mut full = Directory { boosts: [key(3); 256], len: 256 };
    assert_eq!(process_activate(&admin, true, &key(7), &mut full, &config), Err(ProgramError::InvalidAccountData));
    assert_eq!(full.len, 256);
}

#[test]
fn deactivate_moves_last_into_the_gap() {
    let admin = key(1);
    let config = config_with_admin(admin);
    let mut dir = empty_directory();
    for n in [7u8, 8, 9] {
        process_activate(&admin, true, &key(n), &mut dir, &config).unwrap();
    }
    assert_eq!(process_deactivate(&admin, true, &key(7), &mut dir, &config), Ok(()));
    assert_eq!(dir.len, 2);
    assert_eq!(dir.boosts[0], key(9));
    assert_eq!(dir.boosts[1], key(8));
    assert_eq!(dir.boosts[2], Pubkey::default());
    // A boost that is not listed leaves the directory unchanged.
    assert_eq!(process_deactivate(&admin, true, &key(7), &mut dir, &config), Ok(()));
    assert_eq!(dir.len, 2);
    assert_eq!(process_deactivate(&key(2), true, &key(8), &mut dir, &config), Err(ProgramError::InvalidAccountData));
    assert_eq!(dir.len, 2);
}

#[test]
fn deactivate_undoes_activate() {
    let admin = key(1);
    let config = config_with_admin(admin);
    let mut dir = empty_directory();
    process_activate(&admin, true, &key(4), &mut dir, &config).unwrap();
    let before = dir;
    process_activate(&admin, true, &key(5), &mut dir, &config).unwrap();
    process_deactivate(&admin, true, &key(5), &mut dir, &config).unwrap();
    assert_eq!(dir.len, before.len);
    assert!(dir.boosts.iter().zip(before.boosts.iter()).all(|(a, b)| a == b));
}

fn view(key: Pubkey, is_writable: bool, data: Vec<u8>) -> AccountView {
    AccountView { key, owner: Pubkey::new_from_array(PROGRAM_ID), is_signer: false, is_writable, data }
}

#[test]
fn initialize_only_by_initializer() {
    let signer = Pubkey::new_from_array(INITIALIZER_ADDRESS);
    let ore = Pubkey::new_from_array(ORE_MINT_ADDRESS);
    let config_address = config_pda().unwrap().0;
    let reserve_address = reserve_pda().unwrap().0;
    let config_info = view(config_address, true, vec![]);
    let reserve_info = view(reserve_address, true, vec![]);
    let config = process_initialize(&signer, true, &config_info, &reserve_info, &ore).unwrap().unwrap();
    assert_eq!(config.admin, signer);
    assert_eq!(config.len, 0);
    assert_eq!(config.take_rate, 5_000);
    assert_eq!(config.total_weight, 0);
    assert_eq!(config.rewards_factor, Numeric::zero());
    assert!(config.boosts.iter().all(|b| *b == Pubkey::default()));
    // A repeat call leaves the existing config as it is.
    let existing = view(config_address, true, vec![101; 16]);
    assert!(process_initialize(&signer, true, &existing, &reserve_info, &ore).unwrap().is_none());
    // The checks, in order.
    assert_eq!(process_initialize(&signer, false, &config_info, &reserve_info, &ore).err(), Some(ProgramError::MissingRequiredSignature));
    assert_eq!(process_initialize(&key(1), true, &config_info, &reserve_info, &ore).err(), Some(ProgramError::InvalidAccountData));
    assert_eq!(
        process_initialize(&signer, true, &view(config_address, false, vec![]), &reserve_info, &ore).err(),
        Some(ProgramError::MissingRequiredSignature)
    );
    assert_eq!(process_initialize(&signer, true, &reserve_info, &reserve_info, &ore).err(), Some(ProgramError::InvalidSeeds));
    assert_eq!(process_initialize(&signer, true, &config_info, &reserve_info, &key(3)).err(), Some(ProgramError::InvalidAccountData));
    assert_eq!(
        process_initialize(&signer, true, &config_info, &view(reserve_address, false, vec![]), &ore).err(),
        Some(ProgramError::MissingRequiredSignature)
    );
    assert_eq!(process_initialize(&signer, true, &config_info, &config_info, &ore).err(), Some(ProgramError::InvalidSeeds));
}

#[test]
fn admin_instructions_need_a_signature() {
    let admin = key(1);
    let mut config = config_with_admin(admin);
    assert_eq!(process_update_admin(&admin, false, &key(3), &mut config), Err(ProgramError::MissingRequiredSignature));
    assert_eq!(config.admin, admin);
    assert_eq!(process_new(&admin, false, &key(10), &key(11), 0, 1, &mut config).err(), Some(ProgramError::MissingRequiredSignature));
    assert_eq!(config.len, 0);
    let mut dir = empty_directory();
    assert_eq!(process_activate(&admin, false, &key(7), &mut dir, &config), Err(ProgramError::MissingRequiredSignature));
    assert_eq!(dir.len, 0);
}

#[test]
fn new_lists_the_boost_and_starts_it_at_the_config_factor() {
    let admin = key(1);
    let mut config = config_with_admin(admin);
    config.rewards_factor = Numeric::from_u64(3);
    let boost = process_new(&admin, true, &key(10), &key(11), 99, 7, &mut config).unwrap();
    assert_eq!(config.len, 1);
    assert_eq!(config.boosts[0], key(10));
    assert_eq!(config.total_weight, 7);
    assert_eq!(boost.mint, key(11));
    assert_eq!(boost.expires_at, 99);
    assert_eq!(boost.weight, 7);
    assert_eq!(boost.last_rewards_factor, Numeric::from_u64(3));
    assert_eq!(boost.rewards_factor, Numeric::zero());
    assert_eq!(boost.total_deposits, 0);
    assert_eq!(process_new(&key(2), true, &key(12), &key(11), 0, 1, &mut config).err(), Some(ProgramError::InvalidAccountData));
    assert_eq!(config.len, 1);
}

#[test]
fn update_admin_hands_over() {
    let mut config = config_with_admin(key(1));
    assert_eq!(process_update_admin(&key(2), true, &key(3), &mut config), Err(ProgramError::InvalidAccountData));
    assert_eq!(config.admin, key(1));
    assert_eq!(process_update_admin(&key(1), true, &key(3), &mut config), Ok(()));
    assert_eq!(config.admin, key(3));
}

#[test]
fn update_boost_moves_total_weight_by_the_change() {
    let admin = key(1);
    let mut config = config_with_admin(admin);
    let mut boost_a = process_new(&admin, true, &key(10), &key(11), 0, 2, &mut config).unwrap();
    config.total_weight = 5;
    assert_eq!(process_update_boost(&admin, true, &key(10), &mut boost_a, &mut config, 0, 77, 6), Ok(()));
    assert_eq!(config.total_weight, 9);
    assert_eq!(boost_a.weight, 6);
    assert_eq!(boost_a.expires_at, 77);
    assert_eq!(process_update_boost(&admin, true, &key(10), &mut boost_a, &mut config, 0, 77, 1), Ok(()));
    assert_eq!(config.total_weight, 4);
    // A boost that is not in the list keeps the total weight.
    let mut other = Boost { weight: 3, ..boost_a };
    assert_eq!(process_update_boost(&admin, true, &key(20), &mut other, &mut config, 0, 0, 10), Ok(()));
    assert_eq!(config.total_weight, 4);
    assert_eq!(other.weight, 10);
    assert_eq!(
        process_update_boost(&key(2), true, &key(10), &mut boost_a, &mut config, 0, 0, 0),
        Err(ProgramError::InvalidAccountData)
    );
}

#[test]
fn update_boost_collects_the_reserve_first() {
    let admin = key(1);
    let mut config = config_with_admin(admin);
    let mut boost = process_new(&admin, true, &key(10), &key(11), 0, 1, &mut config).unwrap();
    config.total_weight = 2;
    boost.total_deposits = 4;
    process_update_boost(&admin, true, &key(10), &mut boost, &mut config, 100, 0, 1).unwrap();
    // The config factor grows by 100 / 2, the boost's by 50 * 1 / 4.
    assert_eq!(config.rewards_factor, Numeric::from_u64(50));
    assert_eq!(boost.rewards_factor.bits, Numeric::from_u64(50).bits / 4);
    assert_eq!(boost.last_rewards_factor, config.rewards_factor);
}

#[test]
fn array_contains_checks_every_slot() {
    let mut keys = [Pubkey::default(); 256];
    keys[255] = key(5);
    assert!(array_contains(&keys, &key(5)));
    assert!(!array_contains(&keys, &key(6)));
    assert!(array_contains(&keys, &Pubkey::default()));
}
