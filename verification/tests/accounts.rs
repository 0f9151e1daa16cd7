use ore_boost::consts::{ORE_MINT_ADDRESS, PROGRAM_ID};
use ore_boost::error::ProgramError;
use ore_boost::loaders::{load_any_boost, load_boost, load_config, load_stake, AccountView};
use ore_boost::numeric::Numeric;
use ore_boost::pubkey::Pubkey;
use ore_boost::reserves::{validate_reserves, ReserveReport, StakeRewards};
use ore_boost::sdk::config_pda;
use ore_boost::state::boost::Boost;
use ore_boost::state::config::Config;
use ore_boost::state::stake::Stake;

fn key(n: u8) -> Pubkey {
    Pubkey::new_from_array([n; 32])
}

fn sample_boost() -> Boost {
    Boost {
        expires_at: -2,
        last_rewards_factor: Numeric { bits: -5 },
        mint: key(3),
        rewards_factor: Numeric::from_fraction(1, 3),
        total_deposits: 1_000,
        total_stakers: 4,
        weight: 9,
        withdraw_fee: 25,
    }
}

fn sample_stake() -> Stake {
    let mut buffer = [0u8; 1024];
    buffer[1023] = 7;
    Stake {
        authority: key(1),
        balance: 500,
        boost: key(2),
        last_claim_at: 10,
        last_deposit_at: 11,
        last_withdraw_at: -12,
        last_rewards_factor: Numeric::from_u64(3),
        rewards: 77,
        _buffer: buffer,
    }
}

fn account(discriminator: u8, body: Vec<u8>) -> Vec<u8> {
    let mut data = vec![discriminator, 0, 0, 0, 0, 0, 0, 0];
    data.extend(body);
    data
}

#[test]
fn boost_bytes_round_trip() {
    let boost = sample_boost();
    let body = boost.to_bytes();
    assert_eq!(body.len(), 104);
    assert_eq!(&body[0..8], &(-2i64).to_le_bytes());
    assert_eq!(&body[8..24], &(-5i128).to_le_bytes());
    assert_eq!(&body[24..56], &[3u8; 32]);
    assert_eq!(&body[96..104], &25u64.to_le_bytes());
    let back = Boost::try_from_bytes(&account(100, body.clone())).unwrap();
    assert_eq!(back.to_bytes(), body);
    assert_eq!(back.rewards_factor, boost.rewards_factor);
    assert_eq!(back.mint, boost.mint);
    assert_eq!(back.withdraw_fee, 25);
    assert_eq!(Boost::try_from_bytes(&account(101, body.clone())).unwrap_err(), ProgramError::InvalidAccountData);
    assert_eq!(Boost::try_from_bytes(&account(100, body[..103].to_vec())).unwrap_err(), ProgramError::InvalidAccountData);
    assert_eq!(Boost::try_from_bytes(&[9]).unwrap_err(), ProgramError::InvalidAccountData);
}

#[test]
fn stake_bytes_round_trip() {
    let stake = sample_stake();
    let body = stake.to_bytes();
    assert_eq!(body.len(), 1144);
    assert_eq!(&body[32..40], &500u64.to_le_bytes());
    assert_eq!(&body[88..96], &(-12i64).to_le_bytes());
    assert_eq!(body[1143], 7);
    let back = Stake::try_from_bytes(&account(102, body.clone())).unwrap();
    assert_eq!(back.to_bytes(), body);
    assert_eq!(back.authority, key(1));
    assert_eq!(back.rewards, 77);
    assert!(Stake::try_from_bytes(&account(100, body)).is_err());
}

fn view(key: Pubkey, owner: Pubkey, is_writable: bool, data: Vec<u8>) -> AccountView {
    AccountView { key, owner, is_signer: false, is_writable, data }
}

#[test]
fn load_boost_checks() {
    let program = Pubkey::new_from_array(PROGRAM_ID);
    let data = account(100, sample_boost().to_bytes());
    assert_eq!(load_boost(&view(key(8), program, true, data.clone()), &key(3), true), Ok(()));
    assert_eq!(load_boost(&view(key(8), program, false, data.clone()), &key(3), false), Ok(()));
    assert_eq!(load_boost(&view(key(8), key(9), true, data.clone()), &key(3), true), Err(ProgramError::InvalidAccountOwner));
    assert_eq!(load_boost(&view(key(8), program, true, vec![]), &key(3), true), Err(ProgramError::UninitializedAccount));
    assert_eq!(load_boost(&view(key(8), program, true, data.clone()), &key(4), true), Err(ProgramError::InvalidAccountData));
    assert_eq!(load_boost(&view(key(8), program, false, data.clone()), &key(3), true), Err(ProgramError::InvalidAccountData));
    assert_eq!(load_boost(&view(key(8), program, true, vec![102; 20]), &key(3), true), Err(ProgramError::InvalidAccountData));
}

#[test]
fn load_any_boost_checks_the_account_reads_as_a_boost() {
    let program = Pubkey::new_from_array(PROGRAM_ID);
    let data = account(100, sample_boost().to_bytes());
    assert_eq!(load_any_boost(&view(key(8), program, true, data.clone()), true), Ok(()));
    assert_eq!(load_any_boost(&view(key(8), program, true, vec![100]), true), Err(ProgramError::InvalidAccountData));
    let mut other = data.clone();
    other[0] = 101;
    assert_eq!(load_any_boost(&view(key(8), program, true, other), true), Err(ProgramError::InvalidAccountData));
    assert_eq!(load_any_boost(&view(key(8), program, false, data.clone()), true), Err(ProgramError::InvalidAccountData));
    assert_eq!(load_any_boost(&view(key(8), program, false, data.clone()), false), Ok(()));
    assert_eq!(load_any_boost(&view(key(8), key(1), true, data), false), Err(ProgramError::InvalidAccountOwner));
    assert_eq!(load_any_boost(&view(key(8), program, true, vec![]), false), Err(ProgramError::UninitializedAccount));
}

fn config_data() -> Vec<u8> {
    let config = Config {
        admin: key(1),
        boosts: [Pubkey::default(); 256],
        len: 0,
        rewards_factor: Numeric::zero(),
        take_rate: 5_000,
        total_weight: 0,
    };
    account(101, config.to_bytes())
}

#[test]
fn load_config_checks_the_address() {
    let program = Pubkey::new_from_array(PROGRAM_ID);
    let config = config_pda().unwrap().0;
    let data = config_data();
    assert_eq!(load_config(&view(config, program, true, data.clone()), true), Ok(()));
    assert_eq!(load_config(&view(key(5), program, true, data.clone()), true), Err(ProgramError::InvalidSeeds));
    assert_eq!(load_config(&view(config, key(5), true, data.clone()), true), Err(ProgramError::InvalidAccountOwner));
    assert_eq!(load_config(&view(config, program, true, vec![]), true), Err(ProgramError::UninitializedAccount));
    assert_eq!(load_config(&view(config, program, true, vec![101, 0]), true), Err(ProgramError::InvalidAccountData));
    let mut other = data.clone();
    other[0] = 100;
    assert_eq!(load_config(&view(config, program, true, other), true), Err(ProgramError::InvalidAccountData));
    assert_eq!(load_config(&view(config, program, false, data), true), Err(ProgramError::InvalidAccountData));
}

#[test]
fn load_stake_checks_the_authority() {
    let program = Pubkey::new_from_array(PROGRAM_ID);
    let data = account(102, sample_stake().to_bytes());
    assert_eq!(load_stake(&view(key(8), program, true, data.clone()), &key(1), true), Ok(()));
    assert_eq!(load_stake(&view(key(8), program, true, data.clone()), &key(2), true), Err(ProgramError::InvalidAccountData));
    assert_eq!(load_stake(&view(key(8), key(3), true, data.clone()), &key(1), true), Err(ProgramError::InvalidAccountOwner));
    assert_eq!(load_stake(&view(key(8), program, true, vec![]), &key(1), true), Err(ProgramError::UninitializedAccount));
}

fn stake_rewards(factor: Numeric, balance: u64, rewards: u64) -> StakeRewards {
    StakeRewards { last_rewards_factor: factor, balance, rewards }
}

#[test]
fn reserves_cover_the_owed_rewards() {
    // Factor 1 plus 100 / 50 = 3; stakes at factor 1 and 3.
    let stakes = vec![stake_rewards(Numeric::from_u64(1), 10, 5), stake_rewards(Numeric::from_u64(3), 40, 2)];
    let report = validate_reserves(key(5), Numeric::from_u64(1), 50, 100, 30, &stakes);
    assert_eq!(report, ReserveReport { rewards: 5 + 20 + 2, reserves: 130, sufficient: true });
    let short = validate_reserves(key(5), Numeric::from_u64(1), 50, 10, 0, &stakes);
    // Factor 1 + 10/50: the fraction rounds down below 0.2, so the first stake is owed
    // 5 + floor(1.99..) = 6, the second 2.
    assert_eq!(short.rewards, 8);
    assert_eq!(short.reserves, 10);
    assert!(short.sufficient);
    let none = validate_reserves(key(5), Numeric::zero(), 10, 0, 0, &vec![stake_rewards(Numeric::zero(), 1, 4)]);
    assert_eq!(none, ReserveReport { rewards: 4, reserves: 0, sufficient: false });
}

#[test]
fn ore_reserves_leave_out_the_deposits() {
    let ore = Pubkey::new_from_array(ORE_MINT_ADDRESS);
    let report = validate_reserves(ore, Numeric::zero(), 50, 0, 80, &vec![]);
    assert_eq!(report, ReserveReport { rewards: 0, reserves: 30, sufficient: true });
}

#[test]
fn config_bytes_round_trip() {
    let mut boosts = [Pubkey::default(); 256];
    boosts[0] = key(4);
    boosts[255] = key(6);
    let config = Config {
        admin: key(1),
        boosts,
        len: 2,
        rewards_factor: Numeric::from_fraction(5, 7),
        take_rate: 5_000,
        total_weight: 12,
    };
    let body = config.to_bytes();
    assert_eq!(body.len(), 8264);
    assert_eq!(&body[32..64], &[4u8; 32]);
    assert_eq!(&body[8192..8224], &[6u8; 32]);
    assert_eq!(&body[8224..8232], &2u64.to_le_bytes());
    assert_eq!(&body[8232..8240], &5_000u64.to_le_bytes());
    let back = Config::try_from_bytes(&account(101, body.clone())).unwrap();
    assert_eq!(back.to_bytes(), body);
    assert_eq!(back.boosts[255], key(6));
    assert_eq!(back.rewards_factor, config.rewards_factor);
    assert!(Config::try_from_bytes(&account(100, body)).is_err());
}
