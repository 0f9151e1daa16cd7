use ore_boost::chain::{Clock, Proof, TokenAccount};
use ore_boost::consts::{DEFAULT_TAKE_RATE, ORE_MINT_ADDRESS};
use ore_boost::error::ProgramError;
use ore_boost::numeric::Numeric;
use ore_boost::program::staking::{process_claim, process_close, process_deposit, process_withdraw};
use ore_boost::pubkey::Pubkey;
use ore_boost::state::boost::Boost;
use ore_boost::state::config::Config;
use ore_boost::state::stake::Stake;

fn ata(wallet: Pubkey, mint: Pubkey) -> Pubkey {
    ore_boost::sdk::associated_token_address(wallet, mint).unwrap()
}

fn key(n: u8) -> Pubkey {
    Pubkey::new_from_array([n; 32])
}

fn config() -> Config {
    Config {
        admin: key(1),
        boosts: [Pubkey::default(); 256],
        len: 1,
        rewards_factor: Numeric::zero(),
        take_rate: DEFAULT_TAKE_RATE,
        total_weight: 1,
    }
}

fn boost(mint: Pubkey) -> Boost {
    Boost {
        expires_at: 0,
        last_rewards_factor: Numeric::zero(),
        mint,
        rewards_factor: Numeric::zero(),
        total_deposits: 0,
        total_stakers: 1,
        weight: 1,
        withdraw_fee: 0,
    }
}

fn stake(authority: Pubkey, boost: Pubkey) -> Stake {
    Stake {
        authority,
        balance: 0,
        boost,
        last_claim_at: 0,
        last_deposit_at: 0,
        last_withdraw_at: 0,
        last_rewards_factor: Numeric::zero(),
        rewards: 0,
        _buffer: [0; 1024],
    }
}

fn clock(t: i64) -> Clock {
    Clock { slot: 0, epoch_start_timestamp: 0, epoch: 0, leader_schedule_epoch: 0, unix_timestamp: t }
}

fn proof_of(authority: Pubkey, balance: u64) -> Proof {
    let mut p = Proof::holding(balance);
    p.authority = authority;
    p
}

#[test]
fn deposit_caps_at_the_sender_balance() {
    let (signer, boost_address, config_address, mint) = (key(2), key(3), key(4), key(5));
    let mut b = boost(mint);
    let mut c = config();
    let mut s = stake(signer, boost_address);
    let sender = TokenAccount { mint, owner: signer, amount: 60 };
    let p = proof_of(config_address, 0);
    let moved = process_deposit(&signer, true, &boost_address, &config_address, &mint, &ata(boost_address, mint), &ata(signer, mint), &mut b, &mut c, &p, &sender, &mut s, &clock(9), 100);
    assert_eq!(moved, Ok(60));
    assert_eq!(s.balance, 60);
    assert_eq!(b.total_deposits, 60);
    assert_eq!(s.last_deposit_at, 9);
}

#[test]
fn deposit_errors() {
    let (signer, boost_address, config_address, mint) = (key(2), key(3), key(4), key(5));
    let mut b = boost(mint);
    let mut c = config();
    let mut s = stake(signer, boost_address);
    let sender = TokenAccount { mint, owner: signer, amount: 60 };
    let p = proof_of(config_address, 0);
    // Wrong mint.
    assert_eq!(
        process_deposit(&signer, true, &boost_address, &config_address, &key(6), &ata(boost_address, mint), &ata(signer, mint), &mut b, &mut c, &p, &sender, &mut s, &clock(0), 1),
        Err(ProgramError::InvalidAccountData)
    );
    // Proof of another authority.
    let other = proof_of(key(7), 0);
    assert_eq!(
        process_deposit(&signer, true, &boost_address, &config_address, &mint, &ata(boost_address, mint), &ata(signer, mint), &mut b, &mut c, &other, &sender, &mut s, &clock(0), 1),
        Err(ProgramError::InvalidAccountData)
    );
    // Stake of another signer.
    assert_eq!(
        process_deposit(&key(8), true, &boost_address, &config_address, &mint, &ata(boost_address, mint), &ata(signer, mint), &mut b, &mut c, &p, &sender, &mut s, &clock(0), 1),
        Err(ProgramError::InvalidAccountData)
    );
    assert_eq!(s.balance, 0);
}

#[test]
fn withdraw_caps_at_the_stake_balance() {
    let (signer, boost_address, mint) = (key(2), key(3), key(5));
    let mut b = boost(mint);
    b.total_deposits = 40;
    let mut c = config();
    let mut s = stake(signer, boost_address);
    s.balance = 40;
    let beneficiary = TokenAccount { mint, owner: signer, amount: 0 };
    assert_eq!(process_withdraw(&signer, true, &boost_address, &mint, &ata(boost_address, mint), &beneficiary, &mut b, &mut c, 0, &mut s, &clock(3), 25), Ok((25, 0)));
    assert_eq!(s.balance, 15);
    assert_eq!(b.total_deposits, 15);
    assert_eq!(process_withdraw(&signer, true, &boost_address, &mint, &ata(boost_address, mint), &beneficiary, &mut b, &mut c, 0, &mut s, &clock(4), 99), Ok((15, 0)));
    assert_eq!(s.balance, 0);
    assert_eq!(s.last_withdraw_at, 4);
    let wrong = TokenAccount { mint: key(6), owner: signer, amount: 0 };
    assert_eq!(
        process_withdraw(&signer, true, &boost_address, &mint, &ata(boost_address, mint), &wrong, &mut b, &mut c, 0, &mut s, &clock(4), 1),
        Err(ProgramError::InvalidAccountData)
    );
    assert_eq!(
        process_withdraw(&signer, true, &boost_address, &mint, &ata(signer, mint), &beneficiary, &mut b, &mut c, 0, &mut s, &clock(4), 1),
        Err(ProgramError::InvalidAccountData)
    );
}

#[test]
fn claim_pays_collected_rewards() {
    let (signer, boost_address) = (key(2), key(3));
    let ore = Pubkey::new_from_array(ORE_MINT_ADDRESS);
    let mut b = boost(key(5));
    b.total_deposits = 10;
    let mut c = config();
    let mut s = stake(signer, boost_address);
    s.balance = 10;
    let beneficiary = TokenAccount { mint: ore, owner: signer, amount: 0 };
    // 100 collected over weight 1 and 10 deposits: the stake of 10 earns 100.
    assert_eq!(process_claim(&signer, true, &boost_address, &beneficiary, &mut b, &mut c, 100, &mut s, &clock(5), 30), Ok(30));
    assert_eq!(s.rewards, 70);
    assert_eq!(s.last_claim_at, 5);
    assert_eq!(process_claim(&signer, true, &boost_address, &beneficiary, &mut b, &mut c, 0, &mut s, &clock(6), 500), Ok(70));
    assert_eq!(s.rewards, 0);
    let not_ore = TokenAccount { mint: key(9), owner: signer, amount: 0 };
    assert_eq!(
        process_claim(&signer, true, &boost_address, &not_ore, &mut b, &mut c, 0, &mut s, &clock(6), 1),
        Err(ProgramError::InvalidAccountData)
    );
}

#[test]
fn close_only_an_empty_stake_of_the_signer() {
    let (signer, boost_address) = (key(2), key(3));
    let mut b = boost(key(5));
    b.total_stakers = 2;
    let mut s = stake(signer, boost_address);
    assert_eq!(process_close(&key(9), true, &boost_address, &mut b, &s, true, &Pubkey::default()), Err(ProgramError::MissingRequiredSignature));
    s.balance = 1;
    assert_eq!(process_close(&signer, true, &boost_address, &mut b, &s, true, &Pubkey::default()), Err(ProgramError::InvalidAccountData));
    s.balance = 0;
    s.rewards = 1;
    assert_eq!(process_close(&signer, true, &boost_address, &mut b, &s, true, &Pubkey::default()), Err(ProgramError::InvalidAccountData));
    s.rewards = 0;
    assert_eq!(process_close(&signer, true, &key(4), &mut b, &s, true, &Pubkey::default()), Err(ProgramError::InvalidAccountData));
    assert_eq!(b.total_stakers, 2);
    assert_eq!(process_close(&signer, true, &boost_address, &mut b, &s, true, &Pubkey::default()), Ok(()));
    assert_eq!(b.total_stakers, 1);
}

#[test]
fn withdraw_undoes_deposit() {
    let (signer, boost_address, config_address, mint) = (key(2), key(3), key(4), key(5));
    let mut b = boost(mint);
    b.total_deposits = 11;
    let mut c = config();
    let mut s = stake(signer, boost_address);
    s.balance = 11;
    let sender = TokenAccount { mint, owner: signer, amount: 500 };
    let p = proof_of(config_address, 40);
    let moved = process_deposit(&signer, true, &boost_address, &config_address, &mint, &ata(boost_address, mint), &ata(signer, mint), &mut b, &mut c, &p, &sender, &mut s, &clock(1), 70).unwrap();
    let beneficiary = TokenAccount { mint, owner: signer, amount: 0 };
    let (paid, fee) = process_withdraw(&signer, true, &boost_address, &mint, &ata(boost_address, mint), &beneficiary, &mut b, &mut c, 25, &mut s, &clock(2), moved).unwrap();
    assert_eq!((paid, fee), (70, 0));
    assert_eq!(s.balance, 11);
    assert_eq!(b.total_deposits, 11);
    // The rewards collected on the way stay with the stake.
    assert!(s.rewards > 0);
}

#[test]
fn withdraw_charges_the_fee_in_basis_points() {
    let (signer, boost_address, mint) = (key(2), key(3), key(5));
    let mut b = boost(mint);
    b.total_deposits = 1_000;
    b.withdraw_fee = 250;
    let mut c = config();
    let mut s = stake(signer, boost_address);
    s.balance = 1_000;
    let beneficiary = TokenAccount { mint, owner: signer, amount: 0 };
    // 2.5% of 999 is 24.975: 24 stays behind as fee, 975 goes out.
    assert_eq!(process_withdraw(&signer, true, &boost_address, &mint, &ata(boost_address, mint), &beneficiary, &mut b, &mut c, 0, &mut s, &clock(1), 999), Ok((975, 24)));
    assert_eq!(s.balance, 1);
    assert_eq!(b.total_deposits, 1);
    // A fee above 100% takes everything.
    b.withdraw_fee = 20_000;
    assert_eq!(process_withdraw(&signer, true, &boost_address, &mint, &ata(boost_address, mint), &beneficiary, &mut b, &mut c, 0, &mut s, &clock(2), 1), Ok((0, 1)));
}

#[test]
fn deposit_and_close_check_their_accounts() {
    let (signer, boost_address, config_address, mint) = (key(2), key(3), key(4), key(5));
    let mut b = boost(mint);
    let mut c = config();
    let mut s = stake(signer, boost_address);
    let sender = TokenAccount { mint, owner: signer, amount: 60 };
    let p = proof_of(config_address, 0);
    // The sender must be the signer's token account for the mint.
    assert_eq!(
        process_deposit(&signer, true, &boost_address, &config_address, &mint, &ata(boost_address, mint), &key(9), &mut b, &mut c, &p, &sender, &mut s, &clock(0), 1),
        Err(ProgramError::InvalidAccountData)
    );
    // The deposits account must be the boost's token account for the mint.
    assert_eq!(
        process_deposit(&signer, true, &boost_address, &config_address, &mint, &key(9), &ata(signer, mint), &mut b, &mut c, &p, &sender, &mut s, &clock(0), 1),
        Err(ProgramError::InvalidAccountData)
    );
    assert_eq!(
        process_deposit(&signer, false, &boost_address, &config_address, &mint, &ata(boost_address, mint), &ata(signer, mint), &mut b, &mut c, &p, &sender, &mut s, &clock(0), 1),
        Err(ProgramError::MissingRequiredSignature)
    );
    assert_eq!(s.balance, 0);
    // Close: a read-only stake account, or a wrong system program, is refused.
    b.total_stakers = 1;
    assert_eq!(process_close(&signer, true, &boost_address, &mut b, &s, false, &Pubkey::default()), Err(ProgramError::MissingRequiredSignature));
    assert_eq!(process_close(&signer, true, &boost_address, &mut b, &s, true, &key(1)), Err(ProgramError::InvalidAccountData));
    assert_eq!(process_close(&signer, false, &boost_address, &mut b, &s, true, &Pubkey::default()), Err(ProgramError::MissingRequiredSignature));
    assert_eq!(b.total_stakers, 1);
}
