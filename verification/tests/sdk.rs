use ore_boost::consts::LOOKUP_TABLE_PROGRAM_ID;
use ore_boost::error::ProgramError;
use ore_boost::program::lookup_table::{process_create_stake_lookup_table, process_extend_stake_lookup_table};
use ore_boost::cli::{DeactivateArgs, GetBoostArgs, NewArgs, UpdateBoostArgs};
use ore_boost::consts::{ASSOCIATED_TOKEN_PROGRAM_ID, PROGRAM_ID, SYSTEM_PROGRAM_ID, TOKEN_PROGRAM_ID};
use ore_boost::numeric::Numeric;
use ore_boost::pubkey::Pubkey;
use ore_boost::consts::{ORE_MINT_ADDRESS, ORE_PROGRAM_ID};
use ore_boost::sdk::{
    activate, associated_token_address, boost_pda, claim, config_pda, deactivate, deposit, initialize, new, open,
    proof_pda, stake_pda, treasury_pda, update_boost, withdraw, Instruction,
};
use ore_boost::state::boost::Boost;
use solana_program::pubkey::Pubkey as SolanaPubkey;

fn key(n: u8) -> Pubkey {
    Pubkey::new_from_array([n; 32])
}

fn program() -> SolanaPubkey {
    SolanaPubkey::new_from_array(PROGRAM_ID)
}

fn ours(k: SolanaPubkey) -> Pubkey {
    Pubkey::new_from_array(k.to_bytes())
}

fn metas(ix: &Instruction) -> Vec<(Pubkey, bool, bool)> {
    ix.accounts.iter().map(|m| (m.pubkey, m.is_signer, m.is_writable)).collect()
}

#[test]
fn program_ids_match_their_crates() {
    assert_eq!(program().to_string(), "BooST9jdDtrg3THn5fo2D4XAtKtciBRi7H2muxVK4JS");
    assert_eq!(TOKEN_PROGRAM_ID, spl_token::ID.to_bytes());
    assert_eq!(ASSOCIATED_TOKEN_PROGRAM_ID, spl_associated_token_account::ID.to_bytes());
    assert_eq!(SYSTEM_PROGRAM_ID, solana_program::system_program::ID.to_bytes());
}

#[test]
fn pdas_are_the_program_addresses() {
    let mint = key(7);
    let (boost, bump) = boost_pda(mint).unwrap();
    let (expected, expected_bump) = SolanaPubkey::find_program_address(&[b"boost", &mint.bytes], &program());
    assert_eq!(boost, ours(expected));
    assert_eq!(bump, expected_bump);
    assert_ne!(boost, mint);
    let (config, _) = config_pda().unwrap();
    assert_eq!(config, ours(SolanaPubkey::find_program_address(&[b"config"], &program()).0));
    let (stake, _) = stake_pda(key(2), boost).unwrap();
    assert_eq!(stake, ours(SolanaPubkey::find_program_address(&[b"stake", &key(2).bytes, &boost.bytes], &program()).0));
    let ata = associated_token_address(key(2), mint).unwrap();
    let expected = spl_associated_token_account::get_associated_token_address(
        &SolanaPubkey::new_from_array(key(2).bytes),
        &SolanaPubkey::new_from_array(mint.bytes),
    );
    assert_eq!(ata, ours(expected));
}

#[test]
fn activate_and_deactivate_instructions() {
    let (signer, mint) = (key(1), key(7));
    let boost = boost_pda(mint).unwrap().0;
    let config = config_pda().unwrap().0;
    let ix = activate(signer, mint).unwrap();
    assert_eq!(ix.program_id.bytes, PROGRAM_ID);
    assert_eq!(metas(&ix), vec![(signer, true, true), (boost, false, false), (config, false, true)]);
    assert_eq!(ix.data, vec![100]);
    let ix = deactivate(signer, mint).unwrap();
    assert_eq!(metas(&ix), vec![(signer, true, true), (boost, false, false), (config, false, true)]);
    assert_eq!(ix.data, vec![101]);
}

#[test]
fn initialize_new_and_open_instructions() {
    let (signer, mint) = (key(1), key(7));
    let boost = boost_pda(mint).unwrap().0;
    let config = config_pda().unwrap().0;
    let system = Pubkey::new_from_array(SYSTEM_PROGRAM_ID);
    let ix = initialize(signer).unwrap();
    assert_eq!(metas(&ix), vec![(signer, true, true), (config, false, true), (system, false, false)]);
    assert_eq!(ix.data, vec![102]);

    let ix = new(signer, mint, 1_000, 3).unwrap();
    let deposits = associated_token_address(boost, mint).unwrap();
    assert_eq!(
        metas(&ix),
        vec![
            (signer, true, true),
            (boost, false, true),
            (config, false, true),
            (deposits, false, true),
            (mint, false, false),
            (system, false, false),
            (Pubkey::new_from_array(TOKEN_PROGRAM_ID), false, false),
            (Pubkey::new_from_array(ASSOCIATED_TOKEN_PROGRAM_ID), false, false),
        ]
    );
    let mut data = vec![103];
    data.extend_from_slice(&1_000i64.to_le_bytes());
    data.extend_from_slice(&3u64.to_le_bytes());
    assert_eq!(ix.data, data);

    let payer = key(2);
    let ix = open(signer, payer, mint).unwrap();
    let stake = stake_pda(signer, boost).unwrap().0;
    assert_eq!(
        metas(&ix),
        vec![(signer, true, true), (payer, true, true), (boost, false, true), (mint, false, false), (stake, false, true), (system, false, false)]
    );
    assert_eq!(ix.data, vec![3]);
}

#[test]
fn cli_arguments_parse_the_mint() {
    let text = "BooST9jdDtrg3THn5fo2D4XAtKtciBRi7H2muxVK4JS".to_string();
    let args = GetBoostArgs { mint: text.clone() };
    let expected = boost_pda(Pubkey::new_from_array(PROGRAM_ID)).unwrap().0;
    assert_eq!(args.boost_address(), Some(expected));
    assert_eq!(GetBoostArgs { mint: "not an address".to_string() }.boost_address(), None);
    assert_eq!(GetBoostArgs { mint: "1111".to_string() }.boost_address(), None);

    let signer = key(1);
    let ix = NewArgs { mint: text.clone(), expires_at: 5, multiplier: 2 }.instruction(signer).unwrap();
    let direct = new(signer, Pubkey::new_from_array(PROGRAM_ID), 5, 2).unwrap();
    assert_eq!(ix.data, direct.data);
    assert_eq!(metas(&ix), metas(&direct));
    assert!(NewArgs { mint: "0OIl".to_string(), expires_at: 5, multiplier: 2 }.instruction(signer).is_none());

    let ix = DeactivateArgs { mint: text.clone() }.instruction(signer).unwrap();
    assert_eq!(ix.data, vec![101]);
    assert!(DeactivateArgs { mint: String::new() }.instruction(signer).is_none());
}

#[test]
fn cli_update_boost_keeps_what_is_not_given() {
    let boost = Boost {
        expires_at: 50,
        last_rewards_factor: Numeric::zero(),
        mint: key(3),
        rewards_factor: Numeric::zero(),
        total_deposits: 0,
        total_stakers: 0,
        weight: 7,
        withdraw_fee: 0,
    };
    let none = UpdateBoostArgs { mint: String::new(), expires_at: None, bps: None };
    assert_eq!(none.resolve(&boost), (50, 7));
    let both = UpdateBoostArgs { mint: String::new(), expires_at: Some(99), bps: Some(1) };
    assert_eq!(both.resolve(&boost), (99, 1));
    let one = UpdateBoostArgs { mint: String::new(), expires_at: None, bps: Some(4) };
    assert_eq!(one.resolve(&boost), (50, 4));
    assert_eq!(one.boost_address(), None);
}

fn ore_program() -> SolanaPubkey {
    SolanaPubkey::new_from_array(ORE_PROGRAM_ID)
}

fn ata(wallet: Pubkey, mint: Pubkey) -> Pubkey {
    ours(spl_associated_token_account::get_associated_token_address(
        &SolanaPubkey::new_from_array(wallet.bytes),
        &SolanaPubkey::new_from_array(mint.bytes),
    ))
}

#[test]
fn ore_addresses() {
    assert_eq!(ore_program().to_string(), "oreV2ZymfyeXgNgBdqMkumTqqAprVqgBWQfoYkrtKWQ");
    assert_eq!(SolanaPubkey::new_from_array(ORE_MINT_ADDRESS).to_string(), "oreoU2P8bN6jkk3jbaiVxYnG1dCXcYxwhwyK9jSybcp");
    let (treasury, _) = treasury_pda().unwrap();
    assert_eq!(treasury, ours(SolanaPubkey::find_program_address(&[b"treasury"], &ore_program()).0));
    let (p, _) = proof_pda(key(3)).unwrap();
    assert_eq!(p, ours(SolanaPubkey::find_program_address(&[b"proof", &key(3).bytes], &ore_program()).0));
}

struct Ore {
    proof: Pubkey,
    rewards: Pubkey,
    treasury: Pubkey,
    treasury_tokens: Pubkey,
}

fn ore_of(config: Pubkey) -> Ore {
    let ore_mint = Pubkey::new_from_array(ORE_MINT_ADDRESS);
    let treasury = treasury_pda().unwrap().0;
    Ore {
        proof: proof_pda(config).unwrap().0,
        rewards: ata(config, ore_mint),
        treasury,
        treasury_tokens: ata(treasury, ore_mint),
    }
}

#[test]
fn staking_instructions() {
    let (signer, mint, beneficiary) = (key(1), key(7), key(8));
    let boost = boost_pda(mint).unwrap().0;
    let config = config_pda().unwrap().0;
    let stake = stake_pda(signer, boost).unwrap().0;
    let ore = ore_of(config);
    let ore_id = Pubkey::new_from_array(ORE_PROGRAM_ID);
    let token = Pubkey::new_from_array(TOKEN_PROGRAM_ID);

    let ix = claim(signer, beneficiary, mint, 42).unwrap();
    assert_eq!(
        metas(&ix),
        vec![
            (signer, true, true),
            (beneficiary, false, true),
            (boost, false, true),
            (config, false, true),
            (ore.proof, false, true),
            (ore.rewards, false, true),
            (stake, false, true),
            (ore.treasury, false, false),
            (ore.treasury_tokens, false, true),
            (ore_id, false, false),
            (token, false, false),
        ]
    );
    let mut data = vec![0];
    data.extend_from_slice(&42u64.to_le_bytes());
    assert_eq!(ix.data, data);

    let ix = deposit(signer, mint, 9).unwrap();
    assert_eq!(
        metas(&ix),
        vec![
            (signer, true, true),
            (boost, false, true),
            (config, false, true),
            (ata(boost, mint), false, true),
            (mint, false, false),
            (ore.proof, false, true),
            (ore.rewards, false, true),
            (ata(signer, mint), false, true),
            (stake, false, true),
            (ore.treasury, false, false),
            (ore.treasury_tokens, false, true),
            (ore_id, false, false),
            (token, false, false),
        ]
    );
    assert_eq!(ix.data[0], 2);

    let ix = withdraw(signer, mint, 9).unwrap();
    assert_eq!(
        metas(&ix),
        vec![
            (signer, true, true),
            (ata(signer, mint), false, true),
            (boost, false, true),
            (config, false, true),
            (ata(boost, mint), false, true),
            (mint, false, false),
            (ore.proof, false, true),
            (ore.rewards, false, true),
            (stake, false, true),
            (ore.treasury, false, false),
            (ore.treasury_tokens, false, true),
            (ore_id, false, false),
            (token, false, false),
        ]
    );
    let mut data = vec![5];
    data.extend_from_slice(&9u64.to_le_bytes());
    assert_eq!(ix.data, data);
}

#[test]
fn update_boost_instruction() {
    let signer = key(1);
    let boost = key(9);
    let config = config_pda().unwrap().0;
    let ore = ore_of(config);
    let ix = update_boost(signer, boost, 1_234, 5).unwrap();
    assert_eq!(
        metas(&ix),
        vec![
            (signer, true, true),
            (boost, false, true),
            (config, false, true),
            (proof_pda(boost).unwrap().0, false, true),
            (ore.rewards, false, true),
            (ore.treasury, false, true),
            (ore.treasury_tokens, false, true),
            (Pubkey::new_from_array(ORE_PROGRAM_ID), false, false),
            (Pubkey::new_from_array(TOKEN_PROGRAM_ID), false, false),
        ]
    );
    let mut data = vec![105];
    data.extend_from_slice(&1_234i64.to_le_bytes());
    data.extend_from_slice(&5u64.to_le_bytes());
    assert_eq!(ix.data, data);

    let current = Boost {
        expires_at: 50,
        last_rewards_factor: Numeric::zero(),
        mint: key(3),
        rewards_factor: Numeric::zero(),
        total_deposits: 0,
        total_stakers: 0,
        weight: 7,
        withdraw_fee: 0,
    };
    let text = "BooST9jdDtrg3THn5fo2D4XAtKtciBRi7H2muxVK4JS".to_string();
    let args = UpdateBoostArgs { mint: text, expires_at: None, bps: Some(2) };
    let ix = args.instruction(signer, &current).unwrap();
    let address = boost_pda(Pubkey::new_from_array(PROGRAM_ID)).unwrap().0;
    assert_eq!(ix.data, update_boost(signer, address, 50, 2).unwrap().data);
    assert_eq!(ix.accounts[1].pubkey, address);
    let bad = UpdateBoostArgs { mint: "x".to_string(), expires_at: None, bps: None };
    assert!(bad.instruction(signer, &current).is_none());
}

#[test]
fn create_stake_lookup_table_checks_both_addresses() {
    #[allow(deprecated)]
    let lut_program = solana_program::address_lookup_table::program::ID;
    assert_eq!(LOOKUP_TABLE_PROGRAM_ID, lut_program.to_bytes());
    let boost = key(4);
    let record = ours(
        SolanaPubkey::find_program_address(&[b"stake_lookup_table", &boost.bytes, &7u64.to_le_bytes()], &program()).0,
    );
    let table = ours(SolanaPubkey::find_program_address(&[&record.bytes, &99u64.to_le_bytes()], &lut_program).0);
    let created = process_create_stake_lookup_table(&key(1), true, &boost, &record, &table, 7, 99, 254).unwrap();
    assert_eq!(created.lookup_table, table);
    assert_eq!(created.bump, 254);
    assert_eq!(
        process_create_stake_lookup_table(&key(1), true, &boost, &record, &table, 8, 99, 254).err(),
        Some(ProgramError::InvalidSeeds)
    );
    assert_eq!(
        process_create_stake_lookup_table(&key(1), true, &boost, &record, &table, 7, 98, 254).err(),
        Some(ProgramError::InvalidSeeds)
    );
    assert_eq!(
        process_create_stake_lookup_table(&key(1), true, &boost, &table, &record, 7, 99, 254).err(),
        Some(ProgramError::InvalidSeeds)
    );
}

#[test]
fn extend_stake_lookup_table_checks() {
    let boost = key(4);
    let record_address = ours(
        SolanaPubkey::find_program_address(&[b"stake_lookup_table", &boost.bytes, &3u64.to_le_bytes()], &program()).0,
    );
    let record = ore_boost::program::lookup_table::StakeLookupTable { lookup_table: key(9), bump: 1 };
    assert_eq!(process_extend_stake_lookup_table(true, &boost, &boost, &record_address, &record, &key(9), 3), Ok(()));
    assert_eq!(
        process_extend_stake_lookup_table(true, &boost, &key(5), &record_address, &record, &key(9), 3),
        Err(ProgramError::InvalidAccountData)
    );
    assert_eq!(
        process_extend_stake_lookup_table(true, &boost, &boost, &record_address, &record, &key(9), 4),
        Err(ProgramError::InvalidSeeds)
    );
    assert_eq!(
        process_extend_stake_lookup_table(true, &boost, &boost, &record_address, &record, &key(8), 3),
        Err(ProgramError::InvalidAccountData)
    );
}
