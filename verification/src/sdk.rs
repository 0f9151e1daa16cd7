//! Program addresses and instruction builders for clients.
use vstd::prelude::*;

use vstd::bytes::spec_u64_to_le_bytes;

use crate::consts::{
    ASSOCIATED_TOKEN_PROGRAM_ID, BOOST, CONFIG, LOOKUP_TABLE_PROGRAM_ID, ORE_MINT_ADDRESS, ORE_PROGRAM_ID, ORE_PROOF, ORE_TREASURY, PROGRAM_ID,
    RESERVE, STAKE, STAKE_LOOKUP_TABLE, SYSTEM_PROGRAM_ID, TOKEN_PROGRAM_ID,
};
use crate::instruction::{
    Activate, BoostInstruction, Claim, Deactivate, Deposit, Initialize, New, Open, UpdateBoost, Withdraw,
    discriminator_of,
};
use crate::pubkey::Pubkey;

verus! {

/// The program address derived from `seeds` under `program_id` with the highest bump seed
/// that gives an address off the ed25519 curve, with that bump; `None` if no bump does.
pub uninterp spec fn spec_program_address(seeds: Seq<Seq<u8>>, program_id: Seq<u8>) -> Option<(Seq<u8>, u8)>;

/// Calls `Pubkey::try_find_program_address`, which searches bump seeds from 255 down for a
/// derived address off the curve. The contract names the outcome as a function of the
/// seeds and the program id.
#[verifier::external_body]
fn find_program_address(seeds: &Vec<Vec<u8>>, program_id: &Pubkey) -> (r: Option<(Pubkey, u8)>)
    ensures
        r matches Some((key, bump)) ==> spec_program_address(seeds.deep_view(), program_id.bytes@)
            == Some((key.bytes@, bump)),
        r is None ==> spec_program_address(seeds.deep_view(), program_id.bytes@) is None,
{
    let refs: Vec<&[u8]> = seeds.iter().map(|s| s.as_slice()).collect();
    let id = solana_program::pubkey::Pubkey::new_from_array(program_id.bytes);
    match solana_program::pubkey::Pubkey::try_find_program_address(&refs, &id) {
        Some((key, bump)) => Some((Pubkey { bytes: key.to_bytes() }, bump)),
        None => None,
    }
}

/// Returns `spl_token::ID`, which that crate declares as `TokenkegQfeZyiNwAJbNbGKPFXCWuBvf9Ss623VQ5DA`.
#[verifier::external_body]
fn token_program_id() -> (r: Pubkey)
    ensures
        r.bytes == TOKEN_PROGRAM_ID,
{
    Pubkey { bytes: spl_token::ID.to_bytes() }
}

/// Returns `spl_associated_token_account::ID`, declared as `ATokenGPvbdGVxr1b2hvZbsiqW5xWH25efTNsLJA8knL`.
#[verifier::external_body]
fn associated_token_program_id() -> (r: Pubkey)
    ensures
        r.bytes == ASSOCIATED_TOKEN_PROGRAM_ID,
{
    Pubkey { bytes: spl_associated_token_account::ID.to_bytes() }
}

/// Returns `solana_program::system_program::ID`, the all-zero address.
#[verifier::external_body]
fn system_program_id() -> (r: Pubkey)
    ensures
        r.bytes == SYSTEM_PROGRAM_ID,
{
    Pubkey { bytes: solana_program::system_program::ID.to_bytes() }
}

/// The seeds of a boost account.
pub open spec fn boost_seeds(mint: Seq<u8>) -> Seq<Seq<u8>> {
    seq![BOOST@, mint]
}

/// The seeds of the config account.
pub open spec fn config_seeds() -> Seq<Seq<u8>> {
    seq![CONFIG@]
}

/// The seeds of a stake account.
pub open spec fn stake_seeds(authority: Seq<u8>, boost: Seq<u8>) -> Seq<Seq<u8>> {
    seq![STAKE@, authority, boost]
}

/// The seeds of the associated token account of `wallet` for `mint`.
pub open spec fn associated_token_seeds(wallet: Seq<u8>, mint: Seq<u8>) -> Seq<Seq<u8>> {
    seq![wallet, TOKEN_PROGRAM_ID@, mint]
}

/// `r` is the program address for `seeds` under `program_id`, or `None` if there is none.
pub open spec fn is_address_for(r: Option<(Pubkey, u8)>, seeds: Seq<Seq<u8>>, program_id: Seq<u8>) -> bool {
    match r {
        Some((key, bump)) => spec_program_address(seeds, program_id) == Some((key.bytes@, bump)),
        None => spec_program_address(seeds, program_id) is None,
    }
}

fn bytes_of<const N: usize>(a: &[u8; N]) -> (r: Vec<u8>)
    ensures
        r@ == a@,
{
    vstd::slice::slice_to_vec(vstd::array::array_as_slice(a))
}

proof fn lemma_deep_view_bytes(v: Vec<Vec<u8>>, s: Seq<Seq<u8>>)
    requires
        v@.len() == s.len(),
        forall|i: int| 0 <= i < s.len() ==> #[trigger] v@[i]@ == s[i],
    ensures
        v.deep_view() == s,
{
    assert forall|i: int| 0 <= i < s.len() implies v.deep_view()[i] == s[i] by {
        assert(v@[i].deep_view() =~= v@[i]@);
    }
    assert(v.deep_view() =~= s);
}

/// Fetch the PDA of the boost account.
pub fn boost_pda(mint: Pubkey) -> (r: Option<(Pubkey, u8)>)
    ensures
        is_address_for(r, boost_seeds(mint.bytes@), PROGRAM_ID@),
{
    let seeds = vec![bytes_of(&BOOST), bytes_of(&mint.bytes)];
    proof {
        lemma_deep_view_bytes(seeds, boost_seeds(mint.bytes@));
    }
    find_program_address(&seeds, &Pubkey { bytes: PROGRAM_ID })
}

/// Fetch the PDA of the config account.
pub fn config_pda() -> (r: Option<(Pubkey, u8)>)
    ensures
        is_address_for(r, config_seeds(), PROGRAM_ID@),
{
    let seeds = vec![bytes_of(&CONFIG)];
    proof {
        lemma_deep_view_bytes(seeds, config_seeds());
    }
    find_program_address(&seeds, &Pubkey { bytes: PROGRAM_ID })
}

/// The seeds of the reserve account.
pub open spec fn reserve_seeds() -> Seq<Seq<u8>> {
    seq![RESERVE@]
}

/// Fetch the PDA of the reserve account.
pub fn reserve_pda() -> (r: Option<(Pubkey, u8)>)
    ensures
        is_address_for(r, reserve_seeds(), PROGRAM_ID@),
{
    let seeds = vec![bytes_of(&RESERVE)];
    proof {
        lemma_deep_view_bytes(seeds, reserve_seeds());
    }
    find_program_address(&seeds, &Pubkey { bytes: PROGRAM_ID })
}

/// Fetch the PDA of the stake account.
pub fn stake_pda(authority: Pubkey, boost: Pubkey) -> (r: Option<(Pubkey, u8)>)
    ensures
        is_address_for(r, stake_seeds(authority.bytes@, boost.bytes@), PROGRAM_ID@),
{
    let seeds = vec![bytes_of(&STAKE), bytes_of(&authority.bytes), bytes_of(&boost.bytes)];
    proof {
        lemma_deep_view_bytes(seeds, stake_seeds(authority.bytes@, boost.bytes@));
    }
    find_program_address(&seeds, &Pubkey { bytes: PROGRAM_ID })
}

/// The associated token account of `wallet` for `mint`: the address derived from the wallet,
/// the token program id and the mint under the associated token account program.
pub fn associated_token_address(wallet: Pubkey, mint: Pubkey) -> (r: Option<Pubkey>)
    ensures
        match r {
            Some(key) => spec_program_address(associated_token_seeds(wallet.bytes@, mint.bytes@), ASSOCIATED_TOKEN_PROGRAM_ID@)
                matches Some((k, _)) && k == key.bytes@,
            None => spec_program_address(associated_token_seeds(wallet.bytes@, mint.bytes@), ASSOCIATED_TOKEN_PROGRAM_ID@) is None,
        },
{
    let token = token_program_id();
    let seeds = vec![bytes_of(&wallet.bytes), bytes_of(&token.bytes), bytes_of(&mint.bytes)];
    proof {
        lemma_deep_view_bytes(seeds, associated_token_seeds(wallet.bytes@, mint.bytes@));
    }
    match find_program_address(&seeds, &associated_token_program_id()) {
        Some((key, _)) => Some(key),
        None => None,
    }
}

/// An account an instruction reads or writes.
#[derive(Clone, Copy, Debug)]
pub struct AccountMeta {
    pub pubkey: Pubkey,
    pub is_signer: bool,
    pub is_writable: bool,
}

/// An instruction for the boost program.
#[derive(Clone, Debug)]
pub struct Instruction {
    pub program_id: Pubkey,
    pub accounts: Vec<AccountMeta>,
    pub data: Vec<u8>,
}

/// A writable account.
pub open spec fn writable(pubkey: Pubkey, is_signer: bool) -> AccountMeta {
    AccountMeta { pubkey, is_signer, is_writable: true }
}

/// A read-only account.
pub open spec fn readonly(pubkey: Pubkey, is_signer: bool) -> AccountMeta {
    AccountMeta { pubkey, is_signer, is_writable: false }
}

fn meta(pubkey: Pubkey, is_signer: bool, is_writable: bool) -> (r: AccountMeta)
    ensures
        r == (AccountMeta { pubkey, is_signer, is_writable }),
{
    AccountMeta { pubkey, is_signer, is_writable }
}

/// The address in a derived-address outcome.
pub open spec fn derived(r: Option<(Seq<u8>, u8)>) -> Seq<u8> {
    match r {
        Some((k, _)) => k,
        None => Seq::empty(),
    }
}

/// The instruction is for the boost program with the given accounts and data.
pub open spec fn builds(ix: Instruction, accounts: Seq<AccountMeta>, data: Seq<u8>) -> bool {
    &&& ix.program_id.bytes == PROGRAM_ID
    &&& ix.accounts@ == accounts
    &&& ix.data@ == data
}

/// Build activate instruction.
pub fn activate(signer: Pubkey, mint: Pubkey) -> (r: Option<Instruction>)
    ensures
        r is Some <==> spec_program_address(boost_seeds(mint.bytes@), PROGRAM_ID@) is Some
            && spec_program_address(config_seeds(), PROGRAM_ID@) is Some,
        r matches Some(ix) ==> exists|boost: Pubkey, config: Pubkey|
            boost.bytes@ == derived(spec_program_address(boost_seeds(mint.bytes@), PROGRAM_ID@))
            && config.bytes@ == derived(spec_program_address(config_seeds(), PROGRAM_ID@))
            && builds(
                ix,
                seq![writable(signer, true), readonly(boost, false), writable(config, false)],
                seq![discriminator_of(BoostInstruction::Activate)],
            ),
{
    let boost = boost_pda(mint)?;
    let config = config_pda()?;
    let accounts = vec![meta(signer, true, true), meta(boost.0, false, false), meta(config.0, false, true)];
    let ix = Instruction { program_id: Pubkey { bytes: PROGRAM_ID }, accounts, data: Activate {}.to_bytes() };
    assert(builds(ix, seq![writable(signer, true), readonly(boost.0, false), writable(config.0, false)], seq![discriminator_of(BoostInstruction::Activate)]));
    Some(ix)
}


/// `r` is what building the deactivate instruction for `signer` and `mint` gives: the
/// instruction exactly when both addresses derive, with the signer, the boost and the config.
pub open spec fn deactivate_built(r: Option<Instruction>, signer: Pubkey, mint: Pubkey) -> bool {
        &&& (r is Some <==> spec_program_address(boost_seeds(mint.bytes@), PROGRAM_ID@) is Some
            && spec_program_address(config_seeds(), PROGRAM_ID@) is Some)
        &&& r matches Some(ix) ==> exists|boost: Pubkey, config: Pubkey|
            boost.bytes@ == derived(spec_program_address(boost_seeds(mint.bytes@), PROGRAM_ID@))
            && config.bytes@ == derived(spec_program_address(config_seeds(), PROGRAM_ID@))
            && builds(
                ix,
                seq![writable(signer, true), readonly(boost, false), writable(config, false)],
                seq![discriminator_of(BoostInstruction::Deactivate)],
            )
}

/// Build deactivate instruction.
pub fn deactivate(signer: Pubkey, mint: Pubkey) -> (r: Option<Instruction>)
    ensures
        deactivate_built(r, signer, mint),
{
    let boost = boost_pda(mint)?;
    let config = config_pda()?;
    let accounts = vec![meta(signer, true, true), meta(boost.0, false, false), meta(config.0, false, true)];
    let ix = Instruction { program_id: Pubkey { bytes: PROGRAM_ID }, accounts, data: Deactivate {}.to_bytes() };
    assert(builds(ix, seq![writable(signer, true), readonly(boost.0, false), writable(config.0, false)], seq![discriminator_of(BoostInstruction::Deactivate)]));
    Some(ix)
}

/// Build initialize instruction.
pub fn initialize(signer: Pubkey) -> (r: Option<Instruction>)
    ensures
        r is Some <==> spec_program_address(config_seeds(), PROGRAM_ID@) is Some,
        r matches Some(ix) ==> exists|config: Pubkey, system: Pubkey|
            config.bytes@ == derived(spec_program_address(config_seeds(), PROGRAM_ID@))
            && system.bytes == SYSTEM_PROGRAM_ID
            && builds(
                ix,
                seq![writable(signer, true), writable(config, false), readonly(system, false)],
                seq![discriminator_of(BoostInstruction::Initialize)],
            ),
{
    let config = config_pda()?;
    let system = system_program_id();
    let accounts = vec![meta(signer, true, true), meta(config.0, false, true), meta(system, false, false)];
    let ix = Instruction { program_id: Pubkey { bytes: PROGRAM_ID }, accounts, data: Initialize {}.to_bytes() };
    assert(builds(ix, seq![writable(signer, true), writable(config.0, false), readonly(system, false)], seq![discriminator_of(BoostInstruction::Initialize)]));
    Some(ix)
}

/// `r` is what building the new-boost instruction gives: the instruction exactly when the
/// boost, config and deposits addresses derive, with its accounts in order and the
/// expiry and weight little-endian after the discriminator.
pub open spec fn new_built(r: Option<Instruction>, signer: Pubkey, mint: Pubkey, expires_at: i64, weight: u64) -> bool {
        &&& (r is Some <==> spec_program_address(boost_seeds(mint.bytes@), PROGRAM_ID@) is Some
            && spec_program_address(config_seeds(), PROGRAM_ID@) is Some
            && spec_program_address(
                associated_token_seeds(derived(spec_program_address(boost_seeds(mint.bytes@), PROGRAM_ID@)), mint.bytes@),
                ASSOCIATED_TOKEN_PROGRAM_ID@,
            ) is Some)
        &&& r matches Some(ix) ==> exists|boost: Pubkey, config: Pubkey, deposits: Pubkey|
            boost.bytes@ == derived(spec_program_address(boost_seeds(mint.bytes@), PROGRAM_ID@))
            && config.bytes@ == derived(spec_program_address(config_seeds(), PROGRAM_ID@))
            && deposits.bytes@ == derived(spec_program_address(associated_token_seeds(boost.bytes@, mint.bytes@), ASSOCIATED_TOKEN_PROGRAM_ID@))
            && builds(
                ix,
                seq![
                    writable(signer, true),
                    writable(boost, false),
                    writable(config, false),
                    writable(deposits, false),
                    readonly(mint, false),
                    readonly(Pubkey { bytes: SYSTEM_PROGRAM_ID }, false),
                    readonly(Pubkey { bytes: TOKEN_PROGRAM_ID }, false),
                    readonly(Pubkey { bytes: ASSOCIATED_TOKEN_PROGRAM_ID }, false),
                ],
                seq![discriminator_of(BoostInstruction::New)] + vstd::bytes::spec_u64_to_le_bytes(
                    #[verifier::truncate] (expires_at as u64),
                ) + vstd::bytes::spec_u64_to_le_bytes(weight),
            )
}

/// Build new instruction.
pub fn new(signer: Pubkey, mint: Pubkey, expires_at: i64, weight: u64) -> (r: Option<Instruction>)
    ensures
        new_built(r, signer, mint, expires_at, weight),
{
    let boost = boost_pda(mint)?;
    let deposits = associated_token_address(boost.0, mint)?;
    let config = config_pda()?;
    let args = New::new(expires_at, weight);
    let accounts = vec![
        meta(signer, true, true),
        meta(boost.0, false, true),
        meta(config.0, false, true),
        meta(deposits, false, true),
        meta(mint, false, false),
        meta(system_program_id(), false, false),
        meta(token_program_id(), false, false),
        meta(associated_token_program_id(), false, false),
    ];
    let ix = Instruction { program_id: Pubkey { bytes: PROGRAM_ID }, accounts, data: args.to_bytes() };
    assert(builds(
        ix,
        seq![
            writable(signer, true),
            writable(boost.0, false),
            writable(config.0, false),
            writable(deposits, false),
            readonly(mint, false),
            readonly(Pubkey { bytes: SYSTEM_PROGRAM_ID }, false),
            readonly(Pubkey { bytes: TOKEN_PROGRAM_ID }, false),
            readonly(Pubkey { bytes: ASSOCIATED_TOKEN_PROGRAM_ID }, false),
        ],
        seq![discriminator_of(BoostInstruction::New)] + args.expires_at@ + args.weight@,
    ));
    assert(boost.0.bytes@ == derived(spec_program_address(boost_seeds(mint.bytes@), PROGRAM_ID@)));
    assert(config.0.bytes@ == derived(spec_program_address(config_seeds(), PROGRAM_ID@)));
    assert(deposits.bytes@ == derived(spec_program_address(associated_token_seeds(boost.0.bytes@, mint.bytes@), ASSOCIATED_TOKEN_PROGRAM_ID@)));
    assert(args.expires_at@ == vstd::bytes::spec_u64_to_le_bytes(expires_at as u64));
    Some(ix)
}

/// Build open instruction.
pub fn open(signer: Pubkey, payer: Pubkey, mint: Pubkey) -> (r: Option<Instruction>)
    ensures
        r is Some <==> spec_program_address(boost_seeds(mint.bytes@), PROGRAM_ID@) is Some
            && spec_program_address(
                stake_seeds(signer.bytes@, derived(spec_program_address(boost_seeds(mint.bytes@), PROGRAM_ID@))),
                PROGRAM_ID@,
            ) is Some,
        r matches Some(ix) ==> exists|boost: Pubkey, stake: Pubkey|
            boost.bytes@ == derived(spec_program_address(boost_seeds(mint.bytes@), PROGRAM_ID@))
            && stake.bytes@ == derived(spec_program_address(stake_seeds(signer.bytes@, boost.bytes@), PROGRAM_ID@))
            && builds(
                ix,
                seq![
                    writable(signer, true),
                    writable(payer, true),
                    writable(boost, false),
                    readonly(mint, false),
                    writable(stake, false),
                    readonly(Pubkey { bytes: SYSTEM_PROGRAM_ID }, false),
                ],
                seq![discriminator_of(BoostInstruction::Open)],
            ),
{
    let boost = boost_pda(mint)?;
    let stake = stake_pda(signer, boost.0)?;
    let accounts = vec![
        meta(signer, true, true),
        meta(payer, true, true),
        meta(boost.0, false, true),
        meta(mint, false, false),
        meta(stake.0, false, true),
        meta(system_program_id(), false, false),
    ];
    let ix = Instruction { program_id: Pubkey { bytes: PROGRAM_ID }, accounts, data: Open {}.to_bytes() };
    assert(builds(
        ix,
        seq![
            writable(signer, true),
            writable(payer, true),
            writable(boost.0, false),
            readonly(mint, false),
            writable(stake.0, false),
            readonly(Pubkey { bytes: SYSTEM_PROGRAM_ID }, false),
        ],
        seq![discriminator_of(BoostInstruction::Open)],
    ));
    Some(ix)
}

/// The seeds of an ORE proof account.
pub open spec fn proof_seeds(authority: Seq<u8>) -> Seq<Seq<u8>> {
    seq![ORE_PROOF@, authority]
}

/// The seeds of the ORE treasury account.
pub open spec fn treasury_seeds() -> Seq<Seq<u8>> {
    seq![ORE_TREASURY@]
}

/// Fetch the PDA of an ORE proof account.
pub fn proof_pda(authority: Pubkey) -> (r: Option<(Pubkey, u8)>)
    ensures
        is_address_for(r, proof_seeds(authority.bytes@), ORE_PROGRAM_ID@),
{
    let seeds = vec![bytes_of(&ORE_PROOF), bytes_of(&authority.bytes)];
    proof {
        lemma_deep_view_bytes(seeds, proof_seeds(authority.bytes@));
    }
    find_program_address(&seeds, &Pubkey { bytes: ORE_PROGRAM_ID })
}

/// Fetch the PDA of the ORE treasury account.
pub fn treasury_pda() -> (r: Option<(Pubkey, u8)>)
    ensures
        is_address_for(r, treasury_seeds(), ORE_PROGRAM_ID@),
{
    let seeds = vec![bytes_of(&ORE_TREASURY)];
    proof {
        lemma_deep_view_bytes(seeds, treasury_seeds());
    }
    find_program_address(&seeds, &Pubkey { bytes: ORE_PROGRAM_ID })
}

/// `key` is the address derived as `addr`.
pub open spec fn key_of(key: Pubkey, addr: Option<(Seq<u8>, u8)>) -> bool {
    addr matches Some((a, _)) && key.bytes@ == a
}

/// The address of the boost account of `mint`.
pub open spec fn boost_address_spec(mint: Seq<u8>) -> Option<(Seq<u8>, u8)> {
    spec_program_address(boost_seeds(mint), PROGRAM_ID@)
}

/// The address of the config account.
pub open spec fn config_address_spec() -> Option<(Seq<u8>, u8)> {
    spec_program_address(config_seeds(), PROGRAM_ID@)
}

/// The address of the ORE proof of `authority`.
pub open spec fn proof_address_spec(authority: Seq<u8>) -> Option<(Seq<u8>, u8)> {
    spec_program_address(proof_seeds(authority), ORE_PROGRAM_ID@)
}

/// The address of the ORE treasury.
pub open spec fn treasury_address_spec() -> Option<(Seq<u8>, u8)> {
    spec_program_address(treasury_seeds(), ORE_PROGRAM_ID@)
}

/// The associated token account of `wallet` for `mint`.
pub open spec fn token_address_spec(wallet: Seq<u8>, mint: Seq<u8>) -> Option<(Seq<u8>, u8)> {
    spec_program_address(associated_token_seeds(wallet, mint), ASSOCIATED_TOKEN_PROGRAM_ID@)
}

/// The address of the stake account of `authority` in `boost`.
pub open spec fn stake_address_spec(authority: Seq<u8>, boost: Seq<u8>) -> Option<(Seq<u8>, u8)> {
    spec_program_address(stake_seeds(authority, boost), PROGRAM_ID@)
}

/// The accounts of the ORE program that the staking instructions pass along: every one of
/// them derives.
pub open spec fn ore_accounts_derive(config: Seq<u8>) -> bool {
    &&& proof_address_spec(config) is Some
    &&& token_address_spec(config, ORE_MINT_ADDRESS@) is Some
    &&& treasury_address_spec() is Some
    &&& token_address_spec(derived(treasury_address_spec()), ORE_MINT_ADDRESS@) is Some
}

/// The derived ORE accounts: the config's proof, the config's ORE rewards account, the
/// treasury and the treasury's ORE account, in this order.
fn ore_accounts(config: Pubkey) -> (r: Option<(Pubkey, Pubkey, Pubkey, Pubkey)>)
    ensures
        r is Some <==> ore_accounts_derive(config.bytes@),
        r matches Some((proof, rewards, treasury, treasury_tokens)) ==> {
            &&& key_of(proof, proof_address_spec(config.bytes@))
            &&& key_of(rewards, token_address_spec(config.bytes@, ORE_MINT_ADDRESS@))
            &&& key_of(treasury, treasury_address_spec())
            &&& key_of(treasury_tokens, token_address_spec(treasury.bytes@, ORE_MINT_ADDRESS@))
        },
{
    let ore = Pubkey { bytes: ORE_MINT_ADDRESS };
    let proof = proof_pda(config);
    let rewards = associated_token_address(config, ore);
    let treasury = treasury_pda();
    let (proof, rewards, treasury) = match (proof, rewards, treasury) {
        (Some(p), Some(w), Some(t)) => (p.0, w, t.0),
        _ => return None,
    };
    let treasury_tokens = associated_token_address(treasury, ore)?;
    Some((proof, rewards, treasury, treasury_tokens))
}

/// `r` is what building the claim instruction gives: the instruction exactly when every
/// account derives, with the signer, the beneficiary, the boost, the config, the config's
/// proof and ORE account, the stake, the treasury and its ORE account, the ORE program and
/// the token program; the amount little-endian after the discriminator.
pub open spec fn claim_built(r: Option<Instruction>, signer: Pubkey, beneficiary: Pubkey, mint: Pubkey, amount: u64) -> bool {
    &&& (r is Some <==> {
        &&& boost_address_spec(mint.bytes@) is Some
        &&& config_address_spec() is Some
        &&& ore_accounts_derive(derived(config_address_spec()))
        &&& stake_address_spec(signer.bytes@, derived(boost_address_spec(mint.bytes@))) is Some
    })
    &&& r matches Some(ix) ==> exists|boost: Pubkey, config: Pubkey, proof: Pubkey, rewards: Pubkey, stake: Pubkey,
        treasury: Pubkey, treasury_tokens: Pubkey|
        key_of(boost, boost_address_spec(mint.bytes@)) && key_of(config, config_address_spec()) && key_of(
            proof,
            proof_address_spec(config.bytes@),
        ) && key_of(rewards, token_address_spec(config.bytes@, ORE_MINT_ADDRESS@)) && key_of(
            stake,
            stake_address_spec(signer.bytes@, boost.bytes@),
        ) && key_of(treasury, treasury_address_spec()) && key_of(
            treasury_tokens,
            token_address_spec(treasury.bytes@, ORE_MINT_ADDRESS@),
        ) && builds(
            ix,
            seq![
                writable(signer, true),
                writable(beneficiary, false),
                writable(boost, false),
                writable(config, false),
                writable(proof, false),
                writable(rewards, false),
                writable(stake, false),
                readonly(treasury, false),
                writable(treasury_tokens, false),
                readonly(Pubkey { bytes: ORE_PROGRAM_ID }, false),
                readonly(Pubkey { bytes: TOKEN_PROGRAM_ID }, false),
            ],
            seq![discriminator_of(BoostInstruction::Claim)] + spec_u64_to_le_bytes(amount),
        )
}

/// Build claim instruction.
pub fn claim(signer: Pubkey, beneficiary: Pubkey, mint: Pubkey, amount: u64) -> (r: Option<Instruction>)
    ensures
        claim_built(r, signer, beneficiary, mint, amount),
{
    let boost = boost_pda(mint)?.0;
    let config = config_pda()?.0;
    let (proof, rewards, treasury, treasury_tokens) = ore_accounts(config)?;
    let stake = stake_pda(signer, boost)?.0;
    let args = Claim::new(amount);
    let accounts = vec![
        meta(signer, true, true),
        meta(beneficiary, false, true),
        meta(boost, false, true),
        meta(config, false, true),
        meta(proof, false, true),
        meta(rewards, false, true),
        meta(stake, false, true),
        meta(treasury, false, false),
        meta(treasury_tokens, false, true),
        meta(Pubkey { bytes: ORE_PROGRAM_ID }, false, false),
        meta(token_program_id(), false, false),
    ];
    let ix = Instruction { program_id: Pubkey { bytes: PROGRAM_ID }, accounts, data: args.to_bytes() };
    assert(builds(
        ix,
        seq![
            writable(signer, true),
            writable(beneficiary, false),
            writable(boost, false),
            writable(config, false),
            writable(proof, false),
            writable(rewards, false),
            writable(stake, false),
            readonly(treasury, false),
            writable(treasury_tokens, false),
            readonly(Pubkey { bytes: ORE_PROGRAM_ID }, false),
            readonly(Pubkey { bytes: TOKEN_PROGRAM_ID }, false),
        ],
        seq![discriminator_of(BoostInstruction::Claim)] + spec_u64_to_le_bytes(amount),
    ));
    Some(ix)
}

/// `r` is what building the deposit instruction gives: the instruction exactly when every
/// account derives, with the signer, the boost, the config, the boost's deposits account, the
/// mint, the config's proof and ORE account, the signer's token account, the stake, the
/// treasury and its ORE account, the ORE program and the token program; the amount
/// little-endian after the discriminator.
pub open spec fn deposit_built(r: Option<Instruction>, signer: Pubkey, mint: Pubkey, amount: u64) -> bool {
    &&& (r is Some <==> {
        &&& boost_address_spec(mint.bytes@) is Some
        &&& config_address_spec() is Some
        &&& token_address_spec(derived(boost_address_spec(mint.bytes@)), mint.bytes@) is Some
        &&& ore_accounts_derive(derived(config_address_spec()))
        &&& token_address_spec(signer.bytes@, mint.bytes@) is Some
        &&& stake_address_spec(signer.bytes@, derived(boost_address_spec(mint.bytes@))) is Some
    })
    &&& r matches Some(ix) ==> exists|boost: Pubkey, config: Pubkey, deposits: Pubkey, proof: Pubkey, rewards: Pubkey,
        sender: Pubkey, stake: Pubkey, treasury: Pubkey, treasury_tokens: Pubkey|
        key_of(boost, boost_address_spec(mint.bytes@)) && key_of(config, config_address_spec()) && key_of(
            deposits,
            token_address_spec(boost.bytes@, mint.bytes@),
        ) && key_of(proof, proof_address_spec(config.bytes@)) && key_of(
            rewards,
            token_address_spec(config.bytes@, ORE_MINT_ADDRESS@),
        ) && key_of(sender, token_address_spec(signer.bytes@, mint.bytes@)) && key_of(
            stake,
            stake_address_spec(signer.bytes@, boost.bytes@),
        ) && key_of(treasury, treasury_address_spec()) && key_of(
            treasury_tokens,
            token_address_spec(treasury.bytes@, ORE_MINT_ADDRESS@),
        ) && builds(
            ix,
            seq![
                writable(signer, true),
                writable(boost, false),
                writable(config, false),
                writable(deposits, false),
                readonly(mint, false),
                writable(proof, false),
                writable(rewards, false),
                writable(sender, false),
                writable(stake, false),
                readonly(treasury, false),
                writable(treasury_tokens, false),
                readonly(Pubkey { bytes: ORE_PROGRAM_ID }, false),
                readonly(Pubkey { bytes: TOKEN_PROGRAM_ID }, false),
            ],
            seq![discriminator_of(BoostInstruction::Deposit)] + spec_u64_to_le_bytes(amount),
        )
}

/// Build deposit instruction.
pub fn deposit(signer: Pubkey, mint: Pubkey, amount: u64) -> (r: Option<Instruction>)
    ensures
        deposit_built(r, signer, mint, amount),
{
    let boost = boost_pda(mint)?.0;
    let config = config_pda()?.0;
    let deposits = associated_token_address(boost, mint)?;
    let (proof, rewards, treasury, treasury_tokens) = ore_accounts(config)?;
    let sender = associated_token_address(signer, mint)?;
    let stake = stake_pda(signer, boost)?.0;
    let args = Deposit::new(amount);
    let accounts = vec![
        meta(signer, true, true),
        meta(boost, false, true),
        meta(config, false, true),
        meta(deposits, false, true),
        meta(mint, false, false),
        meta(proof, false, true),
        meta(rewards, false, true),
        meta(sender, false, true),
        meta(stake, false, true),
        meta(treasury, false, false),
        meta(treasury_tokens, false, true),
        meta(Pubkey { bytes: ORE_PROGRAM_ID }, false, false),
        meta(token_program_id(), false, false),
    ];
    let ix = Instruction { program_id: Pubkey { bytes: PROGRAM_ID }, accounts, data: args.to_bytes() };
    assert(builds(
        ix,
        seq![
            writable(signer, true),
            writable(boost, false),
            writable(config, false),
            writable(deposits, false),
            readonly(mint, false),
            writable(proof, false),
            writable(rewards, false),
            writable(sender, false),
            writable(stake, false),
            readonly(treasury, false),
            writable(treasury_tokens, false),
            readonly(Pubkey { bytes: ORE_PROGRAM_ID }, false),
            readonly(Pubkey { bytes: TOKEN_PROGRAM_ID }, false),
        ],
        seq![discriminator_of(BoostInstruction::Deposit)] + spec_u64_to_le_bytes(amount),
    ));
    Some(ix)
}

/// `r` is what building the withdraw instruction gives: the instruction exactly when every
/// account derives, with the signer, the signer's token account, the boost, the config, the
/// boost's deposits account, the mint, the config's proof and ORE account, the stake, the
/// treasury and its ORE account, the ORE program and the token program; the amount
/// little-endian after the discriminator.
pub open spec fn withdraw_built(r: Option<Instruction>, signer: Pubkey, mint: Pubkey, amount: u64) -> bool {
    &&& (r is Some <==> {
        &&& boost_address_spec(mint.bytes@) is Some
        &&& config_address_spec() is Some
        &&& token_address_spec(derived(boost_address_spec(mint.bytes@)), mint.bytes@) is Some
        &&& ore_accounts_derive(derived(config_address_spec()))
        &&& token_address_spec(signer.bytes@, mint.bytes@) is Some
        &&& stake_address_spec(signer.bytes@, derived(boost_address_spec(mint.bytes@))) is Some
    })
    &&& r matches Some(ix) ==> exists|boost: Pubkey, config: Pubkey, deposits: Pubkey, proof: Pubkey, rewards: Pubkey,
        beneficiary: Pubkey, stake: Pubkey, treasury: Pubkey, treasury_tokens: Pubkey|
        key_of(boost, boost_address_spec(mint.bytes@)) && key_of(config, config_address_spec()) && key_of(
            deposits,
            token_address_spec(boost.bytes@, mint.bytes@),
        ) && key_of(proof, proof_address_spec(config.bytes@)) && key_of(
            rewards,
            token_address_spec(config.bytes@, ORE_MINT_ADDRESS@),
        ) && key_of(beneficiary, token_address_spec(signer.bytes@, mint.bytes@)) && key_of(
            stake,
            stake_address_spec(signer.bytes@, boost.bytes@),
        ) && key_of(treasury, treasury_address_spec()) && key_of(
            treasury_tokens,
            token_address_spec(treasury.bytes@, ORE_MINT_ADDRESS@),
        ) && builds(
            ix,
            seq![
                writable(signer, true),
                writable(beneficiary, false),
                writable(boost, false),
                writable(config, false),
                writable(deposits, false),
                readonly(mint, false),
                writable(proof, false),
                writable(rewards, false),
                writable(stake, false),
                readonly(treasury, false),
                writable(treasury_tokens, false),
                readonly(Pubkey { bytes: ORE_PROGRAM_ID }, false),
                readonly(Pubkey { bytes: TOKEN_PROGRAM_ID }, false),
            ],
            seq![discriminator_of(BoostInstruction::Withdraw)] + spec_u64_to_le_bytes(amount),
        )
}

/// Build withdraw instruction.
pub fn withdraw(signer: Pubkey, mint: Pubkey, amount: u64) -> (r: Option<Instruction>)
    ensures
        withdraw_built(r, signer, mint, amount),
{
    let boost = boost_pda(mint)?.0;
    let config = config_pda()?.0;
    let deposits = associated_token_address(boost, mint)?;
    let (proof, rewards, treasury, treasury_tokens) = ore_accounts(config)?;
    let beneficiary = associated_token_address(signer, mint)?;
    let stake = stake_pda(signer, boost)?.0;
    let args = Withdraw::new(amount);
    let accounts = vec![
        meta(signer, true, true),
        meta(beneficiary, false, true),
        meta(boost, false, true),
        meta(config, false, true),
        meta(deposits, false, true),
        meta(mint, false, false),
        meta(proof, false, true),
        meta(rewards, false, true),
        meta(stake, false, true),
        meta(treasury, false, false),
        meta(treasury_tokens, false, true),
        meta(Pubkey { bytes: ORE_PROGRAM_ID }, false, false),
        meta(token_program_id(), false, false),
    ];
    let ix = Instruction { program_id: Pubkey { bytes: PROGRAM_ID }, accounts, data: args.to_bytes() };
    assert(builds(
        ix,
        seq![
            writable(signer, true),
            writable(beneficiary, false),
            writable(boost, false),
            writable(config, false),
            writable(deposits, false),
            readonly(mint, false),
            writable(proof, false),
            writable(rewards, false),
            writable(stake, false),
            readonly(treasury, false),
            writable(treasury_tokens, false),
            readonly(Pubkey { bytes: ORE_PROGRAM_ID }, false),
            readonly(Pubkey { bytes: TOKEN_PROGRAM_ID }, false),
        ],
        seq![discriminator_of(BoostInstruction::Withdraw)] + spec_u64_to_le_bytes(amount),
    ));
    Some(ix)
}

/// `r` is what building the update-boost instruction gives: the instruction exactly when
/// every account derives, with the signer, the boost, the config, the boost's proof, the
/// config's ORE account, the treasury and its ORE account (both writable), the ORE program and
/// the token program; the expiry and weight little-endian after the discriminator.
pub open spec fn update_boost_built(r: Option<Instruction>, signer: Pubkey, boost: Pubkey, expires_at: i64, weight: u64) -> bool {
    &&& (r is Some <==> {
        &&& config_address_spec() is Some
        &&& proof_address_spec(boost.bytes@) is Some
        &&& token_address_spec(derived(config_address_spec()), ORE_MINT_ADDRESS@) is Some
        &&& treasury_address_spec() is Some
        &&& token_address_spec(derived(treasury_address_spec()), ORE_MINT_ADDRESS@) is Some
    })
    &&& r matches Some(ix) ==> exists|config: Pubkey, proof: Pubkey, rewards: Pubkey, treasury: Pubkey,
        treasury_tokens: Pubkey|
        key_of(config, config_address_spec()) && key_of(proof, proof_address_spec(boost.bytes@)) && key_of(
            rewards,
            token_address_spec(config.bytes@, ORE_MINT_ADDRESS@),
        ) && key_of(treasury, treasury_address_spec()) && key_of(
            treasury_tokens,
            token_address_spec(treasury.bytes@, ORE_MINT_ADDRESS@),
        ) && builds(
            ix,
            seq![
                writable(signer, true),
                writable(boost, false),
                writable(config, false),
                writable(proof, false),
                writable(rewards, false),
                writable(treasury, false),
                writable(treasury_tokens, false),
                readonly(Pubkey { bytes: ORE_PROGRAM_ID }, false),
                readonly(Pubkey { bytes: TOKEN_PROGRAM_ID }, false),
            ],
            seq![discriminator_of(BoostInstruction::UpdateBoost)] + spec_u64_to_le_bytes(expires_at as u64)
                + spec_u64_to_le_bytes(weight),
        )
}

/// Build update_boost instruction.
pub fn update_boost(signer: Pubkey, boost: Pubkey, expires_at: i64, weight: u64) -> (r: Option<Instruction>)
    ensures
        update_boost_built(r, signer, boost, expires_at, weight),
{
    let ore = Pubkey { bytes: ORE_MINT_ADDRESS };
    let config = config_pda()?.0;
    let proof = proof_pda(boost)?.0;
    let rewards = associated_token_address(config, ore)?;
    let treasury = treasury_pda()?.0;
    let treasury_tokens = associated_token_address(treasury, ore)?;
    let args = UpdateBoost::new(expires_at, weight);
    let accounts = vec![
        meta(signer, true, true),
        meta(boost, false, true),
        meta(config, false, true),
        meta(proof, false, true),
        meta(rewards, false, true),
        meta(treasury, false, true),
        meta(treasury_tokens, false, true),
        meta(Pubkey { bytes: ORE_PROGRAM_ID }, false, false),
        meta(token_program_id(), false, false),
    ];
    let ix = Instruction { program_id: Pubkey { bytes: PROGRAM_ID }, accounts, data: args.to_bytes() };
    assert(builds(
        ix,
        seq![
            writable(signer, true),
            writable(boost, false),
            writable(config, false),
            writable(proof, false),
            writable(rewards, false),
            writable(treasury, false),
            writable(treasury_tokens, false),
            readonly(Pubkey { bytes: ORE_PROGRAM_ID }, false),
            readonly(Pubkey { bytes: TOKEN_PROGRAM_ID }, false),
        ],
        seq![discriminator_of(BoostInstruction::UpdateBoost)] + spec_u64_to_le_bytes(expires_at as u64)
            + spec_u64_to_le_bytes(weight),
    ));
    Some(ix)
}

/// Returns `solana_program::address_lookup_table::program::ID`, declared (in
/// `solana-sdk-ids`) as `AddressLookupTab1e1111111111111111111111111`.
#[verifier::external_body]
#[allow(deprecated)]
fn lookup_table_program_id() -> (r: Pubkey)
    ensures
        r.bytes == LOOKUP_TABLE_PROGRAM_ID,
{
    Pubkey { bytes: solana_program::address_lookup_table::program::ID.to_bytes() }
}

/// The seeds of the stake lookup table record of a boost with the given id.
pub open spec fn stake_lookup_table_seeds(boost: Seq<u8>, lut_id: u64) -> Seq<Seq<u8>> {
    seq![STAKE_LOOKUP_TABLE@, boost, spec_u64_to_le_bytes(lut_id)]
}

/// The seeds of an address lookup table made by `authority` at `slot`.
pub open spec fn lookup_table_seeds(authority: Seq<u8>, slot: u64) -> Seq<Seq<u8>> {
    seq![authority, spec_u64_to_le_bytes(slot)]
}

/// Fetch the PDA of a boost's stake lookup table record.
pub fn stake_lookup_table_pda(boost: Pubkey, lut_id: u64) -> (r: Option<(Pubkey, u8)>)
    ensures
        is_address_for(r, stake_lookup_table_seeds(boost.bytes@, lut_id), PROGRAM_ID@),
{
    let seeds = vec![bytes_of(&STAKE_LOOKUP_TABLE), bytes_of(&boost.bytes), vstd::bytes::u64_to_le_bytes(lut_id)];
    proof {
        lemma_deep_view_bytes(seeds, stake_lookup_table_seeds(boost.bytes@, lut_id));
    }
    find_program_address(&seeds, &Pubkey { bytes: PROGRAM_ID })
}

/// Fetch the address of the lookup table made by `authority` at `slot`.
pub fn lookup_table_pda(authority: Pubkey, slot: u64) -> (r: Option<(Pubkey, u8)>)
    ensures
        is_address_for(r, lookup_table_seeds(authority.bytes@, slot), LOOKUP_TABLE_PROGRAM_ID@),
{
    let seeds = vec![bytes_of(&authority.bytes), vstd::bytes::u64_to_le_bytes(slot)];
    proof {
        lemma_deep_view_bytes(seeds, lookup_table_seeds(authority.bytes@, slot));
    }
    find_program_address(&seeds, &lookup_table_program_id())
}

/// Whether `key` is the associated token account of `wallet` for `mint`.
pub fn is_associated_token_address(key: &Pubkey, wallet: Pubkey, mint: Pubkey) -> (r: bool)
    ensures
        r == key_of(*key, token_address_spec(wallet.bytes@, mint.bytes@)),
{
    match associated_token_address(wallet, mint) {
        Some(address) => {
            proof {
                if key_of(*key, token_address_spec(wallet.bytes@, mint.bytes@)) {
                    assert(address.bytes =~= key.bytes);
                }
            }
            address == *key
        },
        None => false,
    }
}

} // verus!
