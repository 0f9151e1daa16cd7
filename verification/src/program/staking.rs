//! Staker instructions: Claim, Close, Deposit, Withdraw.
use vstd::prelude::*;

use crate::chain::{Clock, Proof, TokenAccount};
use crate::consts::{ore_mint_address, DENOMINATOR_BPS, SYSTEM_PROGRAM_ID};
use crate::error::ProgramError;
use crate::pubkey::Pubkey;
use crate::sdk::{is_associated_token_address, key_of, token_address_spec};
use crate::state::boost::Boost;
use crate::state::config::Config;
use crate::state::stake::{Stake, min_u64};

verus! {

/// The stake belongs to the signer and to the boost at `boost_address`.
pub open spec fn owns_stake(stake: Stake, signer: Pubkey, boost_address: Pubkey) -> bool {
    stake.authority == signer && stake.boost == boost_address
}

/// Claim distributes rewards to a staker.
///
/// Fails with `InvalidAccountData` unless the beneficiary holds ORE and the stake belongs to
/// the signer and the boost. Otherwise the stake claims (the reserve's token balance stands
/// where the proof balance does) and the claimed amount is returned for the transfer.
///
/// An unsigned call fails with `MissingRequiredSignature` and changes nothing.
pub fn process_claim(
    signer: &Pubkey,
    signed: bool,
    boost_address: &Pubkey,
    beneficiary: &TokenAccount,
    boost: &mut Boost,
    config: &mut Config,
    reserve_amount: u64,
    stake: &mut Stake,
    clock: &Clock,
    amount: u64,
) -> (r: Result<u64, ProgramError>)
    requires
        signed ==> (beneficiary.mint.bytes == crate::consts::ORE_MINT_ADDRESS && owns_stake(
            *old(stake),
            *signer,
            *boost_address,
        ) ==> old(stake).collect_fits(*old(boost), *old(config), reserve_amount)),
    ensures
        !signed ==> r == Err::<u64, ProgramError>(ProgramError::MissingRequiredSignature),
        signed ==> (r is Err ==> r == Err::<u64, ProgramError>(ProgramError::InvalidAccountData)),
        signed ==> (!(beneficiary.mint.bytes == crate::consts::ORE_MINT_ADDRESS && owns_stake(
            *old(stake),
            *signer,
            *boost_address,
        )) <==> r == Err::<u64, ProgramError>(ProgramError::InvalidAccountData)),
        r is Err ==> *final(stake) == *old(stake) && *final(boost) == *old(boost) && *final(config)
            == *old(config),
        r matches Ok(a) ==> Stake::claimed(
            *old(stake),
            *old(boost),
            *old(config),
            reserve_amount,
            amount,
            clock.unix_timestamp,
            *final(stake),
            *final(boost),
            *final(config),
            a,
        ),
{
    if !signed {
        return Err(ProgramError::MissingRequiredSignature);
    }
    let ore = ore_mint_address();
    if !(beneficiary.mint == ore) {
        return Err(ProgramError::InvalidAccountData);
    }
    if !(stake.authority == *signer) || !(stake.boost == *boost_address) {
        return Err(ProgramError::InvalidAccountData);
    }
    // Claim rewards.
    let claimed = stake.claim(amount, boost, clock, config, &Proof::holding(reserve_amount));
    Ok(claimed)
}

/// The error Close raises, or `None` when its checks pass.
pub open spec fn close_error(
    signer: Pubkey,
    signed: bool,
    boost_address: Pubkey,
    stake: Stake,
    stake_writable: bool,
    system_program: Pubkey,
) -> Option<ProgramError> {
    if !signed {
        Some(ProgramError::MissingRequiredSignature)
    } else if !stake_writable {
        Some(ProgramError::MissingRequiredSignature)
    } else if stake.authority != signer {
        Some(ProgramError::MissingRequiredSignature)
    } else if !(stake.boost == boost_address && stake.balance == 0 && stake.rewards == 0) {
        Some(ProgramError::InvalidAccountData)
    } else if system_program.bytes != SYSTEM_PROGRAM_ID {
        Some(ProgramError::InvalidAccountData)
    } else {
        None
    }
}

/// Close closes a stake account that holds neither balance nor rewards.
///
/// Fails as `close_error` says: with `MissingRequiredSignature` when the signer did not sign,
/// the stake account is not writable or the stake is not the signer's, and with
/// `InvalidAccountData` when it belongs to another boost, still holds balance or rewards, or
/// the system program is not given. Otherwise the boost counts one staker less.
pub fn process_close(
    signer: &Pubkey,
    signed: bool,
    boost_address: &Pubkey,
    boost: &mut Boost,
    stake: &Stake,
    stake_writable: bool,
    system_program: &Pubkey,
) -> (r: Result<(), ProgramError>)
    requires
        close_error(*signer, signed, *boost_address, *stake, stake_writable, *system_program) is None
            ==> old(boost).total_stakers > 0,
    ensures
        match close_error(*signer, signed, *boost_address, *stake, stake_writable, *system_program) {
            Some(e) => r == Err::<(), ProgramError>(e),
            None => r is Ok,
        },
        r is Err ==> *final(boost) == *old(boost),
        r is Ok ==> *final(boost) == (Boost { total_stakers: (old(boost).total_stakers - 1) as u64, ..*old(boost) }),
{
    if !signed {
        return Err(ProgramError::MissingRequiredSignature);
    }
    if !stake_writable {
        return Err(ProgramError::MissingRequiredSignature);
    }
    if !(stake.authority == *signer) {
        return Err(ProgramError::MissingRequiredSignature);
    }
    if !(stake.boost == *boost_address) || stake.balance != 0 || stake.rewards != 0 {
        return Err(ProgramError::InvalidAccountData);
    }
    if !(*system_program == (Pubkey { bytes: SYSTEM_PROGRAM_ID })) {
        return Err(ProgramError::InvalidAccountData);
    }
    // Update boost total stakers
    boost.total_stakers = boost.total_stakers - 1;
    Ok(())
}

/// The checks Deposit makes: the boost is for `mint`, the deposits account is the boost's
/// token account for the mint, the proof belongs to the config, the sender is the signer's
/// token account for the mint, and the stake belongs to the signer and the boost.
pub open spec fn deposit_allowed(
    signer: Pubkey,
    boost_address: Pubkey,
    config_address: Pubkey,
    mint: Pubkey,
    deposits_address: Pubkey,
    sender_address: Pubkey,
    boost: Boost,
    proof: Proof,
    stake: Stake,
) -> bool {
    &&& boost.mint == mint
    &&& key_of(deposits_address, token_address_spec(boost_address.bytes@, boost.mint.bytes@))
    &&& proof.authority == config_address
    &&& key_of(sender_address, token_address_spec(signer.bytes@, boost.mint.bytes@))
    &&& owns_stake(stake, signer, boost_address)
}

/// Deposit adds tokens to a stake account.
///
/// Fails with `MissingRequiredSignature` when the signer did not sign, and with
/// `InvalidAccountData` unless the checks of `deposit_allowed` pass. Otherwise the stake deposits the
/// requested amount capped at the sender's balance, which is returned for the transfer.
pub fn process_deposit(
    signer: &Pubkey,
    signed: bool,
    boost_address: &Pubkey,
    config_address: &Pubkey,
    mint: &Pubkey,
    deposits_address: &Pubkey,
    sender_address: &Pubkey,
    boost: &mut Boost,
    config: &mut Config,
    proof: &Proof,
    sender: &TokenAccount,
    stake: &mut Stake,
    clock: &Clock,
    amount: u64,
) -> (r: Result<u64, ProgramError>)
    requires
        signed ==> (deposit_allowed(*signer, *boost_address, *config_address, *mint, *deposits_address, *sender_address, *old(boost), *proof, *old(stake)) ==> {
            &&& old(stake).collect_fits(*old(boost), *old(config), proof.balance)
            &&& old(boost).total_deposits + min_u64(amount, sender.amount) <= u64::MAX
            &&& old(stake).balance + min_u64(amount, sender.amount) <= u64::MAX
        }),
    ensures
        !signed ==> r == Err::<u64, ProgramError>(ProgramError::MissingRequiredSignature),
        signed ==> (r is Err ==> r == Err::<u64, ProgramError>(ProgramError::InvalidAccountData)),
        signed ==> (!deposit_allowed(*signer, *boost_address, *config_address, *mint, *deposits_address, *sender_address, *old(boost), *proof, *old(stake)) <==> r == Err::<u64, ProgramError>(ProgramError::InvalidAccountData)),
        r is Err ==> *final(stake) == *old(stake) && *final(boost) == *old(boost) && *final(config)
            == *old(config),
        r matches Ok(a) ==> Stake::deposited(
            *old(stake),
            *old(boost),
            *old(config),
            proof.balance,
            min_u64(amount, sender.amount),
            clock.unix_timestamp,
            *final(stake),
            *final(boost),
            *final(config),
            a,
        ),
{
    if !signed {
        return Err(ProgramError::MissingRequiredSignature);
    }
    if !(boost.mint == *mint) {
        return Err(ProgramError::InvalidAccountData);
    }
    if !is_associated_token_address(deposits_address, *boost_address, boost.mint) {
        return Err(ProgramError::InvalidAccountData);
    }
    if !(proof.authority == *config_address) {
        return Err(ProgramError::InvalidAccountData);
    }
    if !is_associated_token_address(sender_address, *signer, boost.mint) {
        return Err(ProgramError::InvalidAccountData);
    }
    if !(stake.authority == *signer) || !(stake.boost == *boost_address) {
        return Err(ProgramError::InvalidAccountData);
    }
    // Deposit into the boost.
    let sender_amount = sender.amount();
    let amount = if amount <= sender_amount { amount } else { sender_amount };
    let deposited = stake.deposit(amount, boost, clock, config, proof, sender);
    Ok(deposited)
}

/// The part of a withdrawn `amount` charged as the boost's withdraw fee of `fee_bps` basis
/// points: `amount * fee_bps / 10_000` rounded down, at most the amount itself.
pub open spec fn withdraw_fee_on(amount: u64, fee_bps: u64) -> int {
    let fee = (amount * fee_bps) / (DENOMINATOR_BPS as int);
    if fee <= amount {
        fee
    } else {
        amount as int
    }
}

/// The withdraw fee on `amount`.
fn withdraw_fee(amount: u64, fee_bps: u64) -> (r: u64)
    ensures
        r == withdraw_fee_on(amount, fee_bps),
{
    proof {
        assert(amount * fee_bps <= u64::MAX * u64::MAX) by (nonlinear_arith)
            requires
                amount <= u64::MAX,
                fee_bps <= u64::MAX,
        ;
        assert(amount * fee_bps >= 0) by (nonlinear_arith);
    }
    let fee = (amount as u128) * (fee_bps as u128) / (DENOMINATOR_BPS as u128);
    if fee <= amount as u128 {
        fee as u64
    } else {
        amount
    }
}

/// The checks Withdraw makes: the beneficiary holds `mint`, the boost is for `mint`, the
/// deposits account is the boost's token account for the mint, and the stake belongs to the
/// signer and the boost.
pub open spec fn withdraw_allowed(
    signer: Pubkey,
    boost_address: Pubkey,
    mint: Pubkey,
    deposits_address: Pubkey,
    beneficiary: TokenAccount,
    boost: Boost,
    stake: Stake,
) -> bool {
    &&& beneficiary.mint == mint
    &&& boost.mint == mint
    &&& key_of(deposits_address, token_address_spec(boost_address.bytes@, mint.bytes@))
    &&& owns_stake(stake, signer, boost_address)
}

/// Withdraw unstakes tokens from a stake account.
///
/// Fails with `InvalidAccountData` unless the checks of `withdraw_allowed` pass. Otherwise the
/// stake withdraws the requested amount capped at its balance (the reserve's token balance
/// stands where the proof balance does). Of the withdrawn amount the boost's withdraw fee (in basis points) is
/// charged: it stays in the boost's deposits account as protocol fee. Returns what goes to the
/// beneficiary and the fee, which add up to the withdrawn amount.
///
/// An unsigned call fails with `MissingRequiredSignature` and changes nothing.
pub fn process_withdraw(
    signer: &Pubkey,
    signed: bool,
    boost_address: &Pubkey,
    mint: &Pubkey,
    deposits_address: &Pubkey,
    beneficiary: &TokenAccount,
    boost: &mut Boost,
    config: &mut Config,
    reserve_amount: u64,
    stake: &mut Stake,
    clock: &Clock,
    amount: u64,
) -> (r: Result<(u64, u64), ProgramError>)
    requires
        signed ==> (withdraw_allowed(*signer, *boost_address, *mint, *deposits_address, *beneficiary, *old(boost), *old(stake)) ==> {
            &&& old(stake).collect_fits(*old(boost), *old(config), reserve_amount)
            &&& old(boost).total_deposits >= min_u64(amount, old(stake).balance)
        }),
    ensures
        !signed ==> r == Err::<(u64, u64), ProgramError>(ProgramError::MissingRequiredSignature),
        signed ==> (r is Err ==> r == Err::<(u64, u64), ProgramError>(ProgramError::InvalidAccountData)),
        signed ==> (!(withdraw_allowed(*signer, *boost_address, *mint, *deposits_address, *beneficiary, *old(boost), *old(stake))) <==> r == Err::<(u64, u64), ProgramError>(ProgramError::InvalidAccountData)),
        r is Err ==> *final(stake) == *old(stake) && *final(boost) == *old(boost) && *final(config)
            == *old(config),
        r matches Ok((paid, fee)) ==> {
            &&& Stake::withdrawn(
                *old(stake),
                *old(boost),
                *old(config),
                reserve_amount,
                amount,
                clock.unix_timestamp,
                *final(stake),
                *final(boost),
                *final(config),
                (paid + fee) as u64,
            )
            &&& paid + fee <= u64::MAX
            &&& fee == withdraw_fee_on((paid + fee) as u64, old(boost).withdraw_fee)
        },
{
    if !signed {
        return Err(ProgramError::MissingRequiredSignature);
    }
    if !(beneficiary.mint == *mint) {
        return Err(ProgramError::InvalidAccountData);
    }
    if !(boost.mint == *mint) {
        return Err(ProgramError::InvalidAccountData);
    }
    if !is_associated_token_address(deposits_address, *boost_address, *mint) {
        return Err(ProgramError::InvalidAccountData);
    }
    if !(stake.authority == *signer) || !(stake.boost == *boost_address) {
        return Err(ProgramError::InvalidAccountData);
    }
    // Withdraw stake.
    let withdrawn = stake.withdraw(amount, boost, clock, config, &Proof::holding(reserve_amount));
    // Charge the withdraw fee.
    let fee = withdraw_fee(withdrawn, boost.withdraw_fee);
    Ok((withdrawn - fee, fee))
}

} // verus!
