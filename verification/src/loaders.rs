//! Checks that an account passed to the program is the account it claims to be.
use vstd::prelude::*;

use crate::consts::PROGRAM_ID;
use crate::error::ProgramError;
use crate::pubkey::Pubkey;
use crate::sdk::{config_pda, config_seeds, spec_program_address};
use crate::state::boost::Boost;
use crate::state::codec::{
    account_ok, boost_layout, stake_layout, BOOST_DISCRIMINATOR, BOOST_LEN, CONFIG_DISCRIMINATOR, CONFIG_LEN, HEADER_LEN,
    STAKE_DISCRIMINATOR, STAKE_LEN,
};
use crate::state::stake::Stake;

verus! {

/// What the program sees of an account passed to an instruction.
#[derive(Clone, Debug)]
pub struct AccountView {
    pub key: Pubkey,
    pub owner: Pubkey,
    pub is_signer: bool,
    pub is_writable: bool,
    pub data: Vec<u8>,
}

/// Reading the account's data as `discriminator`'s type does not run past its end.
pub open spec fn readable(info: AccountView, discriminator: u8) -> bool {
    info.owner.bytes == PROGRAM_ID && info.data@.len() > 0 && info.data@[0] == discriminator
        ==> info.data@.len() >= HEADER_LEN
}

/// Errors if:
/// - Owner is not Boost program.
/// - Data is empty.
/// - Data cannot deserialize into a boost account.
/// - The boost is for another mint.
/// - Expected to be writable, but is not.
pub fn load_boost(info: &AccountView, mint: &Pubkey, is_writable: bool) -> (r: Result<(), ProgramError>)
    requires
        readable(*info, BOOST_DISCRIMINATOR),
    ensures
        info.owner.bytes != PROGRAM_ID ==> r == Err::<(), ProgramError>(ProgramError::InvalidAccountOwner),
        info.owner.bytes == PROGRAM_ID && info.data@.len() == 0 ==> r == Err::<(), ProgramError>(
            ProgramError::UninitializedAccount,
        ),
        info.owner.bytes == PROGRAM_ID && info.data@.len() > 0 ==> (r is Ok <==> account_ok(
            info.data@,
            BOOST_DISCRIMINATOR,
            BOOST_LEN as int,
        ) && (forall|b: Boost| boost_layout(b, info.data@.skip(HEADER_LEN as int)) ==> b.mint == *mint) && (
        is_writable ==> info.is_writable)),
        info.owner.bytes == PROGRAM_ID && info.data@.len() > 0 && r is Err ==> r == Err::<(), ProgramError>(
            ProgramError::InvalidAccountData,
        ),
{
    if info.owner != (Pubkey { bytes: PROGRAM_ID }) {
        return Err(ProgramError::InvalidAccountOwner);
    }
    if info.data.len() == 0 {
        return Err(ProgramError::UninitializedAccount);
    }
    let boost = Boost::try_from_bytes(info.data.as_slice())?;
    proof {
        assert forall|b: Boost| boost_layout(b, info.data@.skip(HEADER_LEN as int)) implies b == boost by {
            crate::state::codec::lemma_boost_layout_unique(b, boost, info.data@.skip(HEADER_LEN as int));
        }
    }
    if boost.mint != *mint {
        return Err(ProgramError::InvalidAccountData);
    }
    if is_writable && !info.is_writable {
        return Err(ProgramError::InvalidAccountData);
    }
    Ok(())
}

/// Errors if:
/// - Owner is not Boost program.
/// - Data is empty.
/// - Data cannot be read as a boost account (discriminator or size).
/// - Expected to be writable, but is not.
pub fn load_any_boost(info: &AccountView, is_writable: bool) -> (r: Result<(), ProgramError>)
    ensures
        r == if info.owner.bytes != PROGRAM_ID {
            Err(ProgramError::InvalidAccountOwner)
        } else if info.data@.len() == 0 {
            Err(ProgramError::UninitializedAccount)
        } else if !account_ok(info.data@, BOOST_DISCRIMINATOR, BOOST_LEN as int) {
            Err(ProgramError::InvalidAccountData)
        } else if is_writable && !info.is_writable {
            Err(ProgramError::InvalidAccountData)
        } else {
            Ok(())
        },
{
    if info.owner != (Pubkey { bytes: PROGRAM_ID }) {
        return Err(ProgramError::InvalidAccountOwner);
    }
    if info.data.len() == 0 {
        return Err(ProgramError::UninitializedAccount);
    }
    if info.data[0] != BOOST_DISCRIMINATOR || info.data.len() != HEADER_LEN + BOOST_LEN {
        return Err(ProgramError::InvalidAccountData);
    }
    if is_writable && !info.is_writable {
        return Err(ProgramError::InvalidAccountData);
    }
    Ok(())
}

/// The account is at the config address (the config PDA of the program).
pub open spec fn at_config_address(info: AccountView) -> bool {
    spec_program_address(config_seeds(), PROGRAM_ID@) matches Some((k, _)) && k == info.key.bytes@
}

/// Errors if:
/// - Owner is not Boost program.
/// - Address does not match the expected address.
/// - Data is empty.
/// - Data cannot be read as a config account (discriminator or size).
/// - Expected to be writable, but is not.
pub fn load_config(info: &AccountView, is_writable: bool) -> (r: Result<(), ProgramError>)
    ensures
        r == if info.owner.bytes != PROGRAM_ID {
            Err(ProgramError::InvalidAccountOwner)
        } else if !at_config_address(*info) {
            Err(ProgramError::InvalidSeeds)
        } else if info.data@.len() == 0 {
            Err(ProgramError::UninitializedAccount)
        } else if !account_ok(info.data@, CONFIG_DISCRIMINATOR, CONFIG_LEN as int) {
            Err(ProgramError::InvalidAccountData)
        } else if is_writable && !info.is_writable {
            Err(ProgramError::InvalidAccountData)
        } else {
            Ok(())
        },
{
    if info.owner != (Pubkey { bytes: PROGRAM_ID }) {
        return Err(ProgramError::InvalidAccountOwner);
    }
    match config_pda() {
        Some((address, _)) => {
            if info.key != address {
                proof {
                    if at_config_address(*info) {
                        assert(info.key.bytes =~= address.bytes);
                    }
                }
                return Err(ProgramError::InvalidSeeds);
            }
        },
        None => {
            return Err(ProgramError::InvalidSeeds);
        },
    }
    if info.data.len() == 0 {
        return Err(ProgramError::UninitializedAccount);
    }
    if info.data[0] != CONFIG_DISCRIMINATOR || info.data.len() != HEADER_LEN + CONFIG_LEN {
        return Err(ProgramError::InvalidAccountData);
    }
    if is_writable && !info.is_writable {
        return Err(ProgramError::InvalidAccountData);
    }
    Ok(())
}

/// Errors if:
/// - Owner is not Boost program.
/// - Data is empty.
/// - Data cannot deserialize into a stake account.
/// - Stake authority does not match the expected address.
/// - Expected to be writable, but is not.
pub fn load_stake(info: &AccountView, authority: &Pubkey, is_writable: bool) -> (r: Result<(), ProgramError>)
    requires
        readable(*info, STAKE_DISCRIMINATOR),
    ensures
        info.owner.bytes != PROGRAM_ID ==> r == Err::<(), ProgramError>(ProgramError::InvalidAccountOwner),
        info.owner.bytes == PROGRAM_ID && info.data@.len() == 0 ==> r == Err::<(), ProgramError>(
            ProgramError::UninitializedAccount,
        ),
        info.owner.bytes == PROGRAM_ID && info.data@.len() > 0 ==> (r is Ok <==> account_ok(
            info.data@,
            STAKE_DISCRIMINATOR,
            STAKE_LEN as int,
        ) && (forall|st: Stake| stake_layout(st, info.data@.skip(HEADER_LEN as int)) ==> st.authority == *authority)
            && (is_writable ==> info.is_writable)),
        info.owner.bytes == PROGRAM_ID && info.data@.len() > 0 && r is Err ==> r == Err::<(), ProgramError>(
            ProgramError::InvalidAccountData,
        ),
{
    if info.owner != (Pubkey { bytes: PROGRAM_ID }) {
        return Err(ProgramError::InvalidAccountOwner);
    }
    if info.data.len() == 0 {
        return Err(ProgramError::UninitializedAccount);
    }
    let stake = Stake::try_from_bytes(info.data.as_slice())?;
    proof {
        assert forall|st: Stake| stake_layout(st, info.data@.skip(HEADER_LEN as int)) implies st == stake by {
            crate::state::codec::lemma_stake_layout_unique(st, stake, info.data@.skip(HEADER_LEN as int));
        }
    }
    if stake.authority != *authority {
        return Err(ProgramError::InvalidAccountData);
    }
    if is_writable && !info.is_writable {
        return Err(ProgramError::InvalidAccountData);
    }
    Ok(())
}

} // verus!
