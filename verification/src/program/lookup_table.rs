//! CreateStakeLookupTable: records which address lookup table holds a range of a boost's
//! stake accounts.
use vstd::prelude::*;

use crate::consts::{LOOKUP_TABLE_PROGRAM_ID, PROGRAM_ID};
use crate::error::ProgramError;
use crate::pubkey::Pubkey;
use crate::sdk::{
    key_of, lookup_table_pda, lookup_table_seeds, spec_program_address, stake_lookup_table_pda,
    stake_lookup_table_seeds,
};

verus! {

/// The record of the address lookup table that holds a range of a boost's stake accounts.
#[derive(Clone, Copy, Debug)]
pub struct StakeLookupTable {
    /// The address of the lookup table.
    pub lookup_table: Pubkey,
    /// The bump used for signing.
    pub bump: u8,
}

/// CreateStakeLookupTable checks the addresses of the record and of the lookup table it
/// creates, and gives the record to write.
///
/// The record must sit at the program address of the boost and `lut_id`, and the lookup
/// table at the lookup table program's address of the record and `lut_slot`; otherwise it
/// fails with `InvalidSeeds`. The record names the lookup table and keeps the signing bump.
///
/// An unsigned call fails with `MissingRequiredSignature` and changes nothing.
pub fn process_create_stake_lookup_table(
    signer: &Pubkey,
    signed: bool,
    boost_address: &Pubkey,
    stake_lookup_table_address: &Pubkey,
    lookup_table_address: &Pubkey,
    lut_id: u64,
    lut_slot: u64,
    stake_bump: u8,
) -> (r: Result<StakeLookupTable, ProgramError>)
    ensures
        !signed ==> r == Err::<StakeLookupTable, ProgramError>(ProgramError::MissingRequiredSignature),
        signed ==> (r is Ok <==> key_of(
            *stake_lookup_table_address,
            spec_program_address(stake_lookup_table_seeds(boost_address.bytes@, lut_id), PROGRAM_ID@),
        ) && key_of(
            *lookup_table_address,
            spec_program_address(
                lookup_table_seeds(stake_lookup_table_address.bytes@, lut_slot),
                LOOKUP_TABLE_PROGRAM_ID@,
            ),
        )),
        signed ==> (r is Err ==> r == Err::<StakeLookupTable, ProgramError>(ProgramError::InvalidSeeds)),
        r matches Ok(t) ==> t.lookup_table == *lookup_table_address && t.bump == stake_bump,
{
    if !signed {
        return Err(ProgramError::MissingRequiredSignature);
    }
    match stake_lookup_table_pda(*boost_address, lut_id) {
        Some((address, _)) => {
            if !(address == *stake_lookup_table_address) {
                proof {
                    if key_of(
                        *stake_lookup_table_address,
                        spec_program_address(stake_lookup_table_seeds(boost_address.bytes@, lut_id), PROGRAM_ID@),
                    ) {
                        assert(address.bytes =~= stake_lookup_table_address.bytes);
                    }
                }
                return Err(ProgramError::InvalidSeeds);
            }
        },
        None => return Err(ProgramError::InvalidSeeds),
    }
    match lookup_table_pda(*stake_lookup_table_address, lut_slot) {
        Some((address, _)) => {
            if !(address == *lookup_table_address) {
                proof {
                    if key_of(
                        *lookup_table_address,
                        spec_program_address(
                            lookup_table_seeds(stake_lookup_table_address.bytes@, lut_slot),
                            LOOKUP_TABLE_PROGRAM_ID@,
                        ),
                    ) {
                        assert(address.bytes =~= lookup_table_address.bytes);
                    }
                }
                return Err(ProgramError::InvalidSeeds);
            }
        },
        None => return Err(ProgramError::InvalidSeeds),
    }
    Ok(StakeLookupTable { lookup_table: *lookup_table_address, bump: stake_bump })
}

/// ExtendStakeLookupTable checks that a stake account may be added to the lookup table of
/// the record for `lut_id`, which the caller picks for the stake's id.
///
/// Fails with `InvalidAccountData` when the stake belongs to another boost, with
/// `InvalidSeeds` when the record is not at the program address of the boost and `lut_id`,
/// and with `InvalidAccountData` when the lookup table is not the one the record names.
///
/// An unsigned call fails with `MissingRequiredSignature` and changes nothing.
pub fn process_extend_stake_lookup_table(
    signed: bool,
    boost_address: &Pubkey,
    stake_boost: &Pubkey,
    stake_lookup_table_address: &Pubkey,
    stake_lookup_table: &StakeLookupTable,
    lookup_table_address: &Pubkey,
    lut_id: u64,
) -> (r: Result<(), ProgramError>)
    ensures
        r == if !signed {
            Err(ProgramError::MissingRequiredSignature)
        } else if *stake_boost != *boost_address {
            Err(ProgramError::InvalidAccountData)
        } else if !key_of(
            *stake_lookup_table_address,
            spec_program_address(stake_lookup_table_seeds(boost_address.bytes@, lut_id), PROGRAM_ID@),
        ) {
            Err(ProgramError::InvalidSeeds)
        } else if *lookup_table_address != stake_lookup_table.lookup_table {
            Err(ProgramError::InvalidAccountData)
        } else {
            Ok(())
        },
{
    if !signed {
        return Err(ProgramError::MissingRequiredSignature);
    }
    if !(*stake_boost == *boost_address) {
        return Err(ProgramError::InvalidAccountData);
    }
    match stake_lookup_table_pda(*boost_address, lut_id) {
        Some((address, _)) => {
            if !(address == *stake_lookup_table_address) {
                proof {
                    if key_of(
                        *stake_lookup_table_address,
                        spec_program_address(stake_lookup_table_seeds(boost_address.bytes@, lut_id), PROGRAM_ID@),
                    ) {
                        assert(address.bytes =~= stake_lookup_table_address.bytes);
                    }
                }
                return Err(ProgramError::InvalidSeeds);
            }
        },
        None => return Err(ProgramError::InvalidSeeds),
    }
    if !(*lookup_table_address == stake_lookup_table.lookup_table) {
        return Err(ProgramError::InvalidAccountData);
    }
    Ok(())
}

} // verus!
