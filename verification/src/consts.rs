//! Program constants.
use vstd::prelude::*;

use crate::pubkey::Pubkey;

verus! {

/// The id of the boost program (`BooST9jdDtrg3THn5fo2D4XAtKtciBRi7H2muxVK4JS`).
pub const PROGRAM_ID: [u8; 32] = [2, 196, 185, 204, 116, 239, 115, 23, 58, 151, 45, 94, 210, 169, 67, 115, 118, 58, 205, 248, 141, 166, 60, 40, 126, 99, 187, 97, 85, 228, 73, 79];

/// The authority allowed to initialize the program (`HBUh9g46wk2X89CvaNN15UmsznP59rh6od1h8JwYAopk`).
pub const INITIALIZER_ADDRESS: [u8; 32] = [240, 106, 28, 81, 161, 81, 26, 44, 26, 56, 85, 131, 146, 118, 153, 177, 55, 177, 64, 110, 191, 249, 116, 62, 101, 24, 128, 105, 218, 148, 163, 33];

/// The address of the tester account (`6i56BeTvckL1pm3Hvk3hqw95wYfNT1aFcjSjKdgUJp3s`).
pub const TESTER_ADDRESS: [u8; 32] = [84, 207, 223, 37, 212, 186, 229, 237, 26, 27, 14, 145, 77, 111, 253, 57, 150, 159, 15, 59, 103, 25, 212, 56, 117, 34, 139, 91, 235, 150, 4, 250];

/// The mint of the ORE token (`oreoU2P8bN6jkk3jbaiVxYnG1dCXcYxwhwyK9jSybcp`).
pub const ORE_MINT_ADDRESS: [u8; 32] = [12, 0, 219, 206, 184, 206, 170, 115, 88, 148, 90, 71, 91, 202, 159, 0, 42, 208, 178, 230, 216, 176, 99, 200, 37, 168, 88, 22, 67, 185, 245, 117];

/// The id of the ORE program (`oreV2ZymfyeXgNgBdqMkumTqqAprVqgBWQfoYkrtKWQ`).
pub const ORE_PROGRAM_ID: [u8; 32] = [12, 0, 218, 56, 141, 104, 231, 117, 177, 181, 197, 109, 1, 141, 62, 76, 214, 134, 116, 12, 241, 199, 17, 129, 167, 81, 49, 80, 203, 81, 31, 217];

/// The seed of an ORE proof PDA (`b"proof"`).
pub const ORE_PROOF: [u8; 5] = [112, 114, 111, 111, 102];

/// The seed of the ORE treasury PDA (`b"treasury"`).
pub const ORE_TREASURY: [u8; 8] = [116, 114, 101, 97, 115, 117, 114, 121];

/// The seed of a stake lookup table PDA (`b"stake_lookup_table"`).
pub const STAKE_LOOKUP_TABLE: [u8; 18] = [115, 116, 97, 107, 101, 95, 108, 111, 111, 107, 117, 112, 95, 116, 97, 98, 108, 101];

/// The id of the address lookup table program (`AddressLookupTab1e1111111111111111111111111`).
pub const LOOKUP_TABLE_PROGRAM_ID: [u8; 32] = [2, 119, 166, 175, 151, 51, 155, 122, 200, 141, 24, 146, 201, 4, 70, 245, 0, 2, 48, 146, 102, 246, 46, 83, 193, 24, 36, 73, 130, 0, 0, 0];

/// The seed of the reserve PDA (`b"reserve"`).
pub const RESERVE: [u8; 7] = [114, 101, 115, 101, 114, 118, 101];

/// The seed of the boost PDA (`b"boost"`).
pub const BOOST: [u8; 5] = [98, 111, 111, 115, 116];

/// The seed of the config PDA (`b"config"`).
pub const CONFIG: [u8; 6] = [99, 111, 110, 102, 105, 103];

/// The seed of the stake PDA (`b"stake"`).
pub const STAKE: [u8; 5] = [115, 116, 97, 107, 101];

/// Denominator for basis point calculations.
pub const DENOMINATOR_BPS: u64 = 10_000;

/// The denominator of boost multipliers for percentage calculations.
pub const DENOMINATOR_MULTIPLIER: u64 = 1_000;

/// The duration of a boost rotation in seconds.
pub const ROTATION_DURATION: i64 = 90;

/// The minimum time between two checkpoints of a boost, in seconds.
pub const CHECKPOINT_INTERVAL: i64 = 3600;

/// The staker take rate a new config starts with (in basis points).
pub const DEFAULT_TAKE_RATE: u64 = 5_000;

/// The id of the SPL token program (`TokenkegQfeZyiNwAJbNbGKPFXCWuBvf9Ss623VQ5DA`).
pub const TOKEN_PROGRAM_ID: [u8; 32] = [6, 221, 246, 225, 215, 101, 161, 147, 217, 203, 225, 70, 206, 235, 121, 172, 28, 180, 133, 237, 95, 91, 55, 145, 58, 140, 245, 133, 126, 255, 0, 169];

/// The id of the associated token account program (`ATokenGPvbdGVxr1b2hvZbsiqW5xWH25efTNsLJA8knL`).
pub const ASSOCIATED_TOKEN_PROGRAM_ID: [u8; 32] = [140, 151, 37, 143, 78, 36, 137, 241, 187, 61, 16, 41, 20, 142, 13, 131, 11, 90, 19, 153, 218, 255, 16, 132, 4, 142, 123, 216, 219, 233, 248, 89];

/// The id of the system program (all zero bytes).
pub const SYSTEM_PROGRAM_ID: [u8; 32] = [0, 0, 0, 0, 0, 0, 0, 0, 0, 0, 0, 0, 0, 0, 0, 0, 0, 0, 0, 0, 0, 0, 0, 0, 0, 0, 0, 0, 0, 0, 0, 0];

/// The boost program id as an address.
pub fn program_id() -> (r: Pubkey)
    ensures
        r.bytes == PROGRAM_ID,
{
    Pubkey { bytes: PROGRAM_ID }
}

/// The initializer as an address.
pub fn initializer_address() -> (r: Pubkey)
    ensures
        r.bytes == INITIALIZER_ADDRESS,
{
    Pubkey { bytes: INITIALIZER_ADDRESS }
}

/// The ORE mint as an address.
pub fn ore_mint_address() -> (r: Pubkey)
    ensures
        r.bytes == ORE_MINT_ADDRESS,
{
    Pubkey { bytes: ORE_MINT_ADDRESS }
}

} // verus!
