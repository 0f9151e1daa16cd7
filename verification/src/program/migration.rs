//! Migration instructions: MigrateConfig, MigrateBoost, MigrateHotfix, Migrate.
use vstd::prelude::*;

use crate::chain::{Clock, Proof};
use crate::consts::{DEFAULT_TAKE_RATE, ore_mint_address};
use crate::error::ProgramError;
use crate::loaders::AccountView;
use crate::numeric::{Numeric, fits_i128, scale, div_bits};
use crate::pubkey::Pubkey;
use crate::program::admin::fresh_config;
use crate::state::boost::{Boost, lemma_div_by_scaled};
use crate::state::config::Config;
use crate::state::legacy::{BoostV1, OldBoost, StakeV1};
use crate::state::stake::Stake;

verus! {

broadcast use vstd::array::group_array_axioms;

/// A boost carried over by the config migration (`D3U1nvrCapUiuCK3T3asBPyeKjYptVA4RTXcDTqNpP14`).
pub const MIGRATED_BOOST_0: [u8; 32] = [178, 237, 242, 252, 191, 50, 34, 171, 180, 174, 8, 59, 207, 170, 227, 184, 14, 68, 42, 175, 18, 141, 57, 25, 169, 252, 33, 88, 239, 57, 54, 67];

/// A boost carried over by the config migration (`5ksboZUb57ZuwEkRRHCK8s6BpiNABneKndvkowZdvGhy`).
pub const MIGRATED_BOOST_1: [u8; 32] = [70, 171, 239, 167, 164, 202, 19, 208, 164, 108, 94, 172, 124, 12, 182, 3, 98, 28, 197, 119, 118, 55, 254, 24, 3, 3, 224, 54, 100, 172, 60, 108];

/// A boost carried over by the config migration (`5qVQiZXaRffQUqD4NmJ5EXHBAbmfdABZxUb714cJATQp`).
pub const MIGRATED_BOOST_2: [u8; 32] = [71, 218, 191, 163, 215, 132, 112, 141, 32, 57, 163, 192, 226, 21, 41, 56, 242, 99, 8, 39, 191, 44, 236, 202, 107, 190, 195, 51, 159, 248, 202, 37];

/// A boost carried over by the config migration (`8BEzwBTDsKWnjgjxi8Cca7ZatPZQhxUMgS8qWzBhDhrC`).
pub const MIGRATED_BOOST_3: [u8; 32] = [106, 161, 113, 244, 207, 202, 66, 93, 49, 242, 32, 247, 76, 240, 50, 122, 176, 168, 117, 245, 201, 77, 61, 112, 247, 166, 228, 154, 242, 78, 76, 37];

/// The error MigrateConfig raises, or `None` when its checks pass: the signer must have
/// signed and be the old config's admin, the ORE mint must be the ORE mint, and the proof and
/// rewards accounts it opens must be empty and writable.
pub open spec fn migrate_config_error(
    signer: Pubkey,
    signed: bool,
    old_admin: Pubkey,
    ore_mint: Pubkey,
    proof_info: AccountView,
    rewards_info: AccountView,
) -> Option<ProgramError> {
    if !signed {
        Some(ProgramError::MissingRequiredSignature)
    } else if old_admin != signer {
        Some(ProgramError::InvalidAccountData)
    } else if ore_mint.bytes != crate::consts::ORE_MINT_ADDRESS {
        Some(ProgramError::InvalidAccountData)
    } else if proof_info.data@.len() != 0 {
        Some(ProgramError::AccountAlreadyInitialized)
    } else if !proof_info.is_writable {
        Some(ProgramError::MissingRequiredSignature)
    } else if rewards_info.data@.len() != 0 {
        Some(ProgramError::AccountAlreadyInitialized)
    } else if !rewards_info.is_writable {
        Some(ProgramError::MissingRequiredSignature)
    } else {
        None
    }
}

/// MigrateConfig rewrites the config in the current layout; only the admin may do it.
///
/// Fails as `migrate_config_error` says. Otherwise the config account shrinks or grows to the
/// current layout and keeps just the rent minimum for that size (`rent_minimum`): the rest of
/// its lamports go back to the signer, and that refund is returned beside the new config. The
/// new config keeps the admin and the boost count, lists the four carried-over boosts in its
/// first slots (the other slots zero), and starts with zero rewards factor and total weight
/// and the default take rate.
pub fn process_migrate_config(
    signer: &Pubkey,
    signed: bool,
    old_admin: &Pubkey,
    old_len: u64,
    ore_mint: &Pubkey,
    proof_info: &AccountView,
    rewards_info: &AccountView,
    config_lamports: u64,
    rent_minimum: u64,
) -> (r: Result<(Config, u64), ProgramError>)
    requires
        migrate_config_error(*signer, signed, *old_admin, *ore_mint, *proof_info, *rewards_info) is None
            ==> config_lamports >= rent_minimum,
    ensures
        match migrate_config_error(*signer, signed, *old_admin, *ore_mint, *proof_info, *rewards_info) {
            Some(e) => r == Err::<(Config, u64), ProgramError>(e),
            None => r is Ok,
        },
        r matches Ok((config, refund)) ==> {
            &&& refund == config_lamports - rent_minimum
            &&& fresh_config(config, *old_admin)
            &&& config.len == old_len
            &&& config.boosts@[0].bytes == MIGRATED_BOOST_0
            &&& config.boosts@[1].bytes == MIGRATED_BOOST_1
            &&& config.boosts@[2].bytes == MIGRATED_BOOST_2
            &&& config.boosts@[3].bytes == MIGRATED_BOOST_3
            &&& forall|i: int| 4 <= i < 256 ==> (#[trigger] config.boosts@[i]).is_zero()
        },
{
    if !signed {
        return Err(ProgramError::MissingRequiredSignature);
    }
    if !(*old_admin == *signer) {
        return Err(ProgramError::InvalidAccountData);
    }
    if !(*ore_mint == ore_mint_address()) {
        return Err(ProgramError::InvalidAccountData);
    }
    if proof_info.data.len() != 0 {
        return Err(ProgramError::AccountAlreadyInitialized);
    }
    if !proof_info.is_writable {
        return Err(ProgramError::MissingRequiredSignature);
    }
    if rewards_info.data.len() != 0 {
        return Err(ProgramError::AccountAlreadyInitialized);
    }
    if !rewards_info.is_writable {
        return Err(ProgramError::MissingRequiredSignature);
    }
    // Refund the lamports above the rent minimum of the resized account.
    let refund = config_lamports - rent_minimum;
    let zero = Pubkey::default();
    let mut boosts = [zero; 256];
    boosts[0] = Pubkey { bytes: MIGRATED_BOOST_0 };
    boosts[1] = Pubkey { bytes: MIGRATED_BOOST_1 };
    boosts[2] = Pubkey { bytes: MIGRATED_BOOST_2 };
    boosts[3] = Pubkey { bytes: MIGRATED_BOOST_3 };
    Ok(
        (
            Config {
                admin: *old_admin,
                boosts,
                len: old_len,
                rewards_factor: Numeric::zero(),
                take_rate: DEFAULT_TAKE_RATE,
                total_weight: 0,
            },
            refund,
        ),
    )
}

/// The checks MigrateBoost makes before it rewrites a boost.
pub open spec fn migrate_boost_allowed(
    signer: Pubkey,
    boost_address: Pubkey,
    old: OldBoost,
    proof: Proof,
    config: Config,
) -> bool {
    &&& old.mint == signer
    &&& proof.authority == boost_address
    &&& proof.balance == 0
    &&& config.admin == signer
}

/// MigrateBoost rewrites a boost in the current layout with zero weight, and says how many
/// of its reward tokens move to the global rewards account: all of them, except that an ORE
/// boost keeps its deposits (the same account held both).
///
/// Fails with `InvalidAccountData` unless the boost's mint is the signer, the boost's proof
/// belongs to the boost and is empty, and the signer is the admin.
///
/// An unsigned call fails with `MissingRequiredSignature` and changes nothing.
pub fn process_migrate_boost(
    signer: &Pubkey,
    signed: bool,
    boost_address: &Pubkey,
    old: &OldBoost,
    proof: &Proof,
    boost_rewards_amount: u64,
    config: &Config,
) -> (r: Result<(Boost, u64), ProgramError>)
    requires
        signed ==> (migrate_boost_allowed(*signer, *boost_address, *old, *proof, *config) && old.mint.bytes
            == crate::consts::ORE_MINT_ADDRESS ==> boost_rewards_amount >= old.total_deposits),
    ensures
        !signed ==> r == Err::<(Boost, u64), ProgramError>(ProgramError::MissingRequiredSignature),
        signed ==> (r is Err ==> r == Err::<(Boost, u64), ProgramError>(ProgramError::InvalidAccountData)),
        signed ==> (!migrate_boost_allowed(*signer, *boost_address, *old, *proof, *config) <==> r == Err::<
            (Boost, u64),
            ProgramError,
        >(ProgramError::InvalidAccountData)),
        r matches Ok((boost, transfer)) ==> {
            &&& boost.expires_at == old.expires_at
            &&& boost.mint == old.mint
            &&& boost.weight == 0
            &&& boost.rewards_factor == old.rewards_factor
            &&& boost.last_rewards_factor.bits == 0
            &&& boost.total_deposits == old.total_deposits
            &&& boost.total_stakers == old.total_stakers
            &&& boost.withdraw_fee == old.withdraw_fee
            &&& transfer == if old.mint.bytes == crate::consts::ORE_MINT_ADDRESS {
                boost_rewards_amount - old.total_deposits
            } else {
                boost_rewards_amount as int
            }
        },
{
    if !signed {
        return Err(ProgramError::MissingRequiredSignature);
    }
    if !(old.mint == *signer) {
        return Err(ProgramError::InvalidAccountData);
    }
    if !(proof.authority == *boost_address) || proof.balance != 0 {
        return Err(ProgramError::InvalidAccountData);
    }
    if !(config.admin == *signer) {
        return Err(ProgramError::InvalidAccountData);
    }
    let rewards_to_transfer = if old.mint == ore_mint_address() {
        boost_rewards_amount - old.total_deposits
    } else {
        boost_rewards_amount
    };
    let boost = Boost {
        expires_at: old.expires_at,
        last_rewards_factor: Numeric::zero(),
        mint: old.mint,
        rewards_factor: old.rewards_factor,
        total_deposits: old.total_deposits,
        total_stakers: old.total_stakers,
        weight: 0,
        withdraw_fee: old.withdraw_fee,
    };
    Ok((boost, rewards_to_transfer))
}

/// MigrateHotfix aligns a boost's last seen rewards factor with the config's; only the admin may do it.
///
/// An unsigned call fails with `MissingRequiredSignature` and changes nothing.
pub fn process_migrate_hotfix(signer: &Pubkey,
    signed: bool, boost: &mut Boost, config: &Config) -> (r: Result<
    (),
    ProgramError,
>)
    ensures
        !signed ==> r == Err::<(), ProgramError>(ProgramError::MissingRequiredSignature),
        signed ==> (r is Err ==> r == Err::<(), ProgramError>(ProgramError::InvalidAccountData)),
        signed ==> (config.admin != *signer <==> r == Err::<(), ProgramError>(ProgramError::InvalidAccountData)),
        r is Err ==> *final(boost) == *old(boost),
        r is Ok ==> *final(boost) == (Boost { last_rewards_factor: config.rewards_factor, ..*old(boost) }),
{
    if !signed {
        return Err(ProgramError::MissingRequiredSignature);
    }
    if !(config.admin == *signer) {
        return Err(ProgramError::InvalidAccountData);
    }
    boost.last_rewards_factor = config.rewards_factor;
    Ok(())
}

/// The checks Migrate makes on the accounts it reads.
pub open spec fn migrate_allowed(
    signer: Pubkey,
    authority: Pubkey,
    boost_v1_address: Pubkey,
    mint: Pubkey,
    config: Config,
    boost: Boost,
    boost_v1: BoostV1,
    stake_v1: StakeV1,
) -> bool {
    &&& config.admin == signer
    &&& boost.mint == mint
    &&& boost_v1.mint == mint
    &&& stake_v1.authority == authority
    &&& stake_v1.boost == boost_v1_address
}

/// Migrate does something (rather than return silently): the stakes are taken in order and
/// this one has no account yet.
pub open spec fn migrate_proceeds(boost: Boost, stake_v1: StakeV1, stake_exists: bool) -> bool {
    stake_v1.id == boost.total_stakers && !stake_exists
}

/// The boost's rewards factor (raw bits) after one stake is migrated: its raw rewards are
/// added, and once the last stake is in, the sum is spread over the total deposits.
pub open spec fn migrated_rewards_factor(boost: Boost, boost_v1: BoostV1, stake_v1: StakeV1) -> int {
    let sum = boost.rewards_factor.bits + stake_v1.rewards * scale();
    let deposits = boost.total_deposits + stake_v1.balance;
    if boost.total_stakers + 1 == boost_v1.total_stakers {
        div_bits(sum, deposits * scale())
    } else {
        sum
    }
}

/// Migrate moves one stake account of the first program version into the current layout.
///
/// Fails with `InvalidAccountData` unless the signer is the admin, both boosts are for `mint`
/// and the old stake belongs to `authority` and the old boost. Returns `None` (changing
/// nothing) when the old stake is out of order or the new stake account exists. Otherwise the
/// returned stake holds the old balance (its rewards are carried by the boost's rewards
/// factor) and the boost counts the stake's deposits and one more staker.
///
/// An unsigned call fails with `MissingRequiredSignature` and changes nothing.
pub fn process_migrate(
    signer: &Pubkey,
    signed: bool,
    authority: &Pubkey,
    boost_address: &Pubkey,
    boost_v1_address: &Pubkey,
    mint: &Pubkey,
    config: &Config,
    boost: &mut Boost,
    boost_v1: &BoostV1,
    stake_v1: &StakeV1,
    stake_exists: bool,
    clock: &Clock,
) -> (r: Result<Option<Stake>, ProgramError>)
    requires
        signed ==> (migrate_allowed(
            *signer,
            *authority,
            *boost_v1_address,
            *mint,
            *config,
            *old(boost),
            *boost_v1,
            *stake_v1,
        ) && migrate_proceeds(*old(boost), *stake_v1, stake_exists) ==> {
            &&& fits_i128(old(boost).rewards_factor.bits + stake_v1.rewards * scale())
            &&& old(boost).total_deposits + stake_v1.balance <= u64::MAX
            &&& old(boost).total_stakers < u64::MAX
            &&& old(boost).total_stakers + 1 == boost_v1.total_stakers ==> old(boost).total_deposits
                + stake_v1.balance > 0
        }),
    ensures
        !signed ==> r == Err::<Option<Stake>, ProgramError>(ProgramError::MissingRequiredSignature),
        signed ==> (r is Err ==> r == Err::<Option<Stake>, ProgramError>(ProgramError::InvalidAccountData)),
        signed ==> (!migrate_allowed(
            *signer,
            *authority,
            *boost_v1_address,
            *mint,
            *config,
            *old(boost),
            *boost_v1,
            *stake_v1,
        ) <==> r == Err::<Option<Stake>, ProgramError>(ProgramError::InvalidAccountData)),
        signed ==> (r == Ok::<Option<Stake>, ProgramError>(None) <==> migrate_allowed(
            *signer,
            *authority,
            *boost_v1_address,
            *mint,
            *config,
            *old(boost),
            *boost_v1,
            *stake_v1,
        ) && !migrate_proceeds(*old(boost), *stake_v1, stake_exists)),
        !(r matches Ok(Some(_))) ==> *final(boost) == *old(boost),
        r matches Ok(Some(stake)) ==> {
            &&& stake.authority == *authority
            &&& stake.balance == stake_v1.balance
            &&& stake.boost == *boost_address
            &&& stake.last_claim_at == clock.unix_timestamp
            &&& stake.last_deposit_at == clock.unix_timestamp
            &&& stake.last_withdraw_at == 0
            &&& stake.last_rewards_factor.bits == 0
            &&& stake.rewards == 0
            &&& stake._buffer@ == Seq::new(1024, |i: int| 0u8)
            &&& final(boost).rewards_factor.bits == migrated_rewards_factor(*old(boost), *boost_v1, *stake_v1)
            &&& final(boost).total_deposits == old(boost).total_deposits + stake_v1.balance
            &&& final(boost).total_stakers == old(boost).total_stakers + 1
            &&& final(boost).expires_at == old(boost).expires_at
            &&& final(boost).last_rewards_factor == old(boost).last_rewards_factor
            &&& final(boost).mint == old(boost).mint
            &&& final(boost).weight == old(boost).weight
            &&& final(boost).withdraw_fee == old(boost).withdraw_fee
        },
{
    if !signed {
        return Err(ProgramError::MissingRequiredSignature);
    }
    if !(config.admin == *signer) {
        return Err(ProgramError::InvalidAccountData);
    }
    if !(boost.mint == *mint) || !(boost_v1.mint == *mint) {
        return Err(ProgramError::InvalidAccountData);
    }
    if !(stake_v1.authority == *authority) || !(stake_v1.boost == *boost_v1_address) {
        return Err(ProgramError::InvalidAccountData);
    }
    // Exit early if stake account is processed out of order.
    if stake_v1.id != boost.total_stakers {
        return Ok(None);
    }
    if stake_exists {
        return Ok(None);
    }
    // Initialize the stake account.
    let mut stake = Stake {
        authority: *authority,
        balance: 0,
        boost: *boost_address,
        last_claim_at: clock.unix_timestamp,
        last_deposit_at: clock.unix_timestamp,
        last_withdraw_at: 0,
        last_rewards_factor: Numeric::zero(),
        rewards: 0,
        _buffer: [0u8; 1024],
    };
    // Accumulate raw rewards into boost rewards factor, to be divided by total deposits at end of migration.
    boost.rewards_factor = boost.rewards_factor.add(Numeric::from_u64(stake_v1.rewards));
    // Update boost totals.
    boost.total_deposits = boost.total_deposits + stake_v1.balance;
    boost.total_stakers = boost.total_stakers + 1;
    // Update stake balance.
    stake.balance = stake_v1.balance;
    // Finish migration.
    if boost.total_stakers == boost_v1.total_stakers {
        let d = Numeric::from_u64(boost.total_deposits);
        proof {
            assert(boost.total_deposits * scale() > 0) by (nonlinear_arith)
                requires
                    boost.total_deposits > 0,
            ;
            assert(fits_i128(div_bits(boost.rewards_factor.bits as int, d.bits as int))) by {
                lemma_div_bits_bounded(boost.rewards_factor.bits as int, boost.total_deposits as int);
            }
        }
        boost.rewards_factor = boost.rewards_factor.div(d);
    }
    Ok(Some(stake))
}

/// Dividing by a positive whole number converted to fixed point never grows the magnitude.
pub proof fn lemma_div_bits_bounded(a: int, d: int)
    requires
        d > 0,
        fits_i128(a),
    ensures
        fits_i128(div_bits(a, d * scale())),
{
    let n = a * scale();
    let m = d * scale();
    let an = crate::numeric::abs(n);
    let aa = crate::numeric::abs(a);
    assert(m > 0) by (nonlinear_arith)
        requires
            d > 0,
            m == d * scale(),
    ;
    assert(an == aa * scale()) by (nonlinear_arith)
        requires
            n == a * scale(),
            an == crate::numeric::abs(n),
            aa == crate::numeric::abs(a),
    ;
    lemma_div_by_scaled(aa, d);
    assert(aa * scale() >= 0) by (nonlinear_arith)
        requires
            aa >= 0,
    ;
    assert(div_bits(aa, m) == aa / d);
    vstd::arithmetic::div_mod::lemma_div_is_ordered_by_denominator(aa, 1, d);
    assert(aa / 1 == aa);
    vstd::arithmetic::div_mod::lemma_div_pos_is_pos(aa, d);
}

} // verus!
