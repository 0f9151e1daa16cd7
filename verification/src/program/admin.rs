//! Admin instructions: Initialize, New, UpdateAdmin, UpdateBoost.
use vstd::prelude::*;

use crate::chain::Proof;
use crate::consts::{DEFAULT_TAKE_RATE, INITIALIZER_ADDRESS, ORE_MINT_ADDRESS, PROGRAM_ID, initializer_address, ore_mint_address};
use crate::loaders::AccountView;
use crate::sdk::{config_pda, config_seeds, is_address_for, reserve_pda, reserve_seeds, spec_program_address};
use crate::error::ProgramError;
use crate::numeric::Numeric;
use crate::pubkey::{Pubkey, array_contains};
use crate::state::boost::Boost;
use crate::state::config::Config;
use crate::state::directory::MAX_BOOSTS;

verus! {

broadcast use vstd::array::group_array_axioms;

/// A config as `Initialize` and the migrations set it up: the given admin and listed boosts,
/// zero rewards factor and total weight, and the default take rate.
pub open spec fn fresh_config(config: Config, admin: Pubkey) -> bool {
    &&& config.admin == admin
    &&& config.rewards_factor.bits == 0
    &&& config.take_rate == DEFAULT_TAKE_RATE
    &&& config.total_weight == 0
}

/// `key` is the program address for `seeds`: the address derives and is `key`.
pub open spec fn at_address(key: Pubkey, seeds: Seq<Seq<u8>>) -> bool {
    spec_program_address(seeds, PROGRAM_ID@) matches Some((k, _)) && k == key.bytes@
}

/// Whether `key` is the program address for the given seeds (`None` if none derives).
fn is_at(key: &Pubkey, found: Option<(Pubkey, u8)>, seeds: Ghost<Seq<Seq<u8>>>) -> (r: bool)
    requires
        is_address_for(found, seeds@, PROGRAM_ID@),
    ensures
        r == at_address(*key, seeds@),
{
    match found {
        Some((address, _)) => {
            proof {
                if at_address(*key, seeds@) {
                    assert(address.bytes =~= key.bytes);
                }
            }
            address == *key
        },
        None => false,
    }
}

/// The error Initialize raises, or `None` when its checks pass: the signer must have signed
/// and be the initializer, the config and the reserve must be writable and at their program
/// addresses, and the ORE mint must be the ORE mint.
pub open spec fn initialize_error(
    signer: Pubkey,
    signed: bool,
    config_info: AccountView,
    reserve_info: AccountView,
    ore_mint: Pubkey,
) -> Option<ProgramError> {
    if !signed {
        Some(ProgramError::MissingRequiredSignature)
    } else if signer.bytes != INITIALIZER_ADDRESS {
        Some(ProgramError::InvalidAccountData)
    } else if !config_info.is_writable {
        Some(ProgramError::MissingRequiredSignature)
    } else if !at_address(config_info.key, config_seeds()) {
        Some(ProgramError::InvalidSeeds)
    } else if ore_mint.bytes != ORE_MINT_ADDRESS {
        Some(ProgramError::InvalidAccountData)
    } else if !reserve_info.is_writable {
        Some(ProgramError::MissingRequiredSignature)
    } else if !at_address(reserve_info.key, reserve_seeds()) {
        Some(ProgramError::InvalidSeeds)
    } else {
        None
    }
}

/// Initialize sets up the config: only the initializer may do it.
///
/// Fails as `initialize_error` says. Otherwise, when the config account holds no data yet,
/// returns the config the program writes into it: the signer as admin, an empty boost list,
/// zero rewards factor and total weight, and a take rate of 5000. When the config account
/// exists already it is left as it is (`None`): a repeat call changes nothing.
pub fn process_initialize(
    signer: &Pubkey,
    signed: bool,
    config_info: &AccountView,
    reserve_info: &AccountView,
    ore_mint: &Pubkey,
) -> (r: Result<Option<Config>, ProgramError>)
    ensures
        match initialize_error(*signer, signed, *config_info, *reserve_info, *ore_mint) {
            Some(e) => r == Err::<Option<Config>, ProgramError>(e),
            None => r is Ok,
        },
        r matches Ok(created) ==> (created is Some <==> config_info.data@.len() == 0),
        r matches Ok(Some(config)) ==> {
            &&& fresh_config(config, *signer)
            &&& config.len == 0
            &&& forall|i: int| 0 <= i < 256 ==> (#[trigger] config.boosts@[i]).is_zero()
        },
{
    if !signed {
        return Err(ProgramError::MissingRequiredSignature);
    }
    if !(*signer == initializer_address()) {
        return Err(ProgramError::InvalidAccountData);
    }
    if !config_info.is_writable {
        return Err(ProgramError::MissingRequiredSignature);
    }
    if !is_at(&config_info.key, config_pda(), Ghost(config_seeds())) {
        return Err(ProgramError::InvalidSeeds);
    }
    if !(*ore_mint == ore_mint_address()) {
        return Err(ProgramError::InvalidAccountData);
    }
    if !reserve_info.is_writable {
        return Err(ProgramError::MissingRequiredSignature);
    }
    if !is_at(&reserve_info.key, reserve_pda(), Ghost(reserve_seeds())) {
        return Err(ProgramError::InvalidSeeds);
    }
    // Initialize config account.
    if config_info.data.len() != 0 {
        return Ok(None);
    }
    let zero = Pubkey::default();
    Ok(
        Some(
            Config {
                admin: *signer,
                boosts: [zero; 256],
                len: 0,
                rewards_factor: Numeric::zero(),
                take_rate: DEFAULT_TAKE_RATE,
                total_weight: 0,
            },
        ),
    )
}

/// New creates a new boost: the admin lists it in the config and the program initializes it.
///
/// Fails with `InvalidAccountData` when the signer is not the admin. Otherwise the boost is
/// appended to the config's list, its weight is added to the config's total weight (the
/// total weight of all boosts), and the returned boost starts from the config's current
/// rewards factor with no deposits, stakers or fee.
///
/// An unsigned call fails with `MissingRequiredSignature` and changes nothing.
pub fn process_new(
    signer: &Pubkey,
    signed: bool,
    boost_address: &Pubkey,
    mint: &Pubkey,
    expires_at: i64,
    weight: u64,
    config: &mut Config,
) -> (r: Result<Boost, ProgramError>)
    requires
        signed ==> (old(config).admin == *signer ==> old(config).len < MAX_BOOSTS && old(config).total_weight + weight
            <= u64::MAX),
    ensures
        !signed ==> r == Err::<Boost, ProgramError>(ProgramError::MissingRequiredSignature),
        signed ==> (r is Err ==> r == Err::<Boost, ProgramError>(ProgramError::InvalidAccountData)),
        signed ==> (old(config).admin != *signer <==> r == Err::<Boost, ProgramError>(ProgramError::InvalidAccountData)),
        r is Err ==> *final(config) == *old(config),
        r matches Ok(boost) ==> {
            &&& final(config).boosts@ == old(config).boosts@.update(old(config).len as int, *boost_address)
            &&& final(config).len == old(config).len + 1
            &&& final(config).admin == old(config).admin
            &&& final(config).rewards_factor == old(config).rewards_factor
            &&& final(config).take_rate == old(config).take_rate
            &&& final(config).total_weight == old(config).total_weight + weight
            &&& boost.expires_at == expires_at
            &&& boost.mint == *mint
            &&& boost.weight == weight
            &&& boost.last_rewards_factor == old(config).rewards_factor
            &&& boost.rewards_factor.bits == 0
            &&& boost.total_deposits == 0
            &&& boost.total_stakers == 0
            &&& boost.withdraw_fee == 0
        },
{
    if !signed {
        return Err(ProgramError::MissingRequiredSignature);
    }
    if !(config.admin == *signer) {
        return Err(ProgramError::InvalidAccountData);
    }
    // Add boost to directory.
    let i = config.len as usize;
    config.boosts[i] = *boost_address;
    config.len = config.len + 1;
    // Count the new boost's weight in the total weight of all boosts.
    config.total_weight = config.total_weight + weight;
    // Initialize the boost account.
    Ok(
        Boost {
            expires_at,
            last_rewards_factor: config.rewards_factor,
            mint: *mint,
            rewards_factor: Numeric::zero(),
            total_deposits: 0,
            total_stakers: 0,
            weight,
            withdraw_fee: 0,
        },
    )
}

/// UpdateAdmin hands the admin authority to a new key; only the admin may do it.
///
/// An unsigned call fails with `MissingRequiredSignature` and changes nothing.
pub fn process_update_admin(
    signer: &Pubkey,
    signed: bool,
    new_admin: &Pubkey,
    config: &mut Config,
) -> (r: Result<(), ProgramError>)
    ensures
        !signed ==> r == Err::<(), ProgramError>(ProgramError::MissingRequiredSignature),
        signed ==> (r is Err ==> r == Err::<(), ProgramError>(ProgramError::InvalidAccountData)),
        signed ==> (old(config).admin != *signer <==> r == Err::<(), ProgramError>(ProgramError::InvalidAccountData)),
        r is Err ==> *final(config) == *old(config),
        r is Ok ==> *final(config) == (Config { admin: *new_admin, ..*old(config) }),
{
    if !signed {
        return Err(ProgramError::MissingRequiredSignature);
    }
    if !(config.admin == *signer) {
        return Err(ProgramError::InvalidAccountData);
    }
    config.admin = *new_admin;
    Ok(())
}

/// The total weight after a boost in the config's list changes weight from `old_weight` to `new_weight`.
pub open spec fn reweighted(total_weight: u64, old_weight: u64, new_weight: u64) -> int {
    total_weight - old_weight + new_weight
}

/// UpdateBoost updates the weight and expiry of a boost; only the admin may do it.
///
/// The boost first collects its rewards from the reserve (whose token balance stands where
/// the proof balance does in `Boost::collect_rewards`). If the boost occurs anywhere in the
/// config's list, the total weight moves by the change of its weight.
///
/// An unsigned call fails with `MissingRequiredSignature` and changes nothing.
pub fn process_update_boost(
    signer: &Pubkey,
    signed: bool,
    boost_address: &Pubkey,
    boost: &mut Boost,
    config: &mut Config,
    reserve_amount: u64,
    expires_at: i64,
    weight: u64,
) -> (r: Result<(), ProgramError>)
    requires
        signed ==> (old(config).admin == *signer ==> {
            &&& old(boost).collect_fits(*old(config), reserve_amount)
            &&& old(config).boosts@.contains(*boost_address) ==> 0 <= old(config).total_weight
                - old(boost).weight + weight <= u64::MAX
        }),
    ensures
        !signed ==> r == Err::<(), ProgramError>(ProgramError::MissingRequiredSignature),
        signed ==> (r is Err ==> r == Err::<(), ProgramError>(ProgramError::InvalidAccountData)),
        signed ==> (old(config).admin != *signer <==> r == Err::<(), ProgramError>(ProgramError::InvalidAccountData)),
        r is Err ==> *final(config) == *old(config) && *final(boost) == *old(boost),
        r is Ok ==> {
            &&& final(config).rewards_factor.bits == old(config).collected_rewards_factor(reserve_amount)
            &&& final(boost).rewards_factor.bits == old(boost).collected_rewards_factor(
                final(config).rewards_factor.bits as int,
            )
            &&& final(boost).last_rewards_factor == final(config).rewards_factor
            &&& final(boost).weight == weight
            &&& final(boost).expires_at == expires_at
            &&& final(boost).mint == old(boost).mint
            &&& final(boost).total_deposits == old(boost).total_deposits
            &&& final(boost).total_stakers == old(boost).total_stakers
            &&& final(boost).withdraw_fee == old(boost).withdraw_fee
            &&& final(config).total_weight == if old(config).boosts@.contains(*boost_address) {
                reweighted(old(config).total_weight, old(boost).weight, weight)
            } else {
                old(config).total_weight as int
            }
            &&& old(config).boosts@.contains(*boost_address) ==> final(config).total_weight
                + old(boost).weight == old(config).total_weight + weight
            &&& !old(config).boosts@.contains(*boost_address) ==> final(config).total_weight
                == old(config).total_weight
            &&& forall|weights: Map<Pubkey, u64>|
                #![trigger listed_weight(old(config).listed(), weights)]
                old(config).len <= MAX_BOOSTS && old(config).listed().no_duplicates()
                    && old(config).listed().contains(*boost_address)
                    && weights[*boost_address] == old(boost).weight && old(config).total_weight
                    == listed_weight(old(config).listed(), weights) ==> final(config).total_weight
                    == listed_weight(final(config).listed(), weights.insert(*boost_address, weight))
            &&& final(config).admin == old(config).admin
            &&& final(config).boosts == old(config).boosts
            &&& final(config).len == old(config).len
            &&& final(config).take_rate == old(config).take_rate
        },
{
    if !signed {
        return Err(ProgramError::MissingRequiredSignature);
    }
    if !(config.admin == *signer) {
        return Err(ProgramError::InvalidAccountData);
    }
    // Collect rewards
    boost.collect_rewards(config, &Proof::holding(reserve_amount));
    // Update the boost multiplier.
    let old_weight = boost.weight;
    boost.weight = weight;
    boost.expires_at = expires_at;
    // Update the total weight.
    let ghost listed_before = config.listed();
    let ghost total_before = config.total_weight;
    let ghost len_before = config.len;
    let listed_here = array_contains(&config.boosts, boost_address);
    if listed_here {
        if weight > old_weight {
            config.total_weight = config.total_weight + (weight - old_weight);
        } else {
            config.total_weight = config.total_weight - (old_weight - weight);
        }
    }
    proof {
        assert(config.listed() == listed_before);
        assert forall|weights: Map<Pubkey, u64>|
            #![trigger listed_weight(listed_before, weights)]
            len_before <= MAX_BOOSTS && listed_before.no_duplicates() && listed_before.contains(
                *boost_address,
            ) && weights[*boost_address] == old_weight && total_before
                == listed_weight(listed_before, weights) implies config.total_weight
                == listed_weight(listed_before, weights.insert(*boost_address, weight)) by {
            law_reweight_keeps_total(listed_before, weights, *boost_address, weight);
            let j = choose|j: int| 0 <= j < listed_before.len() && listed_before[j] == *boost_address;
            assert(config.boosts@[j] == *boost_address);
            assert(listed_here);
        }
    }
    Ok(())
}

} // verus!

verus! {

/// The sum of the weights of the given boosts.
pub open spec fn listed_weight(boosts: Seq<Pubkey>, weights: Map<Pubkey, u64>) -> int
    decreases boosts.len(),
{
    if boosts.len() == 0 {
        0
    } else {
        listed_weight(boosts.drop_last(), weights) + weights[boosts.last()]
    }
}

proof fn lemma_listed_weight_other(boosts: Seq<Pubkey>, weights: Map<Pubkey, u64>, key: Pubkey, w: u64)
    requires
        !boosts.contains(key),
    ensures
        listed_weight(boosts, weights.insert(key, w)) == listed_weight(boosts, weights),
    decreases boosts.len(),
{
    if boosts.len() > 0 {
        assert(!boosts.drop_last().contains(key)) by {
            if boosts.drop_last().contains(key) {
                let j = choose|j: int| 0 <= j < boosts.len() - 1 && boosts.drop_last()[j] == key;
                assert(boosts[j] == key);
            }
        }
        lemma_listed_weight_other(boosts.drop_last(), weights, key, w);
        assert(boosts.last() != key) by {
            if boosts.last() == key {
                assert(boosts[boosts.len() - 1] == key);
            }
        }
    }
}

/// Law: when the total weight is the sum of the weights of the listed boosts (each listed
/// once), reweighting a listed boost the way `UpdateBoost` adjusts the total keeps it so.
pub proof fn law_reweight_keeps_total(
    boosts: Seq<Pubkey>,
    weights: Map<Pubkey, u64>,
    key: Pubkey,
    new_weight: u64,
)
    requires
        boosts.no_duplicates(),
        boosts.contains(key),
    ensures
        listed_weight(boosts, weights.insert(key, new_weight)) == listed_weight(boosts, weights)
            - weights[key] + new_weight,
    decreases boosts.len(),
{
    let last = boosts.last();
    let rest = boosts.drop_last();
    if last == key {
        assert(!rest.contains(key)) by {
            if rest.contains(key) {
                let j = choose|j: int| 0 <= j < rest.len() && rest[j] == key;
                assert(boosts[j] == boosts[boosts.len() - 1]);
            }
        }
        lemma_listed_weight_other(rest, weights, key, new_weight);
    } else {
        assert(rest.contains(key)) by {
            let j = choose|j: int| 0 <= j < boosts.len() && boosts[j] == key;
            assert(j != boosts.len() - 1);
            assert(rest[j] == key);
        }
        assert(rest.no_duplicates()) by {
            assert forall|a: int, b: int| 0 <= a < rest.len() && 0 <= b < rest.len() && a != b implies rest[a] != rest[b] by {
                assert(boosts[a] != boosts[b]);
            }
        }
        law_reweight_keeps_total(rest, weights, key, new_weight);
    }
}

/// Law: UpdateBoost keeps the total weight the sum of the listed boosts' weights. When the
/// total weight was that sum and a listed boost (each listed once) changes weight from
/// `old_weight` to `weight`, the total weight that UpdateBoost leaves (moved by the change of
/// weight, boosts unchanged) is the sum of the listed weights with the boost's new weight.
pub proof fn law_update_boost_keeps_total(
    old_config: Config,
    config: Config,
    boost_address: Pubkey,
    old_weight: u64,
    weight: u64,
    weights: Map<Pubkey, u64>,
)
    requires
        old_config.len <= MAX_BOOSTS,
        old_config.listed().no_duplicates(),
        old_config.listed().contains(boost_address),
        weights[boost_address] == old_weight,
        old_config.total_weight == listed_weight(old_config.listed(), weights),
        config.boosts == old_config.boosts,
        config.len == old_config.len,
        config.total_weight + old_weight == old_config.total_weight + weight,
    ensures
        config.total_weight == listed_weight(config.listed(), weights.insert(boost_address, weight)),
{
    assert(config.listed() == old_config.listed());
    law_reweight_keeps_total(old_config.listed(), weights, boost_address, weight);
}

/// Law: when the total weight is the sum of the weights of the listed boosts, a boost that
/// `New` appends (one not listed yet), with the weight it adds to the total, keeps it so.
pub proof fn law_new_keeps_total(
    old_config: Config,
    config: Config,
    boost_address: Pubkey,
    weight: u64,
    weights: Map<Pubkey, u64>,
)
    requires
        old_config.len < MAX_BOOSTS,
        !old_config.listed().contains(boost_address),
        old_config.total_weight == listed_weight(old_config.listed(), weights),
        config.boosts@ == old_config.boosts@.update(old_config.len as int, boost_address),
        config.len == old_config.len + 1,
        config.total_weight == old_config.total_weight + weight,
    ensures
        config.total_weight == listed_weight(config.listed(), weights.insert(boost_address, weight)),
{
    let listed = config.listed();
    assert(listed.drop_last() =~= old_config.listed());
    assert(listed.last() == boost_address);
    lemma_listed_weight_other(old_config.listed(), weights, boost_address, weight);
}

} // verus!
