//! Activate and Deactivate: admin instructions that add boosts to and remove them from the directory.
use vstd::prelude::*;

use crate::error::ProgramError;
use crate::pubkey::{Pubkey, array_contains, lemma_zero_unique};
use crate::state::config::Config;
use crate::state::directory::{Directory, MAX_BOOSTS};

verus! {

broadcast use vstd::array::group_array_axioms;

/// `after` is `before` once `boost` has been activated: unchanged if the boost is in any
/// slot already, otherwise the boost fills the first free slot.
pub open spec fn activation(before: Directory, after: Directory, boost: Pubkey) -> bool {
    if before.boosts@.contains(boost) {
        after == before
    } else {
        &&& after.boosts@ == before.boosts@.update(before.len as int, boost)
        &&& after.len == before.len + 1
    }
}

/// `after` is `before` once `boost` has been deactivated: unchanged if the boost is not
/// listed, otherwise the last listed boost takes its slot and the last slot is reset.
pub open spec fn deactivation(before: Directory, after: Directory, boost: Pubkey) -> bool {
    if !before.listed().contains(boost) {
        after == before
    } else {
        let i = before.listed().index_of_first(boost)->0;
        let last = before.len - 1;
        &&& after.len == last
        &&& after.boosts@[last as int].is_zero()
        &&& i < last ==> after.boosts@[i] == before.boosts@[last as int]
        &&& forall|k: int|
            0 <= k < 256 && k != i && k != last ==> after.boosts@[k] == before.boosts@[k]
    }
}

/// Activate adds a boost to the directory.
///
/// Fails with `InvalidAccountData` when the directory is full or the signer is not the admin;
/// a boost that is already in the directory (in any slot) leaves it unchanged.
///
/// An unsigned call fails with `MissingRequiredSignature` and changes nothing.
pub fn process_activate(
    signer: &Pubkey,
    signed: bool,
    boost: &Pubkey,
    directory: &mut Directory,
    config: &Config,
) -> (r: Result<(), ProgramError>)
    ensures
        !signed ==> r == Err::<(), ProgramError>(ProgramError::MissingRequiredSignature),
        signed ==> (!(old(directory).len < MAX_BOOSTS) ==> r == Err::<(), ProgramError>(ProgramError::InvalidAccountData)),
        signed ==> (old(directory).len < MAX_BOOSTS && config.admin != *signer ==> r == Err::<(), ProgramError>(
            ProgramError::InvalidAccountData,
        )),
        signed ==> (old(directory).len < MAX_BOOSTS && config.admin == *signer ==> r is Ok),
        r is Err ==> *final(directory) == *old(directory),
        r is Ok ==> activation(*old(directory), *final(directory), *boost),
{
    if !signed {
        return Err(ProgramError::MissingRequiredSignature);
    }
    if !(directory.len < MAX_BOOSTS) {
        return Err(ProgramError::InvalidAccountData);
    }
    if !(config.admin == *signer) {
        return Err(ProgramError::InvalidAccountData);
    }
    // Check if boost is already in directory
    if array_contains(&directory.boosts, boost) {
        return Ok(());
    }
    // Add boost to directory if not found
    let i = directory.len as usize;
    directory.boosts[i] = *boost;
    directory.len = directory.len + 1;
    Ok(())
}

/// Deactivate removes a boost from the directory: the last listed boost takes its slot and
/// the freed last slot is reset to the zero address.
///
/// Fails with `InvalidAccountData` when the signer is not the admin; a boost that is not
/// listed leaves the directory unchanged.
///
/// An unsigned call fails with `MissingRequiredSignature` and changes nothing.
pub fn process_deactivate(
    signer: &Pubkey,
    signed: bool,
    boost: &Pubkey,
    directory: &mut Directory,
    config: &Config,
) -> (r: Result<(), ProgramError>)
    requires
        signed ==> (old(directory).len <= MAX_BOOSTS),
    ensures
        !signed ==> r == Err::<(), ProgramError>(ProgramError::MissingRequiredSignature),
        signed ==> (r is Err ==> r == Err::<(), ProgramError>(ProgramError::InvalidAccountData)),
        signed ==> (config.admin != *signer <==> r == Err::<(), ProgramError>(ProgramError::InvalidAccountData)),
        r is Err ==> *final(directory) == *old(directory),
        r is Ok ==> deactivation(*old(directory), *final(directory), *boost),
{
    if !signed {
        return Err(ProgramError::MissingRequiredSignature);
    }
    if !(config.admin == *signer) {
        return Err(ProgramError::InvalidAccountData);
    }
    // Find and remove boost from directory
    let len = directory.len as usize;
    let mut i: usize = 0;
    while i < len
        invariant
            len == directory.len,
            len <= 256,
            *directory == *old(directory),
            config.admin == *signer,
            signed,
            0 <= i <= len,
            forall|j: int| 0 <= j < i ==> directory.boosts@[j] != *boost,
        decreases len - i,
    {
        if directory.boosts[i] == *boost {
            proof {
                let s = old(directory).listed();
                assert(s[i as int] == *boost);
                s.index_of_first_ensures(*boost);
                let f = s.index_of_first(*boost)->0;
                if f < i {
                    assert(s[f] == directory.boosts@[f]);
                }
            }
            // Move last element to this position and decrease length
            let last = len - 1;
            directory.boosts[i] = directory.boosts[last];
            directory.boosts[last] = Pubkey::default();
            directory.len = directory.len - 1;
            return Ok(());
        }
        i += 1;
    }
    proof {
        assert forall|k: int| 0 <= k < len implies old(directory).listed()[k] != *boost by {}
    }
    Ok(())
}

} // verus!

verus! {

/// Law: activating keeps a valid directory valid and free of repeated boosts, and the
/// activated boost is listed afterwards (a zero address counts as present in a free slot).
pub proof fn law_activation_keeps_directory(before: Directory, after: Directory, boost: Pubkey)
    requires
        before.wf(),
        before.listed().no_duplicates(),
        before.len < MAX_BOOSTS,
        activation(before, after, boost),
    ensures
        after.wf(),
        after.listed().no_duplicates(),
        after.listed().contains(boost) || boost.is_zero(),
{
    if before.boosts@.contains(boost) {
        let j = choose|j: int| 0 <= j < 256 && before.boosts@[j] == boost;
        if j >= before.len {
            assert(before.boosts@[j].is_zero());
        } else {
            assert(before.listed()[j] == boost);
        }
    } else {
        assert(after.listed() =~= before.listed().push(boost));
        assert(after.listed()[before.len as int] == boost);
        assert forall|a: int, b: int|
            0 <= a < b < after.len implies after.listed()[a] != after.listed()[b] by {
            if b == before.len {
                assert(before.boosts@[a] == before.listed()[a]);
            }
        }
    }
}

/// Law: deactivating keeps a valid directory valid and free of repeated boosts, and the
/// boost is no longer listed afterwards.
pub proof fn law_deactivation_keeps_directory(before: Directory, after: Directory, boost: Pubkey)
    requires
        before.wf(),
        before.listed().no_duplicates(),
        deactivation(before, after, boost),
    ensures
        after.wf(),
        after.listed().no_duplicates(),
        !after.listed().contains(boost),
{
    if before.listed().contains(boost) {
        let s = before.listed();
        s.index_of_first_ensures(boost);
        let i = s.index_of_first(boost)->0;
        let last = before.len - 1;
        assert forall|k: int| 0 <= k < after.len implies #[trigger] after.listed()[k] == if k == i {
            before.boosts@[last]
        } else {
            before.boosts@[k]
        } by {}
        assert forall|a: int, b: int|
            0 <= a < b < after.len implies after.listed()[a] != after.listed()[b] by {
            if a == i {
                assert(s[last] != s[b]);
            } else if b == i {
                assert(s[a] != s[last]);
            } else {
                assert(s[a] != s[b]);
            }
        }
        assert forall|k: int| 0 <= k < after.len implies after.listed()[k] != boost by {
            if k == i {
                assert(s[last] != s[i]);
            } else {
                assert(s[k] != s[i]);
            }
        }
    }
}

/// Law: deactivating a boost undoes activating it, for a boost that was not listed and is
/// not the zero address, in a valid directory with a free slot.
pub proof fn law_deactivate_undoes_activate(
    before: Directory,
    middle: Directory,
    after: Directory,
    boost: Pubkey,
)
    requires
        before.wf(),
        before.len < MAX_BOOSTS,
        !before.listed().contains(boost),
        !boost.is_zero(),
        activation(before, middle, boost),
        deactivation(middle, after, boost),
    ensures
        after == before,
{
    assert(!before.boosts@.contains(boost)) by {
        if before.boosts@.contains(boost) {
            let j = choose|j: int| 0 <= j < 256 && before.boosts@[j] == boost;
            if j >= before.len {
                assert(before.boosts@[j].is_zero());
            } else {
                assert(before.listed()[j] == boost);
            }
        }
    }
    let s = middle.listed();
    assert(s[before.len as int] == boost);
    s.index_of_first_ensures(boost);
    let i = s.index_of_first(boost)->0;
    if i < before.len {
        assert(s[i] == before.listed()[i]);
    }
    assert(after.boosts@[before.len as int].is_zero());
    lemma_zero_unique(after.boosts@[before.len as int], before.boosts@[before.len as int]);
    assert(after.boosts@ =~= before.boosts@);
    assert(after.boosts =~= before.boosts);
}

} // verus!
