//! Miner selection: Rank, Reserve, Register, Rotate, Payout.
use vstd::prelude::*;
use vstd::bytes::{spec_u64_from_le_bytes, u64_from_le_bytes};

use crate::chain::Proof;
use crate::consts::ROTATION_DURATION;
use crate::error::ProgramError;
use crate::hash::{keccak_hashv, spec_keccak};
use crate::pubkey::Pubkey;
use crate::state::leaderboard::{Entry, Leaderboard, inserted, removed};
use crate::state::rewards::sum_u64;

verus! {

broadcast use vstd::array::group_array_axioms;

/// The sum of the scores in all slots of the leaderboard.
pub open spec fn slot_scores(board: Leaderboard) -> Seq<u64> {
    board.entries@.map_values(|e: Entry| e.score)
}

/// The leaderboard slots and length after `Rank`.
pub open spec fn ranked_board(board: Leaderboard, signer: Pubkey, proof_entry: Option<(Pubkey, u64)>) -> (Seq<Entry>, int) {
    match proof_entry {
        None => removed(board.entries@, board.len as int, signer),
        Some((address, score)) => inserted(board.entries@, board.len as int, address, score),
    }
}

/// The scores in the slots after `Rank` add up within `u64`.
pub open spec fn rank_fits(board: Leaderboard, signer: Pubkey, proof_entry: Option<(Pubkey, u64)>) -> bool {
    sum_u64(ranked_board(board, signer, proof_entry).0.map_values(|e: Entry| e.score))
        <= u64::MAX
}

/// Rank adds a miner to the leaderboard, or takes the signer off it when its proof is gone.
///
/// `proof_entry` is the proof address and its score (the log2 of its balance) when the proof
/// account holds data. Afterwards the total score is the sum of the scores in all slots.
///
/// An unsigned call fails with `MissingRequiredSignature` and changes nothing.
pub fn process_rank(
    signer: &Pubkey,
    signed: bool,
    leaderboard: &mut Leaderboard,
    proof_entry: Option<(Pubkey, u64)>,
) -> (r: Result<(), ProgramError>)
    requires
        old(leaderboard).wf(),
        signed ==> rank_fits(*old(leaderboard), *signer, proof_entry),
    ensures
        !signed <==> r == Err::<(), ProgramError>(ProgramError::MissingRequiredSignature),
        !signed ==> *final(leaderboard) == *old(leaderboard),
        final(leaderboard).wf(),
        signed ==> (final(leaderboard).entries@, final(leaderboard).len as int) == ranked_board(
            *old(leaderboard),
            *signer,
            proof_entry,
        ),
        signed ==> final(leaderboard).total_score == sum_u64(slot_scores(*final(leaderboard))),
{
    if !signed {
        return Err(ProgramError::MissingRequiredSignature);
    }
    match proof_entry {
        None => leaderboard.remove(*signer),
        Some((address, score)) => leaderboard.insert(address, score),
    }
    // Update leaderboard total score.
    let mut total: u64 = 0;
    let mut i: usize = 0;
    while i < 32
        invariant
            0 <= i <= 32,
            sum_u64(slot_scores(*leaderboard)) <= u64::MAX,
            total == sum_u64(slot_scores(*leaderboard).take(i as int)),
        decreases 32 - i,
    {
        proof {
            let s = slot_scores(*leaderboard);
            assert(s.take(i + 1).drop_last() =~= s.take(i as int));
            lemma_prefix_sum_le(s, i + 1);
        }
        total = total + leaderboard.entries[i].score;
        i += 1;
    }
    assert(slot_scores(*leaderboard).take(32) =~= slot_scores(*leaderboard));
    leaderboard.total_score = total;
    Ok(())
}

/// A prefix sums to at most the whole.
pub proof fn lemma_prefix_sum_le(s: Seq<u64>, k: int)
    requires
        0 <= k <= s.len(),
    ensures
        sum_u64(s.take(k)) <= sum_u64(s),
    decreases s.len(),
{
    if k < s.len() {
        assert(s.drop_last().take(k) =~= s.take(k));
        lemma_prefix_sum_le(s.drop_last(), k);
    } else {
        assert(s.take(k) =~= s);
    }
}

} // verus!

verus! {

/// A leaderboard position weighted by the miner's unclaimed balance.
#[derive(Clone, Copy, Debug)]
pub struct BalanceEntry {
    /// The proof address.
    pub address: Pubkey,
    /// The unclaimed ORE of the proof.
    pub balance: u64,
}

/// The boost fields Reserve and Payout read and write.
#[derive(Clone, Copy, Debug)]
pub struct BoostReservation {
    /// The proof the boost is reserved for.
    pub proof: Pubkey,
    /// When the boost was last reserved.
    pub reserved_at: i64,
    /// Nonzero while a checkpoint is in progress.
    pub locked: u64,
    /// The rewards the reserved proof has earned with the boost.
    pub rewards: u64,
}

/// The sum of the balances of the first `k` entries.
pub open spec fn prefix_balance(entries: Seq<BalanceEntry>, k: int) -> int
    decreases k,
{
    if k <= 0 {
        0
    } else {
        prefix_balance(entries, k - 1) + entries[k - 1].balance
    }
}

/// The number drawn from the most recent slot hash: its first eight bytes, little-endian.
pub open spec fn drawn(slot_hash: Seq<u8>) -> u64 {
    spec_u64_from_le_bytes(slot_hash.take(8))
}

/// `i` is the entry selected for the point `x`: the first whose running balance passes `x`.
pub open spec fn selects(entries: Seq<BalanceEntry>, x: int, i: int) -> bool {
    &&& 0 <= i < entries.len()
    &&& prefix_balance(entries, i) <= x < prefix_balance(entries, i + 1)
}

/// The running balances do not overflow before they pass `x`.
pub open spec fn scan_fits(entries: Seq<BalanceEntry>, x: int) -> bool {
    forall|k: int| 0 <= k < entries.len() && #[trigger] prefix_balance(entries, k) <= x ==> prefix_balance(entries, k + 1) <= u64::MAX
}

proof fn lemma_prefix_monotone(entries: Seq<BalanceEntry>, a: int, b: int)
    requires
        0 <= a <= b <= entries.len(),
    ensures
        prefix_balance(entries, a) <= prefix_balance(entries, b),
    decreases b - a,
{
    if a < b {
        lemma_prefix_monotone(entries, a, b - 1);
    }
}

/// Reserve reserves a boost for a miner drawn from the leaderboard, weighted by unclaimed balance.
///
/// Fails with `InvalidAccountData` when the boost was reserved within the last 600 seconds,
/// when the leaderboard's total balance is zero, or when no entry's running balance passes
/// the drawn point (the draw modulo the total balance). Otherwise the boost is reserved, from
/// `now`, for the entry in whose slice of the running balances the point falls.
///
/// An unsigned call fails with `MissingRequiredSignature` and changes nothing.
pub fn process_reserve(
    signed: bool,
    boost: &mut BoostReservation,
    entries: &[BalanceEntry; 32],
    total_balance: u64,
    slot_hash: &[u8],
    now: i64,
) -> (r: Result<(), ProgramError>)
    requires
        old(boost).reserved_at <= i64::MAX - 600,
        slot_hash@.len() >= 8,
        total_balance > 0 ==> scan_fits(entries@, (drawn(slot_hash@) % total_balance) as int),
    ensures
        !signed ==> r == Err::<(), ProgramError>(ProgramError::MissingRequiredSignature) && *final(boost) == *old(
            boost,
        ),
        signed ==> ({
            let x = (drawn(slot_hash@) % total_balance) as int;
            let found = exists|i: int| selects(entries@, x, i);
            &&& r is Ok <==> now > old(boost).reserved_at + 600 && total_balance > 0 && found
            &&& r is Err ==> r == Err::<(), ProgramError>(ProgramError::InvalidAccountData) && *final(boost) == *old(boost)
            &&& r is Ok ==> {
                &&& selects(entries@, x, choose|i: int| selects(entries@, x, i))
                &&& final(boost).proof == entries@[choose|i: int| selects(entries@, x, i)].address
                &&& final(boost).reserved_at == now
                &&& final(boost).locked == old(boost).locked
                &&& final(boost).rewards == old(boost).rewards
            }
        }),
{
    if !signed {
        return Err(ProgramError::MissingRequiredSignature);
    }
    // reserve every 10 minutes
    if !(now > boost.reserved_at + 600) {
        return Err(ProgramError::InvalidAccountData);
    }
    if total_balance == 0 {
        return Err(ProgramError::InvalidAccountData);
    }
    // Use most recent slot hash to sample a number between 0 and the total balance on the leaderboard.
    let random_number = u64_from_le_bytes(slice_prefix8(slot_hash));
    let selected_balance = random_number % total_balance;
    let ghost x = selected_balance as int;
    // Select a proof weighted by their unclaimed ORE balance.
    let mut cumulative_sum: u64 = 0;
    let mut selected: Option<Pubkey> = None;
    let mut i: usize = 0;
    while i < 32
        invariant_except_break
            selected is None,
            cumulative_sum == prefix_balance(entries@, i as int),
            cumulative_sum <= x,
        invariant
            0 <= i <= 32,
            entries@.len() == 32,
            x == selected_balance,
            scan_fits(entries@, x),
        ensures
            selected matches Some(a) ==> exists|k: int| selects(entries@, x, k) && entries@[k].address == a,
            selected is None ==> cumulative_sum == prefix_balance(entries@, 32) && cumulative_sum <= x,
        decreases 32 - i,
    {
        cumulative_sum = cumulative_sum + entries[i].balance;
        if cumulative_sum > selected_balance {
            selected = Some(entries[i].address);
            assert(selects(entries@, x, i as int));
            break;
        }
        i += 1;
    }
    proof {
        assert forall|a: int, b: int| selects(entries@, x, a) && selects(entries@, x, b) implies a == b by {
            if a < b {
                lemma_prefix_monotone(entries@, a + 1, b);
            } else if b < a {
                lemma_prefix_monotone(entries@, b + 1, a);
            }
        }
        if selected is None {
            assert forall|k: int| !selects(entries@, x, k) by {
                if 0 <= k < 32 {
                    lemma_prefix_monotone(entries@, k + 1, 32);
                }
            }
        }
    }
    match selected {
        None => Err(ProgramError::InvalidAccountData),
        Some(address) => {
            // Reserve the boost for the selected proof.
            boost.proof = address;
            boost.reserved_at = now;
            Ok(())
        },
    }
}

/// The first eight bytes.
fn slice_prefix8(s: &[u8]) -> (r: &[u8])
    requires
        s@.len() >= 8,
    ensures
        r@ == s@.take(8),
{
    vstd::slice::slice_subrange(s, 0, 8)
}

/// Payout credits rewards to the boost a proof has reserved.
///
/// Fails with `InvalidAccountData` unless the boost is reserved for the signer's proof and no
/// checkpoint is in progress. Otherwise the boost's rewards grow by `amount`.
///
/// An unsigned call fails with `MissingRequiredSignature` and changes nothing.
pub fn process_payout(signer: &Pubkey,
    signed: bool, boost: &mut BoostReservation, amount: u64) -> (r: Result<(), ProgramError>)
    requires
        signed ==> (old(boost).proof == *signer && old(boost).locked == 0 ==> old(boost).rewards + amount <= u64::MAX),
    ensures
        !signed ==> r == Err::<(), ProgramError>(ProgramError::MissingRequiredSignature),
        signed ==> (r is Err ==> r == Err::<(), ProgramError>(ProgramError::InvalidAccountData)),
        signed ==> (!(old(boost).proof == *signer && old(boost).locked == 0) <==> r == Err::<(), ProgramError>(
            ProgramError::InvalidAccountData,
        )),
        r is Err ==> *final(boost) == *old(boost),
        r is Ok ==> *final(boost) == (BoostReservation { rewards: (old(boost).rewards + amount) as u64, ..*old(boost) }),
{
    if !signed {
        return Err(ProgramError::MissingRequiredSignature);
    }
    if !(boost.proof == *signer) || boost.locked != 0 {
        return Err(ProgramError::InvalidAccountData);
    }
    // Increment boost rewards.
    boost.rewards = boost.rewards + amount;
    Ok(())
}

/// A miner's reservation of a boost.
#[derive(Clone, Copy, Debug)]
pub struct Reservation {
    /// The proof account associated with this reservation.
    pub authority: Pubkey,
    /// The boost this miner is allowed to use.
    pub boost: Pubkey,
    /// Random hash used to sample noise for the boost rotations.
    pub noise: [u8; 32],
    /// A timestamp to ensure only one rotation is executed per solution.
    pub ts: i64,
}

/// Register creates a miner's reservation.
///
/// Fails with `InvalidAccountData` unless the proof's miner is the signer. The reservation
/// belongs to the proof, reserves no boost yet, takes its noise from the hash of the proof
/// address and its timestamp from the proof's last hash.
///
/// An unsigned call fails with `MissingRequiredSignature` and changes nothing.
pub fn process_register(signer: &Pubkey,
    signed: bool, proof_address: &Pubkey, proof: &Proof) -> (r: Result<
    Reservation,
    ProgramError,
>)
    ensures
        !signed ==> r == Err::<Reservation, ProgramError>(ProgramError::MissingRequiredSignature),
        signed ==> (r is Err ==> r == Err::<Reservation, ProgramError>(ProgramError::InvalidAccountData)),
        signed ==> (proof.miner != *signer <==> r == Err::<Reservation, ProgramError>(ProgramError::InvalidAccountData)),
        r matches Ok(reservation) ==> {
            &&& reservation.authority == *proof_address
            &&& reservation.boost.is_zero()
            &&& reservation.noise@ == spec_keccak(seq![proof_address.bytes@])
            &&& reservation.ts == proof.last_hash_at
        },
{
    if !signed {
        return Err(ProgramError::MissingRequiredSignature);
    }
    if !(proof.miner == *signer) {
        return Err(ProgramError::InvalidAccountData);
    }
    let parts = vec![vstd::slice::slice_to_vec(vstd::array::array_as_slice(&proof_address.bytes))];
    proof {
        assert(parts@[0].deep_view() =~= parts@[0]@);
        assert(parts.deep_view() =~= seq![proof_address.bytes@]);
    }
    let noise = keccak_hashv(&parts);
    Ok(Reservation { authority: *proof_address, boost: Pubkey::default(), noise, ts: proof.last_hash_at })
}

/// The config fields Rotate reads and writes.
#[derive(Clone, Copy, Debug)]
pub struct Rotation {
    /// The currently active boost.
    pub current: Pubkey,
    /// The seed of the next draw.
    pub noise: [u8; 32],
    /// When the last rotation happened.
    pub ts: i64,
}

/// Rotate activates a boost drawn from the listed ones, at most once per rotation period.
///
/// Before `ROTATION_DURATION` seconds have passed since the last rotation nothing changes.
/// Otherwise eight bytes are sampled from the hash of the noise and the most recent slot
/// hash; when boosts are listed, the one at the sample (little-endian) modulo their number
/// becomes current; the noise becomes the hash of the sample and the time is stamped.
///
/// An unsigned call fails with `MissingRequiredSignature` and changes nothing.
pub fn process_rotate(
    signed: bool,
    rotation: &mut Rotation,
    boosts: &[Pubkey; 256],
    len: u64,
    recent_slot_hash: &[u8],
    now: i64,
) -> (r: Result<(), ProgramError>)
    requires
        old(rotation).ts <= i64::MAX - ROTATION_DURATION,
        len <= 256,
    ensures
        !signed <==> r == Err::<(), ProgramError>(ProgramError::MissingRequiredSignature),
        !signed || now < old(rotation).ts + ROTATION_DURATION ==> *final(rotation) == *old(rotation),
        signed && now >= old(rotation).ts + ROTATION_DURATION ==> {
            let sample = spec_keccak(seq![old(rotation).noise@, recent_slot_hash@]).take(8);
            let drawn = spec_u64_from_le_bytes(sample);
            &&& final(rotation).current == if len > 0 {
                boosts@[(drawn % len) as int]
            } else {
                old(rotation).current
            }
            &&& final(rotation).noise@ == spec_keccak(seq![sample])
            &&& final(rotation).ts == now
        },
{
    if !signed {
        return Err(ProgramError::MissingRequiredSignature);
    }
    // Silent error
    if now < rotation.ts + ROTATION_DURATION {
        return Ok(());
    }
    // Sample random number
    let parts = vec![vstd::slice::slice_to_vec(vstd::array::array_as_slice(&rotation.noise)), vstd::slice::slice_to_vec(recent_slot_hash)];
    proof {
        assert(parts@[0].deep_view() =~= parts@[0]@);
        assert(parts@[1].deep_view() =~= parts@[1]@);
        assert(parts.deep_view() =~= seq![old(rotation).noise@, recent_slot_hash@]);
    }
    let hash = keccak_hashv(&parts);
    let sample = vstd::slice::slice_to_vec(slice_prefix8(vstd::array::array_as_slice(&hash)));
    let random_number = u64_from_le_bytes(sample.as_slice());
    // Activate a boost.
    if len > 0 {
        let boost = boosts[(random_number % len) as usize];
        rotation.current = boost;
    }
    // Update the noise
    let next = vec![sample];
    proof {
        assert(next@[0].deep_view() =~= next@[0]@);
        assert(next.deep_view() =~= seq![spec_keccak(seq![old(rotation).noise@, recent_slot_hash@]).take(8)]);
    }
    rotation.noise = keccak_hashv(&next);
    rotation.ts = now;
    Ok(())
}

} // verus!
