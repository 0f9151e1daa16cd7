//! The leaderboard of the top miners by proof score.
use vstd::prelude::*;

use crate::pubkey::Pubkey;

verus! {

broadcast use vstd::array::group_array_axioms;

/// The number of positions on the leaderboard.
pub const LEADERBOARD_SIZE: usize = 32;

/// Entry represents a single position in the leaderboard.
#[derive(Clone, Copy, Debug)]
pub struct Entry {
    /// The proof address.
    pub address: Pubkey,
    /// The log2 of the proof score.
    pub score: u64,
}

/// Leaderboard tracks the top 32 miners by proof score (log2 of unclaimed ORE).
#[derive(Clone, Copy, Debug)]
pub struct Leaderboard {
    /// The sorted entries (sorted by score descending).
    pub entries: [Entry; 32],
    /// The number of entries currently stored.
    pub len: usize,
    /// The total sum of all scores.
    pub total_score: u64,
}

/// `i` is the first position among the first `len` entries holding `address`.
pub open spec fn is_first_address(entries: Seq<Entry>, len: int, address: Pubkey, i: int) -> bool {
    &&& 0 <= i < len
    &&& entries[i].address == address
    &&& forall|j: int| 0 <= j < i ==> entries[j].address != address
}

/// The position `remove` takes out: the first one holding `address`, or `len` if none does.
pub open spec fn removal_index(entries: Seq<Entry>, len: int, address: Pubkey) -> int {
    if exists|i: int| is_first_address(entries, len, address, i) {
        choose|i: int| is_first_address(entries, len, address, i)
    } else {
        len
    }
}

/// The entries after the entry at `i < len` is taken out: the ones behind it move up by one
/// and the slot at `len - 1` keeps its old content.
pub open spec fn entries_without(entries: Seq<Entry>, len: int, i: int) -> Seq<Entry> {
    entries.take(i) + entries.subrange(i + 1, len) + entries.subrange(len - 1, entries.len() as int)
}

/// `i` is the first position among the first `len` entries whose score is below `score`.
pub open spec fn is_first_below(entries: Seq<Entry>, len: int, score: u64, i: int) -> bool {
    &&& 0 <= i < len
    &&& score > entries[i].score
    &&& forall|j: int| 0 <= j < i ==> score <= entries[j].score
}

/// Where `insert` puts an entry with `score`: before the first lower score, or at `len`.
pub open spec fn insertion_index(entries: Seq<Entry>, len: int, score: u64) -> int {
    if exists|i: int| is_first_below(entries, len, score, i) {
        choose|i: int| is_first_below(entries, len, score, i)
    } else {
        len
    }
}

/// The entries after `entry` is put at `p < 32`: the ones from `p` up to `len` move down by
/// one, the one pushed past the last slot drops off, and slots beyond keep their content.
pub open spec fn entries_with(entries: Seq<Entry>, len: int, p: int, entry: Entry) -> Seq<Entry> {
    let m = if len < 31 { len } else { 31 };
    entries.take(p) + seq![entry] + entries.subrange(p, m) + entries.subrange(m + 1, 32)
}

/// The scores are in non-increasing order among the first `len` entries.
pub open spec fn sorted_desc(entries: Seq<Entry>, len: int) -> bool {
    forall|i: int, j: int| 0 <= i < j < len ==> entries[i].score >= entries[j].score
}

/// No address occurs twice among the first `len` entries.
pub open spec fn distinct_addresses(entries: Seq<Entry>, len: int) -> bool {
    forall|i: int, j: int| 0 <= i < j < len ==> entries[i].address != entries[j].address
}

/// The entries and length after `remove(address)`.
pub open spec fn removed(entries: Seq<Entry>, len: int, address: Pubkey) -> (Seq<Entry>, int) {
    let i = removal_index(entries, len, address);
    if i < len {
        (entries_without(entries, len, i), len - 1)
    } else {
        (entries, len)
    }
}

/// The entries and length after `insert(address, score)`.
pub open spec fn inserted(entries: Seq<Entry>, len: int, address: Pubkey, score: u64) -> (Seq<Entry>, int) {
    let (e1, l1) = removed(entries, len, address);
    let p = insertion_index(e1, l1, score);
    if p >= LEADERBOARD_SIZE {
        (e1, l1)
    } else {
        (entries_with(e1, l1, p, Entry { address, score }), if l1 < 32 { l1 + 1 } else { 32 })
    }
}

impl Leaderboard {
    /// The entries on the board, best first.
    pub open spec fn ranked(self) -> Seq<Entry> {
        self.entries@.take(self.len as int)
    }

    /// The number of entries never exceeds the number of slots.
    pub open spec fn wf(self) -> bool {
        self.len <= LEADERBOARD_SIZE
    }

    /// Remove an entry from the leaderboard.
    pub fn remove(&mut self, address: Pubkey)
        requires
            old(self).wf(),
        ensures
            final(self).wf(),
            final(self).total_score == old(self).total_score,
            (final(self).entries@, final(self).len as int) == removed(
                old(self).entries@,
                old(self).len as int,
                address,
            ),
    {
        // Find entry to remove
        let mut remove_at: Option<usize> = None;
        let mut i: usize = 0;
        while i < self.len
            invariant_except_break
                remove_at is None,
            invariant
                self.wf(),
                *self == *old(self),
                0 <= i <= self.len,
                forall|j: int| 0 <= j < i ==> self.entries@[j].address != address,
            ensures
                remove_at matches Some(k) ==> is_first_address(self.entries@, self.len as int, address, k as int),
                remove_at is None ==> forall|j: int| 0 <= j < self.len ==> self.entries@[j].address != address,
            decreases self.len - i,
        {
            if self.entries[i].address == address {
                remove_at = Some(i);
                break;
            }
            i += 1;
        }
        proof {
            let ghost es = self.entries@;
            let ghost n = self.len as int;
            if let Some(k) = remove_at {
                assert forall|x: int| is_first_address(es, n, address, x) implies x == k by {
                    if x < k {
                    } else if x > k {
                    }
                }
            } else {
                assert(!exists|x: int| is_first_address(es, n, address, x));
            }
        }
        // Shift entries up to fill gap
        if let Some(i) = remove_at {
            let ghost old_entries = self.entries@;
            let len = self.len;
            let mut j: usize = i;
            while j < len - 1
                invariant
                    i <= j <= len - 1,
                    len == self.len,
                    self.total_score == old(self).total_score,
                    1 <= len <= 32,
                    self.entries@.len() == 32,
                    forall|k: int| 0 <= k < i ==> self.entries@[k] == old_entries[k],
                    forall|k: int| i <= k < j ==> self.entries@[k] == old_entries[k + 1],
                    forall|k: int| j <= k < 32 ==> self.entries@[k] == old_entries[k],
                decreases len - 1 - j,
            {
                self.entries[j] = self.entries[j + 1];
                j += 1;
            }
            self.len = self.len - 1;
            assert(self.entries@ =~= entries_without(old_entries, len as int, i as int));
        }
    }

    /// Insert a new entry into the leaderboard, maintaining sort order: any entry of the same
    /// address is removed first, the new one goes before the first lower score, and the last
    /// entry drops off a full board (or the new one is not added if it would be last).
    pub fn insert(&mut self, address: Pubkey, score: u64)
        requires
            old(self).wf(),
        ensures
            final(self).wf(),
            final(self).total_score == old(self).total_score,
            (final(self).entries@, final(self).len as int) == inserted(
                old(self).entries@,
                old(self).len as int,
                address,
                score,
            ),
    {
        // First remove existing entry if present
        self.remove(address);
        // Find insertion point
        let mut insert_at = self.len;
        let mut i: usize = 0;
        while i < self.len
            invariant_except_break
                insert_at == self.len,
            invariant
                self.wf(),
                0 <= i <= self.len,
                forall|j: int| 0 <= j < i ==> score <= self.entries@[j].score,
            ensures
                insert_at < self.len ==> is_first_below(self.entries@, self.len as int, score, insert_at as int),
                insert_at == self.len ==> forall|j: int| 0 <= j < self.len ==> score <= self.entries@[j].score,
                insert_at <= self.len,
            decreases self.len - i,
        {
            if score > self.entries[i].score {
                insert_at = i;
                break;
            }
            i += 1;
        }
        proof {
            let ghost es = self.entries@;
            let ghost n = self.len as int;
            if insert_at < self.len {
                assert forall|x: int| is_first_below(es, n, score, x) implies x == insert_at by {
                    if x < insert_at {
                    } else if x > insert_at {
                    }
                }
            } else {
                assert(!exists|x: int| is_first_below(es, n, score, x));
            }
        }
        // Don't insert if score is too small and board is full
        if insert_at >= 32 && self.len >= 32 {
            return;
        }
        let ghost e1 = self.entries@;
        let len = self.len;
        // Shift entries down to make room
        if insert_at < len {
            let mut i = len;
            while i > insert_at
                invariant
                    insert_at <= i <= len,
                    len == self.len,
                    len <= 32,
                    self.total_score == old(self).total_score,
                    self.entries@.len() == 32,
                    forall|k: int|
                        0 <= k < 32 ==> #[trigger] self.entries@[k] == if i < k <= len {
                            e1[k - 1]
                        } else {
                            e1[k]
                        },
                decreases i,
            {
                if i < 32 {
                    self.entries[i] = self.entries[i - 1];
                }
                i -= 1;
            }
        }
        // Insert new entry
        if insert_at < 32 {
            self.entries[insert_at] = Entry { address, score };
            self.len = if self.len + 1 < 32 { self.len + 1 } else { 32 };
            assert(self.entries@ =~= entries_with(e1, len as int, insert_at as int, Entry { address, score }));
        }
    }
}

} // verus!

verus! {

/// If some position among the first `len` holds `address`, a first such position exists.
proof fn lemma_first_address_exists(entries: Seq<Entry>, len: int, address: Pubkey, k: int)
    requires
        0 <= k < len,
        entries[k].address == address,
    ensures
        exists|i: int| is_first_address(entries, len, address, i),
    decreases k,
{
    if exists|j: int| 0 <= j < k && entries[j].address == address {
        let j = choose|j: int| 0 <= j < k && entries[j].address == address;
        lemma_first_address_exists(entries, len, address, j);
    } else {
        assert(is_first_address(entries, len, address, k));
    }
}

/// If some position among the first `len` has a score below `score`, a first such position exists.
proof fn lemma_first_below_exists(entries: Seq<Entry>, len: int, score: u64, k: int)
    requires
        0 <= k < len,
        score > entries[k].score,
    ensures
        exists|i: int| is_first_below(entries, len, score, i),
    decreases k,
{
    if exists|j: int| 0 <= j < k && score > entries[j].score {
        let j = choose|j: int| 0 <= j < k && score > entries[j].score;
        lemma_first_below_exists(entries, len, score, j);
    } else {
        assert(is_first_below(entries, len, score, k));
    }
}

/// Removing keeps a board sorted by score and free of repeated addresses, and afterwards
/// the removed address is no longer on it.
pub proof fn law_remove_keeps_order(entries: Seq<Entry>, len: int, address: Pubkey)
    requires
        entries.len() == LEADERBOARD_SIZE,
        0 <= len <= LEADERBOARD_SIZE,
        sorted_desc(entries, len),
        distinct_addresses(entries, len),
    ensures
        ({
            let (e, l) = removed(entries, len, address);
            &&& e.len() == LEADERBOARD_SIZE
            &&& 0 <= l <= len
            &&& sorted_desc(e, l)
            &&& distinct_addresses(e, l)
            &&& forall|k: int| 0 <= k < l ==> e[k].address != address
        }),
{
    let i = removal_index(entries, len, address);
    if i < len {
        assert(exists|x: int| is_first_address(entries, len, address, x));
        assert(is_first_address(entries, len, address, i));
        let e = entries_without(entries, len, i);
        assert forall|k: int| 0 <= k < len - 1 implies #[trigger] e[k] == if k < i {
            entries[k]
        } else {
            entries[k + 1]
        } by {}
        assert forall|a: int, b: int| 0 <= a < b < len - 1 implies e[a].score >= e[b].score by {
            let a2 = if a < i { a } else { a + 1 };
            let b2 = if b < i { b } else { b + 1 };
            assert(e[a] == entries[a2]);
            assert(e[b] == entries[b2]);
        }
        assert forall|a: int, b: int| 0 <= a < b < len - 1 implies e[a].address != e[b].address by {
            let a2 = if a < i { a } else { a + 1 };
            let b2 = if b < i { b } else { b + 1 };
            assert(e[a] == entries[a2]);
            assert(e[b] == entries[b2]);
        }
        assert forall|k: int| 0 <= k < len - 1 implies e[k].address != address by {
            let k2 = if k < i { k } else { k + 1 };
            assert(e[k] == entries[k2]);
            if k2 > i {
                assert(entries[i].address != entries[k2].address);
            }
        }
    } else {
        assert forall|k: int| 0 <= k < len implies entries[k].address != address by {
            if entries[k].address == address {
                lemma_first_address_exists(entries, len, address, k);
            }
        }
    }
}

/// Inserting keeps a board sorted by score (best first), free of repeated addresses and
/// within its slots.
pub proof fn law_insert_keeps_order(entries: Seq<Entry>, len: int, address: Pubkey, score: u64)
    requires
        entries.len() == LEADERBOARD_SIZE,
        0 <= len <= LEADERBOARD_SIZE,
        sorted_desc(entries, len),
        distinct_addresses(entries, len),
    ensures
        ({
            let (e, l) = inserted(entries, len, address, score);
            &&& e.len() == LEADERBOARD_SIZE
            &&& 0 <= l <= LEADERBOARD_SIZE
            &&& sorted_desc(e, l)
            &&& distinct_addresses(e, l)
        }),
{
    law_remove_keeps_order(entries, len, address);
    let (e1, l1) = removed(entries, len, address);
    let p = insertion_index(e1, l1, score);
    if p < LEADERBOARD_SIZE {
        let new_entry = Entry { address, score };
        let e = entries_with(e1, l1, p, new_entry);
        let l = if l1 < 32 { l1 + 1 } else { 32 };
        if p < l1 {
            assert(exists|x: int| is_first_below(e1, l1, score, x));
            assert(is_first_below(e1, l1, score, p));
        } else {
            assert forall|k: int| 0 <= k < l1 implies score <= e1[k].score by {
                if score > e1[k].score {
                    lemma_first_below_exists(e1, l1, score, k);
                }
            }
        }
        assert forall|k: int| 0 <= k < l implies #[trigger] e[k] == if k < p {
            e1[k]
        } else if k == p {
            new_entry
        } else {
            e1[k - 1]
        } by {}
        assert forall|a: int, b: int| 0 <= a < b < l implies e[a].score >= e[b].score by {
            if b < p {
            } else if b == p {
            } else if a < p {
                assert(e1[a].score >= e1[p].score);
            } else if a == p {
                assert(e1[p].score >= e1[b - 1].score);
            } else {
            }
        }
        assert forall|a: int, b: int| 0 <= a < b < l implies e[a].address != e[b].address by {
            if b < p {
            } else if b == p {
            } else if a < p {
            } else if a == p {
            } else {
            }
        }
    }
}

/// Removing an address undoes inserting it, on a board that is not full and does not hold
/// that address: the ranked entries are back as they were.
pub proof fn law_remove_undoes_insert(entries: Seq<Entry>, len: int, address: Pubkey, score: u64)
    requires
        entries.len() == LEADERBOARD_SIZE,
        0 <= len < LEADERBOARD_SIZE,
        forall|k: int| 0 <= k < len ==> entries[k].address != address,
    ensures
        ({
            let (e, l) = inserted(entries, len, address, score);
            let (e2, l2) = removed(e, l, address);
            &&& l2 == len
            &&& e2.take(l2) == entries.take(len)
        }),
{
    assert(!exists|x: int| is_first_address(entries, len, address, x));
    let p = insertion_index(entries, len, score);
    if p < len {
        assert(exists|x: int| is_first_below(entries, len, score, x));
        assert(is_first_below(entries, len, score, p));
    }
    let new_entry = Entry { address, score };
    let e = entries_with(entries, len, p, new_entry);
    let l = len + 1;
    assert(e[p] == new_entry);
    assert(is_first_address(e, l, address, p));
    assert forall|x: int| is_first_address(e, l, address, x) implies x == p by {
        if x < p {
            assert(e[x] == entries[x]);
        }
    }
    let e2 = entries_without(e, l, p);
    assert(e2.take(len) =~= entries.take(len));
}

/// An inserted entry is on the board afterwards, at its place in the order, unless the
/// board was full and every entry scored at least as much.
pub proof fn law_insert_places_entry(entries: Seq<Entry>, len: int, address: Pubkey, score: u64)
    requires
        entries.len() == LEADERBOARD_SIZE,
        0 <= len <= LEADERBOARD_SIZE,
        sorted_desc(entries, len),
        distinct_addresses(entries, len),
    ensures
        ({
            let (e1, l1) = removed(entries, len, address);
            let (e, l) = inserted(entries, len, address, score);
            (exists|k: int| 0 <= k < l && e[k] == Entry { address, score }) <==> !(l1
                == LEADERBOARD_SIZE && forall|j: int| 0 <= j < l1 ==> score <= e1[j].score)
        }),
{
    law_remove_keeps_order(entries, len, address);
    let (e1, l1) = removed(entries, len, address);
    let p = insertion_index(e1, l1, score);
    let (e, l) = inserted(entries, len, address, score);
    let new_entry = Entry { address, score };
    if p < l1 {
        assert(exists|x: int| is_first_below(e1, l1, score, x));
        assert(is_first_below(e1, l1, score, p));
    } else {
        assert forall|k: int| 0 <= k < l1 implies score <= e1[k].score by {
            if score > e1[k].score {
                lemma_first_below_exists(e1, l1, score, k);
            }
        }
    }
    if p < LEADERBOARD_SIZE {
        assert(e[p] == new_entry);
        if l1 == LEADERBOARD_SIZE {
            assert(score > e1[p].score);
        }
    } else {
        assert forall|k: int| 0 <= k < l implies e[k] != new_entry by {
            assert(e1[k].address != address);
        }
    }
}

} // verus!
