//! Planning which address lookup tables hold a boost's stake accounts.
use vstd::prelude::*;

use crate::pubkey::{parse_pubkey, spec_parse_pubkey, Pubkey};
use crate::worker::bundle::{chunked, chunks, chunks_of_vecs, flatten, views, MAX_TXS_PER_BUNDLE};

verus! {

/// The most addresses a lookup table holds.
pub const MAX_ACCOUNTS_PER_LUT: usize = 256;
/// The most addresses one extend instruction adds.
pub const MAX_ACCOUNTS_PER_EXTEND: usize = 26;

/// A lookup table of the boost and the addresses it holds.
#[derive(Clone, Debug)]
pub struct LookupTable {
    pub key: Pubkey,
    pub addresses: Vec<Pubkey>,
}

/// What to do to table every stake account.
#[derive(Clone, Debug)]
pub struct SyncPlan {
    /// A table with room, and the addresses to add to it.
    pub extend: Option<(Pubkey, Vec<Pubkey>)>,
    /// The addresses of each new table to create, in order.
    pub allocate: Vec<Vec<Pubkey>>,
}

/// Some table holds `key`.
pub open spec fn in_tables(tables: Seq<LookupTable>, key: Pubkey) -> bool {
    exists|i: int, j: int|
        0 <= i < tables.len() && 0 <= j < tables[i].addresses@.len() && #[trigger] tables[i].addresses@[j] == key
}

/// The stake accounts that no table holds, in order.
pub open spec fn untabled(tables: Seq<LookupTable>, stakes: Seq<Pubkey>) -> Seq<Pubkey>
    decreases stakes.len(),
{
    if stakes.len() == 0 {
        Seq::empty()
    } else if in_tables(tables, stakes.last()) {
        untabled(tables, stakes.drop_last())
    } else {
        untabled(tables, stakes.drop_last()).push(stakes.last())
    }
}

/// The table has room for another address.
pub open spec fn has_room(table: LookupTable) -> bool {
    table.addresses@.len() < MAX_ACCOUNTS_PER_LUT
}

/// `c` is the first table with room.
pub open spec fn first_with_room(tables: Seq<LookupTable>, c: int) -> bool {
    &&& 0 <= c < tables.len()
    &&& has_room(tables[c])
    &&& forall|j: int| 0 <= j < c ==> !has_room(#[trigger] tables[j])
}

/// Whether some table holds `key`.
fn is_tabled(tables: &Vec<LookupTable>, key: &Pubkey) -> (r: bool)
    ensures
        r == in_tables(tables@, *key),
{
    let mut i: usize = 0;
    while i < tables.len()
        invariant
            0 <= i <= tables.len(),
            forall|a: int, b: int|
                0 <= a < i && 0 <= b < tables@[a].addresses@.len() ==> tables@[a].addresses@[b] != *key,
        decreases tables.len() - i,
    {
        let addresses = &tables[i].addresses;
        let mut j: usize = 0;
        while j < addresses.len()
            invariant
                0 <= j <= addresses.len(),
                i < tables@.len(),
                *addresses == tables@[i as int].addresses,
                forall|b: int| 0 <= b < j ==> addresses@[b] != *key,
            decreases addresses.len() - j,
        {
            if addresses[j] == *key {
                assert(tables@[i as int].addresses@[j as int] == *key);
                return true;
            }
            j += 1;
        }
        i += 1;
    }
    false
}

/// The stake accounts that no table holds, in order.
pub fn untabled_accounts(tables: &Vec<LookupTable>, stakes: &Vec<Pubkey>) -> (r: Vec<Pubkey>)
    ensures
        r@ == untabled(tables@, stakes@),
{
    let mut out: Vec<Pubkey> = Vec::new();
    let mut i: usize = 0;
    while i < stakes.len()
        invariant
            0 <= i <= stakes.len(),
            out@ == untabled(tables@, stakes@.take(i as int)),
        decreases stakes.len() - i,
    {
        assert(stakes@.take(i + 1).drop_last() =~= stakes@.take(i as int));
        if !is_tabled(tables, &stakes[i]) {
            out.push(stakes[i]);
        }
        i += 1;
    }
    assert(stakes@.take(stakes.len() as int) =~= stakes@);
    out
}

/// The first table with room, if any.
fn table_with_room(tables: &Vec<LookupTable>) -> (r: Option<usize>)
    ensures
        match r {
            Some(c) => first_with_room(tables@, c as int),
            None => forall|j: int| 0 <= j < tables@.len() ==> !has_room(#[trigger] tables@[j]),
        },
{
    let mut i: usize = 0;
    while i < tables.len()
        invariant
            0 <= i <= tables.len(),
            forall|j: int| 0 <= j < i ==> !has_room(#[trigger] tables@[j]),
        decreases tables.len() - i,
    {
        if tables[i].addresses.len() < MAX_ACCOUNTS_PER_LUT {
            return Some(i);
        }
        i += 1;
    }
    None
}

/// The addresses from `start` on.
fn tail(items: &Vec<Pubkey>, start: usize) -> (r: Vec<Pubkey>)
    requires
        start <= items.len(),
    ensures
        r@ == items@.skip(start as int),
{
    let mut out: Vec<Pubkey> = Vec::new();
    let mut i = start;
    while i < items.len()
        invariant
            start <= i <= items.len(),
            out@ == items@.subrange(start as int, i as int),
        decreases items.len() - i,
    {
        out.push(items[i]);
        i += 1;
        assert(out@ =~= items@.subrange(start as int, i as int));
    }
    out
}

/// Plans a sync of the lookup tables with the stake accounts. Nothing to do when every
/// stake account is tabled. Otherwise the first table with room takes as many of the
/// untabled accounts as fit, in order, and the rest go to new tables of at most 256
/// addresses each.
pub fn plan_sync(tables: &Vec<LookupTable>, stakes: &Vec<Pubkey>) -> (r: SyncPlan)
    ensures
        untabled(tables@, stakes@).len() == 0 ==> r.extend is None && r.allocate@.len() == 0,
        untabled(tables@, stakes@).len() > 0 ==> match r.extend {
            Some((key, added)) => exists|c: int|
                first_with_room(tables@, c) && key == tables@[c].key
                    && added@ == untabled(tables@, stakes@).take(
                        vstd::math::min(
                            MAX_ACCOUNTS_PER_LUT - tables@[c].addresses@.len(),
                            untabled(tables@, stakes@).len() as int,
                        ),
                    )
                    && chunked(
                        untabled(tables@, stakes@).skip(added@.len() as int),
                        MAX_ACCOUNTS_PER_LUT as int,
                        views(r.allocate@),
                    ),
            None => (forall|j: int| 0 <= j < tables@.len() ==> !has_room(#[trigger] tables@[j]))
                && chunked(untabled(tables@, stakes@), MAX_ACCOUNTS_PER_LUT as int, views(r.allocate@)),
        },
{
    let missing = untabled_accounts(tables, stakes);
    if missing.len() == 0 {
        return SyncPlan { extend: None, allocate: Vec::new() };
    }
    match table_with_room(tables) {
        Some(c) => {
            let space = MAX_ACCOUNTS_PER_LUT - tables[c].addresses.len();
            let take = if space > missing.len() { missing.len() } else { space };
            let added = vstd::slice::slice_to_vec(vstd::slice::slice_subrange(missing.as_slice(), 0, take));
            let rest = tail(&missing, take);
            let allocate = chunks(rest.as_slice(), MAX_ACCOUNTS_PER_LUT);
            assert(added@ =~= missing@.take(take as int));
            SyncPlan { extend: Some((tables[c].key, added)), allocate }
        },
        None => {
            let allocate = chunks(missing.as_slice(), MAX_ACCOUNTS_PER_LUT);
            SyncPlan { extend: None, allocate }
        },
    }
}

/// Groups the addresses added to a lookup table: extend instructions of at most 26
/// addresses, bundles of at most 5 instructions, in order.
pub fn plan_extend(addresses: &Vec<Pubkey>) -> (r: Vec<Vec<Vec<Pubkey>>>)
    ensures
        exists|ixs: Seq<Seq<Pubkey>>|
            chunked(addresses@, MAX_ACCOUNTS_PER_EXTEND as int, ixs) && chunked(
                ixs,
                MAX_TXS_PER_BUNDLE as int,
                r@.map_values(|b: Vec<Vec<Pubkey>>| views(b@)),
            ),
{
    let ixs = chunks(addresses.as_slice(), MAX_ACCOUNTS_PER_EXTEND);
    chunks_of_vecs(&ixs, MAX_TXS_PER_BUNDLE)
}

/// The addresses that the lines of a lookup-table file name, in order; a line that is no
/// address is skipped.
pub open spec fn listed_tables(lines: Seq<Seq<char>>) -> Seq<Seq<u8>>
    decreases lines.len(),
{
    if lines.len() == 0 {
        Seq::empty()
    } else {
        match spec_parse_pubkey(lines.last()) {
            Some(key) => listed_tables(lines.drop_last()).push(key),
            None => listed_tables(lines.drop_last()),
        }
    }
}

/// Decodes the lines of a boost's lookup-table file, skipping lines that are no address.
pub fn parse_lookup_tables(lines: &Vec<String>) -> (r: Vec<Pubkey>)
    ensures
        r@.map_values(|k: Pubkey| k.bytes@) == listed_tables(lines@.map_values(|l: String| l@)),
{
    let ghost texts = lines@.map_values(|l: String| l@);
    let mut out: Vec<Pubkey> = Vec::new();
    let mut i: usize = 0;
    while i < lines.len()
        invariant
            0 <= i <= lines.len(),
            texts == lines@.map_values(|l: String| l@),
            out@.map_values(|k: Pubkey| k.bytes@) == listed_tables(texts.take(i as int)),
        decreases lines.len() - i,
    {
        assert(texts.take(i + 1).drop_last() =~= texts.take(i as int));
        assert(texts.take(i + 1).last() == lines@[i as int]@);
        let ghost before = out@;
        match parse_pubkey(lines[i].as_str()) {
            Some(key) => {
                out.push(key);
                assert(out@.map_values(|k: Pubkey| k.bytes@) =~= before.map_values(|k: Pubkey| k.bytes@).push(key.bytes@));
            },
            None => {},
        }
        i += 1;
    }
    assert(texts.take(lines.len() as int) =~= texts);
    out
}

proof fn lemma_untabled_contains(tables: Seq<LookupTable>, stakes: Seq<Pubkey>, k: int)
    requires
        0 <= k < stakes.len(),
        !in_tables(tables, stakes[k]),
    ensures
        untabled(tables, stakes).contains(stakes[k]),
    decreases stakes.len(),
{
    let u = untabled(tables, stakes);
    if k == stakes.len() - 1 {
        assert(u.last() == stakes[k]);
        assert(u[u.len() - 1] == stakes[k]);
    } else {
        lemma_untabled_contains(tables, stakes.drop_last(), k);
        let prev = untabled(tables, stakes.drop_last());
        let j = choose|j: int| 0 <= j < prev.len() && prev[j] == stakes[k];
        if !in_tables(tables, stakes.last()) {
            assert(u[j] == prev[j]);
        }
    }
}

proof fn lemma_flatten_contains(chunks: Seq<Seq<Pubkey>>, x: Pubkey)
    requires
        flatten(chunks).contains(x),
    ensures
        exists|i: int| 0 <= i < chunks.len() && #[trigger] chunks[i].contains(x),
    decreases chunks.len(),
{
    if chunks.len() > 0 {
        let f = flatten(chunks.drop_last());
        let j = choose|j: int| 0 <= j < flatten(chunks).len() && flatten(chunks)[j] == x;
        if j < f.len() {
            assert(f[j] == x);
            lemma_flatten_contains(chunks.drop_last(), x);
            let i = choose|i: int| 0 <= i < chunks.drop_last().len() && #[trigger] chunks.drop_last()[i].contains(x);
            assert(chunks[i] == chunks.drop_last()[i]);
        } else {
            assert(chunks.last()[j - f.len()] == x);
            assert(chunks[chunks.len() - 1].contains(x));
        }
    }
}

/// Law: after a sync as planned, every stake account has a table: it was tabled already, or
/// it is among the addresses added to the table with room, or in one of the new tables.
pub proof fn law_sync_tables_every_stake(
    tables: Seq<LookupTable>,
    stakes: Seq<Pubkey>,
    added: Seq<Pubkey>,
    allocate: Seq<Seq<Pubkey>>,
    k: int,
)
    requires
        0 <= k < stakes.len(),
        added == untabled(tables, stakes).take(added.len() as int),
        added.len() <= untabled(tables, stakes).len(),
        chunked(untabled(tables, stakes).skip(added.len() as int), MAX_ACCOUNTS_PER_LUT as int, allocate),
    ensures
        in_tables(tables, stakes[k]) || added.contains(stakes[k])
            || exists|i: int| 0 <= i < allocate.len() && #[trigger] allocate[i].contains(stakes[k]),
{
    if !in_tables(tables, stakes[k]) {
        let u = untabled(tables, stakes);
        lemma_untabled_contains(tables, stakes, k);
        let j = choose|j: int| 0 <= j < u.len() && u[j] == stakes[k];
        if j < added.len() {
            assert(added[j] == stakes[k]);
        } else {
            let rest = u.skip(added.len() as int);
            assert(rest[j - added.len()] == stakes[k]);
            assert(flatten(allocate).contains(stakes[k]));
            lemma_flatten_contains(allocate, stakes[k]);
        }
    }
}

} // verus!
