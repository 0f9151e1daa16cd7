//! Splitting rebase work into transactions and Jito bundles, and judging bundle confirmations.
use vstd::prelude::*;

use crate::pubkey::Pubkey;

verus! {

/// Errors of the checkpoint worker.
#[derive(Clone, Copy, Debug, PartialEq, Eq, Structural)]
pub enum WorkerError {
    ClockStillTicking,
    EmptyJitoBundle,
    EmptyJitoBundleConfirmation,
    InvalidHeliusCluster,
    MissingHeliusSolanaAsyncClient,
    TooManyTransactionsInJitoBundle,
    UnconfirmedJitoBundle,
}

/// The most stake accounts rebased in one transaction.
pub const MAX_ACCOUNTS_PER_TX: usize = 20;
/// The most transactions in one Jito bundle.
pub const MAX_TXS_PER_BUNDLE: usize = 5;
/// How many times a bundle confirmation is requested before giving up.
pub const MAX_CONFIRMATION_RETRIES: u32 = 15;
/// Compute units the first transaction of a bundle reserves for the payout.
pub const CUS_PAYOUT: u32 = 30_000;
/// Compute units per rebase instruction.
pub const CUS_REBASE: u32 = 7_000;
/// Compute units the last transaction of a bundle reserves for the Jito tip.
pub const CUS_JITO_TIP: u32 = 1_000;

/// The contents of each vector.
pub open spec fn views<T>(v: Seq<Vec<T>>) -> Seq<Seq<T>> {
    v.map_values(|x: Vec<T>| x@)
}

/// The concatenation of a sequence of sequences.
pub open spec fn flatten<T>(chunks: Seq<Seq<T>>) -> Seq<T>
    decreases chunks.len(),
{
    if chunks.len() == 0 {
        Seq::empty()
    } else {
        flatten(chunks.drop_last()) + chunks.last()
    }
}

/// The pieces of `items` of `size` in order, the last one possibly shorter.
pub open spec fn chunked<T>(items: Seq<T>, size: int, chunks: Seq<Seq<T>>) -> bool {
    &&& flatten(chunks) == items
    &&& forall|i: int| 0 <= i < chunks.len() ==> 0 < #[trigger] chunks[i].len() <= size
    &&& forall|i: int| 0 <= i < chunks.len() - 1 ==> #[trigger] chunks[i].len() == size
}

/// Splits `items` into pieces of `size` (the last one possibly shorter), like `slice::chunks`.
pub fn chunks<T: Copy>(items: &[T], size: usize) -> (r: Vec<Vec<T>>)
    requires
        size > 0,
    ensures
        chunked(items@, size as int, views(r@)),
{
    let mut out: Vec<Vec<T>> = Vec::new();
    let mut start: usize = 0;
    let n = items.len();
    assert(views(out@) =~= Seq::<Seq<T>>::empty());
    assert(items@.take(0) =~= Seq::<T>::empty());
    while start < n
        invariant
            n == items@.len(),
            size > 0,
            start <= n,
            start < n ==> forall|i: int| 0 <= i < out@.len() ==> #[trigger] out@[i]@.len() == size,
            chunked(items@.take(start as int), size as int, views(out@)),
        decreases n - start,
    {
        let end = if n - start > size { start + size } else { n };
        let mut piece: Vec<T> = Vec::new();
        let mut j = start;
        while j < end
            invariant
                start <= j <= end <= n,
                n == items@.len(),
                piece@ == items@.subrange(start as int, j as int),
            decreases end - j,
        {
            piece.push(items[j]);
            j += 1;
            assert(piece@ =~= items@.subrange(start as int, j as int));
        }
        let ghost before = views(out@);
        out.push(piece);
        proof {
            let after = views(out@);
            assert(after =~= before.push(items@.subrange(start as int, end as int)));
            assert(after.drop_last() =~= before);
            assert(items@.take(end as int) =~= items@.take(start as int) + items@.subrange(start as int, end as int));
        }
        start = end;
    }
    assert(items@.take(n as int) =~= items@);
    out
}


/// Groups stake accounts for a checkpoint: transactions of at most 20 rebases, bundles of at
/// most 5 transactions, in order. `None` when there are no stake accounts: then a single
/// rebase with the default address resets the checkpoint.
pub fn plan_rebase_all(stake_accounts: &[Pubkey]) -> (r: Option<Vec<Vec<Vec<Pubkey>>>>)
    ensures
        stake_accounts@.len() == 0 <==> r is None,
        r matches Some(bundles) ==> exists|txs: Seq<Seq<Pubkey>>|
            chunked(stake_accounts@, MAX_ACCOUNTS_PER_TX as int, txs) && chunked(
                txs,
                MAX_TXS_PER_BUNDLE as int,
                bundles@.map_values(|b: Vec<Vec<Pubkey>>| views(b@)),
            ),
{
    if stake_accounts.len() == 0 {
        return None;
    }
    let txs = chunks(stake_accounts, MAX_ACCOUNTS_PER_TX);
    let bundles = chunks_of_vecs(&txs, MAX_TXS_PER_BUNDLE);
    Some(bundles)
}

/// Splits a list of transactions into pieces of `size` (the last one possibly shorter).
pub fn chunks_of_vecs<T: Copy>(items: &Vec<Vec<T>>, size: usize) -> (r: Vec<Vec<Vec<T>>>)
    requires
        size > 0,
    ensures
        chunked(views(items@), size as int, r@.map_values(|b: Vec<Vec<T>>| views(b@))),
{
    let mut out: Vec<Vec<Vec<T>>> = Vec::new();
    let mut start: usize = 0;
    let n = items.len();
    let ghost all = views(items@);
    assert(out@.map_values(|b: Vec<Vec<T>>| views(b@)) =~= Seq::<Seq<Seq<T>>>::empty());
    assert(all.take(0) =~= Seq::<Seq<T>>::empty());
    while start < n
        invariant
            n == items@.len(),
            all == views(items@),
            size > 0,
            start <= n,
            start < n ==> forall|i: int| 0 <= i < out@.len() ==> #[trigger] out@[i]@.len() == size,
            chunked(all.take(start as int), size as int, out@.map_values(|b: Vec<Vec<T>>| views(b@))),
        decreases n - start,
    {
        let end = if n - start > size { start + size } else { n };
        let mut piece: Vec<Vec<T>> = Vec::new();
        let mut j = start;
        while j < end
            invariant
                start <= j <= end <= n,
                n == items@.len(),
                all == views(items@),
                views(piece@) == all.subrange(start as int, j as int),
            decreases end - j,
        {
            let ghost prev = views(piece@);
            piece.push(clone_vec(&items[j]));
            assert(all[j as int] == items@[j as int]@);
            assert(views(piece@) =~= prev.push(all[j as int]));
            j += 1;
            assert(views(piece@) =~= all.subrange(start as int, j as int));
        }
        let ghost before = out@.map_values(|b: Vec<Vec<T>>| views(b@));
        out.push(piece);
        proof {
            let after = out@.map_values(|b: Vec<Vec<T>>| views(b@));
            assert(after =~= before.push(all.subrange(start as int, end as int)));
            assert(after.drop_last() =~= before);
            assert(all.take(end as int) =~= all.take(start as int) + all.subrange(start as int, end as int));
        }
        start = end;
    }
    assert(all.take(n as int) =~= all);
    out
}

/// A copy of a vector.
fn clone_vec<T: Copy>(v: &Vec<T>) -> (r: Vec<T>)
    ensures
        r@ == v@,
{
    vstd::slice::slice_to_vec(v.as_slice())
}

/// The compute unit limit of a transaction of a bundle: every rebase gets its units, the
/// first transaction also the payout's, the last one also the tip's.
pub open spec fn compute_limit(index: int, count: int, instructions: int) -> int {
    (if index == 0 { CUS_PAYOUT as int } else { 0 }) + instructions * CUS_REBASE + (if index == count
        - 1 {
        CUS_JITO_TIP as int
    } else {
        0
    })
}

/// The compute unit limits that go in front of each transaction of a bundle.
pub fn insert_compute_units(bundle: &Vec<Vec<Pubkey>>) -> (r: Vec<u32>)
    requires
        forall|i: int|
            0 <= i < bundle@.len() ==> compute_limit(i, bundle@.len() as int, #[trigger] bundle@[i]@.len() as int)
                <= u32::MAX,
    ensures
        r@.len() == bundle@.len(),
        forall|i: int| 0 <= i < bundle@.len() ==> #[trigger] r@[i] == compute_limit(
            i,
            bundle@.len() as int,
            bundle@[i]@.len() as int,
        ),
{
    let n = bundle.len();
    let mut out: Vec<u32> = Vec::new();
    let mut index: usize = 0;
    while index < n
        invariant
            n == bundle@.len(),
            0 <= index <= n,
            out@.len() == index,
            forall|i: int|
                0 <= i < bundle@.len() ==> compute_limit(i, bundle@.len() as int, #[trigger] bundle@[i]@.len() as int)
                    <= u32::MAX,
            forall|i: int| 0 <= i < index ==> #[trigger] out@[i] == compute_limit(i, n as int, bundle@[i]@.len() as int),
        decreases n - index,
    {
        // add the payout compute units to the first transaction
        let mut compute_units: u32 = if index == 0 { CUS_PAYOUT } else { 0 };
        // every transaction gets the rebase compute units for each instruction
        assert(compute_limit(index as int, n as int, bundle@[index as int]@.len() as int) <= u32::MAX);
        let num_instructions = bundle[index].len() as u32;
        compute_units = compute_units + num_instructions * CUS_REBASE;
        // add the jito tip compute units to the last transaction
        if index == n - 1 {
            compute_units = compute_units + CUS_JITO_TIP;
        }
        out.push(compute_units);
        index += 1;
    }
    out
}

/// Checks the number of transactions in a Jito bundle: between one and five.
pub fn check_bundle_size(count: usize) -> (r: Result<(), WorkerError>)
    ensures
        count > MAX_TXS_PER_BUNDLE ==> r == Err::<(), WorkerError>(WorkerError::TooManyTransactionsInJitoBundle),
        count == 0 ==> r == Err::<(), WorkerError>(WorkerError::EmptyJitoBundle),
        0 < count <= MAX_TXS_PER_BUNDLE ==> r is Ok,
{
    if count > MAX_TXS_PER_BUNDLE {
        return Err(WorkerError::TooManyTransactionsInJitoBundle);
    }
    if count == 0 {
        return Err(WorkerError::EmptyJitoBundle);
    }
    Ok(())
}

/// What the worker does after asking whether a bundle landed.
#[derive(Clone, Copy, Debug, PartialEq, Eq, Structural)]
pub enum ConfirmStep {
    /// The bundle landed.
    Confirmed,
    /// Ask again after a pause, with this many failed attempts.
    Retry(u32),
    /// Give up: the bundle is unconfirmed.
    GiveUp,
}

/// The next step of confirming a bundle after `retries` failed attempts and the latest answer.
pub fn confirmation_step(retries: u32, landed: bool) -> (r: ConfirmStep)
    requires
        retries < MAX_CONFIRMATION_RETRIES,
    ensures
        landed ==> r == ConfirmStep::Confirmed,
        !landed && retries + 1 == MAX_CONFIRMATION_RETRIES ==> r == ConfirmStep::GiveUp,
        !landed && retries + 1 < MAX_CONFIRMATION_RETRIES ==> r == ConfirmStep::Retry((retries + 1) as u32),
{
    if landed {
        return ConfirmStep::Confirmed;
    }
    let retries = retries + 1;
    if retries == MAX_CONFIRMATION_RETRIES {
        ConfirmStep::GiveUp
    } else {
        ConfirmStep::Retry(retries)
    }
}

/// The bytes of the status of a landed bundle (`Landed`).
pub const LANDED: [u8; 6] = [76, 97, 110, 100, 101, 100];

/// Whether two byte strings are equal.
pub fn bytes_eq(a: &[u8], b: &[u8]) -> (r: bool)
    ensures
        r == (a@ == b@),
{
    if a.len() != b.len() {
        return false;
    }
    let mut i: usize = 0;
    while i < a.len()
        invariant
            a@.len() == b@.len(),
            0 <= i <= a@.len(),
            forall|k: int| 0 <= k < i ==> a@[k] == b@[k],
        decreases a.len() - i,
    {
        if a[i] != b[i] {
            return false;
        }
        i += 1;
    }
    assert(a@ =~= b@);
    true
}

/// How a bundle status reply reads.
#[derive(Clone, Copy, Debug, PartialEq, Eq, Structural)]
pub enum BundleStatus {
    /// The reply carries an error.
    RpcError,
    /// The bundle landed.
    Landed,
    /// The reply lists no bundle.
    Missing,
    /// The bundle has another status.
    Pending,
}

/// Reads a bundle status reply: an error field wins, then the first listed status decides.
pub fn read_bundle_status(has_error: bool, first_status: Option<&[u8]>) -> (r: BundleStatus)
    ensures
        has_error ==> r == BundleStatus::RpcError,
        !has_error && first_status is None ==> r == BundleStatus::Missing,
        !has_error ==> (first_status matches Some(s) ==> r == if s@ == LANDED@ {
            BundleStatus::Landed
        } else {
            BundleStatus::Pending
        }),
{
    if has_error {
        return BundleStatus::RpcError;
    }
    match first_status {
        None => BundleStatus::Missing,
        Some(s) => {
            if bytes_eq(s, vstd::array::array_as_slice(&LANDED)) {
                BundleStatus::Landed
            } else {
                BundleStatus::Pending
            }
        },
    }
}

} // verus!
