//! Mapping a function over a batch of items, sequentially for small batches and
//! in parallel for large ones, with the same result either way.

use rayon::iter::{IntoParallelRefIterator, ParallelIterator};
use vstd::prelude::*;

verus! {

/// Batches with at least this many items are mapped in parallel.
pub const PARALLEL_THRESHOLD: usize = 256;

/// `r` holds, at each index, a value that `f` may return for the item there.
pub open spec fn maps_each<T, U, F: Fn(&T) -> U>(f: F, items: Seq<T>, r: Seq<U>) -> bool {
    &&& r.len() == items.len()
    &&& forall|i: int| 0 <= i < items.len() ==> call_ensures(f, (&items[i],), #[trigger] r[i])
}

/// `f` may be called on every item.
pub open spec fn accepts_all<T, U, F: Fn(&T) -> U>(f: F, items: Seq<T>) -> bool {
    forall|i: int| 0 <= i < items.len() ==> call_requires(f, (&#[trigger] items[i],))
}

/// `f` returns at most one value for each argument.
pub open spec fn is_deterministic<T, U, F: Fn(&T) -> U>(f: F) -> bool {
    forall|x: T, a: U, b: U|
        #[trigger] call_ensures(f, (&x,), a) && #[trigger] call_ensures(f, (&x,), b) ==> a == b
}

/// For a function that returns one value per argument, a batch result holds at
/// each index exactly what a single call on that item returns, and padding the
/// batch with further items (which may move it across the parallel threshold)
/// leaves the results for the first items as they were.
pub proof fn lemma_padded_batch_agrees<T, U, F: Fn(&T) -> U>(
    f: F,
    items: Seq<T>,
    padding: Seq<T>,
    r: Seq<U>,
    padded_r: Seq<U>,
)
    requires
        is_deterministic(f),
        maps_each(f, items, r),
        maps_each(f, items + padding, padded_r),
    ensures
        r == padded_r.subrange(0, items.len() as int),
        forall|i: int, single: U|
            0 <= i < items.len() && call_ensures(f, (&items[i],), single) ==> r[i] == single,
{
    assert forall|i: int| 0 <= i < items.len() implies r[i] == padded_r[i] by {
        assert((items + padding)[i] == items[i]);
        assert(call_ensures(f, (&items[i],), r[i]));
        assert(call_ensures(f, (&items[i],), padded_r[i]));
    }
    assert(r =~= padded_r.subrange(0, items.len() as int));
}

/// Whether a batch of `n` items is large enough to be mapped in parallel.
pub fn runs_in_parallel(n: usize) -> (r: bool)
    ensures
        r == (n >= PARALLEL_THRESHOLD),
{
    n >= PARALLEL_THRESHOLD
}

/// Relies on rayon's `par_iter().map(f).collect()` over a `Vec`: an indexed
/// parallel iterator collects in the items' order, so each slot holds what `f`
/// returned for the item at that index.
#[verifier::external_body]
fn par_map<T: Sync, U: Send, F: Fn(&T) -> U + Sync + Send>(items: &Vec<T>, f: &F) -> (r: Vec<U>)
    requires
        accepts_all(*f, items@),
    ensures
        maps_each(*f, items@, r@),
{
    items.par_iter().map(f).collect()
}

/// Maps `f` over the items one after the other.
fn seq_map<T, U, F: Fn(&T) -> U>(items: &Vec<T>, f: &F) -> (r: Vec<U>)
    requires
        accepts_all(*f, items@),
    ensures
        maps_each(*f, items@, r@),
{
    let mut out: Vec<U> = Vec::new();
    let mut i: usize = 0;
    while i < items.len()
        invariant
            accepts_all(*f, items@),
            i <= items.len(),
            out.len() == i,
            forall|k: int| 0 <= k < i ==> call_ensures(*f, (&items@[k],), #[trigger] out@[k]),
        decreases items.len() - i,
    {
        let v = f(&items[i]);
        out.push(v);
        i += 1;
    }
    out
}

/// Maps `f` over the items: in parallel when there are at least
/// `PARALLEL_THRESHOLD` of them, else sequentially. The contract is the same
/// in both modes.
pub fn map_batch<T: Sync, U: Send, F: Fn(&T) -> U + Sync + Send>(items: &Vec<T>, f: &F) -> (r: Vec<U>)
    requires
        accepts_all(*f, items@),
    ensures
        maps_each(*f, items@, r@),
{
    if runs_in_parallel(items.len()) {
        par_map(items, f)
    } else {
        seq_map(items, f)
    }
}

} // verus!
