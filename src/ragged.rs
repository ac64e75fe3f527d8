//! Per-item parameters given as sequences that may be shorter than the batch:
//! an index past the end of a sequence reads that sequence's default.

use vstd::prelude::*;

verus! {

/// The element of `v` at `i`, or `default` where `v` has no such element.
pub open spec fn value_or<T>(v: Seq<T>, i: int, default: T) -> T {
    if 0 <= i < v.len() {
        v[i]
    } else {
        default
    }
}

/// `r` holds, at each index, a value that `f` may return for the item there
/// together with the two parameters at that index (or their defaults).
pub open spec fn maps_with_defaults<A, B, C, U, F: Fn(A, B, C) -> U>(
    f: F,
    items: Seq<A>,
    firsts: Seq<B>,
    first_default: B,
    seconds: Seq<C>,
    second_default: C,
    r: Seq<U>,
) -> bool {
    &&& r.len() == items.len()
    &&& forall|i: int|
        0 <= i < items.len() ==> call_ensures(
            f,
            (items[i], value_or(firsts, i, first_default), value_or(seconds, i, second_default)),
            #[trigger] r[i],
        )
}

/// The element of `v` at `i`, or `default` past its end.
pub fn get_or<T: Copy>(v: &Vec<T>, i: usize, default: T) -> (r: T)
    ensures
        r == value_or(v@, i as int, default),
{
    if i < v.len() {
        v[i]
    } else {
        default
    }
}

/// Calls `f` on each item with the parameters at the item's index, reading a
/// default where a parameter sequence is too short. Extra parameters are ignored.
pub fn map_with_defaults<A: Copy, B: Copy, C: Copy, U, F: Fn(A, B, C) -> U>(
    items: &Vec<A>,
    firsts: &Vec<B>,
    first_default: B,
    seconds: &Vec<C>,
    second_default: C,
    f: &F,
) -> (r: Vec<U>)
    requires
        forall|i: int|
            0 <= i < items.len() ==> call_requires(
                *f,
                (
                    #[trigger] items@[i],
                    value_or(firsts@, i, first_default),
                    value_or(seconds@, i, second_default),
                ),
            ),
    ensures
        maps_with_defaults(*f, items@, firsts@, first_default, seconds@, second_default, r@),
{
    let mut out: Vec<U> = Vec::new();
    let mut i: usize = 0;
    while i < items.len()
        invariant
            forall|k: int|
                0 <= k < items.len() ==> call_requires(
                    *f,
                    (
                        #[trigger] items@[k],
                        value_or(firsts@, k, first_default),
                        value_or(seconds@, k, second_default),
                    ),
                ),
            i <= items.len(),
            out.len() == i,
            forall|k: int|
                0 <= k < i ==> call_ensures(
                    *f,
                    (
                        items@[k],
                        value_or(firsts@, k, first_default),
                        value_or(seconds@, k, second_default),
                    ),
                    #[trigger] out@[k],
                ),
        decreases items.len() - i,
    {
        let first = get_or(firsts, i, first_default);
        let second = get_or(seconds, i, second_default);
        let v = f(items[i], first, second);
        out.push(v);
        i += 1;
    }
    out
}

/// An item past the end of the first parameter sequence is mapped with that
/// sequence's default, and one within it with its own parameter.
pub proof fn lemma_short_parameters_read_default<A, B, C, U, F: Fn(A, B, C) -> U>(
    f: F,
    items: Seq<A>,
    firsts: Seq<B>,
    first_default: B,
    seconds: Seq<C>,
    second_default: C,
    r: Seq<U>,
    i: int,
)
    requires
        maps_with_defaults(f, items, firsts, first_default, seconds, second_default, r),
        0 <= i < items.len(),
    ensures
        i >= firsts.len() ==> call_ensures(
            f,
            (items[i], first_default, value_or(seconds, i, second_default)),
            r[i],
        ),
        i < firsts.len() ==> call_ensures(
            f,
            (items[i], firsts[i], value_or(seconds, i, second_default)),
            r[i],
        ),
{
}

} // verus!
