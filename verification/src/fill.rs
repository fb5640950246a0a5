//! Pulling the first `N` items of an iterator into a fixed-size result.

use vstd::prelude::*;
use vstd::std_specs::iter::IteratorSpec;

use crate::builder::ArrayBuilder;

verus! {

/// What [`next_array`] returns, at the level of the source's items: the first
/// `n` items in pull order when at least `n` are available, nothing otherwise.
pub open spec fn fill_result<T>(s: Seq<T>, n: nat) -> Option<Seq<T>> {
    if n <= s.len() {
        Some(s.take(n as int))
    } else {
        None
    }
}

/// What [`next_array`] leaves in the source: everything past the first `n`
/// items on success, nothing on early exhaustion (the items pulled before the
/// source ran out are discarded).
pub open spec fn fill_rest<T>(s: Seq<T>, n: nat) -> Seq<T> {
    if n <= s.len() {
        s.skip(n as int)
    } else {
        Seq::empty()
    }
}

/// Pulls up to `N` items from `it` into a fresh builder and extracts the
/// finished result, or returns `None` if `it` ran out first. Consumes exactly
/// `min(N, items available)` items; on early exhaustion the items already
/// pulled are dropped with the abandoned builder.
pub fn next_array<I, T, const N: usize>(it: &mut I) -> (r: Option<Vec<T>>)
    where
        I: Iterator<Item = T>,
    requires
        (*old(it)).obeys_prophetic_iter_laws(),
    ensures
        (*final(it)).obeys_prophetic_iter_laws(),
        match r {
            Some(arr) => fill_result((*old(it)).remaining(), N as nat) == Some(arr@),
            None => fill_result((*old(it)).remaining(), N as nat) is None,
        },
        (*final(it)).remaining() == fill_rest((*old(it)).remaining(), N as nat),
{
    let ghost source = (*old(it)).remaining();
    let mut builder: ArrayBuilder<T, N> = ArrayBuilder::new();
    for i in 0..N
        invariant
            (*it).obeys_prophetic_iter_laws(),
            i <= source.len(),
            builder@ == source.take(i as int),
            builder.wf(),
            (*it).remaining() == source.skip(i as int),
            source == (*old(it)).remaining(),
    {
        match it.next() {
            Some(value) => {
                builder.push(value);
            },
            None => {
                return None;
            },
        }
    }
    builder.take()
}

/// The first `n` items come back whole and in order: on a source holding at
/// least `n` items, filling yields exactly items `0` through `n - 1` in pull
/// order and leaves exactly the items past the first `n` in the source.
pub proof fn lemma_fill_takes_prefix<T>(s: Seq<T>, n: nat)
    requires
        n <= s.len(),
    ensures
        fill_result(s, n) matches Some(arr) && arr.len() == n && (forall|i: int|
            0 <= i < n ==> arr[i] == s[i]),
        fill_rest(s, n).len() == s.len() - n,
        forall|i: int| 0 <= i < s.len() - n ==> fill_rest(s, n)[i] == s[i + n],
{
}

/// A source with fewer than `n` items yields no result, and nothing of it is
/// left: every item it did hold was pulled and discarded.
pub proof fn lemma_fill_exhausted<T>(s: Seq<T>, n: nat)
    requires
        s.len() < n,
    ensures
        fill_result(s, n) is None,
        fill_rest(s, n) == Seq::<T>::empty(),
{
}

/// Filling with `n == 0` always succeeds with an empty result and consumes
/// nothing, whatever the source holds.
pub proof fn lemma_fill_zero<T>(s: Seq<T>)
    ensures
        fill_result(s, 0) == Some(Seq::<T>::empty()),
        fill_rest(s, 0) == s,
{
}

/// Round trip: feeding the items of a filled result back as a fresh source
/// and filling again, with the same `n`, reproduces an equal result.
pub proof fn lemma_fill_round_trip<T>(s: Seq<T>, n: nat)
    requires
        n <= s.len(),
    ensures
        fill_result(s, n) matches Some(arr) && fill_result(arr, n) == Some(arr),
{
}

} // verus!
