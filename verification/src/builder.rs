//! A fixed-capacity builder that collects up to `N` elements and releases
//! them all at once.

use vstd::prelude::*;

verus! {

/// What [`ArrayBuilder::take`] returns, at the level of the builder's
/// contents: the whole prefix when it is complete, nothing otherwise.
pub open spec fn take_result<T>(s: Seq<T>, n: nat) -> Option<Seq<T>> {
    if s.len() == n {
        Some(s)
    } else {
        None
    }
}

/// What [`ArrayBuilder::take`] leaves behind: an empty builder after a
/// successful extraction, the contents untouched otherwise.
pub open spec fn take_rest<T>(s: Seq<T>, n: nat) -> Seq<T> {
    if s.len() == n {
        Seq::empty()
    } else {
        s
    }
}

/// Collects up to `N` elements of type `T`, in append order.
///
/// The builder starts empty, grows one element per [`push`](Self::push), and
/// yields its contents only through [`take`](Self::take), which succeeds
/// exactly when all `N` slots are filled. Elements never extracted are
/// released when the builder is dropped.
pub struct ArrayBuilder<T, const N: usize> {
    elements: Vec<T>,
}

impl<T, const N: usize> View for ArrayBuilder<T, N> {
    type V = Seq<T>;

    closed spec fn view(&self) -> Seq<T> {
        self.elements@
    }
}

impl<T, const N: usize> ArrayBuilder<T, N> {
    /// The builder never holds more than its capacity of `N` elements.
    pub open spec fn wf(&self) -> bool {
        self@.len() <= N
    }

    /// Returns an empty builder.
    pub fn new() -> (r: Self)
        ensures
            r@ == Seq::<T>::empty(),
            r.wf(),
    {
        ArrayBuilder { elements: Vec::new() }
    }

    /// Appends `value` at the end of the collected prefix.
    ///
    /// Appending to a full builder is a caller error, ruled out by the
    /// precondition; no slot is ever overwritten.
    pub fn push(&mut self, value: T)
        requires
            old(self)@.len() < N,
        ensures
            final(self)@ == old(self)@.push(value),
            final(self).wf(),
    {
        self.elements.push(value);
    }

    /// Extracts all `N` elements if the builder is full, resetting it to
    /// empty; a builder holding fewer than `N` elements is left unchanged
    /// and yields nothing.
    pub fn take(&mut self) -> (r: Option<Vec<T>>)
        requires
            old(self).wf(),
        ensures
            match r {
                Some(arr) => take_result(old(self)@, N as nat) == Some(arr@),
                None => take_result(old(self)@, N as nat) is None,
            },
            final(self)@ == take_rest(old(self)@, N as nat),
            final(self).wf(),
    {
        if self.elements.len() == N {
            let mut out: Vec<T> = Vec::new();
            core::mem::swap(&mut out, &mut self.elements);
            Some(out)
        } else {
            None
        }
    }
}

/// Two extractions in a row never yield the same elements twice: a full
/// builder yields its contents and is reset, so an immediate second
/// extraction finds an incomplete (empty) builder and yields nothing.
pub proof fn lemma_double_take<T>(s: Seq<T>, n: nat)
    requires
        s.len() == n,
        n >= 1,
    ensures
        take_result(s, n) == Some(s),
        take_result(take_rest(s, n), n) is None,
{
}

} // verus!
