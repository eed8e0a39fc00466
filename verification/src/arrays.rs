//! Fixed-length sequence codec: an ownership container of exactly `N`
//! elements, together with decoding from an untrusted source whose element
//! count is discovered only at decode time.
//!
//! A sequence's length is part of the format contract here, not of the wire
//! data: the decoder must fill exactly `N` slots and reject any source that
//! yields more or fewer elements, reporting the exact count it saw. A source
//! that fails mid-way leaves no partially-built container behind: the filled
//! prefix is owned by the builder and released normally when it is dropped.

use vstd::prelude::*;

verus! {

/// A fixed-length decode failed: the source yielded `actual` elements where
/// exactly `expected` were required.
#[derive(Debug, Clone, Copy, PartialEq, Eq, Structural)]
pub struct FixedLengthMismatch {
    pub expected: usize,
    pub actual: usize,
}

/// What decoding a complete source of `elements` at required length `n`
/// yields: the elements themselves when the count matches, and the pair of
/// expected and actual counts when it does not.
pub open spec fn spec_decode_exact<T>(elements: Seq<T>, n: nat) -> Result<Seq<T>, (nat, nat)> {
    if elements.len() == n {
        Ok(elements)
    } else {
        Err((n, elements.len()))
    }
}

/// Fixed-length round trip: a sequence of exactly `n` elements, emitted in
/// index order, decodes back to an equal sequence.
pub proof fn lemma_fixed_length_round_trip<T>(elements: Seq<T>, n: nat)
    requires
        elements.len() == n,
    ensures
        spec_decode_exact(elements, n) == Ok::<Seq<T>, (nat, nat)>(elements),
{
}

/// Length-mismatch detection: a source of `k != n` elements is rejected with
/// the expected and actual counts; no elements are fabricated or dropped to
/// make the count fit.
pub proof fn lemma_length_mismatch_detected<T>(elements: Seq<T>, n: nat)
    requires
        elements.len() != n,
    ensures
        spec_decode_exact(elements, n) == Err::<Seq<T>, (nat, nat)>((n, elements.len())),
{
}

/// An ownership container of exactly `N` elements of `T`: once constructed it
/// always holds exactly `N` valid values, and no partially-filled state is
/// observable outside this module.
#[derive(Debug, PartialEq)]
pub struct FixedSizeArray<T, const N: usize> {
    items: Vec<T>,
}

impl<T, const N: usize> View for FixedSizeArray<T, N> {
    type V = Seq<T>;

    closed spec fn view(&self) -> Seq<T> {
        self.items@
    }
}

impl<T, const N: usize> FixedSizeArray<T, N> {
    #[verifier::type_invariant]
    spec fn inv(self) -> bool {
        self.items@.len() == N
    }

    /// Trusted construction from a complete vector of exactly `N` elements.
    pub fn from_vec(items: Vec<T>) -> (r: Self)
        requires
            items@.len() == N,
        ensures
            r@ == items@,
    {
        FixedSizeArray { items }
    }

    /// Decodes a source that yielded `elements`: succeeds exactly when the
    /// count is `N`, and otherwise reports the expected and actual counts.
    pub fn decode_exact(elements: Vec<T>) -> (r: Result<Self, FixedLengthMismatch>)
        ensures
            match r {
                Ok(arr) => spec_decode_exact(elements@, N as nat) == Ok::<Seq<T>, (nat, nat)>(
                    arr@,
                ),
                Err(e) => {
                    &&& spec_decode_exact(elements@, N as nat) == Err::<Seq<T>, (nat, nat)>(
                        ((N as nat), elements@.len()),
                    )
                    &&& e == (FixedLengthMismatch { expected: N, actual: elements.len() })
                },
            },
    {
        if elements.len() == N {
            Ok(FixedSizeArray { items: elements })
        } else {
            Err(FixedLengthMismatch { expected: N, actual: elements.len() })
        }
    }

    /// The element count, which is always `N`.
    pub fn len(&self) -> (r: usize)
        ensures
            r == N,
            self@.len() == N,
    {
        proof {
            use_type_invariant(self);
        }
        self.items.len()
    }

    /// The elements in index order, as the encoder emits them.
    pub fn as_slice(&self) -> (r: &[T])
        ensures
            r@ == self@,
            r@.len() == N,
    {
        proof {
            use_type_invariant(self);
        }
        self.items.as_slice()
    }

    /// The element at index `i`.
    pub fn get(&self, i: usize) -> (r: &T)
        requires
            i < N,
        ensures
            *r == self@[i as int],
    {
        proof {
            use_type_invariant(self);
        }
        &self.items[i]
    }

    /// Gives up the container, handing its `N` elements back in index order.
    pub fn into_vec(self) -> (r: Vec<T>)
        ensures
            r@ == self@,
            r@.len() == N,
    {
        proof {
            use_type_invariant(&self);
        }
        self.items
    }
}

/// Incremental, untrusted construction of a [`FixedSizeArray`]: elements are
/// accepted one at a time, and only a builder holding exactly `N` of them can
/// be finished. A builder abandoned after a failure owns the filled prefix
/// and releases it exactly once, when it is dropped; unfilled slots never
/// existed as values at all.
#[derive(Debug)]
pub struct FixedSeqBuilder<T, const N: usize> {
    items: Vec<T>,
}

impl<T, const N: usize> View for FixedSeqBuilder<T, N> {
    type V = Seq<T>;

    closed spec fn view(&self) -> Seq<T> {
        self.items@
    }
}

impl<T, const N: usize> FixedSeqBuilder<T, N> {
    /// Well-formedness: a builder never holds more than `N` elements. Every
    /// constructor establishes it and every method preserves it.
    pub closed spec fn wf(self) -> bool {
        self.items@.len() <= N
    }

    /// A builder with no slot filled yet.
    pub fn new() -> (r: Self)
        ensures
            r.wf(),
            r@ == Seq::<T>::empty(),
    {
        FixedSeqBuilder { items: Vec::new() }
    }

    /// How many slots have been filled so far.
    pub fn filled(&self) -> (r: usize)
        requires
            self.wf(),
        ensures
            r == self@.len(),
            self@.len() <= N,
    {
        self.items.len()
    }

    /// Whether all `N` slots are filled.
    pub fn is_full(&self) -> (r: bool)
        requires
            self.wf(),
        ensures
            r == (self@.len() == N),
            self@.len() <= N,
    {
        self.items.len() == N
    }

    /// Moves `value` into the next unfilled slot. When every slot is already
    /// filled, the source is over-long: the builder is left unchanged, the
    /// offered element is dropped, and the mismatch reports `N` of `N` slots
    /// filled.
    pub fn push(&mut self, value: T) -> (r: Result<(), FixedLengthMismatch>)
        requires
            old(self).wf(),
        ensures
            final(self).wf(),
            match r {
                Ok(()) => old(self)@.len() < N && final(self)@ == old(self)@.push(value),
                Err(e) => {
                    &&& old(self)@.len() == N
                    &&& final(self)@ == old(self)@
                    &&& e == (FixedLengthMismatch { expected: N, actual: N })
                },
            },
    {
        if self.items.len() == N {
            Err(FixedLengthMismatch { expected: N, actual: N })
        } else {
            self.items.push(value);
            Ok(())
        }
    }

    /// Completes construction. Succeeds exactly when all `N` slots are
    /// filled; an under-long source is reported with the count it reached.
    pub fn finish(self) -> (r: Result<FixedSizeArray<T, N>, FixedLengthMismatch>)
        requires
            self.wf(),
        ensures
            match r {
                Ok(arr) => self@.len() == N && arr@ == self@,
                Err(e) => {
                    &&& self@.len() < N
                    &&& e == (FixedLengthMismatch { expected: N, actual: self@.len() as usize })
                },
            },
    {
        if self.items.len() == N {
            Ok(FixedSizeArray { items: self.items })
        } else {
            Err(FixedLengthMismatch { expected: N, actual: self.items.len() })
        }
    }
}

} // verus!
