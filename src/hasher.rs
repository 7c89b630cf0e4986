use vstd::prelude::*;

use crate::digest::Digest;

verus! {

/// Trait implemented by a hash function implementation producing `N`-byte
/// digests.
///
/// The state of a hasher is modelled by `input`, the bytes fed through
/// `update` since construction or the last `reset`; the digest is
/// `hash_of(input)`, a pure function of those bytes alone, so how the input
/// was split into `update` calls does not matter.
pub trait Hasher<const N: usize>: Sized {
    /// The bytes consumed since construction or the last reset.
    spec fn input(&self) -> Seq<u8>;

    /// The digest that the algorithm assigns to a byte sequence.
    spec fn hash_of(data: Seq<u8>) -> Seq<u8>;

    /// Creates a hasher in its initial state.
    fn new() -> (r: Self)
        ensures
            r.input() == Seq::<u8>::empty(),
    ;

    /// Consume input and update internal state.
    fn update(&mut self, input: &[u8])
        ensures
            final(self).input() == old(self).input() + input@,
    ;

    /// Returns the internal state digest, leaving the state as it was.
    fn finalize(&self) -> (r: Digest<N>)
        ensures
            r@ == Self::hash_of(self.input()),
    ;

    /// Reset the internal hasher state.
    fn reset(&mut self)
        ensures
            final(self).input() == Seq::<u8>::empty(),
    ;

    /// Returns the digest of the input.
    fn digest(input: &[u8]) -> (r: Digest<N>)
        ensures
            r@ == Self::hash_of(input@),
    {
        let mut hasher = Self::new();
        hasher.update(input);
        proof {
            assert(hasher.input() =~= input@);
        }
        hasher.finalize()
    }
}

/// The concatenation of a list of chunks, in order.
pub open spec fn concat(chunks: Seq<Seq<u8>>) -> Seq<u8>
    decreases chunks.len(),
{
    if chunks.len() == 0 {
        Seq::empty()
    } else {
        concat(chunks.drop_last()) + chunks.last()
    }
}

/// A run of hasher states in which `states[i + 1]` is `states[i]` after
/// `update(chunks[i])`.
pub open spec fn fed_in_chunks<const N: usize, H: Hasher<N>>(
    states: Seq<H>,
    chunks: Seq<Seq<u8>>,
) -> bool {
    &&& states.len() == chunks.len() + 1
    &&& forall|i: int|
        0 <= i < chunks.len() ==> states[i + 1].input() == states[i].input()
            + #[trigger] chunks[i]
}

proof fn lemma_fed_prefix<const N: usize, H: Hasher<N>>(
    states: Seq<H>,
    chunks: Seq<Seq<u8>>,
    k: int,
)
    requires
        fed_in_chunks(states, chunks),
        0 <= k <= chunks.len(),
    ensures
        states[k].input() == states[0].input() + concat(chunks.take(k)),
    decreases k,
{
    if k == 0 {
        assert(chunks.take(0) =~= Seq::<Seq<u8>>::empty());
        assert(states[0].input() + Seq::<u8>::empty() =~= states[0].input());
    } else {
        lemma_fed_prefix(states, chunks, k - 1);
        assert(chunks.take(k).drop_last() =~= chunks.take(k - 1));
        assert(states[k].input() == states[k - 1].input() + chunks[k - 1]);
        assert(states[k].input() =~= states[0].input() + concat(chunks.take(k)));
    }
}

/// Chunking invariance: feeding the chunks of a byte sequence through
/// successive `update` calls leaves the same input, hence the same digest,
/// as one `update` with their concatenation from the same starting state.
pub proof fn lemma_chunking_invariance<const N: usize, H: Hasher<N>>(
    chunks: Seq<Seq<u8>>,
    states: Seq<H>,
    whole: H,
)
    requires
        fed_in_chunks(states, chunks),
        whole.input() == states[0].input() + concat(chunks),
    ensures
        states.last().input() == whole.input(),
        H::hash_of(states.last().input()) == H::hash_of(whole.input()),
{
    lemma_fed_prefix(states, chunks, chunks.len() as int);
    assert(chunks.take(chunks.len() as int) =~= chunks);
}

/// One-shot equivalence: a fresh hasher updated once with `b` finalizes to
/// `hash_of(b)`, the digest that `digest(b)` returns.
pub proof fn lemma_one_shot<const N: usize, H: Hasher<N>>(b: Seq<u8>, fresh: H, updated: H)
    requires
        fresh.input() == Seq::<u8>::empty(),
        updated.input() == fresh.input() + b,
    ensures
        H::hash_of(updated.input()) == H::hash_of(b),
{
    assert(updated.input() =~= b);
}

/// Reset forgets every earlier update: a hasher reset from any state, with
/// any input `earlier` fed before, and then updated with `b` finalizes to
/// `hash_of(b)`, the digest of `b` on a fresh instance.
pub proof fn lemma_reset<const N: usize, H: Hasher<N>>(
    earlier: Seq<u8>,
    b: Seq<u8>,
    before: H,
    after_reset: H,
    updated: H,
)
    requires
        before.input() == earlier,
        after_reset.input() == Seq::<u8>::empty(),
        updated.input() == after_reset.input() + b,
    ensures
        H::hash_of(updated.input()) == H::hash_of(b),
        earlier.len() > 0 ==> updated.input() != earlier + b,
{
    assert(updated.input() =~= b);
    if earlier.len() > 0 {
        assert((earlier + b).len() > b.len());
    }
}

/// Determinism: two digests computed over the same bytes, by any hashers of
/// one algorithm, are equal.
pub proof fn lemma_deterministic<const N: usize, H: Hasher<N>>(
    b: Seq<u8>,
    d1: Digest<N>,
    d2: Digest<N>,
)
    requires
        d1@ == H::hash_of(b),
        d2@ == H::hash_of(b),
    ensures
        d1 == d2,
{
    Digest::lemma_eq_iff_bytes(d1, d2);
}

/// Finalizing does not change the state: two `finalize` calls on a hasher
/// with no update between them return equal digests.
pub proof fn lemma_finalize_repeatable<const N: usize, H: Hasher<N>>(
    h: H,
    d1: Digest<N>,
    d2: Digest<N>,
)
    requires
        d1@ == H::hash_of(h.input()),
        d2@ == H::hash_of(h.input()),
    ensures
        d1 == d2,
{
    Digest::lemma_eq_iff_bytes(d1, d2);
}

} // verus!
