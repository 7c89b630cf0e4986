use vstd::prelude::*;

use crate::digest::Digest;
use crate::hasher::Hasher;

verus! {

/// Sum of a byte sequence, as a natural number.
pub open spec fn byte_sum(data: Seq<u8>) -> nat
    decreases data.len(),
{
    if data.len() == 0 {
        0
    } else {
        byte_sum(data.drop_last()) + data.last() as nat
    }
}

/// The one-byte digest of `data`: the sum of its bytes modulo 256.
pub open spec fn sum_digest(data: Seq<u8>) -> Seq<u8> {
    seq![(byte_sum(data) % 256) as u8]
}

/// A minimal hasher: its one-byte digest is the sum of the input bytes
/// modulo 256.
pub struct SumHasher {
    sum: u8,
    fed: Ghost<Seq<u8>>,
}

impl SumHasher {
    /// The running sum matches the bytes consumed so far.
    #[verifier::type_invariant]
    closed spec fn wf(&self) -> bool {
        self.sum as nat == byte_sum(self.fed@) % 256
    }
}

impl Hasher<1> for SumHasher {
    closed spec fn input(&self) -> Seq<u8> {
        self.fed@
    }

    open spec fn hash_of(data: Seq<u8>) -> Seq<u8> {
        sum_digest(data)
    }

    fn new() -> (r: Self) {
        let r = SumHasher { sum: 0, fed: Ghost(Seq::<u8>::empty()) };
        assert(r.input() == Seq::<u8>::empty());
        r
    }

    fn update(&mut self, input: &[u8]) {
        proof {
            use_type_invariant(&*self);
        }
        let ghost start = self.fed@;
        let mut sum: u8 = self.sum;
        let ghost mut fed = start;
        let mut i: usize = 0;
        while i < input.len()
            invariant
                i <= input@.len(),
                fed == start + input@.take(i as int),
                sum as nat == byte_sum(fed) % 256,
            decreases input@.len() - i,
        {
            let b = input[i];
            proof {
                let next = start + input@.take(i as int + 1);
                assert(next.drop_last() =~= fed);
                assert(next.last() == b);
                fed = next;
            }
            sum = ((sum as u16 + b as u16) % 256) as u8;
            i = i + 1;
        }
        proof {
            assert(input@.take(i as int) =~= input@);
        }
        *self = SumHasher { sum, fed: Ghost(fed) };
    }

    fn finalize(&self) -> (r: Digest<1>) {
        proof {
            use_type_invariant(self);
        }
        let bytes = [self.sum];
        assert(bytes@[0] == self.sum);
        let r = Digest::new(bytes);
        proof {
            assert(r@ =~= sum_digest(self.fed@));
        }
        r
    }

    fn reset(&mut self) {
        *self = SumHasher { sum: 0, fed: Ghost(Seq::<u8>::empty()) };
    }
}

impl Default for SumHasher {
    fn default() -> (r: Self)
        ensures
            r.input() == Seq::<u8>::empty(),
    {
        SumHasher::new()
    }
}

} // verus!
