use vstd::prelude::*;

verus! {

/// Stack allocated digest of `N` bytes.
///
/// The length is part of the type: digests of different lengths are
/// distinct types and cannot be compared or substituted for one another.
#[derive(Clone, Copy, Debug)]
pub struct Digest<const N: usize> {
    bytes: [u8; N],
}

impl<const N: usize> View for Digest<N> {
    type V = Seq<u8>;

    closed spec fn view(&self) -> Seq<u8> {
        self.bytes@
    }
}

impl<const N: usize> Digest<N> {
    /// Creates a new digest from an array.
    pub fn new(digest: [u8; N]) -> (r: Self)
        ensures
            r@ == digest@,
            r@.len() == N,
    {
        Digest { bytes: digest }
    }

    /// Every digest of this type holds exactly `N` bytes.
    pub proof fn lemma_len(&self)
        ensures
            self@.len() == N,
    {
    }

    /// Two digests of the same length are equal exactly when their bytes
    /// are.
    pub proof fn lemma_eq_iff_bytes(a: Self, b: Self)
        ensures
            a == b <==> a@ == b@,
    {
        if a@ == b@ {
            assert(forall|i: int| 0 <= i < N ==> a.bytes@[i] == b.bytes@[i]);
            assert(a.bytes =~= b.bytes);
        }
    }

    /// A read-only view of the digest's bytes.
    pub fn as_bytes(&self) -> (r: &[u8])
        ensures
            r@ == self@,
            r@.len() == N,
    {
        self.bytes.as_slice()
    }
}

impl<const N: usize> PartialEq for Digest<N> {
    fn eq(&self, other: &Digest<N>) -> (r: bool) {
        let a = self.as_bytes();
        let b = other.as_bytes();
        let mut i: usize = 0;
        while i < N
            invariant
                a@ == self@,
                b@ == other@,
                a@.len() == N,
                b@.len() == N,
                0 <= i <= N,
                forall|j: int| 0 <= j < i ==> a@[j] == b@[j],
            decreases N - i,
        {
            if a[i] != b[i] {
                return false;
            }
            i = i + 1;
        }
        proof {
            assert(self@ =~= other@);
        }
        true
    }
}

impl<const N: usize> vstd::std_specs::cmp::PartialEqSpecImpl for Digest<N> {
    open spec fn obeys_eq_spec() -> bool {
        true
    }

    open spec fn eq_spec(&self, other: &Digest<N>) -> bool {
        self@ == other@
    }
}

impl<const N: usize> Eq for Digest<N> {

}

impl<const N: usize> AsRef<[u8]> for Digest<N> {
    fn as_ref(&self) -> (r: &[u8])
        ensures
            r@ == self@,
            r@.len() == N,
    {
        self.as_bytes()
    }
}

} // verus!
