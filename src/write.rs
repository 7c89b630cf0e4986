use vstd::prelude::*;

use crate::hasher::Hasher;

verus! {

/// `std::io::Error`, carried through the byte-sink interface as an opaque
/// value; the adapter never produces one.
#[verifier::external_type_specification]
#[verifier::external_body]
pub struct ExIoError(std::io::Error);

/// New type wrapper for a hasher that implements the `std::io::Write` trait:
/// every buffer written is fed to the wrapped hasher's `update`.
pub struct WriteHasher<const N: usize, H: Hasher<N>> {
    hasher: H,
}

impl<const N: usize, H: Hasher<N>> WriteHasher<N, H> {
    /// The wrapped hasher.
    pub closed spec fn inner(&self) -> H {
        self.hasher
    }

    /// Wraps `hasher`.
    pub fn new(hasher: H) -> (r: Self)
        ensures
            r.inner() == hasher,
    {
        WriteHasher { hasher }
    }

    /// The wrapped hasher, by reference.
    pub fn get_ref(&self) -> (r: &H)
        ensures
            *r == self.inner(),
    {
        &self.hasher
    }

    /// Unwraps the hasher.
    pub fn into_inner(self) -> (r: H)
        ensures
            r == self.inner(),
    {
        self.hasher
    }

    /// Feeds the whole buffer to the hasher and reports it all accepted.
    pub fn write(&mut self, buf: &[u8]) -> (r: Result<usize, std::io::Error>)
        ensures
            r == Ok::<usize, std::io::Error>(buf@.len() as usize),
            final(self).inner().input() == old(self).inner().input() + buf@,
    {
        self.hasher.update(buf);
        Ok(buf.len())
    }

    /// Nothing is buffered: always succeeds and changes nothing.
    pub fn flush(&mut self) -> (r: Result<(), std::io::Error>)
        ensures
            r is Ok,
            *final(self) == *old(self),
    {
        Ok(())
    }
}

impl<const N: usize, H: Hasher<N>> std::io::Write for WriteHasher<N, H> {
    fn write(&mut self, buf: &[u8]) -> (r: std::io::Result<usize>)
        ensures
            r == Ok::<usize, std::io::Error>(buf@.len() as usize),
            final(self).inner().input() == old(self).inner().input() + buf@,
    {
        WriteHasher::write(self, buf)
    }

    fn flush(&mut self) -> (r: std::io::Result<()>)
        ensures
            r is Ok,
            *final(self) == *old(self),
    {
        WriteHasher::flush(self)
    }
}

} // verus!
