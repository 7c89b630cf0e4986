//! Algorithm-agnostic hashing interface: a fixed-length digest value, the
//! capability contract that hash algorithms implement, and an adapter that
//! drives a hasher through a byte sink.
use vstd::prelude::*;

pub mod digest;
pub mod hasher;
pub mod sum;
pub mod write;

pub use crate::digest::Digest;
pub use crate::hasher::Hasher;
pub use crate::sum::SumHasher;
pub use crate::write::WriteHasher;

verus! {

} // verus!
