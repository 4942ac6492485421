//! The content hash: SHA3-256.

use tiny_keccak::{Hasher, Sha3};
use vstd::prelude::*;

verus! {

/// The SHA3-256 digest of `data`, as the `tiny_keccak` crate computes it.
///
/// The digest is not spelled out here. All that is known of it is that equal
/// data have equal digests; that unequal data have unequal digests is what
/// one hopes of a hash, and is not assumed.
pub uninterp spec fn sha3_256(data: Seq<u8>) -> Seq<u8>;

/// Computes a SHA3-256 digest with `tiny_keccak`: a hasher made by
/// `Sha3::v256`, fed `data` in one `update`, and finished into 32 bytes by
/// `finalize`.
///
/// Assumed: the bytes that come back are a function of `data` alone, the one
/// named [`sha3_256`].
#[verifier::external_body]
fn sha3_256_digest(data: &[u8]) -> (digest: [u8; 32])
    ensures
        digest@ == sha3_256(data@),
{
    let mut sha3 = Sha3::v256();
    let mut output = [0u8; 32];
    sha3.update(data);
    sha3.finalize(&mut output);
    output
}

/// A digest of 32 bytes.
#[derive(Clone, Copy, Debug, Hash)]
pub struct Hash {
    bytes: [u8; 32],
}

impl View for Hash {
    type V = Seq<u8>;

    closed spec fn view(&self) -> Seq<u8> {
        self.bytes@
    }
}

impl Hash {
    /// The number of bytes of a digest.
    pub const SIZE: usize = 32;

    /// The digest of `input`.
    pub fn hash(input: &[u8]) -> (digest: Hash)
        ensures
            digest@ == sha3_256(input@),
    {
        Hash { bytes: sha3_256_digest(input) }
    }

    /// The digest whose bytes are `bytes`, whatever they were computed from.
    pub fn from_bytes(bytes: [u8; 32]) -> (digest: Hash)
        ensures
            digest@ == bytes@,
    {
        Hash { bytes }
    }

    /// The bytes of the digest.
    pub fn as_bytes(&self) -> (bytes: &[u8; 32])
        ensures
            bytes@ == self@,
    {
        &self.bytes
    }

    /// A digest has [`SIZE`](Self::SIZE) bytes.
    pub proof fn has_fixed_size(&self)
        ensures
            self@.len() == 32,
    {
    }
}

impl PartialEq for Hash {
    /// Two digests are equal when all their bytes are.
    fn eq(&self, other: &Hash) -> (equal: bool) {
        let mut i: usize = 0;
        while i < 32
            invariant
                i <= 32,
                forall|j: int| 0 <= j < i ==> self.bytes@[j] == other.bytes@[j],
            decreases 32 - i,
        {
            if self.bytes[i] != other.bytes[i] {
                return false;
            }
            i += 1;
        }
        assert(self.bytes@ =~= other.bytes@);
        true
    }
}

impl vstd::std_specs::cmp::PartialEqSpecImpl for Hash {
    open spec fn obeys_eq_spec() -> bool {
        true
    }

    open spec fn eq_spec(&self, other: &Hash) -> bool {
        self@ == other@
    }
}

impl Eq for Hash {

}

} // verus!
