//! Fixed-size cryptographic digests and the hash function over byte strings.

use vstd::prelude::*;

verus! {

/// The digest a canonical node encoding hashes to. The function itself is
/// supplied by an outside implementation; nothing here depends on more than
/// it being a fixed function of the input bytes.
pub uninterp spec fn digest_of(data: Seq<u8>) -> Seq<u8>;

/// Number of bytes in a digest.
pub const DIGEST_LENGTH: usize = 32;

/// An opaque fixed-size digest, used both for the caller-supplied trusted
/// root hash and for every child pointer inside a trie node.
#[derive(Debug)]
pub struct Digest {
    pub bytes: Vec<u8>,
}

impl View for Digest {
    type V = Seq<u8>;

    open spec fn view(&self) -> Seq<u8> {
        self.bytes@
    }
}

/// Relies on `blake2::Blake2b` (256-bit output) through the `digest` traits:
/// the result is a function of the input bytes alone and is 32 bytes long.
#[verifier::external_body]
fn blake2b256(data: &[u8]) -> (r: Vec<u8>)
    ensures
        r@ == digest_of(data@),
        r@.len() == DIGEST_LENGTH,
{
    let mut hasher = <blake2::Blake2b<blake2::digest::consts::U32> as blake2::Digest>::new();
    <blake2::Blake2b<blake2::digest::consts::U32> as blake2::Digest>::update(&mut hasher, data);
    let out = <blake2::Blake2b<blake2::digest::consts::U32> as blake2::Digest>::finalize(hasher);
    out.to_vec()
}

/// Hashes a byte string into a [`Digest`].
pub fn hash_bytes(data: &[u8]) -> (r: Digest)
    ensures
        r@ == digest_of(data@),
        r@.len() == DIGEST_LENGTH,
{
    Digest { bytes: blake2b256(data) }
}

/// Byte-for-byte equality of two byte strings.
pub fn bytes_eq(a: &[u8], b: &[u8]) -> (r: bool)
    ensures
        r == (a@ == b@),
{
    if a.len() != b.len() {
        assert(a@.len() != b@.len());
        return false;
    }
    let n: usize = a.len();
    for i in 0..n
        invariant
            n == a@.len(),
            n == b@.len(),
            forall|j: int| 0 <= j < i ==> a@[j] == b@[j],
    {
        if a[i] != b[i] {
            return false;
        }
    }
    assert(a@ =~= b@);
    true
}

/// Equality of a digest with a raw byte string.
pub fn digest_matches(d: &Digest, raw: &[u8]) -> (r: bool)
    ensures
        r == (d@ == raw@),
{
    bytes_eq(d.bytes.as_slice(), raw)
}

} // verus!
