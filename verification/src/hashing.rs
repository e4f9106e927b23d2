//! Identity hashing: the one-way digest that locks a request to its
//! receiver.
//!
//! A receiver is identified only by the keccak-256 digest of their raw
//! 32-byte public identity. The digest itself is computed by an outside
//! crate; this module names its result and proves what the escrow needs of
//! it: that it is a function of the hashed bytes alone.

use vstd::prelude::*;

verus! {

/// The keccak-256 digest of a byte sequence, as the outside hasher computes
/// it. Stating the algorithm itself is out of scope; the escrow relies only
/// on the digest being a function of the input bytes.
pub uninterp spec fn keccak_of(bytes: Seq<u8>) -> Seq<u8>;

/// Relies on solana_keccak_hasher::hash (keccak-256): the digest is 32 bytes
/// and depends on the input bytes alone.
#[verifier::external_body]
fn keccak32(bytes: &[u8; 32]) -> (r: [u8; 32])
    ensures
        r@ == keccak_of(bytes@),
{
    solana_keccak_hasher::hash(bytes.as_slice()).to_bytes()
}

/// Hash a raw 32-byte public identity into the digest that a request stores
/// as its `receiver_hash` and that sweep compares against.
pub fn hash_identity(identity: &[u8; 32]) -> (r: [u8; 32])
    ensures
        r@ == keccak_of(identity@),
{
    keccak32(identity)
}

/// Byte-exact comparison of two 32-byte words, as the sweep hash check
/// requires.
pub fn bytes32_eq(a: &[u8; 32], b: &[u8; 32]) -> (r: bool)
    ensures
        r == (a@ == b@),
{
    let mut i: usize = 0;
    while i < 32
        invariant
            i <= 32,
            forall|k: int| 0 <= k < i ==> a@[k] == b@[k],
        decreases 32 - i,
    {
        if a[i] != b[i] {
            assert(a@[i as int] != b@[i as int]);
            assert(a@ != b@);
            return false;
        }
        i += 1;
    }
    assert(a@ =~= b@);
    true
}

/// Identity hashing is deterministic: hashing the same raw identity twice
/// yields the same receiver hash.
pub proof fn lemma_hash_deterministic(a: Seq<u8>, b: Seq<u8>)
    requires
        a == b,
    ensures
        keccak_of(a) == keccak_of(b),
{
}

} // verus!
