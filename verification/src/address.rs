//! The address deriver: the deterministic, keyless custody address of a
//! request.
//!
//! Given the fixed namespace tag and a request identifier, the deriver
//! computes an address that no externally controlled signing key can
//! produce, yet that anyone can recompute from public inputs. Authority
//! over the address is asserted only by re-deriving it and comparing.

use vstd::prelude::*;
use vstd::bytes::spec_u64_to_le_bytes;
use vstd::bytes::u64_to_le_bytes;
use crate::hashing::bytes32_eq;

verus! {

/// The namespace tag of the custody address derivation: the ASCII bytes of
/// the word "request".
pub open spec fn request_namespace() -> Seq<u8> {
    seq![114u8, 101u8, 113u8, 117u8, 101u8, 115u8, 116u8]
}

/// The address the outside deriver computes for a program and a two-part
/// seed, or `None` in the statistically improbable event that no valid
/// address exists for those seeds. A function of its inputs alone: the
/// derivation walks bump seeds deterministically over a hash of the seeds
/// and the program id.
pub uninterp spec fn derived_address(
    program_id: Seq<u8>,
    seed_tag: Seq<u8>,
    seed_id: Seq<u8>,
) -> Option<Seq<u8>>;

/// The custody address of a request: derived under the given program from
/// the namespace tag and the little-endian bytes of the request identifier.
/// Distinct request identifiers give distinct derivation inputs by
/// construction.
pub open spec fn spec_request_address(program_id: Seq<u8>, request_id: u64) -> Option<Seq<u8>> {
    derived_address(program_id, request_namespace(), spec_u64_to_le_bytes(request_id))
}

/// Relies on solana_pubkey::Pubkey::try_find_program_address: off chain it
/// computes the derived address from the seeds and the program id alone,
/// returning `None` only when no bump seed yields a valid address.
#[verifier::external_body]
fn find_program_address2(
    program_id: &[u8; 32],
    seed_tag: &Vec<u8>,
    seed_id: &Vec<u8>,
) -> (r: Option<[u8; 32]>)
    ensures
        r is Some ==> derived_address(program_id@, seed_tag@, seed_id@) == Some(r.unwrap()@),
        r is None ==> derived_address(program_id@, seed_tag@, seed_id@) is None,
{
    let pid = solana_pubkey::Pubkey::new_from_array(*program_id);
    let seeds: [&[u8]; 2] = [seed_tag.as_slice(), seed_id.as_slice()];
    match solana_pubkey::Pubkey::try_find_program_address(&seeds, &pid) {
        Some((address, _bump)) => Some(address.to_bytes()),
        None => None,
    }
}

/// The namespace tag as bytes, for handing to the deriver.
pub fn request_namespace_bytes() -> (r: Vec<u8>)
    ensures
        r@ == request_namespace(),
{
    let mut v: Vec<u8> = Vec::new();
    v.push(114u8);
    v.push(101u8);
    v.push(113u8);
    v.push(117u8);
    v.push(101u8);
    v.push(115u8);
    v.push(116u8);
    proof {
        assert(v@ =~= request_namespace());
    }
    v
}

/// Derive the custody address of a request under the given program.
/// Reproducible by anyone from these public inputs.
pub fn derive_request_address(program_id: &[u8; 32], request_id: u64) -> (r: Option<[u8; 32]>)
    ensures
        r is Some ==> spec_request_address(program_id@, request_id) == Some(r.unwrap()@),
        r is None ==> spec_request_address(program_id@, request_id) is None,
{
    let tag = request_namespace_bytes();
    let id_bytes = u64_to_le_bytes(request_id);
    find_program_address2(program_id, &tag, &id_bytes)
}

/// The derived-authority check: acting as a request's custody address is
/// authorized exactly when re-deriving the address from the public inputs
/// reproduces the claimed address.
pub fn verify_derived_authority(
    program_id: &[u8; 32],
    request_id: u64,
    claimed: &[u8; 32],
) -> (r: bool)
    ensures
        r == (spec_request_address(program_id@, request_id) == Some(claimed@)),
{
    match derive_request_address(program_id, request_id) {
        Some(address) => bytes32_eq(&address, claimed),
        None => false,
    }
}

} // verus!
