use pay_request::address::{derive_request_address, verify_derived_authority};
use pay_request::hashing::{bytes32_eq, hash_identity};

#[test]
fn identity_hashing_is_deterministic() {
    let identity = [1u8; 32];
    assert_eq!(hash_identity(&identity), hash_identity(&identity));
}

#[test]
fn identity_hashing_separates_identities() {
    let a = [1u8; 32];
    let b = [2u8; 32];
    assert_ne!(hash_identity(&a), hash_identity(&b));
}

#[test]
fn identity_hashing_is_keccak256() {
    let identity = [1u8; 32];
    let digest = hash_identity(&identity);
    // The digest is the keccak-256 of the identity, not the identity
    // echoed back.
    assert_eq!(digest, solana_keccak_hasher::hash(&identity).to_bytes());
    assert_ne!(digest, identity);
}

#[test]
fn byte_comparison_is_exact() {
    let a = [3u8; 32];
    let mut b = [3u8; 32];
    assert!(bytes32_eq(&a, &b));
    b[31] = 4;
    assert!(!bytes32_eq(&a, &b));
}

#[test]
fn derived_address_matches_the_outside_deriver() {
    let program_id = [3u8; 32];
    let derived = derive_request_address(&program_id, 42);
    let pid = solana_pubkey::Pubkey::new_from_array(program_id);
    let expected = solana_pubkey::Pubkey::try_find_program_address(
        &[b"request", &42u64.to_le_bytes()],
        &pid,
    )
    .map(|(address, _bump)| address.to_bytes());
    assert!(derived.is_some());
    assert_eq!(derived, expected);
}

#[test]
fn derived_address_is_reproducible() {
    let program_id = [3u8; 32];
    assert_eq!(
        derive_request_address(&program_id, 7),
        derive_request_address(&program_id, 7)
    );
}

#[test]
fn distinct_requests_get_distinct_addresses() {
    let program_id = [3u8; 32];
    let a = derive_request_address(&program_id, 1).unwrap();
    let b = derive_request_address(&program_id, 2).unwrap();
    assert_ne!(a, b);
}

#[test]
fn derived_authority_accepts_only_the_derived_address() {
    let program_id = [3u8; 32];
    let address = derive_request_address(&program_id, 42).unwrap();
    assert!(verify_derived_authority(&program_id, 42, &address));
    let mut forged = address;
    forged[0] = forged[0].wrapping_add(1);
    assert!(!verify_derived_authority(&program_id, 42, &forged));
    // An address derived for one request does not authorize another.
    assert!(!verify_derived_authority(&program_id, 43, &address));
}
