//! The persisted record describing one escrow request.

use vstd::prelude::*;

verus! {

/// The stored record of one escrow request.
///
/// Created exactly once by initialize; `receiver_hash`, `amount`,
/// `request_id` and `mint` are immutable from then on; destroyed by a
/// successful sweep.
#[derive(Clone, Copy, Debug, PartialEq, Eq)]
pub struct PayRequest {
    /// Keccak-256 digest of the receiver's raw 32-byte public identity.
    /// The raw identity is never stored, only this hash.
    pub receiver_hash: [u8; 32],
    /// The amount one settle call moves from the payer into custody.
    /// Fixed at creation, never read from later caller input.
    pub amount: u64,
    /// The request identifier; the sole variable input of the custody
    /// address derivation.
    pub request_id: u64,
    /// The token type this request is denominated in: `Some` identifies a
    /// fungible-token type (the token variant, custodied in a vault
    /// sub-account), `None` means native currency (custodied in the record
    /// account itself).
    pub mint: Option<[u8; 32]>,
    /// Set once creation completes; guards against reading a zeroed or
    /// garbage record as if it were live.
    pub is_initialized: bool,
}

impl PayRequest {
    /// A record is well formed once its creation completed.
    pub open spec fn wf(self) -> bool {
        self.is_initialized
    }
}

} // verus!
