//! The error taxonomy of the escrow.

use vstd::prelude::*;

verus! {

/// Every way an escrow operation can fail.
///
/// Each failure is total and atomic: an operation that returns one of these
/// performs no state change at all.
#[derive(Clone, Copy, Debug, PartialEq, Eq, Structural)]
pub enum PayRequestError {
    /// Initialize targeted a request identifier whose record already exists.
    CreationCollision,
    /// The sweep caller's identity hash does not equal the stored receiver
    /// hash.
    InvalidReceiver,
    /// The payer's balance cannot cover the record's amount.
    InsufficientFunds,
    /// The operation referenced a request whose record does not exist
    /// (never created, or already destroyed by a successful sweep).
    NotFound,
}

} // verus!
