//! A hash-locked escrow library.
//!
//! A payer deposits funds against a numeric request identifier; the funds are
//! custodied by a program-controlled account at a deterministically derived
//! address; a receiver, identified only by the keccak hash of their public
//! identity, later claims the full custody balance by proving control of the
//! matching identity.
//!
//! The escrow lifecycle (absent, initialized, closed) is driven by three
//! operations: [`escrow::initialize`], [`escrow::settle`] and
//! [`escrow::sweep`], each specified and verified over an explicit state
//! model.

pub mod address;
pub mod errors;
pub mod escrow;
pub mod hashing;
pub mod laws;
pub mod record;
