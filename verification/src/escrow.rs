//! The escrow state machine: initialize, settle and sweep, specified over
//! an explicit model of one request's lifecycle.
//!
//! On the host ledger the lifecycle is implicit in which accounts exist;
//! here it is an explicit tagged state. Each operation is a total function
//! of the state and the accounts it touches: it either commits its full
//! effect or fails with a machine-checkable error and changes nothing.

use vstd::prelude::*;
use crate::errors::PayRequestError;
use crate::record::PayRequest;
use crate::hashing::keccak_of;
use crate::hashing::hash_identity;
use crate::hashing::bytes32_eq;

verus! {

/// The lifecycle of one escrow request.
#[derive(Clone, Copy, Debug, PartialEq, Eq)]
pub enum RequestState {
    /// No record exists at the request's derived address.
    Absent,
    /// The record exists. `custody` is the balance currently escrowed for
    /// the request: in the token variant the balance of the per-request
    /// vault sub-account, in the native variant the value held by the
    /// record account itself.
    Initialized { record: PayRequest, custody: u64 },
    /// A successful sweep destroyed the record. In the token variant the
    /// vault sub-account is deliberately left open with balance `vault`
    /// (zero right after the sweep) so that harvestable transfer fees can
    /// still be collected; in the native variant (`None`) custody and
    /// record shared one account and nothing survives.
    Closed { vault: Option<u64> },
}

impl RequestState {
    /// A live record always carries a completed creation.
    pub open spec fn wf(self) -> bool {
        match self {
            RequestState::Initialized { record, custody } => record.wf(),
            _ => true,
        }
    }
}

/// The accounts an initialize call touches: the record slot at the derived
/// address, and the token type the request is denominated in (`None` for
/// the native variant).
#[derive(Clone, Copy, Debug, PartialEq, Eq)]
pub struct Initialize {
    /// The record slot at the address derived from the request identifier.
    pub pay_request: RequestState,
    /// The token type of the request; stored verbatim into the record.
    pub mint: Option<[u8; 32]>,
}

/// The accounts a settle call touches.
#[derive(Clone, Copy, Debug, PartialEq, Eq)]
pub struct Settle {
    /// The record slot at the address derived from the request identifier.
    pub pay_request: RequestState,
    /// The payer's balance in the request's denomination.
    pub payer_token_account: u64,
}

/// The accounts a sweep call touches.
#[derive(Clone, Copy, Debug, PartialEq, Eq)]
pub struct Sweep {
    /// The record slot at the address derived from the request identifier.
    pub pay_request: RequestState,
    /// The raw 32-byte public identity of the signer claiming to be the
    /// receiver.
    pub receiver: [u8; 32],
    /// That signer's balance in the request's denomination.
    pub receiver_token_account: u64,
}

/// What initialize does: creates the record exactly once, storing the
/// arguments verbatim; fails with a creation collision if a record already
/// exists, leaving it unchanged.
pub open spec fn spec_initialize(
    s: RequestState,
    request_id: u64,
    amount: u64,
    receiver_hash: [u8; 32],
    mint: Option<[u8; 32]>,
) -> (RequestState, Result<(), PayRequestError>) {
    match s {
        RequestState::Initialized { .. } => (s, Err(PayRequestError::CreationCollision)),
        _ => (
            RequestState::Initialized {
                record: PayRequest {
                    receiver_hash,
                    amount,
                    request_id,
                    mint,
                    is_initialized: true,
                },
                custody: 0,
            },
            Ok(()),
        ),
    }
}

/// What settle does: moves exactly the record's stored amount from the
/// payer into custody, or fails atomically.
pub open spec fn spec_settle(
    s: RequestState,
    payer_balance: u64,
) -> (RequestState, u64, Result<(), PayRequestError>) {
    match s {
        RequestState::Initialized { record, custody } => if !record.is_initialized {
            (s, payer_balance, Err(PayRequestError::NotFound))
        } else if payer_balance < record.amount {
            (s, payer_balance, Err(PayRequestError::InsufficientFunds))
        } else {
            (
                RequestState::Initialized {
                    record,
                    custody: (custody + record.amount) as u64,
                },
                (payer_balance - record.amount) as u64,
                Ok(()),
            )
        },
        _ => (s, payer_balance, Err(PayRequestError::NotFound)),
    }
}

/// What sweep does for a caller whose identity hash is `caller_hash`: the
/// hash gate, then full payout of the custody balance and destruction of
/// the record.
pub open spec fn spec_sweep(
    s: RequestState,
    caller_hash: Seq<u8>,
    receiver_balance: u64,
) -> (RequestState, u64, Result<u64, PayRequestError>) {
    match s {
        RequestState::Initialized { record, custody } => if !record.is_initialized {
            (s, receiver_balance, Err(PayRequestError::NotFound))
        } else if caller_hash != record.receiver_hash@ {
            (s, receiver_balance, Err(PayRequestError::InvalidReceiver))
        } else {
            (
                RequestState::Closed {
                    vault: if record.mint is Some {
                        Some(0u64)
                    } else {
                        None
                    },
                },
                (receiver_balance + custody) as u64,
                Ok(custody),
            )
        },
        _ => (s, receiver_balance, Err(PayRequestError::NotFound)),
    }
}

/// A settle can only deposit into a custody balance that stays within the
/// 64-bit value space of the ledger.
pub open spec fn settle_fits(s: RequestState) -> bool {
    match s {
        RequestState::Initialized { record, custody } => custody + record.amount <= u64::MAX,
        _ => true,
    }
}

/// A sweep can only pay out into a receiver balance that stays within the
/// 64-bit value space of the ledger.
pub open spec fn sweep_fits(s: RequestState, receiver_balance: u64) -> bool {
    match s {
        RequestState::Initialized { record, custody } => receiver_balance + custody <= u64::MAX,
        _ => true,
    }
}

/// Create the record for a request: store the identifier, amount and
/// receiver hash verbatim, with no value moved yet. Fails with
/// `CreationCollision`, changing nothing, exactly when a record already
/// exists at the derived address.
pub fn initialize(
    ctx: &mut Initialize,
    request_id: u64,
    amount: u64,
    receiver_hash: [u8; 32],
) -> (r: Result<(), PayRequestError>)
    ensures
        final(ctx).mint == old(ctx).mint,
        ({
            let (s, res) = spec_initialize(
                old(ctx).pay_request,
                request_id,
                amount,
                receiver_hash,
                old(ctx).mint,
            );
            final(ctx).pay_request == s && r == res
        }),
{
    match ctx.pay_request {
        RequestState::Initialized { .. } => Err(PayRequestError::CreationCollision),
        _ => {
            ctx.pay_request = RequestState::Initialized {
                record: PayRequest {
                    receiver_hash,
                    amount,
                    request_id,
                    mint: ctx.mint,
                    is_initialized: true,
                },
                custody: 0,
            };
            Ok(())
        },
    }
}

/// Move exactly the record's stored amount from the payer into custody.
/// The amount is never read from caller input. Fails with
/// `InsufficientFunds`, changing nothing, exactly when the payer's balance
/// cannot cover it; fails with `NotFound` exactly when no live record
/// exists. Nothing prevents settling more than once: deposits accumulate.
pub fn settle(ctx: &mut Settle) -> (r: Result<(), PayRequestError>)
    requires
        settle_fits(old(ctx).pay_request),
    ensures
        ({
            let (s, p, res) = spec_settle(old(ctx).pay_request, old(ctx).payer_token_account);
            final(ctx).pay_request == s && final(ctx).payer_token_account == p && r == res
        }),
{
    match ctx.pay_request {
        RequestState::Initialized { record, custody } => {
            if !record.is_initialized {
                Err(PayRequestError::NotFound)
            } else if ctx.payer_token_account < record.amount {
                Err(PayRequestError::InsufficientFunds)
            } else {
                ctx.payer_token_account = ctx.payer_token_account - record.amount;
                ctx.pay_request = RequestState::Initialized {
                    record,
                    custody: custody + record.amount,
                };
                Ok(())
            }
        },
        _ => Err(PayRequestError::NotFound),
    }
}

/// Sweep, given the already computed hash of the caller's identity: if the
/// hash equals the stored receiver hash, pay the full custody balance (not
/// the stored amount) to the receiver and destroy the record; otherwise
/// fail with `InvalidReceiver` and change nothing. Fails with `NotFound`
/// exactly when no live record exists.
pub fn sweep_with_hash(ctx: &mut Sweep, caller_hash: &[u8; 32]) -> (r: Result<
    u64,
    PayRequestError,
>)
    requires
        sweep_fits(old(ctx).pay_request, old(ctx).receiver_token_account),
    ensures
        final(ctx).receiver == old(ctx).receiver,
        ({
            let (s, b, res) = spec_sweep(
                old(ctx).pay_request,
                caller_hash@,
                old(ctx).receiver_token_account,
            );
            final(ctx).pay_request == s && final(ctx).receiver_token_account == b && r == res
        }),
{
    match ctx.pay_request {
        RequestState::Initialized { record, custody } => {
            if !record.is_initialized {
                Err(PayRequestError::NotFound)
            } else if !bytes32_eq(caller_hash, &record.receiver_hash) {
                Err(PayRequestError::InvalidReceiver)
            } else {
                ctx.receiver_token_account = ctx.receiver_token_account + custody;
                ctx.pay_request = RequestState::Closed {
                    vault: match record.mint {
                        Some(_) => Some(0u64),
                        None => None,
                    },
                };
                Ok(custody)
            }
        },
        _ => Err(PayRequestError::NotFound),
    }
}

/// Sweep by a caller presenting their raw public identity: hash the
/// identity, then run the hash-gated payout. The raw identity is compared
/// only through its digest, byte-exactly, against the stored receiver
/// hash.
pub fn sweep(ctx: &mut Sweep) -> (r: Result<u64, PayRequestError>)
    requires
        sweep_fits(old(ctx).pay_request, old(ctx).receiver_token_account),
    ensures
        final(ctx).receiver == old(ctx).receiver,
        ({
            let (s, b, res) = spec_sweep(
                old(ctx).pay_request,
                keccak_of(old(ctx).receiver@),
                old(ctx).receiver_token_account,
            );
            final(ctx).pay_request == s && final(ctx).receiver_token_account == b && r == res
        }),
{
    let caller_hash = hash_identity(&ctx.receiver);
    sweep_with_hash(ctx, &caller_hash)
}

} // verus!
