//! The escrow's laws: properties that relate several operations, proved
//! once over the state model.

use vstd::prelude::*;
use crate::errors::PayRequestError;
use crate::record::PayRequest;
use crate::escrow::RequestState;
use crate::escrow::spec_initialize;
use crate::escrow::spec_settle;
use crate::escrow::spec_sweep;

verus! {

/// No double-initialize: once an initialize has succeeded, a second
/// initialize against the same request slot fails with a creation
/// collision and leaves the first record's fields unchanged, whatever
/// arguments the second call carries.
pub proof fn lemma_no_double_initialize(
    s: RequestState,
    request_id: u64,
    amount: u64,
    receiver_hash: [u8; 32],
    mint: Option<[u8; 32]>,
    request_id2: u64,
    amount2: u64,
    receiver_hash2: [u8; 32],
    mint2: Option<[u8; 32]>,
)
    requires
        spec_initialize(s, request_id, amount, receiver_hash, mint).1 is Ok,
    ensures
        ({
            let s1 = spec_initialize(s, request_id, amount, receiver_hash, mint).0;
            let (s2, r2) = spec_initialize(s1, request_id2, amount2, receiver_hash2, mint2);
            s2 == s1 && r2 == Err::<(), PayRequestError>(PayRequestError::CreationCollision)
        }),
{
}

/// One settle step from a live record, by a payer who can cover the
/// amount, succeeds and is additive on the custody balance.
pub proof fn lemma_settle_step(record: PayRequest, custody: u64, payer_balance: u64)
    requires
        record.is_initialized,
        custody + record.amount <= u64::MAX,
        record.amount <= payer_balance,
    ensures
        spec_settle(RequestState::Initialized { record, custody }, payer_balance) == (
            (
                RequestState::Initialized {
                    record,
                    custody: (custody + record.amount) as u64,
                },
                (payer_balance - record.amount) as u64,
                Ok::<(), PayRequestError>(()),
            )
        ),
{
}

/// The state and payer balance after `n` consecutive settle calls,
/// together with whether every one of them succeeded.
pub open spec fn spec_settle_n(s: RequestState, payer_balance: u64, n: nat) -> (
    RequestState,
    u64,
    bool,
)
    decreases n,
{
    if n == 0 {
        (s, payer_balance, true)
    } else {
        let (s1, p1, ok) = spec_settle_n(s, payer_balance, (n - 1) as nat);
        let (s2, p2, r) = spec_settle(s1, p1);
        (s2, p2, ok && r is Ok)
    }
}

/// Additive settle: `n` settle calls against a live record, by a payer
/// whose balance covers all of them, all succeed and leave the custody
/// balance exactly `n` times the stored amount higher — accumulation is
/// not capped at the stored amount.
pub proof fn lemma_settle_additive(record: PayRequest, custody: u64, payer_balance: u64, n: nat)
    requires
        record.is_initialized,
        custody + n * record.amount <= u64::MAX,
        n * record.amount <= payer_balance,
    ensures
        spec_settle_n(RequestState::Initialized { record, custody }, payer_balance, n) == (
            (
                RequestState::Initialized {
                    record,
                    custody: (custody + n * record.amount) as u64,
                },
                (payer_balance - n * record.amount) as u64,
                true,
            )
        ),
    decreases n,
{
    if n == 0 {
        assert(n * record.amount == 0) by (nonlinear_arith)
            requires
                n == 0,
        ;
    } else {
        let m = (n - 1) as nat;
        assert(m * record.amount >= 0 && m * record.amount + record.amount == n * record.amount)
            by (nonlinear_arith)
            requires
                m + 1 == n,
        ;
        lemma_settle_additive(record, custody, payer_balance, m);
        let s1 = RequestState::Initialized {
            record,
            custody: (custody + m * record.amount) as u64,
        };
        let p1 = (payer_balance - m * record.amount) as u64;
        assert(spec_settle_n(RequestState::Initialized { record, custody }, payer_balance, m) == (
            s1,
            p1,
            true,
        ));
        assert(p1 >= record.amount);
        assert(spec_settle(s1, p1) == (
            RequestState::Initialized { record, custody: (custody + n * record.amount) as u64 },
            (payer_balance - n * record.amount) as u64,
            Ok::<(), PayRequestError>(()),
        ));
    }
}

/// Hash-gated sweep: a sweep whose caller hash differs from the stored
/// receiver hash always fails with `InvalidReceiver` and leaves the
/// record, the custody balance and the receiver balance unchanged, whether
/// the request is funded or not.
pub proof fn lemma_hash_gated_sweep(
    record: PayRequest,
    custody: u64,
    caller_hash: Seq<u8>,
    receiver_balance: u64,
)
    requires
        record.is_initialized,
        caller_hash != record.receiver_hash@,
    ensures
        spec_sweep(RequestState::Initialized { record, custody }, caller_hash, receiver_balance)
            == (
            (
                RequestState::Initialized { record, custody },
                receiver_balance,
                Err::<u64, PayRequestError>(PayRequestError::InvalidReceiver),
            )
        ),
{
}

/// Full payout on sweep: a sweep by the matching identity pays out exactly
/// the custody balance at that moment, whatever it is, and leaves no
/// escrowed value behind — the native custody account is destroyed with
/// the record, the token vault survives with balance zero.
pub proof fn lemma_full_payout(
    record: PayRequest,
    custody: u64,
    caller_hash: Seq<u8>,
    receiver_balance: u64,
)
    requires
        record.is_initialized,
        caller_hash == record.receiver_hash@,
        receiver_balance + custody <= u64::MAX,
    ensures
        ({
            let (s, b, r) = spec_sweep(
                RequestState::Initialized { record, custody },
                caller_hash,
                receiver_balance,
            );
            &&& r == Ok::<u64, PayRequestError>(custody)
            &&& b == receiver_balance + custody
            &&& record.mint is Some ==> s == (RequestState::Closed { vault: Some(0u64) })
            &&& record.mint is None ==> s == (RequestState::Closed { vault: None })
        }),
{
}

/// Single use: after a successful sweep the record is gone, and any later
/// sweep or settle against the same request fails with a not-found
/// condition, changing nothing.
pub proof fn lemma_single_use(
    s: RequestState,
    caller_hash: Seq<u8>,
    receiver_balance: u64,
    caller_hash2: Seq<u8>,
    receiver_balance2: u64,
    payer_balance: u64,
)
    requires
        spec_sweep(s, caller_hash, receiver_balance).2 is Ok,
    ensures
        ({
            let s1 = spec_sweep(s, caller_hash, receiver_balance).0;
            &&& spec_sweep(s1, caller_hash2, receiver_balance2) == (
                (s1, receiver_balance2, Err::<u64, PayRequestError>(PayRequestError::NotFound))
            )
            &&& spec_settle(s1, payer_balance) == (
                (s1, payer_balance, Err::<(), PayRequestError>(PayRequestError::NotFound))
            )
        }),
{
}

/// Every operation preserves well-formedness of the request state.
pub proof fn lemma_operations_preserve_wf(
    s: RequestState,
    request_id: u64,
    amount: u64,
    receiver_hash: [u8; 32],
    mint: Option<[u8; 32]>,
    payer_balance: u64,
    caller_hash: Seq<u8>,
    receiver_balance: u64,
)
    requires
        s.wf(),
    ensures
        spec_initialize(s, request_id, amount, receiver_hash, mint).0.wf(),
        spec_settle(s, payer_balance).0.wf(),
        spec_sweep(s, caller_hash, receiver_balance).0.wf(),
{
}

} // verus!
