//! What holds of the escrow manager, whatever the calls that are made.

use vstd::prelude::*;
use crate::address::{Address, BytesN};
use crate::escrow::{
    get_outcome, is_arbitrator, lock_outcome, lock_state, locked, locked_escrow, refund_outcome,
    refund_state, release_outcome, release_state, timed_out, Escrow, EscrowError, EscrowLedger,
    EscrowReceipt, EscrowState,
};

verus! {

/// One call that may change the escrow manager, with those who authorized
/// it and the time at which it is made.
pub enum EscrowOp {
    Lock {
        signers: Set<Address>,
        escrow_id: BytesN<32>,
        buyer: Address,
        seller: Address,
        token: Address,
        amount: i128,
        memo: BytesN<32>,
        now: u64,
    },
    Release { signers: Set<Address>, escrow_id: BytesN<32>, caller: Address },
    Refund { signers: Set<Address>, escrow_id: BytesN<32>, caller: Address, now: u64 },
}

/// The escrow manager after one call.
pub open spec fn apply(pre: EscrowLedger, op: EscrowOp) -> EscrowLedger {
    match op {
        EscrowOp::Lock { signers, escrow_id, buyer, seller, token, amount, memo, now } => lock_state(
            pre,
            signers,
            escrow_id,
            buyer,
            seller,
            token,
            amount,
            memo,
            now,
        ),
        EscrowOp::Release { signers, escrow_id, caller } => release_state(
            pre,
            signers,
            escrow_id,
            caller,
        ),
        EscrowOp::Refund { signers, escrow_id, caller, now } => refund_state(
            pre,
            signers,
            escrow_id,
            caller,
            now,
        ),
    }
}

/// Whether `after` is the record `before` with nothing changed but,
/// possibly, a locked state that was left.
pub open spec fn succeeds(before: Escrow, after: Escrow) -> bool {
    &&& after.buyer == before.buyer
    &&& after.seller == before.seller
    &&& after.arbitrator == before.arbitrator
    &&& after.token == before.token
    &&& after.amount == before.amount
    &&& after.memo == before.memo
    &&& after.created_at == before.created_at
    &&& (after.state == before.state || before.state == EscrowState::Locked)
}

/// A lock of a positive amount under an unused id, authorized by the buyer,
/// is accepted, and the record then read back is the one that was asked
/// for, in the locked state.
pub proof fn lemma_lock_then_get(
    pre: EscrowLedger,
    signers: Set<Address>,
    escrow_id: BytesN<32>,
    buyer: Address,
    seller: Address,
    token: Address,
    amount: i128,
    memo: BytesN<32>,
    now: u64,
)
    requires
        signers.contains(buyer),
        amount > 0,
        !pre.escrows.contains_key(escrow_id),
    ensures
        lock_outcome(pre, signers, escrow_id, buyer, seller, token, amount) is Ok,
        get_outcome(
            lock_state(pre, signers, escrow_id, buyer, seller, token, amount, memo, now),
            escrow_id,
        ) == Ok::<Escrow, EscrowError>(locked_escrow(buyer, seller, token, amount, memo, now)),
        locked(
            lock_state(pre, signers, escrow_id, buyer, seller, token, amount, memo, now),
            escrow_id,
        ),
{
}

/// A lock under an id that is in use is refused as already locked, whoever
/// the parties and whatever the asset, memo and time, and changes nothing.
/// The amount must be positive and the buyer must have authorized the call:
/// those two tests come first.
pub proof fn lemma_lock_of_used_id_is_refused(
    pre: EscrowLedger,
    signers: Set<Address>,
    escrow_id: BytesN<32>,
    buyer: Address,
    seller: Address,
    token: Address,
    amount: i128,
    memo: BytesN<32>,
    now: u64,
)
    requires
        pre.escrows.contains_key(escrow_id),
        signers.contains(buyer),
        amount > 0,
    ensures
        lock_outcome(pre, signers, escrow_id, buyer, seller, token, amount) == Err::<
            EscrowReceipt,
            EscrowError,
        >(EscrowError::AlreadyLocked),
        lock_state(pre, signers, escrow_id, buyer, seller, token, amount, memo, now) == pre,
{
}

/// A lock of an amount that is not positive, authorized by the buyer, is
/// refused as an invalid amount and creates no record.
pub proof fn lemma_lock_of_no_amount_is_refused(
    pre: EscrowLedger,
    signers: Set<Address>,
    escrow_id: BytesN<32>,
    buyer: Address,
    seller: Address,
    token: Address,
    amount: i128,
    memo: BytesN<32>,
    now: u64,
)
    requires
        signers.contains(buyer),
        amount <= 0,
    ensures
        lock_outcome(pre, signers, escrow_id, buyer, seller, token, amount) == Err::<
            EscrowReceipt,
            EscrowError,
        >(EscrowError::InvalidAmount),
        lock_state(pre, signers, escrow_id, buyer, seller, token, amount, memo, now) == pre,
{
}

/// Once an escrow has been released it is no longer locked, and every later
/// release or refund of it, by any caller who authorized the call and at any
/// time, is refused for its state and changes nothing.
pub proof fn lemma_released_is_final(
    pre: EscrowLedger,
    signers: Set<Address>,
    escrow_id: BytesN<32>,
    caller: Address,
    later_signers: Set<Address>,
    later_caller: Address,
    later: u64,
)
    requires
        release_outcome(pre, signers, escrow_id, caller) is Ok,
        later_signers.contains(later_caller),
    ensures
        ({
            let post = release_state(pre, signers, escrow_id, caller);
            &&& !locked(post, escrow_id)
            &&& post.escrows[escrow_id].state == EscrowState::Released
            &&& release_outcome(post, later_signers, escrow_id, later_caller) == Err::<
                EscrowReceipt,
                EscrowError,
            >(EscrowError::InvalidState)
            &&& refund_outcome(post, later_signers, escrow_id, later_caller, later) == Err::<
                EscrowReceipt,
                EscrowError,
            >(EscrowError::InvalidState)
            &&& release_state(post, later_signers, escrow_id, later_caller) == post
            &&& refund_state(post, later_signers, escrow_id, later_caller, later) == post
        }),
{
}

/// Once an escrow has been refunded it is no longer locked, and every later
/// release or refund of it, by any caller who authorized the call and at any
/// time, is refused for its state and changes nothing.
pub proof fn lemma_refunded_is_final(
    pre: EscrowLedger,
    signers: Set<Address>,
    escrow_id: BytesN<32>,
    caller: Address,
    now: u64,
    later_signers: Set<Address>,
    later_caller: Address,
    later: u64,
)
    requires
        refund_outcome(pre, signers, escrow_id, caller, now) is Ok,
        later_signers.contains(later_caller),
    ensures
        ({
            let post = refund_state(pre, signers, escrow_id, caller, now);
            &&& !locked(post, escrow_id)
            &&& post.escrows[escrow_id].state == EscrowState::Refunded
            &&& release_outcome(post, later_signers, escrow_id, later_caller) == Err::<
                EscrowReceipt,
                EscrowError,
            >(EscrowError::InvalidState)
            &&& refund_outcome(post, later_signers, escrow_id, later_caller, later) == Err::<
                EscrowReceipt,
                EscrowError,
            >(EscrowError::InvalidState)
            &&& release_state(post, later_signers, escrow_id, later_caller) == post
            &&& refund_state(post, later_signers, escrow_id, later_caller, later) == post
        }),
{
}

/// For a locked escrow and a caller who authorized the call: before the
/// timeout a refund is accepted exactly when the caller is the buyer or the
/// arbitrator; once the timeout has passed it is accepted for every caller.
/// The funds go to the buyer in either case.
pub proof fn lemma_refund_grounds(
    pre: EscrowLedger,
    signers: Set<Address>,
    escrow_id: BytesN<32>,
    caller: Address,
    now: u64,
)
    requires
        locked(pre, escrow_id),
        signers.contains(caller),
    ensures
        ({
            let escrow = pre.escrows[escrow_id];
            let outcome = refund_outcome(pre, signers, escrow_id, caller, now);
            &&& !timed_out(escrow.created_at, now) ==> (outcome is Ok <==> caller == escrow.buyer
                || is_arbitrator(escrow, caller))
            &&& timed_out(escrow.created_at, now) ==> outcome is Ok
            &&& outcome is Err ==> outcome == Err::<EscrowReceipt, EscrowError>(
                EscrowError::NotAuthorized,
            )
            &&& outcome matches Ok(receipt) ==> receipt.transfer.to == escrow.buyer
                && receipt.transfer.amount == escrow.amount
        }),
{
}

/// No call removes a record, changes its parties, asset, amount, memo or
/// time of creation, or moves it out of a state other than locked.
pub proof fn lemma_records_only_advance(pre: EscrowLedger, op: EscrowOp, escrow_id: BytesN<32>)
    requires
        pre.escrows.contains_key(escrow_id),
    ensures
        apply(pre, op).address == pre.address,
        apply(pre, op).escrows.contains_key(escrow_id),
        succeeds(pre.escrows[escrow_id], apply(pre, op).escrows[escrow_id]),
{
}

/// A call changes at most the record that it names: every other id has a
/// record afterwards exactly if it had one before, and that record is the
/// same.
pub proof fn lemma_other_escrows_untouched(
    pre: EscrowLedger,
    op: EscrowOp,
    escrow_id: BytesN<32>,
)
    requires
        escrow_id != (match op {
            EscrowOp::Lock { escrow_id, .. } => escrow_id,
            EscrowOp::Release { escrow_id, .. } => escrow_id,
            EscrowOp::Refund { escrow_id, .. } => escrow_id,
        }),
    ensures
        apply(pre, op).escrows.contains_key(escrow_id) == pre.escrows.contains_key(escrow_id),
        apply(pre, op).escrows[escrow_id] == pre.escrows[escrow_id],
{
}

} // verus!
