//! What holds of the merchant vault over any run of operations.

use vstd::prelude::*;
use crate::address::Address;
use crate::vault::{
    credit_aborts, credit_outcome, credit_state, debit_outcome, debit_state, init_merchant_outcome,
    init_merchant_state,
    initialize_state, update_payment_router_state, update_payout_contract_state, BalanceCreditedEvent,
    BalanceDebitedEvent, Error, VaultState,
};

verus! {

/// One call that may change the vault, with those who authorized it.
pub enum VaultOp {
    Initialize {
        signers: Set<Address>,
        admin: Address,
        payment_router: Address,
        payout_contract: Address,
    },
    InitMerchant { signers: Set<Address>, merchant_id: Address },
    Credit { signers: Set<Address>, merchant_id: Address, amount: i128 },
    Debit { signers: Set<Address>, merchant_id: Address, amount: i128 },
    UpdatePaymentRouter { signers: Set<Address>, new_router: Address },
    UpdatePayoutContract { signers: Set<Address>, new_payout: Address },
}

/// Whether the call is a credit that aborts.
pub open spec fn aborts(pre: VaultState, op: VaultOp) -> bool {
    match op {
        VaultOp::Credit { signers, merchant_id, amount } => credit_aborts(
            pre,
            signers,
            merchant_id,
            amount,
        ),
        _ => false,
    }
}

/// The vault after one call.
pub open spec fn apply(pre: VaultState, op: VaultOp) -> VaultState {
    match op {
        VaultOp::Initialize { signers, admin, payment_router, payout_contract } => initialize_state(
            pre,
            signers,
            admin,
            payment_router,
            payout_contract,
        ),
        VaultOp::InitMerchant { signers, merchant_id } => init_merchant_state(
            pre,
            signers,
            merchant_id,
        ),
        VaultOp::Credit { signers, merchant_id, amount } => credit_state(
            pre,
            signers,
            merchant_id,
            amount,
        ),
        VaultOp::Debit { signers, merchant_id, amount } => debit_state(
            pre,
            signers,
            merchant_id,
            amount,
        ),
        VaultOp::UpdatePaymentRouter { signers, new_router } => update_payment_router_state(
            pre,
            signers,
            new_router,
        ),
        VaultOp::UpdatePayoutContract { signers, new_payout } => update_payout_contract_state(
            pre,
            signers,
            new_payout,
        ),
    }
}

/// What the call adds to the balance of `merchant`: the amount of a credit
/// to that merchant that is accepted, and nothing otherwise.
pub open spec fn credited(pre: VaultState, op: VaultOp, merchant: Address) -> int {
    match op {
        VaultOp::Credit { signers, merchant_id, amount } => if merchant_id == merchant
            && credit_outcome(pre, signers, merchant_id, amount) is Ok {
            amount as int
        } else {
            0
        },
        _ => 0,
    }
}

/// What the call takes from the balance of `merchant`: the amount of a debit
/// of that merchant that is accepted, and nothing otherwise.
pub open spec fn debited(pre: VaultState, op: VaultOp, merchant: Address) -> int {
    match op {
        VaultOp::Debit { signers, merchant_id, amount } => if merchant_id == merchant
            && debit_outcome(pre, signers, merchant_id, amount) is Ok {
            amount as int
        } else {
            0
        },
        _ => 0,
    }
}

/// The vault after a run of calls, made in order.
pub open spec fn run(pre: VaultState, ops: Seq<VaultOp>) -> VaultState
    decreases ops.len(),
{
    if ops.len() == 0 {
        pre
    } else {
        apply(run(pre, ops.drop_last()), ops.last())
    }
}

/// Whether no call of the run aborts.
pub open spec fn completes(pre: VaultState, ops: Seq<VaultOp>) -> bool
    decreases ops.len(),
{
    if ops.len() == 0 {
        true
    } else {
        completes(pre, ops.drop_last()) && !aborts(run(pre, ops.drop_last()), ops.last())
    }
}

/// The sum of the credits to `merchant` that the run accepts.
pub open spec fn total_credited(pre: VaultState, ops: Seq<VaultOp>, merchant: Address) -> int
    decreases ops.len(),
{
    if ops.len() == 0 {
        0
    } else {
        total_credited(pre, ops.drop_last(), merchant) + credited(
            run(pre, ops.drop_last()),
            ops.last(),
            merchant,
        )
    }
}

/// The sum of the debits of `merchant` that the run accepts.
pub open spec fn total_debited(pre: VaultState, ops: Seq<VaultOp>, merchant: Address) -> int
    decreases ops.len(),
{
    if ops.len() == 0 {
        0
    } else {
        total_debited(pre, ops.drop_last(), merchant) + debited(
            run(pre, ops.drop_last()),
            ops.last(),
            merchant,
        )
    }
}

/// Whether no merchant's balance is negative.
pub open spec fn solvent(state: VaultState) -> bool {
    forall|merchant: Address| #[trigger]
        state.balances.contains_key(merchant) ==> state.balances[merchant] >= 0
}

/// One call changes the balance of a merchant that has an account by what it
/// credits less what it debits, and never closes the account.
pub proof fn lemma_step_balance(pre: VaultState, op: VaultOp, merchant: Address)
    requires
        pre.balances.contains_key(merchant),
        !aborts(pre, op),
    ensures
        apply(pre, op).balances.contains_key(merchant),
        apply(pre, op).balances[merchant] == pre.balances[merchant] + credited(pre, op, merchant)
            - debited(pre, op, merchant),
{
}

/// After any run of calls that completes, the balance of a merchant is what
/// it was before, plus the sum of the accepted credits, less the sum of the
/// accepted debits. For an account that starts at zero the balance is the
/// credits less the debits.
pub proof fn lemma_balance_is_credits_less_debits(
    pre: VaultState,
    ops: Seq<VaultOp>,
    merchant: Address,
)
    requires
        pre.balances.contains_key(merchant),
        completes(pre, ops),
    ensures
        run(pre, ops).balances.contains_key(merchant),
        run(pre, ops).balances[merchant] == pre.balances[merchant] + total_credited(
            pre,
            ops,
            merchant,
        ) - total_debited(pre, ops, merchant),
    decreases ops.len(),
{
    if ops.len() > 0 {
        lemma_balance_is_credits_less_debits(pre, ops.drop_last(), merchant);
        lemma_step_balance(run(pre, ops.drop_last()), ops.last(), merchant);
    }
}

/// From the opening of a merchant's account on, after any run of calls
/// that completes, the balance is the sum of the accepted credits less the
/// sum of the accepted debits.
pub proof fn lemma_new_account_balance(
    pre: VaultState,
    signers: Set<Address>,
    merchant: Address,
    ops: Seq<VaultOp>,
)
    requires
        init_merchant_outcome(pre, signers, merchant) is Ok,
        completes(init_merchant_state(pre, signers, merchant), ops),
    ensures
        ({
            let opened = init_merchant_state(pre, signers, merchant);
            &&& opened.balances[merchant] == 0
            &&& run(opened, ops).balances.contains_key(merchant)
            &&& run(opened, ops).balances[merchant] == total_credited(opened, ops, merchant)
                - total_debited(opened, ops, merchant)
        }),
{
    lemma_balance_is_credits_less_debits(init_merchant_state(pre, signers, merchant), ops, merchant);
}

/// No call that completes makes a balance negative.
pub proof fn lemma_step_keeps_solvent(pre: VaultState, op: VaultOp)
    requires
        solvent(pre),
        !aborts(pre, op),
    ensures
        solvent(apply(pre, op)),
{
    let post = apply(pre, op);
    assert forall|merchant: Address| #[trigger] post.balances.contains_key(merchant) implies post.balances[merchant]
        >= 0 by {
        if pre.balances.contains_key(merchant) {
            lemma_step_balance(pre, op, merchant);
        }
    }
}

/// Balances stay non-negative over any run of calls that completes.
pub proof fn lemma_run_keeps_solvent(pre: VaultState, ops: Seq<VaultOp>)
    requires
        solvent(pre),
        completes(pre, ops),
    ensures
        solvent(run(pre, ops)),
    decreases ops.len(),
{
    if ops.len() > 0 {
        lemma_run_keeps_solvent(pre, ops.drop_last());
        lemma_step_keeps_solvent(run(pre, ops.drop_last()), ops.last());
    }
}

/// A debit of more than the balance, authorized by the payout service, is
/// refused for want of funds and changes nothing. In particular so is a debit
/// of the balance plus one.
pub proof fn lemma_overdraft_is_refused(
    pre: VaultState,
    signers: Set<Address>,
    merchant_id: Address,
    amount: i128,
)
    requires
        pre.config is Some,
        signers.contains(pre.config.unwrap().payout_contract),
        pre.balances.contains_key(merchant_id),
        pre.balances[merchant_id] >= 0,
        amount > pre.balances[merchant_id],
    ensures
        debit_outcome(pre, signers, merchant_id, amount) == Err::<BalanceDebitedEvent, Error>(
            Error::InsufficientBalance,
        ),
        debit_state(pre, signers, merchant_id, amount) == pre,
{
}

/// A credit of a negative amount, authorized by the payment router, is
/// refused as such and changes nothing.
pub proof fn lemma_negative_credit_is_refused(
    pre: VaultState,
    signers: Set<Address>,
    merchant_id: Address,
    amount: i128,
)
    requires
        pre.config is Some,
        signers.contains(pre.config.unwrap().payment_router),
        amount < 0,
    ensures
        !credit_aborts(pre, signers, merchant_id, amount),
        credit_outcome(pre, signers, merchant_id, amount) == Err::<BalanceCreditedEvent, Error>(
            Error::NegativeAmount,
        ),
        credit_state(pre, signers, merchant_id, amount) == pre,
{
}

/// A debit of a negative amount, authorized by the payout service, is
/// refused as such and changes nothing.
pub proof fn lemma_negative_debit_is_refused(
    pre: VaultState,
    signers: Set<Address>,
    merchant_id: Address,
    amount: i128,
)
    requires
        pre.config is Some,
        signers.contains(pre.config.unwrap().payout_contract),
        amount < 0,
    ensures
        debit_outcome(pre, signers, merchant_id, amount) == Err::<BalanceDebitedEvent, Error>(
            Error::NegativeAmount,
        ),
        debit_state(pre, signers, merchant_id, amount) == pre,
{
}

/// Once a balance has been credited up to the largest amount, every further
/// credit of more than nothing aborts: it is neither applied nor refused
/// with an error.
pub proof fn lemma_credit_beyond_largest_aborts(
    pre: VaultState,
    signers: Set<Address>,
    merchant_id: Address,
    fill: i128,
    amount: i128,
)
    requires
        pre.config is Some,
        signers.contains(pre.config.unwrap().payment_router),
        pre.balances.contains_key(merchant_id),
        fill >= 0,
        pre.balances[merchant_id] + fill == i128::MAX,
        amount > 0,
    ensures
        !credit_aborts(pre, signers, merchant_id, fill),
        credit_outcome(pre, signers, merchant_id, fill) is Ok,
        credit_state(pre, signers, merchant_id, fill).balances[merchant_id] == i128::MAX,
        credit_aborts(credit_state(pre, signers, merchant_id, fill), signers, merchant_id, amount),
{
}

/// A credit or a debit of one merchant leaves every other merchant's account
/// as it was.
pub proof fn lemma_accounts_are_isolated(
    pre: VaultState,
    signers: Set<Address>,
    merchant_id: Address,
    amount: i128,
    other: Address,
)
    requires
        other != merchant_id,
    ensures
        credit_state(pre, signers, merchant_id, amount).balances.contains_key(other)
            == pre.balances.contains_key(other),
        credit_state(pre, signers, merchant_id, amount).balances[other] == pre.balances[other],
        debit_state(pre, signers, merchant_id, amount).balances.contains_key(other)
            == pre.balances.contains_key(other),
        debit_state(pre, signers, merchant_id, amount).balances[other] == pre.balances[other],
{
}

} // verus!
