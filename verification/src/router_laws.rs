//! What holds of every payment that the router settles or refuses.

use vstd::prelude::*;
use crate::address::Address;
use crate::asset::Transfer;
use crate::vault::{credit_aborts, credit_outcome, credit_state, VaultState};
use crate::router::{
    direct_outcome, direct_plan, CreditOrder, failed_notice, fx_outcome, pay_outcome, route_outcome,
    DirectSettlement, FxSettlement, MerchantLookup, MerchantMetadata, PaymentError, PaymentRequest, PaymentRouter,
    Route,
};

verus! {

/// A payment is accepted only with a positive amount to send, a positive
/// floor, the payer's authorization, a registry, and no other payment in
/// flight; and the lookup that is then asked for names that registry.
pub proof fn lemma_accepted_payment(
    router: PaymentRouter,
    signers: Set<Address>,
    request: PaymentRequest,
)
    ensures
        pay_outcome(router, signers, request) matches Ok(lookup) ==> {
            &&& request.send_amount > 0
            &&& request.min_receive > 0
            &&& signers.contains(request.from)
            &&& !router.locked
            &&& router.registry == Some(lookup.registry)
            &&& lookup.request == request
        },
        router.locked && request.send_amount > 0 && request.min_receive > 0 && signers.contains(
            request.from,
        ) ==> pay_outcome(router, signers, request) == Err::<MerchantLookup, PaymentError>(
            PaymentError::Reentrancy,
        ),
{
}

/// A payment to a merchant that is not active is refused as such, whatever
/// the assets and amounts. One failure is recorded and nothing is routed,
/// so no credit is ever ordered for it.
pub proof fn lemma_inactive_merchant_is_refused(
    router: Address,
    request: PaymentRequest,
    merchant: MerchantMetadata,
)
    requires
        !merchant.active,
    ensures
        route_outcome(router, request, merchant).1 == Err::<Route, PaymentError>(
            PaymentError::MerchantInactive,
        ),
        route_outcome(router, request, merchant).0 == seq![
            failed_notice(request, merchant.settlement_asset, 0),
        ],
{
}

/// A payment in the settlement asset of an active merchant is settled
/// directly: the amount sent goes from the payer to the merchant's vault,
/// whose balance is watched.
pub proof fn lemma_same_asset_is_direct(
    router: Address,
    request: PaymentRequest,
    merchant: MerchantMetadata,
)
    requires
        merchant.active,
        request.send_asset == merchant.settlement_asset,
    ensures
        route_outcome(router, request, merchant).1 == Ok::<Route, PaymentError>(
            Route::Direct(direct_plan(request, merchant)),
        ),
        direct_plan(request, merchant).transfer == (Transfer {
            asset: request.send_asset,
            from: request.from,
            to: merchant.vault,
            amount: request.send_amount,
        }),
        direct_plan(request, merchant).watch.holder == merchant.vault,
{
}

/// A direct settlement that is accepted credits the merchant, at the
/// merchant's vault and in the settlement asset, with exactly what the
/// vault's balance rose by, and that is at least the floor. In particular,
/// where the balance rose by the amount sent and the floor is that amount,
/// the credit is the amount sent.
pub proof fn lemma_direct_credit_is_measured(plan: DirectSettlement, before: i128, after: i128)
    requires
        i128::MIN <= after - before <= i128::MAX,
    ensures
        direct_outcome(plan, before, after).1 matches Ok(order) ==> {
            &&& order.credit.amount == after - before
            &&& order.credit.amount >= plan.request.min_receive
            &&& order.credit.amount > 0
            &&& order.credit.merchant_id == plan.request.merchant_id
            &&& order.credit.vault == plan.merchant.vault
            &&& order.credit.asset == plan.merchant.settlement_asset
            &&& order.credit.payer == plan.request.from
            &&& order.forward is None
        },
        after - before >= plan.request.min_receive && after - before > 0 ==> direct_outcome(
            plan,
            before,
            after,
        ).1 is Ok,
{
}

/// A converted settlement that is accepted credits the merchant with exactly
/// what the router's own balance rose by, whatever the exchange quoted, and
/// forwards that amount to the merchant's vault first. The credit is at
/// least the floor, and so was the quote.
pub proof fn lemma_fx_credit_is_measured(
    router: Address,
    plan: FxSettlement,
    before: i128,
    quoted: i128,
    after: i128,
)
    requires
        i128::MIN <= after - before <= i128::MAX,
    ensures
        fx_outcome(router, plan, before, quoted, after).1 matches Ok(order) ==> {
            &&& order.credit.amount == after - before
            &&& order.credit.amount >= plan.request.min_receive
            &&& quoted >= plan.request.min_receive
            &&& order.credit.merchant_id == plan.request.merchant_id
            &&& order.credit.vault == plan.merchant.vault
            &&& order.forward == Some(
                Transfer {
                    asset: plan.merchant.settlement_asset,
                    from: router,
                    to: plan.merchant.vault,
                    amount: order.credit.amount,
                },
            )
        },
{
}

/// What the host observed in the course of one payment: the merchant's
/// metadata, the watched balance before and after the funds moved, and, for
/// a converted payment, what the exchange quoted.
pub struct Observed {
    pub merchant: MerchantMetadata,
    pub before: i128,
    pub quoted: i128,
    pub after: i128,
}

/// What a payment comes to when it is taken through every stage: the
/// settled amount, or the refusal of the first stage that refuses.
pub open spec fn payment_result(
    router: PaymentRouter,
    signers: Set<Address>,
    request: PaymentRequest,
    observed: Observed,
) -> Result<i128, PaymentError> {
    match pay_outcome(router, signers, request) {
        Err(e) => Err(e),
        Ok(lookup) => match route_outcome(router.address, lookup.request, observed.merchant).1 {
            Err(e) => Err(e),
            Ok(Route::Direct(plan)) => match direct_outcome(plan, observed.before, observed.after).1 {
                Err(e) => Err(e),
                Ok(order) => Ok(order.credit.amount),
            },
            Ok(Route::Fx(plan)) => match fx_outcome(
                router.address,
                plan,
                observed.before,
                observed.quoted,
                observed.after,
            ).1 {
                Err(e) => Err(e),
                Ok(order) => Ok(order.credit.amount),
            },
        },
    }
}

/// Whatever the registry, the assets and the exchange answer, a payment
/// that settles settles exactly what arrived, and that is at least the floor
/// that the payer set, which is positive.
pub proof fn lemma_settled_is_measured_and_above_floor(
    router: PaymentRouter,
    signers: Set<Address>,
    request: PaymentRequest,
    observed: Observed,
)
    requires
        i128::MIN <= observed.after - observed.before <= i128::MAX,
    ensures
        payment_result(router, signers, request, observed) matches Ok(settled) ==> {
            &&& settled == observed.after - observed.before
            &&& settled >= request.min_receive
            &&& request.min_receive > 0
            &&& observed.merchant.active
            &&& signers.contains(request.from)
        },
{
}

/// A payment of an amount in the settlement asset of an active merchant,
/// with that amount as the floor, settles that amount when the vault's
/// balance rises by it.
pub proof fn lemma_direct_payment_settles_what_was_sent(
    router: PaymentRouter,
    signers: Set<Address>,
    request: PaymentRequest,
    observed: Observed,
)
    requires
        request.send_amount > 0,
        request.min_receive == request.send_amount,
        signers.contains(request.from),
        !router.locked,
        router.registry is Some,
        observed.merchant.active,
        observed.merchant.settlement_asset == request.send_asset,
        observed.after - observed.before == request.send_amount,
    ensures
        payment_result(router, signers, request, observed) == Ok::<i128, PaymentError>(
            request.send_amount,
        ),
{
}

/// A payment to a merchant that is not active comes to nothing but the
/// refusal, whatever else is observed.
pub proof fn lemma_payment_to_inactive_merchant_fails(
    router: PaymentRouter,
    signers: Set<Address>,
    request: PaymentRequest,
    observed: Observed,
)
    requires
        pay_outcome(router, signers, request) is Ok,
        !observed.merchant.active,
    ensures
        payment_result(router, signers, request, observed) == Err::<i128, PaymentError>(
            PaymentError::MerchantInactive,
        ),
{
}

/// When the payment router carries out the credit of a settled payment at
/// a vault in which the merchant has an account, the merchant's balance
/// rises by the settled amount and no other balance changes.
pub proof fn lemma_credit_order_raises_balance(
    vault: VaultState,
    signers: Set<Address>,
    order: CreditOrder,
    other: Address,
)
    requires
        vault.config is Some,
        signers.contains(vault.config.unwrap().payment_router),
        vault.balances.contains_key(order.credit.merchant_id),
        order.credit.amount >= 0,
        !credit_aborts(vault, signers, order.credit.merchant_id, order.credit.amount),
        other != order.credit.merchant_id,
    ensures
        credit_outcome(vault, signers, order.credit.merchant_id, order.credit.amount) is Ok,
        credit_state(
            vault,
            signers,
            order.credit.merchant_id,
            order.credit.amount,
        ).balances[order.credit.merchant_id] == vault.balances[order.credit.merchant_id]
            + order.credit.amount,
        credit_state(
            vault,
            signers,
            order.credit.merchant_id,
            order.credit.amount,
        ).balances[other] == vault.balances[other],
{
}

} // verus!
