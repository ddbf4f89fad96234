//! The payment router: end-to-end settlement of one payment.
//!
//! A payment crosses several services that the router does not control: the
//! merchant registry, the asset ledgers, an exchange and the merchant vault.
//! The router therefore works in stages. Each stage decides, from what the
//! host has observed so far, what is to be done next, and hands the host the
//! instructions for it. The host carries them out and comes back with what it
//! observed. Between [`PaymentRouter::pay`] and the stage that ends the
//! payment the router is locked against a second payment.

use vstd::prelude::*;
use crate::address::Address;
use crate::asset::{BalanceQuery, Credit, Swap, Transfer};
use crate::authorization::Authorization;

verus! {

/// What the registry knows of a merchant.
#[derive(Clone, Copy, Debug)]
pub struct MerchantMetadata {
    pub settlement_asset: Address,
    pub vault: Address,
    pub active: bool,
    pub fx_router: Option<Address>,
}

/// The audit record of one payment.
#[derive(Clone, Copy, Debug)]
pub struct PaymentEvent {
    pub payer: Address,
    pub merchant_id: Address,
    pub send_asset: Address,
    pub send_amount: i128,
    pub settlement_asset: Address,
    pub settled_amount: i128,
}

/// The point of a payment's life that an audit record reports.
#[derive(Clone, Copy, Debug, PartialEq, Eq, Structural)]
pub enum PaymentEventKind {
    Initiated,
    Settled,
    Failed,
}

/// An audit record together with its kind, ready to be published.
#[derive(Clone, Copy, Debug)]
pub struct PaymentNotice {
    pub kind: PaymentEventKind,
    pub event: PaymentEvent,
}

/// Why a payment, or the setting up of the router, was refused.
#[derive(Clone, Copy, Debug, PartialEq, Eq, Structural)]
pub enum PaymentError {
    AlreadyInitialized,
    RegistryNotSet,
    InvalidSendAmount,
    InvalidMinReceive,
    Reentrancy,
    MerchantInactive,
    FxRouterMissing,
    SettlementBelowMin,
    FxSwapFailed,
    NotAuthorized,
}

/// What the payer asked for.
#[derive(Clone, Copy, Debug)]
pub struct PaymentRequest {
    pub from: Address,
    pub merchant_id: Address,
    pub send_asset: Address,
    pub send_amount: i128,
    pub min_receive: i128,
}

/// A payment that has been accepted and waits for the merchant's metadata.
/// The host asks `registry` for the metadata of `request.merchant_id`.
#[derive(Clone, Copy, Debug)]
pub struct MerchantLookup {
    pub request: PaymentRequest,
    pub registry: Address,
}

/// A payment in the merchant's own settlement asset.
///
/// The host reads the balance named by `watch`, carries out `transfer`, and
/// reads the balance again.
#[derive(Clone, Copy, Debug)]
pub struct DirectSettlement {
    pub request: PaymentRequest,
    pub merchant: MerchantMetadata,
    pub watch: BalanceQuery,
    pub transfer: Transfer,
}

/// A payment that is converted at an exchange.
///
/// The host carries out `funding`, reads the balance named by `watch`, asks
/// for `swap`, and reads the balance again.
#[derive(Clone, Copy, Debug)]
pub struct FxSettlement {
    pub request: PaymentRequest,
    pub merchant: MerchantMetadata,
    pub funding: Transfer,
    pub watch: BalanceQuery,
    pub swap: Swap,
}

/// A payment whose settled amount is known.
///
/// The host carries out `forward`, if there is one, and then `credit`.
#[derive(Clone, Copy, Debug)]
pub struct CreditOrder {
    pub request: PaymentRequest,
    pub forward: Option<Transfer>,
    pub credit: Credit,
}

/// Where a payment goes once the merchant is known.
#[derive(Clone, Copy, Debug)]
pub enum Route {
    Direct(DirectSettlement),
    Fx(FxSettlement),
}

/// The outcome of one stage: the records to publish, in order, and either
/// what the next stage needs or the reason for which the payment ended.
#[derive(Debug)]
pub struct Stage<T> {
    pub notices: Vec<PaymentNotice>,
    pub next: Result<T, PaymentError>,
}

/// The router's configuration and its reentrancy flag.
#[derive(Clone, Copy, Debug)]
pub struct PaymentRouter {
    /// The router's own address, under which it holds converted funds.
    pub address: Address,
    /// The merchant registry, once set.
    pub registry: Option<Address>,
    /// Whether a payment is in flight.
    pub locked: bool,
}

/// The record of a payment that has been accepted for routing.
pub open spec fn initiated_notice(request: PaymentRequest, settlement_asset: Address) -> PaymentNotice {
    PaymentNotice {
        kind: PaymentEventKind::Initiated,
        event: PaymentEvent {
            payer: request.from,
            merchant_id: request.merchant_id,
            send_asset: request.send_asset,
            send_amount: request.send_amount,
            settlement_asset,
            settled_amount: 0,
        },
    }
}

/// The record of a payment that settled `settled_amount`.
pub open spec fn settled_notice(
    request: PaymentRequest,
    settlement_asset: Address,
    settled_amount: i128,
) -> PaymentNotice {
    PaymentNotice {
        kind: PaymentEventKind::Settled,
        event: PaymentEvent {
            payer: request.from,
            merchant_id: request.merchant_id,
            send_asset: request.send_asset,
            send_amount: request.send_amount,
            settlement_asset,
            settled_amount,
        },
    }
}

/// The record of a payment that failed after `settled_amount` was measured.
pub open spec fn failed_notice(
    request: PaymentRequest,
    settlement_asset: Address,
    settled_amount: i128,
) -> PaymentNotice {
    PaymentNotice {
        kind: PaymentEventKind::Failed,
        event: PaymentEvent {
            payer: request.from,
            merchant_id: request.merchant_id,
            send_asset: request.send_asset,
            send_amount: request.send_amount,
            settlement_asset,
            settled_amount,
        },
    }
}

/// Builds the record of a payment that has been accepted for routing.
pub fn emit_initiated(request: &PaymentRequest, settlement_asset: Address) -> (r: PaymentNotice)
    ensures
        r == initiated_notice(*request, settlement_asset),
{
    PaymentNotice {
        kind: PaymentEventKind::Initiated,
        event: PaymentEvent {
            payer: request.from,
            merchant_id: request.merchant_id,
            send_asset: request.send_asset,
            send_amount: request.send_amount,
            settlement_asset,
            settled_amount: 0,
        },
    }
}

/// Builds the record of a payment that settled `settled_amount`.
pub fn emit_settled(request: &PaymentRequest, settlement_asset: Address, settled_amount: i128) -> (r:
    PaymentNotice)
    ensures
        r == settled_notice(*request, settlement_asset, settled_amount),
{
    PaymentNotice {
        kind: PaymentEventKind::Settled,
        event: PaymentEvent {
            payer: request.from,
            merchant_id: request.merchant_id,
            send_asset: request.send_asset,
            send_amount: request.send_amount,
            settlement_asset,
            settled_amount,
        },
    }
}

/// Builds the record of a payment that failed after `settled_amount` was
/// measured.
pub fn emit_failed(request: &PaymentRequest, settlement_asset: Address, settled_amount: i128) -> (r:
    PaymentNotice)
    ensures
        r == failed_notice(*request, settlement_asset, settled_amount),
{
    PaymentNotice {
        kind: PaymentEventKind::Failed,
        event: PaymentEvent {
            payer: request.from,
            merchant_id: request.merchant_id,
            send_asset: request.send_asset,
            send_amount: request.send_amount,
            settlement_asset,
            settled_amount,
        },
    }
}

/// What [`PaymentRouter::pay`] answers: the first of the refusals that
/// applies, in the order in which they are tested, or the accepted payment.
pub open spec fn pay_outcome(
    router: PaymentRouter,
    signers: Set<Address>,
    request: PaymentRequest,
) -> Result<MerchantLookup, PaymentError> {
    if request.send_amount <= 0 {
        Err(PaymentError::InvalidSendAmount)
    } else if request.min_receive <= 0 {
        Err(PaymentError::InvalidMinReceive)
    } else if !signers.contains(request.from) {
        Err(PaymentError::NotAuthorized)
    } else if router.locked {
        Err(PaymentError::Reentrancy)
    } else {
        match router.registry {
            None => Err(PaymentError::RegistryNotSet),
            Some(registry) => Ok(MerchantLookup { request, registry }),
        }
    }
}

/// The instructions for a payment in the merchant's settlement asset.
pub open spec fn direct_plan(request: PaymentRequest, merchant: MerchantMetadata) -> DirectSettlement {
    DirectSettlement {
        request,
        merchant,
        watch: BalanceQuery { asset: merchant.settlement_asset, holder: merchant.vault },
        transfer: Transfer {
            asset: merchant.settlement_asset,
            from: request.from,
            to: merchant.vault,
            amount: request.send_amount,
        },
    }
}

/// The instructions for a payment that is converted at `exchange`, by a
/// router whose own address is `router`.
pub open spec fn fx_plan(
    router: Address,
    request: PaymentRequest,
    merchant: MerchantMetadata,
    exchange: Address,
) -> FxSettlement {
    FxSettlement {
        request,
        merchant,
        funding: Transfer {
            asset: request.send_asset,
            from: request.from,
            to: exchange,
            amount: request.send_amount,
        },
        watch: BalanceQuery { asset: merchant.settlement_asset, holder: router },
        swap: Swap {
            router: exchange,
            recipient: router,
            send_asset: request.send_asset,
            send_amount: request.send_amount,
            dest_asset: merchant.settlement_asset,
            min_receive: request.min_receive,
        },
    }
}

/// What [`PaymentRouter::route`] answers for a merchant's metadata: the
/// records to publish and the route, or the refusal.
pub open spec fn route_outcome(
    router: Address,
    request: PaymentRequest,
    merchant: MerchantMetadata,
) -> (Seq<PaymentNotice>, Result<Route, PaymentError>) {
    if !merchant.active {
        (
            seq![failed_notice(request, merchant.settlement_asset, 0)],
            Err(PaymentError::MerchantInactive),
        )
    } else if request.send_asset == merchant.settlement_asset {
        (
            seq![initiated_notice(request, merchant.settlement_asset)],
            Ok(Route::Direct(direct_plan(request, merchant))),
        )
    } else {
        match merchant.fx_router {
            None => (
                seq![
                    initiated_notice(request, merchant.settlement_asset),
                    failed_notice(request, merchant.settlement_asset, 0),
                ],
                Err(PaymentError::FxRouterMissing),
            ),
            Some(exchange) => (
                seq![initiated_notice(request, merchant.settlement_asset)],
                Ok(Route::Fx(fx_plan(router, request, merchant, exchange))),
            ),
        }
    }
}

/// The order to credit `amount` to the merchant of a payment, after
/// `forward` has been carried out.
pub open spec fn credit_order(
    request: PaymentRequest,
    merchant: MerchantMetadata,
    forward: Option<Transfer>,
    amount: i128,
) -> CreditOrder {
    CreditOrder {
        request,
        forward,
        credit: Credit {
            vault: merchant.vault,
            merchant_id: request.merchant_id,
            asset: merchant.settlement_asset,
            amount,
            payer: request.from,
        },
    }
}

/// What a direct settlement comes to when the vault's balance went from
/// `before` to `after`: the settled amount is the difference.
pub open spec fn direct_outcome(plan: DirectSettlement, before: i128, after: i128) -> (
    Seq<PaymentNotice>,
    Result<CreditOrder, PaymentError>,
) {
    let received = after - before;
    if received <= 0 {
        (Seq::empty(), Err(PaymentError::FxSwapFailed))
    } else if received < plan.request.min_receive {
        (
            seq![failed_notice(plan.request, plan.merchant.settlement_asset, received as i128)],
            Err(PaymentError::SettlementBelowMin),
        )
    } else {
        (Seq::empty(), Ok(credit_order(plan.request, plan.merchant, None, received as i128)))
    }
}

/// What a converted settlement comes to when the exchange quoted `quoted`
/// and the router's balance went from `before` to `after`. The quote is only
/// a claim: the settled amount is the difference of the balances.
pub open spec fn fx_outcome(
    router: Address,
    plan: FxSettlement,
    before: i128,
    quoted: i128,
    after: i128,
) -> (Seq<PaymentNotice>, Result<CreditOrder, PaymentError>) {
    let received = after - before;
    if quoted < plan.request.min_receive {
        (
            seq![failed_notice(plan.request, plan.merchant.settlement_asset, quoted)],
            Err(PaymentError::SettlementBelowMin),
        )
    } else if received < plan.request.min_receive {
        (
            seq![failed_notice(plan.request, plan.merchant.settlement_asset, received as i128)],
            Err(
                if received <= 0 {
                    PaymentError::FxSwapFailed
                } else {
                    PaymentError::SettlementBelowMin
                },
            ),
        )
    } else {
        (
            Seq::empty(),
            Ok(
                credit_order(
                    plan.request,
                    plan.merchant,
                    Some(
                        Transfer {
                            asset: plan.merchant.settlement_asset,
                            from: router,
                            to: plan.merchant.vault,
                            amount: received as i128,
                        },
                    ),
                    received as i128,
                ),
            ),
        )
    }
}

/// What ends a payment that settled.
#[derive(Clone, Copy, Debug)]
pub struct Receipt {
    pub notice: PaymentNotice,
    pub settled_amount: i128,
}

/// What is amiss with the amounts of a request, if anything: the amount to
/// send is judged first.
pub open spec fn amounts_outcome(send_amount: i128, min_receive: i128) -> Result<(), PaymentError> {
    if send_amount <= 0 {
        Err(PaymentError::InvalidSendAmount)
    } else if min_receive <= 0 {
        Err(PaymentError::InvalidMinReceive)
    } else {
        Ok(())
    }
}

/// Judges the amounts of a request: both have to be positive. This is the
/// first thing that [`PaymentRouter::pay`] does, before it asks whether the
/// payer authorized the payment.
pub fn check_amounts(send_amount: i128, min_receive: i128) -> (r: Result<(), PaymentError>)
    ensures
        r == amounts_outcome(send_amount, min_receive),
{
    if send_amount <= 0 {
        return Err(PaymentError::InvalidSendAmount);
    }
    if min_receive <= 0 {
        return Err(PaymentError::InvalidMinReceive);
    }
    Ok(())
}

impl PaymentRouter {
    /// A router at `address` without a registry and with no payment in
    /// flight.
    pub fn new(address: Address) -> (r: Self)
        ensures
            r == (PaymentRouter { address, registry: None, locked: false }),
    {
        PaymentRouter { address, registry: None, locked: false }
    }

    /// Sets the registry. This can be done once.
    pub fn init(&mut self, registry: Address) -> (r: Result<(), PaymentError>)
        ensures
            old(self).registry is Some ==> {
                &&& r == Err::<(), PaymentError>(PaymentError::AlreadyInitialized)
                &&& *final(self) == *old(self)
            },
            old(self).registry is None ==> {
                &&& r == Ok::<(), PaymentError>(())
                &&& *final(self) == (PaymentRouter { registry: Some(registry), ..*old(self) })
            },
    {
        match self.registry {
            Some(_) => Err(PaymentError::AlreadyInitialized),
            None => {
                self.registry = Some(registry);
                Ok(())
            },
        }
    }

    /// The registry, if it has been set.
    pub fn get_registry(&self) -> (r: Result<Address, PaymentError>)
        ensures
            r == match self.registry {
                Some(registry) => Ok::<Address, PaymentError>(registry),
                None => Err(PaymentError::RegistryNotSet),
            },
    {
        self.registry_address()
    }

    /// Takes the reentrancy flag, unless a payment holds it.
    pub fn enter(&mut self) -> (r: Result<(), PaymentError>)
        ensures
            old(self).locked ==> r == Err::<(), PaymentError>(PaymentError::Reentrancy),
            !old(self).locked ==> r == Ok::<(), PaymentError>(()),
            *final(self) == (PaymentRouter { locked: true, ..*old(self) }),
    {
        if self.locked {
            Err(PaymentError::Reentrancy)
        } else {
            self.locked = true;
            Ok(())
        }
    }

    /// Releases the reentrancy flag. A host that gives a payment up between
    /// two stages calls this.
    pub fn leave(&mut self)
        ensures
            *final(self) == (PaymentRouter { locked: false, ..*old(self) }),
    {
        self.locked = false;
    }

    fn registry_address(&self) -> (r: Result<Address, PaymentError>)
        ensures
            r == match self.registry {
                Some(registry) => Ok::<Address, PaymentError>(registry),
                None => Err(PaymentError::RegistryNotSet),
            },
    {
        match self.registry {
            Some(registry) => Ok(registry),
            None => Err(PaymentError::RegistryNotSet),
        }
    }

    /// Opens a payment of `send_amount` of `send_asset` from `from` to the
    /// merchant `merchant_id`, who is to receive at least `min_receive`.
    ///
    /// An accepted payment holds the reentrancy flag until the stage that
    /// ends it. A refused one leaves the router as it was.
    pub fn pay(
        &mut self,
        auth: &Authorization,
        from: Address,
        merchant_id: Address,
        send_asset: Address,
        send_amount: i128,
        min_receive: i128,
    ) -> (r: Result<MerchantLookup, PaymentError>)
        ensures
            r == pay_outcome(
                *old(self),
                auth@,
                PaymentRequest { from, merchant_id, send_asset, send_amount, min_receive },
            ),
            *final(self) == (PaymentRouter { locked: old(self).locked || r is Ok, ..*old(self) }),
    {
        match check_amounts(send_amount, min_receive) {
            Err(e) => {
                return Err(e);
            },
            Ok(_) => {},
        }
        if !auth.allows(&from) {
            return Err(PaymentError::NotAuthorized);
        }
        match self.enter() {
            Err(e) => {
                return Err(e);
            },
            Ok(_) => {},
        }
        match self.registry_address() {
            Err(e) => {
                self.leave();
                Err(e)
            },
            Ok(registry) => Ok(
                MerchantLookup {
                    request: PaymentRequest {
                        from,
                        merchant_id,
                        send_asset,
                        send_amount,
                        min_receive,
                    },
                    registry,
                },
            ),
        }
    }

    /// Decides, from the merchant's metadata, how the payment is settled.
    ///
    /// A refusal ends the payment and releases the reentrancy flag.
    pub fn route(&mut self, lookup: MerchantLookup, merchant: MerchantMetadata) -> (r: Stage<Route>)
        ensures
            (r.notices@, r.next) == route_outcome(old(self).address, lookup.request, merchant),
            *final(self) == (PaymentRouter {
                locked: old(self).locked && r.next is Ok,
                ..*old(self)
            }),
    {
        let request = lookup.request;
        let settlement_asset = merchant.settlement_asset;
        let mut notices: Vec<PaymentNotice> = Vec::new();
        if !merchant.active {
            notices.push(emit_failed(&request, settlement_asset, 0));
            self.leave();
            return Stage { notices, next: Err(PaymentError::MerchantInactive) };
        }
        notices.push(emit_initiated(&request, settlement_asset));
        if request.send_asset == settlement_asset {
            let plan = DirectSettlement {
                request,
                merchant,
                watch: BalanceQuery { asset: settlement_asset, holder: merchant.vault },
                transfer: Transfer {
                    asset: settlement_asset,
                    from: request.from,
                    to: merchant.vault,
                    amount: request.send_amount,
                },
            };
            return Stage { notices, next: Ok(Route::Direct(plan)) };
        }
        match merchant.fx_router {
            None => {
                notices.push(emit_failed(&request, settlement_asset, 0));
                self.leave();
                Stage { notices, next: Err(PaymentError::FxRouterMissing) }
            },
            Some(exchange) => {
                let plan = FxSettlement {
                    request,
                    merchant,
                    funding: Transfer {
                        asset: request.send_asset,
                        from: request.from,
                        to: exchange,
                        amount: request.send_amount,
                    },
                    watch: BalanceQuery { asset: settlement_asset, holder: self.address },
                    swap: Swap {
                        router: exchange,
                        recipient: self.address,
                        send_asset: request.send_asset,
                        send_amount: request.send_amount,
                        dest_asset: settlement_asset,
                        min_receive: request.min_receive,
                    },
                };
                Stage { notices, next: Ok(Route::Fx(plan)) }
            },
        }
    }

    /// Settles a direct payment from the vault's balance as it was read
    /// before and after the transfer.
    ///
    /// A refusal ends the payment and releases the reentrancy flag.
    pub fn settle_direct(&mut self, plan: DirectSettlement, before: i128, after: i128) -> (r: Stage<
        CreditOrder,
    >)
        requires
            i128::MIN <= after - before <= i128::MAX,
        ensures
            (r.notices@, r.next) == direct_outcome(plan, before, after),
            *final(self) == (PaymentRouter {
                locked: old(self).locked && r.next is Ok,
                ..*old(self)
            }),
    {
        let request = plan.request;
        let merchant = plan.merchant;
        let mut notices: Vec<PaymentNotice> = Vec::new();
        let received: i128 = after - before;
        if received <= 0 {
            self.leave();
            return Stage { notices, next: Err(PaymentError::FxSwapFailed) };
        }
        if received < request.min_receive {
            notices.push(emit_failed(&request, merchant.settlement_asset, received));
            self.leave();
            return Stage { notices, next: Err(PaymentError::SettlementBelowMin) };
        }
        Stage {
            notices,
            next: Ok(
                CreditOrder {
                    request,
                    forward: None,
                    credit: Credit {
                        vault: merchant.vault,
                        merchant_id: request.merchant_id,
                        asset: merchant.settlement_asset,
                        amount: received,
                        payer: request.from,
                    },
                },
            ),
        }
    }

    /// Settles a converted payment from the exchange's quote and the
    /// router's own balance as it was read before and after the swap.
    ///
    /// A refusal ends the payment and releases the reentrancy flag.
    pub fn settle_with_fx(
        &mut self,
        plan: FxSettlement,
        before: i128,
        quoted: i128,
        after: i128,
    ) -> (r: Stage<CreditOrder>)
        requires
            quoted >= plan.request.min_receive ==> i128::MIN <= after - before <= i128::MAX,
        ensures
            (r.notices@, r.next) == fx_outcome(old(self).address, plan, before, quoted, after),
            *final(self) == (PaymentRouter {
                locked: old(self).locked && r.next is Ok,
                ..*old(self)
            }),
    {
        let request = plan.request;
        let merchant = plan.merchant;
        let mut notices: Vec<PaymentNotice> = Vec::new();
        if quoted < request.min_receive {
            notices.push(emit_failed(&request, merchant.settlement_asset, quoted));
            self.leave();
            return Stage { notices, next: Err(PaymentError::SettlementBelowMin) };
        }
        let received: i128 = after - before;
        if received < request.min_receive {
            notices.push(emit_failed(&request, merchant.settlement_asset, received));
            self.leave();
            let error = if received <= 0 {
                PaymentError::FxSwapFailed
            } else {
                PaymentError::SettlementBelowMin
            };
            return Stage { notices, next: Err(error) };
        }
        Stage {
            notices,
            next: Ok(
                CreditOrder {
                    request,
                    forward: Some(
                        Transfer {
                            asset: merchant.settlement_asset,
                            from: self.address,
                            to: merchant.vault,
                            amount: received,
                        },
                    ),
                    credit: Credit {
                        vault: merchant.vault,
                        merchant_id: request.merchant_id,
                        asset: merchant.settlement_asset,
                        amount: received,
                        payer: request.from,
                    },
                },
            ),
        }
    }

    /// Ends a payment whose credit the vault has accepted: releases the
    /// reentrancy flag and reports the settled amount.
    pub fn complete(&mut self, order: CreditOrder) -> (r: Receipt)
        ensures
            r.settled_amount == order.credit.amount,
            r.notice == settled_notice(order.request, order.credit.asset, order.credit.amount),
            *final(self) == (PaymentRouter { locked: false, ..*old(self) }),
    {
        let notice = emit_settled(&order.request, order.credit.asset, order.credit.amount);
        self.leave();
        Receipt { notice, settled_amount: order.credit.amount }
    }
}

} // verus!
