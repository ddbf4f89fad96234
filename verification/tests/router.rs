use std::collections::HashMap;

use zaps::address::Address;
use zaps::asset::{BalanceQuery, Transfer};
use zaps::authorization::Authorization;
use zaps::router::{
    emit_failed, emit_initiated, emit_settled, CreditOrder, MerchantMetadata, PaymentError,
    PaymentEventKind, PaymentNotice, PaymentRequest, PaymentRouter, Route,
};
use zaps::vault::MerchantVault;

fn address(tag: u8) -> Address {
    Address::from_array([tag; 32])
}

const ROUTER: u8 = 100;
const REGISTRY: u8 = 101;
const VAULT: u8 = 102;
const EXCHANGE: u8 = 103;
const PAYER: u8 = 1;
const MERCHANT: u8 = 2;
const ASSET_X: u8 = 10;
const ASSET_Y: u8 = 11;

/// A host for the router: asset ledgers in which a transfer either moves
/// what it says or aborts, an exchange with a fixed rate, and a merchant
/// vault.
struct Host {
    balances: HashMap<([u8; 32], [u8; 32]), i128>,
    /// What the exchange pays out for one hundred units sent.
    exchange_rate_percent: i128,
    /// What the exchange claims on top of what it pays out.
    exchange_overstates_by: i128,
    vault: MerchantVault,
    notices: Vec<PaymentNotice>,
}

impl Host {
    fn new() -> Host {
        let mut vault = MerchantVault::new();
        let admin = address(250);
        let payout = address(251);
        let auth = Authorization::signed_by(admin);
        vault.initialize(&auth, admin, address(ROUTER), payout).unwrap();
        vault.init_merchant(&auth, address(MERCHANT)).unwrap();
        Host {
            balances: HashMap::new(),
            exchange_rate_percent: 100,
            exchange_overstates_by: 0,
            vault,
            notices: Vec::new(),
        }
    }

    fn mint(&mut self, asset: Address, holder: Address, amount: i128) {
        *self.balances.entry((asset.id.to_array(), holder.id.to_array())).or_insert(0) += amount;
    }

    fn balance(&self, query: &BalanceQuery) -> i128 {
        self.balance_of(query.asset, query.holder)
    }

    fn balance_of(&self, asset: Address, holder: Address) -> i128 {
        *self.balances.get(&(asset.id.to_array(), holder.id.to_array())).unwrap_or(&0)
    }

    fn transfer(&mut self, transfer: &Transfer) {
        assert!(self.balance_of(transfer.asset, transfer.from) >= transfer.amount);
        self.mint(transfer.asset, transfer.from, -transfer.amount);
        self.mint(transfer.asset, transfer.to, transfer.amount);
    }

    fn credit(&mut self, order: &CreditOrder) -> i128 {
        let auth = Authorization::signed_by(address(ROUTER));
        let credited =
            self.vault.credit(&auth, order.credit.merchant_id, order.credit.amount).unwrap();
        credited.resulting_balance
    }

    /// Runs one payment through every stage, as a host does.
    fn pay(
        &mut self,
        router: &mut PaymentRouter,
        merchant: MerchantMetadata,
        send_asset: Address,
        send_amount: i128,
        min_receive: i128,
    ) -> Result<i128, PaymentError> {
        let payer = address(PAYER);
        let auth = Authorization::signed_by(payer);
        let lookup =
            router.pay(&auth, payer, address(MERCHANT), send_asset, send_amount, min_receive)?;
        assert_eq!(lookup.registry, address(REGISTRY));
        assert!(router.locked);
        let routed = router.route(lookup, merchant);
        self.notices.extend(routed.notices);
        let settled = match routed.next? {
            Route::Direct(plan) => {
                let before = self.balance(&plan.watch);
                self.transfer(&plan.transfer);
                let after = self.balance(&plan.watch);
                router.settle_direct(plan, before, after)
            }
            Route::Fx(plan) => {
                self.transfer(&plan.funding);
                let before = self.balance(&plan.watch);
                let paid_out = plan.swap.send_amount * self.exchange_rate_percent / 100;
                self.mint(plan.swap.dest_asset, plan.swap.recipient, paid_out);
                let quoted = paid_out + self.exchange_overstates_by;
                let after = self.balance(&plan.watch);
                router.settle_with_fx(plan, before, quoted, after)
            }
        };
        self.notices.extend(settled.notices);
        let order = settled.next?;
        assert!(router.locked);
        if let Some(forward) = &order.forward {
            self.transfer(forward);
        }
        self.credit(&order);
        let receipt = router.complete(order);
        self.notices.push(receipt.notice);
        Ok(receipt.settled_amount)
    }
}

fn router() -> PaymentRouter {
    let mut router = PaymentRouter::new(address(ROUTER));
    router.init(address(REGISTRY)).unwrap();
    router
}

fn merchant_in(asset: u8) -> MerchantMetadata {
    MerchantMetadata {
        settlement_asset: address(asset),
        vault: address(VAULT),
        active: true,
        fx_router: Some(address(EXCHANGE)),
    }
}

#[test]
fn a_payment_in_the_settlement_asset_settles_directly() {
    let mut host = Host::new();
    let mut router = router();
    host.mint(address(ASSET_X), address(PAYER), 100);

    let settled = host.pay(&mut router, merchant_in(ASSET_X), address(ASSET_X), 100, 100);

    assert_eq!(settled, Ok(100));
    assert_eq!(host.vault.balance_of(address(MERCHANT)), Ok(100));
    assert_eq!(host.balance_of(address(ASSET_X), address(VAULT)), 100);
    assert_eq!(host.balance_of(address(ASSET_X), address(PAYER)), 0);
    assert!(!router.locked);
    let kinds: Vec<PaymentEventKind> = host.notices.iter().map(|n| n.kind).collect();
    assert_eq!(kinds, vec![PaymentEventKind::Initiated, PaymentEventKind::Settled]);
    let last = host.notices[1].event;
    assert_eq!(last.payer, address(PAYER));
    assert_eq!(last.merchant_id, address(MERCHANT));
    assert_eq!(last.send_asset, address(ASSET_X));
    assert_eq!(last.send_amount, 100);
    assert_eq!(last.settlement_asset, address(ASSET_X));
    assert_eq!(last.settled_amount, 100);
    assert_eq!(host.notices[0].event.settled_amount, 0);
}

#[test]
fn a_payment_to_an_inactive_merchant_is_refused_without_credit() {
    let mut host = Host::new();
    let mut router = router();
    host.mint(address(ASSET_X), address(PAYER), 100);
    let mut merchant = merchant_in(ASSET_X);
    merchant.active = false;

    let settled = host.pay(&mut router, merchant, address(ASSET_X), 100, 100);

    assert_eq!(settled, Err(PaymentError::MerchantInactive));
    assert_eq!(host.vault.balance_of(address(MERCHANT)), Ok(0));
    assert_eq!(host.balance_of(address(ASSET_X), address(PAYER)), 100);
    assert!(!router.locked);
    assert_eq!(host.notices.len(), 1);
    assert_eq!(host.notices[0].kind, PaymentEventKind::Failed);
    assert_eq!(host.notices[0].event.settled_amount, 0);
}

#[test]
fn a_payment_in_another_asset_is_converted_and_forwarded() {
    let mut host = Host::new();
    let mut router = router();
    host.exchange_rate_percent = 90;
    host.mint(address(ASSET_Y), address(PAYER), 200);

    let settled = host.pay(&mut router, merchant_in(ASSET_X), address(ASSET_Y), 200, 150);

    assert_eq!(settled, Ok(180));
    assert_eq!(host.vault.balance_of(address(MERCHANT)), Ok(180));
    assert_eq!(host.balance_of(address(ASSET_X), address(VAULT)), 180);
    assert_eq!(host.balance_of(address(ASSET_X), address(ROUTER)), 0);
    assert_eq!(host.balance_of(address(ASSET_Y), address(EXCHANGE)), 200);
    assert!(!router.locked);
}

#[test]
fn the_settled_amount_is_what_arrived_not_what_was_quoted() {
    let mut host = Host::new();
    let mut router = router();
    host.exchange_rate_percent = 90;
    host.exchange_overstates_by = 1_000;
    host.mint(address(ASSET_Y), address(PAYER), 200);

    let settled = host.pay(&mut router, merchant_in(ASSET_X), address(ASSET_Y), 200, 150);
    assert_eq!(settled, Ok(180));
}

#[test]
fn a_quote_below_the_floor_fails_the_payment() {
    let mut host = Host::new();
    let mut router = router();
    host.exchange_rate_percent = 50;
    host.mint(address(ASSET_Y), address(PAYER), 200);

    let settled = host.pay(&mut router, merchant_in(ASSET_X), address(ASSET_Y), 200, 150);

    assert_eq!(settled, Err(PaymentError::SettlementBelowMin));
    assert_eq!(host.vault.balance_of(address(MERCHANT)), Ok(0));
    assert!(!router.locked);
    let last = host.notices.last().unwrap();
    assert_eq!(last.kind, PaymentEventKind::Failed);
    assert_eq!(last.event.settled_amount, 100);
}

#[test]
fn a_swap_that_delivers_less_than_the_floor_fails_the_payment() {
    let mut host = Host::new();
    let mut router = router();
    host.exchange_rate_percent = 50;
    host.exchange_overstates_by = 100;
    host.mint(address(ASSET_Y), address(PAYER), 200);

    let settled = host.pay(&mut router, merchant_in(ASSET_X), address(ASSET_Y), 200, 150);
    assert_eq!(settled, Err(PaymentError::SettlementBelowMin));
    assert_eq!(host.notices.last().unwrap().event.settled_amount, 100);
    assert!(!router.locked);
}

#[test]
fn a_swap_that_delivers_nothing_fails_as_a_failed_swap() {
    let mut host = Host::new();
    let mut router = router();
    host.exchange_rate_percent = 0;
    host.exchange_overstates_by = 500;
    host.mint(address(ASSET_Y), address(PAYER), 200);

    let settled = host.pay(&mut router, merchant_in(ASSET_X), address(ASSET_Y), 200, 150);
    assert_eq!(settled, Err(PaymentError::FxSwapFailed));
    assert_eq!(host.notices.last().unwrap().event.settled_amount, 0);
    assert_eq!(host.vault.balance_of(address(MERCHANT)), Ok(0));
    assert!(!router.locked);
}

#[test]
fn a_merchant_without_an_exchange_cannot_be_paid_in_another_asset() {
    let mut host = Host::new();
    let mut router = router();
    host.mint(address(ASSET_Y), address(PAYER), 200);
    let mut merchant = merchant_in(ASSET_X);
    merchant.fx_router = None;

    let settled = host.pay(&mut router, merchant, address(ASSET_Y), 200, 150);

    assert_eq!(settled, Err(PaymentError::FxRouterMissing));
    assert_eq!(host.balance_of(address(ASSET_Y), address(PAYER)), 200);
    assert!(!router.locked);
    let kinds: Vec<PaymentEventKind> = host.notices.iter().map(|n| n.kind).collect();
    assert_eq!(kinds, vec![PaymentEventKind::Initiated, PaymentEventKind::Failed]);
}

#[test]
fn amounts_that_are_not_positive_are_refused() {
    let mut router = router();
    let payer = address(PAYER);
    let auth = Authorization::signed_by(payer);
    let m = address(MERCHANT);
    let x = address(ASSET_X);

    assert_eq!(router.pay(&auth, payer, m, x, 0, 100).unwrap_err(), PaymentError::InvalidSendAmount);
    assert_eq!(router.pay(&auth, payer, m, x, -5, 100).unwrap_err(), PaymentError::InvalidSendAmount);
    assert_eq!(router.pay(&auth, payer, m, x, 0, 0).unwrap_err(), PaymentError::InvalidSendAmount);
    assert_eq!(router.pay(&auth, payer, m, x, 100, 0).unwrap_err(), PaymentError::InvalidMinReceive);
    assert_eq!(router.pay(&auth, payer, m, x, 100, -1).unwrap_err(), PaymentError::InvalidMinReceive);
    assert!(!router.locked);
}

#[test]
fn a_payment_needs_the_payers_authorization() {
    let mut router = router();
    let payer = address(PAYER);
    let auth = Authorization::signed_by(address(MERCHANT));
    let result = router.pay(&auth, payer, address(MERCHANT), address(ASSET_X), 100, 100);
    assert_eq!(result.unwrap_err(), PaymentError::NotAuthorized);
    assert!(!router.locked);
}

#[test]
fn a_second_payment_during_a_payment_is_refused() {
    let mut router = router();
    let payer = address(PAYER);
    let auth = Authorization::signed_by(payer);
    let m = address(MERCHANT);
    let x = address(ASSET_X);

    let lookup = router.pay(&auth, payer, m, x, 100, 100).unwrap();
    assert!(router.locked);
    assert_eq!(router.pay(&auth, payer, m, x, 100, 100).unwrap_err(), PaymentError::Reentrancy);
    assert!(router.locked);

    // The first payment goes on, and once it has ended the router is free.
    let routed = router.route(lookup, merchant_in(ASSET_X));
    let plan = match routed.next.unwrap() {
        Route::Direct(plan) => plan,
        Route::Fx(_) => panic!("a payment in the settlement asset is direct"),
    };
    let order = router.settle_direct(plan, 40, 140).next.unwrap();
    assert_eq!(router.pay(&auth, payer, m, x, 100, 100).unwrap_err(), PaymentError::Reentrancy);
    let receipt = router.complete(order);
    assert_eq!(receipt.settled_amount, 100);
    assert!(!router.locked);
    assert!(router.pay(&auth, payer, m, x, 100, 100).is_ok());
}

#[test]
fn a_router_without_a_registry_accepts_no_payment() {
    let mut router = PaymentRouter::new(address(ROUTER));
    let payer = address(PAYER);
    let auth = Authorization::signed_by(payer);
    let result = router.pay(&auth, payer, address(MERCHANT), address(ASSET_X), 100, 100);
    assert_eq!(result.unwrap_err(), PaymentError::RegistryNotSet);
    assert!(!router.locked);
    assert_eq!(router.get_registry(), Err(PaymentError::RegistryNotSet));
}

#[test]
fn the_registry_is_set_once() {
    let mut router = PaymentRouter::new(address(ROUTER));
    assert_eq!(router.init(address(REGISTRY)), Ok(()));
    assert_eq!(router.init(address(EXCHANGE)), Err(PaymentError::AlreadyInitialized));
    assert_eq!(router.get_registry().unwrap(), address(REGISTRY));
    assert_eq!(router.address, address(ROUTER));
}

#[test]
fn enter_and_leave_take_and_release_the_flag() {
    let mut router = router();
    assert_eq!(router.enter(), Ok(()));
    assert!(router.locked);
    assert_eq!(router.enter(), Err(PaymentError::Reentrancy));
    assert!(router.locked);
    router.leave();
    assert!(!router.locked);
    router.leave();
    assert!(!router.locked);
    assert_eq!(router.enter(), Ok(()));
}

#[test]
fn a_direct_transfer_that_adds_nothing_fails_as_a_failed_swap() {
    let mut router = router();
    let payer = address(PAYER);
    let auth = Authorization::signed_by(payer);
    let x = address(ASSET_X);

    for (before, after) in [(50, 50), (50, 49), (0, i128::MIN + 1)] {
        let lookup = router.pay(&auth, payer, address(MERCHANT), x, 100, 100).unwrap();
        let plan = match router.route(lookup, merchant_in(ASSET_X)).next.unwrap() {
            Route::Direct(plan) => plan,
            Route::Fx(_) => panic!("a payment in the settlement asset is direct"),
        };
        let stage = router.settle_direct(plan, before, after);
        assert_eq!(stage.next.unwrap_err(), PaymentError::FxSwapFailed);
        assert!(stage.notices.is_empty());
        assert!(!router.locked);
    }
}

#[test]
fn a_direct_transfer_that_adds_less_than_the_floor_fails() {
    let mut router = router();
    let payer = address(PAYER);
    let auth = Authorization::signed_by(payer);
    let x = address(ASSET_X);

    // An asset that keeps a fee of one in a hundred.
    let lookup = router.pay(&auth, payer, address(MERCHANT), x, 100, 100).unwrap();
    let plan = match router.route(lookup, merchant_in(ASSET_X)).next.unwrap() {
        Route::Direct(plan) => plan,
        Route::Fx(_) => panic!("a payment in the settlement asset is direct"),
    };
    assert_eq!(plan.transfer.amount, 100);
    assert_eq!(plan.transfer.from, payer);
    assert_eq!(plan.transfer.to, address(VAULT));
    assert_eq!(plan.watch.holder, address(VAULT));
    assert_eq!(plan.watch.asset, x);
    let stage = router.settle_direct(plan, 1_000, 1_099);
    assert_eq!(stage.next.unwrap_err(), PaymentError::SettlementBelowMin);
    assert_eq!(stage.notices.len(), 1);
    assert_eq!(stage.notices[0].kind, PaymentEventKind::Failed);
    assert_eq!(stage.notices[0].event.settled_amount, 99);
    assert!(!router.locked);
}

#[test]
fn the_exchange_is_asked_to_deliver_to_the_router() {
    let mut router = router();
    let payer = address(PAYER);
    let auth = Authorization::signed_by(payer);
    let lookup =
        router.pay(&auth, payer, address(MERCHANT), address(ASSET_Y), 200, 150).unwrap();
    let plan = match router.route(lookup, merchant_in(ASSET_X)).next.unwrap() {
        Route::Fx(plan) => plan,
        Route::Direct(_) => panic!("a payment in another asset is converted"),
    };
    assert_eq!(plan.funding.asset, address(ASSET_Y));
    assert_eq!(plan.funding.from, payer);
    assert_eq!(plan.funding.to, address(EXCHANGE));
    assert_eq!(plan.funding.amount, 200);
    assert_eq!(plan.watch.asset, address(ASSET_X));
    assert_eq!(plan.watch.holder, address(ROUTER));
    assert_eq!(plan.swap.router, address(EXCHANGE));
    assert_eq!(plan.swap.recipient, address(ROUTER));
    assert_eq!(plan.swap.send_asset, address(ASSET_Y));
    assert_eq!(plan.swap.send_amount, 200);
    assert_eq!(plan.swap.dest_asset, address(ASSET_X));
    assert_eq!(plan.swap.min_receive, 150);

    let order = router.settle_with_fx(plan, 7, 150, 157).next.unwrap();
    let forward = order.forward.unwrap();
    assert_eq!(forward.asset, address(ASSET_X));
    assert_eq!(forward.from, address(ROUTER));
    assert_eq!(forward.to, address(VAULT));
    assert_eq!(forward.amount, 150);
    assert_eq!(order.credit.vault, address(VAULT));
    assert_eq!(order.credit.merchant_id, address(MERCHANT));
    assert_eq!(order.credit.asset, address(ASSET_X));
    assert_eq!(order.credit.amount, 150);
    assert_eq!(order.credit.payer, payer);
}

#[test]
fn notices_carry_the_request() {
    let request = PaymentRequest {
        from: address(PAYER),
        merchant_id: address(MERCHANT),
        send_asset: address(ASSET_Y),
        send_amount: 200,
        min_receive: 150,
    };
    let initiated = emit_initiated(&request, address(ASSET_X));
    assert_eq!(initiated.kind, PaymentEventKind::Initiated);
    assert_eq!(initiated.event.settled_amount, 0);
    assert_eq!(initiated.event.send_amount, 200);
    let settled = emit_settled(&request, address(ASSET_X), 180);
    assert_eq!(settled.kind, PaymentEventKind::Settled);
    assert_eq!(settled.event.settled_amount, 180);
    assert_eq!(settled.event.settlement_asset, address(ASSET_X));
    let failed = emit_failed(&request, address(ASSET_X), 3);
    assert_eq!(failed.kind, PaymentEventKind::Failed);
    assert_eq!(failed.event.settled_amount, 3);
    assert_eq!(failed.event.payer, address(PAYER));
    assert_eq!(failed.event.merchant_id, address(MERCHANT));
    assert_eq!(failed.event.send_asset, address(ASSET_Y));
}
