//! The escrow manager: funds held for one buyer and one seller until they
//! are released to the seller or refunded to the buyer.

use vstd::prelude::*;
use crate::address::{Address, BytesN};
use crate::asset::Transfer;
use crate::authorization::Authorization;
use crate::table::Table;

verus! {

/// How long after its creation an escrow may be refunded by anyone: seven
/// days, in seconds.
pub const REFUND_TIMEOUT: u64 = 604800;

/// Where an escrow stands. `Locked` is the only state that can be left.
#[derive(Clone, Copy, Debug, PartialEq, Eq, Structural)]
pub enum EscrowState {
    Locked,
    Released,
    Refunded,
    /// Reserved for the resolution of disputes; no operation reaches it.
    Disputed,
}

/// Why the escrow manager refused an operation.
#[derive(Clone, Copy, Debug, PartialEq, Eq, Structural)]
pub enum EscrowError {
    NotAuthorized,
    AlreadyLocked,
    NotLocked,
    AlreadyFinalized,
    InvalidAmount,
    InvalidState,
    InvalidArbitrator,
    TimeoutNotReached,
}

/// The record of one escrow.
#[derive(Clone, Copy, Debug)]
pub struct Escrow {
    pub buyer: Address,
    pub seller: Address,
    pub arbitrator: Option<Address>,
    pub token: Address,
    pub amount: i128,
    pub state: EscrowState,
    pub memo: BytesN<32>,
    pub created_at: u64,
}

/// What an escrow event reports.
#[derive(Clone, Copy, Debug, PartialEq, Eq, Structural)]
pub enum EscrowEventKind {
    Locked,
    Released,
    Refunded,
}

/// Reports a change of an escrow: who caused it, who is on the other side of
/// the movement of funds, and how much was moved.
#[derive(Clone, Copy, Debug)]
pub struct EscrowEvent {
    pub kind: EscrowEventKind,
    pub escrow_id: BytesN<32>,
    pub actor: Address,
    pub party: Address,
    pub amount: i128,
}

/// What the host has to do for an operation that was accepted: move the
/// funds, then publish the event.
#[derive(Clone, Copy, Debug)]
pub struct EscrowReceipt {
    pub transfer: Transfer,
    pub event: EscrowEvent,
}

/// The escrow manager as a mathematical value.
pub struct EscrowLedger {
    /// The address under which the manager holds the locked funds.
    pub address: Address,
    /// Every escrow that was ever created, by its id.
    pub escrows: Map<BytesN<32>, Escrow>,
}

/// The escrow manager.
pub struct EscrowContract {
    address: Address,
    escrows: Table<Escrow>,
}

impl View for EscrowContract {
    type V = EscrowLedger;

    closed spec fn view(&self) -> EscrowLedger {
        EscrowLedger { address: self.address, escrows: self.escrows@ }
    }
}

/// Whether an escrow created at `created_at` may be refunded by anyone at
/// the time `now`.
pub open spec fn timed_out(created_at: u64, now: u64) -> bool {
    now >= created_at + REFUND_TIMEOUT
}

/// Whether `caller` is the arbitrator of the escrow.
pub open spec fn is_arbitrator(escrow: Escrow, caller: Address) -> bool {
    escrow.arbitrator == Some(caller)
}

/// The record that `lock_funds` creates.
pub open spec fn locked_escrow(
    buyer: Address,
    seller: Address,
    token: Address,
    amount: i128,
    memo: BytesN<32>,
    now: u64,
) -> Escrow {
    Escrow {
        buyer,
        seller,
        arbitrator: None,
        token,
        amount,
        state: EscrowState::Locked,
        memo,
        created_at: now,
    }
}

/// What `lock_funds` answers.
pub open spec fn lock_outcome(
    pre: EscrowLedger,
    signers: Set<Address>,
    escrow_id: BytesN<32>,
    buyer: Address,
    seller: Address,
    token: Address,
    amount: i128,
) -> Result<EscrowReceipt, EscrowError> {
    if !signers.contains(buyer) {
        Err(EscrowError::NotAuthorized)
    } else if amount <= 0 {
        Err(EscrowError::InvalidAmount)
    } else if pre.escrows.contains_key(escrow_id) {
        Err(EscrowError::AlreadyLocked)
    } else {
        Ok(
            EscrowReceipt {
                transfer: Transfer { asset: token, from: buyer, to: pre.address, amount },
                event: EscrowEvent {
                    kind: EscrowEventKind::Locked,
                    escrow_id,
                    actor: buyer,
                    party: seller,
                    amount,
                },
            },
        )
    }
}

/// The escrow manager after `lock_funds`.
pub open spec fn lock_state(
    pre: EscrowLedger,
    signers: Set<Address>,
    escrow_id: BytesN<32>,
    buyer: Address,
    seller: Address,
    token: Address,
    amount: i128,
    memo: BytesN<32>,
    now: u64,
) -> EscrowLedger {
    if lock_outcome(pre, signers, escrow_id, buyer, seller, token, amount) is Ok {
        EscrowLedger {
            escrows: pre.escrows.insert(
                escrow_id,
                locked_escrow(buyer, seller, token, amount, memo, now),
            ),
            ..pre
        }
    } else {
        pre
    }
}

/// What `release_funds` answers.
pub open spec fn release_outcome(
    pre: EscrowLedger,
    signers: Set<Address>,
    escrow_id: BytesN<32>,
    caller: Address,
) -> Result<EscrowReceipt, EscrowError> {
    if !signers.contains(caller) {
        Err(EscrowError::NotAuthorized)
    } else if !pre.escrows.contains_key(escrow_id) {
        Err(EscrowError::NotLocked)
    } else {
        let escrow = pre.escrows[escrow_id];
        if escrow.state != EscrowState::Locked {
            Err(EscrowError::InvalidState)
        } else if caller != escrow.seller && !is_arbitrator(escrow, caller) {
            Err(EscrowError::NotAuthorized)
        } else {
            Ok(
                EscrowReceipt {
                    transfer: Transfer {
                        asset: escrow.token,
                        from: pre.address,
                        to: escrow.seller,
                        amount: escrow.amount,
                    },
                    event: EscrowEvent {
                        kind: EscrowEventKind::Released,
                        escrow_id,
                        actor: caller,
                        party: escrow.seller,
                        amount: escrow.amount,
                    },
                },
            )
        }
    }
}

/// The escrow manager after `release_funds`.
pub open spec fn release_state(
    pre: EscrowLedger,
    signers: Set<Address>,
    escrow_id: BytesN<32>,
    caller: Address,
) -> EscrowLedger {
    if release_outcome(pre, signers, escrow_id, caller) is Ok {
        EscrowLedger {
            escrows: pre.escrows.insert(
                escrow_id,
                Escrow { state: EscrowState::Released, ..pre.escrows[escrow_id] },
            ),
            ..pre
        }
    } else {
        pre
    }
}

/// What `refund_funds` answers at the time `now`.
///
/// Two grounds are enough, each alone: the caller is the buyer or the
/// arbitrator, or the timeout has passed. On the second ground any caller
/// may trigger the refund; the funds go to the buyer either way.
pub open spec fn refund_outcome(
    pre: EscrowLedger,
    signers: Set<Address>,
    escrow_id: BytesN<32>,
    caller: Address,
    now: u64,
) -> Result<EscrowReceipt, EscrowError> {
    if !signers.contains(caller) {
        Err(EscrowError::NotAuthorized)
    } else if !pre.escrows.contains_key(escrow_id) {
        Err(EscrowError::NotLocked)
    } else {
        let escrow = pre.escrows[escrow_id];
        if escrow.state != EscrowState::Locked {
            Err(EscrowError::InvalidState)
        } else if caller != escrow.buyer && !is_arbitrator(escrow, caller) && !timed_out(
            escrow.created_at,
            now,
        ) {
            Err(EscrowError::NotAuthorized)
        } else {
            Ok(
                EscrowReceipt {
                    transfer: Transfer {
                        asset: escrow.token,
                        from: pre.address,
                        to: escrow.buyer,
                        amount: escrow.amount,
                    },
                    event: EscrowEvent {
                        kind: EscrowEventKind::Refunded,
                        escrow_id,
                        actor: caller,
                        party: escrow.buyer,
                        amount: escrow.amount,
                    },
                },
            )
        }
    }
}

/// The escrow manager after `refund_funds`.
pub open spec fn refund_state(
    pre: EscrowLedger,
    signers: Set<Address>,
    escrow_id: BytesN<32>,
    caller: Address,
    now: u64,
) -> EscrowLedger {
    if refund_outcome(pre, signers, escrow_id, caller, now) is Ok {
        EscrowLedger {
            escrows: pre.escrows.insert(
                escrow_id,
                Escrow { state: EscrowState::Refunded, ..pre.escrows[escrow_id] },
            ),
            ..pre
        }
    } else {
        pre
    }
}

/// What `get_escrow` answers.
pub open spec fn get_outcome(pre: EscrowLedger, escrow_id: BytesN<32>) -> Result<
    Escrow,
    EscrowError,
> {
    if pre.escrows.contains_key(escrow_id) {
        Ok(pre.escrows[escrow_id])
    } else {
        Err(EscrowError::NotLocked)
    }
}

/// Whether the escrow exists and is locked.
pub open spec fn locked(pre: EscrowLedger, escrow_id: BytesN<32>) -> bool {
    pre.escrows.contains_key(escrow_id) && pre.escrows[escrow_id].state == EscrowState::Locked
}

fn has_timed_out(created_at: u64, now: u64) -> (r: bool)
    ensures
        r == timed_out(created_at, now),
{
    now >= created_at && now - created_at >= REFUND_TIMEOUT
}

fn arbitrates(escrow: &Escrow, caller: &Address) -> (r: bool)
    ensures
        r == is_arbitrator(*escrow, *caller),
{
    match escrow.arbitrator {
        Some(arbitrator) => arbitrator == *caller,
        None => false,
    }
}

impl EscrowContract {
    /// An escrow manager that holds funds under `address` and has no escrow
    /// yet.
    pub fn new(address: Address) -> (r: Self)
        ensures
            r@ == (EscrowLedger { address, escrows: Map::empty() }),
    {
        EscrowContract { address, escrows: Table::new() }
    }

    /// The address under which the manager holds the locked funds.
    pub fn address(&self) -> (r: Address)
        ensures
            r == self@.address,
    {
        self.address
    }

    /// Puts back a record that the host had persisted.
    pub fn restore(&mut self, escrow_id: BytesN<32>, escrow: Escrow)
        ensures
            final(self)@ == (EscrowLedger {
                escrows: old(self)@.escrows.insert(escrow_id, escrow),
                ..old(self)@
            }),
    {
        self.escrows.insert(escrow_id, escrow);
    }

    /// Locks `amount` of `token` from `buyer` for `seller` under a new
    /// `escrow_id`, at the time `now`. The buyer must have authorized it.
    ///
    /// `_timeout_ledger` is accepted and not used: the timeout is
    /// [`REFUND_TIMEOUT`] for every escrow.
    pub fn lock_funds(
        &mut self,
        auth: &Authorization,
        escrow_id: BytesN<32>,
        buyer: Address,
        seller: Address,
        token: Address,
        amount: i128,
        _timeout_ledger: u32,
        memo: BytesN<32>,
        now: u64,
    ) -> (r: Result<EscrowReceipt, EscrowError>)
        ensures
            r == lock_outcome(old(self)@, auth@, escrow_id, buyer, seller, token, amount),
            final(self)@ == lock_state(
                old(self)@,
                auth@,
                escrow_id,
                buyer,
                seller,
                token,
                amount,
                memo,
                now,
            ),
    {
        if !auth.allows(&buyer) {
            return Err(EscrowError::NotAuthorized);
        }
        if amount <= 0 {
            return Err(EscrowError::InvalidAmount);
        }
        if self.escrows.contains_key(&escrow_id) {
            return Err(EscrowError::AlreadyLocked);
        }
        let escrow = Escrow {
            buyer,
            seller,
            arbitrator: None,
            token,
            amount,
            state: EscrowState::Locked,
            memo,
            created_at: now,
        };
        self.escrows.insert(escrow_id, escrow);
        Ok(
            EscrowReceipt {
                transfer: Transfer { asset: token, from: buyer, to: self.address, amount },
                event: EscrowEvent {
                    kind: EscrowEventKind::Locked,
                    escrow_id,
                    actor: buyer,
                    party: seller,
                    amount,
                },
            },
        )
    }

    /// Releases a locked escrow to its seller. The caller must have
    /// authorized the call and be the seller or the arbitrator.
    pub fn release_funds(&mut self, auth: &Authorization, escrow_id: BytesN<32>, caller: Address) -> (r:
        Result<EscrowReceipt, EscrowError>)
        ensures
            r == release_outcome(old(self)@, auth@, escrow_id, caller),
            final(self)@ == release_state(old(self)@, auth@, escrow_id, caller),
    {
        if !auth.allows(&caller) {
            return Err(EscrowError::NotAuthorized);
        }
        let escrow: Escrow = match self.escrows.get(&escrow_id) {
            None => {
                return Err(EscrowError::NotLocked);
            },
            Some(escrow) => *escrow,
        };
        match escrow.state {
            EscrowState::Locked => {},
            _ => {
                return Err(EscrowError::InvalidState);
            },
        }
        if caller != escrow.seller && !arbitrates(&escrow, &caller) {
            return Err(EscrowError::NotAuthorized);
        }
        let released = Escrow {
            buyer: escrow.buyer,
            seller: escrow.seller,
            arbitrator: escrow.arbitrator,
            token: escrow.token,
            amount: escrow.amount,
            state: EscrowState::Released,
            memo: escrow.memo,
            created_at: escrow.created_at,
        };
        self.escrows.insert(escrow_id, released);
        Ok(
            EscrowReceipt {
                transfer: Transfer {
                    asset: escrow.token,
                    from: self.address,
                    to: escrow.seller,
                    amount: escrow.amount,
                },
                event: EscrowEvent {
                    kind: EscrowEventKind::Released,
                    escrow_id,
                    actor: caller,
                    party: escrow.seller,
                    amount: escrow.amount,
                },
            },
        )
    }

    /// Refunds a locked escrow to its buyer, at the time `now`. The caller
    /// must have authorized the call; unless the timeout has passed, the
    /// caller must also be the buyer or the arbitrator.
    pub fn refund_funds(
        &mut self,
        auth: &Authorization,
        escrow_id: BytesN<32>,
        caller: Address,
        now: u64,
    ) -> (r: Result<EscrowReceipt, EscrowError>)
        ensures
            r == refund_outcome(old(self)@, auth@, escrow_id, caller, now),
            final(self)@ == refund_state(old(self)@, auth@, escrow_id, caller, now),
    {
        if !auth.allows(&caller) {
            return Err(EscrowError::NotAuthorized);
        }
        let escrow: Escrow = match self.escrows.get(&escrow_id) {
            None => {
                return Err(EscrowError::NotLocked);
            },
            Some(escrow) => *escrow,
        };
        match escrow.state {
            EscrowState::Locked => {},
            _ => {
                return Err(EscrowError::InvalidState);
            },
        }
        let is_timeout = has_timed_out(escrow.created_at, now);
        let is_authorized = caller == escrow.buyer || arbitrates(&escrow, &caller);
        if !is_authorized && !is_timeout {
            return Err(EscrowError::NotAuthorized);
        }
        let refunded = Escrow {
            buyer: escrow.buyer,
            seller: escrow.seller,
            arbitrator: escrow.arbitrator,
            token: escrow.token,
            amount: escrow.amount,
            state: EscrowState::Refunded,
            memo: escrow.memo,
            created_at: escrow.created_at,
        };
        self.escrows.insert(escrow_id, refunded);
        Ok(
            EscrowReceipt {
                transfer: Transfer {
                    asset: escrow.token,
                    from: self.address,
                    to: escrow.buyer,
                    amount: escrow.amount,
                },
                event: EscrowEvent {
                    kind: EscrowEventKind::Refunded,
                    escrow_id,
                    actor: caller,
                    party: escrow.buyer,
                    amount: escrow.amount,
                },
            },
        )
    }

    /// The record of an escrow. An id that was never locked is answered with
    /// `NotLocked`.
    pub fn get_escrow(&self, escrow_id: BytesN<32>) -> (r: Result<Escrow, EscrowError>)
        ensures
            r == get_outcome(self@, escrow_id),
    {
        match self.escrows.get(&escrow_id) {
            Some(escrow) => Ok(*escrow),
            None => Err(EscrowError::NotLocked),
        }
    }

    /// Whether the escrow exists and is locked.
    pub fn is_locked(&self, escrow_id: BytesN<32>) -> (r: bool)
        ensures
            r == locked(self@, escrow_id),
    {
        match self.escrows.get(&escrow_id) {
            Some(escrow) => match escrow.state {
                EscrowState::Locked => true,
                _ => false,
            },
            None => false,
        }
    }
}

} // verus!
