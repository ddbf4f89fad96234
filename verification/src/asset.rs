//! Instructions to the collaborators that hold and convert assets.
//!
//! The engine never moves an asset itself. It hands these values to its host,
//! which carries them out against the asset, exchange and vault services.

use vstd::prelude::*;
use crate::address::Address;

verus! {

/// Move `amount` units of `asset` from the custody of `from` to that of `to`.
#[derive(Clone, Copy, Debug)]
pub struct Transfer {
    pub asset: Address,
    pub from: Address,
    pub to: Address,
    pub amount: i128,
}

/// Ask how many units of `asset` are in the custody of `holder`.
#[derive(Clone, Copy, Debug)]
pub struct BalanceQuery {
    pub asset: Address,
    pub holder: Address,
}

/// Convert `send_amount` of `send_asset` into `dest_asset` at the exchange
/// `router`, delivering to `recipient`, with `min_receive` as the floor.
#[derive(Clone, Copy, Debug)]
pub struct Swap {
    pub router: Address,
    pub recipient: Address,
    pub send_asset: Address,
    pub send_amount: i128,
    pub dest_asset: Address,
    pub min_receive: i128,
}

/// Credit `amount` of `asset`, paid by `payer`, to `merchant_id` at `vault`.
#[derive(Clone, Copy, Debug)]
pub struct Credit {
    pub vault: Address,
    pub merchant_id: Address,
    pub asset: Address,
    pub amount: i128,
    pub payer: Address,
}

} // verus!
