//! Notifications a successful operation hands back to the host. The host's
//! event subsystem publishes them; for `Withdraw` the host also executes the
//! native-currency transfer the event describes.

use vstd::prelude::*;
use crate::account::AccountId;

verus! {

/// Emitted by a successful `mint`: `to` was credited `amount` tokens in
/// exchange for `payment` units of native currency.
#[derive(Debug)]
pub struct Mint {
    pub to: AccountId,
    pub amount: u128,
    pub payment: u128,
}

/// Emitted by a successful `withdraw`; it doubles as the transfer instruction
/// the host must execute: send `amount` units of native currency to `owner`.
#[derive(Debug)]
pub struct Withdraw {
    pub owner: AccountId,
    pub amount: u128,
}

/// The notification an `ExecuteMsg` dispatch produced.
#[derive(Debug)]
pub enum Event {
    Minted(Mint),
    Withdrawn(Withdraw),
}

} // verus!
