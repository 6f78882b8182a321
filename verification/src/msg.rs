//! The message-level interface a host dispatcher drives. The host decodes an
//! incoming transaction into one of these messages, supplies the authenticated
//! sender and the attached native payment, and encodes the response.

use vstd::prelude::*;
use crate::account::AccountId;

verus! {

/// Instantiation carries no parameters: the deployer becomes the owner and
/// the mint parameters take their deployment constants.
#[derive(Debug)]
pub struct InstantiateMsg {}

/// A state-changing call.
#[derive(Debug)]
pub enum ExecuteMsg {
    Mint {},
    Withdraw {},
}

/// A read-only call.
#[derive(Debug)]
pub enum QueryMsg {
    /// Get the token balance of a specific address
    GetBalance { address: AccountId },
    /// Get the total supply of all minted tokens
    GetTotalSupply {},
    /// Get the total native funds collected from mints
    GetCollectedFunds {},
}

/// The answer to `QueryMsg::GetBalance`.
#[derive(Clone, Copy, Debug, PartialEq, Eq, Structural)]
pub struct BalanceResponse {
    pub balance: u128,
}

/// The answer to `QueryMsg::GetTotalSupply`.
#[derive(Clone, Copy, Debug, PartialEq, Eq, Structural)]
pub struct TotalSupplyResponse {
    pub total_supply: u128,
}

/// The answer to `QueryMsg::GetCollectedFunds`.
#[derive(Clone, Copy, Debug, PartialEq, Eq, Structural)]
pub struct CollectedFundsResponse {
    pub collected_funds: u128,
}

/// A query answer, ready for the host to encode.
#[derive(Clone, Copy, Debug, PartialEq, Eq, Structural)]
pub enum QueryResponse {
    Balance(BalanceResponse),
    TotalSupply(TotalSupplyResponse),
    CollectedFunds(CollectedFundsResponse),
}

} // verus!
