//! The contract entry points a host dispatcher drives: `instantiate` builds
//! the ledger for the deployer, `execute` applies a state-changing message,
//! and `query` answers a read-only one. The host supplies the authenticated
//! sender and the attached native payment as plain values and encodes the
//! returned responses.

use vstd::prelude::*;
use crate::account::AccountId;
use crate::errors::Error;
use crate::events::Event;
use crate::ledger::{mint_rel, withdraw_rel, Ledger};
use crate::msg::{
    BalanceResponse, CollectedFundsResponse, ExecuteMsg, InstantiateMsg, QueryMsg, QueryResponse,
    TotalSupplyResponse,
};

verus! {

/// The minimum native payment a `mint` must attach, fixed at deployment.
pub const MINT_PRICE: u128 = 10_000_000;

/// The tokens credited per successful `mint`, fixed at deployment.
pub const MINT_AMOUNT: u128 = 1_000_000_000;

/// Creates the ledger at deployment: the sender becomes the owner, supply and
/// collected funds start at zero, and the mint parameters take their
/// deployment constants.
pub fn instantiate(sender: AccountId, _msg: InstantiateMsg) -> (l: Ledger)
    ensures
        l.wf(),
        l.owner == sender,
        l.total_supply == 0,
        l.collected_funds == 0,
        l.min_payment == MINT_PRICE,
        l.mint_amount == MINT_AMOUNT,
        forall|k: Seq<u8>| l.spec_balance(k) == 0,
{
    Ledger::new(sender, MINT_PRICE, MINT_AMOUNT)
}

/// Applies a state-changing message for the authenticated `sender`, who
/// attached `payment` units of native currency to the call.
pub fn execute(ledger: &mut Ledger, sender: &AccountId, payment: u128, msg: ExecuteMsg) -> (r:
    Result<Event, Error>)
    requires
        old(ledger).wf(),
    ensures
        final(ledger).wf(),
        match msg {
            ExecuteMsg::Mint {  } => match r {
                Ok(ev) => ev matches Event::Minted(m) && mint_rel(
                    *old(ledger),
                    *final(ledger),
                    *sender,
                    payment,
                    Result::<crate::events::Mint, Error>::Ok(m),
                ),
                Err(e) => mint_rel(
                    *old(ledger),
                    *final(ledger),
                    *sender,
                    payment,
                    Result::<crate::events::Mint, Error>::Err(e),
                ),
            },
            ExecuteMsg::Withdraw {  } => match r {
                Ok(ev) => ev matches Event::Withdrawn(w) && withdraw_rel(
                    *old(ledger),
                    *final(ledger),
                    *sender,
                    Result::<crate::events::Withdraw, Error>::Ok(w),
                ),
                Err(e) => withdraw_rel(
                    *old(ledger),
                    *final(ledger),
                    *sender,
                    Result::<crate::events::Withdraw, Error>::Err(e),
                ),
            },
        },
{
    match msg {
        ExecuteMsg::Mint {  } => match ledger.mint(sender, payment) {
            Ok(ev) => Ok(Event::Minted(ev)),
            Err(e) => Err(e),
        },
        ExecuteMsg::Withdraw {  } => match ledger.withdraw(sender) {
            Ok(ev) => Ok(Event::Withdrawn(ev)),
            Err(e) => Err(e),
        },
    }
}

/// Answers a read-only message from the current ledger state.
pub fn query(ledger: &Ledger, msg: QueryMsg) -> (r: QueryResponse)
    ensures
        match msg {
            QueryMsg::GetBalance { address } => r == QueryResponse::Balance(
                BalanceResponse { balance: ledger.spec_balance(address@) },
            ),
            QueryMsg::GetTotalSupply {  } => r == QueryResponse::TotalSupply(
                TotalSupplyResponse { total_supply: ledger.total_supply },
            ),
            QueryMsg::GetCollectedFunds {  } => r == QueryResponse::CollectedFunds(
                CollectedFundsResponse { collected_funds: ledger.collected_funds },
            ),
        },
{
    match msg {
        QueryMsg::GetBalance { address } => QueryResponse::Balance(
            BalanceResponse { balance: ledger.balance_of(&address) },
        ),
        QueryMsg::GetTotalSupply {  } => QueryResponse::TotalSupply(
            TotalSupplyResponse { total_supply: ledger.total_supply() },
        ),
        QueryMsg::GetCollectedFunds {  } => QueryResponse::CollectedFunds(
            CollectedFundsResponse { collected_funds: ledger.collected_funds() },
        ),
    }
}

} // verus!
