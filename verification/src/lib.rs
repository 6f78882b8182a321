//! A minimal fungible-token ledger: accounts buy a fixed amount of tokens by
//! attaching a native-currency payment to `mint`, and the contract owner takes
//! the accumulated payments out with `withdraw`. The ledger keeps the balance
//! table, the total supply, and the collected-payment accumulator consistent,
//! and every operation either fully applies or fails with a typed error and
//! leaves the ledger untouched.

pub mod account;
pub mod contract;
pub mod errors;
pub mod events;
pub mod ledger;
pub mod msg;
