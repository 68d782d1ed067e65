//! A fungible-token ledger: balances keyed by account, supply-conserving
//! transfers and delegated spending through allowances.

pub mod account;
pub mod allowance;
pub mod amounts;
pub mod error;
pub mod fungible_token;
pub mod ledger;
pub mod state;
pub mod table;
pub mod unlimited_allowance_token;
