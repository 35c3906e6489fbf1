//! A fungible-token ledger: administrator, balances, time-bounded allowances
//! and freeze flags, kept in a storage model with explicit retention windows.

pub mod admin;
pub mod allowance;
pub mod balance;
pub mod contract;
pub mod env;
pub mod laws;
pub mod metadata;
pub mod storage_types;
