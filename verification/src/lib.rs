//! A time-accrued spending-allowance ledger.
//!
//! A custodian grants beneficiaries an allowance that accrues in whole steps of a
//! fixed period; each beneficiary may draw on what has accrued. The ledger keeps its
//! records in an explicitly passed [`storage::Storage`]; the clock reading and the
//! kind of caller are handed in as plain values, and a granted withdrawal is returned
//! as a [`contract::Transfer`] for the caller to carry out.

pub mod context;
pub mod contract;
pub mod errors;
pub mod laws;
pub mod services;
pub mod storage;
