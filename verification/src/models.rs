//! The ledger's data types.

pub mod data;
