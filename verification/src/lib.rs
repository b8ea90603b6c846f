//! A small data-access core: it assembles SQL statements from a table name,
//! optional filter and pagination clauses, and field maps, and it turns raw
//! query outcomes (row sets, optional rows) into typed results.
//!
//! The statement builders and outcome functions are verified: each builder's
//! contract pins the exact text of the statement and the bound parameters,
//! and the outcome functions state exactly when each error is returned.
//! Executing the statements against a database engine is left to the caller.

pub mod errors;
pub mod fields;
pub mod models;
pub mod repository;
pub mod sql;
pub mod text;
