//! Write path of a ledger-to-Postgres ingestion pipeline: account batching,
//! handler routing, statement encoding and the worker's dispatch decisions.
//!
//! Nothing here talks to a database. Every operation hands back the
//! statements that the caller has to execute, in order.

pub mod account;
pub mod block_handler;
pub mod config;
pub mod encoding;
pub mod parallel_client;
pub mod parallel_client_worker;
pub mod postgres_client;
pub mod slot_handler;
pub mod statement;
pub mod text;
pub mod transaction_handler;
