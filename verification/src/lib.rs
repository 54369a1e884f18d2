//! Verified core of a pooled, blocking-work service: how a connection pool is
//! sized and brought up once, how leases on its connections are granted and
//! returned, and how the result of offloaded blocking work is labelled.
//!
//! Nothing here waits, sleeps or talks to the store. Every function decides
//! from the values it is handed, and the program around it does the waiting
//! and the talking:
//!
//! - `config` plans a pool from the store address and the host's parallelism;
//! - `store` makes the connection manager for a planned pool;
//! - `pool_model` and `pool` keep the ledger of leases;
//! - `connection` holds the pool manager, the one way to the pool;
//! - `offload` follows a piece of blocking work to its outcome;
//! - `errors` names every failure;
//! - `search` holds the query of a company search and its paging.

pub mod errors;
pub mod config;
pub mod store;
pub mod pool_model;
pub mod pool;
pub mod connection;
pub mod offload;
pub mod search;
