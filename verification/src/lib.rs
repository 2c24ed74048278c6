//! A model-serving gateway core: route derivation, route-table construction,
//! connection-retry bookkeeping, process supervision records, and the
//! request/response decisions of the HTTP-to-RPC forwarding path.
//!
//! The surrounding process (HTTP server, RPC transport, child processes,
//! files) lives outside this crate; every decision that can be stated over
//! plain values is made here, under contract.

pub mod config;
pub mod gateway;
pub mod guard;
pub mod jsontext;
pub mod numfmt;
pub mod retry;
pub mod routes;
pub mod spawn;
pub mod supervisor;
pub mod table;
pub mod venv;
pub mod version;
