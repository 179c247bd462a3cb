//! Request-adapter layer for a console that bridges HTTP-style envelopes onto
//! an asynchronous named-procedure-call transport.
//!
//! This crate holds the pure, verified core: the JSON data model, the request
//! normalizer, the response envelope builder, the error taxonomy, the
//! per-endpoint request builders and response composers, the cron re-invocation
//! resolver, the function registry and the trigger table. The transport itself
//! (connection handling, timeouts, concurrency) is an external collaborator:
//! an unverified driver performs each remote call and hands its outcome back
//! to the functions here.

pub mod text;
pub mod json;
pub mod error;
pub mod normalize;
pub mod rpc;
pub mod endpoints;
pub mod aggregate;
pub mod sorted;
pub mod state;
pub mod flow;
pub mod cron;
pub mod registry;
pub mod trigger_table;
pub mod config;
