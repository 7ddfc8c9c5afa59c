//! Verified core of a ride-hailing backend: the payment lifecycle - starting a
//! payment with the gateway, keeping the pending record, and settling it from a
//! verification call or a signed webhook - together with the input rules of the
//! account services.
//!
//! The library does no I/O. An operation that needs the payment gateway or the
//! database is split in steps: the library says which call to make or which
//! row to write, the caller carries it out and hands back what came of it, and
//! the library decides the rest. `store::PaymentStore` keeps payment records in
//! memory with the semantics that a persistent store has to provide; `laws`
//! states what holds of the operations taken together.

pub mod auth;
pub mod clock;
pub mod error;
pub mod gateway;
pub mod handlers;
pub mod json;
pub mod laws;
pub mod listing;
pub mod models;
pub mod routes;
pub mod services;
pub mod signature;
pub mod store;
pub mod text;
