//! The x402 paywall: wire types, verification, idempotency and decisions.

pub mod codec;
pub mod error;
pub mod facilitator;
pub mod mock;
pub mod paywall;
pub mod store;
pub mod types;

