//! Identifiers, value objects and aggregates of the chess server.

pub mod challenge;
pub mod clock;
pub mod error;
pub mod evm_address;
pub mod game;
pub mod ids;
pub mod seek;
pub mod time_control;
pub mod user;
