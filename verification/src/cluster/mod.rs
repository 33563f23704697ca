//! Which node of a cluster owns which game.

pub mod directory;
pub mod error;
pub mod redis;
pub mod redis_bus;
pub mod registry;
pub mod types;
