//! Live play: clocks, matchmaking, the game actor and recovery.

pub mod actor;
pub mod actor_laws;
pub mod clock;
pub mod error;
pub mod event;
pub mod matchmaking;
pub mod recovery;
pub mod spectator;
pub mod storage;
