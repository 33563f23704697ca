//! A verified core for a modular chess server.
//!
//! The crate holds the rules of the server: the variant-agnostic game
//! abstraction, the domain entities, the authoritative clock, matchmaking, the
//! decisions of the per-game actor, recovery from the action log, node
//! ownership in a cluster and the x402 paywall. Apart from fresh identifiers,
//! which are drawn at random, everything here is a pure function of its arguments;
//! sockets, timers and storage live outside.

pub mod cluster;
pub mod domain;
pub mod game;
pub mod observability;
pub mod payments;
pub mod rating;
pub mod table;
pub mod text;
pub mod time;
pub mod variant;
