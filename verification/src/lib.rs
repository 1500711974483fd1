//! Turn-based decision agent for a two-player arena mini-game.
//!
//! Each turn the agent receives a snapshot of the world (base status for both
//! players and a list of visible entities) and picks, for each controlled
//! hero, the nearest monster that threatens the player's own base. The crate
//! holds the verified core: geometry, entity modelling with target selection,
//! and the per-turn snapshot builder. Reading lines from the host simulation
//! and printing commands is a thin unverified shell around this library.

pub mod entity;
pub mod geometry;
pub mod snapshot;
