//! Core of a terminal snake game with an optional autopilot mode.
//!
//! The crate verifies the game's logic: the snake body model, the
//! game state machine with its per-tick ordering guarantees, the
//! command-source abstraction that feeds one direction per tick, and
//! the request/response hand-off used by the autopilot worker.
//! Rendering, keyboard polling, configuration loading and the network
//! clients are external collaborators kept behind small interfaces.

pub mod channel;
pub mod client;
pub mod config;
pub mod draw;
pub mod events;
pub mod game;
pub mod models;
pub mod rng;
pub mod snake;
