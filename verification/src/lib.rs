//! Deterministic simulation core of a multi-entity game session.
//!
//! The world advances in discrete fixed-size ticks. Per-entity state machines
//! drive gameplay behaviour (the terminal dead state is the one shipped here),
//! and side effects (audio, despawns) are buffered in per-tick queues that the
//! presentation layer drains between ticks.

pub mod components;
pub mod dead;
pub mod input;
pub mod laws;
pub mod queues;
pub mod session;
pub mod table;
pub mod world;
