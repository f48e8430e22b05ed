//! A per-tick control library for a single bot in a tick-driven
//! resource-management game.
//!
//! The host runtime invokes the bot once per game tick and hands it a
//! read-only snapshot of the world (spawn points, worker units, rooms) plus
//! a persistent key/value memory store. This library holds every decision
//! the bot makes in a tick — which units to produce, how each worker unit
//! behaves, which stale memory records to remove — as verified functions
//! over plain data. The host-facing driver (I/O, command dispatch) stays
//! outside the library and feeds it snapshots and command results.

pub mod controller;
pub mod janitor;
pub mod memory;
pub mod names;
pub mod spawner;
pub mod tick;
pub mod world;
