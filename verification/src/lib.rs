//! Core simulation engine of a terminal river-navigation arcade game.
//!
//! The library owns the world state and everything that advances it by one
//! simulated tick: a keyed timer registry, boolean event triggers, a
//! data-driven event/handler dispatcher with a deferred-add queue, a
//! procedurally drifting river map, and the entity lifecycle and collision
//! rules. Input polling and terminal drawing are left to the surrounding
//! program; the engine is driven through plain values (the current time in
//! milliseconds and translated player actions).

pub mod container;
pub mod entities;
pub mod events;
pub mod game;
pub mod handlers;
pub mod map;
mod rng;
pub mod rules;
pub mod restorable;
pub mod timer;
pub mod world;
