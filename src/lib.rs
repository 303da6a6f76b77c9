//! Snapshot-driven model of a galaxy visualisation: the topology snapshot
//! polled from a simulation, the set of visual entities reconciled against it,
//! the game state machine that decides which simulation calls are made, and
//! the state machines of the side menu.

pub mod components;
pub mod topology;
pub mod store;
pub mod galaxy;
pub mod game;
pub mod facade;
pub mod ui;
pub mod overlay;
