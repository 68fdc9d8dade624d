//! Core of a turn-based grid-world text adventure: a tile map with an
//! adjacency-driven border classifier, a movement gate, and a per-location
//! random-event generator.

pub mod enemy;
pub mod event;
pub mod item;
pub mod map;
pub mod player;
pub mod tiles;
pub mod ui;
mod rng;
pub mod vector;
