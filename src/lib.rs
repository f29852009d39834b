//! Simulation core of a small turn-based grid game: the tile map and its
//! generator, movement rules, a component store, and the content registry
//! that addon scripts fill before play begins.
pub mod map;
pub mod rng;
pub mod components;
pub mod movement;
pub mod registry;
pub mod host;
pub mod world;
