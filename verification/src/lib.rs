//! Dungeon generation and entity spawning rules of a small roguelike,
//! with their contracts proved by Verus.

pub mod components;
pub mod game;
pub mod geometry;
pub mod map;
pub mod map_builder;
pub mod random;
pub mod spawner;
pub mod systems;
