//! Core of a grid-based arcade simulation: a self-extending body moves on a
//! fixed-size toroidal board, consumes spawning food items, and dies on
//! collision with walls or itself. This crate holds the verified simulation
//! core (movement, collision, food lifecycle, scoring, difficulty ramp, and
//! the Playing/Paused/GameOver state machine); rendering and window plumbing
//! live outside it and only read snapshots or feed classified events in.

pub mod geom;
pub mod body;
pub mod food;
pub mod level;
pub mod game;
mod rng;
