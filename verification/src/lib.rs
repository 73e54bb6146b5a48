//! Simulation core of an arcade space-combat game, on fixed-point integers.
//!
//! Lengths, positions and speeds are in thousandths of a screen unit, times in
//! milliseconds, probabilities in parts per million and multipliers in
//! thousandths. The library decides and computes; what surrounds it reads
//! the keys and the clock, draws, plays sounds and runs the background
//! workers, and hands plain values in and out.

pub mod physics;
pub mod random;
pub mod text;
pub mod components;
pub mod settings;
pub mod config;
pub mod level;
pub mod particles;
pub mod bridge;
pub mod session;
pub mod collision;
pub mod store;
pub mod frame;
pub mod wave;
pub mod ufo;
pub mod game;
pub mod screens;
