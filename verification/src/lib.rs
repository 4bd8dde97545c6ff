//! A four-direction kinematic character driven by a fixed-timestep simulation
//! loop, in exact integer arithmetic.
//!
//! Every physical quantity (position, velocity, force, mass, time) is a
//! fixed-point number: an integer that counts millionths of its unit, so that
//! `1_500_000` stands for 1.5. Time steps are therefore counted in
//! microseconds. Results that do not fit a whole millionth are rounded toward
//! zero, and every contract is stated over the mathematical integers.
//!
//! - `fixed`: the fixed-point arithmetic.
//! - `world`: the four headings.
//! - `character`: the character, its builder, and the laws of its motion.
//! - `game`: the simulation clock that decides when to step, render, sleep
//!   and stop.
//! - `input`: what keyboard events do to the character.
//! - `scene`: where the markers and the frame-rate label are drawn.

pub mod fixed;
pub mod world;
pub mod character;
pub mod game;
pub mod input;
pub mod scene;
