//! The rules of a top-down arcade racer, without its window: the track and
//! its walls, the footprint of a vehicle, the test of a vehicle against the
//! walls, the step that moves a vehicle, and the menus around a race.
//!
//! All numbers are fixed-point (see [`fixed`]), so every result is exact and
//! the same on every machine. What needs a cosine or a sine takes it from the
//! caller as part of an [`math::Angle`].

pub mod config;
pub mod fixed;
pub mod game;
pub mod gui;
pub mod input;
pub mod math;
