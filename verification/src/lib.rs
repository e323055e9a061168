//! Core simulation of a charge-and-jump arcade game.
//!
//! A player charges a jump by holding a press and releases to launch toward
//! the next platform. The library models the whole gameplay loop — charge
//! timing, landing-position computation, geometric classification of the
//! landing against platform footprints, the arc and fall animations, and the
//! run life-cycle with its score — over exact integer arithmetic:
//! positions are measured in micro-units (one millionth of a world unit)
//! and durations in milliseconds.

pub mod geometry;
pub mod platform;
pub mod player;
mod random;
pub mod ui;
pub mod world;

pub use geometry::Pos3;
