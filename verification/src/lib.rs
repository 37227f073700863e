//! Physics and game-rule core of a small 2D platformer.
//!
//! World geometry is measured in fixed-point integers: positions carry
//! thousandths of a world unit, velocities carry world units per second
//! (numerically the same as thousandths per millisecond), and time advances
//! in milliseconds, so integrating a position from a velocity and a time
//! delta is exact integer arithmetic.

pub mod camera;
pub mod components;
pub mod draw;
pub mod ecs;
pub mod game;
pub mod input;
pub mod keyboard;
pub mod map;
pub mod physics;
pub mod player;
pub mod resources;
