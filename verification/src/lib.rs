//! Simulation core of an endless vertical platformer.
//!
//! A player launches from platform to platform with a press, hold and release
//! gesture; platforms are generated above the highest one reached; the camera
//! follows the player inside a deadzone. The crate holds the state of one
//! session and the rules that advance it by one frame. It draws nothing and
//! reads no device: the caller hands in the frame's length, its input events
//! and the viewport, and gets back what is to be drawn.
//!
//! All quantities are integers. Positions are counted in sub-units of a world
//! unit, time in ticks of a millisecond, velocities in sub-units per tick; see
//! [`geometry`]. A frame runs its steps in a fixed order: input and launch,
//! integration, landing detection, fall recovery ([`simulation`]), platform
//! generation ([`generator`]), camera follow ([`camera`]) and the readout
//! ([`readout`]); [`frame`] puts them together. Every step is specified by a
//! function on [`world::SessionView`], the mathematical content of a
//! [`world::Session`], and [`laws`] states what holds of all of them.

pub mod camera;
pub mod frame;
pub mod generator;
pub mod geometry;
pub mod input;
pub mod laws;
pub mod readout;
pub mod simulation;
pub mod state;
pub mod world;
