//! Night-light scheduling, settings and gamma-helper logic for the COSMIC
//! desktop.
//!
//! COSMIC's compositor has no gamma-control protocol, so the night light
//! writes gamma ramps straight to DRM from a root helper during a VT bounce.
//! This library holds the decisions around that: the settings and their
//! store format, when the tint is on, what the scheduler does each poll, the
//! helpers' command lines, and which displays get a ramp.

pub mod cards;
pub mod controls;
pub mod engine;
pub mod helper_args;
pub mod helper_command;
pub mod kelvin;
pub mod nightlight;
pub mod nightshift;
pub mod parse;
pub mod text;
