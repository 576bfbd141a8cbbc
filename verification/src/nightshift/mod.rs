//! The night-shift application: an earlier, simpler variant of the night
//! light with an on/off switch instead of an override.

pub mod app;
pub mod backend;
pub mod config;
pub mod daemon;
