//! The night-light application: settings, autostart, helper invocation and
//! the background scheduler's decisions.

pub mod config;
pub mod daemon;
pub mod autostart;
pub mod backend;
