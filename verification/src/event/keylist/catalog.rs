//! Keylist catalog events.

pub mod refresh;
pub mod update;
