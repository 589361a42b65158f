//! Keylist events.

pub mod catalog;
