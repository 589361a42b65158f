//! Keylist containers.

pub mod catalog;
pub mod filter;
