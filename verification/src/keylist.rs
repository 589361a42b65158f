//! Keylist support.

pub mod catalog;
