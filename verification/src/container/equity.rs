//! Equity containers.

pub mod stream;
