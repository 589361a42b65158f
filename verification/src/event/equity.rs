//! Equity events.

pub mod cancel;
pub mod correction;
pub mod quote;
pub mod refresh;
