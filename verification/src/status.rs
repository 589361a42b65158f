//! Trading state.
//!
//! The native library reports the normalized trading status and
//! substatus of an instrument or market as one packed byte.

use vstd::prelude::*;

verus! {

/// Instrument status.
#[derive(Clone, Copy, Debug, PartialEq, Eq, Structural)]
pub struct Instrument {
    /// The packed status byte.
    pub raw: u8,
}

impl Instrument {
    /// Wrap a raw instrument status byte.
    pub fn new(raw: u8) -> (r: Instrument)
        ensures
            r.raw == raw,
    {
        Instrument { raw }
    }
}

/// Market status.
#[derive(Clone, Copy, Debug, PartialEq, Eq, Structural)]
pub struct Market {
    /// The packed status byte.
    pub raw: u8,
}

impl Market {
    /// Wrap a raw market status byte.
    pub fn new(raw: u8) -> (r: Market)
        ensures
            r.raw == raw,
    {
        Market { raw }
    }
}

} // verus!
