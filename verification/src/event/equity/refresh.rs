//! Equity refresh events.

use vstd::prelude::*;

use crate::event::Common;
use crate::object::{Kind, Wrapper};

verus! {

/// An equity refresh event.
#[derive(Clone, Copy, Debug)]
pub struct Event {
    handle: u64,
}

impl Wrapper for Event {
    open spec fn wrapped_kind() -> Kind {
        Kind::EventEquityRefresh
    }

    closed spec fn spec_handle(&self) -> u64 {
        self.handle
    }

    fn from_handle_unchecked(handle: u64) -> (r: Self) {
        Event { handle }
    }

    fn as_xhandle(&self) -> (r: u64) {
        self.handle
    }

    fn wrapped_kind_code() -> (r: u16) {
        Kind::EventEquityRefresh.to_u16()
    }
}

impl Common for Event {

}

/// A set of refresh qualifiers, as the raw 32-bit bitfield the wire
/// carries.
#[derive(Clone, Copy, Debug, PartialEq, Eq, Structural)]
pub struct RefreshQuals {
    /// The raw qualifier bits.
    pub raw: u32,
}

impl RefreshQuals {
    /// Wrap the raw qualifier bits.
    pub fn new(raw: u32) -> (r: RefreshQuals)
        ensures
            r.raw == raw,
    {
        RefreshQuals { raw }
    }
}

} // verus!
