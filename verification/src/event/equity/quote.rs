//! Equity quote events.

use vstd::prelude::*;

use crate::event::Common;
use crate::object::{Kind, Wrapper};

verus! {

/// An equity quote event.
#[derive(Clone, Copy, Debug)]
pub struct Event {
    handle: u64,
}

impl Wrapper for Event {
    open spec fn wrapped_kind() -> Kind {
        Kind::EventEquityQuote
    }

    closed spec fn spec_handle(&self) -> u64 {
        self.handle
    }

    fn from_handle_unchecked(handle: u64) -> (r: Self) {
        Event { handle }
    }

    fn as_xhandle(&self) -> (r: u64) {
        self.handle
    }

    fn wrapped_kind_code() -> (r: u16) {
        Kind::EventEquityQuote.to_u16()
    }
}

impl Common for Event {

}

} // verus!
