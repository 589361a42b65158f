//! Equity cancellation events.

use vstd::prelude::*;

use crate::event::Common;
use crate::object::{Kind, Wrapper};

verus! {

/// An equity cancellation event.
#[derive(Clone, Copy, Debug)]
pub struct Event {
    handle: u64,
}

impl Wrapper for Event {
    open spec fn wrapped_kind() -> Kind {
        Kind::EventEquityCancel
    }

    closed spec fn spec_handle(&self) -> u64 {
        self.handle
    }

    fn from_handle_unchecked(handle: u64) -> (r: Self) {
        Event { handle }
    }

    fn as_xhandle(&self) -> (r: u64) {
        self.handle
    }

    fn wrapped_kind_code() -> (r: u16) {
        Kind::EventEquityCancel.to_u16()
    }
}

impl Common for Event {

}

} // verus!
