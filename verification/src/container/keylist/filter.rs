//! Keylist filters.

use vstd::prelude::*;

use crate::object::{Kind, Wrapper};

verus! {

/// The realtime keylist filter container.
#[derive(Clone, Copy, Debug, PartialEq, Eq, Structural)]
pub struct Filter {
    handle: u64,
}

impl Wrapper for Filter {
    open spec fn wrapped_kind() -> Kind {
        Kind::RealtimeKeylistFilter
    }

    closed spec fn spec_handle(&self) -> u64 {
        self.handle
    }

    fn from_handle_unchecked(handle: u64) -> (r: Self) {
        Filter { handle }
    }

    fn as_xhandle(&self) -> (r: u64) {
        self.handle
    }

    fn wrapped_kind_code() -> (r: u16) {
        Kind::RealtimeKeylistFilter.to_u16()
    }
}

/// The realtime keylist filter container builder.
#[derive(Clone, Copy, Debug, PartialEq, Eq, Structural, Default)]
pub struct Builder {
}

} // verus!
