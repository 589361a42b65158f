//! Timing groups.
//!
//! A timing group is one fixed-size binary record in an event's field
//! space: six 64-bit timestamps, little-endian, in a fixed order.  A
//! zero timestamp means the stage was not recorded.

use vstd::bytes::spec_u64_from_le_bytes;
use vstd::prelude::*;

verus! {

/// The number of bytes a timing group occupies on the wire.
pub const TIMING_GROUP_SIZE: u32 = 48;

/// The timings recorded for one event, one timestamp per stage of its
/// path from the exchange to the client callback.
#[derive(Clone, Copy, Debug, PartialEq, Eq, Structural)]
pub struct EventTiming {
    /// The exchange sequence number of the corresponding event.
    pub sequence: u64,
    /// The exchange timestamp for the corresponding event.
    pub exchange_hitime: u64,
    /// When the event was received by the appliance.
    pub receive_hitime: u64,
    /// When the event was transmitted by the appliance.
    pub transmit_hitime: u64,
    /// When the event was received by the client library.
    pub xcapi_receive_hitime: u64,
    /// When the callback was fired by the client library.
    pub xcapi_callback_hitime: u64,
}

/// The timing group a 48-byte wire record denotes.
pub open spec fn spec_timing_of(b: Seq<u8>) -> EventTiming {
    EventTiming {
        sequence: spec_u64_from_le_bytes(b.subrange(0, 8)),
        exchange_hitime: spec_u64_from_le_bytes(b.subrange(8, 16)),
        receive_hitime: spec_u64_from_le_bytes(b.subrange(16, 24)),
        transmit_hitime: spec_u64_from_le_bytes(b.subrange(24, 32)),
        xcapi_receive_hitime: spec_u64_from_le_bytes(b.subrange(32, 40)),
        xcapi_callback_hitime: spec_u64_from_le_bytes(b.subrange(40, 48)),
    }
}

/// Read the 64-bit little-endian value at the given byte offset.
fn u64_at(b: &Vec<u8>, off: usize) -> (r: u64)
    requires
        off + 8 <= b@.len(),
    ensures
        r == spec_u64_from_le_bytes(b@.subrange(off as int, off as int + 8)),
{
    let n = b.len();
    let mut word: Vec<u8> = Vec::new();
    let mut i: usize = 0;
    while i < 8
        invariant
            i <= 8,
            off + 8 <= n,
            n == b@.len(),
            word@ == b@.subrange(off as int, off as int + i),
        decreases 8 - i,
    {
        word.push(b[off + i]);
        assert(word@ =~= b@.subrange(off as int, off as int + i + 1));
        i += 1;
    }
    vstd::bytes::u64_from_le_bytes(word.as_slice())
}

impl EventTiming {
    /// Decode a timing group from its wire record.
    pub fn new(b: &Vec<u8>) -> (r: EventTiming)
        requires
            b@.len() == TIMING_GROUP_SIZE,
        ensures
            r == spec_timing_of(b@),
    {
        EventTiming {
            sequence: u64_at(b, 0),
            exchange_hitime: u64_at(b, 8),
            receive_hitime: u64_at(b, 16),
            transmit_hitime: u64_at(b, 24),
            xcapi_receive_hitime: u64_at(b, 32),
            xcapi_callback_hitime: u64_at(b, 40),
        }
    }

    /// The exchange sequence number of the corresponding event.
    pub fn exchange_sequence(&self) -> (r: Option<u64>)
        ensures
            r == spec_wrap_in_option(self.sequence),
    {
        wrap_in_option(self.sequence)
    }

    /// The exchange timestamp for the corresponding event.
    pub fn exchange_timestamp(&self) -> (r: Option<u64>)
        ensures
            r == spec_wrap_in_option(self.exchange_hitime),
    {
        wrap_in_option(self.exchange_hitime)
    }

    /// The timestamp the event was received by the appliance.
    pub fn appliance_receive_timestamp(&self) -> (r: Option<u64>)
        ensures
            r == spec_wrap_in_option(self.receive_hitime),
    {
        wrap_in_option(self.receive_hitime)
    }

    /// The timestamp the event was transmitted by the appliance.
    pub fn appliance_transmit_timestamp(&self) -> (r: Option<u64>)
        ensures
            r == spec_wrap_in_option(self.transmit_hitime),
    {
        wrap_in_option(self.transmit_hitime)
    }

    /// The time when the event was received by the client library.
    pub fn xcapi_receive_timestamp(&self) -> (r: Option<u64>)
        ensures
            r == spec_wrap_in_option(self.xcapi_receive_hitime),
    {
        wrap_in_option(self.xcapi_receive_hitime)
    }

    /// The time when the callback was fired by the client library.
    pub fn xcapi_callback_timestamp(&self) -> (r: Option<u64>)
        ensures
            r == spec_wrap_in_option(self.xcapi_callback_hitime),
    {
        wrap_in_option(self.xcapi_callback_hitime)
    }
}

/// A zero timestamp stands for "not recorded" and reads as `None`.
pub open spec fn spec_wrap_in_option(value: u64) -> Option<u64> {
    if value == 0 {
        None
    } else {
        Some(value)
    }
}

/// Wrap a timestamp, reading zero as "not recorded".
pub fn wrap_in_option(value: u64) -> (r: Option<u64>)
    ensures
        r == spec_wrap_in_option(value),
{
    if value == 0 {
        None
    } else {
        Some(value)
    }
}

} // verus!
