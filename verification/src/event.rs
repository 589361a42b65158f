//! Event objects.
//!
//! An event is a short-lived native object delivered to a callback: its
//! kind is fixed by the event-type code that arrived alongside it, and
//! it is valid only for the span of that callback.  The [`Common`] trait
//! gathers the field accessors every event object shares; each concrete
//! event type is a zero-logic instantiation of the field accessor
//! primitive over these identifiers.

pub mod equity;
pub mod indicative_price;
pub mod keylist;
pub mod subscribe;
pub mod trade_summary;

use vstd::bytes::spec_u16_from_le_bytes;
use vstd::prelude::*;

use crate::appliance::Appliance;
use crate::error::{decode, spec_decode, Error, ExegyError, Success};
use crate::field::{self, spec_field_read, Field as FieldTrait, XC_EVENT};
use crate::key::{Key, KEY_SIZE};
use crate::object::Wrapper;
use crate::timing::{spec_timing_of, EventTiming, TIMING_GROUP_SIZE};

verus! {

/// Client-specified turnkey (set during object creation).
pub const XFLD_EVT_TURNKEY: u64 = 0x2001;

/// Type of event object.
pub const XFLD_EVT_EVENT_TYPE: u64 = 0x2002;

/// When the event was received by the appliance.
pub const XFLD_EVT_RECEIVE_HITIME: u64 = 0x2003;

/// When the event was sent to the client by the appliance.
pub const XFLD_EVT_TRANSMIT_HITIME: u64 = 0x2004;

/// When the event was received by the client library.
pub const XFLD_EVT_XCAPI_RECEIVE_HITIME: u64 = 0x2005;

/// When the event was received by the client callback routine.
pub const XFLD_EVT_XCAPI_CALLBACK_HITIME: u64 = 0x2006;

/// Current status.
pub const XFLD_EVT_STATUS: u64 = 0x2007;

/// Key for the data item associated with this event.
pub const XFLD_EVT_ITEM_KEY: u64 = 0x2008;

/// The key string for the subscribed-to instrument.
pub const XFLD_EVT_ITEM_KEY_STRING: u64 = 0x2009;

/// Line identifier.
pub const XFLD_EVT_LINE_ID: u64 = 0x200A;

/// Sequence number from the exchange.
pub const XFLD_EVT_SEQUENCE: u64 = 0x200B;

/// The timing group structure.
pub const XFGRP_EVT_TIMING: u64 = 0x200C;

/// Field identifiers common to every event object.
#[derive(Clone, Copy, Debug)]
pub enum Field {
    /// Client-specified turnkey (set during object creation).
    Turnkey,
    /// Type of event object.
    EventType,
    /// When the event was received by the appliance.
    ReceiveTime,
    /// When the event was sent to the client by the appliance.
    TransmitTime,
    /// When the event was received by the client library.
    XcapiReceiveTime,
    /// When the event was received by the client callback routine.
    XcapiCallbackTime,
    /// Current status.
    Status,
    /// Key for the data item associated with this event.
    ItemKey,
    /// The key string for the subscribed-to instrument.
    ItemKeyString,
    /// Line identifier.
    LineId,
    /// Sequence number from the exchange.
    ExchangeSequence,
    /// The timing group structure.
    TimingGroup,
}

impl FieldTrait for Field {
    open spec fn spec_id(&self) -> u64 {
        match self {
            Field::Turnkey => XFLD_EVT_TURNKEY,
            Field::EventType => XFLD_EVT_EVENT_TYPE,
            Field::ReceiveTime => XFLD_EVT_RECEIVE_HITIME,
            Field::TransmitTime => XFLD_EVT_TRANSMIT_HITIME,
            Field::XcapiReceiveTime => XFLD_EVT_XCAPI_RECEIVE_HITIME,
            Field::XcapiCallbackTime => XFLD_EVT_XCAPI_CALLBACK_HITIME,
            Field::Status => XFLD_EVT_STATUS,
            Field::ItemKey => XFLD_EVT_ITEM_KEY,
            Field::ItemKeyString => XFLD_EVT_ITEM_KEY_STRING,
            Field::LineId => XFLD_EVT_LINE_ID,
            Field::ExchangeSequence => XFLD_EVT_SEQUENCE,
            Field::TimingGroup => XFGRP_EVT_TIMING,
        }
    }

    fn to_u64(&self) -> (r: u64) {
        match self {
            Field::Turnkey => XFLD_EVT_TURNKEY,
            Field::EventType => XFLD_EVT_EVENT_TYPE,
            Field::ReceiveTime => XFLD_EVT_RECEIVE_HITIME,
            Field::TransmitTime => XFLD_EVT_TRANSMIT_HITIME,
            Field::XcapiReceiveTime => XFLD_EVT_XCAPI_RECEIVE_HITIME,
            Field::XcapiCallbackTime => XFLD_EVT_XCAPI_CALLBACK_HITIME,
            Field::Status => XFLD_EVT_STATUS,
            Field::ItemKey => XFLD_EVT_ITEM_KEY,
            Field::ItemKeyString => XFLD_EVT_ITEM_KEY_STRING,
            Field::LineId => XFLD_EVT_LINE_ID,
            Field::ExchangeSequence => XFLD_EVT_SEQUENCE,
            Field::TimingGroup => XFGRP_EVT_TIMING,
        }
    }
}

/// Field accessors common to every event object.
pub trait Common: Wrapper {
    /// Retrieve the status code from the event, decoded into the two
    /// outcome kinds.
    fn status(&self, plant: &Appliance) -> (r: Result<Result<Success, ExegyError>, Error>)
        ensures
            match spec_field_read(*plant, self.spec_handle(), XC_EVENT, XFLD_EVT_STATUS, 4) {
                Ok(b) => r == Ok::<Result<Success, ExegyError>, Error>(
                    spec_decode(vstd::bytes::spec_u32_from_le_bytes(b)),
                ),
                Err(e) => r == Err::<Result<Success, ExegyError>, Error>(e),
            },
    {
        match field::get_u32(plant, self, XC_EVENT, Field::Status) {
            Ok(v) => Ok(decode(v)),
            Err(e) => Err(e),
        }
    }

    /// Retrieve the key of the item (channel) this event refers to.
    fn item_key(&self, plant: &Appliance) -> (r: Result<Key, Error>)
        ensures
            match spec_field_read(
                *plant,
                self.spec_handle(),
                XC_EVENT,
                XFLD_EVT_ITEM_KEY,
                KEY_SIZE,
            ) {
                Ok(b) => r is Ok && r->Ok_0.feed.bytes@ == seq![b[0], b[1]]
                    && r->Ok_0.group.bytes@ == seq![b[2], b[3]] && forall|i: int|
                    0 <= i < 32 ==> r->Ok_0.symbol.bytes@[i] == b[4 + i],
                Err(e) => r == Err::<Key, Error>(e),
            },
    {
        match field::get_record(plant, self, XC_EVENT, Field::ItemKey, KEY_SIZE) {
            Ok(b) => Ok(Key::new(&b)),
            Err(e) => Err(e),
        }
    }

    /// Retrieve the key string of the item (channel) this event refers
    /// to.
    fn item_key_string(&self, plant: &Appliance) -> (r: Result<String, Error>)
        ensures
            match spec_field_read(
                *plant,
                self.spec_handle(),
                XC_EVENT,
                XFLD_EVT_ITEM_KEY_STRING,
                80,
            ) {
                Ok(b) => if vstd::utf8::valid_utf8(b) {
                    r is Ok && r->Ok_0@ == vstd::utf8::decode_utf8(b)
                } else {
                    r == Err::<String, Error>(Error::InvalidUtf8)
                },
                Err(e) => r == Err::<String, Error>(e),
            },
    {
        field::get_fixedstring(plant, self, XC_EVENT, Field::ItemKeyString, 80)
    }

    /// Retrieve the line ID the event was received from.
    fn line_id(&self, plant: &Appliance) -> (r: Result<u16, Error>)
        ensures
            match spec_field_read(*plant, self.spec_handle(), XC_EVENT, XFLD_EVT_LINE_ID, 2) {
                Ok(b) => r == Ok::<u16, Error>(spec_u16_from_le_bytes(b)),
                Err(e) => r == Err::<u16, Error>(e),
            },
    {
        field::get_u16(plant, self, XC_EVENT, Field::LineId)
    }

    /// Retrieve the time the event was received by the appliance.
    fn receive_time(&self, plant: &Appliance) -> (r: Result<u64, Error>)
        ensures
            match spec_field_read(
                *plant,
                self.spec_handle(),
                XC_EVENT,
                XFLD_EVT_RECEIVE_HITIME,
                8,
            ) {
                Ok(b) => r == Ok::<u64, Error>(vstd::bytes::spec_u64_from_le_bytes(b)),
                Err(e) => r == Err::<u64, Error>(e),
            },
    {
        field::get_u64(plant, self, XC_EVENT, Field::ReceiveTime)
    }

    /// Retrieve the time the event was transmitted by the appliance.
    fn transmit_time(&self, plant: &Appliance) -> (r: Result<u64, Error>)
        ensures
            match spec_field_read(
                *plant,
                self.spec_handle(),
                XC_EVENT,
                XFLD_EVT_TRANSMIT_HITIME,
                8,
            ) {
                Ok(b) => r == Ok::<u64, Error>(vstd::bytes::spec_u64_from_le_bytes(b)),
                Err(e) => r == Err::<u64, Error>(e),
            },
    {
        field::get_u64(plant, self, XC_EVENT, Field::TransmitTime)
    }

    /// Retrieve the time the event was received by the client library.
    fn xcapi_receive_timestamp(&self, plant: &Appliance) -> (r: Result<u64, Error>)
        ensures
            match spec_field_read(
                *plant,
                self.spec_handle(),
                XC_EVENT,
                XFLD_EVT_XCAPI_RECEIVE_HITIME,
                8,
            ) {
                Ok(b) => r == Ok::<u64, Error>(vstd::bytes::spec_u64_from_le_bytes(b)),
                Err(e) => r == Err::<u64, Error>(e),
            },
    {
        field::get_u64(plant, self, XC_EVENT, Field::XcapiReceiveTime)
    }

    /// Retrieve the timestamp the callback was fired.
    fn xcapi_callback_timestamp(&self, plant: &Appliance) -> (r: Result<u64, Error>)
        ensures
            match spec_field_read(
                *plant,
                self.spec_handle(),
                XC_EVENT,
                XFLD_EVT_XCAPI_CALLBACK_HITIME,
                8,
            ) {
                Ok(b) => r == Ok::<u64, Error>(vstd::bytes::spec_u64_from_le_bytes(b)),
                Err(e) => r == Err::<u64, Error>(e),
            },
    {
        field::get_u64(plant, self, XC_EVENT, Field::XcapiCallbackTime)
    }

    /// Retrieve the exchange sequence number of the event.
    fn exchange_sequence(&self, plant: &Appliance) -> (r: Result<u64, Error>)
        ensures
            match spec_field_read(*plant, self.spec_handle(), XC_EVENT, XFLD_EVT_SEQUENCE, 8) {
                Ok(b) => r == Ok::<u64, Error>(vstd::bytes::spec_u64_from_le_bytes(b)),
                Err(e) => r == Err::<u64, Error>(e),
            },
    {
        field::get_u64(plant, self, XC_EVENT, Field::ExchangeSequence)
    }

    /// Retrieve the timings of this event.
    fn timing(&self, plant: &Appliance) -> (r: Result<EventTiming, Error>)
        ensures
            match spec_field_read(
                *plant,
                self.spec_handle(),
                XC_EVENT,
                XFGRP_EVT_TIMING,
                TIMING_GROUP_SIZE,
            ) {
                Ok(b) => r == Ok::<EventTiming, Error>(spec_timing_of(b)),
                Err(e) => r == Err::<EventTiming, Error>(e),
            },
    {
        match field::get_record(plant, self, XC_EVENT, Field::TimingGroup, TIMING_GROUP_SIZE) {
            Ok(b) => Ok(EventTiming::new(&b)),
            Err(e) => Err(e),
        }
    }
}

} // verus!
