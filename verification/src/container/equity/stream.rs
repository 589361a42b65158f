//! Top-of-book containers for equity and equity options streams.
//!
//! Every accessor here is a zero-logic instantiation of the generic
//! field accessor, parameterized only by the wire shape and the field
//! identifier; the builder records which optional per-event handlers
//! are registered and carries that record through the capsule token.

use vstd::bytes::{spec_u16_from_le_bytes, spec_u32_from_le_bytes, spec_u64_from_le_bytes};
use vstd::prelude::*;
use vstd::utf8::{decode_utf8, encode_utf8, valid_utf8};

use crate::appliance::Appliance;
use crate::capsule::{Capsule, CapsuleStore};
use crate::container::RealTime;
use crate::error::{decode, Error, ExegyError};
use crate::feed::Id as FeedId;
use crate::field::{
    self, spec_field_read, spec_has_nul, spec_set_effect, Field as FieldTrait, XC_CONTAINER,
};
use crate::group::Id as GroupId;
use crate::key::{AlternateId, Key, KEY_SIZE};
use crate::misc::{spec_order_ref_id_kind_of, HiTime, OrderRefIdKind, TradeVenue};
use crate::object::{spec_code_of, wrap_checked, Kind as ObjectKind, Wrapper};
use crate::session::TickerSession;
use crate::status::{Instrument as InstrumentStatus, Market as MarketStatus};

verus! {

/// Equity stream field: QuoteRate.
pub const XFLD_RT_EQSTRM_MAX_QUOTE_RATE: u64 = 0x4101;
/// Equity stream field: Key.
pub const XFLD_RT_EQSTRM_KEY: u64 = 0x4102;
/// Equity stream field: KeyString.
pub const XFLD_RT_EQSTRM_KEY_STRING: u64 = 0x4103;
/// Equity stream field: UpdateReceiveHitime.
pub const XFLD_RT_EQSTRM_UPDATE_RECEIVE_HITIME: u64 = 0x4104;
/// Equity stream field: UpdateXcapiReceiveHitime.
pub const XFLD_RT_EQSTRM_UPDATE_XCAPI_RECEIVE_HITIME: u64 = 0x4105;
/// Equity stream field: AlternateId1.
pub const XFLD_RT_EQSTRM_ALTERNATE_ID1: u64 = 0x4106;
/// Equity stream field: AlternateId2.
pub const XFLD_RT_EQSTRM_ALTERNATE_ID2: u64 = 0x4107;
/// Equity stream field: OrderRefIdType.
pub const XFLD_RT_EQSTRM_ORDER_REF_ID_TYPE: u64 = 0x4108;
/// Equity stream field: PriceType.
pub const XFLD_RT_EQSTRM_PRICE_TYPE: u64 = 0x4109;
/// Equity stream field: SymbolType.
pub const XFLD_RT_EQSTRM_SYMBOL_TYPE: u64 = 0x410a;
/// Equity stream field: InstrumentStatus.
pub const XFLD_RT_EQSTRM_INSTRUMENT_STATUS: u64 = 0x410b;
/// Equity stream field: MarketStatus.
pub const XFLD_RT_EQSTRM_MARKET_STATUS: u64 = 0x410c;
/// Equity stream field: PrimeExch.
pub const XFLD_RT_EQSTRM_PRIME_EXCH: u64 = 0x410d;
/// Equity stream field: PrimeCountry.
pub const XFLD_RT_EQSTRM_PRIME_COUNTRY: u64 = 0x410e;
/// Equity stream field: PrimeTradeVenue.
pub const XFLD_RT_EQSTRM_PRIME_TRADE_VENUE: u64 = 0x410f;
/// Equity stream field: LotSize.
pub const XFLD_RT_EQSTRM_LOT_SIZE: u64 = 0x4110;
/// Equity stream field: ShortSaleRestricted.
pub const XFLD_RT_EQSTRM_SHORT_SALE_RESTRICTED: u64 = 0x4111;

/// Field identifiers of equity stream containers.
#[derive(Clone, Copy, Debug)]
pub enum Field {
    /// QuoteRate.
    QuoteRate,
    /// Key.
    Key,
    /// KeyString.
    KeyString,
    /// UpdateReceiveHitime.
    UpdateReceiveHitime,
    /// UpdateXcapiReceiveHitime.
    UpdateXcapiReceiveHitime,
    /// AlternateId1.
    AlternateId1,
    /// AlternateId2.
    AlternateId2,
    /// OrderRefIdType.
    OrderRefIdType,
    /// PriceType.
    PriceType,
    /// SymbolType.
    SymbolType,
    /// InstrumentStatus.
    InstrumentStatus,
    /// MarketStatus.
    MarketStatus,
    /// PrimeExch.
    PrimeExch,
    /// PrimeCountry.
    PrimeCountry,
    /// PrimeTradeVenue.
    PrimeTradeVenue,
    /// LotSize.
    LotSize,
    /// ShortSaleRestricted.
    ShortSaleRestricted,
}

impl FieldTrait for Field {
    open spec fn spec_id(&self) -> u64 {
        match self {
            Field::QuoteRate => XFLD_RT_EQSTRM_MAX_QUOTE_RATE,
            Field::Key => XFLD_RT_EQSTRM_KEY,
            Field::KeyString => XFLD_RT_EQSTRM_KEY_STRING,
            Field::UpdateReceiveHitime => XFLD_RT_EQSTRM_UPDATE_RECEIVE_HITIME,
            Field::UpdateXcapiReceiveHitime => XFLD_RT_EQSTRM_UPDATE_XCAPI_RECEIVE_HITIME,
            Field::AlternateId1 => XFLD_RT_EQSTRM_ALTERNATE_ID1,
            Field::AlternateId2 => XFLD_RT_EQSTRM_ALTERNATE_ID2,
            Field::OrderRefIdType => XFLD_RT_EQSTRM_ORDER_REF_ID_TYPE,
            Field::PriceType => XFLD_RT_EQSTRM_PRICE_TYPE,
            Field::SymbolType => XFLD_RT_EQSTRM_SYMBOL_TYPE,
            Field::InstrumentStatus => XFLD_RT_EQSTRM_INSTRUMENT_STATUS,
            Field::MarketStatus => XFLD_RT_EQSTRM_MARKET_STATUS,
            Field::PrimeExch => XFLD_RT_EQSTRM_PRIME_EXCH,
            Field::PrimeCountry => XFLD_RT_EQSTRM_PRIME_COUNTRY,
            Field::PrimeTradeVenue => XFLD_RT_EQSTRM_PRIME_TRADE_VENUE,
            Field::LotSize => XFLD_RT_EQSTRM_LOT_SIZE,
            Field::ShortSaleRestricted => XFLD_RT_EQSTRM_SHORT_SALE_RESTRICTED,
        }
    }

    fn to_u64(&self) -> (r: u64) {
        match self {
            Field::QuoteRate => XFLD_RT_EQSTRM_MAX_QUOTE_RATE,
            Field::Key => XFLD_RT_EQSTRM_KEY,
            Field::KeyString => XFLD_RT_EQSTRM_KEY_STRING,
            Field::UpdateReceiveHitime => XFLD_RT_EQSTRM_UPDATE_RECEIVE_HITIME,
            Field::UpdateXcapiReceiveHitime => XFLD_RT_EQSTRM_UPDATE_XCAPI_RECEIVE_HITIME,
            Field::AlternateId1 => XFLD_RT_EQSTRM_ALTERNATE_ID1,
            Field::AlternateId2 => XFLD_RT_EQSTRM_ALTERNATE_ID2,
            Field::OrderRefIdType => XFLD_RT_EQSTRM_ORDER_REF_ID_TYPE,
            Field::PriceType => XFLD_RT_EQSTRM_PRICE_TYPE,
            Field::SymbolType => XFLD_RT_EQSTRM_SYMBOL_TYPE,
            Field::InstrumentStatus => XFLD_RT_EQSTRM_INSTRUMENT_STATUS,
            Field::MarketStatus => XFLD_RT_EQSTRM_MARKET_STATUS,
            Field::PrimeExch => XFLD_RT_EQSTRM_PRIME_EXCH,
            Field::PrimeCountry => XFLD_RT_EQSTRM_PRIME_COUNTRY,
            Field::PrimeTradeVenue => XFLD_RT_EQSTRM_PRIME_TRADE_VENUE,
            Field::LotSize => XFLD_RT_EQSTRM_LOT_SIZE,
            Field::ShortSaleRestricted => XFLD_RT_EQSTRM_SHORT_SALE_RESTRICTED,
        }
    }
}

/// An equity stream container.
#[derive(Clone, Copy, Debug)]
pub struct Stream {
    handle: u64,
}

impl Wrapper for Stream {
    open spec fn wrapped_kind() -> ObjectKind {
        ObjectKind::RealtimeEquityStream
    }

    closed spec fn spec_handle(&self) -> u64 {
        self.handle
    }

    fn from_handle_unchecked(handle: u64) -> (r: Self) {
        Stream { handle }
    }

    fn as_xhandle(&self) -> (r: u64) {
        self.handle
    }

    fn wrapped_kind_code() -> (r: u16) {
        ObjectKind::RealtimeEquityStream.to_u16()
    }
}

impl RealTime for Stream {

}

impl crate::container::Common for Stream {

}

impl Stream {
    /// Retrieve the maximum rate, in quotes per second, for metered
    /// quote delivery to subscriptions for this object.
    pub fn quote_rate(&self, plant: &Appliance) -> (r: Result<u32, Error>)
        ensures
            match spec_field_read(
                *plant,
                self.spec_handle(),
                XC_CONTAINER,
                XFLD_RT_EQSTRM_MAX_QUOTE_RATE,
                4,
            ) {
                Ok(b) => r == Ok::<u32, Error>(spec_u32_from_le_bytes(b)),
                Err(e) => r == Err::<u32, Error>(e),
            },
    {
        field::get_u32(plant, self, XC_CONTAINER, Field::QuoteRate)
    }

    /// Set the maximum rate, in quotes per second, for metered quote
    /// delivery to subscriptions for this object.  The rate applies to
    /// subscriptions requested after the write, not to existing ones.
    pub fn set_quote_rate(&self, plant: &mut Appliance, qps: u32) -> (r: Result<(), Error>)
        ensures
            !old(plant).spec_has_object(self.spec_handle()) ==> r == Err::<(), Error>(
                Error::Exegy(ExegyError::BadHandle),
            ) && *final(plant) == *old(plant),
            old(plant).spec_has_object(self.spec_handle()) ==> r == Ok::<(), Error>(())
                && spec_set_effect(
                *old(plant),
                *final(plant),
                self.spec_handle(),
                XC_CONTAINER,
                XFLD_RT_EQSTRM_MAX_QUOTE_RATE,
                vstd::bytes::spec_u32_to_le_bytes(qps),
            ),
    {
        field::set_u32(plant, self, XC_CONTAINER, Field::QuoteRate, qps)
    }

    /// Retrieve the key for the currently subscribed-to instrument.
    pub fn key(&self, plant: &Appliance, slot: u32) -> (r: Result<Key, Error>)
        ensures
            match spec_field_read(*plant, self.spec_handle(), slot, XFLD_RT_EQSTRM_KEY, KEY_SIZE) {
                Ok(b) => r is Ok && r->Ok_0.feed.bytes@ == seq![b[0], b[1]]
                    && r->Ok_0.group.bytes@ == seq![b[2], b[3]] && forall|i: int|
                    0 <= i < 32 ==> r->Ok_0.symbol.bytes@[i] == b[4 + i],
                Err(e) => r == Err::<Key, Error>(e),
            },
    {
        match field::get_record(plant, self, slot, Field::Key, KEY_SIZE) {
            Ok(b) => Ok(Key::new(&b)),
            Err(e) => Err(e),
        }
    }

    /// Retrieve the key string for the subscribed-to instrument.
    pub fn key_string(&self, plant: &Appliance, slot: u32) -> (r: Result<String, Error>)
        ensures
            match spec_field_read(
                *plant,
                self.spec_handle(),
                slot,
                XFLD_RT_EQSTRM_KEY_STRING,
                80,
            ) {
                Ok(b) => if valid_utf8(b) {
                    r is Ok && r->Ok_0@ == decode_utf8(b)
                } else {
                    r == Err::<String, Error>(Error::InvalidUtf8)
                },
                Err(e) => r == Err::<String, Error>(e),
            },
    {
        field::get_fixedstring(plant, self, slot, Field::KeyString, 80)
    }

    /// Retrieve the timestamp indicating when the appliance received the
    /// last event for this instrument.
    pub fn update_recv_hitime(&self, plant: &Appliance, slot: u32) -> (r: Result<HiTime, Error>)
        ensures
            match spec_field_read(
                *plant,
                self.spec_handle(),
                slot,
                XFLD_RT_EQSTRM_UPDATE_RECEIVE_HITIME,
                8,
            ) {
                Ok(b) => r == Ok::<HiTime, Error>(HiTime { raw: spec_u64_from_le_bytes(b) }),
                Err(e) => r == Err::<HiTime, Error>(e),
            },
    {
        match field::get_u64(plant, self, slot, Field::UpdateReceiveHitime) {
            Ok(v) => Ok(HiTime::from(v)),
            Err(e) => Err(e),
        }
    }

    /// Retrieve the timestamp when the client library received the last
    /// event for this instrument.
    pub fn update_xcapi_recv_hitime(&self, plant: &Appliance, slot: u32) -> (r: Result<
        HiTime,
        Error,
    >)
        ensures
            match spec_field_read(
                *plant,
                self.spec_handle(),
                slot,
                XFLD_RT_EQSTRM_UPDATE_XCAPI_RECEIVE_HITIME,
                8,
            ) {
                Ok(b) => r == Ok::<HiTime, Error>(HiTime { raw: spec_u64_from_le_bytes(b) }),
                Err(e) => r == Err::<HiTime, Error>(e),
            },
    {
        match field::get_u64(plant, self, slot, Field::UpdateXcapiReceiveHitime) {
            Ok(v) => Ok(HiTime::from(v)),
            Err(e) => Err(e),
        }
    }

    /// Retrieve the first alternate identifier (symbol alias) for the
    /// subscribed-to instrument, if one is available.
    pub fn alternate_id1(&self, plant: &Appliance, slot: u32) -> (r: Result<AlternateId, Error>)
        ensures
            match spec_field_read(
                *plant,
                self.spec_handle(),
                slot,
                XFLD_RT_EQSTRM_ALTERNATE_ID1,
                32,
            ) {
                Ok(b) => r is Ok && forall|i: int| 0 <= i < 32 ==> r->Ok_0.bytes@[i] == b[i],
                Err(e) => r == Err::<AlternateId, Error>(e),
            },
    {
        match field::get_record(plant, self, slot, Field::AlternateId1, 32) {
            Ok(b) => Ok(AlternateId::from_wire(&b)),
            Err(e) => Err(e),
        }
    }

    /// Retrieve the second alternate identifier (symbol alias) for the
    /// subscribed-to instrument, if one is available.
    pub fn alternate_id2(&self, plant: &Appliance, slot: u32) -> (r: Result<AlternateId, Error>)
        ensures
            match spec_field_read(
                *plant,
                self.spec_handle(),
                slot,
                XFLD_RT_EQSTRM_ALTERNATE_ID2,
                32,
            ) {
                Ok(b) => r is Ok && forall|i: int| 0 <= i < 32 ==> r->Ok_0.bytes@[i] == b[i],
                Err(e) => r == Err::<AlternateId, Error>(e),
            },
    {
        match field::get_record(plant, self, slot, Field::AlternateId2, 32) {
            Ok(b) => Ok(AlternateId::from_wire(&b)),
            Err(e) => Err(e),
        }
    }

    /// Retrieve the encoding scheme used for order reference identifiers
    /// in this object.
    pub fn order_ref_id_type(&self, plant: &Appliance, slot: u32) -> (r: Result<
        OrderRefIdKind,
        Error,
    >)
        ensures
            match spec_field_read(
                *plant,
                self.spec_handle(),
                slot,
                XFLD_RT_EQSTRM_ORDER_REF_ID_TYPE,
                1,
            ) {
                Ok(b) => r == (match spec_order_ref_id_kind_of(b[0]) {
                    Some(k) => Ok::<OrderRefIdKind, Error>(k),
                    None => Err::<OrderRefIdKind, Error>(Error::KindUnknown),
                }),
                Err(e) => r == Err::<OrderRefIdKind, Error>(e),
            },
    {
        match field::get_u8(plant, self, slot, Field::OrderRefIdType) {
            Ok(v) => OrderRefIdKind::try_from_code(v),
            Err(e) => Err(e),
        }
    }

    /// Retrieve the price type used for price-related fields in the
    /// object.
    pub fn price_type(&self, plant: &Appliance, slot: u32) -> (r: Result<u8, Error>)
        ensures
            match spec_field_read(
                *plant,
                self.spec_handle(),
                slot,
                XFLD_RT_EQSTRM_PRICE_TYPE,
                1,
            ) {
                Ok(b) => r == Ok::<u8, Error>(b[0]),
                Err(e) => r == Err::<u8, Error>(e),
            },
    {
        field::get_u8(plant, self, slot, Field::PriceType)
    }

    /// Retrieve the type of instrument for this subscription.
    pub fn symbol_type(&self, plant: &Appliance, slot: u32) -> (r: Result<u8, Error>)
        ensures
            match spec_field_read(
                *plant,
                self.spec_handle(),
                slot,
                XFLD_RT_EQSTRM_SYMBOL_TYPE,
                1,
            ) {
                Ok(b) => r == Ok::<u8, Error>(b[0]),
                Err(e) => r == Err::<u8, Error>(e),
            },
    {
        field::get_u8(plant, self, slot, Field::SymbolType)
    }

    /// Retrieve the normalized trading status for the instrument.
    pub fn instrument_status(&self, plant: &Appliance, slot: u32) -> (r: Result<
        InstrumentStatus,
        Error,
    >)
        ensures
            match spec_field_read(
                *plant,
                self.spec_handle(),
                slot,
                XFLD_RT_EQSTRM_INSTRUMENT_STATUS,
                1,
            ) {
                Ok(b) => r == Ok::<InstrumentStatus, Error>(InstrumentStatus { raw: b[0] }),
                Err(e) => r == Err::<InstrumentStatus, Error>(e),
            },
    {
        match field::get_u8(plant, self, slot, Field::InstrumentStatus) {
            Ok(v) => Ok(InstrumentStatus::new(v)),
            Err(e) => Err(e),
        }
    }

    /// Retrieve the normalized trading status for the market or
    /// instrument group.
    pub fn market_status(&self, plant: &Appliance, slot: u32) -> (r: Result<MarketStatus, Error>)
        ensures
            match spec_field_read(
                *plant,
                self.spec_handle(),
                slot,
                XFLD_RT_EQSTRM_MARKET_STATUS,
                1,
            ) {
                Ok(b) => r == Ok::<MarketStatus, Error>(MarketStatus { raw: b[0] }),
                Err(e) => r == Err::<MarketStatus, Error>(e),
            },
    {
        match field::get_u8(plant, self, slot, Field::MarketStatus) {
            Ok(v) => Ok(MarketStatus::new(v)),
            Err(e) => Err(e),
        }
    }

    /// Retrieve the prime (listing) feed for the instrument.
    pub fn prime_feed_id(&self, plant: &Appliance, slot: u32) -> (r: Result<FeedId, Error>)
        ensures
            match spec_field_read(
                *plant,
                self.spec_handle(),
                slot,
                XFLD_RT_EQSTRM_PRIME_EXCH,
                2,
            ) {
                Ok(b) => r is Ok && r->Ok_0.bytes@ == seq![b[0], b[1]],
                Err(e) => r == Err::<FeedId, Error>(e),
            },
    {
        match field::get_record(plant, self, slot, Field::PrimeExch, 2) {
            Ok(b) => {
                let id = FeedId { bytes: [b[0], b[1]] };
                proof {
                    assert(id.bytes@ =~= seq![b@[0], b@[1]]);
                }
                Ok(id)
            },
            Err(e) => Err(e),
        }
    }

    /// Retrieve the group of the prime (listing) feed for the
    /// instrument.
    pub fn prime_group_id(&self, plant: &Appliance, slot: u32) -> (r: Result<GroupId, Error>)
        ensures
            match spec_field_read(
                *plant,
                self.spec_handle(),
                slot,
                XFLD_RT_EQSTRM_PRIME_COUNTRY,
                2,
            ) {
                Ok(b) => r is Ok && r->Ok_0.bytes@ == seq![b[0], b[1]],
                Err(e) => r == Err::<GroupId, Error>(e),
            },
    {
        match field::get_record(plant, self, slot, Field::PrimeCountry, 2) {
            Ok(b) => {
                let id = GroupId { bytes: [b[0], b[1]] };
                proof {
                    assert(id.bytes@ =~= seq![b@[0], b@[1]]);
                }
                Ok(id)
            },
            Err(e) => Err(e),
        }
    }

    /// Retrieve the MIC code of the prime venue for the instrument.
    pub fn primary_trade_venue(&self, plant: &Appliance, slot: u32) -> (r: Result<
        TradeVenue,
        Error,
    >)
        ensures
            match spec_field_read(
                *plant,
                self.spec_handle(),
                slot,
                XFLD_RT_EQSTRM_PRIME_TRADE_VENUE,
                4,
            ) {
                Ok(b) => r is Ok && r->Ok_0.chars@ == seq![b[0], b[1], b[2], b[3]],
                Err(e) => r == Err::<TradeVenue, Error>(e),
            },
    {
        match field::get_record(plant, self, slot, Field::PrimeTradeVenue, 4) {
            Ok(b) => {
                let venue = TradeVenue { chars: [b[0], b[1], b[2], b[3]] };
                proof {
                    assert(venue.chars@ =~= seq![b@[0], b@[1], b@[2], b@[3]]);
                }
                Ok(venue)
            },
            Err(e) => Err(e),
        }
    }

    /// Retrieve the number of shares in a standard lot for the
    /// instrument.
    pub fn lot_size(&self, plant: &Appliance, slot: u32) -> (r: Result<u16, Error>)
        ensures
            match spec_field_read(*plant, self.spec_handle(), slot, XFLD_RT_EQSTRM_LOT_SIZE, 2) {
                Ok(b) => r == Ok::<u16, Error>(spec_u16_from_le_bytes(b)),
                Err(e) => r == Err::<u16, Error>(e),
            },
    {
        field::get_u16(plant, self, slot, Field::LotSize)
    }

    /// Retrieve whether the short-sale-restricted status is in effect
    /// for the instrument.
    pub fn short_sale_restricted(&self, plant: &Appliance, slot: u32) -> (r: Result<bool, Error>)
        ensures
            match spec_field_read(
                *plant,
                self.spec_handle(),
                slot,
                XFLD_RT_EQSTRM_SHORT_SALE_RESTRICTED,
                1,
            ) {
                Ok(b) => r == Ok::<bool, Error>(b[0] != 0),
                Err(e) => r == Err::<bool, Error>(e),
            },
    {
        match field::get_u8(plant, self, slot, Field::ShortSaleRestricted) {
            Ok(v) => Ok(v != 0),
            Err(e) => Err(e),
        }
    }

    /// Subscribe to a new instrument by key string, registering the
    /// given payload as the per-item turnkey supplied back to callbacks
    /// on this instrument, and returning the allocated slot.
    pub fn subscribe_by_string(
        &self,
        plant: &mut Appliance,
        caps: &mut CapsuleStore,
        key_string: &str,
        user_data: u64,
    ) -> (r: Result<u32, Error>)
        ensures
            spec_has_nul(encode_utf8(key_string@)) ==> r == Err::<u32, Error>(Error::EmbeddedNull)
                && *final(plant) == *old(plant) && *final(caps) == *old(caps),
            !spec_has_nul(encode_utf8(key_string@)) && !old(plant).spec_has_object(
                self.spec_handle(),
            ) ==> r == Err::<u32, Error>(Error::Exegy(ExegyError::BadHandle)),
            !spec_has_nul(encode_utf8(key_string@)) && old(plant).spec_has_object(
                self.spec_handle(),
            ) && old(plant).spec_object(self.spec_handle()).item_turnkeys@.len() >= old(
                plant,
            ).spec_object(self.spec_handle()).max_slots ==> r == Err::<u32, Error>(
                Error::Exegy(ExegyError::Capacity),
            ),
            !spec_has_nul(encode_utf8(key_string@)) && old(plant).spec_has_object(
                self.spec_handle(),
            ) && old(plant).spec_object(self.spec_handle()).item_turnkeys@.len() < old(
                plant,
            ).spec_object(self.spec_handle()).max_slots ==> {
                &&& r == Ok::<u32, Error>(
                    old(plant).spec_object(self.spec_handle()).item_turnkeys@.len() as u32,
                )
                &&& final(plant).spec_object(self.spec_handle()).item_turnkeys@.len() == old(
                    plant,
                ).spec_object(self.spec_handle()).item_turnkeys@.len() + 1
                &&& final(caps).spec_get(
                    final(plant).spec_object(self.spec_handle()).item_turnkeys@.last(),
                ) == Some(Capsule::User(user_data))
            },
    {
        let owned = key_string.to_owned();
        if field::string_has_nul(&owned) {
            return Err(Error::EmbeddedNull);
        }
        let turnkey = caps.mint(Capsule::User(user_data));
        let (status, slot) = plant.request_item(self.as_xhandle(), turnkey);
        match decode(status) {
            Ok(_) => Ok(slot),
            Err(e) => Err(Error::Exegy(e)),
        }
    }
}

/// A builder which can create an equity stream container: records which
/// of the optional per-event handlers are registered.
#[derive(Clone, Copy, Debug, PartialEq, Eq, Structural, Default)]
pub struct Builder {
    /// Whether a subscribe handler is registered.
    pub subscribe: bool,
    /// Whether a refresh handler is registered.
    pub refresh: bool,
    /// Whether a trade handler is registered.
    pub trade: bool,
    /// Whether a quote handler is registered.
    pub quote: bool,
    /// Whether a cancel handler is registered.
    pub cancel: bool,
    /// Whether a correction handler is registered.
    pub correction: bool,
    /// Whether an order-imbalance handler is registered.
    pub order_imbalance: bool,
    /// Whether a trading-action handler is registered.
    pub trading_action: bool,
    /// Whether an indicative-price handler is registered.
    pub indicative_price: bool,
    /// Whether a trade-summary handler is registered.
    pub trade_summary: bool,
    /// Whether an exchange-statistics handler is registered.
    pub exchange_statistics: bool,
}

/// The state an equity stream carries through its capsule token.
pub type Context = Builder;

impl Builder {
    /// Register the callback to be fired when a subscription event occurs.
    pub fn on_subscribe(self) -> (r: Self)
        ensures
            r == (Builder { subscribe: true, ..self }),
    {
        Builder { subscribe: true, ..self }
    }

    /// Register the callback to be fired when a refresh event occurs.
    pub fn on_refresh(self) -> (r: Self)
        ensures
            r == (Builder { refresh: true, ..self }),
    {
        Builder { refresh: true, ..self }
    }

    /// Register the callback to be fired when a trade event is received.
    pub fn on_trade(self) -> (r: Self)
        ensures
            r == (Builder { trade: true, ..self }),
    {
        Builder { trade: true, ..self }
    }

    /// Register the callback to be fired when a quote event is received.
    pub fn on_quote(self) -> (r: Self)
        ensures
            r == (Builder { quote: true, ..self }),
    {
        Builder { quote: true, ..self }
    }

    /// Register the callback to be fired when a cancel event is received.
    pub fn on_cancel(self) -> (r: Self)
        ensures
            r == (Builder { cancel: true, ..self }),
    {
        Builder { cancel: true, ..self }
    }

    /// Register the callback to be fired when a correction event is received.
    pub fn on_correction(self) -> (r: Self)
        ensures
            r == (Builder { correction: true, ..self }),
    {
        Builder { correction: true, ..self }
    }

    /// Register the callback to be fired when an order imbalance event is received.
    pub fn on_order_imbalance(self) -> (r: Self)
        ensures
            r == (Builder { order_imbalance: true, ..self }),
    {
        Builder { order_imbalance: true, ..self }
    }

    /// Register the callback to be fired when a trading action event is received.
    pub fn on_trading_action(self) -> (r: Self)
        ensures
            r == (Builder { trading_action: true, ..self }),
    {
        Builder { trading_action: true, ..self }
    }

    /// Register the callback to be fired when an indicative price is provided.
    pub fn on_indicative_price(self) -> (r: Self)
        ensures
            r == (Builder { indicative_price: true, ..self }),
    {
        Builder { indicative_price: true, ..self }
    }

    /// Register the callback to be fired when a trade summary event occurs.
    pub fn on_trade_summary(self) -> (r: Self)
        ensures
            r == (Builder { trade_summary: true, ..self }),
    {
        Builder { trade_summary: true, ..self }
    }

    /// Register the callback to be fired when feed-provided statistics arrive.
    pub fn on_exchange_statistics(self) -> (r: Self)
        ensures
            r == (Builder { exchange_statistics: true, ..self }),
    {
        Builder { exchange_statistics: true, ..self }
    }

    /// Build a new equity stream container on the given session: mint
    /// the context capsule, hand its token to the native create call,
    /// and wrap the returned handle after checking its kind.
    pub fn build(
        self,
        plant: &mut Appliance,
        caps: &mut CapsuleStore,
        session: &TickerSession,
        max_slots: u32,
    ) -> (r: Result<Stream, Error>)
        ensures
            r is Ok,
            r is Ok ==> {
                &&& final(plant).spec_has_object(r->Ok_0.spec_handle())
                &&& final(plant).spec_object(r->Ok_0.spec_handle()).kind_code == spec_code_of(
                    ObjectKind::RealtimeEquityStream,
                )
                &&& final(plant).spec_object(r->Ok_0.spec_handle()).max_slots == max_slots
                &&& final(caps).spec_get(
                    final(plant).spec_object(r->Ok_0.spec_handle()).turnkey,
                ) == Some(Capsule::EquityStream(self))
            },
    {
        let turnkey = caps.mint(Capsule::EquityStream(self));
        let (status, object) = plant.create_object(
            ObjectKind::RealtimeEquityStream.to_u16(),
            turnkey,
            max_slots,
        );
        if let Err(e) = decode(status) {
            return Err(Error::Exegy(e));
        }
        wrap_checked::<Stream>(plant, object)
    }
}

} // verus!
