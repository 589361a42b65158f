//! The lookup tables: feeds, groups, symbol kinds, order reference
//! encodings, exponents, and prices.

use rxegy::feed::{Feed as FeedTrait, Id as FeedId};
use rxegy::group::{Corporate, Country, Group};
use rxegy::misc::{Date, HiTime, OrderRefIdKind, Size, SymbolKind, Volume};
use rxegy::price::{
    format_price_string, ExponentKind, Price, PriceKind, XC_BLANK_PRICE, XC_MARKET_PRICE,
    XC_OVERFLOW_PRICE, XC_UNDERFLOW_PRICE,
};
use rxegy::error::Error;
use rxegy::{InternalFeed, UsFeed};

#[test]
fn us_feed_codes() {
    assert_eq!(UsFeed::try_from_bytes(b'A', 0), Some(UsFeed::NyseMktViaSip));
    assert_eq!(UsFeed::try_from_bytes(b'A', b'A'), Some(UsFeed::ArcaBbo));
    assert_eq!(UsFeed::try_from_bytes(b'Q', 0), Some(UsFeed::NasdaqViaSip));
    assert_eq!(UsFeed::try_from_bytes(b'\\', b'\\'), Some(UsFeed::Nbbo));
    assert_eq!(UsFeed::try_from_bytes(b'_', b'8'), Some(UsFeed::Connection8));
    assert_eq!(UsFeed::try_from_bytes(b'!', b'!'), None);
    let id = FeedId { bytes: [b'I', b'E'] };
    assert_eq!(UsFeed::try_from_id(&id), Some(UsFeed::IexTops));
}

#[test]
fn us_feed_mic_and_group() {
    assert_eq!(UsFeed::ArcaBbo.mic(), Some(i32::from_be_bytes(*b"ARCX")));
    assert_eq!(UsFeed::ArcaTrades.mic(), Some(i32::from_be_bytes(*b"ARCX")));
    assert_eq!(UsFeed::NyseMktViaSip.mic(), Some(i32::from_be_bytes(*b"????")));
    assert_eq!(UsFeed::ArcaBbo.group(), Group::Country(Country::UnitedStates));
}

#[test]
fn internal_feed_codes() {
    assert_eq!(InternalFeed::try_from_bytes(b'B', b'X'), Some(InternalFeed::Baskets));
    assert_eq!(InternalFeed::try_from_bytes(b'\\', b'N'), Some(InternalFeed::Montage));
    assert_eq!(InternalFeed::try_from_bytes(b'Z', b'Z'), None);
    assert_eq!(InternalFeed::Keylists.mic(), None);
    assert_eq!(
        InternalFeed::Broadcast.group(),
        Group::Corporate(Corporate::ExegyInternal)
    );
}

#[test]
fn country_and_corporate_codes() {
    assert_eq!(Country::try_from_bytes(b'U', b'S'), Some(Country::UnitedStates));
    assert_eq!(Country::try_from_bytes(b'D', b'E'), Some(Country::Germany));
    assert_eq!(Country::try_from_bytes(b'Z', b'W'), Some(Country::Zimbabwe));
    assert_eq!(Country::try_from_bytes(b'U', b'U'), None);
    assert_eq!(Corporate::try_from_bytes(b'X', b'X'), Some(Corporate::ExegyInternal));
    assert_eq!(Corporate::try_from_bytes(b'E', b'B'), Some(Corporate::Ebs));
    assert_eq!(Corporate::try_from_bytes(b'U', b'S'), None);
}

#[test]
fn group_lookup_prefers_countries() {
    // A code in both name spaces resolves as a country first.
    assert_eq!(Group::try_from_bytes(b'U', b'S'), Some(Group::Country(Country::UnitedStates)));
    // A purely corporate code resolves through the second table.
    assert_eq!(
        Group::try_from_bytes(b'D', b'W'),
        Some(Group::Corporate(Corporate::DealerWeb))
    );
    assert_eq!(Group::try_from_bytes(b'0', b'0'), None);
}

#[test]
fn symbol_kinds_decode_totally() {
    assert_eq!(SymbolKind::from_code(rxegy::misc::XSYMTYP_EQUITY), SymbolKind::Equity);
    assert_eq!(SymbolKind::from_code(rxegy::misc::XSYMTYP_FX_SWAP), SymbolKind::FxSwap);
    assert_eq!(SymbolKind::from_code(0xEE), SymbolKind::Invalid);
    assert_eq!(SymbolKind::from_code(rxegy::misc::XSYMTYP_INVALID), SymbolKind::Invalid);
}

#[test]
fn order_ref_id_kinds() {
    assert_eq!(
        OrderRefIdKind::try_from_code(rxegy::misc::XOIDT_ASCII),
        Ok(OrderRefIdKind::Ascii)
    );
    assert_eq!(
        OrderRefIdKind::try_from_code(rxegy::misc::XOIDT_SYMID_UINT),
        Ok(OrderRefIdKind::SymIdUint)
    );
    assert_eq!(OrderRefIdKind::try_from_code(0x77), Err(Error::KindUnknown));
}

#[test]
fn exponent_kinds() {
    assert_eq!(ExponentKind::try_from_code(0), Ok(ExponentKind::Decimal0));
    assert_eq!(ExponentKind::try_from_code(4), Ok(ExponentKind::Decimal4));
    assert_eq!(ExponentKind::try_from_code(10), Ok(ExponentKind::Fractional512));
    assert_eq!(ExponentKind::try_from_code(11), Err(Error::InvalidExponent));
}

#[test]
fn price_sentinels_and_values() {
    assert_eq!(Price::from(1234).value(), Some(1234));
    assert_eq!(Price::from(1234).kind(), PriceKind::Normal(1234));
    assert_eq!(Price::from(XC_BLANK_PRICE).value(), None);
    assert_eq!(Price::from(XC_BLANK_PRICE).kind(), PriceKind::Blank);
    assert_eq!(Price::from(XC_MARKET_PRICE).kind(), PriceKind::Market);
    assert_eq!(Price::from(XC_OVERFLOW_PRICE).kind(), PriceKind::Overflow);
    assert_eq!(Price::from(XC_UNDERFLOW_PRICE).kind(), PriceKind::Underflow);
    assert_eq!(Price::from(-55).raw_value(), -55);
}

#[test]
fn price_formatting() {
    assert_eq!(format_price_string(Price::from(123456), ExponentKind::Decimal2), "1234.56");
    assert_eq!(format_price_string(Price::from(123456), ExponentKind::Decimal4), "12.3456");
    assert_eq!(format_price_string(Price::from(5), ExponentKind::Decimal3), "0.005");
    assert_eq!(format_price_string(Price::from(5000), ExponentKind::Decimal0), "5000.0");
    assert_eq!(format_price_string(Price::from(XC_BLANK_PRICE), ExponentKind::Decimal2), "");
    assert_eq!(format_price_string(Price::from(XC_MARKET_PRICE), ExponentKind::Decimal2), "*");
    assert_eq!(
        format_price_string(Price::from(XC_OVERFLOW_PRICE), ExponentKind::Decimal2),
        "(OVER)"
    );
    assert_eq!(
        format_price_string(Price::from(XC_UNDERFLOW_PRICE), ExponentKind::Decimal2),
        "(UNDER)"
    );
    // Negative prices render as the plain decimal formatter writes
    // them, the zero-padded fraction carrying its own sign.
    assert_eq!(format_price_string(Price::from(-123456), ExponentKind::Decimal2), "-1234.-56");
    assert_eq!(format_price_string(Price::from(-5), ExponentKind::Decimal3), "0.-05");
}

#[test]
fn misc_wrappers_keep_their_values() {
    assert_eq!(HiTime::from(77).raw, 77);
    assert_eq!(Size::from(12).raw, 12);
    assert_eq!(Volume::from(99).raw, 99);
    let d = Date::new((2024 << 9) | (12 << 5) | 25);
    assert_eq!((d.year(), d.month(), d.day()), (2024, 12, 25));
}
