//! The typed handle wrapper: construction is the only place the kind
//! tag is checked, and every failure mode is a distinct error.

use rxegy::appliance::Appliance;
use rxegy::error::{Error, ExegyError};
use rxegy::object::{wrap_checked, wrap_with_known_kind, Kind, Wrapper};
use rxegy::session::{StatusEvent, TickerSession};

#[test]
fn wrap_checked_succeeds_on_matching_kind() {
    let mut plant = Appliance::new();
    let (_st, handle) = plant.create_object(Kind::SessionTicker.to_u16(), 7, 0);
    let session: Result<TickerSession, Error> = wrap_checked(&plant, handle);
    let session = session.unwrap();
    assert_eq!(session.as_xhandle(), handle);
}

#[test]
fn wrap_checked_rejects_null_handle() {
    let plant = Appliance::new();
    let r: Result<TickerSession, Error> = wrap_checked(&plant, 0);
    assert_eq!(r.unwrap_err(), Error::NullObject);
}

#[test]
fn wrap_checked_rejects_differing_kind() {
    let mut plant = Appliance::new();
    let (_st, handle) = plant.create_object(Kind::RealtimeEquityStream.to_u16(), 0, 4);
    let r: Result<TickerSession, Error> = wrap_checked(&plant, handle);
    assert_eq!(r.unwrap_err(), Error::UnexpectedKind);
}

#[test]
fn wrap_checked_propagates_a_failed_kind_query() {
    let mut plant = Appliance::new();
    let (_st, handle) = plant.create_object(Kind::SessionTicker.to_u16(), 0, 0);
    plant.destroy_object(handle);
    let r: Result<TickerSession, Error> = wrap_checked(&plant, handle);
    assert_eq!(r.unwrap_err(), Error::Exegy(ExegyError::BadHandle));
}

#[test]
fn wrap_with_known_kind_checks_code_then_null() {
    let code = Kind::EventSessionStatus.to_u16();
    let ok: Result<StatusEvent, Error> = wrap_with_known_kind(41, code);
    assert_eq!(ok.unwrap().as_xhandle(), 41);
    let wrong: Result<StatusEvent, Error> = wrap_with_known_kind(41, code + 1);
    assert_eq!(wrong.unwrap_err(), Error::UnexpectedKind);
    let null: Result<StatusEvent, Error> = wrap_with_known_kind(0, code);
    assert_eq!(null.unwrap_err(), Error::NullObject);
}

#[test]
fn kind_codes_round_trip() {
    for kind in [
        Kind::Invalid,
        Kind::SessionTicker,
        Kind::SessionTickerMonitoring,
        Kind::RealtimeKeylistCatalog,
        Kind::RealtimeEquityStream,
        Kind::EventSubscribe,
        Kind::EventKeylistCatalogRefresh,
        Kind::EventKeylistCatalogUpdate,
        Kind::EventSessionStatus,
        Kind::EventTradeSummary,
        Kind::StaticTickerPlantSessionsRates,
    ] {
        assert_eq!(Kind::from_u16(kind.to_u16()), kind);
    }
}

#[test]
fn unknown_kind_codes_decode_to_invalid() {
    assert_eq!(Kind::from_u16(0xFFFF), Kind::Invalid);
    assert_eq!(Kind::from_u16(1000), Kind::Invalid);
}

#[test]
fn unknown_group_bytes_fail_with_group_unknown() {
    let key_bytes = {
        let mut b = vec![b'N', 0, b'9', b'9'];
        b.resize(36, 0);
        b
    };
    let key = rxegy::Key::new(&key_bytes);
    assert_eq!(key.group().unwrap_err(), Error::GroupUnknown);
}

#[test]
fn unknown_event_codes_fail_with_object_unknown() {
    assert_eq!(
        rxegy::keylist::catalog::EventKind::try_from_code(0xEEEE).unwrap_err(),
        Error::ObjectUnknown
    );
    assert_eq!(
        rxegy::session::EventKind::try_from_code(0xEEEE).unwrap_err(),
        Error::ObjectUnknown
    );
    assert_eq!(
        rxegy::session::Kind::try_from_code(0xEEEE).unwrap_err(),
        Error::ObjectUnknown
    );
}
