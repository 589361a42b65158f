//! The client surface: session building and accessors, containers,
//! subscriptions, and event field reads.

use rxegy::appliance::Appliance;
use rxegy::capsule::CapsuleStore;
use rxegy::container::equity::stream::Builder as StreamBuilder;
use rxegy::container::Common;
use rxegy::error::{Error, ExegyError, Success, XSUCCESS};
use rxegy::event::subscribe::Event as SubscribeEvent;
use rxegy::event::Common as EventCommon;
use rxegy::field::{XC_CONTAINER, XC_EVENT, XC_SESSION};
use rxegy::object::{wrap_checked, Kind, Wrapper};
use rxegy::session::{Builder as SessionBuilder, Server, Session, TickerSession};
use rxegy::timing::{wrap_in_option, EventTiming};
use rxegy::Key;

fn session() -> (Appliance, CapsuleStore, TickerSession) {
    let mut plant = Appliance::new();
    let mut caps = CapsuleStore::new();
    let s = SessionBuilder::default()
        .username("trader")
        .password("pw")
        .add_server("10.0.0.1:7777")
        .add_ib("fabric-a")
        .add_roce("fabric-b")
        .add_xti("/captures/replay.xti")
        .background_affinity(Some(0xF0))
        .timing_priority(Some(9))
        .tickerplant(&mut plant, &mut caps, false, false)
        .unwrap();
    (plant, caps, s)
}

#[test]
fn tickerplant_builds_a_live_session() {
    let (plant, _caps, s) = session();
    assert_ne!(s.as_xhandle(), 0);
    let again = wrap_checked::<TickerSession>(&plant, s.as_xhandle()).unwrap();
    assert_eq!(again.as_xhandle(), s.as_xhandle());
}

#[test]
fn builder_rejects_embedded_nul_credentials() {
    let mut plant = Appliance::new();
    let mut caps = CapsuleStore::new();
    let r = SessionBuilder::default()
        .username("tra\0der")
        .tickerplant(&mut plant, &mut caps, false, false);
    assert_eq!(r.err(), Some(Error::EmbeddedNull));
}

#[test]
fn server_entries_render_in_native_syntax() {
    assert_eq!(Server::Infiniband(String::from("a")).to_string_value(), "ib::a");
    assert_eq!(Server::RoCE(String::from("b")).to_string_value(), "roce::b");
    assert_eq!(Server::Ip(String::from("10.0.0.1:7777")).to_string_value(), "10.0.0.1:7777");
    assert_eq!(Server::Xti(String::from("/p/q.xti")).to_string_value(), "/p/q.xti");
}

#[test]
fn builder_background_configuration_is_applied() {
    let (plant, _caps, s) = session();
    assert_eq!(s.background_affinity(&plant), Ok(0xF0));
    assert_eq!(s.hearatbeat_priority(&plant), Ok(9));
}

#[test]
fn session_accessors_round_trip_through_the_field_space() {
    let (mut plant, _caps, s) = session();
    // The appliance populates these fields server-side; the model lets
    // the test play that part through the raw native surface.
    let st = plant.set_field(
        s.as_xhandle(),
        XC_SESSION,
        rxegy::session::XFLD_SESS_STATUS,
        XSUCCESS.to_le_bytes().to_vec(),
    );
    assert_eq!(st, XSUCCESS);
    assert_eq!(s.status(&plant), Ok(Ok(Success::Success)));

    s.set_replay_quote_montage(&mut plant, String::from("A,B")).unwrap();
    assert_eq!(s.replay_quote_montage(&plant), Ok(String::from("A,B")));

    s.disable_reconnect(&mut plant).unwrap();
    assert_eq!(s.reconnect_enabled(&plant), Ok(false));
    s.enable_reconnect(&mut plant).unwrap();
    assert_eq!(s.reconnect_enabled(&plant), Ok(true));

    s.start_replay(&mut plant).unwrap();
    assert_eq!(s.replay_start(&plant), Ok(true));
    s.stop_replay(&mut plant).unwrap();
    assert_eq!(s.replay_start(&plant), Ok(false));
}

#[test]
fn stream_builds_subscribes_and_reads_fields() {
    let (mut plant, mut caps, s) = session();
    let stream = StreamBuilder::default()
        .on_trade()
        .on_quote()
        .build(&mut plant, &mut caps, &s, 16)
        .unwrap();

    // Subscribing allocates consecutive slots and registers the payload.
    let slot = stream
        .subscribe_by_string(&mut plant, &mut caps, "EQ/ACME", 0xCAFE)
        .unwrap();
    assert_eq!(slot, 0);
    let slot2 = stream
        .subscribe_by_string(&mut plant, &mut caps, "EQ/OTHER", 0xBEEF)
        .unwrap();
    assert_eq!(slot2, 1);
    assert_eq!(
        stream.subscribe_by_string(&mut plant, &mut caps, "EQ/\0BAD", 1).err(),
        Some(Error::EmbeddedNull)
    );

    // The quote-rate field is written through the accessor and read
    // back unchanged.
    stream.set_quote_rate(&mut plant, 250).unwrap();
    assert_eq!(stream.quote_rate(&plant), Ok(250));

    // Per-slot fields.
    let st = plant.set_field(
        stream.as_xhandle(),
        slot,
        rxegy::container::equity::stream::XFLD_RT_EQSTRM_LOT_SIZE,
        100u16.to_le_bytes().to_vec(),
    );
    assert_eq!(st, XSUCCESS);
    assert_eq!(stream.lot_size(&plant, slot), Ok(100));

    let st = plant.set_field(
        stream.as_xhandle(),
        slot,
        rxegy::container::equity::stream::XFLD_RT_EQSTRM_SHORT_SALE_RESTRICTED,
        vec![1],
    );
    assert_eq!(st, XSUCCESS);
    assert_eq!(stream.short_sale_restricted(&plant, slot), Ok(true));

    // An unsubscribed read reports the native failure, decoded.
    assert_eq!(
        stream.lot_size(&plant, 9),
        Err(Error::Exegy(ExegyError::BadField))
    );
}

#[test]
fn stream_capacity_is_bounded_by_its_slots() {
    let (mut plant, mut caps, s) = session();
    let stream = StreamBuilder::default()
        .build(&mut plant, &mut caps, &s, 1)
        .unwrap();
    stream.subscribe_by_string(&mut plant, &mut caps, "EQ/ONE", 1).unwrap();
    assert_eq!(
        stream.subscribe_by_string(&mut plant, &mut caps, "EQ/TWO", 2).err(),
        Some(Error::Exegy(ExegyError::Capacity))
    );
}

#[test]
fn container_common_fields_read_back() {
    let (mut plant, mut caps, s) = session();
    let stream = StreamBuilder::default()
        .build(&mut plant, &mut caps, &s, 8)
        .unwrap();
    let st = plant.set_field(
        stream.as_xhandle(),
        XC_CONTAINER,
        rxegy::container::XFLD_RT_SLOT_COUNT,
        8u32.to_le_bytes().to_vec(),
    );
    assert_eq!(st, XSUCCESS);
    assert_eq!(stream.slot_count(&plant), Ok(8));
}

#[test]
fn event_common_accessors_decode_their_fields() {
    let (mut plant, _caps, _s) = session();
    let (st, ev_handle) = plant.create_object(Kind::EventSubscribe.to_u16(), 0, 0);
    assert_eq!(st, XSUCCESS);
    let event = wrap_checked::<SubscribeEvent>(&plant, ev_handle).unwrap();

    plant.set_field(
        ev_handle,
        XC_EVENT,
        rxegy::event::XFLD_EVT_STATUS,
        XSUCCESS.to_le_bytes().to_vec(),
    );
    assert_eq!(event.status(&plant), Ok(Ok(Success::Success)));

    plant.set_field(
        ev_handle,
        XC_EVENT,
        rxegy::event::XFLD_EVT_LINE_ID,
        7u16.to_le_bytes().to_vec(),
    );
    assert_eq!(event.line_id(&plant), Ok(7));

    plant.set_field(
        ev_handle,
        XC_EVENT,
        rxegy::event::XFLD_EVT_SEQUENCE,
        99u64.to_le_bytes().to_vec(),
    );
    assert_eq!(event.exchange_sequence(&plant), Ok(99));

    // The key-string field is a fixed 80-byte, NUL-padded record; the
    // accessor returns it whole, padding included.
    let mut key_string = b"EQ/ACME".to_vec();
    key_string.resize(80, 0);
    plant.set_field(
        ev_handle,
        XC_EVENT,
        rxegy::event::XFLD_EVT_ITEM_KEY_STRING,
        key_string,
    );
    let mut expected = String::from("EQ/ACME");
    while expected.len() < 80 {
        expected.push('\0');
    }
    assert_eq!(event.item_key_string(&plant), Ok(expected));

    // A 36-byte key record: feed, group, then the padded symbol.
    let mut key_bytes = vec![b'N', 0, b'U', b'S'];
    key_bytes.extend_from_slice(b"ACME");
    key_bytes.resize(36, 0);
    plant.set_field(ev_handle, XC_EVENT, rxegy::event::XFLD_EVT_ITEM_KEY, key_bytes);
    let key: Key = event.item_key(&plant).unwrap();
    assert_eq!(key.feed_id().bytes, [b'N', 0]);
    assert_eq!(key.group_id().bytes, [b'U', b'S']);
    assert_eq!(
        key.group().unwrap(),
        rxegy::Group::Country(rxegy::Country::UnitedStates)
    );
    assert_eq!(&key.symbol().bytes[..4], b"ACME");

    // A timing group: six little-endian timestamps in stage order.
    let mut timing = Vec::new();
    for v in [1u64, 2, 3, 4, 5, 0] {
        timing.extend_from_slice(&v.to_le_bytes());
    }
    plant.set_field(ev_handle, XC_EVENT, rxegy::event::XFGRP_EVT_TIMING, timing);
    let t: EventTiming = event.timing(&plant).unwrap();
    assert_eq!(t.exchange_sequence(), Some(1));
    assert_eq!(t.exchange_timestamp(), Some(2));
    assert_eq!(t.appliance_receive_timestamp(), Some(3));
    assert_eq!(t.appliance_transmit_timestamp(), Some(4));
    assert_eq!(t.xcapi_receive_timestamp(), Some(5));
    // A zero timestamp reads as "not recorded".
    assert_eq!(t.xcapi_callback_timestamp(), None);
}

#[test]
fn zero_timestamps_read_as_absent() {
    assert_eq!(wrap_in_option(0), None);
    assert_eq!(wrap_in_option(3), Some(3));
}

#[test]
fn ticker_session_limits_read_back() {
    let (mut plant, _caps, s) = session();
    plant.set_field(
        s.as_xhandle(),
        XC_SESSION,
        rxegy::session::XFLD_SESS_TKR_MAX_PRICE_BOOK_DEPTH,
        50u16.to_le_bytes().to_vec(),
    );
    assert_eq!(s.max_pricebook_depth(&plant), Ok(50));
}
