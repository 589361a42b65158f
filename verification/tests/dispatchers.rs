//! The callback dispatchers: classification, registration, capsule
//! resolution, and the failure boundary.

use rxegy::appliance::Appliance;
use rxegy::capsule::{Capsule, CapsuleStore};
use rxegy::container::InnerCommon;
use rxegy::dispatch::{contain, BoundaryAction, Delivery, HandlerOutcome};
use rxegy::error::{Error, XSUCCESS};
use rxegy::event::subscribe::Event as SubscribeEvent;
use rxegy::keylist::catalog as catalog;
use rxegy::object::{Kind, Wrapper};
use rxegy::container::keylist::catalog as ckat;
use rxegy::session::{self, Builder as SessionBuilder, Session, StatusEvent, TickerSession};

/// A handler object counting what it was invoked for.
#[derive(Default)]
struct Counting {
    subscribes: u32,
    refreshes: u32,
    updates: u32,
}

impl catalog::Handlers for Counting {
    fn on_subscribe(
        &mut self,
        _plant: &Appliance,
        _catalog: &catalog::Catalog,
        _event: &SubscribeEvent,
    ) -> Result<(), Error> {
        self.subscribes += 1;
        Ok(())
    }

    fn on_refresh(
        &mut self,
        _plant: &Appliance,
        _catalog: &catalog::Catalog,
        _event: &catalog::RefreshEvent,
    ) -> Result<(), Error> {
        self.refreshes += 1;
        Ok(())
    }

    fn on_update(
        &mut self,
        _plant: &Appliance,
        _catalog: &catalog::Catalog,
        _event: &catalog::UpdateEvent,
    ) -> Result<(), Error> {
        self.updates += 1;
        Ok(())
    }
}

fn built_catalog() -> (Appliance, CapsuleStore, TickerSession, catalog::Catalog, u64) {
    let mut plant = Appliance::new();
    let mut caps = CapsuleStore::new();
    let session = SessionBuilder::default()
        .username("user")
        .password("pw")
        .tickerplant(&mut plant, &mut caps, false, false)
        .unwrap();
    let cat = catalog::Builder::default()
        .on_refresh()
        .build(&mut plant, &mut caps, &session)
        .unwrap();
    let token = plant.object_turnkey(cat.as_xhandle()).1;
    (plant, caps, session, cat, token)
}

#[test]
fn catalog_scenario_only_refresh_registered() {
    let (plant, caps, _session, cat, token) = built_catalog();
    let mut handlers = Counting::default();
    let handle = cat.as_xhandle();
    let event_handle = 999;

    // Subscribe: classified, but no handler is registered for it.
    let first = catalog::deliver(
        &plant,
        &caps,
        &mut handlers,
        handle,
        0,
        event_handle,
        Kind::EventSubscribe.to_u16(),
        token,
        XSUCCESS,
    );
    assert_eq!(first, Delivery::Unhandled);

    // Refresh: the one registered handler fires.
    let second = catalog::deliver(
        &plant,
        &caps,
        &mut handlers,
        handle,
        0,
        event_handle,
        Kind::EventKeylistCatalogRefresh.to_u16(),
        token,
        XSUCCESS,
    );
    assert_eq!(second, Delivery::Invoked);

    // An event-type code outside the known enumeration: logged no-op,
    // no handler invocation, nothing raised to the native layer.
    let third = catalog::deliver(
        &plant,
        &caps,
        &mut handlers,
        handle,
        0,
        event_handle,
        0xFFFF,
        token,
        XSUCCESS,
    );
    assert_eq!(third, Delivery::UnknownEvent);

    // Exactly one user-handler invocation across the three deliveries.
    assert_eq!(
        (handlers.subscribes, handlers.refreshes, handlers.updates),
        (0, 1, 0)
    );

    // The capsule token is identical and reusable across all three:
    // nothing consumed it, and a fourth delivery still resolves it.
    let fourth = catalog::deliver(
        &plant,
        &caps,
        &mut handlers,
        handle,
        0,
        event_handle,
        Kind::EventKeylistCatalogRefresh.to_u16(),
        token,
        XSUCCESS,
    );
    assert_eq!(fourth, Delivery::Invoked);
    assert_eq!(handlers.refreshes, 2);
}

#[test]
fn catalog_rejects_a_foreign_capsule() {
    let (plant, mut caps, _session, cat, _token) = built_catalog();
    let mut handlers = Counting::default();
    let foreign = caps.mint(Capsule::User(5));
    let r = catalog::deliver(
        &plant,
        &caps,
        &mut handlers,
        cat.as_xhandle(),
        0,
        1,
        Kind::EventKeylistCatalogRefresh.to_u16(),
        foreign,
        XSUCCESS,
    );
    assert_eq!(r, Delivery::ContextMismatch);
    assert_eq!(handlers.refreshes, 0);
}

#[test]
fn catalog_rejects_a_stale_token() {
    let (plant, mut caps, _session, cat, token) = built_catalog();
    let mut handlers = Counting::default();
    caps.retire(token).unwrap();
    let r = catalog::deliver(
        &plant,
        &caps,
        &mut handlers,
        cat.as_xhandle(),
        0,
        1,
        Kind::EventKeylistCatalogRefresh.to_u16(),
        token,
        XSUCCESS,
    );
    assert_eq!(r, Delivery::ContextMismatch);
}

#[test]
fn catalog_rejects_a_bad_object_handle() {
    let (plant, caps, _session, _cat, token) = built_catalog();
    let mut handlers = Counting::default();
    let r = catalog::deliver(
        &plant,
        &caps,
        &mut handlers,
        0,
        0,
        1,
        Kind::EventKeylistCatalogRefresh.to_u16(),
        token,
        XSUCCESS,
    );
    assert_eq!(r, Delivery::BadObject);
}

#[test]
fn catalog_rejects_a_null_event_handle() {
    let (plant, caps, _session, cat, token) = built_catalog();
    let mut handlers = Counting::default();
    let r = catalog::deliver(
        &plant,
        &caps,
        &mut handlers,
        cat.as_xhandle(),
        0,
        0,
        Kind::EventKeylistCatalogRefresh.to_u16(),
        token,
        XSUCCESS,
    );
    assert_eq!(r, Delivery::BadEvent);
}

/// A session status handler that records its invocations.
#[derive(Default)]
struct StatusCount {
    calls: u32,
}

impl session::StatusHandler for StatusCount {
    fn on_status(
        &mut self,
        _plant: &mut Appliance,
        _session: &TickerSession,
        _event: &StatusEvent,
    ) -> Result<bool, Error> {
        self.calls += 1;
        Ok(true)
    }
}

#[test]
fn session_dispatch_invokes_registered_status_handler() {
    let mut plant = Appliance::new();
    let mut caps = CapsuleStore::new();
    let s = SessionBuilder::default()
        .callback_affinity(Some(0b1010))
        .tickerplant(&mut plant, &mut caps, true, true)
        .unwrap();
    let token = plant.object_turnkey(s.as_xhandle()).1;
    let mut handlers = StatusCount::default();
    let r = session::deliver(
        &mut plant,
        &caps,
        &mut handlers,
        s.as_xhandle(),
        0,
        55,
        Kind::EventSessionStatus.to_u16(),
        token,
        XSUCCESS,
    );
    assert_eq!(r, Delivery::Invoked);
    assert_eq!(handlers.calls, 1);
    // The first good-status callback applied the requested callback
    // thread affinity through the field accessor.
    assert_eq!(s.callback_affinity(&plant), Ok(0b1010));

    // Unknown event codes are ignored without invoking anything.
    let r2 = session::deliver(
        &mut plant,
        &caps,
        &mut handlers,
        s.as_xhandle(),
        0,
        55,
        0x7777,
        token,
        XSUCCESS,
    );
    assert_eq!(r2, Delivery::UnknownEvent);
    assert_eq!(handlers.calls, 1);
}

#[test]
fn session_dispatch_without_registration_is_a_no_op() {
    let mut plant = Appliance::new();
    let mut caps = CapsuleStore::new();
    let s = SessionBuilder::default()
        .tickerplant(&mut plant, &mut caps, false, false)
        .unwrap();
    let token = plant.object_turnkey(s.as_xhandle()).1;
    let mut handlers = StatusCount::default();
    let r = session::deliver(
        &mut plant,
        &caps,
        &mut handlers,
        s.as_xhandle(),
        0,
        55,
        Kind::EventSessionStatus.to_u16(),
        token,
        XSUCCESS,
    );
    assert_eq!(r, Delivery::Unhandled);
    assert_eq!(handlers.calls, 0);
}

#[test]
fn boundary_contains_returns_and_aborts_unwinds() {
    // A handler that returned, however it returned, hands control back
    // to the event pump; one that unwound forces the abort path exactly
    // once, since unwinding must never cross the native stack frame.
    assert_eq!(contain(HandlerOutcome::Returned), BoundaryAction::Continue);
    assert_eq!(contain(HandlerOutcome::Panicked), BoundaryAction::Abort);
}

/// A container-catalog handler that records the payload it was handed.
#[derive(Default)]
struct WithData {
    refreshes: u32,
    last_user_data: Option<u64>,
}

impl ckat::Handlers for WithData {
    fn on_subscribe(
        &mut self,
        _plant: &Appliance,
        _catalog: &ckat::Catalog,
        _event: &SubscribeEvent,
        _user_data: Option<u64>,
    ) -> Result<(), Error> {
        Ok(())
    }

    fn on_refresh(
        &mut self,
        _plant: &Appliance,
        _catalog: &ckat::Catalog,
        _event: &rxegy::event::keylist::catalog::refresh::Event,
        user_data: Option<u64>,
    ) -> Result<(), Error> {
        self.refreshes += 1;
        self.last_user_data = user_data;
        Ok(())
    }

    fn on_update(
        &mut self,
        _plant: &Appliance,
        _catalog: &ckat::Catalog,
        _event: &rxegy::event::keylist::catalog::update::Event,
        _user_data: Option<u64>,
    ) -> Result<(), Error> {
        Ok(())
    }
}

#[test]
fn container_catalog_reads_its_context_from_the_turnkey_field() {
    let mut plant = Appliance::new();
    let mut caps = CapsuleStore::new();
    let session = SessionBuilder::default()
        .tickerplant(&mut plant, &mut caps, false, false)
        .unwrap();
    let cat = ckat::Builder::default()
        .on_refresh()
        .build(&mut plant, &mut caps, &session, Some(0x5150))
        .unwrap();
    // The trampoline reads the context token back from the container's
    // turnkey field, so the delivered token carries the per-item
    // payload instead.
    let item_token = plant.item_turnkey(cat.as_xhandle(), 0).1;
    assert_eq!(cat.turnkey(&plant).unwrap(), plant.object_turnkey(cat.as_xhandle()).1);

    let mut handlers = WithData::default();
    let r = ckat::deliver(
        &plant,
        &caps,
        &mut handlers,
        cat.as_xhandle(),
        0,
        12,
        Kind::EventKeylistCatalogRefresh.to_u16(),
        item_token,
        XSUCCESS,
    );
    assert_eq!(r, Delivery::Invoked);
    assert_eq!(handlers.refreshes, 1);
    assert_eq!(handlers.last_user_data, Some(0x5150));
}
