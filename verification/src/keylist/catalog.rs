//! The keylist catalog and its callback dispatcher.
//!
//! A catalog is a container object whose callbacks deliver three event
//! kinds — subscribe, refresh and update.  The builder records which of
//! the three optional handlers are registered; the built catalog carries
//! that record through its capsule token, and [`deliver`] consults it on
//! every callback exactly as the native trampoline does.

use vstd::bytes::{spec_u64_to_le_bytes, u64_to_le_bytes};
use vstd::prelude::*;

use crate::appliance::{spec_lookup, Appliance};
use crate::capsule::{Capsule, CapsuleStore};
use crate::container::XFLD_RT_TURNKEY;
use crate::dispatch::Delivery;
use crate::error::{decode, Error};
use crate::event::subscribe::Event as SubscribeEvent;
use crate::field::XC_CONTAINER;
use crate::object::{
    spec_code_of, spec_wrap_checked_ok, wrap_checked, wrap_with_known_kind, Kind as ObjectKind,
    Wrapper,
};
use crate::session::TickerSession;

verus! {

/// An object containing a refresh event.
#[derive(Clone, Copy, Debug)]
pub struct RefreshEvent {
    handle: u64,
}

impl Wrapper for RefreshEvent {
    open spec fn wrapped_kind() -> ObjectKind {
        ObjectKind::EventKeylistCatalogRefresh
    }

    closed spec fn spec_handle(&self) -> u64 {
        self.handle
    }

    fn from_handle_unchecked(handle: u64) -> (r: Self) {
        RefreshEvent { handle }
    }

    fn as_xhandle(&self) -> (r: u64) {
        self.handle
    }

    fn wrapped_kind_code() -> (r: u16) {
        ObjectKind::EventKeylistCatalogRefresh.to_u16()
    }
}

impl crate::event::Common for RefreshEvent {

}

/// An object containing an update event.
#[derive(Clone, Copy, Debug)]
pub struct UpdateEvent {
    handle: u64,
}

impl Wrapper for UpdateEvent {
    open spec fn wrapped_kind() -> ObjectKind {
        ObjectKind::EventKeylistCatalogUpdate
    }

    closed spec fn spec_handle(&self) -> u64 {
        self.handle
    }

    fn from_handle_unchecked(handle: u64) -> (r: Self) {
        UpdateEvent { handle }
    }

    fn as_xhandle(&self) -> (r: u64) {
        self.handle
    }

    fn wrapped_kind_code() -> (r: u16) {
        ObjectKind::EventKeylistCatalogUpdate.to_u16()
    }
}

impl crate::event::Common for UpdateEvent {

}

/// An object containing a keylist catalog.
#[derive(Clone, Copy, Debug)]
pub struct Catalog {
    handle: u64,
}

impl Wrapper for Catalog {
    open spec fn wrapped_kind() -> ObjectKind {
        ObjectKind::RealtimeKeylistCatalog
    }

    closed spec fn spec_handle(&self) -> u64 {
        self.handle
    }

    fn from_handle_unchecked(handle: u64) -> (r: Self) {
        Catalog { handle }
    }

    fn as_xhandle(&self) -> (r: u64) {
        self.handle
    }

    fn wrapped_kind_code() -> (r: u16) {
        ObjectKind::RealtimeKeylistCatalog.to_u16()
    }
}

/// The event handlers a catalog's owner supplies.  Nothing is assumed of
/// an implementation: the dispatcher's guarantees hold whatever a
/// handler does or returns.
pub trait Handlers {
    /// Called for each subscribe event, when registered.
    fn on_subscribe(
        &mut self,
        plant: &Appliance,
        catalog: &Catalog,
        event: &SubscribeEvent,
    ) -> Result<(), Error>;

    /// Called for each catalog refresh event, when registered.
    fn on_refresh(
        &mut self,
        plant: &Appliance,
        catalog: &Catalog,
        event: &RefreshEvent,
    ) -> Result<(), Error>;

    /// Called for each catalog update event, when registered.
    fn on_update(
        &mut self,
        plant: &Appliance,
        catalog: &Catalog,
        event: &UpdateEvent,
    ) -> Result<(), Error>;
}

/// The closed enumeration of callback event kinds a catalog delivers.
#[derive(Clone, Copy, Debug, PartialEq, Eq, Structural)]
pub enum EventKind {
    /// A subscription or retrieval request completed.
    Subscribe,
    /// A catalog refresh.
    Refresh,
    /// A catalog update.
    Update,
}

/// The catalog event kind an event-type code denotes: the enumeration is
/// closed, and every code outside it classifies to nothing.
pub open spec fn spec_classify(event_type: u16) -> Option<EventKind> {
    if event_type == spec_code_of(ObjectKind::EventSubscribe) {
        Some(EventKind::Subscribe)
    } else if event_type == spec_code_of(ObjectKind::EventKeylistCatalogRefresh) {
        Some(EventKind::Refresh)
    } else if event_type == spec_code_of(ObjectKind::EventKeylistCatalogUpdate) {
        Some(EventKind::Update)
    } else {
        None
    }
}

impl EventKind {
    /// Classify a raw event-type code.
    pub fn try_from_code(value: u16) -> (r: Result<EventKind, Error>)
        ensures
            match spec_classify(value) {
                Some(k) => r == Ok::<EventKind, Error>(k),
                None => r == Err::<EventKind, Error>(Error::ObjectUnknown),
            },
    {
        if value == ObjectKind::EventSubscribe.to_u16() {
            Ok(EventKind::Subscribe)
        } else if value == ObjectKind::EventKeylistCatalogRefresh.to_u16() {
            Ok(EventKind::Refresh)
        } else if value == ObjectKind::EventKeylistCatalogUpdate.to_u16() {
            Ok(EventKind::Update)
        } else {
            Err(Error::ObjectUnknown)
        }
    }
}

/// A builder for constructing a keylist catalog: records which of the
/// three optional event handlers are registered.
#[derive(Clone, Copy, Debug, PartialEq, Eq, Structural, Default)]
pub struct Builder {
    /// Whether a subscribe handler is registered.
    pub subscribe: bool,
    /// Whether a refresh handler is registered.
    pub refresh: bool,
    /// Whether an update handler is registered.
    pub update: bool,
}

/// The state a catalog carries through its capsule token.
pub type Context = Builder;

/// Whether the context has a handler registered for the given event
/// kind.
pub open spec fn spec_registered(ctx: Context, kind: EventKind) -> bool {
    match kind {
        EventKind::Subscribe => ctx.subscribe,
        EventKind::Refresh => ctx.refresh,
        EventKind::Update => ctx.update,
    }
}

impl Builder {
    /// Register the callback to be fired when a subscribe event is
    /// received.
    pub fn on_subscribe(self) -> (r: Self)
        ensures
            r == (Builder { subscribe: true, ..self }),
    {
        Builder { subscribe: true, ..self }
    }

    /// Register the callback to be fired when a refresh event is
    /// received.
    pub fn on_refresh(self) -> (r: Self)
        ensures
            r == (Builder { refresh: true, ..self }),
    {
        Builder { refresh: true, ..self }
    }

    /// Register the callback to be fired when an update event is
    /// received.
    pub fn on_update(self) -> (r: Self)
        ensures
            r == (Builder { update: true, ..self }),
    {
        Builder { update: true, ..self }
    }

    /// Build a new keylist catalog on the given session: mint the
    /// context capsule, hand its token to the native create call, and
    /// wrap the returned handle after checking its kind.
    pub fn build(
        self,
        plant: &mut Appliance,
        caps: &mut CapsuleStore,
        session: &TickerSession,
    ) -> (r: Result<Catalog, Error>)
        ensures
            r is Ok,
            r is Ok ==> {
                &&& final(plant).spec_has_object(r->Ok_0.spec_handle())
                &&& final(plant).spec_object(r->Ok_0.spec_handle()).kind_code == spec_code_of(
                    ObjectKind::RealtimeKeylistCatalog,
                )
                &&& final(caps).spec_get(
                    final(plant).spec_object(r->Ok_0.spec_handle()).turnkey,
                ) == Some(Capsule::Catalog(self))
                &&& spec_lookup(
                    final(plant).spec_object(r->Ok_0.spec_handle()).fields@,
                    XC_CONTAINER,
                    XFLD_RT_TURNKEY,
                ) == Some(
                    spec_u64_to_le_bytes(final(plant).spec_object(r->Ok_0.spec_handle()).turnkey),
                )
            },
    {
        let turnkey = caps.mint(Capsule::Catalog(self));
        let (status, object) = plant.create_object(
            ObjectKind::RealtimeKeylistCatalog.to_u16(),
            turnkey,
            10,
        );
        if let Err(e) = decode(status) {
            return Err(Error::Exegy(e));
        }
        // The native side exposes the creation turnkey as a container
        // field; the model object is populated the same way.
        let st2 = plant.set_field(object, XC_CONTAINER, XFLD_RT_TURNKEY, u64_to_le_bytes(turnkey));
        if let Err(e) = decode(st2) {
            return Err(Error::Exegy(e));
        }
        wrap_checked::<Catalog>(plant, object)
    }

    /// Dispatch one already-resolved catalog callback: classify the
    /// event-type code, construct the typed event from the delivered
    /// handle and kind, and invoke the one registered handler.
    pub fn dispatch<H: Handlers>(
        self,
        plant: &Appliance,
        handlers: &mut H,
        catalog: &Catalog,
        event_handle: u64,
        event_type: u16,
    ) -> (r: Delivery)
        ensures
            match spec_classify(event_type) {
                None => r == Delivery::UnknownEvent,
                Some(k) => if !spec_registered(self, k) {
                    r == Delivery::Unhandled
                } else if event_handle == 0 {
                    r == Delivery::BadEvent
                } else {
                    r == Delivery::Invoked
                },
            },
    {
        match EventKind::try_from_code(event_type) {
            Ok(EventKind::Subscribe) => {
                if self.subscribe {
                    match wrap_with_known_kind::<SubscribeEvent>(event_handle, event_type) {
                        Ok(event) => {
                            let _ = handlers.on_subscribe(plant, catalog, &event);
                            Delivery::Invoked
                        },
                        Err(_) => Delivery::BadEvent,
                    }
                } else {
                    Delivery::Unhandled
                }
            },
            Ok(EventKind::Refresh) => {
                if self.refresh {
                    match wrap_with_known_kind::<RefreshEvent>(event_handle, event_type) {
                        Ok(event) => {
                            let _ = handlers.on_refresh(plant, catalog, &event);
                            Delivery::Invoked
                        },
                        Err(_) => Delivery::BadEvent,
                    }
                } else {
                    Delivery::Unhandled
                }
            },
            Ok(EventKind::Update) => {
                if self.update {
                    match wrap_with_known_kind::<UpdateEvent>(event_handle, event_type) {
                        Ok(event) => {
                            let _ = handlers.on_update(plant, catalog, &event);
                            Delivery::Invoked
                        },
                        Err(_) => Delivery::BadEvent,
                    }
                } else {
                    Delivery::Unhandled
                }
            },
            Err(_) => Delivery::UnknownEvent,
        }
    }
}

/// Dispatch one catalog callback, as the native trampoline does once its
/// failure boundary is past: resolve the capsule behind the delivered
/// token, re-wrap the calling catalog, and hand over to the context's
/// dispatch.  A capsule that does not decode to a catalog context and a
/// handle that fails validation drop the callback without raising
/// anything to the native layer; an unknown event code and an
/// unregistered event are safe no-ops.  Nothing here consumes the
/// capsule: the token stays valid for the next callback.
pub fn deliver<H: Handlers>(
    plant: &Appliance,
    caps: &CapsuleStore,
    handlers: &mut H,
    handle: u64,
    slot: u32,
    event_handle: u64,
    event_type: u16,
    turnkey: u64,
    status: u32,
) -> (r: Delivery)
    ensures
        !(caps.spec_borrow(turnkey) matches Ok(Capsule::Catalog(_))) ==> r
            == Delivery::ContextMismatch,
        (caps.spec_borrow(turnkey) matches Ok(Capsule::Catalog(_))) && !spec_wrap_checked_ok(
            *plant,
            handle,
            ObjectKind::RealtimeKeylistCatalog,
        ) ==> r == Delivery::BadObject,
        (caps.spec_borrow(turnkey) matches Ok(Capsule::Catalog(_))) && spec_wrap_checked_ok(
            *plant,
            handle,
            ObjectKind::RealtimeKeylistCatalog,
        ) ==> {
            let ctx = caps.spec_borrow(turnkey)->Ok_0->Catalog_0;
            match spec_classify(event_type) {
                None => r == Delivery::UnknownEvent,
                Some(k) => if !spec_registered(ctx, k) {
                    r == Delivery::Unhandled
                } else if event_handle == 0 {
                    r == Delivery::BadEvent
                } else {
                    r == Delivery::Invoked
                },
            }
        },
{
    let context = match caps.borrow_capsule(turnkey) {
        Ok(Capsule::Catalog(c)) => *c,
        Ok(_) => {
            return Delivery::ContextMismatch;
        },
        Err(_) => {
            return Delivery::ContextMismatch;
        },
    };
    let catalog = match wrap_checked::<Catalog>(plant, handle) {
        Ok(c) => c,
        Err(_) => {
            return Delivery::BadObject;
        },
    };
    let _ = slot;
    let _ = status;
    context.dispatch(plant, handlers, &catalog, event_handle, event_type)
}

} // verus!
