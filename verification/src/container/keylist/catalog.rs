//! The keylist catalog container and its callback dispatcher.
//!
//! This container variant carries two capsules: the builder itself,
//! whose token the container exposes back through its turnkey field, and
//! an optional caller payload minted per subscription, whose token the
//! native library hands to every callback for that item.  The trampoline
//! therefore recovers its context by reading the container's turnkey
//! field rather than from the delivered token.

use vstd::bytes::{spec_u64_from_le_bytes, u64_to_le_bytes};
use vstd::prelude::*;

use crate::appliance::Appliance;
use crate::capsule::{Capsule, CapsuleStore};
use crate::container::{InnerCommon, RealTime, XFLD_RT_TURNKEY};
use crate::dispatch::Delivery;
use crate::error::{decode, Error};
use crate::event::keylist::catalog::refresh::Event as RefreshEvent;
use crate::event::keylist::catalog::update::Event as UpdateEvent;
use crate::event::subscribe::Event as SubscribeEvent;
use crate::field::{spec_field_read, XC_CONTAINER};
use crate::object::{
    spec_code_of, spec_wrap_checked_ok, wrap_checked, wrap_with_known_kind, Kind as ObjectKind,
    Wrapper,
};
use crate::session::TickerSession;

verus! {

/// An object containing a keylist catalog.
#[derive(Clone, Copy, Debug)]
pub struct Catalog {
    handle: u64,
}

impl Wrapper for Catalog {
    open spec fn wrapped_kind() -> ObjectKind {
        ObjectKind::RealtimeKeylistCatalog
    }

    closed spec fn spec_handle(&self) -> u64 {
        self.handle
    }

    fn from_handle_unchecked(handle: u64) -> (r: Self) {
        Catalog { handle }
    }

    fn as_xhandle(&self) -> (r: u64) {
        self.handle
    }

    fn wrapped_kind_code() -> (r: u16) {
        ObjectKind::RealtimeKeylistCatalog.to_u16()
    }
}

impl RealTime for Catalog {

}

impl crate::container::Common for Catalog {

}

impl InnerCommon for Catalog {

}

/// The event handlers a catalog's owner supplies, each receiving the
/// caller payload registered with the subscription, if any.  Nothing is
/// assumed of an implementation.
pub trait Handlers {
    /// Called for each subscribe event, when registered.
    fn on_subscribe(
        &mut self,
        plant: &Appliance,
        catalog: &Catalog,
        event: &SubscribeEvent,
        user_data: Option<u64>,
    ) -> Result<(), Error>;

    /// Called for each catalog refresh event, when registered.
    fn on_refresh(
        &mut self,
        plant: &Appliance,
        catalog: &Catalog,
        event: &RefreshEvent,
        user_data: Option<u64>,
    ) -> Result<(), Error>;

    /// Called for each catalog update event, when registered.
    fn on_update(
        &mut self,
        plant: &Appliance,
        catalog: &Catalog,
        event: &UpdateEvent,
        user_data: Option<u64>,
    ) -> Result<(), Error>;
}

/// The closed enumeration of callback event kinds this catalog
/// delivers.
#[derive(Clone, Copy, Debug, PartialEq, Eq, Structural)]
pub enum EventKind {
    /// A subscription or retrieval request completed.
    Subscribe,
    /// A catalog refresh.
    Refresh,
    /// A catalog update.
    Update,
}

/// The catalog event kind an event-type code denotes: the enumeration is
/// closed, and every code outside it classifies to nothing.
pub open spec fn spec_classify(event_type: u16) -> Option<EventKind> {
    if event_type == spec_code_of(ObjectKind::EventSubscribe) {
        Some(EventKind::Subscribe)
    } else if event_type == spec_code_of(ObjectKind::EventKeylistCatalogRefresh) {
        Some(EventKind::Refresh)
    } else if event_type == spec_code_of(ObjectKind::EventKeylistCatalogUpdate) {
        Some(EventKind::Update)
    } else {
        None
    }
}

impl EventKind {
    /// Classify a raw event-type code.
    pub fn try_from_code(value: u16) -> (r: Result<EventKind, Error>)
        ensures
            match spec_classify(value) {
                Some(k) => r == Ok::<EventKind, Error>(k),
                None => r == Err::<EventKind, Error>(Error::ObjectUnknown),
            },
    {
        if value == ObjectKind::EventSubscribe.to_u16() {
            Ok(EventKind::Subscribe)
        } else if value == ObjectKind::EventKeylistCatalogRefresh.to_u16() {
            Ok(EventKind::Refresh)
        } else if value == ObjectKind::EventKeylistCatalogUpdate.to_u16() {
            Ok(EventKind::Update)
        } else {
            Err(Error::ObjectUnknown)
        }
    }
}

/// A builder for constructing a keylist catalog container: records which
/// of the three optional event handlers are registered.
#[derive(Clone, Copy, Debug, PartialEq, Eq, Structural, Default)]
pub struct Builder {
    /// Whether a subscribe handler is registered.
    pub subscribe: bool,
    /// Whether a refresh handler is registered.
    pub refresh: bool,
    /// Whether an update handler is registered.
    pub update: bool,
}

/// The state a catalog container carries through its capsule token.
pub type Context = Builder;

/// Whether the context has a handler registered for the given event
/// kind.
pub open spec fn spec_registered(ctx: Context, kind: EventKind) -> bool {
    match kind {
        EventKind::Subscribe => ctx.subscribe,
        EventKind::Refresh => ctx.refresh,
        EventKind::Update => ctx.update,
    }
}

/// The context token a catalog exposes through its turnkey field, if
/// the field reads back as one.
pub open spec fn spec_context_token(plant: Appliance, handle: u64) -> Option<u64> {
    match spec_field_read(plant, handle, XC_CONTAINER, XFLD_RT_TURNKEY, 8) {
        Ok(b) => Some(spec_u64_from_le_bytes(b)),
        Err(_) => None,
    }
}

impl Builder {
    /// Register the callback to be fired when a subscribe event is
    /// received.
    pub fn on_subscribe(self) -> (r: Self)
        ensures
            r == (Builder { subscribe: true, ..self }),
    {
        Builder { subscribe: true, ..self }
    }

    /// Register the callback to be fired when a refresh event is
    /// received.
    pub fn on_refresh(self) -> (r: Self)
        ensures
            r == (Builder { refresh: true, ..self }),
    {
        Builder { refresh: true, ..self }
    }

    /// Register the callback to be fired when an update event is
    /// received.
    pub fn on_update(self) -> (r: Self)
        ensures
            r == (Builder { update: true, ..self }),
    {
        Builder { update: true, ..self }
    }

    /// Build a new keylist catalog on the given session, supplying the
    /// given payload to callbacks: create the container, then subscribe
    /// to the whole catalog to start the synchronisation, destroying the
    /// container again if the subscription cannot be placed.
    pub fn build(
        self,
        plant: &mut Appliance,
        caps: &mut CapsuleStore,
        session: &TickerSession,
        user_data: Option<u64>,
    ) -> (r: Result<Catalog, Error>)
        ensures
            r is Ok,
            r is Ok ==> {
                &&& final(plant).spec_has_object(r->Ok_0.spec_handle())
                &&& final(plant).spec_object(r->Ok_0.spec_handle()).kind_code == spec_code_of(
                    ObjectKind::RealtimeKeylistCatalog,
                )
                &&& final(caps).spec_get(
                    final(plant).spec_object(r->Ok_0.spec_handle()).turnkey,
                ) == Some(Capsule::ContainerCatalog(self))
                &&& spec_context_token(*final(plant), r->Ok_0.spec_handle()) == Some(
                    final(plant).spec_object(r->Ok_0.spec_handle()).turnkey,
                )
                &&& final(plant).spec_object(r->Ok_0.spec_handle()).item_turnkeys@.len() == 1
                &&& match user_data {
                    None => final(plant).spec_object(r->Ok_0.spec_handle()).item_turnkeys@[0]
                        == 0,
                    Some(v) => final(caps).spec_get(
                        final(plant).spec_object(r->Ok_0.spec_handle()).item_turnkeys@[0],
                    ) == Some(Capsule::User(v)),
                }
            },
    {
        let catalog = match self.create_catalog(plant, caps, session) {
            Ok(c) => c,
            Err(e) => {
                return Err(e);
            },
        };
        if let Err(e) = Self::subscribe(plant, caps, &catalog, user_data) {
            let _ = plant.destroy_object(catalog.as_xhandle());
            return Err(e);
        }
        Ok(catalog)
    }

    /// Create the catalog object, consuming the builder into its
    /// capsule; a failed create releases the capsule again rather than
    /// leak it.
    fn create_catalog(
        self,
        plant: &mut Appliance,
        caps: &mut CapsuleStore,
        session: &TickerSession,
    ) -> (r: Result<Catalog, Error>)
        ensures
            r is Ok,
            r is Ok ==> {
                &&& final(plant).spec_has_object(r->Ok_0.spec_handle())
                &&& final(plant).spec_object(r->Ok_0.spec_handle()).kind_code == spec_code_of(
                    ObjectKind::RealtimeKeylistCatalog,
                )
                &&& final(caps).spec_get(
                    final(plant).spec_object(r->Ok_0.spec_handle()).turnkey,
                ) == Some(Capsule::ContainerCatalog(self))
                &&& spec_context_token(*final(plant), r->Ok_0.spec_handle()) == Some(
                    final(plant).spec_object(r->Ok_0.spec_handle()).turnkey,
                )
                &&& final(plant).spec_object(r->Ok_0.spec_handle()).item_turnkeys@.len() == 0
                &&& final(plant).spec_object(r->Ok_0.spec_handle()).max_slots == 10
            },
    {
        let turnkey = caps.mint(Capsule::ContainerCatalog(self));
        let (status, object) = plant.create_object(
            ObjectKind::RealtimeKeylistCatalog.to_u16(),
            turnkey,
            10,
        );
        if let Err(e) = decode(status) {
            // Do not leak the builder if the container was not created.
            let _ = caps.retire(turnkey);
            return Err(Error::Exegy(e));
        }
        // The native side exposes the creation turnkey as a container
        // field; the model object is populated the same way.
        let st2 = plant.set_field(object, XC_CONTAINER, XFLD_RT_TURNKEY, u64_to_le_bytes(turnkey));
        if let Err(e) = decode(st2) {
            return Err(Error::Exegy(e));
        }
        proof {
            vstd::bytes::lemma_auto_spec_u64_to_from_le_bytes();
        }
        wrap_checked::<Catalog>(plant, object)
    }

    /// Subscribe to the empty key string to start the catalog
    /// synchronisation, registering the caller payload, if any, as the
    /// per-item turnkey.
    fn subscribe(
        plant: &mut Appliance,
        caps: &mut CapsuleStore,
        catalog: &Catalog,
        user_data: Option<u64>,
    ) -> (r: Result<(), Error>)
        ensures
            old(plant).spec_has_object(catalog.spec_handle()) && old(plant).spec_object(
                catalog.spec_handle(),
            ).item_turnkeys@.len() < old(plant).spec_object(catalog.spec_handle()).max_slots
                ==> r is Ok,
            r is Ok && old(plant).spec_has_object(catalog.spec_handle()) ==> {
                &&& final(plant).spec_has_object(catalog.spec_handle())
                &&& final(plant).spec_object(catalog.spec_handle()).item_turnkeys@ == old(
                    plant,
                ).spec_object(catalog.spec_handle()).item_turnkeys@.push(
                    final(plant).spec_object(catalog.spec_handle()).item_turnkeys@.last(),
                )
                &&& match user_data {
                    None => final(plant).spec_object(catalog.spec_handle()).item_turnkeys@.last()
                        == 0,
                    Some(v) => final(caps).spec_get(
                        final(plant).spec_object(catalog.spec_handle()).item_turnkeys@.last(),
                    ) == Some(Capsule::User(v)),
                }
                &&& final(plant).spec_object(catalog.spec_handle()).kind_code == old(
                    plant,
                ).spec_object(catalog.spec_handle()).kind_code
                &&& final(plant).spec_object(catalog.spec_handle()).turnkey == old(
                    plant,
                ).spec_object(catalog.spec_handle()).turnkey
                &&& final(plant).spec_object(catalog.spec_handle()).fields@ == old(
                    plant,
                ).spec_object(catalog.spec_handle()).fields@
                &&& forall|t: u64|
                    old(caps).spec_get(t) is Some ==> final(caps).spec_get(t) == old(
                        caps,
                    ).spec_get(t)
            },
    {
        let turnkey: u64 = match user_data {
            Some(v) => caps.mint(Capsule::User(v)),
            None => 0,
        };
        let (status, _slot) = plant.request_item(catalog.as_xhandle(), turnkey);
        if let Err(e) = decode(status) {
            return Err(Error::Exegy(e));
        }
        Ok(())
    }

    /// Dispatch one already-resolved catalog callback: classify the
    /// event-type code, construct the typed event from the delivered
    /// handle and kind, and invoke the one registered handler with the
    /// caller payload.
    pub fn dispatch<H: Handlers>(
        self,
        plant: &Appliance,
        handlers: &mut H,
        catalog: &Catalog,
        event_handle: u64,
        event_type: u16,
        user_data: Option<u64>,
    ) -> (r: Delivery)
        ensures
            match spec_classify(event_type) {
                None => r == Delivery::UnknownEvent,
                Some(k) => if !spec_registered(self, k) {
                    r == Delivery::Unhandled
                } else if event_handle == 0 {
                    r == Delivery::BadEvent
                } else {
                    r == Delivery::Invoked
                },
            },
    {
        match EventKind::try_from_code(event_type) {
            Ok(EventKind::Subscribe) => {
                if self.subscribe {
                    match wrap_with_known_kind::<SubscribeEvent>(event_handle, event_type) {
                        Ok(event) => {
                            let _ = handlers.on_subscribe(plant, catalog, &event, user_data);
                            Delivery::Invoked
                        },
                        Err(_) => Delivery::BadEvent,
                    }
                } else {
                    Delivery::Unhandled
                }
            },
            Ok(EventKind::Refresh) => {
                if self.refresh {
                    match wrap_with_known_kind::<RefreshEvent>(event_handle, event_type) {
                        Ok(event) => {
                            let _ = handlers.on_refresh(plant, catalog, &event, user_data);
                            Delivery::Invoked
                        },
                        Err(_) => Delivery::BadEvent,
                    }
                } else {
                    Delivery::Unhandled
                }
            },
            Ok(EventKind::Update) => {
                if self.update {
                    match wrap_with_known_kind::<UpdateEvent>(event_handle, event_type) {
                        Ok(event) => {
                            let _ = handlers.on_update(plant, catalog, &event, user_data);
                            Delivery::Invoked
                        },
                        Err(_) => Delivery::BadEvent,
                    }
                } else {
                    Delivery::Unhandled
                }
            },
            Err(_) => Delivery::UnknownEvent,
        }
    }
}

/// Dispatch one catalog-container callback, as the native trampoline
/// does once its failure boundary is past: re-wrap the calling catalog,
/// read its turnkey field back to recover the context token, resolve
/// the context capsule, resolve the delivered per-item token to the
/// caller payload, and hand over to the context's dispatch.  Every
/// failure on the way drops the callback without raising anything to
/// the native layer, and nothing here consumes either capsule.
pub fn deliver<H: Handlers>(
    plant: &Appliance,
    caps: &CapsuleStore,
    handlers: &mut H,
    handle: u64,
    slot: u32,
    event_handle: u64,
    event_type: u16,
    turnkey: u64,
    status: u32,
) -> (r: Delivery)
    ensures
        !spec_wrap_checked_ok(*plant, handle, ObjectKind::RealtimeKeylistCatalog) ==> r
            == Delivery::BadObject,
        spec_wrap_checked_ok(*plant, handle, ObjectKind::RealtimeKeylistCatalog) ==> match
            spec_context_token(*plant, handle) {
            None => r == Delivery::ContextMismatch,
            Some(t) => if t == 0 || !(caps.spec_borrow(t) matches Ok(
                Capsule::ContainerCatalog(_),
            )) {
                r == Delivery::ContextMismatch
            } else {
                let ctx = caps.spec_borrow(t)->Ok_0->ContainerCatalog_0;
                match spec_classify(event_type) {
                    None => r == Delivery::UnknownEvent,
                    Some(k) => if !spec_registered(ctx, k) {
                        r == Delivery::Unhandled
                    } else if event_handle == 0 {
                        r == Delivery::BadEvent
                    } else {
                        r == Delivery::Invoked
                    },
                }
            },
        },
{
    let catalog = match wrap_checked::<Catalog>(plant, handle) {
        Ok(c) => c,
        Err(_) => {
            return Delivery::BadObject;
        },
    };
    let context_turnkey = match catalog.turnkey(plant) {
        Ok(t) => t,
        Err(_) => {
            return Delivery::ContextMismatch;
        },
    };
    if context_turnkey == 0 {
        return Delivery::ContextMismatch;
    }
    let context = match caps.borrow_capsule(context_turnkey) {
        Ok(Capsule::ContainerCatalog(c)) => *c,
        Ok(_) => {
            return Delivery::ContextMismatch;
        },
        Err(_) => {
            return Delivery::ContextMismatch;
        },
    };
    let user_data = if turnkey == 0 {
        None
    } else {
        match caps.borrow_capsule(turnkey) {
            Ok(Capsule::User(v)) => Some(*v),
            _ => None,
        }
    };
    let _ = slot;
    let _ = status;
    context.dispatch(plant, handlers, &catalog, event_handle, event_type, user_data)
}

} // verus!
