//! A verified client core for a native market-data feed handler.
//!
//! The native library hands out opaque handles, delivers events through a
//! fixed-signature callback, and exposes every piece of object state as a
//! byte-addressed field space.  This crate verifies the boundary-crossing
//! core of a client for such a library: the status-code domain, the typed
//! handle wrapper, the generic field accessor, the context capsule that
//! carries caller state through the callback as an opaque integer token,
//! and the per-subsystem callback dispatchers.
//!
//! The vendor library itself is reachable only through a proprietary C ABI,
//! so the crate states and checks the core against an explicit in-process
//! model of the native object table ([`appliance::Appliance`]); the model
//! stores exactly what it is given, which is the contract the real library
//! documents for its field space.

pub use error::{Error, ExegyError, Success};
pub use feed::{Feed, Id as FeedId, Internal as InternalFeed, Us as UsFeed};
pub use group::{Corporate, Country, Group, Id as GroupId};
pub use key::{AlternateId, Key, Symbol};
pub use misc::{HiTime, TradeVenue};
pub use status::{Instrument as InstrumentStatus, Market as MarketStatus};
pub use timing::EventTiming;

pub mod appliance;
pub mod capsule;
pub mod container;
pub mod dispatch;
pub mod error;
pub mod event;
pub mod feed;
pub mod field;
pub mod group;
pub mod key;
pub mod keylist;
pub mod misc;
pub mod object;
pub mod price;
pub mod session;
pub mod status;
pub mod timing;
