//! Session objects: the connection to the appliance, its builder, and
//! the session-status callback path.
//!
//! A session is created once with a callback registration and an opaque
//! context token; every later status callback arrives on a thread the
//! native library owns, carrying that token back.  [`deliver`] is the
//! dispatch decision the callback trampoline runs: resolve the capsule,
//! re-wrap the calling session, apply the context's one-time thread
//! configuration, classify the event-type code, and invoke the one
//! registered handler inside the failure boundary.

use vstd::bytes::{spec_u16_from_le_bytes, spec_u32_from_le_bytes, spec_u64_from_le_bytes};
use vstd::prelude::*;
use vstd::string::StringExecFns;
use vstd::utf8::{decode_utf8, encode_utf8, valid_utf8};

use crate::appliance::Appliance;
use crate::capsule::{Capsule, CapsuleStore};
use crate::dispatch::Delivery;
use crate::error::{decode, spec_decode, Error, ExegyError, Success};
use crate::event::Common;
use crate::field::{
    self, spec_field_read, spec_field_read_upto, spec_has_nul, spec_set_effect, spec_until_nul,
    Field as FieldTrait, STRING_FIELD_CAP, XC_SESSION,
};
use crate::object::{spec_code_of, wrap_checked, wrap_with_known_kind, spec_wrap_checked_ok, Kind as ObjectKind, Wrapper};

verus! {

/// A callback object containing status event details.
#[derive(Clone, Copy, Debug)]
pub struct StatusEvent {
    handle: u64,
}

impl Wrapper for StatusEvent {
    open spec fn wrapped_kind() -> ObjectKind {
        ObjectKind::EventSessionStatus
    }

    closed spec fn spec_handle(&self) -> u64 {
        self.handle
    }

    fn from_handle_unchecked(handle: u64) -> (r: Self) {
        StatusEvent { handle }
    }

    fn as_xhandle(&self) -> (r: u64) {
        self.handle
    }

    fn wrapped_kind_code() -> (r: u16) {
        ObjectKind::EventSessionStatus.to_u16()
    }
}

impl Common for StatusEvent {

}

/// The ticker session object.
#[derive(Clone, Copy, Debug)]
pub struct TickerSession {
    handle: u64,
}

impl Wrapper for TickerSession {
    open spec fn wrapped_kind() -> ObjectKind {
        ObjectKind::SessionTicker
    }

    closed spec fn spec_handle(&self) -> u64 {
        self.handle
    }

    fn from_handle_unchecked(handle: u64) -> (r: Self) {
        TickerSession { handle }
    }

    fn as_xhandle(&self) -> (r: u64) {
        self.handle
    }

    fn wrapped_kind_code() -> (r: u16) {
        ObjectKind::SessionTicker.to_u16()
    }
}

impl Session for TickerSession {

}

impl TickerSession {
    /// Retrieve the maximum depth of price-book containers created on
    /// this session.
    pub fn max_pricebook_depth(&self, plant: &Appliance) -> (r: Result<u16, Error>)
        ensures
            match spec_field_read(
                *plant,
                self.spec_handle(),
                XC_SESSION,
                XFLD_SESS_TKR_MAX_PRICE_BOOK_DEPTH,
                2,
            ) {
                Ok(b) => r == Ok::<u16, Error>(spec_u16_from_le_bytes(b)),
                Err(e) => r == Err::<u16, Error>(e),
            },
    {
        field::get_u16(plant, self, XC_SESSION, TickerField::MaxPriceBookDepth)
    }

    /// Retrieve the maximum number of rows for price-book update events.
    pub fn max_pricebook_row_level(&self, plant: &Appliance) -> (r: Result<u16, Error>)
        ensures
            match spec_field_read(
                *plant,
                self.spec_handle(),
                XC_SESSION,
                XFLD_SESS_TKR_MAX_PB_ROW_LEVEL,
                2,
            ) {
                Ok(b) => r == Ok::<u16, Error>(spec_u16_from_le_bytes(b)),
                Err(e) => r == Err::<u16, Error>(e),
            },
    {
        field::get_u16(plant, self, XC_SESSION, TickerField::MaxPriceBookRowLevel)
    }
}

/// Session field: Turnkey.
pub const XFLD_SESS_TURNKEY: u64 = 0x3001;
/// Session field: Status.
pub const XFLD_SESS_STATUS: u64 = 0x3002;
/// Session field: Type.
pub const XFLD_SESS_SESSION_TYPE: u64 = 0x3003;
/// Session field: ClientVersionString.
pub const XFLD_SESS_CLIENT_VERSION_STRING: u64 = 0x3004;
/// Session field: ClientMajorVersion.
pub const XFLD_SESS_CLIENT_MAJOR_VERSION: u64 = 0x3005;
/// Session field: ClientMinorVersion.
pub const XFLD_SESS_CLIENT_MINOR_VERSION: u64 = 0x3006;
/// Session field: ClientRevision.
pub const XFLD_SESS_CLIENT_REVISION: u64 = 0x3007;
/// Session field: ClientBuild.
pub const XFLD_SESS_CLIENT_BUILD: u64 = 0x3008;
/// Session field: ClientCpuCount.
pub const XFLD_SESS_CLIENT_CPU_COUNT: u64 = 0x3009;
/// Session field: ClientAffinityMask.
pub const XFLD_SESS_CLIENT_AFFINITY_MASK: u64 = 0x300a;
/// Session field: ClientBgThreadAffinityMask.
pub const XFLD_SESS_CLIENT_BG_THREAD_AFFINITY_MASK: u64 = 0x300b;
/// Session field: ClientHbThreadAffinityMask.
pub const XFLD_SESS_CLIENT_HB_THREAD_AFFINITY_MASK: u64 = 0x300c;
/// Session field: ClientThreadPriority.
pub const XFLD_SESS_CLIENT_THREAD_PRIORITY: u64 = 0x300d;
/// Session field: ClientBgThreadPriority.
pub const XFLD_SESS_CLIENT_BG_THREAD_PRIORITY: u64 = 0x300e;
/// Session field: ClientHbThreadPriority.
pub const XFLD_SESS_CLIENT_HB_THREAD_PRIORITY: u64 = 0x300f;
/// Session field: ServerName.
pub const XFLD_SESS_SERVER_NAME: u64 = 0x3010;
/// Session field: ServerVersionString.
pub const XFLD_SESS_SERVER_VERSION_STRING: u64 = 0x3011;
/// Session field: ServerMajorVersion.
pub const XFLD_SESS_SERVER_MAJOR_VERSION: u64 = 0x3012;
/// Session field: ServerMinorVersion.
pub const XFLD_SESS_SERVER_MINOR_VERSION: u64 = 0x3013;
/// Session field: ServerRevision.
pub const XFLD_SESS_SERVER_REVISION: u64 = 0x3014;
/// Session field: ServerBuild.
pub const XFLD_SESS_SERVER_BUILD: u64 = 0x3015;
/// Session field: DisableReconnect.
pub const XFLD_SESS_DISABLE_RECONNECT: u64 = 0x3016;
/// Session field: ReplayStart.
pub const XFLD_SESS_REPLAY_START: u64 = 0x3017;
/// Session field: ReplayQuoteMontage.
pub const XFLD_SESS_REPLAY_QUOTE_MONTAGE: u64 = 0x3018;
/// Session field: ReplayL2Composite.
pub const XFLD_SESS_REPLAY_L2_COMPOSITE: u64 = 0x3019;
/// Session field: ReplayUbbo.
pub const XFLD_SESS_REPLAY_UBBO: u64 = 0x301a;
/// Ticker session field: MaxPriceBookDepth.
pub const XFLD_SESS_TKR_MAX_PRICE_BOOK_DEPTH: u64 = 0x3101;
/// Ticker session field: MarketStatusCallbacks.
pub const XFLD_SESS_TKR_MARKET_STATUS_CALLBACKS: u64 = 0x3102;
/// Ticker session field: MaxPriceBookRowLevel.
pub const XFLD_SESS_TKR_MAX_PB_ROW_LEVEL: u64 = 0x3103;

/// Field identifiers of session objects.
#[derive(Clone, Copy, Debug)]
pub enum Field {
    /// Turnkey.
    Turnkey,
    /// Status.
    Status,
    /// Type.
    Type,
    /// ClientVersionString.
    ClientVersionString,
    /// ClientMajorVersion.
    ClientMajorVersion,
    /// ClientMinorVersion.
    ClientMinorVersion,
    /// ClientRevision.
    ClientRevision,
    /// ClientBuild.
    ClientBuild,
    /// ClientCpuCount.
    ClientCpuCount,
    /// ClientAffinityMask.
    ClientAffinityMask,
    /// ClientBgThreadAffinityMask.
    ClientBgThreadAffinityMask,
    /// ClientHbThreadAffinityMask.
    ClientHbThreadAffinityMask,
    /// ClientThreadPriority.
    ClientThreadPriority,
    /// ClientBgThreadPriority.
    ClientBgThreadPriority,
    /// ClientHbThreadPriority.
    ClientHbThreadPriority,
    /// ServerName.
    ServerName,
    /// ServerVersionString.
    ServerVersionString,
    /// ServerMajorVersion.
    ServerMajorVersion,
    /// ServerMinorVersion.
    ServerMinorVersion,
    /// ServerRevision.
    ServerRevision,
    /// ServerBuild.
    ServerBuild,
    /// DisableReconnect.
    DisableReconnect,
    /// ReplayStart.
    ReplayStart,
    /// ReplayQuoteMontage.
    ReplayQuoteMontage,
    /// ReplayL2Composite.
    ReplayL2Composite,
    /// ReplayUbbo.
    ReplayUbbo,
}

impl FieldTrait for Field {
    open spec fn spec_id(&self) -> u64 {
        match self {
            Field::Turnkey => XFLD_SESS_TURNKEY,
            Field::Status => XFLD_SESS_STATUS,
            Field::Type => XFLD_SESS_SESSION_TYPE,
            Field::ClientVersionString => XFLD_SESS_CLIENT_VERSION_STRING,
            Field::ClientMajorVersion => XFLD_SESS_CLIENT_MAJOR_VERSION,
            Field::ClientMinorVersion => XFLD_SESS_CLIENT_MINOR_VERSION,
            Field::ClientRevision => XFLD_SESS_CLIENT_REVISION,
            Field::ClientBuild => XFLD_SESS_CLIENT_BUILD,
            Field::ClientCpuCount => XFLD_SESS_CLIENT_CPU_COUNT,
            Field::ClientAffinityMask => XFLD_SESS_CLIENT_AFFINITY_MASK,
            Field::ClientBgThreadAffinityMask => XFLD_SESS_CLIENT_BG_THREAD_AFFINITY_MASK,
            Field::ClientHbThreadAffinityMask => XFLD_SESS_CLIENT_HB_THREAD_AFFINITY_MASK,
            Field::ClientThreadPriority => XFLD_SESS_CLIENT_THREAD_PRIORITY,
            Field::ClientBgThreadPriority => XFLD_SESS_CLIENT_BG_THREAD_PRIORITY,
            Field::ClientHbThreadPriority => XFLD_SESS_CLIENT_HB_THREAD_PRIORITY,
            Field::ServerName => XFLD_SESS_SERVER_NAME,
            Field::ServerVersionString => XFLD_SESS_SERVER_VERSION_STRING,
            Field::ServerMajorVersion => XFLD_SESS_SERVER_MAJOR_VERSION,
            Field::ServerMinorVersion => XFLD_SESS_SERVER_MINOR_VERSION,
            Field::ServerRevision => XFLD_SESS_SERVER_REVISION,
            Field::ServerBuild => XFLD_SESS_SERVER_BUILD,
            Field::DisableReconnect => XFLD_SESS_DISABLE_RECONNECT,
            Field::ReplayStart => XFLD_SESS_REPLAY_START,
            Field::ReplayQuoteMontage => XFLD_SESS_REPLAY_QUOTE_MONTAGE,
            Field::ReplayL2Composite => XFLD_SESS_REPLAY_L2_COMPOSITE,
            Field::ReplayUbbo => XFLD_SESS_REPLAY_UBBO,
        }
    }

    fn to_u64(&self) -> (r: u64) {
        match self {
            Field::Turnkey => XFLD_SESS_TURNKEY,
            Field::Status => XFLD_SESS_STATUS,
            Field::Type => XFLD_SESS_SESSION_TYPE,
            Field::ClientVersionString => XFLD_SESS_CLIENT_VERSION_STRING,
            Field::ClientMajorVersion => XFLD_SESS_CLIENT_MAJOR_VERSION,
            Field::ClientMinorVersion => XFLD_SESS_CLIENT_MINOR_VERSION,
            Field::ClientRevision => XFLD_SESS_CLIENT_REVISION,
            Field::ClientBuild => XFLD_SESS_CLIENT_BUILD,
            Field::ClientCpuCount => XFLD_SESS_CLIENT_CPU_COUNT,
            Field::ClientAffinityMask => XFLD_SESS_CLIENT_AFFINITY_MASK,
            Field::ClientBgThreadAffinityMask => XFLD_SESS_CLIENT_BG_THREAD_AFFINITY_MASK,
            Field::ClientHbThreadAffinityMask => XFLD_SESS_CLIENT_HB_THREAD_AFFINITY_MASK,
            Field::ClientThreadPriority => XFLD_SESS_CLIENT_THREAD_PRIORITY,
            Field::ClientBgThreadPriority => XFLD_SESS_CLIENT_BG_THREAD_PRIORITY,
            Field::ClientHbThreadPriority => XFLD_SESS_CLIENT_HB_THREAD_PRIORITY,
            Field::ServerName => XFLD_SESS_SERVER_NAME,
            Field::ServerVersionString => XFLD_SESS_SERVER_VERSION_STRING,
            Field::ServerMajorVersion => XFLD_SESS_SERVER_MAJOR_VERSION,
            Field::ServerMinorVersion => XFLD_SESS_SERVER_MINOR_VERSION,
            Field::ServerRevision => XFLD_SESS_SERVER_REVISION,
            Field::ServerBuild => XFLD_SESS_SERVER_BUILD,
            Field::DisableReconnect => XFLD_SESS_DISABLE_RECONNECT,
            Field::ReplayStart => XFLD_SESS_REPLAY_START,
            Field::ReplayQuoteMontage => XFLD_SESS_REPLAY_QUOTE_MONTAGE,
            Field::ReplayL2Composite => XFLD_SESS_REPLAY_L2_COMPOSITE,
            Field::ReplayUbbo => XFLD_SESS_REPLAY_UBBO,
        }
    }
}

/// Field identifiers specific to ticker sessions.
#[derive(Clone, Copy, Debug)]
pub enum TickerField {
    /// MaxPriceBookDepth.
    MaxPriceBookDepth,
    /// MarketStatusCallbacks.
    MarketStatusCallbacks,
    /// MaxPriceBookRowLevel.
    MaxPriceBookRowLevel,
}

impl FieldTrait for TickerField {
    open spec fn spec_id(&self) -> u64 {
        match self {
            TickerField::MaxPriceBookDepth => XFLD_SESS_TKR_MAX_PRICE_BOOK_DEPTH,
            TickerField::MarketStatusCallbacks => XFLD_SESS_TKR_MARKET_STATUS_CALLBACKS,
            TickerField::MaxPriceBookRowLevel => XFLD_SESS_TKR_MAX_PB_ROW_LEVEL,
        }
    }

    fn to_u64(&self) -> (r: u64) {
        match self {
            TickerField::MaxPriceBookDepth => XFLD_SESS_TKR_MAX_PRICE_BOOK_DEPTH,
            TickerField::MarketStatusCallbacks => XFLD_SESS_TKR_MARKET_STATUS_CALLBACKS,
            TickerField::MaxPriceBookRowLevel => XFLD_SESS_TKR_MAX_PB_ROW_LEVEL,
        }
    }
}
/// Interfaces common to appliance sessions.
pub trait Session: Wrapper {
    /// Retrieve the session type of this object.
    fn session_type(&self, plant: &Appliance) -> (r: Result<u16, Error>)
        ensures
            match spec_field_read(*plant, self.spec_handle(), XC_SESSION, XFLD_SESS_SESSION_TYPE, 2) {
                Ok(b) => r == Ok::<u16, Error>(spec_u16_from_le_bytes(b)),
                Err(e) => r == Err::<u16, Error>(e),
            },
    {
        field::get_u16(plant, self, XC_SESSION, Field::Type)
    }

    /// Retrieve the status of this session, decoded into the two
    /// outcome kinds.
    fn status(&self, plant: &Appliance) -> (r: Result<Result<Success, ExegyError>, Error>)
        ensures
            match spec_field_read(*plant, self.spec_handle(), XC_SESSION, XFLD_SESS_STATUS, 4) {
                Ok(b) => r == Ok::<Result<Success, ExegyError>, Error>(
                    spec_decode(spec_u32_from_le_bytes(b)),
                ),
                Err(e) => r == Err::<Result<Success, ExegyError>, Error>(e),
            },
    {
        match field::get_u32(plant, self, XC_SESSION, Field::Status) {
            Ok(v) => Ok(decode(v)),
            Err(e) => Err(e),
        }
    }

    /// Retrieve the client version string.
    fn client_version(&self, plant: &Appliance) -> (r: Result<String, Error>)
        ensures
            match spec_field_read_upto(
                *plant,
                self.spec_handle(),
                XC_SESSION,
                XFLD_SESS_CLIENT_VERSION_STRING,
                STRING_FIELD_CAP,
            ) {
                Err(e) => r == Err::<String, Error>(e),
                Ok(b) => if b.len() == STRING_FIELD_CAP && !spec_has_nul(b) {
                    r == Err::<String, Error>(Error::NoNullTerm)
                } else if valid_utf8(spec_until_nul(b)) {
                    r is Ok && r->Ok_0@ == decode_utf8(spec_until_nul(b))
                } else {
                    r == Err::<String, Error>(Error::InvalidUtf8)
                },
            },
    {
        field::get_string(plant, self, XC_SESSION, Field::ClientVersionString)
    }

    /// Retrieve the client major version.
    fn client_major_version(&self, plant: &Appliance) -> (r: Result<u32, Error>)
        ensures
            match spec_field_read(*plant, self.spec_handle(), XC_SESSION, XFLD_SESS_CLIENT_MAJOR_VERSION, 4) {
                Ok(b) => r == Ok::<u32, Error>(spec_u32_from_le_bytes(b)),
                Err(e) => r == Err::<u32, Error>(e),
            },
    {
        field::get_u32(plant, self, XC_SESSION, Field::ClientMajorVersion)
    }

    /// Retrieve the client minor version.
    fn client_minor_version(&self, plant: &Appliance) -> (r: Result<u32, Error>)
        ensures
            match spec_field_read(*plant, self.spec_handle(), XC_SESSION, XFLD_SESS_CLIENT_MINOR_VERSION, 4) {
                Ok(b) => r == Ok::<u32, Error>(spec_u32_from_le_bytes(b)),
                Err(e) => r == Err::<u32, Error>(e),
            },
    {
        field::get_u32(plant, self, XC_SESSION, Field::ClientMinorVersion)
    }

    /// Retrieve the client version revision.
    fn client_revision(&self, plant: &Appliance) -> (r: Result<u32, Error>)
        ensures
            match spec_field_read(*plant, self.spec_handle(), XC_SESSION, XFLD_SESS_CLIENT_REVISION, 4) {
                Ok(b) => r == Ok::<u32, Error>(spec_u32_from_le_bytes(b)),
                Err(e) => r == Err::<u32, Error>(e),
            },
    {
        field::get_u32(plant, self, XC_SESSION, Field::ClientRevision)
    }

    /// Retrieve the client version build.
    fn client_build(&self, plant: &Appliance) -> (r: Result<u32, Error>)
        ensures
            match spec_field_read(*plant, self.spec_handle(), XC_SESSION, XFLD_SESS_CLIENT_BUILD, 4) {
                Ok(b) => r == Ok::<u32, Error>(spec_u32_from_le_bytes(b)),
                Err(e) => r == Err::<u32, Error>(e),
            },
    {
        field::get_u32(plant, self, XC_SESSION, Field::ClientBuild)
    }

    /// Retrieve the client CPU count.
    fn client_cpu_count(&self, plant: &Appliance) -> (r: Result<u32, Error>)
        ensures
            match spec_field_read(*plant, self.spec_handle(), XC_SESSION, XFLD_SESS_CLIENT_CPU_COUNT, 4) {
                Ok(b) => r == Ok::<u32, Error>(spec_u32_from_le_bytes(b)),
                Err(e) => r == Err::<u32, Error>(e),
            },
    {
        field::get_u32(plant, self, XC_SESSION, Field::ClientCpuCount)
    }

    /// Retrieve the affinity mask for the callback thread on this session.
    fn callback_affinity(&self, plant: &Appliance) -> (r: Result<u64, Error>)
        ensures
            match spec_field_read(*plant, self.spec_handle(), XC_SESSION, XFLD_SESS_CLIENT_AFFINITY_MASK, 8) {
                Ok(b) => r == Ok::<u64, Error>(spec_u64_from_le_bytes(b)),
                Err(e) => r == Err::<u64, Error>(e),
            },
    {
        field::get_u64(plant, self, XC_SESSION, Field::ClientAffinityMask)
    }

    /// Retrieve the priority for the callback thread on this session.
    fn callback_priority(&self, plant: &Appliance) -> (r: Result<u32, Error>)
        ensures
            match spec_field_read(*plant, self.spec_handle(), XC_SESSION, XFLD_SESS_CLIENT_THREAD_PRIORITY, 4) {
                Ok(b) => r == Ok::<u32, Error>(spec_u32_from_le_bytes(b)),
                Err(e) => r == Err::<u32, Error>(e),
            },
    {
        field::get_u32(plant, self, XC_SESSION, Field::ClientThreadPriority)
    }

    /// Retrieve the CPU affinity mask for the background thread.
    fn background_affinity(&self, plant: &Appliance) -> (r: Result<u64, Error>)
        ensures
            match spec_field_read(*plant, self.spec_handle(), XC_SESSION, XFLD_SESS_CLIENT_BG_THREAD_AFFINITY_MASK, 8) {
                Ok(b) => r == Ok::<u64, Error>(spec_u64_from_le_bytes(b)),
                Err(e) => r == Err::<u64, Error>(e),
            },
    {
        field::get_u64(plant, self, XC_SESSION, Field::ClientBgThreadAffinityMask)
    }

    /// Retrieve the priority for the background thread.
    fn background_priority(&self, plant: &Appliance) -> (r: Result<u32, Error>)
        ensures
            match spec_field_read(*plant, self.spec_handle(), XC_SESSION, XFLD_SESS_CLIENT_BG_THREAD_PRIORITY, 4) {
                Ok(b) => r == Ok::<u32, Error>(spec_u32_from_le_bytes(b)),
                Err(e) => r == Err::<u32, Error>(e),
            },
    {
        field::get_u32(plant, self, XC_SESSION, Field::ClientBgThreadPriority)
    }

    /// Retrieve the CPU affinity mask for the timing thread.
    fn timing_affinity(&self, plant: &Appliance) -> (r: Result<u64, Error>)
        ensures
            match spec_field_read(*plant, self.spec_handle(), XC_SESSION, XFLD_SESS_CLIENT_HB_THREAD_AFFINITY_MASK, 8) {
                Ok(b) => r == Ok::<u64, Error>(spec_u64_from_le_bytes(b)),
                Err(e) => r == Err::<u64, Error>(e),
            },
    {
        field::get_u64(plant, self, XC_SESSION, Field::ClientHbThreadAffinityMask)
    }

    /// Retrieve the priority for the timing thread.
    fn hearatbeat_priority(&self, plant: &Appliance) -> (r: Result<u32, Error>)
        ensures
            match spec_field_read(*plant, self.spec_handle(), XC_SESSION, XFLD_SESS_CLIENT_HB_THREAD_PRIORITY, 4) {
                Ok(b) => r == Ok::<u32, Error>(spec_u32_from_le_bytes(b)),
                Err(e) => r == Err::<u32, Error>(e),
            },
    {
        field::get_u32(plant, self, XC_SESSION, Field::ClientHbThreadPriority)
    }

    /// Retrieve the name of the server this session is connected to.
    fn server_name(&self, plant: &Appliance) -> (r: Result<String, Error>)
        ensures
            match spec_field_read_upto(
                *plant,
                self.spec_handle(),
                XC_SESSION,
                XFLD_SESS_SERVER_NAME,
                STRING_FIELD_CAP,
            ) {
                Err(e) => r == Err::<String, Error>(e),
                Ok(b) => if b.len() == STRING_FIELD_CAP && !spec_has_nul(b) {
                    r == Err::<String, Error>(Error::NoNullTerm)
                } else if valid_utf8(spec_until_nul(b)) {
                    r is Ok && r->Ok_0@ == decode_utf8(spec_until_nul(b))
                } else {
                    r == Err::<String, Error>(Error::InvalidUtf8)
                },
            },
    {
        field::get_string(plant, self, XC_SESSION, Field::ServerName)
    }

    /// Retrieve the version string of the server this session is connected to.
    fn server_version(&self, plant: &Appliance) -> (r: Result<String, Error>)
        ensures
            match spec_field_read_upto(
                *plant,
                self.spec_handle(),
                XC_SESSION,
                XFLD_SESS_SERVER_VERSION_STRING,
                STRING_FIELD_CAP,
            ) {
                Err(e) => r == Err::<String, Error>(e),
                Ok(b) => if b.len() == STRING_FIELD_CAP && !spec_has_nul(b) {
                    r == Err::<String, Error>(Error::NoNullTerm)
                } else if valid_utf8(spec_until_nul(b)) {
                    r is Ok && r->Ok_0@ == decode_utf8(spec_until_nul(b))
                } else {
                    r == Err::<String, Error>(Error::InvalidUtf8)
                },
            },
    {
        field::get_string(plant, self, XC_SESSION, Field::ServerVersionString)
    }

    /// Retrieve the major version of the code running on the appliance.
    fn server_major_version(&self, plant: &Appliance) -> (r: Result<u8, Error>)
        ensures
            match spec_field_read(*plant, self.spec_handle(), XC_SESSION, XFLD_SESS_SERVER_MAJOR_VERSION, 1) {
                Ok(b) => r == Ok::<u8, Error>(b[0]),
                Err(e) => r == Err::<u8, Error>(e),
            },
    {
        field::get_u8(plant, self, XC_SESSION, Field::ServerMajorVersion)
    }

    /// Retrieve the minor version of the code running on the appliance.
    fn server_minor_version(&self, plant: &Appliance) -> (r: Result<u8, Error>)
        ensures
            match spec_field_read(*plant, self.spec_handle(), XC_SESSION, XFLD_SESS_SERVER_MINOR_VERSION, 1) {
                Ok(b) => r == Ok::<u8, Error>(b[0]),
                Err(e) => r == Err::<u8, Error>(e),
            },
    {
        field::get_u8(plant, self, XC_SESSION, Field::ServerMinorVersion)
    }

    /// Retrieve the software revision of the code running on the appliance.
    fn server_revision(&self, plant: &Appliance) -> (r: Result<u8, Error>)
        ensures
            match spec_field_read(*plant, self.spec_handle(), XC_SESSION, XFLD_SESS_SERVER_REVISION, 1) {
                Ok(b) => r == Ok::<u8, Error>(b[0]),
                Err(e) => r == Err::<u8, Error>(e),
            },
    {
        field::get_u8(plant, self, XC_SESSION, Field::ServerRevision)
    }

    /// Retrieve the build of the code running on the appliance.
    fn server_build(&self, plant: &Appliance) -> (r: Result<u32, Error>)
        ensures
            match spec_field_read(*plant, self.spec_handle(), XC_SESSION, XFLD_SESS_SERVER_BUILD, 4) {
                Ok(b) => r == Ok::<u32, Error>(spec_u32_from_le_bytes(b)),
                Err(e) => r == Err::<u32, Error>(e),
            },
    {
        field::get_u32(plant, self, XC_SESSION, Field::ServerBuild)
    }

    /// Retrieve whether reconnection is enabled.
    fn reconnect_enabled(&self, plant: &Appliance) -> (r: Result<bool, Error>)
        ensures
            match spec_field_read(
                *plant,
                self.spec_handle(),
                XC_SESSION,
                XFLD_SESS_DISABLE_RECONNECT,
                1,
            ) {
                Ok(b) => r == Ok::<bool, Error>(b[0] == 0),
                Err(e) => r == Err::<bool, Error>(e),
            },
    {
        match field::get_u8(plant, self, XC_SESSION, Field::DisableReconnect) {
            Ok(v) => Ok(v == 0),
            Err(e) => Err(e),
        }
    }

    /// Enable reconnection.
    fn enable_reconnect(&self, plant: &mut Appliance) -> (r: Result<(), Error>)
        ensures
            !old(plant).spec_has_object(self.spec_handle()) ==> r == Err::<(), Error>(
                Error::Exegy(ExegyError::BadHandle),
            ) && *final(plant) == *old(plant),
            old(plant).spec_has_object(self.spec_handle()) ==> r == Ok::<(), Error>(())
                && spec_set_effect(
                *old(plant),
                *final(plant),
                self.spec_handle(),
                XC_SESSION,
                XFLD_SESS_DISABLE_RECONNECT,
                seq![0u8],
            ),
    {
        field::set_u8(plant, self, XC_SESSION, Field::DisableReconnect, 0)
    }

    /// Disable reconnection.
    fn disable_reconnect(&self, plant: &mut Appliance) -> (r: Result<(), Error>)
        ensures
            !old(plant).spec_has_object(self.spec_handle()) ==> r == Err::<(), Error>(
                Error::Exegy(ExegyError::BadHandle),
            ) && *final(plant) == *old(plant),
            old(plant).spec_has_object(self.spec_handle()) ==> r == Ok::<(), Error>(())
                && spec_set_effect(
                *old(plant),
                *final(plant),
                self.spec_handle(),
                XC_SESSION,
                XFLD_SESS_DISABLE_RECONNECT,
                seq![1u8],
            ),
    {
        field::set_u8(plant, self, XC_SESSION, Field::DisableReconnect, 1)
    }

    /// Get whether the replay has been started.
    fn replay_start(&self, plant: &Appliance) -> (r: Result<bool, Error>)
        ensures
            match spec_field_read(
                *plant,
                self.spec_handle(),
                XC_SESSION,
                XFLD_SESS_REPLAY_START,
                1,
            ) {
                Ok(b) => r == Ok::<bool, Error>(b[0] != 0),
                Err(e) => r == Err::<bool, Error>(e),
            },
    {
        match field::get_u8(plant, self, XC_SESSION, Field::ReplayStart) {
            Ok(v) => Ok(v != 0),
            Err(e) => Err(e),
        }
    }

    /// Start a replay session.
    fn start_replay(&self, plant: &mut Appliance) -> (r: Result<(), Error>)
        ensures
            !old(plant).spec_has_object(self.spec_handle()) ==> r == Err::<(), Error>(
                Error::Exegy(ExegyError::BadHandle),
            ) && *final(plant) == *old(plant),
            old(plant).spec_has_object(self.spec_handle()) ==> r == Ok::<(), Error>(())
                && spec_set_effect(
                *old(plant),
                *final(plant),
                self.spec_handle(),
                XC_SESSION,
                XFLD_SESS_REPLAY_START,
                seq![1u8],
            ),
    {
        field::set_u8(plant, self, XC_SESSION, Field::ReplayStart, 1)
    }

    /// Stop a replay session.
    fn stop_replay(&self, plant: &mut Appliance) -> (r: Result<(), Error>)
        ensures
            !old(plant).spec_has_object(self.spec_handle()) ==> r == Err::<(), Error>(
                Error::Exegy(ExegyError::BadHandle),
            ) && *final(plant) == *old(plant),
            old(plant).spec_has_object(self.spec_handle()) ==> r == Ok::<(), Error>(())
                && spec_set_effect(
                *old(plant),
                *final(plant),
                self.spec_handle(),
                XC_SESSION,
                XFLD_SESS_REPLAY_START,
                seq![0u8],
            ),
    {
        field::set_u8(plant, self, XC_SESSION, Field::ReplayStart, 0)
    }

    /// Retrieve the user-defined quote montage constituents for replay sessions.
    fn replay_quote_montage(&self, plant: &Appliance) -> (r: Result<String, Error>)
        ensures
            match spec_field_read_upto(
                *plant,
                self.spec_handle(),
                XC_SESSION,
                XFLD_SESS_REPLAY_QUOTE_MONTAGE,
                STRING_FIELD_CAP,
            ) {
                Err(e) => r == Err::<String, Error>(e),
                Ok(b) => if b.len() == STRING_FIELD_CAP && !spec_has_nul(b) {
                    r == Err::<String, Error>(Error::NoNullTerm)
                } else if valid_utf8(spec_until_nul(b)) {
                    r is Ok && r->Ok_0@ == decode_utf8(spec_until_nul(b))
                } else {
                    r == Err::<String, Error>(Error::InvalidUtf8)
                },
            },
    {
        field::get_string(plant, self, XC_SESSION, Field::ReplayQuoteMontage)
    }

    /// Set the user-defined quote montage constituents for replay sessions.
    fn set_replay_quote_montage(&self, plant: &mut Appliance, value: String) -> (r: Result<(), Error>)
        ensures
            spec_has_nul(encode_utf8(value@)) ==> r == Err::<(), Error>(Error::EmbeddedNull)
                && *final(plant) == *old(plant),
            !spec_has_nul(encode_utf8(value@)) && !old(plant).spec_has_object(self.spec_handle())
                ==> r == Err::<(), Error>(Error::Exegy(ExegyError::BadHandle)) && *final(plant)
                == *old(plant),
            !spec_has_nul(encode_utf8(value@)) && old(plant).spec_has_object(self.spec_handle())
                ==> r == Ok::<(), Error>(()) && spec_set_effect(
                *old(plant),
                *final(plant),
                self.spec_handle(),
                XC_SESSION,
                XFLD_SESS_REPLAY_QUOTE_MONTAGE,
                encode_utf8(value@),
            ),
    {
        field::set_string(plant, self, XC_SESSION, Field::ReplayQuoteMontage, value)
    }

    /// Retrieve the user-defined consolidated price book constituents for replay sessions.
    fn replay_l2_composite(&self, plant: &Appliance) -> (r: Result<String, Error>)
        ensures
            match spec_field_read_upto(
                *plant,
                self.spec_handle(),
                XC_SESSION,
                XFLD_SESS_REPLAY_L2_COMPOSITE,
                STRING_FIELD_CAP,
            ) {
                Err(e) => r == Err::<String, Error>(e),
                Ok(b) => if b.len() == STRING_FIELD_CAP && !spec_has_nul(b) {
                    r == Err::<String, Error>(Error::NoNullTerm)
                } else if valid_utf8(spec_until_nul(b)) {
                    r is Ok && r->Ok_0@ == decode_utf8(spec_until_nul(b))
                } else {
                    r == Err::<String, Error>(Error::InvalidUtf8)
                },
            },
    {
        field::get_string(plant, self, XC_SESSION, Field::ReplayL2Composite)
    }

    /// Set the user-defined consolidated price book constituents for replay sessions.
    fn set_replay_l2_composite(&self, plant: &mut Appliance, value: String) -> (r: Result<(), Error>)
        ensures
            spec_has_nul(encode_utf8(value@)) ==> r == Err::<(), Error>(Error::EmbeddedNull)
                && *final(plant) == *old(plant),
            !spec_has_nul(encode_utf8(value@)) && !old(plant).spec_has_object(self.spec_handle())
                ==> r == Err::<(), Error>(Error::Exegy(ExegyError::BadHandle)) && *final(plant)
                == *old(plant),
            !spec_has_nul(encode_utf8(value@)) && old(plant).spec_has_object(self.spec_handle())
                ==> r == Ok::<(), Error>(()) && spec_set_effect(
                *old(plant),
                *final(plant),
                self.spec_handle(),
                XC_SESSION,
                XFLD_SESS_REPLAY_L2_COMPOSITE,
                encode_utf8(value@),
            ),
    {
        field::set_string(plant, self, XC_SESSION, Field::ReplayL2Composite, value)
    }

    /// Retrieve the exchange constituents for user-defined best bid and offer on replay sessions.
    fn replay_ubbo(&self, plant: &Appliance) -> (r: Result<String, Error>)
        ensures
            match spec_field_read_upto(
                *plant,
                self.spec_handle(),
                XC_SESSION,
                XFLD_SESS_REPLAY_UBBO,
                STRING_FIELD_CAP,
            ) {
                Err(e) => r == Err::<String, Error>(e),
                Ok(b) => if b.len() == STRING_FIELD_CAP && !spec_has_nul(b) {
                    r == Err::<String, Error>(Error::NoNullTerm)
                } else if valid_utf8(spec_until_nul(b)) {
                    r is Ok && r->Ok_0@ == decode_utf8(spec_until_nul(b))
                } else {
                    r == Err::<String, Error>(Error::InvalidUtf8)
                },
            },
    {
        field::get_string(plant, self, XC_SESSION, Field::ReplayUbbo)
    }

    /// Set the exchange constituents for user-defined best bid and offer on replay sessions.
    fn set_replay_ubbo(&self, plant: &mut Appliance, value: String) -> (r: Result<(), Error>)
        ensures
            spec_has_nul(encode_utf8(value@)) ==> r == Err::<(), Error>(Error::EmbeddedNull)
                && *final(plant) == *old(plant),
            !spec_has_nul(encode_utf8(value@)) && !old(plant).spec_has_object(self.spec_handle())
                ==> r == Err::<(), Error>(Error::Exegy(ExegyError::BadHandle)) && *final(plant)
                == *old(plant),
            !spec_has_nul(encode_utf8(value@)) && old(plant).spec_has_object(self.spec_handle())
                ==> r == Ok::<(), Error>(()) && spec_set_effect(
                *old(plant),
                *final(plant),
                self.spec_handle(),
                XC_SESSION,
                XFLD_SESS_REPLAY_UBBO,
                encode_utf8(value@),
            ),
    {
        field::set_string(plant, self, XC_SESSION, Field::ReplayUbbo, value)
    }
}

/// The state a session carries through its capsule token: which status
/// callback is registered and what thread configuration to apply from
/// inside the first callback.
#[derive(Clone, Copy, Debug, PartialEq, Eq, Structural)]
pub struct Context {
    /// Whether a status-event handler was registered at build time.
    pub status_registered: bool,
    /// The CPU affinity mask to set on the callback thread, if any.
    pub affinity: Option<u64>,
    /// The thread priority to set on the callback thread, if any.
    pub priority: Option<u32>,
    /// Whether to fire market-status callbacks per instrument.
    pub market_events_per_instrument: Option<bool>,
}

/// An enumeration of session object kinds.
#[derive(Clone, Copy, Debug, PartialEq, Eq, Structural)]
pub enum Kind {
    /// Ticker plant.
    Ticker,
    /// Ticker plant monitoring.
    TickerMonitoring,
}

impl Kind {
    /// The object-kind code of this session kind.
    pub open spec fn spec_code(self) -> u16 {
        match self {
            Kind::Ticker => spec_code_of(ObjectKind::SessionTicker),
            Kind::TickerMonitoring => spec_code_of(ObjectKind::SessionTickerMonitoring),
        }
    }

    /// The session kind a raw object-kind code denotes, if any.
    pub open spec fn spec_of_code(value: u16) -> Option<Kind> {
        if value == spec_code_of(ObjectKind::SessionTicker) {
            Some(Kind::Ticker)
        } else if value == spec_code_of(ObjectKind::SessionTickerMonitoring) {
            Some(Kind::TickerMonitoring)
        } else {
            None
        }
    }

    /// Decode a raw object-kind code into a session kind.
    pub fn try_from_code(value: u16) -> (r: Result<Kind, Error>)
        ensures
            match Kind::spec_of_code(value) {
                Some(k) => r == Ok::<Kind, Error>(k),
                None => r == Err::<Kind, Error>(Error::ObjectUnknown),
            },
    {
        if value == ObjectKind::SessionTicker.to_u16() {
            Ok(Kind::Ticker)
        } else if value == ObjectKind::SessionTickerMonitoring.to_u16() {
            Ok(Kind::TickerMonitoring)
        } else {
            Err(Error::ObjectUnknown)
        }
    }

    /// The raw object-kind code of this session kind.
    pub fn to_code(self) -> (r: u16)
        ensures
            r == self.spec_code(),
    {
        match self {
            Kind::Ticker => ObjectKind::SessionTicker.to_u16(),
            Kind::TickerMonitoring => ObjectKind::SessionTickerMonitoring.to_u16(),
        }
    }
}

/// The closed enumeration of callback event kinds a session delivers.
#[derive(Clone, Copy, Debug, PartialEq, Eq, Structural)]
pub enum EventKind {
    /// Session status has changed.
    Status,
}

/// The session event kind an event-type code denotes: the enumeration is
/// closed, and every code outside it classifies to nothing.
pub open spec fn spec_classify(event_type: u16) -> Option<EventKind> {
    if event_type == spec_code_of(ObjectKind::EventSessionStatus) {
        Some(EventKind::Status)
    } else {
        None
    }
}

impl EventKind {
    /// Classify a raw event-type code.
    pub fn try_from_code(value: u16) -> (r: Result<EventKind, Error>)
        ensures
            match spec_classify(value) {
                Some(k) => r == Ok::<EventKind, Error>(k),
                None => r == Err::<EventKind, Error>(Error::ObjectUnknown),
            },
    {
        if value == ObjectKind::EventSessionStatus.to_u16() {
            Ok(EventKind::Status)
        } else {
            Err(Error::ObjectUnknown)
        }
    }
}

/// A representation of the address types a session can connect through.
#[derive(Clone, Debug)]
pub enum Server {
    /// A capture file path to inject into the session.
    Xti(String),
    /// An Infiniband address.
    Infiniband(String),
    /// A converged-Ethernet address.
    RoCE(String),
    /// A plain network address, already resolved to text.
    Ip(String),
}

/// The server-list entry a server renders to, in the syntax the native
/// library parses.
pub open spec fn spec_server_string(s: Server) -> Seq<char> {
    match s {
        Server::Xti(p) => p@,
        Server::Infiniband(a) => "ib::"@ + a@,
        Server::RoCE(a) => "roce::"@ + a@,
        Server::Ip(a) => a@,
    }
}

impl Server {
    /// Render this server as one entry of the native server list.
    pub fn to_string_value(&self) -> (r: String)
        ensures
            r@ == spec_server_string(*self),
    {
        match self {
            Server::Xti(p) => p.clone(),
            Server::Infiniband(a) => {
                let mut s = String::from_str("ib::");
                s.append(a.as_str());
                s
            },
            Server::RoCE(a) => {
                let mut s = String::from_str("roce::");
                s.append(a.as_str());
                s
            },
            Server::Ip(a) => a.clone(),
        }
    }
}

/// The status-event callback a session's owner supplies.  Nothing is
/// assumed of an implementation: the dispatcher's guarantees hold
/// whatever a handler does or returns.
pub trait StatusHandler {
    /// Called for each session-status event delivered to the session.
    fn on_status(
        &mut self,
        plant: &mut Appliance,
        session: &TickerSession,
        event: &StatusEvent,
    ) -> Result<bool, Error>;
}

/// Whether the builder's strings can cross the C calling convention: an
/// embedded NUL in any of them is rejected before any native call.
pub open spec fn spec_builder_has_nul(b: Builder) -> bool {
    ||| spec_has_nul(encode_utf8(b.username@))
    ||| spec_has_nul(encode_utf8(b.password@))
    ||| exists|i: int|
        0 <= i < b.server_list@.len() && spec_has_nul(
            encode_utf8(spec_server_string(b.server_list@[i])),
        )
}

/// The capsule context a build with these arguments registers.
pub open spec fn spec_built_context(
    b: Builder,
    market_events_per_instrument: Option<bool>,
    status_registered: bool,
) -> Context {
    Context {
        status_registered,
        affinity: b.cb_affinity,
        priority: match b.cb_priority {
            Some(p) => Some(p as u32),
            None => None,
        },
        market_events_per_instrument,
    }
}

/// A session builder.
#[derive(Clone, Debug)]
pub struct Builder {
    /// The servers to connect to, in preference order.
    pub server_list: Vec<Server>,
    /// The username to authenticate with.
    pub username: String,
    /// The password to authenticate with.
    pub password: String,
    /// The CPU affinity mask for the callback thread, if set.
    pub cb_affinity: Option<u64>,
    /// The priority for the callback thread, if set.
    pub cb_priority: Option<u8>,
    /// The CPU affinity mask for the background thread, if set.
    pub bg_affinity: Option<u64>,
    /// The priority for the background thread, if set.
    pub bg_priority: Option<u8>,
    /// The CPU affinity mask for the timing thread, if set.
    pub hb_affinity: Option<u64>,
    /// The priority for the timing thread, if set.
    pub hb_priority: Option<u8>,
}

impl Default for Builder {
    /// An empty builder: no servers, empty credentials, no thread
    /// configuration.
    fn default() -> (r: Builder)
        ensures
            r.server_list@.len() == 0,
            r.username@.len() == 0,
            r.password@.len() == 0,
            r.cb_affinity is None,
            r.cb_priority is None,
            r.bg_affinity is None,
            r.bg_priority is None,
            r.hb_affinity is None,
            r.hb_priority is None,
    {
        Builder {
            server_list: Vec::new(),
            username: String::new(),
            password: String::new(),
            cb_affinity: None,
            cb_priority: None,
            bg_affinity: None,
            bg_priority: None,
            hb_affinity: None,
            hb_priority: None,
        }
    }
}

impl Builder {
    /// Set the username to use when connecting to this session.
    pub fn username(self, username: &str) -> (r: Self)
        ensures
            r.username@ == username@,
            r.server_list == self.server_list,
            r.password == self.password,
            r.cb_affinity == self.cb_affinity,
            r.cb_priority == self.cb_priority,
            r.bg_affinity == self.bg_affinity,
            r.bg_priority == self.bg_priority,
            r.hb_affinity == self.hb_affinity,
            r.hb_priority == self.hb_priority,
    {
        Builder { username: username.to_owned(), ..self }
    }

    /// Set the password to use when connecting to this session.
    pub fn password(self, password: &str) -> (r: Self)
        ensures
            r.password@ == password@,
            r.server_list == self.server_list,
            r.username == self.username,
            r.cb_affinity == self.cb_affinity,
            r.cb_priority == self.cb_priority,
            r.bg_affinity == self.bg_affinity,
            r.bg_priority == self.bg_priority,
            r.hb_affinity == self.hb_affinity,
            r.hb_priority == self.hb_priority,
    {
        Builder { password: password.to_owned(), ..self }
    }

    /// Add a capture file to inject into this session.
    pub fn add_xti(self, xti: &str) -> (r: Self)
        ensures
            r.server_list@.len() == self.server_list@.len() + 1,
            r.server_list@.take(self.server_list@.len() as int) == self.server_list@,
            spec_server_string(r.server_list@.last()) == xti@,
            r.username == self.username,
            r.password == self.password,
            r.cb_affinity == self.cb_affinity,
            r.cb_priority == self.cb_priority,
            r.bg_affinity == self.bg_affinity,
            r.bg_priority == self.bg_priority,
            r.hb_affinity == self.hb_affinity,
            r.hb_priority == self.hb_priority,
    {
        let mut server_list = self.server_list;
        server_list.push(Server::Xti(xti.to_owned()));
        let r = Builder { server_list, ..self };
        proof {
            assert(r.server_list@.take(self.server_list@.len() as int) =~= self.server_list@);
        }
        r
    }

    /// Add an Infiniband address to connect to.
    pub fn add_ib(self, xti: &str) -> (r: Self)
        ensures
            r.server_list@.len() == self.server_list@.len() + 1,
            r.server_list@.take(self.server_list@.len() as int) == self.server_list@,
            spec_server_string(r.server_list@.last()) == "ib::"@ + xti@,
            r.username == self.username,
            r.password == self.password,
            r.cb_affinity == self.cb_affinity,
            r.cb_priority == self.cb_priority,
            r.bg_affinity == self.bg_affinity,
            r.bg_priority == self.bg_priority,
            r.hb_affinity == self.hb_affinity,
            r.hb_priority == self.hb_priority,
    {
        let mut server_list = self.server_list;
        server_list.push(Server::Infiniband(xti.to_owned()));
        let r = Builder { server_list, ..self };
        proof {
            assert(r.server_list@.take(self.server_list@.len() as int) =~= self.server_list@);
        }
        r
    }

    /// Add a converged-Ethernet address to connect to.
    pub fn add_roce(self, xti: &str) -> (r: Self)
        ensures
            r.server_list@.len() == self.server_list@.len() + 1,
            r.server_list@.take(self.server_list@.len() as int) == self.server_list@,
            spec_server_string(r.server_list@.last()) == "roce::"@ + xti@,
            r.username == self.username,
            r.password == self.password,
            r.cb_affinity == self.cb_affinity,
            r.cb_priority == self.cb_priority,
            r.bg_affinity == self.bg_affinity,
            r.bg_priority == self.bg_priority,
            r.hb_affinity == self.hb_affinity,
            r.hb_priority == self.hb_priority,
    {
        let mut server_list = self.server_list;
        server_list.push(Server::RoCE(xti.to_owned()));
        let r = Builder { server_list, ..self };
        proof {
            assert(r.server_list@.take(self.server_list@.len() as int) =~= self.server_list@);
        }
        r
    }

    /// Add a server address, already resolved to text, to connect to.
    pub fn add_server(self, xti: &str) -> (r: Self)
        ensures
            r.server_list@.len() == self.server_list@.len() + 1,
            r.server_list@.take(self.server_list@.len() as int) == self.server_list@,
            spec_server_string(r.server_list@.last()) == xti@,
            r.username == self.username,
            r.password == self.password,
            r.cb_affinity == self.cb_affinity,
            r.cb_priority == self.cb_priority,
            r.bg_affinity == self.bg_affinity,
            r.bg_priority == self.bg_priority,
            r.hb_affinity == self.hb_affinity,
            r.hb_priority == self.hb_priority,
    {
        let mut server_list = self.server_list;
        server_list.push(Server::Ip(xti.to_owned()));
        let r = Builder { server_list, ..self };
        proof {
            assert(r.server_list@.take(self.server_list@.len() as int) =~= self.server_list@);
        }
        r
    }

    /// Set the CPU affinity mask for the callback thread.
    pub fn callback_affinity(self, value: Option<u64>) -> (r: Self)
        ensures
            r.cb_affinity == value,
            r.server_list == self.server_list,
            r.username == self.username,
            r.password == self.password,
            r.cb_priority == self.cb_priority,
            r.bg_affinity == self.bg_affinity,
            r.bg_priority == self.bg_priority,
            r.hb_affinity == self.hb_affinity,
            r.hb_priority == self.hb_priority,
    {
        Builder { cb_affinity: value, ..self }
    }

    /// Set the thread priority for the session callbacks.
    pub fn callback_priority(self, value: Option<u8>) -> (r: Self)
        ensures
            r.cb_priority == value,
            r.server_list == self.server_list,
            r.username == self.username,
            r.password == self.password,
            r.cb_affinity == self.cb_affinity,
            r.bg_affinity == self.bg_affinity,
            r.bg_priority == self.bg_priority,
            r.hb_affinity == self.hb_affinity,
            r.hb_priority == self.hb_priority,
    {
        Builder { cb_priority: value, ..self }
    }

    /// Set the CPU affinity mask for the background processing thread.
    pub fn background_affinity(self, value: Option<u64>) -> (r: Self)
        ensures
            r.bg_affinity == value,
            r.server_list == self.server_list,
            r.username == self.username,
            r.password == self.password,
            r.cb_affinity == self.cb_affinity,
            r.cb_priority == self.cb_priority,
            r.bg_priority == self.bg_priority,
            r.hb_affinity == self.hb_affinity,
            r.hb_priority == self.hb_priority,
    {
        Builder { bg_affinity: value, ..self }
    }

    /// Set the priority for the background thread.
    pub fn background_priority(self, value: Option<u8>) -> (r: Self)
        ensures
            r.bg_priority == value,
            r.server_list == self.server_list,
            r.username == self.username,
            r.password == self.password,
            r.cb_affinity == self.cb_affinity,
            r.cb_priority == self.cb_priority,
            r.bg_affinity == self.bg_affinity,
            r.hb_affinity == self.hb_affinity,
            r.hb_priority == self.hb_priority,
    {
        Builder { bg_priority: value, ..self }
    }

    /// Set the CPU affinity mask for the timing thread.
    pub fn timing_affinity(self, value: Option<u64>) -> (r: Self)
        ensures
            r.hb_affinity == value,
            r.server_list == self.server_list,
            r.username == self.username,
            r.password == self.password,
            r.cb_affinity == self.cb_affinity,
            r.cb_priority == self.cb_priority,
            r.bg_affinity == self.bg_affinity,
            r.bg_priority == self.bg_priority,
            r.hb_priority == self.hb_priority,
    {
        Builder { hb_affinity: value, ..self }
    }

    /// Set the priority for the timing thread.
    pub fn timing_priority(self, value: Option<u8>) -> (r: Self)
        ensures
            r.hb_priority == value,
            r.server_list == self.server_list,
            r.username == self.username,
            r.password == self.password,
            r.cb_affinity == self.cb_affinity,
            r.cb_priority == self.cb_priority,
            r.bg_affinity == self.bg_affinity,
            r.bg_priority == self.bg_priority,
            r.hb_affinity == self.hb_affinity,
    {
        Builder { hb_priority: value, ..self }
    }

    /// Connect to the appliance and return a ticker plant session.
    pub fn tickerplant(
        self,
        plant: &mut Appliance,
        caps: &mut CapsuleStore,
        market_events_per_instrument: bool,
        status_registered: bool,
    ) -> (r: Result<TickerSession, Error>)
        ensures
            spec_builder_has_nul(self) ==> r == Err::<TickerSession, Error>(Error::EmbeddedNull)
                && *final(plant) == *old(plant) && *final(caps) == *old(caps),
            !spec_builder_has_nul(self) ==> {
                &&& r is Ok
                &&& final(plant).spec_has_object(r->Ok_0.spec_handle())
                &&& final(plant).spec_object(r->Ok_0.spec_handle()).kind_code == spec_code_of(
                    ObjectKind::SessionTicker,
                )
                &&& final(caps).spec_get(
                    final(plant).spec_object(r->Ok_0.spec_handle()).turnkey,
                ) == Some(
                    Capsule::Session(
                        spec_built_context(
                            self,
                            Some(market_events_per_instrument),
                            status_registered,
                        ),
                    ),
                )
            },
    {
        self.start_session(plant, caps, Kind::Ticker, Some(market_events_per_instrument), status_registered)
    }

    /// Build a session object and start the connection process: marshal
    /// the credentials and server list, mint the context capsule, hand
    /// its token to the native create call, and apply the requested
    /// background and timing thread configuration best-effort.
    fn start_session(
        self,
        plant: &mut Appliance,
        caps: &mut CapsuleStore,
        kind: Kind,
        market_events_per_instrument: Option<bool>,
        status_registered: bool,
    ) -> (r: Result<TickerSession, Error>)
        requires
            kind == Kind::Ticker,
        ensures
            spec_builder_has_nul(self) ==> r == Err::<TickerSession, Error>(Error::EmbeddedNull)
                && *final(plant) == *old(plant) && *final(caps) == *old(caps),
            !spec_builder_has_nul(self) ==> {
                &&& r is Ok
                &&& final(plant).spec_has_object(r->Ok_0.spec_handle())
                &&& final(plant).spec_object(r->Ok_0.spec_handle()).kind_code == spec_code_of(
                    ObjectKind::SessionTicker,
                )
                &&& final(caps).spec_get(
                    final(plant).spec_object(r->Ok_0.spec_handle()).turnkey,
                ) == Some(
                    Capsule::Session(
                        spec_built_context(self, market_events_per_instrument, status_registered),
                    ),
                )
            },
    {
        // The native create call takes NUL-terminated strings; reject
        // anything that cannot be marshalled before touching the library.
        if field::string_has_nul(&self.username) {
            return Err(Error::EmbeddedNull);
        }
        if field::string_has_nul(&self.password) {
            return Err(Error::EmbeddedNull);
        }
        let mut i: usize = 0;
        while i < self.server_list.len()
            invariant
                i <= self.server_list@.len(),
                forall|j: int|
                    0 <= j < i ==> !spec_has_nul(
                        encode_utf8(spec_server_string(self.server_list@[j])),
                    ),
            decreases self.server_list@.len() - i,
        {
            let entry = self.server_list[i].to_string_value();
            if field::string_has_nul(&entry) {
                return Err(Error::EmbeddedNull);
            }
            i += 1;
        }
        let context = Context {
            status_registered,
            affinity: self.cb_affinity,
            priority: match self.cb_priority {
                Some(p) => Some(p as u32),
                None => None,
            },
            market_events_per_instrument,
        };
        let turnkey = caps.mint(Capsule::Session(context));
        let (status, handle) = plant.create_object(kind.to_code(), turnkey, 0);
        let session = match decode(status) {
            Ok(_) => match wrap_with_known_kind::<TickerSession>(handle, kind.to_code()) {
                Ok(s) => s,
                Err(e) => {
                    return Err(e);
                },
            },
            Err(e) => {
                return Err(Error::Exegy(e));
            },
        };
        if let Some(affin) = self.bg_affinity {
            let _ = field::set_u64(
                plant,
                &session,
                XC_SESSION,
                Field::ClientBgThreadAffinityMask,
                affin,
            );
        }
        if let Some(affin) = self.hb_affinity {
            let _ = field::set_u64(
                plant,
                &session,
                XC_SESSION,
                Field::ClientHbThreadAffinityMask,
                affin,
            );
        }
        if let Some(prio) = self.bg_priority {
            let _ = field::set_u32(
                plant,
                &session,
                XC_SESSION,
                Field::ClientBgThreadPriority,
                prio as u32,
            );
        }
        if let Some(prio) = self.hb_priority {
            let _ = field::set_u32(
                plant,
                &session,
                XC_SESSION,
                Field::ClientHbThreadPriority,
                prio as u32,
            );
        }
        Ok(session)
    }
}

impl Context {
    /// Dispatch one already-resolved session callback: apply the
    /// context's one-time thread configuration on a good status,
    /// classify the event-type code, and invoke the registered status
    /// handler.  An unknown event code and an unregistered event are
    /// safe no-ops.
    pub fn dispatch<H: StatusHandler>(
        self,
        plant: &mut Appliance,
        handlers: &mut H,
        session: &TickerSession,
        event_handle: u64,
        event_type: u16,
        status: u32,
    ) -> (r: Delivery)
        ensures
            match spec_classify(event_type) {
                None => r == Delivery::UnknownEvent,
                Some(EventKind::Status) => if !self.status_registered {
                    r == Delivery::Unhandled
                } else if event_handle == 0 {
                    r == Delivery::BadEvent
                } else {
                    r == Delivery::Invoked
                },
            },
    {
        if decode(status).is_ok() {
            if let Some(affinity) = self.affinity {
                let _ = field::set_u64(
                    plant,
                    session,
                    XC_SESSION,
                    Field::ClientAffinityMask,
                    affinity,
                );
            }
            if let Some(prio) = self.priority {
                let _ = field::set_u32(
                    plant,
                    session,
                    XC_SESSION,
                    Field::ClientThreadPriority,
                    prio,
                );
            }
            if let Some(enable) = self.market_events_per_instrument {
                let _ = field::set_u8(
                    plant,
                    session,
                    XC_SESSION,
                    TickerField::MarketStatusCallbacks,
                    if enable {
                        1
                    } else {
                        0
                    },
                );
            }
        }
        match EventKind::try_from_code(event_type) {
            Ok(EventKind::Status) => {
                if self.status_registered {
                    match wrap_with_known_kind::<StatusEvent>(event_handle, event_type) {
                        Ok(event) => {
                            let _ = handlers.on_status(plant, session, &event);
                            Delivery::Invoked
                        },
                        Err(_) => Delivery::BadEvent,
                    }
                } else {
                    Delivery::Unhandled
                }
            },
            Err(_) => Delivery::UnknownEvent,
        }
    }
}

/// Dispatch one session callback, as the native trampoline does once its
/// failure boundary is past: resolve the capsule, re-wrap the calling
/// session, and hand over to the context's dispatch.  A capsule that
/// does not decode to a session context and a handle that fails
/// validation drop the callback without raising anything to the native
/// layer, and nothing here consumes the capsule: the token stays valid
/// for the next callback.
pub fn deliver<H: StatusHandler>(
    plant: &mut Appliance,
    caps: &CapsuleStore,
    handlers: &mut H,
    handle: u64,
    slot: u32,
    event_handle: u64,
    event_type: u16,
    turnkey: u64,
    status: u32,
) -> (r: Delivery)
    ensures
        !(caps.spec_borrow(turnkey) matches Ok(Capsule::Session(_))) ==> r
            == Delivery::ContextMismatch && *final(plant) == *old(plant),
        (caps.spec_borrow(turnkey) matches Ok(Capsule::Session(_))) && !spec_wrap_checked_ok(
            *old(plant),
            handle,
            ObjectKind::SessionTicker,
        ) ==> r == Delivery::BadObject && *final(plant) == *old(plant),
        (caps.spec_borrow(turnkey) matches Ok(Capsule::Session(_))) && spec_wrap_checked_ok(
            *old(plant),
            handle,
            ObjectKind::SessionTicker,
        ) ==> match spec_classify(event_type) {
            None => r == Delivery::UnknownEvent,
            Some(EventKind::Status) => {
                let ctx = caps.spec_borrow(turnkey)->Ok_0->Session_0;
                if !ctx.status_registered {
                    r == Delivery::Unhandled
                } else if event_handle == 0 {
                    r == Delivery::BadEvent
                } else {
                    r == Delivery::Invoked
                }
            },
        },
{
    let context = match caps.borrow_capsule(turnkey) {
        Ok(Capsule::Session(c)) => *c,
        Ok(_) => {
            return Delivery::ContextMismatch;
        },
        Err(_) => {
            return Delivery::ContextMismatch;
        },
    };
    let session = match wrap_checked::<TickerSession>(plant, handle) {
        Ok(s) => s,
        Err(_) => {
            return Delivery::BadObject;
        },
    };
    let _ = slot;
    context.dispatch(plant, handlers, &session, event_handle, event_type, status)
}

} // verus!
