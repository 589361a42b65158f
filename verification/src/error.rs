//! The status-code domain: the partition of the native library's 32-bit
//! status space into success and failure outcomes, and the crate's own
//! error taxonomy.
//!
//! Every status integer a native call returns or a callback delivers is
//! read through [`decode`]; nothing above this module inspects raw status
//! integers directly.

use vstd::prelude::*;

verus! {

/// Success-side status codes.  Every code the native library calls good has
/// its low bit clear; see [`xerr_is_good`].
pub const XSUCCESS: u32 = 0;
pub const XFOUND: u32 = 2;
pub const XCOMPLETE: u32 = 4;
pub const XMOREDATA: u32 = 6;
pub const XAPPROXIMATE: u32 = 8;
pub const XMODIFIED: u32 = 10;
pub const XPARTIALSUCCESS: u32 = 12;
pub const XINTERBOUNDARY: u32 = 14;
pub const XRESUMED: u32 = 16;
pub const XNOCHANGE: u32 = 18;

/// Failure-side status codes; every one has its low bit set.
pub const XPERM: u32 = 1;
pub const XNOENT: u32 = 3;
pub const XIO: u32 = 5;
pub const XWOULDBLOCK: u32 = 7;
pub const XACCESS: u32 = 9;
pub const XADDR: u32 = 11;
pub const XBUSY: u32 = 13;
pub const XQUEUEDELAY: u32 = 15;
pub const XEXIST: u32 = 17;
pub const XNODEV: u32 = 19;
pub const XNOTDIR: u32 = 21;
pub const XISDIR: u32 = 23;
pub const XINVAL: u32 = 25;
pub const XNOMEM: u32 = 27;
pub const XIMPL: u32 = 29;
pub const XNODATA: u32 = 31;
pub const XTIME: u32 = 33;
pub const XNOLINK: u32 = 35;
pub const XCOMM: u32 = 37;
pub const XPROTO: u32 = 39;
pub const XADDRINUSE: u32 = 41;
pub const XCONNRESET: u32 = 43;
pub const XCONNREFUSED: u32 = 45;
pub const XINTR: u32 = 47;
pub const XEND: u32 = 49;
pub const XNOCARD: u32 = 51;
pub const XBADCHAIN: u32 = 53;
pub const XCAPACITY: u32 = 55;
pub const XHWNOTLOADED: u32 = 57;
pub const XSOCKET: u32 = 59;
pub const XVERSION: u32 = 61;
pub const XBADSTATE: u32 = 63;
pub const XSLOWCONSUMER: u32 = 65;
pub const XBADSYMBOL: u32 = 67;
pub const XOVERFLOW: u32 = 69;
pub const XNOTCONNECTED: u32 = 71;
pub const XDUPLICATE: u32 = 73;
pub const XIGNORE: u32 = 75;
pub const XBADHANDLE: u32 = 77;
pub const XBADFIELD: u32 = 79;
pub const XBADSLOT: u32 = 81;
pub const XLOGINFAILED: u32 = 83;
pub const XPENDING: u32 = 85;
pub const XSTALE: u32 = 87;
pub const XUNINIT: u32 = 89;
pub const XTIMEOUT: u32 = 91;
pub const XNOTSUP: u32 = 93;
pub const XTYPE: u32 = 95;
pub const XALREADY: u32 = 97;
pub const XRETRY: u32 = 99;
pub const XINTERR: u32 = 101;
pub const XMISSING: u32 = 103;
pub const XABORT: u32 = 105;
pub const XBADDATA: u32 = 107;
pub const XAMBIG: u32 = 109;
pub const XNOTERMS: u32 = 111;
pub const XCONFIG: u32 = 113;
pub const XNONSENSE: u32 = 115;
pub const XBADDEPTH: u32 = 117;
pub const XBADSIZE: u32 = 119;
pub const XTHREAD: u32 = 121;
pub const XHASREGIONAL: u32 = 123;
pub const XDOWN: u32 = 125;
pub const XERROR: u32 = 127;
pub const XBADFIRMWARE: u32 = 129;
pub const XUNRECOVERABLELOSS: u32 = 131;
pub const XSYMBOLQUOTA: u32 = 133;
pub const XCONNLIMIT: u32 = 135;
pub const XREADONLY: u32 = 137;
pub const XINVALIDADDR: u32 = 139;
pub const XEXPIRED: u32 = 141;
pub const XSESSIONINUSE: u32 = 143;
pub const XSESSIONLIMIT: u32 = 145;
pub const XINVALIDSESSION: u32 = 147;
pub const XDISABLED: u32 = 149;
pub const XDELETE: u32 = 151;
pub const XDEAUTHORIZE: u32 = 153;
pub const XFORCEOFF: u32 = 155;

/// An enumeration of status codes which are considered a "success".
#[derive(Clone, Copy, Debug, PartialEq, Eq, Structural)]
pub enum Success {
    /// Generic success
    Success,
    /// Item found
    Found,
    /// Search completed, item not found
    Complete,
    /// Some data returned, more data available
    MoreData,
    /// Result returned, but is only approximate
    Approximate,
    /// Result returned, but (other) data was modified
    Modified,
    /// Some aspects of operation were successful, but others were not
    PartialSuccess,
    /// Data returned is in between boundary events
    InterBoundary,
    /// Normal processing has resumed
    Resumed,
    /// Operation ignored, would do nothing
    NoChange,
}

/// An enumeration of failure codes reported by the native library.
#[derive(Clone, Copy, Debug, PartialEq, Eq, Structural)]
pub enum ExegyError {
    /// Operation not permitted
    NotPermitted,
    /// No entry found
    NoEntry,
    /// I/O error
    Io,
    /// Operation would block
    WouldBlock,
    /// Permission denied
    Access,
    /// Bad address
    BadAddress,
    /// Device or resource busy
    Busy,
    /// (Warning) queuing delay detected
    QueueDelay,
    /// Item already exists
    Exist,
    /// No such device
    NoDevice,
    /// Not a directory
    NotDir,
    /// Is a directory
    IsDir,
    /// Invalid argument
    InvalidArgument,
    /// Not enough memory
    NoMemory,
    /// Function not implemented
    NotImplemented,
    /// No data available
    NoData,
    /// Timer expired
    Time,
    /// Link has been severed
    NoLink,
    /// Communication error
    Communication,
    /// Protocol error
    Protocol,
    /// Address in use
    AddressInUse,
    /// Connection reset by peer
    ConnectionReset,
    /// Connection refused
    ConnectionRefused,
    /// Operation interrupted
    Interrupted,
    /// End of results
    End,
    /// No available cards
    NoCard,
    /// Invalid operation chain
    BadChain,
    /// Capacity exceeded
    Capacity,
    /// Hardware not loaded
    HardwareNotLoaded,
    /// Socket error
    Socket,
    /// Version mismatch
    Version,
    /// Inconsistent or bad state
    BadState,
    /// Client was disconnected because it is a slow consumer
    SlowConsumer,
    /// Invalid symbol
    BadSymbol,
    /// Overflow
    Overflow,
    /// Socket not connected
    NotConnected,
    /// Duplicate item
    Duplicate,
    /// Ignored
    Ignore,
    /// Invalid handle
    BadHandle,
    /// Invalid field
    BadField,
    /// Invalid slot
    BadSlot,
    /// Login failed
    LoginFailed,
    /// Pending
    Pending,
    /// Data is stale
    Stale,
    /// Subsystem uninitialized
    Uninitialized,
    /// Connection timed out
    Timeout,
    /// Not supported
    NotSupported,
    /// Type not supported for specified field
    Type,
    /// Already connected
    Already,
    /// Exceeded maximum number of retries
    Retry,
    /// Internal error
    Internal,
    /// Item is missing, but should not be
    Missing,
    /// Operation was or should be aborted
    Abort,
    /// Bad data encountered
    BadData,
    /// Ambiguous data or command
    Ambiguous,
    /// No search terms
    NoSearchTerms,
    /// Configuration data is missing or invalid
    Config,
    /// Nonsensical command or request received
    Nonsense,
    /// Bad depth
    BadDepth,
    /// Bad size
    BadSize,
    /// Wrong thread for function
    Thread,
    /// Regional exists
    HasRegional,
    /// Server down for maintenance
    Down,
    /// General error condition
    Error,
    /// Unsupported HCA firmware revision
    BadFirmware,
    /// Unrecoverable loss detected in transport session
    UnrecoverableLoss,
    /// Symbol quota has been reached
    SymbolQuota,
    /// Connection limit reached
    ConnnectionLimit,
    /// Invalid call for a read-only field or container
    ReadOnly,
    /// Invalid hardware address
    InvalidAddress,
    /// Expired symbol
    Expired,
    /// The session is already in use
    SessionInUse,
    /// The client has hit its session limit
    SessionLimit,
    /// Invalid session id
    InvalidSession,
    /// Target is disabled
    Disabled,
    /// Target should be deleted
    Delete,
    /// Deauthorized for content
    Deauthorize,
    /// Force disconnect
    ForceOff,
}

/// The table of success codes, as one spec-level lookup.
pub open spec fn spec_success_of(raw: u32) -> Option<Success> {
    if raw == XSUCCESS {
        Some(Success::Success)
    } else if raw == XFOUND {
        Some(Success::Found)
    } else if raw == XCOMPLETE {
        Some(Success::Complete)
    } else if raw == XMOREDATA {
        Some(Success::MoreData)
    } else if raw == XAPPROXIMATE {
        Some(Success::Approximate)
    } else if raw == XMODIFIED {
        Some(Success::Modified)
    } else if raw == XPARTIALSUCCESS {
        Some(Success::PartialSuccess)
    } else if raw == XINTERBOUNDARY {
        Some(Success::InterBoundary)
    } else if raw == XRESUMED {
        Some(Success::Resumed)
    } else if raw == XNOCHANGE {
        Some(Success::NoChange)
    } else {
        None
    }
}

/// The table of failure codes, as one spec-level lookup.
pub open spec fn spec_error_of(raw: u32) -> Option<ExegyError> {
    if raw == XPERM {
        Some(ExegyError::NotPermitted)
    } else if raw == XNOENT {
        Some(ExegyError::NoEntry)
    } else if raw == XIO {
        Some(ExegyError::Io)
    } else if raw == XWOULDBLOCK {
        Some(ExegyError::WouldBlock)
    } else if raw == XACCESS {
        Some(ExegyError::Access)
    } else if raw == XADDR {
        Some(ExegyError::BadAddress)
    } else if raw == XBUSY {
        Some(ExegyError::Busy)
    } else if raw == XQUEUEDELAY {
        Some(ExegyError::QueueDelay)
    } else if raw == XEXIST {
        Some(ExegyError::Exist)
    } else if raw == XNODEV {
        Some(ExegyError::NoDevice)
    } else if raw == XNOTDIR {
        Some(ExegyError::NotDir)
    } else if raw == XISDIR {
        Some(ExegyError::IsDir)
    } else if raw == XINVAL {
        Some(ExegyError::InvalidArgument)
    } else if raw == XNOMEM {
        Some(ExegyError::NoMemory)
    } else if raw == XIMPL {
        Some(ExegyError::NotImplemented)
    } else if raw == XNODATA {
        Some(ExegyError::NoData)
    } else if raw == XTIME {
        Some(ExegyError::Time)
    } else if raw == XNOLINK {
        Some(ExegyError::NoLink)
    } else if raw == XCOMM {
        Some(ExegyError::Communication)
    } else if raw == XPROTO {
        Some(ExegyError::Protocol)
    } else if raw == XADDRINUSE {
        Some(ExegyError::AddressInUse)
    } else if raw == XCONNRESET {
        Some(ExegyError::ConnectionReset)
    } else if raw == XCONNREFUSED {
        Some(ExegyError::ConnectionRefused)
    } else if raw == XINTR {
        Some(ExegyError::Interrupted)
    } else if raw == XEND {
        Some(ExegyError::End)
    } else if raw == XNOCARD {
        Some(ExegyError::NoCard)
    } else if raw == XBADCHAIN {
        Some(ExegyError::BadChain)
    } else if raw == XCAPACITY {
        Some(ExegyError::Capacity)
    } else if raw == XHWNOTLOADED {
        Some(ExegyError::HardwareNotLoaded)
    } else if raw == XSOCKET {
        Some(ExegyError::Socket)
    } else if raw == XVERSION {
        Some(ExegyError::Version)
    } else if raw == XBADSTATE {
        Some(ExegyError::BadState)
    } else if raw == XSLOWCONSUMER {
        Some(ExegyError::SlowConsumer)
    } else if raw == XBADSYMBOL {
        Some(ExegyError::BadSymbol)
    } else if raw == XOVERFLOW {
        Some(ExegyError::Overflow)
    } else if raw == XNOTCONNECTED {
        Some(ExegyError::NotConnected)
    } else if raw == XDUPLICATE {
        Some(ExegyError::Duplicate)
    } else if raw == XIGNORE {
        Some(ExegyError::Ignore)
    } else if raw == XBADHANDLE {
        Some(ExegyError::BadHandle)
    } else if raw == XBADFIELD {
        Some(ExegyError::BadField)
    } else if raw == XBADSLOT {
        Some(ExegyError::BadSlot)
    } else if raw == XLOGINFAILED {
        Some(ExegyError::LoginFailed)
    } else if raw == XPENDING {
        Some(ExegyError::Pending)
    } else if raw == XSTALE {
        Some(ExegyError::Stale)
    } else if raw == XUNINIT {
        Some(ExegyError::Uninitialized)
    } else if raw == XTIMEOUT {
        Some(ExegyError::Timeout)
    } else if raw == XNOTSUP {
        Some(ExegyError::NotSupported)
    } else if raw == XTYPE {
        Some(ExegyError::Type)
    } else if raw == XALREADY {
        Some(ExegyError::Already)
    } else if raw == XRETRY {
        Some(ExegyError::Retry)
    } else if raw == XINTERR {
        Some(ExegyError::Internal)
    } else if raw == XMISSING {
        Some(ExegyError::Missing)
    } else if raw == XABORT {
        Some(ExegyError::Abort)
    } else if raw == XBADDATA {
        Some(ExegyError::BadData)
    } else if raw == XAMBIG {
        Some(ExegyError::Ambiguous)
    } else if raw == XNOTERMS {
        Some(ExegyError::NoSearchTerms)
    } else if raw == XCONFIG {
        Some(ExegyError::Config)
    } else if raw == XNONSENSE {
        Some(ExegyError::Nonsense)
    } else if raw == XBADDEPTH {
        Some(ExegyError::BadDepth)
    } else if raw == XBADSIZE {
        Some(ExegyError::BadSize)
    } else if raw == XTHREAD {
        Some(ExegyError::Thread)
    } else if raw == XHASREGIONAL {
        Some(ExegyError::HasRegional)
    } else if raw == XDOWN {
        Some(ExegyError::Down)
    } else if raw == XERROR {
        Some(ExegyError::Error)
    } else if raw == XBADFIRMWARE {
        Some(ExegyError::BadFirmware)
    } else if raw == XUNRECOVERABLELOSS {
        Some(ExegyError::UnrecoverableLoss)
    } else if raw == XSYMBOLQUOTA {
        Some(ExegyError::SymbolQuota)
    } else if raw == XCONNLIMIT {
        Some(ExegyError::ConnnectionLimit)
    } else if raw == XREADONLY {
        Some(ExegyError::ReadOnly)
    } else if raw == XINVALIDADDR {
        Some(ExegyError::InvalidAddress)
    } else if raw == XEXPIRED {
        Some(ExegyError::Expired)
    } else if raw == XSESSIONINUSE {
        Some(ExegyError::SessionInUse)
    } else if raw == XSESSIONLIMIT {
        Some(ExegyError::SessionLimit)
    } else if raw == XINVALIDSESSION {
        Some(ExegyError::InvalidSession)
    } else if raw == XDISABLED {
        Some(ExegyError::Disabled)
    } else if raw == XDELETE {
        Some(ExegyError::Delete)
    } else if raw == XDEAUTHORIZE {
        Some(ExegyError::Deauthorize)
    } else if raw == XFORCEOFF {
        Some(ExegyError::ForceOff)
    } else {
        None
    }
}

/// Decode a raw status integer into exactly one of the two outcome kinds.
///
/// A value in the success table maps to its [`Success`] entry; any other
/// value maps to a [`ExegyError`], with codes outside both tables landing
/// on the reserved [`ExegyError::Error`] rather than faulting.
pub open spec fn spec_decode(raw: u32) -> Result<Success, ExegyError> {
    match spec_success_of(raw) {
        Some(s) => Ok(s),
        None => match spec_error_of(raw) {
            Some(e) => Err(e),
            None => Err(ExegyError::Error),
        },
    }
}

impl ExegyError {
    /// Look a raw status code up in the failure table.
    pub fn try_from_raw(raw: u32) -> (r: Option<ExegyError>)
        ensures
            r == spec_error_of(raw),
    {
        if raw == XPERM {
            Some(ExegyError::NotPermitted)
        } else if raw == XNOENT {
            Some(ExegyError::NoEntry)
        } else if raw == XIO {
            Some(ExegyError::Io)
        } else if raw == XWOULDBLOCK {
            Some(ExegyError::WouldBlock)
        } else if raw == XACCESS {
            Some(ExegyError::Access)
        } else if raw == XADDR {
            Some(ExegyError::BadAddress)
        } else if raw == XBUSY {
            Some(ExegyError::Busy)
        } else if raw == XQUEUEDELAY {
            Some(ExegyError::QueueDelay)
        } else if raw == XEXIST {
            Some(ExegyError::Exist)
        } else if raw == XNODEV {
            Some(ExegyError::NoDevice)
        } else if raw == XNOTDIR {
            Some(ExegyError::NotDir)
        } else if raw == XISDIR {
            Some(ExegyError::IsDir)
        } else if raw == XINVAL {
            Some(ExegyError::InvalidArgument)
        } else if raw == XNOMEM {
            Some(ExegyError::NoMemory)
        } else if raw == XIMPL {
            Some(ExegyError::NotImplemented)
        } else if raw == XNODATA {
            Some(ExegyError::NoData)
        } else if raw == XTIME {
            Some(ExegyError::Time)
        } else if raw == XNOLINK {
            Some(ExegyError::NoLink)
        } else if raw == XCOMM {
            Some(ExegyError::Communication)
        } else if raw == XPROTO {
            Some(ExegyError::Protocol)
        } else if raw == XADDRINUSE {
            Some(ExegyError::AddressInUse)
        } else if raw == XCONNRESET {
            Some(ExegyError::ConnectionReset)
        } else if raw == XCONNREFUSED {
            Some(ExegyError::ConnectionRefused)
        } else if raw == XINTR {
            Some(ExegyError::Interrupted)
        } else if raw == XEND {
            Some(ExegyError::End)
        } else if raw == XNOCARD {
            Some(ExegyError::NoCard)
        } else if raw == XBADCHAIN {
            Some(ExegyError::BadChain)
        } else if raw == XCAPACITY {
            Some(ExegyError::Capacity)
        } else if raw == XHWNOTLOADED {
            Some(ExegyError::HardwareNotLoaded)
        } else if raw == XSOCKET {
            Some(ExegyError::Socket)
        } else if raw == XVERSION {
            Some(ExegyError::Version)
        } else if raw == XBADSTATE {
            Some(ExegyError::BadState)
        } else if raw == XSLOWCONSUMER {
            Some(ExegyError::SlowConsumer)
        } else if raw == XBADSYMBOL {
            Some(ExegyError::BadSymbol)
        } else if raw == XOVERFLOW {
            Some(ExegyError::Overflow)
        } else if raw == XNOTCONNECTED {
            Some(ExegyError::NotConnected)
        } else if raw == XDUPLICATE {
            Some(ExegyError::Duplicate)
        } else if raw == XIGNORE {
            Some(ExegyError::Ignore)
        } else if raw == XBADHANDLE {
            Some(ExegyError::BadHandle)
        } else if raw == XBADFIELD {
            Some(ExegyError::BadField)
        } else if raw == XBADSLOT {
            Some(ExegyError::BadSlot)
        } else if raw == XLOGINFAILED {
            Some(ExegyError::LoginFailed)
        } else if raw == XPENDING {
            Some(ExegyError::Pending)
        } else if raw == XSTALE {
            Some(ExegyError::Stale)
        } else if raw == XUNINIT {
            Some(ExegyError::Uninitialized)
        } else if raw == XTIMEOUT {
            Some(ExegyError::Timeout)
        } else if raw == XNOTSUP {
            Some(ExegyError::NotSupported)
        } else if raw == XTYPE {
            Some(ExegyError::Type)
        } else if raw == XALREADY {
            Some(ExegyError::Already)
        } else if raw == XRETRY {
            Some(ExegyError::Retry)
        } else if raw == XINTERR {
            Some(ExegyError::Internal)
        } else if raw == XMISSING {
            Some(ExegyError::Missing)
        } else if raw == XABORT {
            Some(ExegyError::Abort)
        } else if raw == XBADDATA {
            Some(ExegyError::BadData)
        } else if raw == XAMBIG {
            Some(ExegyError::Ambiguous)
        } else if raw == XNOTERMS {
            Some(ExegyError::NoSearchTerms)
        } else if raw == XCONFIG {
            Some(ExegyError::Config)
        } else if raw == XNONSENSE {
            Some(ExegyError::Nonsense)
        } else if raw == XBADDEPTH {
            Some(ExegyError::BadDepth)
        } else if raw == XBADSIZE {
            Some(ExegyError::BadSize)
        } else if raw == XTHREAD {
            Some(ExegyError::Thread)
        } else if raw == XHASREGIONAL {
            Some(ExegyError::HasRegional)
        } else if raw == XDOWN {
            Some(ExegyError::Down)
        } else if raw == XERROR {
            Some(ExegyError::Error)
        } else if raw == XBADFIRMWARE {
            Some(ExegyError::BadFirmware)
        } else if raw == XUNRECOVERABLELOSS {
            Some(ExegyError::UnrecoverableLoss)
        } else if raw == XSYMBOLQUOTA {
            Some(ExegyError::SymbolQuota)
        } else if raw == XCONNLIMIT {
            Some(ExegyError::ConnnectionLimit)
        } else if raw == XREADONLY {
            Some(ExegyError::ReadOnly)
        } else if raw == XINVALIDADDR {
            Some(ExegyError::InvalidAddress)
        } else if raw == XEXPIRED {
            Some(ExegyError::Expired)
        } else if raw == XSESSIONINUSE {
            Some(ExegyError::SessionInUse)
        } else if raw == XSESSIONLIMIT {
            Some(ExegyError::SessionLimit)
        } else if raw == XINVALIDSESSION {
            Some(ExegyError::InvalidSession)
        } else if raw == XDISABLED {
            Some(ExegyError::Disabled)
        } else if raw == XDELETE {
            Some(ExegyError::Delete)
        } else if raw == XDEAUTHORIZE {
            Some(ExegyError::Deauthorize)
        } else if raw == XFORCEOFF {
            Some(ExegyError::ForceOff)
        } else {
            None
        }
    }
}

/// The crate's error taxonomy.
///
/// `Exegy` carries a failure the native library itself reported; the other
/// variants are raised by this crate's own validation before or after a
/// native call.
#[derive(Clone, Copy, Debug, PartialEq, Eq, Structural)]
pub enum Error {
    /// The native library reported a failure status.
    Exegy(ExegyError),
    /// The group identifier provided is not known.
    GroupUnknown,
    /// The feed identifier provided is unknown or unexpected.
    FeedUnknown,
    /// The object kind is unknown or unexpected.
    ObjectUnknown,
    /// An enumeration code is not one the tables know.
    KindUnknown,
    /// A string bound for the native library holds an embedded NUL.
    EmbeddedNull,
    /// A buffer that should be NUL-terminated is not.
    NoNullTerm,
    /// A session or container was requested without any callback registered.
    NoCallbacksSet,
    /// Bytes read from the native library are not valid UTF-8.
    InvalidUtf8,
    /// The session's internal handle has not been set.
    SessionNotInitialized,
    /// The native object handle is null.
    NullObject,
    /// The object behind a native handle is of an unexpected kind.
    UnexpectedKind,
    /// A context token did not decode to the expected context shape.
    ContextKindMismatch,
    /// A price exponent code is not in the exponent table.
    InvalidExponent,
}

/// The single chokepoint through which every native status integer passes.
///
/// Returns the matching [`Success`] for any code in the success table and
/// the matching [`ExegyError`] for any other code, falling back to
/// [`ExegyError::Error`] for codes in neither table.  Never fails to
/// produce an outcome.
pub fn decode(raw: u32) -> (r: Result<Success, ExegyError>)
    ensures
        r == spec_decode(raw),
{
        if raw == XSUCCESS {
            Ok(Success::Success)
        } else if raw == XFOUND {
            Ok(Success::Found)
        } else if raw == XCOMPLETE {
            Ok(Success::Complete)
        } else if raw == XMOREDATA {
            Ok(Success::MoreData)
        } else if raw == XAPPROXIMATE {
            Ok(Success::Approximate)
        } else if raw == XMODIFIED {
            Ok(Success::Modified)
        } else if raw == XPARTIALSUCCESS {
            Ok(Success::PartialSuccess)
        } else if raw == XINTERBOUNDARY {
            Ok(Success::InterBoundary)
        } else if raw == XRESUMED {
            Ok(Success::Resumed)
        } else if raw == XNOCHANGE {
            Ok(Success::NoChange)
        } else {
            match ExegyError::try_from_raw(raw) {
                Some(e) => Err(e),
                None => Err(ExegyError::Error),
            }
        }
}

/// Check whether a status code is good: the native convention keeps the
/// low bit of every success code clear.
pub fn xerr_is_good(code: u32) -> (r: bool)
    ensures
        r == (code % 2 == 0),
{
    proof {
        assert((code & 1) == code % 2) by (bit_vector);
    }
    (code & 1) == 0
}

/// Check whether a status code is bad: the low bit of every failure code
/// is set.
pub fn xerr_is_bad(code: u32) -> (r: bool)
    ensures
        r == (code % 2 != 0),
{
    proof {
        assert((code & 1) == code % 2) by (bit_vector);
    }
    (code & 1) != 0
}

/// Every raw status integer decodes to exactly one outcome: codes in the
/// success table to their success entry, and all others to a failure,
/// with unlisted codes on the reserved unknown failure.
pub proof fn lemma_decode_total(raw: u32)
    ensures
        spec_success_of(raw) is Some ==> spec_decode(raw) == Ok::<Success, ExegyError>(spec_success_of(raw)->Some_0),
        spec_success_of(raw) is None ==> spec_decode(raw) is Err,
        spec_success_of(raw) is None && spec_error_of(raw) is None ==> spec_decode(raw) == Err::<Success, ExegyError>(ExegyError::Error),
{
}

/// The decoded outcome agrees with the native parity convention: a code in
/// the success table is even, a code in the failure table is odd.
pub proof fn lemma_tables_respect_parity(raw: u32)
    ensures
        spec_success_of(raw) is Some ==> raw % 2 == 0,
        spec_error_of(raw) is Some ==> raw % 2 == 1,
{
}

} // verus!
