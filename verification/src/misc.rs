//! Miscellaneous wire values: times, sizes, volumes, dates, currencies,
//! symbol kinds and trade venues.

use vstd::prelude::*;

use crate::error::Error;

verus! {

/// A currency identifier: three ASCII characters.
#[derive(Clone, Copy, Debug)]
pub struct Currency {
    /// The three currency characters.
    pub chars: [u8; 3],
}

impl Currency {
    /// Wrap a raw currency identifier.
    pub fn new(chars: [u8; 3]) -> (r: Currency)
        ensures
            r.chars == chars,
    {
        Currency { chars }
    }

    /// The three currency characters as plain bytes.
    pub fn to_bytes(&self) -> (r: [u8; 3])
        ensures
            r == self.chars,
    {
        self.chars
    }
}

/// A date, packed into one 32-bit word: the day in the low five bits,
/// the month in the next four, the year in the rest.
#[derive(Clone, Copy, Debug, PartialEq, Eq, Structural)]
pub struct Date {
    /// The packed word.
    pub raw: u32,
}

impl Date {
    /// Wrap a packed date word.
    pub fn new(raw: u32) -> (r: Date)
        ensures
            r.raw == raw,
    {
        Date { raw }
    }

    /// The year part of the date.
    pub fn year(&self) -> (r: u32)
        ensures
            r == self.raw / 512,
    {
        self.raw / 512
    }

    /// The month part of the date.
    pub fn month(&self) -> (r: u32)
        ensures
            r == (self.raw / 32) % 16,
    {
        (self.raw / 32) % 16
    }

    /// The day part of the date.
    pub fn day(&self) -> (r: u32)
        ensures
            r == self.raw % 32,
    {
        self.raw % 32
    }

    /// The packed word, as carried on the wire.
    pub fn to_raw(&self) -> (r: u32)
        ensures
            r == self.raw,
    {
        self.raw
    }
}

impl From<&Date> for u32 {
    fn from(value: &Date) -> (r: u32) {
        value.raw
    }
}

impl vstd::std_specs::convert::FromSpecImpl<&Date> for u32 {
    open spec fn obeys_from_spec() -> bool {
        true
    }

    open spec fn from_spec(value: &Date) -> u32 {
        value.raw
    }
}

/// A high-resolution timestamp.
#[derive(Clone, Copy, Debug, PartialEq, Eq, Structural)]
pub struct HiTime {
    /// The raw timestamp value.
    pub raw: u64,
}

impl From<u64> for HiTime {
    fn from(value: u64) -> (r: HiTime) {
        HiTime { raw: value }
    }
}

impl vstd::std_specs::convert::FromSpecImpl<u64> for HiTime {
    open spec fn obeys_from_spec() -> bool {
        true
    }

    open spec fn from_spec(value: u64) -> HiTime {
        HiTime { raw: value }
    }
}

impl From<HiTime> for u64 {
    fn from(value: HiTime) -> (r: u64) {
        value.raw
    }
}

impl vstd::std_specs::convert::FromSpecImpl<HiTime> for u64 {
    open spec fn obeys_from_spec() -> bool {
        true
    }

    open spec fn from_spec(value: HiTime) -> u64 {
        value.raw
    }
}

/// A value suitable for representing the size associated with a trade
/// or quote.
#[derive(Clone, Copy, Debug, PartialEq, Eq, Structural)]
pub struct Size {
    /// The raw size value.
    pub raw: u32,
}

impl From<u32> for Size {
    fn from(value: u32) -> (r: Size) {
        Size { raw: value }
    }
}

impl vstd::std_specs::convert::FromSpecImpl<u32> for Size {
    open spec fn obeys_from_spec() -> bool {
        true
    }

    open spec fn from_spec(value: u32) -> Size {
        Size { raw: value }
    }
}

impl From<Size> for u32 {
    fn from(value: Size) -> (r: u32) {
        value.raw
    }
}

impl vstd::std_specs::convert::FromSpecImpl<Size> for u32 {
    open spec fn obeys_from_spec() -> bool {
        true
    }

    open spec fn from_spec(value: Size) -> u32 {
        value.raw
    }
}

/// A value suitable for representing a daily traded volume.
#[derive(Clone, Copy, Debug, PartialEq, Eq, Structural)]
pub struct Volume {
    /// The raw volume value.
    pub raw: u64,
}

impl From<u64> for Volume {
    fn from(value: u64) -> (r: Volume) {
        Volume { raw: value }
    }
}

impl vstd::std_specs::convert::FromSpecImpl<u64> for Volume {
    open spec fn obeys_from_spec() -> bool {
        true
    }

    open spec fn from_spec(value: u64) -> Volume {
        Volume { raw: value }
    }
}

impl From<Volume> for u64 {
    fn from(value: Volume) -> (r: u64) {
        value.raw
    }
}

impl vstd::std_specs::convert::FromSpecImpl<Volume> for u64 {
    open spec fn obeys_from_spec() -> bool {
        true
    }

    open spec fn from_spec(value: Volume) -> u64 {
        value.raw
    }
}

/// Order reference identifier encoding codes.
pub const XOIDT_ASCII: u8 = 0;

/// Binary-coded decimal order reference identifiers.
pub const XOIDT_BCD: u8 = 1;

/// Unsigned integer pair order reference identifiers.
pub const XOIDT_UINT_PAIR: u8 = 2;

/// Base-36 alphanumeric order reference identifiers.
pub const XOIDT_ALPHA36: u8 = 3;

/// Single 64-bit order reference identifiers.
pub const XOIDT_RAW64: u8 = 4;

/// Instrument-scoped order reference identifiers.
pub const XOIDT_SYMID_UINT: u8 = 5;

/// An enumeration of order reference identifier encodings.
#[derive(Clone, Copy, Debug, PartialEq, Eq, Structural)]
pub enum OrderRefIdKind {
    /// 7-bit ASCII.
    Ascii,
    /// Binary-coded decimal (4 bits per decimal digit).
    BinaryCodedDecimal,
    /// Pair of unsigned 32-bit integers.
    UintPair,
    /// 12-character alphanumeric format encoded as a base-36 number.
    Alpha32,
    /// A single unsigned 64-bit integer.
    Raw64,
    /// Union of instrument ID and binary reference number.
    SymIdUint,
}

/// The encoding an order-reference-identifier code denotes, if any.
pub open spec fn spec_order_ref_id_kind_of(value: u8) -> Option<OrderRefIdKind> {
    if value == XOIDT_ASCII {
        Some(OrderRefIdKind::Ascii)
    } else if value == XOIDT_BCD {
        Some(OrderRefIdKind::BinaryCodedDecimal)
    } else if value == XOIDT_UINT_PAIR {
        Some(OrderRefIdKind::UintPair)
    } else if value == XOIDT_ALPHA36 {
        Some(OrderRefIdKind::Alpha32)
    } else if value == XOIDT_RAW64 {
        Some(OrderRefIdKind::Raw64)
    } else if value == XOIDT_SYMID_UINT {
        Some(OrderRefIdKind::SymIdUint)
    } else {
        None
    }
}

impl OrderRefIdKind {
    /// Decode an order-reference-identifier encoding code; codes outside
    /// the table fail with `KindUnknown`.
    pub fn try_from_code(value: u8) -> (r: Result<OrderRefIdKind, Error>)
        ensures
            match spec_order_ref_id_kind_of(value) {
                Some(k) => r == Ok::<OrderRefIdKind, Error>(k),
                None => r == Err::<OrderRefIdKind, Error>(Error::KindUnknown),
            },
    {
        if value == XOIDT_ASCII {
            Ok(OrderRefIdKind::Ascii)
        } else if value == XOIDT_BCD {
            Ok(OrderRefIdKind::BinaryCodedDecimal)
        } else if value == XOIDT_UINT_PAIR {
            Ok(OrderRefIdKind::UintPair)
        } else if value == XOIDT_ALPHA36 {
            Ok(OrderRefIdKind::Alpha32)
        } else if value == XOIDT_RAW64 {
            Ok(OrderRefIdKind::Raw64)
        } else if value == XOIDT_SYMID_UINT {
            Ok(OrderRefIdKind::SymIdUint)
        } else {
            Err(Error::KindUnknown)
        }
    }
}

/// A trade venue, stored as a four-ASCII-character MIC code.
#[derive(Clone, Copy, Debug)]
pub struct TradeVenue {
    /// The four MIC characters.
    pub chars: [u8; 4],
}

impl TradeVenue {
    /// Wrap a raw trade venue.
    pub fn new(chars: [u8; 4]) -> (r: TradeVenue)
        ensures
            r.chars == chars,
    {
        TradeVenue { chars }
    }
}

/// Symbol kind codes as the native library reports them.
pub const XSYMTYP_INVALID: u8 = 0;
pub const XSYMTYP_EQUITY: u8 = 1;
pub const XSYMTYP_EQUITY_OPTION: u8 = 2;
pub const XSYMTYP_NAV: u8 = 3;
pub const XSYMTYP_FUND: u8 = 4;
pub const XSYMTYP_WARRANT: u8 = 5;
pub const XSYMTYP_INDEX: u8 = 6;
pub const XSYMTYP_FOREIGN_EXCHANGE: u8 = 7;
pub const XSYMTYP_BOND: u8 = 8;
pub const XSYMTYP_FIXED_INCOME: u8 = 9;
pub const XSYMTYP_FUTURE: u8 = 10;
pub const XSYMTYP_FUTURE_OPTION: u8 = 11;
pub const XSYMTYP_FUTURE_SPREAD: u8 = 12;
pub const XSYMTYP_USER_KEYLIST: u8 = 13;
pub const XSYMTYP_FILTER_KEYLIST: u8 = 14;
pub const XSYMTYP_EQUITY_L2: u8 = 15;
pub const XSYMTYP_EQUITY_OPTION_L2: u8 = 16;
pub const XSYMTYP_FUTURE_L2: u8 = 17;
pub const XSYMTYP_FUTURE_OPTION_L2: u8 = 18;
pub const XSYMTYP_FUTURE_SPREAD_L2: u8 = 19;
pub const XSYMTYP_COMMODITY_INDEX: u8 = 20;
pub const XSYMTYP_FUTURE_OPTION_SPREAD: u8 = 21;
pub const XSYMTYP_FUTURE_OPTION_SPREAD_L2: u8 = 22;
pub const XSYMTYP_EQUITY_OPTION_SPREAD: u8 = 23;
pub const XSYMTYP_EQUITY_OPTION_SPREAD_L2: u8 = 24;
pub const XSYMTYP_FOREIGN_EXCHANGE_L2: u8 = 25;
pub const XSYMTYP_EQUITY_OPTION_STOCK_COMBO: u8 = 26;
pub const XSYMTYP_EQUITY_OPTION_STOCK_COMBO_L2: u8 = 27;
pub const XSYMTYP_ETF: u8 = 28;
pub const XSYMTYP_CURRENCY: u8 = 29;
pub const XSYMTYP_FUTURE_SPREAD_VERTICAL: u8 = 30;
pub const XSYMTYP_FUTURE_SPREAD_CALENDAR: u8 = 31;
pub const XSYMTYP_FUTURE_SPREAD_STRADDLE: u8 = 32;
pub const XSYMTYP_FUTURE_SPREAD_NON_STANDARD: u8 = 33;
pub const XSYMTYP_FUTURE_SPREAD_VERTICAL_L2: u8 = 34;
pub const XSYMTYP_FUTURE_SPREAD_CALENDAR_L2: u8 = 35;
pub const XSYMTYP_FUTURE_SPREAD_STRADDLE_L2: u8 = 36;
pub const XSYMTYP_FUTURE_SPREAD_NON_STANDARD_L2: u8 = 37;
pub const XSYMTYP_FUTURE_OPTION_SPREAD_VERTICAL: u8 = 38;
pub const XSYMTYP_FUTURE_OPTION_SPREAD_CALENDAR: u8 = 39;
pub const XSYMTYP_FUTURE_OPTION_SPREAD_STRADDLE: u8 = 40;
pub const XSYMTYP_FUTURE_OPTION_SPREAD_NON_STANDARD: u8 = 41;
pub const XSYMTYP_FUTURE_OPTION_SPREAD_VERTICAL_L2: u8 = 42;
pub const XSYMTYP_FUTURE_OPTION_SPREAD_CALENDAR_L2: u8 = 43;
pub const XSYMTYP_FUTURE_OPTION_SPREAD_STRADDLE_L2: u8 = 44;
pub const XSYMTYP_FUTURE_OPTION_SPREAD_NON_STANDARD_L2: u8 = 45;
pub const XSYMTYP_EQUITY_OPTION_SPREAD_VERTICAL: u8 = 46;
pub const XSYMTYP_EQUITY_OPTION_SPREAD_CALENDAR: u8 = 47;
pub const XSYMTYP_EQUITY_OPTION_SPREAD_STRADDLE: u8 = 48;
pub const XSYMTYP_EQUITY_OPTION_SPREAD_NON_STANDARD: u8 = 49;
pub const XSYMTYP_EQUITY_OPTION_SPREAD_VERTICAL_L2: u8 = 50;
pub const XSYMTYP_EQUITY_OPTION_SPREAD_CALENDAR_L2: u8 = 51;
pub const XSYMTYP_EQUITY_OPTION_SPREAD_STRADDLE_L2: u8 = 52;
pub const XSYMTYP_EQUITY_OPTION_SPREAD_NON_STANDARD_L2: u8 = 53;
pub const XSYMTYP_FUTURE_SPREAD_STRANGLE: u8 = 54;
pub const XSYMTYP_FUTURE_SPREAD_STRANGLE_L2: u8 = 55;
pub const XSYMTYP_FUTURE_OPTION_SPREAD_STRANGLE: u8 = 56;
pub const XSYMTYP_FUTURE_OPTION_SPREAD_STRANGLE_L2: u8 = 57;
pub const XSYMTYP_EQUITY_OPTION_SPREAD_STRANGLE: u8 = 58;
pub const XSYMTYP_EQUITY_OPTION_SPREAD_STRANGLE_L2: u8 = 59;
pub const XSYMTYP_CURRENCY_INDEX: u8 = 60;
pub const XSYMTYP_ETF_INDEX: u8 = 61;
pub const XSYMTYP_FOREIGN_EXCHANGE_INDEX: u8 = 62;
pub const XSYMTYP_INTEREST_RATE: u8 = 63;
pub const XSYMTYP_INTEREST_RATE_INDEX: u8 = 64;
pub const XSYMTYP_FUND_L2: u8 = 65;
pub const XSYMTYP_WARRANT_L2: u8 = 66;
pub const XSYMTYP_INDEX_L2: u8 = 67;
pub const XSYMTYP_BOND_L2: u8 = 68;
pub const XSYMTYP_FIXED_INCOME_L2: u8 = 69;
pub const XSYMTYP_COMMODITY_INDEX_L2: u8 = 70;
pub const XSYMTYP_ETF_L2: u8 = 71;
pub const XSYMTYP_CURRENCY_L2: u8 = 72;
pub const XSYMTYP_CURRENCY_INDEX_L2: u8 = 73;
pub const XSYMTYP_ETF_INDEX_L2: u8 = 74;
pub const XSYMTYP_FOREIGN_EXCHANGE_INDEX_L2: u8 = 75;
pub const XSYMTYP_INTEREST_RATE_L2: u8 = 76;
pub const XSYMTYP_INTEREST_RATE_INDEX_L2: u8 = 77;
pub const XSYMTYP_FX_SPOT: u8 = 78;
pub const XSYMTYP_FX_FORWARD: u8 = 79;
pub const XSYMTYP_FX_NDF: u8 = 80;
pub const XSYMTYP_FX_SWAP: u8 = 81;

/// An enumeration of instrument symbol kinds.
#[derive(Clone, Copy, Debug, PartialEq, Eq, Structural)]
pub enum SymbolKind {
    /// Invalid/Unknown
    Invalid,
    /// Level I Equity
    Equity,
    /// Level I Equity option
    EquityOption,
    /// Net Asset Value
    Nav,
    /// Fund
    Fund,
    /// Warrant
    Warrant,
    /// Equity Index
    Index,
    /// L1 Foreign exchange
    ForeignExchange,
    /// Bond
    Bond,
    /// Fixed Income
    FixedIncome,
    /// Future
    Future,
    /// Future option
    FutureOption,
    /// Future spread
    FutureSpread,
    /// Static keylist
    UserKeylist,
    /// Filtered keylist
    FilterKeylist,
    /// Level II Equity
    EquityL2,
    /// Level II Equity option
    EquityOptionL2,
    /// Level II Future
    FutureL2,
    /// Level II Future option
    FutureOptionL2,
    /// Level II Future spread
    FutureSpreadL2,
    /// Commodity Index
    CommodityIndex,
    /// Future Option spread
    FutureOptionSpread,
    /// Level II Future Option spread
    FutureOptionSpreadL2,
    /// Equity Option spread
    EquityOptionSpread,
    /// Level II Equity Option spread
    EquityOptionSpreadL2,
    /// Level 2 Foreign Exchange
    ForeignExchangeL2,
    /// Equity Option Stock Combo
    EquityOptionStockCombo,
    /// Equity Option Stock Combo L2
    EquityOptionStockComboL2,
    /// Exchange Traded Funds
    Etf,
    /// Currency Options
    Currency,
    /// Future Spread Vertical
    FutureSpreadVertical,
    /// Future Spread Calendar
    FutureSpreadCalendar,
    /// Future Spread Straddle
    FutureSpreadStraddle,
    /// Future Spread Non-Standard
    FutureSpreadNonStandard,
    /// Future Spread Vertical L2
    FutureSpreadVerticalL2,
    /// Future Spread Calendar L2
    FutureSpreadCalendarL2,
    /// Future Spread Straddle L2
    FutureSpreadStraddleL2,
    /// Future Spread Non-Standard L2
    FutureSpreadNonStandardL2,
    /// Future Option Spread Vertical
    FutureOptionSpreadVertical,
    /// Future Option Spread Calendar
    FutureOptionSpreadCalendar,
    /// Future Option Spread Straddle
    FutureOptionSpreadStraddle,
    /// Future Option Spread Non-Standard
    FutureOptionSpreadNonStandard,
    /// Future Option Spread Vertical L2
    FutureOptionSpreadVerticalL2,
    /// Future Option Spread Calendar L2
    FutureOptionSpreadCalendarL2,
    /// Future Option Spread Straddle L2
    FutureOptionSpreadStraddleL2,
    /// Future Option Spread Non-Standard L2
    FutureOptionSpreadNonStandardL2,
    /// Equity Option Spread Vertical
    EquityOptionSpreadVertical,
    /// Equity Option Spread Calendar
    EquityOptionSpreadCalendar,
    /// Equity Option Spread Straddle
    EquityOptionSpreadStraddle,
    /// Equity Option Spread Non-Standard
    EquityOptionSpreadNonStandard,
    /// Equity Option Spread Vertical L2
    EquityOptionSpreadVerticalL2,
    /// Equity option Spread Calendar L2
    EquityOptionSpreadCalendarL2,
    /// Equity Option Spread Straddle L2
    EquityOptionSpreadStraddleL2,
    /// Equity Option Spread Non-Standard L2
    EquityOptionSpreadNonStandardL2,
    /// Future Spread Strangle
    FutureSpreadStrangle,
    /// Future Spread Strangle L2
    FutureSpreadStrangleL2,
    /// Future Option Spread Strangle
    FutureOptionSpreadStrangle,
    /// Future Option Spread Strangle L2
    FutureOptionSpreadStrangleL2,
    /// Equity Option Spread Strangle
    EquityOptionSpreadStrangle,
    /// Equity Option Spread Strangle L2
    EquityOptionSpreadStrangleL2,
    /// Currency Index
    CurrencyIndex,
    /// ETF Index
    EtfIndex,
    /// Foreign Exchange Index
    ForeignExchangeIndex,
    /// Interest Rate
    InterestRate,
    /// Interest Rate Index
    InterestRateIndex,
    /// Fund L2
    FundL2,
    /// Warrant L2
    WarrantL2,
    /// Equity Index L2
    IndexL2,
    /// Bond L2
    BondL2,
    /// Fixed Income L2
    FixedIncomeL2,
    /// Commodity Index L2
    CommodityIndexL2,
    /// Exchange Traded Funds L2
    EtfL2,
    /// Currency Options L2
    CurrencyL2,
    /// Currency Index L2
    CurrencyIndexL2,
    /// ETF Index L2
    EtfIndexL2,
    /// Foreign Exchange Index L2
    ForeignExchangeIndexL2,
    /// Interest Rate L2
    InterestRateL2,
    /// Interest Rate Index L2
    InterestRateIndexL2,
    /// Subscriptions to fx spot symbols
    FxSpot,
    /// Subscriptions to fx forward symbols
    FxForward,
    /// Subscriptions to fx non-deliverable forward symbols
    FxNdf,
    /// Subscriptions to fx swap symbols
    FxSwap,
}

/// The symbol-kind table as one spec-level lookup; codes outside the
/// table land on [`SymbolKind::Invalid`].
pub open spec fn spec_symbol_kind_of(value: u8) -> SymbolKind {
    if value == XSYMTYP_EQUITY {
        SymbolKind::Equity
    } else if value == XSYMTYP_EQUITY_OPTION {
        SymbolKind::EquityOption
    } else if value == XSYMTYP_NAV {
        SymbolKind::Nav
    } else if value == XSYMTYP_FUND {
        SymbolKind::Fund
    } else if value == XSYMTYP_WARRANT {
        SymbolKind::Warrant
    } else if value == XSYMTYP_INDEX {
        SymbolKind::Index
    } else if value == XSYMTYP_FOREIGN_EXCHANGE {
        SymbolKind::ForeignExchange
    } else if value == XSYMTYP_BOND {
        SymbolKind::Bond
    } else if value == XSYMTYP_FIXED_INCOME {
        SymbolKind::FixedIncome
    } else if value == XSYMTYP_FUTURE {
        SymbolKind::Future
    } else if value == XSYMTYP_FUTURE_OPTION {
        SymbolKind::FutureOption
    } else if value == XSYMTYP_FUTURE_SPREAD {
        SymbolKind::FutureSpread
    } else if value == XSYMTYP_USER_KEYLIST {
        SymbolKind::UserKeylist
    } else if value == XSYMTYP_FILTER_KEYLIST {
        SymbolKind::FilterKeylist
    } else if value == XSYMTYP_EQUITY_L2 {
        SymbolKind::EquityL2
    } else if value == XSYMTYP_EQUITY_OPTION_L2 {
        SymbolKind::EquityOptionL2
    } else if value == XSYMTYP_FUTURE_L2 {
        SymbolKind::FutureL2
    } else if value == XSYMTYP_FUTURE_OPTION_L2 {
        SymbolKind::FutureOptionL2
    } else if value == XSYMTYP_FUTURE_SPREAD_L2 {
        SymbolKind::FutureSpreadL2
    } else if value == XSYMTYP_COMMODITY_INDEX {
        SymbolKind::CommodityIndex
    } else if value == XSYMTYP_FUTURE_OPTION_SPREAD {
        SymbolKind::FutureOptionSpread
    } else if value == XSYMTYP_FUTURE_OPTION_SPREAD_L2 {
        SymbolKind::FutureOptionSpreadL2
    } else if value == XSYMTYP_EQUITY_OPTION_SPREAD {
        SymbolKind::EquityOptionSpread
    } else if value == XSYMTYP_EQUITY_OPTION_SPREAD_L2 {
        SymbolKind::EquityOptionSpreadL2
    } else if value == XSYMTYP_FOREIGN_EXCHANGE_L2 {
        SymbolKind::ForeignExchangeL2
    } else if value == XSYMTYP_EQUITY_OPTION_STOCK_COMBO {
        SymbolKind::EquityOptionStockCombo
    } else if value == XSYMTYP_EQUITY_OPTION_STOCK_COMBO_L2 {
        SymbolKind::EquityOptionStockComboL2
    } else if value == XSYMTYP_ETF {
        SymbolKind::Etf
    } else if value == XSYMTYP_CURRENCY {
        SymbolKind::Currency
    } else if value == XSYMTYP_FUTURE_SPREAD_VERTICAL {
        SymbolKind::FutureSpreadVertical
    } else if value == XSYMTYP_FUTURE_SPREAD_CALENDAR {
        SymbolKind::FutureSpreadCalendar
    } else if value == XSYMTYP_FUTURE_SPREAD_STRADDLE {
        SymbolKind::FutureSpreadStraddle
    } else if value == XSYMTYP_FUTURE_SPREAD_NON_STANDARD {
        SymbolKind::FutureSpreadNonStandard
    } else if value == XSYMTYP_FUTURE_SPREAD_VERTICAL_L2 {
        SymbolKind::FutureSpreadVerticalL2
    } else if value == XSYMTYP_FUTURE_SPREAD_CALENDAR_L2 {
        SymbolKind::FutureSpreadCalendarL2
    } else if value == XSYMTYP_FUTURE_SPREAD_STRADDLE_L2 {
        SymbolKind::FutureSpreadStraddleL2
    } else if value == XSYMTYP_FUTURE_SPREAD_NON_STANDARD_L2 {
        SymbolKind::FutureSpreadNonStandardL2
    } else if value == XSYMTYP_FUTURE_OPTION_SPREAD_VERTICAL {
        SymbolKind::FutureOptionSpreadVertical
    } else if value == XSYMTYP_FUTURE_OPTION_SPREAD_CALENDAR {
        SymbolKind::FutureOptionSpreadCalendar
    } else if value == XSYMTYP_FUTURE_OPTION_SPREAD_STRADDLE {
        SymbolKind::FutureOptionSpreadStraddle
    } else if value == XSYMTYP_FUTURE_OPTION_SPREAD_NON_STANDARD {
        SymbolKind::FutureOptionSpreadNonStandard
    } else if value == XSYMTYP_FUTURE_OPTION_SPREAD_VERTICAL_L2 {
        SymbolKind::FutureOptionSpreadVerticalL2
    } else if value == XSYMTYP_FUTURE_OPTION_SPREAD_CALENDAR_L2 {
        SymbolKind::FutureOptionSpreadCalendarL2
    } else if value == XSYMTYP_FUTURE_OPTION_SPREAD_STRADDLE_L2 {
        SymbolKind::FutureOptionSpreadStraddleL2
    } else if value == XSYMTYP_FUTURE_OPTION_SPREAD_NON_STANDARD_L2 {
        SymbolKind::FutureOptionSpreadNonStandardL2
    } else if value == XSYMTYP_EQUITY_OPTION_SPREAD_VERTICAL {
        SymbolKind::EquityOptionSpreadVertical
    } else if value == XSYMTYP_EQUITY_OPTION_SPREAD_CALENDAR {
        SymbolKind::EquityOptionSpreadCalendar
    } else if value == XSYMTYP_EQUITY_OPTION_SPREAD_STRADDLE {
        SymbolKind::EquityOptionSpreadStraddle
    } else if value == XSYMTYP_EQUITY_OPTION_SPREAD_NON_STANDARD {
        SymbolKind::EquityOptionSpreadNonStandard
    } else if value == XSYMTYP_EQUITY_OPTION_SPREAD_VERTICAL_L2 {
        SymbolKind::EquityOptionSpreadVerticalL2
    } else if value == XSYMTYP_EQUITY_OPTION_SPREAD_CALENDAR_L2 {
        SymbolKind::EquityOptionSpreadCalendarL2
    } else if value == XSYMTYP_EQUITY_OPTION_SPREAD_STRADDLE_L2 {
        SymbolKind::EquityOptionSpreadStraddleL2
    } else if value == XSYMTYP_EQUITY_OPTION_SPREAD_NON_STANDARD_L2 {
        SymbolKind::EquityOptionSpreadNonStandardL2
    } else if value == XSYMTYP_FUTURE_SPREAD_STRANGLE {
        SymbolKind::FutureSpreadStrangle
    } else if value == XSYMTYP_FUTURE_SPREAD_STRANGLE_L2 {
        SymbolKind::FutureSpreadStrangleL2
    } else if value == XSYMTYP_FUTURE_OPTION_SPREAD_STRANGLE {
        SymbolKind::FutureOptionSpreadStrangle
    } else if value == XSYMTYP_FUTURE_OPTION_SPREAD_STRANGLE_L2 {
        SymbolKind::FutureOptionSpreadStrangleL2
    } else if value == XSYMTYP_EQUITY_OPTION_SPREAD_STRANGLE {
        SymbolKind::EquityOptionSpreadStrangle
    } else if value == XSYMTYP_EQUITY_OPTION_SPREAD_STRANGLE_L2 {
        SymbolKind::EquityOptionSpreadStrangleL2
    } else if value == XSYMTYP_CURRENCY_INDEX {
        SymbolKind::CurrencyIndex
    } else if value == XSYMTYP_ETF_INDEX {
        SymbolKind::EtfIndex
    } else if value == XSYMTYP_FOREIGN_EXCHANGE_INDEX {
        SymbolKind::ForeignExchangeIndex
    } else if value == XSYMTYP_INTEREST_RATE {
        SymbolKind::InterestRate
    } else if value == XSYMTYP_INTEREST_RATE_INDEX {
        SymbolKind::InterestRateIndex
    } else if value == XSYMTYP_FUND_L2 {
        SymbolKind::FundL2
    } else if value == XSYMTYP_WARRANT_L2 {
        SymbolKind::WarrantL2
    } else if value == XSYMTYP_INDEX_L2 {
        SymbolKind::IndexL2
    } else if value == XSYMTYP_BOND_L2 {
        SymbolKind::BondL2
    } else if value == XSYMTYP_FIXED_INCOME_L2 {
        SymbolKind::FixedIncomeL2
    } else if value == XSYMTYP_COMMODITY_INDEX_L2 {
        SymbolKind::CommodityIndexL2
    } else if value == XSYMTYP_ETF_L2 {
        SymbolKind::EtfL2
    } else if value == XSYMTYP_CURRENCY_L2 {
        SymbolKind::CurrencyL2
    } else if value == XSYMTYP_CURRENCY_INDEX_L2 {
        SymbolKind::CurrencyIndexL2
    } else if value == XSYMTYP_ETF_INDEX_L2 {
        SymbolKind::EtfIndexL2
    } else if value == XSYMTYP_FOREIGN_EXCHANGE_INDEX_L2 {
        SymbolKind::ForeignExchangeIndexL2
    } else if value == XSYMTYP_INTEREST_RATE_L2 {
        SymbolKind::InterestRateL2
    } else if value == XSYMTYP_INTEREST_RATE_INDEX_L2 {
        SymbolKind::InterestRateIndexL2
    } else if value == XSYMTYP_FX_SPOT {
        SymbolKind::FxSpot
    } else if value == XSYMTYP_FX_FORWARD {
        SymbolKind::FxForward
    } else if value == XSYMTYP_FX_NDF {
        SymbolKind::FxNdf
    } else if value == XSYMTYP_FX_SWAP {
        SymbolKind::FxSwap
    } else {
        SymbolKind::Invalid
    }
}

impl SymbolKind {
    /// Decode a raw symbol-kind code; codes outside the table decode to
    /// [`SymbolKind::Invalid`] rather than faulting.
    pub fn from_code(value: u8) -> (r: SymbolKind)
        ensures
            r == spec_symbol_kind_of(value),
    {
        if value == XSYMTYP_EQUITY {
            SymbolKind::Equity
        } else if value == XSYMTYP_EQUITY_OPTION {
            SymbolKind::EquityOption
        } else if value == XSYMTYP_NAV {
            SymbolKind::Nav
        } else if value == XSYMTYP_FUND {
            SymbolKind::Fund
        } else if value == XSYMTYP_WARRANT {
            SymbolKind::Warrant
        } else if value == XSYMTYP_INDEX {
            SymbolKind::Index
        } else if value == XSYMTYP_FOREIGN_EXCHANGE {
            SymbolKind::ForeignExchange
        } else if value == XSYMTYP_BOND {
            SymbolKind::Bond
        } else if value == XSYMTYP_FIXED_INCOME {
            SymbolKind::FixedIncome
        } else if value == XSYMTYP_FUTURE {
            SymbolKind::Future
        } else if value == XSYMTYP_FUTURE_OPTION {
            SymbolKind::FutureOption
        } else if value == XSYMTYP_FUTURE_SPREAD {
            SymbolKind::FutureSpread
        } else if value == XSYMTYP_USER_KEYLIST {
            SymbolKind::UserKeylist
        } else if value == XSYMTYP_FILTER_KEYLIST {
            SymbolKind::FilterKeylist
        } else if value == XSYMTYP_EQUITY_L2 {
            SymbolKind::EquityL2
        } else if value == XSYMTYP_EQUITY_OPTION_L2 {
            SymbolKind::EquityOptionL2
        } else if value == XSYMTYP_FUTURE_L2 {
            SymbolKind::FutureL2
        } else if value == XSYMTYP_FUTURE_OPTION_L2 {
            SymbolKind::FutureOptionL2
        } else if value == XSYMTYP_FUTURE_SPREAD_L2 {
            SymbolKind::FutureSpreadL2
        } else if value == XSYMTYP_COMMODITY_INDEX {
            SymbolKind::CommodityIndex
        } else if value == XSYMTYP_FUTURE_OPTION_SPREAD {
            SymbolKind::FutureOptionSpread
        } else if value == XSYMTYP_FUTURE_OPTION_SPREAD_L2 {
            SymbolKind::FutureOptionSpreadL2
        } else if value == XSYMTYP_EQUITY_OPTION_SPREAD {
            SymbolKind::EquityOptionSpread
        } else if value == XSYMTYP_EQUITY_OPTION_SPREAD_L2 {
            SymbolKind::EquityOptionSpreadL2
        } else if value == XSYMTYP_FOREIGN_EXCHANGE_L2 {
            SymbolKind::ForeignExchangeL2
        } else if value == XSYMTYP_EQUITY_OPTION_STOCK_COMBO {
            SymbolKind::EquityOptionStockCombo
        } else if value == XSYMTYP_EQUITY_OPTION_STOCK_COMBO_L2 {
            SymbolKind::EquityOptionStockComboL2
        } else if value == XSYMTYP_ETF {
            SymbolKind::Etf
        } else if value == XSYMTYP_CURRENCY {
            SymbolKind::Currency
        } else if value == XSYMTYP_FUTURE_SPREAD_VERTICAL {
            SymbolKind::FutureSpreadVertical
        } else if value == XSYMTYP_FUTURE_SPREAD_CALENDAR {
            SymbolKind::FutureSpreadCalendar
        } else if value == XSYMTYP_FUTURE_SPREAD_STRADDLE {
            SymbolKind::FutureSpreadStraddle
        } else if value == XSYMTYP_FUTURE_SPREAD_NON_STANDARD {
            SymbolKind::FutureSpreadNonStandard
        } else if value == XSYMTYP_FUTURE_SPREAD_VERTICAL_L2 {
            SymbolKind::FutureSpreadVerticalL2
        } else if value == XSYMTYP_FUTURE_SPREAD_CALENDAR_L2 {
            SymbolKind::FutureSpreadCalendarL2
        } else if value == XSYMTYP_FUTURE_SPREAD_STRADDLE_L2 {
            SymbolKind::FutureSpreadStraddleL2
        } else if value == XSYMTYP_FUTURE_SPREAD_NON_STANDARD_L2 {
            SymbolKind::FutureSpreadNonStandardL2
        } else if value == XSYMTYP_FUTURE_OPTION_SPREAD_VERTICAL {
            SymbolKind::FutureOptionSpreadVertical
        } else if value == XSYMTYP_FUTURE_OPTION_SPREAD_CALENDAR {
            SymbolKind::FutureOptionSpreadCalendar
        } else if value == XSYMTYP_FUTURE_OPTION_SPREAD_STRADDLE {
            SymbolKind::FutureOptionSpreadStraddle
        } else if value == XSYMTYP_FUTURE_OPTION_SPREAD_NON_STANDARD {
            SymbolKind::FutureOptionSpreadNonStandard
        } else if value == XSYMTYP_FUTURE_OPTION_SPREAD_VERTICAL_L2 {
            SymbolKind::FutureOptionSpreadVerticalL2
        } else if value == XSYMTYP_FUTURE_OPTION_SPREAD_CALENDAR_L2 {
            SymbolKind::FutureOptionSpreadCalendarL2
        } else if value == XSYMTYP_FUTURE_OPTION_SPREAD_STRADDLE_L2 {
            SymbolKind::FutureOptionSpreadStraddleL2
        } else if value == XSYMTYP_FUTURE_OPTION_SPREAD_NON_STANDARD_L2 {
            SymbolKind::FutureOptionSpreadNonStandardL2
        } else if value == XSYMTYP_EQUITY_OPTION_SPREAD_VERTICAL {
            SymbolKind::EquityOptionSpreadVertical
        } else if value == XSYMTYP_EQUITY_OPTION_SPREAD_CALENDAR {
            SymbolKind::EquityOptionSpreadCalendar
        } else if value == XSYMTYP_EQUITY_OPTION_SPREAD_STRADDLE {
            SymbolKind::EquityOptionSpreadStraddle
        } else if value == XSYMTYP_EQUITY_OPTION_SPREAD_NON_STANDARD {
            SymbolKind::EquityOptionSpreadNonStandard
        } else if value == XSYMTYP_EQUITY_OPTION_SPREAD_VERTICAL_L2 {
            SymbolKind::EquityOptionSpreadVerticalL2
        } else if value == XSYMTYP_EQUITY_OPTION_SPREAD_CALENDAR_L2 {
            SymbolKind::EquityOptionSpreadCalendarL2
        } else if value == XSYMTYP_EQUITY_OPTION_SPREAD_STRADDLE_L2 {
            SymbolKind::EquityOptionSpreadStraddleL2
        } else if value == XSYMTYP_EQUITY_OPTION_SPREAD_NON_STANDARD_L2 {
            SymbolKind::EquityOptionSpreadNonStandardL2
        } else if value == XSYMTYP_FUTURE_SPREAD_STRANGLE {
            SymbolKind::FutureSpreadStrangle
        } else if value == XSYMTYP_FUTURE_SPREAD_STRANGLE_L2 {
            SymbolKind::FutureSpreadStrangleL2
        } else if value == XSYMTYP_FUTURE_OPTION_SPREAD_STRANGLE {
            SymbolKind::FutureOptionSpreadStrangle
        } else if value == XSYMTYP_FUTURE_OPTION_SPREAD_STRANGLE_L2 {
            SymbolKind::FutureOptionSpreadStrangleL2
        } else if value == XSYMTYP_EQUITY_OPTION_SPREAD_STRANGLE {
            SymbolKind::EquityOptionSpreadStrangle
        } else if value == XSYMTYP_EQUITY_OPTION_SPREAD_STRANGLE_L2 {
            SymbolKind::EquityOptionSpreadStrangleL2
        } else if value == XSYMTYP_CURRENCY_INDEX {
            SymbolKind::CurrencyIndex
        } else if value == XSYMTYP_ETF_INDEX {
            SymbolKind::EtfIndex
        } else if value == XSYMTYP_FOREIGN_EXCHANGE_INDEX {
            SymbolKind::ForeignExchangeIndex
        } else if value == XSYMTYP_INTEREST_RATE {
            SymbolKind::InterestRate
        } else if value == XSYMTYP_INTEREST_RATE_INDEX {
            SymbolKind::InterestRateIndex
        } else if value == XSYMTYP_FUND_L2 {
            SymbolKind::FundL2
        } else if value == XSYMTYP_WARRANT_L2 {
            SymbolKind::WarrantL2
        } else if value == XSYMTYP_INDEX_L2 {
            SymbolKind::IndexL2
        } else if value == XSYMTYP_BOND_L2 {
            SymbolKind::BondL2
        } else if value == XSYMTYP_FIXED_INCOME_L2 {
            SymbolKind::FixedIncomeL2
        } else if value == XSYMTYP_COMMODITY_INDEX_L2 {
            SymbolKind::CommodityIndexL2
        } else if value == XSYMTYP_ETF_L2 {
            SymbolKind::EtfL2
        } else if value == XSYMTYP_CURRENCY_L2 {
            SymbolKind::CurrencyL2
        } else if value == XSYMTYP_CURRENCY_INDEX_L2 {
            SymbolKind::CurrencyIndexL2
        } else if value == XSYMTYP_ETF_INDEX_L2 {
            SymbolKind::EtfIndexL2
        } else if value == XSYMTYP_FOREIGN_EXCHANGE_INDEX_L2 {
            SymbolKind::ForeignExchangeIndexL2
        } else if value == XSYMTYP_INTEREST_RATE_L2 {
            SymbolKind::InterestRateL2
        } else if value == XSYMTYP_INTEREST_RATE_INDEX_L2 {
            SymbolKind::InterestRateIndexL2
        } else if value == XSYMTYP_FX_SPOT {
            SymbolKind::FxSpot
        } else if value == XSYMTYP_FX_FORWARD {
            SymbolKind::FxForward
        } else if value == XSYMTYP_FX_NDF {
            SymbolKind::FxNdf
        } else if value == XSYMTYP_FX_SWAP {
            SymbolKind::FxSwap
        } else {
            SymbolKind::Invalid
        }
    }
}

} // verus!
