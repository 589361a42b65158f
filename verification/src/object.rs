//! Native object kinds and the typed handle wrapper.
//!
//! A raw handle is an address-sized opaque value; nothing about it says
//! what it points at.  The [`Wrapper`] trait ties each strongly-typed
//! object of this crate to one entry of the [`Kind`] table, and the two
//! constructors [`wrap_checked`] and [`wrap_with_known_kind`] are the only
//! ways to build such an object: the first asks the native side what the
//! handle actually is, the second trusts a kind code that a dispatcher has
//! already received alongside the handle.  Past construction no further
//! tag checking happens, so all type-confusion risk sits here.

use vstd::prelude::*;

use crate::appliance::Appliance;
use crate::error::{spec_decode, Error};

verus! {

/// Object-kind codes as the native library reports them.
pub const XOBJ_INVALID: u16 = 0;
pub const XOBJ_SESSION_TICKER: u16 = 1;
pub const XOBJ_SESSION_TICKER_MONITORING: u16 = 2;
pub const XOBJ_REALTIME_EQUITY_SUMMARY: u16 = 3;
pub const XOBJ_REALTIME_EXCHANGE_STREAM: u16 = 4;
pub const XOBJ_REALTIME_ORDER_BOOK_SUMMARY: u16 = 5;
pub const XOBJ_REALTIME_ORDER_BOOK_EXCHANGE_STREAM: u16 = 6;
pub const XOBJ_REALTIME_PRICE_BOOK_SUMMARY: u16 = 7;
pub const XOBJ_REALTIME_PRICE_BOOK_EXCHANGE_STREAM: u16 = 8;
pub const XOBJ_REALTIME_BASKET_SUMMARY: u16 = 9;
pub const XOBJ_REALTIME_BASKET_CATALOG: u16 = 10;
pub const XOBJ_REALTIME_KEYLIST_FILTER: u16 = 11;
pub const XOBJ_REALTIME_KEYLIST_CATALOG: u16 = 12;
pub const XOBJ_REALTIME_COMMODITY_SUMMARY: u16 = 13;
pub const XOBJ_REALTIME_EQUITY_STREAM: u16 = 14;
pub const XOBJ_REALTIME_COMMODITY_STREAM: u16 = 15;
pub const XOBJ_REALTIME_ORDER_BOOK_STREAM: u16 = 16;
pub const XOBJ_REALTIME_PRICE_BOOK_STREAM: u16 = 17;
pub const XOBJ_REALTIME_TICKER_PLANT_FEEDS: u16 = 18;
pub const XOBJ_REALTIME_TICKER_PLANT_LINES: u16 = 19;
pub const XOBJ_REALTIME_TICKER_PLANT_SOCKETS: u16 = 20;
pub const XOBJ_REALTIME_TICKER_PLANT_CLIENTS: u16 = 21;
pub const XOBJ_REALTIME_DERIVATIVE_REFERENCE_SUMMARY: u16 = 22;
pub const XOBJ_REALTIME_DERIVATIVE_REFERENCE_EXCHANGE_STREAM: u16 = 23;
pub const XOBJ_REALTIME_FXSPOT_STREAM: u16 = 24;
pub const XOBJ_REALTIME_FXFORWARD_STREAM: u16 = 25;
pub const XOBJ_REALTIME_FXSWAP_STREAM: u16 = 26;
pub const XOBJ_REALTIME_TICKER_PLANT_SUMMARY: u16 = 27;
pub const XOBJ_REALTIME_TICKER_PLANT_LATENCY: u16 = 28;
pub const XOBJ_REALTIME_TICKER_PLANT_CLIENTS_RATES: u16 = 29;
pub const XOBJ_REALTIME_TICKER_PLANT_SUMMARY_RATES: u16 = 30;
pub const XOBJ_REALTIME_TICKER_PLANT_SESSIONS: u16 = 31;
pub const XOBJ_REALTIME_TICKER_PLANT_SESSIONS_RATES: u16 = 32;
pub const XOBJ_REALTIME_INSTRUMENT_GROUP_SUMMARY: u16 = 33;
pub const XOBJ_REALTIME_FX_SUMMARY: u16 = 34;
pub const XOBJ_REALTIME_FX_STREAM: u16 = 35;
pub const XOBJ_REALTIME_VOLATILITY_SUMMARY: u16 = 36;
pub const XOBJ_REALTIME_SYMBOL_REFERENCE_SUMMARY: u16 = 37;
pub const XOBJ_WRITEONLY_EQUITY_INSTRUMENT: u16 = 38;
pub const XOBJ_WRITEONLY_COMMODITY_INSTRUMENT: u16 = 39;
pub const XOBJ_WRITEONLY_LEVEL2_INSTRUMENT: u16 = 40;
pub const XOBJ_WRITEONLY_KEYLIST_EDIT: u16 = 41;
pub const XOBJ_EVENT_SUBSCRIBE: u16 = 42;
pub const XOBJ_EVENT_SNAPSHOT: u16 = 43;
pub const XOBJ_EVENT_EQUITY_TRADE: u16 = 44;
pub const XOBJ_EVENT_EQUITY_QUOTE: u16 = 45;
pub const XOBJ_EVENT_EQUITY_REFRESH: u16 = 46;
pub const XOBJ_EVENT_EQUITY_CANCEL: u16 = 47;
pub const XOBJ_EVENT_EQUITY_CORRECTION: u16 = 48;
pub const XOBJ_EVENT_ORDER_BOOK_REFRESH_BID: u16 = 49;
pub const XOBJ_EVENT_ORDER_BOOK_REFRESH_ASK: u16 = 50;
pub const XOBJ_EVENT_ORDER_BOOK_UPDATE: u16 = 51;
pub const XOBJ_EVENT_PRICE_BOOK_REFRESH_BID: u16 = 52;
pub const XOBJ_EVENT_PRICE_BOOK_REFRESH_ASK: u16 = 53;
pub const XOBJ_EVENT_PRICE_BOOK_UPDATE: u16 = 54;
pub const XOBJ_EVENT_COMMODITY_REFRESH: u16 = 55;
pub const XOBJ_EVENT_COMMODITY_TRADE: u16 = 56;
pub const XOBJ_EVENT_COMMODITY_QUOTE: u16 = 57;
pub const XOBJ_EVENT_COMMODITY_CANCEL: u16 = 58;
pub const XOBJ_EVENT_COMMODITY_CORRECTION: u16 = 59;
pub const XOBJ_EVENT_NAV_UPDATE: u16 = 60;
pub const XOBJ_EVENT_BASKET_CATALOG_REFRESH: u16 = 61;
pub const XOBJ_EVENT_BASKET_CATALOG_UPDATE: u16 = 62;
pub const XOBJ_EVENT_BASKET_DEFN_REFRESH: u16 = 63;
pub const XOBJ_EVENT_BASKET_DEFN_STATUS: u16 = 64;
pub const XOBJ_EVENT_BASKET_CONSTITUENT_UPDATE_STATUS: u16 = 65;
pub const XOBJ_EVENT_BASKET_CONSTITUENT_REFRESH: u16 = 66;
pub const XOBJ_EVENT_STATIC_EQUITY_REFRESH: u16 = 67;
pub const XOBJ_EVENT_STATIC_COMMODITY_REFRESH: u16 = 68;
pub const XOBJ_EVENT_BASKET_DEFN_DELETE: u16 = 69;
pub const XOBJ_EVENT_KEYLIST_DEFN_STATUS: u16 = 70;
pub const XOBJ_EVENT_KEYLIST_DEFN_REFRESH: u16 = 71;
pub const XOBJ_EVENT_KEYLIST_DEFN_DELETE: u16 = 72;
pub const XOBJ_EVENT_KEYLIST_FILTER_DEFN_STATUS: u16 = 73;
pub const XOBJ_EVENT_KEYLIST_FILTER_DEFN_REFRESH: u16 = 74;
pub const XOBJ_EVENT_KEYLIST_FILTER_DEFN_DELETE: u16 = 75;
pub const XOBJ_EVENT_KEYLIST_FILTER_MATCH_START: u16 = 76;
pub const XOBJ_EVENT_KEYLIST_FILTER_MATCH_END: u16 = 77;
pub const XOBJ_EVENT_KEYLIST_FILTER_MATCH: u16 = 78;
pub const XOBJ_EVENT_KEYLIST_FILTER_MATCH_REMOVE: u16 = 79;
pub const XOBJ_EVENT_KEYLIST_CATALOG_REFRESH: u16 = 80;
pub const XOBJ_EVENT_KEYLIST_CATALOG_UPDATE: u16 = 81;
pub const XOBJ_EVENT_INSTRUMENT_UPDATE_STATUS: u16 = 82;
pub const XOBJ_EVENT_SIGNUM_PREDICTIVE_DATA_REFRESH: u16 = 83;
pub const XOBJ_EVENT_SIGNUM_PREDICTIVE_DATA_STATUS: u16 = 84;
pub const XOBJ_EVENT_ORDER_EXECUTION: u16 = 85;
pub const XOBJ_EVENT_ORDER_IMBALANCE: u16 = 86;
pub const XOBJ_EVENT_MARKET_DIRECTORY: u16 = 87;
pub const XOBJ_EVENT_TRADING_ACTION: u16 = 88;
pub const XOBJ_EVENT_TICKER_PLANT_FEED_REFRESH: u16 = 89;
pub const XOBJ_EVENT_TICKER_PLANT_FEED_UPDATE: u16 = 90;
pub const XOBJ_EVENT_TICKER_PLANT_LINE_REFRESH: u16 = 91;
pub const XOBJ_EVENT_TICKER_PLANT_SOCKET_REFRESH: u16 = 92;
pub const XOBJ_EVENT_TICKER_PLANT_CLIENT_REFRESH: u16 = 93;
pub const XOBJ_EVENT_STATIC_TICKER_PLANT_LINE_REFRESH: u16 = 94;
pub const XOBJ_EVENT_STATIC_TICKER_PLANT_SOCKET_REFRESH: u16 = 95;
pub const XOBJ_EVENT_STATIC_TICKER_PLANT_CLIENT_REFRESH: u16 = 96;
pub const XOBJ_EVENT_STATIC_TICKER_PLANT_LINE_GAPS_REFRESH: u16 = 97;
pub const XOBJ_EVENT_DERIVATIVE_REFERENCE_REFRESH: u16 = 98;
pub const XOBJ_EVENT_ORDER_ON_BOOK: u16 = 99;
pub const XOBJ_EVENT_FXSPOT_REFRESH: u16 = 100;
pub const XOBJ_EVENT_FXSPOT_QUOTE: u16 = 101;
pub const XOBJ_EVENT_FXFWD_REFRESH: u16 = 102;
pub const XOBJ_EVENT_FXFWD_QUOTE: u16 = 103;
pub const XOBJ_EVENT_FXSWAP_REFRESH: u16 = 104;
pub const XOBJ_EVENT_FXSWAP_QUOTE: u16 = 105;
pub const XOBJ_EVENT_TICKER_PLANT_SUMMARY_REFRESH: u16 = 106;
pub const XOBJ_EVENT_TICKER_PLANT_LATENCY_REFRESH: u16 = 107;
pub const XOBJ_EVENT_TICKER_PLANT_CLIENTS_RATES_REFRESH: u16 = 108;
pub const XOBJ_EVENT_TICKER_PLANT_SUMMARY_RATES_REFRESH: u16 = 109;
pub const XOBJ_EVENT_STATIC_TICKER_PLANT_SUMMARY_REFRESH: u16 = 110;
pub const XOBJ_EVENT_STATIC_TICKER_PLANT_LATENCY_REFRESH: u16 = 111;
pub const XOBJ_EVENT_STATIC_TICKER_PLANT_CLIENTS_RATES_REFRESH: u16 = 112;
pub const XOBJ_EVENT_STATIC_TICKER_PLANT_SUMMARY_RATES_REFRESH: u16 = 113;
pub const XOBJ_EVENT_TICKER_PLANT_MWCB_UPDATE: u16 = 114;
pub const XOBJ_EVENT_TICKER_PLANT_SESSIONS_RATES_REFRESH: u16 = 115;
pub const XOBJ_EVENT_STATIC_TICKER_PLANT_SESSIONS_RATES_REFRESH: u16 = 116;
pub const XOBJ_EVENT_TICKER_PLANT_SESSIONS_REFRESH: u16 = 117;
pub const XOBJ_EVENT_STATIC_TICKER_PLANT_SESSIONS_REFRESH: u16 = 118;
pub const XOBJ_EVENT_REQUEST_FOR_QUOTE: u16 = 119;
pub const XOBJ_EVENT_INDICATIVE_PRICE: u16 = 120;
pub const XOBJ_EVENT_INSTRUMENT_GROUP_REFRESH: u16 = 121;
pub const XOBJ_EVENT_INSTRUMENT_GROUP_UPDATE: u16 = 122;
pub const XOBJ_EVENT_SESSION_STATUS: u16 = 123;
pub const XOBJ_EVENT_FX_REFRESH: u16 = 124;
pub const XOBJ_EVENT_FX_UPDATE: u16 = 125;
pub const XOBJ_EVENT_VOLATILITY_REFRESH: u16 = 126;
pub const XOBJ_EVENT_VOLATILITY_QUOTE_RISK: u16 = 127;
pub const XOBJ_EVENT_VOLATILITY_TRADE_RISK: u16 = 128;
pub const XOBJ_EVENT_SYMBOL_REFERENCE_REFRESH: u16 = 129;
pub const XOBJ_EVENT_SIGNAL_STATUS: u16 = 130;
pub const XOBJ_EVENT_TRADE_SUMMARY: u16 = 131;
pub const XOBJ_EVENT_EXCHANGE_STATISTICS: u16 = 132;
pub const XOBJ_READWRITE_BASKET_DEFINITION: u16 = 133;
pub const XOBJ_READWRITE_KEYLIST_DEFINITION: u16 = 134;
pub const XOBJ_READWRITE_KEYLIST_FILTER_DEFINITION: u16 = 135;
pub const XOBJ_READWRITE_BASKET_CONSTITUENT: u16 = 136;
pub const XOBJ_READWRITE_SIGNUM_PREDICTIVE_DATA: u16 = 137;
pub const XOBJ_STATIC_EQUITY_SUMMARY: u16 = 138;
pub const XOBJ_STATIC_COMMODITY_SUMMARY: u16 = 139;
pub const XOBJ_STATIC_TICKER_PLANT_LINES: u16 = 140;
pub const XOBJ_STATIC_TICKER_PLANT_SOCKETS: u16 = 141;
pub const XOBJ_STATIC_TICKER_PLANT_CLIENTS: u16 = 142;
pub const XOBJ_STATIC_TICKER_PLANT_LINE_GAPS: u16 = 143;
pub const XOBJ_STATIC_TICKER_PLANT_SUMMARY: u16 = 144;
pub const XOBJ_STATIC_TICKER_PLANT_LATENCY: u16 = 145;
pub const XOBJ_STATIC_TICKER_PLANT_CLIENTS_RATES: u16 = 146;
pub const XOBJ_STATIC_TICKER_PLANT_SUMMARY_RATES: u16 = 147;
pub const XOBJ_STATIC_TICKER_PLANT_SESSIONS: u16 = 148;
pub const XOBJ_STATIC_TICKER_PLANT_SESSIONS_RATES: u16 = 149;

/// An enumeration of the native object kinds.
#[derive(Clone, Copy, Debug, PartialEq, Eq, Structural)]
pub enum Kind {
    /// invalid
    Invalid,
    /// ticker plant -- standard session
    SessionTicker,
    /// ticker plant monitoring session
    SessionTickerMonitoring,
    /// price summary objects
    RealtimeEquitySummary,
    /// exchange-based subscriptions
    RealtimeExchangeStream,
    /// order book summary objects
    RealtimeOrderBookSummary,
    /// order book exchange-based subscriptions
    RealtimeOrderBookExchangeStream,
    /// price book summary objects
    RealtimePriceBookSummary,
    /// price book exchange-based subscriptions
    RealtimePriceBookExchangeStream,
    /// basket summary objects
    RealtimeBasketSummary,
    /// list of all baskets
    RealtimeBasketCatalog,
    /// filtered keylist results
    RealtimeKeylistFilter,
    /// catalog of keylists
    RealtimeKeylistCatalog,
    /// commodity price summary objects
    RealtimeCommoditySummary,
    /// equity stream objects
    RealtimeEquityStream,
    /// commodity stream objects
    RealtimeCommodityStream,
    /// order book stream objects
    RealtimeOrderBookStream,
    /// price book stream objects
    RealtimePriceBookStream,
    /// Ticker Plant feed information
    RealtimeTickerPlantFeeds,
    /// Ticker Plant line information
    RealtimeTickerPlantLines,
    /// Ticker Plant socket information
    RealtimeTickerPlantSockets,
    /// Ticker Plant client connection information
    RealtimeTickerPlantClients,
    /// Derivative Summary
    RealtimeDerivativeReferenceSummary,
    /// Derivative exchange stream
    RealtimeDerivativeReferenceExchangeStream,
    /// Foreign Exchange Sopt Stream
    RealtimeFxspotStream,
    /// Foreign Exchange Forward Stream
    RealtimeFxforwardStream,
    /// Foreign Exchange SWAP Stream
    RealtimeFxswapStream,
    /// Ticker Plant summary
    RealtimeTickerPlantSummary,
    /// Ticker Plant latency
    RealtimeTickerPlantLatency,
    /// Ticker Plant clients rates
    RealtimeTickerPlantClientsRates,
    /// Ticker Plant summary rates
    RealtimeTickerPlantSummaryRates,
    /// Ticker Plant sessions (for session sets)
    RealtimeTickerPlantSessions,
    /// Ticker Plant sessions rates (for session sets)
    RealtimeTickerPlantSessionsRates,
    /// Instrument Group Summary
    RealtimeInstrumentGroupSummary,
    /// FX summary objects
    RealtimeFxSummary,
    /// FX stream objects
    RealtimeFxStream,
    /// Volatility summary objects
    RealtimeVolatilitySummary,
    /// Symbol reference summary objects
    RealtimeSymbolReferenceSummary,
    /// Equity instrument update
    WriteonlyEquityInstrument,
    /// Commodity instrument update
    WriteonlyCommodityInstrument,
    /// Level 2 instrument update
    WriteonlyLevel2Instrument,
    /// Keylist edit
    WriteonlyKeylistEdit,
    /// Subscribe to instrument
    EventSubscribe,
    /// Snapshot has been completed
    EventSnapshot,
    /// Equity trade event
    EventEquityTrade,
    /// Equity quote event
    EventEquityQuote,
    /// Equity refresh event
    EventEquityRefresh,
    /// Equity cancellation event
    EventEquityCancel,
    /// Equity correction event
    EventEquityCorrection,
    /// Order book refresh on bid side (equities)
    EventOrderBookRefreshBid,
    /// Order book refresh on ask side (equities)
    EventOrderBookRefreshAsk,
    /// Order book update (equities)
    EventOrderBookUpdate,
    /// Price book refresh on bid side (equities)
    EventPriceBookRefreshBid,
    /// Price book refresh on ask side (equities)
    EventPriceBookRefreshAsk,
    /// Price book update (equities)
    EventPriceBookUpdate,
    /// Commodity refresh event
    EventCommodityRefresh,
    /// Commodity trade event
    EventCommodityTrade,
    /// Commodity quote event
    EventCommodityQuote,
    /// Commodity cancel event
    EventCommodityCancel,
    /// Commodity correction event
    EventCommodityCorrection,
    /// Basket NAV update
    EventNavUpdate,
    /// Basket catalog refresh
    EventBasketCatalogRefresh,
    /// Basket catalog update
    EventBasketCatalogUpdate,
    /// Basket definition refresh
    EventBasketDefnRefresh,
    /// Basket set/remove definition status
    EventBasketDefnStatus,
    /// Status of basket constituent update operation
    EventBasketConstituentUpdateStatus,
    /// Global basket constituent information
    EventBasketConstituentRefresh,
    /// A one-time response (equities)
    EventStaticEquityRefresh,
    /// A one-time response (commodities)
    EventStaticCommodityRefresh,
    /// Basket definition deleted
    EventBasketDefnDelete,
    /// Keylist definition status
    EventKeylistDefnStatus,
    /// Static keylist definition refresh
    EventKeylistDefnRefresh,
    /// Static keylist definition deleted
    EventKeylistDefnDelete,
    /// Filtered keylist definition status
    EventKeylistFilterDefnStatus,
    /// Filtered keylist definition refresh
    EventKeylistFilterDefnRefresh,
    /// Filtered keylist definition deleted
    EventKeylistFilterDefnDelete,
    /// Results of a filtered keylist subscription have begun
    EventKeylistFilterMatchStart,
    /// Results of a filtered keylist subscription have ended
    EventKeylistFilterMatchEnd,
    /// Results of a filtered keylist subscription
    EventKeylistFilterMatch,
    /// A key has been deleted that matched a filtered keylist subscription
    EventKeylistFilterMatchRemove,
    /// Keylist catalog refresh
    EventKeylistCatalogRefresh,
    /// Keylist catalog update
    EventKeylistCatalogUpdate,
    /// Status of instrument update operation
    EventInstrumentUpdateStatus,
    /// Signum predictive data refresh
    EventSignumPredictiveDataRefresh,
    /// Signum predictive data status
    EventSignumPredictiveDataStatus,
    /// Order execution event
    EventOrderExecution,
    /// Order imbalance notification
    EventOrderImbalance,
    /// Market directory event
    EventMarketDirectory,
    /// Trading action event
    EventTradingAction,
    /// Refresh Ticker Plant feed information
    EventTickerPlantFeedRefresh,
    /// Update Ticker Plant feed information
    EventTickerPlantFeedUpdate,
    /// Refresh Ticker Plant line information
    EventTickerPlantLineRefresh,
    /// Refresh Ticker Plant socket information
    EventTickerPlantSocketRefresh,
    /// Refresh Ticker Plant client connection information
    EventTickerPlantClientRefresh,
    /// Refresh Ticker Plant line information
    EventStaticTickerPlantLineRefresh,
    /// Refresh Ticker Plant socket information
    EventStaticTickerPlantSocketRefresh,
    /// Refresh Ticker Plant client connection information
    EventStaticTickerPlantClientRefresh,
    /// Ticker Plant line gap list
    EventStaticTickerPlantLineGapsRefresh,
    /// Derivative reference refresh event
    EventDerivativeReferenceRefresh,
    /// Order on book event
    EventOrderOnBook,
    /// Foreign exchange spot refresh event
    EventFxspotRefresh,
    /// Foreign exchange spot quote event
    EventFxspotQuote,
    /// Foreign exchange forward refresh event
    EventFxfwdRefresh,
    /// Foreign exchange forward quote event
    EventFxfwdQuote,
    /// Foreign exchange swap refresh event
    EventFxswapRefresh,
    /// Foreign exchange swap quote event
    EventFxswapQuote,
    /// Ticker Plant summary refresh
    EventTickerPlantSummaryRefresh,
    /// Ticker Plant latency refresh
    EventTickerPlantLatencyRefresh,
    /// Ticker Plant clients rates refresh
    EventTickerPlantClientsRatesRefresh,
    /// Ticker Plant summary rates refresh
    EventTickerPlantSummaryRatesRefresh,
    /// Ticker Plant summary refresh
    EventStaticTickerPlantSummaryRefresh,
    /// Ticker Plant latency refresh
    EventStaticTickerPlantLatencyRefresh,
    /// Ticker Plant clients rates refresh
    EventStaticTickerPlantClientsRatesRefresh,
    /// Ticker Plant summary rates refresh
    EventStaticTickerPlantSummaryRatesRefresh,
    /// Ticker Plant market wide circuit breaker update
    EventTickerPlantMwcbUpdate,
    /// Refresh Ticker Plant sessions rates refresh
    EventTickerPlantSessionsRatesRefresh,
    /// Refresh Ticker Plant sessions rates refresh
    EventStaticTickerPlantSessionsRatesRefresh,
    /// Refresh Ticker Plant sessions stats refresh
    EventTickerPlantSessionsRefresh,
    /// Refresh Ticker Plant sessions stats refresh
    EventStaticTickerPlantSessionsRefresh,
    /// Request for quote event
    EventRequestForQuote,
    /// Indicative Price event
    EventIndicativePrice,
    /// Instrument Group Refresh
    EventInstrumentGroupRefresh,
    /// Instrument Group Refresh
    EventInstrumentGroupUpdate,
    /// Session status has changed (e.g. connected or disconnected)
    EventSessionStatus,
    /// FX refresh on bid side
    EventFxRefresh,
    /// FX update
    EventFxUpdate,
    /// Volatility refresh
    EventVolatilityRefresh,
    /// Volatility quote risk
    EventVolatilityQuoteRisk,
    /// Volatility trade risk
    EventVolatilityTradeRisk,
    /// Symbol reference refresh
    EventSymbolReferenceRefresh,
    /// Signum signal status
    EventSignalStatus,
    /// Trade summary
    EventTradeSummary,
    /// Exchange statistics
    EventExchangeStatistics,
    /// Basket definition
    ReadwriteBasketDefinition,
    /// Static keylist definition
    ReadwriteKeylistDefinition,
    /// Filtered keylist definition
    ReadwriteKeylistFilterDefinition,
    /// global basket constituent data
    ReadwriteBasketConstituent,
    /// Signum predictive data
    ReadwriteSignumPredictiveData,
    /// Equity summary
    StaticEquitySummary,
    /// Commodity summary
    StaticCommoditySummary,
    /// Ticker Plant line information
    StaticTickerPlantLines,
    /// Ticker Plant socket information
    StaticTickerPlantSockets,
    /// Ticker Plant client connection information
    StaticTickerPlantClients,
    /// Ticker Plant line gap list
    StaticTickerPlantLineGaps,
    /// Ticker Plant summary
    StaticTickerPlantSummary,
    /// Ticker Plant latency
    StaticTickerPlantLatency,
    /// Ticker Plant clients rates
    StaticTickerPlantClientsRates,
    /// Ticker Plant summary rates
    StaticTickerPlantSummaryRates,
    /// Ticker Plant sessions (for session sets)
    StaticTickerPlantSessions,
    /// Ticker Plant sessions rates (for session sets)
    StaticTickerPlantSessionsRates,
}

/// The object-kind table as one spec-level lookup; codes outside the
/// table land on [`Kind::Invalid`].
pub open spec fn spec_kind_of(value: u16) -> Kind {
    if value == XOBJ_INVALID {
        Kind::Invalid
    } else if value == XOBJ_SESSION_TICKER {
        Kind::SessionTicker
    } else if value == XOBJ_SESSION_TICKER_MONITORING {
        Kind::SessionTickerMonitoring
    } else if value == XOBJ_REALTIME_EQUITY_SUMMARY {
        Kind::RealtimeEquitySummary
    } else if value == XOBJ_REALTIME_EXCHANGE_STREAM {
        Kind::RealtimeExchangeStream
    } else if value == XOBJ_REALTIME_ORDER_BOOK_SUMMARY {
        Kind::RealtimeOrderBookSummary
    } else if value == XOBJ_REALTIME_ORDER_BOOK_EXCHANGE_STREAM {
        Kind::RealtimeOrderBookExchangeStream
    } else if value == XOBJ_REALTIME_PRICE_BOOK_SUMMARY {
        Kind::RealtimePriceBookSummary
    } else if value == XOBJ_REALTIME_PRICE_BOOK_EXCHANGE_STREAM {
        Kind::RealtimePriceBookExchangeStream
    } else if value == XOBJ_REALTIME_BASKET_SUMMARY {
        Kind::RealtimeBasketSummary
    } else if value == XOBJ_REALTIME_BASKET_CATALOG {
        Kind::RealtimeBasketCatalog
    } else if value == XOBJ_REALTIME_KEYLIST_FILTER {
        Kind::RealtimeKeylistFilter
    } else if value == XOBJ_REALTIME_KEYLIST_CATALOG {
        Kind::RealtimeKeylistCatalog
    } else if value == XOBJ_REALTIME_COMMODITY_SUMMARY {
        Kind::RealtimeCommoditySummary
    } else if value == XOBJ_REALTIME_EQUITY_STREAM {
        Kind::RealtimeEquityStream
    } else if value == XOBJ_REALTIME_COMMODITY_STREAM {
        Kind::RealtimeCommodityStream
    } else if value == XOBJ_REALTIME_ORDER_BOOK_STREAM {
        Kind::RealtimeOrderBookStream
    } else if value == XOBJ_REALTIME_PRICE_BOOK_STREAM {
        Kind::RealtimePriceBookStream
    } else if value == XOBJ_REALTIME_TICKER_PLANT_FEEDS {
        Kind::RealtimeTickerPlantFeeds
    } else if value == XOBJ_REALTIME_TICKER_PLANT_LINES {
        Kind::RealtimeTickerPlantLines
    } else if value == XOBJ_REALTIME_TICKER_PLANT_SOCKETS {
        Kind::RealtimeTickerPlantSockets
    } else if value == XOBJ_REALTIME_TICKER_PLANT_CLIENTS {
        Kind::RealtimeTickerPlantClients
    } else if value == XOBJ_REALTIME_DERIVATIVE_REFERENCE_SUMMARY {
        Kind::RealtimeDerivativeReferenceSummary
    } else if value == XOBJ_REALTIME_DERIVATIVE_REFERENCE_EXCHANGE_STREAM {
        Kind::RealtimeDerivativeReferenceExchangeStream
    } else if value == XOBJ_REALTIME_FXSPOT_STREAM {
        Kind::RealtimeFxspotStream
    } else if value == XOBJ_REALTIME_FXFORWARD_STREAM {
        Kind::RealtimeFxforwardStream
    } else if value == XOBJ_REALTIME_FXSWAP_STREAM {
        Kind::RealtimeFxswapStream
    } else if value == XOBJ_REALTIME_TICKER_PLANT_SUMMARY {
        Kind::RealtimeTickerPlantSummary
    } else if value == XOBJ_REALTIME_TICKER_PLANT_LATENCY {
        Kind::RealtimeTickerPlantLatency
    } else if value == XOBJ_REALTIME_TICKER_PLANT_CLIENTS_RATES {
        Kind::RealtimeTickerPlantClientsRates
    } else if value == XOBJ_REALTIME_TICKER_PLANT_SUMMARY_RATES {
        Kind::RealtimeTickerPlantSummaryRates
    } else if value == XOBJ_REALTIME_TICKER_PLANT_SESSIONS {
        Kind::RealtimeTickerPlantSessions
    } else if value == XOBJ_REALTIME_TICKER_PLANT_SESSIONS_RATES {
        Kind::RealtimeTickerPlantSessionsRates
    } else if value == XOBJ_REALTIME_INSTRUMENT_GROUP_SUMMARY {
        Kind::RealtimeInstrumentGroupSummary
    } else if value == XOBJ_REALTIME_FX_SUMMARY {
        Kind::RealtimeFxSummary
    } else if value == XOBJ_REALTIME_FX_STREAM {
        Kind::RealtimeFxStream
    } else if value == XOBJ_REALTIME_VOLATILITY_SUMMARY {
        Kind::RealtimeVolatilitySummary
    } else if value == XOBJ_REALTIME_SYMBOL_REFERENCE_SUMMARY {
        Kind::RealtimeSymbolReferenceSummary
    } else if value == XOBJ_WRITEONLY_EQUITY_INSTRUMENT {
        Kind::WriteonlyEquityInstrument
    } else if value == XOBJ_WRITEONLY_COMMODITY_INSTRUMENT {
        Kind::WriteonlyCommodityInstrument
    } else if value == XOBJ_WRITEONLY_LEVEL2_INSTRUMENT {
        Kind::WriteonlyLevel2Instrument
    } else if value == XOBJ_WRITEONLY_KEYLIST_EDIT {
        Kind::WriteonlyKeylistEdit
    } else if value == XOBJ_EVENT_SUBSCRIBE {
        Kind::EventSubscribe
    } else if value == XOBJ_EVENT_SNAPSHOT {
        Kind::EventSnapshot
    } else if value == XOBJ_EVENT_EQUITY_TRADE {
        Kind::EventEquityTrade
    } else if value == XOBJ_EVENT_EQUITY_QUOTE {
        Kind::EventEquityQuote
    } else if value == XOBJ_EVENT_EQUITY_REFRESH {
        Kind::EventEquityRefresh
    } else if value == XOBJ_EVENT_EQUITY_CANCEL {
        Kind::EventEquityCancel
    } else if value == XOBJ_EVENT_EQUITY_CORRECTION {
        Kind::EventEquityCorrection
    } else if value == XOBJ_EVENT_ORDER_BOOK_REFRESH_BID {
        Kind::EventOrderBookRefreshBid
    } else if value == XOBJ_EVENT_ORDER_BOOK_REFRESH_ASK {
        Kind::EventOrderBookRefreshAsk
    } else if value == XOBJ_EVENT_ORDER_BOOK_UPDATE {
        Kind::EventOrderBookUpdate
    } else if value == XOBJ_EVENT_PRICE_BOOK_REFRESH_BID {
        Kind::EventPriceBookRefreshBid
    } else if value == XOBJ_EVENT_PRICE_BOOK_REFRESH_ASK {
        Kind::EventPriceBookRefreshAsk
    } else if value == XOBJ_EVENT_PRICE_BOOK_UPDATE {
        Kind::EventPriceBookUpdate
    } else if value == XOBJ_EVENT_COMMODITY_REFRESH {
        Kind::EventCommodityRefresh
    } else if value == XOBJ_EVENT_COMMODITY_TRADE {
        Kind::EventCommodityTrade
    } else if value == XOBJ_EVENT_COMMODITY_QUOTE {
        Kind::EventCommodityQuote
    } else if value == XOBJ_EVENT_COMMODITY_CANCEL {
        Kind::EventCommodityCancel
    } else if value == XOBJ_EVENT_COMMODITY_CORRECTION {
        Kind::EventCommodityCorrection
    } else if value == XOBJ_EVENT_NAV_UPDATE {
        Kind::EventNavUpdate
    } else if value == XOBJ_EVENT_BASKET_CATALOG_REFRESH {
        Kind::EventBasketCatalogRefresh
    } else if value == XOBJ_EVENT_BASKET_CATALOG_UPDATE {
        Kind::EventBasketCatalogUpdate
    } else if value == XOBJ_EVENT_BASKET_DEFN_REFRESH {
        Kind::EventBasketDefnRefresh
    } else if value == XOBJ_EVENT_BASKET_DEFN_STATUS {
        Kind::EventBasketDefnStatus
    } else if value == XOBJ_EVENT_BASKET_CONSTITUENT_UPDATE_STATUS {
        Kind::EventBasketConstituentUpdateStatus
    } else if value == XOBJ_EVENT_BASKET_CONSTITUENT_REFRESH {
        Kind::EventBasketConstituentRefresh
    } else if value == XOBJ_EVENT_STATIC_EQUITY_REFRESH {
        Kind::EventStaticEquityRefresh
    } else if value == XOBJ_EVENT_STATIC_COMMODITY_REFRESH {
        Kind::EventStaticCommodityRefresh
    } else if value == XOBJ_EVENT_BASKET_DEFN_DELETE {
        Kind::EventBasketDefnDelete
    } else if value == XOBJ_EVENT_KEYLIST_DEFN_STATUS {
        Kind::EventKeylistDefnStatus
    } else if value == XOBJ_EVENT_KEYLIST_DEFN_REFRESH {
        Kind::EventKeylistDefnRefresh
    } else if value == XOBJ_EVENT_KEYLIST_DEFN_DELETE {
        Kind::EventKeylistDefnDelete
    } else if value == XOBJ_EVENT_KEYLIST_FILTER_DEFN_STATUS {
        Kind::EventKeylistFilterDefnStatus
    } else if value == XOBJ_EVENT_KEYLIST_FILTER_DEFN_REFRESH {
        Kind::EventKeylistFilterDefnRefresh
    } else if value == XOBJ_EVENT_KEYLIST_FILTER_DEFN_DELETE {
        Kind::EventKeylistFilterDefnDelete
    } else if value == XOBJ_EVENT_KEYLIST_FILTER_MATCH_START {
        Kind::EventKeylistFilterMatchStart
    } else if value == XOBJ_EVENT_KEYLIST_FILTER_MATCH_END {
        Kind::EventKeylistFilterMatchEnd
    } else if value == XOBJ_EVENT_KEYLIST_FILTER_MATCH {
        Kind::EventKeylistFilterMatch
    } else if value == XOBJ_EVENT_KEYLIST_FILTER_MATCH_REMOVE {
        Kind::EventKeylistFilterMatchRemove
    } else if value == XOBJ_EVENT_KEYLIST_CATALOG_REFRESH {
        Kind::EventKeylistCatalogRefresh
    } else if value == XOBJ_EVENT_KEYLIST_CATALOG_UPDATE {
        Kind::EventKeylistCatalogUpdate
    } else if value == XOBJ_EVENT_INSTRUMENT_UPDATE_STATUS {
        Kind::EventInstrumentUpdateStatus
    } else if value == XOBJ_EVENT_SIGNUM_PREDICTIVE_DATA_REFRESH {
        Kind::EventSignumPredictiveDataRefresh
    } else if value == XOBJ_EVENT_SIGNUM_PREDICTIVE_DATA_STATUS {
        Kind::EventSignumPredictiveDataStatus
    } else if value == XOBJ_EVENT_ORDER_EXECUTION {
        Kind::EventOrderExecution
    } else if value == XOBJ_EVENT_ORDER_IMBALANCE {
        Kind::EventOrderImbalance
    } else if value == XOBJ_EVENT_MARKET_DIRECTORY {
        Kind::EventMarketDirectory
    } else if value == XOBJ_EVENT_TRADING_ACTION {
        Kind::EventTradingAction
    } else if value == XOBJ_EVENT_TICKER_PLANT_FEED_REFRESH {
        Kind::EventTickerPlantFeedRefresh
    } else if value == XOBJ_EVENT_TICKER_PLANT_FEED_UPDATE {
        Kind::EventTickerPlantFeedUpdate
    } else if value == XOBJ_EVENT_TICKER_PLANT_LINE_REFRESH {
        Kind::EventTickerPlantLineRefresh
    } else if value == XOBJ_EVENT_TICKER_PLANT_SOCKET_REFRESH {
        Kind::EventTickerPlantSocketRefresh
    } else if value == XOBJ_EVENT_TICKER_PLANT_CLIENT_REFRESH {
        Kind::EventTickerPlantClientRefresh
    } else if value == XOBJ_EVENT_STATIC_TICKER_PLANT_LINE_REFRESH {
        Kind::EventStaticTickerPlantLineRefresh
    } else if value == XOBJ_EVENT_STATIC_TICKER_PLANT_SOCKET_REFRESH {
        Kind::EventStaticTickerPlantSocketRefresh
    } else if value == XOBJ_EVENT_STATIC_TICKER_PLANT_CLIENT_REFRESH {
        Kind::EventStaticTickerPlantClientRefresh
    } else if value == XOBJ_EVENT_STATIC_TICKER_PLANT_LINE_GAPS_REFRESH {
        Kind::EventStaticTickerPlantLineGapsRefresh
    } else if value == XOBJ_EVENT_DERIVATIVE_REFERENCE_REFRESH {
        Kind::EventDerivativeReferenceRefresh
    } else if value == XOBJ_EVENT_ORDER_ON_BOOK {
        Kind::EventOrderOnBook
    } else if value == XOBJ_EVENT_FXSPOT_REFRESH {
        Kind::EventFxspotRefresh
    } else if value == XOBJ_EVENT_FXSPOT_QUOTE {
        Kind::EventFxspotQuote
    } else if value == XOBJ_EVENT_FXFWD_REFRESH {
        Kind::EventFxfwdRefresh
    } else if value == XOBJ_EVENT_FXFWD_QUOTE {
        Kind::EventFxfwdQuote
    } else if value == XOBJ_EVENT_FXSWAP_REFRESH {
        Kind::EventFxswapRefresh
    } else if value == XOBJ_EVENT_FXSWAP_QUOTE {
        Kind::EventFxswapQuote
    } else if value == XOBJ_EVENT_TICKER_PLANT_SUMMARY_REFRESH {
        Kind::EventTickerPlantSummaryRefresh
    } else if value == XOBJ_EVENT_TICKER_PLANT_LATENCY_REFRESH {
        Kind::EventTickerPlantLatencyRefresh
    } else if value == XOBJ_EVENT_TICKER_PLANT_CLIENTS_RATES_REFRESH {
        Kind::EventTickerPlantClientsRatesRefresh
    } else if value == XOBJ_EVENT_TICKER_PLANT_SUMMARY_RATES_REFRESH {
        Kind::EventTickerPlantSummaryRatesRefresh
    } else if value == XOBJ_EVENT_STATIC_TICKER_PLANT_SUMMARY_REFRESH {
        Kind::EventStaticTickerPlantSummaryRefresh
    } else if value == XOBJ_EVENT_STATIC_TICKER_PLANT_LATENCY_REFRESH {
        Kind::EventStaticTickerPlantLatencyRefresh
    } else if value == XOBJ_EVENT_STATIC_TICKER_PLANT_CLIENTS_RATES_REFRESH {
        Kind::EventStaticTickerPlantClientsRatesRefresh
    } else if value == XOBJ_EVENT_STATIC_TICKER_PLANT_SUMMARY_RATES_REFRESH {
        Kind::EventStaticTickerPlantSummaryRatesRefresh
    } else if value == XOBJ_EVENT_TICKER_PLANT_MWCB_UPDATE {
        Kind::EventTickerPlantMwcbUpdate
    } else if value == XOBJ_EVENT_TICKER_PLANT_SESSIONS_RATES_REFRESH {
        Kind::EventTickerPlantSessionsRatesRefresh
    } else if value == XOBJ_EVENT_STATIC_TICKER_PLANT_SESSIONS_RATES_REFRESH {
        Kind::EventStaticTickerPlantSessionsRatesRefresh
    } else if value == XOBJ_EVENT_TICKER_PLANT_SESSIONS_REFRESH {
        Kind::EventTickerPlantSessionsRefresh
    } else if value == XOBJ_EVENT_STATIC_TICKER_PLANT_SESSIONS_REFRESH {
        Kind::EventStaticTickerPlantSessionsRefresh
    } else if value == XOBJ_EVENT_REQUEST_FOR_QUOTE {
        Kind::EventRequestForQuote
    } else if value == XOBJ_EVENT_INDICATIVE_PRICE {
        Kind::EventIndicativePrice
    } else if value == XOBJ_EVENT_INSTRUMENT_GROUP_REFRESH {
        Kind::EventInstrumentGroupRefresh
    } else if value == XOBJ_EVENT_INSTRUMENT_GROUP_UPDATE {
        Kind::EventInstrumentGroupUpdate
    } else if value == XOBJ_EVENT_SESSION_STATUS {
        Kind::EventSessionStatus
    } else if value == XOBJ_EVENT_FX_REFRESH {
        Kind::EventFxRefresh
    } else if value == XOBJ_EVENT_FX_UPDATE {
        Kind::EventFxUpdate
    } else if value == XOBJ_EVENT_VOLATILITY_REFRESH {
        Kind::EventVolatilityRefresh
    } else if value == XOBJ_EVENT_VOLATILITY_QUOTE_RISK {
        Kind::EventVolatilityQuoteRisk
    } else if value == XOBJ_EVENT_VOLATILITY_TRADE_RISK {
        Kind::EventVolatilityTradeRisk
    } else if value == XOBJ_EVENT_SYMBOL_REFERENCE_REFRESH {
        Kind::EventSymbolReferenceRefresh
    } else if value == XOBJ_EVENT_SIGNAL_STATUS {
        Kind::EventSignalStatus
    } else if value == XOBJ_EVENT_TRADE_SUMMARY {
        Kind::EventTradeSummary
    } else if value == XOBJ_EVENT_EXCHANGE_STATISTICS {
        Kind::EventExchangeStatistics
    } else if value == XOBJ_READWRITE_BASKET_DEFINITION {
        Kind::ReadwriteBasketDefinition
    } else if value == XOBJ_READWRITE_KEYLIST_DEFINITION {
        Kind::ReadwriteKeylistDefinition
    } else if value == XOBJ_READWRITE_KEYLIST_FILTER_DEFINITION {
        Kind::ReadwriteKeylistFilterDefinition
    } else if value == XOBJ_READWRITE_BASKET_CONSTITUENT {
        Kind::ReadwriteBasketConstituent
    } else if value == XOBJ_READWRITE_SIGNUM_PREDICTIVE_DATA {
        Kind::ReadwriteSignumPredictiveData
    } else if value == XOBJ_STATIC_EQUITY_SUMMARY {
        Kind::StaticEquitySummary
    } else if value == XOBJ_STATIC_COMMODITY_SUMMARY {
        Kind::StaticCommoditySummary
    } else if value == XOBJ_STATIC_TICKER_PLANT_LINES {
        Kind::StaticTickerPlantLines
    } else if value == XOBJ_STATIC_TICKER_PLANT_SOCKETS {
        Kind::StaticTickerPlantSockets
    } else if value == XOBJ_STATIC_TICKER_PLANT_CLIENTS {
        Kind::StaticTickerPlantClients
    } else if value == XOBJ_STATIC_TICKER_PLANT_LINE_GAPS {
        Kind::StaticTickerPlantLineGaps
    } else if value == XOBJ_STATIC_TICKER_PLANT_SUMMARY {
        Kind::StaticTickerPlantSummary
    } else if value == XOBJ_STATIC_TICKER_PLANT_LATENCY {
        Kind::StaticTickerPlantLatency
    } else if value == XOBJ_STATIC_TICKER_PLANT_CLIENTS_RATES {
        Kind::StaticTickerPlantClientsRates
    } else if value == XOBJ_STATIC_TICKER_PLANT_SUMMARY_RATES {
        Kind::StaticTickerPlantSummaryRates
    } else if value == XOBJ_STATIC_TICKER_PLANT_SESSIONS {
        Kind::StaticTickerPlantSessions
    } else if value == XOBJ_STATIC_TICKER_PLANT_SESSIONS_RATES {
        Kind::StaticTickerPlantSessionsRates
    } else {
        Kind::Invalid
    }
}

/// The code the native library uses for each object kind.
pub open spec fn spec_code_of(kind: Kind) -> u16 {
    match kind {
        Kind::Invalid => XOBJ_INVALID,
        Kind::SessionTicker => XOBJ_SESSION_TICKER,
        Kind::SessionTickerMonitoring => XOBJ_SESSION_TICKER_MONITORING,
        Kind::RealtimeEquitySummary => XOBJ_REALTIME_EQUITY_SUMMARY,
        Kind::RealtimeExchangeStream => XOBJ_REALTIME_EXCHANGE_STREAM,
        Kind::RealtimeOrderBookSummary => XOBJ_REALTIME_ORDER_BOOK_SUMMARY,
        Kind::RealtimeOrderBookExchangeStream => XOBJ_REALTIME_ORDER_BOOK_EXCHANGE_STREAM,
        Kind::RealtimePriceBookSummary => XOBJ_REALTIME_PRICE_BOOK_SUMMARY,
        Kind::RealtimePriceBookExchangeStream => XOBJ_REALTIME_PRICE_BOOK_EXCHANGE_STREAM,
        Kind::RealtimeBasketSummary => XOBJ_REALTIME_BASKET_SUMMARY,
        Kind::RealtimeBasketCatalog => XOBJ_REALTIME_BASKET_CATALOG,
        Kind::RealtimeKeylistFilter => XOBJ_REALTIME_KEYLIST_FILTER,
        Kind::RealtimeKeylistCatalog => XOBJ_REALTIME_KEYLIST_CATALOG,
        Kind::RealtimeCommoditySummary => XOBJ_REALTIME_COMMODITY_SUMMARY,
        Kind::RealtimeEquityStream => XOBJ_REALTIME_EQUITY_STREAM,
        Kind::RealtimeCommodityStream => XOBJ_REALTIME_COMMODITY_STREAM,
        Kind::RealtimeOrderBookStream => XOBJ_REALTIME_ORDER_BOOK_STREAM,
        Kind::RealtimePriceBookStream => XOBJ_REALTIME_PRICE_BOOK_STREAM,
        Kind::RealtimeTickerPlantFeeds => XOBJ_REALTIME_TICKER_PLANT_FEEDS,
        Kind::RealtimeTickerPlantLines => XOBJ_REALTIME_TICKER_PLANT_LINES,
        Kind::RealtimeTickerPlantSockets => XOBJ_REALTIME_TICKER_PLANT_SOCKETS,
        Kind::RealtimeTickerPlantClients => XOBJ_REALTIME_TICKER_PLANT_CLIENTS,
        Kind::RealtimeDerivativeReferenceSummary => XOBJ_REALTIME_DERIVATIVE_REFERENCE_SUMMARY,
        Kind::RealtimeDerivativeReferenceExchangeStream => XOBJ_REALTIME_DERIVATIVE_REFERENCE_EXCHANGE_STREAM,
        Kind::RealtimeFxspotStream => XOBJ_REALTIME_FXSPOT_STREAM,
        Kind::RealtimeFxforwardStream => XOBJ_REALTIME_FXFORWARD_STREAM,
        Kind::RealtimeFxswapStream => XOBJ_REALTIME_FXSWAP_STREAM,
        Kind::RealtimeTickerPlantSummary => XOBJ_REALTIME_TICKER_PLANT_SUMMARY,
        Kind::RealtimeTickerPlantLatency => XOBJ_REALTIME_TICKER_PLANT_LATENCY,
        Kind::RealtimeTickerPlantClientsRates => XOBJ_REALTIME_TICKER_PLANT_CLIENTS_RATES,
        Kind::RealtimeTickerPlantSummaryRates => XOBJ_REALTIME_TICKER_PLANT_SUMMARY_RATES,
        Kind::RealtimeTickerPlantSessions => XOBJ_REALTIME_TICKER_PLANT_SESSIONS,
        Kind::RealtimeTickerPlantSessionsRates => XOBJ_REALTIME_TICKER_PLANT_SESSIONS_RATES,
        Kind::RealtimeInstrumentGroupSummary => XOBJ_REALTIME_INSTRUMENT_GROUP_SUMMARY,
        Kind::RealtimeFxSummary => XOBJ_REALTIME_FX_SUMMARY,
        Kind::RealtimeFxStream => XOBJ_REALTIME_FX_STREAM,
        Kind::RealtimeVolatilitySummary => XOBJ_REALTIME_VOLATILITY_SUMMARY,
        Kind::RealtimeSymbolReferenceSummary => XOBJ_REALTIME_SYMBOL_REFERENCE_SUMMARY,
        Kind::WriteonlyEquityInstrument => XOBJ_WRITEONLY_EQUITY_INSTRUMENT,
        Kind::WriteonlyCommodityInstrument => XOBJ_WRITEONLY_COMMODITY_INSTRUMENT,
        Kind::WriteonlyLevel2Instrument => XOBJ_WRITEONLY_LEVEL2_INSTRUMENT,
        Kind::WriteonlyKeylistEdit => XOBJ_WRITEONLY_KEYLIST_EDIT,
        Kind::EventSubscribe => XOBJ_EVENT_SUBSCRIBE,
        Kind::EventSnapshot => XOBJ_EVENT_SNAPSHOT,
        Kind::EventEquityTrade => XOBJ_EVENT_EQUITY_TRADE,
        Kind::EventEquityQuote => XOBJ_EVENT_EQUITY_QUOTE,
        Kind::EventEquityRefresh => XOBJ_EVENT_EQUITY_REFRESH,
        Kind::EventEquityCancel => XOBJ_EVENT_EQUITY_CANCEL,
        Kind::EventEquityCorrection => XOBJ_EVENT_EQUITY_CORRECTION,
        Kind::EventOrderBookRefreshBid => XOBJ_EVENT_ORDER_BOOK_REFRESH_BID,
        Kind::EventOrderBookRefreshAsk => XOBJ_EVENT_ORDER_BOOK_REFRESH_ASK,
        Kind::EventOrderBookUpdate => XOBJ_EVENT_ORDER_BOOK_UPDATE,
        Kind::EventPriceBookRefreshBid => XOBJ_EVENT_PRICE_BOOK_REFRESH_BID,
        Kind::EventPriceBookRefreshAsk => XOBJ_EVENT_PRICE_BOOK_REFRESH_ASK,
        Kind::EventPriceBookUpdate => XOBJ_EVENT_PRICE_BOOK_UPDATE,
        Kind::EventCommodityRefresh => XOBJ_EVENT_COMMODITY_REFRESH,
        Kind::EventCommodityTrade => XOBJ_EVENT_COMMODITY_TRADE,
        Kind::EventCommodityQuote => XOBJ_EVENT_COMMODITY_QUOTE,
        Kind::EventCommodityCancel => XOBJ_EVENT_COMMODITY_CANCEL,
        Kind::EventCommodityCorrection => XOBJ_EVENT_COMMODITY_CORRECTION,
        Kind::EventNavUpdate => XOBJ_EVENT_NAV_UPDATE,
        Kind::EventBasketCatalogRefresh => XOBJ_EVENT_BASKET_CATALOG_REFRESH,
        Kind::EventBasketCatalogUpdate => XOBJ_EVENT_BASKET_CATALOG_UPDATE,
        Kind::EventBasketDefnRefresh => XOBJ_EVENT_BASKET_DEFN_REFRESH,
        Kind::EventBasketDefnStatus => XOBJ_EVENT_BASKET_DEFN_STATUS,
        Kind::EventBasketConstituentUpdateStatus => XOBJ_EVENT_BASKET_CONSTITUENT_UPDATE_STATUS,
        Kind::EventBasketConstituentRefresh => XOBJ_EVENT_BASKET_CONSTITUENT_REFRESH,
        Kind::EventStaticEquityRefresh => XOBJ_EVENT_STATIC_EQUITY_REFRESH,
        Kind::EventStaticCommodityRefresh => XOBJ_EVENT_STATIC_COMMODITY_REFRESH,
        Kind::EventBasketDefnDelete => XOBJ_EVENT_BASKET_DEFN_DELETE,
        Kind::EventKeylistDefnStatus => XOBJ_EVENT_KEYLIST_DEFN_STATUS,
        Kind::EventKeylistDefnRefresh => XOBJ_EVENT_KEYLIST_DEFN_REFRESH,
        Kind::EventKeylistDefnDelete => XOBJ_EVENT_KEYLIST_DEFN_DELETE,
        Kind::EventKeylistFilterDefnStatus => XOBJ_EVENT_KEYLIST_FILTER_DEFN_STATUS,
        Kind::EventKeylistFilterDefnRefresh => XOBJ_EVENT_KEYLIST_FILTER_DEFN_REFRESH,
        Kind::EventKeylistFilterDefnDelete => XOBJ_EVENT_KEYLIST_FILTER_DEFN_DELETE,
        Kind::EventKeylistFilterMatchStart => XOBJ_EVENT_KEYLIST_FILTER_MATCH_START,
        Kind::EventKeylistFilterMatchEnd => XOBJ_EVENT_KEYLIST_FILTER_MATCH_END,
        Kind::EventKeylistFilterMatch => XOBJ_EVENT_KEYLIST_FILTER_MATCH,
        Kind::EventKeylistFilterMatchRemove => XOBJ_EVENT_KEYLIST_FILTER_MATCH_REMOVE,
        Kind::EventKeylistCatalogRefresh => XOBJ_EVENT_KEYLIST_CATALOG_REFRESH,
        Kind::EventKeylistCatalogUpdate => XOBJ_EVENT_KEYLIST_CATALOG_UPDATE,
        Kind::EventInstrumentUpdateStatus => XOBJ_EVENT_INSTRUMENT_UPDATE_STATUS,
        Kind::EventSignumPredictiveDataRefresh => XOBJ_EVENT_SIGNUM_PREDICTIVE_DATA_REFRESH,
        Kind::EventSignumPredictiveDataStatus => XOBJ_EVENT_SIGNUM_PREDICTIVE_DATA_STATUS,
        Kind::EventOrderExecution => XOBJ_EVENT_ORDER_EXECUTION,
        Kind::EventOrderImbalance => XOBJ_EVENT_ORDER_IMBALANCE,
        Kind::EventMarketDirectory => XOBJ_EVENT_MARKET_DIRECTORY,
        Kind::EventTradingAction => XOBJ_EVENT_TRADING_ACTION,
        Kind::EventTickerPlantFeedRefresh => XOBJ_EVENT_TICKER_PLANT_FEED_REFRESH,
        Kind::EventTickerPlantFeedUpdate => XOBJ_EVENT_TICKER_PLANT_FEED_UPDATE,
        Kind::EventTickerPlantLineRefresh => XOBJ_EVENT_TICKER_PLANT_LINE_REFRESH,
        Kind::EventTickerPlantSocketRefresh => XOBJ_EVENT_TICKER_PLANT_SOCKET_REFRESH,
        Kind::EventTickerPlantClientRefresh => XOBJ_EVENT_TICKER_PLANT_CLIENT_REFRESH,
        Kind::EventStaticTickerPlantLineRefresh => XOBJ_EVENT_STATIC_TICKER_PLANT_LINE_REFRESH,
        Kind::EventStaticTickerPlantSocketRefresh => XOBJ_EVENT_STATIC_TICKER_PLANT_SOCKET_REFRESH,
        Kind::EventStaticTickerPlantClientRefresh => XOBJ_EVENT_STATIC_TICKER_PLANT_CLIENT_REFRESH,
        Kind::EventStaticTickerPlantLineGapsRefresh => XOBJ_EVENT_STATIC_TICKER_PLANT_LINE_GAPS_REFRESH,
        Kind::EventDerivativeReferenceRefresh => XOBJ_EVENT_DERIVATIVE_REFERENCE_REFRESH,
        Kind::EventOrderOnBook => XOBJ_EVENT_ORDER_ON_BOOK,
        Kind::EventFxspotRefresh => XOBJ_EVENT_FXSPOT_REFRESH,
        Kind::EventFxspotQuote => XOBJ_EVENT_FXSPOT_QUOTE,
        Kind::EventFxfwdRefresh => XOBJ_EVENT_FXFWD_REFRESH,
        Kind::EventFxfwdQuote => XOBJ_EVENT_FXFWD_QUOTE,
        Kind::EventFxswapRefresh => XOBJ_EVENT_FXSWAP_REFRESH,
        Kind::EventFxswapQuote => XOBJ_EVENT_FXSWAP_QUOTE,
        Kind::EventTickerPlantSummaryRefresh => XOBJ_EVENT_TICKER_PLANT_SUMMARY_REFRESH,
        Kind::EventTickerPlantLatencyRefresh => XOBJ_EVENT_TICKER_PLANT_LATENCY_REFRESH,
        Kind::EventTickerPlantClientsRatesRefresh => XOBJ_EVENT_TICKER_PLANT_CLIENTS_RATES_REFRESH,
        Kind::EventTickerPlantSummaryRatesRefresh => XOBJ_EVENT_TICKER_PLANT_SUMMARY_RATES_REFRESH,
        Kind::EventStaticTickerPlantSummaryRefresh => XOBJ_EVENT_STATIC_TICKER_PLANT_SUMMARY_REFRESH,
        Kind::EventStaticTickerPlantLatencyRefresh => XOBJ_EVENT_STATIC_TICKER_PLANT_LATENCY_REFRESH,
        Kind::EventStaticTickerPlantClientsRatesRefresh => XOBJ_EVENT_STATIC_TICKER_PLANT_CLIENTS_RATES_REFRESH,
        Kind::EventStaticTickerPlantSummaryRatesRefresh => XOBJ_EVENT_STATIC_TICKER_PLANT_SUMMARY_RATES_REFRESH,
        Kind::EventTickerPlantMwcbUpdate => XOBJ_EVENT_TICKER_PLANT_MWCB_UPDATE,
        Kind::EventTickerPlantSessionsRatesRefresh => XOBJ_EVENT_TICKER_PLANT_SESSIONS_RATES_REFRESH,
        Kind::EventStaticTickerPlantSessionsRatesRefresh => XOBJ_EVENT_STATIC_TICKER_PLANT_SESSIONS_RATES_REFRESH,
        Kind::EventTickerPlantSessionsRefresh => XOBJ_EVENT_TICKER_PLANT_SESSIONS_REFRESH,
        Kind::EventStaticTickerPlantSessionsRefresh => XOBJ_EVENT_STATIC_TICKER_PLANT_SESSIONS_REFRESH,
        Kind::EventRequestForQuote => XOBJ_EVENT_REQUEST_FOR_QUOTE,
        Kind::EventIndicativePrice => XOBJ_EVENT_INDICATIVE_PRICE,
        Kind::EventInstrumentGroupRefresh => XOBJ_EVENT_INSTRUMENT_GROUP_REFRESH,
        Kind::EventInstrumentGroupUpdate => XOBJ_EVENT_INSTRUMENT_GROUP_UPDATE,
        Kind::EventSessionStatus => XOBJ_EVENT_SESSION_STATUS,
        Kind::EventFxRefresh => XOBJ_EVENT_FX_REFRESH,
        Kind::EventFxUpdate => XOBJ_EVENT_FX_UPDATE,
        Kind::EventVolatilityRefresh => XOBJ_EVENT_VOLATILITY_REFRESH,
        Kind::EventVolatilityQuoteRisk => XOBJ_EVENT_VOLATILITY_QUOTE_RISK,
        Kind::EventVolatilityTradeRisk => XOBJ_EVENT_VOLATILITY_TRADE_RISK,
        Kind::EventSymbolReferenceRefresh => XOBJ_EVENT_SYMBOL_REFERENCE_REFRESH,
        Kind::EventSignalStatus => XOBJ_EVENT_SIGNAL_STATUS,
        Kind::EventTradeSummary => XOBJ_EVENT_TRADE_SUMMARY,
        Kind::EventExchangeStatistics => XOBJ_EVENT_EXCHANGE_STATISTICS,
        Kind::ReadwriteBasketDefinition => XOBJ_READWRITE_BASKET_DEFINITION,
        Kind::ReadwriteKeylistDefinition => XOBJ_READWRITE_KEYLIST_DEFINITION,
        Kind::ReadwriteKeylistFilterDefinition => XOBJ_READWRITE_KEYLIST_FILTER_DEFINITION,
        Kind::ReadwriteBasketConstituent => XOBJ_READWRITE_BASKET_CONSTITUENT,
        Kind::ReadwriteSignumPredictiveData => XOBJ_READWRITE_SIGNUM_PREDICTIVE_DATA,
        Kind::StaticEquitySummary => XOBJ_STATIC_EQUITY_SUMMARY,
        Kind::StaticCommoditySummary => XOBJ_STATIC_COMMODITY_SUMMARY,
        Kind::StaticTickerPlantLines => XOBJ_STATIC_TICKER_PLANT_LINES,
        Kind::StaticTickerPlantSockets => XOBJ_STATIC_TICKER_PLANT_SOCKETS,
        Kind::StaticTickerPlantClients => XOBJ_STATIC_TICKER_PLANT_CLIENTS,
        Kind::StaticTickerPlantLineGaps => XOBJ_STATIC_TICKER_PLANT_LINE_GAPS,
        Kind::StaticTickerPlantSummary => XOBJ_STATIC_TICKER_PLANT_SUMMARY,
        Kind::StaticTickerPlantLatency => XOBJ_STATIC_TICKER_PLANT_LATENCY,
        Kind::StaticTickerPlantClientsRates => XOBJ_STATIC_TICKER_PLANT_CLIENTS_RATES,
        Kind::StaticTickerPlantSummaryRates => XOBJ_STATIC_TICKER_PLANT_SUMMARY_RATES,
        Kind::StaticTickerPlantSessions => XOBJ_STATIC_TICKER_PLANT_SESSIONS,
        Kind::StaticTickerPlantSessionsRates => XOBJ_STATIC_TICKER_PLANT_SESSIONS_RATES,
    }
}

impl Kind {
    /// Decode a raw object-kind code; codes outside the table decode to
    /// [`Kind::Invalid`] rather than faulting.
    pub fn from_u16(value: u16) -> (r: Kind)
        ensures
            r == spec_kind_of(value),
    {
        if value == XOBJ_INVALID {
            Kind::Invalid
        } else if value == XOBJ_SESSION_TICKER {
            Kind::SessionTicker
        } else if value == XOBJ_SESSION_TICKER_MONITORING {
            Kind::SessionTickerMonitoring
        } else if value == XOBJ_REALTIME_EQUITY_SUMMARY {
            Kind::RealtimeEquitySummary
        } else if value == XOBJ_REALTIME_EXCHANGE_STREAM {
            Kind::RealtimeExchangeStream
        } else if value == XOBJ_REALTIME_ORDER_BOOK_SUMMARY {
            Kind::RealtimeOrderBookSummary
        } else if value == XOBJ_REALTIME_ORDER_BOOK_EXCHANGE_STREAM {
            Kind::RealtimeOrderBookExchangeStream
        } else if value == XOBJ_REALTIME_PRICE_BOOK_SUMMARY {
            Kind::RealtimePriceBookSummary
        } else if value == XOBJ_REALTIME_PRICE_BOOK_EXCHANGE_STREAM {
            Kind::RealtimePriceBookExchangeStream
        } else if value == XOBJ_REALTIME_BASKET_SUMMARY {
            Kind::RealtimeBasketSummary
        } else if value == XOBJ_REALTIME_BASKET_CATALOG {
            Kind::RealtimeBasketCatalog
        } else if value == XOBJ_REALTIME_KEYLIST_FILTER {
            Kind::RealtimeKeylistFilter
        } else if value == XOBJ_REALTIME_KEYLIST_CATALOG {
            Kind::RealtimeKeylistCatalog
        } else if value == XOBJ_REALTIME_COMMODITY_SUMMARY {
            Kind::RealtimeCommoditySummary
        } else if value == XOBJ_REALTIME_EQUITY_STREAM {
            Kind::RealtimeEquityStream
        } else if value == XOBJ_REALTIME_COMMODITY_STREAM {
            Kind::RealtimeCommodityStream
        } else if value == XOBJ_REALTIME_ORDER_BOOK_STREAM {
            Kind::RealtimeOrderBookStream
        } else if value == XOBJ_REALTIME_PRICE_BOOK_STREAM {
            Kind::RealtimePriceBookStream
        } else if value == XOBJ_REALTIME_TICKER_PLANT_FEEDS {
            Kind::RealtimeTickerPlantFeeds
        } else if value == XOBJ_REALTIME_TICKER_PLANT_LINES {
            Kind::RealtimeTickerPlantLines
        } else if value == XOBJ_REALTIME_TICKER_PLANT_SOCKETS {
            Kind::RealtimeTickerPlantSockets
        } else if value == XOBJ_REALTIME_TICKER_PLANT_CLIENTS {
            Kind::RealtimeTickerPlantClients
        } else if value == XOBJ_REALTIME_DERIVATIVE_REFERENCE_SUMMARY {
            Kind::RealtimeDerivativeReferenceSummary
        } else if value == XOBJ_REALTIME_DERIVATIVE_REFERENCE_EXCHANGE_STREAM {
            Kind::RealtimeDerivativeReferenceExchangeStream
        } else if value == XOBJ_REALTIME_FXSPOT_STREAM {
            Kind::RealtimeFxspotStream
        } else if value == XOBJ_REALTIME_FXFORWARD_STREAM {
            Kind::RealtimeFxforwardStream
        } else if value == XOBJ_REALTIME_FXSWAP_STREAM {
            Kind::RealtimeFxswapStream
        } else if value == XOBJ_REALTIME_TICKER_PLANT_SUMMARY {
            Kind::RealtimeTickerPlantSummary
        } else if value == XOBJ_REALTIME_TICKER_PLANT_LATENCY {
            Kind::RealtimeTickerPlantLatency
        } else if value == XOBJ_REALTIME_TICKER_PLANT_CLIENTS_RATES {
            Kind::RealtimeTickerPlantClientsRates
        } else if value == XOBJ_REALTIME_TICKER_PLANT_SUMMARY_RATES {
            Kind::RealtimeTickerPlantSummaryRates
        } else if value == XOBJ_REALTIME_TICKER_PLANT_SESSIONS {
            Kind::RealtimeTickerPlantSessions
        } else if value == XOBJ_REALTIME_TICKER_PLANT_SESSIONS_RATES {
            Kind::RealtimeTickerPlantSessionsRates
        } else if value == XOBJ_REALTIME_INSTRUMENT_GROUP_SUMMARY {
            Kind::RealtimeInstrumentGroupSummary
        } else if value == XOBJ_REALTIME_FX_SUMMARY {
            Kind::RealtimeFxSummary
        } else if value == XOBJ_REALTIME_FX_STREAM {
            Kind::RealtimeFxStream
        } else if value == XOBJ_REALTIME_VOLATILITY_SUMMARY {
            Kind::RealtimeVolatilitySummary
        } else if value == XOBJ_REALTIME_SYMBOL_REFERENCE_SUMMARY {
            Kind::RealtimeSymbolReferenceSummary
        } else if value == XOBJ_WRITEONLY_EQUITY_INSTRUMENT {
            Kind::WriteonlyEquityInstrument
        } else if value == XOBJ_WRITEONLY_COMMODITY_INSTRUMENT {
            Kind::WriteonlyCommodityInstrument
        } else if value == XOBJ_WRITEONLY_LEVEL2_INSTRUMENT {
            Kind::WriteonlyLevel2Instrument
        } else if value == XOBJ_WRITEONLY_KEYLIST_EDIT {
            Kind::WriteonlyKeylistEdit
        } else if value == XOBJ_EVENT_SUBSCRIBE {
            Kind::EventSubscribe
        } else if value == XOBJ_EVENT_SNAPSHOT {
            Kind::EventSnapshot
        } else if value == XOBJ_EVENT_EQUITY_TRADE {
            Kind::EventEquityTrade
        } else if value == XOBJ_EVENT_EQUITY_QUOTE {
            Kind::EventEquityQuote
        } else if value == XOBJ_EVENT_EQUITY_REFRESH {
            Kind::EventEquityRefresh
        } else if value == XOBJ_EVENT_EQUITY_CANCEL {
            Kind::EventEquityCancel
        } else if value == XOBJ_EVENT_EQUITY_CORRECTION {
            Kind::EventEquityCorrection
        } else if value == XOBJ_EVENT_ORDER_BOOK_REFRESH_BID {
            Kind::EventOrderBookRefreshBid
        } else if value == XOBJ_EVENT_ORDER_BOOK_REFRESH_ASK {
            Kind::EventOrderBookRefreshAsk
        } else if value == XOBJ_EVENT_ORDER_BOOK_UPDATE {
            Kind::EventOrderBookUpdate
        } else if value == XOBJ_EVENT_PRICE_BOOK_REFRESH_BID {
            Kind::EventPriceBookRefreshBid
        } else if value == XOBJ_EVENT_PRICE_BOOK_REFRESH_ASK {
            Kind::EventPriceBookRefreshAsk
        } else if value == XOBJ_EVENT_PRICE_BOOK_UPDATE {
            Kind::EventPriceBookUpdate
        } else if value == XOBJ_EVENT_COMMODITY_REFRESH {
            Kind::EventCommodityRefresh
        } else if value == XOBJ_EVENT_COMMODITY_TRADE {
            Kind::EventCommodityTrade
        } else if value == XOBJ_EVENT_COMMODITY_QUOTE {
            Kind::EventCommodityQuote
        } else if value == XOBJ_EVENT_COMMODITY_CANCEL {
            Kind::EventCommodityCancel
        } else if value == XOBJ_EVENT_COMMODITY_CORRECTION {
            Kind::EventCommodityCorrection
        } else if value == XOBJ_EVENT_NAV_UPDATE {
            Kind::EventNavUpdate
        } else if value == XOBJ_EVENT_BASKET_CATALOG_REFRESH {
            Kind::EventBasketCatalogRefresh
        } else if value == XOBJ_EVENT_BASKET_CATALOG_UPDATE {
            Kind::EventBasketCatalogUpdate
        } else if value == XOBJ_EVENT_BASKET_DEFN_REFRESH {
            Kind::EventBasketDefnRefresh
        } else if value == XOBJ_EVENT_BASKET_DEFN_STATUS {
            Kind::EventBasketDefnStatus
        } else if value == XOBJ_EVENT_BASKET_CONSTITUENT_UPDATE_STATUS {
            Kind::EventBasketConstituentUpdateStatus
        } else if value == XOBJ_EVENT_BASKET_CONSTITUENT_REFRESH {
            Kind::EventBasketConstituentRefresh
        } else if value == XOBJ_EVENT_STATIC_EQUITY_REFRESH {
            Kind::EventStaticEquityRefresh
        } else if value == XOBJ_EVENT_STATIC_COMMODITY_REFRESH {
            Kind::EventStaticCommodityRefresh
        } else if value == XOBJ_EVENT_BASKET_DEFN_DELETE {
            Kind::EventBasketDefnDelete
        } else if value == XOBJ_EVENT_KEYLIST_DEFN_STATUS {
            Kind::EventKeylistDefnStatus
        } else if value == XOBJ_EVENT_KEYLIST_DEFN_REFRESH {
            Kind::EventKeylistDefnRefresh
        } else if value == XOBJ_EVENT_KEYLIST_DEFN_DELETE {
            Kind::EventKeylistDefnDelete
        } else if value == XOBJ_EVENT_KEYLIST_FILTER_DEFN_STATUS {
            Kind::EventKeylistFilterDefnStatus
        } else if value == XOBJ_EVENT_KEYLIST_FILTER_DEFN_REFRESH {
            Kind::EventKeylistFilterDefnRefresh
        } else if value == XOBJ_EVENT_KEYLIST_FILTER_DEFN_DELETE {
            Kind::EventKeylistFilterDefnDelete
        } else if value == XOBJ_EVENT_KEYLIST_FILTER_MATCH_START {
            Kind::EventKeylistFilterMatchStart
        } else if value == XOBJ_EVENT_KEYLIST_FILTER_MATCH_END {
            Kind::EventKeylistFilterMatchEnd
        } else if value == XOBJ_EVENT_KEYLIST_FILTER_MATCH {
            Kind::EventKeylistFilterMatch
        } else if value == XOBJ_EVENT_KEYLIST_FILTER_MATCH_REMOVE {
            Kind::EventKeylistFilterMatchRemove
        } else if value == XOBJ_EVENT_KEYLIST_CATALOG_REFRESH {
            Kind::EventKeylistCatalogRefresh
        } else if value == XOBJ_EVENT_KEYLIST_CATALOG_UPDATE {
            Kind::EventKeylistCatalogUpdate
        } else if value == XOBJ_EVENT_INSTRUMENT_UPDATE_STATUS {
            Kind::EventInstrumentUpdateStatus
        } else if value == XOBJ_EVENT_SIGNUM_PREDICTIVE_DATA_REFRESH {
            Kind::EventSignumPredictiveDataRefresh
        } else if value == XOBJ_EVENT_SIGNUM_PREDICTIVE_DATA_STATUS {
            Kind::EventSignumPredictiveDataStatus
        } else if value == XOBJ_EVENT_ORDER_EXECUTION {
            Kind::EventOrderExecution
        } else if value == XOBJ_EVENT_ORDER_IMBALANCE {
            Kind::EventOrderImbalance
        } else if value == XOBJ_EVENT_MARKET_DIRECTORY {
            Kind::EventMarketDirectory
        } else if value == XOBJ_EVENT_TRADING_ACTION {
            Kind::EventTradingAction
        } else if value == XOBJ_EVENT_TICKER_PLANT_FEED_REFRESH {
            Kind::EventTickerPlantFeedRefresh
        } else if value == XOBJ_EVENT_TICKER_PLANT_FEED_UPDATE {
            Kind::EventTickerPlantFeedUpdate
        } else if value == XOBJ_EVENT_TICKER_PLANT_LINE_REFRESH {
            Kind::EventTickerPlantLineRefresh
        } else if value == XOBJ_EVENT_TICKER_PLANT_SOCKET_REFRESH {
            Kind::EventTickerPlantSocketRefresh
        } else if value == XOBJ_EVENT_TICKER_PLANT_CLIENT_REFRESH {
            Kind::EventTickerPlantClientRefresh
        } else if value == XOBJ_EVENT_STATIC_TICKER_PLANT_LINE_REFRESH {
            Kind::EventStaticTickerPlantLineRefresh
        } else if value == XOBJ_EVENT_STATIC_TICKER_PLANT_SOCKET_REFRESH {
            Kind::EventStaticTickerPlantSocketRefresh
        } else if value == XOBJ_EVENT_STATIC_TICKER_PLANT_CLIENT_REFRESH {
            Kind::EventStaticTickerPlantClientRefresh
        } else if value == XOBJ_EVENT_STATIC_TICKER_PLANT_LINE_GAPS_REFRESH {
            Kind::EventStaticTickerPlantLineGapsRefresh
        } else if value == XOBJ_EVENT_DERIVATIVE_REFERENCE_REFRESH {
            Kind::EventDerivativeReferenceRefresh
        } else if value == XOBJ_EVENT_ORDER_ON_BOOK {
            Kind::EventOrderOnBook
        } else if value == XOBJ_EVENT_FXSPOT_REFRESH {
            Kind::EventFxspotRefresh
        } else if value == XOBJ_EVENT_FXSPOT_QUOTE {
            Kind::EventFxspotQuote
        } else if value == XOBJ_EVENT_FXFWD_REFRESH {
            Kind::EventFxfwdRefresh
        } else if value == XOBJ_EVENT_FXFWD_QUOTE {
            Kind::EventFxfwdQuote
        } else if value == XOBJ_EVENT_FXSWAP_REFRESH {
            Kind::EventFxswapRefresh
        } else if value == XOBJ_EVENT_FXSWAP_QUOTE {
            Kind::EventFxswapQuote
        } else if value == XOBJ_EVENT_TICKER_PLANT_SUMMARY_REFRESH {
            Kind::EventTickerPlantSummaryRefresh
        } else if value == XOBJ_EVENT_TICKER_PLANT_LATENCY_REFRESH {
            Kind::EventTickerPlantLatencyRefresh
        } else if value == XOBJ_EVENT_TICKER_PLANT_CLIENTS_RATES_REFRESH {
            Kind::EventTickerPlantClientsRatesRefresh
        } else if value == XOBJ_EVENT_TICKER_PLANT_SUMMARY_RATES_REFRESH {
            Kind::EventTickerPlantSummaryRatesRefresh
        } else if value == XOBJ_EVENT_STATIC_TICKER_PLANT_SUMMARY_REFRESH {
            Kind::EventStaticTickerPlantSummaryRefresh
        } else if value == XOBJ_EVENT_STATIC_TICKER_PLANT_LATENCY_REFRESH {
            Kind::EventStaticTickerPlantLatencyRefresh
        } else if value == XOBJ_EVENT_STATIC_TICKER_PLANT_CLIENTS_RATES_REFRESH {
            Kind::EventStaticTickerPlantClientsRatesRefresh
        } else if value == XOBJ_EVENT_STATIC_TICKER_PLANT_SUMMARY_RATES_REFRESH {
            Kind::EventStaticTickerPlantSummaryRatesRefresh
        } else if value == XOBJ_EVENT_TICKER_PLANT_MWCB_UPDATE {
            Kind::EventTickerPlantMwcbUpdate
        } else if value == XOBJ_EVENT_TICKER_PLANT_SESSIONS_RATES_REFRESH {
            Kind::EventTickerPlantSessionsRatesRefresh
        } else if value == XOBJ_EVENT_STATIC_TICKER_PLANT_SESSIONS_RATES_REFRESH {
            Kind::EventStaticTickerPlantSessionsRatesRefresh
        } else if value == XOBJ_EVENT_TICKER_PLANT_SESSIONS_REFRESH {
            Kind::EventTickerPlantSessionsRefresh
        } else if value == XOBJ_EVENT_STATIC_TICKER_PLANT_SESSIONS_REFRESH {
            Kind::EventStaticTickerPlantSessionsRefresh
        } else if value == XOBJ_EVENT_REQUEST_FOR_QUOTE {
            Kind::EventRequestForQuote
        } else if value == XOBJ_EVENT_INDICATIVE_PRICE {
            Kind::EventIndicativePrice
        } else if value == XOBJ_EVENT_INSTRUMENT_GROUP_REFRESH {
            Kind::EventInstrumentGroupRefresh
        } else if value == XOBJ_EVENT_INSTRUMENT_GROUP_UPDATE {
            Kind::EventInstrumentGroupUpdate
        } else if value == XOBJ_EVENT_SESSION_STATUS {
            Kind::EventSessionStatus
        } else if value == XOBJ_EVENT_FX_REFRESH {
            Kind::EventFxRefresh
        } else if value == XOBJ_EVENT_FX_UPDATE {
            Kind::EventFxUpdate
        } else if value == XOBJ_EVENT_VOLATILITY_REFRESH {
            Kind::EventVolatilityRefresh
        } else if value == XOBJ_EVENT_VOLATILITY_QUOTE_RISK {
            Kind::EventVolatilityQuoteRisk
        } else if value == XOBJ_EVENT_VOLATILITY_TRADE_RISK {
            Kind::EventVolatilityTradeRisk
        } else if value == XOBJ_EVENT_SYMBOL_REFERENCE_REFRESH {
            Kind::EventSymbolReferenceRefresh
        } else if value == XOBJ_EVENT_SIGNAL_STATUS {
            Kind::EventSignalStatus
        } else if value == XOBJ_EVENT_TRADE_SUMMARY {
            Kind::EventTradeSummary
        } else if value == XOBJ_EVENT_EXCHANGE_STATISTICS {
            Kind::EventExchangeStatistics
        } else if value == XOBJ_READWRITE_BASKET_DEFINITION {
            Kind::ReadwriteBasketDefinition
        } else if value == XOBJ_READWRITE_KEYLIST_DEFINITION {
            Kind::ReadwriteKeylistDefinition
        } else if value == XOBJ_READWRITE_KEYLIST_FILTER_DEFINITION {
            Kind::ReadwriteKeylistFilterDefinition
        } else if value == XOBJ_READWRITE_BASKET_CONSTITUENT {
            Kind::ReadwriteBasketConstituent
        } else if value == XOBJ_READWRITE_SIGNUM_PREDICTIVE_DATA {
            Kind::ReadwriteSignumPredictiveData
        } else if value == XOBJ_STATIC_EQUITY_SUMMARY {
            Kind::StaticEquitySummary
        } else if value == XOBJ_STATIC_COMMODITY_SUMMARY {
            Kind::StaticCommoditySummary
        } else if value == XOBJ_STATIC_TICKER_PLANT_LINES {
            Kind::StaticTickerPlantLines
        } else if value == XOBJ_STATIC_TICKER_PLANT_SOCKETS {
            Kind::StaticTickerPlantSockets
        } else if value == XOBJ_STATIC_TICKER_PLANT_CLIENTS {
            Kind::StaticTickerPlantClients
        } else if value == XOBJ_STATIC_TICKER_PLANT_LINE_GAPS {
            Kind::StaticTickerPlantLineGaps
        } else if value == XOBJ_STATIC_TICKER_PLANT_SUMMARY {
            Kind::StaticTickerPlantSummary
        } else if value == XOBJ_STATIC_TICKER_PLANT_LATENCY {
            Kind::StaticTickerPlantLatency
        } else if value == XOBJ_STATIC_TICKER_PLANT_CLIENTS_RATES {
            Kind::StaticTickerPlantClientsRates
        } else if value == XOBJ_STATIC_TICKER_PLANT_SUMMARY_RATES {
            Kind::StaticTickerPlantSummaryRates
        } else if value == XOBJ_STATIC_TICKER_PLANT_SESSIONS {
            Kind::StaticTickerPlantSessions
        } else if value == XOBJ_STATIC_TICKER_PLANT_SESSIONS_RATES {
            Kind::StaticTickerPlantSessionsRates
        } else {
            Kind::Invalid
        }
    }

    /// The raw code for this kind, as passed to and reported by the
    /// native library.
    pub fn to_u16(self) -> (r: u16)
        ensures
            r == spec_code_of(self),
    {
        match self {
            Kind::Invalid => XOBJ_INVALID,
            Kind::SessionTicker => XOBJ_SESSION_TICKER,
            Kind::SessionTickerMonitoring => XOBJ_SESSION_TICKER_MONITORING,
            Kind::RealtimeEquitySummary => XOBJ_REALTIME_EQUITY_SUMMARY,
            Kind::RealtimeExchangeStream => XOBJ_REALTIME_EXCHANGE_STREAM,
            Kind::RealtimeOrderBookSummary => XOBJ_REALTIME_ORDER_BOOK_SUMMARY,
            Kind::RealtimeOrderBookExchangeStream => XOBJ_REALTIME_ORDER_BOOK_EXCHANGE_STREAM,
            Kind::RealtimePriceBookSummary => XOBJ_REALTIME_PRICE_BOOK_SUMMARY,
            Kind::RealtimePriceBookExchangeStream => XOBJ_REALTIME_PRICE_BOOK_EXCHANGE_STREAM,
            Kind::RealtimeBasketSummary => XOBJ_REALTIME_BASKET_SUMMARY,
            Kind::RealtimeBasketCatalog => XOBJ_REALTIME_BASKET_CATALOG,
            Kind::RealtimeKeylistFilter => XOBJ_REALTIME_KEYLIST_FILTER,
            Kind::RealtimeKeylistCatalog => XOBJ_REALTIME_KEYLIST_CATALOG,
            Kind::RealtimeCommoditySummary => XOBJ_REALTIME_COMMODITY_SUMMARY,
            Kind::RealtimeEquityStream => XOBJ_REALTIME_EQUITY_STREAM,
            Kind::RealtimeCommodityStream => XOBJ_REALTIME_COMMODITY_STREAM,
            Kind::RealtimeOrderBookStream => XOBJ_REALTIME_ORDER_BOOK_STREAM,
            Kind::RealtimePriceBookStream => XOBJ_REALTIME_PRICE_BOOK_STREAM,
            Kind::RealtimeTickerPlantFeeds => XOBJ_REALTIME_TICKER_PLANT_FEEDS,
            Kind::RealtimeTickerPlantLines => XOBJ_REALTIME_TICKER_PLANT_LINES,
            Kind::RealtimeTickerPlantSockets => XOBJ_REALTIME_TICKER_PLANT_SOCKETS,
            Kind::RealtimeTickerPlantClients => XOBJ_REALTIME_TICKER_PLANT_CLIENTS,
            Kind::RealtimeDerivativeReferenceSummary => XOBJ_REALTIME_DERIVATIVE_REFERENCE_SUMMARY,
            Kind::RealtimeDerivativeReferenceExchangeStream => XOBJ_REALTIME_DERIVATIVE_REFERENCE_EXCHANGE_STREAM,
            Kind::RealtimeFxspotStream => XOBJ_REALTIME_FXSPOT_STREAM,
            Kind::RealtimeFxforwardStream => XOBJ_REALTIME_FXFORWARD_STREAM,
            Kind::RealtimeFxswapStream => XOBJ_REALTIME_FXSWAP_STREAM,
            Kind::RealtimeTickerPlantSummary => XOBJ_REALTIME_TICKER_PLANT_SUMMARY,
            Kind::RealtimeTickerPlantLatency => XOBJ_REALTIME_TICKER_PLANT_LATENCY,
            Kind::RealtimeTickerPlantClientsRates => XOBJ_REALTIME_TICKER_PLANT_CLIENTS_RATES,
            Kind::RealtimeTickerPlantSummaryRates => XOBJ_REALTIME_TICKER_PLANT_SUMMARY_RATES,
            Kind::RealtimeTickerPlantSessions => XOBJ_REALTIME_TICKER_PLANT_SESSIONS,
            Kind::RealtimeTickerPlantSessionsRates => XOBJ_REALTIME_TICKER_PLANT_SESSIONS_RATES,
            Kind::RealtimeInstrumentGroupSummary => XOBJ_REALTIME_INSTRUMENT_GROUP_SUMMARY,
            Kind::RealtimeFxSummary => XOBJ_REALTIME_FX_SUMMARY,
            Kind::RealtimeFxStream => XOBJ_REALTIME_FX_STREAM,
            Kind::RealtimeVolatilitySummary => XOBJ_REALTIME_VOLATILITY_SUMMARY,
            Kind::RealtimeSymbolReferenceSummary => XOBJ_REALTIME_SYMBOL_REFERENCE_SUMMARY,
            Kind::WriteonlyEquityInstrument => XOBJ_WRITEONLY_EQUITY_INSTRUMENT,
            Kind::WriteonlyCommodityInstrument => XOBJ_WRITEONLY_COMMODITY_INSTRUMENT,
            Kind::WriteonlyLevel2Instrument => XOBJ_WRITEONLY_LEVEL2_INSTRUMENT,
            Kind::WriteonlyKeylistEdit => XOBJ_WRITEONLY_KEYLIST_EDIT,
            Kind::EventSubscribe => XOBJ_EVENT_SUBSCRIBE,
            Kind::EventSnapshot => XOBJ_EVENT_SNAPSHOT,
            Kind::EventEquityTrade => XOBJ_EVENT_EQUITY_TRADE,
            Kind::EventEquityQuote => XOBJ_EVENT_EQUITY_QUOTE,
            Kind::EventEquityRefresh => XOBJ_EVENT_EQUITY_REFRESH,
            Kind::EventEquityCancel => XOBJ_EVENT_EQUITY_CANCEL,
            Kind::EventEquityCorrection => XOBJ_EVENT_EQUITY_CORRECTION,
            Kind::EventOrderBookRefreshBid => XOBJ_EVENT_ORDER_BOOK_REFRESH_BID,
            Kind::EventOrderBookRefreshAsk => XOBJ_EVENT_ORDER_BOOK_REFRESH_ASK,
            Kind::EventOrderBookUpdate => XOBJ_EVENT_ORDER_BOOK_UPDATE,
            Kind::EventPriceBookRefreshBid => XOBJ_EVENT_PRICE_BOOK_REFRESH_BID,
            Kind::EventPriceBookRefreshAsk => XOBJ_EVENT_PRICE_BOOK_REFRESH_ASK,
            Kind::EventPriceBookUpdate => XOBJ_EVENT_PRICE_BOOK_UPDATE,
            Kind::EventCommodityRefresh => XOBJ_EVENT_COMMODITY_REFRESH,
            Kind::EventCommodityTrade => XOBJ_EVENT_COMMODITY_TRADE,
            Kind::EventCommodityQuote => XOBJ_EVENT_COMMODITY_QUOTE,
            Kind::EventCommodityCancel => XOBJ_EVENT_COMMODITY_CANCEL,
            Kind::EventCommodityCorrection => XOBJ_EVENT_COMMODITY_CORRECTION,
            Kind::EventNavUpdate => XOBJ_EVENT_NAV_UPDATE,
            Kind::EventBasketCatalogRefresh => XOBJ_EVENT_BASKET_CATALOG_REFRESH,
            Kind::EventBasketCatalogUpdate => XOBJ_EVENT_BASKET_CATALOG_UPDATE,
            Kind::EventBasketDefnRefresh => XOBJ_EVENT_BASKET_DEFN_REFRESH,
            Kind::EventBasketDefnStatus => XOBJ_EVENT_BASKET_DEFN_STATUS,
            Kind::EventBasketConstituentUpdateStatus => XOBJ_EVENT_BASKET_CONSTITUENT_UPDATE_STATUS,
            Kind::EventBasketConstituentRefresh => XOBJ_EVENT_BASKET_CONSTITUENT_REFRESH,
            Kind::EventStaticEquityRefresh => XOBJ_EVENT_STATIC_EQUITY_REFRESH,
            Kind::EventStaticCommodityRefresh => XOBJ_EVENT_STATIC_COMMODITY_REFRESH,
            Kind::EventBasketDefnDelete => XOBJ_EVENT_BASKET_DEFN_DELETE,
            Kind::EventKeylistDefnStatus => XOBJ_EVENT_KEYLIST_DEFN_STATUS,
            Kind::EventKeylistDefnRefresh => XOBJ_EVENT_KEYLIST_DEFN_REFRESH,
            Kind::EventKeylistDefnDelete => XOBJ_EVENT_KEYLIST_DEFN_DELETE,
            Kind::EventKeylistFilterDefnStatus => XOBJ_EVENT_KEYLIST_FILTER_DEFN_STATUS,
            Kind::EventKeylistFilterDefnRefresh => XOBJ_EVENT_KEYLIST_FILTER_DEFN_REFRESH,
            Kind::EventKeylistFilterDefnDelete => XOBJ_EVENT_KEYLIST_FILTER_DEFN_DELETE,
            Kind::EventKeylistFilterMatchStart => XOBJ_EVENT_KEYLIST_FILTER_MATCH_START,
            Kind::EventKeylistFilterMatchEnd => XOBJ_EVENT_KEYLIST_FILTER_MATCH_END,
            Kind::EventKeylistFilterMatch => XOBJ_EVENT_KEYLIST_FILTER_MATCH,
            Kind::EventKeylistFilterMatchRemove => XOBJ_EVENT_KEYLIST_FILTER_MATCH_REMOVE,
            Kind::EventKeylistCatalogRefresh => XOBJ_EVENT_KEYLIST_CATALOG_REFRESH,
            Kind::EventKeylistCatalogUpdate => XOBJ_EVENT_KEYLIST_CATALOG_UPDATE,
            Kind::EventInstrumentUpdateStatus => XOBJ_EVENT_INSTRUMENT_UPDATE_STATUS,
            Kind::EventSignumPredictiveDataRefresh => XOBJ_EVENT_SIGNUM_PREDICTIVE_DATA_REFRESH,
            Kind::EventSignumPredictiveDataStatus => XOBJ_EVENT_SIGNUM_PREDICTIVE_DATA_STATUS,
            Kind::EventOrderExecution => XOBJ_EVENT_ORDER_EXECUTION,
            Kind::EventOrderImbalance => XOBJ_EVENT_ORDER_IMBALANCE,
            Kind::EventMarketDirectory => XOBJ_EVENT_MARKET_DIRECTORY,
            Kind::EventTradingAction => XOBJ_EVENT_TRADING_ACTION,
            Kind::EventTickerPlantFeedRefresh => XOBJ_EVENT_TICKER_PLANT_FEED_REFRESH,
            Kind::EventTickerPlantFeedUpdate => XOBJ_EVENT_TICKER_PLANT_FEED_UPDATE,
            Kind::EventTickerPlantLineRefresh => XOBJ_EVENT_TICKER_PLANT_LINE_REFRESH,
            Kind::EventTickerPlantSocketRefresh => XOBJ_EVENT_TICKER_PLANT_SOCKET_REFRESH,
            Kind::EventTickerPlantClientRefresh => XOBJ_EVENT_TICKER_PLANT_CLIENT_REFRESH,
            Kind::EventStaticTickerPlantLineRefresh => XOBJ_EVENT_STATIC_TICKER_PLANT_LINE_REFRESH,
            Kind::EventStaticTickerPlantSocketRefresh => XOBJ_EVENT_STATIC_TICKER_PLANT_SOCKET_REFRESH,
            Kind::EventStaticTickerPlantClientRefresh => XOBJ_EVENT_STATIC_TICKER_PLANT_CLIENT_REFRESH,
            Kind::EventStaticTickerPlantLineGapsRefresh => XOBJ_EVENT_STATIC_TICKER_PLANT_LINE_GAPS_REFRESH,
            Kind::EventDerivativeReferenceRefresh => XOBJ_EVENT_DERIVATIVE_REFERENCE_REFRESH,
            Kind::EventOrderOnBook => XOBJ_EVENT_ORDER_ON_BOOK,
            Kind::EventFxspotRefresh => XOBJ_EVENT_FXSPOT_REFRESH,
            Kind::EventFxspotQuote => XOBJ_EVENT_FXSPOT_QUOTE,
            Kind::EventFxfwdRefresh => XOBJ_EVENT_FXFWD_REFRESH,
            Kind::EventFxfwdQuote => XOBJ_EVENT_FXFWD_QUOTE,
            Kind::EventFxswapRefresh => XOBJ_EVENT_FXSWAP_REFRESH,
            Kind::EventFxswapQuote => XOBJ_EVENT_FXSWAP_QUOTE,
            Kind::EventTickerPlantSummaryRefresh => XOBJ_EVENT_TICKER_PLANT_SUMMARY_REFRESH,
            Kind::EventTickerPlantLatencyRefresh => XOBJ_EVENT_TICKER_PLANT_LATENCY_REFRESH,
            Kind::EventTickerPlantClientsRatesRefresh => XOBJ_EVENT_TICKER_PLANT_CLIENTS_RATES_REFRESH,
            Kind::EventTickerPlantSummaryRatesRefresh => XOBJ_EVENT_TICKER_PLANT_SUMMARY_RATES_REFRESH,
            Kind::EventStaticTickerPlantSummaryRefresh => XOBJ_EVENT_STATIC_TICKER_PLANT_SUMMARY_REFRESH,
            Kind::EventStaticTickerPlantLatencyRefresh => XOBJ_EVENT_STATIC_TICKER_PLANT_LATENCY_REFRESH,
            Kind::EventStaticTickerPlantClientsRatesRefresh => XOBJ_EVENT_STATIC_TICKER_PLANT_CLIENTS_RATES_REFRESH,
            Kind::EventStaticTickerPlantSummaryRatesRefresh => XOBJ_EVENT_STATIC_TICKER_PLANT_SUMMARY_RATES_REFRESH,
            Kind::EventTickerPlantMwcbUpdate => XOBJ_EVENT_TICKER_PLANT_MWCB_UPDATE,
            Kind::EventTickerPlantSessionsRatesRefresh => XOBJ_EVENT_TICKER_PLANT_SESSIONS_RATES_REFRESH,
            Kind::EventStaticTickerPlantSessionsRatesRefresh => XOBJ_EVENT_STATIC_TICKER_PLANT_SESSIONS_RATES_REFRESH,
            Kind::EventTickerPlantSessionsRefresh => XOBJ_EVENT_TICKER_PLANT_SESSIONS_REFRESH,
            Kind::EventStaticTickerPlantSessionsRefresh => XOBJ_EVENT_STATIC_TICKER_PLANT_SESSIONS_REFRESH,
            Kind::EventRequestForQuote => XOBJ_EVENT_REQUEST_FOR_QUOTE,
            Kind::EventIndicativePrice => XOBJ_EVENT_INDICATIVE_PRICE,
            Kind::EventInstrumentGroupRefresh => XOBJ_EVENT_INSTRUMENT_GROUP_REFRESH,
            Kind::EventInstrumentGroupUpdate => XOBJ_EVENT_INSTRUMENT_GROUP_UPDATE,
            Kind::EventSessionStatus => XOBJ_EVENT_SESSION_STATUS,
            Kind::EventFxRefresh => XOBJ_EVENT_FX_REFRESH,
            Kind::EventFxUpdate => XOBJ_EVENT_FX_UPDATE,
            Kind::EventVolatilityRefresh => XOBJ_EVENT_VOLATILITY_REFRESH,
            Kind::EventVolatilityQuoteRisk => XOBJ_EVENT_VOLATILITY_QUOTE_RISK,
            Kind::EventVolatilityTradeRisk => XOBJ_EVENT_VOLATILITY_TRADE_RISK,
            Kind::EventSymbolReferenceRefresh => XOBJ_EVENT_SYMBOL_REFERENCE_REFRESH,
            Kind::EventSignalStatus => XOBJ_EVENT_SIGNAL_STATUS,
            Kind::EventTradeSummary => XOBJ_EVENT_TRADE_SUMMARY,
            Kind::EventExchangeStatistics => XOBJ_EVENT_EXCHANGE_STATISTICS,
            Kind::ReadwriteBasketDefinition => XOBJ_READWRITE_BASKET_DEFINITION,
            Kind::ReadwriteKeylistDefinition => XOBJ_READWRITE_KEYLIST_DEFINITION,
            Kind::ReadwriteKeylistFilterDefinition => XOBJ_READWRITE_KEYLIST_FILTER_DEFINITION,
            Kind::ReadwriteBasketConstituent => XOBJ_READWRITE_BASKET_CONSTITUENT,
            Kind::ReadwriteSignumPredictiveData => XOBJ_READWRITE_SIGNUM_PREDICTIVE_DATA,
            Kind::StaticEquitySummary => XOBJ_STATIC_EQUITY_SUMMARY,
            Kind::StaticCommoditySummary => XOBJ_STATIC_COMMODITY_SUMMARY,
            Kind::StaticTickerPlantLines => XOBJ_STATIC_TICKER_PLANT_LINES,
            Kind::StaticTickerPlantSockets => XOBJ_STATIC_TICKER_PLANT_SOCKETS,
            Kind::StaticTickerPlantClients => XOBJ_STATIC_TICKER_PLANT_CLIENTS,
            Kind::StaticTickerPlantLineGaps => XOBJ_STATIC_TICKER_PLANT_LINE_GAPS,
            Kind::StaticTickerPlantSummary => XOBJ_STATIC_TICKER_PLANT_SUMMARY,
            Kind::StaticTickerPlantLatency => XOBJ_STATIC_TICKER_PLANT_LATENCY,
            Kind::StaticTickerPlantClientsRates => XOBJ_STATIC_TICKER_PLANT_CLIENTS_RATES,
            Kind::StaticTickerPlantSummaryRates => XOBJ_STATIC_TICKER_PLANT_SUMMARY_RATES,
            Kind::StaticTickerPlantSessions => XOBJ_STATIC_TICKER_PLANT_SESSIONS,
            Kind::StaticTickerPlantSessionsRates => XOBJ_STATIC_TICKER_PLANT_SESSIONS_RATES,
        }
    }
}
/// Every kind decodes back from its own code: the code table is a
/// faithful naming of the kinds.
#[verifier::rlimit(100)]
#[verifier::spinoff_prover]
pub proof fn lemma_kind_code_roundtrip(kind: Kind)
    ensures
        spec_kind_of(spec_code_of(kind)) == kind,
{
}

/// A strongly-typed view of one native object kind.
///
/// An implementation is a thin wrapper around a non-null handle; its
/// `wrapped_kind` names the one [`Kind`] whose objects it may stand for.
/// Values exist only by way of [`wrap_checked`] or
/// [`wrap_with_known_kind`], and are borrowed views: dropping one never
/// releases the native object.
pub trait Wrapper: Sized {
    /// The object kind this wrapper encapsulates.
    spec fn wrapped_kind() -> Kind;

    /// The raw handle held by this wrapper.
    spec fn spec_handle(&self) -> u64;

    /// Build from a handle without any check; construction-time
    /// validation is the callers' burden, which is why this requires a
    /// non-null handle.
    fn from_handle_unchecked(handle: u64) -> (r: Self)
        requires
            handle != 0,
        ensures
            r.spec_handle() == handle,
    ;

    /// The raw handle, for passing back into native calls.
    fn as_xhandle(&self) -> (r: u64)
        ensures
            r == self.spec_handle(),
    ;

    /// The raw code of the wrapped kind, as compared against what the
    /// native side reports.
    fn wrapped_kind_code() -> (r: u16)
        ensures
            r == spec_code_of(Self::wrapped_kind()),
    ;
}

/// What [`wrap_checked`] must return for a given native answer: the
/// outcome is fixed by the handle and by what the object-type query
/// reports for it.
pub open spec fn spec_wrap_checked_ok(plant: Appliance, handle: u64, kind: Kind) -> bool {
    &&& handle != 0
    &&& spec_decode(plant.spec_object_type(handle).0) is Ok
    &&& plant.spec_object_type(handle).1 == spec_code_of(kind)
}

/// Wrap a raw handle after asking the native side for its kind.
///
/// Fails with `NullObject` on a null handle, propagates a failed
/// object-type query as the decoded native error, and fails with
/// `UnexpectedKind` when the reported kind differs from the wrapper's
/// kind.  Succeeds exactly when the handle is non-null and the query
/// succeeds reporting the expected kind.
pub fn wrap_checked<T: Wrapper>(plant: &Appliance, handle: u64) -> (r: Result<T, Error>)
    ensures
        r is Ok <==> spec_wrap_checked_ok(*plant, handle, T::wrapped_kind()),
        r is Ok ==> r->Ok_0.spec_handle() == handle,
        handle == 0 ==> r == Err::<T, Error>(Error::NullObject),
        handle != 0 && spec_decode(plant.spec_object_type(handle).0) is Err ==> r == Err::<
            T,
            Error,
        >(Error::Exegy(spec_decode(plant.spec_object_type(handle).0)->Err_0)),
        handle != 0 && spec_decode(plant.spec_object_type(handle).0) is Ok && plant.spec_object_type(
            handle,
        ).1 != spec_code_of(T::wrapped_kind()) ==> r == Err::<T, Error>(Error::UnexpectedKind),
{
    if handle == 0 {
        return Err(Error::NullObject);
    }
    let (status, reported) = plant.object_type(handle);
    match crate::error::decode(status) {
        Err(e) => Err(Error::Exegy(e)),
        Ok(_) => {
            if reported == T::wrapped_kind_code() {
                Ok(T::from_handle_unchecked(handle))
            } else {
                Err(Error::UnexpectedKind)
            }
        },
    }
}

/// Wrap a raw handle whose kind code was already delivered alongside it
/// by the native library, as in a callback; rejects a mismatched code and
/// a null handle, and skips the kind query.
pub fn wrap_with_known_kind<T: Wrapper>(handle: u64, object_type: u16) -> (r: Result<T, Error>)
    ensures
        r is Ok <==> handle != 0 && object_type == spec_code_of(T::wrapped_kind()),
        r is Ok ==> r->Ok_0.spec_handle() == handle,
        object_type != spec_code_of(T::wrapped_kind()) ==> r == Err::<T, Error>(
            Error::UnexpectedKind,
        ),
        object_type == spec_code_of(T::wrapped_kind()) && handle == 0 ==> r == Err::<T, Error>(
            Error::NullObject,
        ),
{
    if T::wrapped_kind_code() == object_type {
        if handle == 0 {
            Err(Error::NullObject)
        } else {
            Ok(T::from_handle_unchecked(handle))
        }
    } else {
        Err(Error::UnexpectedKind)
    }
}

/// For every non-null handle whose reported kind equals the wrapper's
/// kind, checked wrapping is owed success; a differing report is owed
/// `UnexpectedKind`, and a null handle `NullObject`.
pub proof fn lemma_wrap_checked_complete(plant: Appliance, handle: u64, kind: Kind)
    requires
        plant.spec_has_object(handle),
    ensures
        handle != 0,
        plant.spec_object(handle).kind_code == spec_code_of(kind) ==> spec_wrap_checked_ok(
            plant,
            handle,
            kind,
        ),
        plant.spec_object(handle).kind_code != spec_code_of(kind) ==> !spec_wrap_checked_ok(
            plant,
            handle,
            kind,
        ),
{
}

} // verus!
