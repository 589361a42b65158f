//! Feed codes for the United States group.

use vstd::prelude::*;

use super::{Feed as FeedTrait, Id};
use crate::group::{Country, Group};

verus! {

/// The placeholder operating MIC recorded where the table has no real
/// code yet: four ASCII question marks, big-endian.
pub const MIC_PLACEHOLDER: i32 = 0x3F3F_3F3F;

/// The operating MIC of the NYSE Arca venues: "ARCX", big-endian.
pub const MIC_ARCX: i32 = 0x4152_4358;

/// United States feed codes used by the native library.
#[derive(Clone, Copy, Debug, PartialEq, Eq, Structural)]
pub enum Feed {
    /// NYSE MKT via CTA/UTP (Level 1)
    NyseMktViaSip,
    /// NYSE Arca BBO (Level 1)
    ArcaBbo,
    /// NYSE ArcaBook (Level 2)
    ArcaBook,
    /// NYSE American Options Pillar - Complex (Level 1)
    AmexOptionsComplex,
    /// NYSE MKT OpenBook Ultra (Level 2 - price book)
    NyseMktOpenBookUltra,
    /// NYSE MKT Integrated (Level 2)
    NyseMktIntegrated,
    /// NYSE MKT Order Imbalances (Level 2 - price book)
    NyseMktImbalances,
    /// NYSE MKT Alerts (Level 1)
    NyseMktAlerts,
    /// NYSE American Options Pillar - Top (Level 1)
    AmexOptionsPillarTop,
    /// NYSE Amex Trades (Level 1)
    AmexTrades,
    /// NYSE Arca Integrated (Level 2)
    ArcaIntegrated,
    /// NYSE American Options Pillar - Deep (Level 2)
    AmexOptionsPillarDeep,
    /// NYSE Amex Options via OPRA (Level 1)
    AmexOptionsViaOpra,
    /// Nasdaq BX via CTA/UTP (Level 1)
    BxViaSip,
    /// BOX Options Exchange via HSVF (Level 2)
    BoxLevel2ViaHsvf,
    /// Nasdaq BX Options Depth of Market (Level 2)
    BxOptionsDepthOfMarket,
    /// BOX Options Exchange via HSVF (Level 1)
    BoxLevel1ViaHsvf,
    /// Nasdaq BX Options Top of Market (Level 1)
    BxOptionsTopOfMarket,
    /// Nasdaq BX MatchView (Level 1)
    BxMatchView,
    /// Nasdaq BX via TotalView (Level 2)
    BxTotalView,
    /// CBOT (Level 2)
    CbotY,
    /// CBOT (Level 2)
    CbotZ,
    /// BOX Options Exchange via OPRA (Level 1)
    BoxViaOpra,
    /// National Stock Exchange via CTA/UTP (Level 1)
    NyseNationalViaSip,
    /// NSE National BBO (Level 1)
    NyseNationalBbo,
    /// Citadel Execution Services IOI (Level 1)
    CitadelIoi,
    /// Citadel Securities Fixed Income (Level 1)
    CitadelFixedIncome,
    /// CME Indices (Level 1)
    CmeIndices,
    /// CME Pit (Level 1)
    CmePit,
    /// Cboe C2 Options via PITCH (Level 2)
    CboeC2ViaPitch,
    /// CBOE Market Data Indices (Level 1)
    CboeIndices,
    /// NSE National Trades (Level 1)
    NyseNationalTrades,
    /// NSE National Integrated (Level 2)
    NyseNationalDepth,
    /// CME (Level 2)
    CmeY,
    /// CME (Level 2)
    CmeZ,
    /// CBOE via OPRA (Level 1)
    CboeViaOpra,
    /// FINRA ADF/TRF (Level 1)
    FinraViaSip,
    /// FINRA / Nasdaq TRF Chicago (Level 1)
    NasdaqChicagoTrf,
    /// Dow Jones Indices (Level 1)
    DowIndices,
    /// FINRA / NYSE TRF (Level 1)
    NyseTrf,
    /// FINRA / Nasdaq TRF Carteret (Level 1)
    NasdaqCarteretTrf,
    /// MIAX Emerald via OPRA (Level 1)
    MiaxEmeraldViaOpra,
    /// IEX (Level 1)
    IexViaSip,
    /// Bats EDGX Options via OPRA (Level 1)
    EdgxOptionsViaOpra2,
    /// COMEX Pit (Level 1)
    ComexPit,
    /// MIAX Emerald via Tom/AIS (Level 1)
    MiaxEmeraldViaTomAis,
    /// eSpeed ITCH (Level 2)
    EspeedItch,
    /// Bats EDGX Options via Multicast (Level 2)
    EdgxOptionsViaMulticast,
    /// Bats EDGX Options via OPRA (Level 1)
    EdgxOptionsViaOpra,
    /// Fenics UST BIMP - Visibility Group 1 (Level 2)
    FenicsGroup1,
    /// Fenics UST BIMP - Global (Level 2)
    FenicsGlobal,
    /// Fenics UST BIMP - Visibility Group 2 (Level 2)
    FenicsGroup2,
    /// Cboe Futures Exchange via PITCH Level 2
    CboeFuturesPitch,
    /// Cboe Futures Exchange via TOP Level 1
    CboeFuturesTop,
    /// Fenics UST BIMP - Custom (Level 2)
    FenicsCustom,
    /// Nasdaq Global Index Dissemination Service (Level 1)
    NasdaqGids,
    /// NYSE Global Index Feed (Level 1)
    NyseGlobalIndexes,
    /// ISE Gemini via OPRA (Level 1)
    GeminiOpraLegacy,
    /// Miax PEARL Equities via DOM (Level 2)
    MiaxPerlViaDom,
    /// Nasdaq GEMX Options Top of Market (Level 1)
    NasdaqGemxTopOfMarket,
    /// Miax PEARL Equities via TOM (Level 1)
    MiaxPerlViaTom,
    /// Hanweck Risk (Level 2)
    HanweckRisk,
    /// Nasdaq GEMX Options Depth of Market (Level 2)
    NasdaqGemxDepthOfMarket,
    /// ISE Gemini via OPRA (Level 1)
    GeminiViaOpra,
    /// International Securities Exchange via CTA/UTP (Level 1)
    IseViaSip,
    /// FINRA ADF / IntelligentCross (Level 1)
    IntelligentCrossAdf,
    /// Intelligent Cross ASPEN (Level 2)
    IntelligentCrossAspen,
    /// IEX DEEP (Level 2 - price book)
    IexDeep,
    /// IEX TOPS (Level 1)
    IexTops,
    /// Nasdaq ISE Options Top of Market (Level 1)
    NasdaqIseTopOfMarket,
    /// Intelligent Cross ASPEN Maker/Taker (Level 2)
    IntelligentCrossAspenMakerTaker,
    /// Nasdaq ISE Options Depth of Market (Level 2)
    NasdaqIseOptionsDepthOfMarket,
    /// ICE US, Market by Price (Level 2)
    IceUsMarketByPrice,
    /// ICE US, Market by Price (non-full implied) (Level 2)
    IceUsMarketByPriceNonFullImplied,
    /// International Securities Exchange via T7 - Test (Level 2)
    IseT7,
    /// Intelligent Cross ASPEN Taker/Maker (Level 2)
    IntelligentCrossTakerMaker,
    /// International Securities Exchange via INET (Level 2)
    IseInet,
    /// ICE US, Market by Order (Level 2)
    IceUsMarketByOrder,
    /// ICE US, Market by Order (non-full implied) (Level 2)
    IceUsMarketByOrderNonFullImplied,
    /// International Securities Exchange via OPRA (Level 1)
    IseViaOpra,
    /// Bats EDGA via CTA/UTP (Level 1)
    EdgaViaSip,
    /// ISE Mercury via OPRA (Level 1)
    MercuryViaOpraLegacy,
    /// Nasdaq MRX Options Depth of Market (Level 2)
    NasdaqMrxOptionsDepthOfMarket,
    /// Jane Street IOI (Level 1)
    JaneStreetIoi,
    /// JP Morgan US Treasuries (Level 2)
    JpmUsTreasuries,
    /// Bats EDGA via Multicast (Level 2)
    EdgaViaMulticast,
    /// ISE Mercury via OPRA (Level 1)
    MercuryViaOpra,
    /// Bats EDGX via CTA/UTP (Level 1)
    EdgxViaSip,
    /// KCG Americas Equity IOI (Level 1)
    KcgEquityIoi,
    /// Bats EDGX via Multicast (Level 2)
    EdgxViaMulticast,
    /// KCBT (Level 2)
    Kcbt,
    /// Long-Term Stock Exchange via CTA/UTP (Level 1)
    LtseViaSip,
    /// Credit Suisse Light Pool (Level 2)
    LightPoolDepth,
    /// ICE Liffe US, Market by Order (Level 2)
    LiffeUsMarketByOrder,
    /// ICE Liffe US, Market by Order (non-full implied) (Level 2)
    LiffeUsMarketByOrderNonFullImplied,
    /// LTSE MEMOIR Top of Book (Level 1)
    LtseMemoirTopOfBook,
    /// ICE Liffe US, Market by Price (Level 2)
    LiffeUsMarketByPrice,
    /// ICE Liffe US, Market by Price (non-full implied) (Level 2)
    LiffeUsMarketByPriceNonFullImplied,
    /// LTSE MEMOIR Last Sale (Level 1)
    LtseMemoirLastSale,
    /// NYSE Liffe US, Top (Level 1)
    LiffeUsTop,
    /// LTSE MEMOIR Depth (Level 2)
    LtseMemoirDepth,
    /// NYSE Liffe US, Depth (Level 2 - price book)
    LiffeUsDepth,
    /// Chicago Stock Exchange via CTA/UTP (Level 1)
    NyseChicagoViaSip,
    /// MIAX Emerald via OPRA (Level 1)
    MiaxEmeraldViaOpraLegacy,
    /// MIAX Options via OPRA (Level 1)
    MiaxViaOpraLegacy,
    /// NYSE Chicago BBO (Level 1)
    NyseChicagoBbo,
    /// MIAX Options via ToM/AIS (Level 1)
    MiaxViaTomAis,
    /// NYSE Chicago Trades (Level 1)
    NyseChicagoTrades,
    /// NYSE Chicago Integrated (Level 2)
    NyseChicagoIntegrated,
    /// MGEX (Level 2)
    MgexY,
    /// MGEX (Level 2)
    MgexZ,
    /// MIAX Options via OPRA (Level 1)
    MiaxViaOpra,
    /// NYSE via CTA/UTP (Level 1)
    NyseViaSip,
    /// NYSE MKT BBO (Level 1)
    NyseMktBbo,
    /// NYSE Arca Options (Level 1)
    NyseArcaOptionsLevel1,
    /// Nasdaq Fixed Income ITCH (Level 2)
    NasdaqFixedIncomeItch,
    /// NYSE Integrated (Level 2)
    NyseIntegrated,
    /// NYSE Order Imbalances (Level 2 - price book)
    NyseImbalances,
    /// NYSE Alerts (Level 1)
    NyseAlerts,
    /// NYSE BBO (Level 1)
    NyseBbo,
    /// NYSE TRF (Level 1)
    NyseTrfLevel1,
    /// NYSE Trades (Level 1)
    NyseTrades,
    /// NYSE via OpenBook Ultra (Level 2 - price book)
    NyseOpenBookUltra,
    /// NYMEX (Level 2)
    NymexY,
    /// NYMEX (Level 2)
    NymexZ,
    /// MIAX PEARL via OPRA (Level 1)
    MiaxPearlViaOpraLegacy,
    /// Nasdaq OTC Montage Data Feed (Level 1)
    NasdaqOtcMontage,
    /// OTC Markets via Quote Inside - Expert (Level 1)
    OtcMarketsViaQuoteInsideExpert,
    /// OTC Markets via Quote Inside (Level 1)
    OtcMarketsViaQuoteInside,
    /// CBOE BZX Options via Multicast (Level 2)
    BzxOptionsViaMulticast,
    /// MIAX PEARL via OPRA (Level 1)
    MiaxPearlViaOpra,
    /// NYSE Arca via CTA/UTP (Level 1)
    ArcaViaSip,
    /// Nasdaq PHLX Depth of Market (Level 2)
    NasdaqPhlxDepth,
    /// OTC Markets via Quote Book - Expert (Level 2)
    OtcMarketsViaQuoteBookExpert,
    /// NYSE Arca Imbalances (Level 2 - price book)
    ArcaImbalances,
    /// MIAX PEARL via Tom/AIS (Level 1)
    PearlViaTomAis,
    /// Nasdaq PHLX Orders (Level 2)
    PhlxOrders,
    /// Top of PHLX Options (Level 1)
    PhlxOptionsTop,
    /// Nasdaq PSX MatchView (Level 1)
    PsxMatchView,
    /// OTC Markets (Level 1)
    OtcMarkets,
    /// NYSE Arca Trades (Level 1)
    ArcaTrades,
    /// OTC Markets via Quote Book (Level 2)
    OtcMarketsViaQuoteBook,
    /// NYSE Arca Options via OPRA (Level 1)
    ArcaOptionsViaOpra,
    /// Nasdaq via CTA/UTP (Level 1)
    NasdaqViaSip,
    /// Quincy CBOT Equity Futures (Level 2)
    QuincyCbotEquityFutures,
    /// Quincy CME Equity Futures (Level 2)
    QuincyCmeEquityFutures,
    /// Nasdaq Trade Reporting Facility (Level 1)
    NasdaqTrf,
    /// Best of Nasdaq Options (Level 1)
    BestOfNasdaqOptions,
    /// Nasdaq Execution System (Level 1)
    NasdaqExecutionSystem,
    /// Nasdaq Options Market ITTO (Level 2)
    NasdaqOptionsItto,
    /// Nasdaq Options Market via OPRA (Level 1)
    NasdaqOptionsViaOpra,
    /// NYSE Arca Options Pillar - Deep (Level 2)
    ArcaOptionsDeep,
    /// NYSE Arca Options Pillar - Top - Imbalances (Level 1)
    ArcaOptionsImbalances,
    /// NYSE Arca Options Pillar - Top - BBO (Level 1)
    ArcaOptionsBbo,
    /// NYSE Arca Options Pillar - Top - Trades (Level 1)
    ArcaOptionsTrades,
    /// Members Exchange via CTA/UTP (Level 1)
    MemxViaSip,
    /// MIAX Sapphire via ToM (Level 1)
    SapphireViaTom,
    /// Sun IOI (Level 1)
    SunIoi,
    /// MEMX Top (Level 1)
    MemxTop,
    /// MEMX Last Sale (Level 1)
    MemxLastSale,
    /// MEMX Depth (Level 2)
    MemxDepth,
    /// MIAX Sapphire via OPRA (Level 1)
    SapphireViaOpra,
    /// Nasdaq BX Options via OPRA (Level 1)
    BxOptionsViaOpraLegacy,
    /// Nasdaq via TotalView (Level 2)
    NasdaqViaTotalView,
    /// CME BrokerTec (Level 2)
    CmeBrokerTecY,
    /// CME BrokerTec (Level 2)
    CmeBrokerTecZ,
    /// Nasdaq BX Options via OPRA (Level 1)
    BxOptionsViaOpra,
    /// OTC Bulletin Board (Level 1)
    OtcBulletinBoard,
    /// MEMX Options Depth (Level 2)
    MemxOptionsDepth,
    /// Members Exchange MEMX via OPRA (Level 1)
    MemxOptionsViaOpra,
    /// OTC Other (Level 1)
    OtcOther,
    /// NASDAQ Market Velocity and Forces (Level 1)
    NasdasqMarketVelocityAndForces,
    /// Virtu Fixed Income (Level 2)
    VirtuFixedIncome,
    /// Virtu Financial IOI (Level 1)
    VirtuIoi,
    /// CBOE Stock Exchange (Level 1)
    CboeStock,
    /// Cboe C1 Options via PITCH (Level 2)
    CboeC1ViaPitch,
    /// CBOE Equities C2 (Level 1)
    CboeEquitiesC2,
    /// CBOE C2 via OPRA (Level 1)
    CboeC2ViaOpra,
    /// Nasdaq PSX via CTA/UTP (Level 1)
    PsxViaSip,
    /// CME ITC (Level 1)
    CmeItcF,
    /// CME ITC S&P 100 and S&P 500 (Level 1)
    CmeItcSp100Sp500,
    /// Nasdaq PHLX (Level 1)
    PhlxLevel1,
    /// CME ITC (Level 1)
    CmeItcW,
    /// Nasdaq PSX via TotalView (Level 2)
    PsxTotalView,
    /// COMEX (Level 2)
    ComexY,
    /// COMEX (Level 2)
    ComexZ,
    /// Nasdaq PHLX via OPRA (Level 1)
    PhxlOptionsViaOpra,
    /// Bats BYX via CTA/UTP (Level 1)
    ByxViaSip,
    /// Bats BYX via Multicast (Level 2)
    ByxViaMulticast,
    /// Bats BZX via CTA/UTP (Level 1)
    BzxViaSip,
    /// Bats BZX (Level 1)
    BzxLevel1,
    /// Bats BZX via Multicast (Level 2)
    BzxLevel2,
    /// Bats BZX Options via OPRA (Level 1)
    BzxOptionsViaOpra,
    ///  (Quote Montage (Level 1)
    QuoteMontage,
    ///  (Symbol Reference - US (Level 2)
    SymbolReference,
    ///  (User-defined Composite (Level 1) Exegy generated
    UserComposite,
    /// NBBO (Level 1) Equity
    Nbbo,
    /// Customer Proprietary Feed - Connection 1 (Level 2)
    Connection1,
    /// Customer Proprietary Feed - Connection 2 (Level 2)
    Connection2,
    /// Customer Proprietary Feed - Connection 3 (Level 2)
    Connection3,
    /// Customer Proprietary Feed - Connection 4 (Level 2)
    Connection4,
    /// Customer Proprietary Feed - Connection 5 (Level 2)
    Connection5,
    /// Customer Proprietary Feed - Connection 6 (Level 2)
    Connection6,
    /// Customer Proprietary Feed - Connection 7 (Level 2)
    Connection7,
    /// Customer Proprietary Feed - Connection 8 (Level 2)
    Connection8,
}

/// The table of United States feed codes, as one spec-level lookup
/// over the two identifier bytes.
pub open spec fn spec_feed_of(a: u8, b: u8) -> Option<Feed> {
    if a == 0x41 && b == 0 {
        Some(Feed::NyseMktViaSip)
    } else if a == 0x41 && b == 0x41 {
        Some(Feed::ArcaBbo)
    } else if a == 0x41 && b == 0x42 {
        Some(Feed::ArcaBook)
    } else if a == 0x41 && b == 0x43 {
        Some(Feed::AmexOptionsComplex)
    } else if a == 0x41 && b == 0x44 {
        Some(Feed::NyseMktOpenBookUltra)
    } else if a == 0x41 && b == 0x47 {
        Some(Feed::NyseMktIntegrated)
    } else if a == 0x41 && b == 0x49 {
        Some(Feed::NyseMktImbalances)
    } else if a == 0x41 && b == 0x4c {
        Some(Feed::NyseMktAlerts)
    } else if a == 0x41 && b == 0x50 {
        Some(Feed::AmexOptionsPillarTop)
    } else if a == 0x41 && b == 0x54 {
        Some(Feed::AmexTrades)
    } else if a == 0x41 && b == 0x58 {
        Some(Feed::ArcaIntegrated)
    } else if a == 0x41 && b == 0x5a {
        Some(Feed::AmexOptionsPillarDeep)
    } else if a == 0x41 && b == 0x5f {
        Some(Feed::AmexOptionsViaOpra)
    } else if a == 0x42 && b == 0 {
        Some(Feed::BxViaSip)
    } else if a == 0x42 && b == 0x42 {
        Some(Feed::BoxLevel2ViaHsvf)
    } else if a == 0x42 && b == 0x44 {
        Some(Feed::BxOptionsDepthOfMarket)
    } else if a == 0x42 && b == 0x4f {
        Some(Feed::BoxLevel1ViaHsvf)
    } else if a == 0x42 && b == 0x50 {
        Some(Feed::BxOptionsTopOfMarket)
    } else if a == 0x42 && b == 0x51 {
        Some(Feed::BxMatchView)
    } else if a == 0x42 && b == 0x58 {
        Some(Feed::BxTotalView)
    } else if a == 0x42 && b == 0x59 {
        Some(Feed::CbotY)
    } else if a == 0x42 && b == 0x5a {
        Some(Feed::CbotZ)
    } else if a == 0x42 && b == 0x5f {
        Some(Feed::BoxViaOpra)
    } else if a == 0x43 && b == 0 {
        Some(Feed::NyseNationalViaSip)
    } else if a == 0x43 && b == 0x43 {
        Some(Feed::NyseNationalBbo)
    } else if a == 0x43 && b == 0x45 {
        Some(Feed::CitadelIoi)
    } else if a == 0x43 && b == 0x46 {
        Some(Feed::CitadelFixedIncome)
    } else if a == 0x43 && b == 0x49 {
        Some(Feed::CmeIndices)
    } else if a == 0x43 && b == 0x4d {
        Some(Feed::CmePit)
    } else if a == 0x43 && b == 0x4f {
        Some(Feed::CboeC2ViaPitch)
    } else if a == 0x43 && b == 0x53 {
        Some(Feed::CboeIndices)
    } else if a == 0x43 && b == 0x54 {
        Some(Feed::NyseNationalTrades)
    } else if a == 0x43 && b == 0x58 {
        Some(Feed::NyseNationalDepth)
    } else if a == 0x43 && b == 0x59 {
        Some(Feed::CmeY)
    } else if a == 0x43 && b == 0x5a {
        Some(Feed::CmeZ)
    } else if a == 0x43 && b == 0x5f {
        Some(Feed::CboeViaOpra)
    } else if a == 0x44 && b == 0 {
        Some(Feed::FinraViaSip)
    } else if a == 0x44 && b == 0x42 {
        Some(Feed::NasdaqChicagoTrf)
    } else if a == 0x44 && b == 0x49 {
        Some(Feed::DowIndices)
    } else if a == 0x44 && b == 0x4e {
        Some(Feed::NyseTrf)
    } else if a == 0x44 && b == 0x51 {
        Some(Feed::NasdaqCarteretTrf)
    } else if a == 0x44 && b == 0x5f {
        Some(Feed::MiaxEmeraldViaOpra)
    } else if a == 0x45 && b == 0 {
        Some(Feed::IexViaSip)
    } else if a == 0x45 && b == 0x44 {
        Some(Feed::EdgxOptionsViaOpra2)
    } else if a == 0x45 && b == 0x46 {
        Some(Feed::ComexPit)
    } else if a == 0x45 && b == 0x4d {
        Some(Feed::MiaxEmeraldViaTomAis)
    } else if a == 0x45 && b == 0x53 {
        Some(Feed::EspeedItch)
    } else if a == 0x45 && b == 0x58 {
        Some(Feed::EdgxOptionsViaMulticast)
    } else if a == 0x45 && b == 0x5f {
        Some(Feed::EdgxOptionsViaOpra)
    } else if a == 0x46 && b == 0x43 {
        Some(Feed::FenicsGroup1)
    } else if a == 0x46 && b == 0x47 {
        Some(Feed::FenicsGlobal)
    } else if a == 0x46 && b == 0x4e {
        Some(Feed::FenicsGroup2)
    } else if a == 0x46 && b == 0x4f {
        Some(Feed::CboeFuturesPitch)
    } else if a == 0x46 && b == 0x54 {
        Some(Feed::CboeFuturesTop)
    } else if a == 0x46 && b == 0x58 {
        Some(Feed::FenicsCustom)
    } else if a == 0x47 && b == 0x44 {
        Some(Feed::NasdaqGids)
    } else if a == 0x47 && b == 0x49 {
        Some(Feed::NyseGlobalIndexes)
    } else if a == 0x48 && b == 0 {
        Some(Feed::GeminiOpraLegacy)
    } else if a == 0x48 && b == 0x44 {
        Some(Feed::MiaxPerlViaDom)
    } else if a == 0x48 && b == 0x48 {
        Some(Feed::NasdaqGemxTopOfMarket)
    } else if a == 0x48 && b == 0x54 {
        Some(Feed::MiaxPerlViaTom)
    } else if a == 0x48 && b == 0x57 {
        Some(Feed::HanweckRisk)
    } else if a == 0x48 && b == 0x58 {
        Some(Feed::NasdaqGemxDepthOfMarket)
    } else if a == 0x48 && b == 0x5f {
        Some(Feed::GeminiViaOpra)
    } else if a == 0x49 && b == 0 {
        Some(Feed::IseViaSip)
    } else if a == 0x49 && b == 0x41 {
        Some(Feed::IntelligentCrossAdf)
    } else if a == 0x49 && b == 0x43 {
        Some(Feed::IntelligentCrossAspen)
    } else if a == 0x49 && b == 0x44 {
        Some(Feed::IexDeep)
    } else if a == 0x49 && b == 0x45 {
        Some(Feed::IexTops)
    } else if a == 0x49 && b == 0x49 {
        Some(Feed::NasdaqIseTopOfMarket)
    } else if a == 0x49 && b == 0x4d {
        Some(Feed::IntelligentCrossAspenMakerTaker)
    } else if a == 0x49 && b == 0x4f {
        Some(Feed::NasdaqIseOptionsDepthOfMarket)
    } else if a == 0x49 && b == 0x50 {
        Some(Feed::IceUsMarketByPrice)
    } else if a == 0x49 && b == 0x51 {
        Some(Feed::IceUsMarketByPriceNonFullImplied)
    } else if a == 0x49 && b == 0x53 {
        Some(Feed::IseT7)
    } else if a == 0x49 && b == 0x54 {
        Some(Feed::IntelligentCrossTakerMaker)
    } else if a == 0x49 && b == 0x58 {
        Some(Feed::IseInet)
    } else if a == 0x49 && b == 0x59 {
        Some(Feed::IceUsMarketByOrder)
    } else if a == 0x49 && b == 0x5a {
        Some(Feed::IceUsMarketByOrderNonFullImplied)
    } else if a == 0x49 && b == 0x5f {
        Some(Feed::IseViaOpra)
    } else if a == 0x4a && b == 0 {
        Some(Feed::EdgaViaSip)
    } else if a == 0x4a && b == 0x4d {
        Some(Feed::MercuryViaOpraLegacy)
    } else if a == 0x4a && b == 0x4f {
        Some(Feed::NasdaqMrxOptionsDepthOfMarket)
    } else if a == 0x4a && b == 0x53 {
        Some(Feed::JaneStreetIoi)
    } else if a == 0x4a && b == 0x54 {
        Some(Feed::JpmUsTreasuries)
    } else if a == 0x4a && b == 0x58 {
        Some(Feed::EdgaViaMulticast)
    } else if a == 0x4a && b == 0x5f {
        Some(Feed::MercuryViaOpra)
    } else if a == 0x4b && b == 0 {
        Some(Feed::EdgxViaSip)
    } else if a == 0x4b && b == 0x47 {
        Some(Feed::KcgEquityIoi)
    } else if a == 0x4b && b == 0x58 {
        Some(Feed::EdgxViaMulticast)
    } else if a == 0x4b && b == 0x59 {
        Some(Feed::Kcbt)
    } else if a == 0x4c && b == 0 {
        Some(Feed::LtseViaSip)
    } else if a == 0x4c && b == 0x48 {
        Some(Feed::LightPoolDepth)
    } else if a == 0x4c && b == 0x49 {
        Some(Feed::LiffeUsMarketByOrder)
    } else if a == 0x4c && b == 0x4a {
        Some(Feed::LiffeUsMarketByOrderNonFullImplied)
    } else if a == 0x4c && b == 0x4c {
        Some(Feed::LtseMemoirTopOfBook)
    } else if a == 0x4c && b == 0x50 {
        Some(Feed::LiffeUsMarketByPrice)
    } else if a == 0x4c && b == 0x52 {
        Some(Feed::LiffeUsMarketByPriceNonFullImplied)
    } else if a == 0x4c && b == 0x54 {
        Some(Feed::LtseMemoirLastSale)
    } else if a == 0x4c && b == 0x55 {
        Some(Feed::LiffeUsTop)
    } else if a == 0x4c && b == 0x58 {
        Some(Feed::LtseMemoirDepth)
    } else if a == 0x4c && b == 0x59 {
        Some(Feed::LiffeUsDepth)
    } else if a == 0x4d && b == 0 {
        Some(Feed::NyseChicagoViaSip)
    } else if a == 0x4d && b == 0x44 {
        Some(Feed::MiaxEmeraldViaOpraLegacy)
    } else if a == 0x4d && b == 0x49 {
        Some(Feed::MiaxViaOpraLegacy)
    } else if a == 0x4d && b == 0x4d {
        Some(Feed::NyseChicagoBbo)
    } else if a == 0x4d && b == 0x4f {
        Some(Feed::MiaxViaTomAis)
    } else if a == 0x4d && b == 0x54 {
        Some(Feed::NyseChicagoTrades)
    } else if a == 0x4d && b == 0x58 {
        Some(Feed::NyseChicagoIntegrated)
    } else if a == 0x4d && b == 0x59 {
        Some(Feed::MgexY)
    } else if a == 0x4d && b == 0x5a {
        Some(Feed::MgexZ)
    } else if a == 0x4d && b == 0x5f {
        Some(Feed::MiaxViaOpra)
    } else if a == 0x4e && b == 0 {
        Some(Feed::NyseViaSip)
    } else if a == 0x4e && b == 0x41 {
        Some(Feed::NyseMktBbo)
    } else if a == 0x4e && b == 0x43 {
        Some(Feed::NyseArcaOptionsLevel1)
    } else if a == 0x4e && b == 0x46 {
        Some(Feed::NasdaqFixedIncomeItch)
    } else if a == 0x4e && b == 0x47 {
        Some(Feed::NyseIntegrated)
    } else if a == 0x4e && b == 0x49 {
        Some(Feed::NyseImbalances)
    } else if a == 0x4e && b == 0x4c {
        Some(Feed::NyseAlerts)
    } else if a == 0x4e && b == 0x4e {
        Some(Feed::NyseBbo)
    } else if a == 0x4e && b == 0x52 {
        Some(Feed::NyseTrfLevel1)
    } else if a == 0x4e && b == 0x54 {
        Some(Feed::NyseTrades)
    } else if a == 0x4e && b == 0x58 {
        Some(Feed::NyseOpenBookUltra)
    } else if a == 0x4e && b == 0x59 {
        Some(Feed::NymexY)
    } else if a == 0x4e && b == 0x5a {
        Some(Feed::NymexZ)
    } else if a == 0x4f && b == 0 {
        Some(Feed::MiaxPearlViaOpraLegacy)
    } else if a == 0x4f && b == 0x44 {
        Some(Feed::NasdaqOtcMontage)
    } else if a == 0x4f && b == 0x45 {
        Some(Feed::OtcMarketsViaQuoteInsideExpert)
    } else if a == 0x4f && b == 0x54 {
        Some(Feed::OtcMarketsViaQuoteInside)
    } else if a == 0x4f && b == 0x5a {
        Some(Feed::BzxOptionsViaMulticast)
    } else if a == 0x4f && b == 0x5f {
        Some(Feed::MiaxPearlViaOpra)
    } else if a == 0x50 && b == 0 {
        Some(Feed::ArcaViaSip)
    } else if a == 0x50 && b == 0x44 {
        Some(Feed::NasdaqPhlxDepth)
    } else if a == 0x50 && b == 0x45 {
        Some(Feed::OtcMarketsViaQuoteBookExpert)
    } else if a == 0x50 && b == 0x49 {
        Some(Feed::ArcaImbalances)
    } else if a == 0x50 && b == 0x4d {
        Some(Feed::PearlViaTomAis)
    } else if a == 0x50 && b == 0x4f {
        Some(Feed::PhlxOrders)
    } else if a == 0x50 && b == 0x50 {
        Some(Feed::PhlxOptionsTop)
    } else if a == 0x50 && b == 0x51 {
        Some(Feed::PsxMatchView)
    } else if a == 0x50 && b == 0x53 {
        Some(Feed::OtcMarkets)
    } else if a == 0x50 && b == 0x54 {
        Some(Feed::ArcaTrades)
    } else if a == 0x50 && b == 0x58 {
        Some(Feed::OtcMarketsViaQuoteBook)
    } else if a == 0x50 && b == 0x5f {
        Some(Feed::ArcaOptionsViaOpra)
    } else if a == 0x51 && b == 0 {
        Some(Feed::NasdaqViaSip)
    } else if a == 0x51 && b == 0x42 {
        Some(Feed::QuincyCbotEquityFutures)
    } else if a == 0x51 && b == 0x43 {
        Some(Feed::QuincyCmeEquityFutures)
    } else if a == 0x51 && b == 0x46 {
        Some(Feed::NasdaqTrf)
    } else if a == 0x51 && b == 0x50 {
        Some(Feed::BestOfNasdaqOptions)
    } else if a == 0x51 && b == 0x54 {
        Some(Feed::NasdaqExecutionSystem)
    } else if a == 0x51 && b == 0x58 {
        Some(Feed::NasdaqOptionsItto)
    } else if a == 0x51 && b == 0x5f {
        Some(Feed::NasdaqOptionsViaOpra)
    } else if a == 0x52 && b == 0x44 {
        Some(Feed::ArcaOptionsDeep)
    } else if a == 0x52 && b == 0x49 {
        Some(Feed::ArcaOptionsImbalances)
    } else if a == 0x52 && b == 0x52 {
        Some(Feed::ArcaOptionsBbo)
    } else if a == 0x52 && b == 0x54 {
        Some(Feed::ArcaOptionsTrades)
    } else if a == 0x53 && b == 0 {
        Some(Feed::MemxViaSip)
    } else if a == 0x53 && b == 0x48 {
        Some(Feed::SapphireViaTom)
    } else if a == 0x53 && b == 0x4e {
        Some(Feed::SunIoi)
    } else if a == 0x53 && b == 0x53 {
        Some(Feed::MemxTop)
    } else if a == 0x53 && b == 0x54 {
        Some(Feed::MemxLastSale)
    } else if a == 0x53 && b == 0x58 {
        Some(Feed::MemxDepth)
    } else if a == 0x53 && b == 0x5f {
        Some(Feed::SapphireViaOpra)
    } else if a == 0x54 && b == 0 {
        Some(Feed::BxOptionsViaOpraLegacy)
    } else if a == 0x54 && b == 0x58 {
        Some(Feed::NasdaqViaTotalView)
    } else if a == 0x54 && b == 0x59 {
        Some(Feed::CmeBrokerTecY)
    } else if a == 0x54 && b == 0x5a {
        Some(Feed::CmeBrokerTecZ)
    } else if a == 0x54 && b == 0x5f {
        Some(Feed::BxOptionsViaOpra)
    } else if a == 0x55 && b == 0 {
        Some(Feed::OtcBulletinBoard)
    } else if a == 0x55 && b == 0x5a {
        Some(Feed::MemxOptionsDepth)
    } else if a == 0x55 && b == 0x5f {
        Some(Feed::MemxOptionsViaOpra)
    } else if a == 0x56 && b == 0 {
        Some(Feed::OtcOther)
    } else if a == 0x56 && b == 0x46 {
        Some(Feed::NasdasqMarketVelocityAndForces)
    } else if a == 0x56 && b == 0x49 {
        Some(Feed::VirtuFixedIncome)
    } else if a == 0x56 && b == 0x55 {
        Some(Feed::VirtuIoi)
    } else if a == 0x57 && b == 0 {
        Some(Feed::CboeStock)
    } else if a == 0x57 && b == 0x4f {
        Some(Feed::CboeC1ViaPitch)
    } else if a == 0x57 && b == 0x57 {
        Some(Feed::CboeEquitiesC2)
    } else if a == 0x57 && b == 0x5f {
        Some(Feed::CboeC2ViaOpra)
    } else if a == 0x58 && b == 0 {
        Some(Feed::PsxViaSip)
    } else if a == 0x58 && b == 0x46 {
        Some(Feed::CmeItcF)
    } else if a == 0x58 && b == 0x4c {
        Some(Feed::CmeItcSp100Sp500)
    } else if a == 0x58 && b == 0x4f {
        Some(Feed::PhlxLevel1)
    } else if a == 0x58 && b == 0x57 {
        Some(Feed::CmeItcW)
    } else if a == 0x58 && b == 0x58 {
        Some(Feed::PsxTotalView)
    } else if a == 0x58 && b == 0x59 {
        Some(Feed::ComexY)
    } else if a == 0x58 && b == 0x5a {
        Some(Feed::ComexZ)
    } else if a == 0x58 && b == 0x5f {
        Some(Feed::PhxlOptionsViaOpra)
    } else if a == 0x59 && b == 0 {
        Some(Feed::ByxViaSip)
    } else if a == 0x59 && b == 0x58 {
        Some(Feed::ByxViaMulticast)
    } else if a == 0x5a && b == 0 {
        Some(Feed::BzxViaSip)
    } else if a == 0x5a && b == 0x51 {
        Some(Feed::BzxLevel1)
    } else if a == 0x5a && b == 0x58 {
        Some(Feed::BzxLevel2)
    } else if a == 0x5a && b == 0x5f {
        Some(Feed::BzxOptionsViaOpra)
    } else if a == 0x5c && b == 0x4e {
        Some(Feed::QuoteMontage)
    } else if a == 0x5c && b == 0x52 {
        Some(Feed::SymbolReference)
    } else if a == 0x5c && b == 0x55 {
        Some(Feed::UserComposite)
    } else if a == 0x5c && b == 0x5c {
        Some(Feed::Nbbo)
    } else if a == 0x5f && b == 0x31 {
        Some(Feed::Connection1)
    } else if a == 0x5f && b == 0x32 {
        Some(Feed::Connection2)
    } else if a == 0x5f && b == 0x33 {
        Some(Feed::Connection3)
    } else if a == 0x5f && b == 0x34 {
        Some(Feed::Connection4)
    } else if a == 0x5f && b == 0x35 {
        Some(Feed::Connection5)
    } else if a == 0x5f && b == 0x36 {
        Some(Feed::Connection6)
    } else if a == 0x5f && b == 0x37 {
        Some(Feed::Connection7)
    } else if a == 0x5f && b == 0x38 {
        Some(Feed::Connection8)
    } else {
        None
    }
}

impl Feed {
    /// Look the two identifier bytes up in the feed table.
    pub fn try_from_bytes(a: u8, b: u8) -> (r: Option<Feed>)
        ensures
            r == spec_feed_of(a, b),
    {
        if a == 0x41 && b == 0 {
            Some(Feed::NyseMktViaSip)
        } else if a == 0x41 && b == 0x41 {
            Some(Feed::ArcaBbo)
        } else if a == 0x41 && b == 0x42 {
            Some(Feed::ArcaBook)
        } else if a == 0x41 && b == 0x43 {
            Some(Feed::AmexOptionsComplex)
        } else if a == 0x41 && b == 0x44 {
            Some(Feed::NyseMktOpenBookUltra)
        } else if a == 0x41 && b == 0x47 {
            Some(Feed::NyseMktIntegrated)
        } else if a == 0x41 && b == 0x49 {
            Some(Feed::NyseMktImbalances)
        } else if a == 0x41 && b == 0x4c {
            Some(Feed::NyseMktAlerts)
        } else if a == 0x41 && b == 0x50 {
            Some(Feed::AmexOptionsPillarTop)
        } else if a == 0x41 && b == 0x54 {
            Some(Feed::AmexTrades)
        } else if a == 0x41 && b == 0x58 {
            Some(Feed::ArcaIntegrated)
        } else if a == 0x41 && b == 0x5a {
            Some(Feed::AmexOptionsPillarDeep)
        } else if a == 0x41 && b == 0x5f {
            Some(Feed::AmexOptionsViaOpra)
        } else if a == 0x42 && b == 0 {
            Some(Feed::BxViaSip)
        } else if a == 0x42 && b == 0x42 {
            Some(Feed::BoxLevel2ViaHsvf)
        } else if a == 0x42 && b == 0x44 {
            Some(Feed::BxOptionsDepthOfMarket)
        } else if a == 0x42 && b == 0x4f {
            Some(Feed::BoxLevel1ViaHsvf)
        } else if a == 0x42 && b == 0x50 {
            Some(Feed::BxOptionsTopOfMarket)
        } else if a == 0x42 && b == 0x51 {
            Some(Feed::BxMatchView)
        } else if a == 0x42 && b == 0x58 {
            Some(Feed::BxTotalView)
        } else if a == 0x42 && b == 0x59 {
            Some(Feed::CbotY)
        } else if a == 0x42 && b == 0x5a {
            Some(Feed::CbotZ)
        } else if a == 0x42 && b == 0x5f {
            Some(Feed::BoxViaOpra)
        } else if a == 0x43 && b == 0 {
            Some(Feed::NyseNationalViaSip)
        } else if a == 0x43 && b == 0x43 {
            Some(Feed::NyseNationalBbo)
        } else if a == 0x43 && b == 0x45 {
            Some(Feed::CitadelIoi)
        } else if a == 0x43 && b == 0x46 {
            Some(Feed::CitadelFixedIncome)
        } else if a == 0x43 && b == 0x49 {
            Some(Feed::CmeIndices)
        } else if a == 0x43 && b == 0x4d {
            Some(Feed::CmePit)
        } else if a == 0x43 && b == 0x4f {
            Some(Feed::CboeC2ViaPitch)
        } else if a == 0x43 && b == 0x53 {
            Some(Feed::CboeIndices)
        } else if a == 0x43 && b == 0x54 {
            Some(Feed::NyseNationalTrades)
        } else if a == 0x43 && b == 0x58 {
            Some(Feed::NyseNationalDepth)
        } else if a == 0x43 && b == 0x59 {
            Some(Feed::CmeY)
        } else if a == 0x43 && b == 0x5a {
            Some(Feed::CmeZ)
        } else if a == 0x43 && b == 0x5f {
            Some(Feed::CboeViaOpra)
        } else if a == 0x44 && b == 0 {
            Some(Feed::FinraViaSip)
        } else if a == 0x44 && b == 0x42 {
            Some(Feed::NasdaqChicagoTrf)
        } else if a == 0x44 && b == 0x49 {
            Some(Feed::DowIndices)
        } else if a == 0x44 && b == 0x4e {
            Some(Feed::NyseTrf)
        } else if a == 0x44 && b == 0x51 {
            Some(Feed::NasdaqCarteretTrf)
        } else if a == 0x44 && b == 0x5f {
            Some(Feed::MiaxEmeraldViaOpra)
        } else if a == 0x45 && b == 0 {
            Some(Feed::IexViaSip)
        } else if a == 0x45 && b == 0x44 {
            Some(Feed::EdgxOptionsViaOpra2)
        } else if a == 0x45 && b == 0x46 {
            Some(Feed::ComexPit)
        } else if a == 0x45 && b == 0x4d {
            Some(Feed::MiaxEmeraldViaTomAis)
        } else if a == 0x45 && b == 0x53 {
            Some(Feed::EspeedItch)
        } else if a == 0x45 && b == 0x58 {
            Some(Feed::EdgxOptionsViaMulticast)
        } else if a == 0x45 && b == 0x5f {
            Some(Feed::EdgxOptionsViaOpra)
        } else if a == 0x46 && b == 0x43 {
            Some(Feed::FenicsGroup1)
        } else if a == 0x46 && b == 0x47 {
            Some(Feed::FenicsGlobal)
        } else if a == 0x46 && b == 0x4e {
            Some(Feed::FenicsGroup2)
        } else if a == 0x46 && b == 0x4f {
            Some(Feed::CboeFuturesPitch)
        } else if a == 0x46 && b == 0x54 {
            Some(Feed::CboeFuturesTop)
        } else if a == 0x46 && b == 0x58 {
            Some(Feed::FenicsCustom)
        } else if a == 0x47 && b == 0x44 {
            Some(Feed::NasdaqGids)
        } else if a == 0x47 && b == 0x49 {
            Some(Feed::NyseGlobalIndexes)
        } else if a == 0x48 && b == 0 {
            Some(Feed::GeminiOpraLegacy)
        } else if a == 0x48 && b == 0x44 {
            Some(Feed::MiaxPerlViaDom)
        } else if a == 0x48 && b == 0x48 {
            Some(Feed::NasdaqGemxTopOfMarket)
        } else if a == 0x48 && b == 0x54 {
            Some(Feed::MiaxPerlViaTom)
        } else if a == 0x48 && b == 0x57 {
            Some(Feed::HanweckRisk)
        } else if a == 0x48 && b == 0x58 {
            Some(Feed::NasdaqGemxDepthOfMarket)
        } else if a == 0x48 && b == 0x5f {
            Some(Feed::GeminiViaOpra)
        } else if a == 0x49 && b == 0 {
            Some(Feed::IseViaSip)
        } else if a == 0x49 && b == 0x41 {
            Some(Feed::IntelligentCrossAdf)
        } else if a == 0x49 && b == 0x43 {
            Some(Feed::IntelligentCrossAspen)
        } else if a == 0x49 && b == 0x44 {
            Some(Feed::IexDeep)
        } else if a == 0x49 && b == 0x45 {
            Some(Feed::IexTops)
        } else if a == 0x49 && b == 0x49 {
            Some(Feed::NasdaqIseTopOfMarket)
        } else if a == 0x49 && b == 0x4d {
            Some(Feed::IntelligentCrossAspenMakerTaker)
        } else if a == 0x49 && b == 0x4f {
            Some(Feed::NasdaqIseOptionsDepthOfMarket)
        } else if a == 0x49 && b == 0x50 {
            Some(Feed::IceUsMarketByPrice)
        } else if a == 0x49 && b == 0x51 {
            Some(Feed::IceUsMarketByPriceNonFullImplied)
        } else if a == 0x49 && b == 0x53 {
            Some(Feed::IseT7)
        } else if a == 0x49 && b == 0x54 {
            Some(Feed::IntelligentCrossTakerMaker)
        } else if a == 0x49 && b == 0x58 {
            Some(Feed::IseInet)
        } else if a == 0x49 && b == 0x59 {
            Some(Feed::IceUsMarketByOrder)
        } else if a == 0x49 && b == 0x5a {
            Some(Feed::IceUsMarketByOrderNonFullImplied)
        } else if a == 0x49 && b == 0x5f {
            Some(Feed::IseViaOpra)
        } else if a == 0x4a && b == 0 {
            Some(Feed::EdgaViaSip)
        } else if a == 0x4a && b == 0x4d {
            Some(Feed::MercuryViaOpraLegacy)
        } else if a == 0x4a && b == 0x4f {
            Some(Feed::NasdaqMrxOptionsDepthOfMarket)
        } else if a == 0x4a && b == 0x53 {
            Some(Feed::JaneStreetIoi)
        } else if a == 0x4a && b == 0x54 {
            Some(Feed::JpmUsTreasuries)
        } else if a == 0x4a && b == 0x58 {
            Some(Feed::EdgaViaMulticast)
        } else if a == 0x4a && b == 0x5f {
            Some(Feed::MercuryViaOpra)
        } else if a == 0x4b && b == 0 {
            Some(Feed::EdgxViaSip)
        } else if a == 0x4b && b == 0x47 {
            Some(Feed::KcgEquityIoi)
        } else if a == 0x4b && b == 0x58 {
            Some(Feed::EdgxViaMulticast)
        } else if a == 0x4b && b == 0x59 {
            Some(Feed::Kcbt)
        } else if a == 0x4c && b == 0 {
            Some(Feed::LtseViaSip)
        } else if a == 0x4c && b == 0x48 {
            Some(Feed::LightPoolDepth)
        } else if a == 0x4c && b == 0x49 {
            Some(Feed::LiffeUsMarketByOrder)
        } else if a == 0x4c && b == 0x4a {
            Some(Feed::LiffeUsMarketByOrderNonFullImplied)
        } else if a == 0x4c && b == 0x4c {
            Some(Feed::LtseMemoirTopOfBook)
        } else if a == 0x4c && b == 0x50 {
            Some(Feed::LiffeUsMarketByPrice)
        } else if a == 0x4c && b == 0x52 {
            Some(Feed::LiffeUsMarketByPriceNonFullImplied)
        } else if a == 0x4c && b == 0x54 {
            Some(Feed::LtseMemoirLastSale)
        } else if a == 0x4c && b == 0x55 {
            Some(Feed::LiffeUsTop)
        } else if a == 0x4c && b == 0x58 {
            Some(Feed::LtseMemoirDepth)
        } else if a == 0x4c && b == 0x59 {
            Some(Feed::LiffeUsDepth)
        } else if a == 0x4d && b == 0 {
            Some(Feed::NyseChicagoViaSip)
        } else if a == 0x4d && b == 0x44 {
            Some(Feed::MiaxEmeraldViaOpraLegacy)
        } else if a == 0x4d && b == 0x49 {
            Some(Feed::MiaxViaOpraLegacy)
        } else if a == 0x4d && b == 0x4d {
            Some(Feed::NyseChicagoBbo)
        } else if a == 0x4d && b == 0x4f {
            Some(Feed::MiaxViaTomAis)
        } else if a == 0x4d && b == 0x54 {
            Some(Feed::NyseChicagoTrades)
        } else if a == 0x4d && b == 0x58 {
            Some(Feed::NyseChicagoIntegrated)
        } else if a == 0x4d && b == 0x59 {
            Some(Feed::MgexY)
        } else if a == 0x4d && b == 0x5a {
            Some(Feed::MgexZ)
        } else if a == 0x4d && b == 0x5f {
            Some(Feed::MiaxViaOpra)
        } else if a == 0x4e && b == 0 {
            Some(Feed::NyseViaSip)
        } else if a == 0x4e && b == 0x41 {
            Some(Feed::NyseMktBbo)
        } else if a == 0x4e && b == 0x43 {
            Some(Feed::NyseArcaOptionsLevel1)
        } else if a == 0x4e && b == 0x46 {
            Some(Feed::NasdaqFixedIncomeItch)
        } else if a == 0x4e && b == 0x47 {
            Some(Feed::NyseIntegrated)
        } else if a == 0x4e && b == 0x49 {
            Some(Feed::NyseImbalances)
        } else if a == 0x4e && b == 0x4c {
            Some(Feed::NyseAlerts)
        } else if a == 0x4e && b == 0x4e {
            Some(Feed::NyseBbo)
        } else if a == 0x4e && b == 0x52 {
            Some(Feed::NyseTrfLevel1)
        } else if a == 0x4e && b == 0x54 {
            Some(Feed::NyseTrades)
        } else if a == 0x4e && b == 0x58 {
            Some(Feed::NyseOpenBookUltra)
        } else if a == 0x4e && b == 0x59 {
            Some(Feed::NymexY)
        } else if a == 0x4e && b == 0x5a {
            Some(Feed::NymexZ)
        } else if a == 0x4f && b == 0 {
            Some(Feed::MiaxPearlViaOpraLegacy)
        } else if a == 0x4f && b == 0x44 {
            Some(Feed::NasdaqOtcMontage)
        } else if a == 0x4f && b == 0x45 {
            Some(Feed::OtcMarketsViaQuoteInsideExpert)
        } else if a == 0x4f && b == 0x54 {
            Some(Feed::OtcMarketsViaQuoteInside)
        } else if a == 0x4f && b == 0x5a {
            Some(Feed::BzxOptionsViaMulticast)
        } else if a == 0x4f && b == 0x5f {
            Some(Feed::MiaxPearlViaOpra)
        } else if a == 0x50 && b == 0 {
            Some(Feed::ArcaViaSip)
        } else if a == 0x50 && b == 0x44 {
            Some(Feed::NasdaqPhlxDepth)
        } else if a == 0x50 && b == 0x45 {
            Some(Feed::OtcMarketsViaQuoteBookExpert)
        } else if a == 0x50 && b == 0x49 {
            Some(Feed::ArcaImbalances)
        } else if a == 0x50 && b == 0x4d {
            Some(Feed::PearlViaTomAis)
        } else if a == 0x50 && b == 0x4f {
            Some(Feed::PhlxOrders)
        } else if a == 0x50 && b == 0x50 {
            Some(Feed::PhlxOptionsTop)
        } else if a == 0x50 && b == 0x51 {
            Some(Feed::PsxMatchView)
        } else if a == 0x50 && b == 0x53 {
            Some(Feed::OtcMarkets)
        } else if a == 0x50 && b == 0x54 {
            Some(Feed::ArcaTrades)
        } else if a == 0x50 && b == 0x58 {
            Some(Feed::OtcMarketsViaQuoteBook)
        } else if a == 0x50 && b == 0x5f {
            Some(Feed::ArcaOptionsViaOpra)
        } else if a == 0x51 && b == 0 {
            Some(Feed::NasdaqViaSip)
        } else if a == 0x51 && b == 0x42 {
            Some(Feed::QuincyCbotEquityFutures)
        } else if a == 0x51 && b == 0x43 {
            Some(Feed::QuincyCmeEquityFutures)
        } else if a == 0x51 && b == 0x46 {
            Some(Feed::NasdaqTrf)
        } else if a == 0x51 && b == 0x50 {
            Some(Feed::BestOfNasdaqOptions)
        } else if a == 0x51 && b == 0x54 {
            Some(Feed::NasdaqExecutionSystem)
        } else if a == 0x51 && b == 0x58 {
            Some(Feed::NasdaqOptionsItto)
        } else if a == 0x51 && b == 0x5f {
            Some(Feed::NasdaqOptionsViaOpra)
        } else if a == 0x52 && b == 0x44 {
            Some(Feed::ArcaOptionsDeep)
        } else if a == 0x52 && b == 0x49 {
            Some(Feed::ArcaOptionsImbalances)
        } else if a == 0x52 && b == 0x52 {
            Some(Feed::ArcaOptionsBbo)
        } else if a == 0x52 && b == 0x54 {
            Some(Feed::ArcaOptionsTrades)
        } else if a == 0x53 && b == 0 {
            Some(Feed::MemxViaSip)
        } else if a == 0x53 && b == 0x48 {
            Some(Feed::SapphireViaTom)
        } else if a == 0x53 && b == 0x4e {
            Some(Feed::SunIoi)
        } else if a == 0x53 && b == 0x53 {
            Some(Feed::MemxTop)
        } else if a == 0x53 && b == 0x54 {
            Some(Feed::MemxLastSale)
        } else if a == 0x53 && b == 0x58 {
            Some(Feed::MemxDepth)
        } else if a == 0x53 && b == 0x5f {
            Some(Feed::SapphireViaOpra)
        } else if a == 0x54 && b == 0 {
            Some(Feed::BxOptionsViaOpraLegacy)
        } else if a == 0x54 && b == 0x58 {
            Some(Feed::NasdaqViaTotalView)
        } else if a == 0x54 && b == 0x59 {
            Some(Feed::CmeBrokerTecY)
        } else if a == 0x54 && b == 0x5a {
            Some(Feed::CmeBrokerTecZ)
        } else if a == 0x54 && b == 0x5f {
            Some(Feed::BxOptionsViaOpra)
        } else if a == 0x55 && b == 0 {
            Some(Feed::OtcBulletinBoard)
        } else if a == 0x55 && b == 0x5a {
            Some(Feed::MemxOptionsDepth)
        } else if a == 0x55 && b == 0x5f {
            Some(Feed::MemxOptionsViaOpra)
        } else if a == 0x56 && b == 0 {
            Some(Feed::OtcOther)
        } else if a == 0x56 && b == 0x46 {
            Some(Feed::NasdasqMarketVelocityAndForces)
        } else if a == 0x56 && b == 0x49 {
            Some(Feed::VirtuFixedIncome)
        } else if a == 0x56 && b == 0x55 {
            Some(Feed::VirtuIoi)
        } else if a == 0x57 && b == 0 {
            Some(Feed::CboeStock)
        } else if a == 0x57 && b == 0x4f {
            Some(Feed::CboeC1ViaPitch)
        } else if a == 0x57 && b == 0x57 {
            Some(Feed::CboeEquitiesC2)
        } else if a == 0x57 && b == 0x5f {
            Some(Feed::CboeC2ViaOpra)
        } else if a == 0x58 && b == 0 {
            Some(Feed::PsxViaSip)
        } else if a == 0x58 && b == 0x46 {
            Some(Feed::CmeItcF)
        } else if a == 0x58 && b == 0x4c {
            Some(Feed::CmeItcSp100Sp500)
        } else if a == 0x58 && b == 0x4f {
            Some(Feed::PhlxLevel1)
        } else if a == 0x58 && b == 0x57 {
            Some(Feed::CmeItcW)
        } else if a == 0x58 && b == 0x58 {
            Some(Feed::PsxTotalView)
        } else if a == 0x58 && b == 0x59 {
            Some(Feed::ComexY)
        } else if a == 0x58 && b == 0x5a {
            Some(Feed::ComexZ)
        } else if a == 0x58 && b == 0x5f {
            Some(Feed::PhxlOptionsViaOpra)
        } else if a == 0x59 && b == 0 {
            Some(Feed::ByxViaSip)
        } else if a == 0x59 && b == 0x58 {
            Some(Feed::ByxViaMulticast)
        } else if a == 0x5a && b == 0 {
            Some(Feed::BzxViaSip)
        } else if a == 0x5a && b == 0x51 {
            Some(Feed::BzxLevel1)
        } else if a == 0x5a && b == 0x58 {
            Some(Feed::BzxLevel2)
        } else if a == 0x5a && b == 0x5f {
            Some(Feed::BzxOptionsViaOpra)
        } else if a == 0x5c && b == 0x4e {
            Some(Feed::QuoteMontage)
        } else if a == 0x5c && b == 0x52 {
            Some(Feed::SymbolReference)
        } else if a == 0x5c && b == 0x55 {
            Some(Feed::UserComposite)
        } else if a == 0x5c && b == 0x5c {
            Some(Feed::Nbbo)
        } else if a == 0x5f && b == 0x31 {
            Some(Feed::Connection1)
        } else if a == 0x5f && b == 0x32 {
            Some(Feed::Connection2)
        } else if a == 0x5f && b == 0x33 {
            Some(Feed::Connection3)
        } else if a == 0x5f && b == 0x34 {
            Some(Feed::Connection4)
        } else if a == 0x5f && b == 0x35 {
            Some(Feed::Connection5)
        } else if a == 0x5f && b == 0x36 {
            Some(Feed::Connection6)
        } else if a == 0x5f && b == 0x37 {
            Some(Feed::Connection7)
        } else if a == 0x5f && b == 0x38 {
            Some(Feed::Connection8)
        } else {
            None
        }
    }

    /// Look a feed identifier up in the feed table.
    pub fn try_from_id(id: &Id) -> (r: Option<Feed>)
        ensures
            r == spec_feed_of(id.bytes@[0], id.bytes@[1]),
    {
        Self::try_from_bytes(id.bytes[0], id.bytes[1])
    }
}

impl FeedTrait for Feed {
    /// The operating-MIC table covers only the venues it has been
    /// filled in for so far.
    open spec fn mic_known(&self) -> bool {
        match *self {
            Feed::NyseMktAlerts | Feed::NyseMktBbo | Feed::NyseMktImbalances | Feed::NyseMktIntegrated | Feed::NyseMktOpenBookUltra | Feed::NyseMktViaSip | Feed::ArcaBbo | Feed::ArcaBook | Feed::ArcaImbalances | Feed::ArcaIntegrated | Feed::ArcaTrades | Feed::ArcaViaSip => true,
            _ => false,
        }
    }

    open spec fn spec_mic(&self) -> Option<i32> {
        match *self {
            Feed::NyseMktAlerts | Feed::NyseMktBbo | Feed::NyseMktImbalances | Feed::NyseMktIntegrated | Feed::NyseMktOpenBookUltra | Feed::NyseMktViaSip => Some(MIC_PLACEHOLDER),
            Feed::ArcaBbo | Feed::ArcaBook | Feed::ArcaImbalances | Feed::ArcaIntegrated | Feed::ArcaTrades | Feed::ArcaViaSip => Some(MIC_ARCX),
            _ => None,
        }
    }

    open spec fn spec_group(&self) -> Group {
        Group::Country(Country::UnitedStates)
    }

    fn mic(&self) -> (r: Option<i32>) {
        match *self {
            Feed::NyseMktAlerts | Feed::NyseMktBbo | Feed::NyseMktImbalances | Feed::NyseMktIntegrated | Feed::NyseMktOpenBookUltra | Feed::NyseMktViaSip => Some(MIC_PLACEHOLDER),
            Feed::ArcaBbo | Feed::ArcaBook | Feed::ArcaImbalances | Feed::ArcaIntegrated | Feed::ArcaTrades | Feed::ArcaViaSip => Some(MIC_ARCX),
            _ => None,
        }
    }

    fn group(&self) -> (r: Group) {
        Group::Country(Country::UnitedStates)
    }
}

} // verus!
