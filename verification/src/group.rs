//! Feed group ("country" code) support.
//!
//! The native library files every feed under a two-ASCII-byte group
//! identifier: real countries, and a set of corporate feeds that the
//! vendor files under the same code space.

use vstd::prelude::*;

verus! {

/// A feed group identifier: two ASCII bytes.
#[derive(Clone, Copy, Debug)]
pub struct Id {
    /// The two identifier bytes.
    pub bytes: [u8; 2],
}

/// A group of feeds.
#[derive(Clone, Copy, Debug, PartialEq, Eq, Structural)]
pub enum Group {
    /// This group represents a country.
    Country(Country),
    /// This group represents a global vendor feed.
    Corporate(Corporate),
}

/// The group a pair of identifier bytes denotes: a country when the
/// country table knows the pair, else a corporate feed when that table
/// does.
pub open spec fn spec_group_of(a: u8, b: u8) -> Option<Group> {
    match spec_country_of(a, b) {
        Some(c) => Some(Group::Country(c)),
        None => match spec_corporate_of(a, b) {
            Some(c) => Some(Group::Corporate(c)),
            None => None,
        },
    }
}

impl Group {
    /// Look the two identifier bytes up, countries first, then the
    /// corporate table.
    pub fn try_from_bytes(a: u8, b: u8) -> (r: Option<Group>)
        ensures
            r == spec_group_of(a, b),
    {
        match Country::try_from_bytes(a, b) {
            Some(c) => Some(Group::Country(c)),
            None => match Corporate::try_from_bytes(a, b) {
                Some(c) => Some(Group::Corporate(c)),
                None => None,
            },
        }
    }

    /// Look a group identifier up in both tables.
    pub fn try_from_id(id: &Id) -> (r: Option<Group>)
        ensures
            r == spec_group_of(id.bytes@[0], id.bytes@[1]),
    {
        Self::try_from_bytes(id.bytes[0], id.bytes[1])
    }
}

/// An enumeration of country codes in use by the native library.
#[derive(Clone, Copy, Debug, PartialEq, Eq, Structural)]
pub enum Country {
    /// United Arab Emirates
    UnitedArabEmirates,
    /// Antigua And Barbuda
    AntiguaAndBarbuda,
    /// Anguilla
    Anguilla,
    /// Netherlands Antilles
    NetherlandsAntilles,
    /// Argentina
    Argentina,
    /// Austria
    Austria,
    /// Australia
    Australia,
    /// Barbados
    Barbados,
    /// Bangladesh
    Bangladesh,
    /// Belgium
    Belgium,
    /// Bahrain
    Bahrain,
    /// Bermuda
    Bermuda,
    /// Brazil
    Brazil,
    /// Bahamas
    Bahamas,
    /// Botswana
    Botswana,
    /// Benelux
    Benelux,
    /// Belize
    Belize,
    /// Canada
    Canada,
    /// Congo
    Congo,
    /// Switzerland
    Switzerland,
    /// Cote D'ivoire
    CoteDivoire,
    /// Chile
    Chile,
    /// Cameroon
    Cameroon,
    /// China
    China,
    /// Colombia
    Colombia,
    /// Cuba
    Cuba,
    /// Curacao
    Curacao,
    /// Cyprus
    Cyprus,
    /// Czech Republic
    CzechRepublic,
    /// Germany
    Germany,
    /// Denmark
    Denmark,
    /// Algeria
    Algeria,
    /// Estonia
    Estonia,
    /// Egypt
    Egypt,
    /// Spain
    Spain,
    /// European Union
    EuropeanUnion,
    /// Finland
    Finland,
    /// Falkland Islands
    FalklandIslands,
    /// Faroe Islands
    FaroeIslands,
    /// France
    France,
    /// Gabon
    Gabon,
    /// United Kingdom
    UnitedKingdom,
    /// Guernsey
    Guernsey,
    /// Gibraltar
    Gibraltar,
    /// Greece
    Greece,
    /// Hong Kong
    HongKong,
    /// Croatia
    Croatia,
    /// Hungary
    Hungary,
    /// Indonesia
    Indonesia,
    /// Ireland
    Ireland,
    /// Israel
    Israel,
    /// India
    India,
    /// Iraq
    Iraq,
    /// Iran
    Iran,
    /// Iceland
    Iceland,
    /// Italy
    Italy,
    /// Jersey
    Jersey,
    /// Jamaica
    Jamaica,
    /// Jordan
    Jordan,
    /// Japan
    Japan,
    /// Kenya
    Kenya,
    /// Saint Kitts and Nevis
    SaintKittsAndNevis,
    /// Republic Of Korea
    RepublicOfKorea,
    /// Kuwait
    Kuwait,
    /// Cayman Islands
    CaymanIslands,
    /// Liechtenstein
    Liechtenstein,
    /// Liberia
    Liberia,
    /// Lesotho
    Lesotho,
    /// Lithuania
    Lithuania,
    /// Luxembourg
    Luxembourg,
    /// Latvia
    Latvia,
    /// Morocco
    Morocco,
    /// Monaco
    Monaco,
    /// Marshall Islands
    MarshallIslands,
    /// Malta
    Malta,
    /// Mauritius
    Mauritius,
    /// Mexico
    Mexico,
    /// Malaysia
    Malaysia,
    /// Namibia
    Namibia,
    /// Nigeria
    Nigeria,
    /// Netherlands
    Netherlands,
    /// Norway
    Norway,
    /// New Zealand
    NewZealand,
    /// Panama
    Panama,
    /// Peru
    Peru,
    /// Papua New Guinea
    PapuaNewGuinea,
    /// Philippines
    Philippines,
    /// Pakistan
    Pakistan,
    /// Poland
    Poland,
    /// Puerto Rico
    PuertoRico,
    /// Portugal
    Portugal,
    /// Qatar
    Qatar,
    /// Kosovo
    Kosovo,
    /// Romania
    Romania,
    /// Russian Federation
    RussianFederation,
    /// Saudi Arabia
    SaudiArabia,
    /// Sweden
    Sweden,
    /// Singapore
    Singapore,
    /// Slovenia
    Slovenia,
    /// Slovak Republic
    SlovakRepublic,
    /// Senegal
    Senegal,
    /// Thailand
    Thailand,
    /// Turkey
    Turkey,
    /// Ukraine
    Ukraine,
    /// United States
    UnitedStates,
    /// Venezuela
    Venezuela,
    /// British Virgin Islands
    BritishVirginIslands,
    /// VietNam
    VietNam,
    /// Pan-European
    PanEuropean,
    /// South Africa
    SouthAfrica,
    /// Zambia
    Zambia,
    /// Zimbabwe
    Zimbabwe,
}

/// The table of country codes, as one spec-level lookup over the two
/// identifier bytes.
pub open spec fn spec_country_of(a: u8, b: u8) -> Option<Country> {
    if a == 0x41 && b == 0x45 {
        Some(Country::UnitedArabEmirates)
    } else if a == 0x41 && b == 0x47 {
        Some(Country::AntiguaAndBarbuda)
    } else if a == 0x41 && b == 0x49 {
        Some(Country::Anguilla)
    } else if a == 0x41 && b == 0x4e {
        Some(Country::NetherlandsAntilles)
    } else if a == 0x41 && b == 0x52 {
        Some(Country::Argentina)
    } else if a == 0x41 && b == 0x54 {
        Some(Country::Austria)
    } else if a == 0x41 && b == 0x55 {
        Some(Country::Australia)
    } else if a == 0x42 && b == 0x42 {
        Some(Country::Barbados)
    } else if a == 0x42 && b == 0x44 {
        Some(Country::Bangladesh)
    } else if a == 0x42 && b == 0x45 {
        Some(Country::Belgium)
    } else if a == 0x42 && b == 0x48 {
        Some(Country::Bahrain)
    } else if a == 0x42 && b == 0x4d {
        Some(Country::Bermuda)
    } else if a == 0x42 && b == 0x52 {
        Some(Country::Brazil)
    } else if a == 0x42 && b == 0x53 {
        Some(Country::Bahamas)
    } else if a == 0x42 && b == 0x57 {
        Some(Country::Botswana)
    } else if a == 0x42 && b == 0x58 {
        Some(Country::Benelux)
    } else if a == 0x42 && b == 0x5a {
        Some(Country::Belize)
    } else if a == 0x43 && b == 0x41 {
        Some(Country::Canada)
    } else if a == 0x43 && b == 0x47 {
        Some(Country::Congo)
    } else if a == 0x43 && b == 0x48 {
        Some(Country::Switzerland)
    } else if a == 0x43 && b == 0x49 {
        Some(Country::CoteDivoire)
    } else if a == 0x43 && b == 0x4c {
        Some(Country::Chile)
    } else if a == 0x43 && b == 0x4d {
        Some(Country::Cameroon)
    } else if a == 0x43 && b == 0x4e {
        Some(Country::China)
    } else if a == 0x43 && b == 0x4f {
        Some(Country::Colombia)
    } else if a == 0x43 && b == 0x55 {
        Some(Country::Cuba)
    } else if a == 0x43 && b == 0x57 {
        Some(Country::Curacao)
    } else if a == 0x43 && b == 0x59 {
        Some(Country::Cyprus)
    } else if a == 0x43 && b == 0x5a {
        Some(Country::CzechRepublic)
    } else if a == 0x44 && b == 0x45 {
        Some(Country::Germany)
    } else if a == 0x44 && b == 0x4b {
        Some(Country::Denmark)
    } else if a == 0x44 && b == 0x5a {
        Some(Country::Algeria)
    } else if a == 0x45 && b == 0x45 {
        Some(Country::Estonia)
    } else if a == 0x45 && b == 0x47 {
        Some(Country::Egypt)
    } else if a == 0x45 && b == 0x53 {
        Some(Country::Spain)
    } else if a == 0x45 && b == 0x55 {
        Some(Country::EuropeanUnion)
    } else if a == 0x46 && b == 0x49 {
        Some(Country::Finland)
    } else if a == 0x46 && b == 0x4b {
        Some(Country::FalklandIslands)
    } else if a == 0x46 && b == 0x4f {
        Some(Country::FaroeIslands)
    } else if a == 0x46 && b == 0x52 {
        Some(Country::France)
    } else if a == 0x47 && b == 0x41 {
        Some(Country::Gabon)
    } else if a == 0x47 && b == 0x42 {
        Some(Country::UnitedKingdom)
    } else if a == 0x47 && b == 0x47 {
        Some(Country::Guernsey)
    } else if a == 0x47 && b == 0x49 {
        Some(Country::Gibraltar)
    } else if a == 0x47 && b == 0x52 {
        Some(Country::Greece)
    } else if a == 0x48 && b == 0x4b {
        Some(Country::HongKong)
    } else if a == 0x48 && b == 0x52 {
        Some(Country::Croatia)
    } else if a == 0x48 && b == 0x55 {
        Some(Country::Hungary)
    } else if a == 0x49 && b == 0x44 {
        Some(Country::Indonesia)
    } else if a == 0x49 && b == 0x45 {
        Some(Country::Ireland)
    } else if a == 0x49 && b == 0x4c {
        Some(Country::Israel)
    } else if a == 0x49 && b == 0x4e {
        Some(Country::India)
    } else if a == 0x49 && b == 0x51 {
        Some(Country::Iraq)
    } else if a == 0x49 && b == 0x52 {
        Some(Country::Iran)
    } else if a == 0x49 && b == 0x53 {
        Some(Country::Iceland)
    } else if a == 0x49 && b == 0x54 {
        Some(Country::Italy)
    } else if a == 0x4a && b == 0x45 {
        Some(Country::Jersey)
    } else if a == 0x4a && b == 0x4d {
        Some(Country::Jamaica)
    } else if a == 0x4a && b == 0x4f {
        Some(Country::Jordan)
    } else if a == 0x4a && b == 0x50 {
        Some(Country::Japan)
    } else if a == 0x4b && b == 0x45 {
        Some(Country::Kenya)
    } else if a == 0x4b && b == 0x4e {
        Some(Country::SaintKittsAndNevis)
    } else if a == 0x4b && b == 0x52 {
        Some(Country::RepublicOfKorea)
    } else if a == 0x4b && b == 0x57 {
        Some(Country::Kuwait)
    } else if a == 0x4b && b == 0x59 {
        Some(Country::CaymanIslands)
    } else if a == 0x4c && b == 0x49 {
        Some(Country::Liechtenstein)
    } else if a == 0x4c && b == 0x52 {
        Some(Country::Liberia)
    } else if a == 0x4c && b == 0x53 {
        Some(Country::Lesotho)
    } else if a == 0x4c && b == 0x54 {
        Some(Country::Lithuania)
    } else if a == 0x4c && b == 0x55 {
        Some(Country::Luxembourg)
    } else if a == 0x4c && b == 0x56 {
        Some(Country::Latvia)
    } else if a == 0x4d && b == 0x41 {
        Some(Country::Morocco)
    } else if a == 0x4d && b == 0x43 {
        Some(Country::Monaco)
    } else if a == 0x4d && b == 0x48 {
        Some(Country::MarshallIslands)
    } else if a == 0x4d && b == 0x54 {
        Some(Country::Malta)
    } else if a == 0x4d && b == 0x55 {
        Some(Country::Mauritius)
    } else if a == 0x4d && b == 0x58 {
        Some(Country::Mexico)
    } else if a == 0x4d && b == 0x59 {
        Some(Country::Malaysia)
    } else if a == 0x4e && b == 0x41 {
        Some(Country::Namibia)
    } else if a == 0x4e && b == 0x47 {
        Some(Country::Nigeria)
    } else if a == 0x4e && b == 0x4c {
        Some(Country::Netherlands)
    } else if a == 0x4e && b == 0x4f {
        Some(Country::Norway)
    } else if a == 0x4e && b == 0x5a {
        Some(Country::NewZealand)
    } else if a == 0x50 && b == 0x41 {
        Some(Country::Panama)
    } else if a == 0x50 && b == 0x45 {
        Some(Country::Peru)
    } else if a == 0x50 && b == 0x47 {
        Some(Country::PapuaNewGuinea)
    } else if a == 0x50 && b == 0x48 {
        Some(Country::Philippines)
    } else if a == 0x50 && b == 0x4b {
        Some(Country::Pakistan)
    } else if a == 0x50 && b == 0x4c {
        Some(Country::Poland)
    } else if a == 0x50 && b == 0x52 {
        Some(Country::PuertoRico)
    } else if a == 0x50 && b == 0x54 {
        Some(Country::Portugal)
    } else if a == 0x51 && b == 0x41 {
        Some(Country::Qatar)
    } else if a == 0x51 && b == 0x4f {
        Some(Country::Kosovo)
    } else if a == 0x52 && b == 0x4f {
        Some(Country::Romania)
    } else if a == 0x52 && b == 0x55 {
        Some(Country::RussianFederation)
    } else if a == 0x53 && b == 0x41 {
        Some(Country::SaudiArabia)
    } else if a == 0x53 && b == 0x45 {
        Some(Country::Sweden)
    } else if a == 0x53 && b == 0x47 {
        Some(Country::Singapore)
    } else if a == 0x53 && b == 0x49 {
        Some(Country::Slovenia)
    } else if a == 0x53 && b == 0x4b {
        Some(Country::SlovakRepublic)
    } else if a == 0x53 && b == 0x4e {
        Some(Country::Senegal)
    } else if a == 0x54 && b == 0x48 {
        Some(Country::Thailand)
    } else if a == 0x54 && b == 0x52 {
        Some(Country::Turkey)
    } else if a == 0x55 && b == 0x41 {
        Some(Country::Ukraine)
    } else if a == 0x55 && b == 0x53 {
        Some(Country::UnitedStates)
    } else if a == 0x56 && b == 0x45 {
        Some(Country::Venezuela)
    } else if a == 0x56 && b == 0x47 {
        Some(Country::BritishVirginIslands)
    } else if a == 0x56 && b == 0x4e {
        Some(Country::VietNam)
    } else if a == 0x58 && b == 0x53 {
        Some(Country::PanEuropean)
    } else if a == 0x5a && b == 0x41 {
        Some(Country::SouthAfrica)
    } else if a == 0x5a && b == 0x4d {
        Some(Country::Zambia)
    } else if a == 0x5a && b == 0x57 {
        Some(Country::Zimbabwe)
    } else {
        None
    }
}

impl Country {
    /// Look the two identifier bytes up in the country table.
    pub fn try_from_bytes(a: u8, b: u8) -> (r: Option<Country>)
        ensures
            r == spec_country_of(a, b),
    {
        if a == 0x41 && b == 0x45 {
            Some(Country::UnitedArabEmirates)
        } else if a == 0x41 && b == 0x47 {
            Some(Country::AntiguaAndBarbuda)
        } else if a == 0x41 && b == 0x49 {
            Some(Country::Anguilla)
        } else if a == 0x41 && b == 0x4e {
            Some(Country::NetherlandsAntilles)
        } else if a == 0x41 && b == 0x52 {
            Some(Country::Argentina)
        } else if a == 0x41 && b == 0x54 {
            Some(Country::Austria)
        } else if a == 0x41 && b == 0x55 {
            Some(Country::Australia)
        } else if a == 0x42 && b == 0x42 {
            Some(Country::Barbados)
        } else if a == 0x42 && b == 0x44 {
            Some(Country::Bangladesh)
        } else if a == 0x42 && b == 0x45 {
            Some(Country::Belgium)
        } else if a == 0x42 && b == 0x48 {
            Some(Country::Bahrain)
        } else if a == 0x42 && b == 0x4d {
            Some(Country::Bermuda)
        } else if a == 0x42 && b == 0x52 {
            Some(Country::Brazil)
        } else if a == 0x42 && b == 0x53 {
            Some(Country::Bahamas)
        } else if a == 0x42 && b == 0x57 {
            Some(Country::Botswana)
        } else if a == 0x42 && b == 0x58 {
            Some(Country::Benelux)
        } else if a == 0x42 && b == 0x5a {
            Some(Country::Belize)
        } else if a == 0x43 && b == 0x41 {
            Some(Country::Canada)
        } else if a == 0x43 && b == 0x47 {
            Some(Country::Congo)
        } else if a == 0x43 && b == 0x48 {
            Some(Country::Switzerland)
        } else if a == 0x43 && b == 0x49 {
            Some(Country::CoteDivoire)
        } else if a == 0x43 && b == 0x4c {
            Some(Country::Chile)
        } else if a == 0x43 && b == 0x4d {
            Some(Country::Cameroon)
        } else if a == 0x43 && b == 0x4e {
            Some(Country::China)
        } else if a == 0x43 && b == 0x4f {
            Some(Country::Colombia)
        } else if a == 0x43 && b == 0x55 {
            Some(Country::Cuba)
        } else if a == 0x43 && b == 0x57 {
            Some(Country::Curacao)
        } else if a == 0x43 && b == 0x59 {
            Some(Country::Cyprus)
        } else if a == 0x43 && b == 0x5a {
            Some(Country::CzechRepublic)
        } else if a == 0x44 && b == 0x45 {
            Some(Country::Germany)
        } else if a == 0x44 && b == 0x4b {
            Some(Country::Denmark)
        } else if a == 0x44 && b == 0x5a {
            Some(Country::Algeria)
        } else if a == 0x45 && b == 0x45 {
            Some(Country::Estonia)
        } else if a == 0x45 && b == 0x47 {
            Some(Country::Egypt)
        } else if a == 0x45 && b == 0x53 {
            Some(Country::Spain)
        } else if a == 0x45 && b == 0x55 {
            Some(Country::EuropeanUnion)
        } else if a == 0x46 && b == 0x49 {
            Some(Country::Finland)
        } else if a == 0x46 && b == 0x4b {
            Some(Country::FalklandIslands)
        } else if a == 0x46 && b == 0x4f {
            Some(Country::FaroeIslands)
        } else if a == 0x46 && b == 0x52 {
            Some(Country::France)
        } else if a == 0x47 && b == 0x41 {
            Some(Country::Gabon)
        } else if a == 0x47 && b == 0x42 {
            Some(Country::UnitedKingdom)
        } else if a == 0x47 && b == 0x47 {
            Some(Country::Guernsey)
        } else if a == 0x47 && b == 0x49 {
            Some(Country::Gibraltar)
        } else if a == 0x47 && b == 0x52 {
            Some(Country::Greece)
        } else if a == 0x48 && b == 0x4b {
            Some(Country::HongKong)
        } else if a == 0x48 && b == 0x52 {
            Some(Country::Croatia)
        } else if a == 0x48 && b == 0x55 {
            Some(Country::Hungary)
        } else if a == 0x49 && b == 0x44 {
            Some(Country::Indonesia)
        } else if a == 0x49 && b == 0x45 {
            Some(Country::Ireland)
        } else if a == 0x49 && b == 0x4c {
            Some(Country::Israel)
        } else if a == 0x49 && b == 0x4e {
            Some(Country::India)
        } else if a == 0x49 && b == 0x51 {
            Some(Country::Iraq)
        } else if a == 0x49 && b == 0x52 {
            Some(Country::Iran)
        } else if a == 0x49 && b == 0x53 {
            Some(Country::Iceland)
        } else if a == 0x49 && b == 0x54 {
            Some(Country::Italy)
        } else if a == 0x4a && b == 0x45 {
            Some(Country::Jersey)
        } else if a == 0x4a && b == 0x4d {
            Some(Country::Jamaica)
        } else if a == 0x4a && b == 0x4f {
            Some(Country::Jordan)
        } else if a == 0x4a && b == 0x50 {
            Some(Country::Japan)
        } else if a == 0x4b && b == 0x45 {
            Some(Country::Kenya)
        } else if a == 0x4b && b == 0x4e {
            Some(Country::SaintKittsAndNevis)
        } else if a == 0x4b && b == 0x52 {
            Some(Country::RepublicOfKorea)
        } else if a == 0x4b && b == 0x57 {
            Some(Country::Kuwait)
        } else if a == 0x4b && b == 0x59 {
            Some(Country::CaymanIslands)
        } else if a == 0x4c && b == 0x49 {
            Some(Country::Liechtenstein)
        } else if a == 0x4c && b == 0x52 {
            Some(Country::Liberia)
        } else if a == 0x4c && b == 0x53 {
            Some(Country::Lesotho)
        } else if a == 0x4c && b == 0x54 {
            Some(Country::Lithuania)
        } else if a == 0x4c && b == 0x55 {
            Some(Country::Luxembourg)
        } else if a == 0x4c && b == 0x56 {
            Some(Country::Latvia)
        } else if a == 0x4d && b == 0x41 {
            Some(Country::Morocco)
        } else if a == 0x4d && b == 0x43 {
            Some(Country::Monaco)
        } else if a == 0x4d && b == 0x48 {
            Some(Country::MarshallIslands)
        } else if a == 0x4d && b == 0x54 {
            Some(Country::Malta)
        } else if a == 0x4d && b == 0x55 {
            Some(Country::Mauritius)
        } else if a == 0x4d && b == 0x58 {
            Some(Country::Mexico)
        } else if a == 0x4d && b == 0x59 {
            Some(Country::Malaysia)
        } else if a == 0x4e && b == 0x41 {
            Some(Country::Namibia)
        } else if a == 0x4e && b == 0x47 {
            Some(Country::Nigeria)
        } else if a == 0x4e && b == 0x4c {
            Some(Country::Netherlands)
        } else if a == 0x4e && b == 0x4f {
            Some(Country::Norway)
        } else if a == 0x4e && b == 0x5a {
            Some(Country::NewZealand)
        } else if a == 0x50 && b == 0x41 {
            Some(Country::Panama)
        } else if a == 0x50 && b == 0x45 {
            Some(Country::Peru)
        } else if a == 0x50 && b == 0x47 {
            Some(Country::PapuaNewGuinea)
        } else if a == 0x50 && b == 0x48 {
            Some(Country::Philippines)
        } else if a == 0x50 && b == 0x4b {
            Some(Country::Pakistan)
        } else if a == 0x50 && b == 0x4c {
            Some(Country::Poland)
        } else if a == 0x50 && b == 0x52 {
            Some(Country::PuertoRico)
        } else if a == 0x50 && b == 0x54 {
            Some(Country::Portugal)
        } else if a == 0x51 && b == 0x41 {
            Some(Country::Qatar)
        } else if a == 0x51 && b == 0x4f {
            Some(Country::Kosovo)
        } else if a == 0x52 && b == 0x4f {
            Some(Country::Romania)
        } else if a == 0x52 && b == 0x55 {
            Some(Country::RussianFederation)
        } else if a == 0x53 && b == 0x41 {
            Some(Country::SaudiArabia)
        } else if a == 0x53 && b == 0x45 {
            Some(Country::Sweden)
        } else if a == 0x53 && b == 0x47 {
            Some(Country::Singapore)
        } else if a == 0x53 && b == 0x49 {
            Some(Country::Slovenia)
        } else if a == 0x53 && b == 0x4b {
            Some(Country::SlovakRepublic)
        } else if a == 0x53 && b == 0x4e {
            Some(Country::Senegal)
        } else if a == 0x54 && b == 0x48 {
            Some(Country::Thailand)
        } else if a == 0x54 && b == 0x52 {
            Some(Country::Turkey)
        } else if a == 0x55 && b == 0x41 {
            Some(Country::Ukraine)
        } else if a == 0x55 && b == 0x53 {
            Some(Country::UnitedStates)
        } else if a == 0x56 && b == 0x45 {
            Some(Country::Venezuela)
        } else if a == 0x56 && b == 0x47 {
            Some(Country::BritishVirginIslands)
        } else if a == 0x56 && b == 0x4e {
            Some(Country::VietNam)
        } else if a == 0x58 && b == 0x53 {
            Some(Country::PanEuropean)
        } else if a == 0x5a && b == 0x41 {
            Some(Country::SouthAfrica)
        } else if a == 0x5a && b == 0x4d {
            Some(Country::Zambia)
        } else if a == 0x5a && b == 0x57 {
            Some(Country::Zimbabwe)
        } else {
            None
        }
    }

    /// Look a group identifier up in the country table.
    pub fn try_from_id(id: &Id) -> (r: Option<Country>)
        ensures
            r == spec_country_of(id.bytes@[0], id.bytes@[1]),
    {
        Self::try_from_bytes(id.bytes[0], id.bytes[1])
    }
}

/// An enumeration of corporate feeds that the vendor files under "country" codes.
#[derive(Clone, Copy, Debug, PartialEq, Eq, Structural)]
pub enum Corporate {
    /// Aquis
    Aquis,
    /// Barclays
    Barclays,
    /// Bgc
    Bgc,
    /// Citadel
    Citadel,
    /// Citi
    Citi,
    /// Curex
    Curex,
    /// CitadelEu
    CitadelEu,
    /// Currenex
    Currenex,
    /// DeutscheBank
    DeutscheBank,
    /// UnknownDi
    UnknownDi,
    /// DealerWeb
    DealerWeb,
    /// UnknownDx
    UnknownDx,
    /// Ebs
    Ebs,
    /// EbsCreditScreened
    EbsCreditScreened,
    /// Fenics
    Fenics,
    /// FastMatch
    FastMatch,
    /// FlowTraders
    FlowTraders,
    /// ForeignExchange
    ForeignExchange,
    /// Gfi
    Gfi,
    /// GainCapital
    GainCapital,
    /// Hotspot
    Hotspot,
    /// Missing1
    Missing1,
    /// HudsonRiverTrading
    HudsonRiverTrading,
    /// Imc
    Imc,
    /// IntegralFx
    IntegralFx,
    /// JaneStreet
    JaneStreet,
    /// Jump
    Jump,
    /// Kcg
    Kcg,
    /// LiquidityEdge
    LiquidityEdge,
    /// Lmax
    Lmax,
    /// LmaxPro
    LmaxPro,
    /// MorganStanley
    MorganStanley,
    /// NasdaqOcean
    NasdaqOcean,
    /// ParFx
    ParFx,
    /// UnknownQq
    UnknownQq,
    /// UnknownQs
    UnknownQs,
    /// UnknownQx
    UnknownQx,
    /// TestQy
    TestQy,
    /// TestQz
    TestQz,
    /// Rbc
    Rbc,
    /// ThomsonReutersRfaGlobalData
    ThomsonReutersRfaGlobalData,
    /// SpotStream
    SpotStream,
    /// StateStreet
    StateStreet,
    /// Tower
    Tower,
    /// Ubs
    Ubs,
    /// ExegyVirtu
    ExegyVirtu,
    /// BloombergEquities
    BloombergEquities,
    /// BloombergCommodities
    BloombergCommodities,
    /// ExegyCustomerInternal
    ExegyCustomerInternal,
    /// UnknownXd
    UnknownXd,
    /// Xtx
    Xtx,
    /// ExegyInternal
    ExegyInternal,
    /// TestXy
    TestXy,
    /// TestXz
    TestXz,
    /// UnknownZy
    UnknownZy,
    /// TestZz
    TestZz,
}

/// The table of corporate codes, as one spec-level lookup over the two
/// identifier bytes.
pub open spec fn spec_corporate_of(a: u8, b: u8) -> Option<Corporate> {
    if a == 0x41 && b == 0x51 {
        Some(Corporate::Aquis)
    } else if a == 0x42 && b == 0x43 {
        Some(Corporate::Barclays)
    } else if a == 0x42 && b == 0x47 {
        Some(Corporate::Bgc)
    } else if a == 0x43 && b == 0x45 {
        Some(Corporate::Citadel)
    } else if a == 0x43 && b == 0x50 {
        Some(Corporate::Citi)
    } else if a == 0x43 && b == 0x52 {
        Some(Corporate::Curex)
    } else if a == 0x43 && b == 0x53 {
        Some(Corporate::CitadelEu)
    } else if a == 0x43 && b == 0x58 {
        Some(Corporate::Currenex)
    } else if a == 0x44 && b == 0x42 {
        Some(Corporate::DeutscheBank)
    } else if a == 0x44 && b == 0x49 {
        Some(Corporate::UnknownDi)
    } else if a == 0x44 && b == 0x57 {
        Some(Corporate::DealerWeb)
    } else if a == 0x44 && b == 0x58 {
        Some(Corporate::UnknownDx)
    } else if a == 0x45 && b == 0x42 {
        Some(Corporate::Ebs)
    } else if a == 0x45 && b == 0x43 {
        Some(Corporate::EbsCreditScreened)
    } else if a == 0x46 && b == 0x43 {
        Some(Corporate::Fenics)
    } else if a == 0x46 && b == 0x4d {
        Some(Corporate::FastMatch)
    } else if a == 0x46 && b == 0x54 {
        Some(Corporate::FlowTraders)
    } else if a == 0x46 && b == 0x58 {
        Some(Corporate::ForeignExchange)
    } else if a == 0x47 && b == 0x46 {
        Some(Corporate::Gfi)
    } else if a == 0x47 && b == 0x54 {
        Some(Corporate::GainCapital)
    } else if a == 0x48 && b == 0x46 {
        Some(Corporate::Hotspot)
    } else if a == 0x48 && b == 0x53 {
        Some(Corporate::Missing1)
    } else if a == 0x48 && b == 0x54 {
        Some(Corporate::HudsonRiverTrading)
    } else if a == 0x49 && b == 0x4d {
        Some(Corporate::Imc)
    } else if a == 0x49 && b == 0x4e {
        Some(Corporate::IntegralFx)
    } else if a == 0x4a && b == 0x53 {
        Some(Corporate::JaneStreet)
    } else if a == 0x4a && b == 0x55 {
        Some(Corporate::Jump)
    } else if a == 0x4b && b == 0x47 {
        Some(Corporate::Kcg)
    } else if a == 0x4c && b == 0x45 {
        Some(Corporate::LiquidityEdge)
    } else if a == 0x4c && b == 0x48 {
        Some(Corporate::Lmax)
    } else if a == 0x4c && b == 0x50 {
        Some(Corporate::LmaxPro)
    } else if a == 0x4d && b == 0x53 {
        Some(Corporate::MorganStanley)
    } else if a == 0x4e && b == 0x53 {
        Some(Corporate::NasdaqOcean)
    } else if a == 0x50 && b == 0x58 {
        Some(Corporate::ParFx)
    } else if a == 0x51 && b == 0x51 {
        Some(Corporate::UnknownQq)
    } else if a == 0x51 && b == 0x53 {
        Some(Corporate::UnknownQs)
    } else if a == 0x51 && b == 0x58 {
        Some(Corporate::UnknownQx)
    } else if a == 0x51 && b == 0x59 {
        Some(Corporate::TestQy)
    } else if a == 0x51 && b == 0x5a {
        Some(Corporate::TestQz)
    } else if a == 0x52 && b == 0x42 {
        Some(Corporate::Rbc)
    } else if a == 0x52 && b == 0x46 {
        Some(Corporate::ThomsonReutersRfaGlobalData)
    } else if a == 0x53 && b == 0x50 {
        Some(Corporate::SpotStream)
    } else if a == 0x53 && b == 0x54 {
        Some(Corporate::StateStreet)
    } else if a == 0x54 && b == 0x57 {
        Some(Corporate::Tower)
    } else if a == 0x55 && b == 0x42 {
        Some(Corporate::Ubs)
    } else if a == 0x56 && b == 0x54 {
        Some(Corporate::ExegyVirtu)
    } else if a == 0x58 && b == 0x41 {
        Some(Corporate::BloombergEquities)
    } else if a == 0x58 && b == 0x42 {
        Some(Corporate::BloombergCommodities)
    } else if a == 0x58 && b == 0x43 {
        Some(Corporate::ExegyCustomerInternal)
    } else if a == 0x58 && b == 0x44 {
        Some(Corporate::UnknownXd)
    } else if a == 0x58 && b == 0x54 {
        Some(Corporate::Xtx)
    } else if a == 0x58 && b == 0x58 {
        Some(Corporate::ExegyInternal)
    } else if a == 0x58 && b == 0x59 {
        Some(Corporate::TestXy)
    } else if a == 0x58 && b == 0x5a {
        Some(Corporate::TestXz)
    } else if a == 0x5a && b == 0x59 {
        Some(Corporate::UnknownZy)
    } else if a == 0x5a && b == 0x5a {
        Some(Corporate::TestZz)
    } else {
        None
    }
}

impl Corporate {
    /// Look the two identifier bytes up in the corporate table.
    pub fn try_from_bytes(a: u8, b: u8) -> (r: Option<Corporate>)
        ensures
            r == spec_corporate_of(a, b),
    {
        if a == 0x41 && b == 0x51 {
            Some(Corporate::Aquis)
        } else if a == 0x42 && b == 0x43 {
            Some(Corporate::Barclays)
        } else if a == 0x42 && b == 0x47 {
            Some(Corporate::Bgc)
        } else if a == 0x43 && b == 0x45 {
            Some(Corporate::Citadel)
        } else if a == 0x43 && b == 0x50 {
            Some(Corporate::Citi)
        } else if a == 0x43 && b == 0x52 {
            Some(Corporate::Curex)
        } else if a == 0x43 && b == 0x53 {
            Some(Corporate::CitadelEu)
        } else if a == 0x43 && b == 0x58 {
            Some(Corporate::Currenex)
        } else if a == 0x44 && b == 0x42 {
            Some(Corporate::DeutscheBank)
        } else if a == 0x44 && b == 0x49 {
            Some(Corporate::UnknownDi)
        } else if a == 0x44 && b == 0x57 {
            Some(Corporate::DealerWeb)
        } else if a == 0x44 && b == 0x58 {
            Some(Corporate::UnknownDx)
        } else if a == 0x45 && b == 0x42 {
            Some(Corporate::Ebs)
        } else if a == 0x45 && b == 0x43 {
            Some(Corporate::EbsCreditScreened)
        } else if a == 0x46 && b == 0x43 {
            Some(Corporate::Fenics)
        } else if a == 0x46 && b == 0x4d {
            Some(Corporate::FastMatch)
        } else if a == 0x46 && b == 0x54 {
            Some(Corporate::FlowTraders)
        } else if a == 0x46 && b == 0x58 {
            Some(Corporate::ForeignExchange)
        } else if a == 0x47 && b == 0x46 {
            Some(Corporate::Gfi)
        } else if a == 0x47 && b == 0x54 {
            Some(Corporate::GainCapital)
        } else if a == 0x48 && b == 0x46 {
            Some(Corporate::Hotspot)
        } else if a == 0x48 && b == 0x53 {
            Some(Corporate::Missing1)
        } else if a == 0x48 && b == 0x54 {
            Some(Corporate::HudsonRiverTrading)
        } else if a == 0x49 && b == 0x4d {
            Some(Corporate::Imc)
        } else if a == 0x49 && b == 0x4e {
            Some(Corporate::IntegralFx)
        } else if a == 0x4a && b == 0x53 {
            Some(Corporate::JaneStreet)
        } else if a == 0x4a && b == 0x55 {
            Some(Corporate::Jump)
        } else if a == 0x4b && b == 0x47 {
            Some(Corporate::Kcg)
        } else if a == 0x4c && b == 0x45 {
            Some(Corporate::LiquidityEdge)
        } else if a == 0x4c && b == 0x48 {
            Some(Corporate::Lmax)
        } else if a == 0x4c && b == 0x50 {
            Some(Corporate::LmaxPro)
        } else if a == 0x4d && b == 0x53 {
            Some(Corporate::MorganStanley)
        } else if a == 0x4e && b == 0x53 {
            Some(Corporate::NasdaqOcean)
        } else if a == 0x50 && b == 0x58 {
            Some(Corporate::ParFx)
        } else if a == 0x51 && b == 0x51 {
            Some(Corporate::UnknownQq)
        } else if a == 0x51 && b == 0x53 {
            Some(Corporate::UnknownQs)
        } else if a == 0x51 && b == 0x58 {
            Some(Corporate::UnknownQx)
        } else if a == 0x51 && b == 0x59 {
            Some(Corporate::TestQy)
        } else if a == 0x51 && b == 0x5a {
            Some(Corporate::TestQz)
        } else if a == 0x52 && b == 0x42 {
            Some(Corporate::Rbc)
        } else if a == 0x52 && b == 0x46 {
            Some(Corporate::ThomsonReutersRfaGlobalData)
        } else if a == 0x53 && b == 0x50 {
            Some(Corporate::SpotStream)
        } else if a == 0x53 && b == 0x54 {
            Some(Corporate::StateStreet)
        } else if a == 0x54 && b == 0x57 {
            Some(Corporate::Tower)
        } else if a == 0x55 && b == 0x42 {
            Some(Corporate::Ubs)
        } else if a == 0x56 && b == 0x54 {
            Some(Corporate::ExegyVirtu)
        } else if a == 0x58 && b == 0x41 {
            Some(Corporate::BloombergEquities)
        } else if a == 0x58 && b == 0x42 {
            Some(Corporate::BloombergCommodities)
        } else if a == 0x58 && b == 0x43 {
            Some(Corporate::ExegyCustomerInternal)
        } else if a == 0x58 && b == 0x44 {
            Some(Corporate::UnknownXd)
        } else if a == 0x58 && b == 0x54 {
            Some(Corporate::Xtx)
        } else if a == 0x58 && b == 0x58 {
            Some(Corporate::ExegyInternal)
        } else if a == 0x58 && b == 0x59 {
            Some(Corporate::TestXy)
        } else if a == 0x58 && b == 0x5a {
            Some(Corporate::TestXz)
        } else if a == 0x5a && b == 0x59 {
            Some(Corporate::UnknownZy)
        } else if a == 0x5a && b == 0x5a {
            Some(Corporate::TestZz)
        } else {
            None
        }
    }

    /// Look a group identifier up in the corporate table.
    pub fn try_from_id(id: &Id) -> (r: Option<Corporate>)
        ensures
            r == spec_corporate_of(id.bytes@[0], id.bytes@[1]),
    {
        Self::try_from_bytes(id.bytes[0], id.bytes[1])
    }
}

} // verus!
