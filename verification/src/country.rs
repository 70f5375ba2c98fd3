//! The fixed country-code table: two-letter codes, full names, and the
//! dense index that the lookup tables store in place of a code.
//!
//! The table is the list published with the registry data: the ISO
//! two-letter codes in alphabetical order, followed by the three
//! synthetic codes "EU", "AP" and "ZZ" on the last three indices.

use vstd::prelude::*;

use crate::strutil::str_equal;

verus! {

/// Error returned when a two-letter code is not in the table.
#[derive(Debug, Copy, Clone, Hash, PartialEq, Eq, Structural)]
pub struct InvalidCountryCode;

/// Number of entries in the country-code table.
pub const COUNTRY_CODES_LEN: usize = 252;

/// A country of the table, one variant per two-letter code, in table
/// order.
#[derive(Debug, Copy, Clone, Hash, PartialEq, Eq, Structural)]
pub enum Country {
    AD,
    AE,
    AF,
    AG,
    AI,
    AL,
    AM,
    AO,
    AQ,
    AR,
    AS,
    AT,
    AU,
    AW,
    AX,
    AZ,
    BA,
    BB,
    BD,
    BE,
    BF,
    BG,
    BH,
    BI,
    BJ,
    BL,
    BM,
    BN,
    BO,
    BQ,
    BR,
    BS,
    BT,
    BV,
    BW,
    BY,
    BZ,
    CA,
    CC,
    CD,
    CF,
    CG,
    CH,
    CI,
    CK,
    CL,
    CM,
    CN,
    CO,
    CR,
    CU,
    CV,
    CW,
    CX,
    CY,
    CZ,
    DE,
    DJ,
    DK,
    DM,
    DO,
    DZ,
    EC,
    EE,
    EG,
    EH,
    ER,
    ES,
    ET,
    FI,
    FJ,
    FK,
    FM,
    FO,
    FR,
    GA,
    GB,
    GD,
    GE,
    GF,
    GG,
    GH,
    GI,
    GL,
    GM,
    GN,
    GP,
    GQ,
    GR,
    GS,
    GT,
    GU,
    GW,
    GY,
    HK,
    HM,
    HN,
    HR,
    HT,
    HU,
    ID,
    IE,
    IL,
    IM,
    IN,
    IO,
    IQ,
    IR,
    IS,
    IT,
    JE,
    JM,
    JO,
    JP,
    KE,
    KG,
    KH,
    KI,
    KM,
    KN,
    KP,
    KR,
    KW,
    KY,
    KZ,
    LA,
    LB,
    LC,
    LI,
    LK,
    LR,
    LS,
    LT,
    LU,
    LV,
    LY,
    MA,
    MC,
    MD,
    ME,
    MF,
    MG,
    MH,
    MK,
    ML,
    MM,
    MN,
    MO,
    MP,
    MQ,
    MR,
    MS,
    MT,
    MU,
    MV,
    MW,
    MX,
    MY,
    MZ,
    NA,
    NC,
    NE,
    NF,
    NG,
    NI,
    NL,
    NO,
    NP,
    NR,
    NU,
    NZ,
    OM,
    PA,
    PE,
    PF,
    PG,
    PH,
    PK,
    PL,
    PM,
    PN,
    PR,
    PS,
    PT,
    PW,
    PY,
    QA,
    RE,
    RO,
    RS,
    RU,
    RW,
    SA,
    SB,
    SC,
    SD,
    SE,
    SG,
    SH,
    SI,
    SJ,
    SK,
    SL,
    SM,
    SN,
    SO,
    SR,
    SS,
    ST,
    SV,
    SX,
    SY,
    SZ,
    TC,
    TD,
    TF,
    TG,
    TH,
    TJ,
    TK,
    TL,
    TM,
    TN,
    TO,
    TR,
    TT,
    TV,
    TW,
    TZ,
    UA,
    UG,
    UM,
    US,
    UY,
    UZ,
    VA,
    VC,
    VE,
    VG,
    VI,
    VN,
    VU,
    WF,
    WS,
    YE,
    YT,
    ZA,
    ZM,
    ZW,
    EU,
    AP,
    ZZ,
}

/// The dense index of each country: its position in the table.
pub open spec fn spec_country_index(c: Country) -> int {
    match c {
        Country::AD => 0,
        Country::AE => 1,
        Country::AF => 2,
        Country::AG => 3,
        Country::AI => 4,
        Country::AL => 5,
        Country::AM => 6,
        Country::AO => 7,
        Country::AQ => 8,
        Country::AR => 9,
        Country::AS => 10,
        Country::AT => 11,
        Country::AU => 12,
        Country::AW => 13,
        Country::AX => 14,
        Country::AZ => 15,
        Country::BA => 16,
        Country::BB => 17,
        Country::BD => 18,
        Country::BE => 19,
        Country::BF => 20,
        Country::BG => 21,
        Country::BH => 22,
        Country::BI => 23,
        Country::BJ => 24,
        Country::BL => 25,
        Country::BM => 26,
        Country::BN => 27,
        Country::BO => 28,
        Country::BQ => 29,
        Country::BR => 30,
        Country::BS => 31,
        Country::BT => 32,
        Country::BV => 33,
        Country::BW => 34,
        Country::BY => 35,
        Country::BZ => 36,
        Country::CA => 37,
        Country::CC => 38,
        Country::CD => 39,
        Country::CF => 40,
        Country::CG => 41,
        Country::CH => 42,
        Country::CI => 43,
        Country::CK => 44,
        Country::CL => 45,
        Country::CM => 46,
        Country::CN => 47,
        Country::CO => 48,
        Country::CR => 49,
        Country::CU => 50,
        Country::CV => 51,
        Country::CW => 52,
        Country::CX => 53,
        Country::CY => 54,
        Country::CZ => 55,
        Country::DE => 56,
        Country::DJ => 57,
        Country::DK => 58,
        Country::DM => 59,
        Country::DO => 60,
        Country::DZ => 61,
        Country::EC => 62,
        Country::EE => 63,
        Country::EG => 64,
        Country::EH => 65,
        Country::ER => 66,
        Country::ES => 67,
        Country::ET => 68,
        Country::FI => 69,
        Country::FJ => 70,
        Country::FK => 71,
        Country::FM => 72,
        Country::FO => 73,
        Country::FR => 74,
        Country::GA => 75,
        Country::GB => 76,
        Country::GD => 77,
        Country::GE => 78,
        Country::GF => 79,
        Country::GG => 80,
        Country::GH => 81,
        Country::GI => 82,
        Country::GL => 83,
        Country::GM => 84,
        Country::GN => 85,
        Country::GP => 86,
        Country::GQ => 87,
        Country::GR => 88,
        Country::GS => 89,
        Country::GT => 90,
        Country::GU => 91,
        Country::GW => 92,
        Country::GY => 93,
        Country::HK => 94,
        Country::HM => 95,
        Country::HN => 96,
        Country::HR => 97,
        Country::HT => 98,
        Country::HU => 99,
        Country::ID => 100,
        Country::IE => 101,
        Country::IL => 102,
        Country::IM => 103,
        Country::IN => 104,
        Country::IO => 105,
        Country::IQ => 106,
        Country::IR => 107,
        Country::IS => 108,
        Country::IT => 109,
        Country::JE => 110,
        Country::JM => 111,
        Country::JO => 112,
        Country::JP => 113,
        Country::KE => 114,
        Country::KG => 115,
        Country::KH => 116,
        Country::KI => 117,
        Country::KM => 118,
        Country::KN => 119,
        Country::KP => 120,
        Country::KR => 121,
        Country::KW => 122,
        Country::KY => 123,
        Country::KZ => 124,
        Country::LA => 125,
        Country::LB => 126,
        Country::LC => 127,
        Country::LI => 128,
        Country::LK => 129,
        Country::LR => 130,
        Country::LS => 131,
        Country::LT => 132,
        Country::LU => 133,
        Country::LV => 134,
        Country::LY => 135,
        Country::MA => 136,
        Country::MC => 137,
        Country::MD => 138,
        Country::ME => 139,
        Country::MF => 140,
        Country::MG => 141,
        Country::MH => 142,
        Country::MK => 143,
        Country::ML => 144,
        Country::MM => 145,
        Country::MN => 146,
        Country::MO => 147,
        Country::MP => 148,
        Country::MQ => 149,
        Country::MR => 150,
        Country::MS => 151,
        Country::MT => 152,
        Country::MU => 153,
        Country::MV => 154,
        Country::MW => 155,
        Country::MX => 156,
        Country::MY => 157,
        Country::MZ => 158,
        Country::NA => 159,
        Country::NC => 160,
        Country::NE => 161,
        Country::NF => 162,
        Country::NG => 163,
        Country::NI => 164,
        Country::NL => 165,
        Country::NO => 166,
        Country::NP => 167,
        Country::NR => 168,
        Country::NU => 169,
        Country::NZ => 170,
        Country::OM => 171,
        Country::PA => 172,
        Country::PE => 173,
        Country::PF => 174,
        Country::PG => 175,
        Country::PH => 176,
        Country::PK => 177,
        Country::PL => 178,
        Country::PM => 179,
        Country::PN => 180,
        Country::PR => 181,
        Country::PS => 182,
        Country::PT => 183,
        Country::PW => 184,
        Country::PY => 185,
        Country::QA => 186,
        Country::RE => 187,
        Country::RO => 188,
        Country::RS => 189,
        Country::RU => 190,
        Country::RW => 191,
        Country::SA => 192,
        Country::SB => 193,
        Country::SC => 194,
        Country::SD => 195,
        Country::SE => 196,
        Country::SG => 197,
        Country::SH => 198,
        Country::SI => 199,
        Country::SJ => 200,
        Country::SK => 201,
        Country::SL => 202,
        Country::SM => 203,
        Country::SN => 204,
        Country::SO => 205,
        Country::SR => 206,
        Country::SS => 207,
        Country::ST => 208,
        Country::SV => 209,
        Country::SX => 210,
        Country::SY => 211,
        Country::SZ => 212,
        Country::TC => 213,
        Country::TD => 214,
        Country::TF => 215,
        Country::TG => 216,
        Country::TH => 217,
        Country::TJ => 218,
        Country::TK => 219,
        Country::TL => 220,
        Country::TM => 221,
        Country::TN => 222,
        Country::TO => 223,
        Country::TR => 224,
        Country::TT => 225,
        Country::TV => 226,
        Country::TW => 227,
        Country::TZ => 228,
        Country::UA => 229,
        Country::UG => 230,
        Country::UM => 231,
        Country::US => 232,
        Country::UY => 233,
        Country::UZ => 234,
        Country::VA => 235,
        Country::VC => 236,
        Country::VE => 237,
        Country::VG => 238,
        Country::VI => 239,
        Country::VN => 240,
        Country::VU => 241,
        Country::WF => 242,
        Country::WS => 243,
        Country::YE => 244,
        Country::YT => 245,
        Country::ZA => 246,
        Country::ZM => 247,
        Country::ZW => 248,
        Country::EU => 249,
        Country::AP => 250,
        Country::ZZ => 251,
    }
}

/// The two-letter code at each index of the table.
pub open spec fn spec_country_code(i: int) -> Seq<char> {
    if i == 0 {
        "AD"@
    } else if i == 1 {
        "AE"@
    } else if i == 2 {
        "AF"@
    } else if i == 3 {
        "AG"@
    } else if i == 4 {
        "AI"@
    } else if i == 5 {
        "AL"@
    } else if i == 6 {
        "AM"@
    } else if i == 7 {
        "AO"@
    } else if i == 8 {
        "AQ"@
    } else if i == 9 {
        "AR"@
    } else if i == 10 {
        "AS"@
    } else if i == 11 {
        "AT"@
    } else if i == 12 {
        "AU"@
    } else if i == 13 {
        "AW"@
    } else if i == 14 {
        "AX"@
    } else if i == 15 {
        "AZ"@
    } else if i == 16 {
        "BA"@
    } else if i == 17 {
        "BB"@
    } else if i == 18 {
        "BD"@
    } else if i == 19 {
        "BE"@
    } else if i == 20 {
        "BF"@
    } else if i == 21 {
        "BG"@
    } else if i == 22 {
        "BH"@
    } else if i == 23 {
        "BI"@
    } else if i == 24 {
        "BJ"@
    } else if i == 25 {
        "BL"@
    } else if i == 26 {
        "BM"@
    } else if i == 27 {
        "BN"@
    } else if i == 28 {
        "BO"@
    } else if i == 29 {
        "BQ"@
    } else if i == 30 {
        "BR"@
    } else if i == 31 {
        "BS"@
    } else if i == 32 {
        "BT"@
    } else if i == 33 {
        "BV"@
    } else if i == 34 {
        "BW"@
    } else if i == 35 {
        "BY"@
    } else if i == 36 {
        "BZ"@
    } else if i == 37 {
        "CA"@
    } else if i == 38 {
        "CC"@
    } else if i == 39 {
        "CD"@
    } else if i == 40 {
        "CF"@
    } else if i == 41 {
        "CG"@
    } else if i == 42 {
        "CH"@
    } else if i == 43 {
        "CI"@
    } else if i == 44 {
        "CK"@
    } else if i == 45 {
        "CL"@
    } else if i == 46 {
        "CM"@
    } else if i == 47 {
        "CN"@
    } else if i == 48 {
        "CO"@
    } else if i == 49 {
        "CR"@
    } else if i == 50 {
        "CU"@
    } else if i == 51 {
        "CV"@
    } else if i == 52 {
        "CW"@
    } else if i == 53 {
        "CX"@
    } else if i == 54 {
        "CY"@
    } else if i == 55 {
        "CZ"@
    } else if i == 56 {
        "DE"@
    } else if i == 57 {
        "DJ"@
    } else if i == 58 {
        "DK"@
    } else if i == 59 {
        "DM"@
    } else if i == 60 {
        "DO"@
    } else if i == 61 {
        "DZ"@
    } else if i == 62 {
        "EC"@
    } else if i == 63 {
        "EE"@
    } else if i == 64 {
        "EG"@
    } else if i == 65 {
        "EH"@
    } else if i == 66 {
        "ER"@
    } else if i == 67 {
        "ES"@
    } else if i == 68 {
        "ET"@
    } else if i == 69 {
        "FI"@
    } else if i == 70 {
        "FJ"@
    } else if i == 71 {
        "FK"@
    } else if i == 72 {
        "FM"@
    } else if i == 73 {
        "FO"@
    } else if i == 74 {
        "FR"@
    } else if i == 75 {
        "GA"@
    } else if i == 76 {
        "GB"@
    } else if i == 77 {
        "GD"@
    } else if i == 78 {
        "GE"@
    } else if i == 79 {
        "GF"@
    } else if i == 80 {
        "GG"@
    } else if i == 81 {
        "GH"@
    } else if i == 82 {
        "GI"@
    } else if i == 83 {
        "GL"@
    } else if i == 84 {
        "GM"@
    } else if i == 85 {
        "GN"@
    } else if i == 86 {
        "GP"@
    } else if i == 87 {
        "GQ"@
    } else if i == 88 {
        "GR"@
    } else if i == 89 {
        "GS"@
    } else if i == 90 {
        "GT"@
    } else if i == 91 {
        "GU"@
    } else if i == 92 {
        "GW"@
    } else if i == 93 {
        "GY"@
    } else if i == 94 {
        "HK"@
    } else if i == 95 {
        "HM"@
    } else if i == 96 {
        "HN"@
    } else if i == 97 {
        "HR"@
    } else if i == 98 {
        "HT"@
    } else if i == 99 {
        "HU"@
    } else if i == 100 {
        "ID"@
    } else if i == 101 {
        "IE"@
    } else if i == 102 {
        "IL"@
    } else if i == 103 {
        "IM"@
    } else if i == 104 {
        "IN"@
    } else if i == 105 {
        "IO"@
    } else if i == 106 {
        "IQ"@
    } else if i == 107 {
        "IR"@
    } else if i == 108 {
        "IS"@
    } else if i == 109 {
        "IT"@
    } else if i == 110 {
        "JE"@
    } else if i == 111 {
        "JM"@
    } else if i == 112 {
        "JO"@
    } else if i == 113 {
        "JP"@
    } else if i == 114 {
        "KE"@
    } else if i == 115 {
        "KG"@
    } else if i == 116 {
        "KH"@
    } else if i == 117 {
        "KI"@
    } else if i == 118 {
        "KM"@
    } else if i == 119 {
        "KN"@
    } else if i == 120 {
        "KP"@
    } else if i == 121 {
        "KR"@
    } else if i == 122 {
        "KW"@
    } else if i == 123 {
        "KY"@
    } else if i == 124 {
        "KZ"@
    } else if i == 125 {
        "LA"@
    } else if i == 126 {
        "LB"@
    } else if i == 127 {
        "LC"@
    } else if i == 128 {
        "LI"@
    } else if i == 129 {
        "LK"@
    } else if i == 130 {
        "LR"@
    } else if i == 131 {
        "LS"@
    } else if i == 132 {
        "LT"@
    } else if i == 133 {
        "LU"@
    } else if i == 134 {
        "LV"@
    } else if i == 135 {
        "LY"@
    } else if i == 136 {
        "MA"@
    } else if i == 137 {
        "MC"@
    } else if i == 138 {
        "MD"@
    } else if i == 139 {
        "ME"@
    } else if i == 140 {
        "MF"@
    } else if i == 141 {
        "MG"@
    } else if i == 142 {
        "MH"@
    } else if i == 143 {
        "MK"@
    } else if i == 144 {
        "ML"@
    } else if i == 145 {
        "MM"@
    } else if i == 146 {
        "MN"@
    } else if i == 147 {
        "MO"@
    } else if i == 148 {
        "MP"@
    } else if i == 149 {
        "MQ"@
    } else if i == 150 {
        "MR"@
    } else if i == 151 {
        "MS"@
    } else if i == 152 {
        "MT"@
    } else if i == 153 {
        "MU"@
    } else if i == 154 {
        "MV"@
    } else if i == 155 {
        "MW"@
    } else if i == 156 {
        "MX"@
    } else if i == 157 {
        "MY"@
    } else if i == 158 {
        "MZ"@
    } else if i == 159 {
        "NA"@
    } else if i == 160 {
        "NC"@
    } else if i == 161 {
        "NE"@
    } else if i == 162 {
        "NF"@
    } else if i == 163 {
        "NG"@
    } else if i == 164 {
        "NI"@
    } else if i == 165 {
        "NL"@
    } else if i == 166 {
        "NO"@
    } else if i == 167 {
        "NP"@
    } else if i == 168 {
        "NR"@
    } else if i == 169 {
        "NU"@
    } else if i == 170 {
        "NZ"@
    } else if i == 171 {
        "OM"@
    } else if i == 172 {
        "PA"@
    } else if i == 173 {
        "PE"@
    } else if i == 174 {
        "PF"@
    } else if i == 175 {
        "PG"@
    } else if i == 176 {
        "PH"@
    } else if i == 177 {
        "PK"@
    } else if i == 178 {
        "PL"@
    } else if i == 179 {
        "PM"@
    } else if i == 180 {
        "PN"@
    } else if i == 181 {
        "PR"@
    } else if i == 182 {
        "PS"@
    } else if i == 183 {
        "PT"@
    } else if i == 184 {
        "PW"@
    } else if i == 185 {
        "PY"@
    } else if i == 186 {
        "QA"@
    } else if i == 187 {
        "RE"@
    } else if i == 188 {
        "RO"@
    } else if i == 189 {
        "RS"@
    } else if i == 190 {
        "RU"@
    } else if i == 191 {
        "RW"@
    } else if i == 192 {
        "SA"@
    } else if i == 193 {
        "SB"@
    } else if i == 194 {
        "SC"@
    } else if i == 195 {
        "SD"@
    } else if i == 196 {
        "SE"@
    } else if i == 197 {
        "SG"@
    } else if i == 198 {
        "SH"@
    } else if i == 199 {
        "SI"@
    } else if i == 200 {
        "SJ"@
    } else if i == 201 {
        "SK"@
    } else if i == 202 {
        "SL"@
    } else if i == 203 {
        "SM"@
    } else if i == 204 {
        "SN"@
    } else if i == 205 {
        "SO"@
    } else if i == 206 {
        "SR"@
    } else if i == 207 {
        "SS"@
    } else if i == 208 {
        "ST"@
    } else if i == 209 {
        "SV"@
    } else if i == 210 {
        "SX"@
    } else if i == 211 {
        "SY"@
    } else if i == 212 {
        "SZ"@
    } else if i == 213 {
        "TC"@
    } else if i == 214 {
        "TD"@
    } else if i == 215 {
        "TF"@
    } else if i == 216 {
        "TG"@
    } else if i == 217 {
        "TH"@
    } else if i == 218 {
        "TJ"@
    } else if i == 219 {
        "TK"@
    } else if i == 220 {
        "TL"@
    } else if i == 221 {
        "TM"@
    } else if i == 222 {
        "TN"@
    } else if i == 223 {
        "TO"@
    } else if i == 224 {
        "TR"@
    } else if i == 225 {
        "TT"@
    } else if i == 226 {
        "TV"@
    } else if i == 227 {
        "TW"@
    } else if i == 228 {
        "TZ"@
    } else if i == 229 {
        "UA"@
    } else if i == 230 {
        "UG"@
    } else if i == 231 {
        "UM"@
    } else if i == 232 {
        "US"@
    } else if i == 233 {
        "UY"@
    } else if i == 234 {
        "UZ"@
    } else if i == 235 {
        "VA"@
    } else if i == 236 {
        "VC"@
    } else if i == 237 {
        "VE"@
    } else if i == 238 {
        "VG"@
    } else if i == 239 {
        "VI"@
    } else if i == 240 {
        "VN"@
    } else if i == 241 {
        "VU"@
    } else if i == 242 {
        "WF"@
    } else if i == 243 {
        "WS"@
    } else if i == 244 {
        "YE"@
    } else if i == 245 {
        "YT"@
    } else if i == 246 {
        "ZA"@
    } else if i == 247 {
        "ZM"@
    } else if i == 248 {
        "ZW"@
    } else if i == 249 {
        "EU"@
    } else if i == 250 {
        "AP"@
    } else if i == 251 {
        "ZZ"@
    } else {
        Seq::empty()
    }
}

/// The full name at each index of the table.
pub open spec fn spec_country_name(i: int) -> Seq<char> {
    if i == 0 {
        "Andorra"@
    } else if i == 1 {
        "United Arab Emirates"@
    } else if i == 2 {
        "Afghanistan"@
    } else if i == 3 {
        "Antigua and Barbuda"@
    } else if i == 4 {
        "Anguilla"@
    } else if i == 5 {
        "Albania"@
    } else if i == 6 {
        "Armenia"@
    } else if i == 7 {
        "Angola"@
    } else if i == 8 {
        "Antarctica"@
    } else if i == 9 {
        "Argentina"@
    } else if i == 10 {
        "American Samoa"@
    } else if i == 11 {
        "Austria"@
    } else if i == 12 {
        "Australia"@
    } else if i == 13 {
        "Aruba"@
    } else if i == 14 {
        "Åland Islands"@
    } else if i == 15 {
        "Azerbaijan"@
    } else if i == 16 {
        "Bosnia and Herzegovina"@
    } else if i == 17 {
        "Barbados"@
    } else if i == 18 {
        "Bangladesh"@
    } else if i == 19 {
        "Belgium"@
    } else if i == 20 {
        "Burkina Faso"@
    } else if i == 21 {
        "Bulgaria"@
    } else if i == 22 {
        "Bahrain"@
    } else if i == 23 {
        "Burundi"@
    } else if i == 24 {
        "Benin"@
    } else if i == 25 {
        "Saint Barthélemy"@
    } else if i == 26 {
        "Bermuda"@
    } else if i == 27 {
        "Brunei Darussalam"@
    } else if i == 28 {
        "Bolivia (Plurinational State of)"@
    } else if i == 29 {
        "Bonaire, Sint Eustatius and Saba"@
    } else if i == 30 {
        "Brazil"@
    } else if i == 31 {
        "Bahamas"@
    } else if i == 32 {
        "Bhutan"@
    } else if i == 33 {
        "Bouvet Island"@
    } else if i == 34 {
        "Botswana"@
    } else if i == 35 {
        "Belarus"@
    } else if i == 36 {
        "Belize"@
    } else if i == 37 {
        "Canada"@
    } else if i == 38 {
        "Cocos (Keeling) Islands"@
    } else if i == 39 {
        "Congo, Democratic Republic of the"@
    } else if i == 40 {
        "Central African Republic"@
    } else if i == 41 {
        "Congo"@
    } else if i == 42 {
        "Switzerland"@
    } else if i == 43 {
        "Côte d'Ivoire"@
    } else if i == 44 {
        "Cook Islands"@
    } else if i == 45 {
        "Chile"@
    } else if i == 46 {
        "Cameroon"@
    } else if i == 47 {
        "China"@
    } else if i == 48 {
        "Colombia"@
    } else if i == 49 {
        "Costa Rica"@
    } else if i == 50 {
        "Cuba"@
    } else if i == 51 {
        "Cabo Verde"@
    } else if i == 52 {
        "Curaçao"@
    } else if i == 53 {
        "Christmas Island"@
    } else if i == 54 {
        "Cyprus"@
    } else if i == 55 {
        "Czechia"@
    } else if i == 56 {
        "Germany"@
    } else if i == 57 {
        "Djibouti"@
    } else if i == 58 {
        "Denmark"@
    } else if i == 59 {
        "Dominica"@
    } else if i == 60 {
        "Dominican Republic"@
    } else if i == 61 {
        "Algeria"@
    } else if i == 62 {
        "Ecuador"@
    } else if i == 63 {
        "Estonia"@
    } else if i == 64 {
        "Egypt"@
    } else if i == 65 {
        "Western Sahara"@
    } else if i == 66 {
        "Eritrea"@
    } else if i == 67 {
        "Spain"@
    } else if i == 68 {
        "Ethiopia"@
    } else if i == 69 {
        "Finland"@
    } else if i == 70 {
        "Fiji"@
    } else if i == 71 {
        "Falkland Islands (Malvinas)"@
    } else if i == 72 {
        "Micronesia (Federated States of)"@
    } else if i == 73 {
        "Faroe Islands"@
    } else if i == 74 {
        "France"@
    } else if i == 75 {
        "Gabon"@
    } else if i == 76 {
        "United Kingdom of Great Britain and Northern Ireland"@
    } else if i == 77 {
        "Grenada"@
    } else if i == 78 {
        "Georgia"@
    } else if i == 79 {
        "French Guiana"@
    } else if i == 80 {
        "Guernsey"@
    } else if i == 81 {
        "Ghana"@
    } else if i == 82 {
        "Gibraltar"@
    } else if i == 83 {
        "Greenland"@
    } else if i == 84 {
        "Gambia"@
    } else if i == 85 {
        "Guinea"@
    } else if i == 86 {
        "Guadeloupe"@
    } else if i == 87 {
        "Equatorial Guinea"@
    } else if i == 88 {
        "Greece"@
    } else if i == 89 {
        "South Georgia and the South Sandwich Islands"@
    } else if i == 90 {
        "Guatemala"@
    } else if i == 91 {
        "Guam"@
    } else if i == 92 {
        "Guinea-Bissau"@
    } else if i == 93 {
        "Guyana"@
    } else if i == 94 {
        "Hong Kong"@
    } else if i == 95 {
        "Heard Island and McDonald Islands"@
    } else if i == 96 {
        "Honduras"@
    } else if i == 97 {
        "Croatia"@
    } else if i == 98 {
        "Haiti"@
    } else if i == 99 {
        "Hungary"@
    } else if i == 100 {
        "Indonesia"@
    } else if i == 101 {
        "Ireland"@
    } else if i == 102 {
        "Israel"@
    } else if i == 103 {
        "Isle of Man"@
    } else if i == 104 {
        "India"@
    } else if i == 105 {
        "British Indian Ocean Territory"@
    } else if i == 106 {
        "Iraq"@
    } else if i == 107 {
        "Iran (Islamic Republic of)"@
    } else if i == 108 {
        "Iceland"@
    } else if i == 109 {
        "Italy"@
    } else if i == 110 {
        "Jersey"@
    } else if i == 111 {
        "Jamaica"@
    } else if i == 112 {
        "Jordan"@
    } else if i == 113 {
        "Japan"@
    } else if i == 114 {
        "Kenya"@
    } else if i == 115 {
        "Kyrgyzstan"@
    } else if i == 116 {
        "Cambodia"@
    } else if i == 117 {
        "Kiribati"@
    } else if i == 118 {
        "Comoros"@
    } else if i == 119 {
        "Saint Kitts and Nevis"@
    } else if i == 120 {
        "Korea (Democratic People's Republic of)"@
    } else if i == 121 {
        "Korea, Republic of"@
    } else if i == 122 {
        "Kuwait"@
    } else if i == 123 {
        "Cayman Islands"@
    } else if i == 124 {
        "Kazakhstan"@
    } else if i == 125 {
        "Lao People's Democratic Republic"@
    } else if i == 126 {
        "Lebanon"@
    } else if i == 127 {
        "Saint Lucia"@
    } else if i == 128 {
        "Liechtenstein"@
    } else if i == 129 {
        "Sri Lanka"@
    } else if i == 130 {
        "Liberia"@
    } else if i == 131 {
        "Lesotho"@
    } else if i == 132 {
        "Lithuania"@
    } else if i == 133 {
        "Luxembourg"@
    } else if i == 134 {
        "Latvia"@
    } else if i == 135 {
        "Libya"@
    } else if i == 136 {
        "Morocco"@
    } else if i == 137 {
        "Monaco"@
    } else if i == 138 {
        "Moldova, Republic of"@
    } else if i == 139 {
        "Montenegro"@
    } else if i == 140 {
        "Saint Martin (French part)"@
    } else if i == 141 {
        "Madagascar"@
    } else if i == 142 {
        "Marshall Islands"@
    } else if i == 143 {
        "North Macedonia"@
    } else if i == 144 {
        "Mali"@
    } else if i == 145 {
        "Myanmar"@
    } else if i == 146 {
        "Mongolia"@
    } else if i == 147 {
        "Macao"@
    } else if i == 148 {
        "Northern Mariana Islands"@
    } else if i == 149 {
        "Martinique"@
    } else if i == 150 {
        "Mauritania"@
    } else if i == 151 {
        "Montserrat"@
    } else if i == 152 {
        "Malta"@
    } else if i == 153 {
        "Mauritius"@
    } else if i == 154 {
        "Maldives"@
    } else if i == 155 {
        "Malawi"@
    } else if i == 156 {
        "Mexico"@
    } else if i == 157 {
        "Malaysia"@
    } else if i == 158 {
        "Mozambique"@
    } else if i == 159 {
        "Namibia"@
    } else if i == 160 {
        "New Caledonia"@
    } else if i == 161 {
        "Niger"@
    } else if i == 162 {
        "Norfolk Island"@
    } else if i == 163 {
        "Nigeria"@
    } else if i == 164 {
        "Nicaragua"@
    } else if i == 165 {
        "Netherlands"@
    } else if i == 166 {
        "Norway"@
    } else if i == 167 {
        "Nepal"@
    } else if i == 168 {
        "Nauru"@
    } else if i == 169 {
        "Niue"@
    } else if i == 170 {
        "New Zealand"@
    } else if i == 171 {
        "Oman"@
    } else if i == 172 {
        "Panama"@
    } else if i == 173 {
        "Peru"@
    } else if i == 174 {
        "French Polynesia"@
    } else if i == 175 {
        "Papua New Guinea"@
    } else if i == 176 {
        "Philippines"@
    } else if i == 177 {
        "Pakistan"@
    } else if i == 178 {
        "Poland"@
    } else if i == 179 {
        "Saint Pierre and Miquelon"@
    } else if i == 180 {
        "Pitcairn"@
    } else if i == 181 {
        "Puerto Rico"@
    } else if i == 182 {
        "Palestine, State of"@
    } else if i == 183 {
        "Portugal"@
    } else if i == 184 {
        "Palau"@
    } else if i == 185 {
        "Paraguay"@
    } else if i == 186 {
        "Qatar"@
    } else if i == 187 {
        "Réunion"@
    } else if i == 188 {
        "Romania"@
    } else if i == 189 {
        "Serbia"@
    } else if i == 190 {
        "Russian Federation"@
    } else if i == 191 {
        "Rwanda"@
    } else if i == 192 {
        "Saudi Arabia"@
    } else if i == 193 {
        "Solomon Islands"@
    } else if i == 194 {
        "Seychelles"@
    } else if i == 195 {
        "Sudan"@
    } else if i == 196 {
        "Sweden"@
    } else if i == 197 {
        "Singapore"@
    } else if i == 198 {
        "Saint Helena, Ascension and Tristan da Cunha"@
    } else if i == 199 {
        "Slovenia"@
    } else if i == 200 {
        "Svalbard and Jan Mayen"@
    } else if i == 201 {
        "Slovakia"@
    } else if i == 202 {
        "Sierra Leone"@
    } else if i == 203 {
        "San Marino"@
    } else if i == 204 {
        "Senegal"@
    } else if i == 205 {
        "Somalia"@
    } else if i == 206 {
        "Suriname"@
    } else if i == 207 {
        "South Sudan"@
    } else if i == 208 {
        "Sao Tome and Principe"@
    } else if i == 209 {
        "El Salvador"@
    } else if i == 210 {
        "Sint Maarten (Dutch part)"@
    } else if i == 211 {
        "Syrian Arab Republic"@
    } else if i == 212 {
        "Eswatini"@
    } else if i == 213 {
        "Turks and Caicos Islands"@
    } else if i == 214 {
        "Chad"@
    } else if i == 215 {
        "French Southern Territories"@
    } else if i == 216 {
        "Togo"@
    } else if i == 217 {
        "Thailand"@
    } else if i == 218 {
        "Tajikistan"@
    } else if i == 219 {
        "Tokelau"@
    } else if i == 220 {
        "Timor-Leste"@
    } else if i == 221 {
        "Turkmenistan"@
    } else if i == 222 {
        "Tunisia"@
    } else if i == 223 {
        "Tonga"@
    } else if i == 224 {
        "Turkey"@
    } else if i == 225 {
        "Trinidad and Tobago"@
    } else if i == 226 {
        "Tuvalu"@
    } else if i == 227 {
        "Taiwan, Province of China"@
    } else if i == 228 {
        "Tanzania, United Republic of"@
    } else if i == 229 {
        "Ukraine"@
    } else if i == 230 {
        "Uganda"@
    } else if i == 231 {
        "United States Minor Outlying Islands"@
    } else if i == 232 {
        "United States of America"@
    } else if i == 233 {
        "Uruguay"@
    } else if i == 234 {
        "Uzbekistan"@
    } else if i == 235 {
        "Holy See"@
    } else if i == 236 {
        "Saint Vincent and the Grenadines"@
    } else if i == 237 {
        "Venezuela (Bolivarian Republic of)"@
    } else if i == 238 {
        "Virgin Islands (British)"@
    } else if i == 239 {
        "Virgin Islands (U.S.)"@
    } else if i == 240 {
        "Viet Nam"@
    } else if i == 241 {
        "Vanuatu"@
    } else if i == 242 {
        "Wallis and Futuna"@
    } else if i == 243 {
        "Samoa"@
    } else if i == 244 {
        "Yemen"@
    } else if i == 245 {
        "Mayotte"@
    } else if i == 246 {
        "South Africa"@
    } else if i == 247 {
        "Zambia"@
    } else if i == 248 {
        "Zimbabwe"@
    } else if i == 249 {
        "EU"@
    } else if i == 250 {
        "AP"@
    } else if i == 251 {
        "ZZ"@
    } else {
        Seq::empty()
    }
}

impl Country {
    /// Recovers a country from its dense index.  An index outside the
    /// table is a contract violation.
    #[verifier::rlimit(100)]
    pub fn from_index(idx: u8) -> (r: Self)
        requires
            idx < 252,
        ensures
            spec_country_index(r) == idx,
    {
        match idx {
            0 => Country::AD,
            1 => Country::AE,
            2 => Country::AF,
            3 => Country::AG,
            4 => Country::AI,
            5 => Country::AL,
            6 => Country::AM,
            7 => Country::AO,
            8 => Country::AQ,
            9 => Country::AR,
            10 => Country::AS,
            11 => Country::AT,
            12 => Country::AU,
            13 => Country::AW,
            14 => Country::AX,
            15 => Country::AZ,
            16 => Country::BA,
            17 => Country::BB,
            18 => Country::BD,
            19 => Country::BE,
            20 => Country::BF,
            21 => Country::BG,
            22 => Country::BH,
            23 => Country::BI,
            24 => Country::BJ,
            25 => Country::BL,
            26 => Country::BM,
            27 => Country::BN,
            28 => Country::BO,
            29 => Country::BQ,
            30 => Country::BR,
            31 => Country::BS,
            32 => Country::BT,
            33 => Country::BV,
            34 => Country::BW,
            35 => Country::BY,
            36 => Country::BZ,
            37 => Country::CA,
            38 => Country::CC,
            39 => Country::CD,
            40 => Country::CF,
            41 => Country::CG,
            42 => Country::CH,
            43 => Country::CI,
            44 => Country::CK,
            45 => Country::CL,
            46 => Country::CM,
            47 => Country::CN,
            48 => Country::CO,
            49 => Country::CR,
            50 => Country::CU,
            51 => Country::CV,
            52 => Country::CW,
            53 => Country::CX,
            54 => Country::CY,
            55 => Country::CZ,
            56 => Country::DE,
            57 => Country::DJ,
            58 => Country::DK,
            59 => Country::DM,
            60 => Country::DO,
            61 => Country::DZ,
            62 => Country::EC,
            63 => Country::EE,
            64 => Country::EG,
            65 => Country::EH,
            66 => Country::ER,
            67 => Country::ES,
            68 => Country::ET,
            69 => Country::FI,
            70 => Country::FJ,
            71 => Country::FK,
            72 => Country::FM,
            73 => Country::FO,
            74 => Country::FR,
            75 => Country::GA,
            76 => Country::GB,
            77 => Country::GD,
            78 => Country::GE,
            79 => Country::GF,
            80 => Country::GG,
            81 => Country::GH,
            82 => Country::GI,
            83 => Country::GL,
            84 => Country::GM,
            85 => Country::GN,
            86 => Country::GP,
            87 => Country::GQ,
            88 => Country::GR,
            89 => Country::GS,
            90 => Country::GT,
            91 => Country::GU,
            92 => Country::GW,
            93 => Country::GY,
            94 => Country::HK,
            95 => Country::HM,
            96 => Country::HN,
            97 => Country::HR,
            98 => Country::HT,
            99 => Country::HU,
            100 => Country::ID,
            101 => Country::IE,
            102 => Country::IL,
            103 => Country::IM,
            104 => Country::IN,
            105 => Country::IO,
            106 => Country::IQ,
            107 => Country::IR,
            108 => Country::IS,
            109 => Country::IT,
            110 => Country::JE,
            111 => Country::JM,
            112 => Country::JO,
            113 => Country::JP,
            114 => Country::KE,
            115 => Country::KG,
            116 => Country::KH,
            117 => Country::KI,
            118 => Country::KM,
            119 => Country::KN,
            120 => Country::KP,
            121 => Country::KR,
            122 => Country::KW,
            123 => Country::KY,
            124 => Country::KZ,
            125 => Country::LA,
            126 => Country::LB,
            127 => Country::LC,
            128 => Country::LI,
            129 => Country::LK,
            130 => Country::LR,
            131 => Country::LS,
            132 => Country::LT,
            133 => Country::LU,
            134 => Country::LV,
            135 => Country::LY,
            136 => Country::MA,
            137 => Country::MC,
            138 => Country::MD,
            139 => Country::ME,
            140 => Country::MF,
            141 => Country::MG,
            142 => Country::MH,
            143 => Country::MK,
            144 => Country::ML,
            145 => Country::MM,
            146 => Country::MN,
            147 => Country::MO,
            148 => Country::MP,
            149 => Country::MQ,
            150 => Country::MR,
            151 => Country::MS,
            152 => Country::MT,
            153 => Country::MU,
            154 => Country::MV,
            155 => Country::MW,
            156 => Country::MX,
            157 => Country::MY,
            158 => Country::MZ,
            159 => Country::NA,
            160 => Country::NC,
            161 => Country::NE,
            162 => Country::NF,
            163 => Country::NG,
            164 => Country::NI,
            165 => Country::NL,
            166 => Country::NO,
            167 => Country::NP,
            168 => Country::NR,
            169 => Country::NU,
            170 => Country::NZ,
            171 => Country::OM,
            172 => Country::PA,
            173 => Country::PE,
            174 => Country::PF,
            175 => Country::PG,
            176 => Country::PH,
            177 => Country::PK,
            178 => Country::PL,
            179 => Country::PM,
            180 => Country::PN,
            181 => Country::PR,
            182 => Country::PS,
            183 => Country::PT,
            184 => Country::PW,
            185 => Country::PY,
            186 => Country::QA,
            187 => Country::RE,
            188 => Country::RO,
            189 => Country::RS,
            190 => Country::RU,
            191 => Country::RW,
            192 => Country::SA,
            193 => Country::SB,
            194 => Country::SC,
            195 => Country::SD,
            196 => Country::SE,
            197 => Country::SG,
            198 => Country::SH,
            199 => Country::SI,
            200 => Country::SJ,
            201 => Country::SK,
            202 => Country::SL,
            203 => Country::SM,
            204 => Country::SN,
            205 => Country::SO,
            206 => Country::SR,
            207 => Country::SS,
            208 => Country::ST,
            209 => Country::SV,
            210 => Country::SX,
            211 => Country::SY,
            212 => Country::SZ,
            213 => Country::TC,
            214 => Country::TD,
            215 => Country::TF,
            216 => Country::TG,
            217 => Country::TH,
            218 => Country::TJ,
            219 => Country::TK,
            220 => Country::TL,
            221 => Country::TM,
            222 => Country::TN,
            223 => Country::TO,
            224 => Country::TR,
            225 => Country::TT,
            226 => Country::TV,
            227 => Country::TW,
            228 => Country::TZ,
            229 => Country::UA,
            230 => Country::UG,
            231 => Country::UM,
            232 => Country::US,
            233 => Country::UY,
            234 => Country::UZ,
            235 => Country::VA,
            236 => Country::VC,
            237 => Country::VE,
            238 => Country::VG,
            239 => Country::VI,
            240 => Country::VN,
            241 => Country::VU,
            242 => Country::WF,
            243 => Country::WS,
            244 => Country::YE,
            245 => Country::YT,
            246 => Country::ZA,
            247 => Country::ZM,
            248 => Country::ZW,
            249 => Country::EU,
            250 => Country::AP,
            251 => Country::ZZ,
            _ => {
                proof {
                    assert(false);
                }
                Country::ZZ
            },
        }
    }

    /// The dense index of this country.
    #[verifier::rlimit(100)]
    pub fn index(&self) -> (r: u8)
        ensures
            r == spec_country_index(*self),
    {
        match *self {
            Country::AD => 0,
            Country::AE => 1,
            Country::AF => 2,
            Country::AG => 3,
            Country::AI => 4,
            Country::AL => 5,
            Country::AM => 6,
            Country::AO => 7,
            Country::AQ => 8,
            Country::AR => 9,
            Country::AS => 10,
            Country::AT => 11,
            Country::AU => 12,
            Country::AW => 13,
            Country::AX => 14,
            Country::AZ => 15,
            Country::BA => 16,
            Country::BB => 17,
            Country::BD => 18,
            Country::BE => 19,
            Country::BF => 20,
            Country::BG => 21,
            Country::BH => 22,
            Country::BI => 23,
            Country::BJ => 24,
            Country::BL => 25,
            Country::BM => 26,
            Country::BN => 27,
            Country::BO => 28,
            Country::BQ => 29,
            Country::BR => 30,
            Country::BS => 31,
            Country::BT => 32,
            Country::BV => 33,
            Country::BW => 34,
            Country::BY => 35,
            Country::BZ => 36,
            Country::CA => 37,
            Country::CC => 38,
            Country::CD => 39,
            Country::CF => 40,
            Country::CG => 41,
            Country::CH => 42,
            Country::CI => 43,
            Country::CK => 44,
            Country::CL => 45,
            Country::CM => 46,
            Country::CN => 47,
            Country::CO => 48,
            Country::CR => 49,
            Country::CU => 50,
            Country::CV => 51,
            Country::CW => 52,
            Country::CX => 53,
            Country::CY => 54,
            Country::CZ => 55,
            Country::DE => 56,
            Country::DJ => 57,
            Country::DK => 58,
            Country::DM => 59,
            Country::DO => 60,
            Country::DZ => 61,
            Country::EC => 62,
            Country::EE => 63,
            Country::EG => 64,
            Country::EH => 65,
            Country::ER => 66,
            Country::ES => 67,
            Country::ET => 68,
            Country::FI => 69,
            Country::FJ => 70,
            Country::FK => 71,
            Country::FM => 72,
            Country::FO => 73,
            Country::FR => 74,
            Country::GA => 75,
            Country::GB => 76,
            Country::GD => 77,
            Country::GE => 78,
            Country::GF => 79,
            Country::GG => 80,
            Country::GH => 81,
            Country::GI => 82,
            Country::GL => 83,
            Country::GM => 84,
            Country::GN => 85,
            Country::GP => 86,
            Country::GQ => 87,
            Country::GR => 88,
            Country::GS => 89,
            Country::GT => 90,
            Country::GU => 91,
            Country::GW => 92,
            Country::GY => 93,
            Country::HK => 94,
            Country::HM => 95,
            Country::HN => 96,
            Country::HR => 97,
            Country::HT => 98,
            Country::HU => 99,
            Country::ID => 100,
            Country::IE => 101,
            Country::IL => 102,
            Country::IM => 103,
            Country::IN => 104,
            Country::IO => 105,
            Country::IQ => 106,
            Country::IR => 107,
            Country::IS => 108,
            Country::IT => 109,
            Country::JE => 110,
            Country::JM => 111,
            Country::JO => 112,
            Country::JP => 113,
            Country::KE => 114,
            Country::KG => 115,
            Country::KH => 116,
            Country::KI => 117,
            Country::KM => 118,
            Country::KN => 119,
            Country::KP => 120,
            Country::KR => 121,
            Country::KW => 122,
            Country::KY => 123,
            Country::KZ => 124,
            Country::LA => 125,
            Country::LB => 126,
            Country::LC => 127,
            Country::LI => 128,
            Country::LK => 129,
            Country::LR => 130,
            Country::LS => 131,
            Country::LT => 132,
            Country::LU => 133,
            Country::LV => 134,
            Country::LY => 135,
            Country::MA => 136,
            Country::MC => 137,
            Country::MD => 138,
            Country::ME => 139,
            Country::MF => 140,
            Country::MG => 141,
            Country::MH => 142,
            Country::MK => 143,
            Country::ML => 144,
            Country::MM => 145,
            Country::MN => 146,
            Country::MO => 147,
            Country::MP => 148,
            Country::MQ => 149,
            Country::MR => 150,
            Country::MS => 151,
            Country::MT => 152,
            Country::MU => 153,
            Country::MV => 154,
            Country::MW => 155,
            Country::MX => 156,
            Country::MY => 157,
            Country::MZ => 158,
            Country::NA => 159,
            Country::NC => 160,
            Country::NE => 161,
            Country::NF => 162,
            Country::NG => 163,
            Country::NI => 164,
            Country::NL => 165,
            Country::NO => 166,
            Country::NP => 167,
            Country::NR => 168,
            Country::NU => 169,
            Country::NZ => 170,
            Country::OM => 171,
            Country::PA => 172,
            Country::PE => 173,
            Country::PF => 174,
            Country::PG => 175,
            Country::PH => 176,
            Country::PK => 177,
            Country::PL => 178,
            Country::PM => 179,
            Country::PN => 180,
            Country::PR => 181,
            Country::PS => 182,
            Country::PT => 183,
            Country::PW => 184,
            Country::PY => 185,
            Country::QA => 186,
            Country::RE => 187,
            Country::RO => 188,
            Country::RS => 189,
            Country::RU => 190,
            Country::RW => 191,
            Country::SA => 192,
            Country::SB => 193,
            Country::SC => 194,
            Country::SD => 195,
            Country::SE => 196,
            Country::SG => 197,
            Country::SH => 198,
            Country::SI => 199,
            Country::SJ => 200,
            Country::SK => 201,
            Country::SL => 202,
            Country::SM => 203,
            Country::SN => 204,
            Country::SO => 205,
            Country::SR => 206,
            Country::SS => 207,
            Country::ST => 208,
            Country::SV => 209,
            Country::SX => 210,
            Country::SY => 211,
            Country::SZ => 212,
            Country::TC => 213,
            Country::TD => 214,
            Country::TF => 215,
            Country::TG => 216,
            Country::TH => 217,
            Country::TJ => 218,
            Country::TK => 219,
            Country::TL => 220,
            Country::TM => 221,
            Country::TN => 222,
            Country::TO => 223,
            Country::TR => 224,
            Country::TT => 225,
            Country::TV => 226,
            Country::TW => 227,
            Country::TZ => 228,
            Country::UA => 229,
            Country::UG => 230,
            Country::UM => 231,
            Country::US => 232,
            Country::UY => 233,
            Country::UZ => 234,
            Country::VA => 235,
            Country::VC => 236,
            Country::VE => 237,
            Country::VG => 238,
            Country::VI => 239,
            Country::VN => 240,
            Country::VU => 241,
            Country::WF => 242,
            Country::WS => 243,
            Country::YE => 244,
            Country::YT => 245,
            Country::ZA => 246,
            Country::ZM => 247,
            Country::ZW => 248,
            Country::EU => 249,
            Country::AP => 250,
            Country::ZZ => 251,
        }
    }

    /// The two-letter code of this country.
    #[verifier::rlimit(100)]
    pub fn code(&self) -> (r: &'static str)
        ensures
            r@ == spec_country_code(spec_country_index(*self)),
    {
        match *self {
            Country::AD => "AD",
            Country::AE => "AE",
            Country::AF => "AF",
            Country::AG => "AG",
            Country::AI => "AI",
            Country::AL => "AL",
            Country::AM => "AM",
            Country::AO => "AO",
            Country::AQ => "AQ",
            Country::AR => "AR",
            Country::AS => "AS",
            Country::AT => "AT",
            Country::AU => "AU",
            Country::AW => "AW",
            Country::AX => "AX",
            Country::AZ => "AZ",
            Country::BA => "BA",
            Country::BB => "BB",
            Country::BD => "BD",
            Country::BE => "BE",
            Country::BF => "BF",
            Country::BG => "BG",
            Country::BH => "BH",
            Country::BI => "BI",
            Country::BJ => "BJ",
            Country::BL => "BL",
            Country::BM => "BM",
            Country::BN => "BN",
            Country::BO => "BO",
            Country::BQ => "BQ",
            Country::BR => "BR",
            Country::BS => "BS",
            Country::BT => "BT",
            Country::BV => "BV",
            Country::BW => "BW",
            Country::BY => "BY",
            Country::BZ => "BZ",
            Country::CA => "CA",
            Country::CC => "CC",
            Country::CD => "CD",
            Country::CF => "CF",
            Country::CG => "CG",
            Country::CH => "CH",
            Country::CI => "CI",
            Country::CK => "CK",
            Country::CL => "CL",
            Country::CM => "CM",
            Country::CN => "CN",
            Country::CO => "CO",
            Country::CR => "CR",
            Country::CU => "CU",
            Country::CV => "CV",
            Country::CW => "CW",
            Country::CX => "CX",
            Country::CY => "CY",
            Country::CZ => "CZ",
            Country::DE => "DE",
            Country::DJ => "DJ",
            Country::DK => "DK",
            Country::DM => "DM",
            Country::DO => "DO",
            Country::DZ => "DZ",
            Country::EC => "EC",
            Country::EE => "EE",
            Country::EG => "EG",
            Country::EH => "EH",
            Country::ER => "ER",
            Country::ES => "ES",
            Country::ET => "ET",
            Country::FI => "FI",
            Country::FJ => "FJ",
            Country::FK => "FK",
            Country::FM => "FM",
            Country::FO => "FO",
            Country::FR => "FR",
            Country::GA => "GA",
            Country::GB => "GB",
            Country::GD => "GD",
            Country::GE => "GE",
            Country::GF => "GF",
            Country::GG => "GG",
            Country::GH => "GH",
            Country::GI => "GI",
            Country::GL => "GL",
            Country::GM => "GM",
            Country::GN => "GN",
            Country::GP => "GP",
            Country::GQ => "GQ",
            Country::GR => "GR",
            Country::GS => "GS",
            Country::GT => "GT",
            Country::GU => "GU",
            Country::GW => "GW",
            Country::GY => "GY",
            Country::HK => "HK",
            Country::HM => "HM",
            Country::HN => "HN",
            Country::HR => "HR",
            Country::HT => "HT",
            Country::HU => "HU",
            Country::ID => "ID",
            Country::IE => "IE",
            Country::IL => "IL",
            Country::IM => "IM",
            Country::IN => "IN",
            Country::IO => "IO",
            Country::IQ => "IQ",
            Country::IR => "IR",
            Country::IS => "IS",
            Country::IT => "IT",
            Country::JE => "JE",
            Country::JM => "JM",
            Country::JO => "JO",
            Country::JP => "JP",
            Country::KE => "KE",
            Country::KG => "KG",
            Country::KH => "KH",
            Country::KI => "KI",
            Country::KM => "KM",
            Country::KN => "KN",
            Country::KP => "KP",
            Country::KR => "KR",
            Country::KW => "KW",
            Country::KY => "KY",
            Country::KZ => "KZ",
            Country::LA => "LA",
            Country::LB => "LB",
            Country::LC => "LC",
            Country::LI => "LI",
            Country::LK => "LK",
            Country::LR => "LR",
            Country::LS => "LS",
            Country::LT => "LT",
            Country::LU => "LU",
            Country::LV => "LV",
            Country::LY => "LY",
            Country::MA => "MA",
            Country::MC => "MC",
            Country::MD => "MD",
            Country::ME => "ME",
            Country::MF => "MF",
            Country::MG => "MG",
            Country::MH => "MH",
            Country::MK => "MK",
            Country::ML => "ML",
            Country::MM => "MM",
            Country::MN => "MN",
            Country::MO => "MO",
            Country::MP => "MP",
            Country::MQ => "MQ",
            Country::MR => "MR",
            Country::MS => "MS",
            Country::MT => "MT",
            Country::MU => "MU",
            Country::MV => "MV",
            Country::MW => "MW",
            Country::MX => "MX",
            Country::MY => "MY",
            Country::MZ => "MZ",
            Country::NA => "NA",
            Country::NC => "NC",
            Country::NE => "NE",
            Country::NF => "NF",
            Country::NG => "NG",
            Country::NI => "NI",
            Country::NL => "NL",
            Country::NO => "NO",
            Country::NP => "NP",
            Country::NR => "NR",
            Country::NU => "NU",
            Country::NZ => "NZ",
            Country::OM => "OM",
            Country::PA => "PA",
            Country::PE => "PE",
            Country::PF => "PF",
            Country::PG => "PG",
            Country::PH => "PH",
            Country::PK => "PK",
            Country::PL => "PL",
            Country::PM => "PM",
            Country::PN => "PN",
            Country::PR => "PR",
            Country::PS => "PS",
            Country::PT => "PT",
            Country::PW => "PW",
            Country::PY => "PY",
            Country::QA => "QA",
            Country::RE => "RE",
            Country::RO => "RO",
            Country::RS => "RS",
            Country::RU => "RU",
            Country::RW => "RW",
            Country::SA => "SA",
            Country::SB => "SB",
            Country::SC => "SC",
            Country::SD => "SD",
            Country::SE => "SE",
            Country::SG => "SG",
            Country::SH => "SH",
            Country::SI => "SI",
            Country::SJ => "SJ",
            Country::SK => "SK",
            Country::SL => "SL",
            Country::SM => "SM",
            Country::SN => "SN",
            Country::SO => "SO",
            Country::SR => "SR",
            Country::SS => "SS",
            Country::ST => "ST",
            Country::SV => "SV",
            Country::SX => "SX",
            Country::SY => "SY",
            Country::SZ => "SZ",
            Country::TC => "TC",
            Country::TD => "TD",
            Country::TF => "TF",
            Country::TG => "TG",
            Country::TH => "TH",
            Country::TJ => "TJ",
            Country::TK => "TK",
            Country::TL => "TL",
            Country::TM => "TM",
            Country::TN => "TN",
            Country::TO => "TO",
            Country::TR => "TR",
            Country::TT => "TT",
            Country::TV => "TV",
            Country::TW => "TW",
            Country::TZ => "TZ",
            Country::UA => "UA",
            Country::UG => "UG",
            Country::UM => "UM",
            Country::US => "US",
            Country::UY => "UY",
            Country::UZ => "UZ",
            Country::VA => "VA",
            Country::VC => "VC",
            Country::VE => "VE",
            Country::VG => "VG",
            Country::VI => "VI",
            Country::VN => "VN",
            Country::VU => "VU",
            Country::WF => "WF",
            Country::WS => "WS",
            Country::YE => "YE",
            Country::YT => "YT",
            Country::ZA => "ZA",
            Country::ZM => "ZM",
            Country::ZW => "ZW",
            Country::EU => "EU",
            Country::AP => "AP",
            Country::ZZ => "ZZ",
        }
    }

    /// The full name of this country.
    #[verifier::rlimit(100)]
    pub fn full_name(&self) -> (r: &'static str)
        ensures
            r@ == spec_country_name(spec_country_index(*self)),
    {
        match *self {
            Country::AD => "Andorra",
            Country::AE => "United Arab Emirates",
            Country::AF => "Afghanistan",
            Country::AG => "Antigua and Barbuda",
            Country::AI => "Anguilla",
            Country::AL => "Albania",
            Country::AM => "Armenia",
            Country::AO => "Angola",
            Country::AQ => "Antarctica",
            Country::AR => "Argentina",
            Country::AS => "American Samoa",
            Country::AT => "Austria",
            Country::AU => "Australia",
            Country::AW => "Aruba",
            Country::AX => "Åland Islands",
            Country::AZ => "Azerbaijan",
            Country::BA => "Bosnia and Herzegovina",
            Country::BB => "Barbados",
            Country::BD => "Bangladesh",
            Country::BE => "Belgium",
            Country::BF => "Burkina Faso",
            Country::BG => "Bulgaria",
            Country::BH => "Bahrain",
            Country::BI => "Burundi",
            Country::BJ => "Benin",
            Country::BL => "Saint Barthélemy",
            Country::BM => "Bermuda",
            Country::BN => "Brunei Darussalam",
            Country::BO => "Bolivia (Plurinational State of)",
            Country::BQ => "Bonaire, Sint Eustatius and Saba",
            Country::BR => "Brazil",
            Country::BS => "Bahamas",
            Country::BT => "Bhutan",
            Country::BV => "Bouvet Island",
            Country::BW => "Botswana",
            Country::BY => "Belarus",
            Country::BZ => "Belize",
            Country::CA => "Canada",
            Country::CC => "Cocos (Keeling) Islands",
            Country::CD => "Congo, Democratic Republic of the",
            Country::CF => "Central African Republic",
            Country::CG => "Congo",
            Country::CH => "Switzerland",
            Country::CI => "Côte d'Ivoire",
            Country::CK => "Cook Islands",
            Country::CL => "Chile",
            Country::CM => "Cameroon",
            Country::CN => "China",
            Country::CO => "Colombia",
            Country::CR => "Costa Rica",
            Country::CU => "Cuba",
            Country::CV => "Cabo Verde",
            Country::CW => "Curaçao",
            Country::CX => "Christmas Island",
            Country::CY => "Cyprus",
            Country::CZ => "Czechia",
            Country::DE => "Germany",
            Country::DJ => "Djibouti",
            Country::DK => "Denmark",
            Country::DM => "Dominica",
            Country::DO => "Dominican Republic",
            Country::DZ => "Algeria",
            Country::EC => "Ecuador",
            Country::EE => "Estonia",
            Country::EG => "Egypt",
            Country::EH => "Western Sahara",
            Country::ER => "Eritrea",
            Country::ES => "Spain",
            Country::ET => "Ethiopia",
            Country::FI => "Finland",
            Country::FJ => "Fiji",
            Country::FK => "Falkland Islands (Malvinas)",
            Country::FM => "Micronesia (Federated States of)",
            Country::FO => "Faroe Islands",
            Country::FR => "France",
            Country::GA => "Gabon",
            Country::GB => "United Kingdom of Great Britain and Northern Ireland",
            Country::GD => "Grenada",
            Country::GE => "Georgia",
            Country::GF => "French Guiana",
            Country::GG => "Guernsey",
            Country::GH => "Ghana",
            Country::GI => "Gibraltar",
            Country::GL => "Greenland",
            Country::GM => "Gambia",
            Country::GN => "Guinea",
            Country::GP => "Guadeloupe",
            Country::GQ => "Equatorial Guinea",
            Country::GR => "Greece",
            Country::GS => "South Georgia and the South Sandwich Islands",
            Country::GT => "Guatemala",
            Country::GU => "Guam",
            Country::GW => "Guinea-Bissau",
            Country::GY => "Guyana",
            Country::HK => "Hong Kong",
            Country::HM => "Heard Island and McDonald Islands",
            Country::HN => "Honduras",
            Country::HR => "Croatia",
            Country::HT => "Haiti",
            Country::HU => "Hungary",
            Country::ID => "Indonesia",
            Country::IE => "Ireland",
            Country::IL => "Israel",
            Country::IM => "Isle of Man",
            Country::IN => "India",
            Country::IO => "British Indian Ocean Territory",
            Country::IQ => "Iraq",
            Country::IR => "Iran (Islamic Republic of)",
            Country::IS => "Iceland",
            Country::IT => "Italy",
            Country::JE => "Jersey",
            Country::JM => "Jamaica",
            Country::JO => "Jordan",
            Country::JP => "Japan",
            Country::KE => "Kenya",
            Country::KG => "Kyrgyzstan",
            Country::KH => "Cambodia",
            Country::KI => "Kiribati",
            Country::KM => "Comoros",
            Country::KN => "Saint Kitts and Nevis",
            Country::KP => "Korea (Democratic People's Republic of)",
            Country::KR => "Korea, Republic of",
            Country::KW => "Kuwait",
            Country::KY => "Cayman Islands",
            Country::KZ => "Kazakhstan",
            Country::LA => "Lao People's Democratic Republic",
            Country::LB => "Lebanon",
            Country::LC => "Saint Lucia",
            Country::LI => "Liechtenstein",
            Country::LK => "Sri Lanka",
            Country::LR => "Liberia",
            Country::LS => "Lesotho",
            Country::LT => "Lithuania",
            Country::LU => "Luxembourg",
            Country::LV => "Latvia",
            Country::LY => "Libya",
            Country::MA => "Morocco",
            Country::MC => "Monaco",
            Country::MD => "Moldova, Republic of",
            Country::ME => "Montenegro",
            Country::MF => "Saint Martin (French part)",
            Country::MG => "Madagascar",
            Country::MH => "Marshall Islands",
            Country::MK => "North Macedonia",
            Country::ML => "Mali",
            Country::MM => "Myanmar",
            Country::MN => "Mongolia",
            Country::MO => "Macao",
            Country::MP => "Northern Mariana Islands",
            Country::MQ => "Martinique",
            Country::MR => "Mauritania",
            Country::MS => "Montserrat",
            Country::MT => "Malta",
            Country::MU => "Mauritius",
            Country::MV => "Maldives",
            Country::MW => "Malawi",
            Country::MX => "Mexico",
            Country::MY => "Malaysia",
            Country::MZ => "Mozambique",
            Country::NA => "Namibia",
            Country::NC => "New Caledonia",
            Country::NE => "Niger",
            Country::NF => "Norfolk Island",
            Country::NG => "Nigeria",
            Country::NI => "Nicaragua",
            Country::NL => "Netherlands",
            Country::NO => "Norway",
            Country::NP => "Nepal",
            Country::NR => "Nauru",
            Country::NU => "Niue",
            Country::NZ => "New Zealand",
            Country::OM => "Oman",
            Country::PA => "Panama",
            Country::PE => "Peru",
            Country::PF => "French Polynesia",
            Country::PG => "Papua New Guinea",
            Country::PH => "Philippines",
            Country::PK => "Pakistan",
            Country::PL => "Poland",
            Country::PM => "Saint Pierre and Miquelon",
            Country::PN => "Pitcairn",
            Country::PR => "Puerto Rico",
            Country::PS => "Palestine, State of",
            Country::PT => "Portugal",
            Country::PW => "Palau",
            Country::PY => "Paraguay",
            Country::QA => "Qatar",
            Country::RE => "Réunion",
            Country::RO => "Romania",
            Country::RS => "Serbia",
            Country::RU => "Russian Federation",
            Country::RW => "Rwanda",
            Country::SA => "Saudi Arabia",
            Country::SB => "Solomon Islands",
            Country::SC => "Seychelles",
            Country::SD => "Sudan",
            Country::SE => "Sweden",
            Country::SG => "Singapore",
            Country::SH => "Saint Helena, Ascension and Tristan da Cunha",
            Country::SI => "Slovenia",
            Country::SJ => "Svalbard and Jan Mayen",
            Country::SK => "Slovakia",
            Country::SL => "Sierra Leone",
            Country::SM => "San Marino",
            Country::SN => "Senegal",
            Country::SO => "Somalia",
            Country::SR => "Suriname",
            Country::SS => "South Sudan",
            Country::ST => "Sao Tome and Principe",
            Country::SV => "El Salvador",
            Country::SX => "Sint Maarten (Dutch part)",
            Country::SY => "Syrian Arab Republic",
            Country::SZ => "Eswatini",
            Country::TC => "Turks and Caicos Islands",
            Country::TD => "Chad",
            Country::TF => "French Southern Territories",
            Country::TG => "Togo",
            Country::TH => "Thailand",
            Country::TJ => "Tajikistan",
            Country::TK => "Tokelau",
            Country::TL => "Timor-Leste",
            Country::TM => "Turkmenistan",
            Country::TN => "Tunisia",
            Country::TO => "Tonga",
            Country::TR => "Turkey",
            Country::TT => "Trinidad and Tobago",
            Country::TV => "Tuvalu",
            Country::TW => "Taiwan, Province of China",
            Country::TZ => "Tanzania, United Republic of",
            Country::UA => "Ukraine",
            Country::UG => "Uganda",
            Country::UM => "United States Minor Outlying Islands",
            Country::US => "United States of America",
            Country::UY => "Uruguay",
            Country::UZ => "Uzbekistan",
            Country::VA => "Holy See",
            Country::VC => "Saint Vincent and the Grenadines",
            Country::VE => "Venezuela (Bolivarian Republic of)",
            Country::VG => "Virgin Islands (British)",
            Country::VI => "Virgin Islands (U.S.)",
            Country::VN => "Viet Nam",
            Country::VU => "Vanuatu",
            Country::WF => "Wallis and Futuna",
            Country::WS => "Samoa",
            Country::YE => "Yemen",
            Country::YT => "Mayotte",
            Country::ZA => "South Africa",
            Country::ZM => "Zambia",
            Country::ZW => "Zimbabwe",
            Country::EU => "EU",
            Country::AP => "AP",
            Country::ZZ => "ZZ",
        }
    }

    /// Looks a two-letter code up in the table: the first index whose
    /// code equals `s`, or an error when none does.
    pub fn from_code(s: &str) -> (r: Result<Self, InvalidCountryCode>)
        ensures
            match r {
                Ok(c) => {
                    &&& s@ == spec_country_code(spec_country_index(c))
                    &&& forall|j: int|
                        0 <= j < spec_country_index(c) ==> s@ != spec_country_code(j)
                },
                Err(_) => forall|i: int| 0 <= i < 252 ==> s@ != spec_country_code(i),
            },
    {
        let mut i: u8 = 0;
        while i < 252
            invariant
                i <= 252,
                forall|j: int| 0 <= j < i ==> s@ != spec_country_code(j),
            decreases 252 - i,
        {
            let c = Country::from_index(i);
            if str_equal(s, c.code()) {
                return Ok(c);
            }
            i = i + 1;
        }
        Err(InvalidCountryCode)
    }
}

impl core::str::FromStr for Country {
    type Err = InvalidCountryCode;

    fn from_str(s: &str) -> Result<Country, InvalidCountryCode> {
        Country::from_code(s)
    }
}

} // verus!
