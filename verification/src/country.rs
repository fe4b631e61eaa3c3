use vstd::prelude::*;

use crate::parameters::{ToValue, Value};

verus! {

/// The countries used by the API, named by their ISO 3166-1 codes.
#[derive(Clone, Copy, Debug, PartialEq, Eq, Structural)]
pub enum Country {
    /// Andorra
    Ad,
    /// United Arab Emirates
    Ae,
    /// Afghanistan
    Af,
    /// Antigua and Barbuda
    Ag,
    /// Anguilla
    Ai,
    /// Albania
    Al,
    /// Armenia
    Am,
    /// Netherlands Antilles
    An,
    /// Angola
    Ao,
    /// Antarctica
    Aq,
    /// Argentina
    Ar,
    /// American Samoa
    As,
    /// Austria
    At,
    /// Australia
    Au,
    /// Aruba
    Aw,
    /// Azerbaijan
    Az,
    /// Bosnia and Herzegovina
    Ba,
    /// Barbados
    Bb,
    /// Bangladesh
    Bd,
    /// Belgium
    Be,
    /// Burkina Faso
    Bf,
    /// Bulgaria
    Bg,
    /// Bahrain
    Bh,
    /// Burundi
    Bi,
    /// Benin
    Bj,
    /// Bermuda
    Bm,
    /// Brunei Darussalam
    Bn,
    /// Bolivia
    Bo,
    /// Brazil
    Br,
    /// Bahamas
    Bs,
    /// Bhutan
    Bt,
    /// Bouvet Island
    Bv,
    /// Botswana
    Bw,
    /// Belarus
    By,
    /// Belize
    Bz,
    /// Canada
    Ca,
    /// Cocos  Islands
    Cc,
    /// Congo
    Cd,
    /// Central African Republic
    Cf,
    /// Congo
    Cg,
    /// Switzerland
    Ch,
    /// Cote D'Ivoire
    Ci,
    /// Cook Islands
    Ck,
    /// Chile
    Cl,
    /// Cameroon
    Cm,
    /// China
    Cn,
    /// Colombia
    Co,
    /// Costa Rica
    Cr,
    /// Serbia and Montenegro
    Cs,
    /// Cuba
    Cu,
    /// Cape Verde
    Cv,
    /// Christmas Island
    Cx,
    /// Cyprus
    Cy,
    /// Czech Republic
    Cz,
    /// Germany
    De,
    /// Djibouti
    Dj,
    /// Denmark
    Dk,
    /// Dominica
    Dm,
    /// Dominican Republic
    Do,
    /// Algeria
    Dz,
    /// Ecuador
    Ec,
    /// Estonia
    Ee,
    /// Egypt
    Eg,
    /// Western Sahara
    Eh,
    /// Eritrea
    Er,
    /// Spain
    Es,
    /// Ethiopia
    Et,
    /// Finland
    Fi,
    /// Fiji
    Fj,
    /// Falkland Islands
    Fk,
    /// Micronesia
    Fm,
    /// Faeroe Islands
    Fo,
    /// France
    Fr,
    /// Gabon
    Ga,
    /// United Kingdom
    Gb,
    /// Grenada
    Gd,
    /// Georgia
    Ge,
    /// French Guiana
    Gf,
    /// Ghana
    Gh,
    /// Gibraltar
    Gi,
    /// Greenland
    Gl,
    /// Gambia
    Gm,
    /// Guinea
    Gn,
    /// Guadaloupe
    Gp,
    /// Equatorial Guinea
    Gq,
    /// Greece
    Gr,
    /// South Georgia and the South Sandwich Islands
    Gs,
    /// Guatemala
    Gt,
    /// Guam
    Gu,
    /// Guinea-Bissau
    Gw,
    /// Guyana
    Gy,
    /// Hong Kong
    Hk,
    /// Heard and McDonald Islands
    Hm,
    /// Honduras
    Hn,
    /// Croatia
    Hr,
    /// Haiti
    Ht,
    /// Hungary
    Hu,
    /// Indonesia
    Id,
    /// Ireland
    Ie,
    /// Israel
    Il,
    /// India
    In,
    /// British Indian Ocean Territory
    Io,
    /// Iraq
    Iq,
    /// Iran
    Ir,
    /// Iceland
    Is,
    /// Italy
    It,
    /// Jamaica
    Jm,
    /// Jordan
    Jo,
    /// Japan
    Jp,
    /// Kenya
    Ke,
    /// Kyrgyz Republic
    Kg,
    /// Cambodia
    Kh,
    /// Kiribati
    Ki,
    /// Comoros
    Km,
    /// St. Kitts and Nevis
    Kn,
    /// North Korea
    Kp,
    /// South Korea
    Kr,
    /// Kuwait
    Kw,
    /// Cayman Islands
    Ky,
    /// Kazakhstan
    Kz,
    /// Lao People's Democratic Republic
    La,
    /// Lebanon
    Lb,
    /// St. Lucia
    Lc,
    /// Liechtenstein
    Li,
    /// Sri Lanka
    Lk,
    /// Liberia
    Lr,
    /// Lesotho
    Ls,
    /// Lithuania
    Lt,
    /// Luxembourg
    Lu,
    /// Latvia
    Lv,
    /// Libyan Arab Jamahiriya
    Ly,
    /// Morocco
    Ma,
    /// Monaco
    Mc,
    /// Moldova
    Md,
    /// Montenegro
    Me,
    /// Madagascar
    Mg,
    /// Marshall Islands
    Mh,
    /// Macedonia
    Mk,
    /// Mali
    Ml,
    /// Myanmar
    Mm,
    /// Mongolia
    Mn,
    /// Macao
    Mo,
    /// Northern Mariana Islands
    Mp,
    /// Martinique
    Mq,
    /// Mauritania
    Mr,
    /// Montserrat
    Ms,
    /// Malta
    Mt,
    /// Mauritius
    Mu,
    /// Maldives
    Mv,
    /// Malawi
    Mw,
    /// Mexico
    Mx,
    /// Malaysia
    My,
    /// Mozambique
    Mz,
    /// Namibia
    Na,
    /// New Caledonia
    Nc,
    /// Niger
    Ne,
    /// Norfolk Island
    Nf,
    /// Nigeria
    Ng,
    /// Nicaragua
    Ni,
    /// Netherlands
    Nl,
    /// Norway
    No,
    /// Nepal
    Np,
    /// Nauru
    Nr,
    /// Niue
    Nu,
    /// New Zealand
    Nz,
    /// Oman
    Om,
    /// Panama
    Pa,
    /// Peru
    Pe,
    /// French Polynesia
    Pf,
    /// Papua New Guinea
    Pg,
    /// Philippines
    Ph,
    /// Pakistan
    Pk,
    /// Poland
    Pl,
    /// St. Pierre and Miquelon
    Pm,
    /// Pitcairn Island
    Pn,
    /// Puerto Rico
    Pr,
    /// Palestinian Territory
    Ps,
    /// Portugal
    Pt,
    /// Palau
    Pw,
    /// Paraguay
    Py,
    /// Qatar
    Qa,
    /// Reunion
    Re,
    /// Romania
    Ro,
    /// Serbia
    Rs,
    /// Russia
    Ru,
    /// Rwanda
    Rw,
    /// Saudi Arabia
    Sa,
    /// Solomon Islands
    Sb,
    /// Seychelles
    Sc,
    /// Sudan
    Sd,
    /// Sweden
    Se,
    /// Singapore
    Sg,
    /// St. Helena
    Sh,
    /// Slovenia
    Si,
    /// Svalbard & Jan Mayen Islands
    Sj,
    /// Slovakia
    Sk,
    /// Sierra Leone
    Sl,
    /// San Marino
    Sm,
    /// Senegal
    Sn,
    /// Somalia
    So,
    /// Suriname
    Sr,
    /// South Sudan
    Ss,
    /// Sao Tome and Principe
    St,
    /// Soviet Union
    Su,
    /// El Salvador
    Sv,
    /// Syrian Arab Republic
    Sy,
    /// Swaziland
    Sz,
    /// Turks and Caicos Islands
    Tc,
    /// Chad
    Td,
    /// French Southern Territories
    Tf,
    /// Togo
    Tg,
    /// Thailand
    Th,
    /// Tajikistan
    Tj,
    /// Tokelau
    Tk,
    /// Timor-Leste
    Tl,
    /// Turkmenistan
    Tm,
    /// Tunisia
    Tn,
    /// Tonga
    To,
    /// Turkey
    Tr,
    /// Trinidad and Tobago
    Tt,
    /// Tuvalu
    Tv,
    /// Taiwan
    Tw,
    /// Tanzania
    Tz,
    /// Ukraine
    Ua,
    /// Uganda
    Ug,
    /// United States Minor Outlying Islands
    Um,
    /// United States of America
    Us,
    /// Uruguay
    Uy,
    /// Uzbekistan
    Uz,
    /// Holy See
    Va,
    /// St. Vincent and the Grenadines
    Vc,
    /// Venezuela
    Ve,
    /// British Virgin Islands
    Vg,
    /// US Virgin Islands
    Vi,
    /// Vietnam
    Vn,
    /// Vanuatu
    Vu,
    /// Wallis and Futuna Islands
    Wf,
    /// Samoa
    Ws,
    /// Czechoslovakia
    Xc,
    /// East Germany
    Xg,
    /// Kosovo
    Xk,
    /// Yemen
    Ye,
    /// Mayotte
    Yt,
    /// Yugoslavia
    Yu,
    /// South Africa
    Za,
    /// Zambia
    Zm,
    /// Zimbabwe
    Zw,
}

impl Country {
    /// The country's two-letter code as it appears in query strings.
    pub open spec fn code_spec(self) -> Seq<char> {
        match self {
            Country::Ad => "AD"@,
            Country::Ae => "AE"@,
            Country::Af => "AF"@,
            Country::Ag => "AG"@,
            Country::Ai => "AI"@,
            Country::Al => "AL"@,
            Country::Am => "AM"@,
            Country::An => "AN"@,
            Country::Ao => "AO"@,
            Country::Aq => "AQ"@,
            Country::Ar => "AR"@,
            Country::As => "AS"@,
            Country::At => "AT"@,
            Country::Au => "AU"@,
            Country::Aw => "AW"@,
            Country::Az => "AZ"@,
            Country::Ba => "BA"@,
            Country::Bb => "BB"@,
            Country::Bd => "BD"@,
            Country::Be => "BE"@,
            Country::Bf => "BF"@,
            Country::Bg => "BG"@,
            Country::Bh => "BH"@,
            Country::Bi => "BI"@,
            Country::Bj => "BJ"@,
            Country::Bm => "BM"@,
            Country::Bn => "BN"@,
            Country::Bo => "BO"@,
            Country::Br => "BR"@,
            Country::Bs => "BS"@,
            Country::Bt => "BT"@,
            Country::Bv => "BV"@,
            Country::Bw => "BW"@,
            Country::By => "BY"@,
            Country::Bz => "BZ"@,
            Country::Ca => "CA"@,
            Country::Cc => "CC"@,
            Country::Cd => "CD"@,
            Country::Cf => "CF"@,
            Country::Cg => "CG"@,
            Country::Ch => "CH"@,
            Country::Ci => "CI"@,
            Country::Ck => "CK"@,
            Country::Cl => "CL"@,
            Country::Cm => "CM"@,
            Country::Cn => "CN"@,
            Country::Co => "CO"@,
            Country::Cr => "CR"@,
            Country::Cs => "CS"@,
            Country::Cu => "CU"@,
            Country::Cv => "CV"@,
            Country::Cx => "CX"@,
            Country::Cy => "CY"@,
            Country::Cz => "CZ"@,
            Country::De => "DE"@,
            Country::Dj => "DJ"@,
            Country::Dk => "DK"@,
            Country::Dm => "DM"@,
            Country::Do => "DO"@,
            Country::Dz => "DZ"@,
            Country::Ec => "EC"@,
            Country::Ee => "EE"@,
            Country::Eg => "EG"@,
            Country::Eh => "EH"@,
            Country::Er => "ER"@,
            Country::Es => "ES"@,
            Country::Et => "ET"@,
            Country::Fi => "FI"@,
            Country::Fj => "FJ"@,
            Country::Fk => "FK"@,
            Country::Fm => "FM"@,
            Country::Fo => "FO"@,
            Country::Fr => "FR"@,
            Country::Ga => "GA"@,
            Country::Gb => "GB"@,
            Country::Gd => "GD"@,
            Country::Ge => "GE"@,
            Country::Gf => "GF"@,
            Country::Gh => "GH"@,
            Country::Gi => "GI"@,
            Country::Gl => "GL"@,
            Country::Gm => "GM"@,
            Country::Gn => "GN"@,
            Country::Gp => "GP"@,
            Country::Gq => "GQ"@,
            Country::Gr => "GR"@,
            Country::Gs => "GS"@,
            Country::Gt => "GT"@,
            Country::Gu => "GU"@,
            Country::Gw => "GW"@,
            Country::Gy => "GY"@,
            Country::Hk => "HK"@,
            Country::Hm => "HM"@,
            Country::Hn => "HN"@,
            Country::Hr => "HR"@,
            Country::Ht => "HT"@,
            Country::Hu => "HU"@,
            Country::Id => "ID"@,
            Country::Ie => "IE"@,
            Country::Il => "IL"@,
            Country::In => "IN"@,
            Country::Io => "IO"@,
            Country::Iq => "IQ"@,
            Country::Ir => "IR"@,
            Country::Is => "IS"@,
            Country::It => "IT"@,
            Country::Jm => "JM"@,
            Country::Jo => "JO"@,
            Country::Jp => "JP"@,
            Country::Ke => "KE"@,
            Country::Kg => "KG"@,
            Country::Kh => "KH"@,
            Country::Ki => "KI"@,
            Country::Km => "KM"@,
            Country::Kn => "KN"@,
            Country::Kp => "KP"@,
            Country::Kr => "KR"@,
            Country::Kw => "KW"@,
            Country::Ky => "KY"@,
            Country::Kz => "KZ"@,
            Country::La => "LA"@,
            Country::Lb => "LB"@,
            Country::Lc => "LC"@,
            Country::Li => "LI"@,
            Country::Lk => "LK"@,
            Country::Lr => "LR"@,
            Country::Ls => "LS"@,
            Country::Lt => "LT"@,
            Country::Lu => "LU"@,
            Country::Lv => "LV"@,
            Country::Ly => "LY"@,
            Country::Ma => "MA"@,
            Country::Mc => "MC"@,
            Country::Md => "MD"@,
            Country::Me => "ME"@,
            Country::Mg => "MG"@,
            Country::Mh => "MH"@,
            Country::Mk => "MK"@,
            Country::Ml => "ML"@,
            Country::Mm => "MM"@,
            Country::Mn => "MN"@,
            Country::Mo => "MO"@,
            Country::Mp => "MP"@,
            Country::Mq => "MQ"@,
            Country::Mr => "MR"@,
            Country::Ms => "MS"@,
            Country::Mt => "MT"@,
            Country::Mu => "MU"@,
            Country::Mv => "MV"@,
            Country::Mw => "MW"@,
            Country::Mx => "MX"@,
            Country::My => "MY"@,
            Country::Mz => "MZ"@,
            Country::Na => "NA"@,
            Country::Nc => "NC"@,
            Country::Ne => "NE"@,
            Country::Nf => "NF"@,
            Country::Ng => "NG"@,
            Country::Ni => "NI"@,
            Country::Nl => "NL"@,
            Country::No => "NO"@,
            Country::Np => "NP"@,
            Country::Nr => "NR"@,
            Country::Nu => "NU"@,
            Country::Nz => "NZ"@,
            Country::Om => "OM"@,
            Country::Pa => "PA"@,
            Country::Pe => "PE"@,
            Country::Pf => "PF"@,
            Country::Pg => "PG"@,
            Country::Ph => "PH"@,
            Country::Pk => "PK"@,
            Country::Pl => "PL"@,
            Country::Pm => "PM"@,
            Country::Pn => "PN"@,
            Country::Pr => "PR"@,
            Country::Ps => "PS"@,
            Country::Pt => "PT"@,
            Country::Pw => "PW"@,
            Country::Py => "PY"@,
            Country::Qa => "QA"@,
            Country::Re => "RE"@,
            Country::Ro => "RO"@,
            Country::Rs => "RS"@,
            Country::Ru => "RU"@,
            Country::Rw => "RW"@,
            Country::Sa => "SA"@,
            Country::Sb => "SB"@,
            Country::Sc => "SC"@,
            Country::Sd => "SD"@,
            Country::Se => "SE"@,
            Country::Sg => "SG"@,
            Country::Sh => "SH"@,
            Country::Si => "SI"@,
            Country::Sj => "SJ"@,
            Country::Sk => "SK"@,
            Country::Sl => "SL"@,
            Country::Sm => "SM"@,
            Country::Sn => "SN"@,
            Country::So => "SO"@,
            Country::Sr => "SR"@,
            Country::Ss => "SS"@,
            Country::St => "ST"@,
            Country::Su => "SU"@,
            Country::Sv => "SV"@,
            Country::Sy => "SY"@,
            Country::Sz => "SZ"@,
            Country::Tc => "TC"@,
            Country::Td => "TD"@,
            Country::Tf => "TF"@,
            Country::Tg => "TG"@,
            Country::Th => "TH"@,
            Country::Tj => "TJ"@,
            Country::Tk => "TK"@,
            Country::Tl => "TL"@,
            Country::Tm => "TM"@,
            Country::Tn => "TN"@,
            Country::To => "TO"@,
            Country::Tr => "TR"@,
            Country::Tt => "TT"@,
            Country::Tv => "TV"@,
            Country::Tw => "TW"@,
            Country::Tz => "TZ"@,
            Country::Ua => "UA"@,
            Country::Ug => "UG"@,
            Country::Um => "UM"@,
            Country::Us => "US"@,
            Country::Uy => "UY"@,
            Country::Uz => "UZ"@,
            Country::Va => "VA"@,
            Country::Vc => "VC"@,
            Country::Ve => "VE"@,
            Country::Vg => "VG"@,
            Country::Vi => "VI"@,
            Country::Vn => "VN"@,
            Country::Vu => "VU"@,
            Country::Wf => "WF"@,
            Country::Ws => "WS"@,
            Country::Xc => "XC"@,
            Country::Xg => "XG"@,
            Country::Xk => "XK"@,
            Country::Ye => "YE"@,
            Country::Yt => "YT"@,
            Country::Yu => "YU"@,
            Country::Za => "ZA"@,
            Country::Zm => "ZM"@,
            Country::Zw => "ZW"@,
        }
    }

    /// Returns the country's two-letter code as it appears in query strings.
    pub fn code(&self) -> (r: &'static str)
        ensures
            r@ == self.code_spec(),
    {
        match self {
            Country::Ad => "AD",
            Country::Ae => "AE",
            Country::Af => "AF",
            Country::Ag => "AG",
            Country::Ai => "AI",
            Country::Al => "AL",
            Country::Am => "AM",
            Country::An => "AN",
            Country::Ao => "AO",
            Country::Aq => "AQ",
            Country::Ar => "AR",
            Country::As => "AS",
            Country::At => "AT",
            Country::Au => "AU",
            Country::Aw => "AW",
            Country::Az => "AZ",
            Country::Ba => "BA",
            Country::Bb => "BB",
            Country::Bd => "BD",
            Country::Be => "BE",
            Country::Bf => "BF",
            Country::Bg => "BG",
            Country::Bh => "BH",
            Country::Bi => "BI",
            Country::Bj => "BJ",
            Country::Bm => "BM",
            Country::Bn => "BN",
            Country::Bo => "BO",
            Country::Br => "BR",
            Country::Bs => "BS",
            Country::Bt => "BT",
            Country::Bv => "BV",
            Country::Bw => "BW",
            Country::By => "BY",
            Country::Bz => "BZ",
            Country::Ca => "CA",
            Country::Cc => "CC",
            Country::Cd => "CD",
            Country::Cf => "CF",
            Country::Cg => "CG",
            Country::Ch => "CH",
            Country::Ci => "CI",
            Country::Ck => "CK",
            Country::Cl => "CL",
            Country::Cm => "CM",
            Country::Cn => "CN",
            Country::Co => "CO",
            Country::Cr => "CR",
            Country::Cs => "CS",
            Country::Cu => "CU",
            Country::Cv => "CV",
            Country::Cx => "CX",
            Country::Cy => "CY",
            Country::Cz => "CZ",
            Country::De => "DE",
            Country::Dj => "DJ",
            Country::Dk => "DK",
            Country::Dm => "DM",
            Country::Do => "DO",
            Country::Dz => "DZ",
            Country::Ec => "EC",
            Country::Ee => "EE",
            Country::Eg => "EG",
            Country::Eh => "EH",
            Country::Er => "ER",
            Country::Es => "ES",
            Country::Et => "ET",
            Country::Fi => "FI",
            Country::Fj => "FJ",
            Country::Fk => "FK",
            Country::Fm => "FM",
            Country::Fo => "FO",
            Country::Fr => "FR",
            Country::Ga => "GA",
            Country::Gb => "GB",
            Country::Gd => "GD",
            Country::Ge => "GE",
            Country::Gf => "GF",
            Country::Gh => "GH",
            Country::Gi => "GI",
            Country::Gl => "GL",
            Country::Gm => "GM",
            Country::Gn => "GN",
            Country::Gp => "GP",
            Country::Gq => "GQ",
            Country::Gr => "GR",
            Country::Gs => "GS",
            Country::Gt => "GT",
            Country::Gu => "GU",
            Country::Gw => "GW",
            Country::Gy => "GY",
            Country::Hk => "HK",
            Country::Hm => "HM",
            Country::Hn => "HN",
            Country::Hr => "HR",
            Country::Ht => "HT",
            Country::Hu => "HU",
            Country::Id => "ID",
            Country::Ie => "IE",
            Country::Il => "IL",
            Country::In => "IN",
            Country::Io => "IO",
            Country::Iq => "IQ",
            Country::Ir => "IR",
            Country::Is => "IS",
            Country::It => "IT",
            Country::Jm => "JM",
            Country::Jo => "JO",
            Country::Jp => "JP",
            Country::Ke => "KE",
            Country::Kg => "KG",
            Country::Kh => "KH",
            Country::Ki => "KI",
            Country::Km => "KM",
            Country::Kn => "KN",
            Country::Kp => "KP",
            Country::Kr => "KR",
            Country::Kw => "KW",
            Country::Ky => "KY",
            Country::Kz => "KZ",
            Country::La => "LA",
            Country::Lb => "LB",
            Country::Lc => "LC",
            Country::Li => "LI",
            Country::Lk => "LK",
            Country::Lr => "LR",
            Country::Ls => "LS",
            Country::Lt => "LT",
            Country::Lu => "LU",
            Country::Lv => "LV",
            Country::Ly => "LY",
            Country::Ma => "MA",
            Country::Mc => "MC",
            Country::Md => "MD",
            Country::Me => "ME",
            Country::Mg => "MG",
            Country::Mh => "MH",
            Country::Mk => "MK",
            Country::Ml => "ML",
            Country::Mm => "MM",
            Country::Mn => "MN",
            Country::Mo => "MO",
            Country::Mp => "MP",
            Country::Mq => "MQ",
            Country::Mr => "MR",
            Country::Ms => "MS",
            Country::Mt => "MT",
            Country::Mu => "MU",
            Country::Mv => "MV",
            Country::Mw => "MW",
            Country::Mx => "MX",
            Country::My => "MY",
            Country::Mz => "MZ",
            Country::Na => "NA",
            Country::Nc => "NC",
            Country::Ne => "NE",
            Country::Nf => "NF",
            Country::Ng => "NG",
            Country::Ni => "NI",
            Country::Nl => "NL",
            Country::No => "NO",
            Country::Np => "NP",
            Country::Nr => "NR",
            Country::Nu => "NU",
            Country::Nz => "NZ",
            Country::Om => "OM",
            Country::Pa => "PA",
            Country::Pe => "PE",
            Country::Pf => "PF",
            Country::Pg => "PG",
            Country::Ph => "PH",
            Country::Pk => "PK",
            Country::Pl => "PL",
            Country::Pm => "PM",
            Country::Pn => "PN",
            Country::Pr => "PR",
            Country::Ps => "PS",
            Country::Pt => "PT",
            Country::Pw => "PW",
            Country::Py => "PY",
            Country::Qa => "QA",
            Country::Re => "RE",
            Country::Ro => "RO",
            Country::Rs => "RS",
            Country::Ru => "RU",
            Country::Rw => "RW",
            Country::Sa => "SA",
            Country::Sb => "SB",
            Country::Sc => "SC",
            Country::Sd => "SD",
            Country::Se => "SE",
            Country::Sg => "SG",
            Country::Sh => "SH",
            Country::Si => "SI",
            Country::Sj => "SJ",
            Country::Sk => "SK",
            Country::Sl => "SL",
            Country::Sm => "SM",
            Country::Sn => "SN",
            Country::So => "SO",
            Country::Sr => "SR",
            Country::Ss => "SS",
            Country::St => "ST",
            Country::Su => "SU",
            Country::Sv => "SV",
            Country::Sy => "SY",
            Country::Sz => "SZ",
            Country::Tc => "TC",
            Country::Td => "TD",
            Country::Tf => "TF",
            Country::Tg => "TG",
            Country::Th => "TH",
            Country::Tj => "TJ",
            Country::Tk => "TK",
            Country::Tl => "TL",
            Country::Tm => "TM",
            Country::Tn => "TN",
            Country::To => "TO",
            Country::Tr => "TR",
            Country::Tt => "TT",
            Country::Tv => "TV",
            Country::Tw => "TW",
            Country::Tz => "TZ",
            Country::Ua => "UA",
            Country::Ug => "UG",
            Country::Um => "UM",
            Country::Us => "US",
            Country::Uy => "UY",
            Country::Uz => "UZ",
            Country::Va => "VA",
            Country::Vc => "VC",
            Country::Ve => "VE",
            Country::Vg => "VG",
            Country::Vi => "VI",
            Country::Vn => "VN",
            Country::Vu => "VU",
            Country::Wf => "WF",
            Country::Ws => "WS",
            Country::Xc => "XC",
            Country::Xg => "XG",
            Country::Xk => "XK",
            Country::Ye => "YE",
            Country::Yt => "YT",
            Country::Yu => "YU",
            Country::Za => "ZA",
            Country::Zm => "ZM",
            Country::Zw => "ZW",
        }
    }
}

impl ToValue for Country {
    open spec fn to_value_spec(&self) -> Seq<char> {
        self.code_spec()
    }

    fn to_value(&self) -> (v: Value) {
        let text: String = self.code().to_owned();
        text.to_value()
    }
}

} // verus!
