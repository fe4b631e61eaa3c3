use vstd::prelude::*;

use crate::parameters::{ToValue, Value};

verus! {

/// The languages used by the API, named by their ISO 639-1 codes.
#[derive(Clone, Copy, Debug, PartialEq, Eq, Structural)]
pub enum Language {
    /// Aragonese
    An,
    /// Akan
    Ak,
    /// Cree
    Cr,
    /// Azerbaijani
    Az,
    /// Czech
    Cs,
    /// Afar
    Aa,
    /// Breton
    Br,
    /// Afrikaans
    Af,
    /// Tibetan
    Bo,
    /// Chechen
    Ce,
    /// Cornish
    Kw,
    /// Faroese
    Fo,
    /// Latin
    La,
    /// Ndonga
    Ng,
    /// Sardinian
    Sc,
    /// Tigrinya
    Ti,
    /// Tswana
    Tn,
    /// Turkish
    Tr,
    /// Punjabi
    Pa,
    /// Estonian
    Et,
    /// French
    Fr,
    /// Hausa
    Ha,
    /// Icelandic
    Is,
    /// Limburgish
    Li,
    /// Lingala
    Ln,
    /// Swati
    Ss,
    /// Abkhazian
    Ab,
    /// Serbo-Croatian
    Sh,
    /// Basque
    Eu,
    /// Frisian
    Fy,
    /// Japanese
    Ja,
    /// Ojibwa
    Oj,
    /// Oriya
    Or,
    /// Pali
    Pi,
    /// Sundanese
    Su,
    /// Thai
    Th,
    /// Igbo
    Ig,
    /// Indonesian
    Id,
    /// Kazakh
    Kk,
    /// Kikuyu
    Ki,
    /// Uighur
    Ug,
    /// Venda
    Ve,
    /// Kinyarwanda
    Rw,
    /// Maori
    Mi,
    /// Navajo
    Nv,
    /// Hindi
    Hi,
    /// Portuguese
    Pt,
    /// Sango
    Sg,
    /// Slovak
    Sk,
    /// Serbian
    Sr,
    /// Tahitian
    Ty,
    /// Xhosa
    Xh,
    /// Arabic
    Ar,
    /// Corsican
    Co,
    /// Bislama
    Bi,
    /// Esperanto
    Eo,
    /// Herero
    Hz,
    /// Finnish
    Fi,
    /// Inuktitut
    Iu,
    /// Latvian
    Lv,
    /// Italian
    It,
    /// Dutch
    Nl,
    /// Kannada
    Kn,
    /// Sanskrit
    Sa,
    /// Albanian
    Sq,
    /// Tagalog
    Tl,
    /// Letzeburgesch
    Lb,
    /// Tsonga
    Ts,
    /// Malayalam
    Ml,
    /// Volapük
    Vo,
    /// Zulu
    Zu,
    /// Ossetian; Ossetic
    Os,
    /// Samoan
    Sm,
    /// Zhuang
    Za,
    /// Bengali
    Bn,
    /// Slavic
    Cu,
    /// Irish
    Ga,
    /// Manx
    Gv,
    /// Hungarian
    Hu,
    /// Javanese
    Jv,
    /// Kanuri
    Kr,
    /// Khmer
    Km,
    /// Kirghiz
    Ky,
    /// Nauru
    Na,
    /// Ndebele
    Nr,
    /// Occitan
    Oc,
    /// Romanian
    Ro,
    /// Russian
    Ru,
    /// Armenian
    Hy,
    /// Chamorro
    Ch,
    /// No Language
    Xx,
    /// Bashkir
    Ba,
    /// Galician
    Gl,
    /// Ido
    Io,
    /// Luba-Katanga
    Lu,
    /// Marshall
    Mh,
    /// Malagasy
    Mg,
    /// Moldavian
    Mo,
    /// Mongolian
    Mn,
    /// Ndebele
    Nd,
    /// Norwegian
    No,
    /// Polish
    Pl,
    /// Swahili
    Sw,
    /// Tajik
    Tg,
    /// Tonga
    To,
    /// Walloon
    Wa,
    /// Yiddish
    Yi,
    /// English
    En,
    /// Assamese
    As,
    /// Gaelic
    Gd,
    /// Kalaallisut
    Kl,
    /// Burmese
    My,
    /// Quechua
    Qu,
    /// Shona
    Sn,
    /// Ukrainian
    Uk,
    /// Persian
    Fa,
    /// Georgian
    Ka,
    /// Gujarati
    Gu,
    /// Avaric
    Av,
    /// Avestan
    Ae,
    /// Guarani
    Gn,
    /// Maltese
    Mt,
    /// Nepali
    Ne,
    /// Swedish
    Sv,
    /// Tatar
    Tt,
    /// Wolof
    Wo,
    /// Cantonese
    Cn,
    /// Chuvash
    Cv,
    /// Danish
    Da,
    /// Dzongkha
    Dz,
    /// Chichewa; Nyanja
    Ny,
    /// Rundi
    Rn,
    /// Sotho
    St,
    /// Turkmen
    Tk,
    /// Uzbek
    Uz,
    /// Vietnamese
    Vi,
    /// Greek
    El,
    /// Catalan
    Ca,
    /// Welsh
    Cy,
    /// German
    De,
    /// Kashmiri
    Ks,
    /// Malay
    Ms,
    /// Norwegian Bokmål
    Nb,
    /// Raeto-Romance
    Rm,
    /// Sinhalese
    Si,
    /// Spanish
    Es,
    /// Telugu
    Te,
    /// Twi
    Tw,
    /// Pushto
    Ps,
    /// Bulgarian
    Bg,
    /// Macedonian
    Mk,
    /// Inupiaq
    Ik,
    /// Korean
    Ko,
    /// Lithuanian
    Lt,
    /// Oromo
    Om,
    /// Northern Sami
    Se,
    /// Somali
    So,
    /// Tamil
    Ta,
    /// Urdu
    Ur,
    /// Amharic
    Am,
    /// Bosnian
    Bs,
    /// Divehi
    Dv,
    /// Aymara
    Ay,
    /// Bambara
    Bm,
    /// Yi
    Ii,
    /// Interlingue
    Ie,
    /// Komi
    Kv,
    /// Kurdish
    Ku,
    /// Norwegian Nynorsk
    Nn,
    /// Mandarin
    Zh,
    /// Hebrew
    He,
    /// Ewe
    Ee,
    /// Fijian
    Fj,
    /// Fulah
    Ff,
    /// Haitian; Haitian Creole
    Ht,
    /// Croatian
    Hr,
    /// Interlingua
    Ia,
    /// Kuanyama
    Kj,
    /// Lao
    Lo,
    /// Ganda
    Lg,
    /// Marathi
    Mr,
    /// Sindhi
    Sd,
    /// Belarusian
    Be,
    /// Hiri Motu
    Ho,
    /// Kongo
    Kg,
    /// Slovenian
    Sl,
    /// Yoruba
    Yo,
}

impl Language {
    /// The language's two-letter code as it appears in query strings.
    pub open spec fn code_spec(self) -> Seq<char> {
        match self {
            Language::An => "an"@,
            Language::Ak => "ak"@,
            Language::Cr => "cr"@,
            Language::Az => "az"@,
            Language::Cs => "cs"@,
            Language::Aa => "aa"@,
            Language::Br => "br"@,
            Language::Af => "af"@,
            Language::Bo => "bo"@,
            Language::Ce => "ce"@,
            Language::Kw => "kw"@,
            Language::Fo => "fo"@,
            Language::La => "la"@,
            Language::Ng => "ng"@,
            Language::Sc => "sc"@,
            Language::Ti => "ti"@,
            Language::Tn => "tn"@,
            Language::Tr => "tr"@,
            Language::Pa => "pa"@,
            Language::Et => "et"@,
            Language::Fr => "fr"@,
            Language::Ha => "ha"@,
            Language::Is => "is"@,
            Language::Li => "li"@,
            Language::Ln => "ln"@,
            Language::Ss => "ss"@,
            Language::Ab => "ab"@,
            Language::Sh => "sh"@,
            Language::Eu => "eu"@,
            Language::Fy => "fy"@,
            Language::Ja => "ja"@,
            Language::Oj => "oj"@,
            Language::Or => "or"@,
            Language::Pi => "pi"@,
            Language::Su => "su"@,
            Language::Th => "th"@,
            Language::Ig => "ig"@,
            Language::Id => "id"@,
            Language::Kk => "kk"@,
            Language::Ki => "ki"@,
            Language::Ug => "ug"@,
            Language::Ve => "ve"@,
            Language::Rw => "rw"@,
            Language::Mi => "mi"@,
            Language::Nv => "nv"@,
            Language::Hi => "hi"@,
            Language::Pt => "pt"@,
            Language::Sg => "sg"@,
            Language::Sk => "sk"@,
            Language::Sr => "sr"@,
            Language::Ty => "ty"@,
            Language::Xh => "xh"@,
            Language::Ar => "ar"@,
            Language::Co => "co"@,
            Language::Bi => "bi"@,
            Language::Eo => "eo"@,
            Language::Hz => "hz"@,
            Language::Fi => "fi"@,
            Language::Iu => "iu"@,
            Language::Lv => "lv"@,
            Language::It => "it"@,
            Language::Nl => "nl"@,
            Language::Kn => "kn"@,
            Language::Sa => "sa"@,
            Language::Sq => "sq"@,
            Language::Tl => "tl"@,
            Language::Lb => "lb"@,
            Language::Ts => "ts"@,
            Language::Ml => "ml"@,
            Language::Vo => "vo"@,
            Language::Zu => "zu"@,
            Language::Os => "os"@,
            Language::Sm => "sm"@,
            Language::Za => "za"@,
            Language::Bn => "bn"@,
            Language::Cu => "cu"@,
            Language::Ga => "ga"@,
            Language::Gv => "gv"@,
            Language::Hu => "hu"@,
            Language::Jv => "jv"@,
            Language::Kr => "kr"@,
            Language::Km => "km"@,
            Language::Ky => "ky"@,
            Language::Na => "na"@,
            Language::Nr => "nr"@,
            Language::Oc => "oc"@,
            Language::Ro => "ro"@,
            Language::Ru => "ru"@,
            Language::Hy => "hy"@,
            Language::Ch => "ch"@,
            Language::Xx => "xx"@,
            Language::Ba => "ba"@,
            Language::Gl => "gl"@,
            Language::Io => "io"@,
            Language::Lu => "lu"@,
            Language::Mh => "mh"@,
            Language::Mg => "mg"@,
            Language::Mo => "mo"@,
            Language::Mn => "mn"@,
            Language::Nd => "nd"@,
            Language::No => "no"@,
            Language::Pl => "pl"@,
            Language::Sw => "sw"@,
            Language::Tg => "tg"@,
            Language::To => "to"@,
            Language::Wa => "wa"@,
            Language::Yi => "yi"@,
            Language::En => "en"@,
            Language::As => "as"@,
            Language::Gd => "gd"@,
            Language::Kl => "kl"@,
            Language::My => "my"@,
            Language::Qu => "qu"@,
            Language::Sn => "sn"@,
            Language::Uk => "uk"@,
            Language::Fa => "fa"@,
            Language::Ka => "ka"@,
            Language::Gu => "gu"@,
            Language::Av => "av"@,
            Language::Ae => "ae"@,
            Language::Gn => "gn"@,
            Language::Mt => "mt"@,
            Language::Ne => "ne"@,
            Language::Sv => "sv"@,
            Language::Tt => "tt"@,
            Language::Wo => "wo"@,
            Language::Cn => "cn"@,
            Language::Cv => "cv"@,
            Language::Da => "da"@,
            Language::Dz => "dz"@,
            Language::Ny => "ny"@,
            Language::Rn => "rn"@,
            Language::St => "st"@,
            Language::Tk => "tk"@,
            Language::Uz => "uz"@,
            Language::Vi => "vi"@,
            Language::El => "el"@,
            Language::Ca => "ca"@,
            Language::Cy => "cy"@,
            Language::De => "de"@,
            Language::Ks => "ks"@,
            Language::Ms => "ms"@,
            Language::Nb => "nb"@,
            Language::Rm => "rm"@,
            Language::Si => "si"@,
            Language::Es => "es"@,
            Language::Te => "te"@,
            Language::Tw => "tw"@,
            Language::Ps => "ps"@,
            Language::Bg => "bg"@,
            Language::Mk => "mk"@,
            Language::Ik => "ik"@,
            Language::Ko => "ko"@,
            Language::Lt => "lt"@,
            Language::Om => "om"@,
            Language::Se => "se"@,
            Language::So => "so"@,
            Language::Ta => "ta"@,
            Language::Ur => "ur"@,
            Language::Am => "am"@,
            Language::Bs => "bs"@,
            Language::Dv => "dv"@,
            Language::Ay => "ay"@,
            Language::Bm => "bm"@,
            Language::Ii => "ii"@,
            Language::Ie => "ie"@,
            Language::Kv => "kv"@,
            Language::Ku => "ku"@,
            Language::Nn => "nn"@,
            Language::Zh => "zh"@,
            Language::He => "he"@,
            Language::Ee => "ee"@,
            Language::Fj => "fj"@,
            Language::Ff => "ff"@,
            Language::Ht => "ht"@,
            Language::Hr => "hr"@,
            Language::Ia => "ia"@,
            Language::Kj => "kj"@,
            Language::Lo => "lo"@,
            Language::Lg => "lg"@,
            Language::Mr => "mr"@,
            Language::Sd => "sd"@,
            Language::Be => "be"@,
            Language::Ho => "ho"@,
            Language::Kg => "kg"@,
            Language::Sl => "sl"@,
            Language::Yo => "yo"@,
        }
    }

    /// Returns the language's two-letter code as it appears in query strings.
    pub fn code(&self) -> (r: &'static str)
        ensures
            r@ == self.code_spec(),
    {
        match self {
            Language::An => "an",
            Language::Ak => "ak",
            Language::Cr => "cr",
            Language::Az => "az",
            Language::Cs => "cs",
            Language::Aa => "aa",
            Language::Br => "br",
            Language::Af => "af",
            Language::Bo => "bo",
            Language::Ce => "ce",
            Language::Kw => "kw",
            Language::Fo => "fo",
            Language::La => "la",
            Language::Ng => "ng",
            Language::Sc => "sc",
            Language::Ti => "ti",
            Language::Tn => "tn",
            Language::Tr => "tr",
            Language::Pa => "pa",
            Language::Et => "et",
            Language::Fr => "fr",
            Language::Ha => "ha",
            Language::Is => "is",
            Language::Li => "li",
            Language::Ln => "ln",
            Language::Ss => "ss",
            Language::Ab => "ab",
            Language::Sh => "sh",
            Language::Eu => "eu",
            Language::Fy => "fy",
            Language::Ja => "ja",
            Language::Oj => "oj",
            Language::Or => "or",
            Language::Pi => "pi",
            Language::Su => "su",
            Language::Th => "th",
            Language::Ig => "ig",
            Language::Id => "id",
            Language::Kk => "kk",
            Language::Ki => "ki",
            Language::Ug => "ug",
            Language::Ve => "ve",
            Language::Rw => "rw",
            Language::Mi => "mi",
            Language::Nv => "nv",
            Language::Hi => "hi",
            Language::Pt => "pt",
            Language::Sg => "sg",
            Language::Sk => "sk",
            Language::Sr => "sr",
            Language::Ty => "ty",
            Language::Xh => "xh",
            Language::Ar => "ar",
            Language::Co => "co",
            Language::Bi => "bi",
            Language::Eo => "eo",
            Language::Hz => "hz",
            Language::Fi => "fi",
            Language::Iu => "iu",
            Language::Lv => "lv",
            Language::It => "it",
            Language::Nl => "nl",
            Language::Kn => "kn",
            Language::Sa => "sa",
            Language::Sq => "sq",
            Language::Tl => "tl",
            Language::Lb => "lb",
            Language::Ts => "ts",
            Language::Ml => "ml",
            Language::Vo => "vo",
            Language::Zu => "zu",
            Language::Os => "os",
            Language::Sm => "sm",
            Language::Za => "za",
            Language::Bn => "bn",
            Language::Cu => "cu",
            Language::Ga => "ga",
            Language::Gv => "gv",
            Language::Hu => "hu",
            Language::Jv => "jv",
            Language::Kr => "kr",
            Language::Km => "km",
            Language::Ky => "ky",
            Language::Na => "na",
            Language::Nr => "nr",
            Language::Oc => "oc",
            Language::Ro => "ro",
            Language::Ru => "ru",
            Language::Hy => "hy",
            Language::Ch => "ch",
            Language::Xx => "xx",
            Language::Ba => "ba",
            Language::Gl => "gl",
            Language::Io => "io",
            Language::Lu => "lu",
            Language::Mh => "mh",
            Language::Mg => "mg",
            Language::Mo => "mo",
            Language::Mn => "mn",
            Language::Nd => "nd",
            Language::No => "no",
            Language::Pl => "pl",
            Language::Sw => "sw",
            Language::Tg => "tg",
            Language::To => "to",
            Language::Wa => "wa",
            Language::Yi => "yi",
            Language::En => "en",
            Language::As => "as",
            Language::Gd => "gd",
            Language::Kl => "kl",
            Language::My => "my",
            Language::Qu => "qu",
            Language::Sn => "sn",
            Language::Uk => "uk",
            Language::Fa => "fa",
            Language::Ka => "ka",
            Language::Gu => "gu",
            Language::Av => "av",
            Language::Ae => "ae",
            Language::Gn => "gn",
            Language::Mt => "mt",
            Language::Ne => "ne",
            Language::Sv => "sv",
            Language::Tt => "tt",
            Language::Wo => "wo",
            Language::Cn => "cn",
            Language::Cv => "cv",
            Language::Da => "da",
            Language::Dz => "dz",
            Language::Ny => "ny",
            Language::Rn => "rn",
            Language::St => "st",
            Language::Tk => "tk",
            Language::Uz => "uz",
            Language::Vi => "vi",
            Language::El => "el",
            Language::Ca => "ca",
            Language::Cy => "cy",
            Language::De => "de",
            Language::Ks => "ks",
            Language::Ms => "ms",
            Language::Nb => "nb",
            Language::Rm => "rm",
            Language::Si => "si",
            Language::Es => "es",
            Language::Te => "te",
            Language::Tw => "tw",
            Language::Ps => "ps",
            Language::Bg => "bg",
            Language::Mk => "mk",
            Language::Ik => "ik",
            Language::Ko => "ko",
            Language::Lt => "lt",
            Language::Om => "om",
            Language::Se => "se",
            Language::So => "so",
            Language::Ta => "ta",
            Language::Ur => "ur",
            Language::Am => "am",
            Language::Bs => "bs",
            Language::Dv => "dv",
            Language::Ay => "ay",
            Language::Bm => "bm",
            Language::Ii => "ii",
            Language::Ie => "ie",
            Language::Kv => "kv",
            Language::Ku => "ku",
            Language::Nn => "nn",
            Language::Zh => "zh",
            Language::He => "he",
            Language::Ee => "ee",
            Language::Fj => "fj",
            Language::Ff => "ff",
            Language::Ht => "ht",
            Language::Hr => "hr",
            Language::Ia => "ia",
            Language::Kj => "kj",
            Language::Lo => "lo",
            Language::Lg => "lg",
            Language::Mr => "mr",
            Language::Sd => "sd",
            Language::Be => "be",
            Language::Ho => "ho",
            Language::Kg => "kg",
            Language::Sl => "sl",
            Language::Yo => "yo",
        }
    }
}

impl ToValue for Language {
    open spec fn to_value_spec(&self) -> Seq<char> {
        self.code_spec()
    }

    fn to_value(&self) -> (v: Value) {
        let text: String = self.code().to_owned();
        text.to_value()
    }
}

} // verus!
