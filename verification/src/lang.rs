//! The closed table of supported subtitle languages: each language has a
//! fixed three-letter site code, and can be named case-insensitively by its
//! human-readable name.
use vstd::prelude::*;
use vstd::string::*;

use crate::text::push_char;

verus! {

/// A language supported by the site, with a fixed three-letter code.
#[derive(Debug, Clone, Copy, PartialEq, Eq, Structural)]
pub enum Language {
    Abkhazian,
    Afrikaans,
    Albanian,
    Amharic,
    Arabic,
    Aragonese,
    Armenian,
    Assamese,
    Asturian,
    Azerbaijani,
    Basque,
    Belarusian,
    Bengali,
    Bosnian,
    Breton,
    Bulgarian,
    Burmese,
    Catalan,
    ChineseCantonese,
    ChineseSimplified,
    ChineseTraditional,
    ChineseBilingual,
    Croatian,
    Czech,
    Danish,
    Dari,
    Dutch,
    English,
    Esperanto,
    Estonian,
    Extremaduran,
    Finnish,
    French,
    Gaelic,
    Galician,
    Georgian,
    German,
    Greek,
    Hebrew,
    Hindi,
    Hungarian,
    Icelandic,
    Igbo,
    Indonesian,
    Interlingua,
    Irish,
    Italian,
    Japanese,
    Kannada,
    Kazakh,
    Khmer,
    Korean,
    Kurdish,
    Kyrgyz,
    Latvian,
    Lithuanian,
    Luxembourgish,
    Macedonian,
    Malay,
    Malayalam,
    Manipuri,
    Marathi,
    Mongolian,
    Montenegrin,
    Navajo,
    Nepali,
    NorthernSami,
    Norwegian,
    Occitan,
    Odia,
    Persian,
    Polish,
    Portuguese,
    PortugueseBr,
    PortugueseMz,
    Pushto,
    Romanian,
    Russian,
    Santali,
    Serbian,
    Sindhi,
    Sinhalese,
    Slovak,
    Slovenian,
    Somali,
    SorbianLanguages,
    SouthAzerbaijani,
    Spanish,
    SpanishEU,
    SpanishLA,
    Swahili,
    Swedish,
    Syriac,
    Tagalog,
    Tamil,
    Tatar,
    Telugu,
    Tetum,
    Thai,
    TokiPona,
    Turkish,
    Turkmen,
    Ukrainian,
    Urdu,
    Uzbek,
    Vietnamese,
    Welsch,
}

impl Language {
    /// The three-letter site code of this language.
    pub open spec fn spec_code(self) -> Seq<char> {
        match self {
            Language::Abkhazian => "abk"@,
            Language::Afrikaans => "afr"@,
            Language::Albanian => "alb"@,
            Language::Amharic => "Amh"@,
            Language::Arabic => "ara"@,
            Language::Aragonese => "arg"@,
            Language::Armenian => "arm"@,
            Language::Assamese => "asm"@,
            Language::Asturian => "ast"@,
            Language::Azerbaijani => "aze"@,
            Language::Basque => "baq"@,
            Language::Belarusian => "bel"@,
            Language::Bengali => "ben"@,
            Language::Bosnian => "bos"@,
            Language::Breton => "bre"@,
            Language::Bulgarian => "bul"@,
            Language::Burmese => "bur"@,
            Language::Catalan => "cat"@,
            Language::ChineseCantonese => "zhc"@,
            Language::ChineseSimplified => "chi"@,
            Language::ChineseTraditional => "zht"@,
            Language::ChineseBilingual => "zhe"@,
            Language::Croatian => "hrv"@,
            Language::Czech => "cze"@,
            Language::Danish => "dan"@,
            Language::Dari => "prs"@,
            Language::Dutch => "dut"@,
            Language::English => "eng"@,
            Language::Esperanto => "epo"@,
            Language::Estonian => "est"@,
            Language::Extremaduran => "ext"@,
            Language::Finnish => "fin"@,
            Language::French => "fre"@,
            Language::Gaelic => "gla"@,
            Language::Galician => "glb"@,
            Language::Georgian => "geo"@,
            Language::German => "ger"@,
            Language::Greek => "ell"@,
            Language::Hebrew => "heb"@,
            Language::Hindi => "hin"@,
            Language::Hungarian => "hun"@,
            Language::Icelandic => "ice"@,
            Language::Igbo => "ibo"@,
            Language::Indonesian => "ind"@,
            Language::Interlingua => "ina"@,
            Language::Irish => "gle"@,
            Language::Italian => "ita"@,
            Language::Japanese => "jpn"@,
            Language::Kannada => "kan"@,
            Language::Kazakh => "kaz"@,
            Language::Khmer => "khm"@,
            Language::Korean => "kor"@,
            Language::Kurdish => "kur"@,
            Language::Kyrgyz => "kir"@,
            Language::Latvian => "lav"@,
            Language::Lithuanian => "lit"@,
            Language::Luxembourgish => "ltz"@,
            Language::Macedonian => "mac"@,
            Language::Malay => "may"@,
            Language::Malayalam => "mal"@,
            Language::Manipuri => "mni"@,
            Language::Marathi => "mar"@,
            Language::Mongolian => "mon"@,
            Language::Montenegrin => "mne"@,
            Language::Navajo => "nav"@,
            Language::Nepali => "nep"@,
            Language::NorthernSami => "sme"@,
            Language::Norwegian => "nor"@,
            Language::Occitan => "oci"@,
            Language::Odia => "ori"@,
            Language::Persian => "per"@,
            Language::Polish => "pol"@,
            Language::Portuguese => "por"@,
            Language::PortugueseBr => "pob"@,
            Language::PortugueseMz => "pom"@,
            Language::Pushto => "pus"@,
            Language::Romanian => "rum"@,
            Language::Russian => "rus"@,
            Language::Santali => "sat"@,
            Language::Serbian => "scc"@,
            Language::Sindhi => "snd"@,
            Language::Sinhalese => "sin"@,
            Language::Slovak => "slo"@,
            Language::Slovenian => "slv"@,
            Language::Somali => "som"@,
            Language::SorbianLanguages => "wen"@,
            Language::SouthAzerbaijani => "azb"@,
            Language::Spanish => "spa"@,
            Language::SpanishEU => "spn"@,
            Language::SpanishLA => "spl"@,
            Language::Swahili => "swa"@,
            Language::Swedish => "swe"@,
            Language::Syriac => "syr"@,
            Language::Tagalog => "tgl"@,
            Language::Tamil => "tam"@,
            Language::Tatar => "tat"@,
            Language::Telugu => "tel"@,
            Language::Tetum => "tet"@,
            Language::Thai => "tha"@,
            Language::TokiPona => "tok"@,
            Language::Turkish => "tur"@,
            Language::Turkmen => "tuk"@,
            Language::Ukrainian => "ukr"@,
            Language::Urdu => "urd"@,
            Language::Uzbek => "uzb"@,
            Language::Vietnamese => "vie"@,
            Language::Welsch => "wel"@,
        }
    }

    /// The three-letter site code of this language.
    pub fn code(&self) -> (r: &str)
        ensures
            r@ == self.spec_code(),
    {
        match self {
            Language::Abkhazian => "abk",
            Language::Afrikaans => "afr",
            Language::Albanian => "alb",
            Language::Amharic => "Amh",
            Language::Arabic => "ara",
            Language::Aragonese => "arg",
            Language::Armenian => "arm",
            Language::Assamese => "asm",
            Language::Asturian => "ast",
            Language::Azerbaijani => "aze",
            Language::Basque => "baq",
            Language::Belarusian => "bel",
            Language::Bengali => "ben",
            Language::Bosnian => "bos",
            Language::Breton => "bre",
            Language::Bulgarian => "bul",
            Language::Burmese => "bur",
            Language::Catalan => "cat",
            Language::ChineseCantonese => "zhc",
            Language::ChineseSimplified => "chi",
            Language::ChineseTraditional => "zht",
            Language::ChineseBilingual => "zhe",
            Language::Croatian => "hrv",
            Language::Czech => "cze",
            Language::Danish => "dan",
            Language::Dari => "prs",
            Language::Dutch => "dut",
            Language::English => "eng",
            Language::Esperanto => "epo",
            Language::Estonian => "est",
            Language::Extremaduran => "ext",
            Language::Finnish => "fin",
            Language::French => "fre",
            Language::Gaelic => "gla",
            Language::Galician => "glb",
            Language::Georgian => "geo",
            Language::German => "ger",
            Language::Greek => "ell",
            Language::Hebrew => "heb",
            Language::Hindi => "hin",
            Language::Hungarian => "hun",
            Language::Icelandic => "ice",
            Language::Igbo => "ibo",
            Language::Indonesian => "ind",
            Language::Interlingua => "ina",
            Language::Irish => "gle",
            Language::Italian => "ita",
            Language::Japanese => "jpn",
            Language::Kannada => "kan",
            Language::Kazakh => "kaz",
            Language::Khmer => "khm",
            Language::Korean => "kor",
            Language::Kurdish => "kur",
            Language::Kyrgyz => "kir",
            Language::Latvian => "lav",
            Language::Lithuanian => "lit",
            Language::Luxembourgish => "ltz",
            Language::Macedonian => "mac",
            Language::Malay => "may",
            Language::Malayalam => "mal",
            Language::Manipuri => "mni",
            Language::Marathi => "mar",
            Language::Mongolian => "mon",
            Language::Montenegrin => "mne",
            Language::Navajo => "nav",
            Language::Nepali => "nep",
            Language::NorthernSami => "sme",
            Language::Norwegian => "nor",
            Language::Occitan => "oci",
            Language::Odia => "ori",
            Language::Persian => "per",
            Language::Polish => "pol",
            Language::Portuguese => "por",
            Language::PortugueseBr => "pob",
            Language::PortugueseMz => "pom",
            Language::Pushto => "pus",
            Language::Romanian => "rum",
            Language::Russian => "rus",
            Language::Santali => "sat",
            Language::Serbian => "scc",
            Language::Sindhi => "snd",
            Language::Sinhalese => "sin",
            Language::Slovak => "slo",
            Language::Slovenian => "slv",
            Language::Somali => "som",
            Language::SorbianLanguages => "wen",
            Language::SouthAzerbaijani => "azb",
            Language::Spanish => "spa",
            Language::SpanishEU => "spn",
            Language::SpanishLA => "spl",
            Language::Swahili => "swa",
            Language::Swedish => "swe",
            Language::Syriac => "syr",
            Language::Tagalog => "tgl",
            Language::Tamil => "tam",
            Language::Tatar => "tat",
            Language::Telugu => "tel",
            Language::Tetum => "tet",
            Language::Thai => "tha",
            Language::TokiPona => "tok",
            Language::Turkish => "tur",
            Language::Turkmen => "tuk",
            Language::Ukrainian => "ukr",
            Language::Urdu => "urd",
            Language::Uzbek => "uzb",
            Language::Vietnamese => "vie",
            Language::Welsch => "wel",
        }
    }

    /// The language whose lower-case human-readable name is `s`.
    pub open spec fn spec_from_name(s: Seq<char>) -> Option<Language> {
        if s == "abkhazian"@ {
            Some(Language::Abkhazian)
        } else if s == "afrikaans"@ {
            Some(Language::Afrikaans)
        } else if s == "albanian"@ {
            Some(Language::Albanian)
        } else if s == "amharic"@ {
            Some(Language::Amharic)
        } else if s == "arabic"@ {
            Some(Language::Arabic)
        } else if s == "aragonese"@ {
            Some(Language::Aragonese)
        } else if s == "armenian"@ {
            Some(Language::Armenian)
        } else if s == "assamese"@ {
            Some(Language::Assamese)
        } else if s == "asturian"@ {
            Some(Language::Asturian)
        } else if s == "azerbaijani"@ {
            Some(Language::Azerbaijani)
        } else if s == "basque"@ {
            Some(Language::Basque)
        } else if s == "belarusian"@ {
            Some(Language::Belarusian)
        } else if s == "bengali"@ {
            Some(Language::Bengali)
        } else if s == "bosnian"@ {
            Some(Language::Bosnian)
        } else if s == "breton"@ {
            Some(Language::Breton)
        } else if s == "bulgarian"@ {
            Some(Language::Bulgarian)
        } else if s == "burmese"@ {
            Some(Language::Burmese)
        } else if s == "catalan"@ {
            Some(Language::Catalan)
        } else if s == "chinese cantonese"@ {
            Some(Language::ChineseCantonese)
        } else if s == "chinese simplified"@ {
            Some(Language::ChineseSimplified)
        } else if s == "chinese traditional"@ {
            Some(Language::ChineseTraditional)
        } else if s == "chinese bilingual"@ {
            Some(Language::ChineseBilingual)
        } else if s == "croatian"@ {
            Some(Language::Croatian)
        } else if s == "czech"@ {
            Some(Language::Czech)
        } else if s == "danish"@ {
            Some(Language::Danish)
        } else if s == "dari"@ {
            Some(Language::Dari)
        } else if s == "dutch"@ {
            Some(Language::Dutch)
        } else if s == "english"@ {
            Some(Language::English)
        } else if s == "esperanto"@ {
            Some(Language::Esperanto)
        } else if s == "estonian"@ {
            Some(Language::Estonian)
        } else if s == "extremaduran"@ {
            Some(Language::Extremaduran)
        } else if s == "finnish"@ {
            Some(Language::Finnish)
        } else if s == "french"@ {
            Some(Language::French)
        } else if s == "gaelic"@ {
            Some(Language::Gaelic)
        } else if s == "galician"@ {
            Some(Language::Galician)
        } else if s == "georgian"@ {
            Some(Language::Georgian)
        } else if s == "german"@ {
            Some(Language::German)
        } else if s == "greek"@ {
            Some(Language::Greek)
        } else if s == "hebrew"@ {
            Some(Language::Hebrew)
        } else if s == "hindi"@ {
            Some(Language::Hindi)
        } else if s == "hungarian"@ {
            Some(Language::Hungarian)
        } else if s == "icelandic"@ {
            Some(Language::Icelandic)
        } else if s == "igbo"@ {
            Some(Language::Igbo)
        } else if s == "indonesian"@ {
            Some(Language::Indonesian)
        } else if s == "interlingua"@ {
            Some(Language::Interlingua)
        } else if s == "irish"@ {
            Some(Language::Irish)
        } else if s == "italian"@ {
            Some(Language::Italian)
        } else if s == "japanese"@ {
            Some(Language::Japanese)
        } else if s == "kannada"@ {
            Some(Language::Kannada)
        } else if s == "kazakh"@ {
            Some(Language::Kazakh)
        } else if s == "khmer"@ {
            Some(Language::Khmer)
        } else if s == "korean"@ {
            Some(Language::Korean)
        } else if s == "kurdish"@ {
            Some(Language::Kurdish)
        } else if s == "kyrgyz"@ {
            Some(Language::Kyrgyz)
        } else if s == "latvian"@ {
            Some(Language::Latvian)
        } else if s == "lithuanian"@ {
            Some(Language::Lithuanian)
        } else if s == "luxembourgish"@ {
            Some(Language::Luxembourgish)
        } else if s == "macedonian"@ {
            Some(Language::Macedonian)
        } else if s == "malay"@ {
            Some(Language::Malay)
        } else if s == "malayalam"@ {
            Some(Language::Malayalam)
        } else if s == "manipuri"@ {
            Some(Language::Manipuri)
        } else if s == "marathi"@ {
            Some(Language::Marathi)
        } else if s == "mongolian"@ {
            Some(Language::Mongolian)
        } else if s == "montenegrin"@ {
            Some(Language::Montenegrin)
        } else if s == "navajo"@ {
            Some(Language::Navajo)
        } else if s == "nepali"@ {
            Some(Language::Nepali)
        } else if s == "northern sami"@ {
            Some(Language::NorthernSami)
        } else if s == "norwegian"@ {
            Some(Language::Norwegian)
        } else if s == "occitan"@ {
            Some(Language::Occitan)
        } else if s == "odia"@ {
            Some(Language::Odia)
        } else if s == "persian"@ {
            Some(Language::Persian)
        } else if s == "polish"@ {
            Some(Language::Polish)
        } else if s == "portuguese"@ {
            Some(Language::Portuguese)
        } else if s == "portuguese br"@ {
            Some(Language::PortugueseBr)
        } else if s == "portuguese mz"@ {
            Some(Language::PortugueseMz)
        } else if s == "pushto"@ {
            Some(Language::Pushto)
        } else if s == "romanian"@ {
            Some(Language::Romanian)
        } else if s == "russian"@ {
            Some(Language::Russian)
        } else if s == "santali"@ {
            Some(Language::Santali)
        } else if s == "serbian"@ {
            Some(Language::Serbian)
        } else if s == "sindhi"@ {
            Some(Language::Sindhi)
        } else if s == "sinhalese"@ {
            Some(Language::Sinhalese)
        } else if s == "slovak"@ {
            Some(Language::Slovak)
        } else if s == "slovenian"@ {
            Some(Language::Slovenian)
        } else if s == "somali"@ {
            Some(Language::Somali)
        } else if s == "sorbian languages"@ {
            Some(Language::SorbianLanguages)
        } else if s == "south azerbaijani"@ {
            Some(Language::SouthAzerbaijani)
        } else if s == "spanish"@ {
            Some(Language::Spanish)
        } else if s == "spanish eu"@ {
            Some(Language::SpanishEU)
        } else if s == "spanish la"@ {
            Some(Language::SpanishLA)
        } else if s == "swahili"@ {
            Some(Language::Swahili)
        } else if s == "swedish"@ {
            Some(Language::Swedish)
        } else if s == "syriac"@ {
            Some(Language::Syriac)
        } else if s == "tagalog"@ {
            Some(Language::Tagalog)
        } else if s == "tamil"@ {
            Some(Language::Tamil)
        } else if s == "tatar"@ {
            Some(Language::Tatar)
        } else if s == "telugu"@ {
            Some(Language::Telugu)
        } else if s == "tetum"@ {
            Some(Language::Tetum)
        } else if s == "thai"@ {
            Some(Language::Thai)
        } else if s == "toki pona"@ {
            Some(Language::TokiPona)
        } else if s == "turkish"@ {
            Some(Language::Turkish)
        } else if s == "turkmen"@ {
            Some(Language::Turkmen)
        } else if s == "ukrainian"@ {
            Some(Language::Ukrainian)
        } else if s == "urdu"@ {
            Some(Language::Urdu)
        } else if s == "uzbek"@ {
            Some(Language::Uzbek)
        } else if s == "vietnamese"@ {
            Some(Language::Vietnamese)
        } else if s == "welsch"@ {
            Some(Language::Welsch)
        } else {
            None
        }
    }

    /// Look a language up by its human-readable name, ignoring ASCII case.
    pub fn from_name(s: &str) -> (r: Option<Language>)
        ensures
            r == Language::spec_from_name(spec_ascii_lower(s@)),
    {
        let low = ascii_lower(s);
        let t = low.as_str();
        if crate::text::str_eq(t, "abkhazian") {
            Some(Language::Abkhazian)
        } else if crate::text::str_eq(t, "afrikaans") {
            Some(Language::Afrikaans)
        } else if crate::text::str_eq(t, "albanian") {
            Some(Language::Albanian)
        } else if crate::text::str_eq(t, "amharic") {
            Some(Language::Amharic)
        } else if crate::text::str_eq(t, "arabic") {
            Some(Language::Arabic)
        } else if crate::text::str_eq(t, "aragonese") {
            Some(Language::Aragonese)
        } else if crate::text::str_eq(t, "armenian") {
            Some(Language::Armenian)
        } else if crate::text::str_eq(t, "assamese") {
            Some(Language::Assamese)
        } else if crate::text::str_eq(t, "asturian") {
            Some(Language::Asturian)
        } else if crate::text::str_eq(t, "azerbaijani") {
            Some(Language::Azerbaijani)
        } else if crate::text::str_eq(t, "basque") {
            Some(Language::Basque)
        } else if crate::text::str_eq(t, "belarusian") {
            Some(Language::Belarusian)
        } else if crate::text::str_eq(t, "bengali") {
            Some(Language::Bengali)
        } else if crate::text::str_eq(t, "bosnian") {
            Some(Language::Bosnian)
        } else if crate::text::str_eq(t, "breton") {
            Some(Language::Breton)
        } else if crate::text::str_eq(t, "bulgarian") {
            Some(Language::Bulgarian)
        } else if crate::text::str_eq(t, "burmese") {
            Some(Language::Burmese)
        } else if crate::text::str_eq(t, "catalan") {
            Some(Language::Catalan)
        } else if crate::text::str_eq(t, "chinese cantonese") {
            Some(Language::ChineseCantonese)
        } else if crate::text::str_eq(t, "chinese simplified") {
            Some(Language::ChineseSimplified)
        } else if crate::text::str_eq(t, "chinese traditional") {
            Some(Language::ChineseTraditional)
        } else if crate::text::str_eq(t, "chinese bilingual") {
            Some(Language::ChineseBilingual)
        } else if crate::text::str_eq(t, "croatian") {
            Some(Language::Croatian)
        } else if crate::text::str_eq(t, "czech") {
            Some(Language::Czech)
        } else if crate::text::str_eq(t, "danish") {
            Some(Language::Danish)
        } else if crate::text::str_eq(t, "dari") {
            Some(Language::Dari)
        } else if crate::text::str_eq(t, "dutch") {
            Some(Language::Dutch)
        } else if crate::text::str_eq(t, "english") {
            Some(Language::English)
        } else if crate::text::str_eq(t, "esperanto") {
            Some(Language::Esperanto)
        } else if crate::text::str_eq(t, "estonian") {
            Some(Language::Estonian)
        } else if crate::text::str_eq(t, "extremaduran") {
            Some(Language::Extremaduran)
        } else if crate::text::str_eq(t, "finnish") {
            Some(Language::Finnish)
        } else if crate::text::str_eq(t, "french") {
            Some(Language::French)
        } else if crate::text::str_eq(t, "gaelic") {
            Some(Language::Gaelic)
        } else if crate::text::str_eq(t, "galician") {
            Some(Language::Galician)
        } else if crate::text::str_eq(t, "georgian") {
            Some(Language::Georgian)
        } else if crate::text::str_eq(t, "german") {
            Some(Language::German)
        } else if crate::text::str_eq(t, "greek") {
            Some(Language::Greek)
        } else if crate::text::str_eq(t, "hebrew") {
            Some(Language::Hebrew)
        } else if crate::text::str_eq(t, "hindi") {
            Some(Language::Hindi)
        } else if crate::text::str_eq(t, "hungarian") {
            Some(Language::Hungarian)
        } else if crate::text::str_eq(t, "icelandic") {
            Some(Language::Icelandic)
        } else if crate::text::str_eq(t, "igbo") {
            Some(Language::Igbo)
        } else if crate::text::str_eq(t, "indonesian") {
            Some(Language::Indonesian)
        } else if crate::text::str_eq(t, "interlingua") {
            Some(Language::Interlingua)
        } else if crate::text::str_eq(t, "irish") {
            Some(Language::Irish)
        } else if crate::text::str_eq(t, "italian") {
            Some(Language::Italian)
        } else if crate::text::str_eq(t, "japanese") {
            Some(Language::Japanese)
        } else if crate::text::str_eq(t, "kannada") {
            Some(Language::Kannada)
        } else if crate::text::str_eq(t, "kazakh") {
            Some(Language::Kazakh)
        } else if crate::text::str_eq(t, "khmer") {
            Some(Language::Khmer)
        } else if crate::text::str_eq(t, "korean") {
            Some(Language::Korean)
        } else if crate::text::str_eq(t, "kurdish") {
            Some(Language::Kurdish)
        } else if crate::text::str_eq(t, "kyrgyz") {
            Some(Language::Kyrgyz)
        } else if crate::text::str_eq(t, "latvian") {
            Some(Language::Latvian)
        } else if crate::text::str_eq(t, "lithuanian") {
            Some(Language::Lithuanian)
        } else if crate::text::str_eq(t, "luxembourgish") {
            Some(Language::Luxembourgish)
        } else if crate::text::str_eq(t, "macedonian") {
            Some(Language::Macedonian)
        } else if crate::text::str_eq(t, "malay") {
            Some(Language::Malay)
        } else if crate::text::str_eq(t, "malayalam") {
            Some(Language::Malayalam)
        } else if crate::text::str_eq(t, "manipuri") {
            Some(Language::Manipuri)
        } else if crate::text::str_eq(t, "marathi") {
            Some(Language::Marathi)
        } else if crate::text::str_eq(t, "mongolian") {
            Some(Language::Mongolian)
        } else if crate::text::str_eq(t, "montenegrin") {
            Some(Language::Montenegrin)
        } else if crate::text::str_eq(t, "navajo") {
            Some(Language::Navajo)
        } else if crate::text::str_eq(t, "nepali") {
            Some(Language::Nepali)
        } else if crate::text::str_eq(t, "northern sami") {
            Some(Language::NorthernSami)
        } else if crate::text::str_eq(t, "norwegian") {
            Some(Language::Norwegian)
        } else if crate::text::str_eq(t, "occitan") {
            Some(Language::Occitan)
        } else if crate::text::str_eq(t, "odia") {
            Some(Language::Odia)
        } else if crate::text::str_eq(t, "persian") {
            Some(Language::Persian)
        } else if crate::text::str_eq(t, "polish") {
            Some(Language::Polish)
        } else if crate::text::str_eq(t, "portuguese") {
            Some(Language::Portuguese)
        } else if crate::text::str_eq(t, "portuguese br") {
            Some(Language::PortugueseBr)
        } else if crate::text::str_eq(t, "portuguese mz") {
            Some(Language::PortugueseMz)
        } else if crate::text::str_eq(t, "pushto") {
            Some(Language::Pushto)
        } else if crate::text::str_eq(t, "romanian") {
            Some(Language::Romanian)
        } else if crate::text::str_eq(t, "russian") {
            Some(Language::Russian)
        } else if crate::text::str_eq(t, "santali") {
            Some(Language::Santali)
        } else if crate::text::str_eq(t, "serbian") {
            Some(Language::Serbian)
        } else if crate::text::str_eq(t, "sindhi") {
            Some(Language::Sindhi)
        } else if crate::text::str_eq(t, "sinhalese") {
            Some(Language::Sinhalese)
        } else if crate::text::str_eq(t, "slovak") {
            Some(Language::Slovak)
        } else if crate::text::str_eq(t, "slovenian") {
            Some(Language::Slovenian)
        } else if crate::text::str_eq(t, "somali") {
            Some(Language::Somali)
        } else if crate::text::str_eq(t, "sorbian languages") {
            Some(Language::SorbianLanguages)
        } else if crate::text::str_eq(t, "south azerbaijani") {
            Some(Language::SouthAzerbaijani)
        } else if crate::text::str_eq(t, "spanish") {
            Some(Language::Spanish)
        } else if crate::text::str_eq(t, "spanish eu") {
            Some(Language::SpanishEU)
        } else if crate::text::str_eq(t, "spanish la") {
            Some(Language::SpanishLA)
        } else if crate::text::str_eq(t, "swahili") {
            Some(Language::Swahili)
        } else if crate::text::str_eq(t, "swedish") {
            Some(Language::Swedish)
        } else if crate::text::str_eq(t, "syriac") {
            Some(Language::Syriac)
        } else if crate::text::str_eq(t, "tagalog") {
            Some(Language::Tagalog)
        } else if crate::text::str_eq(t, "tamil") {
            Some(Language::Tamil)
        } else if crate::text::str_eq(t, "tatar") {
            Some(Language::Tatar)
        } else if crate::text::str_eq(t, "telugu") {
            Some(Language::Telugu)
        } else if crate::text::str_eq(t, "tetum") {
            Some(Language::Tetum)
        } else if crate::text::str_eq(t, "thai") {
            Some(Language::Thai)
        } else if crate::text::str_eq(t, "toki pona") {
            Some(Language::TokiPona)
        } else if crate::text::str_eq(t, "turkish") {
            Some(Language::Turkish)
        } else if crate::text::str_eq(t, "turkmen") {
            Some(Language::Turkmen)
        } else if crate::text::str_eq(t, "ukrainian") {
            Some(Language::Ukrainian)
        } else if crate::text::str_eq(t, "urdu") {
            Some(Language::Urdu)
        } else if crate::text::str_eq(t, "uzbek") {
            Some(Language::Uzbek)
        } else if crate::text::str_eq(t, "vietnamese") {
            Some(Language::Vietnamese)
        } else if crate::text::str_eq(t, "welsch") {
            Some(Language::Welsch)
        } else {
            None
        }
    }
}

/// `c` with an ASCII capital letter turned lower-case.
pub open spec fn lower_char(c: char) -> char {
    if 'A' <= c && c <= 'Z' {
        (((c as u32) + 32) as u8) as char
    } else {
        c
    }
}

/// `s` with every ASCII capital letter turned lower-case.
pub open spec fn spec_ascii_lower(s: Seq<char>) -> Seq<char> {
    Seq::new(s.len(), |i: int| lower_char(s[i]))
}

/// Lower-case the ASCII capital letters of `s`.
pub fn ascii_lower(s: &str) -> (r: String)
    ensures
        r@ == spec_ascii_lower(s@),
{
    let n = s.unicode_len();
    let mut out = String::new();
    let mut i: usize = 0;
    proof {
        assert(out@ =~= spec_ascii_lower(s@.take(0)));
    }
    while i < n
        invariant
            i <= n,
            n == s@.len(),
            out@ == spec_ascii_lower(s@.take(i as int)),
        decreases n - i,
    {
        let c = s.get_char(i);
        let lc: char = if 'A' <= c && c <= 'Z' {
            (((c as u32) + 32) as u8) as char
        } else {
            c
        };
        push_char(&mut out, lc);
        proof {
            assert(spec_ascii_lower(s@.take(i + 1)) =~= spec_ascii_lower(s@.take(i as int)).push(
                lower_char(s@[i as int]),
            ));
        }
        i += 1;
    }
    proof {
        assert(s@.take(n as int) =~= s@);
    }
    out
}

} // verus!
