//! The languages the inference engine knows, and their codes.

use vstd::prelude::*;
use crate::text::same_text;

verus! {

/// A spoken language, or `Auto` to let the engine detect it.
#[derive(Clone, Copy, Debug, PartialEq, Eq, Structural)]
pub enum Language {
    Auto,
    English,
    Chinese,
    German,
    Spanish,
    Russian,
    Korean,
    French,
    Japanese,
    Portuguese,
    Turkish,
    Polish,
    Catalan,
    Dutch,
    Arabic,
    Swedish,
    Italian,
    Indonesian,
    Hindi,
    Finnish,
    Vietnamese,
    Hebrew,
    Ukrainian,
    Greek,
    Malay,
    Czech,
    Romanian,
    Danish,
    Hungarian,
    Tamil,
    Norwegian,
    Thai,
    Urdu,
    Croatian,
    Bulgarian,
    Lithuanian,
    Latin,
    Maori,
    Malayalam,
    Welsh,
    Slovak,
    Telugu,
    Persian,
    Latvian,
    Bengali,
    Serbian,
    Azerbaijani,
    Slovenian,
    Kannada,
    Estonian,
    Macedonian,
    Breton,
    Basque,
    Icelandic,
    Armenian,
    Nepali,
    Mongolian,
    Bosnian,
    Kazakh,
    Albanian,
    Swahili,
    Galician,
    Marathi,
    Punjabi,
    Sinhala,
    Khmer,
    Shona,
    Yoruba,
    Somali,
    Afrikaans,
    Occitan,
    Georgian,
    Belarusian,
    Tajik,
    Sindhi,
    Gujarati,
    Amharic,
    Yiddish,
    Lao,
    Uzbek,
    Faroese,
    HaitianCreole,
    Pashto,
    Turkmen,
    Nynorsk,
    Maltese,
    Sanskrit,
    Luxembourgish,
    Myanmar,
    Tibetan,
    Tagalog,
    Malagasy,
    Assamese,
    Tatar,
    Hawaiian,
    Lingala,
    Hausa,
    Bashkir,
    Javanese,
    Sundanese,
}

/// The engine's code for a language.
pub open spec fn language_code(l: Language) -> Seq<char> {
    match l {
        Language::Auto => "auto"@,
        Language::English => "en"@,
        Language::Chinese => "zh"@,
        Language::German => "de"@,
        Language::Spanish => "es"@,
        Language::Russian => "ru"@,
        Language::Korean => "ko"@,
        Language::French => "fr"@,
        Language::Japanese => "ja"@,
        Language::Portuguese => "pt"@,
        Language::Turkish => "tr"@,
        Language::Polish => "pl"@,
        Language::Catalan => "ca"@,
        Language::Dutch => "nl"@,
        Language::Arabic => "ar"@,
        Language::Swedish => "sv"@,
        Language::Italian => "it"@,
        Language::Indonesian => "id"@,
        Language::Hindi => "hi"@,
        Language::Finnish => "fi"@,
        Language::Vietnamese => "vi"@,
        Language::Hebrew => "he"@,
        Language::Ukrainian => "uk"@,
        Language::Greek => "el"@,
        Language::Malay => "ms"@,
        Language::Czech => "cs"@,
        Language::Romanian => "ro"@,
        Language::Danish => "da"@,
        Language::Hungarian => "hu"@,
        Language::Tamil => "ta"@,
        Language::Norwegian => "no"@,
        Language::Thai => "th"@,
        Language::Urdu => "ur"@,
        Language::Croatian => "hr"@,
        Language::Bulgarian => "bg"@,
        Language::Lithuanian => "lt"@,
        Language::Latin => "la"@,
        Language::Maori => "mi"@,
        Language::Malayalam => "ml"@,
        Language::Welsh => "cy"@,
        Language::Slovak => "sk"@,
        Language::Telugu => "te"@,
        Language::Persian => "fa"@,
        Language::Latvian => "lv"@,
        Language::Bengali => "bn"@,
        Language::Serbian => "sr"@,
        Language::Azerbaijani => "az"@,
        Language::Slovenian => "sl"@,
        Language::Kannada => "kn"@,
        Language::Estonian => "et"@,
        Language::Macedonian => "mk"@,
        Language::Breton => "br"@,
        Language::Basque => "eu"@,
        Language::Icelandic => "is"@,
        Language::Armenian => "hy"@,
        Language::Nepali => "ne"@,
        Language::Mongolian => "mn"@,
        Language::Bosnian => "bs"@,
        Language::Kazakh => "kk"@,
        Language::Albanian => "sq"@,
        Language::Swahili => "sw"@,
        Language::Galician => "gl"@,
        Language::Marathi => "mr"@,
        Language::Punjabi => "pa"@,
        Language::Sinhala => "si"@,
        Language::Khmer => "km"@,
        Language::Shona => "sn"@,
        Language::Yoruba => "yo"@,
        Language::Somali => "so"@,
        Language::Afrikaans => "af"@,
        Language::Occitan => "oc"@,
        Language::Georgian => "ka"@,
        Language::Belarusian => "be"@,
        Language::Tajik => "tg"@,
        Language::Sindhi => "sd"@,
        Language::Gujarati => "gu"@,
        Language::Amharic => "am"@,
        Language::Yiddish => "yi"@,
        Language::Lao => "lo"@,
        Language::Uzbek => "uz"@,
        Language::Faroese => "fo"@,
        Language::HaitianCreole => "ht"@,
        Language::Pashto => "ps"@,
        Language::Turkmen => "tk"@,
        Language::Nynorsk => "nn"@,
        Language::Maltese => "mt"@,
        Language::Sanskrit => "sa"@,
        Language::Luxembourgish => "lb"@,
        Language::Myanmar => "my"@,
        Language::Tibetan => "bo"@,
        Language::Tagalog => "tl"@,
        Language::Malagasy => "mg"@,
        Language::Assamese => "as"@,
        Language::Tatar => "tt"@,
        Language::Hawaiian => "haw"@,
        Language::Lingala => "ln"@,
        Language::Hausa => "ha"@,
        Language::Bashkir => "ba"@,
        Language::Javanese => "jw"@,
        Language::Sundanese => "su"@,
    }
}

impl Language {
    /// The engine's code for this language (`"auto"` for detection).
    pub fn code(self) -> (r: &'static str)
        ensures
            r@ == language_code(self),
    {
        match self {
            Language::Auto => "auto",
            Language::English => "en",
            Language::Chinese => "zh",
            Language::German => "de",
            Language::Spanish => "es",
            Language::Russian => "ru",
            Language::Korean => "ko",
            Language::French => "fr",
            Language::Japanese => "ja",
            Language::Portuguese => "pt",
            Language::Turkish => "tr",
            Language::Polish => "pl",
            Language::Catalan => "ca",
            Language::Dutch => "nl",
            Language::Arabic => "ar",
            Language::Swedish => "sv",
            Language::Italian => "it",
            Language::Indonesian => "id",
            Language::Hindi => "hi",
            Language::Finnish => "fi",
            Language::Vietnamese => "vi",
            Language::Hebrew => "he",
            Language::Ukrainian => "uk",
            Language::Greek => "el",
            Language::Malay => "ms",
            Language::Czech => "cs",
            Language::Romanian => "ro",
            Language::Danish => "da",
            Language::Hungarian => "hu",
            Language::Tamil => "ta",
            Language::Norwegian => "no",
            Language::Thai => "th",
            Language::Urdu => "ur",
            Language::Croatian => "hr",
            Language::Bulgarian => "bg",
            Language::Lithuanian => "lt",
            Language::Latin => "la",
            Language::Maori => "mi",
            Language::Malayalam => "ml",
            Language::Welsh => "cy",
            Language::Slovak => "sk",
            Language::Telugu => "te",
            Language::Persian => "fa",
            Language::Latvian => "lv",
            Language::Bengali => "bn",
            Language::Serbian => "sr",
            Language::Azerbaijani => "az",
            Language::Slovenian => "sl",
            Language::Kannada => "kn",
            Language::Estonian => "et",
            Language::Macedonian => "mk",
            Language::Breton => "br",
            Language::Basque => "eu",
            Language::Icelandic => "is",
            Language::Armenian => "hy",
            Language::Nepali => "ne",
            Language::Mongolian => "mn",
            Language::Bosnian => "bs",
            Language::Kazakh => "kk",
            Language::Albanian => "sq",
            Language::Swahili => "sw",
            Language::Galician => "gl",
            Language::Marathi => "mr",
            Language::Punjabi => "pa",
            Language::Sinhala => "si",
            Language::Khmer => "km",
            Language::Shona => "sn",
            Language::Yoruba => "yo",
            Language::Somali => "so",
            Language::Afrikaans => "af",
            Language::Occitan => "oc",
            Language::Georgian => "ka",
            Language::Belarusian => "be",
            Language::Tajik => "tg",
            Language::Sindhi => "sd",
            Language::Gujarati => "gu",
            Language::Amharic => "am",
            Language::Yiddish => "yi",
            Language::Lao => "lo",
            Language::Uzbek => "uz",
            Language::Faroese => "fo",
            Language::HaitianCreole => "ht",
            Language::Pashto => "ps",
            Language::Turkmen => "tk",
            Language::Nynorsk => "nn",
            Language::Maltese => "mt",
            Language::Sanskrit => "sa",
            Language::Luxembourgish => "lb",
            Language::Myanmar => "my",
            Language::Tibetan => "bo",
            Language::Tagalog => "tl",
            Language::Malagasy => "mg",
            Language::Assamese => "as",
            Language::Tatar => "tt",
            Language::Hawaiian => "haw",
            Language::Lingala => "ln",
            Language::Hausa => "ha",
            Language::Bashkir => "ba",
            Language::Javanese => "jw",
            Language::Sundanese => "su",
        }
    }

    /// The language whose code is `code`, if there is one.
    pub fn from_code(code: &str) -> (r: Option<Language>)
        ensures
            r matches Some(l) ==> language_code(l) == code@,
            r is None ==> forall|l: Language| language_code(l) != code@,
    {
        if same_text(code, "auto") {
            return Some(Language::Auto);
        }
        if same_text(code, "en") {
            return Some(Language::English);
        }
        if same_text(code, "zh") {
            return Some(Language::Chinese);
        }
        if same_text(code, "de") {
            return Some(Language::German);
        }
        if same_text(code, "es") {
            return Some(Language::Spanish);
        }
        if same_text(code, "ru") {
            return Some(Language::Russian);
        }
        if same_text(code, "ko") {
            return Some(Language::Korean);
        }
        if same_text(code, "fr") {
            return Some(Language::French);
        }
        if same_text(code, "ja") {
            return Some(Language::Japanese);
        }
        if same_text(code, "pt") {
            return Some(Language::Portuguese);
        }
        if same_text(code, "tr") {
            return Some(Language::Turkish);
        }
        if same_text(code, "pl") {
            return Some(Language::Polish);
        }
        if same_text(code, "ca") {
            return Some(Language::Catalan);
        }
        if same_text(code, "nl") {
            return Some(Language::Dutch);
        }
        if same_text(code, "ar") {
            return Some(Language::Arabic);
        }
        if same_text(code, "sv") {
            return Some(Language::Swedish);
        }
        if same_text(code, "it") {
            return Some(Language::Italian);
        }
        if same_text(code, "id") {
            return Some(Language::Indonesian);
        }
        if same_text(code, "hi") {
            return Some(Language::Hindi);
        }
        if same_text(code, "fi") {
            return Some(Language::Finnish);
        }
        if same_text(code, "vi") {
            return Some(Language::Vietnamese);
        }
        if same_text(code, "he") {
            return Some(Language::Hebrew);
        }
        if same_text(code, "uk") {
            return Some(Language::Ukrainian);
        }
        if same_text(code, "el") {
            return Some(Language::Greek);
        }
        if same_text(code, "ms") {
            return Some(Language::Malay);
        }
        if same_text(code, "cs") {
            return Some(Language::Czech);
        }
        if same_text(code, "ro") {
            return Some(Language::Romanian);
        }
        if same_text(code, "da") {
            return Some(Language::Danish);
        }
        if same_text(code, "hu") {
            return Some(Language::Hungarian);
        }
        if same_text(code, "ta") {
            return Some(Language::Tamil);
        }
        if same_text(code, "no") {
            return Some(Language::Norwegian);
        }
        if same_text(code, "th") {
            return Some(Language::Thai);
        }
        if same_text(code, "ur") {
            return Some(Language::Urdu);
        }
        if same_text(code, "hr") {
            return Some(Language::Croatian);
        }
        if same_text(code, "bg") {
            return Some(Language::Bulgarian);
        }
        if same_text(code, "lt") {
            return Some(Language::Lithuanian);
        }
        if same_text(code, "la") {
            return Some(Language::Latin);
        }
        if same_text(code, "mi") {
            return Some(Language::Maori);
        }
        if same_text(code, "ml") {
            return Some(Language::Malayalam);
        }
        if same_text(code, "cy") {
            return Some(Language::Welsh);
        }
        if same_text(code, "sk") {
            return Some(Language::Slovak);
        }
        if same_text(code, "te") {
            return Some(Language::Telugu);
        }
        if same_text(code, "fa") {
            return Some(Language::Persian);
        }
        if same_text(code, "lv") {
            return Some(Language::Latvian);
        }
        if same_text(code, "bn") {
            return Some(Language::Bengali);
        }
        if same_text(code, "sr") {
            return Some(Language::Serbian);
        }
        if same_text(code, "az") {
            return Some(Language::Azerbaijani);
        }
        if same_text(code, "sl") {
            return Some(Language::Slovenian);
        }
        if same_text(code, "kn") {
            return Some(Language::Kannada);
        }
        if same_text(code, "et") {
            return Some(Language::Estonian);
        }
        if same_text(code, "mk") {
            return Some(Language::Macedonian);
        }
        if same_text(code, "br") {
            return Some(Language::Breton);
        }
        if same_text(code, "eu") {
            return Some(Language::Basque);
        }
        if same_text(code, "is") {
            return Some(Language::Icelandic);
        }
        if same_text(code, "hy") {
            return Some(Language::Armenian);
        }
        if same_text(code, "ne") {
            return Some(Language::Nepali);
        }
        if same_text(code, "mn") {
            return Some(Language::Mongolian);
        }
        if same_text(code, "bs") {
            return Some(Language::Bosnian);
        }
        if same_text(code, "kk") {
            return Some(Language::Kazakh);
        }
        if same_text(code, "sq") {
            return Some(Language::Albanian);
        }
        if same_text(code, "sw") {
            return Some(Language::Swahili);
        }
        if same_text(code, "gl") {
            return Some(Language::Galician);
        }
        if same_text(code, "mr") {
            return Some(Language::Marathi);
        }
        if same_text(code, "pa") {
            return Some(Language::Punjabi);
        }
        if same_text(code, "si") {
            return Some(Language::Sinhala);
        }
        if same_text(code, "km") {
            return Some(Language::Khmer);
        }
        if same_text(code, "sn") {
            return Some(Language::Shona);
        }
        if same_text(code, "yo") {
            return Some(Language::Yoruba);
        }
        if same_text(code, "so") {
            return Some(Language::Somali);
        }
        if same_text(code, "af") {
            return Some(Language::Afrikaans);
        }
        if same_text(code, "oc") {
            return Some(Language::Occitan);
        }
        if same_text(code, "ka") {
            return Some(Language::Georgian);
        }
        if same_text(code, "be") {
            return Some(Language::Belarusian);
        }
        if same_text(code, "tg") {
            return Some(Language::Tajik);
        }
        if same_text(code, "sd") {
            return Some(Language::Sindhi);
        }
        if same_text(code, "gu") {
            return Some(Language::Gujarati);
        }
        if same_text(code, "am") {
            return Some(Language::Amharic);
        }
        if same_text(code, "yi") {
            return Some(Language::Yiddish);
        }
        if same_text(code, "lo") {
            return Some(Language::Lao);
        }
        if same_text(code, "uz") {
            return Some(Language::Uzbek);
        }
        if same_text(code, "fo") {
            return Some(Language::Faroese);
        }
        if same_text(code, "ht") {
            return Some(Language::HaitianCreole);
        }
        if same_text(code, "ps") {
            return Some(Language::Pashto);
        }
        if same_text(code, "tk") {
            return Some(Language::Turkmen);
        }
        if same_text(code, "nn") {
            return Some(Language::Nynorsk);
        }
        if same_text(code, "mt") {
            return Some(Language::Maltese);
        }
        if same_text(code, "sa") {
            return Some(Language::Sanskrit);
        }
        if same_text(code, "lb") {
            return Some(Language::Luxembourgish);
        }
        if same_text(code, "my") {
            return Some(Language::Myanmar);
        }
        if same_text(code, "bo") {
            return Some(Language::Tibetan);
        }
        if same_text(code, "tl") {
            return Some(Language::Tagalog);
        }
        if same_text(code, "mg") {
            return Some(Language::Malagasy);
        }
        if same_text(code, "as") {
            return Some(Language::Assamese);
        }
        if same_text(code, "tt") {
            return Some(Language::Tatar);
        }
        if same_text(code, "haw") {
            return Some(Language::Hawaiian);
        }
        if same_text(code, "ln") {
            return Some(Language::Lingala);
        }
        if same_text(code, "ha") {
            return Some(Language::Hausa);
        }
        if same_text(code, "ba") {
            return Some(Language::Bashkir);
        }
        if same_text(code, "jw") {
            return Some(Language::Javanese);
        }
        if same_text(code, "su") {
            return Some(Language::Sundanese);
        }
        None
    }
}

} // verus!
