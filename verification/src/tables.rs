//! The language tables of the ten providers.
//!
//! Each table maps the name of a language to the code under which one
//! provider knows it. A code means something to its own provider only: the
//! tables are never merged, and two providers may use different codes for
//! one language.

use vstd::prelude::*;
use crate::engine::Engine;
use crate::languages::LanguagesToCodes;

verus! {

/// The languages of Google, MyMemory and Yandex.
pub open spec fn general_languages() -> Map<Seq<char>, Seq<char>> {
    Map::empty()
        .insert("Afrikaans"@, "af"@)
        .insert("Albanian"@, "sq"@)
        .insert("Amharic"@, "am"@)
        .insert("Arabic"@, "ar"@)
        .insert("Armenian"@, "hy"@)
        .insert("Azerbaijani"@, "az"@)
        .insert("Basque"@, "eu"@)
        .insert("Belarusian"@, "be"@)
        .insert("Bengali"@, "bn"@)
        .insert("Bosnian"@, "bs"@)
        .insert("Bulgarian"@, "bg"@)
        .insert("Catalan"@, "ca"@)
        .insert("Cebuano"@, "ceb"@)
        .insert("Chichewa"@, "ny"@)
        .insert("Chinese (simplified)"@, "zh-CN"@)
        .insert("Chinese (traditional)"@, "zh-TW"@)
        .insert("Corsican"@, "co"@)
        .insert("Croatian"@, "hr"@)
        .insert("Czech"@, "cs"@)
        .insert("Danish"@, "da"@)
        .insert("Dutch"@, "nl"@)
        .insert("English"@, "en"@)
        .insert("Esperanto"@, "eo"@)
        .insert("Estonian"@, "et"@)
        .insert("Filipino"@, "tl"@)
        .insert("Finnish"@, "fi"@)
        .insert("French"@, "fr"@)
        .insert("Frisian"@, "fy"@)
        .insert("Galician"@, "gl"@)
        .insert("Georgian"@, "ka"@)
        .insert("German"@, "de"@)
        .insert("Greek"@, "el"@)
        .insert("Gujarati"@, "gu"@)
        .insert("Haitian creole"@, "ht"@)
        .insert("Hausa"@, "ha"@)
        .insert("Hawaiian"@, "haw"@)
        .insert("Hebrew"@, "iw"@)
        .insert("Hindi"@, "hi"@)
        .insert("Hmong"@, "hmn"@)
        .insert("Hungarian"@, "hu"@)
        .insert("Icelandic"@, "is"@)
        .insert("Igbo"@, "ig"@)
        .insert("Indonesian"@, "id"@)
        .insert("Irish"@, "ga"@)
        .insert("Italian"@, "it"@)
        .insert("Japanese"@, "ja"@)
        .insert("Javanese"@, "jw"@)
        .insert("Kannada"@, "kn"@)
        .insert("Kazakh"@, "kk"@)
        .insert("Khmer"@, "km"@)
        .insert("Kinyarwanda"@, "rw"@)
        .insert("Korean"@, "ko"@)
        .insert("Kurdish"@, "ku"@)
        .insert("Kyrgyz"@, "ky"@)
        .insert("Lao"@, "lo"@)
        .insert("Latin"@, "la"@)
        .insert("Latvian"@, "lv"@)
        .insert("Lithuanian"@, "lt"@)
        .insert("Luxembourgish"@, "lb"@)
        .insert("Macedonian"@, "mk"@)
        .insert("Malagasy"@, "mg"@)
        .insert("Malay"@, "ms"@)
        .insert("Malayalam"@, "ml"@)
        .insert("Maltese"@, "mt"@)
        .insert("Maori"@, "mi"@)
        .insert("Marathi"@, "mr"@)
        .insert("Mongolian"@, "mn"@)
        .insert("Myanmar"@, "my"@)
        .insert("Nepali"@, "ne"@)
        .insert("Norwegian"@, "no"@)
        .insert("Odia"@, "or"@)
        .insert("Pashto"@, "ps"@)
        .insert("Persian"@, "fa"@)
        .insert("Polish"@, "pl"@)
        .insert("Portuguese"@, "pt"@)
        .insert("Punjabi"@, "pa"@)
        .insert("Romanian"@, "ro"@)
        .insert("Russian"@, "ru"@)
        .insert("Samoan"@, "sm"@)
        .insert("Scots gaelic"@, "gd"@)
        .insert("Serbian"@, "sr"@)
        .insert("Sesotho"@, "st"@)
        .insert("Shona"@, "sn"@)
        .insert("Sindhi"@, "sd"@)
        .insert("Sinhala"@, "si"@)
        .insert("Slovak"@, "sk"@)
        .insert("Slovenian"@, "sl"@)
        .insert("Somali"@, "so"@)
        .insert("Spanish"@, "es"@)
        .insert("Sundanese"@, "su"@)
        .insert("Swahili"@, "sw"@)
        .insert("Swedish"@, "sv"@)
        .insert("Tajik"@, "tg"@)
        .insert("Tamil"@, "ta"@)
        .insert("Tatar"@, "tt"@)
        .insert("Telugu"@, "te"@)
        .insert("Thai"@, "th"@)
        .insert("Turkish"@, "tr"@)
        .insert("Turkmen"@, "tk"@)
        .insert("Ukrainian"@, "uk"@)
        .insert("Urdu"@, "ur"@)
        .insert("Uyghur"@, "ug"@)
        .insert("Uzbek"@, "uz"@)
        .insert("Vietnamese"@, "vi"@)
        .insert("Welsh"@, "cy"@)
        .insert("Xhosa"@, "xh"@)
        .insert("Yiddish"@, "yi"@)
        .insert("Yoruba"@, "yo"@)
        .insert("Zulu"@, "zu"@)
}

/// The languages of LibreTranslate.
pub open spec fn libre_languages() -> Map<Seq<char>, Seq<char>> {
    Map::empty()
        .insert("English"@, "en"@)
        .insert("Arabic"@, "ar"@)
        .insert("Chinese"@, "zh"@)
        .insert("French"@, "fr"@)
        .insert("German"@, "de"@)
        .insert("Hindi"@, "hi"@)
        .insert("Indonesian"@, "id"@)
        .insert("Irish"@, "ga"@)
        .insert("Italian"@, "it"@)
        .insert("Japanese"@, "ja"@)
        .insert("Korean"@, "ko"@)
        .insert("Polish"@, "pl"@)
        .insert("Portuguese"@, "pt"@)
        .insert("Russian"@, "ru"@)
        .insert("Spanish"@, "es"@)
        .insert("Turkish"@, "tr"@)
        .insert("Vietnamese"@, "vi"@)
}

/// The languages of Linguee.
pub open spec fn linguee_languages() -> Map<Seq<char>, Seq<char>> {
    Map::empty()
        .insert("maltese"@, "mt"@)
        .insert("english"@, "en"@)
        .insert("german"@, "de"@)
        .insert("bulgarian"@, "bg"@)
        .insert("polish"@, "pl"@)
        .insert("portuguese"@, "pt"@)
        .insert("hungarian"@, "hu"@)
        .insert("romanian"@, "ro"@)
        .insert("russian"@, "ru"@)
        .insert("dutch"@, "nl"@)
        .insert("slovakian"@, "sk"@)
        .insert("greek"@, "el"@)
        .insert("slovenian"@, "sl"@)
        .insert("danish"@, "da"@)
        .insert("italian"@, "it"@)
        .insert("spanish"@, "es"@)
        .insert("finnish"@, "fi"@)
        .insert("chinese"@, "zh"@)
        .insert("french"@, "fr"@)
        .insert("czech"@, "cs"@)
        .insert("laotian"@, "lo"@)
        .insert("swedish"@, "sv"@)
        .insert("latvian"@, "lv"@)
        .insert("estonian"@, "et"@)
        .insert("japanese"@, "ja"@)
}

/// The languages of Microsoft.
pub open spec fn microsoft_languages() -> Map<Seq<char>, Seq<char>> {
    Map::empty()
        .insert("Afrikaans"@, "af"@)
        .insert("Amharic"@, "am"@)
        .insert("Arabic"@, "ar"@)
        .insert("Assamese"@, "as"@)
        .insert("Azerbaijani"@, "az"@)
        .insert("Bashkir"@, "ba"@)
        .insert("Bulgarian"@, "bg"@)
        .insert("Bangla"@, "bn"@)
        .insert("Tibetan"@, "bo"@)
        .insert("Bosnian"@, "bs"@)
        .insert("Catalan"@, "ca"@)
        .insert("Czech"@, "cs"@)
        .insert("Welsh"@, "cy"@)
        .insert("Danish"@, "da"@)
        .insert("German"@, "de"@)
        .insert("Divehi"@, "dv"@)
        .insert("Greek"@, "el"@)
        .insert("English"@, "en"@)
        .insert("Spanish"@, "es"@)
        .insert("Estonian"@, "et"@)
        .insert("Basque"@, "eu"@)
        .insert("Persian"@, "fa"@)
        .insert("Finnish"@, "fi"@)
        .insert("Filipino"@, "fil"@)
        .insert("Fijian"@, "fj"@)
        .insert("Faroese"@, "fo"@)
        .insert("French"@, "fr"@)
        .insert("French (Canada)"@, "fr-CA"@)
        .insert("Irish"@, "ga"@)
        .insert("Galician"@, "gl"@)
        .insert("Gujarati"@, "gu"@)
        .insert("Hebrew"@, "he"@)
        .insert("Hindi"@, "hi"@)
        .insert("Croatian"@, "hr"@)
        .insert("Upper Sorbian"@, "hsb"@)
        .insert("Haitian Creole"@, "ht"@)
        .insert("Hungarian"@, "hu"@)
        .insert("Armenian"@, "hy"@)
        .insert("Indonesian"@, "id"@)
        .insert("Inuinnaqtun"@, "ikt"@)
        .insert("Icelandic"@, "is"@)
        .insert("Italian"@, "it"@)
        .insert("Inuktitut"@, "iu"@)
        .insert("Inuktitut (Latin)"@, "iu-Latn"@)
        .insert("Japanese"@, "ja"@)
        .insert("Georgian"@, "ka"@)
        .insert("Kazakh"@, "kk"@)
        .insert("Khmer"@, "km"@)
        .insert("Kurdish (Northern)"@, "kmr"@)
        .insert("Kannada"@, "kn"@)
        .insert("Korean"@, "ko"@)
        .insert("Kurdish (Central)"@, "ku"@)
        .insert("Kyrgyz"@, "ky"@)
        .insert("Lao"@, "lo"@)
        .insert("Lithuanian"@, "lt"@)
        .insert("Latvian"@, "lv"@)
        .insert("Chinese (Literary)"@, "lzh"@)
        .insert("Malagasy"@, "mg"@)
        .insert("Māori"@, "mi"@)
        .insert("Macedonian"@, "mk"@)
        .insert("Malayalam"@, "ml"@)
        .insert("Mongolian (Cyrillic)"@, "mn-Cyrl"@)
        .insert("Mongolian (Traditional)"@, "mn-Mong"@)
        .insert("Marathi"@, "mr"@)
        .insert("Malay"@, "ms"@)
        .insert("Maltese"@, "mt"@)
        .insert("Hmong Daw"@, "mww"@)
        .insert("Myanmar (Burmese)"@, "my"@)
        .insert("Norwegian"@, "nb"@)
        .insert("Nepali"@, "ne"@)
        .insert("Dutch"@, "nl"@)
        .insert("Odia"@, "or"@)
        .insert("Querétaro Otomi"@, "otq"@)
        .insert("Punjabi"@, "pa"@)
        .insert("Polish"@, "pl"@)
        .insert("Dari"@, "prs"@)
        .insert("Pashto"@, "ps"@)
        .insert("Portuguese (Brazil)"@, "pt"@)
        .insert("Portuguese (Portugal)"@, "pt-PT"@)
        .insert("Romanian"@, "ro"@)
        .insert("Russian"@, "ru"@)
        .insert("Slovak"@, "sk"@)
        .insert("Slovenian"@, "sl"@)
        .insert("Samoan"@, "sm"@)
        .insert("Somali"@, "so"@)
        .insert("Albanian"@, "sq"@)
        .insert("Serbian (Cyrillic)"@, "sr-Cyrl"@)
        .insert("Serbian (Latin)"@, "sr-Latn"@)
        .insert("Swedish"@, "sv"@)
        .insert("Swahili"@, "sw"@)
        .insert("Tamil"@, "ta"@)
        .insert("Telugu"@, "te"@)
        .insert("Thai"@, "th"@)
        .insert("Tigrinya"@, "ti"@)
        .insert("Turkmen"@, "tk"@)
        .insert("Klingon (Latin)"@, "tlh-Latn"@)
        .insert("Klingon (pIqaD)"@, "tlh-Piqd"@)
        .insert("Tongan"@, "to"@)
        .insert("Turkish"@, "tr"@)
        .insert("Tatar"@, "tt"@)
        .insert("Tahitian"@, "ty"@)
        .insert("Uyghur"@, "ug"@)
        .insert("Ukrainian"@, "uk"@)
        .insert("Urdu"@, "ur"@)
        .insert("Uzbek (Latin)"@, "uz"@)
        .insert("Vietnamese"@, "vi"@)
        .insert("Yucatec Maya"@, "yua"@)
        .insert("Cantonese (Traditional)"@, "yue"@)
        .insert("Chinese Simplified"@, "zh-Hans"@)
        .insert("Chinese Traditional"@, "zh-Hant"@)
        .insert("Zulu"@, "zu"@)
}

/// The languages of DeepL.
pub open spec fn deepl_languages() -> Map<Seq<char>, Seq<char>> {
    Map::empty()
        .insert("bulgarian"@, "bg"@)
        .insert("czech"@, "cs"@)
        .insert("danish"@, "da"@)
        .insert("german"@, "de"@)
        .insert("greek"@, "el"@)
        .insert("english"@, "en"@)
        .insert("spanish"@, "es"@)
        .insert("estonian"@, "et"@)
        .insert("finnish"@, "fi"@)
        .insert("french"@, "fr"@)
        .insert("hungarian"@, "hu"@)
        .insert("italian"@, "it"@)
        .insert("japanese"@, "ja"@)
        .insert("lithuanian"@, "lt"@)
        .insert("latvian"@, "lv"@)
        .insert("dutch"@, "nl"@)
        .insert("polish"@, "pl"@)
        .insert("portuguese"@, "pt"@)
        .insert("romanian"@, "ro"@)
        .insert("russian"@, "ru"@)
        .insert("slovak"@, "sk"@)
        .insert("slovenian"@, "sl"@)
        .insert("swedish"@, "sv"@)
        .insert("chinese"@, "zh"@)
}

/// The languages of Papago.
pub open spec fn papago_languages() -> Map<Seq<char>, Seq<char>> {
    Map::empty()
        .insert("Korean"@, "ko"@)
        .insert("English"@, "en"@)
        .insert("Japanese"@, "ja"@)
        .insert("Chinese"@, "zh-CN"@)
        .insert("Chinese traditional"@, "zh-TW"@)
        .insert("Spanish"@, "es"@)
        .insert("French"@, "fr"@)
        .insert("Vietnamese"@, "vi"@)
        .insert("Thai"@, "th"@)
        .insert("Indonesia"@, "id"@)
}

/// The languages of Pons.
pub open spec fn pons_languages() -> Map<Seq<char>, Seq<char>> {
    Map::empty()
        .insert("arabic"@, "ar"@)
        .insert("bulgarian"@, "bg"@)
        .insert("chinese"@, "zh-cn"@)
        .insert("czech"@, "cs"@)
        .insert("danish"@, "da"@)
        .insert("dutch"@, "nl"@)
        .insert("english"@, "en"@)
        .insert("french"@, "fr"@)
        .insert("german"@, "de"@)
        .insert("greek"@, "el"@)
        .insert("hungarian"@, "hu"@)
        .insert("italian"@, "it"@)
        .insert("latin"@, "la"@)
        .insert("norwegian"@, "no"@)
        .insert("polish"@, "pl"@)
        .insert("portuguese"@, "pt"@)
        .insert("russian"@, "ru"@)
        .insert("slovenian"@, "sl"@)
        .insert("spanish"@, "es"@)
        .insert("swedish"@, "sv"@)
        .insert("turkish"@, "tr"@)
        .insert("elvish"@, "elv"@)
}

/// The languages of QCRI.
pub open spec fn qcri_languages() -> Map<Seq<char>, Seq<char>> {
    Map::empty()
        .insert("Arabic"@, "ar"@)
        .insert("English"@, "en"@)
        .insert("Spanish"@, "es"@)
}

fn general_table() -> (r: LanguagesToCodes)
    ensures
        r@ == general_languages(),
{
    let t = LanguagesToCodes::new();
    let t = t.with("Afrikaans", "af");
    let t = t.with("Albanian", "sq");
    let t = t.with("Amharic", "am");
    let t = t.with("Arabic", "ar");
    let t = t.with("Armenian", "hy");
    let t = t.with("Azerbaijani", "az");
    let t = t.with("Basque", "eu");
    let t = t.with("Belarusian", "be");
    let t = t.with("Bengali", "bn");
    let t = t.with("Bosnian", "bs");
    let t = t.with("Bulgarian", "bg");
    let t = t.with("Catalan", "ca");
    let t = t.with("Cebuano", "ceb");
    let t = t.with("Chichewa", "ny");
    let t = t.with("Chinese (simplified)", "zh-CN");
    let t = t.with("Chinese (traditional)", "zh-TW");
    let t = t.with("Corsican", "co");
    let t = t.with("Croatian", "hr");
    let t = t.with("Czech", "cs");
    let t = t.with("Danish", "da");
    let t = t.with("Dutch", "nl");
    let t = t.with("English", "en");
    let t = t.with("Esperanto", "eo");
    let t = t.with("Estonian", "et");
    let t = t.with("Filipino", "tl");
    let t = t.with("Finnish", "fi");
    let t = t.with("French", "fr");
    let t = t.with("Frisian", "fy");
    let t = t.with("Galician", "gl");
    let t = t.with("Georgian", "ka");
    let t = t.with("German", "de");
    let t = t.with("Greek", "el");
    let t = t.with("Gujarati", "gu");
    let t = t.with("Haitian creole", "ht");
    let t = t.with("Hausa", "ha");
    let t = t.with("Hawaiian", "haw");
    let t = t.with("Hebrew", "iw");
    let t = t.with("Hindi", "hi");
    let t = t.with("Hmong", "hmn");
    let t = t.with("Hungarian", "hu");
    let t = t.with("Icelandic", "is");
    let t = t.with("Igbo", "ig");
    let t = t.with("Indonesian", "id");
    let t = t.with("Irish", "ga");
    let t = t.with("Italian", "it");
    let t = t.with("Japanese", "ja");
    let t = t.with("Javanese", "jw");
    let t = t.with("Kannada", "kn");
    let t = t.with("Kazakh", "kk");
    let t = t.with("Khmer", "km");
    let t = t.with("Kinyarwanda", "rw");
    let t = t.with("Korean", "ko");
    let t = t.with("Kurdish", "ku");
    let t = t.with("Kyrgyz", "ky");
    let t = t.with("Lao", "lo");
    let t = t.with("Latin", "la");
    let t = t.with("Latvian", "lv");
    let t = t.with("Lithuanian", "lt");
    let t = t.with("Luxembourgish", "lb");
    let t = t.with("Macedonian", "mk");
    let t = t.with("Malagasy", "mg");
    let t = t.with("Malay", "ms");
    let t = t.with("Malayalam", "ml");
    let t = t.with("Maltese", "mt");
    let t = t.with("Maori", "mi");
    let t = t.with("Marathi", "mr");
    let t = t.with("Mongolian", "mn");
    let t = t.with("Myanmar", "my");
    let t = t.with("Nepali", "ne");
    let t = t.with("Norwegian", "no");
    let t = t.with("Odia", "or");
    let t = t.with("Pashto", "ps");
    let t = t.with("Persian", "fa");
    let t = t.with("Polish", "pl");
    let t = t.with("Portuguese", "pt");
    let t = t.with("Punjabi", "pa");
    let t = t.with("Romanian", "ro");
    let t = t.with("Russian", "ru");
    let t = t.with("Samoan", "sm");
    let t = t.with("Scots gaelic", "gd");
    let t = t.with("Serbian", "sr");
    let t = t.with("Sesotho", "st");
    let t = t.with("Shona", "sn");
    let t = t.with("Sindhi", "sd");
    let t = t.with("Sinhala", "si");
    let t = t.with("Slovak", "sk");
    let t = t.with("Slovenian", "sl");
    let t = t.with("Somali", "so");
    let t = t.with("Spanish", "es");
    let t = t.with("Sundanese", "su");
    let t = t.with("Swahili", "sw");
    let t = t.with("Swedish", "sv");
    let t = t.with("Tajik", "tg");
    let t = t.with("Tamil", "ta");
    let t = t.with("Tatar", "tt");
    let t = t.with("Telugu", "te");
    let t = t.with("Thai", "th");
    let t = t.with("Turkish", "tr");
    let t = t.with("Turkmen", "tk");
    let t = t.with("Ukrainian", "uk");
    let t = t.with("Urdu", "ur");
    let t = t.with("Uyghur", "ug");
    let t = t.with("Uzbek", "uz");
    let t = t.with("Vietnamese", "vi");
    let t = t.with("Welsh", "cy");
    let t = t.with("Xhosa", "xh");
    let t = t.with("Yiddish", "yi");
    let t = t.with("Yoruba", "yo");
    t.with("Zulu", "zu")
}

fn libre_table() -> (r: LanguagesToCodes)
    ensures
        r@ == libre_languages(),
{
    let t = LanguagesToCodes::new();
    let t = t.with("English", "en");
    let t = t.with("Arabic", "ar");
    let t = t.with("Chinese", "zh");
    let t = t.with("French", "fr");
    let t = t.with("German", "de");
    let t = t.with("Hindi", "hi");
    let t = t.with("Indonesian", "id");
    let t = t.with("Irish", "ga");
    let t = t.with("Italian", "it");
    let t = t.with("Japanese", "ja");
    let t = t.with("Korean", "ko");
    let t = t.with("Polish", "pl");
    let t = t.with("Portuguese", "pt");
    let t = t.with("Russian", "ru");
    let t = t.with("Spanish", "es");
    let t = t.with("Turkish", "tr");
    t.with("Vietnamese", "vi")
}

fn linguee_table() -> (r: LanguagesToCodes)
    ensures
        r@ == linguee_languages(),
{
    let t = LanguagesToCodes::new();
    let t = t.with("maltese", "mt");
    let t = t.with("english", "en");
    let t = t.with("german", "de");
    let t = t.with("bulgarian", "bg");
    let t = t.with("polish", "pl");
    let t = t.with("portuguese", "pt");
    let t = t.with("hungarian", "hu");
    let t = t.with("romanian", "ro");
    let t = t.with("russian", "ru");
    let t = t.with("dutch", "nl");
    let t = t.with("slovakian", "sk");
    let t = t.with("greek", "el");
    let t = t.with("slovenian", "sl");
    let t = t.with("danish", "da");
    let t = t.with("italian", "it");
    let t = t.with("spanish", "es");
    let t = t.with("finnish", "fi");
    let t = t.with("chinese", "zh");
    let t = t.with("french", "fr");
    let t = t.with("czech", "cs");
    let t = t.with("laotian", "lo");
    let t = t.with("swedish", "sv");
    let t = t.with("latvian", "lv");
    let t = t.with("estonian", "et");
    t.with("japanese", "ja")
}

fn microsoft_table() -> (r: LanguagesToCodes)
    ensures
        r@ == microsoft_languages(),
{
    let t = LanguagesToCodes::new();
    let t = t.with("Afrikaans", "af");
    let t = t.with("Amharic", "am");
    let t = t.with("Arabic", "ar");
    let t = t.with("Assamese", "as");
    let t = t.with("Azerbaijani", "az");
    let t = t.with("Bashkir", "ba");
    let t = t.with("Bulgarian", "bg");
    let t = t.with("Bangla", "bn");
    let t = t.with("Tibetan", "bo");
    let t = t.with("Bosnian", "bs");
    let t = t.with("Catalan", "ca");
    let t = t.with("Czech", "cs");
    let t = t.with("Welsh", "cy");
    let t = t.with("Danish", "da");
    let t = t.with("German", "de");
    let t = t.with("Divehi", "dv");
    let t = t.with("Greek", "el");
    let t = t.with("English", "en");
    let t = t.with("Spanish", "es");
    let t = t.with("Estonian", "et");
    let t = t.with("Basque", "eu");
    let t = t.with("Persian", "fa");
    let t = t.with("Finnish", "fi");
    let t = t.with("Filipino", "fil");
    let t = t.with("Fijian", "fj");
    let t = t.with("Faroese", "fo");
    let t = t.with("French", "fr");
    let t = t.with("French (Canada)", "fr-CA");
    let t = t.with("Irish", "ga");
    let t = t.with("Galician", "gl");
    let t = t.with("Gujarati", "gu");
    let t = t.with("Hebrew", "he");
    let t = t.with("Hindi", "hi");
    let t = t.with("Croatian", "hr");
    let t = t.with("Upper Sorbian", "hsb");
    let t = t.with("Haitian Creole", "ht");
    let t = t.with("Hungarian", "hu");
    let t = t.with("Armenian", "hy");
    let t = t.with("Indonesian", "id");
    let t = t.with("Inuinnaqtun", "ikt");
    let t = t.with("Icelandic", "is");
    let t = t.with("Italian", "it");
    let t = t.with("Inuktitut", "iu");
    let t = t.with("Inuktitut (Latin)", "iu-Latn");
    let t = t.with("Japanese", "ja");
    let t = t.with("Georgian", "ka");
    let t = t.with("Kazakh", "kk");
    let t = t.with("Khmer", "km");
    let t = t.with("Kurdish (Northern)", "kmr");
    let t = t.with("Kannada", "kn");
    let t = t.with("Korean", "ko");
    let t = t.with("Kurdish (Central)", "ku");
    let t = t.with("Kyrgyz", "ky");
    let t = t.with("Lao", "lo");
    let t = t.with("Lithuanian", "lt");
    let t = t.with("Latvian", "lv");
    let t = t.with("Chinese (Literary)", "lzh");
    let t = t.with("Malagasy", "mg");
    let t = t.with("Māori", "mi");
    let t = t.with("Macedonian", "mk");
    let t = t.with("Malayalam", "ml");
    let t = t.with("Mongolian (Cyrillic)", "mn-Cyrl");
    let t = t.with("Mongolian (Traditional)", "mn-Mong");
    let t = t.with("Marathi", "mr");
    let t = t.with("Malay", "ms");
    let t = t.with("Maltese", "mt");
    let t = t.with("Hmong Daw", "mww");
    let t = t.with("Myanmar (Burmese)", "my");
    let t = t.with("Norwegian", "nb");
    let t = t.with("Nepali", "ne");
    let t = t.with("Dutch", "nl");
    let t = t.with("Odia", "or");
    let t = t.with("Querétaro Otomi", "otq");
    let t = t.with("Punjabi", "pa");
    let t = t.with("Polish", "pl");
    let t = t.with("Dari", "prs");
    let t = t.with("Pashto", "ps");
    let t = t.with("Portuguese (Brazil)", "pt");
    let t = t.with("Portuguese (Portugal)", "pt-PT");
    let t = t.with("Romanian", "ro");
    let t = t.with("Russian", "ru");
    let t = t.with("Slovak", "sk");
    let t = t.with("Slovenian", "sl");
    let t = t.with("Samoan", "sm");
    let t = t.with("Somali", "so");
    let t = t.with("Albanian", "sq");
    let t = t.with("Serbian (Cyrillic)", "sr-Cyrl");
    let t = t.with("Serbian (Latin)", "sr-Latn");
    let t = t.with("Swedish", "sv");
    let t = t.with("Swahili", "sw");
    let t = t.with("Tamil", "ta");
    let t = t.with("Telugu", "te");
    let t = t.with("Thai", "th");
    let t = t.with("Tigrinya", "ti");
    let t = t.with("Turkmen", "tk");
    let t = t.with("Klingon (Latin)", "tlh-Latn");
    let t = t.with("Klingon (pIqaD)", "tlh-Piqd");
    let t = t.with("Tongan", "to");
    let t = t.with("Turkish", "tr");
    let t = t.with("Tatar", "tt");
    let t = t.with("Tahitian", "ty");
    let t = t.with("Uyghur", "ug");
    let t = t.with("Ukrainian", "uk");
    let t = t.with("Urdu", "ur");
    let t = t.with("Uzbek (Latin)", "uz");
    let t = t.with("Vietnamese", "vi");
    let t = t.with("Yucatec Maya", "yua");
    let t = t.with("Cantonese (Traditional)", "yue");
    let t = t.with("Chinese Simplified", "zh-Hans");
    let t = t.with("Chinese Traditional", "zh-Hant");
    t.with("Zulu", "zu")
}

fn deepl_table() -> (r: LanguagesToCodes)
    ensures
        r@ == deepl_languages(),
{
    let t = LanguagesToCodes::new();
    let t = t.with("bulgarian", "bg");
    let t = t.with("czech", "cs");
    let t = t.with("danish", "da");
    let t = t.with("german", "de");
    let t = t.with("greek", "el");
    let t = t.with("english", "en");
    let t = t.with("spanish", "es");
    let t = t.with("estonian", "et");
    let t = t.with("finnish", "fi");
    let t = t.with("french", "fr");
    let t = t.with("hungarian", "hu");
    let t = t.with("italian", "it");
    let t = t.with("japanese", "ja");
    let t = t.with("lithuanian", "lt");
    let t = t.with("latvian", "lv");
    let t = t.with("dutch", "nl");
    let t = t.with("polish", "pl");
    let t = t.with("portuguese", "pt");
    let t = t.with("romanian", "ro");
    let t = t.with("russian", "ru");
    let t = t.with("slovak", "sk");
    let t = t.with("slovenian", "sl");
    let t = t.with("swedish", "sv");
    t.with("chinese", "zh")
}

fn papago_table() -> (r: LanguagesToCodes)
    ensures
        r@ == papago_languages(),
{
    let t = LanguagesToCodes::new();
    let t = t.with("Korean", "ko");
    let t = t.with("English", "en");
    let t = t.with("Japanese", "ja");
    let t = t.with("Chinese", "zh-CN");
    let t = t.with("Chinese traditional", "zh-TW");
    let t = t.with("Spanish", "es");
    let t = t.with("French", "fr");
    let t = t.with("Vietnamese", "vi");
    let t = t.with("Thai", "th");
    t.with("Indonesia", "id")
}

fn pons_table() -> (r: LanguagesToCodes)
    ensures
        r@ == pons_languages(),
{
    let t = LanguagesToCodes::new();
    let t = t.with("arabic", "ar");
    let t = t.with("bulgarian", "bg");
    let t = t.with("chinese", "zh-cn");
    let t = t.with("czech", "cs");
    let t = t.with("danish", "da");
    let t = t.with("dutch", "nl");
    let t = t.with("english", "en");
    let t = t.with("french", "fr");
    let t = t.with("german", "de");
    let t = t.with("greek", "el");
    let t = t.with("hungarian", "hu");
    let t = t.with("italian", "it");
    let t = t.with("latin", "la");
    let t = t.with("norwegian", "no");
    let t = t.with("polish", "pl");
    let t = t.with("portuguese", "pt");
    let t = t.with("russian", "ru");
    let t = t.with("slovenian", "sl");
    let t = t.with("spanish", "es");
    let t = t.with("swedish", "sv");
    let t = t.with("turkish", "tr");
    t.with("elvish", "elv")
}

fn qcri_table() -> (r: LanguagesToCodes)
    ensures
        r@ == qcri_languages(),
{
    let t = LanguagesToCodes::new();
    let t = t.with("Arabic", "ar");
    let t = t.with("English", "en");
    t.with("Spanish", "es")
}

impl Engine {
    /// The languages that this provider accepts, each with the provider's
    /// own code for it.
    pub open spec fn languages(self) -> Map<Seq<char>, Seq<char>> {
        match self {
            Engine::Google | Engine::MyMemory { .. } | Engine::Yandex { .. } => general_languages(),
            Engine::Libre { .. } => libre_languages(),
            Engine::Linguee { .. } => linguee_languages(),
            Engine::Microsoft { .. } => microsoft_languages(),
            Engine::Deepl { .. } => deepl_languages(),
            Engine::Papago { .. } => papago_languages(),
            Engine::Pons { .. } => pons_languages(),
            Engine::Qcri(_) => qcri_languages(),
        }
    }

    /// The language table of this provider.
    pub fn supported_languages(&self) -> (r: LanguagesToCodes)
        ensures
            r@ == self.languages(),
    {
        match self {
            Engine::Google | Engine::MyMemory { .. } | Engine::Yandex { .. } => general_table(),
            Engine::Libre { .. } => libre_table(),
            Engine::Linguee { .. } => linguee_table(),
            Engine::Microsoft { .. } => microsoft_table(),
            Engine::Deepl { .. } => deepl_table(),
            Engine::Papago { .. } => papago_table(),
            Engine::Pons { .. } => pons_table(),
            Engine::Qcri(_) => qcri_table(),
        }
    }
}

} // verus!
