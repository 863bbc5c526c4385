//! The languages between which text is carried.

use vstd::prelude::*;
use vstd::string::StringExecFns;

verus! {

/// A language of the DeepL service, as the `deepl` crate lists them.
pub type DeeplLang = deepl::Lang;

/// `deepl::Lang`; which language a value names is known here only through
/// its code.
#[verifier::external_type_specification]
#[verifier::external_body]
pub struct ExDeeplLang(deepl::Lang);

/// The code by which DeepL knows `lang`: what `deepl::Lang::as_ref` gives.
pub uninterp spec fn deepl_code(lang: deepl::Lang) -> Seq<char>;

/// Calls `deepl::Lang::as_ref`, which gives the code of the language as
/// DeepL writes it, and copies the code.
#[verifier::external_body]
pub(crate) fn code_of(lang: &deepl::Lang) -> (r: String)
    ensures
        r@ == deepl_code(*lang),
{
    lang.as_ref().to_string()
}

/// A language that text is written in or translated into.
#[derive(Debug, Copy, Clone, PartialEq, Eq, Structural)]
pub enum LangKey {
    DE,
    EN,
}

impl LangKey {
    /// The code of this language.
    pub open spec fn code(self) -> Seq<char> {
        match self {
            LangKey::DE => "DE"@,
            LangKey::EN => "EN"@,
        }
    }

    /// The code of this language.
    pub fn to_string(&self) -> (r: String)
        ensures
            r@ == self.code(),
    {
        match self {
            LangKey::DE => String::from_str("DE"),
            LangKey::EN => String::from_str("EN"),
        }
    }
}

/// A language into which posts are carried, with the channel that takes
/// them and the words that the channel uses.
#[derive(Debug)]
pub struct Language {
    pub lang_key: LangKey,
    pub channel_id: i64,
    /// Closing lines under every post.
    pub footer: &'static str,
    pub breaking: &'static str,
    pub announce: &'static str,
    pub advertise: &'static str,
    pub username: &'static str,
    pub chat_id: Option<i64>,
    /// The language as DeepL knows it, if DeepL knows it.
    pub lang_key_deepl: Option<DeeplLang>,
}

} // verus!
