//! The providers: which ones exist, what each needs to be told, and where
//! each is reached.

use vstd::prelude::*;
use vstd::string::StringExecFns;
use crate::text::same_text;

verus! {

/// Revision of the DeepL REST interface.
#[derive(Debug, Copy, Clone, PartialEq, Eq, Structural, PartialOrd, Ord)]
pub enum Version {
    V1,
    V2,
}

impl Version {
    /// The segment that names this revision in a URL.
    pub open spec fn text(self) -> Seq<char> {
        match self {
            Version::V1 => "v1"@,
            Version::V2 => "v2"@,
        }
    }

    /// The revision that a URL segment names: `v1` or `v2`, and no other.
    pub open spec fn named(segment: Seq<char>) -> Option<Version> {
        if segment == "v1"@ {
            Some(Version::V1)
        } else if segment == "v2"@ {
            Some(Version::V2)
        } else {
            None
        }
    }

    /// Reads a revision from its URL segment; anything but `v1` and `v2` is
    /// refused.
    pub fn from_str(s: &str) -> (r: Result<Version, ()>)
        ensures
            r.ok() == Self::named(s@),
    {
        if same_text(s, "v1") {
            Ok(Version::V1)
        } else if same_text(s, "v2") {
            Ok(Version::V2)
        } else {
            Err(())
        }
    }

    /// The URL segment of this revision.
    pub fn to_string(&self) -> (r: String)
        ensures
            r@ == self.text(),
    {
        match self {
            Version::V1 => String::from_str("v1"),
            Version::V2 => String::from_str("v2"),
        }
    }
}

impl Default for Version {
    fn default() -> (r: Self)
        ensures
            r == Version::V2,
    {
        Version::V2
    }
}

impl std::str::FromStr for Version {
    type Err = ();

    /// Reads a revision from its URL segment, as `str::parse` asks for it:
    /// `v1` and `v2` give their revision, and any other text is refused.
    fn from_str(s: &str) -> (r: Result<Self, Self::Err>)
        ensures
            r.ok() == Version::named(s@),
    {
        Version::from_str(s)
    }
}

/// Access data for the QCRI translation service.
#[derive(Debug, Clone, PartialEq, Eq)]
pub struct QcriTrans {
    /// Key issued by QCRI.
    pub api_key: String,
    /// Translation domain, one of those the service lists.
    pub domain: String,
}

impl QcriTrans {
    /// Address of the QCRI operation `endpoint`.
    pub open spec fn endpoint(operation: Seq<char>) -> Seq<char> {
        "https://mt.qcri.org/api/v1/"@ + operation + "?"@
    }

    /// Address of the QCRI operation `endpoint`.
    pub fn base_url(endpoint: &str) -> (r: String)
        ensures
            r@ == Self::endpoint(endpoint@),
    {
        String::from_str("https://mt.qcri.org/api/v1/").concat(endpoint).concat("?")
    }
}

impl Default for QcriTrans {
    fn default() -> (r: Self)
        ensures
            r.api_key@.len() == 0,
            r.domain@.len() == 0,
    {
        QcriTrans { api_key: String::new(), domain: String::new() }
    }
}

/// One translation provider together with what it needs to be called.
#[derive(Debug, Clone, PartialEq, Eq)]
pub enum Engine {
    Google,
    /// Keys are issued at <https://www.deepl.com/docs-api/accessing-the-api/>.
    Deepl { api_key: String, version: Version, use_free_api: bool },
    /// A LibreTranslate instance reached at `url`.
    Libre { api_key: String, url: String },
    Linguee {
        /// Return every match instead of the first.
        return_all: bool,
    },
    Microsoft { api_key: String, region: String },
    MyMemory {
        email: String,
        /// Return every stored match instead of the first.
        return_all: bool,
    },
    Papago { client_id: String, secret_key: String },
    Pons {
        /// Return every match instead of the first.
        return_all: bool,
    },
    Qcri(QcriTrans),
    Yandex { api_key: String },
}

impl Engine {
    /// The address at which this provider is reached. It depends on nothing
    /// but the variant and its fields.
    pub open spec fn endpoint(self) -> Seq<char> {
        match self {
            Engine::Google => "https://translate.google.com/m"@,
            Engine::Deepl { use_free_api, version, .. } => "https://api"@ + (if use_free_api {
                "-free"@
            } else {
                ""@
            }) + "/"@ + version.text() + "/translate"@,
            Engine::Libre { url, .. } => url@ + "/translate"@,
            Engine::Linguee { .. } => "https://www.linguee.com/"@,
            Engine::Microsoft { .. } =>
                "https://api.cognitive.microsofttranslator.com/translate?api-version=3.0"@,
            Engine::MyMemory { .. } => "http://api.mymemory.translated.net/get"@,
            Engine::Papago { .. } => "https://openapi.naver.com/v1/papago/n2mt"@,
            Engine::Pons { .. } => "https://en.pons.com/translate/"@,
            Engine::Qcri(_) => QcriTrans::endpoint("translate"@),
            Engine::Yandex { .. } => "https://translate.yandex.net/api/v1.5/tr.json/translate"@,
        }
    }

    /// The address at which this provider is reached.
    pub fn base_url(&self) -> (r: String)
        ensures
            r@ == self.endpoint(),
    {
        match self {
            Engine::Google => String::from_str("https://translate.google.com/m"),
            Engine::Deepl { use_free_api, version, .. } => {
                let free = if *use_free_api {
                    "-free"
                } else {
                    ""
                };
                let segment = version.to_string();
                String::from_str("https://api").concat(free).concat("/").concat(
                    segment.as_str(),
                ).concat("/translate")
            },
            Engine::Libre { url, .. } => url.clone().concat("/translate"),
            Engine::Linguee { .. } => String::from_str("https://www.linguee.com/"),
            Engine::Microsoft { .. } => String::from_str(
                "https://api.cognitive.microsofttranslator.com/translate?api-version=3.0",
            ),
            Engine::MyMemory { .. } => String::from_str("http://api.mymemory.translated.net/get"),
            Engine::Papago { .. } => String::from_str("https://openapi.naver.com/v1/papago/n2mt"),
            Engine::Pons { .. } => String::from_str("https://en.pons.com/translate/"),
            Engine::Qcri(_) => QcriTrans::base_url("translate"),
            Engine::Yandex { .. } => String::from_str(
                "https://translate.yandex.net/api/v1.5/tr.json/translate",
            ),
        }
    }
}

impl Default for Engine {
    fn default() -> (r: Self)
        ensures
            r == Engine::Google,
    {
        Engine::Google
    }
}

} // verus!
