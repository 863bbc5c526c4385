use std::str::FromStr;

use mn_rs::engine::Engine;
use mn_rs::engine::QcriTrans;
use mn_rs::engine::Version;
use mn_rs::error::StatusCode;
use mn_rs::error::TranslationError;
use mn_rs::lang::LangKey;
use mn_rs::languages::LanguagesToCodes;

fn all_engines() -> Vec<Engine> {
    vec![
        Engine::Google,
        Engine::Deepl { api_key: "k".to_string(), version: Version::V1, use_free_api: false },
        Engine::Libre { api_key: String::new(), url: "http://localhost:5000".to_string() },
        Engine::Linguee { return_all: false },
        Engine::Microsoft { api_key: "k".to_string(), region: String::new() },
        Engine::MyMemory { email: String::new(), return_all: false },
        Engine::Papago { client_id: "id".to_string(), secret_key: "s".to_string() },
        Engine::Pons { return_all: true },
        Engine::Qcri(QcriTrans { api_key: "k".to_string(), domain: "news".to_string() }),
        Engine::Yandex { api_key: "k".to_string() },
    ]
}

#[test]
fn base_urls_are_fixed_per_provider() {
    let urls: Vec<String> = all_engines().iter().map(|e| e.base_url()).collect();
    assert_eq!(
        urls,
        vec![
            "https://translate.google.com/m",
            "https://api/v1/translate",
            "http://localhost:5000/translate",
            "https://www.linguee.com/",
            "https://api.cognitive.microsofttranslator.com/translate?api-version=3.0",
            "http://api.mymemory.translated.net/get",
            "https://openapi.naver.com/v1/papago/n2mt",
            "https://en.pons.com/translate/",
            "https://mt.qcri.org/api/v1/translate?",
            "https://translate.yandex.net/api/v1.5/tr.json/translate",
        ]
    );
}

#[test]
fn deepl_base_url_tells_tiers_and_versions_apart() {
    let url = |version: Version, use_free_api: bool| {
        Engine::Deepl { api_key: String::new(), version, use_free_api }.base_url()
    };
    assert_eq!(url(Version::V2, true), "https://api-free/v2/translate");
    assert_eq!(url(Version::V2, false), "https://api/v2/translate");
    assert_eq!(url(Version::V1, true), "https://api-free/v1/translate");
}

#[test]
fn base_url_is_the_same_on_every_call() {
    for engine in all_engines() {
        assert_eq!(engine.base_url(), engine.clone().base_url());
    }
}

#[test]
fn qcri_base_url_embeds_the_operation() {
    assert_eq!(QcriTrans::base_url("translate"), "https://mt.qcri.org/api/v1/translate?");
    assert_eq!(QcriTrans::base_url("getDomains"), "https://mt.qcri.org/api/v1/getDomains?");
    assert_eq!(QcriTrans::base_url(""), "https://mt.qcri.org/api/v1/?");
}

#[test]
fn defaults_are_google_and_v2() {
    assert_eq!(Engine::default(), Engine::Google);
    assert_eq!(Version::default(), Version::V2);
    assert_eq!(QcriTrans::default(), QcriTrans { api_key: String::new(), domain: String::new() });
}

#[test]
fn version_reads_and_writes_its_segment() {
    assert_eq!(Version::from_str("v1"), Ok(Version::V1));
    assert_eq!(Version::from_str("v2"), Ok(Version::V2));
    assert_eq!(Version::from_str("V2"), Err(()));
    assert_eq!(Version::from_str(""), Err(()));
    assert_eq!(Version::from_str("v3"), Err(()));
    assert_eq!("v1".parse::<Version>(), Ok(Version::V1));
    assert_eq!(Version::V1.to_string(), "v1");
    assert_eq!(Version::V2.to_string(), "v2");
    assert!(Version::V1 < Version::V2);
}

#[test]
fn lang_keys_write_their_code() {
    assert_eq!(LangKey::DE.to_string(), "DE");
    assert_eq!(LangKey::EN.to_string(), "EN");
}

fn code(table: &LanguagesToCodes, name: &str) -> Option<String> {
    table.get(name).cloned()
}

#[test]
fn general_table_is_shared_by_three_providers() {
    let google = Engine::Google.supported_languages();
    let mymemory = Engine::MyMemory { email: String::new(), return_all: false }.supported_languages();
    let yandex = Engine::Yandex { api_key: String::new() }.supported_languages();
    assert_eq!(google, mymemory);
    assert_eq!(google, yandex);
    assert_eq!(code(&google, "Afrikaans"), Some("af".to_string()));
    assert_eq!(code(&google, "German"), Some("de".to_string()));
    assert_eq!(code(&google, "English"), Some("en".to_string()));
    assert_eq!(code(&google, "Chinese (simplified)"), Some("zh-CN".to_string()));
    assert_eq!(code(&google, "Hebrew"), Some("iw".to_string()));
    assert_eq!(code(&google, "Zulu"), Some("zu".to_string()));
    assert_eq!(code(&google, "german"), None);
    assert_eq!(code(&google, "Klingon (Latin)"), None);
    assert!(google.contains_key("Welsh"));
    assert!(!google.contains_key(""));
}

#[test]
fn provider_tables_use_their_own_names_and_codes() {
    let libre = Engine::Libre { api_key: String::new(), url: String::new() }.supported_languages();
    assert_eq!(code(&libre, "Chinese"), Some("zh".to_string()));
    assert_eq!(code(&libre, "Afrikaans"), None);

    let linguee = Engine::Linguee { return_all: false }.supported_languages();
    assert_eq!(code(&linguee, "german"), Some("de".to_string()));
    assert_eq!(code(&linguee, "laotian"), Some("lo".to_string()));
    assert_eq!(code(&linguee, "serbian"), None);

    let microsoft =
        Engine::Microsoft { api_key: String::new(), region: String::new() }.supported_languages();
    assert_eq!(code(&microsoft, "Hebrew"), Some("he".to_string()));
    assert_eq!(code(&microsoft, "M\u{101}ori"), Some("mi".to_string()));
    assert_eq!(code(&microsoft, "Quer\u{e9}taro Otomi"), Some("otq".to_string()));
    assert_eq!(code(&microsoft, "Chinese Simplified"), Some("zh-Hans".to_string()));
    assert_eq!(code(&microsoft, "Klingon (pIqaD)"), Some("tlh-Piqd".to_string()));

    let deepl = Engine::Deepl { api_key: String::new(), version: Version::V2, use_free_api: true }
        .supported_languages();
    assert_eq!(code(&deepl, "german"), Some("de".to_string()));
    assert_eq!(code(&deepl, "chinese"), Some("zh".to_string()));
    assert_eq!(code(&deepl, "German"), None);

    let papago =
        Engine::Papago { client_id: String::new(), secret_key: String::new() }.supported_languages();
    assert_eq!(code(&papago, "Korean"), Some("ko".to_string()));
    assert_eq!(code(&papago, "Chinese traditional"), Some("zh-TW".to_string()));
    assert_eq!(code(&papago, "ko"), None);

    let pons = Engine::Pons { return_all: false }.supported_languages();
    assert_eq!(code(&pons, "elvish"), Some("elv".to_string()));
    assert_eq!(code(&pons, "chinese"), Some("zh-cn".to_string()));

    let qcri = Engine::Qcri(QcriTrans::default()).supported_languages();
    assert_eq!(code(&qcri, "Arabic"), Some("ar".to_string()));
    assert_eq!(code(&qcri, "English"), Some("en".to_string()));
    assert_eq!(code(&qcri, "Spanish"), Some("es".to_string()));
    assert_eq!(code(&qcri, "German"), None);
}

#[test]
fn tables_list_no_name_twice() {
    let table = LanguagesToCodes::new().with("German", "de").with("English", "en");
    assert_eq!(code(&table, "German"), Some("de".to_string()));
    let table = table.with("German", "ger");
    assert_eq!(code(&table, "German"), Some("ger".to_string()));
    assert_eq!(code(&table, "English"), Some("en".to_string()));
    assert_eq!(table, LanguagesToCodes::new().with("German", "ger").with("English", "en"));
    assert!(!LanguagesToCodes::new().contains_key("German"));
}

#[test]
fn tables_are_equal_whatever_the_order() {
    let one = LanguagesToCodes::new().with("German", "de").with("English", "en");
    let other = LanguagesToCodes::new().with("English", "en").with("German", "de");
    assert_eq!(one, other);
    assert_eq!(LanguagesToCodes::new(), LanguagesToCodes::new());
    assert_ne!(one, LanguagesToCodes::new().with("German", "de"));
    assert_ne!(LanguagesToCodes::new().with("German", "de"), one);
    assert_ne!(one, LanguagesToCodes::new().with("English", "en").with("German", "ger"));
    assert_ne!(one, LanguagesToCodes::new().with("English", "en").with("Deutsch", "de"));
    assert_ne!(
        Engine::Google.supported_languages(),
        Engine::Linguee { return_all: false }.supported_languages()
    );
}

#[test]
fn status_codes_have_their_numbers() {
    let numbers: Vec<usize> = vec![
        StatusCode::BadRequest,
        StatusCode::KeyBlocked,
        StatusCode::DailyReqLimitExceeded,
        StatusCode::DailyCharLimitExceeded,
        StatusCode::TextTooLong,
        StatusCode::TooManyRequests,
        StatusCode::UnprocessableText,
        StatusCode::InternalServerError,
        StatusCode::LangNotSupported,
    ]
    .into_iter()
    .map(usize::from)
    .collect();
    assert_eq!(numbers, vec![400, 402, 403, 404, 413, 429, 422, 500, 501]);
}

#[test]
fn errors_are_reported_in_sentences() {
    assert_eq!(
        TranslationError::NotValidLength { min: 1, max: 500 }.to_string(),
        "Text length need to be between 1 and 500 characters"
    );
    assert_eq!(
        TranslationError::NotValidLength { min: 0, max: 1234567890 }.to_string(),
        "Text length need to be between 0 and 1234567890 characters"
    );
    assert_eq!(
        TranslationError::Request.to_string(),
        "Request exception can happen due to an api connection error. Please check your connection and try again."
    );
    assert_eq!(
        TranslationError::TranslationNotFound.to_string(),
        "No translation was found using the current translator. Try another translator?"
    );
    assert_eq!(
        TranslationError::EngineNotSupported("bing".to_string()).to_string(),
        "Translator bing is not supported. Supported translators: `deepl`, `google`, `libre`, `linguee`, `microsoft`, `mymemory`, `papago`, `pons`, `qcri`, `yandex`."
    );
    assert_eq!(
        TranslationError::Server(StatusCode::KeyBlocked).to_string(),
        "Status code: KeyBlocked"
    );
    assert_eq!(
        TranslationError::Transport("connection refused".to_string()).to_string(),
        "Transport error: connection refused"
    );
    assert!(TranslationError::TooManyRequests.to_string().starts_with("Server Error: You made too many requests"));
    assert_ne!(
        TranslationError::TooManyRequests.to_string(),
        TranslationError::Request.to_string()
    );
}
