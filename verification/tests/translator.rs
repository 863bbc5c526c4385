use std::cell::Cell;

use mn_rs::engine::Engine;
use mn_rs::engine::QcriTrans;
use mn_rs::engine::Version;
use mn_rs::error::TranslationError;
use mn_rs::lang::LangKey;
use mn_rs::reading::Translation;
use mn_rs::translator::Step;
use mn_rs::translator::Translator;
use mn_rs::translator::MYMEMORY_MAX;
use mn_rs::transport::Method;
use mn_rs::transport::Reply;
use mn_rs::transport::Request;

fn providers() -> Vec<Engine> {
    vec![
        Engine::Google,
        Engine::Deepl { api_key: "key".to_string(), version: Version::V2, use_free_api: false },
        Engine::Libre { api_key: String::new(), url: "http://localhost:5000".to_string() },
        Engine::Linguee { return_all: false },
        Engine::Microsoft { api_key: "key".to_string(), region: String::new() },
        Engine::MyMemory { email: String::new(), return_all: false },
        Engine::Papago { client_id: "id".to_string(), secret_key: "secret".to_string() },
        Engine::Pons { return_all: false },
        Engine::Qcri(QcriTrans { api_key: "key".to_string(), domain: "news".to_string() }),
        Engine::Yandex { api_key: "key".to_string() },
    ]
}

fn translator(engine: Engine, source: &str, target: &str) -> Translator {
    Translator {
        source: source.to_string(),
        target: target.to_string(),
        engine,
        proxies: Vec::new(),
    }
}

fn pairs(list: &[(&str, &str)]) -> Vec<(String, String)> {
    list.iter().map(|(a, b)| (a.to_string(), b.to_string())).collect()
}

fn request(engine: Engine, text: &str) -> Request {
    match translator(engine, "de", "en").prepare(text) {
        Ok(Step::Send(request)) => request,
        other => panic!("no request: {other:?}"),
    }
}

#[test]
fn new_translator_asks_google_without_proxies() {
    let t = Translator::new(LangKey::DE, &LangKey::EN);
    assert_eq!(t.source, "DE");
    assert_eq!(t.target, "EN");
    assert_eq!(t.engine, Engine::Google);
    assert!(t.proxies.is_empty());
    let d = Translator::default();
    assert_eq!(d, translator(Engine::Google, "", ""));
}

#[test]
fn empty_text_is_returned_without_a_call() {
    for engine in providers() {
        let calls = Cell::new(0u32);
        let send = |_request: Request| -> Result<Reply, String> {
            calls.set(calls.get() + 1);
            Err("must not be called".to_string())
        };
        let t = translator(engine, "de", "en");
        assert_eq!(t.translate("", &send), Ok(Translation::Text(String::new())));
        assert_eq!(t.translate(" \n\t ", &send), Ok(Translation::Text(String::new())));
        assert_eq!(t.prepare(""), Ok(Step::Done(String::new())));
        assert_eq!(calls.get(), 0);
    }
}

#[test]
fn same_language_returns_the_trimmed_text_without_a_call() {
    for engine in providers() {
        let calls = Cell::new(0u32);
        let send = |_request: Request| -> Result<Reply, String> {
            calls.set(calls.get() + 1);
            Err("must not be called".to_string())
        };
        let t = translator(engine, "en", "en");
        assert_eq!(
            t.translate("  Hello  World \n", &send),
            Ok(Translation::Text("Hello  World".to_string()))
        );
        assert_eq!(t.prepare("x".repeat(501).as_str()), Ok(Step::Done("x".repeat(501))));
        assert_eq!(calls.get(), 0);
    }
}

#[test]
fn mymemory_rejects_501_characters_before_any_call() {
    let calls = Cell::new(0u32);
    let send = |_request: Request| -> Result<Reply, String> {
        calls.set(calls.get() + 1);
        Err("must not be called".to_string())
    };
    let t = translator(Engine::MyMemory { email: String::new(), return_all: false }, "de", "en");
    let long = "a".repeat(501);
    assert_eq!(
        t.translate(&long, &send),
        Err(TranslationError::NotValidLength { min: 1, max: 500 })
    );
    assert_eq!(t.prepare(&long), Err(TranslationError::NotValidLength { min: 1, max: 500 }));
    assert_eq!(
        t.prepare("\u{e4}".repeat(501).as_str()),
        Err(TranslationError::NotValidLength { min: 1, max: 500 })
    );
    assert_eq!(calls.get(), 0);
    assert_eq!(MYMEMORY_MAX, 500);
}

#[test]
fn mymemory_counts_characters_of_the_trimmed_text() {
    let t = translator(Engine::MyMemory { email: String::new(), return_all: false }, "de", "en");
    assert!(matches!(t.prepare("a".repeat(500).as_str()), Ok(Step::Send(_))));
    assert!(matches!(t.prepare("\u{e4}".repeat(500).as_str()), Ok(Step::Send(_))));
    let padded = format!("  {}  ", "a".repeat(500));
    assert!(matches!(t.prepare(&padded), Ok(Step::Send(_))));
    let other = translator(Engine::Google, "de", "en");
    assert!(matches!(other.prepare("a".repeat(501).as_str()), Ok(Step::Send(_))));
}

#[test]
fn requests_carry_what_each_provider_expects() {
    let r = request(Engine::Google, " Hallo Welt ");
    assert_eq!(r.method, Method::Get);
    assert_eq!(r.url, "https://translate.google.com/m");
    assert_eq!(r.params, pairs(&[("tl", "en"), ("sl", "de"), ("q", "Hallo Welt")]));
    assert!(r.headers.is_empty());

    let r = request(
        Engine::Deepl { api_key: "key".to_string(), version: Version::V2, use_free_api: false },
        "Hallo <b>Welt</b>",
    );
    assert_eq!(r.method, Method::Get);
    assert_eq!(r.url, "https://api/v2/translate");
    assert_eq!(
        r.params,
        pairs(&[
            ("auth_key", "key"),
            ("source_lang", "de"),
            ("target_lang", "en"),
            ("text", "Hallo <b>Welt</b>"),
            ("tag_handling", "html"),
        ])
    );

    let r = request(Engine::Libre { api_key: String::new(), url: "http://l".to_string() }, "Hallo");
    assert_eq!(r.method, Method::Post);
    assert_eq!(r.url, "http://l/translate");
    assert_eq!(
        r.params,
        pairs(&[("q", "Hallo"), ("source", "de"), ("target", "en"), ("format", "text")])
    );
    let r = request(Engine::Libre { api_key: "k".to_string(), url: "http://l".to_string() }, "Hallo");
    assert_eq!(
        r.params,
        pairs(&[("q", "Hallo"), ("source", "de"), ("target", "en"), ("format", "text"), ("api_key", "k")])
    );

    let r = request(Engine::Linguee { return_all: true }, "Haus");
    assert_eq!(r.method, Method::Get);
    assert_eq!(r.url, "https://www.linguee.com/de-en/translation/Haus.html");
    assert!(r.params.is_empty());

    let r = request(Engine::Pons { return_all: true }, "Haus");
    assert_eq!(r.method, Method::Get);
    assert_eq!(r.url, "https://en.pons.com/translate/de-en/Haus");
    assert!(r.params.is_empty());

    let r = request(Engine::MyMemory { email: String::new(), return_all: false }, "Hallo");
    assert_eq!(r.method, Method::Get);
    assert_eq!(r.url, "http://api.mymemory.translated.net/get");
    assert_eq!(r.params, pairs(&[("langpair", "de|en"), ("q", "Hallo")]));
    let r = request(Engine::MyMemory { email: "a@b.c".to_string(), return_all: false }, "Hallo");
    assert_eq!(r.params, pairs(&[("langpair", "de|en"), ("q", "Hallo"), ("de", "a@b.c")]));

    let r = request(
        Engine::Qcri(QcriTrans { api_key: "key".to_string(), domain: "news".to_string() }),
        "Hallo",
    );
    assert_eq!(r.method, Method::Get);
    assert_eq!(r.url, "https://mt.qcri.org/api/v1/translate?");
    assert_eq!(
        r.params,
        pairs(&[("key", "key"), ("langpair", "de-en"), ("domain", "news"), ("text", "Hallo")])
    );

    let r = request(Engine::Yandex { api_key: "key".to_string() }, "Hallo");
    assert_eq!(r.method, Method::Post);
    assert_eq!(
        r.params,
        pairs(&[("text", "Hallo"), ("format", "plain"), ("lang", "de-en"), ("key", "key")])
    );
    assert!(r.headers.is_empty());
}

#[test]
fn microsoft_and_papago_send_their_headers() {
    let r = request(Engine::Microsoft { api_key: "key".to_string(), region: String::new() }, "Hallo");
    assert_eq!(r.method, Method::Post);
    assert_eq!(r.url, "https://api.cognitive.microsofttranslator.com/translate?api-version=3.0");
    assert_eq!(r.params, pairs(&[("from", "de"), ("to", "en"), ("text", "Hallo")]));
    assert_eq!(r.headers, pairs(&[("Ocp-Apim-Subscription-Key", "key")]));
    let r = request(
        Engine::Microsoft { api_key: "key".to_string(), region: "westeurope".to_string() },
        "Hallo",
    );
    assert_eq!(
        r.headers,
        pairs(&[("Ocp-Apim-Subscription-Key", "key"), ("Ocp-Apim-Subscription-Region", "westeurope")])
    );

    let r = request(
        Engine::Papago { client_id: "id".to_string(), secret_key: "secret".to_string() },
        "Hallo",
    );
    assert_eq!(r.method, Method::Post);
    assert_eq!(r.url, "https://openapi.naver.com/v1/papago/n2mt");
    assert_eq!(r.params, pairs(&[("source", "de"), ("target", "en"), ("text", "Hallo")]));
    assert_eq!(
        r.headers,
        pairs(&[
            ("X-Naver-Client-Id", "id"),
            ("X-Naver-Client-Secret", "secret"),
            ("Content-Type", "application/x-www-form-urlencoded; charset=UTF-8"),
        ])
    );
}

#[test]
fn proxies_travel_with_the_request_in_order() {
    let mut t = translator(Engine::Google, "de", "en");
    t.proxies = vec!["http://first:8080".to_string(), "socks5://second:1080".to_string()];
    match t.prepare("Hallo") {
        Ok(Step::Send(request)) => assert_eq!(request.proxies, t.proxies),
        other => panic!("no request: {other:?}"),
    }
    t.proxies = vec!["http://third:3128".to_string()];
    match t.prepare("Hallo") {
        Ok(Step::Send(request)) => assert_eq!(request.proxies, vec!["http://third:3128".to_string()]),
        other => panic!("no request: {other:?}"),
    }
}

#[test]
fn translate_sends_exactly_one_request() {
    for engine in providers() {
        let calls = Cell::new(0u32);
        let planned = request(engine.clone(), "Hallo");
        let send = |request: Request| -> Result<Reply, String> {
            calls.set(calls.get() + 1);
            assert_eq!(request, planned);
            Ok(Reply { status: 429, body: String::new() })
        };
        let t = translator(engine, "de", "en");
        assert_eq!(t.translate("Hallo", &send), Err(TranslationError::TooManyRequests));
        assert_eq!(calls.get(), 1);
    }
}

#[test]
fn translate_reads_the_answer_of_its_provider() {
    let send = |_request: Request| -> Result<Reply, String> {
        Ok(Reply { status: 200, body: "{\"responseData\":{\"translatedText\":\"Bonjour\"}}".to_string() })
    };
    let t = translator(Engine::MyMemory { email: String::new(), return_all: true }, "en", "fr");
    assert_eq!(t.translate("Hello", &send), Ok(Translation::Text("Bonjour".to_string())));

    let send = |_request: Request| -> Result<Reply, String> {
        Ok(Reply { status: 200, body: "[{\"translations\":[{\"text\":\"Bonjour\"},{\"text\":\"Hallo\"}]}]".to_string() })
    };
    let t = translator(Engine::Microsoft { api_key: "k".to_string(), region: String::new() }, "en", "fr");
    assert_eq!(
        t.translate("Hello", &send),
        Ok(Translation::All(vec!["Bonjour".to_string(), "Hallo".to_string()]))
    );
}

#[test]
fn transport_failures_are_reported_as_such() {
    let send = |_request: Request| -> Result<Reply, String> { Err("connection refused".to_string()) };
    for engine in providers() {
        let t = translator(engine, "de", "en");
        assert_eq!(
            t.translate("Hallo", &send),
            Err(TranslationError::Transport("connection refused".to_string()))
        );
        assert_eq!(
            t.receive(Err("timed out".to_string())),
            Err(TranslationError::Transport("timed out".to_string()))
        );
    }
}

#[test]
fn qcri_domains_are_handed_back_unread() {
    let seen: Cell<Option<Request>> = Cell::new(None);
    let send = |request: Request| -> Result<Reply, String> {
        seen.set(Some(request));
        Ok(Reply { status: 200, body: "{\"domains\":[\"news\"]}".to_string() })
    };
    assert_eq!(QcriTrans::domains(&send), Ok("{\"domains\":[\"news\"]}".to_string()));
    let request = seen.take().unwrap();
    assert_eq!(request.method, Method::Get);
    assert_eq!(request.url, "https://mt.qcri.org/api/v1/getDomains?");
    assert!(request.params.is_empty() && request.headers.is_empty() && request.proxies.is_empty());

    let send = |_request: Request| -> Result<Reply, String> {
        Ok(Reply { status: 429, body: String::new() })
    };
    assert_eq!(QcriTrans::domains(&send), Err(TranslationError::TooManyRequests));
    let send = |_request: Request| -> Result<Reply, String> {
        Ok(Reply { status: 503, body: String::new() })
    };
    assert_eq!(QcriTrans::domains(&send), Err(TranslationError::Request));
    let send = |_request: Request| -> Result<Reply, String> { Err("dns".to_string()) };
    assert_eq!(QcriTrans::domains(&send), Err(TranslationError::Transport("dns".to_string())));
}
