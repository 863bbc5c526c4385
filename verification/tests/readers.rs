use mn_rs::engine::Engine;
use mn_rs::engine::QcriTrans;
use mn_rs::engine::Version;
use mn_rs::error::TranslationError;
use mn_rs::reading::read_deepl;
use mn_rs::reading::read_entries;
use mn_rs::reading::read_google;
use mn_rs::reading::read_libre;
use mn_rs::reading::read_linguee;
use mn_rs::reading::read_microsoft;
use mn_rs::reading::read_mymemory;
use mn_rs::reading::read_papago;
use mn_rs::reading::read_pons;
use mn_rs::reading::read_qcri;
use mn_rs::reading::read_yandex;
use mn_rs::reading::Translation;
use mn_rs::transport::response_status;
use mn_rs::transport::Reply;

fn every_engine() -> Vec<Engine> {
    vec![
        Engine::Google,
        Engine::Deepl { api_key: "k".to_string(), version: Version::V2, use_free_api: true },
        Engine::Libre { api_key: String::new(), url: "http://localhost:5000".to_string() },
        Engine::Linguee { return_all: false },
        Engine::Microsoft { api_key: "k".to_string(), region: String::new() },
        Engine::MyMemory { email: String::new(), return_all: false },
        Engine::Papago { client_id: "id".to_string(), secret_key: "s".to_string() },
        Engine::Pons { return_all: false },
        Engine::Qcri(QcriTrans { api_key: "k".to_string(), domain: "news".to_string() }),
        Engine::Yandex { api_key: "k".to_string() },
    ]
}

fn text(s: &str) -> Result<Translation, TranslationError> {
    Ok(Translation::Text(s.to_string()))
}

fn all(items: &[&str]) -> Result<Translation, TranslationError> {
    Ok(Translation::All(items.iter().map(|s| s.to_string()).collect()))
}

fn json(body: &str) -> serde_json::Value {
    serde_json::from_str(body).unwrap()
}

fn page(body: &str) -> scraper::Html {
    scraper::Html::parse_document(body)
}

fn mymemory(return_all: bool) -> Engine {
    Engine::MyMemory { email: String::new(), return_all }
}

#[test]
fn status_429_is_a_rate_limit_for_every_provider() {
    for engine in every_engine() {
        let bodies = ["", "{\"translations\":[{\"text\":\"Hello World\"}]}", "<div class=\"t0\">x</div>"];
        for body in bodies {
            let reply = Reply { status: 429, body: body.to_string() };
            assert_eq!(engine.read_reply(reply), Err(TranslationError::TooManyRequests));
        }
    }
}

#[test]
fn status_500_is_a_failed_request_for_every_provider() {
    for engine in every_engine() {
        for status in [500u16, 404, 403, 201, 204, 301, 0] {
            let reply = Reply {
                status,
                body: "{\"translations\":[{\"text\":\"Hello World\"}]}".to_string(),
            };
            assert_eq!(engine.read_reply(reply), Err(TranslationError::Request));
        }
    }
}

#[test]
fn response_status_lets_only_200_through() {
    let reply = Reply { status: 200, body: "anything".to_string() };
    assert_eq!(response_status(reply.clone()), Ok(reply));
    let reply = Reply { status: 429, body: "anything".to_string() };
    assert_eq!(response_status(reply), Err(TranslationError::TooManyRequests));
    let reply = Reply { status: 500, body: "anything".to_string() };
    assert_eq!(response_status(reply), Err(TranslationError::Request));
    let reply = Reply { status: 199, body: String::new() };
    assert_eq!(response_status(reply), Err(TranslationError::Request));
}

#[test]
fn deepl_round_trip() {
    let engine = Engine::Deepl { api_key: "k".to_string(), version: Version::V2, use_free_api: true };
    let reply = Reply {
        status: 200,
        body: "{\"translations\":[{\"text\":\"Hello World\"}]}".to_string(),
    };
    assert_eq!(engine.read_reply(reply), text("Hello World"));
}

#[test]
fn deepl_reads_the_first_translation() {
    assert_eq!(
        read_deepl(&json(
            "{\"translations\":[{\"detected_source_language\":\"DE\",\"text\":\"Hello\"},{\"text\":\"Hi\"}]}"
        )),
        text("Hello")
    );
    assert_eq!(read_deepl(&json("{\"translations\":[{\"text\":\"\"}]}")), text(""));
    assert_eq!(
        read_deepl(&json("{\"translations\":[]}")),
        Err(TranslationError::TranslationNotFound)
    );
    assert_eq!(read_deepl(&json("{\"message\":\"quota\"}")), Err(TranslationError::Request));
    assert_eq!(read_deepl(&json("{\"translations\":\"x\"}")), Err(TranslationError::Request));
    assert_eq!(read_deepl(&json("{\"translations\":[{\"text\":5}]}")), Err(TranslationError::Request));
    assert_eq!(read_deepl(&json("{\"translations\":[{}]}")), Err(TranslationError::Request));
    assert_eq!(read_deepl(&json("[]")), Err(TranslationError::Request));
}

#[test]
fn libre_treats_an_absent_field_as_empty() {
    assert_eq!(read_libre(&json("{\"translatedText\":\"Hello\"}")), text("Hello"));
    assert_eq!(read_libre(&json("{}")), text(""));
    assert_eq!(read_libre(&json("{\"error\":\"slow down\"}")), text(""));
    assert_eq!(read_libre(&json("[1]")), text(""));
    assert_eq!(read_libre(&json("{\"translatedText\":[\"a\"]}")), Err(TranslationError::Request));
}

#[test]
fn microsoft_collects_every_text() {
    assert_eq!(
        read_microsoft(&json(
            "[{\"translations\":[{\"text\":\"Hello\",\"to\":\"en\"},{\"text\":\"Bonjour\",\"to\":\"fr\"}]}]"
        )),
        all(&["Hello", "Bonjour"])
    );
    assert_eq!(
        read_microsoft(&json("[{\"translations\":[{\"text\":\"Hello\"}]},{\"translations\":[{\"text\":\"x\"}]}]")),
        all(&["Hello"])
    );
}

#[test]
fn microsoft_out_of_shape_is_a_failed_request() {
    for body in [
        "{\"error\":{\"code\":401000}}",
        "[]",
        "[{}]",
        "[{\"translations\":{}}]",
        "[{\"translations\":[{\"text\":\"a\"},{\"to\":\"fr\"}]}]",
        "[{\"translations\":[{\"text\":null}]}]",
        "null",
        "\"text\"",
    ] {
        assert_eq!(read_microsoft(&json(body)), Err(TranslationError::Request));
    }
    assert_eq!(
        read_microsoft(&json("[{\"translations\":[]}]")),
        Err(TranslationError::TranslationNotFound)
    );
    let engine = Engine::Microsoft { api_key: "k".to_string(), region: String::new() };
    assert_eq!(engine.read_body("<html>"), Err(TranslationError::Request));
}

#[test]
fn mymemory_prefers_response_data() {
    let reply = Reply {
        status: 200,
        body: "{\"responseData\":{\"translatedText\":\"Bonjour\"}}".to_string(),
    };
    assert_eq!(mymemory(false).read_reply(reply), text("Bonjour"));
    let with_matches = "{\"responseData\":{\"translatedText\":\"Bonjour\",\"match\":1},\"matches\":[{\"translation\":\"Salut\"},{\"translation\":\"Coucou\"}]}";
    assert_eq!(mymemory(false).read_body(with_matches), text("Bonjour"));
    assert_eq!(mymemory(true).read_body(with_matches), text("Bonjour"));
    assert_eq!(
        read_mymemory(&json("{\"responseData\":{\"translatedText\":\"Bonjour\"},\"matches\":\"\"}"), true),
        text("Bonjour")
    );
}

#[test]
fn mymemory_falls_back_to_matches() {
    let body = "{\"responseData\":{\"translatedText\":null},\"matches\":[{\"translation\":\"Salut\"},{\"translation\":\"Coucou\"}]}";
    assert_eq!(read_mymemory(&json(body), false), text("Salut"));
    assert_eq!(read_mymemory(&json(body), true), all(&["Salut", "Coucou"]));
    let body = "{\"matches\":[{\"translation\":\"Salut\"},{\"id\":7}]}";
    assert_eq!(read_mymemory(&json(body), false), text("Salut"));
    assert_eq!(read_mymemory(&json(body), true), Err(TranslationError::Request));
    let body = "{\"responseData\":{},\"matches\":[]}";
    assert_eq!(read_mymemory(&json(body), false), Err(TranslationError::TranslationNotFound));
    assert_eq!(read_mymemory(&json(body), true), Err(TranslationError::TranslationNotFound));
    for body in ["{}", "{\"matches\":\"\"}", "{\"matches\":[{\"translation\":1}]}", "[]"] {
        assert_eq!(read_mymemory(&json(body), false), Err(TranslationError::Request));
        assert_eq!(read_mymemory(&json(body), true), Err(TranslationError::Request));
    }
}

#[test]
fn papago_qcri_and_yandex_read_their_field() {
    assert_eq!(
        read_papago(&json("{\"message\":{\"result\":{\"translatedText\":\"Hello\",\"srcLangType\":\"ko\"}}}")),
        text("Hello")
    );
    assert_eq!(read_papago(&json("{\"message\":{\"result\":{}}}")), Err(TranslationError::Request));
    assert_eq!(read_papago(&json("{\"message\":{}}")), Err(TranslationError::Request));
    assert_eq!(read_papago(&json("{\"translatedText\":\"Hello\"}")), Err(TranslationError::Request));
    assert_eq!(read_qcri(&json("{\"success\":true,\"translatedText\":\"Hello\"}")), text("Hello"));
    assert_eq!(read_qcri(&json("{\"success\":false}")), Err(TranslationError::Request));
    assert_eq!(read_yandex(&json("{\"code\":200,\"text\":\"Hello\"}")), text("Hello"));
    assert_eq!(read_yandex(&json("{\"code\":200,\"text\":[\"Hello\"]}")), Err(TranslationError::Request));
    assert_eq!(read_yandex(&json("{\"translatedText\":\"Hello\"}")), Err(TranslationError::Request));
}

#[test]
fn json_providers_refuse_what_is_not_json() {
    for engine in every_engine() {
        let scraped = matches!(engine, Engine::Google | Engine::Linguee { .. } | Engine::Pons { .. });
        if !scraped {
            assert_eq!(engine.read_body("<html></html>"), Err(TranslationError::Request));
            assert_eq!(engine.read_body(""), Err(TranslationError::Request));
            assert_eq!(engine.read_body("{\"text\":"), Err(TranslationError::Request));
        }
    }
}

#[test]
fn google_reads_the_result_container_or_t0() {
    assert_eq!(
        read_google(&page("<html><body><div class=\"result-container\"> Hello <b>World</b>\n</div></body></html>")),
        text("Hello World")
    );
    assert_eq!(
        read_google(&page("<html><body><div class=\"t0\">Hello World</div></body></html>")),
        text("Hello World")
    );
    assert_eq!(
        read_google(&page(
            "<div class=\"t0\">second</div><div class=\"result-container\">first</div><div class=\"result-container\">third</div>"
        )),
        text("first")
    );
    assert_eq!(read_google(&page("<div class=\"result-container\"></div>")), text(""));
}

#[test]
fn scraped_pages_without_a_match_hold_no_translation() {
    let empty = "<html><body><p class=\"result-container\">a</p><span class=\"target\">b</span><a class=\"dictLink\">c</a></body></html>";
    assert_eq!(read_google(&page(empty)), Err(TranslationError::TranslationNotFound));
    assert_eq!(read_google(&page("")), Err(TranslationError::TranslationNotFound));
    for return_all in [false, true] {
        assert_eq!(read_linguee(&page(empty), return_all), Err(TranslationError::TranslationNotFound));
        assert_eq!(read_pons(&page(empty), return_all), Err(TranslationError::TranslationNotFound));
    }
    for engine in [Engine::Google, Engine::Linguee { return_all: true }, Engine::Pons { return_all: false }] {
        let reply = Reply { status: 200, body: empty.to_string() };
        assert_eq!(engine.read_reply(reply), Err(TranslationError::TranslationNotFound));
        assert_eq!(engine.read_body("{\"text\":\"Hello\"}"), Err(TranslationError::TranslationNotFound));
    }
}

#[test]
fn linguee_removes_the_placeholder() {
    let one = "<html><body><a class=\"dictLink featured\">house <span class=\"placeholder\"> sth. </span></a></body></html>";
    assert_eq!(read_linguee(&page(one), false), text("house"));
    assert_eq!(read_linguee(&page(one), true), all(&["house"]));
    let engine = Engine::Linguee { return_all: false };
    assert_eq!(engine.read_reply(Reply { status: 200, body: one.to_string() }), text("house"));
}

#[test]
fn linguee_returns_the_first_entry_or_all() {
    let body = "<div><a class=\"dictLink featured\">house</a><a class=\"dictLink\">skipped</a>\
        <a class=\"featured dictLink\"> <span class=\"placeholder\">to</span> build to last </a>\
        <a class=\"dictLink featured\">home<span class=\"other\"> (n)</span></a></div>";
    assert_eq!(read_linguee(&page(body), false), text("house"));
    assert_eq!(read_linguee(&page(body), true), all(&["house", "build  last", "home (n)"]));
}

#[test]
fn pons_removes_the_link_text() {
    let body = "<div class=\"target\"> <a href=\"/x\">the</a> house </div><div class=\"target\">home</div><div class=\"source\">Haus</div>";
    assert_eq!(read_pons(&page(body), false), text("house"));
    assert_eq!(read_pons(&page(body), true), all(&["house", "home"]));
    let engine = Engine::Pons { return_all: true };
    assert_eq!(engine.read_body(body), all(&["house", "home"]));
}

#[test]
fn entries_are_read_with_the_given_selectors() {
    let document = page("<ul><li>one <i>1</i></li><li><i> 2 </i>two</li><li>three</li></ul>");
    let entry = scraper::Selector::parse("li").unwrap();
    let aside = scraper::Selector::parse("i").unwrap();
    assert_eq!(read_entries(&document, &entry, &aside, true), all(&["one", "two", "three"]));
    assert_eq!(read_entries(&document, &entry, &aside, false), text("one"));
    assert_eq!(read_entries(&document, &aside, &entry, true), all(&["1", "2"]));
    let none = scraper::Selector::parse("table").unwrap();
    assert_eq!(
        read_entries(&document, &none, &aside, true),
        Err(TranslationError::TranslationNotFound)
    );
    assert_eq!(read_entries(&document, &entry, &none, false), text("one 1"));
}

#[test]
fn a_list_of_texts_is_no_single_text() {
    assert_eq!(Translation::Text("a".to_string()).into_text(), Ok("a".to_string()));
    assert_eq!(
        Translation::All(vec!["a".to_string()]).into_text(),
        Err(TranslationError::TranslationNotFound)
    );
}
