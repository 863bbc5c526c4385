//! How each provider's answer is read: the translated text is taken out of
//! a JSON document or out of a page of HTML.
//!
//! Every reader here starts from a response that the transport has already
//! classified as a 200. A document that lacks what the provider's interface
//! promises is a failed request; one that is in shape and holds no
//! translation is a translation not found.

use vstd::prelude::*;
use vstd::string::StringExecFns;
use crate::engine::Engine;
use crate::error::Failure;
use crate::error::TranslationError;
use crate::html::css_selector;
use crate::html::element_matches;
use crate::html::element_text;
use crate::html::html_document;
use crate::html::html_matches;
use crate::html::parse_html;
use crate::html::parse_selector;
use crate::html::select;
use crate::html::select_within;
use crate::html::text_of;
use crate::json::json_document;
use crate::json::json_items;
use crate::json::json_member;
use crate::json::json_text;
use crate::json::member;
use crate::json::parse_json;
use crate::text::remove_all;
use crate::text::trim;
use crate::text::trimmed;
use crate::text::without;
use crate::transport::response_status;
use crate::transport::status_failure;
use crate::transport::Reply;

verus! {

/// What a provider gave back: one text, or every text it had on offer.
#[derive(Debug, Clone, PartialEq, Eq)]
pub enum Translation {
    Text(String),
    All(Vec<String>),
}

/// What a [`Translation`] holds, with its texts as sequences.
pub enum Rendering {
    Text(Seq<char>),
    All(Seq<Seq<char>>),
}

impl View for Translation {
    type V = Rendering;

    open spec fn view(&self) -> Rendering {
        match self {
            Translation::Text(text) => Rendering::Text(text@),
            Translation::All(texts) => Rendering::All(texts.deep_view()),
        }
    }
}

impl Rendering {
    /// The single text, where there is exactly that; a list of texts is no
    /// text and counts as nothing found.
    pub open spec fn single(self) -> Result<Seq<char>, Failure> {
        match self {
            Rendering::Text(text) => Ok(text),
            Rendering::All(_) => Err(Failure::TranslationNotFound),
        }
    }
}

impl Translation {
    /// The single text of this translation.
    pub fn into_text(self) -> (r: Result<String, TranslationError>)
        ensures
            text_outcome(r) == self@.single(),
    {
        match self {
            Translation::Text(text) => Ok(text),
            Translation::All(_) => Err(TranslationError::TranslationNotFound),
        }
    }
}

/// The result of reading an answer, with its texts as sequences.
pub open spec fn outcome(r: Result<Translation, TranslationError>) -> Result<Rendering, Failure> {
    match r {
        Ok(translation) => Ok(translation@),
        Err(e) => Err(e@),
    }
}

/// The result of a translation into one text, with its texts as sequences.
pub open spec fn text_outcome(r: Result<String, TranslationError>) -> Result<Seq<char>, Failure> {
    match r {
        Ok(text) => Ok(text@),
        Err(e) => Err(e@),
    }
}

/// The string that the object `value` holds under `key`.
pub open spec fn text_member(value: serde_json::Value, key: Seq<char>) -> Option<Seq<char>> {
    match json_member(value, key) {
        Some(found) => json_text(found),
        None => None,
    }
}

/// The strings that the objects `items` hold under `key`, if each of them
/// holds one.
pub open spec fn all_texts(items: Seq<serde_json::Value>, key: Seq<char>) -> Option<
    Seq<Seq<char>>,
> {
    if forall|i: int| 0 <= i < items.len() ==> text_member(#[trigger] items[i], key) is Some {
        Some(Seq::new(items.len(), |i: int| text_member(items[i], key)->0))
    } else {
        None
    }
}

/// A document whose member `key` is the translated string.
pub open spec fn field_reading(doc: serde_json::Value, key: Seq<char>) -> Result<
    Rendering,
    Failure,
> {
    match text_member(doc, key) {
        Some(text) => Ok(Rendering::Text(text)),
        None => Err(Failure::Request),
    }
}

/// DeepL answers with an array `translations` and wants the `text` of its
/// first element read. An empty array holds no translation.
pub open spec fn deepl_reading(doc: serde_json::Value) -> Result<Rendering, Failure> {
    match json_member(doc, "translations"@) {
        Some(list) => match json_items(list) {
            Some(items) => if items.len() == 0 {
                Err(Failure::TranslationNotFound)
            } else {
                field_reading(items[0], "text"@)
            },
            None => Err(Failure::Request),
        },
        None => Err(Failure::Request),
    }
}

/// LibreTranslate answers with a string `translatedText`; where the member
/// is absent the translation is the empty string.
pub open spec fn libre_reading(doc: serde_json::Value) -> Result<Rendering, Failure> {
    match json_member(doc, "translatedText"@) {
        Some(found) => match json_text(found) {
            Some(text) => Ok(Rendering::Text(text)),
            None => Err(Failure::Request),
        },
        None => Ok(Rendering::Text(Seq::empty())),
    }
}

/// Every `text` among the objects `items`; none at all is nothing found, and
/// an element without one is out of shape.
pub open spec fn listed_reading(items: Seq<serde_json::Value>, key: Seq<char>) -> Result<
    Rendering,
    Failure,
> {
    if items.len() == 0 {
        Err(Failure::TranslationNotFound)
    } else {
        match all_texts(items, key) {
            Some(texts) => Ok(Rendering::All(texts)),
            None => Err(Failure::Request),
        }
    }
}

/// Microsoft answers with an array whose first element holds an array
/// `translations`; every `text` in it is wanted.
pub open spec fn microsoft_reading(doc: serde_json::Value) -> Result<Rendering, Failure> {
    match json_items(doc) {
        Some(answers) => if answers.len() == 0 {
            Err(Failure::Request)
        } else {
            match json_member(answers[0], "translations"@) {
                Some(list) => match json_items(list) {
                    Some(items) => listed_reading(items, "text"@),
                    None => Err(Failure::Request),
                },
                None => Err(Failure::Request),
            }
        },
        None => Err(Failure::Request),
    }
}

/// The translation that MyMemory itself prefers: the string
/// `responseData.translatedText`.
pub open spec fn mymemory_preferred(doc: serde_json::Value) -> Option<Seq<char>> {
    match json_member(doc, "responseData"@) {
        Some(data) => text_member(data, "translatedText"@),
        None => None,
    }
}

/// MyMemory's preferred translation wins whatever else the document holds.
/// Without it the array `matches` is read: the `translation` of its first
/// element, or of every element where all are asked for.
pub open spec fn mymemory_reading(doc: serde_json::Value, return_all: bool) -> Result<
    Rendering,
    Failure,
> {
    match mymemory_preferred(doc) {
        Some(text) => Ok(Rendering::Text(text)),
        None => match json_member(doc, "matches"@) {
            Some(list) => match json_items(list) {
                Some(items) => if items.len() == 0 {
                    Err(Failure::TranslationNotFound)
                } else if return_all {
                    listed_reading(items, "translation"@)
                } else {
                    field_reading(items[0], "translation"@)
                },
                None => Err(Failure::Request),
            },
            None => Err(Failure::Request),
        },
    }
}

/// Papago answers with the string `message.result.translatedText`.
pub open spec fn papago_reading(doc: serde_json::Value) -> Result<Rendering, Failure> {
    match json_member(doc, "message"@) {
        Some(message) => match json_member(message, "result"@) {
            Some(result) => field_reading(result, "translatedText"@),
            None => Err(Failure::Request),
        },
        None => Err(Failure::Request),
    }
}

/// QCRI answers with the string `translatedText`.
pub open spec fn qcri_reading(doc: serde_json::Value) -> Result<Rendering, Failure> {
    field_reading(doc, "translatedText"@)
}

/// Yandex answers with the string `text`.
pub open spec fn yandex_reading(doc: serde_json::Value) -> Result<Rendering, Failure> {
    field_reading(doc, "text"@)
}

/// The trimmed text of the first element of `document` that the selector
/// `css` matches.
pub open spec fn first_match_text(document: scraper::Html, css: Seq<char>) -> Option<Seq<char>> {
    match css_selector(css) {
        Some(selector) => if html_matches(document, selector).len() > 0 {
            Some(trimmed(element_text(html_matches(document, selector)[0])))
        } else {
            None
        },
        None => None,
    }
}

/// Google's page holds the translation in `div.result-container`, or else
/// in `div.t0`.
pub open spec fn google_reading(document: scraper::Html) -> Result<Rendering, Failure> {
    match first_match_text(document, "div.result-container"@) {
        Some(text) => Ok(Rendering::Text(text)),
        None => match first_match_text(document, "div.t0"@) {
            Some(text) => Ok(Rendering::Text(text)),
            None => Err(Failure::TranslationNotFound),
        },
    }
}

/// The text of a dictionary entry: the text of `element`, from which the
/// trimmed text of the first element below it that `aside` matches is taken
/// out wherever it stands, trimmed.
pub open spec fn entry_text(element: scraper::ElementRef<'_>, aside: scraper::Selector) -> Seq<
    char,
> {
    let text = element_text(element);
    let asides = element_matches(element, aside);
    if asides.len() > 0 {
        trimmed(without(text, trimmed(element_text(asides[0]))))
    } else {
        trimmed(text)
    }
}

/// The entries of a dictionary page: one for each element that `entry`
/// matches, in order.
pub open spec fn entry_texts(
    document: scraper::Html,
    entry: scraper::Selector,
    aside: scraper::Selector,
) -> Seq<Seq<char>> {
    let found = html_matches(document, entry);
    Seq::new(found.len(), |i: int| entry_text(found[i], aside))
}

/// A dictionary page read with the given selectors: the first entry, or
/// every entry where all are asked for; a page without entries holds no
/// translation.
pub open spec fn entries_reading(
    document: scraper::Html,
    entry: scraper::Selector,
    aside: scraper::Selector,
    return_all: bool,
) -> Result<Rendering, Failure> {
    let entries = entry_texts(document, entry, aside);
    if entries.len() == 0 {
        Err(Failure::TranslationNotFound)
    } else if return_all {
        Ok(Rendering::All(entries))
    } else {
        Ok(Rendering::Text(entries[0]))
    }
}

/// A dictionary page read with selectors given as CSS. A selector that
/// cannot be read matches nothing.
pub open spec fn dictionary_reading(
    document: scraper::Html,
    entry_css: Seq<char>,
    aside_css: Seq<char>,
    return_all: bool,
) -> Result<Rendering, Failure> {
    match (css_selector(entry_css), css_selector(aside_css)) {
        (Some(entry), Some(aside)) => entries_reading(document, entry, aside, return_all),
        _ => Err(Failure::TranslationNotFound),
    }
}

/// Linguee lists its entries as `a.dictLink.featured`, each with a
/// `span.placeholder` that is no part of the translation.
pub open spec fn linguee_reading(document: scraper::Html, return_all: bool) -> Result<
    Rendering,
    Failure,
> {
    dictionary_reading(document, "a.dictLink.featured"@, "span.placeholder"@, return_all)
}

/// Pons lists its entries as `div.target`, each with an `a` that is no part
/// of the translation.
pub open spec fn pons_reading(document: scraper::Html, return_all: bool) -> Result<
    Rendering,
    Failure,
> {
    dictionary_reading(document, "div.target"@, "a"@, return_all)
}

/// The string that the object `value` holds under `key`.
fn member_text<'a>(value: &'a serde_json::Value, key: &str) -> (r: Option<&'a str>)
    ensures
        match r {
            Some(text) => text_member(*value, key@) == Some(text@),
            None => text_member(*value, key@) is None,
        },
{
    match member(value, key) {
        Some(found) => found.as_str(),
        None => None,
    }
}

/// Reads the translated string from the member `key` of `doc`.
fn read_field(doc: &serde_json::Value, key: &str) -> (r: Result<Translation, TranslationError>)
    ensures
        outcome(r) == field_reading(*doc, key@),
{
    match member_text(doc, key) {
        Some(text) => Ok(Translation::Text(String::from_str(text))),
        None => Err(TranslationError::Request),
    }
}

/// Reads the string under `key` from each of `items`.
fn read_listed(items: &Vec<serde_json::Value>, key: &str) -> (r: Result<
    Translation,
    TranslationError,
>)
    ensures
        outcome(r) == listed_reading(items@, key@),
{
    if items.len() == 0 {
        return Err(TranslationError::TranslationNotFound);
    }
    let mut texts: Vec<String> = Vec::new();
    let mut i: usize = 0;
    while i < items.len()
        invariant
            i <= items@.len(),
            texts@.len() == i,
            forall|j: int| 0 <= j < i ==> text_member(#[trigger] items@[j], key@) == Some(texts@[j]@),
        decreases items@.len() - i,
    {
        match member_text(&items[i], key) {
            Some(text) => {
                texts.push(String::from_str(text));
            },
            None => {
                assert(text_member(items@[i as int], key@) is None);
                return Err(TranslationError::Request);
            },
        }
        i += 1;
    }
    proof {
        assert(texts.deep_view() =~= all_texts(items@, key@)->0);
    }
    Ok(Translation::All(texts))
}

/// Reads DeepL's answer.
pub fn read_deepl(doc: &serde_json::Value) -> (r: Result<Translation, TranslationError>)
    ensures
        outcome(r) == deepl_reading(*doc),
{
    match member(doc, "translations") {
        Some(list) => match list.as_array() {
            Some(items) => if items.len() == 0 {
                Err(TranslationError::TranslationNotFound)
            } else {
                read_field(&items[0], "text")
            },
            None => Err(TranslationError::Request),
        },
        None => Err(TranslationError::Request),
    }
}

/// Reads LibreTranslate's answer.
pub fn read_libre(doc: &serde_json::Value) -> (r: Result<Translation, TranslationError>)
    ensures
        outcome(r) == libre_reading(*doc),
{
    match member(doc, "translatedText") {
        Some(found) => match found.as_str() {
            Some(text) => Ok(Translation::Text(String::from_str(text))),
            None => Err(TranslationError::Request),
        },
        None => Ok(Translation::Text(String::new())),
    }
}

/// Reads Microsoft's answer.
pub fn read_microsoft(doc: &serde_json::Value) -> (r: Result<Translation, TranslationError>)
    ensures
        outcome(r) == microsoft_reading(*doc),
{
    match doc.as_array() {
        Some(answers) => if answers.len() == 0 {
            Err(TranslationError::Request)
        } else {
            match member(&answers[0], "translations") {
                Some(list) => match list.as_array() {
                    Some(items) => read_listed(items, "text"),
                    None => Err(TranslationError::Request),
                },
                None => Err(TranslationError::Request),
            }
        },
        None => Err(TranslationError::Request),
    }
}

/// MyMemory's preferred translation, if the document holds one.
fn read_preferred<'a>(doc: &'a serde_json::Value) -> (r: Option<&'a str>)
    ensures
        match r {
            Some(text) => mymemory_preferred(*doc) == Some(text@),
            None => mymemory_preferred(*doc) is None,
        },
{
    match member(doc, "responseData") {
        Some(data) => member_text(data, "translatedText"),
        None => None,
    }
}

/// Reads MyMemory's answer.
pub fn read_mymemory(doc: &serde_json::Value, return_all: bool) -> (r: Result<
    Translation,
    TranslationError,
>)
    ensures
        outcome(r) == mymemory_reading(*doc, return_all),
{
    match read_preferred(doc) {
        Some(text) => Ok(Translation::Text(String::from_str(text))),
        None => match member(doc, "matches") {
            Some(list) => match list.as_array() {
                Some(items) => if items.len() == 0 {
                    Err(TranslationError::TranslationNotFound)
                } else if return_all {
                    read_listed(items, "translation")
                } else {
                    read_field(&items[0], "translation")
                },
                None => Err(TranslationError::Request),
            },
            None => Err(TranslationError::Request),
        },
    }
}

/// Reads Papago's answer.
pub fn read_papago(doc: &serde_json::Value) -> (r: Result<Translation, TranslationError>)
    ensures
        outcome(r) == papago_reading(*doc),
{
    match member(doc, "message") {
        Some(message) => match member(message, "result") {
            Some(result) => read_field(result, "translatedText"),
            None => Err(TranslationError::Request),
        },
        None => Err(TranslationError::Request),
    }
}

/// Reads QCRI's answer.
pub fn read_qcri(doc: &serde_json::Value) -> (r: Result<Translation, TranslationError>)
    ensures
        outcome(r) == qcri_reading(*doc),
{
    read_field(doc, "translatedText")
}

/// Reads Yandex's answer.
pub fn read_yandex(doc: &serde_json::Value) -> (r: Result<Translation, TranslationError>)
    ensures
        outcome(r) == yandex_reading(*doc),
{
    read_field(doc, "text")
}

/// The trimmed text of the first element that `css` matches.
fn read_first_match(document: &scraper::Html, css: &str) -> (r: Option<String>)
    ensures
        r.deep_view() == first_match_text(*document, css@),
{
    match parse_selector(css) {
        Some(selector) => {
            let found = select(document, &selector);
            if found.len() > 0 {
                let text = text_of(&found[0]);
                Some(String::from_str(trim(text.as_str())))
            } else {
                None
            }
        },
        None => None,
    }
}

/// Reads Google's page.
pub fn read_google(document: &scraper::Html) -> (r: Result<Translation, TranslationError>)
    ensures
        outcome(r) == google_reading(*document),
{
    match read_first_match(document, "div.result-container") {
        Some(text) => Ok(Translation::Text(text)),
        None => match read_first_match(document, "div.t0") {
            Some(text) => Ok(Translation::Text(text)),
            None => Err(TranslationError::TranslationNotFound),
        },
    }
}

/// Reads one dictionary entry.
fn read_entry(element: &scraper::ElementRef<'_>, aside: &scraper::Selector) -> (r: String)
    ensures
        r@ == entry_text(*element, *aside),
{
    let text = text_of(element);
    let asides = select_within(element, aside);
    if asides.len() > 0 {
        let pronoun = text_of(&asides[0]);
        let bare = remove_all(text.as_str(), trim(pronoun.as_str()));
        String::from_str(trim(bare.as_str()))
    } else {
        String::from_str(trim(text.as_str()))
    }
}

/// Reads a dictionary page with the given selectors.
pub fn read_entries(
    document: &scraper::Html,
    entry: &scraper::Selector,
    aside: &scraper::Selector,
    return_all: bool,
) -> (r: Result<Translation, TranslationError>)
    ensures
        outcome(r) == entries_reading(*document, *entry, *aside, return_all),
{
    let found = select(document, entry);
    if found.len() == 0 {
        return Err(TranslationError::TranslationNotFound);
    }
    if !return_all {
        return Ok(Translation::Text(read_entry(&found[0], aside)));
    }
    let mut texts: Vec<String> = Vec::new();
    let mut i: usize = 0;
    while i < found.len()
        invariant
            i <= found@.len(),
            texts@.len() == i,
            forall|j: int| 0 <= j < i ==> texts@[j]@ == entry_text(#[trigger] found@[j], *aside),
        decreases found@.len() - i,
    {
        texts.push(read_entry(&found[i], aside));
        i += 1;
    }
    proof {
        assert(texts.deep_view() =~= entry_texts(*document, *entry, *aside));
    }
    Ok(Translation::All(texts))
}

/// Reads a dictionary page with selectors given as CSS.
fn read_dictionary(document: &scraper::Html, entry_css: &str, aside_css: &str, return_all: bool) -> (r:
    Result<Translation, TranslationError>)
    ensures
        outcome(r) == dictionary_reading(*document, entry_css@, aside_css@, return_all),
{
    match parse_selector(entry_css) {
        Some(entry) => match parse_selector(aside_css) {
            Some(aside) => read_entries(document, &entry, &aside, return_all),
            None => Err(TranslationError::TranslationNotFound),
        },
        None => Err(TranslationError::TranslationNotFound),
    }
}

/// Reads Linguee's page.
pub fn read_linguee(document: &scraper::Html, return_all: bool) -> (r: Result<
    Translation,
    TranslationError,
>)
    ensures
        outcome(r) == linguee_reading(*document, return_all),
{
    read_dictionary(document, "a.dictLink.featured", "span.placeholder", return_all)
}

/// Reads Pons's page.
pub fn read_pons(document: &scraper::Html, return_all: bool) -> (r: Result<
    Translation,
    TranslationError,
>)
    ensures
        outcome(r) == pons_reading(*document, return_all),
{
    read_dictionary(document, "div.target", "a", return_all)
}

/// What a body says that is read as JSON with `read`. A body that is no
/// JSON is a failed request.
pub open spec fn document_reading(
    body: Seq<char>,
    read: spec_fn(serde_json::Value) -> Result<Rendering, Failure>,
) -> Result<Rendering, Failure> {
    match json_document(body) {
        Some(doc) => read(doc),
        None => Err(Failure::Request),
    }
}

impl Engine {
    /// Whether this provider answers with a page of HTML, which is searched
    /// with selectors, and not with JSON.
    pub open spec fn scrapes(self) -> bool {
        self is Google || self is Linguee || self is Pons
    }

    /// What the body of a 200 response from this provider says.
    pub open spec fn reading(self, body: Seq<char>) -> Result<Rendering, Failure> {
        match self {
            Engine::Google => google_reading(html_document(body)),
            Engine::Linguee { return_all } => linguee_reading(html_document(body), return_all),
            Engine::Pons { return_all } => pons_reading(html_document(body), return_all),
            Engine::Deepl { .. } => document_reading(body, |doc| deepl_reading(doc)),
            Engine::Libre { .. } => document_reading(body, |doc| libre_reading(doc)),
            Engine::Microsoft { .. } => document_reading(body, |doc| microsoft_reading(doc)),
            Engine::MyMemory { return_all, .. } => document_reading(
                body,
                |doc| mymemory_reading(doc, return_all),
            ),
            Engine::Papago { .. } => document_reading(body, |doc| papago_reading(doc)),
            Engine::Qcri(_) => document_reading(body, |doc| qcri_reading(doc)),
            Engine::Yandex { .. } => document_reading(body, |doc| yandex_reading(doc)),
        }
    }

    /// What a response from this provider says: its status decides first,
    /// and only a 200 has its body read.
    pub open spec fn answer(self, status: u16, body: Seq<char>) -> Result<Rendering, Failure> {
        match status_failure(status) {
            Some(failure) => Err(failure),
            None => self.reading(body),
        }
    }

    /// Reads the body of a 200 response from this provider.
    pub fn read_body(&self, body: &str) -> (r: Result<Translation, TranslationError>)
        ensures
            outcome(r) == self.reading(body@),
    {
        match self {
            Engine::Google => read_google(&parse_html(body)),
            Engine::Linguee { return_all } => read_linguee(&parse_html(body), *return_all),
            Engine::Pons { return_all } => read_pons(&parse_html(body), *return_all),
            _ => match parse_json(body) {
                Ok(doc) => match self {
                    Engine::Libre { .. } => read_libre(&doc),
                    Engine::Microsoft { .. } => read_microsoft(&doc),
                    Engine::MyMemory { return_all, .. } => read_mymemory(&doc, *return_all),
                    Engine::Papago { .. } => read_papago(&doc),
                    Engine::Qcri(_) => read_qcri(&doc),
                    Engine::Yandex { .. } => read_yandex(&doc),
                    _ => read_deepl(&doc),
                },
                Err(_) => Err(TranslationError::Request),
            },
        }
    }

    /// Reads a response from this provider, whatever its status.
    pub fn read_reply(&self, reply: Reply) -> (r: Result<Translation, TranslationError>)
        ensures
            outcome(r) == self.answer(reply.status, reply.body@),
    {
        match response_status(reply) {
            Ok(passed) => self.read_body(passed.body.as_str()),
            Err(e) => Err(e),
        }
    }
}

impl Engine {
    /// How many elements of `document` the selectors match with which this
    /// provider's translations are found. A provider that answers with
    /// JSON has no selectors.
    pub open spec fn page_matches(self, document: scraper::Html) -> nat {
        match self {
            Engine::Google => match_count(document, "div.result-container"@) + match_count(
                document,
                "div.t0"@,
            ),
            Engine::Linguee { .. } => match_count(document, "a.dictLink.featured"@),
            Engine::Pons { .. } => match_count(document, "div.target"@),
            _ => 0,
        }
    }
}

/// How many elements of `document` the selector `css` matches; one that
/// cannot be read matches none.
pub open spec fn match_count(document: scraper::Html, css: Seq<char>) -> nat {
    match css_selector(css) {
        Some(selector) => html_matches(document, selector).len(),
        None => 0,
    }
}

/// A page in which a scraped provider's selectors match no element holds no
/// translation.
pub proof fn law_no_match_is_not_found(engine: Engine, body: Seq<char>)
    requires
        engine.scrapes(),
        engine.page_matches(html_document(body)) == 0,
    ensures
        engine.reading(body) == Err::<Rendering, Failure>(Failure::TranslationNotFound),
        engine.answer(200, body) == Err::<Rendering, Failure>(Failure::TranslationNotFound),
{
}

/// Where MyMemory's document holds the preferred translation, that is the
/// result, whatever the array of matches holds and whether or not all
/// matches are asked for.
pub proof fn law_mymemory_prefers_response_data(
    doc: serde_json::Value,
    return_all: bool,
    text: Seq<char>,
)
    requires
        mymemory_preferred(doc) == Some(text),
    ensures
        mymemory_reading(doc, return_all) == Ok::<Rendering, Failure>(Rendering::Text(text)),
{
}

} // verus!
