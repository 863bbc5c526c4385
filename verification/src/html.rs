//! HTML documents and CSS selectors, as `scraper` reads and matches them.
//!
//! Nothing in this file is proved: it states what the crate relies on when
//! it hands a page to `scraper`. A page is known here only through the
//! elements that a selector matches and the text that an element holds.

use vstd::prelude::*;

verus! {

/// `scraper::Html`, a parsed page; nothing of its inside is known here.
#[verifier::external_type_specification]
#[verifier::external_body]
pub struct ExHtml(scraper::Html);

/// `scraper::Selector`, a parsed group of CSS selectors.
#[verifier::external_type_specification]
#[verifier::external_body]
pub struct ExSelector(scraper::Selector);

/// `scraper::ElementRef`, one element of a parsed page.
#[verifier::external_type_specification]
#[verifier::external_body]
pub struct ExElementRef<'a>(scraper::ElementRef<'a>);

/// The tree that `scraper::Html::parse_document` builds from `page`.
pub uninterp spec fn html_document(page: Seq<char>) -> scraper::Html;

/// The selector that `scraper::Selector::parse` reads from `css`, or `None`
/// where it reports an error.
pub uninterp spec fn css_selector(css: Seq<char>) -> Option<scraper::Selector>;

/// The elements that `scraper::Html::select` yields for `selector`, in the
/// order in which it yields them.
pub uninterp spec fn html_matches(document: scraper::Html, selector: scraper::Selector) -> Seq<
    scraper::ElementRef<'static>,
>;

/// The elements below `element` that `scraper::ElementRef::select` yields
/// for `selector`, in the order in which it yields them.
pub uninterp spec fn element_matches(
    element: scraper::ElementRef<'_>,
    selector: scraper::Selector,
) -> Seq<scraper::ElementRef<'static>>;

/// The text nodes below `element`, joined in the order in which
/// `scraper::ElementRef::text` yields them.
pub uninterp spec fn element_text(element: scraper::ElementRef<'_>) -> Seq<char>;

/// Calls `scraper::Html::parse_document`, which reads any text as a page
/// and never fails. The tree depends on the text alone, so it has a name:
/// [`html_document`].
#[verifier::external_body]
pub(crate) fn parse_html(page: &str) -> (r: scraper::Html)
    ensures
        r == html_document(page@),
{
    scraper::Html::parse_document(page)
}

/// Calls `scraper::Selector::parse`; the error it may report is dropped.
#[verifier::external_body]
pub(crate) fn parse_selector(css: &str) -> (r: Option<scraper::Selector>)
    ensures
        r == css_selector(css@),
{
    scraper::Selector::parse(css).ok()
}

/// Calls `scraper::Html::select` and collects what it yields.
#[verifier::external_body]
pub(crate) fn select<'a>(document: &'a scraper::Html, selector: &scraper::Selector) -> (r: Vec<
    scraper::ElementRef<'a>,
>)
    ensures
        r@ == html_matches(*document, *selector),
{
    document.select(selector).collect()
}

/// Calls `scraper::ElementRef::select` and collects what it yields.
#[verifier::external_body]
pub(crate) fn select_within<'a>(
    element: &scraper::ElementRef<'a>,
    selector: &scraper::Selector,
) -> (r: Vec<scraper::ElementRef<'a>>)
    ensures
        r@ == element_matches(*element, *selector),
{
    element.select(selector).collect()
}

/// Calls `scraper::ElementRef::text` and joins what it yields.
#[verifier::external_body]
pub(crate) fn text_of(element: &scraper::ElementRef<'_>) -> (r: String)
    ensures
        r@ == element_text(*element),
{
    element.text().collect()
}

} // verus!
