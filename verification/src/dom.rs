//! Reading a rendered page through the HTML-parsing collaborator.
//!
//! Every function here re-parses the given markup and evaluates CSS selectors
//! over it; parsing and selector matching are deterministic, so each result is
//! named as a function of the markup and the selectors alone. The names are
//! uninterpreted: nothing is assumed of them beyond what the wrappers state.

use vstd::prelude::*;

verus! {

/// How many elements of the document the selector matches.
pub uninterp spec fn match_count_at(markup: Seq<char>, css: Seq<char>) -> nat;

/// The class attribute of the `i`-th element matching `css`; `None` when there
/// is no such element or it has no class attribute.
pub uninterp spec fn class_at(markup: Seq<char>, css: Seq<char>, i: nat) -> Option<Seq<char>>;

/// The text of the first element matching `inner` inside the `i`-th element
/// matching `outer`, its text nodes joined by single spaces; `None` when
/// either element is missing.
pub uninterp spec fn joined_text_at(
    markup: Seq<char>,
    outer: Seq<char>,
    i: nat,
    inner: Seq<char>,
) -> Option<Seq<char>>;

/// The text of the `j`-th element matching `inner` inside the `i`-th element
/// matching `outer`, its text nodes concatenated; `None` when either element
/// is missing.
pub uninterp spec fn concat_text_at(
    markup: Seq<char>,
    outer: Seq<char>,
    i: nat,
    inner: Seq<char>,
    j: nat,
) -> Option<Seq<char>>;

/// The `attr` attribute of the first element matching `inner` inside the
/// `i`-th element matching `outer`; `None` when the element or the attribute
/// is missing.
pub uninterp spec fn attr_at(
    markup: Seq<char>,
    outer: Seq<char>,
    i: nat,
    inner: Seq<char>,
    attr: Seq<char>,
) -> Option<Seq<char>>;

/// Relies on scraper's `Html::parse_document`, `Selector::parse` and
/// `Html::select`: the number of elements the selector matches, 0 when the
/// selector text is invalid.
#[verifier::external_body]
pub fn match_count(markup: &str, css: &str) -> (n: usize)
    ensures
        n == match_count_at(markup@, css@),
{
    let doc = scraper::Html::parse_document(markup);
    match scraper::Selector::parse(css) {
        Ok(sel) => doc.select(&sel).count(),
        Err(_) => 0,
    }
}

/// Relies on scraper's `Html::parse_document`, `Selector::parse`,
/// `Html::select` and `ElementRef::attr`: the class attribute of the `i`-th
/// matching element.
#[verifier::external_body]
pub fn element_class(markup: &str, css: &str, i: usize) -> (r: Option<String>)
    ensures
        r.deep_view() == class_at(markup@, css@, i as nat),
{
    let doc = scraper::Html::parse_document(markup);
    let sel = scraper::Selector::parse(css).ok()?;
    let el = doc.select(&sel).nth(i)?;
    el.attr("class").map(|s| s.to_string())
}

/// Relies on scraper's `Html::parse_document`, `Selector::parse`,
/// `Html::select`, `ElementRef::select` and `ElementRef::text`: the
/// space-joined text of the first `inner` element inside the `i`-th `outer`
/// element.
#[verifier::external_body]
pub fn sub_text_joined(markup: &str, outer: &str, i: usize, inner: &str) -> (r: Option<String>)
    ensures
        r.deep_view() == joined_text_at(markup@, outer@, i as nat, inner@),
{
    let doc = scraper::Html::parse_document(markup);
    let osel = scraper::Selector::parse(outer).ok()?;
    let isel = scraper::Selector::parse(inner).ok()?;
    let row = doc.select(&osel).nth(i)?;
    let el = row.select(&isel).next()?;
    Some(el.text().collect::<Vec<_>>().join(" "))
}

/// Relies on scraper's `Html::parse_document`, `Selector::parse`,
/// `Html::select`, `ElementRef::select` and `ElementRef::text`: the
/// concatenated text of the `j`-th `inner` element inside the `i`-th `outer`
/// element.
#[verifier::external_body]
pub fn sub_text_concat(markup: &str, outer: &str, i: usize, inner: &str, j: usize) -> (r: Option<
    String,
>)
    ensures
        r.deep_view() == concat_text_at(markup@, outer@, i as nat, inner@, j as nat),
{
    let doc = scraper::Html::parse_document(markup);
    let osel = scraper::Selector::parse(outer).ok()?;
    let isel = scraper::Selector::parse(inner).ok()?;
    let row = doc.select(&osel).nth(i)?;
    let el = row.select(&isel).nth(j)?;
    Some(el.text().collect::<String>())
}

/// Relies on scraper's `Html::parse_document`, `Selector::parse`,
/// `Html::select`, `ElementRef::select` and `ElementRef::attr`: the given
/// attribute of the first `inner` element inside the `i`-th `outer` element.
#[verifier::external_body]
pub fn sub_attr(markup: &str, outer: &str, i: usize, inner: &str, attr: &str) -> (r: Option<
    String,
>)
    ensures
        r.deep_view() == attr_at(markup@, outer@, i as nat, inner@, attr@),
{
    let doc = scraper::Html::parse_document(markup);
    let osel = scraper::Selector::parse(outer).ok()?;
    let isel = scraper::Selector::parse(inner).ok()?;
    let row = doc.select(&osel).nth(i)?;
    let el = row.select(&isel).next()?;
    el.attr(attr).map(|s| s.to_string())
}

} // verus!
