//! The document boundary: CSS-selector queries over raw markup, answered by
//! the `scraper` crate behind trusted wrappers.
//!
//! A parsed document is a deterministic function of its markup text, and a
//! selector query of the markup and selector texts, so each query result has
//! a name here that the extraction contracts are stated over. A selector
//! string that is not valid CSS matches nothing.

use vstd::prelude::*;

verus! {

/// For each element matching the selector in the document, in document
/// order: its descendant text nodes, in order.
pub uninterp spec fn selector_matches(doc: Seq<char>, sel: Seq<char>) -> Seq<Seq<Seq<char>>>;

/// For each element matching the selector in the document, in document
/// order: the descendant text nodes of its immediately preceding sibling
/// element, or `None` where it has no preceding sibling element.
pub uninterp spec fn selector_match_labels(doc: Seq<char>, sel: Seq<char>) -> Seq<
    Option<Seq<Seq<char>>>,
>;

/// For each element matching the outer selector in the document, in document
/// order: the descendant text nodes of its first descendant matching the
/// inner selector, or `None` where it has no such descendant.
pub uninterp spec fn selector_sub_matches(
    doc: Seq<char>,
    outer: Seq<char>,
    inner: Seq<char>,
) -> Seq<Option<Seq<Seq<char>>>>;

/// Relies on scraper's `Html::parse_document`, `Selector::parse`,
/// `Html::select` and `ElementRef::text`: the descendant text nodes of each
/// element matching a CSS selector, in document order. An invalid selector
/// matches nothing.
#[verifier::external_body]
pub fn select_text_nodes(doc: &str, selector: &str) -> (r: Vec<Vec<String>>)
    ensures
        r.deep_view() == selector_matches(doc@, selector@),
{
    let html = scraper::Html::parse_document(doc);
    match scraper::Selector::parse(selector) {
        Ok(sel) => html
            .select(&sel)
            .map(|e| e.text().map(|t| t.to_string()).collect())
            .collect(),
        Err(_) => Vec::new(),
    }
}

/// Relies on scraper's `Html::parse_document`, `Selector::parse`,
/// `Html::select`, `Element::prev_sibling_element` and `ElementRef::text`:
/// for each element matching a CSS selector, in document order, the text
/// nodes of its immediately preceding sibling element. An invalid selector
/// matches nothing.
#[verifier::external_body]
pub fn select_match_labels(doc: &str, selector: &str) -> (r: Vec<Option<Vec<String>>>)
    ensures
        r.deep_view() == selector_match_labels(doc@, selector@),
        r@.len() == selector_matches(doc@, selector@).len(),
{
    let html = scraper::Html::parse_document(doc);
    match scraper::Selector::parse(selector) {
        Ok(sel) => html
            .select(&sel)
            .map(|e| {
                scraper::Element::prev_sibling_element(&e)
                    .map(|p| p.text().map(|t| t.to_string()).collect())
            })
            .collect(),
        Err(_) => Vec::new(),
    }
}

/// Relies on scraper's `Html::parse_document`, `Selector::parse`,
/// `Html::select`, `ElementRef::select` and `ElementRef::text`: for each
/// element matching the outer CSS selector, in document order, the text
/// nodes of its first descendant matching the inner selector. An invalid
/// outer selector matches nothing; an invalid inner selector matches nothing
/// within any element.
#[verifier::external_body]
pub fn select_sub_text_nodes(doc: &str, outer: &str, inner: &str) -> (r: Vec<Option<Vec<String>>>)
    ensures
        r.deep_view() == selector_sub_matches(doc@, outer@, inner@),
        r@.len() == selector_matches(doc@, outer@).len(),
{
    let html = scraper::Html::parse_document(doc);
    let outer_sel = match scraper::Selector::parse(outer) {
        Ok(sel) => sel,
        Err(_) => return Vec::new(),
    };
    match scraper::Selector::parse(inner) {
        Ok(inner_sel) => html
            .select(&outer_sel)
            .map(|e| e.select(&inner_sel).next().map(|m| m.text().map(|t| t.to_string()).collect()))
            .collect(),
        Err(_) => html.select(&outer_sel).map(|_| None).collect(),
    }
}

} // verus!
