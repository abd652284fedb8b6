//! Best-effort article extraction from a fetched page body.
//!
//! A fixed ordered list of structural selectors detects subscription walls;
//! a paywalled page yields no content. Otherwise a fixed ordered list of
//! likely article containers is tried in order and the text of the first
//! match is returned, tokens joined by single spaces, falling back to the
//! body element (or the whole document) when none matches. A selector that
//! fails to compile is treated as matching nothing.

use vstd::prelude::*;

verus! {

/// The text of the first element of the page that the selector matches:
/// its text tokens joined by single spaces, or nothing when the selector
/// does not compile or matches no element.
pub uninterp spec fn first_sel_text(page: Seq<char>, sel: Seq<char>) -> Option<Seq<char>>;

/// Relies on scraper::Html::parse_document, Selector::parse and
/// ElementRef::text: the text items of the first element matching the
/// selector, joined by single spaces; the result depends on the page and
/// selector text alone, and a selector that does not compile selects
/// nothing.
#[verifier::external_body]
fn select_text(page: &str, sel: &str) -> (r: Option<String>)
    ensures
        r matches Some(t) ==> first_sel_text(page@, sel@) == Some(t@),
        r is None ==> first_sel_text(page@, sel@) is None,
{
    let document = scraper::Html::parse_document(page);
    match scraper::Selector::parse(sel) {
        Ok(s) => document.select(&s).next().map(
            |e| e.text().collect::<Vec<_>>().join(" "),
        ),
        Err(_) => None,
    }
}

/// Whether any of the fixed paywall selectors matches the page.
pub open spec fn paywalled(page: Seq<char>) -> bool {
    ||| first_sel_text(page, ".paywall"@) is Some
    ||| first_sel_text(page, "#paywall"@) is Some
    ||| first_sel_text(page, ".subscribe-wall"@) is Some
    ||| first_sel_text(page, ".subscription-required"@) is Some
    ||| first_sel_text(page, ".paid-content"@) is Some
}

/// The text of the first matching article container, tried in the fixed
/// order, or nothing when none matches.
pub open spec fn article_text(page: Seq<char>) -> Option<Seq<char>> {
    if first_sel_text(page, "article"@) is Some {
        first_sel_text(page, "article"@)
    } else if first_sel_text(page, ".article-content"@) is Some {
        first_sel_text(page, ".article-content"@)
    } else if first_sel_text(page, ".post-content"@) is Some {
        first_sel_text(page, ".post-content"@)
    } else if first_sel_text(page, "main"@) is Some {
        first_sel_text(page, "main"@)
    } else if first_sel_text(page, "[role='main']"@) is Some {
        first_sel_text(page, "[role='main']"@)
    } else {
        first_sel_text(page, ".content"@)
    }
}

/// The fallback when no article container matches: the text of the body
/// element, of the whole document if there is no body, or empty.
pub open spec fn fallback_text(page: Seq<char>) -> Seq<char> {
    match first_sel_text(page, "body"@) {
        Some(t) => t,
        None => match first_sel_text(page, "html"@) {
            Some(t) => t,
            None => Seq::empty(),
        },
    }
}

/// What extraction yields for a page: nothing when it is paywalled, else
/// the first matching article container's text, else the fallback.
pub open spec fn extracted_content(page: Seq<char>) -> Option<Seq<char>> {
    if paywalled(page) {
        None
    } else {
        match article_text(page) {
            Some(t) => Some(t),
            None => Some(fallback_text(page)),
        }
    }
}

/// Extract best-effort article text from a fetched page body, or nothing
/// when the page looks paywalled.
pub fn extract_content(page: &str) -> (r: Option<String>)
    ensures
        r is Some <==> !paywalled(page@),
        r matches Some(t) ==> extracted_content(page@) == Some(t@),
{
    if select_text(page, ".paywall").is_some() || select_text(page, "#paywall").is_some()
        || select_text(page, ".subscribe-wall").is_some() || select_text(
        page,
        ".subscription-required",
    ).is_some() || select_text(page, ".paid-content").is_some() {
        return None;
    }
    if let Some(t) = select_text(page, "article") {
        return Some(t);
    }
    if let Some(t) = select_text(page, ".article-content") {
        return Some(t);
    }
    if let Some(t) = select_text(page, ".post-content") {
        return Some(t);
    }
    if let Some(t) = select_text(page, "main") {
        return Some(t);
    }
    if let Some(t) = select_text(page, "[role='main']") {
        return Some(t);
    }
    if let Some(t) = select_text(page, ".content") {
        return Some(t);
    }
    match select_text(page, "body") {
        Some(t) => Some(t),
        None => match select_text(page, "html") {
            Some(t) => Some(t),
            None => Some(String::new()),
        },
    }
}

} // verus!
