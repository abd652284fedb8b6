//! The search pipeline: from a provider's result-listing page to annotated
//! search results.
//!
//! The listing's result anchors are parsed in document order behind a
//! trusted wrapper. Fast mode turns each anchor into a minimally populated
//! result with only its URL and title. Enriched mode takes the fetched body
//! of a result page and builds the full record: extracted article text
//! summarized, reading time, favicon, paywall handling — a paywalled page
//! yields no record at all. Fetching itself is network work and stays with
//! the caller, which hands each fetched body in as plain text.

use vstd::prelude::*;
use vstd::string::StringExecFns;
use crate::extract::{extract_content, extracted_content, paywalled};
use crate::text::{generate_summary, reading_time, reading_time_spec, summary_spec, words_of};

verus! {

/// One annotated search result. In fast mode only `url` and `title` are
/// populated; the other fields are zero-valued placeholders.
pub struct SearchResult {
    pub url: String,
    pub title: String,
    pub summary: String,
    pub reading_time: u32,
    pub favicon_url: Option<String>,
    pub is_paywall: bool,
}

pub ghost struct SearchResultView {
    pub url: Seq<char>,
    pub title: Seq<char>,
    pub summary: Seq<char>,
    pub reading_time: u32,
    pub favicon_url: Option<Seq<char>>,
    pub is_paywall: bool,
}

impl View for SearchResult {
    type V = SearchResultView;

    open spec fn view(&self) -> SearchResultView {
        SearchResultView {
            url: self.url@,
            title: self.title@,
            summary: self.summary@,
            reading_time: self.reading_time,
            favicon_url: match self.favicon_url {
                Some(f) => Some(f@),
                None => None,
            },
            is_paywall: self.is_paywall,
        }
    }
}

impl Clone for SearchResult {
    fn clone(&self) -> (r: Self)
        ensures
            r@ == self@,
    {
        SearchResult {
            url: self.url.clone(),
            title: self.title.clone(),
            summary: self.summary.clone(),
            reading_time: self.reading_time,
            favicon_url: match &self.favicon_url {
                Some(f) => Some(f.clone()),
                None => None,
            },
            is_paywall: self.is_paywall,
        }
    }
}

/// A search request: the query text and the bound on how many results to
/// produce, which must be at least one.
pub struct SearchRequest {
    pub query: String,
    pub max_results: usize,
}

impl SearchRequest {
    pub open spec fn valid(self) -> bool {
        self.max_results >= 1
    }
}

/// The result anchors of a listing page, in document order: each `.result`
/// container's first `.result__a` anchor, as its href and its text.
pub uninterp spec fn anchors_of(page: Seq<char>) -> Seq<(Seq<char>, Seq<char>)>;

/// Relies on scraper::Html::parse_document, Selector::parse, ElementRef::attr
/// and ElementRef::text: the `.result` containers of the page in document
/// order, each contributing its first `.result__a` anchor's href attribute
/// and text; containers without such an anchor, or whose anchor has no href,
/// contribute nothing. The anchors depend on the page text alone.
#[verifier::external_body]
fn parse_anchors(page: &str) -> (r: Vec<(String, String)>)
    ensures
        r.deep_view() == anchors_of(page@),
{
    let document = scraper::Html::parse_document(page);
    let mut out = Vec::new();
    if let (Ok(rs), Ok(ls)) = (
        scraper::Selector::parse(".result"),
        scraper::Selector::parse(".result__a"),
    ) {
        for container in document.select(&rs) {
            if let Some(link) = container.select(&ls).next() {
                if let Some(url) = link.value().attr("href") {
                    out.push((url.to_string(), link.text().collect::<String>()));
                }
            }
        }
    }
    out
}

/// The first `max_results` anchors of the page, or all of them if the page
/// holds fewer.
pub open spec fn bounded_anchors(page: Seq<char>, max_results: int) -> Seq<
    (Seq<char>, Seq<char>),
> {
    let a = anchors_of(page);
    if a.len() <= max_results {
        a
    } else {
        a.take(max_results)
    }
}

/// Parse the result anchors of a listing page, in document order, keeping at
/// most `max_results` of them.
pub fn search_anchors(page: &str, max_results: usize) -> (r: Vec<(String, String)>)
    ensures
        r.deep_view() == bounded_anchors(page@, max_results as int),
{
    let mut anchors = parse_anchors(page);
    if anchors.len() > max_results {
        let ghost before = anchors@;
        anchors.truncate(max_results);
        proof {
            assert(anchors.deep_view() =~= before.subrange(
                0,
                max_results as int,
            ).map_values(|p: (String, String)| (p.0@, p.1@)));
            assert(anchors.deep_view() =~= bounded_anchors(page@, max_results as int));
        }
    }
    anchors
}

/// The minimally populated result fast mode emits for an anchor: its URL and
/// title, every other field zero-valued.
pub open spec fn placeholder_view(a: (Seq<char>, Seq<char>)) -> SearchResultView {
    SearchResultView {
        url: a.0,
        title: a.1,
        summary: Seq::empty(),
        reading_time: 0,
        favicon_url: None,
        is_paywall: false,
    }
}

/// Turn parsed anchors into fast-mode results, one per anchor, in order.
pub fn placeholder_results(anchors: Vec<(String, String)>) -> (r: Vec<SearchResult>)
    ensures
        r@.len() == anchors@.len(),
        forall|i: int|
            0 <= i < r@.len() ==> (#[trigger] r@[i])@ == placeholder_view(anchors.deep_view()[i]),
{
    let mut r: Vec<SearchResult> = Vec::new();
    let mut i: usize = 0;
    while i < anchors.len()
        invariant
            0 <= i <= anchors@.len(),
            r@.len() == i,
            forall|j: int|
                0 <= j < i ==> (#[trigger] r@[j])@ == placeholder_view(anchors.deep_view()[j]),
        decreases anchors@.len() - i,
    {
        let url = anchors[i].0.clone();
        let title = anchors[i].1.clone();
        r.push(
            SearchResult {
                url,
                title,
                summary: String::new(),
                reading_time: 0,
                favicon_url: None,
                is_paywall: false,
            },
        );
        i = i + 1;
    }
    r
}

/// Fast mode: the first `max_results` anchors of the listing page, each as a
/// minimally populated result, in document order. No result page is fetched.
pub fn fast_results(page: &str, max_results: usize) -> (r: Vec<SearchResult>)
    ensures
        r@.len() == bounded_anchors(page@, max_results as int).len(),
        forall|i: int|
            0 <= i < r@.len() ==> (#[trigger] r@[i])@ == placeholder_view(
                bounded_anchors(page@, max_results as int)[i],
            ),
{
    placeholder_results(search_anchors(page, max_results))
}

/// The scheme and host of a URL, when it parses as an absolute URL; the
/// host is empty for URLs that have none.
pub uninterp spec fn url_parts(url: Seq<char>) -> Option<(Seq<char>, Seq<char>)>;

/// Relies on url::Url::parse, Url::scheme and Url::host_str: whether the
/// text parses as an absolute URL, and its scheme and host (empty when it
/// has no host) when it does; all depend on the text alone.
#[verifier::external_body]
fn parse_url_parts(url: &str) -> (r: Option<(String, String)>)
    ensures
        r matches Some(p) ==> url_parts(url@) == Some((p.0@, p.1@)),
        r is None ==> url_parts(url@) is None,
{
    match url::Url::parse(url) {
        Ok(u) => {
            let host = u.host_str().unwrap_or_default().to_string();
            Some((u.scheme().to_string(), host))
        },
        Err(_) => None,
    }
}

/// The favicon location derived from a scheme and host.
pub open spec fn favicon_text(scheme: Seq<char>, host: Seq<char>) -> Seq<char> {
    scheme + "://"@ + host + "/favicon.ico"@
}

/// The favicon a result URL yields: derived from its scheme and host, or
/// nothing when the URL does not parse.
pub open spec fn favicon_view(url: Seq<char>) -> Option<Seq<char>> {
    match url_parts(url) {
        Some(p) => Some(favicon_text(p.0, p.1)),
        None => None,
    }
}

/// Derive `{scheme}://{host}/favicon.ico` from a result URL; a URL that
/// fails to parse yields no favicon.
pub fn get_favicon_url(url: &str) -> (r: Option<String>)
    ensures
        r is Some <==> url_parts(url@) is Some,
        r matches Some(f) ==> favicon_view(url@) == Some(f@),
{
    match parse_url_parts(url) {
        Some((scheme, host)) => {
            let mut s = scheme;
            s.append("://");
            s.append(host.as_str());
            s.append("/favicon.ico");
            Some(s)
        },
        None => None,
    }
}

/// The fully annotated record enriched mode builds for a result whose page
/// yielded the given article text.
pub open spec fn enriched_view(url: Seq<char>, title: Seq<char>, content: Seq<char>) -> SearchResultView {
    SearchResultView {
        url,
        title,
        summary: summary_spec(words_of(content)),
        reading_time: reading_time_spec(words_of(content).len()) as u32,
        favicon_url: favicon_view(url),
        is_paywall: false,
    }
}

/// Enriched mode, per result: given an anchor's URL and title and the
/// fetched body of its page, build the full record — or nothing at all when
/// the page looks paywalled, so that the result is omitted entirely.
pub fn enrich_result(url: &str, title: &str, page: &str) -> (r: Option<SearchResult>)
    ensures
        r is Some <==> !paywalled(page@),
        r matches Some(res) ==> (extracted_content(page@) matches Some(c) && res@
            == enriched_view(url@, title@, c)),
{
    match extract_content(page) {
        None => None,
        Some(content) => {
            let summary = generate_summary(content.as_str());
            let minutes = reading_time(content.as_str());
            let favicon_url = get_favicon_url(url);
            proof {
                assert(reading_time_spec(words_of(content@).len()) <= u32::MAX);
            }
            Some(
                SearchResult {
                    url: String::from_str(url),
                    title: String::from_str(title),
                    summary,
                    reading_time: minutes,
                    favicon_url,
                    is_paywall: false,
                },
            )
        },
    }
}

} // verus!
