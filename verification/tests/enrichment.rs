use assistant_core::extract::extract_content;
use assistant_core::search::{enrich_result, fast_results, get_favicon_url, search_anchors};
use assistant_core::text::{generate_summary, reading_time, word_count};

fn listing(n: usize) -> String {
    let mut page = String::from("<html><body>");
    for i in 0..n {
        page.push_str(&format!(
            "<div class=\"result\"><a class=\"result__a\" href=\"https://site{i}.example/page\">Title {i}</a></div>"
        ));
    }
    page.push_str("</body></html>");
    page
}

fn words(n: usize) -> String {
    let mut s = String::new();
    for i in 0..n {
        if i > 0 {
            s.push(' ');
        }
        s.push_str(&format!("w{i}"));
    }
    s
}

#[test]
fn reading_time_rounds_down_with_floor_one() {
    assert_eq!(reading_time(""), 1);
    assert_eq!(reading_time(&words(1)), 1);
    assert_eq!(reading_time(&words(99)), 1);
    assert_eq!(reading_time(&words(100)), 1);
    assert_eq!(reading_time(&words(199)), 1);
    assert_eq!(reading_time(&words(200)), 2);
    assert_eq!(reading_time(&words(299)), 2);
    assert_eq!(reading_time(&words(1000)), 10);
}

#[test]
fn word_count_splits_on_whitespace() {
    assert_eq!(word_count(""), 0);
    assert_eq!(word_count("one"), 1);
    assert_eq!(word_count("  spread \t over\nlines  "), 3);
}

#[test]
fn short_text_summary_is_verbatim() {
    assert_eq!(generate_summary("just a few words"), "just a few words");
    assert_eq!(generate_summary(""), "");
    let fifty = words(50);
    assert_eq!(generate_summary(&fifty), fifty);
}

#[test]
fn long_text_summary_is_first_fifty_words_with_ellipsis() {
    let sixty = words(60);
    let expected = format!("{}...", words(50));
    assert_eq!(generate_summary(&sixty), expected);
}

#[test]
fn favicon_is_derived_from_scheme_and_host() {
    assert_eq!(
        get_favicon_url("https://example.com/path"),
        Some("https://example.com/favicon.ico".to_string())
    );
}

#[test]
fn malformed_url_yields_no_favicon() {
    assert_eq!(get_favicon_url("not a url"), None);
    assert_eq!(get_favicon_url("/relative/only"), None);
}

#[test]
fn fast_mode_is_bounded_and_in_document_order() {
    let page = listing(5);
    let results = fast_results(&page, 3);
    assert_eq!(results.len(), 3);
    for (i, r) in results.iter().enumerate() {
        assert_eq!(r.url, format!("https://site{i}.example/page"));
        assert_eq!(r.title, format!("Title {i}"));
        assert_eq!(r.summary, "");
        assert_eq!(r.reading_time, 0);
        assert_eq!(r.favicon_url, None);
        assert!(!r.is_paywall);
    }
}

#[test]
fn fast_mode_takes_all_anchors_when_fewer_than_the_bound() {
    let page = listing(2);
    let results = fast_results(&page, 10);
    assert_eq!(results.len(), 2);
}

#[test]
fn anchors_without_href_contribute_nothing() {
    let page = "<html><body>\
        <div class=\"result\"><a class=\"result__a\" href=\"https://kept.example/\">Kept</a></div>\
        <div class=\"result\"><a class=\"result__a\">No href</a></div>\
        <div class=\"result\"><p>No anchor at all</p></div>\
        </body></html>";
    let anchors = search_anchors(page, 10);
    assert_eq!(anchors.len(), 1);
    assert_eq!(anchors[0].0, "https://kept.example/");
    assert_eq!(anchors[0].1, "Kept");
}

#[test]
fn article_container_takes_precedence_over_the_body() {
    let page = "<html><body><p>around</p><article>the article text</article></body></html>";
    let content = extract_content(page).expect("article page yields content");
    assert_eq!(content, "the article text");
}

#[test]
fn extraction_falls_back_to_the_body_text() {
    let page = "<html><body>plain body text</body></html>";
    let content = extract_content(page).expect("body fallback yields content");
    assert_eq!(content, "plain body text");
}

#[test]
fn paywalled_page_yields_no_content() {
    let page = "<html><body><div class=\"paywall\">subscribe</div>\
        <article>hidden article</article></body></html>";
    assert_eq!(extract_content(page), None);
}

#[test]
fn paywalled_result_is_omitted_entirely() {
    let open_page = "<html><body><article>free words here</article></body></html>";
    let walled_page = "<html><body><div class=\"subscribe-wall\">pay</div>\
        <article>gated words</article></body></html>";
    let mut enriched = Vec::new();
    for (url, page) in [
        ("https://open.example/a", open_page),
        ("https://walled.example/b", walled_page),
    ] {
        if let Some(r) = enrich_result(url, "t", page) {
            enriched.push(r);
        }
    }
    assert_eq!(enriched.len(), 1);
    assert_eq!(enriched[0].url, "https://open.example/a");
}

#[test]
fn enriched_result_is_fully_annotated() {
    let body = words(120);
    let page = format!("<html><body><article>{body}</article></body></html>");
    let r = enrich_result("https://news.example/story", "A Story", &page)
        .expect("open page yields a record");
    assert_eq!(r.url, "https://news.example/story");
    assert_eq!(r.title, "A Story");
    assert_eq!(r.summary, format!("{}...", words(50)));
    assert_eq!(r.reading_time, 1);
    assert_eq!(r.favicon_url, Some("https://news.example/favicon.ico".to_string()));
    assert!(!r.is_paywall);
}
