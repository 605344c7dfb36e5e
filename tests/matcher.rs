use rss_filter::feed::{parse_feed, FeedItem, ParseError};
use rss_filter::matcher::{matches_lowered, normalize_term, to_record};

fn item(title: &str, link: &str, description: &str) -> FeedItem {
    FeedItem { title: title.to_string(), link: link.to_string(), description: description.to_string() }
}

#[test]
fn title_match_ignores_case() {
    assert!(rss_filter::matcher::matches(&item("Rust 2.0 released", "http://x/1", "..."), "rust"));
}

#[test]
fn link_match() {
    assert!(rss_filter::matcher::matches(&item("News", "http://Example.org/RUST", "..."), "example.org/rust"));
}

#[test]
fn description_match() {
    assert!(rss_filter::matcher::matches(&item("News", "http://x/1", "About RUST today"), "rust today"));
}

#[test]
fn no_field_matches() {
    assert!(!rss_filter::matcher::matches(&item("Go", "http://x/1", "gophers"), "rust"));
}

#[test]
fn term_split_across_fields_does_not_match() {
    assert!(!rss_filter::matcher::matches(&item("ru", "st", ""), "rust"));
}

#[test]
fn empty_term_matches_empty_item() {
    assert!(rss_filter::matcher::matches(&item("", "", ""), ""));
}

#[test]
fn lowered_fields_are_compared_as_given() {
    assert!(matches_lowered("rust news", "", "", "rust"));
    assert!(!matches_lowered("Rust news", "", "", "rust"));
    assert!(matches_lowered("", "", "a rust b", "rust"));
}

#[test]
fn term_is_lowercased() {
    assert_eq!(normalize_term("RuSt 2.0"), "rust 2.0");
    assert_eq!(normalize_term(""), "");
}

#[test]
fn record_keeps_link_and_description() {
    let r = to_record(&item("T", "http://x/1", "summary"));
    assert_eq!(r.url, "http://x/1");
    assert_eq!(r.resume, "summary");
}

#[test]
fn parse_keeps_document_order_and_fills_missing_fields() {
    let body = "<?xml version=\"1.0\"?><rss version=\"2.0\"><channel><title>N</title>\
                <link>http://x/</link><description>D</description>\
                <item><title>First</title><link>http://x/1</link></item>\
                <item><description>only text</description></item>\
                </channel></rss>";
    let items = parse_feed(body).unwrap();
    assert_eq!(items.len(), 2);
    assert_eq!(items[0].title, "First");
    assert_eq!(items[0].link, "http://x/1");
    assert_eq!(items[0].description, "");
    assert_eq!(items[1].title, "");
    assert_eq!(items[1].link, "");
    assert_eq!(items[1].description, "only text");
}

#[test]
fn parse_rejects_malformed_document() {
    assert_eq!(parse_feed("not a feed").err(), Some(ParseError::MalformedDocument));
}
