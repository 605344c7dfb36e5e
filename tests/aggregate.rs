use rss_filter::aggregate::{budget_spent_after, remaining_after, Aggregator, FetchError};
use rss_filter::feed::MatchRecord;

fn feed(items: &[(&str, &str, &str)]) -> String {
    let mut body = String::from(
        "<?xml version=\"1.0\"?><rss version=\"2.0\"><channel><title>News</title>\
         <link>http://x/</link><description>All the news</description>",
    );
    for (title, link, description) in items {
        body.push_str(&format!(
            "<item><title>{}</title><link>{}</link><description>{}</description></item>",
            title, link, description
        ));
    }
    body.push_str("</channel></rss>");
    body
}

fn run(term: &str, timeout: u64, outcomes: Vec<Result<String, FetchError>>) -> Vec<MatchRecord> {
    let mut agg = Aggregator::new(term, timeout);
    for outcome in outcomes {
        if !agg.begin_source() {
            break;
        }
        agg.accept(outcome);
    }
    agg.finish()
}

fn pairs(records: &[MatchRecord]) -> Vec<(String, String)> {
    records.iter().map(|r| (r.url.clone(), r.resume.clone())).collect()
}

#[test]
fn no_sources_gives_empty_result() {
    let records = run("rust", 10, vec![]);
    assert!(records.is_empty());
}

#[test]
fn matching_title_gives_its_record() {
    let body = feed(&[("Rust 2.0 released", "http://x/1", "...")]);
    let records = run("rust", 10, vec![Ok(body)]);
    assert_eq!(pairs(&records), vec![("http://x/1".to_string(), "...".to_string())]);
}

#[test]
fn feed_without_matches_gives_empty_result() {
    let body = feed(&[("Rust 2.0 released", "http://x/1", "..."), ("Go news", "http://x/2", "gophers")]);
    let records = run("zzz-nomatch", 10, vec![Ok(body)]);
    assert!(records.is_empty());
}

#[test]
fn zero_budget_processes_no_source() {
    let a = feed(&[("Rust 2.0 released", "http://x/1", "...")]);
    let b = feed(&[("More rust", "http://y/1", "again")]);
    let mut agg = Aggregator::new("rust", 0);
    assert!(!agg.begin_source());
    agg.accept(Ok(a));
    agg.accept(Ok(b));
    assert!(agg.finish().is_empty());
}

#[test]
fn zero_budget_through_driver_loop() {
    let a = feed(&[("Rust 2.0 released", "http://x/1", "...")]);
    let b = feed(&[("More rust", "http://y/1", "again")]);
    assert!(run("rust", 0, vec![Ok(a), Ok(b)]).is_empty());
}

#[test]
fn empty_term_keeps_every_item() {
    let a = feed(&[("One", "http://a/1", "first"), ("Two", "http://a/2", "second")]);
    let b = feed(&[("Three", "http://b/3", "third")]);
    let records = run("", 10, vec![Ok(a), Ok(b)]);
    assert_eq!(
        pairs(&records),
        vec![
            ("http://a/1".to_string(), "first".to_string()),
            ("http://a/2".to_string(), "second".to_string()),
            ("http://b/3".to_string(), "third".to_string()),
        ]
    );
}

#[test]
fn same_responses_give_same_results() {
    let a = feed(&[("Rust one", "http://a/1", "x"), ("Other", "http://a/2", "rusty")]);
    let b = feed(&[("Nothing", "http://b/1", "y"), ("RUST two", "http://b/2", "z")]);
    let first = run("rust", 10, vec![Ok(a.clone()), Ok(b.clone())]);
    let second = run("rust", 10, vec![Ok(a), Ok(b)]);
    assert_eq!(pairs(&first), pairs(&second));
    assert_eq!(first.len(), 3);
}

#[test]
fn failed_source_is_skipped() {
    let a = feed(&[("Rust one", "http://a/1", "x")]);
    let b = feed(&[("Rust two", "http://b/2", "y"), ("Other", "http://b/3", "z")]);
    let records = run(
        "rust",
        10,
        vec![Ok(a), Err(FetchError::Unreachable), Err(FetchError::BadStatus), Ok(b), Err(FetchError::Timeout)],
    );
    assert_eq!(
        pairs(&records),
        vec![("http://a/1".to_string(), "x".to_string()), ("http://b/2".to_string(), "y".to_string())]
    );
}

#[test]
fn every_source_failing_gives_empty_result() {
    let records = run("rust", 10, vec![Err(FetchError::Unreachable), Err(FetchError::Timeout)]);
    assert!(records.is_empty());
}

#[test]
fn malformed_document_is_skipped() {
    let b = feed(&[("Rust two", "http://b/2", "y")]);
    let records = run("rust", 10, vec![Ok("this is not a feed".to_string()), Ok(b)]);
    assert_eq!(pairs(&records), vec![("http://b/2".to_string(), "y".to_string())]);
}

#[test]
fn query_term_is_matched_case_insensitively() {
    let a = feed(&[("rust news", "http://a/1", "x"), ("Other", "http://a/2", "y")]);
    let records = run("RuSt", 10, vec![Ok(a)]);
    assert_eq!(pairs(&records), vec![("http://a/1".to_string(), "x".to_string())]);
}

#[test]
fn duplicate_links_are_kept() {
    let a = feed(&[("Rust", "http://same/1", "x")]);
    let b = feed(&[("Rust", "http://same/1", "x")]);
    let records = run("rust", 10, vec![Ok(a), Ok(b)]);
    assert_eq!(records.len(), 2);
}

#[test]
fn remaining_budget_is_bounded_by_timeout() {
    let agg = Aggregator::new("rust", 5);
    let left = agg.remaining_secs();
    assert!(left <= 5 && left >= 4);
    assert_eq!(Aggregator::new("rust", 0).remaining_secs(), 0);
}

#[test]
fn budget_spent_exactly_at_the_timeout() {
    assert!(!budget_spent_after(0, 10));
    assert!(!budget_spent_after(9, 10));
    assert!(budget_spent_after(10, 10));
    assert!(budget_spent_after(11, 10));
    assert!(budget_spent_after(0, 0));
}

#[test]
fn remaining_seconds_of_the_budget() {
    assert_eq!(remaining_after(0, 10), 10);
    assert_eq!(remaining_after(3, 10), 7);
    assert_eq!(remaining_after(10, 10), 0);
    assert_eq!(remaining_after(25, 10), 0);
    assert_eq!(remaining_after(0, u64::MAX), u64::MAX);
}

#[test]
fn failed_malformed_or_empty_source_does_not_end_the_query() {
    let mut agg = Aggregator::new("rust", 10);
    assert!(agg.begin_source());
    agg.accept(Err(FetchError::Unreachable));
    assert!(agg.begin_source());
    agg.accept(Ok("not a feed".to_string()));
    assert!(agg.begin_source());
    agg.accept(Ok(feed(&[])));
    assert!(agg.begin_source());
    agg.accept(Ok(feed(&[("Rust", "http://z/1", "found")])));
    assert_eq!(pairs(&agg.finish()), vec![("http://z/1".to_string(), "found".to_string())]);
}
