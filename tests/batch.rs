use halreslib::extract::extract_title_and_content;
use halreslib::pipeline::{
    apply_extracted, apply_outcome, batch_urls, finish_batch, prepare_batch, status_is_success, FetchOutcome,
};
use halreslib::resource::Resource;

const PAGE: &str = "<html><head><title>Hi</title><meta name=\"description\" content=\"desc\"></head></html>";

fn page(status: u16, body: &str) -> FetchOutcome {
    FetchOutcome::Received { status, body: body.to_string() }
}

#[test]
fn extracts_title_and_description() {
    let (t, d) = extract_title_and_content(PAGE);
    assert_eq!(t, Some("Hi".to_string()));
    assert_eq!(d, Some("desc".to_string()));
}

#[test]
fn extraction_of_plain_text_finds_nothing() {
    let (t, d) = extract_title_and_content("just some text");
    assert_eq!(t, None);
    assert_eq!(d, None);
}

#[test]
fn extraction_takes_first_title() {
    let (t, _) = extract_title_and_content("<title>One</title><title>Two</title>");
    assert_eq!(t, Some("One".to_string()));
}

#[test]
fn success_statuses() {
    assert!(status_is_success(200));
    assert!(status_is_success(299));
    assert!(!status_is_success(199));
    assert!(!status_is_success(300));
    assert!(!status_is_success(404));
}

#[test]
fn unreachable_marks_dead_with_sentinels() {
    let mut r = Resource::default();
    apply_outcome(&mut r, &FetchOutcome::Unreachable);
    assert_eq!(r.live_status, "0");
    assert_eq!(r.title, "-");
    assert_eq!(r.auto_descr, "-");
}

#[test]
fn unreadable_body_marks_dead() {
    let mut r = Resource::default();
    apply_outcome(&mut r, &FetchOutcome::Unreadable);
    assert_eq!(r.live_status, "0");
    assert_eq!(r.title, "-");
}

#[test]
fn error_status_marks_dead_without_enrichment() {
    let mut r = Resource::default();
    apply_outcome(&mut r, &page(404, PAGE));
    assert_eq!(r.live_status, "0");
    assert_eq!(r.title, "-");
    assert_eq!(r.auto_descr, "-");
}

#[test]
fn page_enriches_record() {
    let mut r = Resource::default();
    apply_outcome(&mut r, &page(200, PAGE));
    assert_eq!(r.title, "Hi");
    assert_eq!(r.auto_descr, "desc");
    assert_eq!(r.live_status, "1");
}

#[test]
fn page_without_title_keeps_sentinels_and_stays_live() {
    let mut r = Resource::default();
    apply_outcome(&mut r, &page(200, "<html><body>x</body></html>"));
    assert_eq!(r.title, "-");
    assert_eq!(r.auto_descr, "-");
    assert_eq!(r.live_status, "1");
}

#[test]
fn batch_size_independent_of_failures() {
    let input: Vec<Option<String>> = vec![
        Some("t\thttps://example.com/1".to_string()),
        Some("t\thttps://example.com/2".to_string()),
        Some("t\thttps://example.com/3".to_string()),
        Some("junk".to_string()),
    ];
    let mut records = prepare_batch(&input);
    assert_eq!(records.len(), 3);
    let outcomes = vec![FetchOutcome::Unreachable, FetchOutcome::Unreadable, page(500, "")];
    finish_batch(&mut records, &outcomes);
    assert_eq!(records.len(), 3);
    assert!(records.iter().all(|r| r.live_status == "0"));
}

#[test]
fn batch_urls_follow_records() {
    let input: Vec<Option<String>> = vec![
        Some("t\thttps://example.com/1".to_string()),
        Some("t\thttps://example.com/2".to_string()),
    ];
    let records = prepare_batch(&input);
    assert_eq!(
        batch_urls(&records),
        vec!["https://example.com/1".to_string(), "https://example.com/2".to_string()]
    );
    assert_eq!(records[0].crea_time, records[0].modi_time);
}

#[test]
fn end_to_end_scenario() {
    let text = "2024-01-01\thttps://example.com/a\n2024-01-01\thttps://example.com/b\nbadline\n";
    let input: Vec<Option<String>> = text.lines().map(|l| Some(l.to_string())).collect();
    let mut records = prepare_batch(&input);
    let outcomes: Vec<FetchOutcome> = batch_urls(&records)
        .iter()
        .map(|u| {
            if u.ends_with("/a") {
                page(200, "<html><head><title>A</title></head></html>")
            } else {
                FetchOutcome::Unreachable
            }
        })
        .collect();
    finish_batch(&mut records, &outcomes);
    assert_eq!(records.len(), 2);
    assert_eq!(records[0].url, "https://example.com/a");
    assert_eq!(records[0].live_status, "1");
    assert_eq!(records[0].title, "A");
    assert_eq!(records[1].url, "https://example.com/b");
    assert_eq!(records[1].live_status, "0");
    assert_eq!(records[1].title, "-");
}

#[test]
fn extracted_values_are_stored() {
    let mut r = Resource::default();
    apply_extracted(&mut r, Some("T".to_string()), None);
    assert_eq!(r.title, "T");
    assert_eq!(r.auto_descr, "-");
    assert_eq!(r.live_status, "1");
    apply_extracted(&mut r, None, Some("D".to_string()));
    assert_eq!(r.title, "-");
    assert_eq!(r.auto_descr, "D");
}
