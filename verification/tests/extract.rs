use tray_shell::extract::{
    boilerplate_selectors, content_selectors, fragment_selectors, select_content, Extraction, PageSnapshot, Progress,
    ScrapePayload, ScrapeStatus, CONTAINER_THRESHOLD, CONTENT_THRESHOLD, FAILURE_CONTENT,
    FAILURE_TITLE, FRAGMENT_MIN_CHARS, MAX_ATTEMPTS, RETRY_DELAY_MS, SCROLL_PAUSE_MS,
    SETTLE_DELAY_MS, UNTITLED,
};

fn snapshot(containers: &[&str], body: &str, fragments: &[&str]) -> PageSnapshot {
    PageSnapshot {
        title: "A page".to_string(),
        location: "https://example.com/landed".to_string(),
        containers: containers.iter().map(|s| s.to_string()).collect(),
        body_text: body.to_string(),
        fragments: fragments.iter().map(|s| s.to_string()).collect(),
    }
}

fn letters(n: usize) -> String {
    "abcdefghij".chars().cycle().take(n).collect()
}

fn empty_page() -> PageSnapshot {
    snapshot(&[], "", &[])
}

fn rich_page() -> PageSnapshot {
    snapshot(&[&letters(150)], "", &[])
}

fn emitted(progress: Progress) -> ScrapePayload {
    match progress {
        Progress::Emit(payload) => payload,
        Progress::Retry { .. } => panic!("the extraction goes on"),
    }
}

fn waiting(progress: Progress) -> Extraction {
    match progress {
        Progress::Retry { next, delay_ms } => {
            assert_eq!(delay_ms, 2000);
            next
        }
        Progress::Emit(_) => panic!("the extraction is over"),
    }
}

#[test]
fn thresholds_and_delays() {
    assert_eq!(MAX_ATTEMPTS, 10);
    assert_eq!(SETTLE_DELAY_MS, 2000);
    assert_eq!(RETRY_DELAY_MS, 2000);
    assert_eq!(SCROLL_PAUSE_MS, 100);
    assert_eq!(CONTAINER_THRESHOLD, 100);
    assert_eq!(FRAGMENT_MIN_CHARS, 10);
    assert_eq!(CONTENT_THRESHOLD, 50);
}

#[test]
fn content_selectors_in_priority_order() {
    assert_eq!(
        content_selectors(),
        vec![
            "main",
            "[role=\"main\"]",
            ".content",
            ".main-content",
            ".post-content",
            ".article-content",
            ".entry-content",
            "article",
            ".container",
        ]
    );
}

#[test]
fn boilerplate_selectors_listed() {
    assert_eq!(
        boilerplate_selectors(),
        vec![
            "script",
            "style",
            ".ads",
            ".ad",
            ".advertisement",
            ".google-ads",
            "nav",
            "header",
            "footer",
            ".nav",
            ".header",
            ".footer",
        ]
    );
}

#[test]
fn fragment_selectors_listed() {
    assert_eq!(fragment_selectors(), vec!["p", "div", "span"]);
}

#[test]
fn first_rich_container_wins() {
    let second = letters(101);
    let third = "z".repeat(300);
    let page = snapshot(&["", &second, &third], &"b".repeat(500), &[]);
    assert_eq!(select_content(&page), second);
}

#[test]
fn container_of_exactly_100_characters_is_passed_over() {
    let exact = letters(100);
    let body = "b".repeat(120);
    let page = snapshot(&[&exact], &body, &[]);
    assert_eq!(select_content(&page), body);
}

#[test]
fn container_length_is_counted_after_trimming() {
    let padded = format!("{}{}{}", " ".repeat(10), letters(100), "\n".repeat(10));
    let body = "b".repeat(120);
    assert_eq!(select_content(&snapshot(&[&padded], &body, &[])), body);

    let padded = format!("  {}\t\n", letters(101));
    assert_eq!(select_content(&snapshot(&[&padded], &body, &[])), letters(101));
}

#[test]
fn container_length_is_counted_in_characters() {
    let text = "页".repeat(101);
    let page = snapshot(&[&text], "", &[]);
    assert_eq!(select_content(&page), text);
    let text = "页".repeat(100);
    assert_eq!(select_content(&snapshot(&[&text], "", &[])), "");
}

#[test]
fn body_is_the_fallback_and_is_trimmed() {
    let body = format!("  {}  ", letters(96));
    assert_eq!(body.chars().count(), 100);
    let page = snapshot(&["short"], &body, &["a fragment that is long enough"]);
    assert_eq!(select_content(&page), letters(96));
}

#[test]
fn a_long_but_blank_body_stops_the_fallback() {
    let body = format!("{}{}", " ".repeat(60), letters(40));
    let fragment = letters(80);
    let page = snapshot(&[], &body, &[&fragment]);
    assert_eq!(select_content(&page), letters(40));
    let progress = Extraction::begin("https://example.com/".to_string()).observe(Some(page));
    assert_eq!(waiting(progress).attempts(), 1);
}

#[test]
fn fragments_are_the_last_resort() {
    let body = letters(99);
    let page = snapshot(
        &[],
        &body,
        &["short", "exactly10c", "  a padded fragment  ", "123456789", "   tiny    "],
    );
    assert_eq!(select_content(&page), "exactly10c\n  a padded fragment");
}

#[test]
fn fragment_of_nine_characters_is_dropped_and_of_ten_is_kept() {
    let page = snapshot(&[], "", &["123456789", " 123456789 ", "1234567890"]);
    assert_eq!(select_content(&page), "1234567890");
    let page = snapshot(&[], "", &["123456789"]);
    assert_eq!(select_content(&page), "");
}

#[test]
fn nothing_to_read_gives_empty_content() {
    assert_eq!(select_content(&empty_page()), "");
}

#[test]
fn content_of_50_characters_is_not_enough() {
    let page = snapshot(&[], "", &[&letters(50)]);
    let progress = Extraction::begin("https://example.com/".to_string()).observe(Some(page));
    assert_eq!(waiting(progress).attempts(), 1);
}

#[test]
fn content_of_51_characters_succeeds() {
    let page = snapshot(&[], "", &[&letters(51)]);
    let payload =
        emitted(Extraction::begin("https://example.com/".to_string()).observe(Some(page)));
    assert_eq!(payload.content(), letters(51));
    assert_eq!(payload.status(), ScrapeStatus::Extracted { attempt: 1 });
}

#[test]
fn success_payload_describes_the_page() {
    let payload =
        emitted(Extraction::begin("https://example.com/asked".to_string()).observe(Some(rich_page())));
    assert_eq!(payload.title(), "A page");
    assert_eq!(payload.content(), letters(150));
    assert_eq!(payload.url(), "https://example.com/landed");
    assert_eq!(payload.attempt(), Some(1));
    assert!(!payload.is_error());
    assert!(payload.content().chars().count() > 50);
}

#[test]
fn untitled_page_gets_the_stand_in_title() {
    let mut page = rich_page();
    page.title = String::new();
    let payload = emitted(Extraction::begin("u".to_string()).observe(Some(page)));
    assert_eq!(payload.title(), "无标题");
    assert_eq!(UNTITLED, "无标题");
}

#[test]
fn attempts_are_counted_from_one() {
    for good in 1..=10u32 {
        let mut state = Extraction::begin("https://example.com/".to_string());
        for made in 1..good {
            state = waiting(state.observe(Some(empty_page())));
            assert_eq!(state.attempts(), made);
            assert_eq!(state.url(), "https://example.com/");
        }
        let payload = emitted(state.observe(Some(rich_page())));
        assert_eq!(payload.attempt(), Some(good));
        assert!(1 <= good && good <= 10);
        assert!(!payload.is_error());
    }
}

#[test]
fn failure_comes_after_exactly_ten_attempts() {
    let mut state = Extraction::begin("https://example.com/asked".to_string());
    for _ in 0..9 {
        state = waiting(state.observe(Some(empty_page())));
    }
    assert_eq!(state.attempts(), 9);
    let payload = emitted(state.observe(Some(empty_page())));
    assert!(payload.is_error());
    assert_eq!(payload.status(), ScrapeStatus::Failed);
    assert_eq!(payload.attempt(), None);
    assert_eq!(payload.title(), "extraction failed");
    assert_eq!(payload.content(), "无法提取页面内容，可能是动态加载或受保护的页面");
    assert_eq!(payload.url(), "https://example.com/asked");
    assert_eq!(FAILURE_TITLE, "extraction failed");
    assert_eq!(FAILURE_CONTENT, "无法提取页面内容，可能是动态加载或受保护的页面");
}

#[test]
fn a_look_that_failed_counts_as_an_attempt() {
    let mut state = Extraction::begin("u".to_string());
    for made in 1..=9u32 {
        state = waiting(state.observe(None));
        assert_eq!(state.attempts(), made);
    }
    assert!(emitted(state.observe(None)).is_error());
}

#[test]
fn success_at_the_tenth_attempt_is_no_failure() {
    let mut state = Extraction::begin("u".to_string());
    for _ in 0..9 {
        state = waiting(state.observe(None));
    }
    let payload = emitted(state.observe(Some(rich_page())));
    assert_eq!(payload.status(), ScrapeStatus::Extracted { attempt: 10 });
}
