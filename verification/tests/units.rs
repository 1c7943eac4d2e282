use waybackmachine_client::checkresponse::{evaluate_check_body, evaluate_rows};
use waybackmachine_client::config::ClientConfig;
use waybackmachine_client::errors::Error;
use waybackmachine_client::retry::{backoff_delay_ms, is_success_status, is_transient_status};
use waybackmachine_client::strutil::{contains_substring, str_eq_str, u16_to_decimal};
use waybackmachine_client::timestamp::{parse_timestamp, Timestamp};

fn rows(fields: &[&[&str]]) -> Vec<Vec<String>> {
    fields
        .iter()
        .map(|row| row.iter().map(|s| s.to_string()).collect())
        .collect()
}

fn cutoff() -> Timestamp {
    Timestamp {
        year: 2023,
        month: 2,
        day: 1,
        hour: 0,
        minute: 0,
        second: 0,
    }
}

#[test]
fn timestamp_parses_exactly() {
    let t = parse_timestamp("20230227054528").unwrap();
    assert_eq!(t.year, 2023);
    assert_eq!(t.month, 2);
    assert_eq!(t.day, 27);
    assert_eq!(t.hour, 5);
    assert_eq!(t.minute, 45);
    assert_eq!(t.second, 28);
}

#[test]
fn timestamp_rejects_malformed() {
    assert!(parse_timestamp("").is_none());
    assert!(parse_timestamp("2023022705452").is_none());
    assert!(parse_timestamp("202302270545280").is_none());
    assert!(parse_timestamp("2023022705452x").is_none());
    assert!(parse_timestamp("20230230054528").is_none());
    assert!(parse_timestamp("20231327054528").is_none());
    assert!(parse_timestamp("20230227244528").is_none());
    assert!(parse_timestamp("20230227056028").is_none());
    assert!(parse_timestamp("20230227054560").is_none());
}

#[test]
fn timestamp_knows_leap_years() {
    assert!(parse_timestamp("20240229000000").is_some());
    assert!(parse_timestamp("20230229000000").is_none());
    assert!(parse_timestamp("20000229000000").is_some());
    assert!(parse_timestamp("19000228235959").is_some());
    assert!(parse_timestamp("19000229000000").is_none());
}

#[test]
fn timestamp_orders_chronologically() {
    let earlier = parse_timestamp("20230101000000").unwrap();
    let later = parse_timestamp("20230227054528").unwrap();
    assert!(later.after(&earlier));
    assert!(!earlier.after(&later));
    assert!(!later.after(&later));
}

#[test]
fn fresh_snapshot_is_accepted() {
    let r = evaluate_rows(
        &rows(&[&["timestamp"], &["20230227054528"]]),
        &cutoff(),
        "https://example.com/",
    );
    assert!(r.is_ok());
}

#[test]
fn stale_snapshot_is_refused() {
    let r = evaluate_rows(
        &rows(&[&["timestamp"], &["20230101000000"]]),
        &cutoff(),
        "https://example.com/",
    );
    assert_eq!(
        r.err(),
        Some(Error::NoRecentArchive("https://example.com/".to_string()))
    );
}

#[test]
fn snapshot_at_cutoff_is_refused() {
    // Freshness is strict: a snapshot exactly at the cutoff is stale.
    let r = evaluate_rows(
        &rows(&[&["timestamp"], &["20230201000000"]]),
        &cutoff(),
        "https://example.com/",
    );
    assert!(r.is_err());
}

#[test]
fn empty_answer_is_refused() {
    let r = evaluate_rows(&rows(&[]), &cutoff(), "https://example.com/");
    assert_eq!(
        r.err(),
        Some(Error::NoRecentArchive("https://example.com/".to_string()))
    );
}

#[test]
fn extra_rows_are_refused_conservatively() {
    // More than one result row never picks a maximum: it reads as no
    // recent archive.
    let r = evaluate_rows(
        &rows(&[&["timestamp"], &["20230227054528"], &["20230228054528"]]),
        &cutoff(),
        "https://example.com/",
    );
    assert_eq!(
        r.err(),
        Some(Error::NoRecentArchive("https://example.com/".to_string()))
    );
}

#[test]
fn malformed_timestamp_is_an_error() {
    let r = evaluate_rows(
        &rows(&[&["timestamp"], &["2023-02-27T05:45"]]),
        &cutoff(),
        "https://example.com/",
    );
    assert_eq!(
        r.err(),
        Some(Error::CannotCheckArchive("2023-02-27T05:45".to_string()))
    );
}

#[test]
fn check_body_round_trips_through_json() {
    let body = b"[[\"timestamp\"],[\"20230227054528\"]]".to_vec();
    assert!(evaluate_check_body(&body, &cutoff(), "https://example.com/").is_ok());
    let stale = b"[[\"timestamp\"],[\"20220101000000\"]]".to_vec();
    assert!(evaluate_check_body(&stale, &cutoff(), "https://example.com/").is_err());
    let garbage = b"not json at all".to_vec();
    assert!(matches!(
        evaluate_check_body(&garbage, &cutoff(), "https://example.com/"),
        Err(Error::CannotCheckArchive(_))
    ));
}

#[test]
fn backoff_doubles_up_to_the_ceiling() {
    assert_eq!(backoff_delay_ms(0), 1_000);
    assert_eq!(backoff_delay_ms(1), 2_000);
    assert_eq!(backoff_delay_ms(4), 16_000);
    assert_eq!(backoff_delay_ms(10), 1_024_000);
    assert_eq!(backoff_delay_ms(11), 1_800_000);
    assert_eq!(backoff_delay_ms(200), 1_800_000);
}

#[test]
fn status_classes() {
    assert!(is_transient_status(500));
    assert!(is_transient_status(520));
    assert!(is_transient_status(599));
    assert!(!is_transient_status(404));
    assert!(!is_transient_status(200));
    assert!(is_success_status(200));
    assert!(is_success_status(204));
    assert!(!is_success_status(304));
    assert!(!is_success_status(520));
}

#[test]
fn decimal_rendering() {
    assert_eq!(u16_to_decimal(0), "0");
    assert_eq!(u16_to_decimal(7), "7");
    assert_eq!(u16_to_decimal(520), "520");
    assert_eq!(u16_to_decimal(65535), "65535");
}

#[test]
fn substring_containment() {
    assert!(contains_substring("notlocalhost.com", "localhost"));
    assert!(contains_substring("localhost", "localhost"));
    assert!(contains_substring("anything", ""));
    assert!(!contains_substring("example.com", "localhost"));
    assert!(!contains_substring("short", "much longer needle"));
    assert!(str_eq_str("http", "http"));
    assert!(!str_eq_str("http", "https"));
}

#[test]
fn cutoff_moves_with_the_threshold() {
    // The freshness cutoff really is now minus the threshold: a
    // zero-day window sits strictly after a thirty-day one, and both
    // carry calendar-shaped fields.
    let now_config = ClientConfig::new(
        "https://archive.test/save/".to_string(),
        "https://archive.test/cdx?url=".to_string(),
        1,
        0,
        "TestUserAgent".to_string(),
    );
    let month_config = ClientConfig::new(
        "https://archive.test/save/".to_string(),
        "https://archive.test/cdx?url=".to_string(),
        1,
        30,
        "TestUserAgent".to_string(),
    );
    let now_cutoff = now_config.archive_threshold_timestamp;
    let month_cutoff = month_config.archive_threshold_timestamp;
    assert!(now_cutoff.after(&month_cutoff));
    assert!(now_cutoff.year >= 2024);
    assert!((1..=12).contains(&month_cutoff.month));
    assert!((1..=31).contains(&month_cutoff.day));
}

#[test]
fn config_endpoints_are_normalized() {
    let config = ClientConfig::new(
        "HTTP://Archive.test".to_string(),
        "https://archive.test/cdx?url=".to_string(),
        1,
        30,
        "TestUserAgent".to_string(),
    );
    assert_eq!(config.archive_endpoint, "http://archive.test/");
    assert_eq!(config.check_endpoint, "https://archive.test/cdx?url=");
}

#[test]
fn config_refuses_invalid_endpoints() {
    let r = ClientConfig::try_new(
        "not a url".to_string(),
        "https://archive.test/cdx?url=".to_string(),
        1,
        30,
        "TestUserAgent".to_string(),
    );
    assert!(matches!(r, Err(Error::InvalidUrl(s)) if s == "not a url"));
    let r = ClientConfig::try_new(
        "https://archive.test/save/".to_string(),
        "::::".to_string(),
        1,
        30,
        "TestUserAgent".to_string(),
    );
    assert!(matches!(r, Err(Error::InvalidUrl(s)) if s == "::::"));
    let r = ClientConfig::try_new(
        "https://archive.test/save/".to_string(),
        "https://archive.test/cdx?url=".to_string(),
        1,
        30,
        "TestUserAgent".to_string(),
    );
    assert!(r.is_ok());
}

#[test]
fn url_parsing_normalizes() {
    // The parser behind the validator really parses: scheme and host
    // are lower-cased and a path is supplied.
    let parsed = waybackmachine_client::ArchivableUrl::parse("HTTP://EXAMPLE.com").unwrap();
    assert_eq!(parsed.as_str(), "http://example.com/");
}
