use notifier::check::check_step;
use notifier::rss::get_last_update_date;
use notifier::{
    CheckError, CheckOutcome, ConnectionFactory, FeedEvent, Source, SourceRepository, SourceType,
    Timestamp,
};

fn rss_source(name: &str, offset: i32) -> Source {
    Source::new(
        name.to_owned(),
        "https://example.org/blog".to_owned(),
        "https://example.org/feed.xml".to_owned(),
        SourceType::RSS,
        "%F %T".to_owned(),
        offset,
    )
}

fn published(date: &str) -> FeedEvent {
    FeedEvent::Published(date.to_owned())
}

// 2024-01-01 10:00:00 read as UTC is 1704103200 seconds past the epoch.
const NAIVE_TEN: i64 = 1704103200;

#[test]
fn offset_correctness() {
    // A naive local reading of 10:00 on a clock five hours west of UTC
    // (offset -18000 s) is 15:00 UTC: 2024-01-01T15:00:00Z.
    let got = get_last_update_date("2024-01-01 10:00:00", "%F %T", -18000).unwrap();
    assert_eq!(got, Timestamp::new(1704121200));
}

#[test]
fn identical_content_different_offsets_differ() {
    let west = get_last_update_date("2024-01-01 10:00:00", "%F %T", -18000).unwrap();
    let east = get_last_update_date("2024-01-01 10:00:00", "%F %T", 3600).unwrap();
    assert_eq!(west, Timestamp::new(NAIVE_TEN + 18000));
    assert_eq!(east, Timestamp::new(NAIVE_TEN - 3600));
}

#[test]
fn custom_date_pattern_is_honored() {
    let got = get_last_update_date("01/01/2024 10:00", "%d/%m/%Y %H:%M", 0).unwrap();
    assert_eq!(got, Timestamp::new(NAIVE_TEN));
}

#[test]
fn mismatched_date_pattern_is_a_format_error() {
    assert_eq!(
        get_last_update_date("January 1st, 2024", "%F %T", 0),
        Err(CheckError::Format)
    );
}

#[test]
fn first_check_records_and_stays_silent() {
    let mut repo = SourceRepository::new();
    let s = rss_source("blog", -18000);
    repo.save(&s);
    let outcome = check_step(&mut repo, &s, &published("2024-01-01 10:00:00"));
    assert_eq!(outcome, CheckOutcome::Unchanged);
    let listed = repo.list();
    assert_eq!(listed.len(), 1);
    assert_eq!(listed[0].last_at(), Some(Timestamp::new(1704121200)));
}

#[test]
fn newer_timestamp_notifies_and_is_recorded() {
    let mut repo = SourceRepository::new();
    let s = rss_source("blog", 0).with_last_checked_at(Timestamp::new(NAIVE_TEN - 1));
    repo.save(&s);
    let outcome = check_step(&mut repo, &s, &published("2024-01-01 10:00:00"));
    assert_eq!(outcome, CheckOutcome::Notified);
    assert_eq!(repo.list()[0].last_at(), Some(Timestamp::new(NAIVE_TEN)));
}

#[test]
fn stale_timestamp_is_silent_but_still_recorded() {
    let mut repo = SourceRepository::new();
    let s = rss_source("blog", 0).with_last_checked_at(Timestamp::new(NAIVE_TEN + 500));
    repo.save(&s);
    let outcome = check_step(&mut repo, &s, &published("2024-01-01 10:00:00"));
    assert_eq!(outcome, CheckOutcome::Unchanged);
    // The older value is recorded verbatim: no monotonicity is enforced.
    assert_eq!(repo.list()[0].last_at(), Some(Timestamp::new(NAIVE_TEN)));
}

#[test]
fn equal_timestamp_is_silent() {
    let mut repo = SourceRepository::new();
    let s = rss_source("blog", 0).with_last_checked_at(Timestamp::new(NAIVE_TEN));
    repo.save(&s);
    let outcome = check_step(&mut repo, &s, &published("2024-01-01 10:00:00"));
    assert_eq!(outcome, CheckOutcome::Unchanged);
    assert_eq!(repo.list()[0].last_at(), Some(Timestamp::new(NAIVE_TEN)));
}

#[test]
fn transport_failure_leaves_baseline_unchanged() {
    let mut repo = SourceRepository::new();
    let s = rss_source("blog", 0).with_last_checked_at(Timestamp::new(42));
    repo.save(&s);
    let outcome = check_step(&mut repo, &s, &FeedEvent::TransportFailed);
    assert_eq!(outcome, CheckOutcome::Failed(CheckError::Transport));
    assert_eq!(repo.list()[0].last_at(), Some(Timestamp::new(42)));
}

#[test]
fn feed_parse_failure_is_a_format_error() {
    let mut repo = SourceRepository::new();
    let s = rss_source("blog", 0).with_last_checked_at(Timestamp::new(42));
    repo.save(&s);
    let outcome = check_step(&mut repo, &s, &FeedEvent::ParseFailed);
    assert_eq!(outcome, CheckOutcome::Failed(CheckError::Format));
    assert_eq!(repo.list()[0].last_at(), Some(Timestamp::new(42)));
}

#[test]
fn pattern_mismatch_leaves_baseline_unchanged() {
    let mut repo = SourceRepository::new();
    let s = rss_source("blog", 0).with_last_checked_at(Timestamp::new(42));
    repo.save(&s);
    let outcome = check_step(&mut repo, &s, &published("not a date"));
    assert_eq!(outcome, CheckOutcome::Failed(CheckError::Format));
    assert_eq!(repo.list()[0].last_at(), Some(Timestamp::new(42)));
}

#[test]
fn html_sources_fail_fast_as_unsupported() {
    let mut repo = SourceRepository::new();
    let s = Source::new(
        "page".to_owned(),
        "https://example.org".to_owned(),
        "https://example.org".to_owned(),
        SourceType::HTML,
        String::new(),
        0,
    );
    repo.save(&s);
    let outcome = check_step(&mut repo, &s, &FeedEvent::TransportFailed);
    assert_eq!(outcome, CheckOutcome::Failed(CheckError::Unsupported));
    assert!(repo.list()[0].last_at().is_none());
}

#[test]
fn one_failure_does_not_block_another_source() {
    let mut repo = SourceRepository::new();
    let a = rss_source("broken", 0);
    let b = rss_source("healthy", 0).with_last_checked_at(Timestamp::new(NAIVE_TEN - 1));
    repo.save(&a);
    repo.save(&b);
    let a_outcome = check_step(&mut repo, &a, &FeedEvent::ParseFailed);
    let b_outcome = check_step(&mut repo, &b, &published("2024-01-01 10:00:00"));
    assert_eq!(a_outcome, CheckOutcome::Failed(CheckError::Format));
    assert_eq!(b_outcome, CheckOutcome::Notified);
    let listed = repo.list();
    for s in &listed {
        if s.name().as_str() == "broken" {
            assert!(s.last_at().is_none());
        } else {
            assert_eq!(s.last_at(), Some(Timestamp::new(NAIVE_TEN)));
        }
    }
}

#[test]
fn factory_builds_rss_connection_from_source_fields() {
    let s = rss_source("blog", -18000);
    let conn = ConnectionFactory().create(&s).unwrap();
    assert_eq!(conn.url.as_str(), "https://example.org/feed.xml");
    assert_eq!(conn.datetime_format.as_str(), "%F %T");
    assert_eq!(conn.offset, -18000);
    assert_eq!(
        conn.get_new("2024-01-01 10:00:00"),
        Ok(Timestamp::new(1704121200))
    );
}

#[test]
fn factory_rejects_html_sources() {
    let s = Source::new(
        "page".to_owned(),
        "https://example.org".to_owned(),
        "https://example.org".to_owned(),
        SourceType::HTML,
        String::new(),
        0,
    );
    assert_eq!(
        ConnectionFactory().create(&s).map(|_| ()),
        Err(CheckError::Unsupported)
    );
}
