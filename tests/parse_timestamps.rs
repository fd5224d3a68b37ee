use chrono::{DateTime, Datelike, Timelike, Utc};
use ferriby::sources::{
    last_activity_in, CodebergSource, ForgejoSource, GitHubSource, GitLabSource, SourceKind,
};

fn utc(secs: i64) -> DateTime<Utc> {
    DateTime::from_timestamp(secs, 0).unwrap()
}

fn check(secs: i64, y: i32, mo: u32, d: u32, h: u32, mi: u32, s: u32) {
    let t = utc(secs);
    assert_eq!(t.year(), y);
    assert_eq!(t.month(), mo);
    assert_eq!(t.day(), d);
    assert_eq!(t.hour(), h);
    assert_eq!(t.minute(), mi);
    assert_eq!(t.second(), s);
}

#[test]
fn github_github_parse() {
    let s = "\"timestamp\":\"2025-05-16T20:41:19Z\" bla foo\
        \"timestamp\":\"2025-10-18T03:01:09Z\"";
    let parsed = GitHubSource::parse_timestamps(s);

    assert_eq!(parsed.len(), 2);

    assert_eq!(utc(parsed[0]).year(), 2025);
    assert_eq!(utc(parsed[0]).month(), 5);
    assert_eq!(utc(parsed[0]).day(), 16);
    assert_eq!(utc(parsed[0]).hour(), 20);
    assert_eq!(utc(parsed[0]).minute(), 41);
    assert_eq!(utc(parsed[0]).second(), 19);

    assert_eq!(utc(parsed[1]).year(), 2025);
    assert_eq!(utc(parsed[1]).month(), 10);
    assert_eq!(utc(parsed[1]).day(), 18);
    assert_eq!(utc(parsed[1]).hour(), 3);
    assert_eq!(utc(parsed[1]).minute(), 1);
    assert_eq!(utc(parsed[1]).second(), 9);
}

#[test]
fn gitlab_github_parse() {
    let s = "\"created_at\":\"2025-07-14T21:12:15.564Z\" bla foo\
        \"created_at\":\"2025-07-14T21:12:15.137Z\"";
    let parsed = GitLabSource::parse_timestamps(s);

    assert_eq!(parsed.len(), 2);
    check(parsed[0], 2025, 7, 14, 21, 12, 15);
    check(parsed[1], 2025, 7, 14, 21, 12, 15);
}

#[test]
fn codeberg_parse_positive_offset() {
    let s = "\"updated_at\":\"2025-07-11T12:30:20+02:00\" bla foo\
        \"updated_at\":\"2025-07-11T13:31:22+02:00\"";
    let parsed = CodebergSource::parse_timestamps(s);

    assert_eq!(parsed.len(), 2);
    check(parsed[0], 2025, 7, 11, 10, 30, 20);
    check(parsed[1], 2025, 7, 11, 11, 31, 22);
}

#[test]
fn codeberg_parse_negative_offset() {
    let s = "\"updated_at\":\"2025-07-11T12:30:20-02:00\" bla foo\
        \"updated_at\":\"2025-07-11T13:31:22-02:00\"";
    let parsed = CodebergSource::parse_timestamps(s);

    assert_eq!(parsed.len(), 2);
    check(parsed[0], 2025, 7, 11, 14, 30, 20);
    check(parsed[1], 2025, 7, 11, 15, 31, 22);
}

#[test]
fn forgejo_parse_positive_offset() {
    let s = "\"updated_at\":\"2025-07-11T12:30:20+02:00\" bla foo\
        \"updated_at\":\"2025-07-11T13:31:22+02:00\"";
    let parsed = ForgejoSource::parse_timestamps(s);

    assert_eq!(parsed.len(), 2);
    check(parsed[0], 2025, 7, 11, 10, 30, 20);
    check(parsed[1], 2025, 7, 11, 11, 31, 22);
}

#[test]
fn forgejo_parse_negative_offset() {
    let s = "\"updated_at\":\"2025-07-11T12:30:20-02:00\" bla foo\
        \"updated_at\":\"2025-07-11T13:31:22-02:00\"";
    let parsed = ForgejoSource::parse_timestamps(s);

    assert_eq!(parsed.len(), 2);
    check(parsed[0], 2025, 7, 11, 14, 30, 20);
    check(parsed[1], 2025, 7, 11, 15, 31, 22);
}

#[test]
fn forgejo_parse_mixed_tz_info() {
    let s = "\"updated_at\":\"2025-08-04T20:26:36Z\" bla foo\
        \"updated_at\":\"2025-07-11T13:31:22-02:00\"";
    let parsed = ForgejoSource::parse_timestamps(s);

    assert_eq!(parsed.len(), 2);
    check(parsed[0], 2025, 8, 4, 20, 26, 36);
    check(parsed[1], 2025, 7, 11, 15, 31, 22);
}

#[test]
fn negative_offset_reads_as_later_utc_instant() {
    let parsed = CodebergSource::parse_timestamps("\"updated_at\":\"2025-07-11T12:30:20-02:00\"");
    let expected = chrono::NaiveDate::from_ymd_opt(2025, 7, 11)
        .unwrap()
        .and_hms_opt(14, 30, 20)
        .unwrap()
        .and_utc()
        .timestamp();
    assert_eq!(parsed, vec![expected]);
}

#[test]
fn latest_is_chosen_by_instant_not_by_text() {
    // 12:30:20-02:00 is 14:30:20Z; 13:31:22+02:00 is 11:31:22Z.
    let body = "\"updated_at\":\"2025-07-11T13:31:22+02:00\",\
        \"updated_at\":\"2025-07-11T12:30:20-02:00\"";
    let last = last_activity_in(SourceKind::Codeberg, body).unwrap();
    check(last, 2025, 7, 11, 14, 30, 20);
    let last = last_activity_in(SourceKind::Forgejo, body).unwrap();
    check(last, 2025, 7, 11, 14, 30, 20);
}

#[test]
fn no_occurrence_gives_no_activity() {
    assert_eq!(last_activity_in(SourceKind::GitHub, ""), None);
    assert_eq!(last_activity_in(SourceKind::GitHub, "{\"timestamp\":null}"), None);
    // A provider's own field, written in another provider's format, is not read.
    assert_eq!(
        last_activity_in(SourceKind::GitHub, "\"timestamp\":\"2025-07-11T12:30:20+02:00\""),
        None
    );
    assert!(GitLabSource::parse_timestamps("\"created_at\":\"2025-07-14T21:12:15Z\"").is_empty());
}

#[test]
fn dates_that_do_not_exist_are_skipped() {
    let body = "\"timestamp\":\"2023-02-29T10:00:00Z\" \"timestamp\":\"2024-02-29T10:00:00Z\" \
        \"timestamp\":\"2024-01-01T24:00:00Z\" \"timestamp\":\"2024-13-01T00:00:00Z\"";
    let parsed = GitHubSource::parse_timestamps(body);
    assert_eq!(parsed.len(), 1);
    check(parsed[0], 2024, 2, 29, 10, 0, 0);
}

#[test]
fn epoch_and_offsets_compute_exactly() {
    assert_eq!(GitHubSource::parse_timestamps("\"timestamp\":\"1970-01-01T00:00:00Z\""), vec![0]);
    assert_eq!(
        GitHubSource::parse_timestamps("\"timestamp\":\"2000-03-01T00:00:00Z\""),
        vec![951868800]
    );
    assert_eq!(
        CodebergSource::parse_timestamps("\"updated_at\":\"1970-01-01T00:00:00+01:30\""),
        vec![-5400]
    );
    assert_eq!(
        GitHubSource::parse_timestamps("\"timestamp\":\"0000-01-01T00:00:00Z\""),
        vec![-62167219200]
    );
    assert_eq!(
        GitHubSource::parse_timestamps("\"timestamp\":\"9999-12-31T23:59:59Z\""),
        vec![253402300799]
    );
}

#[test]
fn offsets_of_a_day_or_more_are_skipped() {
    assert!(CodebergSource::parse_timestamps("\"updated_at\":\"2025-07-11T12:30:20+24:00\"").is_empty());
    assert!(CodebergSource::parse_timestamps("\"updated_at\":\"2025-07-11T12:30:20+02:60\"").is_empty());
}

#[test]
fn max_of_many_github_events() {
    let body = "[{\"timestamp\":\"2025-05-16T20:41:19Z\"},{\"timestamp\":\"2025-10-18T03:01:09Z\"},\
        {\"timestamp\":\"2024-12-31T23:59:59Z\"}]";
    let last = last_activity_in(SourceKind::GitHub, body).unwrap();
    check(last, 2025, 10, 18, 3, 1, 9);
}
