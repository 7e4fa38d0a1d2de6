use qayeq::history::database::HistoryEntry;

fn visited(last: i64) -> HistoryEntry {
    HistoryEntry {
        id: 1,
        url: "https://example.com/".to_string(),
        title: Some("Example".to_string()),
        visit_count: 1,
        last_visit_time: last,
        first_visit_time: last,
    }
}

#[test]
fn the_last_visit_reads_in_the_largest_unit_it_fills() {
    let now = 1_700_000_000;
    for (elapsed, text) in [
        (0, "Just now"),
        (59, "Just now"),
        (-5, "Just now"),
        (60, "1 minutes ago"),
        (3599, "59 minutes ago"),
        (3600, "1 hours ago"),
        (86399, "23 hours ago"),
        (86400, "1 days ago"),
        (604799, "6 days ago"),
        (604800, "1 weeks ago"),
        (6048000, "10 weeks ago"),
    ] {
        assert_eq!(visited(now - elapsed).last_visit_formatted(now), text);
    }
    assert_eq!(visited(i64::MIN).last_visit_formatted(i64::MAX), "30500568904943 weeks ago");
    assert_eq!(visited(i64::MAX).last_visit_formatted(i64::MIN), "Just now");
}

#[test]
fn the_url_of_an_entry_is_parsed() {
    let url = visited(0).parse_url().unwrap();
    assert_eq!(url.as_str(), "https://example.com/");
    assert_eq!(url.host_str(), Some("example.com"));
    let mut broken = visited(0);
    broken.url = "nowhere".to_string();
    assert_eq!(broken.parse_url(), None);
}
