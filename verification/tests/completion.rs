use qayeq::completion::history_provider::{
    get_history_completions, rank_history, strip_www, url_host_starts_with, Candidate,
};
use qayeq::completion::provider::{CompletionItem, CompletionType};
use qayeq::history::database::HistoryEntry;

fn entry(id: i64, url: &str, title: Option<&str>, visits: i32, last: i64) -> HistoryEntry {
    HistoryEntry {
        id,
        url: url.to_string(),
        title: title.map(|t| t.to_string()),
        visit_count: visits,
        last_visit_time: last,
        first_visit_time: 0,
    }
}

fn urls(items: &[CompletionItem]) -> Vec<String> {
    items.iter().map(|i| i.url.clone().unwrap()).collect()
}

#[test]
fn items_are_made_from_history_and_from_suggestions() {
    let visited = CompletionItem::from_history("Rust".to_string(), "https://rust-lang.org/".to_string(), 7);
    assert_eq!(visited.completion_type, CompletionType::History);
    assert_eq!(visited.display_text(), "Rust");
    assert_eq!(visited.url, Some("https://rust-lang.org/".to_string()));
    assert_eq!(visited.visit_count, 7);
    assert_eq!(visited.action_url("https://s.example/?q={}"), "https://rust-lang.org/");
    let suggested = CompletionItem::from_suggestion("rust book".to_string());
    assert_eq!(suggested.completion_type, CompletionType::SearchSuggestion);
    assert_eq!(suggested.display_text(), "rust book");
    assert_eq!(suggested.url, None);
    assert_eq!(suggested.visit_count, 0);
    assert_eq!(suggested.action_url("https://s.example/?q={}"), "https://s.example/?q=rust%20book");
    assert_eq!(suggested.action_url("no placeholder"), "no placeholder");
}

#[test]
fn a_host_is_matched_without_www_and_in_lower_case() {
    assert_eq!(strip_www("www.example.com"), "example.com");
    assert_eq!(strip_www("wwwexample.com"), "wwwexample.com");
    assert_eq!(strip_www("www."), "");
    assert!(url_host_starts_with("https://www.Google.com/search", "goo"));
    assert!(url_host_starts_with("https://google.com/", "google.com"));
    assert!(!url_host_starts_with("https://mail.google.com/", "goo"));
    assert!(!url_host_starts_with("https://google.com/", "Goo"));
    assert!(!url_host_starts_with("not a url", "not"));
    assert!(!url_host_starts_with("mailto:goo@example.com", "goo"));
    assert!(url_host_starts_with("https://example.com/", ""));
}

#[test]
fn candidates_are_ranked_by_host_then_visits_then_recency() {
    let candidates = vec![
        Candidate { host_prefix: false, entry: entry(1, "https://a/", None, 50, 10) },
        Candidate { host_prefix: true, entry: entry(2, "https://b/", Some("B"), 1, 10) },
        Candidate { host_prefix: true, entry: entry(3, "https://c/", None, 3, 10) },
        Candidate { host_prefix: true, entry: entry(4, "https://d/", None, 3, 20) },
        Candidate { host_prefix: false, entry: entry(5, "https://e/", None, 50, 10) },
        Candidate { host_prefix: false, entry: entry(6, "https://f/", None, 60, 1) },
        Candidate { host_prefix: true, entry: entry(7, "https://g/", None, 1, 10) },
    ];
    let items = rank_history(candidates);
    assert_eq!(
        urls(&items),
        vec!["https://d/", "https://c/", "https://b/", "https://g/", "https://f/"]
    );
    assert_eq!(items[2].title, "B");
    assert_eq!(items[0].title, "https://d/");
    assert_eq!(items[0].visit_count, 3);
    assert_eq!(items[0].completion_type, CompletionType::History);
    assert_eq!(rank_history(Vec::new()), Vec::new());
}

#[test]
fn the_ranking_is_that_of_a_stable_sort() {
    let mut state: u64 = 12345;
    for round in 0..200 {
        let mut entries: Vec<(bool, HistoryEntry)> = Vec::new();
        for k in 0..(round % 9) {
            state = state.wrapping_mul(6364136223846793005).wrapping_add(1442695040888963407);
            let host = (state >> 60) % 2 == 0;
            let visits = ((state >> 40) % 3) as i32;
            let last = ((state >> 20) % 3) as i64;
            entries.push((host, entry(k as i64, &format!("https://x/{}", k), None, visits, last)));
        }
        let mut expected = entries.clone();
        expected.sort_by(|a, b| {
            b.0.cmp(&a.0)
                .then_with(|| b.1.visit_count.cmp(&a.1.visit_count))
                .then_with(|| b.1.last_visit_time.cmp(&a.1.last_visit_time))
        });
        expected.truncate(5);
        let expected_urls: Vec<String> = expected.iter().map(|e| e.1.url.clone()).collect();
        let candidates = entries
            .into_iter()
            .map(|(host_prefix, entry)| Candidate { host_prefix, entry })
            .collect();
        assert_eq!(urls(&rank_history(candidates)), expected_urls);
    }
}

#[test]
fn history_completions_prefer_hosts_that_start_with_the_query() {
    let found = vec![
        entry(1, "https://docs.rs/google", Some("Docs"), 90, 5),
        entry(2, "https://www.google.com/", Some("Google"), 2, 5),
        entry(3, "https://GOOGLE.com/maps", None, 2, 9),
        entry(4, "https://example.com/goo", None, 100, 5),
    ];
    let items = get_history_completions(found.clone(), "Goo");
    assert_eq!(
        urls(&items),
        vec![
            "https://GOOGLE.com/maps",
            "https://www.google.com/",
            "https://example.com/goo",
            "https://docs.rs/google",
        ]
    );
    assert_eq!(items[0].title, "https://GOOGLE.com/maps");
    assert_eq!(items[1].title, "Google");
    assert_eq!(get_history_completions(found, ""), Vec::new());
}

#[test]
fn at_most_five_history_completions_are_given() {
    let found: Vec<HistoryEntry> = (0..10)
        .map(|k| entry(k, &format!("https://site{}.example/", k), None, k as i32, 0))
        .collect();
    let items = get_history_completions(found, "site");
    assert_eq!(items.len(), 5);
    assert_eq!(items[0].url, Some("https://site9.example/".to_string()));
    assert_eq!(items[4].url, Some("https://site5.example/".to_string()));
}
