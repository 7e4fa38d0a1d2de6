use qayeq::clear_data::dialog::{
    ClearDataOptions, ClearingPlan, HistoryClearing, TimeRange, WebsiteDataClearing, ALL_TIME_SPAN,
};
use qayeq::completion::list::{
    apply_inline_autocomplete, choose_inline, combine_completions, move_selection,
    restored_selection, search_template, simplify_url, simplify_url_for_autocomplete,
    wants_completions, InlineCandidate, InlineCompletion, SearchEngine,
};
use qayeq::completion::provider::CompletionItem;
use qayeq::completion::search_provider::{
    parse_suggestions, suggestions_from, suggestions_url, JsonItem,
};
use qayeq::content_filter::scriptlets::{compile_line, ScriptletManager};
use qayeq::download::row::{RowButton, StatusIcon};
use qayeq::download::{DownloadItem, DownloadStatus};
use qayeq::profile::manager::{check_delete, DefaultContainer, DeleteRefusal};
use qayeq::session::{SavedTab, SavedWindow};
use qayeq::tab::manager::{
    closed_tab, get_all_tabs, get_session_data, restore_from_saved_window, restored_active_tab,
    save_all_windows, tab_after_close, window_title, OpenTab,
};
use std::time::SystemTime;

fn options(range: TimeRange, history: bool, cookies: bool, cache: bool) -> ClearDataOptions {
    ClearDataOptions {
        time_range: range,
        clear_history: history,
        clear_cookies: cookies,
        clear_cache: cache,
    }
}

#[test]
fn a_time_range_is_a_threshold_before_now() {
    let now = 1_700_000_000;
    assert_eq!(TimeRange::LastHour.to_timestamp(now), Some(now - 3600));
    assert_eq!(TimeRange::Last24Hours.to_timestamp(now), Some(now - 86400));
    assert_eq!(TimeRange::Last7Days.to_timestamp(now), Some(now - 604800));
    assert_eq!(TimeRange::Last4Weeks.to_timestamp(now), Some(now - 2419200));
    assert_eq!(TimeRange::AllTime.to_timestamp(now), None);
    assert_eq!(TimeRange::from_index(0), TimeRange::LastHour);
    assert_eq!(TimeRange::from_index(1), TimeRange::Last24Hours);
    assert_eq!(TimeRange::from_index(2), TimeRange::Last7Days);
    assert_eq!(TimeRange::from_index(3), TimeRange::Last4Weeks);
    assert_eq!(TimeRange::from_index(4), TimeRange::AllTime);
    assert_eq!(TimeRange::from_index(99), TimeRange::AllTime);
}

#[test]
fn what_is_cleared_follows_the_choice() {
    let now = 1_700_000_000;
    assert!(!options(TimeRange::AllTime, false, false, false).has_selection());
    assert!(options(TimeRange::AllTime, false, false, true).has_selection());
    assert_eq!(
        options(TimeRange::AllTime, false, false, false).clearing_plan(now),
        ClearingPlan { history: None, website_data: None }
    );
    assert_eq!(
        options(TimeRange::AllTime, true, true, false).clearing_plan(now),
        ClearingPlan {
            history: Some(HistoryClearing::All),
            website_data: Some(WebsiteDataClearing {
                cookies: true,
                disk_cache: false,
                memory_cache: false,
                timespan: i64::MAX / 1_000_000,
            }),
        }
    );
    assert_eq!(ALL_TIME_SPAN, i64::MAX / 1_000_000);
    assert_eq!(
        options(TimeRange::LastHour, true, false, true).clearing_plan(now),
        ClearingPlan {
            history: Some(HistoryClearing::OlderThan(now - 3600)),
            website_data: Some(WebsiteDataClearing {
                cookies: false,
                disk_cache: true,
                memory_cache: true,
                timespan: 3600,
            }),
        }
    );
}

#[test]
fn the_settings_name_the_search_engine() {
    assert_eq!(search_template("duckduckgo"), "https://duckduckgo.com/?q={}");
    assert_eq!(search_template("google"), "https://www.google.com/search?q={}");
    assert_eq!(search_template("bing"), "https://www.bing.com/search?q={}");
    assert_eq!(search_template("ecosia"), "https://www.ecosia.org/search?q={}");
    assert_eq!(search_template("custom"), "");
    assert_eq!(search_template("altavista"), "https://duckduckgo.com/?q={}");
    assert_eq!(SearchEngine::from_id("bing"), Some(SearchEngine::Bing));
    assert_eq!(SearchEngine::from_id("Bing"), None);
}

#[test]
fn completions_are_for_words_without_a_scheme() {
    assert!(wants_completions("rust"));
    assert!(wants_completions("a:/b"));
    assert!(!wants_completions(""));
    assert!(!wants_completions("https://rust-lang.org"));
    assert!(!wants_completions("x://"));
}

#[test]
fn history_comes_first_and_the_list_has_eight_rows() {
    let history: Vec<CompletionItem> = (0..5)
        .map(|k| CompletionItem::from_history(format!("h{}", k), format!("https://h{}/", k), k))
        .collect();
    let suggestions: Vec<CompletionItem> =
        (0..5).map(|k| CompletionItem::from_suggestion(format!("s{}", k))).collect();
    let all = combine_completions(history.clone(), suggestions.clone());
    let titles: Vec<&str> = all.iter().map(|i| i.display_text()).collect();
    assert_eq!(titles, vec!["h0", "h1", "h2", "h3", "h4", "s0", "s1", "s2"]);
    let few = combine_completions(history[..2].to_vec(), suggestions[..1].to_vec());
    let titles: Vec<&str> = few.iter().map(|i| i.display_text()).collect();
    assert_eq!(titles, vec!["h0", "h1", "s0"]);
}

#[test]
fn the_selection_moves_within_the_list() {
    assert_eq!(move_selection(None, 1, 3), Some(0));
    assert_eq!(move_selection(None, 5, 3), Some(0));
    assert_eq!(move_selection(None, 1, 0), None);
    assert_eq!(move_selection(None, -1, 3), None);
    assert_eq!(move_selection(None, 0, 3), None);
    assert_eq!(move_selection(Some(0), 1, 3), Some(1));
    assert_eq!(move_selection(Some(2), 1, 3), None);
    assert_eq!(move_selection(Some(0), -1, 3), None);
    assert_eq!(move_selection(Some(2), -2, 3), Some(0));
    assert_eq!(move_selection(Some(i32::MAX), i32::MAX, i32::MAX), None);
    assert_eq!(move_selection(Some(i32::MIN), i32::MIN, 3), None);
    assert_eq!(restored_selection(Some(2), 3), Some(2));
    assert_eq!(restored_selection(Some(3), 3), None);
    assert_eq!(restored_selection(Some(-1), 3), None);
    assert_eq!(restored_selection(None, 3), None);
}

#[test]
fn addresses_are_simplified_for_display() {
    assert_eq!(simplify_url("https://www.example.com/"), "example.com");
    assert_eq!(simplify_url("https://www.example.com/a/b/"), "example.com/a/b");
    assert_eq!(simplify_url("https://example.com/a/b?q=1#f"), "example.com/a/b");
    assert_eq!(simplify_url("https://example.com//"), "example.com");
    assert_eq!(simplify_url("mailto:me@example.com"), "me@example.com");
    assert_eq!(simplify_url("not a url"), "not a url");
    assert_eq!(simplify_url_for_autocomplete("https://www.example.com/"), "example.com");
    assert_eq!(simplify_url_for_autocomplete("https://www.example.com/a/b/"), "example.com/a/b/");
    assert_eq!(simplify_url_for_autocomplete("https://example.com//"), "example.com//");
    assert_eq!(simplify_url_for_autocomplete("file:///tmp/x"), "/tmp/x");
    assert_eq!(simplify_url_for_autocomplete("nowhere"), "nowhere");
}

#[test]
fn the_url_bar_is_completed_from_the_first_match() {
    let items = vec![
        CompletionItem::from_suggestion("github".to_string()),
        CompletionItem::from_history("Docs".to_string(), "https://docs.rs/".to_string(), 1),
        CompletionItem::from_history("GitHub".to_string(), "https://www.GitHub.com/rust".to_string(), 1),
        CompletionItem::from_history("Gist".to_string(), "https://gist.github.com/".to_string(), 1),
    ];
    assert_eq!(
        apply_inline_autocomplete(&items, "Git"),
        Some(InlineCompletion {
            url: "https://www.GitHub.com/rust".to_string(),
            text: "github.com/rust".to_string(),
            selection_start: 3,
        })
    );
    assert_eq!(
        apply_inline_autocomplete(&items, "gist"),
        Some(InlineCompletion {
            url: "https://gist.github.com/".to_string(),
            text: "gist.github.com".to_string(),
            selection_start: 4,
        })
    );
    assert_eq!(apply_inline_autocomplete(&items, "docs.rs"), None);
    assert_eq!(apply_inline_autocomplete(&items, "rust"), None);
    assert_eq!(apply_inline_autocomplete(&items, ""), None);
    assert_eq!(apply_inline_autocomplete(&Vec::new(), "git"), None);
}

#[test]
fn only_the_first_match_is_tried_and_lengths_are_in_bytes() {
    let candidate = |url: &str, text: &str| InlineCandidate {
        url: url.to_string(),
        text: text.to_string(),
        lowered: text.to_lowercase(),
    };
    let candidates = vec![candidate("u1", "ab"), candidate("u2", "abc")];
    assert_eq!(choose_inline(&candidates, "ab", "ab"), None);
    assert_eq!(
        choose_inline(&candidates, "a", "a"),
        Some(InlineCompletion { url: "u1".to_string(), text: "ab".to_string(), selection_start: 1 })
    );
    let wide = vec![candidate("u3", "\u{e9}t\u{e9}")];
    assert_eq!(
        choose_inline(&wide, "\u{c9}", "\u{e9}"),
        Some(InlineCompletion {
            url: "u3".to_string(),
            text: "\u{e9}t\u{e9}".to_string(),
            selection_start: 2,
        })
    );
}

#[test]
fn suggestions_are_fetched_for_a_query() {
    assert_eq!(suggestions_url(""), None);
    assert_eq!(
        suggestions_url("rust lang"),
        Some("https://duckduckgo.com/ac/?q=rust%20lang&type=list".to_string())
    );
}

#[test]
fn suggestions_are_the_strings_of_the_second_item() {
    let titles = |bytes: &[u8]| -> Vec<String> {
        parse_suggestions(bytes).into_iter().map(|i| i.title).collect()
    };
    assert_eq!(
        titles(br#"["ru", ["rust", "ruby", "russia"]]"#),
        vec!["rust", "ruby", "russia"]
    );
    assert_eq!(
        titles(br#"["ru", ["a", 1, "b", null, "c", "d", "e"], "more"]"#),
        vec!["a", "b", "c"]
    );
    assert_eq!(titles(br#"["ru", []]"#), Vec::<String>::new());
    assert_eq!(titles(br#"["ru"]"#), Vec::<String>::new());
    assert_eq!(titles(br#"["ru", "rust"]"#), Vec::<String>::new());
    assert_eq!(titles(br#"{"ru": ["rust"]}"#), Vec::<String>::new());
    assert_eq!(titles(br#"["ru", ["rust"]"#), Vec::<String>::new());
    assert_eq!(titles(b""), Vec::<String>::new());
    assert_eq!(titles(&[b'[', b'"', 0xff, b'"', b']']), Vec::<String>::new());
    assert_eq!(titles("[0, [\"caf\u{e9}\"]]".as_bytes()), vec!["caf\u{e9}"]);
    let suggestion = &parse_suggestions(br#"[0, ["x"]]"#)[0];
    assert_eq!(suggestion, &CompletionItem::from_suggestion("x".to_string()));
}

#[test]
fn suggestions_are_read_from_a_parsed_response() {
    let list = JsonItem::List(vec![
        None,
        Some("a".to_string()),
        Some("b".to_string()),
        None,
        Some("c".to_string()),
        Some("d".to_string()),
    ]);
    let titles = |response: Option<Vec<JsonItem>>| -> Vec<String> {
        suggestions_from(response).into_iter().map(|i| i.title).collect()
    };
    assert_eq!(titles(Some(vec![JsonItem::Null, list])), vec!["a", "b", "c"]);
    assert_eq!(titles(Some(vec![JsonItem::List(vec![Some("x".to_string())])])), Vec::<String>::new());
    assert_eq!(
        titles(Some(vec![JsonItem::Object, JsonItem::Text("x".to_string())])),
        Vec::<String>::new()
    );
    assert_eq!(titles(Some(Vec::new())), Vec::<String>::new());
    assert_eq!(titles(None), Vec::<String>::new());
}

#[test]
fn lines_with_known_scriptlets_are_compiled_in_order() {
    let lists = vec![
        "! comment\nyoutube.com##+js(set, a.b, true)\r\n\n  x.com##+js(unknown-scriptlet, 1)\nx.com##.banner\n".to_string(),
        "a.com,b.com##+js(aopr, ads)".to_string(),
    ];
    let mut manager = ScriptletManager::new();
    assert_eq!(manager.rule_count(), 0);
    manager.parse_and_compile(&lists);
    assert_eq!(manager.rule_count(), 2);
    assert_eq!(manager.script_count(), 2);
    let scripts = manager.scripts();
    assert_eq!(scripts[0].rule.domains, vec!["youtube.com"]);
    assert_eq!(scripts[0].rule.scriptlet_name, "set-constant");
    assert!(scripts[0].source.contains("const cValue = true;"));
    assert_eq!(scripts[0].allow_list, vec!["*://youtube.com/*", "*://*.youtube.com/*"]);
    assert_eq!(scripts[1].rule.scriptlet_name, "abort-on-property-read");
    assert_eq!(scripts[1].allow_list.len(), 4);
    // Compiling anew drops what was compiled before.
    manager.parse_and_compile(&vec!["a.com##+js(nostif, x)".to_string()]);
    assert_eq!(manager.rule_count(), 1);
    manager.parse_and_compile(&Vec::new());
    assert_eq!(manager.script_count(), 0);
    assert!(compile_line("a.com##+js(ra, href)").is_none());
    assert!(compile_line("a.com##+js(set, x)").is_some());
}

fn transfer(status: DownloadStatus, supports_resume: bool) -> DownloadItem {
    DownloadItem {
        id: 9,
        filename: "disk.iso".to_string(),
        url: "http://x/disk.iso".to_string(),
        destination: "/dl/disk.iso".to_string(),
        total_bytes: 2048,
        received_bytes: 1024,
        status,
        started_at: SystemTime::UNIX_EPOCH,
        supports_resume,
    }
}

#[test]
fn a_row_shows_what_the_status_calls_for() {
    let running = transfer(DownloadStatus::InProgress, true).row_content("1 KB/s", Some(61));
    assert_eq!(running.filename, "disk.iso");
    assert_eq!(running.status_text, "1 KB/s - 1m 1s left - 1 KB / 2 KB");
    assert!(running.progress_visible);
    assert_eq!(running.status_icon, None);
    assert_eq!(running.pause_button, Some(RowButton::Pause));
    assert_eq!(running.action_button, Some(RowButton::Cancel));
    assert!(!running.dismiss_visible);
    let plain = transfer(DownloadStatus::InProgress, false).row_content("0 B/s", None);
    assert_eq!(plain.status_text, "0 B/s - calculating... left - 1 KB / 2 KB");
    assert_eq!(plain.pause_button, None);

    let paused = transfer(DownloadStatus::Paused, true).row_content("", None);
    assert_eq!(paused.status_text, "Paused - 1 KB / 2 KB");
    assert!(paused.progress_visible);
    assert_eq!(paused.pause_button, Some(RowButton::Resume));
    assert_eq!(paused.action_button, None);
    assert!(paused.dismiss_visible);
    let stuck = transfer(DownloadStatus::Paused, false).row_content("", None);
    assert_eq!(stuck.status_text, "Paused (resume not supported) - 1 KB / 2 KB");
    assert_eq!(stuck.pause_button, None);

    let done = transfer(DownloadStatus::Completed, true).row_content("", None);
    assert_eq!(done.status_text, "Completed");
    assert!(!done.progress_visible);
    assert_eq!(done.status_icon, Some(StatusIcon::Completed));
    assert_eq!(done.pause_button, None);
    assert_eq!(done.action_button, Some(RowButton::ShowInFolder));
    assert!(done.dismiss_visible);

    let failed = transfer(DownloadStatus::Failed("timeout".to_string()), true).row_content("", None);
    assert_eq!(failed.status_text, "Failed: timeout");
    assert_eq!(failed.status_icon, Some(StatusIcon::Failed));
    assert_eq!(failed.action_button, None);
    let cancelled = transfer(DownloadStatus::Cancelled, true).row_content("", None);
    assert_eq!(cancelled.status_text, "Cancelled");
    assert_eq!(cancelled.status_icon, Some(StatusIcon::Cancelled));
    assert!(!cancelled.progress_visible);

    assert_eq!(RowButton::Pause.icon_name(), "media-playback-pause-symbolic");
    assert_eq!(RowButton::Resume.icon_name(), "media-playback-start-symbolic");
    assert_eq!(RowButton::Cancel.icon_name(), "process-stop-symbolic");
    assert_eq!(RowButton::ShowInFolder.icon_name(), "folder-open-symbolic");
    assert_eq!(RowButton::ShowInFolder.tooltip_text(), "Show in folder");
    assert_eq!(RowButton::Resume.tooltip_text(), "Resume");
    assert_eq!(StatusIcon::Completed.icon_name(), "emblem-ok-symbolic");
    assert_eq!(StatusIcon::Failed.icon_name(), "dialog-error-symbolic");
    assert_eq!(StatusIcon::Cancelled.icon_name(), "process-stop-symbolic");
}

fn open(id: u32, url: &str) -> OpenTab {
    OpenTab {
        id,
        url: url.to_string(),
        title: Some(format!("T{}", id)),
        container: "work".to_string(),
    }
}

#[test]
fn tabs_are_saved_in_the_order_they_were_opened() {
    let tabs = vec![open(7, "https://g/"), open(2, "https://b/"), open(5, "https://e/"), open(2, "https://b2/")];
    let (ordered, active) = get_all_tabs(&tabs, Some(5));
    let urls: Vec<&str> = ordered.iter().map(|t| t.url.as_str()).collect();
    assert_eq!(urls, vec!["https://b/", "https://b2/", "https://e/", "https://g/"]);
    assert_eq!(active, 2);
    assert_eq!(get_all_tabs(&tabs, Some(2)).1, 0);
    assert_eq!(get_all_tabs(&tabs, Some(9)).1, 0);
    assert_eq!(get_all_tabs(&tabs, None).1, 0);
    assert_eq!(get_all_tabs(&Vec::new(), Some(1)), (Vec::new(), 0));

    let window = get_session_data(&ordered, active, 800, 600);
    assert_eq!(window.tabs.len(), 4);
    assert_eq!(window.tabs[3].url, "https://g/");
    assert_eq!(window.tabs[3].title, Some("T7".to_string()));
    assert_eq!(window.tabs[3].container, Some("work".to_string()));
    assert_eq!(window.active_tab_index, 2);
    assert_eq!((window.window_width, window.window_height), (Some(800), Some(600)));
}

#[test]
fn only_windows_with_tabs_are_saved() {
    let full = get_session_data(&vec![open(1, "https://a/")], 0, 1, 2);
    let empty = get_session_data(&Vec::new(), 0, 3, 4);
    let session = save_all_windows(vec![None, Some(empty), Some(full), None]);
    assert_eq!(session.windows.len(), 1);
    assert_eq!(session.windows[0].window_width, Some(1));
    assert_eq!(save_all_windows(Vec::new()).windows.len(), 0);
}

#[test]
fn a_window_is_restored_tab_by_tab() {
    let saved = SavedWindow {
        tabs: vec![
            SavedTab { url: "https://a.example/x".to_string(), title: None, container: Some("work".to_string()) },
            SavedTab { url: "garbage".to_string(), title: None, container: None },
        ],
        active_tab_index: 1,
        window_width: None,
        window_height: None,
    };
    let tabs = restore_from_saved_window(&saved);
    assert_eq!(tabs.len(), 2);
    assert_eq!(tabs[0].url.as_ref().map(|u| u.as_str()), Some("https://a.example/x"));
    assert_eq!(tabs[0].container, Some("work".to_string()));
    assert_eq!(tabs[1].url, None);
    assert_eq!(tabs[1].container, None);
    let blank = restore_from_saved_window(&SavedWindow::default());
    assert_eq!(blank.len(), 1);
    assert_eq!(blank[0].url, None);
    assert_eq!(restored_active_tab(&vec![10, 11], 1), Some(11));
    assert_eq!(restored_active_tab(&vec![10, 11], 2), None);
}

#[test]
fn closing_a_tab_returns_to_its_parent() {
    assert_eq!(tab_after_close(Some(3), true, Some(1)), Some(3));
    assert_eq!(tab_after_close(Some(3), false, Some(1)), Some(1));
    assert_eq!(tab_after_close(None, true, Some(1)), Some(1));
    assert_eq!(tab_after_close(None, false, None), None);
    let tab = closed_tab(None, String::new(), "work".to_string(), SystemTime::UNIX_EPOCH);
    assert_eq!(tab.url, "");
    assert_eq!(tab.title, None);
    assert_eq!(tab.container, "work");
    let titled = closed_tab(Some("https://a/".to_string()), "A".to_string(), "work".to_string(), SystemTime::UNIX_EPOCH);
    assert_eq!(titled.url, "https://a/");
    assert_eq!(titled.title, Some("A".to_string()));
}

#[test]
fn the_window_is_titled_after_the_page() {
    assert_eq!(window_title(Some("Rust")), "Rust - qayeq");
    assert_eq!(window_title(Some("")), "qayeq");
    assert_eq!(window_title(None), "qayeq");
}

#[test]
fn default_containers_and_loaded_profiles_are_not_deleted() {
    for name in ["personal", "work", "shopping", "banking"] {
        assert_eq!(check_delete(name, false, true), Err(DeleteRefusal::DefaultContainer));
        assert_eq!(DefaultContainer::from_id(name).unwrap().profile_name(), name);
    }
    assert_eq!(check_delete("travel", true, true), Err(DeleteRefusal::Loaded));
    assert_eq!(check_delete("travel", true, false), Err(DeleteRefusal::Loaded));
    assert_eq!(check_delete("travel", false, false), Err(DeleteRefusal::NotFound));
    assert_eq!(check_delete("travel", false, true), Ok(()));
    assert_eq!(DefaultContainer::Work.display_name(), "Work");
    assert_eq!(DefaultContainer::Banking.color(), "#9141ac");
    assert_eq!(DefaultContainer::from_id("Work"), None);
}
