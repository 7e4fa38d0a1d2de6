use qayeq::recently_closed::{
    ClosedTab, ClosedWindow, RecentlyClosedTabs, RecentlyClosedWindows, MAX_CLOSED_TABS,
    MAX_CLOSED_WINDOWS,
};
use std::time::{Duration, SystemTime};

fn tab(n: usize) -> ClosedTab {
    ClosedTab {
        url: format!("https://example.com/{}", n),
        title: if n % 2 == 0 { Some(format!("Page {}", n)) } else { None },
        container: "personal".to_string(),
        closed_at: SystemTime::UNIX_EPOCH + Duration::from_secs(n as u64),
    }
}

fn window(n: usize) -> ClosedWindow {
    ClosedWindow {
        tabs: vec![tab(n), tab(n + 1)],
        active_tab_index: n,
        closed_at: SystemTime::UNIX_EPOCH + Duration::from_secs(n as u64),
    }
}

#[test]
fn closed_tabs_come_back_most_recent_first() {
    let mut closed = RecentlyClosedTabs::new();
    assert!(closed.is_empty());
    assert!(closed.pop().is_none());
    closed.push(tab(1));
    closed.push(tab(2));
    assert!(!closed.is_empty());
    let urls: Vec<String> = closed.list().into_iter().map(|t| t.url).collect();
    assert_eq!(urls, vec!["https://example.com/2", "https://example.com/1"]);
    let last = closed.pop().unwrap();
    assert_eq!(last.url, "https://example.com/2");
    assert_eq!(last.title, Some("Page 2".to_string()));
    assert_eq!(last.container, "personal");
    assert_eq!(last.closed_at, SystemTime::UNIX_EPOCH + Duration::from_secs(2));
    assert_eq!(closed.pop().unwrap().url, "https://example.com/1");
    assert!(closed.is_empty());
}

#[test]
fn the_oldest_closed_tabs_are_forgotten() {
    assert_eq!(MAX_CLOSED_TABS, 25);
    let mut closed = RecentlyClosedTabs::new();
    for n in 0..30 {
        closed.push(tab(n));
        assert_eq!(closed.list().len(), (n + 1).min(25));
    }
    let urls: Vec<String> = closed.list().into_iter().map(|t| t.url).collect();
    assert_eq!(urls[0], "https://example.com/29");
    assert_eq!(urls[24], "https://example.com/5");
}

#[test]
fn closed_windows_come_back_most_recent_first() {
    assert_eq!(MAX_CLOSED_WINDOWS, 10);
    let mut closed = RecentlyClosedWindows::new();
    assert!(closed.is_empty());
    assert!(closed.pop().is_none());
    for n in 0..12 {
        closed.push(window(n));
    }
    let order: Vec<usize> = closed.list().iter().map(|w| w.active_tab_index).collect();
    assert_eq!(order, vec![11, 10, 9, 8, 7, 6, 5, 4, 3, 2]);
    let last = closed.pop().unwrap();
    assert_eq!(last.active_tab_index, 11);
    assert_eq!(last.tabs.len(), 2);
    assert_eq!(last.tabs[1].url, "https://example.com/12");
    assert_eq!(closed.list().len(), 9);
    assert!(!closed.is_empty());
}
