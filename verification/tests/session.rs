use qayeq::session::{MultiWindowSession, SavedTab, SavedWindow, Session};

fn saved(url: &str) -> SavedTab {
    SavedTab { url: url.to_string(), title: None, container: Some("work".to_string()) }
}

fn one_window(urls: &[&str]) -> SavedWindow {
    SavedWindow {
        tabs: urls.iter().map(|u| saved(u)).collect(),
        active_tab_index: 0,
        window_width: Some(800),
        window_height: Some(600),
    }
}

#[test]
fn a_session_collects_tabs_and_clears_them() {
    let mut session = Session::new();
    assert!(!session.has_tabs());
    assert_eq!(session.active_tab_index, 0);
    assert_eq!(session.window_width, None);
    session.add_tab("https://a".to_string(), Some("A".to_string()));
    session.add_tab("https://b".to_string(), None);
    assert!(session.has_tabs());
    assert_eq!(session.tabs.len(), 2);
    assert_eq!(session.tabs[0].url, "https://a");
    assert_eq!(session.tabs[0].title, Some("A".to_string()));
    assert_eq!(session.tabs[0].container, None);
    assert_eq!(session.tabs[1].url, "https://b");
    session.active_tab_index = 1;
    session.window_width = Some(1024);
    session.clear();
    assert!(!session.has_tabs());
    assert_eq!(session.active_tab_index, 0);
    assert_eq!(session.window_width, Some(1024));
}

#[test]
fn a_multi_window_session_has_windows_once_one_has_a_tab() {
    let mut session = MultiWindowSession::new();
    assert!(!session.has_windows());
    session.add_window(SavedWindow::default());
    assert!(!session.has_windows());
    session.add_window(one_window(&["https://a"]));
    assert!(session.has_windows());
    assert_eq!(session.windows.len(), 2);
    assert_eq!(session.windows[1].tabs[0].url, "https://a");
}

#[test]
fn a_stored_session_is_read_in_either_format() {
    let mut multi = MultiWindowSession::new();
    multi.add_window(one_window(&["https://a", "https://b"]));
    let mut legacy = Session::new();
    legacy.add_tab("https://old".to_string(), Some("Old".to_string()));
    legacy.active_tab_index = 0;
    legacy.window_width = Some(640);

    let both = MultiWindowSession::from_stored(
        Some(MultiWindowSession { windows: multi.windows.clone() }),
        Some(copy(&legacy)),
    );
    assert_eq!(both.windows.len(), 1);
    assert_eq!(both.windows[0].tabs.len(), 2);

    let only_legacy = MultiWindowSession::from_stored(None, Some(copy(&legacy)));
    assert_eq!(only_legacy.windows.len(), 1);
    assert_eq!(only_legacy.windows[0].tabs[0].url, "https://old");
    assert_eq!(only_legacy.windows[0].tabs[0].title, Some("Old".to_string()));
    assert_eq!(only_legacy.windows[0].window_width, Some(640));
    assert_eq!(only_legacy.windows[0].window_height, None);

    let empty_multi =
        MultiWindowSession::from_stored(Some(MultiWindowSession::new()), Some(copy(&legacy)));
    assert_eq!(empty_multi.windows.len(), 1);
    assert_eq!(empty_multi.windows[0].tabs[0].url, "https://old");

    let nothing = MultiWindowSession::from_stored(Some(MultiWindowSession::new()), Some(Session::new()));
    assert_eq!(nothing.windows.len(), 0);
    assert_eq!(MultiWindowSession::from_stored(None, None).windows.len(), 0);
}

fn copy(session: &Session) -> Session {
    Session {
        tabs: session.tabs.clone(),
        active_tab_index: session.active_tab_index,
        window_width: session.window_width,
        window_height: session.window_height,
    }
}
