//! What the tabs of a window come to when they are saved, closed and
//! restored.

use vstd::prelude::*;
use std::time::SystemTime;
use crate::address::{ParsedUrl, UrlView, url_parse};
use crate::config::APP_NAME;
use crate::ordering::{lemma_inserted_at, stably_sorted};
use crate::recently_closed::{ClosedTab, ClosedTabView};
use crate::session::{MultiWindowSession, SavedTab, SavedTabView, SavedWindow, SavedWindowView};
use crate::text::{chars_of, matches_at, option_text, push_str, starts_with, string_of};

verus! {

/// An open tab that shows a page.
#[derive(Debug, PartialEq, Eq)]
pub struct OpenTab {
    pub id: u32,
    /// The address of the page.
    pub url: String,
    /// The title of the page, where it has one.
    pub title: Option<String>,
    /// The container that the tab belongs to.
    pub container: String,
}

/// What an `OpenTab` stands for in contracts.
pub struct OpenTabView {
    pub id: u32,
    pub url: Seq<char>,
    pub title: Option<Seq<char>>,
    pub container: Seq<char>,
}

impl View for OpenTab {
    type V = OpenTabView;

    open spec fn view(&self) -> OpenTabView {
        OpenTabView {
            id: self.id,
            url: self.url@,
            title: option_text(self.title),
            container: self.container@,
        }
    }
}

impl Clone for OpenTab {
    fn clone(&self) -> (copy: OpenTab)
        ensures
            copy@ == self@,
    {
        OpenTab {
            id: self.id,
            url: self.url.clone(),
            title: match &self.title {
                Some(t) => Some(t.clone()),
                None => None,
            },
            container: self.container.clone(),
        }
    }
}

/// The views of `tabs`, in order.
pub open spec fn open_tab_views(tabs: Seq<OpenTab>) -> Seq<OpenTabView> {
    Seq::new(tabs.len(), |i: int| tabs[i]@)
}

/// The order of tabs by their ids, which is the order they were opened in.
pub open spec fn by_id() -> spec_fn(OpenTabView, OpenTabView) -> bool {
    |a: OpenTabView, b: OpenTabView| a.id < b.id
}

/// Where the tab `active` stands among `tabs`, from `from` on; 0 where it
/// does not stand there, or where no tab is active.
pub open spec fn active_index_from(tabs: Seq<OpenTabView>, active: Option<u32>, from: int) -> int
    decreases tabs.len() - from + 1,
{
    if from < 0 || from >= tabs.len() || active is None {
        0
    } else if tabs[from].id == active->0 {
        from
    } else {
        active_index_from(tabs, active, from + 1)
    }
}

/// Where the tab `active` stands among `tabs`.
pub open spec fn active_index(tabs: Seq<OpenTabView>, active: Option<u32>) -> int {
    active_index_from(tabs, active, 0)
}

/// Get all tabs for session saving: the tabs in the order of their ids, and
/// the place of the active tab among them.
pub fn get_all_tabs(tabs: &Vec<OpenTab>, active: Option<u32>) -> (ordered: (Vec<OpenTab>, usize))
    ensures
        open_tab_views(ordered.0@) == stably_sorted(open_tab_views(tabs@), by_id()),
        ordered.1 == active_index(open_tab_views(ordered.0@), active),
{
    let ghost all = open_tab_views(tabs@);
    let mut sorted: Vec<OpenTab> = Vec::new();
    let mut i: usize = 0;
    assert(all.take(0) =~= Seq::<OpenTabView>::empty());
    assert(open_tab_views(sorted@) =~= Seq::<OpenTabView>::empty());
    while i < tabs.len()
        invariant
            i <= tabs@.len(),
            all == open_tab_views(tabs@),
            open_tab_views(sorted@) == stably_sorted(all.take(i as int), by_id()),
        decreases tabs@.len() - i,
    {
        let next = tabs[i].clone();
        let mut at: usize = sorted.len();
        while at > 0 && next.id < sorted[at - 1].id
            invariant
                at <= sorted@.len(),
                forall|j: int|
                    at <= j < sorted@.len() ==> (by_id())(next@, open_tab_views(sorted@)[j]),
            decreases at,
        {
            at -= 1;
        }
        proof {
            lemma_inserted_at(open_tab_views(sorted@), next@, by_id(), at as int);
            assert(all.take(i + 1).drop_last() =~= all.take(i as int));
        }
        let ghost before = open_tab_views(sorted@);
        sorted.insert(at, next);
        assert(open_tab_views(sorted@) =~= before.insert(at as int, next@));
        i += 1;
    }
    assert(all.take(i as int) =~= all);
    let index = find_active(&sorted, active);
    (sorted, index)
}

/// Where the tab `active` stands among `tabs`.
fn find_active(tabs: &Vec<OpenTab>, active: Option<u32>) -> (index: usize)
    ensures
        index == active_index(open_tab_views(tabs@), active),
{
    match active {
        Some(id) => {
            let mut i: usize = 0;
            while i < tabs.len()
                invariant
                    i <= tabs@.len(),
                    active == Some(id),
                    active_index(open_tab_views(tabs@), active) == active_index_from(
                        open_tab_views(tabs@),
                        active,
                        i as int,
                    ),
                decreases tabs@.len() - i,
            {
                if tabs[i].id == id {
                    return i;
                }
                i += 1;
            }
            0
        },
        None => 0,
    }
}

/// The title of the window that shows a page with the title `title`: the
/// page's title and the application's name, or the name alone where the page
/// has no title.
pub open spec fn titled(title: Option<Seq<char>>) -> Seq<char> {
    match title {
        Some(t) => if t.len() > 0 {
            t + " - "@ + APP_NAME@
        } else {
            APP_NAME@
        },
        None => APP_NAME@,
    }
}

/// The title of the window that shows a page with the title `title`.
pub fn window_title(title: Option<&str>) -> (text: String)
    ensures
        text@ == titled(
            match title {
                Some(t) => Some(t@),
                None => None,
            },
        ),
{
    match title {
        Some(t) => {
            let mut out = chars_of(t);
            if out.len() > 0 {
                push_str(&mut out, " - ");
                push_str(&mut out, APP_NAME);
                string_of(&out)
            } else {
                APP_NAME.to_owned()
            }
        },
        None => APP_NAME.to_owned(),
    }
}

/// The tab to show once the active tab is closed: the tab that opened it,
/// if that is still open, and else the first tab of the list.
pub fn tab_after_close(parent: Option<u32>, parent_is_open: bool, first: Option<u32>) -> (next:
    Option<u32>)
    ensures
        next == if parent is Some && parent_is_open {
            parent
        } else {
            first
        },
{
    match parent {
        Some(id) => if parent_is_open {
            Some(id)
        } else {
            first
        },
        None => first,
    }
}

/// What is remembered of a tab that is closed: its address (empty where it
/// shows no page), its title unless that is empty, and its container.
pub fn closed_tab(url: Option<String>, title: String, container: String, closed_at: SystemTime)
    -> (tab: ClosedTab)
    ensures
        tab@ == (ClosedTabView {
            url: match url {
                Some(u) => u@,
                None => Seq::empty(),
            },
            title: if title@.len() == 0 {
                None
            } else {
                Some(title@)
            },
            container: container@,
            closed_at,
        }),
{
    let url = match url {
        Some(u) => u,
        None => String::new(),
    };
    let title = if chars_of(title.as_str()).len() == 0 {
        None
    } else {
        Some(title)
    };
    ClosedTab { url, title, container, closed_at }
}

/// The saved tab of an open one.
pub open spec fn saved_of(tab: OpenTabView) -> SavedTabView {
    SavedTabView { url: tab.url, title: tab.title, container: Some(tab.container) }
}

/// Get the session data of a window: its tabs, in order, with their
/// containers, the place of the active one, and the window's size.
pub fn get_session_data(tabs: &Vec<OpenTab>, active_index: usize, width: i32, height: i32) -> (window:
    SavedWindow)
    ensures
        window@ == (SavedWindowView {
            tabs: Seq::new(tabs@.len(), |i: int| saved_of(tabs@[i]@)),
            active_tab_index: active_index,
            window_width: Some(width),
            window_height: Some(height),
        }),
{
    let mut saved: Vec<SavedTab> = Vec::new();
    let mut i: usize = 0;
    while i < tabs.len()
        invariant
            i <= tabs@.len(),
            saved@.len() == i,
            forall|j: int| 0 <= j < i ==> saved@[j]@ == saved_of(tabs@[j]@),
        decreases tabs@.len() - i,
    {
        let tab = tabs[i].clone();
        saved.push(SavedTab { url: tab.url, title: tab.title, container: Some(tab.container) });
        i += 1;
    }
    let window = SavedWindow {
        tabs: saved,
        active_tab_index: active_index,
        window_width: Some(width),
        window_height: Some(height),
    };
    assert(window@.tabs =~= Seq::new(tabs@.len(), |i: int| saved_of(tabs@[i]@)));
    window
}

/// Whether a window is worth saving: it has session data with a tab.
pub open spec fn is_worth_saving(window: Option<SavedWindow>) -> bool {
    window is Some && window->0.tabs@.len() > 0
}

/// The views of the windows among `windows` that are worth saving, in
/// order.
pub open spec fn windows_to_save(windows: Seq<Option<SavedWindow>>) -> Seq<SavedWindowView>
    decreases windows.len(),
{
    if windows.len() == 0 {
        Seq::empty()
    } else if is_worth_saving(windows.last()) {
        windows_to_save(windows.drop_last()).push(windows.last()->0@)
    } else {
        windows_to_save(windows.drop_last())
    }
}

/// The session that holds all open windows: each window that has session
/// data with at least one tab, in order.
pub fn save_all_windows(windows: Vec<Option<SavedWindow>>) -> (session: MultiWindowSession)
    ensures
        session@ == windows_to_save(windows@),
{
    let mut session = MultiWindowSession::new();
    let mut i: usize = 0;
    assert(windows@.take(0) =~= Seq::<Option<SavedWindow>>::empty());
    while i < windows.len()
        invariant
            i <= windows@.len(),
            session@ == windows_to_save(windows@.take(i as int)),
        decreases windows@.len() - i,
    {
        assert(windows@.take(i + 1).drop_last() =~= windows@.take(i as int));
        match &windows[i] {
            Some(window) => {
                if window.tabs.len() > 0 {
                    session.add_window(window.clone());
                }
            },
            None => {},
        }
        i += 1;
    }
    assert(windows@.take(i as int) =~= windows@);
    session
}

/// Whether `text` begins with `prefix`.
pub open spec fn begins_with(text: Seq<char>, prefix: Seq<char>) -> bool {
    matches_at(text, prefix, 0)
}

/// Whether a response with the MIME type `mime` is downloaded and not
/// shown: it is one whose type begins like one of the types of archives, disk
/// images, packages and programs.
pub open spec fn is_download_type(mime: Seq<char>) -> bool {
    ||| begins_with(mime, "application/octet-stream"@)
    ||| begins_with(mime, "application/x-iso9660-image"@)
    ||| begins_with(mime, "application/zip"@)
    ||| begins_with(mime, "application/x-tar"@)
    ||| begins_with(mime, "application/gzip"@)
    ||| begins_with(mime, "application/x-gzip"@)
    ||| begins_with(mime, "application/x-bzip2"@)
    ||| begins_with(mime, "application/x-xz"@)
    ||| begins_with(mime, "application/x-7z-compressed"@)
    ||| begins_with(mime, "application/x-rar-compressed"@)
    ||| begins_with(mime, "application/vnd.rar"@)
    ||| begins_with(mime, "application/x-executable"@)
    ||| begins_with(mime, "application/x-deb"@)
    ||| begins_with(mime, "application/x-rpm"@)
    ||| begins_with(mime, "application/x-redhat-package-manager"@)
    ||| begins_with(mime, "application/x-apple-diskimage"@)
    ||| begins_with(mime, "application/x-msdos-program"@)
    ||| begins_with(mime, "application/x-msdownload"@)
}

fn begins(text: &Vec<char>, prefix: &str) -> (begins: bool)
    ensures
        begins == begins_with(text@, prefix@),
{
    starts_with(text, &chars_of(prefix))
}

/// Whether a response with the MIME type `mime_type` is downloaded and not
/// shown.
pub fn is_download_mime_type(mime_type: &str) -> (download: bool)
    ensures
        download == is_download_type(mime_type@),
{
    let mime = chars_of(mime_type);
    begins(&mime, "application/octet-stream") || begins(&mime, "application/x-iso9660-image")
        || begins(&mime, "application/zip") || begins(&mime, "application/x-tar") || begins(
        &mime,
        "application/gzip",
    ) || begins(&mime, "application/x-gzip") || begins(&mime, "application/x-bzip2") || begins(
        &mime,
        "application/x-xz",
    ) || begins(&mime, "application/x-7z-compressed") || begins(
        &mime,
        "application/x-rar-compressed",
    ) || begins(&mime, "application/vnd.rar") || begins(&mime, "application/x-executable")
        || begins(&mime, "application/x-deb") || begins(&mime, "application/x-rpm") || begins(
        &mime,
        "application/x-redhat-package-manager",
    ) || begins(&mime, "application/x-apple-diskimage") || begins(
        &mime,
        "application/x-msdos-program",
    ) || begins(&mime, "application/x-msdownload")
}

/// Whether a visit to the page at `uri` goes into the history: the
/// browser's own pages, whose addresses begin with `about:`, do not.
pub fn is_recorded(uri: &str) -> (recorded: bool)
    ensures
        recorded == !begins_with(uri@, "about:"@),
{
    !begins(&chars_of(uri), "about:")
}

/// A tab to open when a window is restored.
#[derive(Debug, PartialEq, Eq)]
pub struct TabToOpen {
    /// The page to load; none where the saved address is no URL.
    pub url: Option<ParsedUrl>,
    pub container: Option<String>,
}

/// What a `TabToOpen` stands for in contracts.
pub struct TabToOpenView {
    pub url: Option<UrlView>,
    pub container: Option<Seq<char>>,
}

impl View for TabToOpen {
    type V = TabToOpenView;

    open spec fn view(&self) -> TabToOpenView {
        TabToOpenView {
            url: match self.url {
                Some(u) => Some(u@),
                None => None,
            },
            container: option_text(self.container),
        }
    }
}

/// The tabs to open for the saved tabs `tabs`: one for each, in order; an
/// empty one where nothing was saved.
pub open spec fn tabs_to_open(tabs: Seq<SavedTabView>) -> Seq<TabToOpenView> {
    if tabs.len() == 0 {
        seq![TabToOpenView { url: None, container: None }]
    } else {
        Seq::new(
            tabs.len(),
            |i: int| TabToOpenView { url: url_parse(tabs[i].url), container: tabs[i].container },
        )
    }
}

/// Restore a window from saved session data: the tabs to open, in order.
pub fn restore_from_saved_window(saved: &SavedWindow) -> (tabs: Vec<TabToOpen>)
    ensures
        Seq::new(tabs@.len(), |i: int| tabs@[i]@) == tabs_to_open(saved@.tabs),
{
    let mut tabs: Vec<TabToOpen> = Vec::new();
    if saved.tabs.len() == 0 {
        tabs.push(TabToOpen { url: None, container: None });
        assert(Seq::new(tabs@.len(), |i: int| tabs@[i]@) =~= tabs_to_open(saved@.tabs));
        return tabs;
    }
    let mut i: usize = 0;
    while i < saved.tabs.len()
        invariant
            i <= saved.tabs@.len(),
            tabs@.len() == i,
            forall|j: int| 0 <= j < i ==> tabs@[j]@ == tabs_to_open(saved@.tabs)[j],
        decreases saved.tabs@.len() - i,
    {
        let tab = &saved.tabs[i];
        let url = match ParsedUrl::parse(tab.url.as_str()) {
            Ok(u) => Some(u),
            Err(_) => None,
        };
        let container = match &tab.container {
            Some(c) => Some(c.clone()),
            None => None,
        };
        tabs.push(TabToOpen { url, container });
        i += 1;
    }
    assert(Seq::new(tabs@.len(), |i: int| tabs@[i]@) =~= tabs_to_open(saved@.tabs));
    tabs
}

/// The tab to switch to once a window is restored: the one that was opened
/// for the saved tab at `active_index`, if there is such a tab.
pub fn restored_active_tab(tab_ids: &Vec<u32>, active_index: usize) -> (id: Option<u32>)
    ensures
        id == if active_index < tab_ids@.len() {
            Some(tab_ids@[active_index as int])
        } else {
            None
        },
{
    if active_index < tab_ids.len() {
        Some(tab_ids[active_index])
    } else {
        None
    }
}

} // verus!
