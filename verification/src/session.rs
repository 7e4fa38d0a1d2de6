//! Session state for saving and restoring browser tabs.

use vstd::prelude::*;
use crate::text::option_text;

verus! {

/// A saved tab entry.
#[derive(Debug)]
pub struct SavedTab {
    pub url: String,
    pub title: Option<String>,
    pub container: Option<String>,
}

/// What a `SavedTab` stands for in contracts.
pub struct SavedTabView {
    pub url: Seq<char>,
    pub title: Option<Seq<char>>,
    pub container: Option<Seq<char>>,
}

fn clone_text(text: &Option<String>) -> (copy: Option<String>)
    ensures
        option_text(copy) == option_text(*text),
{
    match text {
        Some(t) => Some(t.clone()),
        None => None,
    }
}

impl View for SavedTab {
    type V = SavedTabView;

    open spec fn view(&self) -> SavedTabView {
        SavedTabView {
            url: self.url@,
            title: option_text(self.title),
            container: option_text(self.container),
        }
    }
}

impl Clone for SavedTab {
    fn clone(&self) -> (copy: SavedTab)
        ensures
            copy@ == self@,
    {
        SavedTab {
            url: self.url.clone(),
            title: clone_text(&self.title),
            container: clone_text(&self.container),
        }
    }
}

/// The views of `tabs`, in order.
pub open spec fn saved_tab_views(tabs: Seq<SavedTab>) -> Seq<SavedTabView> {
    Seq::new(tabs.len(), |i: int| tabs[i]@)
}

/// A saved window with its tabs.
#[derive(Debug)]
pub struct SavedWindow {
    pub tabs: Vec<SavedTab>,
    pub active_tab_index: usize,
    pub window_width: Option<i32>,
    pub window_height: Option<i32>,
}

/// What a `SavedWindow` stands for in contracts.
pub struct SavedWindowView {
    pub tabs: Seq<SavedTabView>,
    pub active_tab_index: usize,
    pub window_width: Option<i32>,
    pub window_height: Option<i32>,
}

impl View for SavedWindow {
    type V = SavedWindowView;

    open spec fn view(&self) -> SavedWindowView {
        SavedWindowView {
            tabs: saved_tab_views(self.tabs@),
            active_tab_index: self.active_tab_index,
            window_width: self.window_width,
            window_height: self.window_height,
        }
    }
}

fn clone_tabs(tabs: &Vec<SavedTab>) -> (copy: Vec<SavedTab>)
    ensures
        saved_tab_views(copy@) == saved_tab_views(tabs@),
{
    let mut copy: Vec<SavedTab> = Vec::new();
    let mut i: usize = 0;
    while i < tabs.len()
        invariant
            i <= tabs@.len(),
            copy@.len() == i,
            forall|j: int| 0 <= j < i ==> copy@[j]@ == tabs@[j]@,
        decreases tabs@.len() - i,
    {
        copy.push(tabs[i].clone());
        i += 1;
    }
    assert(saved_tab_views(copy@) =~= saved_tab_views(tabs@));
    copy
}

impl Clone for SavedWindow {
    fn clone(&self) -> (copy: SavedWindow)
        ensures
            copy@ == self@,
    {
        SavedWindow {
            tabs: clone_tabs(&self.tabs),
            active_tab_index: self.active_tab_index,
            window_width: self.window_width,
            window_height: self.window_height,
        }
    }
}

impl Default for SavedWindow {
    fn default() -> (window: SavedWindow)
        ensures
            window@ == (SavedWindowView {
                tabs: Seq::empty(),
                active_tab_index: 0,
                window_width: None,
                window_height: None,
            }),
    {
        let window = SavedWindow {
            tabs: Vec::new(),
            active_tab_index: 0,
            window_width: None,
            window_height: None,
        };
        assert(window@.tabs =~= Seq::empty());
        window
    }
}

/// The views of `windows`, in order.
pub open spec fn saved_window_views(windows: Seq<SavedWindow>) -> Seq<SavedWindowView> {
    Seq::new(windows.len(), |i: int| windows[i]@)
}

/// Session state to persist across restarts (legacy single-window format).
#[derive(Debug)]
pub struct Session {
    pub tabs: Vec<SavedTab>,
    pub active_tab_index: usize,
    pub window_width: Option<i32>,
    pub window_height: Option<i32>,
}

/// What a `Session` stands for in contracts.
pub struct SessionView {
    pub tabs: Seq<SavedTabView>,
    pub active_tab_index: usize,
    pub window_width: Option<i32>,
    pub window_height: Option<i32>,
}

impl View for Session {
    type V = SessionView;

    open spec fn view(&self) -> SessionView {
        SessionView {
            tabs: saved_tab_views(self.tabs@),
            active_tab_index: self.active_tab_index,
            window_width: self.window_width,
            window_height: self.window_height,
        }
    }
}

impl SessionView {
    /// A session without tabs.
    pub open spec fn empty() -> SessionView {
        SessionView {
            tabs: Seq::empty(),
            active_tab_index: 0,
            window_width: None,
            window_height: None,
        }
    }

    /// The one window that a single-window session holds.
    pub open spec fn as_window(self) -> SavedWindowView {
        SavedWindowView {
            tabs: self.tabs,
            active_tab_index: self.active_tab_index,
            window_width: self.window_width,
            window_height: self.window_height,
        }
    }
}

impl Default for Session {
    fn default() -> (session: Session)
        ensures
            session@ == SessionView::empty(),
    {
        let session = Session {
            tabs: Vec::new(),
            active_tab_index: 0,
            window_width: None,
            window_height: None,
        };
        assert(session@.tabs =~= Seq::empty());
        session
    }
}

impl Session {
    /// Create an empty session.
    pub fn new() -> (session: Session)
        ensures
            session@ == SessionView::empty(),
    {
        Session::default()
    }

    /// Check if there are any tabs to restore.
    pub fn has_tabs(&self) -> (any: bool)
        ensures
            any == (self@.tabs.len() > 0),
    {
        self.tabs.len() > 0
    }

    /// Add a tab to the session, at the end and in no container.
    pub fn add_tab(&mut self, url: String, title: Option<String>)
        ensures
            final(self)@ == (SessionView {
                tabs: old(self)@.tabs.push(
                    SavedTabView { url: url@, title: option_text(title), container: None },
                ),
                ..old(self)@
            }),
    {
        self.tabs.push(SavedTab { url, title, container: None });
        assert(self@.tabs =~= old(self)@.tabs.push(
            SavedTabView { url: url@, title: option_text(title), container: None },
        ));
    }

    /// Clear all tabs; the window's size is kept.
    pub fn clear(&mut self)
        ensures
            final(self)@ == (SessionView {
                tabs: Seq::empty(),
                active_tab_index: 0,
                ..old(self)@
            }),
    {
        self.tabs.clear();
        self.active_tab_index = 0;
        assert(self@.tabs =~= Seq::empty());
    }
}

/// Multi-window session state to persist across restarts.
#[derive(Debug)]
pub struct MultiWindowSession {
    pub windows: Vec<SavedWindow>,
}

impl View for MultiWindowSession {
    type V = Seq<SavedWindowView>;

    open spec fn view(&self) -> Seq<SavedWindowView> {
        saved_window_views(self.windows@)
    }
}

impl Default for MultiWindowSession {
    fn default() -> (session: MultiWindowSession)
        ensures
            session@ == Seq::<SavedWindowView>::empty(),
    {
        let session = MultiWindowSession { windows: Vec::new() };
        assert(session@ =~= Seq::<SavedWindowView>::empty());
        session
    }
}

/// Whether one of `windows` has a tab.
pub open spec fn any_tabs(windows: Seq<SavedWindowView>) -> bool {
    exists|i: int| 0 <= i < windows.len() && windows[i].tabs.len() > 0
}

/// The session that a stored session file stands for: what it holds when
/// read as a multi-window session, if that has a window; else the one window
/// that it holds when read in the single-window format, if that has a tab;
/// else nothing.
pub open spec fn restored(multi: Option<Seq<SavedWindowView>>, legacy: Option<SessionView>) -> Seq<
    SavedWindowView,
> {
    if multi is Some && multi->0.len() > 0 {
        multi->0
    } else if legacy is Some && legacy->0.tabs.len() > 0 {
        seq![legacy->0.as_window()]
    } else {
        Seq::empty()
    }
}

/// What a stored session holds when read as a multi-window session.
pub open spec fn multi_view(session: Option<MultiWindowSession>) -> Option<Seq<SavedWindowView>> {
    match session {
        Some(s) => Some(s@),
        None => None,
    }
}

/// What a stored session holds when read in the single-window format.
pub open spec fn legacy_view(session: Option<Session>) -> Option<SessionView> {
    match session {
        Some(s) => Some(s@),
        None => None,
    }
}

impl MultiWindowSession {
    /// Create an empty multi-window session.
    pub fn new() -> (session: MultiWindowSession)
        ensures
            session@ == Seq::<SavedWindowView>::empty(),
    {
        MultiWindowSession::default()
    }

    /// The session to restore from a stored session file. `multi` is the
    /// file read as a multi-window session, `legacy` the file read in the
    /// single-window format; each is `None` where the file does not read so.
    pub fn from_stored(multi: Option<MultiWindowSession>, legacy: Option<Session>) -> (session:
        MultiWindowSession)
        ensures
            session@ == restored(multi_view(multi), legacy_view(legacy)),
    {
        match multi {
            Some(m) => {
                if m.windows.len() > 0 {
                    return m;
                }
            },
            None => {},
        }
        match legacy {
            Some(s) => {
                if s.tabs.len() > 0 {
                    let window = SavedWindow {
                        tabs: s.tabs,
                        active_tab_index: s.active_tab_index,
                        window_width: s.window_width,
                        window_height: s.window_height,
                    };
                    let mut windows: Vec<SavedWindow> = Vec::new();
                    windows.push(window);
                    let session = MultiWindowSession { windows };
                    assert(session@ =~= seq![s@.as_window()]);
                    return session;
                }
            },
            None => {},
        }
        MultiWindowSession::new()
    }

    /// Check if there are any windows to restore: one with a tab.
    pub fn has_windows(&self) -> (any: bool)
        ensures
            any == any_tabs(self@),
    {
        let mut i: usize = 0;
        while i < self.windows.len()
            invariant
                i <= self.windows@.len(),
                forall|j: int| 0 <= j < i ==> self@[j].tabs.len() == 0,
            decreases self.windows@.len() - i,
        {
            if self.windows[i].tabs.len() > 0 {
                assert(self@[i as int].tabs.len() > 0);
                return true;
            }
            i += 1;
        }
        false
    }

    /// Add a window to the session, at the end.
    pub fn add_window(&mut self, window: SavedWindow)
        ensures
            final(self)@ == old(self)@.push(window@),
    {
        self.windows.push(window);
        assert(self@ =~= old(self)@.push(window@));
    }
}

} // verus!
