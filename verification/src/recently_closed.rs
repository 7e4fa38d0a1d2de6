//! Recently closed tabs and windows tracking.

use vstd::prelude::*;
use std::collections::VecDeque;
use std::time::SystemTime;

verus! {

/// Maximum number of recently closed tabs to remember per window.
pub const MAX_CLOSED_TABS: usize = 25;

/// Maximum number of recently closed windows to remember globally.
pub const MAX_CLOSED_WINDOWS: usize = 10;

/// A tab that was closed and can be reopened.
#[derive(Debug)]
pub struct ClosedTab {
    pub url: String,
    pub title: Option<String>,
    pub container: String,
    pub closed_at: SystemTime,
}

/// What a `ClosedTab` stands for in contracts.
pub struct ClosedTabView {
    pub url: Seq<char>,
    pub title: Option<Seq<char>>,
    pub container: Seq<char>,
    pub closed_at: SystemTime,
}

impl View for ClosedTab {
    type V = ClosedTabView;

    open spec fn view(&self) -> ClosedTabView {
        ClosedTabView {
            url: self.url@,
            title: match self.title {
                Some(t) => Some(t@),
                None => None,
            },
            container: self.container@,
            closed_at: self.closed_at,
        }
    }
}

impl Clone for ClosedTab {
    fn clone(&self) -> (copy: ClosedTab)
        ensures
            copy@ == self@,
    {
        ClosedTab {
            url: self.url.clone(),
            title: match &self.title {
                Some(t) => Some(t.clone()),
                None => None,
            },
            container: self.container.clone(),
            closed_at: self.closed_at,
        }
    }
}

/// The views of `tabs`, in order.
pub open spec fn tab_views(tabs: Seq<ClosedTab>) -> Seq<ClosedTabView> {
    Seq::new(tabs.len(), |i: int| tabs[i]@)
}

/// A window that was closed and can be reopened.
#[derive(Debug)]
pub struct ClosedWindow {
    pub tabs: Vec<ClosedTab>,
    pub active_tab_index: usize,
    pub closed_at: SystemTime,
}

/// What a `ClosedWindow` stands for in contracts.
pub struct ClosedWindowView {
    pub tabs: Seq<ClosedTabView>,
    pub active_tab_index: usize,
    pub closed_at: SystemTime,
}

impl View for ClosedWindow {
    type V = ClosedWindowView;

    open spec fn view(&self) -> ClosedWindowView {
        ClosedWindowView {
            tabs: tab_views(self.tabs@),
            active_tab_index: self.active_tab_index,
            closed_at: self.closed_at,
        }
    }
}

impl Clone for ClosedWindow {
    fn clone(&self) -> (copy: ClosedWindow)
        ensures
            copy@ == self@,
    {
        let mut tabs: Vec<ClosedTab> = Vec::new();
        let mut i: usize = 0;
        while i < self.tabs.len()
            invariant
                i <= self.tabs@.len(),
                tabs@.len() == i,
                forall|j: int| 0 <= j < i ==> tabs@[j]@ == self.tabs@[j]@,
            decreases self.tabs@.len() - i,
        {
            tabs.push(self.tabs[i].clone());
            i += 1;
        }
        assert(tab_views(tabs@) =~= tab_views(self.tabs@));
        ClosedWindow { tabs, active_tab_index: self.active_tab_index, closed_at: self.closed_at }
    }
}

/// The views of `windows`, in order.
pub open spec fn window_views(windows: Seq<ClosedWindow>) -> Seq<ClosedWindowView> {
    Seq::new(windows.len(), |i: int| windows[i]@)
}

/// The first `max` of `entries`; all of them where there are no more.
pub open spec fn newest<T>(entries: Seq<T>, max: nat) -> Seq<T> {
    if entries.len() > max {
        entries.take(max as int)
    } else {
        entries
    }
}

/// Tracks recently closed tabs for a single window.
pub struct RecentlyClosedTabs {
    tabs: VecDeque<ClosedTab>,
}

impl View for RecentlyClosedTabs {
    type V = Seq<ClosedTabView>;

    /// The remembered tabs, most recently closed first.
    closed spec fn view(&self) -> Seq<ClosedTabView> {
        tab_views(self.tabs@)
    }
}

impl Default for RecentlyClosedTabs {
    fn default() -> (closed: RecentlyClosedTabs)
        ensures
            closed@ == Seq::<ClosedTabView>::empty(),
    {
        RecentlyClosedTabs::new()
    }
}

impl RecentlyClosedTabs {
    /// Nothing closed yet.
    pub fn new() -> (closed: RecentlyClosedTabs)
        ensures
            closed@ == Seq::<ClosedTabView>::empty(),
    {
        let closed = RecentlyClosedTabs { tabs: VecDeque::new() };
        assert(closed@ =~= Seq::<ClosedTabView>::empty());
        closed
    }

    /// Record a closed tab. Oldest tabs are removed when limit is reached.
    pub fn push(&mut self, tab: ClosedTab)
        ensures
            final(self)@ == newest(seq![tab@] + old(self)@, MAX_CLOSED_TABS as nat),
    {
        self.tabs.push_front(tab);
        let ghost all = self@;
        assert(all =~= seq![tab@] + old(self)@);
        while self.tabs.len() > MAX_CLOSED_TABS
            invariant
                self@.len() <= all.len(),
                self@ == all.take(self@.len() as int),
                self@.len() >= MAX_CLOSED_TABS || self@.len() == all.len(),
            decreases self.tabs@.len(),
        {
            let ghost before = self@;
            self.tabs.pop_back();
            assert(self@ =~= all.take(before.len() - 1));
        }
        assert(all.take(all.len() as int) =~= all);
    }

    /// Get and remove the most recently closed tab.
    pub fn pop(&mut self) -> (tab: Option<ClosedTab>)
        ensures
            match tab {
                Some(t) => old(self)@.len() > 0 && t@ == old(self)@[0] && final(self)@ == old(
                    self,
                )@.skip(1),
                None => old(self)@.len() == 0 && final(self)@ == old(self)@,
            },
    {
        let tab = self.tabs.pop_front();
        assert(tab is Some ==> self@ =~= old(self)@.skip(1));
        tab
    }

    /// Get all recently closed tabs (most recent first).
    pub fn list(&self) -> (tabs: Vec<ClosedTab>)
        ensures
            tab_views(tabs@) == self@,
    {
        let mut tabs: Vec<ClosedTab> = Vec::new();
        let mut i: usize = 0;
        while i < self.tabs.len()
            invariant
                i <= self.tabs@.len(),
                tabs@.len() == i,
                forall|j: int| 0 <= j < i ==> tabs@[j]@ == self.tabs@[j]@,
            decreases self.tabs@.len() - i,
        {
            tabs.push(self.tabs[i].clone());
            i += 1;
        }
        assert(tab_views(tabs@) =~= self@);
        tabs
    }

    /// Check if there are any closed tabs.
    pub fn is_empty(&self) -> (empty: bool)
        ensures
            empty == (self@.len() == 0),
    {
        self.tabs.len() == 0
    }
}

/// Tracks recently closed windows globally (across the application).
pub struct RecentlyClosedWindows {
    windows: VecDeque<ClosedWindow>,
}

impl View for RecentlyClosedWindows {
    type V = Seq<ClosedWindowView>;

    /// The remembered windows, most recently closed first.
    closed spec fn view(&self) -> Seq<ClosedWindowView> {
        window_views(self.windows@)
    }
}

impl Default for RecentlyClosedWindows {
    fn default() -> (closed: RecentlyClosedWindows)
        ensures
            closed@ == Seq::<ClosedWindowView>::empty(),
    {
        RecentlyClosedWindows::new()
    }
}

impl RecentlyClosedWindows {
    /// Nothing closed yet.
    pub fn new() -> (closed: RecentlyClosedWindows)
        ensures
            closed@ == Seq::<ClosedWindowView>::empty(),
    {
        let closed = RecentlyClosedWindows { windows: VecDeque::new() };
        assert(closed@ =~= Seq::<ClosedWindowView>::empty());
        closed
    }

    /// Record a closed window. Oldest windows are removed when limit is
    /// reached.
    pub fn push(&mut self, window: ClosedWindow)
        ensures
            final(self)@ == newest(seq![window@] + old(self)@, MAX_CLOSED_WINDOWS as nat),
    {
        self.windows.push_front(window);
        let ghost all = self@;
        assert(all =~= seq![window@] + old(self)@);
        while self.windows.len() > MAX_CLOSED_WINDOWS
            invariant
                self@.len() <= all.len(),
                self@ == all.take(self@.len() as int),
                self@.len() >= MAX_CLOSED_WINDOWS || self@.len() == all.len(),
            decreases self.windows@.len(),
        {
            let ghost before = self@;
            self.windows.pop_back();
            assert(self@ =~= all.take(before.len() - 1));
        }
        assert(all.take(all.len() as int) =~= all);
    }

    /// Get and remove the most recently closed window.
    pub fn pop(&mut self) -> (window: Option<ClosedWindow>)
        ensures
            match window {
                Some(w) => old(self)@.len() > 0 && w@ == old(self)@[0] && final(self)@ == old(
                    self,
                )@.skip(1),
                None => old(self)@.len() == 0 && final(self)@ == old(self)@,
            },
    {
        let window = self.windows.pop_front();
        assert(window is Some ==> self@ =~= old(self)@.skip(1));
        window
    }

    /// Get all recently closed windows (most recent first).
    pub fn list(&self) -> (windows: Vec<ClosedWindow>)
        ensures
            window_views(windows@) == self@,
    {
        let mut windows: Vec<ClosedWindow> = Vec::new();
        let mut i: usize = 0;
        while i < self.windows.len()
            invariant
                i <= self.windows@.len(),
                windows@.len() == i,
                forall|j: int| 0 <= j < i ==> windows@[j]@ == self.windows@[j]@,
            decreases self.windows@.len() - i,
        {
            windows.push(self.windows[i].clone());
            i += 1;
        }
        assert(window_views(windows@) =~= self@);
        windows
    }

    /// Check if there are any closed windows.
    pub fn is_empty(&self) -> (empty: bool)
        ensures
            empty == (self@.len() == 0),
    {
        self.windows.len() == 0
    }
}

} // verus!
