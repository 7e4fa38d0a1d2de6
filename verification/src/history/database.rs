//! The entries of the browsing history.

use vstd::prelude::*;
use crate::address::{ParsedUrl, url_parse};
use crate::text::{decimal, push_decimal, push_str, string_of};

verus! {

/// A single history entry.
#[derive(Debug)]
pub struct HistoryEntry {
    pub id: i64,
    pub url: String,
    pub title: Option<String>,
    pub visit_count: i32,
    /// Seconds since the Unix epoch.
    pub last_visit_time: i64,
    /// Seconds since the Unix epoch.
    pub first_visit_time: i64,
}

/// What a `HistoryEntry` stands for in contracts.
pub struct EntryView {
    pub id: i64,
    pub url: Seq<char>,
    pub title: Option<Seq<char>>,
    pub visit_count: i32,
    pub last_visit_time: i64,
    pub first_visit_time: i64,
}

impl View for HistoryEntry {
    type V = EntryView;

    open spec fn view(&self) -> EntryView {
        EntryView {
            id: self.id,
            url: self.url@,
            title: match self.title {
                Some(t) => Some(t@),
                None => None,
            },
            visit_count: self.visit_count,
            last_visit_time: self.last_visit_time,
            first_visit_time: self.first_visit_time,
        }
    }
}

impl Clone for HistoryEntry {
    fn clone(&self) -> (copy: HistoryEntry)
        ensures
            copy@ == self@,
    {
        HistoryEntry {
            id: self.id,
            url: self.url.clone(),
            title: match &self.title {
                Some(t) => Some(t.clone()),
                None => None,
            },
            visit_count: self.visit_count,
            last_visit_time: self.last_visit_time,
            first_visit_time: self.first_visit_time,
        }
    }
}

/// How long ago something was, `elapsed` seconds back: in whole weeks, days,
/// hours or minutes, whichever is the largest unit that it fills.
pub open spec fn ago_text(elapsed: int) -> Seq<char> {
    if elapsed < 60 {
        "Just now"@
    } else if elapsed < 3600 {
        decimal((elapsed / 60) as nat) + " minutes ago"@
    } else if elapsed < 86400 {
        decimal((elapsed / 3600) as nat) + " hours ago"@
    } else if elapsed < 604800 {
        decimal((elapsed / 86400) as nat) + " days ago"@
    } else {
        decimal((elapsed / 604800) as nat) + " weeks ago"@
    }
}

impl HistoryEntry {
    /// Parse the URL string into a URL.
    pub fn parse_url(&self) -> (url: Option<ParsedUrl>)
        ensures
            match url {
                Some(u) => url_parse(self@.url) == Some(u@),
                None => url_parse(self@.url) is None,
            },
    {
        match ParsedUrl::parse(self.url.as_str()) {
            Ok(url) => Some(url),
            Err(_) => None,
        }
    }

    /// Format the last visit time as a human-readable string, `now` being
    /// the present in seconds since the Unix epoch.
    pub fn last_visit_formatted(&self, now: i64) -> (text: String)
        ensures
            text@ == ago_text(now - self@.last_visit_time),
    {
        let diff: i128 = now as i128 - self.last_visit_time as i128;
        let mut out: Vec<char> = Vec::new();
        if diff < 60 {
            push_str(&mut out, "Just now");
        } else if diff < 3600 {
            push_decimal(&mut out, (diff / 60) as u64);
            push_str(&mut out, " minutes ago");
        } else if diff < 86400 {
            push_decimal(&mut out, (diff / 3600) as u64);
            push_str(&mut out, " hours ago");
        } else if diff < 604800 {
            push_decimal(&mut out, (diff / 86400) as u64);
            push_str(&mut out, " days ago");
        } else {
            push_decimal(&mut out, (diff / 604800) as u64);
            push_str(&mut out, " weeks ago");
        }
        assert(out@ =~= ago_text(now - self@.last_visit_time));
        string_of(&out)
    }
}

} // verus!
