//! What the user chooses in the dialog that clears browsing data, and what
//! is cleared for it.

use vstd::prelude::*;

verus! {

/// Time range options for clearing data.
#[derive(Debug, Clone, Copy, PartialEq, Eq)]
pub enum TimeRange {
    LastHour,
    Last24Hours,
    Last7Days,
    Last4Weeks,
    AllTime,
}

/// The span, in seconds, that stands for all time when website data is
/// cleared.
pub const ALL_TIME_SPAN: i64 = 9223372036854;

impl TimeRange {
    /// The length of the range in seconds; none for all time.
    pub open spec fn span(self) -> Option<int> {
        match self {
            TimeRange::LastHour => Some(3600),
            TimeRange::Last24Hours => Some(86400),
            TimeRange::Last7Days => Some(604800),
            TimeRange::Last4Weeks => Some(2419200),
            TimeRange::AllTime => None,
        }
    }

    /// The range that stands at `index` in the dialog's list; all time where
    /// the list has nothing there.
    pub open spec fn at(index: u32) -> TimeRange {
        if index == 0 {
            TimeRange::LastHour
        } else if index == 1 {
            TimeRange::Last24Hours
        } else if index == 2 {
            TimeRange::Last7Days
        } else if index == 3 {
            TimeRange::Last4Weeks
        } else {
            TimeRange::AllTime
        }
    }

    /// The length of the range in seconds; none for all time.
    pub fn seconds(&self) -> (span: Option<i64>)
        ensures
            match span {
                Some(s) => self.span() == Some(s as int),
                None => self.span() is None,
            },
    {
        match self {
            TimeRange::LastHour => Some(3600),
            TimeRange::Last24Hours => Some(86400),
            TimeRange::Last7Days => Some(604800),
            TimeRange::Last4Weeks => Some(2419200),
            TimeRange::AllTime => None,
        }
    }

    /// Convert time range to a Unix timestamp threshold, `now` being the
    /// present in seconds since the Unix epoch.
    /// Returns None for AllTime (clear everything).
    pub fn to_timestamp(&self, now: i64) -> (threshold: Option<i64>)
        requires
            self.span() is Some ==> now - self.span()->0 >= i64::MIN,
        ensures
            match threshold {
                Some(t) => self.span() == Some(now - t),
                None => self.span() is None,
            },
    {
        match self.seconds() {
            Some(span) => Some(now - span),
            None => None,
        }
    }

    /// The range that stands at `index` in the dialog's list.
    pub fn from_index(index: u32) -> (range: TimeRange)
        ensures
            range == TimeRange::at(index),
    {
        if index == 0 {
            TimeRange::LastHour
        } else if index == 1 {
            TimeRange::Last24Hours
        } else if index == 2 {
            TimeRange::Last7Days
        } else if index == 3 {
            TimeRange::Last4Weeks
        } else {
            TimeRange::AllTime
        }
    }
}

/// Options selected by the user in the clear data dialog.
#[derive(Debug, Clone, Copy, PartialEq, Eq)]
pub struct ClearDataOptions {
    pub time_range: TimeRange,
    pub clear_history: bool,
    pub clear_cookies: bool,
    pub clear_cache: bool,
}

/// What is cleared of the history.
#[derive(Debug, Clone, Copy, PartialEq, Eq)]
pub enum HistoryClearing {
    /// The entries last visited before this time, in seconds since the Unix
    /// epoch.
    OlderThan(i64),
    /// Every entry.
    All,
}

/// What is cleared of the data that websites left.
#[derive(Debug, Clone, Copy, PartialEq, Eq)]
pub struct WebsiteDataClearing {
    pub cookies: bool,
    pub disk_cache: bool,
    pub memory_cache: bool,
    /// How far back to clear, in seconds from now.
    pub timespan: i64,
}

/// What is cleared for a choice of the user.
#[derive(Debug, Clone, Copy, PartialEq, Eq)]
pub struct ClearingPlan {
    pub history: Option<HistoryClearing>,
    pub website_data: Option<WebsiteDataClearing>,
}

impl ClearDataOptions {
    /// Check if any data type is selected for clearing.
    pub fn has_selection(&self) -> (any: bool)
        ensures
            any == (self.clear_history || self.clear_cookies || self.clear_cache),
    {
        self.clear_history || self.clear_cookies || self.clear_cache
    }

    /// What is cleared for these options at the time `now`: the history
    /// where it is chosen, back to the threshold of the range; and cookies and
    /// caches where either is chosen, as far back as the range is long.
    pub open spec fn plan(self, now: i64) -> ClearingPlan {
        ClearingPlan {
            history: if self.clear_history {
                Some(
                    match self.time_range.span() {
                        Some(span) => HistoryClearing::OlderThan((now - span) as i64),
                        None => HistoryClearing::All,
                    },
                )
            } else {
                None
            },
            website_data: if self.clear_cookies || self.clear_cache {
                Some(
                    WebsiteDataClearing {
                        cookies: self.clear_cookies,
                        disk_cache: self.clear_cache,
                        memory_cache: self.clear_cache,
                        timespan: match self.time_range.span() {
                            Some(span) => span as i64,
                            None => ALL_TIME_SPAN,
                        },
                    },
                )
            } else {
                None
            },
        }
    }

    /// What is cleared for these options at the time `now`, in seconds since
    /// the Unix epoch.
    pub fn clearing_plan(&self, now: i64) -> (plan: ClearingPlan)
        requires
            self.time_range.span() is Some ==> now - self.time_range.span()->0 >= i64::MIN,
        ensures
            plan == self.plan(now),
    {
        let span = self.time_range.seconds();
        let history = if self.clear_history {
            Some(
                match self.time_range.to_timestamp(now) {
                    Some(threshold) => HistoryClearing::OlderThan(threshold),
                    None => HistoryClearing::All,
                },
            )
        } else {
            None
        };
        let website_data = if self.clear_cookies || self.clear_cache {
            Some(
                WebsiteDataClearing {
                    cookies: self.clear_cookies,
                    disk_cache: self.clear_cache,
                    memory_cache: self.clear_cache,
                    timespan: match span {
                        Some(s) => s,
                        None => ALL_TIME_SPAN,
                    },
                },
            )
        } else {
            None
        };
        ClearingPlan { history, website_data }
    }
}

} // verus!
