//! Names, limits and addresses that the browser is built around.

use vstd::prelude::*;

verus! {

/// Application ID (reverse domain notation).
pub const APP_ID: &'static str = "dev.myyc.qayeq";

/// Application name.
pub const APP_NAME: &'static str = "qayeq";

/// Default search engine URL template.
/// Use {} as placeholder for the search query.
pub const DEFAULT_SEARCH_URL: &'static str = "https://duckduckgo.com/?q={}";

/// Default homepage.
pub const DEFAULT_HOMEPAGE: &'static str = "about:blank";

/// Default new tab page.
pub const NEW_TAB_URL: &'static str = "about:blank";

/// Profile directory name.
pub const PROFILES_DIR: &'static str = "profiles";

/// Default profile name.
pub const DEFAULT_PROFILE: &'static str = "default";

/// History database filename.
pub const HISTORY_DB: &'static str = "history.db";

/// Minimum sidebar width in pixels.
pub const MIN_SIDEBAR_WIDTH: i32 = 180;

/// Maximum sidebar width in pixels.
pub const MAX_SIDEBAR_WIDTH: i32 = 400;

/// Default sidebar width in pixels.
pub const DEFAULT_SIDEBAR_WIDTH: i32 = 250;

/// DuckDuckGo autocomplete API URL.
pub const DUCKDUCKGO_SUGGESTIONS_URL: &'static str = "https://duckduckgo.com/ac/?q={}&type=list";

/// Debounce delay for URL completion queries (milliseconds).
pub const COMPLETION_DEBOUNCE_MS: u64 = 300;

/// Maximum total completion results to show.
pub const COMPLETION_MAX_RESULTS: usize = 8;

/// Maximum history results in completion.
pub const HISTORY_COMPLETION_LIMIT: usize = 5;

/// Maximum search suggestion results.
pub const SEARCH_SUGGESTIONS_LIMIT: usize = 5;

/// Default container for new tabs.
pub const DEFAULT_CONTAINER: &'static str = "personal";

} // verus!
