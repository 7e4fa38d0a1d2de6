//! The logic of the qayeq browser, verified: the download registry with its
//! two backends, the parsing of filter lists and of the URL bar, completion,
//! sessions and what goes with them. Each module states what its functions
//! compute over plain mathematical values; the application around it owns the
//! windows, the engine, the network and the disk.

pub mod address;
pub mod clear_data;
pub mod completion;
pub mod config;
pub mod content_filter;
pub mod download;
pub mod history;
pub mod ordering;
pub mod profile;
pub mod recently_closed;
pub mod session;
pub mod tab;
pub mod text;
pub mod url_bar;
pub mod window;
