//! The browser window.

pub mod keys;
