//! Browsing history.

pub mod database;
