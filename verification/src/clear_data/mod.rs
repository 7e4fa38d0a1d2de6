//! Clearing browsing data.

pub mod dialog;
