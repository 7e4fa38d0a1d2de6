//! The tabs of a window.

pub mod manager;
