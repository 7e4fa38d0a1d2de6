//! Content filtering: the rules that inject scriptlets into pages.

pub mod scriptlets;
