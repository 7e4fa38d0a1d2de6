//! What the user types into the URL bar.

pub mod parser;
