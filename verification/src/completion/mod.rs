//! URL completion with history and search suggestions.

pub mod history_provider;
pub mod list;
pub mod provider;
pub mod search_provider;
