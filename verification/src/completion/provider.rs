//! Completion item types.

use vstd::prelude::*;
use crate::address::{fill_placeholder, filled, percent_encode, percent_encoded};

verus! {

/// Type of completion item.
#[derive(Debug, Clone, Copy, PartialEq, Eq)]
pub enum CompletionType {
    /// From browsing history.
    History,
    /// From search engine suggestions.
    SearchSuggestion,
}

/// A single completion item.
#[derive(Debug, PartialEq, Eq)]
pub struct CompletionItem {
    /// Type of completion.
    pub completion_type: CompletionType,
    /// Title or suggestion text.
    pub title: String,
    /// URL for history items, None for search suggestions.
    pub url: Option<String>,
    /// Visit count for history items (for sorting).
    pub visit_count: u32,
}

/// What a `CompletionItem` stands for in contracts.
pub struct CompletionView {
    pub completion_type: CompletionType,
    pub title: Seq<char>,
    pub url: Option<Seq<char>>,
    pub visit_count: u32,
}

impl View for CompletionItem {
    type V = CompletionView;

    open spec fn view(&self) -> CompletionView {
        CompletionView {
            completion_type: self.completion_type,
            title: self.title@,
            url: match self.url {
                Some(u) => Some(u@),
                None => None,
            },
            visit_count: self.visit_count,
        }
    }
}

impl Clone for CompletionItem {
    fn clone(&self) -> (copy: CompletionItem)
        ensures
            copy@ == self@,
    {
        CompletionItem {
            completion_type: self.completion_type,
            title: self.title.clone(),
            url: match &self.url {
                Some(u) => Some(u.clone()),
                None => None,
            },
            visit_count: self.visit_count,
        }
    }
}

/// The views of `items`, in order.
pub open spec fn completion_views(items: Seq<CompletionItem>) -> Seq<CompletionView> {
    Seq::new(items.len(), |i: int| items[i]@)
}

impl CompletionView {
    /// The address that choosing the item leads to: its URL if it has one,
    /// and else the search for its title, through the template.
    pub open spec fn action(self, search_url_template: Seq<char>) -> Seq<char> {
        match self.url {
            Some(url) => url,
            None => filled(search_url_template, percent_encoded(self.title)),
        }
    }
}

impl CompletionItem {
    /// Create a new history completion item.
    pub fn from_history(title: String, url: String, visit_count: u32) -> (item: CompletionItem)
        ensures
            item@ == (CompletionView {
                completion_type: CompletionType::History,
                title: title@,
                url: Some(url@),
                visit_count,
            }),
    {
        CompletionItem {
            completion_type: CompletionType::History,
            title,
            url: Some(url),
            visit_count,
        }
    }

    /// Create a new search suggestion item.
    pub fn from_suggestion(suggestion: String) -> (item: CompletionItem)
        ensures
            item@ == (CompletionView {
                completion_type: CompletionType::SearchSuggestion,
                title: suggestion@,
                url: None,
                visit_count: 0,
            }),
    {
        CompletionItem {
            completion_type: CompletionType::SearchSuggestion,
            title: suggestion,
            url: None,
            visit_count: 0,
        }
    }

    /// Get the display text for this item.
    pub fn display_text(&self) -> (text: &str)
        ensures
            text@ == self@.title,
    {
        self.title.as_str()
    }

    /// Get the action URL - either the URL for history or search URL for
    /// suggestions.
    pub fn action_url(&self, search_url_template: &str) -> (address: String)
        ensures
            address@ == self@.action(search_url_template@),
    {
        match &self.url {
            Some(url) => url.clone(),
            None => {
                let encoded = percent_encode(self.title.as_str());
                fill_placeholder(search_url_template, encoded.as_str())
            },
        }
    }
}

} // verus!
