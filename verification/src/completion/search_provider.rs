//! Search suggestion provider using the DuckDuckGo API.

use vstd::prelude::*;
use vstd::utf8::{decode_utf8, valid_utf8};
use crate::address::{fill_placeholder, filled, percent_encode, percent_encoded};
use crate::completion::provider::{CompletionItem, CompletionType, CompletionView, completion_views};
use crate::config::{DUCKDUCKGO_SUGGESTIONS_URL, SEARCH_SUGGESTIONS_LIMIT};
use crate::text::chars_of;

verus! {

/// An item of a JSON array, as far as the suggestions are read from it.
#[derive(Debug, PartialEq, Eq)]
pub enum JsonItem {
    Null,
    /// A boolean, whichever.
    Bool,
    /// A number, whichever.
    Number,
    /// A string.
    Text(String),
    /// An array; each of its items is given as its text where it is a string.
    List(Vec<Option<String>>),
    /// An object, whatever it holds.
    Object,
}

/// What a `JsonItem` stands for in contracts.
pub enum JsonItemView {
    Null,
    Bool,
    Number,
    Text(Seq<char>),
    List(Seq<Option<Seq<char>>>),
    Object,
}

/// The texts of `items`, in order.
pub open spec fn optional_texts(items: Seq<Option<String>>) -> Seq<Option<Seq<char>>> {
    Seq::new(
        items.len(),
        |i: int|
            match items[i] {
                Some(t) => Some(t@),
                None => None,
            },
    )
}

impl View for JsonItem {
    type V = JsonItemView;

    open spec fn view(&self) -> JsonItemView {
        match self {
            JsonItem::Null => JsonItemView::Null,
            JsonItem::Bool => JsonItemView::Bool,
            JsonItem::Number => JsonItemView::Number,
            JsonItem::Text(t) => JsonItemView::Text(t@),
            JsonItem::List(items) => JsonItemView::List(optional_texts(items@)),
            JsonItem::Object => JsonItemView::Object,
        }
    }
}

/// The views of `items`, in order.
pub open spec fn json_views(items: Seq<JsonItem>) -> Seq<JsonItemView> {
    Seq::new(items.len(), |i: int| items[i]@)
}

/// The items of a parsed array, if the parse gave one.
pub open spec fn json_array_view(items: Option<Vec<JsonItem>>) -> Option<Seq<JsonItemView>> {
    match items {
        Some(v) => Some(json_views(v@)),
        None => None,
    }
}

/// What `serde_json` makes of `text` where it is a JSON array: the items of
/// the array. Nothing where the text is no JSON, or JSON but no array.
pub uninterp spec fn json_array(text: Seq<char>) -> Option<Seq<JsonItemView>>;

/// `serde_json::from_str` to a `serde_json::Value`, and the items of that
/// value where it is an array, read off with `as_array` and `as_str`. The
/// outcome is a function of the text alone; the contract gives it a name and
/// says no more of it.
#[verifier::external_body]
fn parse_json_array(text: &str) -> (items: Option<Vec<JsonItem>>)
    ensures
        json_array_view(items) == json_array(text@),
{
    let value: serde_json::Value = serde_json::from_str(text).ok()?;
    let items = value.as_array()?;
    Some(items.iter().map(|item| match item {
        serde_json::Value::Null => JsonItem::Null,
        serde_json::Value::Bool(_) => JsonItem::Bool,
        serde_json::Value::Number(_) => JsonItem::Number,
        serde_json::Value::String(text) => JsonItem::Text(text.clone()),
        serde_json::Value::Array(inner) => JsonItem::List(
            inner.iter().map(|v| v.as_str().map(str::to_string)).collect(),
        ),
        serde_json::Value::Object(_) => JsonItem::Object,
    }).collect())
}

/// `std::str::from_utf8`: the text that the bytes encode, where they are
/// valid UTF-8.
#[verifier::external_body]
fn utf8_text(bytes: &[u8]) -> (text: Option<&str>)
    ensures
        match text {
            Some(t) => valid_utf8(bytes@) && t@ == decode_utf8(bytes@),
            None => !valid_utf8(bytes@),
        },
{
    std::str::from_utf8(bytes).ok()
}

/// The address that suggestions for `query` are fetched from.
pub open spec fn suggestions_address(query: Seq<char>) -> Seq<char> {
    filled(DUCKDUCKGO_SUGGESTIONS_URL@, percent_encoded(query))
}

/// The address that suggestions for `query` are fetched from; none for an
/// empty query, which has no suggestions.
pub fn suggestions_url(query: &str) -> (url: Option<String>)
    ensures
        match url {
            Some(u) => query@.len() > 0 && u@ == suggestions_address(query@),
            None => query@.len() == 0,
        },
{
    if chars_of(query).len() == 0 {
        return None;
    }
    let encoded = percent_encode(query);
    Some(fill_placeholder(DUCKDUCKGO_SUGGESTIONS_URL, encoded.as_str()))
}

/// The suggestion that an item of the list of suggestions makes, if it is a
/// string.
pub open spec fn suggestion_of(item: Option<Seq<char>>) -> Option<CompletionView> {
    match item {
        Some(text) => Some(
            CompletionView {
                completion_type: CompletionType::SearchSuggestion,
                title: text,
                url: None,
                visit_count: 0,
            },
        ),
        None => None,
    }
}

/// The suggestions among the first `SEARCH_SUGGESTIONS_LIMIT` items of
/// `list`.
pub open spec fn suggestions_in(list: Seq<Option<Seq<char>>>) -> Seq<CompletionView> {
    let first = if list.len() > SEARCH_SUGGESTIONS_LIMIT {
        list.take(SEARCH_SUGGESTIONS_LIMIT as int)
    } else {
        list
    };
    first.filter_map(|item: Option<Seq<char>>| suggestion_of(item))
}

/// The suggestions that a response holds, which has the form
/// `["query", ["suggestion1", "suggestion2", ...]]`: the strings among the
/// first items of its second item. A response of another form holds none.
pub open spec fn suggestions_of(response: Option<Seq<JsonItemView>>) -> Seq<CompletionView> {
    match response {
        Some(items) => if items.len() < 2 {
            Seq::empty()
        } else {
            match items[1] {
                JsonItemView::List(list) => suggestions_in(list),
                _ => Seq::empty(),
            }
        },
        None => Seq::empty(),
    }
}

/// The suggestions that a parsed response holds.
pub fn suggestions_from(response: Option<Vec<JsonItem>>) -> (items: Vec<CompletionItem>)
    ensures
        completion_views(items@) == suggestions_of(json_array_view(response)),
{
    let mut items: Vec<CompletionItem> = Vec::new();
    assert(completion_views(items@) =~= Seq::<CompletionView>::empty());
    match response {
        Some(array) => {
            if array.len() >= 2 {
                match &array[1] {
                    JsonItem::List(list) => {
                        let count = if list.len() > SEARCH_SUGGESTIONS_LIMIT {
                            SEARCH_SUGGESTIONS_LIMIT
                        } else {
                            list.len()
                        };
                        let ghost all = optional_texts(list@);
                        let ghost first = if all.len() > SEARCH_SUGGESTIONS_LIMIT {
                            all.take(SEARCH_SUGGESTIONS_LIMIT as int)
                        } else {
                            all
                        };
                        let ghost make = |item: Option<Seq<char>>| suggestion_of(item);
                        let mut i: usize = 0;
                        assert(first.take(0) =~= Seq::<Option<Seq<char>>>::empty());
                        while i < count
                            invariant
                                i <= count,
                                count == first.len(),
                                count <= list@.len(),
                                all == optional_texts(list@),
                                forall|j: int| 0 <= j < count ==> first[j] == all[j],
                                make == |item: Option<Seq<char>>| suggestion_of(item),
                                completion_views(items@) == first.take(i as int).filter_map(make),
                            decreases count - i,
                        {
                            let ghost before = completion_views(items@);
                            assert(first.take(i + 1).drop_last() =~= first.take(i as int));
                            match &list[i] {
                                Some(text) => {
                                    items.push(CompletionItem::from_suggestion(text.clone()));
                                    assert(completion_views(items@) =~= before + seq![
                                        suggestion_of(first[i as int])->0,
                                    ]);
                                },
                                None => {},
                            }
                            i += 1;
                        }
                        assert(first.take(i as int) =~= first);
                    },
                    _ => {},
                }
            }
        },
        None => {},
    }
    items
}

/// Parse a DuckDuckGo suggestion response, which is JSON of the form
/// `["query", ["suggestion1", "suggestion2", ...]]`. A response that is not
/// UTF-8, not JSON, or JSON of another form holds no suggestions.
pub fn parse_suggestions(bytes: &[u8]) -> (items: Vec<CompletionItem>)
    ensures
        completion_views(items@) == if valid_utf8(bytes@) {
            suggestions_of(json_array(decode_utf8(bytes@)))
        } else {
            Seq::empty()
        },
{
    match utf8_text(bytes) {
        Some(text) => suggestions_from(parse_json_array(text)),
        None => {
            let items: Vec<CompletionItem> = Vec::new();
            assert(completion_views(items@) =~= Seq::<CompletionView>::empty());
            items
        },
    }
}

} // verus!
