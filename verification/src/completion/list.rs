//! The completion list below the URL bar: what it holds, what is selected,
//! and what is completed in the bar itself.

use vstd::prelude::*;
use vstd::utf8::encode_utf8;
use crate::address::{ParsedUrl, UrlView, url_parse};
use crate::completion::history_provider::{strip_www, without_www};
use crate::completion::provider::{CompletionItem, CompletionView, completion_views};
use crate::config::COMPLETION_MAX_RESULTS;
use crate::text::{
    chars_of, find, find_text, lowercase, matches_at, push_str, same_text, starts_with, string_of,
    to_lowercase,
};

verus! {

/// The engines that the user can search with.
#[derive(Debug, Clone, Copy, PartialEq, Eq)]
pub enum SearchEngine {
    DuckDuckGo,
    Google,
    Bing,
    Ecosia,
    /// An engine of the user's own, whose template the settings hold.
    Custom,
}

impl SearchEngine {
    /// The name that the settings know the engine by.
    pub open spec fn id(self) -> Seq<char> {
        match self {
            SearchEngine::DuckDuckGo => "duckduckgo"@,
            SearchEngine::Google => "google"@,
            SearchEngine::Bing => "bing"@,
            SearchEngine::Ecosia => "ecosia"@,
            SearchEngine::Custom => "custom"@,
        }
    }

    /// The template of the engine's search addresses, with `{}` in the place
    /// of the query.
    pub open spec fn template(self) -> Seq<char> {
        match self {
            SearchEngine::DuckDuckGo => "https://duckduckgo.com/?q={}"@,
            SearchEngine::Google => "https://www.google.com/search?q={}"@,
            SearchEngine::Bing => "https://www.bing.com/search?q={}"@,
            SearchEngine::Ecosia => "https://www.ecosia.org/search?q={}"@,
            SearchEngine::Custom => ""@,
        }
    }

    /// The engine that the settings know by `id`, if there is one.
    pub open spec fn named(id: Seq<char>) -> Option<SearchEngine> {
        if id == SearchEngine::DuckDuckGo.id() {
            Some(SearchEngine::DuckDuckGo)
        } else if id == SearchEngine::Google.id() {
            Some(SearchEngine::Google)
        } else if id == SearchEngine::Bing.id() {
            Some(SearchEngine::Bing)
        } else if id == SearchEngine::Ecosia.id() {
            Some(SearchEngine::Ecosia)
        } else if id == SearchEngine::Custom.id() {
            Some(SearchEngine::Custom)
        } else {
            None
        }
    }

    /// The engine that the settings know by `id`, if there is one.
    pub fn from_id(id: &str) -> (engine: Option<SearchEngine>)
        ensures
            engine == SearchEngine::named(id@),
    {
        if same_text(id, "duckduckgo") {
            Some(SearchEngine::DuckDuckGo)
        } else if same_text(id, "google") {
            Some(SearchEngine::Google)
        } else if same_text(id, "bing") {
            Some(SearchEngine::Bing)
        } else if same_text(id, "ecosia") {
            Some(SearchEngine::Ecosia)
        } else if same_text(id, "custom") {
            Some(SearchEngine::Custom)
        } else {
            None
        }
    }

    /// The template of the engine's search addresses.
    pub fn url_template(&self) -> (template: &'static str)
        ensures
            template@ == self.template(),
    {
        match self {
            SearchEngine::DuckDuckGo => "https://duckduckgo.com/?q={}",
            SearchEngine::Google => "https://www.google.com/search?q={}",
            SearchEngine::Bing => "https://www.bing.com/search?q={}",
            SearchEngine::Ecosia => "https://www.ecosia.org/search?q={}",
            SearchEngine::Custom => "",
        }
    }
}

/// The template to search with where the settings name the engine `id`:
/// that of the engine, and that of DuckDuckGo where no engine has the name.
pub open spec fn template_for(id: Seq<char>) -> Seq<char> {
    match SearchEngine::named(id) {
        Some(engine) => engine.template(),
        None => SearchEngine::DuckDuckGo.template(),
    }
}

/// The template to search with where the settings name the engine `id`.
pub fn search_template(id: &str) -> (template: &'static str)
    ensures
        template@ == template_for(id@),
{
    match SearchEngine::from_id(id) {
        Some(engine) => engine.url_template(),
        None => SearchEngine::DuckDuckGo.url_template(),
    }
}

/// Whether completions are looked up for what the URL bar holds: not for
/// nothing, and not for what has a scheme already.
pub fn wants_completions(query: &str) -> (wants: bool)
    ensures
        wants == (query@.len() > 0 && find(query@, "://"@) is None),
{
    let chars = chars_of(query);
    if chars.len() == 0 {
        return false;
    }
    let mark = chars_of("://");
    find_text(&chars, &mark).is_none()
}

/// The first `COMPLETION_MAX_RESULTS` of the history's completions followed
/// by the suggestions.
pub open spec fn combined(history: Seq<CompletionView>, suggestions: Seq<CompletionView>) -> Seq<
    CompletionView,
> {
    let all = history + suggestions;
    if all.len() > COMPLETION_MAX_RESULTS {
        all.take(COMPLETION_MAX_RESULTS as int)
    } else {
        all
    }
}

/// The completions to show once the suggestions have come: those of the
/// history first, and no more than the list has room for.
pub fn combine_completions(history: Vec<CompletionItem>, suggestions: Vec<CompletionItem>) -> (all:
    Vec<CompletionItem>)
    ensures
        completion_views(all@) == combined(
            completion_views(history@),
            completion_views(suggestions@),
        ),
{
    let mut all = history;
    let mut rest = suggestions;
    all.append(&mut rest);
    assert(completion_views(all@) =~= completion_views(history@) + completion_views(
        suggestions@,
    ));
    let ghost whole = completion_views(all@);
    if all.len() > COMPLETION_MAX_RESULTS {
        all.truncate(COMPLETION_MAX_RESULTS);
        assert(completion_views(all@) =~= whole.take(COMPLETION_MAX_RESULTS as int));
    }
    all
}

/// The row that is selected after the selection moved by `delta` rows in a
/// list of `count` rows: the row that many below the selected one; the first
/// row if none was selected and the move goes down; and no other row if that
/// is not a row of the list.
pub open spec fn selection_after(selected: Option<i32>, delta: i32, count: i32) -> Option<i32> {
    let target: Option<int> = match selected {
        Some(row) => Some(row + delta),
        None => if delta > 0 {
            Some(0int)
        } else {
            None
        },
    };
    match target {
        Some(row) => if 0 <= row < count {
            Some(row as i32)
        } else {
            None
        },
        None => None,
    }
}

/// The row to select after the selection moved by `delta` rows; `None`
/// where the selection stays as it is.
pub fn move_selection(selected: Option<i32>, delta: i32, count: i32) -> (row: Option<i32>)
    ensures
        row == selection_after(selected, delta, count),
{
    let target: i64 = match selected {
        Some(row) => row as i64 + delta as i64,
        None => if delta > 0 {
            0
        } else {
            return None;
        },
    };
    if 0 <= target && target < count as i64 {
        Some(target as i32)
    } else {
        None
    }
}

/// The row to select again after the list was filled anew with `count`
/// rows: the one that was selected, if the list still has it.
pub fn restored_selection(previous: Option<i32>, count: usize) -> (row: Option<i32>)
    ensures
        row == match previous {
            Some(p) => if 0 <= p < count {
                Some(p)
            } else {
                None
            },
            None => None,
        },
{
    match previous {
        Some(p) => if p >= 0 && (p as usize) < count {
            Some(p)
        } else {
            None
        },
        None => None,
    }
}

impl UrlView {
    /// The host without a leading `www.`; empty where the URL has no host.
    pub open spec fn bare_host(self) -> Seq<char> {
        match self.host {
            Some(host) => without_www(host),
            None => Seq::empty(),
        }
    }

    /// The URL as the completion list shows it: host and path, without a
    /// leading `www.` and without one slash at the end of the path.
    pub open spec fn simplified(self) -> Seq<char> {
        let path = if self.path.len() > 0 && self.path.last() == '/' {
            self.path.drop_last()
        } else {
            self.path
        };
        if path.len() == 0 || path == seq!['/'] {
            self.bare_host()
        } else {
            self.bare_host() + path
        }
    }

    /// The URL as the URL bar completes it: host and path, without a leading
    /// `www.`; the host alone where the path is just a slash.
    pub open spec fn completed(self) -> Seq<char> {
        if self.path.len() == 0 || self.path == seq!['/'] {
            self.bare_host()
        } else {
            self.bare_host() + self.path
        }
    }
}

fn bare_host_of(url: &ParsedUrl) -> (host: String)
    ensures
        host@ == url@.bare_host(),
{
    match url.host_str() {
        Some(host) => strip_www(host),
        None => String::new(),
    }
}

/// A parsed URL as the completion list shows it.
pub fn simplify_parsed(url: &ParsedUrl) -> (text: String)
    ensures
        text@ == url@.simplified(),
{
    let mut path = chars_of(url.path());
    if path.len() > 0 && path[path.len() - 1] == '/' {
        path.pop();
        assert(path@ =~= url@.path.drop_last());
    }
    let host = bare_host_of(url);
    if path.len() == 0 || (path.len() == 1 && path[0] == '/') {
        assert(path@.len() == 1 && path@[0] == '/' ==> path@ =~= seq!['/']);
        host
    } else {
        let mut out: Vec<char> = Vec::new();
        push_str(&mut out, host.as_str());
        crate::text::push_chars(&mut out, &path);
        assert(out@ =~= url@.simplified());
        string_of(&out)
    }
}

/// A parsed URL as the URL bar completes it.
pub fn complete_parsed(url: &ParsedUrl) -> (text: String)
    ensures
        text@ == url@.completed(),
{
    let path = chars_of(url.path());
    let host = bare_host_of(url);
    if path.len() == 0 || (path.len() == 1 && path[0] == '/') {
        assert(path@.len() == 1 && path@[0] == '/' ==> path@ =~= seq!['/']);
        host
    } else {
        let mut out: Vec<char> = Vec::new();
        push_str(&mut out, host.as_str());
        crate::text::push_chars(&mut out, &path);
        assert(out@ =~= url@.completed());
        string_of(&out)
    }
}

/// The address `url` as the completion list shows it: simplified where it
/// is a URL, and as it is where it is none.
pub open spec fn shown(url: Seq<char>) -> Seq<char> {
    match url_parse(url) {
        Some(parsed) => parsed.simplified(),
        None => url,
    }
}

/// The address `url` as the URL bar completes it.
pub open spec fn completion_of(url: Seq<char>) -> Seq<char> {
    match url_parse(url) {
        Some(parsed) => parsed.completed(),
        None => url,
    }
}

/// Simplify URL for display (like Firefox) - show domain + path.
pub fn simplify_url(url: &str) -> (text: String)
    ensures
        text@ == shown(url@),
{
    match ParsedUrl::parse(url) {
        Ok(parsed) => simplify_parsed(&parsed),
        Err(_) => url.to_owned(),
    }
}

/// Simplify URL for autocomplete display (strip scheme, www prefix).
pub fn simplify_url_for_autocomplete(url: &str) -> (text: String)
    ensures
        text@ == completion_of(url@),
{
    match ParsedUrl::parse(url) {
        Ok(parsed) => complete_parsed(&parsed),
        Err(_) => url.to_owned(),
    }
}

/// What the URL bar completes the user's input to.
#[derive(Debug, PartialEq, Eq)]
pub struct InlineCompletion {
    /// The address that the completion stands for.
    pub url: String,
    /// The text to put into the URL bar.
    pub text: String,
    /// Where the selected part of the text begins, in bytes: what follows
    /// the user's own input.
    pub selection_start: usize,
}

/// What an `InlineCompletion` stands for in contracts.
pub struct InlineCompletionView {
    pub url: Seq<char>,
    pub text: Seq<char>,
    pub selection_start: usize,
}

impl View for InlineCompletion {
    type V = InlineCompletionView;

    open spec fn view(&self) -> InlineCompletionView {
        InlineCompletionView {
            url: self.url@,
            text: self.text@,
            selection_start: self.selection_start,
        }
    }
}

/// An address that may complete the user's input.
pub struct InlineCandidate {
    pub url: String,
    /// The address as the URL bar completes it.
    pub text: String,
    /// That text in lower case.
    pub lowered: String,
}

/// What an `InlineCandidate` stands for in contracts.
pub struct InlineCandidateView {
    pub url: Seq<char>,
    pub text: Seq<char>,
    pub lowered: Seq<char>,
}

impl View for InlineCandidate {
    type V = InlineCandidateView;

    open spec fn view(&self) -> InlineCandidateView {
        InlineCandidateView { url: self.url@, text: self.text@, lowered: self.lowered@ }
    }
}

/// The views of `candidates`, in order.
pub open spec fn inline_views(candidates: Seq<InlineCandidate>) -> Seq<InlineCandidateView> {
    Seq::new(candidates.len(), |i: int| candidates[i]@)
}

/// The first of `candidates` from `from` on whose text in lower case starts
/// with `prefix`.
pub open spec fn first_match(candidates: Seq<InlineCandidateView>, prefix: Seq<char>, from: int)
    -> Option<InlineCandidateView>
    decreases candidates.len() - from + 1,
{
    if from < 0 || from >= candidates.len() {
        None
    } else if matches_at(candidates[from].lowered, prefix, 0) {
        Some(candidates[from])
    } else {
        first_match(candidates, prefix, from + 1)
    }
}

/// The length of `text` in bytes, as UTF-8.
pub open spec fn byte_len(text: Seq<char>) -> usize {
    encode_utf8(text).len() as usize
}

/// What the URL bar completes the input to: the first candidate whose text
/// in lower case starts with the input in lower case, if that text is longer
/// than the input. Empty input is not completed.
pub open spec fn inline_choice(
    candidates: Seq<InlineCandidateView>,
    input: Seq<char>,
    input_lower: Seq<char>,
) -> Option<InlineCompletionView> {
    if input.len() == 0 {
        None
    } else {
        match first_match(candidates, input_lower, 0) {
            Some(best) => if byte_len(best.text) > byte_len(input) {
                Some(
                    InlineCompletionView {
                        url: best.url,
                        text: best.text,
                        selection_start: byte_len(input),
                    },
                )
            } else {
                None
            },
            None => None,
        }
    }
}

/// What the URL bar completes `input` to, given the candidates and the
/// input in lower case.
pub fn choose_inline(candidates: &Vec<InlineCandidate>, input: &str, input_lower: &str) -> (choice:
    Option<InlineCompletion>)
    ensures
        match choice {
            Some(c) => inline_choice(inline_views(candidates@), input@, input_lower@) == Some(c@),
            None => inline_choice(inline_views(candidates@), input@, input_lower@) is None,
        },
{
    if chars_of(input).len() == 0 {
        return None;
    }
    let prefix = chars_of(input_lower);
    let mut i: usize = 0;
    while i < candidates.len()
        invariant
            i <= candidates@.len(),
            input@.len() > 0,
            prefix@ == input_lower@,
            first_match(inline_views(candidates@), input_lower@, 0) == first_match(
                inline_views(candidates@),
                input_lower@,
                i as int,
            ),
        decreases candidates@.len() - i,
    {
        let lowered = chars_of(candidates[i].lowered.as_str());
        if starts_with(&lowered, &prefix) {
            let best = &candidates[i];
            assert(first_match(inline_views(candidates@), input_lower@, i as int) == Some(best@));
            if best.text.as_str().len() > input.len() {
                return Some(
                    InlineCompletion {
                        url: best.url.clone(),
                        text: best.text.clone(),
                        selection_start: input.len(),
                    },
                );
            }
            return None;
        }
        i += 1;
    }
    None
}

/// The candidates that the history's completions make: one for each that
/// has an address.
pub open spec fn inline_candidates(items: Seq<CompletionView>) -> Seq<InlineCandidateView> {
    items.filter_map(
        |item: CompletionView|
            match item.url {
                Some(url) => Some(
                    InlineCandidateView {
                        url,
                        text: completion_of(url),
                        lowered: lowercase(completion_of(url)),
                    },
                ),
                None => None,
            },
    )
}

/// Apply inline autocomplete from history items: what the URL bar
/// completes `user_input` to, if anything.
pub fn apply_inline_autocomplete(history_items: &Vec<CompletionItem>, user_input: &str) -> (choice:
    Option<InlineCompletion>)
    ensures
        ({
            let wanted = inline_choice(
                inline_candidates(completion_views(history_items@)),
                user_input@,
                lowercase(user_input@),
            );
            match choice {
                Some(c) => wanted == Some(c@),
                None => wanted is None,
            }
        }),
{
    let mut candidates: Vec<InlineCandidate> = Vec::new();
    let mut i: usize = 0;
    let ghost items = completion_views(history_items@);
    assert(items.take(0) =~= Seq::<CompletionView>::empty());
    assert(inline_views(candidates@) =~= inline_candidates(items.take(0)));
    while i < history_items.len()
        invariant
            i <= history_items@.len(),
            items == completion_views(history_items@),
            inline_views(candidates@) == inline_candidates(items.take(i as int)),
        decreases history_items@.len() - i,
    {
        let ghost before = inline_views(candidates@);
        assert(items.take(i + 1).drop_last() =~= items.take(i as int));
        match &history_items[i].url {
            Some(url) => {
                let text = simplify_url_for_autocomplete(url.as_str());
                let lowered = to_lowercase(text.as_str());
                let candidate = InlineCandidate { url: url.clone(), text, lowered };
                candidates.push(candidate);
                assert(inline_views(candidates@) =~= before + seq![candidate@]);
            },
            None => {},
        }
        i += 1;
    }
    assert(items.take(i as int) =~= items);
    let input_lower = to_lowercase(user_input);
    choose_inline(&candidates, user_input, input_lower.as_str())
}

} // verus!
