//! Reading the URL bar: an address to go to, or words to search for.

use vstd::prelude::*;
use crate::address::{
    InvalidUrl, ParsedUrl, UrlView, fill_placeholder, filled, percent_encode, percent_encoded,
    url_parse,
};
use crate::config::DEFAULT_SEARCH_URL;
use crate::text::{chars_of, push_chars, push_str, same_text, string_of, trim, trimmed};

verus! {

/// Result of parsing URL bar input.
#[derive(Debug, PartialEq, Eq)]
pub enum UrlBarInput {
    /// A valid URL to navigate to.
    Url(ParsedUrl),
    /// A search query to send to the search engine.
    Search(String),
}

/// What a `UrlBarInput` stands for in contracts.
pub enum InputView {
    Url(UrlView),
    Search(Seq<char>),
}

impl View for UrlBarInput {
    type V = InputView;

    open spec fn view(&self) -> InputView {
        match self {
            UrlBarInput::Url(url) => InputView::Url(url@),
            UrlBarInput::Search(query) => InputView::Search(query@),
        }
    }
}

/// Whether the browser goes to URLs of this scheme as they are typed.
pub open spec fn is_web_scheme(scheme: Seq<char>) -> bool {
    scheme == "http"@ || scheme == "https"@ || scheme == "file"@
}

/// `c` in lower case, if it is an ASCII letter; else `c`.
pub open spec fn ascii_lower(c: char) -> char {
    if 'A' <= c <= 'Z' {
        ((c as u8) + 32) as char
    } else {
        c
    }
}

/// Whether two texts are the same but for the case of ASCII letters.
pub open spec fn same_ignoring_ascii_case(a: Seq<char>, b: Seq<char>) -> bool {
    a.len() == b.len() && forall|i: int| 0 <= i < a.len() ==> ascii_lower(a[i]) == ascii_lower(b[i])
}

/// Whether `text` looks like a domain: it has a dot, and neither a space
/// nor a question mark.
pub open spec fn looks_like_domain(text: Seq<char>) -> bool {
    !text.contains(' ') && !text.contains('?') && text.contains('.')
}

/// Whether `text` is the one word `localhost`, in any case.
pub open spec fn is_localhost(text: Seq<char>) -> bool {
    !text.contains(' ') && !text.contains('.') && same_ignoring_ascii_case(text, "localhost"@)
}

/// How the trimmed input `text` reads, given what the URL parser makes of
/// it as it stands (`as_is`), with `https://` before it (`as_https`) and with
/// `http://` before it (`as_http`):
/// 1. a URL with the scheme `http`, `https` or `file` is taken as it is;
/// 2. what looks like a domain gets `https://`, if that makes a URL with a
///    host;
/// 3. `localhost` gets `http://`;
/// 4. all else is a search query. Empty input is the empty query.
pub open spec fn reading(
    text: Seq<char>,
    as_is: Option<UrlView>,
    as_https: Option<UrlView>,
    as_http: Option<UrlView>,
) -> InputView {
    if text.len() == 0 {
        InputView::Search(Seq::empty())
    } else if as_is is Some && is_web_scheme(as_is->0.scheme) {
        InputView::Url(as_is->0)
    } else if looks_like_domain(text) && as_https is Some && as_https->0.host is Some {
        InputView::Url(as_https->0)
    } else if is_localhost(text) && as_http is Some {
        InputView::Url(as_http->0)
    } else {
        InputView::Search(text)
    }
}

/// The URL that a parse gave, if it gave one.
pub open spec fn url_view(url: Option<ParsedUrl>) -> Option<UrlView> {
    match url {
        Some(u) => Some(u@),
        None => None,
    }
}

fn has_char(text: &Vec<char>, c: char) -> (has: bool)
    ensures
        has == text@.contains(c),
{
    let mut i: usize = 0;
    while i < text.len()
        invariant
            i <= text@.len(),
            forall|j: int| 0 <= j < i ==> text@[j] != c,
        decreases text@.len() - i,
    {
        if text[i] == c {
            return true;
        }
        i += 1;
    }
    false
}

fn to_ascii_lower(c: char) -> (lower: char)
    ensures
        lower == ascii_lower(c),
{
    if 'A' <= c && c <= 'Z' {
        ((c as u8) + 32) as char
    } else {
        c
    }
}

fn is_localhost_word(text: &Vec<char>) -> (is: bool)
    ensures
        is == is_localhost(text@),
{
    if has_char(text, ' ') || has_char(text, '.') {
        return false;
    }
    let word = chars_of("localhost");
    if text.len() != word.len() {
        return false;
    }
    let mut i: usize = 0;
    while i < text.len()
        invariant
            i <= text@.len(),
            text@.len() == word@.len(),
            word@ == "localhost"@,
            forall|j: int| 0 <= j < i ==> ascii_lower(text@[j]) == ascii_lower(word@[j]),
        decreases text@.len() - i,
    {
        if to_ascii_lower(text[i]) != to_ascii_lower(word[i]) {
            assert(ascii_lower(text@[i as int]) != ascii_lower("localhost"@[i as int]));
            return false;
        }
        i += 1;
    }
    true
}

/// Reads the trimmed input `text`, given what the URL parser makes of it as
/// it stands, with `https://` before it and with `http://` before it.
pub fn read_input(
    text: &str,
    as_is: Option<ParsedUrl>,
    as_https: Option<ParsedUrl>,
    as_http: Option<ParsedUrl>,
) -> (input: UrlBarInput)
    ensures
        input@ == reading(text@, url_view(as_is), url_view(as_https), url_view(as_http)),
{
    let chars = chars_of(text);
    if chars.len() == 0 {
        let empty = String::new();
        return UrlBarInput::Search(empty);
    }
    match as_is {
        Some(url) => {
            if same_text(url.scheme(), "http") || same_text(url.scheme(), "https") || same_text(
                url.scheme(),
                "file",
            ) {
                return UrlBarInput::Url(url);
            }
        },
        None => {},
    }
    if !has_char(&chars, ' ') && !has_char(&chars, '?') && has_char(&chars, '.') {
        match as_https {
            Some(url) => {
                if url.host_str().is_some() {
                    return UrlBarInput::Url(url);
                }
            },
            None => {},
        }
    }
    if is_localhost_word(&chars) {
        match as_http {
            Some(url) => {
                return UrlBarInput::Url(url);
            },
            None => {},
        }
    }
    UrlBarInput::Search(text.to_owned())
}

fn parsed(text: &str) -> (url: Option<ParsedUrl>)
    ensures
        url_view(url) == url_parse(text@),
{
    match ParsedUrl::parse(text) {
        Ok(url) => Some(url),
        Err(_) => None,
    }
}

/// Parse user input from the URL bar.
///
/// Rules:
/// 1. If input already has a valid scheme (http://, https://, file://), use
///    as-is
/// 2. If input looks like a domain (contains dot, no spaces), prepend
///    https://
/// 3. If input is the single word localhost, prepend http://
/// 4. Otherwise, treat as search query
pub fn parse_input(input: &str) -> (parsed_input: UrlBarInput)
    ensures
        parsed_input@ == reading(
            trim(input@),
            url_parse(trim(input@)),
            url_parse("https://"@ + trim(input@)),
            url_parse("http://"@ + trim(input@)),
        ),
{
    let raw = chars_of(input);
    let text = trimmed(&raw);
    let mut secure: Vec<char> = Vec::new();
    push_str(&mut secure, "https://");
    push_chars(&mut secure, &text);
    let mut plain: Vec<char> = Vec::new();
    push_str(&mut plain, "http://");
    push_chars(&mut plain, &text);
    assert(secure@ =~= "https://"@ + trim(input@));
    assert(plain@ =~= "http://"@ + trim(input@));
    let text = string_of(&text);
    let as_is = parsed(text.as_str());
    let as_https = parsed(string_of(&secure).as_str());
    let as_http = parsed(string_of(&plain).as_str());
    read_input(text.as_str(), as_is, as_https, as_http)
}

/// The address of the search for `query` with the default search engine,
/// as a text: the query, percent-encoded, in the place of the placeholder.
pub open spec fn search_address(query: Seq<char>) -> Seq<char> {
    filled(DEFAULT_SEARCH_URL@, percent_encoded(query))
}

/// The address of the search for `query` with the default search engine, as
/// a text.
pub fn search_url_text(query: &str) -> (text: String)
    ensures
        text@ == search_address(query@),
{
    let encoded = percent_encode(query);
    fill_placeholder(DEFAULT_SEARCH_URL, encoded.as_str())
}

/// Build a search URL for the given query using the default search engine:
/// what the URL parser makes of the search's address.
pub fn build_search_url(query: &str) -> (url: Result<ParsedUrl, InvalidUrl>)
    ensures
        match url {
            Ok(u) => url_parse(search_address(query@)) == Some(u@),
            Err(_) => url_parse(search_address(query@)) is None,
        },
{
    let text = search_url_text(query);
    ParsedUrl::parse(text.as_str())
}

/// The address that `input` sends the browser to: the URL where it reads
/// as one, and else the address of the search for it, if the URL parser
/// takes that.
pub open spec fn target_of(input: InputView, search: Option<UrlView>) -> Option<Seq<char>> {
    match input {
        InputView::Url(url) => Some(url.text),
        InputView::Search(query) => match search {
            Some(url) => Some(url.text),
            None => None,
        },
    }
}

/// The address to load for what was typed into the URL bar, where there is
/// one.
pub fn load_target(input: &str) -> (target: Option<String>)
    ensures
        ({
            let read = reading(
                trim(input@),
                url_parse(trim(input@)),
                url_parse("https://"@ + trim(input@)),
                url_parse("http://"@ + trim(input@)),
            );
            let search = match read {
                InputView::Search(query) => url_parse(search_address(query)),
                InputView::Url(_) => None,
            };
            match target {
                Some(t) => target_of(read, search) == Some(t@),
                None => target_of(read, search) is None,
            }
        }),
{
    match parse_input(input) {
        UrlBarInput::Url(url) => Some(url.as_str().to_owned()),
        UrlBarInput::Search(query) => match build_search_url(query.as_str()) {
            Ok(url) => Some(url.as_str().to_owned()),
            Err(_) => None,
        },
    }
}

} // verus!
