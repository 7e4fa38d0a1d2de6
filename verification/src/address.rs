//! Web addresses: what the `url` crate makes of a text, held as plain texts,
//! and the percent-encoding that puts a query into an address.

use vstd::prelude::*;
use vstd::utf8::encode_utf8;
use crate::text::{chars_of, has_at, matches_at, push_chars, string_of};

verus! {

/// `url::ParseError`: why a text is no URL.
#[verifier::external_type_specification]
#[verifier::external_body]
pub struct ExParseError(url::ParseError);

/// A parsed URL: the parts of a `url::Url` that the browser reads.
#[derive(Debug, PartialEq, Eq)]
pub struct ParsedUrl {
    text: String,
    scheme: String,
    host: Option<String>,
    path: String,
}

/// What a `ParsedUrl` stands for in contracts.
pub struct UrlView {
    /// The URL as a whole, serialized.
    pub text: Seq<char>,
    pub scheme: Seq<char>,
    /// The host, where the URL has one.
    pub host: Option<Seq<char>>,
    pub path: Seq<char>,
}

impl View for ParsedUrl {
    type V = UrlView;

    closed spec fn view(&self) -> UrlView {
        UrlView {
            text: self.text@,
            scheme: self.scheme@,
            host: match self.host {
                Some(h) => Some(h@),
                None => None,
            },
            path: self.path@,
        }
    }
}

impl Clone for ParsedUrl {
    fn clone(&self) -> (copy: ParsedUrl)
        ensures
            copy@ == self@,
    {
        ParsedUrl {
            text: self.text.clone(),
            scheme: self.scheme.clone(),
            host: match &self.host {
                Some(h) => Some(h.clone()),
                None => None,
            },
            path: self.path.clone(),
        }
    }
}

/// What `url::Url::parse` makes of `input`: the URL and its parts, or nothing
/// where it refuses the text.
pub uninterp spec fn url_parse(input: Seq<char>) -> Option<UrlView>;

/// The URL that a parse gave, if it gave one.
pub open spec fn parsed_view(parsed: Result<ParsedUrl, url::ParseError>) -> Option<UrlView> {
    match parsed {
        Ok(url) => Some(url@),
        Err(_) => None,
    }
}

/// `url::Url::parse`, with the parts of the URL read off by `as_str`,
/// `scheme`, `host_str` and `path`. The outcome is a function of the text
/// alone; the contract gives it a name and says no more of it.
#[verifier::external_body]
fn parse_url(input: &str) -> (parsed: Result<ParsedUrl, url::ParseError>)
    ensures
        parsed_view(parsed) == url_parse(input@),
{
    let url = url::Url::parse(input)?;
    Ok(
        ParsedUrl {
            text: url.as_str().to_string(),
            scheme: url.scheme().to_string(),
            host: url.host_str().map(|h| h.to_string()),
            path: url.path().to_string(),
        },
    )
}

/// `url::ParseError`'s `to_string`: the error in words. Nothing is claimed of
/// the words.
#[verifier::external_body]
fn error_message(error: &url::ParseError) -> (message: String) {
    error.to_string()
}

/// Why a text is no URL.
#[derive(Debug, PartialEq, Eq)]
pub struct InvalidUrl {
    /// The reason in words.
    pub message: String,
}

impl ParsedUrl {
    /// Parses `input` as an absolute URL.
    pub fn parse(input: &str) -> (parsed: Result<ParsedUrl, InvalidUrl>)
        ensures
            match parsed {
                Ok(url) => url_parse(input@) == Some(url@),
                Err(_) => url_parse(input@) is None,
            },
    {
        match parse_url(input) {
            Ok(url) => Ok(url),
            Err(error) => Err(InvalidUrl { message: error_message(&error) }),
        }
    }

    /// The URL as a whole.
    pub fn as_str(&self) -> (text: &str)
        ensures
            text@ == self@.text,
    {
        self.text.as_str()
    }

    /// The scheme, in lower case and without the colon.
    pub fn scheme(&self) -> (scheme: &str)
        ensures
            scheme@ == self@.scheme,
    {
        self.scheme.as_str()
    }

    /// The host, where the URL has one.
    pub fn host_str(&self) -> (host: Option<&str>)
        ensures
            match host {
                Some(h) => self@.host == Some(h@),
                None => self@.host is None,
            },
    {
        match &self.host {
            Some(h) => Some(h.as_str()),
            None => None,
        }
    }

    /// The path, percent-encoded.
    pub fn path(&self) -> (path: &str)
        ensures
            path@ == self@.path,
    {
        self.path.as_str()
    }
}

/// Whether a byte stands for itself in a percent-encoded text: letters,
/// digits, `-`, `.`, `_` and `~` do.
pub open spec fn is_unreserved(byte: u8) -> bool {
    ||| 0x30 <= byte <= 0x39
    ||| 0x41 <= byte <= 0x5A
    ||| 0x61 <= byte <= 0x7A
    ||| byte == 0x2D
    ||| byte == 0x2E
    ||| byte == 0x5F
    ||| byte == 0x7E
}

/// The upper-case hexadecimal digit of `value`.
pub open spec fn hex_digit(value: u8) -> char
    recommends
        value < 16,
{
    if value < 10 {
        ((0x30 + value) as u8) as char
    } else {
        ((0x41 + value - 10) as u8) as char
    }
}

/// One byte, percent-encoded.
pub open spec fn encoded_byte(byte: u8) -> Seq<char> {
    if is_unreserved(byte) {
        seq![byte as char]
    } else {
        seq!['%', hex_digit(byte / 16), hex_digit(byte % 16)]
    }
}

/// Bytes, percent-encoded one by one.
pub open spec fn encoded_bytes(bytes: Seq<u8>) -> Seq<char>
    decreases bytes.len(),
{
    if bytes.len() == 0 {
        Seq::empty()
    } else {
        encoded_bytes(bytes.drop_last()) + encoded_byte(bytes.last())
    }
}

/// A text, percent-encoded: every byte of its UTF-8 encoding but the
/// unreserved ones becomes `%` and two hexadecimal digits.
pub open spec fn percent_encoded(text: Seq<char>) -> Seq<char> {
    encoded_bytes(encode_utf8(text))
}

/// `urlencoding::encode`: percent-encodes every byte of the text's UTF-8
/// encoding except letters, digits, `-`, `_`, `.` and `~`, with upper-case
/// hexadecimal digits.
#[verifier::external_body]
pub(crate) fn percent_encode(text: &str) -> (encoded: String)
    ensures
        encoded@ == percent_encoded(text@),
{
    urlencoding::encode(text).into_owned()
}

/// What marks the place of the value in a template.
pub open spec fn placeholder() -> Seq<char> {
    seq!['{', '}']
}

/// The part of `template` from `from` on, with `value` in the place of every
/// placeholder.
pub open spec fn filled_from(template: Seq<char>, value: Seq<char>, from: int) -> Seq<char>
    decreases template.len() - from + 2,
{
    if from < 0 || from >= template.len() {
        Seq::empty()
    } else if matches_at(template, placeholder(), from) {
        value + filled_from(template, value, from + 2)
    } else {
        seq![template[from]] + filled_from(template, value, from + 1)
    }
}

/// `template` with `value` in the place of every placeholder `{}`.
pub open spec fn filled(template: Seq<char>, value: Seq<char>) -> Seq<char> {
    filled_from(template, value, 0)
}

/// `template` with `value` in the place of every placeholder `{}`.
pub fn fill_placeholder(template: &str, value: &str) -> (text: String)
    ensures
        text@ == filled(template@, value@),
{
    let source = chars_of(template);
    let insert = chars_of(value);
    let mut mark: Vec<char> = Vec::new();
    mark.push('{');
    mark.push('}');
    assert(mark@ =~= placeholder());
    let mut out: Vec<char> = Vec::new();
    let mut i: usize = 0;
    assert(out@ + filled_from(source@, insert@, 0) =~= filled(source@, insert@));
    while i < source.len()
        invariant
            i <= source@.len(),
            mark@ == placeholder(),
            filled(source@, insert@) == out@ + filled_from(source@, insert@, i as int),
        decreases source@.len() - i,
    {
        let ghost before = out@;
        if has_at(&source, &mark, i) {
            push_chars(&mut out, &insert);
            assert(before + (insert@ + filled_from(source@, insert@, i + 2)) =~= out@
                + filled_from(source@, insert@, i + 2));
            i += 2;
        } else {
            out.push(source[i]);
            assert(before + (seq![source@[i as int]] + filled_from(source@, insert@, i + 1))
                =~= out@ + filled_from(source@, insert@, i + 1));
            i += 1;
        }
    }
    assert(out@ + filled_from(source@, insert@, i as int) =~= out@);
    string_of(&out)
}

} // verus!
