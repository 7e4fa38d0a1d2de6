//! Parser for uBlock Origin filter syntax.
//!
//! Parses filters like:
//! `youtube.com##+js(set-constant, ytInitialPlayerResponse.playerAds, undefined)`

use vstd::prelude::*;
use crate::text::{chars_of, find, find_text, push_str, string_of, text_is, trim, trimmed};

verus! {

/// A parsed scriptlet rule.
#[derive(Debug)]
pub struct ScriptletRule {
    /// Domain patterns (e.g., ["youtube.com", "m.youtube.com"]).
    pub domains: Vec<String>,
    /// Scriptlet name (e.g., "set-constant").
    pub scriptlet_name: String,
    /// Arguments (e.g., ["ytInitialPlayerResponse.playerAds", "undefined"]).
    pub args: Vec<String>,
}

/// What a `ScriptletRule` stands for in contracts.
pub struct RuleView {
    pub domains: Seq<Seq<char>>,
    pub scriptlet_name: Seq<char>,
    pub args: Seq<Seq<char>>,
}

/// The texts of `strings`, in order.
pub open spec fn texts(strings: Seq<String>) -> Seq<Seq<char>> {
    Seq::new(strings.len(), |i: int| strings[i]@)
}

/// The texts of `lines`, in order.
pub open spec fn line_texts(lines: Seq<Vec<char>>) -> Seq<Seq<char>> {
    Seq::new(lines.len(), |i: int| lines[i]@)
}

impl View for ScriptletRule {
    type V = RuleView;

    open spec fn view(&self) -> RuleView {
        RuleView {
            domains: texts(self.domains@),
            scriptlet_name: self.scriptlet_name@,
            args: texts(self.args@),
        }
    }
}

fn clone_strings(strings: &Vec<String>) -> (copy: Vec<String>)
    ensures
        texts(copy@) == texts(strings@),
{
    let mut copy: Vec<String> = Vec::new();
    let mut i: usize = 0;
    while i < strings.len()
        invariant
            i <= strings@.len(),
            copy@.len() == i,
            forall|j: int| 0 <= j < i ==> copy@[j]@ == strings@[j]@,
        decreases strings@.len() - i,
    {
        copy.push(strings[i].clone());
        i += 1;
    }
    assert(texts(copy@) =~= texts(strings@));
    copy
}

impl Clone for ScriptletRule {
    fn clone(&self) -> (copy: ScriptletRule)
        ensures
            copy@ == self@,
    {
        ScriptletRule {
            domains: clone_strings(&self.domains),
            scriptlet_name: self.scriptlet_name.clone(),
            args: clone_strings(&self.args),
        }
    }
}

/// What introduces the scriptlet call in a filter line.
pub open spec fn js_marker() -> Seq<char> {
    seq!['#', '#', '+', 'j', 's', '(']
}

/// The pieces of `text` between the separators `sep`: one more than there
/// are separators.
pub open spec fn split(text: Seq<char>, sep: char) -> Seq<Seq<char>>
    decreases text.len(),
{
    if text.len() == 0 {
        seq![Seq::empty()]
    } else {
        let front = split(text.drop_last(), sep);
        if text.last() == sep {
            front.push(Seq::empty())
        } else {
            front.drop_last().push(front.last().push(text.last()))
        }
    }
}

/// Whether a trimmed piece of the domain list names a domain to match: it
/// is not empty and not negated with `~`.
pub open spec fn is_domain(piece: Seq<char>) -> bool {
    piece.len() > 0 && piece[0] != '~'
}

/// The domains among `pieces`: each piece trimmed, the empty and the
/// negated ones left out.
pub open spec fn domains_among(pieces: Seq<Seq<char>>) -> Seq<Seq<char>> {
    pieces.map_values(|piece: Seq<char>| trim(piece)).filter(|piece: Seq<char>| is_domain(piece))
}

/// The domains that the list `text` names, which separates them by commas.
pub open spec fn domains_of(text: Seq<char>) -> Seq<Seq<char>> {
    domains_among(split(text, ','))
}

/// Where a scan for the closing parenthesis stands.
pub struct ParenScan {
    /// How many parentheses are open.
    pub depth: nat,
    /// Whether the scan is inside a quoted string.
    pub in_string: bool,
    /// Whether the next character is escaped.
    pub escape_next: bool,
}

/// Whether `c` begins or ends a quoted string.
pub open spec fn is_quote(c: char) -> bool {
    c == '"' || c == '\''
}

/// The scan after one more character.
pub open spec fn paren_step(scan: ParenScan, c: char) -> ParenScan {
    if scan.escape_next {
        ParenScan { escape_next: false, ..scan }
    } else if c == '\\' {
        ParenScan { escape_next: true, ..scan }
    } else if is_quote(c) {
        ParenScan { in_string: !scan.in_string, ..scan }
    } else if c == '(' && !scan.in_string {
        ParenScan { depth: scan.depth + 1, ..scan }
    } else if c == ')' && !scan.in_string && scan.depth > 0 {
        ParenScan { depth: (scan.depth - 1) as nat, ..scan }
    } else {
        scan
    }
}

/// The scan after the characters `text`.
pub open spec fn paren_scan(text: Seq<char>) -> ParenScan
    decreases text.len(),
{
    if text.len() == 0 {
        ParenScan { depth: 0, in_string: false, escape_next: false }
    } else {
        paren_step(paren_scan(text.drop_last()), text.last())
    }
}

/// Whether the character at `at` closes the call: it is a `)`, neither
/// escaped nor inside a string, and no parenthesis that was opened before it
/// is still open.
pub open spec fn closes_call(text: Seq<char>, at: int) -> bool {
    let before = paren_scan(text.take(at));
    &&& 0 <= at < text.len()
    &&& text[at] == ')'
    &&& !before.escape_next
    &&& !before.in_string
    &&& before.depth == 0
}

/// The first place from `from` on whose character closes the call.
pub open spec fn closing_from(text: Seq<char>, from: int) -> Option<int>
    decreases text.len() - from + 1,
{
    if from < 0 || from >= text.len() {
        None
    } else if closes_call(text, from) {
        Some(from)
    } else {
        closing_from(text, from + 1)
    }
}

/// The position of the closing parenthesis.
pub open spec fn closing_paren(text: Seq<char>) -> Option<int> {
    closing_from(text, 0)
}

/// Where the reading of a scriptlet call stands.
pub struct CallScan {
    /// The parts that a comma has ended, each trimmed.
    pub parts: Seq<Seq<char>>,
    /// The part being read.
    pub current: Seq<char>,
    pub in_string: bool,
    pub escape_next: bool,
}

/// The reading after one more character: an escaped character is taken as
/// it is, a backslash escapes, a comma outside a string ends the part, a
/// quote begins or ends a string and is dropped.
pub open spec fn call_step(scan: CallScan, c: char) -> CallScan {
    if scan.escape_next {
        CallScan { current: scan.current.push(c), escape_next: false, ..scan }
    } else if c == '\\' {
        CallScan { escape_next: true, ..scan }
    } else if c == ',' && !scan.in_string {
        CallScan { parts: scan.parts.push(trim(scan.current)), current: Seq::empty(), ..scan }
    } else if is_quote(c) {
        CallScan { in_string: !scan.in_string, ..scan }
    } else {
        CallScan { current: scan.current.push(c), ..scan }
    }
}

/// The reading after the characters `text`.
pub open spec fn call_scan(text: Seq<char>) -> CallScan
    decreases text.len(),
{
    if text.len() == 0 {
        CallScan {
            parts: Seq::empty(),
            current: Seq::empty(),
            in_string: false,
            escape_next: false,
        }
    } else {
        call_step(call_scan(text.drop_last()), text.last())
    }
}

/// The parts of the call `text`: those that a comma ended, and the last one
/// unless it is empty.
pub open spec fn call_parts(text: Seq<char>) -> Seq<Seq<char>> {
    let scan = call_scan(text);
    let last = trim(scan.current);
    if last.len() > 0 {
        scan.parts.push(last)
    } else {
        scan.parts
    }
}

/// The name that a scriptlet goes by, aliases resolved.
pub open spec fn canonical_name(name: Seq<char>) -> Seq<char> {
    let n = trim(name);
    if n == "set"@ {
        "set-constant"@
    } else if n == "aopr"@ {
        "abort-on-property-read"@
    } else if n == "aopw"@ {
        "abort-on-property-write"@
    } else if n == "aeld"@ {
        "addEventListener-defuser"@
    } else if n == "aell"@ {
        "addEventListener-logger"@
    } else if n == "nano-sib"@ {
        "nano-setInterval-booster"@
    } else if n == "nano-stb"@ {
        "nano-setTimeout-booster"@
    } else if n == "nosiif"@ {
        "no-setInterval-if"@
    } else if n == "nostif"@ {
        "no-setTimeout-if"@
    } else if n == "nowoif"@ {
        "no-window-open-if"@
    } else if n == "ra"@ {
        "remove-attr"@
    } else if n == "rc"@ {
        "remove-class"@
    } else {
        n
    }
}

/// The name and the arguments of the call `text`, if it has any part.
pub open spec fn call_of(text: Seq<char>) -> Option<(Seq<char>, Seq<Seq<char>>)> {
    let parts = call_parts(text);
    if parts.len() == 0 {
        None
    } else {
        Some((canonical_name(parts[0]), parts.skip(1)))
    }
}

/// The rule that the filter line `line` states, if it states one: after
/// trimming, the line is no comment, holds the marker `##+js(` with at least
/// one domain before it, and after it a call that is closed and has a name.
pub open spec fn rule_of(line: Seq<char>) -> Option<RuleView> {
    let text = trim(line);
    if text.len() == 0 || text[0] == '!' || text[0] == '#' {
        None
    } else {
        match find(text, js_marker()) {
            None => None,
            Some(at) => {
                let domains = domains_of(text.take(at));
                let call = text.skip(at + js_marker().len());
                if domains.len() == 0 {
                    None
                } else {
                    match closing_paren(call) {
                        None => None,
                        Some(end) => match call_of(call.take(end)) {
                            None => None,
                            Some((scriptlet_name, args)) => Some(
                                RuleView { domains, scriptlet_name, args },
                            ),
                        },
                    }
                }
            },
        }
    }
}

/// The patterns that match the pages of `domain`: the domain itself and
/// its subdomains.
pub open spec fn domain_patterns(domain: Seq<char>) -> Seq<Seq<char>> {
    seq!["*://"@ + domain + "/*"@, "*://*."@ + domain + "/*"@]
}

/// The patterns of all of `domains`, in order.
pub open spec fn allow_list(domains: Seq<Seq<char>>) -> Seq<Seq<char>>
    decreases domains.len(),
{
    if domains.len() == 0 {
        Seq::empty()
    } else {
        allow_list(domains.drop_last()) + domain_patterns(domains.last())
    }
}

/// What one more piece adds to the domains.
proof fn lemma_domains_push(pieces: Seq<Seq<char>>, piece: Seq<char>)
    ensures
        domains_among(pieces.push(piece)) == if is_domain(trim(piece)) {
            domains_among(pieces).push(trim(piece))
        } else {
            domains_among(pieces)
        },
{
    let trim_it = |piece: Seq<char>| trim(piece);
    let keep = |piece: Seq<char>| is_domain(piece);
    assert(pieces.push(piece).map_values(trim_it) =~= pieces.map_values(trim_it).push(
        trim(piece),
    ));
    pieces.map_values(trim_it).lemma_filter_push(trim(piece), keep);
}

fn to_strings(lines: &Vec<Vec<char>>, from: usize) -> (strings: Vec<String>)
    requires
        from <= lines@.len(),
    ensures
        texts(strings@) == line_texts(lines@).skip(from as int),
{
    let mut strings: Vec<String> = Vec::new();
    let mut i: usize = from;
    while i < lines.len()
        invariant
            from <= i <= lines@.len(),
            strings@.len() == i - from,
            forall|j: int| 0 <= j < i - from ==> strings@[j]@ == lines@[from + j]@,
        decreases lines@.len() - i,
    {
        strings.push(string_of(&lines[i]));
        i += 1;
    }
    assert(texts(strings@) =~= line_texts(lines@).skip(from as int));
    strings
}

impl ScriptletRule {
    /// Parse a filter line like "youtube.com##+js(set-constant, foo, bar)".
    ///
    /// Returns None if the line is not a valid scriptlet rule.
    pub fn parse(line: &str) -> (rule: Option<ScriptletRule>)
        ensures
            match rule {
                Some(r) => rule_of(line@) == Some(r@),
                None => rule_of(line@) is None,
            },
    {
        let raw = chars_of(line);
        let text = trimmed(&raw);
        if text.len() == 0 || text[0] == '!' || text[0] == '#' {
            return None;
        }
        let mut marker: Vec<char> = Vec::new();
        push_str(&mut marker, "##+js(");
        proof {
            reveal_strlit("##+js(");
            assert(marker@ =~= js_marker());
        }
        let at = match find_text(&text, &marker) {
            Some(at) => at,
            None => {
                return None;
            },
        };
        proof {
            crate::text::lemma_find_from(text@, js_marker(), 0);
        }
        let mut before: Vec<char> = Vec::new();
        let mut call: Vec<char> = Vec::new();
        let mut i: usize = 0;
        while i < text.len()
            invariant
                at + 6 <= text@.len(),
                i <= text@.len(),
                before@ == text@.take(if i < at {
                    i as int
                } else {
                    at as int
                }),
                call@ == text@.subrange(at + 6, if i < at + 6 {
                    at + 6
                } else {
                    i as int
                }),
            decreases text@.len() - i,
        {
            if i < at {
                before.push(text[i]);
                assert(text@.take(i + 1) =~= text@.take(i as int).push(text@[i as int]));
            } else if i >= at + 6 {
                call.push(text[i]);
                assert(text@.subrange(at + 6, i + 1) =~= text@.subrange(at + 6, i as int).push(
                    text@[i as int],
                ));
            }
            i += 1;
        }
        assert(call@ =~= text@.skip(at + 6));
        let domains = Self::parse_domains(&before);
        if domains.len() == 0 {
            return None;
        }
        let end = match Self::find_closing_paren(&call) {
            Some(end) => end,
            None => {
                return None;
            },
        };
        let mut content: Vec<char> = Vec::new();
        let mut k: usize = 0;
        while k < end
            invariant
                k <= end < call@.len(),
                content@ == call@.take(k as int),
            decreases end - k,
        {
            content.push(call[k]);
            assert(call@.take(k + 1) =~= call@.take(k as int).push(call@[k as int]));
            k += 1;
        }
        match Self::parse_call(&content) {
            Some((scriptlet_name, args)) => {
                let rule = ScriptletRule {
                    domains: to_strings(&domains, 0),
                    scriptlet_name,
                    args,
                };
                assert(line_texts(domains@).skip(0) =~= line_texts(domains@));
                Some(rule)
            },
            None => None,
        }
    }

    /// Parse domain list, handling commas and negation: negated domains are
    /// skipped.
    pub fn parse_domains(text: &Vec<char>) -> (domains: Vec<Vec<char>>)
        ensures
            line_texts(domains@) == domains_of(text@),
    {
        let mut domains: Vec<Vec<char>> = Vec::new();
        let mut current: Vec<char> = Vec::new();
        let mut i: usize = 0;
        assert(text@.take(0) =~= Seq::<char>::empty());
        assert(split(text@.take(0), ',').drop_last() =~= Seq::<Seq<char>>::empty());
        assert(domains_among(Seq::<Seq<char>>::empty()) =~= Seq::<Seq<char>>::empty()) by {
            reveal(Seq::filter);
        }
        assert(line_texts(domains@) =~= Seq::<Seq<char>>::empty());
        while i < text.len()
            invariant
                i <= text@.len(),
                split(text@.take(i as int), ',').len() > 0,
                current@ == split(text@.take(i as int), ',').last(),
                line_texts(domains@) == domains_among(split(text@.take(i as int), ',').drop_last()),
            decreases text@.len() - i,
        {
            let ghost pieces = split(text@.take(i as int), ',');
            assert(text@.take(i + 1).drop_last() =~= text@.take(i as int));
            if text[i] == ',' {
                let piece = trimmed(&current);
                proof {
                    lemma_domains_push(pieces.drop_last(), pieces.last());
                    assert(pieces.drop_last().push(pieces.last()) =~= pieces);
                    assert(pieces.push(Seq::empty()).drop_last() =~= pieces);
                }
                if piece.len() > 0 && piece[0] != '~' {
                    let ghost before = line_texts(domains@);
                    domains.push(piece);
                    assert(line_texts(domains@) =~= before.push(piece@));
                }
                current = Vec::new();
            } else {
                current.push(text[i]);
                assert(pieces.drop_last().push(pieces.last().push(text@[i as int])).drop_last()
                    =~= pieces.drop_last());
            }
            i += 1;
        }
        assert(text@.take(i as int) =~= text@);
        let ghost pieces = split(text@, ',');
        let piece = trimmed(&current);
        proof {
            lemma_domains_push(pieces.drop_last(), pieces.last());
            assert(pieces.drop_last().push(pieces.last()) =~= pieces);
        }
        if piece.len() > 0 && piece[0] != '~' {
            let ghost before = line_texts(domains@);
            domains.push(piece);
            assert(line_texts(domains@) =~= before.push(piece@));
        }
        domains
    }

    /// Find the position of the closing parenthesis.
    pub fn find_closing_paren(text: &Vec<char>) -> (found: Option<usize>)
        ensures
            match found {
                Some(at) => closing_paren(text@) == Some(at as int) && at < text@.len(),
                None => closing_paren(text@) is None,
            },
    {
        let mut depth: usize = 0;
        let mut in_string = false;
        let mut escape_next = false;
        let mut i: usize = 0;
        assert(text@.take(0) =~= Seq::<char>::empty());
        while i < text.len()
            invariant
                i <= text@.len(),
                depth <= i,
                paren_scan(text@.take(i as int)) == (ParenScan {
                    depth: depth as nat,
                    in_string,
                    escape_next,
                }),
                closing_paren(text@) == closing_from(text@, i as int),
            decreases text@.len() - i,
        {
            let c = text[i];
            assert(text@.take(i + 1).drop_last() =~= text@.take(i as int));
            if escape_next {
                escape_next = false;
            } else if c == '\\' {
                escape_next = true;
            } else if c == '"' || c == '\'' {
                in_string = !in_string;
            } else if c == '(' && !in_string {
                depth += 1;
            } else if c == ')' && !in_string {
                if depth == 0 {
                    return Some(i);
                }
                depth -= 1;
            }
            i += 1;
        }
        None
    }

    /// Parse the scriptlet call content into name and arguments.
    pub fn parse_call(content: &Vec<char>) -> (call: Option<(String, Vec<String>)>)
        ensures
            match call {
                Some((name, args)) => call_of(content@) == Some((name@, texts(args@))),
                None => call_of(content@) is None,
            },
    {
        let mut parts: Vec<Vec<char>> = Vec::new();
        let mut current: Vec<char> = Vec::new();
        let mut in_string = false;
        let mut escape_next = false;
        let mut i: usize = 0;
        assert(content@.take(0) =~= Seq::<char>::empty());
        assert(line_texts(parts@) =~= Seq::<Seq<char>>::empty());
        while i < content.len()
            invariant
                i <= content@.len(),
                call_scan(content@.take(i as int)) == (CallScan {
                    parts: line_texts(parts@),
                    current: current@,
                    in_string,
                    escape_next,
                }),
            decreases content@.len() - i,
        {
            let c = content[i];
            assert(content@.take(i + 1).drop_last() =~= content@.take(i as int));
            if escape_next {
                current.push(c);
                escape_next = false;
            } else if c == '\\' {
                escape_next = true;
            } else if c == ',' && !in_string {
                let ghost before = line_texts(parts@);
                let part = trimmed(&current);
                parts.push(part);
                assert(line_texts(parts@) =~= before.push(part@));
                current = Vec::new();
            } else if c == '"' || c == '\'' {
                in_string = !in_string;
            } else {
                current.push(c);
            }
            i += 1;
        }
        assert(content@.take(i as int) =~= content@);
        let last = trimmed(&current);
        if last.len() > 0 {
            let ghost before = line_texts(parts@);
            parts.push(last);
            assert(line_texts(parts@) =~= before.push(last@));
        }
        if parts.len() == 0 {
            return None;
        }
        let scriptlet_name = Self::normalize_scriptlet_name(&parts[0]);
        let args = to_strings(&parts, 1);
        Some((scriptlet_name, args))
    }

    /// Normalize scriptlet name aliases.
    pub fn normalize_scriptlet_name(name: &Vec<char>) -> (canonical: String)
        ensures
            canonical@ == canonical_name(name@),
    {
        let n = trimmed(name);
        if text_is("set", &n) {
            "set-constant".to_owned()
        } else if text_is("aopr", &n) {
            "abort-on-property-read".to_owned()
        } else if text_is("aopw", &n) {
            "abort-on-property-write".to_owned()
        } else if text_is("aeld", &n) {
            "addEventListener-defuser".to_owned()
        } else if text_is("aell", &n) {
            "addEventListener-logger".to_owned()
        } else if text_is("nano-sib", &n) {
            "nano-setInterval-booster".to_owned()
        } else if text_is("nano-stb", &n) {
            "nano-setTimeout-booster".to_owned()
        } else if text_is("nosiif", &n) {
            "no-setInterval-if".to_owned()
        } else if text_is("nostif", &n) {
            "no-setTimeout-if".to_owned()
        } else if text_is("nowoif", &n) {
            "no-window-open-if".to_owned()
        } else if text_is("ra", &n) {
            "remove-attr".to_owned()
        } else if text_is("rc", &n) {
            "remove-class".to_owned()
        } else {
            string_of(&n)
        }
    }

    /// Generate WebKit allow_list patterns for this rule.
    /// E.g., ["*://youtube.com/*", "*://*.youtube.com/*"]
    pub fn webkit_allow_list(&self) -> (patterns: Vec<String>)
        ensures
            texts(patterns@) == allow_list(self@.domains),
    {
        let mut patterns: Vec<String> = Vec::new();
        let mut i: usize = 0;
        assert(self@.domains.take(0) =~= Seq::<Seq<char>>::empty());
        assert(texts(patterns@) =~= Seq::<Seq<char>>::empty());
        while i < self.domains.len()
            invariant
                i <= self.domains@.len(),
                texts(patterns@) == allow_list(self@.domains.take(i as int)),
            decreases self.domains@.len() - i,
        {
            let ghost before = texts(patterns@);
            let domain = self.domains[i].as_str();
            let mut exact: Vec<char> = Vec::new();
            push_str(&mut exact, "*://");
            push_str(&mut exact, domain);
            push_str(&mut exact, "/*");
            let mut below: Vec<char> = Vec::new();
            push_str(&mut below, "*://*.");
            push_str(&mut below, domain);
            push_str(&mut below, "/*");
            patterns.push(string_of(&exact));
            patterns.push(string_of(&below));
            proof {
                assert(self@.domains.take(i + 1).drop_last() =~= self@.domains.take(i as int));
                assert(exact@ =~= "*://"@ + domain@ + "/*"@);
                assert(below@ =~= "*://*."@ + domain@ + "/*"@);
                assert(texts(patterns@) =~= before + domain_patterns(domain@));
            }
            i += 1;
        }
        assert(self@.domains.take(i as int) =~= self@.domains);
        patterns
    }
}

} // verus!
