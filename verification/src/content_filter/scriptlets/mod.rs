//! Scriptlet injection in the style of uBlock Origin: filter lines are parsed
//! into rules, and each rule is turned into the JavaScript to inject.

use vstd::prelude::*;
use crate::content_filter::scriptlets::builtin::{generate_script, script_of};
use crate::content_filter::scriptlets::parser::{
    RuleView, ScriptletRule, allow_list, rule_of, split, texts,
};
use crate::text::{chars_of, push_str, string_of};

pub mod builtin;
pub mod parser;

verus! {

/// Errors that can occur during scriptlet operations.
#[derive(Debug)]
pub enum ScriptletError {
    /// Failed to fetch filters from remote.
    FetchError(String),
    /// Failed to read/write cache.
    CacheError(String),
    /// Failed to parse filters.
    ParseError(String),
}

impl ScriptletError {
    /// The error in words.
    pub open spec fn text(self) -> Seq<char> {
        match self {
            ScriptletError::FetchError(msg) => "Fetch error: "@ + msg@,
            ScriptletError::CacheError(msg) => "Cache error: "@ + msg@,
            ScriptletError::ParseError(msg) => "Parse error: "@ + msg@,
        }
    }

    /// The error in words.
    pub fn message(&self) -> (text: String)
        ensures
            text@ == self.text(),
    {
        let mut out: Vec<char> = Vec::new();
        match self {
            ScriptletError::FetchError(msg) => {
                push_str(&mut out, "Fetch error: ");
                push_str(&mut out, msg.as_str());
            },
            ScriptletError::CacheError(msg) => {
                push_str(&mut out, "Cache error: ");
                push_str(&mut out, msg.as_str());
            },
            ScriptletError::ParseError(msg) => {
                push_str(&mut out, "Parse error: ");
                push_str(&mut out, msg.as_str());
            },
        }
        assert(out@ =~= self.text());
        string_of(&out)
    }
}

/// A rule made ready for injection: the script and the pages it goes into.
#[derive(Debug)]
pub struct CompiledScript {
    pub rule: ScriptletRule,
    /// The JavaScript to inject.
    pub source: String,
    /// The patterns of the pages to inject it into.
    pub allow_list: Vec<String>,
}

/// What a `CompiledScript` stands for in contracts.
pub struct CompiledView {
    pub rule: RuleView,
    pub source: Seq<char>,
    pub allow_list: Seq<Seq<char>>,
}

impl View for CompiledScript {
    type V = CompiledView;

    open spec fn view(&self) -> CompiledView {
        CompiledView {
            rule: self.rule@,
            source: self.source@,
            allow_list: texts(self.allow_list@),
        }
    }
}

/// The views of `scripts`, in order.
pub open spec fn compiled_views(scripts: Seq<CompiledScript>) -> Seq<CompiledView> {
    Seq::new(scripts.len(), |i: int| scripts[i]@)
}

/// What a filter line compiles to: the script of the rule it states, for
/// the pages of the rule's domains. A line that states no rule, or a rule
/// that has no script, compiles to nothing.
pub open spec fn compiled_line(line: Seq<char>) -> Option<CompiledView> {
    match rule_of(line) {
        Some(rule) => match script_of(rule) {
            Some(source) => Some(CompiledView { rule, source, allow_list: allow_list(rule.domains) }),
            None => None,
        },
        None => None,
    }
}

/// What the lines `lines` compile to, in order.
pub open spec fn compiled_lines(lines: Seq<Seq<char>>) -> Seq<CompiledView> {
    lines.filter_map(|line: Seq<char>| compiled_line(line))
}

/// What the filter lists `filters` compile to, list after list and in each
/// list line after line.
pub open spec fn compiled_filters(filters: Seq<Seq<char>>) -> Seq<CompiledView>
    decreases filters.len(),
{
    if filters.len() == 0 {
        Seq::empty()
    } else {
        compiled_filters(filters.drop_last()) + compiled_lines(split(filters.last(), '\n'))
    }
}

/// What one more line adds to the compiled ones.
proof fn lemma_compiled_push(lines: Seq<Seq<char>>, line: Seq<char>)
    ensures
        compiled_lines(lines.push(line)) == match compiled_line(line) {
            Some(script) => compiled_lines(lines).push(script),
            None => compiled_lines(lines),
        },
{
    let compile = |line: Seq<char>| compiled_line(line);
    assert(lines.push(line).drop_last() =~= lines);
    match compiled_line(line) {
        Some(script) => {
            assert(compiled_lines(lines) + seq![script] =~= compiled_lines(lines).push(script));
        },
        None => {},
    }
}

/// Compiles one filter line.
pub fn compile_line(line: &str) -> (script: Option<CompiledScript>)
    ensures
        match script {
            Some(s) => compiled_line(line@) == Some(s@),
            None => compiled_line(line@) is None,
        },
{
    match ScriptletRule::parse(line) {
        Some(rule) => match generate_script(&rule) {
            Some(source) => {
                let allow_list = rule.webkit_allow_list();
                Some(CompiledScript { rule, source, allow_list })
            },
            None => None,
        },
        None => None,
    }
}

/// Manages scriptlet injection: the rules in force and their scripts.
pub struct ScriptletManager {
    scripts: Vec<CompiledScript>,
}

impl View for ScriptletManager {
    type V = Seq<CompiledView>;

    closed spec fn view(&self) -> Seq<CompiledView> {
        compiled_views(self.scripts@)
    }
}

impl ScriptletManager {
    /// A manager without rules.
    pub fn new() -> (manager: ScriptletManager)
        ensures
            manager@ == Seq::<CompiledView>::empty(),
    {
        let manager = ScriptletManager { scripts: Vec::new() };
        assert(manager@ =~= Seq::<CompiledView>::empty());
        manager
    }

    /// Appends what the filter list `text` compiles to.
    fn compile_list(&mut self, text: &str)
        ensures
            final(self)@ == old(self)@ + compiled_lines(split(text@, '\n')),
    {
        let chars = chars_of(text);
        let mut line: Vec<char> = Vec::new();
        let mut i: usize = 0;
        assert(chars@.take(0) =~= Seq::<char>::empty());
        assert(split(chars@.take(0), '\n').drop_last() =~= Seq::<Seq<char>>::empty());
        assert(self@ + compiled_lines(Seq::<Seq<char>>::empty()) =~= self@);
        while i < chars.len()
            invariant
                i <= chars@.len(),
                split(chars@.take(i as int), '\n').len() > 0,
                line@ == split(chars@.take(i as int), '\n').last(),
                self@ == old(self)@ + compiled_lines(
                    split(chars@.take(i as int), '\n').drop_last(),
                ),
            decreases chars@.len() - i,
        {
            let ghost pieces = split(chars@.take(i as int), '\n');
            assert(chars@.take(i + 1).drop_last() =~= chars@.take(i as int));
            if chars[i] == '\n' {
                proof {
                    lemma_compiled_push(pieces.drop_last(), pieces.last());
                    assert(pieces.drop_last().push(pieces.last()) =~= pieces);
                    assert(pieces.push(Seq::empty()).drop_last() =~= pieces);
                }
                self.add_line(&line);
                line = Vec::new();
            } else {
                line.push(chars[i]);
                assert(pieces.drop_last().push(pieces.last().push(chars@[i as int])).drop_last()
                    =~= pieces.drop_last());
            }
            i += 1;
        }
        assert(chars@.take(i as int) =~= chars@);
        let ghost pieces = split(chars@, '\n');
        proof {
            lemma_compiled_push(pieces.drop_last(), pieces.last());
            assert(pieces.drop_last().push(pieces.last()) =~= pieces);
        }
        self.add_line(&line);
    }

    /// Appends what the line `line` compiles to, if anything.
    fn add_line(&mut self, line: &Vec<char>)
        ensures
            final(self)@ == match compiled_line(line@) {
                Some(script) => old(self)@.push(script),
                None => old(self)@,
            },
    {
        match compile_line(string_of(line).as_str()) {
            Some(script) => {
                self.scripts.push(script);
                assert(self@ =~= old(self)@.push(script@));
            },
            None => {},
        }
    }

    /// Parse filter text and compile to scripts: what was compiled before is
    /// dropped, and each line of each list that states a rule with a known
    /// scriptlet adds its script.
    pub fn parse_and_compile(&mut self, filters: &Vec<String>)
        ensures
            final(self)@ == compiled_filters(texts(filters@)),
    {
        self.scripts.clear();
        assert(self@ =~= Seq::<CompiledView>::empty());
        let mut i: usize = 0;
        assert(texts(filters@).take(0) =~= Seq::<Seq<char>>::empty());
        while i < filters.len()
            invariant
                i <= filters@.len(),
                self@ == compiled_filters(texts(filters@).take(i as int)),
            decreases filters@.len() - i,
        {
            assert(texts(filters@).take(i + 1).drop_last() =~= texts(filters@).take(i as int));
            self.compile_list(filters[i].as_str());
            i += 1;
        }
        assert(texts(filters@).take(i as int) =~= texts(filters@));
    }

    /// The compiled scripts, in the order of their lines.
    pub fn scripts(&self) -> (scripts: &Vec<CompiledScript>)
        ensures
            compiled_views(scripts@) == self@,
    {
        &self.scripts
    }

    /// Get the number of loaded rules.
    pub fn rule_count(&self) -> (count: usize)
        ensures
            count == self@.len(),
    {
        self.scripts.len()
    }

    /// Get the number of compiled scripts.
    pub fn script_count(&self) -> (count: usize)
        ensures
            count == self@.len(),
    {
        self.scripts.len()
    }
}

} // verus!
