use qayeq::content_filter::scriptlets::parser::ScriptletRule;

#[test]
fn test_parse_simple_rule() {
    let rule = ScriptletRule::parse(
        "youtube.com##+js(set-constant, ytInitialPlayerResponse.playerAds, undefined)",
    )
    .unwrap();

    assert_eq!(rule.domains, vec!["youtube.com"]);
    assert_eq!(rule.scriptlet_name, "set-constant");
    assert_eq!(
        rule.args,
        vec!["ytInitialPlayerResponse.playerAds", "undefined"]
    );
}

#[test]
fn test_parse_multiple_domains() {
    let rule = ScriptletRule::parse("youtube.com,m.youtube.com##+js(set, foo, bar)").unwrap();

    assert_eq!(rule.domains, vec!["youtube.com", "m.youtube.com"]);
    assert_eq!(rule.scriptlet_name, "set-constant"); // normalized from "set"
}

#[test]
fn test_parse_alias() {
    let rule = ScriptletRule::parse("example.com##+js(aopr, someProperty)").unwrap();
    assert_eq!(rule.scriptlet_name, "abort-on-property-read");
}

#[test]
fn test_skip_comment() {
    assert!(ScriptletRule::parse("! This is a comment").is_none());
    assert!(ScriptletRule::parse("# Another comment").is_none());
}

#[test]
fn test_webkit_allow_list() {
    let rule = ScriptletRule::parse("youtube.com##+js(set, foo, bar)").unwrap();
    let patterns = rule.webkit_allow_list();

    assert!(patterns.contains(&"*://youtube.com/*".to_string()));
    assert!(patterns.contains(&"*://*.youtube.com/*".to_string()));
}

#[test]
fn allow_list_has_two_patterns_per_domain_in_order() {
    let rule = ScriptletRule::parse("a.com, b.org##+js(set, foo, bar)").unwrap();
    assert_eq!(
        rule.webkit_allow_list(),
        vec!["*://a.com/*", "*://*.a.com/*", "*://b.org/*", "*://*.b.org/*"]
    );
}

#[test]
fn parse_trims_the_line_and_each_part() {
    let rule = ScriptletRule::parse("  \t example.com ##+js(  aeld ,  click  , pop )  ").unwrap();
    assert_eq!(rule.domains, vec!["example.com"]);
    assert_eq!(rule.scriptlet_name, "addEventListener-defuser");
    assert_eq!(rule.args, vec!["click", "pop"]);
}

#[test]
fn parse_skips_negated_and_empty_domains() {
    let rule = ScriptletRule::parse("a.com,~b.com,,c.com##+js(ra, href)").unwrap();
    assert_eq!(rule.domains, vec!["a.com", "c.com"]);
    assert_eq!(rule.scriptlet_name, "remove-attr");
    assert!(ScriptletRule::parse("~b.com##+js(ra, href)").is_none());
    assert!(ScriptletRule::parse("x##+js(ra, href").is_none());
    assert!(ScriptletRule::parse("x.com##+js()").is_none());
    assert!(ScriptletRule::parse("x.com##.ad-banner").is_none());
    assert!(ScriptletRule::parse("").is_none());
    assert!(ScriptletRule::parse("   ").is_none());
}

#[test]
fn parse_handles_nesting_quotes_and_escapes() {
    let rule = ScriptletRule::parse("a.com##+js(nostif, f(x), \"a, b\", c\\,d) trailing").unwrap();
    assert_eq!(rule.scriptlet_name, "no-setTimeout-if");
    assert_eq!(rule.args, vec!["f(x)", "a, b", "c,d"]);
    let quoted = ScriptletRule::parse("a.com##+js(set, ')', 1)").unwrap();
    assert_eq!(quoted.args, vec![")", "1"]);
}

#[test]
fn parse_keeps_an_empty_part_in_the_middle_only() {
    let rule = ScriptletRule::parse("a.com##+js(rc, , x, )").unwrap();
    assert_eq!(rule.scriptlet_name, "remove-class");
    assert_eq!(rule.args, vec!["", "x"]);
}

#[test]
fn every_alias_resolves() {
    let cases = [
        ("set", "set-constant"),
        ("aopr", "abort-on-property-read"),
        ("aopw", "abort-on-property-write"),
        ("aeld", "addEventListener-defuser"),
        ("aell", "addEventListener-logger"),
        ("nano-sib", "nano-setInterval-booster"),
        ("nano-setInterval-booster", "nano-setInterval-booster"),
        ("nano-stb", "nano-setTimeout-booster"),
        ("nosiif", "no-setInterval-if"),
        ("nostif", "no-setTimeout-if"),
        ("nowoif", "no-window-open-if"),
        ("ra", "remove-attr"),
        ("rc", "remove-class"),
        ("json-prune", "json-prune"),
    ];
    for (alias, name) in cases {
        let chars: Vec<char> = format!(" {} ", alias).chars().collect();
        assert_eq!(ScriptletRule::normalize_scriptlet_name(&chars), name);
    }
}
