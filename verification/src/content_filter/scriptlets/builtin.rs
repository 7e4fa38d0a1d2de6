//! Built-in scriptlet implementations.
//!
//! Each scriptlet generates JavaScript code that gets injected into matching
//! pages. Based on uBlock Origin's scriptlets.

use vstd::prelude::*;
use crate::content_filter::scriptlets::parser::{RuleView, ScriptletRule, texts};
use crate::text::{chars_of, option_text, push_str, same_text, string_of, text_is};
use crate::url_bar::parser::ascii_lower;

verus! {

/// The beginning of the function that every scriptlet runs in, which fails
/// silently.
pub const WRAP_HEAD: &'static str = r#"(function() {
    'use strict';
    try {
        "#;

/// The end of the function that every scriptlet runs in, which fails silently.
pub const WRAP_TAIL: &'static str = r#"
    } catch (e) {
        // Silent fail
    }
})();"#;

/// The beginning of the comment that stands for a value which the scriptlet
/// `set-constant` cannot set.
pub const UNSUPPORTED_HEAD: &'static str = r#"/* unsupported value: "#;

/// The end of the comment that stands for a value which the scriptlet
/// `set-constant` cannot set.
pub const UNSUPPORTED_TAIL: &'static str = r#" */"#;

/// The beginning of the scriptlet `set-constant`.
pub const SET_CONSTANT_HEAD: &'static str = r#"
        const chain = '"#;

/// The middle of the scriptlet `set-constant`.
pub const SET_CONSTANT_MIDDLE: &'static str = r#"';
        const cValue = "#;

/// The end of the scriptlet `set-constant`.
pub const SET_CONSTANT_TAIL: &'static str = r#";

        const setConstant = function(chain, cValue) {
            const props = chain.split('.');
            let owner = window;

            for (let i = 0; i < props.length - 1; i++) {
                const prop = props[i];
                if (!(prop in owner)) {
                    Object.defineProperty(owner, prop, {
                        value: {},
                        writable: true,
                        enumerable: true,
                        configurable: true
                    });
                }
                owner = owner[prop];
                if (owner === null || (typeof owner !== 'object' && typeof owner !== 'function')) {
                    return;
                }
            }

            const lastProp = props[props.length - 1];
            try {
                Object.defineProperty(owner, lastProp, {
                    get: function() { return cValue; },
                    set: function() {},
                    enumerable: true,
                    configurable: false
                });
            } catch (e) {
                owner[lastProp] = cValue;
            }
        };

        setConstant(chain, cValue);
"#;

/// The beginning of the scriptlet `json-prune`.
pub const JSON_PRUNE_HEAD: &'static str = r#"
        const propsToRemove = '"#;

/// The middle of the scriptlet `json-prune`.
pub const JSON_PRUNE_MIDDLE: &'static str = r#"';
        const needle = '"#;

/// The end of the scriptlet `json-prune`.
pub const JSON_PRUNE_TAIL: &'static str = r#"';

        const pruner = function(obj, props) {
            if (typeof obj !== 'object' || obj === null) return obj;
            const propList = props.split(' ');
            for (const propPath of propList) {
                if (!propPath) continue;
                const parts = propPath.split('.');
                let current = obj;
                for (let i = 0; i < parts.length - 1; i++) {
                    if (!current || typeof current !== 'object') break;
                    current = current[parts[i]];
                }
                if (current && typeof current === 'object') {
                    delete current[parts[parts.length - 1]];
                }
            }
            return obj;
        };

        const origParse = JSON.parse;
        JSON.parse = function(text, reviver) {
            // Fast path: skip if needle not found in raw text
            if (needle && typeof text === 'string' && !text.includes(needle)) {
                return origParse.call(this, text, reviver);
            }
            const result = origParse.call(this, text, reviver);
            return pruner(result, propsToRemove);
        };
"#;

/// The beginning of the scriptlet `abort-on-property-read`.
pub const ABORT_ON_PROPERTY_READ_HEAD: &'static str = r#"
        const chain = '"#;

/// The end of the scriptlet `abort-on-property-read`.
pub const ABORT_ON_PROPERTY_READ_TAIL: &'static str = r#"';
        const props = chain.split('.');
        let owner = window;

        for (let i = 0; i < props.length - 1; i++) {
            if (!(props[i] in owner)) {
                owner[props[i]] = {};
            }
            owner = owner[props[i]];
        }

        const lastProp = props[props.length - 1];
        Object.defineProperty(owner, lastProp, {
            get: function() {
                throw new ReferenceError('aopr: ' + chain);
            },
            set: function() {},
            configurable: true
        });
"#;

/// The beginning of the scriptlet `abort-on-property-write`.
pub const ABORT_ON_PROPERTY_WRITE_HEAD: &'static str = r#"
        const chain = '"#;

/// The end of the scriptlet `abort-on-property-write`.
pub const ABORT_ON_PROPERTY_WRITE_TAIL: &'static str = r#"';
        const props = chain.split('.');
        let owner = window;

        for (let i = 0; i < props.length - 1; i++) {
            if (!(props[i] in owner)) {
                owner[props[i]] = {};
            }
            owner = owner[props[i]];
        }

        const lastProp = props[props.length - 1];
        let currentValue = owner[lastProp];
        Object.defineProperty(owner, lastProp, {
            get: function() { return currentValue; },
            set: function(value) {
                throw new ReferenceError('aopw: ' + chain);
            },
            configurable: true
        });
"#;

/// The beginning of the scriptlet `addEventListener-defuser`.
pub const AELD_HEAD: &'static str = r#"
        const typePattern = '"#;

/// The middle of the scriptlet `addEventListener-defuser`.
pub const AELD_MIDDLE: &'static str = r#"';
        const handlerPattern = '"#;

/// The end of the scriptlet `addEventListener-defuser`.
pub const AELD_TAIL: &'static str = r#"';

        const origAddEventListener = EventTarget.prototype.addEventListener;
        EventTarget.prototype.addEventListener = function(type, handler, options) {
            if (typePattern && !type.includes(typePattern)) {
                return origAddEventListener.call(this, type, handler, options);
            }
            if (handlerPattern && handler && !handler.toString().includes(handlerPattern)) {
                return origAddEventListener.call(this, type, handler, options);
            }
            // Blocked
        };
"#;

/// The beginning of the scriptlet `no-setTimeout-if`.
pub const NO_SETTIMEOUT_IF_HEAD: &'static str = r#"
        const pattern = '"#;

/// The end of the scriptlet `no-setTimeout-if`.
pub const NO_SETTIMEOUT_IF_TAIL: &'static str = r#"';
        const origSetTimeout = window.setTimeout;

        window.setTimeout = function(fn, delay, ...args) {
            const fnStr = typeof fn === 'function' ? fn.toString() : String(fn);
            if (pattern && fnStr.includes(pattern)) {
                return 0; // Blocked
            }
            return origSetTimeout.call(this, fn, delay, ...args);
        };
"#;

/// The beginning of the scriptlet `no-setInterval-if`.
pub const NO_SETINTERVAL_IF_HEAD: &'static str = r#"
        const pattern = '"#;

/// The end of the scriptlet `no-setInterval-if`.
pub const NO_SETINTERVAL_IF_TAIL: &'static str = r#"';
        const origSetInterval = window.setInterval;

        window.setInterval = function(fn, delay, ...args) {
            const fnStr = typeof fn === 'function' ? fn.toString() : String(fn);
            if (pattern && fnStr.includes(pattern)) {
                return 0; // Blocked
            }
            return origSetInterval.call(this, fn, delay, ...args);
        };
"#;

/// The beginning of the scriptlet `prevent-fetch`.
pub const PREVENT_FETCH_HEAD: &'static str = r#"
        const pattern = '"#;

/// The end of the scriptlet `prevent-fetch`.
pub const PREVENT_FETCH_TAIL: &'static str = r#"';
        const origFetch = window.fetch;

        window.fetch = function(resource, options) {
            const url = typeof resource === 'string' ? resource :
                        resource instanceof Request ? resource.url : String(resource);
            if (pattern && url.includes(pattern)) {
                return Promise.reject(new TypeError('Fetch blocked'));
            }
            return origFetch.call(this, resource, options);
        };
"#;

/// The beginning of the scriptlet `prune-property-on-set`.
pub const PRUNE_PROPERTY_ON_SET_HEAD: &'static str = r#"
        const propName = '"#;

/// The middle of the scriptlet `prune-property-on-set`.
pub const PRUNE_PROPERTY_ON_SET_MIDDLE: &'static str = r#"';
        const propsToRemove = '"#;

/// The end of the scriptlet `prune-property-on-set`.
pub const PRUNE_PROPERTY_ON_SET_TAIL: &'static str = r#"';

        const deepPrune = function(obj, props) {
            if (!obj || typeof obj !== 'object') return;
            const propList = props.split(/\s+/);

            for (const key of Object.keys(obj)) {
                if (propList.includes(key)) {
                    delete obj[key];
                } else if (typeof obj[key] === 'object' && obj[key] !== null) {
                    deepPrune(obj[key], props);
                }
            }
        };

        let storedValue = window[propName];

        Object.defineProperty(window, propName, {
            get: function() {
                return storedValue;
            },
            set: function(value) {
                if (value && typeof value === 'object') {
                    deepPrune(value, propsToRemove);
                }
                storedValue = value;
            },
            configurable: true,
            enumerable: true
        });
"#;

/// The beginning of the scriptlet `prune-fetch-response`.
pub const PRUNE_FETCH_RESPONSE_HEAD: &'static str = r#"
        const propsToRemove = '"#;

/// The end of the scriptlet `prune-fetch-response`.
pub const PRUNE_FETCH_RESPONSE_TAIL: &'static str = r#"';

        const deepPrune = function(obj, props) {
            if (!obj || typeof obj !== 'object') return;
            const propList = props.split(/\s+/);

            for (const key of Object.keys(obj)) {
                if (propList.includes(key)) {
                    delete obj[key];
                } else if (typeof obj[key] === 'object') {
                    deepPrune(obj[key], props);
                }
            }
        };

        const origFetch = window.fetch;
        window.fetch = async function(resource, options) {
            const response = await origFetch.call(this, resource, options);

            const url = typeof resource === 'string' ? resource :
                        resource instanceof Request ? resource.url : String(resource);

            // Only process YouTube API calls
            if (!url.includes('/youtubei/') && !url.includes('/player')) {
                return response;
            }

            const contentType = response.headers.get('content-type') || '';
            if (!contentType.includes('json')) {
                return response;
            }

            try {
                const clone = response.clone();
                const text = await clone.text();
                const data = JSON.parse(text);

                deepPrune(data, propsToRemove);

                return new Response(JSON.stringify(data), {
                    status: response.status,
                    statusText: response.statusText,
                    headers: response.headers
                });
            } catch (e) {
                return response;
            }
        };
"#;

/// The beginning of the scriptlet `prevent-xhr`.
pub const PREVENT_XHR_HEAD: &'static str = r#"
        const pattern = '"#;

/// The end of the scriptlet `prevent-xhr`.
pub const PREVENT_XHR_TAIL: &'static str = r#"';
        const origOpen = XMLHttpRequest.prototype.open;

        XMLHttpRequest.prototype.open = function(method, url, ...args) {
            if (pattern && url.includes(pattern)) {
                this._blocked = true;
            }
            return origOpen.call(this, method, url, ...args);
        };

        const origSend = XMLHttpRequest.prototype.send;
        XMLHttpRequest.prototype.send = function(body) {
            if (this._blocked) {
                return;
            }
            return origSend.call(this, body);
        };
"#;

/// What is removed from the responses where a rule names nothing.
pub const DEFAULT_PRUNED: &'static str = "adPlacements playerAds adSlots";

/// The argument at `at`, or `default` where the rule has none there.
pub open spec fn arg_or(args: Seq<Seq<char>>, at: int, default: Seq<char>) -> Seq<char> {
    if 0 <= at < args.len() {
        args[at]
    } else {
        default
    }
}

/// Appends the argument at `at`, or `default` where there is none.
fn push_arg(out: &mut Vec<char>, args: &Vec<String>, at: usize, default: &str)
    ensures
        final(out)@ == old(out)@ + arg_or(texts(args@), at as int, default@),
{
    if at < args.len() {
        push_str(out, args[at].as_str());
    } else {
        push_str(out, default);
    }
}

/// Whether `c` is a decimal digit.
pub open spec fn is_digit(c: char) -> bool {
    '0' <= c <= '9'
}

/// Whether `c` is a sign.
pub open spec fn is_sign(c: char) -> bool {
    c == '+' || c == '-'
}

/// Where the digits that begin at `from` end.
pub open spec fn digits_end(text: Seq<char>, from: int) -> int
    decreases text.len() - from + 1,
{
    if 0 <= from < text.len() && is_digit(text[from]) {
        digits_end(text, from + 1)
    } else {
        from
    }
}

/// Whether `text`, from `from` on, is an exponent: `e` or `E`, a sign or
/// none, and digits to the end.
pub open spec fn is_exponent(text: Seq<char>, from: int) -> bool {
    let digits = if from + 1 < text.len() && is_sign(text[from + 1]) {
        from + 2
    } else {
        from + 1
    };
    &&& 0 <= from < text.len()
    &&& (text[from] == 'e' || text[from] == 'E')
    &&& digits_end(text, digits) > digits
    &&& digits_end(text, digits) == text.len()
}

/// Whether `text` is a decimal number without a sign: digits with at most
/// one point among them, at least one digit, and an exponent or none.
pub open spec fn is_decimal_number(text: Seq<char>) -> bool {
    let whole_end = digits_end(text, 0);
    let has_point = whole_end < text.len() && text[whole_end] == '.';
    let fraction_end = if has_point {
        digits_end(text, whole_end + 1)
    } else {
        whole_end
    };
    let digits = if has_point {
        fraction_end - 1
    } else {
        fraction_end
    };
    &&& digits > 0
    &&& (fraction_end == text.len() || is_exponent(text, fraction_end))
}

/// `text` with its ASCII letters in lower case.
pub open spec fn ascii_lowered(text: Seq<char>) -> Seq<char> {
    Seq::new(text.len(), |i: int| ascii_lower(text[i]))
}

/// Whether `text` reads as a floating-point number: after a sign or none,
/// one of the words `inf`, `infinity` and `nan` in any case, or a decimal
/// number.
pub open spec fn is_number_literal(text: Seq<char>) -> bool {
    let body = if text.len() > 0 && is_sign(text[0]) {
        text.skip(1)
    } else {
        text
    };
    ||| ascii_lowered(body) == "inf"@
    ||| ascii_lowered(body) == "infinity"@
    ||| ascii_lowered(body) == "nan"@
    ||| is_decimal_number(body)
}

fn skip_digits(text: &Vec<char>, from: usize) -> (end: usize)
    requires
        from <= text@.len(),
    ensures
        end == digits_end(text@, from as int),
        from <= end <= text@.len(),
{
    let mut end: usize = from;
    while end < text.len() && '0' <= text[end] && text[end] <= '9'
        invariant
            from <= end <= text@.len(),
            digits_end(text@, from as int) == digits_end(text@, end as int),
        decreases text@.len() - end,
    {
        end += 1;
    }
    end
}

fn reads_as_exponent(text: &Vec<char>, from: usize) -> (is: bool)
    requires
        from < text@.len(),
    ensures
        is == is_exponent(text@, from as int),
{
    let len = text.len();
    if text[from] != 'e' && text[from] != 'E' {
        return false;
    }
    let digits: usize = if from + 1 < len && (text[from + 1] == '+' || text[from + 1] == '-') {
        from + 2
    } else {
        from + 1
    };
    let end = skip_digits(text, digits);
    end > digits && end == text.len()
}

fn reads_as_decimal(text: &Vec<char>) -> (is: bool)
    ensures
        is == is_decimal_number(text@),
{
    let whole_end = skip_digits(text, 0);
    let has_point = whole_end < text.len() && text[whole_end] == '.';
    let fraction_end = if has_point {
        skip_digits(text, whole_end + 1)
    } else {
        whole_end
    };
    let digits = if has_point {
        fraction_end - 1
    } else {
        fraction_end
    };
    if digits == 0 {
        return false;
    }
    if fraction_end == text.len() {
        return true;
    }
    reads_as_exponent(text, fraction_end)
}

/// Whether `text` reads as a floating-point number.
pub fn reads_as_number(text: &str) -> (is: bool)
    ensures
        is == is_number_literal(text@),
{
    let chars = chars_of(text);
    let mut body: Vec<char> = Vec::new();
    let mut lowered: Vec<char> = Vec::new();
    let start: usize = if chars.len() > 0 && (chars[0] == '+' || chars[0] == '-') {
        1
    } else {
        0
    };
    let mut i: usize = start;
    while i < chars.len()
        invariant
            start <= i <= chars@.len(),
            body@ == chars@.subrange(start as int, i as int),
            lowered@ == ascii_lowered(chars@.subrange(start as int, i as int)),
        decreases chars@.len() - i,
    {
        let c = chars[i];
        body.push(c);
        lowered.push(
            if 'A' <= c && c <= 'Z' {
                ((c as u8) + 32) as char
            } else {
                c
            },
        );
        assert(chars@.subrange(start as int, i + 1) =~= chars@.subrange(
            start as int,
            i as int,
        ).push(c));
        assert(lowered@ =~= ascii_lowered(chars@.subrange(start as int, i + 1)));
        i += 1;
    }
    assert(chars@.subrange(start as int, chars@.len() as int) =~= chars@.skip(start as int));
    assert(chars@.skip(0) =~= chars@);
    text_is("inf", &lowered) || text_is("infinity", &lowered) || text_is("nan", &lowered)
        || reads_as_decimal(&body)
}

/// The JavaScript literal that the value `value` of a `set-constant` rule
/// stands for, where there is one: a named constant, or a number as it is
/// written.
pub open spec fn js_value(value: Seq<char>) -> Option<Seq<char>> {
    if value == "undefined"@ {
        Some("undefined"@)
    } else if value == "null"@ {
        Some("null"@)
    } else if value == "true"@ {
        Some("true"@)
    } else if value == "false"@ {
        Some("false"@)
    } else if value == "noopFunc"@ {
        Some("(function(){})"@)
    } else if value == "trueFunc"@ {
        Some("(function(){return true})"@)
    } else if value == "falseFunc"@ {
        Some("(function(){return false})"@)
    } else if value == "emptyStr"@ {
        Some("''"@)
    } else if value == "emptyArr"@ || value == "[]"@ {
        Some("[]"@)
    } else if value == "emptyObj"@ || value == "{}"@ {
        Some("{}"@)
    } else if is_number_literal(value) {
        Some(value)
    } else {
        None
    }
}

fn js_value_of(value: &str) -> (literal: Option<String>)
    ensures
        option_text(literal) == js_value(value@),
{
    if same_text(value, "undefined") {
        Some("undefined".to_owned())
    } else if same_text(value, "null") {
        Some("null".to_owned())
    } else if same_text(value, "true") {
        Some("true".to_owned())
    } else if same_text(value, "false") {
        Some("false".to_owned())
    } else if same_text(value, "noopFunc") {
        Some("(function(){})".to_owned())
    } else if same_text(value, "trueFunc") {
        Some("(function(){return true})".to_owned())
    } else if same_text(value, "falseFunc") {
        Some("(function(){return false})".to_owned())
    } else if same_text(value, "emptyStr") {
        Some("''".to_owned())
    } else if same_text(value, "emptyArr") || same_text(value, "[]") {
        Some("[]".to_owned())
    } else if same_text(value, "emptyObj") || same_text(value, "{}") {
        Some("{}".to_owned())
    } else if reads_as_number(value) {
        Some(value.to_owned())
    } else {
        None
    }
}

/// The JavaScript of `set-constant`, which overrides a property with a
/// constant value. Arguments: the property path, and the value (`undefined`
/// where there is none). A value that is neither a named constant nor a
/// number leaves a comment in place of the code.
pub open spec fn set_constant_js(args: Seq<Seq<char>>) -> Option<Seq<char>> {
    if args.len() < 1 {
        None
    } else {
        let value = arg_or(args, 1, "undefined"@);
        match js_value(value) {
            Some(literal) => Some(
                SET_CONSTANT_HEAD@ + args[0] + SET_CONSTANT_MIDDLE@ + literal + SET_CONSTANT_TAIL@,
            ),
            None => Some(UNSUPPORTED_HEAD@ + value + UNSUPPORTED_TAIL@),
        }
    }
}

/// set-constant: Override a property with a constant value.
/// Args: [property_path, value]
pub fn generate_set_constant(args: &Vec<String>) -> (js: Option<String>)
    ensures
        option_text(js) == set_constant_js(texts(args@)),
{
    if args.len() < 1 {
        return None;
    }
    let mut value: Vec<char> = Vec::new();
    push_arg(&mut value, args, 1, "undefined");
    let value = string_of(&value);
    let mut out: Vec<char> = Vec::new();
    match js_value_of(value.as_str()) {
        Some(literal) => {
            push_str(&mut out, SET_CONSTANT_HEAD);
            push_str(&mut out, args[0].as_str());
            push_str(&mut out, SET_CONSTANT_MIDDLE);
            push_str(&mut out, literal.as_str());
            push_str(&mut out, SET_CONSTANT_TAIL);
            assert(out@ =~= SET_CONSTANT_HEAD@ + args@[0]@ + SET_CONSTANT_MIDDLE@ + literal@
                + SET_CONSTANT_TAIL@);
        },
        None => {
            push_str(&mut out, UNSUPPORTED_HEAD);
            push_str(&mut out, value.as_str());
            push_str(&mut out, UNSUPPORTED_TAIL);
            assert(out@ =~= UNSUPPORTED_HEAD@ + value@ + UNSUPPORTED_TAIL@);
        },
    }
    Some(string_of(&out))
}

/// The JavaScript of `json-prune`, which removes properties from what
/// `JSON.parse` returns. Arguments: the properties to remove, and a needle
/// (none where there is none).
pub open spec fn json_prune_js(args: Seq<Seq<char>>) -> Option<Seq<char>> {
    if args.len() < 1 {
        None
    } else {
        Some(
            JSON_PRUNE_HEAD@ + args[0] + JSON_PRUNE_MIDDLE@ + arg_or(args, 1, ""@) + JSON_PRUNE_TAIL@,
        )
    }
}

/// json-prune: Remove properties from JSON.parse results.
/// Args: [properties_to_remove, optional_needle]
pub fn generate_json_prune(args: &Vec<String>) -> (js: Option<String>)
    ensures
        option_text(js) == json_prune_js(texts(args@)),
{
    if args.len() < 1 {
        return None;
    }
    let mut out: Vec<char> = Vec::new();
    push_str(&mut out, JSON_PRUNE_HEAD);
    push_str(&mut out, args[0].as_str());
    push_str(&mut out, JSON_PRUNE_MIDDLE);
    push_arg(&mut out, args, 1, "");
    push_str(&mut out, JSON_PRUNE_TAIL);
    assert(json_prune_js(texts(args@)) == Some(out@)) by {
        assert(out@ =~= json_prune_js(texts(args@))->0);
    }
    Some(string_of(&out))
}

/// The JavaScript of `abort-on-property-read`, which throws when a
/// property is read. Argument: the property path.
pub open spec fn abort_on_property_read_js(args: Seq<Seq<char>>) -> Option<Seq<char>> {
    if args.len() < 1 {
        None
    } else {
        Some(
            ABORT_ON_PROPERTY_READ_HEAD@ + args[0] + ABORT_ON_PROPERTY_READ_TAIL@,
        )
    }
}

/// abort-on-property-read: Throw when a property is accessed.
/// Args: [property_path]
pub fn generate_abort_on_property_read(args: &Vec<String>) -> (js: Option<String>)
    ensures
        option_text(js) == abort_on_property_read_js(texts(args@)),
{
    if args.len() < 1 {
        return None;
    }
    let mut out: Vec<char> = Vec::new();
    push_str(&mut out, ABORT_ON_PROPERTY_READ_HEAD);
    push_str(&mut out, args[0].as_str());
    push_str(&mut out, ABORT_ON_PROPERTY_READ_TAIL);
    assert(abort_on_property_read_js(texts(args@)) == Some(out@)) by {
        assert(out@ =~= abort_on_property_read_js(texts(args@))->0);
    }
    Some(string_of(&out))
}

/// The JavaScript of `abort-on-property-write`, which throws when a
/// property is written. Argument: the property path.
pub open spec fn abort_on_property_write_js(args: Seq<Seq<char>>) -> Option<Seq<char>> {
    if args.len() < 1 {
        None
    } else {
        Some(
            ABORT_ON_PROPERTY_WRITE_HEAD@ + args[0] + ABORT_ON_PROPERTY_WRITE_TAIL@,
        )
    }
}

/// abort-on-property-write: Throw when a property is written.
/// Args: [property_path]
pub fn generate_abort_on_property_write(args: &Vec<String>) -> (js: Option<String>)
    ensures
        option_text(js) == abort_on_property_write_js(texts(args@)),
{
    if args.len() < 1 {
        return None;
    }
    let mut out: Vec<char> = Vec::new();
    push_str(&mut out, ABORT_ON_PROPERTY_WRITE_HEAD);
    push_str(&mut out, args[0].as_str());
    push_str(&mut out, ABORT_ON_PROPERTY_WRITE_TAIL);
    assert(abort_on_property_write_js(texts(args@)) == Some(out@)) by {
        assert(out@ =~= abort_on_property_write_js(texts(args@))->0);
    }
    Some(string_of(&out))
}

/// The JavaScript of `addEventListener-defuser`, which keeps event
/// listeners from being added. Arguments: a pattern for the type and one for
/// the handler, each empty where there is none.
pub open spec fn aeld_js(args: Seq<Seq<char>>) -> Option<Seq<char>> {
    Some(
        AELD_HEAD@ + arg_or(args, 0, ""@) + AELD_MIDDLE@ + arg_or(args, 1, ""@) + AELD_TAIL@,
    )
}

/// addEventListener-defuser: Prevent specific event listeners.
/// Args: [type_pattern, handler_pattern]
pub fn generate_aeld(args: &Vec<String>) -> (js: Option<String>)
    ensures
        option_text(js) == aeld_js(texts(args@)),
{
    let mut out: Vec<char> = Vec::new();
    push_str(&mut out, AELD_HEAD);
    push_arg(&mut out, args, 0, "");
    push_str(&mut out, AELD_MIDDLE);
    push_arg(&mut out, args, 1, "");
    push_str(&mut out, AELD_TAIL);
    assert(aeld_js(texts(args@)) == Some(out@)) by {
        assert(out@ =~= aeld_js(texts(args@))->0);
    }
    Some(string_of(&out))
}

/// The JavaScript of `no-setTimeout-if`, which blocks the calls of
/// `setTimeout` that match a pattern. Argument: the pattern, empty where there
/// is none.
pub open spec fn no_settimeout_if_js(args: Seq<Seq<char>>) -> Option<Seq<char>> {
    Some(
        NO_SETTIMEOUT_IF_HEAD@ + arg_or(args, 0, ""@) + NO_SETTIMEOUT_IF_TAIL@,
    )
}

/// no-setTimeout-if: Block setTimeout calls matching a pattern.
/// Args: [pattern, optional_delay]
pub fn generate_no_settimeout_if(args: &Vec<String>) -> (js: Option<String>)
    ensures
        option_text(js) == no_settimeout_if_js(texts(args@)),
{
    let mut out: Vec<char> = Vec::new();
    push_str(&mut out, NO_SETTIMEOUT_IF_HEAD);
    push_arg(&mut out, args, 0, "");
    push_str(&mut out, NO_SETTIMEOUT_IF_TAIL);
    assert(no_settimeout_if_js(texts(args@)) == Some(out@)) by {
        assert(out@ =~= no_settimeout_if_js(texts(args@))->0);
    }
    Some(string_of(&out))
}

/// The JavaScript of `no-setInterval-if`, which blocks the calls of
/// `setInterval` that match a pattern. Argument: the pattern, empty where
/// there is none.
pub open spec fn no_setinterval_if_js(args: Seq<Seq<char>>) -> Option<Seq<char>> {
    Some(
        NO_SETINTERVAL_IF_HEAD@ + arg_or(args, 0, ""@) + NO_SETINTERVAL_IF_TAIL@,
    )
}

/// no-setInterval-if: Block setInterval calls matching a pattern.
/// Args: [pattern, optional_delay]
pub fn generate_no_setinterval_if(args: &Vec<String>) -> (js: Option<String>)
    ensures
        option_text(js) == no_setinterval_if_js(texts(args@)),
{
    let mut out: Vec<char> = Vec::new();
    push_str(&mut out, NO_SETINTERVAL_IF_HEAD);
    push_arg(&mut out, args, 0, "");
    push_str(&mut out, NO_SETINTERVAL_IF_TAIL);
    assert(no_setinterval_if_js(texts(args@)) == Some(out@)) by {
        assert(out@ =~= no_setinterval_if_js(texts(args@))->0);
    }
    Some(string_of(&out))
}

/// The JavaScript of `prevent-fetch`, which blocks the calls of `fetch`
/// whose URL matches a pattern. Argument: the pattern, empty where there is
/// none.
pub open spec fn prevent_fetch_js(args: Seq<Seq<char>>) -> Option<Seq<char>> {
    Some(
        PREVENT_FETCH_HEAD@ + arg_or(args, 0, ""@) + PREVENT_FETCH_TAIL@,
    )
}

/// prevent-fetch: Block fetch calls matching a URL pattern.
/// Args: [url_pattern]
pub fn generate_prevent_fetch(args: &Vec<String>) -> (js: Option<String>)
    ensures
        option_text(js) == prevent_fetch_js(texts(args@)),
{
    let mut out: Vec<char> = Vec::new();
    push_str(&mut out, PREVENT_FETCH_HEAD);
    push_arg(&mut out, args, 0, "");
    push_str(&mut out, PREVENT_FETCH_TAIL);
    assert(prevent_fetch_js(texts(args@)) == Some(out@)) by {
        assert(out@ =~= prevent_fetch_js(texts(args@))->0);
    }
    Some(string_of(&out))
}

/// The JavaScript of `prune-property-on-set`, which prunes what is
/// assigned to a property of the window. Arguments: the name of the property,
/// and the properties to remove (the usual ones where there are none).
pub open spec fn prune_property_on_set_js(args: Seq<Seq<char>>) -> Option<Seq<char>> {
    if args.len() < 1 {
        None
    } else {
        Some(
            PRUNE_PROPERTY_ON_SET_HEAD@ + args[0] + PRUNE_PROPERTY_ON_SET_MIDDLE@ + arg_or(args, 1, DEFAULT_PRUNED@) + PRUNE_PROPERTY_ON_SET_TAIL@,
        )
    }
}

/// prune-property-on-set: Intercept when a window property is SET and prune
/// sub-properties.
/// Args: [property_name, properties_to_remove]
pub fn generate_prune_property_on_set(args: &Vec<String>) -> (js: Option<String>)
    ensures
        option_text(js) == prune_property_on_set_js(texts(args@)),
{
    if args.len() < 1 {
        return None;
    }
    let mut out: Vec<char> = Vec::new();
    push_str(&mut out, PRUNE_PROPERTY_ON_SET_HEAD);
    push_str(&mut out, args[0].as_str());
    push_str(&mut out, PRUNE_PROPERTY_ON_SET_MIDDLE);
    push_arg(&mut out, args, 1, DEFAULT_PRUNED);
    push_str(&mut out, PRUNE_PROPERTY_ON_SET_TAIL);
    assert(prune_property_on_set_js(texts(args@)) == Some(out@)) by {
        assert(out@ =~= prune_property_on_set_js(texts(args@))->0);
    }
    Some(string_of(&out))
}

/// The JavaScript of `prune-fetch-response`, which prunes the JSON that
/// `fetch` returns. Argument: the properties to remove (the usual ones where
/// there are none).
pub open spec fn prune_fetch_response_js(args: Seq<Seq<char>>) -> Option<Seq<char>> {
    Some(
        PRUNE_FETCH_RESPONSE_HEAD@ + arg_or(args, 0, DEFAULT_PRUNED@) + PRUNE_FETCH_RESPONSE_TAIL@,
    )
}

/// prune-fetch-response: Intercept fetch responses and remove ad-related JSON
/// properties.
/// Args: [properties_to_remove]
pub fn generate_prune_fetch_response(args: &Vec<String>) -> (js: Option<String>)
    ensures
        option_text(js) == prune_fetch_response_js(texts(args@)),
{
    let mut out: Vec<char> = Vec::new();
    push_str(&mut out, PRUNE_FETCH_RESPONSE_HEAD);
    push_arg(&mut out, args, 0, DEFAULT_PRUNED);
    push_str(&mut out, PRUNE_FETCH_RESPONSE_TAIL);
    assert(prune_fetch_response_js(texts(args@)) == Some(out@)) by {
        assert(out@ =~= prune_fetch_response_js(texts(args@))->0);
    }
    Some(string_of(&out))
}

/// The JavaScript of `prevent-xhr`, which blocks the requests of
/// `XMLHttpRequest` whose URL matches a pattern. Argument: the pattern, empty
/// where there is none.
pub open spec fn prevent_xhr_js(args: Seq<Seq<char>>) -> Option<Seq<char>> {
    Some(
        PREVENT_XHR_HEAD@ + arg_or(args, 0, ""@) + PREVENT_XHR_TAIL@,
    )
}

/// prevent-xhr: Block XMLHttpRequest calls matching a URL pattern.
/// Args: [url_pattern]
pub fn generate_prevent_xhr(args: &Vec<String>) -> (js: Option<String>)
    ensures
        option_text(js) == prevent_xhr_js(texts(args@)),
{
    let mut out: Vec<char> = Vec::new();
    push_str(&mut out, PREVENT_XHR_HEAD);
    push_arg(&mut out, args, 0, "");
    push_str(&mut out, PREVENT_XHR_TAIL);
    assert(prevent_xhr_js(texts(args@)) == Some(out@)) by {
        assert(out@ =~= prevent_xhr_js(texts(args@))->0);
    }
    Some(string_of(&out))
}

/// The JavaScript of the scriptlet `name` with the arguments `args`, if the
/// scriptlet is known and has the arguments it needs.
pub open spec fn scriptlet_js(name: Seq<char>, args: Seq<Seq<char>>) -> Option<Seq<char>> {
    if name == "set-constant"@ || name == "set"@ {
        set_constant_js(args)
    }     else if name == "json-prune"@ {
        json_prune_js(args)
    }     else if name == "prune-fetch-response"@ {
        prune_fetch_response_js(args)
    }     else if name == "prune-property-on-set"@ {
        prune_property_on_set_js(args)
    }     else if name == "abort-on-property-read"@ {
        abort_on_property_read_js(args)
    }     else if name == "abort-on-property-write"@ {
        abort_on_property_write_js(args)
    }     else if name == "addEventListener-defuser"@ {
        aeld_js(args)
    }     else if name == "no-setTimeout-if"@ {
        no_settimeout_if_js(args)
    }     else if name == "no-setInterval-if"@ {
        no_setinterval_if_js(args)
    }     else if name == "prevent-fetch"@ || name == "no-fetch-if"@ {
        prevent_fetch_js(args)
    }     else if name == "prevent-xhr"@ || name == "no-xhr-if"@ {
        prevent_xhr_js(args)
    } else {
        None
    }
}

/// The script that a rule injects: the JavaScript of its scriptlet, inside
/// a function that runs at once and fails silently.
pub open spec fn script_of(rule: RuleView) -> Option<Seq<char>> {
    match scriptlet_js(rule.scriptlet_name, rule.args) {
        Some(js) => Some(WRAP_HEAD@ + js + WRAP_TAIL@),
        None => None,
    }
}

/// Generate JavaScript code for a scriptlet rule. There is none for a
/// scriptlet that is not known, and none for a rule without the arguments
/// that its scriptlet needs.
pub fn generate_script(rule: &ScriptletRule) -> (script: Option<String>)
    ensures
        option_text(script) == script_of(rule@),
{
    let name = rule.scriptlet_name.as_str();
    let args = &rule.args;
    let js = if same_text(name, "set-constant") || same_text(name, "set") {
        generate_set_constant(args)
    } else if same_text(name, "json-prune") {
        generate_json_prune(args)
    } else if same_text(name, "prune-fetch-response") {
        generate_prune_fetch_response(args)
    } else if same_text(name, "prune-property-on-set") {
        generate_prune_property_on_set(args)
    } else if same_text(name, "abort-on-property-read") {
        generate_abort_on_property_read(args)
    } else if same_text(name, "abort-on-property-write") {
        generate_abort_on_property_write(args)
    } else if same_text(name, "addEventListener-defuser") {
        generate_aeld(args)
    } else if same_text(name, "no-setTimeout-if") {
        generate_no_settimeout_if(args)
    } else if same_text(name, "no-setInterval-if") {
        generate_no_setinterval_if(args)
    } else if same_text(name, "prevent-fetch") || same_text(name, "no-fetch-if") {
        generate_prevent_fetch(args)
    } else if same_text(name, "prevent-xhr") || same_text(name, "no-xhr-if") {
        generate_prevent_xhr(args)
    } else {
        None
    };
    match js {
        Some(body) => {
            let mut out: Vec<char> = Vec::new();
            push_str(&mut out, WRAP_HEAD);
            push_str(&mut out, body.as_str());
            push_str(&mut out, WRAP_TAIL);
            assert(out@ =~= WRAP_HEAD@ + body@ + WRAP_TAIL@);
            Some(string_of(&out))
        },
        None => None,
    }
}

} // verus!
