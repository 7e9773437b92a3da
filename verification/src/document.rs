//! Building the JavaScript that creates an element in a document's `<head>`,
//! and the provider interface that documents implement.
use vstd::prelude::*;
use std::sync::Arc;
use crate::text::{push_char, pop_char, ends_with_char};
use crate::eval::Eval;

verus! {

/// The escape sequence that stands for `c` inside a double-quoted JavaScript
/// string literal.
pub open spec fn js_escape_char(c: char) -> Seq<char> {
    if c == '\\' {
        seq!['\\', '\\']
    } else if c == '\n' {
        seq!['\\', 'n']
    } else if c == '\r' {
        seq!['\\', 'r']
    } else if c == '"' {
        seq!['\\', '"']
    } else {
        seq![c]
    }
}

/// `s` with every character replaced by its escape sequence.
pub open spec fn js_escape(s: Seq<char>) -> Seq<char>
    decreases s.len(),
{
    if s.len() == 0 {
        Seq::empty()
    } else {
        js_escape(s.drop_last()) + js_escape_char(s.last())
    }
}

/// The double-quoted JavaScript string literal that denotes `s`.
pub open spec fn js_string_literal(s: Seq<char>) -> Seq<char> {
    seq!['"'] + js_escape(s) + seq!['"']
}

/// Quotes `s` as a JavaScript string literal, escaping backslashes, line feeds,
/// carriage returns and double quotes.
pub fn format_string_for_js(s: &str) -> (out: String)
    ensures
        out@ == js_string_literal(s@),
{
    let mut out = String::new();
    push_char(&mut out, '"');
    for c in it: s.chars()
        invariant
            it.seq() == s@,
            out@ == seq!['"'] + js_escape(it.seq().take(it.index() as int)),
    {
        assert(it.seq().take(it.index() + 1).drop_last() == it.seq().take(it.index() as int));
        if c == '\\' {
            push_char(&mut out, '\\');
            push_char(&mut out, '\\');
        } else if c == '\n' {
            push_char(&mut out, '\\');
            push_char(&mut out, 'n');
        } else if c == '\r' {
            push_char(&mut out, '\\');
            push_char(&mut out, 'r');
        } else if c == '"' {
            push_char(&mut out, '\\');
            push_char(&mut out, '"');
        } else {
            push_char(&mut out, c);
        }
    }
    assert(s@.take(s@.len() as int) == s@);
    push_char(&mut out, '"');
    out
}

/// The character read back from the escape sequence `\c`, for the escape
/// sequences that [`format_string_for_js`] writes: `\n` is a line feed, `\r`
/// a carriage return, and `\c` for any other `c` is `c` itself (as for `\\`
/// and `\"`). JavaScript's other escapes (`\t`, `\u..`, ...) are never
/// written, and this reader does not decode them.
pub open spec fn js_unescape_char(c: char) -> char {
    if c == 'n' {
        '\n'
    } else if c == 'r' {
        '\r'
    } else {
        c
    }
}

/// The characters that the body `t` of a string literal written by
/// [`format_string_for_js`] denotes, reading escapes as [`js_unescape_char`]
/// does.
pub open spec fn js_unescape(t: Seq<char>) -> Seq<char>
    decreases t.len(),
{
    if t.len() == 0 {
        Seq::empty()
    } else if t[0] == '\\' && t.len() >= 2 {
        seq![js_unescape_char(t[1])] + js_unescape(t.skip(2))
    } else {
        seq![t[0]] + js_unescape(t.skip(1))
    }
}

/// Whether `t` can stand between the quotes of a JavaScript string literal:
/// it holds no bare double quote, line feed or carriage return, and every
/// backslash begins a two-character escape sequence.
pub open spec fn is_js_literal_body(t: Seq<char>) -> bool
    decreases t.len(),
{
    if t.len() == 0 {
        true
    } else if t[0] == '\\' {
        t.len() >= 2 && is_js_literal_body(t.skip(2))
    } else {
        t[0] != '"' && t[0] != '\n' && t[0] != '\r' && is_js_literal_body(t.skip(1))
    }
}

/// `s` with every occurrence of `from` replaced by `to`.
pub open spec fn replace_char(s: Seq<char>, from: char, to: Seq<char>) -> Seq<char>
    decreases s.len(),
{
    if s.len() == 0 {
        Seq::empty()
    } else {
        replace_char(s.drop_last(), from, to) + (if s.last() == from {
            to
        } else {
            seq![s.last()]
        })
    }
}

pub(crate) proof fn lemma_js_escape_concat(a: Seq<char>, b: Seq<char>)
    ensures
        js_escape(a + b) == js_escape(a) + js_escape(b),
    decreases b.len(),
{
    if b.len() == 0 {
        assert(a + b =~= a);
        assert(js_escape(a) + js_escape(b) =~= js_escape(a));
    } else {
        lemma_js_escape_concat(a, b.drop_last());
        assert((a + b).drop_last() =~= a + b.drop_last());
        assert(js_escape(a + b) =~= js_escape(a) + js_escape(b));
    }
}

proof fn lemma_replace_char_concat(a: Seq<char>, b: Seq<char>, from: char, to: Seq<char>)
    ensures
        replace_char(a + b, from, to) == replace_char(a, from, to) + replace_char(b, from, to),
    decreases b.len(),
{
    if b.len() == 0 {
        assert(a + b =~= a);
        assert(replace_char(a, from, to) + replace_char(b, from, to) =~= replace_char(a, from, to));
    } else {
        lemma_replace_char_concat(a, b.drop_last(), from, to);
        assert((a + b).drop_last() =~= a + b.drop_last());
        assert(replace_char(a + b, from, to) =~= replace_char(a, from, to) + replace_char(b, from, to));
    }
}

/// The four replacements that escape a string for a JavaScript literal, in
/// the order they are applied: backslashes first, then line feeds, carriage
/// returns and double quotes.
pub open spec fn js_replace_chain(s: Seq<char>) -> Seq<char> {
    replace_char(
        replace_char(
            replace_char(replace_char(s, '\\', seq!['\\', '\\']), '\n', seq!['\\', 'n']),
            '\r',
            seq!['\\', 'r'],
        ),
        '"',
        seq!['\\', '"'],
    )
}

proof fn lemma_replace_chain_concat(a: Seq<char>, b: Seq<char>)
    ensures
        js_replace_chain(a + b) == js_replace_chain(a) + js_replace_chain(b),
{
    let r1a = replace_char(a, '\\', seq!['\\', '\\']);
    let r1b = replace_char(b, '\\', seq!['\\', '\\']);
    lemma_replace_char_concat(a, b, '\\', seq!['\\', '\\']);
    let r2a = replace_char(r1a, '\n', seq!['\\', 'n']);
    let r2b = replace_char(r1b, '\n', seq!['\\', 'n']);
    lemma_replace_char_concat(r1a, r1b, '\n', seq!['\\', 'n']);
    let r3a = replace_char(r2a, '\r', seq!['\\', 'r']);
    let r3b = replace_char(r2b, '\r', seq!['\\', 'r']);
    lemma_replace_char_concat(r2a, r2b, '\r', seq!['\\', 'r']);
    lemma_replace_char_concat(r3a, r3b, '"', seq!['\\', '"']);
}

proof fn lemma_replace_chain_single(c: char)
    ensures
        js_replace_chain(seq![c]) == js_escape_char(c),
{
    reveal_with_fuel(replace_char, 3);
    let s = seq![c];
    assert(s.drop_last() =~= Seq::<char>::empty());
    let r1 = replace_char(s, '\\', seq!['\\', '\\']);
    if c == '\\' {
        assert(r1 =~= seq!['\\', '\\']);
        assert(seq!['\\', '\\'].drop_last() =~= seq!['\\']);
        assert(seq!['\\'].drop_last() =~= Seq::<char>::empty());
        let r2 = replace_char(r1, '\n', seq!['\\', 'n']);
        assert(r2 =~= seq!['\\', '\\']);
        let r3 = replace_char(r2, '\r', seq!['\\', 'r']);
        assert(r3 =~= seq!['\\', '\\']);
        assert(replace_char(r3, '"', seq!['\\', '"']) =~= seq!['\\', '\\']);
    } else if c == '\n' {
        assert(r1 =~= seq!['\n']);
        let r2 = replace_char(r1, '\n', seq!['\\', 'n']);
        assert(r2 =~= seq!['\\', 'n']);
        assert(seq!['\\', 'n'].drop_last() =~= seq!['\\']);
        assert(seq!['\\'].drop_last() =~= Seq::<char>::empty());
        let r3 = replace_char(r2, '\r', seq!['\\', 'r']);
        assert(r3 =~= seq!['\\', 'n']);
        assert(replace_char(r3, '"', seq!['\\', '"']) =~= seq!['\\', 'n']);
    } else if c == '\r' {
        assert(r1 =~= seq!['\r']);
        let r2 = replace_char(r1, '\n', seq!['\\', 'n']);
        assert(r2 =~= seq!['\r']);
        let r3 = replace_char(r2, '\r', seq!['\\', 'r']);
        assert(r3 =~= seq!['\\', 'r']);
        assert(seq!['\\', 'r'].drop_last() =~= seq!['\\']);
        assert(seq!['\\'].drop_last() =~= Seq::<char>::empty());
        assert(replace_char(r3, '"', seq!['\\', '"']) =~= seq!['\\', 'r']);
    } else if c == '"' {
        assert(r1 =~= seq!['"']);
        let r2 = replace_char(r1, '\n', seq!['\\', 'n']);
        assert(r2 =~= seq!['"']);
        let r3 = replace_char(r2, '\r', seq!['\\', 'r']);
        assert(r3 =~= seq!['"']);
        assert(replace_char(r3, '"', seq!['\\', '"']) =~= seq!['\\', '"']);
    } else {
        assert(r1 =~= seq![c]);
        let r2 = replace_char(r1, '\n', seq!['\\', 'n']);
        assert(r2 =~= seq![c]);
        let r3 = replace_char(r2, '\r', seq!['\\', 'r']);
        assert(r3 =~= seq![c]);
        assert(replace_char(r3, '"', seq!['\\', '"']) =~= seq![c]);
    }
}

/// Escaping character by character gives the same text as replacing, in turn,
/// every backslash, line feed, carriage return and double quote by its escape
/// sequence.
pub proof fn law_js_escape_is_replace_chain(s: Seq<char>)
    ensures
        js_escape(s) == js_replace_chain(s),
    decreases s.len(),
{
    if s.len() == 0 {
        assert(js_replace_chain(s) =~= Seq::<char>::empty());
    } else {
        law_js_escape_is_replace_chain(s.drop_last());
        assert(s =~= s.drop_last() + seq![s.last()]);
        lemma_replace_chain_concat(s.drop_last(), seq![s.last()]);
        lemma_replace_chain_single(s.last());
    }
}

/// The quoted form of any string is a well-formed JavaScript string literal,
/// and reading it back gives the string itself.
pub proof fn law_js_literal_round_trip(s: Seq<char>)
    ensures
        is_js_literal_body(js_escape(s)),
        js_unescape(js_escape(s)) == s,
        js_string_literal(s) == seq!['"'] + js_escape(s) + seq!['"'],
    decreases s.len(),
{
    if s.len() > 0 {
        let c = s[0];
        let rest = s.skip(1);
        assert(s =~= seq![c] + rest);
        lemma_js_escape_concat(seq![c], rest);
        assert(seq![c].drop_last() =~= Seq::<char>::empty());
        assert(seq![c].last() == c);
        assert(js_escape(Seq::<char>::empty()) =~= Seq::<char>::empty());
        assert(js_escape(seq![c]) =~= js_escape_char(c));
        law_js_literal_round_trip(rest);
        let e = js_escape(rest);
        let t = js_escape_char(c) + e;
        assert(js_escape(s) == t);
        if c == '\\' || c == '\n' || c == '\r' || c == '"' {
            assert(t.skip(2) =~= e);
            assert(js_unescape_char(t[1]) == c);
            assert(js_unescape(t) =~= seq![c] + js_unescape(e));
        } else {
            assert(t.skip(1) =~= e);
            assert(js_unescape(t) =~= seq![c] + js_unescape(e));
        }
    }
}

/// The array entry `[key, value]` for one attribute.
pub open spec fn attribute_entry(key: Seq<char>, value: Seq<char>) -> Seq<char> {
    seq!['['] + js_string_literal(key) + seq![',', ' '] + js_string_literal(value) + seq![']']
}

/// The array entries for a list of attributes, in order.
pub open spec fn attribute_entries(attributes: Seq<(&str, String)>) -> Seq<Seq<char>> {
    attributes.map_values(|a: (&str, String)| attribute_entry(a.0@, a.1@))
}

/// The items joined by `sep`.
pub open spec fn join_with(items: Seq<Seq<char>>, sep: char) -> Seq<char>
    decreases items.len(),
{
    if items.len() == 0 {
        Seq::empty()
    } else if items.len() == 1 {
        items[0]
    } else {
        join_with(items.drop_last(), sep).push(sep) + items.last()
    }
}

/// Each item followed by `sep`, concatenated.
pub open spec fn terminated_with(items: Seq<Seq<char>>, sep: char) -> Seq<char>
    decreases items.len(),
{
    if items.len() == 0 {
        Seq::empty()
    } else {
        terminated_with(items.drop_last(), sep) + items.last().push(sep)
    }
}

/// The JavaScript array `[[key, value], ...]` of the attributes.
pub open spec fn js_attribute_array(attributes: Seq<(&str, String)>) -> Seq<char> {
    seq!['['] + join_with(attribute_entries(attributes), ',') + seq![']']
}

proof fn lemma_terminated_is_joined(items: Seq<Seq<char>>, sep: char)
    requires
        items.len() > 0,
    ensures
        terminated_with(items, sep) == join_with(items, sep).push(sep),
    decreases items.len(),
{
    if items.len() == 1 {
        assert(items.drop_last().len() == 0);
        assert(terminated_with(items.drop_last(), sep) =~= Seq::<char>::empty());
        assert(items.last() == items[0]);
        assert(terminated_with(items, sep) =~= items[0].push(sep));
    } else {
        lemma_terminated_is_joined(items.drop_last(), sep);
        assert(terminated_with(items, sep) =~= join_with(items, sep).push(sep));
    }
}

/// Renders attributes as a JavaScript array of `[key, value]` pairs of string
/// literals.
pub fn format_attributes(attributes: &[(&str, String)]) -> (formatted: String)
    ensures
        formatted@ == js_attribute_array(attributes@),
{
    let ghost entries = attribute_entries(attributes@);
    let mut formatted = String::new();
    push_char(&mut formatted, '[');
    let n = attributes.len();
    for i in 0..n
        invariant
            n == attributes@.len(),
            entries == attribute_entries(attributes@),
            formatted@ == seq!['['] + terminated_with(entries.take(i as int), ','),
    {
        let key: &str = attributes[i].0;
        let value: &str = attributes[i].1.as_str();
        push_char(&mut formatted, '[');
        let k = format_string_for_js(key);
        formatted.append(k.as_str());
        push_char(&mut formatted, ',');
        push_char(&mut formatted, ' ');
        let v = format_string_for_js(value);
        formatted.append(v.as_str());
        push_char(&mut formatted, ']');
        push_char(&mut formatted, ',');
        assert(entries.take(i + 1).drop_last() == entries.take(i as int));
        assert(entries[i as int] == attribute_entry(attributes@[i as int].0@, attributes@[i as int].1@));
        assert(formatted@ =~= seq!['['] + terminated_with(entries.take(i + 1), ','));
    }
    assert(entries.take(n as int) == entries);
    if ends_with_char(formatted.as_str(), ',') {
        proof {
            if n == 0 {
                assert(formatted@ =~= seq!['[']);
            }
            lemma_terminated_is_joined(entries, ',');
        }
        pop_char(&mut formatted);
        assert(formatted@ =~= seq!['['] + join_with(entries, ','));
    } else {
        proof {
            if n > 0 {
                lemma_terminated_is_joined(entries, ',');
                assert(formatted@.last() == ',');
            }
        }
        assert(formatted@ =~= seq!['['] + join_with(entries, ','));
    }
    push_char(&mut formatted, ']');
    formatted
}

/// The helper script that defines `window.createElementInHead(tag, attributes,
/// children)`, run before every element creation.
pub const HEAD_JS: &'static str = "var createElementInHead=function(tag,attributes,children){const element=document.createElement(tag);for(let[key,value]of attributes)element.setAttribute(key,value);if(children)element.appendChild(document.createTextNode(children));document.head.appendChild(element)};window.createElementInHead=createElementInHead;";

/// The JavaScript value passed as an element's children: a string literal, or
/// `null` where there are none.
pub open spec fn js_children(children: Option<String>) -> Seq<char> {
    match children {
        Some(c) => js_string_literal(c@),
        None => "null"@,
    }
}

/// The script that creates the element `tag` with the given attributes and
/// children in the document's head.
pub open spec fn head_element_script(
    tag: Seq<char>,
    attributes: Seq<(&str, String)>,
    children: Option<String>,
) -> Seq<char> {
    HEAD_JS@ + ";window.createElementInHead("@ + js_string_literal(tag) + ", "@
        + js_attribute_array(attributes) + ", "@ + js_children(children) + ");"@
}

/// Create a new element in the head with javascript through the
/// [`Document::eval`] method.
///
/// This can be used to implement the head element creation logic for most
/// [`Document`] implementations.
pub fn create_element_in_head(
    tag: &str,
    attributes: &[(&str, String)],
    children: Option<String>,
) -> (script: String)
    ensures
        script@ == head_element_script(tag@, attributes@, children),
{
    let attributes_js = format_attributes(attributes);
    let children_js = match &children {
        Some(c) => format_string_for_js(c.as_str()),
        None => String::from_str("null"),
    };
    let tag_js = format_string_for_js(tag);
    let mut script = String::from_str(HEAD_JS);
    script.append(";window.createElementInHead(");
    script.append(tag_js.as_str());
    script.append(", ");
    script.append(attributes_js.as_str());
    script.append(", ");
    script.append(children_js.as_str());
    script.append(");");
    script
}

/// The attributes of a `<meta>` element to create in the head.
pub struct MetaProps {
    pub attributes: Vec<(&'static str, String)>,
}

/// The attributes and inline source of a `<script>` element to create in the
/// head.
pub struct ScriptProps {
    pub attributes: Vec<(&'static str, String)>,
    pub contents: Option<String>,
}

/// The attributes and inline rules of a `<style>` element to create in the
/// head.
pub struct StyleProps {
    pub attributes: Vec<(&'static str, String)>,
    pub contents: Option<String>,
}

/// The attributes of a `<link>` element to create in the head.
pub struct LinkProps {
    pub attributes: Vec<(&'static str, String)>,
}

/// A provider for document-related functionality.
///
/// Provides things like a title, a way to run JS, and head elements, used by
/// nearly every platform.
pub trait Document: 'static {
    /// Run `eval` against this document, returning an [`Eval`] that can be used
    /// to await the result.
    fn eval(&self, js: String) -> Eval;

    /// Set the title of the document.
    fn set_title(&self, title: String);

    /// Create a new meta tag in the head.
    fn create_meta(&self, props: MetaProps);

    /// Create a new script tag in the head.
    fn create_script(&self, props: ScriptProps, fresh_url: bool);

    /// Create a new style tag in the head.
    fn create_style(&self, props: StyleProps, fresh_url: bool);

    /// Create a new link tag in the head.
    fn create_link(&self, props: LinkProps, fresh_url: bool);
}

/// A context for the document.
pub type DocumentContext = Arc<dyn Document>;

/// A document that does nothing: it keeps no state, and its evaluations are
/// all answered with [`EvalError::Unsupported`](crate::eval::EvalError).
#[derive(Default)]
pub struct NoOpDocument;

impl Document for NoOpDocument {
    fn eval(&self, _js: String) -> (eval: Eval)
        ensures
            eval.is_unsupported(),
    {
        Eval::unsupported()
    }

    fn set_title(&self, _title: String) {
    }

    fn create_meta(&self, _props: MetaProps) {
    }

    fn create_script(&self, _props: ScriptProps, _fresh_url: bool) {
    }

    fn create_style(&self, _props: StyleProps, _fresh_url: bool) {
    }

    fn create_link(&self, _props: LinkProps, _fresh_url: bool) {
    }
}

} // verus!
