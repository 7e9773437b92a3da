//! Reading back the JavaScript that the document module writes: a reader for
//! string literals, for arrays of `[key, value]` pairs, and for the argument
//! list of the head-element call, with the laws that each reads back exactly
//! what was written, however the values are made.
use vstd::prelude::*;
use crate::document::{
    attribute_entries, attribute_entry, head_element_script, join_with, js_attribute_array, js_children,
    js_escape, js_escape_char, js_string_literal, js_unescape_char, lemma_js_escape_concat, HEAD_JS,
};
use crate::fullstack::opt_string_view;

verus! {

/// Reads the rest of a string literal after its opening quote: the characters
/// it denotes, and how many characters it takes up to and including the
/// closing quote. `None` where the literal does not end on this line. Escapes
/// are read as [`js_unescape_char`] reads them: those that the writer emits.
pub open spec fn read_literal_rest(t: Seq<char>) -> Option<(Seq<char>, int)>
    decreases t.len(),
{
    if t.len() == 0 {
        None
    } else if t[0] == '"' {
        Some((Seq::empty(), 1))
    } else if t[0] == '\n' || t[0] == '\r' {
        None
    } else if t[0] == '\\' {
        if t.len() < 2 {
            None
        } else {
            match read_literal_rest(t.skip(2)) {
                Some((d, n)) => Some((seq![js_unescape_char(t[1])] + d, n + 2)),
                None => None,
            }
        }
    } else {
        match read_literal_rest(t.skip(1)) {
            Some((d, n)) => Some((seq![t[0]] + d, n + 1)),
            None => None,
        }
    }
}

/// Reads a double-quoted string literal at the start of `t`: the characters
/// it denotes and its length.
pub open spec fn read_literal(t: Seq<char>) -> Option<(Seq<char>, int)> {
    if t.len() > 0 && t[0] == '"' {
        match read_literal_rest(t.skip(1)) {
            Some((d, n)) => Some((d, n + 1)),
            None => None,
        }
    } else {
        None
    }
}

proof fn lemma_read_literal_rest(s: Seq<char>, rest: Seq<char>)
    ensures
        read_literal_rest(js_escape(s) + seq!['"'] + rest) == Some((s, (js_escape(s).len() + 1) as int)),
    decreases s.len(),
{
    let t = js_escape(s) + seq!['"'] + rest;
    if s.len() == 0 {
        assert(js_escape(s) =~= Seq::<char>::empty());
        assert(t[0] == '"');
        assert(s =~= Seq::<char>::empty());
    } else {
        let c = s[0];
        let r = s.skip(1);
        assert(s =~= seq![c] + r);
        lemma_js_escape_concat(seq![c], r);
        assert(seq![c].drop_last() =~= Seq::<char>::empty());
        assert(seq![c].last() == c);
        assert(js_escape(Seq::<char>::empty()) =~= Seq::<char>::empty());
        assert(js_escape(seq![c]) =~= js_escape_char(c));
        let e = js_escape(r);
        let ec = js_escape_char(c);
        assert(js_escape(s) == ec + e);
        lemma_read_literal_rest(r, rest);
        assert(t =~= ec + (e + seq!['"'] + rest));
        if c == '\\' || c == '\n' || c == '\r' || c == '"' {
            assert(ec.len() == 2 && ec[0] == '\\');
            assert(t.skip(2) =~= e + seq!['"'] + rest);
            assert(js_unescape_char(t[1]) == c);
            assert(seq![js_unescape_char(t[1])] + r =~= s);
        } else {
            assert(ec =~= seq![c]);
            assert(t[0] == c);
            assert(t.skip(1) =~= e + seq!['"'] + rest);
            assert(seq![t[0]] + r =~= s);
        }
    }
}

/// A string literal, whatever it holds, reads back as that string, and the
/// reader stops exactly at its closing quote.
pub proof fn law_read_literal(s: Seq<char>, rest: Seq<char>)
    ensures
        read_literal(js_string_literal(s) + rest) == Some((s, js_string_literal(s).len() as int)),
{
    let t = js_string_literal(s) + rest;
    assert(t.skip(1) =~= js_escape(s) + seq!['"'] + rest);
    lemma_read_literal_rest(s, rest);
}

/// Reads an array entry `["key", "value"]` at the start of `t`: the key and the
/// value it denotes, and its length.
pub open spec fn read_pair(t: Seq<char>) -> Option<((Seq<char>, Seq<char>), int)> {
    if t.len() > 0 && t[0] == '[' {
        match read_literal(t.skip(1)) {
            Some((k, n)) => if 0 < n && 3 + n <= t.len() && t[1 + n] == ',' && t[2 + n] == ' ' {
                match read_literal(t.skip(3 + n)) {
                    Some((v, m)) => if 0 < m && 3 + n + m < t.len() && t[3 + n + m] == ']' {
                        Some(((k, v), 4 + n + m))
                    } else {
                        None
                    },
                    None => None,
                }
            } else {
                None
            },
            None => None,
        }
    } else {
        None
    }
}

/// Reads the entries after the first one of an array, each preceded by a
/// comma, up to and including the closing bracket.
pub open spec fn read_pairs_tail(t: Seq<char>) -> Option<(Seq<(Seq<char>, Seq<char>)>, int)>
    decreases t.len(),
{
    if t.len() == 0 {
        None
    } else if t[0] == ']' {
        Some((Seq::empty(), 1))
    } else if t[0] == ',' {
        match read_pair(t.skip(1)) {
            Some((p, n)) => if 0 < n && 1 + n <= t.len() {
                match read_pairs_tail(t.skip(1 + n)) {
                    Some((ps, m)) => Some((seq![p] + ps, 1 + n + m)),
                    None => None,
                }
            } else {
                None
            },
            None => None,
        }
    } else {
        None
    }
}

/// Reads an array of `[key, value]` entries at the start of `t`: the pairs it
/// denotes, in order, and its length.
pub open spec fn read_pair_array(t: Seq<char>) -> Option<(Seq<(Seq<char>, Seq<char>)>, int)> {
    if t.len() > 0 && t[0] == '[' {
        if t.len() > 1 && t[1] == ']' {
            Some((Seq::empty(), 2))
        } else {
            match read_pair(t.skip(1)) {
                Some((p, n)) => if 0 < n && 1 + n <= t.len() {
                    match read_pairs_tail(t.skip(1 + n)) {
                        Some((ps, m)) => Some((seq![p] + ps, 1 + n + m)),
                        None => None,
                    }
                } else {
                    None
                },
                None => None,
            }
        }
    } else {
        None
    }
}

/// The attributes as pairs of texts.
pub open spec fn attribute_pairs(attributes: Seq<(&str, String)>) -> Seq<(Seq<char>, Seq<char>)> {
    attributes.map_values(|a: (&str, String)| (a.0@, a.1@))
}

/// Each item preceded by `sep`, concatenated.
pub open spec fn prefixed_with(items: Seq<Seq<char>>, sep: char) -> Seq<char>
    decreases items.len(),
{
    if items.len() == 0 {
        Seq::empty()
    } else {
        seq![sep] + items[0] + prefixed_with(items.skip(1), sep)
    }
}

proof fn lemma_prefixed_push(items: Seq<Seq<char>>, item: Seq<char>, sep: char)
    ensures
        prefixed_with(items.push(item), sep) == prefixed_with(items, sep) + seq![sep] + item,
    decreases items.len(),
{
    if items.len() == 0 {
        assert(items.push(item).skip(1) =~= Seq::<Seq<char>>::empty());
        assert(items.push(item)[0] == item);
        assert(prefixed_with(Seq::<Seq<char>>::empty(), sep) =~= Seq::<char>::empty());
        assert(prefixed_with(items.push(item), sep) =~= seq![sep] + item);
        assert(prefixed_with(items, sep) =~= Seq::<char>::empty());
        assert(prefixed_with(items, sep) + seq![sep] + item =~= seq![sep] + item);
    } else {
        assert(items.push(item).skip(1) =~= items.skip(1).push(item));
        lemma_prefixed_push(items.skip(1), item, sep);
        assert(items.push(item)[0] == items[0]);
        assert(prefixed_with(items.push(item), sep) =~= prefixed_with(items, sep) + seq![sep] + item);
    }
}

proof fn lemma_join_front(items: Seq<Seq<char>>, sep: char)
    requires
        items.len() > 0,
    ensures
        join_with(items, sep) == items[0] + prefixed_with(items.skip(1), sep),
    decreases items.len(),
{
    if items.len() == 1 {
        assert(items.skip(1) =~= Seq::<Seq<char>>::empty());
        assert(prefixed_with(items.skip(1), sep) =~= Seq::<char>::empty());
        assert(items[0] + prefixed_with(items.skip(1), sep) =~= items[0]);
    } else {
        let dl = items.drop_last();
        lemma_join_front(dl, sep);
        assert(items.skip(1) =~= dl.skip(1).push(items.last()));
        lemma_prefixed_push(dl.skip(1), items.last(), sep);
        assert(dl[0] == items[0]);
        assert(join_with(items, sep) =~= items[0] + prefixed_with(items.skip(1), sep));
    }
}

proof fn lemma_read_pair(k: Seq<char>, v: Seq<char>, rest: Seq<char>)
    ensures
        read_pair(attribute_entry(k, v) + rest) == Some(((k, v), attribute_entry(k, v).len() as int)),
{
    let lk = js_string_literal(k);
    let lv = js_string_literal(v);
    let t = attribute_entry(k, v) + rest;
    assert(t =~= seq!['['] + lk + seq![',', ' '] + lv + seq![']'] + rest);
    let n = lk.len() as int;
    let m = lv.len() as int;
    assert(t.skip(1) =~= lk + (seq![',', ' '] + lv + seq![']'] + rest));
    law_read_literal(k, seq![',', ' '] + lv + seq![']'] + rest);
    assert(n >= 2);
    assert(t[1 + n] == ',');
    assert(t[2 + n] == ' ');
    assert(t.skip(3 + n) =~= lv + (seq![']'] + rest));
    law_read_literal(v, seq![']'] + rest);
    assert(m >= 2);
    assert(t[3 + n + m] == ']');
}

proof fn lemma_attribute_entries_skip(attributes: Seq<(&str, String)>)
    requires
        attributes.len() > 0,
    ensures
        attribute_entries(attributes).skip(1) == attribute_entries(attributes.skip(1)),
        attribute_pairs(attributes) == seq![(attributes[0].0@, attributes[0].1@)] + attribute_pairs(attributes.skip(1)),
        attribute_entries(attributes)[0] == attribute_entry(attributes[0].0@, attributes[0].1@),
{
    assert(attribute_entries(attributes).skip(1) =~= attribute_entries(attributes.skip(1)));
    assert(attribute_pairs(attributes) =~= seq![(attributes[0].0@, attributes[0].1@)] + attribute_pairs(attributes.skip(1)));
}

proof fn lemma_read_pairs_tail(attributes: Seq<(&str, String)>, rest: Seq<char>)
    ensures
        read_pairs_tail(prefixed_with(attribute_entries(attributes), ',') + seq![']'] + rest) == Some((
            attribute_pairs(attributes),
            (prefixed_with(attribute_entries(attributes), ',').len() + 1) as int,
        )),
    decreases attributes.len(),
{
    let es = attribute_entries(attributes);
    let t = prefixed_with(es, ',') + seq![']'] + rest;
    if attributes.len() == 0 {
        assert(es.len() == 0);
        assert(prefixed_with(es, ',') =~= Seq::<char>::empty());
        assert(t[0] == ']');
        assert(attribute_pairs(attributes) =~= Seq::<(Seq<char>, Seq<char>)>::empty());
    } else {
        lemma_attribute_entries_skip(attributes);
        let k = attributes[0].0@;
        let v = attributes[0].1@;
        let e0 = attribute_entry(k, v);
        let tail = prefixed_with(es.skip(1), ',');
        assert(prefixed_with(es, ',') == seq![','] + e0 + tail);
        assert(t[0] == ',');
        assert(t.skip(1) =~= e0 + (tail + seq![']'] + rest));
        lemma_read_pair(k, v, tail + seq![']'] + rest);
        let n = e0.len() as int;
        assert(t.skip(1 + n) =~= tail + seq![']'] + rest);
        lemma_read_pairs_tail(attributes.skip(1), rest);
    }
}

/// The attribute array, whatever the keys and values hold, reads back as the
/// attributes' pairs, in order and with every character, and the reader stops
/// exactly at its closing bracket.
#[verifier::spinoff_prover]
#[verifier::rlimit(50)]
pub proof fn law_read_attribute_array(attributes: Seq<(&str, String)>, rest: Seq<char>)
    ensures
        read_pair_array(js_attribute_array(attributes) + rest) == Some((
            attribute_pairs(attributes),
            js_attribute_array(attributes).len() as int,
        )),
{
    let es = attribute_entries(attributes);
    let t = js_attribute_array(attributes) + rest;
    if attributes.len() == 0 {
        assert(es.len() == 0);
        assert(join_with(es, ',') =~= Seq::<char>::empty());
        assert(t[0] == '[');
        assert(t[1] == ']');
        assert(attribute_pairs(attributes) =~= Seq::<(Seq<char>, Seq<char>)>::empty());
    } else {
        lemma_join_front(es, ',');
        lemma_attribute_entries_skip(attributes);
        let k = attributes[0].0@;
        let v = attributes[0].1@;
        let e0 = attribute_entry(k, v);
        let tail = prefixed_with(es.skip(1), ',');
        assert(t =~= seq!['['] + e0 + (tail + seq![']'] + rest));
        assert(t[1] == '[');
        assert(t.skip(1) =~= e0 + (tail + seq![']'] + rest));
        lemma_read_pair(k, v, tail + seq![']'] + rest);
        let n = e0.len() as int;
        assert(t.skip(1 + n) =~= tail + seq![']'] + rest);
        lemma_read_pairs_tail(attributes.skip(1), rest);
    }
}

/// The argument list of the head-element call after its opening parenthesis:
/// the tag, the attribute array and the children, separated by `, `, and the
/// closing `);`.
pub open spec fn head_call_args(tag: Seq<char>, attributes: Seq<(&str, String)>, children: Option<String>) -> Seq<char> {
    js_string_literal(tag) + ", "@ + js_attribute_array(attributes) + ", "@ + js_children(children) + ");"@
}

/// Reads the children argument at the start of `t`: a string literal, or
/// `null` for none; and its length.
pub open spec fn read_children(t: Seq<char>) -> Option<(Option<Seq<char>>, int)> {
    if t.len() > 0 && t[0] == '"' {
        match read_literal(t) {
            Some((c, k)) => Some((Some(c), k)),
            None => None,
        }
    } else if t.len() >= 4 && t.take(4) == "null"@ {
        Some((None, 4))
    } else {
        None
    }
}

/// Reads a whole argument list of the head-element call: the tag, the
/// attribute pairs and the children it passes. `None` unless the text is
/// exactly three such arguments and the closing `);`, with nothing after.
pub open spec fn read_head_call_args(t: Seq<char>) -> Option<(Seq<char>, Seq<(Seq<char>, Seq<char>)>, Option<Seq<char>>)> {
    match read_literal(t) {
        Some((tag, n)) => if 0 < n && n + 2 <= t.len() && t.skip(n).take(2) == ", "@ {
            let t2 = t.skip(n + 2);
            match read_pair_array(t2) {
                Some((pairs, m)) => if 0 < m && m + 2 <= t2.len() && t2.skip(m).take(2) == ", "@ {
                    let t3 = t2.skip(m + 2);
                    match read_children(t3) {
                        Some((children, k)) => if 0 < k <= t3.len() && t3.skip(k) == ");"@ {
                            Some((tag, pairs, children))
                        } else {
                            None
                        },
                        None => None,
                    }
                } else {
                    None
                },
                None => None,
            }
        } else {
            None
        },
        None => None,
    }
}

/// The head-element script is the helper script and a single call of
/// `window.createElementInHead` whose arguments read back as the tag, the
/// attribute pairs in order and the children (`null` exactly when there are
/// none): whatever the tag, keys, values and children hold, none of them can
/// end its string literal early or add code after the call.
#[verifier::spinoff_prover]
#[verifier::rlimit(50)]
pub proof fn law_head_script_is_one_call(tag: Seq<char>, attributes: Seq<(&str, String)>, children: Option<String>)
    ensures
        head_element_script(tag, attributes, children) == HEAD_JS@ + ";window.createElementInHead("@
            + head_call_args(tag, attributes, children),
        read_head_call_args(head_call_args(tag, attributes, children)) == Some((
            tag,
            attribute_pairs(attributes),
            opt_string_view(children),
        )),
{
    reveal_strlit(", ");
    reveal_strlit("null");
    reveal_strlit(");");
    assert(", "@ =~= seq![',', ' ']);
    assert("null"@ =~= seq!['n', 'u', 'l', 'l']);
    assert(");"@ =~= seq![')', ';']);
    assert(head_element_script(tag, attributes, children) =~= HEAD_JS@ + ";window.createElementInHead("@
        + head_call_args(tag, attributes, children));
    let lt = js_string_literal(tag);
    let arr = js_attribute_array(attributes);
    let ch = js_children(children);
    let t = head_call_args(tag, attributes, children);
    assert(t =~= lt + (", "@ + arr + ", "@ + ch + ");"@));
    law_read_literal(tag, ", "@ + arr + ", "@ + ch + ");"@);
    let n = lt.len() as int;
    assert(t.skip(n) =~= ", "@ + arr + ", "@ + ch + ");"@);
    assert(t.skip(n).take(2) =~= ", "@);
    let t2 = t.skip(n + 2);
    assert(t2 =~= arr + (", "@ + ch + ");"@));
    law_read_attribute_array(attributes, ", "@ + ch + ");"@);
    let m = arr.len() as int;
    assert(t2.skip(m).take(2) =~= ", "@);
    let t3 = t2.skip(m + 2);
    assert(t3 =~= ch + ");"@);
    match children {
        Some(c) => {
            law_read_literal(c@, ");"@);
            assert(t3[0] == '"');
            assert(t3.skip(ch.len() as int) =~= ");"@);
        },
        None => {
            assert(t3[0] == 'n');
            assert(t3.take(4) =~= "null"@);
            assert(t3.skip(4) =~= ");"@);
        },
    }
}

} // verus!
