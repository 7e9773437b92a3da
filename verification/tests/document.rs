use dioxus_support::document::{
    create_element_in_head, format_attributes, format_string_for_js, Document, DocumentContext,
    MetaProps, NoOpDocument, HEAD_JS,
};
use dioxus_support::eval::{Eval, EvalError, EvalPoll, Evaluator, NoOpEvaluator};
use std::sync::Arc;

/// Reads back the characters that a double-quoted JavaScript literal denotes.
fn read_js_literal(lit: &str) -> String {
    assert!(lit.starts_with('"') && lit.ends_with('"') && lit.len() >= 2);
    let body: Vec<char> = lit[1..lit.len() - 1].chars().collect();
    let mut out = String::new();
    let mut i = 0;
    while i < body.len() {
        let c = body[i];
        assert!(c != '"' && c != '\n' && c != '\r', "bare {c:?} inside literal");
        if c == '\\' {
            let e = body[i + 1];
            out.push(match e {
                'n' => '\n',
                'r' => '\r',
                other => other,
            });
            i += 2;
        } else {
            out.push(c);
            i += 1;
        }
    }
    out
}

#[test]
fn quotes_plain_text() {
    assert_eq!(format_string_for_js("hello"), "\"hello\"");
    assert_eq!(format_string_for_js(""), "\"\"");
}

#[test]
fn escapes_special_characters() {
    assert_eq!(
        format_string_for_js("a\\b\n\"c\"\rd"),
        "\"a\\\\b\\n\\\"c\\\"\\rd\""
    );
}

#[test]
fn escaping_matches_replace_chain() {
    for s in ["", "plain", "\\\\n", "line\nbreak\r\n", "say \"hi\"", "tab\tand ünïcødé", "\\\"\n\r"] {
        let chained = s
            .replace('\\', "\\\\")
            .replace('\n', "\\n")
            .replace('\r', "\\r")
            .replace('"', "\\\"");
        assert_eq!(format_string_for_js(s), format!("\"{chained}\""));
    }
}

#[test]
fn literal_reads_back_as_input() {
    for s in ["", "x", "a\\nb", "\"\"", "multi\nline\r\ntext", "\\", "end\\"] {
        assert_eq!(read_js_literal(&format_string_for_js(s)), s);
    }
}

#[test]
fn attributes_empty() {
    assert_eq!(format_attributes(&[]), "[]");
}

#[test]
fn attributes_pairs() {
    let attrs = [("name", "viewport".to_string()), ("content", "a\"b".to_string())];
    assert_eq!(
        format_attributes(&attrs),
        "[[\"name\", \"viewport\"],[\"content\", \"a\\\"b\"]]"
    );
}

#[test]
fn attributes_single_pair() {
    let attrs = [("rel", "stylesheet".to_string())];
    assert_eq!(format_attributes(&attrs), "[[\"rel\", \"stylesheet\"]]");
}

#[test]
fn element_without_children() {
    let attrs = [("name", "viewport".to_string())];
    let script = create_element_in_head("meta", &attrs, None);
    assert_eq!(
        script,
        format!("{HEAD_JS};window.createElementInHead(\"meta\", [[\"name\", \"viewport\"]], null);")
    );
}

#[test]
fn element_with_children() {
    let script = create_element_in_head("style", &[], Some("body { content: \"x\" }".to_string()));
    assert_eq!(
        script,
        format!("{HEAD_JS};window.createElementInHead(\"style\", [], \"body {{ content: \\\"x\\\" }}\");")
    );
}

#[test]
fn head_helper_defines_function() {
    assert!(HEAD_JS.contains("window.createElementInHead="));
}

#[test]
fn noop_evaluator_is_unsupported() {
    let mut e = NoOpEvaluator;
    assert_eq!(e.send(serde_json::Value::Null), Err(EvalError::Unsupported));
    assert!(matches!(e.poll_join(), EvalPoll::Ready(Err(EvalError::Unsupported))));
    assert!(matches!(e.poll_recv(), EvalPoll::Ready(Err(EvalError::Unsupported))));
}

#[test]
fn noop_document_does_nothing() {
    let doc: DocumentContext = Arc::new(NoOpDocument);
    let _eval = doc.eval("console.log(1)".to_string());
    let _other = Eval::new(Box::new(NoOpEvaluator));
    doc.set_title("title".to_string());
    doc.create_meta(MetaProps { attributes: vec![("charset", "utf-8".to_string())] });
}

#[test]
fn attribute_array_reads_back_as_pairs() {
    let attrs = [
        ("name", "a \"quoted\" value".to_string()),
        ("content", "back\\slash\nnew line\r".to_string()),
        ("name", "],[\"x\", \"y\"".to_string()),
    ];
    let parsed: Vec<Vec<String>> = serde_json::from_str(&format_attributes(&attrs)).unwrap();
    let expected: Vec<Vec<String>> = attrs.iter().map(|(k, v)| vec![k.to_string(), v.clone()]).collect();
    assert_eq!(parsed, expected);
}

#[test]
fn head_script_arguments_cannot_escape() {
    let children = "\");alert(1);//".to_string();
    let script = create_element_in_head("script\");", &[("src", "x\");".to_string())], Some(children.clone()));
    let args = script.strip_prefix(&format!("{HEAD_JS};window.createElementInHead(")).unwrap();
    let args = args.strip_suffix(");").unwrap();
    let parsed: Vec<serde_json::Value> = serde_json::from_str(&format!("[{args}]")).unwrap();
    assert_eq!(parsed[0], serde_json::Value::String("script\");".to_string()));
    let pairs: Vec<Vec<String>> = serde_json::from_value(parsed[1].clone()).unwrap();
    assert_eq!(pairs, vec![vec!["src".to_string(), "x\");".to_string()]]);
    assert_eq!(parsed[2], serde_json::Value::String(children));
}

#[test]
fn noop_evaluation_answers_unsupported() {
    let doc = NoOpDocument;
    for js in ["console.log(1)", "return 2;"] {
        let mut eval = doc.eval(js.to_string());
        assert_eq!(eval.send(serde_json::Value::Bool(true)), Err(EvalError::Unsupported));
        for _ in 0..2 {
            assert!(matches!(eval.poll_join(), EvalPoll::Ready(Err(EvalError::Unsupported))));
            assert!(matches!(eval.poll_recv(), EvalPoll::Ready(Err(EvalError::Unsupported))));
        }
    }
}
