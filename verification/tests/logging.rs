use dioxus_support::logging::{
    default_filter_directives, fmt_field_shown, format_field, json_filter_allows, CargoDiagnostic, CollectVisitor,
    LogLevel,
    TraceContent, TraceMsg,
};
use dioxus_support::clock::{now_timestamp, Timestamp};
use dioxus_support::trace_src::{BundleFormat, TraceSrc};

fn diagnostic(level: &str, message: &str) -> CargoDiagnostic {
    let json = format!(
        r#"{{"message":{message:?},"code":null,"level":{level:?},"spans":[],"children":[],"rendered":null}}"#
    );
    let diagnostic: cargo_metadata::diagnostic::Diagnostic = serde_json::from_str(&json).unwrap();
    CargoDiagnostic { message: diagnostic.message.clone(), diagnostic }
}

fn timestamp() -> Option<Timestamp> {
    Some(Timestamp { secs: 1_700_000_000, nanos: 5 })
}

#[test]
fn file_entry_level_names() {
    let mut v = CollectVisitor::new();
    v.record("message", "m".to_string());
    for (level, name) in [
        (LogLevel::Error, "ERROR"),
        (LogLevel::Warn, "WARN"),
        (LogLevel::Info, "INFO"),
        (LogLevel::Debug, "DEBUG"),
        (LogLevel::Trace, "TRACE"),
    ] {
        assert_eq!(v.file_log_entry(level, Some("x")), format!("[{name}] x: m \n"));
    }
}

#[test]
fn field_formatting() {
    assert_eq!(format_field("message", "\"hello\""), "\"hello\"");
    assert_eq!(format_field("count", "3"), "count=3");
}

#[test]
fn file_entry_quotes_field_values() {
    let mut v = CollectVisitor::new();
    v.record("message", "saved".to_string());
    v.record("path", "a\"b\nc".to_string());
    assert_eq!(
        v.file_log_entry(LogLevel::Info, Some("dx")),
        format!("[INFO] dx: saved path={:?} \n", "a\"b\nc")
    );
    assert_eq!(v.file_log_entry(LogLevel::Info, Some("dx")), "[INFO] dx: saved path=\"a\\\"b\\nc\" \n");
}

#[test]
fn file_entry_strips_ansi_codes() {
    let mut v = CollectVisitor::new();
    v.record("message", "\u{1b}[31mred\u{1b}[0m text".to_string());
    assert_eq!(v.file_log_entry(LogLevel::Error, None), "[ERROR] dx: red text \n");
}

#[test]
fn trace_src_labels() {
    assert_eq!(TraceSrc::App(BundleFormat::Web).label(), "web");
    assert_eq!(TraceSrc::Dev.label(), "dev");
    assert_eq!(TraceSrc::Build.label(), "build");
    assert_eq!(TraceSrc::Bundle.label(), "bundle");
    assert_eq!(TraceSrc::Cargo.label(), "cargo");
    assert_eq!(TraceSrc::Unknown.label(), "n/a");
}

#[test]
fn trace_src_from_strings() {
    assert!(TraceSrc::from("dev".to_string()) == TraceSrc::Dev);
    assert!(TraceSrc::from("bld".to_string()) == TraceSrc::Build);
    assert!(TraceSrc::from("cargo".to_string()) == TraceSrc::Cargo);
    assert!(TraceSrc::from("android".to_string()) == TraceSrc::App(BundleFormat::Android));
    assert!(TraceSrc::from("build".to_string()) == TraceSrc::Unknown);
    assert!(TraceSrc::from("something".to_string()) == TraceSrc::Unknown);
}

#[test]
fn trace_src_label_round_trip() {
    let all = [
        BundleFormat::Web,
        BundleFormat::MacOS,
        BundleFormat::Windows,
        BundleFormat::Linux,
        BundleFormat::Server,
        BundleFormat::Ios,
        BundleFormat::Android,
    ];
    for b in all {
        assert_eq!(BundleFormat::from_name(b.name()), Some(b));
        let src = TraceSrc::App(b);
        assert!(TraceSrc::from(src.label()) == src);
    }
    assert!(TraceSrc::from(TraceSrc::Dev.label()) == TraceSrc::Dev);
    assert!(TraceSrc::from(TraceSrc::Cargo.label()) == TraceSrc::Cargo);
    assert_eq!(BundleFormat::from_name("WEB"), None);
}

#[test]
fn visitor_collects_fields() {
    let mut v = CollectVisitor::new();
    v.record("message", "\"built\"".to_string());
    v.record("dx_src", "bld".to_string());
    v.record("path", "\"a\"".to_string());
    v.record("count", "2".to_string());
    v.record("path", "\"b\"".to_string());
    assert_eq!(v.message(), "\"built\"");
    assert!(v.source() == TraceSrc::Build);
    assert_eq!(v.field_count(), 2);
    assert_eq!(v.field_at(0), ("path", "\"b\""));
    assert_eq!(v.field_at(1), ("count", "2"));
}

#[test]
fn file_entry_for_record() {
    let mut v = CollectVisitor::new();
    v.record("message", "hello \u{1b}[1mworld\u{1b}[0m".to_string());
    v.record("port", "8080".to_string());
    assert_eq!(
        v.file_log_entry(LogLevel::Info, Some("dx::serve")),
        "[INFO] dx::serve: hello world port=\"8080\" \n"
    );
    assert_eq!(v.file_log_entry(LogLevel::Warn, None), "[WARN] dx: hello world port=\"8080\" \n");
}

#[test]
fn file_entry_for_cargo_record() {
    let mut v = CollectVisitor::new();
    v.record("message", "compiling".to_string());
    v.record("dx_src", "cargo".to_string());
    v.record("extra", "1".to_string());
    assert_eq!(v.file_log_entry(LogLevel::Trace, Some("dx")), "compiling");
}

#[test]
fn tui_message_from_record() {
    let mut v = CollectVisitor::new();
    v.record("message", "ready".to_string());
    v.record("url", "http://x".to_string());
    let msg = v.into_tui_message(LogLevel::Info);
    assert!(msg.source == TraceSrc::Dev);
    assert_eq!(msg.level, LogLevel::Info);
    match msg.content {
        TraceContent::Text(t) => assert_eq!(t, "ready url=\"http://x\" "),
        TraceContent::Cargo(_) => panic!("expected text"),
    }
}

#[test]
fn tui_message_keeps_known_source() {
    let mut v = CollectVisitor::new();
    v.record("dx_src", "web".to_string());
    let msg = v.into_tui_message(LogLevel::Error);
    assert!(msg.source == TraceSrc::App(BundleFormat::Web));
}

#[test]
fn text_message() {
    let msg = TraceMsg::text(TraceSrc::Bundle, LogLevel::Debug, "done".to_string());
    assert!(msg.source == TraceSrc::Bundle);
    assert!(msg.content == TraceContent::Text("done".to_string()));
    assert!(msg.clone() == msg);
    assert_eq!(msg.replay_line(), (LogLevel::Debug, "done".to_string()));
}

#[test]
fn cargo_messages_logged_at_trace() {
    for level in ["error", "error: internal compiler error", "failure-note", "warning", "note", "help"] {
        let msg = TraceMsg::cargo(diagnostic(level, "mismatched types"));
        assert_eq!(msg.level, LogLevel::Trace);
        assert!(msg.source == TraceSrc::Cargo);
        assert_eq!(msg.replay_line(), (LogLevel::Trace, "mismatched types".to_string()));
        assert!(msg.content == TraceContent::Cargo(diagnostic(level, "mismatched types")));
    }
}

#[test]
fn filter_directives() {
    assert_eq!(
        default_filter_directives(true, false),
        "error,dx=trace,dioxus_cli=trace,manganis_cli_support=trace,wasm_split_cli=trace,subsecond_cli_support=trace"
    );
    assert_eq!(
        default_filter_directives(false, true),
        "error,dx=debug,dioxus_cli=debug,manganis_cli_support=debug,wasm_split_cli=debug,subsecond_cli_support=debug"
    );
    assert_eq!(
        default_filter_directives(false, false),
        "error,dx=info,dioxus_cli=info,manganis_cli_support=info,wasm_split_cli=info,subsecond_cli_support=info"
    );
}

#[test]
fn json_filter() {
    assert!(!json_filter_allows(&["json"], false));
    assert!(json_filter_allows(&["json"], true));
    assert!(json_filter_allows(&["json", "message"], false));
    assert!(json_filter_allows(&["message"], false));
    assert!(json_filter_allows(&[], false));
}

#[test]
fn console_field_visibility() {
    assert!(!fmt_field_shown("json", false, true));
    assert!(fmt_field_shown("json", true, false));
    assert!(!fmt_field_shown("dx_src", true, false));
    assert!(fmt_field_shown("dx_src", false, true));
    assert!(fmt_field_shown("message", false, false));
    assert!(!fmt_field_shown("dx_no_fmt", true, true));
}

#[test]
fn no_fmt_record_passed_as_is() {
    let mut v = CollectVisitor::new();
    v.record("message", "raw output".to_string());
    v.record("dx_no_fmt", "true".to_string());
    v.record("path", "\"a\"".to_string());
    assert!(v.no_fmt());
    assert_eq!(v.field_count(), 1);
    assert_eq!(v.file_log_entry(LogLevel::Info, Some("dx")), "raw output");
    let msg = v.into_tui_message(LogLevel::Info);
    assert!(msg.content == TraceContent::Text("raw output".to_string()));
}

#[test]
fn messages_at_given_time() {
    let ts = timestamp();
    let msg = TraceMsg::text_at(TraceSrc::Dev, LogLevel::Warn, "w".to_string(), ts);
    assert!(msg.timestamp == ts);
    let cargo = TraceMsg::cargo_at(diagnostic("warning", "w"), ts);
    assert!(cargo.timestamp == ts);
    assert_eq!(cargo.level, LogLevel::Trace);
}

#[test]
fn current_time_after_epoch() {
    let now = now_timestamp().unwrap();
    assert!(now.secs > 1_600_000_000);
    assert!(now.nanos < 1_000_000_000);
    let msg = TraceMsg::text(TraceSrc::Dev, LogLevel::Info, "t".to_string());
    assert!(msg.timestamp.unwrap().secs >= now.secs);
}

#[test]
fn no_fmt_false_keeps_formatting() {
    let mut v = CollectVisitor::new();
    v.record("message", "m".to_string());
    v.record("dx_no_fmt", "false".to_string());
    assert!(!v.no_fmt());
    assert_eq!(v.field_count(), 0);
    assert_eq!(v.file_log_entry(LogLevel::Info, Some("dx")), "[INFO] dx: m \n");
}
