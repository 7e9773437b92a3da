//! The CLI's log routing, apart from the tracing plumbing: how records are
//! collected, rendered for the log file and for the TUI, which filter
//! directives apply, and how cargo's diagnostics become log messages.
//!
//! Three tracing fields have a meaning of their own: `message` holds the text
//! of every record, `dx_src` tells the logger that this is a user-facing
//! message and names its source, and `dx_no_fmt` tells the logger to avoid
//! formatting the log and to pass the message on as-is.
use vstd::prelude::*;
use cargo_metadata::diagnostic::Diagnostic;
use crate::text::{push_char, str_eq};
use crate::trace_src::{TraceSrc, trace_src_from_name};
use crate::clock::{Timestamp, now_timestamp};

verus! {

/// The environment variable that overrides the log filter.
pub const LOG_ENV: &'static str = "DIOXUS_LOG";

/// The name of the log file kept in the temporary directory.
pub const LOG_FILE_NAME: &'static str = "dx.log";

/// The field that names the source of a user-facing message.
pub const DX_SRC_FLAG: &'static str = "dx_src";

/// The field that asks for a message to be passed on as-is, unformatted.
pub const DX_NO_FMT_FLAG: &'static str = "dx_no_fmt";

/// Whether a field name has a meaning of its own, so that the field is never
/// kept among the user-provided fields.
pub open spec fn is_dx_field(name: Seq<char>) -> bool {
    name == "message"@ || name == "dx_src"@ || name == "dx_no_fmt"@
}

/// The severity of a log record (the levels of `tracing::Level`).
#[derive(Debug, Clone, Copy, PartialEq, Eq, Structural)]
pub enum LogLevel {
    Error,
    Warn,
    Info,
    Debug,
    Trace,
}

/// The name of a level as `tracing` writes it.
pub open spec fn level_label(level: LogLevel) -> Seq<char> {
    match level {
        LogLevel::Error => "ERROR"@,
        LogLevel::Warn => "WARN"@,
        LogLevel::Info => "INFO"@,
        LogLevel::Debug => "DEBUG"@,
        LogLevel::Trace => "TRACE"@,
    }
}

/// The name of a level (`tracing::Level::as_str`, which gives the same text
/// as the level's `Display`): `ERROR`, `WARN`, `INFO`, `DEBUG` or `TRACE`.
#[verifier::external_body]
pub(crate) fn level_name(level: LogLevel) -> (name: &'static str)
    ensures
        name@ == level_label(level),
{
    let level = match level {
        LogLevel::Error => tracing::Level::ERROR,
        LogLevel::Warn => tracing::Level::WARN,
        LogLevel::Info => tracing::Level::INFO,
        LogLevel::Debug => tracing::Level::DEBUG,
        LogLevel::Trace => tracing::Level::TRACE,
    };
    level.as_str()
}

/// The text that `{:?}` gives for a string: the string in double quotes, with
/// its characters escaped as `char::escape_debug` does.
pub uninterp spec fn debug_quoted(s: Seq<char>) -> Seq<char>;

/// Renders a string with `{:?}` (`<str as Debug>::fmt`). The text is named,
/// not spelled out: the escaping rules of `escape_debug` are std's.
#[verifier::external_body]
pub(crate) fn debug_text(s: &str) -> (text: String)
    ensures
        text@ == debug_quoted(s@),
{
    format!("{:?}", s)
}

/// The text of `s` with ANSI escape codes removed
/// (`console::strip_ansi_codes`).
pub uninterp spec fn ansi_stripped(s: Seq<char>) -> Seq<char>;

/// Removes ANSI escape codes (`console::strip_ansi_codes`). A string with no
/// ESC (`\u{1b}`) and no CSI (`\u{9b}`) character holds no code and comes back
/// unchanged.
#[verifier::external_body]
pub(crate) fn strip_ansi_codes(s: &str) -> (stripped: String)
    ensures
        stripped@ == ansi_stripped(s@),
        (forall|i: int| 0 <= i < s@.len() ==> s@[i] != '\u{1b}' && s@[i] != '\u{9b}') ==> stripped@ == s@,
{
    console::strip_ansi_codes(s).to_string()
}

/// A field and its rendered value as a log line shows them: the value alone
/// for `message`, `name=value` for any other field.
pub open spec fn field_text(name: Seq<char>, value: Seq<char>) -> Seq<char> {
    if name == "message"@ {
        value
    } else {
        name + "="@ + value
    }
}

/// Formats a tracing field and its value, already rendered with `{:?}`.
pub fn format_field(field_name: &str, value: &str) -> (out: String)
    ensures
        out@ == field_text(field_name@, value@),
{
    if str_eq(field_name, "message") {
        String::from_str(value)
    } else {
        let mut out = String::from_str(field_name);
        out.append("=");
        out.append(value);
        out
    }
}

/// The user-provided fields of a record as a log line shows them: each field
/// with its value in quotes, followed by a space.
pub open spec fn fields_text(entries: Seq<(Seq<char>, Seq<char>)>) -> Seq<char>
    decreases entries.len(),
{
    if entries.len() == 0 {
        Seq::empty()
    } else {
        fields_text(entries.drop_last()) + field_text(entries.last().0, debug_quoted(entries.last().1))
            + seq![' ']
    }
}

/// The entries after recording `value` under `name`: an existing entry of that
/// name takes the new value in place, otherwise the entry is added at the end.
pub open spec fn entries_insert(
    entries: Seq<(Seq<char>, Seq<char>)>,
    name: Seq<char>,
    value: Seq<char>,
) -> Seq<(Seq<char>, Seq<char>)> {
    if exists|j: int| 0 <= j < entries.len() && entries[j].0 == name {
        let j = choose|j: int| 0 <= j < entries.len() && entries[j].0 == name;
        entries.update(j, (name, value))
    } else {
        entries.push((name, value))
    }
}

/// Whether no two entries share a name.
pub open spec fn entry_names_unique(entries: Seq<(Seq<char>, Seq<char>)>) -> bool {
    forall|i: int, j: int|
        0 <= i < entries.len() && 0 <= j < entries.len() && i != j ==> entries[i].0 != entries[j].0
}

/// The entries as a map from field name to value.
pub open spec fn entries_map(entries: Seq<(Seq<char>, Seq<char>)>) -> Map<Seq<char>, Seq<char>> {
    Map::new(
        |k: Seq<char>| exists|j: int| 0 <= j < entries.len() && entries[j].0 == k,
        |k: Seq<char>| entries[choose|j: int| 0 <= j < entries.len() && entries[j].0 == k].1,
    )
}

/// A record visitor that collects dx-specific info and user-provided fields
/// for logging consumption.
pub struct CollectVisitor {
    message: String,
    source: TraceSrc,
    no_fmt: bool,
    fields: Vec<(String, String)>,
}

impl CollectVisitor {
    /// The record's message.
    pub closed spec fn message_view(&self) -> Seq<char> {
        self.message@
    }

    /// The record's source.
    pub closed spec fn source_view(&self) -> TraceSrc {
        self.source
    }

    /// Whether the record asked to be passed on as-is.
    pub closed spec fn no_fmt_view(&self) -> bool {
        self.no_fmt
    }

    /// The user-provided fields, in the order they were first recorded.
    pub closed spec fn entries(&self) -> Seq<(Seq<char>, Seq<char>)> {
        self.fields@.map_values(|f: (String, String)| (f.0@, f.1@))
    }

    /// The user-provided fields, by name.
    pub open spec fn field_map(&self) -> Map<Seq<char>, Seq<char>> {
        entries_map(self.entries())
    }

    /// A visitor keeps each field name once, and never keeps the message, the
    /// source or the as-is flag among the fields.
    pub open spec fn wf(&self) -> bool {
        &&& entry_names_unique(self.entries())
        &&& forall|i: int| 0 <= i < self.entries().len() ==> !is_dx_field(#[trigger] self.entries()[i].0)
    }

    /// An empty visitor: no message, no fields, an unknown source, formatted.
    pub fn new() -> (v: Self)
        ensures
            v.wf(),
            v.message_view() == Seq::<char>::empty(),
            v.source_view() == TraceSrc::Unknown,
            !v.no_fmt_view(),
            v.entries() == Seq::<(Seq<char>, Seq<char>)>::empty(),
    {
        let v = CollectVisitor {
            message: String::new(),
            source: TraceSrc::Unknown,
            no_fmt: false,
            fields: Vec::new(),
        };
        assert(v.entries() =~= Seq::<(Seq<char>, Seq<char>)>::empty());
        v
    }

    /// The record's message.
    pub fn message(&self) -> (m: &str)
        ensures
            m@ == self.message_view(),
    {
        self.message.as_str()
    }

    /// The record's source.
    pub fn source(&self) -> (s: TraceSrc)
        ensures
            s == self.source_view(),
    {
        self.source
    }

    /// Whether the record asked to be passed on as-is.
    pub fn no_fmt(&self) -> (b: bool)
        ensures
            b == self.no_fmt_view(),
    {
        self.no_fmt
    }

    /// The number of user-provided fields.
    pub fn field_count(&self) -> (n: usize)
        ensures
            n == self.entries().len(),
    {
        self.fields.len()
    }

    /// The user-provided field at position `i`, as (name, value).
    pub fn field_at(&self, i: usize) -> (f: (&str, &str))
        requires
            i < self.entries().len(),
        ensures
            f.0@ == self.entries()[i as int].0,
            f.1@ == self.entries()[i as int].1,
    {
        (self.fields[i].0.as_str(), self.fields[i].1.as_str())
    }

    /// Records one field of a record, its value already rendered with `{:?}`:
    /// `message` sets the message, `dx_src` the source, `dx_no_fmt` marks the
    /// record to be passed on as-is unless its value is `false`, and any other
    /// name sets that field.
    pub fn record(&mut self, name: &str, value: String)
        requires
            old(self).wf(),
        ensures
            final(self).wf(),
            final(self).message_view() == (if name@ == "message"@ {
                value@
            } else {
                old(self).message_view()
            }),
            final(self).source_view() == (if name@ == "dx_src"@ {
                trace_src_from_name(value@)
            } else {
                old(self).source_view()
            }),
            final(self).no_fmt_view() == (if name@ == "dx_no_fmt"@ {
                value@ != "false"@
            } else {
                old(self).no_fmt_view()
            }),
            final(self).entries() == (if is_dx_field(name@) {
                old(self).entries()
            } else {
                entries_insert(old(self).entries(), name@, value@)
            }),
    {
        proof {
            reveal_strlit("message");
            reveal_strlit("dx_src");
            reveal_strlit("dx_no_fmt");
            assert("message"@.len() == 7 && "dx_src"@.len() == 6 && "dx_no_fmt"@.len() == 9);
        }
        if str_eq(name, "message") {
            self.message = value;
            return;
        }
        if str_eq(name, DX_SRC_FLAG) {
            self.source = TraceSrc::from(value);
            return;
        }
        if str_eq(name, DX_NO_FMT_FLAG) {
            self.no_fmt = !str_eq(value.as_str(), "false");
            return;
        }
        let ghost old_entries = self.entries();
        let ghost old_message = self.message_view();
        let ghost old_source = self.source;
        let ghost old_no_fmt = self.no_fmt;
        let n = self.fields.len();
        let mut i: usize = 0;
        while i < n
            invariant
                n == self.fields@.len(),
                i <= n,
                self.entries() == old_entries,
                old_entries == old(self).entries(),
                old_message == old(self).message_view(),
                old_source == old(self).source_view(),
                self.message_view() == old_message,
                self.source == old_source,
                old_no_fmt == old(self).no_fmt_view(),
                self.no_fmt == old_no_fmt,
                !is_dx_field(name@),
                entry_names_unique(old_entries),
                forall|j: int| 0 <= j < old_entries.len() ==> !is_dx_field(#[trigger] old_entries[j].0),
                forall|j: int| 0 <= j < i ==> old_entries[j].0 != name@,
            decreases n - i,
        {
            if str_eq(self.fields[i].0.as_str(), name) {
                assert(old_entries[i as int].0 == name@);
                let entry = (String::from_str(name), value);
                self.fields.set(i, entry);
                proof {
                    let k = choose|j: int| 0 <= j < old_entries.len() && old_entries[j].0 == name@;
                    assert(k == i);
                    assert(self.entries() =~= old_entries.update(i as int, (name@, value@)));
                }
                return;
            }
            i = i + 1;
        }
        self.fields.push((String::from_str(name), value));
        assert(self.entries() =~= old_entries.push((name@, value@)));
    }

    /// The user-provided fields rendered for a log line.
    pub fn fields_line(&self) -> (line: String)
        ensures
            line@ == fields_text(self.entries()),
    {
        let mut line = String::new();
        let n = self.fields.len();
        for i in 0..n
            invariant
                n == self.entries().len(),
                line@ == fields_text(self.entries().take(i as int)),
        {
            let value = debug_text(self.fields[i].1.as_str());
            let field = format_field(self.fields[i].0.as_str(), value.as_str());
            line.append(field.as_str());
            push_char(&mut line, ' ');
            assert(self.entries().take(i + 1).drop_last() =~= self.entries().take(i as int));
        }
        assert(self.entries().take(n as int) =~= self.entries());
        line
    }
}

/// Recording a field into a visitor's fields sets that name to the new value
/// and keeps every other field: the fields, read as a map, are the old map with
/// one insertion, and no name occurs twice.
pub proof fn law_record_sets_field(
    entries: Seq<(Seq<char>, Seq<char>)>,
    name: Seq<char>,
    value: Seq<char>,
)
    requires
        entry_names_unique(entries),
    ensures
        entry_names_unique(entries_insert(entries, name, value)),
        entries_map(entries_insert(entries, name, value)) == entries_map(entries).insert(name, value),
{
    let after = entries_insert(entries, name, value);
    if exists|j: int| 0 <= j < entries.len() && entries[j].0 == name {
        let j = choose|j: int| 0 <= j < entries.len() && entries[j].0 == name;
        assert(after == entries.update(j, (name, value)));
        assert forall|k: Seq<char>| #[trigger] entries_map(after).contains_key(k)
            <==> entries_map(entries).insert(name, value).contains_key(k) by {
            if k == name {
                assert(after[j].0 == k);
            } else if entries_map(entries).contains_key(k) {
                let i = choose|i: int| 0 <= i < entries.len() && entries[i].0 == k;
                assert(after[i].0 == k);
            } else if entries_map(after).contains_key(k) {
                let i = choose|i: int| 0 <= i < after.len() && after[i].0 == k;
                assert(entries[i].0 == k);
            }
        }
        assert forall|k: Seq<char>| #[trigger] entries_map(after).contains_key(k)
            implies entries_map(after)[k] == entries_map(entries).insert(name, value)[k] by {
            let i = choose|i: int| 0 <= i < after.len() && after[i].0 == k;
            if k == name {
                assert(i == j);
            } else {
                assert(entries[i].0 == k);
                let i2 = choose|i2: int| 0 <= i2 < entries.len() && entries[i2].0 == k;
                assert(i2 == i);
            }
        }
        assert(entries_map(after) =~= entries_map(entries).insert(name, value));
    } else {
        assert(after == entries.push((name, value)));
        assert forall|k: Seq<char>| #[trigger] entries_map(after).contains_key(k)
            <==> entries_map(entries).insert(name, value).contains_key(k) by {
            if k == name {
                assert(after[entries.len() as int].0 == k);
            } else if entries_map(entries).contains_key(k) {
                let i = choose|i: int| 0 <= i < entries.len() && entries[i].0 == k;
                assert(after[i].0 == k);
            } else if entries_map(after).contains_key(k) {
                let i = choose|i: int| 0 <= i < after.len() && after[i].0 == k;
                assert(entries[i].0 == k);
            }
        }
        assert forall|k: Seq<char>| #[trigger] entries_map(after).contains_key(k)
            implies entries_map(after)[k] == entries_map(entries).insert(name, value)[k] by {
            let i = choose|i: int| 0 <= i < after.len() && after[i].0 == k;
            if k == name {
                assert(i == entries.len());
            } else {
                assert(entries[i].0 == k);
                let i2 = choose|i2: int| 0 <= i2 < entries.len() && entries[i2].0 == k;
                assert(i2 == i);
            }
        }
        assert(entries_map(after) =~= entries_map(entries).insert(name, value));
    }
}

/// A diagnostic that rustc reports through cargo
/// (`cargo_metadata::diagnostic::Diagnostic`).
#[verifier::external_type_specification]
#[verifier::external_body]
pub struct ExDiagnostic(Diagnostic);

/// A copy of a diagnostic (`<Diagnostic as Clone>::clone`, which is derived:
/// every field is cloned, so the copy equals the diagnostic it was made from).
#[verifier::external_body]
fn clone_diagnostic(diagnostic: &Diagnostic) -> (copy: Diagnostic)
    ensures
        copy == *diagnostic,
{
    diagnostic.clone()
}

/// A diagnostic from cargo: its message as text, beside the whole diagnostic
/// (spans, children, rendering) for display.
#[derive(PartialEq)]
pub struct CargoDiagnostic {
    /// The diagnostic's message (its `message` field).
    pub message: String,
    /// The diagnostic as cargo reported it.
    pub diagnostic: Diagnostic,
}

impl Clone for CargoDiagnostic {
    fn clone(&self) -> (copy: Self)
        ensures
            copy == *self,
    {
        CargoDiagnostic { message: self.message.clone(), diagnostic: clone_diagnostic(&self.diagnostic) }
    }
}

/// What a log message carries.
#[derive(PartialEq)]
pub enum TraceContent {
    /// A diagnostic from cargo.
    Cargo(CargoDiagnostic),
    /// Plain text.
    Text(String),
}

/// A log message routed to the TUI.
#[derive(PartialEq)]
pub struct TraceMsg {
    pub source: TraceSrc,
    pub level: LogLevel,
    pub content: TraceContent,
    /// When the message was made; `None` where the system clock read before
    /// the Unix epoch.
    pub timestamp: Option<Timestamp>,
}

impl Clone for TraceContent {
    fn clone(&self) -> (copy: Self)
        ensures
            copy == *self,
    {
        match self {
            TraceContent::Cargo(diagnostic) => TraceContent::Cargo(diagnostic.clone()),
            TraceContent::Text(text) => TraceContent::Text(text.clone()),
        }
    }
}

impl Clone for TraceMsg {
    fn clone(&self) -> (copy: Self)
        ensures
            copy == *self,
    {
        TraceMsg {
            source: self.source,
            level: self.level,
            content: self.content.clone(),
            timestamp: self.timestamp,
        }
    }
}

impl TraceMsg {
    /// A text message from the given source, stamped with `timestamp`.
    pub fn text_at(source: TraceSrc, level: LogLevel, content: String, timestamp: Option<Timestamp>) -> (msg: Self)
        ensures
            msg.source == source,
            msg.level == level,
            msg.content == TraceContent::Text(content),
            msg.timestamp == timestamp,
    {
        TraceMsg { source, level, content: TraceContent::Text(content), timestamp }
    }

    /// A text message from the given source, stamped with the current time
    /// (none where the system clock reads before the Unix epoch).
    pub fn text(source: TraceSrc, level: LogLevel, content: String) -> (msg: Self)
        ensures
            msg.source == source,
            msg.level == level,
            msg.content == TraceContent::Text(content),
            msg.timestamp matches Some(t) ==> t.nanos < 1_000_000_000,
    {
        TraceMsg::text_at(source, level, content, now_timestamp())
    }

    /// A message made from a cargo compiler message, stamped with `timestamp`,
    /// at the `TRACE` level (see [`TraceMsg::cargo`]).
    pub fn cargo_at(content: CargoDiagnostic, timestamp: Option<Timestamp>) -> (msg: Self)
        ensures
            msg.source == TraceSrc::Cargo,
            msg.level == LogLevel::Trace,
            msg.content == TraceContent::Cargo(content),
            msg.timestamp == timestamp,
    {
        TraceMsg { level: LogLevel::Trace, timestamp, source: TraceSrc::Cargo, content: TraceContent::Cargo(content) }
    }

    /// Create a new trace message from a cargo compiler message, stamped with
    /// the current time (none where the system clock reads before the Unix
    /// epoch).
    ///
    /// All `cargo` messages are logged at the `TRACE` level since they get
    /// *very* noisy during development.
    pub fn cargo(content: CargoDiagnostic) -> (msg: Self)
        ensures
            msg.source == TraceSrc::Cargo,
            msg.level == LogLevel::Trace,
            msg.content == TraceContent::Cargo(content),
            msg.timestamp matches Some(t) ==> t.nanos < 1_000_000_000,
    {
        TraceMsg::cargo_at(content, now_timestamp())
    }

    /// The level and text under which the message is logged again when the TUI
    /// shuts down: a text message's own text, a diagnostic's message.
    pub fn replay_line(&self) -> (line: (LogLevel, String))
        ensures
            line.0 == self.level,
            line.1@ == replay_text(self.content),
    {
        let content = match &self.content {
            TraceContent::Text(text) => text.clone(),
            TraceContent::Cargo(diagnostic) => diagnostic.message.clone(),
        };
        (self.level, content)
    }
}

/// The text under which a message is logged again: a text message's text, a
/// diagnostic's message.
pub open spec fn replay_text(content: TraceContent) -> Seq<char> {
    match content {
        TraceContent::Text(t) => t@,
        TraceContent::Cargo(d) => d.message@,
    }
}

/// The source under which the TUI shows a message: a message of no known
/// source is shown as one of the development server.
pub open spec fn tui_source(source: TraceSrc) -> TraceSrc {
    if source == TraceSrc::Unknown {
        TraceSrc::Dev
    } else {
        source
    }
}

/// The TUI never shows a message without a source: one of no known source is
/// shown as the development server's.
pub proof fn law_tui_source_is_known(source: TraceSrc)
    ensures
        tui_source(source) != TraceSrc::Unknown,
        source != TraceSrc::Unknown ==> tui_source(source) == source,
{
}

/// The text of a record as the TUI shows it: the message and the fields, each
/// followed by a space, or the message alone for a record to pass on as-is.
pub open spec fn tui_text(message: Seq<char>, no_fmt: bool, entries: Seq<(Seq<char>, Seq<char>)>) -> Seq<char> {
    if no_fmt {
        message
    } else {
        message + seq![' '] + fields_text(entries)
    }
}

/// The line that the log file gets for a record, before ANSI codes are
/// removed: a cargo message, or one to pass on as-is, as it is; any other as
/// `[LEVEL] module: message field="value" ` and a line feed.
pub open spec fn file_line_text(
    message: Seq<char>,
    source: TraceSrc,
    no_fmt: bool,
    entries: Seq<(Seq<char>, Seq<char>)>,
    level: LogLevel,
    module: Option<Seq<char>>,
) -> Seq<char> {
    if source == TraceSrc::Cargo || no_fmt {
        message
    } else {
        seq!['['] + level_label(level) + seq![']', ' '] + (match module {
            Some(m) => m,
            None => "dx"@,
        }) + seq![':', ' '] + message + seq![' '] + fields_text(entries) + seq!['\n']
    }
}

/// The view of an optional string slice.
pub open spec fn opt_str_view(s: Option<&str>) -> Option<Seq<char>> {
    match s {
        Some(s) => Some(s@),
        None => None,
    }
}

impl CollectVisitor {
    /// The message made from this record for the TUI, at the given level and
    /// stamped with the current time.
    pub fn into_tui_message(self, level: LogLevel) -> (msg: TraceMsg)
        ensures
            msg.source == tui_source(self.source_view()),
            msg.level == level,
            msg.content matches TraceContent::Text(t) && t@ == tui_text(
                self.message_view(),
                self.no_fmt_view(),
                self.entries(),
            ),
    {
        let mut text = String::from_str(self.message.as_str());
        if !self.no_fmt {
            push_char(&mut text, ' ');
            let fields = self.fields_line();
            text.append(fields.as_str());
        }
        let source = if self.source == TraceSrc::Unknown {
            TraceSrc::Dev
        } else {
            self.source
        };
        TraceMsg::text(source, level, text)
    }

    /// The entry that the log file gets for this record, logged at `level` from
    /// the module at `module`, with ANSI codes removed.
    pub fn file_log_entry(&self, level: LogLevel, module: Option<&str>) -> (entry: String)
        ensures
            entry@ == ansi_stripped(
                file_line_text(
                    self.message_view(),
                    self.source_view(),
                    self.no_fmt_view(),
                    self.entries(),
                    level,
                    opt_str_view(module),
                ),
            ),
    {
        let line = if self.source == TraceSrc::Cargo || self.no_fmt {
            String::from_str(self.message.as_str())
        } else {
            let mut line = String::new();
            push_char(&mut line, '[');
            line.append(level_name(level));
            push_char(&mut line, ']');
            push_char(&mut line, ' ');
            match module {
                Some(m) => line.append(m),
                None => line.append("dx"),
            }
            push_char(&mut line, ':');
            push_char(&mut line, ' ');
            line.append(self.message.as_str());
            push_char(&mut line, ' ');
            let fields = self.fields_line();
            line.append(fields.as_str());
            push_char(&mut line, '\n');
            assert(line@ =~= file_line_text(
                self.message_view(),
                self.source_view(),
                self.no_fmt_view(),
                self.entries(),
                level,
                opt_str_view(module),
            ));
            line
        };
        strip_ansi_codes(line.as_str())
    }
}

/// The filter directives that log the CLI's own crates at `level` and every
/// other crate at `error`.
pub open spec fn filter_directives(level: Seq<char>) -> Seq<char> {
    "error,dx="@ + level + ",dioxus_cli="@ + level + ",manganis_cli_support="@ + level
        + ",wasm_split_cli="@ + level + ",subsecond_cli_support="@ + level
}

/// The level of the CLI's own crates when no filter is given: `trace` while
/// serving, so the CLI traces itself even if the logs end up tossed, else
/// `debug` when verbose and `info` otherwise.
pub open spec fn default_filter_level(serving: bool, verbose: bool) -> Seq<char> {
    if serving {
        "trace"@
    } else if verbose {
        "debug"@
    } else {
        "info"@
    }
}

/// The filter directives used when the environment gives none.
pub fn default_filter_directives(serving: bool, verbose: bool) -> (directives: String)
    ensures
        directives@ == filter_directives(default_filter_level(serving, verbose)),
{
    let level = if serving {
        "trace"
    } else if verbose {
        "debug"
    } else {
        "info"
    };
    let mut d = String::from_str("error,dx=");
    d.append(level);
    d.append(",dioxus_cli=");
    d.append(level);
    d.append(",manganis_cli_support=");
    d.append(level);
    d.append(",wasm_split_cli=");
    d.append(level);
    d.append(",subsecond_cli_support=");
    d.append(level);
    d
}

/// Whether a record with the given fields passes the JSON filter: a record
/// whose only field is `json` is kept only for JSON output; every other record
/// is kept.
pub fn json_filter_allows(field_names: &[&str], json_output: bool) -> (allowed: bool)
    ensures
        allowed == (if field_names@.len() == 1 && field_names@[0]@ == "json"@ {
            json_output
        } else {
            true
        }),
{
    if field_names.len() == 1 && str_eq(field_names[0], "json") {
        return json_output;
    }
    true
}

/// Whether the console output shows a field: `json` only for JSON output,
/// `dx_src` only when verbose, `dx_no_fmt` never, any other field always.
pub fn fmt_field_shown(field_name: &str, json_output: bool, verbose: bool) -> (shown: bool)
    ensures
        shown == !((field_name@ == "json"@ && !json_output) || (field_name@ == "dx_src"@ && !verbose)
            || field_name@ == "dx_no_fmt"@),
{
    if str_eq(field_name, DX_NO_FMT_FLAG) {
        return false;
    }
    if str_eq(field_name, "json") && !json_output {
        return false;
    }
    if str_eq(field_name, "dx_src") && !verbose {
        return false;
    }
    true
}

/// The TUI text of a formatted record is the message and a space, and each
/// recorded field adds its `name="value"` text and a space at the end, whatever
/// the number of fields: no field is ever dropped or repeated. A record to
/// pass on as-is shows its message alone.
pub proof fn law_tui_text_lists_every_field(
    message: Seq<char>,
    entries: Seq<(Seq<char>, Seq<char>)>,
    name: Seq<char>,
    value: Seq<char>,
)
    ensures
        tui_text(message, false, Seq::empty()) == message.push(' '),
        tui_text(message, false, entries.push((name, value))) == tui_text(message, false, entries)
            + field_text(name, debug_quoted(value)) + seq![' '],
        tui_text(message, false, entries).len() == message.len() + 1 + fields_text(entries).len(),
        tui_text(message, true, entries) == message,
{
    let es = entries.push((name, value));
    assert(es.drop_last() =~= entries);
    assert(es.last() == (name, value));
    assert(fields_text(Seq::<(Seq<char>, Seq<char>)>::empty()) =~= Seq::<char>::empty());
    assert(tui_text(message, false, Seq::empty()) =~= message.push(' '));
    assert(tui_text(message, false, es) =~= tui_text(message, false, entries) + field_text(name, debug_quoted(value))
        + seq![' ']);
}

/// The log-file line of a formatted record (not from cargo) is
/// `[LEVEL] module: message `, then each recorded field's `name="value"` text
/// and a space, whatever the number of fields, then a line feed: recording one
/// more field inserts its text just before the line feed. Cargo records and
/// records to pass on as-is are written as their message alone.
pub proof fn law_file_line_lists_every_field(
    message: Seq<char>,
    source: TraceSrc,
    entries: Seq<(Seq<char>, Seq<char>)>,
    level: LogLevel,
    module: Option<Seq<char>>,
    name: Seq<char>,
    value: Seq<char>,
)
    ensures
        source != TraceSrc::Cargo ==> file_line_text(message, source, false, Seq::empty(), level, module)
            == seq!['['] + level_label(level) + seq![']', ' '] + (match module {
            Some(m) => m,
            None => "dx"@,
        }) + seq![':', ' '] + message + seq![' ', '\n'],
        source != TraceSrc::Cargo ==> file_line_text(message, source, false, entries.push((name, value)), level, module)
            == file_line_text(message, source, false, entries, level, module).drop_last() + field_text(
            name,
            debug_quoted(value),
        ) + seq![' ', '\n'],
        source != TraceSrc::Cargo ==> file_line_text(message, source, false, entries, level, module).last() == '\n',
        file_line_text(message, TraceSrc::Cargo, false, entries, level, module) == message,
        file_line_text(message, source, true, entries, level, module) == message,
{
    let es = entries.push((name, value));
    assert(es.drop_last() =~= entries);
    assert(es.last() == (name, value));
    assert(fields_text(Seq::<(Seq<char>, Seq<char>)>::empty()) =~= Seq::<char>::empty());
    if source != TraceSrc::Cargo {
        let prefix = seq!['['] + level_label(level) + seq![']', ' '] + (match module {
            Some(m) => m,
            None => "dx"@,
        }) + seq![':', ' '] + message + seq![' '];
        assert(file_line_text(message, source, false, Seq::empty(), level, module) =~= prefix + seq!['\n']);
        assert(file_line_text(message, source, false, Seq::empty(), level, module) =~= seq!['['] + level_label(level)
            + seq![']', ' '] + (match module {
            Some(m) => m,
            None => "dx"@,
        }) + seq![':', ' '] + message + seq![' ', '\n']);
        let line = file_line_text(message, source, false, entries, level, module);
        assert(line =~= prefix + fields_text(entries) + seq!['\n']);
        assert(line.drop_last() =~= prefix + fields_text(entries));
        assert(file_line_text(message, source, false, es, level, module) =~= line.drop_last() + field_text(
            name,
            debug_quoted(value),
        ) + seq![' ', '\n']);
    }
}

} // verus!
