//! Domain log records: the severity scale, capture timestamps, the field map
//! of a structured diagnostic record, and the verified rendering of a record
//! into the text and color that the log panel shows.

use vstd::prelude::*;
use vstd::string::StringExecFns;
use chrono::{Datelike, Timelike};
use crate::text::{fit_columns, fmt_u64_pad2, fmt_u64_pad4, fmt_u64_pad6, join_with, spec_dec,
    spec_fit, spec_join, spec_pad};

verus! {

/// Severity of a diagnostic record, ordered from least to most severe.
#[derive(Clone, Copy, PartialEq, Eq, Structural, Debug)]
pub enum LogLevel {
    Trace,
    Debug,
    Info,
    Warn,
    Error,
}

impl LogLevel {
    /// Position on the severity scale: `Trace` is lowest, `Error` highest.
    pub open spec fn rank(self) -> int {
        match self {
            LogLevel::Trace => 0,
            LogLevel::Debug => 1,
            LogLevel::Info => 2,
            LogLevel::Warn => 3,
            LogLevel::Error => 4,
        }
    }
}

/// The color the log panel uses for a record of each severity.
#[derive(Clone, Copy, PartialEq, Eq, Structural, Debug)]
pub enum LogColor {
    White,
    Blue,
    Green,
    Yellow,
    Red,
}

/// The five-character severity label of a level.
pub open spec fn spec_label(l: LogLevel) -> Seq<char> {
    match l {
        LogLevel::Trace => "TRACE"@,
        LogLevel::Debug => "DEBUG"@,
        LogLevel::Info => "INFO "@,
        LogLevel::Warn => "WARN "@,
        LogLevel::Error => "ERROR"@,
    }
}

/// Renders a severity as its five-character label.
pub fn label5(l: LogLevel) -> (r: &'static str)
    ensures
        r@ == spec_label(l),
{
    match l {
        LogLevel::Trace => "TRACE",
        LogLevel::Debug => "DEBUG",
        LogLevel::Info => "INFO ",
        LogLevel::Warn => "WARN ",
        LogLevel::Error => "ERROR",
    }
}

/// The color shown for each severity.
pub open spec fn spec_color(l: LogLevel) -> LogColor {
    match l {
        LogLevel::Trace => LogColor::White,
        LogLevel::Debug => LogColor::Blue,
        LogLevel::Info => LogColor::Green,
        LogLevel::Warn => LogColor::Yellow,
        LogLevel::Error => LogColor::Red,
    }
}

/// Picks the display color of a severity.
pub fn level_color(l: LogLevel) -> (c: LogColor)
    ensures
        c == spec_color(l),
{
    match l {
        LogLevel::Trace => LogColor::White,
        LogLevel::Debug => LogColor::Blue,
        LogLevel::Info => LogColor::Green,
        LogLevel::Warn => LogColor::Yellow,
        LogLevel::Error => LogColor::Red,
    }
}

/// A capture timestamp in local civil time, to microsecond resolution.
#[derive(Clone, Copy, PartialEq, Eq, Structural, Debug)]
pub struct Timestamp {
    pub year: i32,
    pub month: u32,
    pub day: u32,
    pub hour: u32,
    pub minute: u32,
    pub second: u32,
    pub micros: u32,
}

impl Timestamp {
    /// Field ranges of a civil timestamp; microseconds may reach the second
    /// leap-second million.
    pub open spec fn wf(self) -> bool {
        &&& 1 <= self.month <= 12
        &&& 1 <= self.day <= 31
        &&& self.hour < 24
        &&& self.minute < 60
        &&& self.second < 60
        &&& self.micros < 2000000
    }
}

/// Relies on `chrono::Local::now` and the `Datelike`/`Timelike` accessors:
/// the month is 1 to 12, the day 1 to 31, hour below 24, minute and second
/// below 60, and the sub-second microseconds below two million (values of one
/// million and above only during a leap second).
#[verifier::external_body]
fn now_local() -> (t: Timestamp)
    ensures
        t.wf(),
{
    let now = chrono::Local::now();
    Timestamp {
        year: now.year(),
        month: now.month(),
        day: now.day(),
        hour: now.hour(),
        minute: now.minute(),
        second: now.second(),
        micros: now.timestamp_subsec_micros(),
    }
}

/// A decimal number zero-padded to at least two digits.
pub open spec fn spec_pad2(n: nat) -> Seq<char> {
    spec_pad(spec_dec(n), 2)
}

/// The rendering of a year: at least four digits, a leading minus sign for
/// years before year zero.
pub open spec fn spec_year(y: int) -> Seq<char> {
    if y < 0 {
        seq!['-'] + spec_pad(spec_dec((-y) as nat), 4)
    } else {
        spec_pad(spec_dec(y as nat), 4)
    }
}

/// The bracketed calendar date of a timestamp: `[year-month-day]`.
pub open spec fn spec_date(t: Timestamp) -> Seq<char> {
    seq!['['] + spec_year(t.year as int) + seq!['-'] + spec_pad2(t.month as nat) + seq!['-']
        + spec_pad2(t.day as nat) + seq![']']
}

/// The bracketed time of day of a timestamp to whole seconds:
/// `[hour:minute:second]`.
pub open spec fn spec_time_secs(t: Timestamp) -> Seq<char> {
    seq!['['] + spec_pad2(t.hour as nat) + seq![':'] + spec_pad2(t.minute as nat) + seq![':']
        + spec_pad2(t.second as nat) + seq![']']
}

/// The bracketed time of day of a timestamp with six fractional digits.
pub open spec fn spec_time_micros(t: Timestamp) -> Seq<char> {
    seq!['['] + spec_pad2(t.hour as nat) + seq![':'] + spec_pad2(t.minute as nat) + seq![':']
        + spec_pad2(t.second as nat) + seq!['.'] + spec_pad(spec_dec(t.micros as nat), 6)
        + seq![']']
}

/// The date and second-resolution time of a timestamp.
pub open spec fn spec_ts_secs(t: Timestamp) -> Seq<char> {
    spec_date(t) + spec_time_secs(t)
}

/// The date and microsecond-resolution time of a timestamp.
pub open spec fn spec_ts_micros(t: Timestamp) -> Seq<char> {
    spec_date(t) + spec_time_micros(t)
}

/// Renders a year, at least four digits, with a sign when negative.
pub fn fmt_year(y: i32) -> (r: String)
    ensures
        r@ == spec_year(y as int),
{
    if y < 0 {
        let wide: i64 = y as i64;
        let mag: u64 = (-wide) as u64;
        proof {
            assert(mag as nat == (-(y as int)) as nat);
        }
        let mut s = String::new();
        s.push('-');
        let digits = fmt_u64_pad4(mag);
        s.append(digits.as_str());
        proof {
            assert(s@ =~= spec_year(y as int));
        }
        s
    } else {
        fmt_u64_pad4(y as u64)
    }
}

/// Renders the bracketed date of a timestamp.
pub fn fmt_date(t: Timestamp) -> (r: String)
    ensures
        r@ == spec_date(t),
{
    let mut s = String::new();
    s.push('[');
    let y = fmt_year(t.year);
    s.append(y.as_str());
    s.push('-');
    let m = fmt_u64_pad2(t.month as u64);
    s.append(m.as_str());
    s.push('-');
    let d = fmt_u64_pad2(t.day as u64);
    s.append(d.as_str());
    s.push(']');
    proof {
        assert(s@ =~= spec_date(t));
    }
    s
}

/// Renders the date and time of a timestamp to whole seconds.
pub fn fmt_ts_secs(t: Timestamp) -> (r: String)
    ensures
        r@ == spec_ts_secs(t),
{
    let mut s = fmt_date(t);
    s.push('[');
    let h = fmt_u64_pad2(t.hour as u64);
    s.append(h.as_str());
    s.push(':');
    let mi = fmt_u64_pad2(t.minute as u64);
    s.append(mi.as_str());
    s.push(':');
    let sec = fmt_u64_pad2(t.second as u64);
    s.append(sec.as_str());
    s.push(']');
    proof {
        assert(s@ =~= spec_ts_secs(t));
    }
    s
}

/// Renders the date and time of a timestamp with six fractional digits.
pub fn fmt_ts_micros(t: Timestamp) -> (r: String)
    ensures
        r@ == spec_ts_micros(t),
{
    let mut s = fmt_date(t);
    s.push('[');
    let h = fmt_u64_pad2(t.hour as u64);
    s.append(h.as_str());
    s.push(':');
    let mi = fmt_u64_pad2(t.minute as u64);
    s.append(mi.as_str());
    s.push(':');
    let sec = fmt_u64_pad2(t.second as u64);
    s.append(sec.as_str());
    s.push('.');
    let us = fmt_u64_pad6(t.micros as u64);
    s.append(us.as_str());
    s.push(']');
    proof {
        assert(s@ =~= spec_ts_micros(t));
    }
    s
}

/// The chain of logical spans enclosing a record at capture time, already
/// joined into one colon-separated scope string.
#[derive(Clone, Debug)]
pub struct LogSpan {
    pub scope: String,
}

impl LogSpan {
    /// Builds the scope from the enclosing span names, outermost last,
    /// joined with colons.
    pub fn from_names(names: &Vec<String>) -> (r: LogSpan)
        ensures
            r.scope@ == spec_join(names@.map_values(|s: String| s@), ":"@),
    {
        LogSpan { scope: join_with(names, ":") }
    }
}

/// The views of the field names and values of a record, in insertion order.
pub open spec fn fields_model(fields: Seq<(String, String)>) -> Seq<(Seq<char>, Seq<char>)> {
    fields.map_values(|kv: (String, String)| (kv.0@, kv.1@))
}

/// Whether a field name is present in the model.
pub open spec fn spec_has_key(m: Seq<(Seq<char>, Seq<char>)>, k: Seq<char>) -> bool {
    exists|i: int| 0 <= i < m.len() && m[i].0 == k
}

/// The field map after recording `k = v`: replaces the value of an existing
/// name, appends a new name at the end.
pub open spec fn spec_record(
    m: Seq<(Seq<char>, Seq<char>)>,
    k: Seq<char>,
    v: Seq<char>,
) -> Seq<(Seq<char>, Seq<char>)> {
    if spec_has_key(m, k) {
        m.update(choose|i: int| 0 <= i < m.len() && m[i].0 == k, (k, v))
    } else {
        m.push((k, v))
    }
}

/// The rendering of one field as `"name": "value"`.
pub open spec fn spec_field_entry(kv: (Seq<char>, Seq<char>)) -> Seq<char> {
    seq!['"'] + kv.0 + seq!['"', ':', ' ', '"'] + kv.1 + seq!['"']
}

/// The rendering of a whole field map, brace-enclosed, comma-separated, in
/// insertion order.
pub open spec fn spec_fields_render(m: Seq<(Seq<char>, Seq<char>)>) -> Seq<char> {
    seq!['{'] + spec_join(m.map_values(|kv: (Seq<char>, Seq<char>)| spec_field_entry(kv)),
        seq![',', ' ']) + seq!['}']
}

/// Renders a field map as `{"name": "value", ...}` in insertion order.
pub fn render_fields(fields: &Vec<(String, String)>) -> (r: String)
    ensures
        r@ == spec_fields_render(fields_model(fields@)),
{
    let ghost model = fields_model(fields@);
    let ghost entries = model.map_values(|kv: (Seq<char>, Seq<char>)| spec_field_entry(kv));
    let mut s = String::new();
    s.push('{');
    let mut i: usize = 0;
    while i < fields.len()
        invariant
            i <= fields.len(),
            model == fields_model(fields@),
            entries == model.map_values(|kv: (Seq<char>, Seq<char>)| spec_field_entry(kv)),
            model.len() == fields@.len(),
            entries.len() == fields@.len(),
            s@ == seq!['{'] + spec_join(entries.take(i as int), seq![',', ' ']),
        decreases fields.len() - i,
    {
        if i > 0 {
            s.push(',');
            s.push(' ');
        }
        s.push('"');
        s.append(fields[i].0.as_str());
        s.push('"');
        s.push(':');
        s.push(' ');
        s.push('"');
        s.append(fields[i].1.as_str());
        s.push('"');
        proof {
            assert(entries.take(i + 1 as int).drop_last() =~= entries.take(i as int));
            assert(entries[i as int] == spec_field_entry(model[i as int]));
            assert(model[i as int] == (fields@[i as int].0@, fields@[i as int].1@));
            assert(s@ =~= seq!['{'] + spec_join(entries.take(i + 1 as int), seq![',', ' ']));
        }
        i = i + 1;
    }
    s.push('}');
    proof {
        assert(entries.take(fields@.len() as int) =~= entries);
        assert(s@ =~= spec_fields_render(model));
    }
    s
}

/// One captured diagnostic record: immutable once constructed, appended to
/// the log buffer and only ever read afterwards.
#[derive(Clone, Debug)]
pub struct LogEvent {
    pub level: LogLevel,
    pub target: String,
    pub name: String,
    pub fields: Vec<(String, String)>,
    pub timestamp: Timestamp,
    pub span: Option<LogSpan>,
}

/// One rendered log-panel line: the textual pieces of a record and the
/// severity color applied to the level piece.
#[derive(Clone, Debug)]
pub struct LogLine {
    pub timestamp: String,
    pub level: String,
    pub color: LogColor,
    pub scope: String,
    pub fields: String,
}

impl LogEvent {
    /// Field names are unique within one record.
    pub open spec fn fields_wf(self) -> bool {
        forall|i: int, j: int|
            0 <= i < self.fields@.len() && 0 <= j < self.fields@.len() && i != j
                ==> self.fields@[i].0@ != self.fields@[j].0@
    }

    /// A well-formed record: unique field names and a valid timestamp.
    pub open spec fn wf(self) -> bool {
        self.fields_wf() && self.timestamp.wf()
    }

    /// The scope column of a record: the target, extended with the span
    /// scope when the record was captured inside one.
    pub open spec fn spec_scope(self) -> Seq<char> {
        match self.span {
            Some(sp) => self.target@ + seq![':'] + sp.scope@,
            None => self.target@,
        }
    }

    /// Captures a record now: level, target and name as given, no fields and
    /// no span yet, the timestamp taken at construction time.
    pub fn new(level: LogLevel, target: String, name: String) -> (r: LogEvent)
        ensures
            r.level == level,
            r.target == target,
            r.name == name,
            r.fields@.len() == 0,
            r.span is None,
            r.wf(),
    {
        LogEvent {
            level,
            target,
            name,
            fields: Vec::new(),
            timestamp: now_local(),
            span: None,
        }
    }

    /// Records one field of the diagnostic record: replaces the value of an
    /// already-recorded name, otherwise appends the pair.
    pub fn record_field(&mut self, key: String, value: String)
        requires
            old(self).fields_wf(),
        ensures
            fields_model(final(self).fields@) == spec_record(
                fields_model(old(self).fields@),
                key@,
                value@,
            ),
            final(self).fields_wf(),
            final(self).level == old(self).level,
            final(self).target == old(self).target,
            final(self).name == old(self).name,
            final(self).timestamp == old(self).timestamp,
            final(self).span == old(self).span,
    {
        let ghost m0 = fields_model(old(self).fields@);
        let mut i: usize = 0;
        while i < self.fields.len()
            invariant
                *self == *old(self),
                old(self).fields_wf(),
                i <= self.fields@.len(),
                m0 == fields_model(old(self).fields@),
                forall|j: int| 0 <= j < i ==> m0[j].0 != key@,
            decreases self.fields@.len() - i,
        {
            proof {
                assert(m0[i as int] == (old(self).fields@[i as int].0@,
                    old(self).fields@[i as int].1@));
            }
            if self.fields[i].0 == key {
                proof {
                    assert(m0[i as int].0 == key@);
                    assert(spec_has_key(m0, key@));
                    let ci = choose|c: int| 0 <= c < m0.len() && m0[c].0 == key@;
                    assert(m0[ci] == (old(self).fields@[ci].0@, old(self).fields@[ci].1@));
                    if ci != i as int {
                        assert(old(self).fields@[ci].0@ != old(self).fields@[i as int].0@);
                        assert(false);
                    }
                }
                self.fields[i] = (key, value);
                proof {
                    let m1 = fields_model(self.fields@);
                    assert forall|a: int| 0 <= a < m1.len() implies m1[a] == spec_record(
                        m0,
                        key@,
                        value@,
                    )[a] by {
                        assert(m1[a] == (self.fields@[a].0@, self.fields@[a].1@));
                        assert(m0[a] == (old(self).fields@[a].0@, old(self).fields@[a].1@));
                    }
                    assert(m1 =~= spec_record(m0, key@, value@));
                    assert forall|a: int, b: int|
                        0 <= a < self.fields@.len() && 0 <= b < self.fields@.len() && a != b
                        implies self.fields@[a].0@ != self.fields@[b].0@ by {
                        assert(m0[a] == (old(self).fields@[a].0@, old(self).fields@[a].1@));
                        assert(m0[b] == (old(self).fields@[b].0@, old(self).fields@[b].1@));
                    }
                }
                return ;
            }
            i = i + 1;
        }
        proof {
            assert forall|c: int| 0 <= c < m0.len() implies m0[c].0 != key@ by {}
            assert(!spec_has_key(m0, key@));
        }
        self.fields.push((key, value));
        proof {
            let m1 = fields_model(self.fields@);
            assert forall|a: int| 0 <= a < m1.len() implies m1[a] == spec_record(
                m0,
                key@,
                value@,
            )[a] by {
                assert(m1[a] == (self.fields@[a].0@, self.fields@[a].1@));
                if a < m0.len() {
                    assert(m0[a] == (old(self).fields@[a].0@, old(self).fields@[a].1@));
                }
            }
            assert(m1 =~= spec_record(m0, key@, value@));
            assert forall|a: int, b: int|
                0 <= a < self.fields@.len() && 0 <= b < self.fields@.len() && a != b
                implies self.fields@[a].0@ != self.fields@[b].0@ by {
                let n = old(self).fields@.len() as int;
                if a < n && b < n {
                    assert(old(self).fields@[a].0@ != old(self).fields@[b].0@);
                } else if a == n {
                    assert(m0[b].0 == old(self).fields@[b].0@);
                    assert(m0[b].0 != key@);
                } else {
                    assert(m0[a].0 == old(self).fields@[a].0@);
                    assert(m0[a].0 != key@);
                }
            }
        }
    }

    /// Attaches the span scope active when the record was captured.
    pub fn with_span(self, span: LogSpan) -> (r: Self)
        ensures
            r.level == self.level,
            r.target == self.target,
            r.name == self.name,
            r.fields == self.fields,
            r.timestamp == self.timestamp,
            r.span == Some(span),
    {
        LogEvent { span: Some(span), ..self }
    }

    /// Renders the scope column.
    pub fn scope_string(&self) -> (r: String)
        ensures
            r@ == self.spec_scope(),
    {
        match &self.span {
            Some(sp) => {
                let mut s = self.target.clone();
                s.push(':');
                s.append(sp.scope.as_str());
                proof {
                    assert(s@ =~= self.spec_scope());
                }
                s
            },
            None => self.target.clone(),
        }
    }

    /// Renders the record as one plain text line: second-resolution
    /// timestamp, the five-character severity label, the scope fitted to a
    /// thirty-character column, and the field map, separated by single
    /// spaces.
    pub fn fmt_line(&self) -> (r: String)
        ensures
            r@ == spec_ts_secs(self.timestamp) + seq![' '] + spec_label(self.level) + seq![' ']
                + spec_fit(self.spec_scope(), 30) + seq![' '] + spec_fields_render(
                fields_model(self.fields@),
            ),
    {
        let mut s = fmt_ts_secs(self.timestamp);
        s.push(' ');
        s.append(label5(self.level));
        s.push(' ');
        let scope = self.scope_string();
        let fitted = fit_columns(scope.as_str(), 30);
        s.append(fitted.as_str());
        s.push(' ');
        let fields = render_fields(&self.fields);
        s.append(fields.as_str());
        proof {
            assert(s@ =~= spec_ts_secs(self.timestamp) + seq![' '] + spec_label(self.level)
                + seq![' '] + spec_fit(self.spec_scope(), 30) + seq![' ']
                + spec_fields_render(fields_model(self.fields@)));
        }
        s
    }

    /// Renders the record as the pieces of one log-panel line: the
    /// microsecond timestamp, the space-framed severity label colored by
    /// severity, the scope, and the space-prefixed field map.
    pub fn line(&self) -> (r: LogLine)
        ensures
            r.timestamp@ == spec_ts_micros(self.timestamp),
            r.level@ == seq![' '] + spec_label(self.level) + seq![' '],
            r.color == spec_color(self.level),
            r.scope@ == self.spec_scope(),
            r.fields@ == seq![' '] + spec_fields_render(fields_model(self.fields@)),
    {
        let timestamp = fmt_ts_micros(self.timestamp);
        let mut level = String::new();
        level.push(' ');
        level.append(label5(self.level));
        level.push(' ');
        let mut fields = String::new();
        fields.push(' ');
        let rendered = render_fields(&self.fields);
        fields.append(rendered.as_str());
        proof {
            assert(level@ =~= seq![' '] + spec_label(self.level) + seq![' ']);
            assert(fields@ =~= seq![' '] + spec_fields_render(fields_model(self.fields@)));
        }
        LogLine {
            timestamp,
            level,
            color: level_color(self.level),
            scope: self.scope_string(),
            fields,
        }
    }
}

} // verus!
