//! The record that the `log` backend writes for each log call: its
//! metadata, the message and the key-value pairs attached to it. Each
//! encoded record is framed behind a 4-byte length.

use vstd::prelude::*;
use crate::record::{Level, level_number};
use crate::proto::{Field, FieldView, field_views};
use crate::text::{bool_text, bool_to_string, decimal, i128_to_string, owned, signed_decimal, string_push, u128_to_string};
use crate::frame::{frame32, frame_u32};

verus! {

/// The local time in RFC 3339 notation, as `chrono`'s
/// `Local::now().to_rfc3339()` gives it. It depends on the clock, so
/// nothing is said of it.
#[verifier::external_body]
fn local_rfc3339() -> (res: String) {
    chrono::Local::now().to_rfc3339()
}

/// The severity of a log call, ordered as the `log` crate orders its
/// levels: `Error` is the most severe and the smallest.
#[derive(Clone, Copy, Debug, PartialEq, Eq, Structural)]
pub enum LogLevel {
    Error,
    Warn,
    Info,
    Debug,
    Trace,
}

/// The rank of a level in the `log` crate's order (1 for `Error`).
pub open spec fn log_rank(l: LogLevel) -> int {
    match l {
        LogLevel::Error => 1,
        LogLevel::Warn => 2,
        LogLevel::Info => 3,
        LogLevel::Debug => 4,
        LogLevel::Trace => 5,
    }
}

/// The record level a log call is stored with.
pub open spec fn record_level(l: LogLevel) -> Level {
    match l {
        LogLevel::Error => Level::Error,
        LogLevel::Warn => Level::Warn,
        LogLevel::Info => Level::Info,
        LogLevel::Debug => Level::Debug,
        LogLevel::Trace => Level::Trace,
    }
}

impl LogLevel {
    /// The rank of this level (1 for `Error`, 5 for `Trace`).
    pub fn rank(&self) -> (res: u8)
        ensures
            res == log_rank(*self),
    {
        match self {
            LogLevel::Error => 1,
            LogLevel::Warn => 2,
            LogLevel::Info => 3,
            LogLevel::Debug => 4,
            LogLevel::Trace => 5,
        }
    }

    /// Whether a logger set to this level writes a call of level
    /// `level`: it does when the call is at least as severe.
    pub fn enabled(&self, level: LogLevel) -> (res: bool)
        ensures
            res == (log_rank(*self) >= log_rank(level)),
    {
        self.rank() >= level.rank()
    }
}

impl From<LogLevel> for Level {
    fn from(value: LogLevel) -> (res: Level) {
        match value {
            LogLevel::Error => Level::Error,
            LogLevel::Warn => Level::Warn,
            LogLevel::Info => Level::Info,
            LogLevel::Debug => Level::Debug,
            LogLevel::Trace => Level::Trace,
        }
    }
}

impl vstd::std_specs::convert::FromSpecImpl<LogLevel> for Level {
    open spec fn obeys_from_spec() -> bool {
        true
    }

    open spec fn from_spec(v: LogLevel) -> Level {
        record_level(v)
    }
}

/// The kind of a key-value field, numbered as fields of a `tracing`
/// record are: boolean, integer, float, text.
#[derive(Clone, Copy, Debug, PartialEq, Eq, Structural)]
pub enum Kind {
    B,
    I,
    F,
    S,
}

/// The number a kind is stored as.
pub open spec fn kind_value(k: Kind) -> i32 {
    match k {
        Kind::B => 0,
        Kind::I => 1,
        Kind::F => 2,
        Kind::S => 3,
    }
}

impl Kind {
    /// The number this kind is stored as.
    pub fn value(&self) -> (res: i32)
        ensures
            res == kind_value(*self),
    {
        match self {
            Kind::B => 0,
            Kind::I => 1,
            Kind::F => 2,
            Kind::S => 3,
        }
    }
}

/// A value attached to a log call, as the `log` crate hands it over.
/// A float comes as the text it displays as; any other value as the
/// text of its `Display`.
pub enum KvValue {
    Null,
    U64(u64),
    I64(i64),
    U128(u128),
    I128(i128),
    Float(String),
    Bool(bool),
    Str(String),
    Char(char),
    Other(String),
}

/// The kind and text a value is stored with.
pub open spec fn kv_field(v: KvValue) -> (i32, Seq<char>) {
    match v {
        KvValue::Null => (kind_value(Kind::S), seq!['N', 'o', 'n', 'e']),
        KvValue::U64(n) => (kind_value(Kind::I), decimal(n as nat)),
        KvValue::I64(n) => (kind_value(Kind::I), signed_decimal(n as int)),
        KvValue::U128(n) => (kind_value(Kind::I), decimal(n as nat)),
        KvValue::I128(n) => (kind_value(Kind::I), signed_decimal(n as int)),
        KvValue::Float(t) => (kind_value(Kind::F), t@),
        KvValue::Bool(b) => (kind_value(Kind::B), bool_text(b)),
        KvValue::Str(t) => (kind_value(Kind::S), t@),
        KvValue::Char(c) => (kind_value(Kind::S), seq![c]),
        KvValue::Other(t) => (kind_value(Kind::S), t@),
    }
}

impl Field {
    /// Stores a value in this field: its text and its kind.
    pub fn visit(&mut self, value: KvValue)
        ensures
            (final(self).kind, final(self).val@) == kv_field(value),
            final(self).key == old(self).key,
    {
        match value {
            KvValue::Null => {
                proof { reveal_strlit("None"); }
                self.val = owned("None");
                self.kind = Kind::S.value();
            },
            KvValue::U64(n) => {
                self.val = u128_to_string(n as u128);
                self.kind = Kind::I.value();
            },
            KvValue::I64(n) => {
                self.val = i128_to_string(n as i128);
                self.kind = Kind::I.value();
            },
            KvValue::U128(n) => {
                self.val = u128_to_string(n);
                self.kind = Kind::I.value();
            },
            KvValue::I128(n) => {
                self.val = i128_to_string(n);
                self.kind = Kind::I.value();
            },
            KvValue::Float(t) => {
                self.val = t;
                self.kind = Kind::F.value();
            },
            KvValue::Bool(b) => {
                self.val = bool_to_string(b);
                self.kind = Kind::B.value();
            },
            KvValue::Str(t) => {
                self.val = t;
                self.kind = Kind::S.value();
            },
            KvValue::Char(c) => {
                let mut t = String::new();
                string_push(&mut t, c);
                assert(t@ =~= seq![c]);
                self.val = t;
                self.kind = Kind::S.value();
            },
            KvValue::Other(t) => {
                self.val = t;
                self.kind = Kind::S.value();
            },
        }
    }
}

/// The record written for one log call.
pub struct Record {
    pub timestamp: String,
    /// The level, stored as its number.
    pub level: i32,
    pub thread_name: String,
    pub file: String,
    pub line: u32,
    pub msg: String,
    pub fields: Vec<Field>,
}

impl Record {
    /// An empty record.
    pub fn new() -> (res: Record)
        ensures
            res.timestamp@.len() == 0,
            res.level == 0,
            res.thread_name@.len() == 0,
            res.file@.len() == 0,
            res.line == 0,
            res.msg@.len() == 0,
            res.fields@.len() == 0,
    {
        Record {
            timestamp: String::new(),
            level: 0,
            thread_name: String::new(),
            file: String::new(),
            line: 0,
            msg: String::new(),
            fields: Vec::new(),
        }
    }

    /// Appends one key-value pair of the log call.
    pub fn visit_pair(&mut self, key: &str, value: KvValue)
        ensures
            field_views(final(self).fields@) == field_views(old(self).fields@).push(
                (kv_field(value).0, key@, kv_field(value).1),
            ),
            final(self).msg == old(self).msg,
            final(self).level == old(self).level,
    {
        let mut field = Field { kind: 0, key: owned(key), val: String::new() };
        field.visit(value);
        let ghost prev = self.fields@;
        self.fields.push(field);
        assert(field_views(self.fields@) =~= field_views(prev).push(field@));
    }

    /// Fills the record from a log call: the time, its level, the
    /// thread name when the thread has one, the source file and line when
    /// known, and its message.
    pub fn fill(
        &mut self,
        level: LogLevel,
        thread_name: Option<&str>,
        file: Option<&str>,
        line: Option<u32>,
        msg: String,
    )
        ensures
            final(self).level == level_number(record_level(level)),
            final(self).thread_name@ == match thread_name {
                Some(n) => n@,
                None => old(self).thread_name@,
            },
            final(self).file@ == match file {
                Some(f) => f@,
                None => old(self).file@,
            },
            final(self).line == match line {
                Some(v) => v,
                None => old(self).line,
            },
            final(self).msg@ == msg@,
            final(self).fields == old(self).fields,
    {
        self.timestamp = local_rfc3339();
        let l = Level::from(level);
        self.level = l.number();
        if let Some(n) = thread_name {
            self.thread_name = owned(n);
        }
        if let Some(f) = file {
            self.file = owned(f);
        }
        if let Some(v) = line {
            self.line = v;
        }
        self.msg = msg;
    }
}

/// The bytes written for one encoded record: its 4-byte big-endian
/// length, then the record.
pub fn frame_record(encoded: &[u8]) -> (res: Vec<u8>)
    ensures
        res@ == frame32(encoded@),
{
    frame_u32(encoded)
}

/// The capacity of the queue between loggers and the writer thread:
/// the one asked for, 4096 by default.
pub fn queue_capacity(cap: Option<usize>) -> (res: usize)
    ensures
        res == match cap {
            Some(c) => c,
            None => 4096,
        },
{
    match cap {
        Some(c) => c,
        None => 4096,
    }
}

/// The logger that writes records as plain text lines to standard output.
pub struct Stdout;

/// A logger lets a record through exactly when the record is at least as
/// severe as the logger's level, severity counted as the record format
/// numbers the levels (`TRACE` 0 up to `ERROR` 4).
pub proof fn lemma_enabled_by_severity(logger: LogLevel, record: LogLevel)
    ensures
        (log_rank(logger) >= log_rank(record)) == (level_number(record_level(record)) >= level_number(
            record_level(logger),
        )),
{
}

/// A text value is stored as its own text: a string, a character or a
/// value shown by its own text is kept character for character, with
/// nothing added around it, as a text field (kind 3); the same text stores
/// alike whichever way it came.
pub proof fn lemma_text_values_kept(t: String, c: char)
    ensures
        kv_field(KvValue::Str(t)).1 == t@,
        kv_field(KvValue::Str(t)).1.len() == t@.len(),
        kv_field(KvValue::Str(t)).0 == 3,
        kv_field(KvValue::Other(t)) == kv_field(KvValue::Str(t)),
        kv_field(KvValue::Char(c)).1 == seq![c],
        kv_field(KvValue::Char(c)).0 == 3,
        kv_field(KvValue::Float(t)).1 == t@,
        kv_field(KvValue::Float(t)).0 == 2,
{
}

} // verus!
