//! The record that the `tracing` layer fills for each event: metadata,
//! the event with its fields, and the spans it was recorded in. The
//! layer frames each encoded record behind an 8-byte length.

use vstd::prelude::*;
use std::marker::PhantomData;
use crate::record::{Level, level_name, level_number, named_level};
use crate::text::{bool_text, bool_to_string, decimal, i128_to_string, owned, signed_decimal, u128_to_string};
use crate::frame::{frame64, frame_u64};

verus! {

/// Whether `s` has the shape of an RFC 3339 time with a numeric offset:
/// at least 25 characters (a date, `T`, a time of day, then the offset),
/// ending in the offset `+HH:MM` or `-HH:MM`.
pub open spec fn rfc3339_text(s: Seq<char>) -> bool {
    let n = s.len() as int;
    &&& n >= 25
    &&& (s[n - 6] == '+' || s[n - 6] == '-')
    &&& '0' <= s[n - 5] <= '9'
    &&& '0' <= s[n - 4] <= '9'
    &&& s[n - 3] == ':'
    &&& '0' <= s[n - 2] <= '9'
    &&& '0' <= s[n - 1] <= '9'
}

/// The local time in RFC 3339 notation, as `chrono` formats
/// `Local::now()` with the `RFC3339` item: the date and time of day (a
/// four-digit year, or a signed one outside 0..=9999, two digits for each
/// other part, a fraction of a
/// second when there is one) and the offset from UTC written `+HH:MM` or
/// `-HH:MM`, never `Z`. Which time it is depends on the clock, so only
/// the shape of the text is stated.
#[verifier::external_body]
fn local_timestamp() -> (res: String)
    ensures
        rfc3339_text(res@),
{
    chrono::Local::now().format_with_items(core::iter::once(
        chrono::format::Item::Fixed(chrono::format::Fixed::RFC3339),
    )).to_string()
}

/// One recorded field: its kind (0 bool, 1 integer, 2 float, 3 text),
/// its name and its value as text.
pub struct Field {
    pub kind: i32,
    pub key: String,
    pub val: String,
}

/// A field by its parts.
pub type FieldView = (i32, Seq<char>, Seq<char>);

impl View for Field {
    type V = FieldView;

    open spec fn view(&self) -> FieldView {
        (self.kind, self.key@, self.val@)
    }
}

/// The parts of each field of a list.
pub open spec fn field_views(s: Seq<Field>) -> Seq<FieldView> {
    s.map_values(|f: Field| f@)
}

impl Field {
    /// An equal, separately owned field.
    pub fn duplicate(&self) -> (res: Field)
        ensures
            res@ == self@,
    {
        Field { kind: self.kind, key: self.key.clone(), val: self.val.clone() }
    }
}

/// Fields collected from a span or an event.
pub struct Fields {
    pub inner: Vec<Field>,
}

/// Fields kept for a span across threads; starts empty.
pub fn create_sync_fields() -> (res: Box<Fields>)
    ensures
        res.inner@.len() == 0,
{
    Box::new(Fields::new())
}

impl Fields {
    /// No fields.
    pub fn new() -> (res: Fields)
        ensures
            res.inner@.len() == 0,
    {
        Fields { inner: Vec::new() }
    }

    /// Appends a field of the given kind.
    pub fn add_field(&mut self, kind: i32, key: &str, val: String)
        ensures
            field_views(final(self).inner@) == field_views(old(self).inner@).push((kind, key@, val@)),
    {
        let f = Field { kind, key: owned(key), val };
        self.inner.push(f);
        assert(field_views(self.inner@) =~= field_views(old(self).inner@).push((kind, key@, val@)));
    }

    /// Hands out the fields, leaving none behind.
    pub fn take(&mut self) -> (res: Vec<Field>)
        ensures
            res@ == old(self).inner@,
            final(self).inner@.len() == 0,
    {
        let mut out: Vec<Field> = Vec::new();
        std::mem::swap(&mut out, &mut self.inner);
        out
    }

    /// A copy of the fields, leaving them in place.
    pub fn inner(&self) -> (res: Vec<Field>)
        ensures
            field_views(res@) == field_views(self.inner@),
    {
        let mut out: Vec<Field> = Vec::new();
        let mut k: usize = 0;
        while k < self.inner.len()
            invariant
                k <= self.inner@.len(),
                field_views(out@) == field_views(self.inner@.take(k as int)),
            decreases self.inner@.len() - k,
        {
            let ghost prev = out@;
            let d = self.inner[k].duplicate();
            out.push(d);
            assert(field_views(out@) =~= field_views(prev).push(d@));
            assert(self.inner@.take(k + 1) =~= self.inner@.take(k as int).push(self.inner@[k as int]));
            assert(field_views(self.inner@.take(k + 1)) =~= field_views(self.inner@.take(k as int)).push(
                self.inner@[k as int]@,
            ));
            k = k + 1;
        }
        assert(self.inner@.take(k as int) =~= self.inner@);
        out
    }

    /// Records a signed integer field.
    pub fn record_i64(&mut self, name: &str, value: i64)
        ensures
            field_views(final(self).inner@) == field_views(old(self).inner@).push(
                (1, name@, signed_decimal(value as int)),
            ),
    {
        self.add_field(1, name, i128_to_string(value as i128));
    }

    /// Records an unsigned integer field.
    pub fn record_u64(&mut self, name: &str, value: u64)
        ensures
            field_views(final(self).inner@) == field_views(old(self).inner@).push(
                (1, name@, decimal(value as nat)),
            ),
    {
        self.add_field(1, name, u128_to_string(value as u128));
    }

    /// Records a boolean field.
    pub fn record_bool(&mut self, name: &str, value: bool)
        ensures
            field_views(final(self).inner@) == field_views(old(self).inner@).push(
                (0, name@, bool_text(value)),
            ),
    {
        self.add_field(0, name, bool_to_string(value));
    }

    /// Records a text field.
    pub fn record_str(&mut self, name: &str, value: &str)
        ensures
            field_views(final(self).inner@) == field_views(old(self).inner@).push((3, name@, value@)),
    {
        self.add_field(3, name, owned(value));
    }
}

/// A span or an event: its name and its fields.
pub struct Meta {
    pub name: String,
    pub fields: Vec<Field>,
}

impl Meta {
    /// A span or event of the given name, with no fields yet.
    pub fn new(name: &str) -> (res: Meta)
        ensures
            res.name@ == name@,
            res.fields@.len() == 0,
    {
        Meta { name: owned(name), fields: Vec::new() }
    }
}

/// The record written for one event.
pub struct Record {
    pub timestamp: String,
    /// The level, stored as its number.
    pub level: i32,
    pub thread_name: String,
    pub file: String,
    pub line: u32,
    pub spans: Vec<Meta>,
    pub event: Option<Meta>,
}

/// `new` equals `old` except, possibly, in the fields listed as changing.
pub open spec fn same_spans_and_event(old: Record, new: Record) -> bool {
    &&& new.spans == old.spans
    &&& new.event == old.event
}

impl Record {
    /// An empty record.
    pub fn new() -> (res: Record)
        ensures
            res.timestamp@.len() == 0,
            res.level == 0,
            res.thread_name@.len() == 0,
            res.file@.len() == 0,
            res.line == 0,
            res.spans@.len() == 0,
            res.event is None,
    {
        Record {
            timestamp: String::new(),
            level: 0,
            thread_name: String::new(),
            file: String::new(),
            line: 0,
            spans: Vec::new(),
            event: None,
        }
    }

    /// Stamps the record with the current local time, in RFC 3339
    /// notation with a numeric offset.
    pub fn format_timestamp(&mut self)
        ensures
            rfc3339_text(final(self).timestamp@),
            final(self).level == old(self).level,
            final(self).thread_name == old(self).thread_name,
            final(self).file == old(self).file,
            final(self).line == old(self).line,
            same_spans_and_event(*old(self), *final(self)),
    {
        self.timestamp = local_timestamp();
    }

    /// Sets the level from its name; an unknown name leaves the level as
    /// it was.
    pub fn format_level(&mut self, level: &str)
        ensures
            final(self).level == match named_level(level@) {
                Some(l) => level_number(l),
                None => old(self).level,
            },
            final(self).timestamp == old(self).timestamp,
            final(self).thread_name == old(self).thread_name,
            final(self).file == old(self).file,
            final(self).line == old(self).line,
            same_spans_and_event(*old(self), *final(self)),
    {
        match Level::from_str_name(level) {
            Some(l) => {
                self.level = l.number();
            },
            None => {},
        }
    }

    /// Records the thread name, when the thread has one.
    pub fn format_thread_name(&mut self, name: Option<&str>)
        ensures
            final(self).thread_name@ == match name {
                Some(n) => n@,
                None => old(self).thread_name@,
            },
            final(self).timestamp == old(self).timestamp,
            final(self).level == old(self).level,
            final(self).file == old(self).file,
            final(self).line == old(self).line,
            same_spans_and_event(*old(self), *final(self)),
    {
        if let Some(n) = name {
            self.thread_name = owned(n);
        }
    }

    /// Records the source file, when known.
    pub fn format_file(&mut self, file: Option<&str>)
        ensures
            final(self).file@ == match file {
                Some(f) => f@,
                None => old(self).file@,
            },
            final(self).timestamp == old(self).timestamp,
            final(self).level == old(self).level,
            final(self).thread_name == old(self).thread_name,
            final(self).line == old(self).line,
            same_spans_and_event(*old(self), *final(self)),
    {
        if let Some(f) = file {
            self.file = owned(f);
        }
    }

    /// Records the source line, when known.
    pub fn format_line(&mut self, line: Option<u32>)
        ensures
            final(self).line == match line {
                Some(v) => v,
                None => old(self).line,
            },
            final(self).timestamp == old(self).timestamp,
            final(self).level == old(self).level,
            final(self).thread_name == old(self).thread_name,
            final(self).file == old(self).file,
            same_spans_and_event(*old(self), *final(self)),
    {
        if let Some(v) = line {
            self.line = v;
        }
    }

    /// Records the metadata of an event: the time, the level by name, the
    /// source file and line when known.
    pub fn format_metadata(&mut self, level: &str, file: Option<&str>, line: Option<u32>)
        ensures
            final(self).level == match named_level(level@) {
                Some(l) => level_number(l),
                None => old(self).level,
            },
            final(self).file@ == match file {
                Some(f) => f@,
                None => old(self).file@,
            },
            final(self).line == match line {
                Some(v) => v,
                None => old(self).line,
            },
            final(self).thread_name == old(self).thread_name,
            same_spans_and_event(*old(self), *final(self)),
            rfc3339_text(final(self).timestamp@),
    {
        self.format_timestamp();
        self.format_level(level);
        self.format_file(file);
        self.format_line(line);
    }

    /// Records the event itself: its name and the fields collected from it.
    pub fn format_event(&mut self, name: &str, fields: Fields)
        ensures
            final(self).event matches Some(m) && m.name@ == name@ && m.fields@ == fields.inner@,
            final(self).timestamp == old(self).timestamp,
            final(self).level == old(self).level,
            final(self).thread_name == old(self).thread_name,
            final(self).file == old(self).file,
            final(self).line == old(self).line,
            final(self).spans == old(self).spans,
    {
        let mut fields = fields;
        let mut meta = Meta::new(name);
        meta.fields = fields.take();
        self.event = Some(meta);
    }

    /// Appends a span the event was recorded in (outermost first).
    pub fn push_span(&mut self, span: Meta)
        ensures
            final(self).spans@ == old(self).spans@.push(span),
            final(self).event == old(self).event,
            final(self).timestamp == old(self).timestamp,
            final(self).level == old(self).level,
            final(self).thread_name == old(self).thread_name,
            final(self).file == old(self).file,
            final(self).line == old(self).line,
    {
        self.spans.push(span);
    }
}

/// The record written for one event: stamped now, with the event's
/// level (by name; an unknown name keeps level 0), the current thread's
/// name, the source file and line when known, the event itself, and the
/// spans it was recorded in, outermost first.
pub fn event_record(
    level: &str,
    thread_name: Option<&str>,
    file: Option<&str>,
    line: Option<u32>,
    name: &str,
    fields: Fields,
    spans: Vec<Meta>,
) -> (res: Record)
    ensures
        res.level == match named_level(level@) {
            Some(l) => level_number(l),
            None => 0,
        },
        res.thread_name@ == match thread_name {
            Some(n) => n@,
            None => Seq::<char>::empty(),
        },
        res.file@ == match file {
            Some(f) => f@,
            None => Seq::<char>::empty(),
        },
        res.line == match line {
            Some(v) => v,
            None => 0,
        },
        res.event matches Some(m) && m.name@ == name@ && m.fields@ == fields.inner@,
        res.spans@ == spans@,
        rfc3339_text(res.timestamp@),
{
    let mut record = Record::new();
    record.format_metadata(level, file, line);
    record.format_thread_name(thread_name);
    record.format_event(name, fields);
    record.spans = spans;
    record
}

/// The `tracing` layer that writes each event as a framed record.
pub struct Layer<S, W> {
    writer: W,
    log_internal_errors: bool,
    _inner: PhantomData<S>,
}

impl<S, W> Layer<S, W> {
    /// A layer writing to `writer` that reports failed writes.
    pub fn new(writer: W) -> (res: Self)
        ensures
            res.writer() == writer,
            res.reports_errors(),
    {
        Layer { writer, log_internal_errors: true, _inner: PhantomData }
    }

    /// A layer writing to `writer` that keeps failed writes quiet.
    pub fn quiet(writer: W) -> (res: Self)
        ensures
            res.writer() == writer,
            !res.reports_errors(),
    {
        Layer { writer, log_internal_errors: false, _inner: PhantomData }
    }

    pub closed spec fn writer(&self) -> W {
        self.writer
    }

    pub closed spec fn reports_errors(&self) -> bool {
        self.log_internal_errors
    }

    /// Where records are written.
    pub fn get_writer(&self) -> (res: &W)
        ensures
            *res == self.writer(),
    {
        &self.writer
    }

    /// Whether failed writes are reported.
    pub fn log_internal_errors(&self) -> (res: bool)
        ensures
            res == self.reports_errors(),
    {
        self.log_internal_errors
    }

    /// The bytes written for one encoded record: its 8-byte big-endian
    /// length, then the record.
    pub fn frame(&self, encoded: &[u8]) -> (res: Vec<u8>)
        ensures
            res@ == frame64(encoded@),
    {
        frame_u64(encoded)
    }
}

impl<S, W: Default> Default for Layer<S, W> {
    /// A layer writing to the default writer that keeps failed writes quiet.
    fn default() -> (res: Self)
        ensures
            !res.reports_errors(),
    {
        Layer::quiet(W::default())
    }
}

} // verus!
