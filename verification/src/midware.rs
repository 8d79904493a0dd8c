//! Trace propagation: the trace id carried in a request header becomes
//! the id of the request's root span, and an incoming span id becomes
//! its parent.

use vstd::prelude::*;
use crate::text::{parse_unsigned, parse_unsigned_decimal};
use crate::frame::{be_value, pow256};

verus! {

/// The first sixteen bytes of `b`, zero-filled when `b` is shorter.
pub open spec fn first16(b: Seq<u8>) -> Seq<u8> {
    Seq::new(16, |i: int| if i < b.len() { b[i] } else { 0u8 })
}

/// A trace id taken from the text of a header.
#[derive(Clone, Copy, Debug, PartialEq, Eq, Structural)]
pub struct CoralTraceId(pub u128);

impl CoralTraceId {
    /// The id whose big-endian bytes are the first sixteen bytes of the
    /// text, zero-filled when the text is shorter.
    pub fn from_str(value: &str) -> (res: CoralTraceId)
        ensures
            res.0 == be_value(first16(vstd::utf8::encode_utf8(value@))),
    {
        let bytes = value.as_bytes();
        let ghost padded = first16(bytes@);
        let mut acc: u128 = 0;
        let mut i: usize = 0;
        proof { lemma_pow256_16(); }
        while i < 16
            invariant
                i <= 16,
                padded == first16(bytes@),
                acc == be_value(padded.take(i as int)),
                acc < pow256(i as nat),
                pow256(16) == 0x1_0000_0000_0000_0000_0000_0000_0000_0000,
            decreases 16 - i,
        {
            let b: u8 = if i < bytes.len() { bytes[i] } else { 0 };
            assert(padded.take(i + 1).drop_last() =~= padded.take(i as int));
            assert(padded.take(i + 1).last() == b);
            proof { crate::frame::lemma_pow256_mono(i as nat + 1, 16); }
            assert(acc * 256 + b < pow256(i as nat + 1));
            acc = acc * 256 + b as u128;
            i = i + 1;
        }
        assert(padded.take(16) =~= padded);
        CoralTraceId(acc)
    }
}

proof fn lemma_pow256_16()
    ensures
        pow256(16) == 0x1_0000_0000_0000_0000_0000_0000_0000_0000,
{
    reveal_with_fuel(pow256, 17);
}

/// Reads the span id of a header, as `str::parse::<u64>` does.
pub fn parse_span_id(value: &str) -> (res: Option<u64>)
    ensures
        match res {
            Some(v) => parse_unsigned(value@, u64::MAX as nat) == Ok::<nat, crate::text::IntErrorKind>(v as nat),
            None => parse_unsigned(value@, u64::MAX as nat) is Err,
        },
{
    match parse_unsigned_decimal(value, u64::MAX) {
        Ok(v) => Some(v),
        Err(_) => None,
    }
}

/// A request header as the middleware reads it.
pub enum HeaderText<'a> {
    /// The header is not there.
    Absent,
    /// The header is there but its value is not text.
    Unreadable,
    /// The header's value.
    Text(&'a str),
}

/// How a request is traced.
pub struct TraceDecision {
    /// The trace id of the request's root span; `None` when the request
    /// is not traced.
    pub trace_id: Option<u128>,
    /// Whether the generated id is put in the request's trace header.
    pub insert_trace_header: bool,
    /// The parent span id, when the request carries a readable one.
    pub span_id: Option<u64>,
}

/// Decides how a request is traced, from its trace and span headers and
/// a freshly generated id for requests that carry no trace id: a
/// readable trace header gives the trace id; a missing one is filled
/// with the generated id; an unreadable one leaves the request untraced.
pub fn trace_decision(trace: HeaderText, generated: &str, span: HeaderText) -> (res: TraceDecision)
    ensures
        match trace {
            HeaderText::Text(t) => res.trace_id == Some(be_value(first16(vstd::utf8::encode_utf8(t@))) as u128)
                && !res.insert_trace_header,
            HeaderText::Absent => res.trace_id == Some(be_value(first16(vstd::utf8::encode_utf8(generated@))) as u128)
                && res.insert_trace_header,
            HeaderText::Unreadable => res.trace_id is None && !res.insert_trace_header,
        },
        match span {
            HeaderText::Text(s) => match res.span_id {
                Some(v) => parse_unsigned(s@, u64::MAX as nat) == Ok::<nat, crate::text::IntErrorKind>(v as nat),
                None => parse_unsigned(s@, u64::MAX as nat) is Err,
            },
            _ => res.span_id is None,
        },
{
    let (trace_id, insert) = match trace {
        HeaderText::Text(t) => (Some(CoralTraceId::from_str(t).0), false),
        HeaderText::Absent => (Some(CoralTraceId::from_str(generated).0), true),
        HeaderText::Unreadable => (None, false),
    };
    let span_id = match span {
        HeaderText::Text(s) => parse_span_id(s),
        _ => None,
    };
    TraceDecision { trace_id, insert_trace_header: insert, span_id }
}

/// Whether `s` is a UUID in its hyphenated lower-case text form: 36
/// characters, `-` at positions 8, 13, 18 and 23, lower-case hex digits
/// elsewhere.
pub open spec fn uuid_text(s: Seq<char>) -> bool {
    &&& s.len() == 36
    &&& forall|i: int|
        0 <= i < 36 ==> if i == 8 || i == 13 || i == 18 || i == 23 {
            #[trigger] s[i] == '-'
        } else {
            ('0' <= s[i] <= '9') || ('a' <= s[i] <= 'f')
        }
}

/// The text of a fresh random (version 4) UUID, as
/// `uuid::Uuid::new_v4().to_string()` writes it: the hyphenated
/// lower-case form. Which UUID comes out is chance; only its form is
/// stated.
#[verifier::external_body]
fn new_uuid_text() -> (res: String)
    ensures
        uuid_text(res@),
{
    uuid::Uuid::new_v4().to_string()
}

/// The trace of a request from its trace-id and span-id headers: a
/// request without a trace id gets a fresh UUID as its trace id, which
/// is also handed back to be set as the request's trace-id header.
pub fn request_trace(trace: HeaderText, span: HeaderText) -> (res: (TraceDecision, Option<String>))
    ensures
        match trace {
            HeaderText::Text(t) => res.0.trace_id == Some(be_value(first16(vstd::utf8::encode_utf8(t@))) as u128)
                && !res.0.insert_trace_header && res.1 is None,
            HeaderText::Absent => res.1 matches Some(g) && uuid_text(g@) && res.0.trace_id == Some(
                be_value(first16(vstd::utf8::encode_utf8(g@))) as u128,
            ) && res.0.insert_trace_header,
            HeaderText::Unreadable => res.0.trace_id is None && !res.0.insert_trace_header && res.1 is None,
        },
        match span {
            HeaderText::Text(s) => match res.0.span_id {
                Some(v) => parse_unsigned(s@, u64::MAX as nat) == Ok::<nat, crate::text::IntErrorKind>(v as nat),
                None => parse_unsigned(s@, u64::MAX as nat) is Err,
            },
            _ => res.0.span_id is None,
        },
{
    match trace {
        HeaderText::Absent => {
            let generated = new_uuid_text();
            let d = trace_decision(HeaderText::Absent, generated.as_str(), span);
            (d, Some(generated))
        },
        HeaderText::Text(t) => (trace_decision(HeaderText::Text(t), "", span), None),
        HeaderText::Unreadable => (trace_decision(HeaderText::Unreadable, "", span), None),
    }
}

} // verus!
