use coral::frame::{frame_u32, frame_u64, parse_frames, parse_frames64};
use coral::proto::{create_sync_fields, Fields, Layer, Meta, Record};
use coral::record::{Level, Type};
use coral::stdlog::{frame_record, queue_capacity, Kind, KvValue, LogLevel};
use prost::encoding::{decode_key, decode_varint, encode_key, encode_varint, skip_field, DecodeContext, WireType};

/// Encodes a span or an event: its name under tag 1, each field as a
/// nested message under tag 2.
fn encode_meta(meta: &Meta) -> Vec<u8> {
    let mut buf = Vec::new();
    prost::encoding::string::encode(1, &meta.name, &mut buf);
    for f in &meta.fields {
        let mut inner = Vec::new();
        prost::encoding::int32::encode(1, &f.kind, &mut inner);
        prost::encoding::string::encode(2, &f.key, &mut inner);
        prost::encoding::string::encode(3, &f.val, &mut inner);
        encode_key(2, WireType::LengthDelimited, &mut buf);
        encode_varint(inner.len() as u64, &mut buf);
        buf.extend_from_slice(&inner);
    }
    buf
}

/// Encodes a record with the tags of the record schema.
fn encode_record(r: &Record) -> Vec<u8> {
    let mut buf = Vec::new();
    prost::encoding::string::encode(1, &r.timestamp, &mut buf);
    prost::encoding::int32::encode(2, &r.level, &mut buf);
    prost::encoding::string::encode(3, &r.thread_name, &mut buf);
    prost::encoding::string::encode(4, &r.file, &mut buf);
    prost::encoding::uint32::encode(5, &r.line, &mut buf);
    for s in &r.spans {
        let m = encode_meta(s);
        encode_key(6, WireType::LengthDelimited, &mut buf);
        encode_varint(m.len() as u64, &mut buf);
        buf.extend_from_slice(&m);
    }
    if let Some(e) = &r.event {
        let m = encode_meta(e);
        encode_key(8, WireType::LengthDelimited, &mut buf);
        encode_varint(m.len() as u64, &mut buf);
        buf.extend_from_slice(&m);
    }
    buf
}

/// Counts the spans (tag 6) of an encoded record.
fn count_spans(mut data: &[u8]) -> usize {
    let mut n = 0;
    while !data.is_empty() {
        let (tag, wt) = decode_key(&mut data).unwrap();
        if tag == 6 {
            n += 1;
        }
        skip_field(wt, tag, &mut data, DecodeContext::default()).unwrap();
    }
    n
}

/// Reads the string under `want` of an encoded message.
fn read_string(mut data: &[u8], want: u32) -> Option<String> {
    while !data.is_empty() {
        let (tag, wt) = decode_key(&mut data).unwrap();
        if tag == want && wt == WireType::LengthDelimited {
            let len = decode_varint(&mut data).unwrap() as usize;
            let s = String::from_utf8(data[..len].to_vec()).unwrap();
            return Some(s);
        }
        skip_field(wt, tag, &mut data, DecodeContext::default()).unwrap();
    }
    None
}

fn event_record(spans: &[&str], msg: &str) -> Record {
    let mut r = Record::new();
    r.format_metadata("INFO", Some("src/tests/proto.rs"), Some(24));
    r.format_thread_name(Some("main"));
    for s in spans {
        r.push_span(Meta::new(s));
    }
    let mut fields = Fields::new();
    fields.record_str("message", msg);
    r.format_event("event", fields);
    r
}

#[test]
fn multi_span() {
    let layer: Layer<(), Vec<u8>> = Layer::new(Vec::new());
    let mut data = Vec::new();
    let first = event_record(&["span1", "span2"], "log info");
    data.extend(layer.frame(&encode_record(&first)));
    let second = event_record(&["span1"], "log info");
    data.extend(layer.frame(&encode_record(&second)));
    let res = parse_frames64(&data, usize::MAX).unwrap();
    assert!(count_spans(&res[0]) == 2);
    assert!(count_spans(&res[1]) == 1);
}

#[test]
fn test_proto() {
    let r = Record::new();
    assert_eq!(r.level, 0);
    assert!(r.spans.is_empty());
    assert!(r.event.is_none());
}

/// Encodes a `log` record as prost encodes a proto3 message: fields with
/// their default value are left out.
fn encode_log_record(r: &coral::stdlog::Record) -> Vec<u8> {
    let mut buf = Vec::new();
    if !r.timestamp.is_empty() {
        prost::encoding::string::encode(1, &r.timestamp, &mut buf);
    }
    if r.level != 0 {
        prost::encoding::int32::encode(2, &r.level, &mut buf);
    }
    if !r.thread_name.is_empty() {
        prost::encoding::string::encode(3, &r.thread_name, &mut buf);
    }
    if !r.file.is_empty() {
        prost::encoding::string::encode(4, &r.file, &mut buf);
    }
    if r.line != 0 {
        prost::encoding::uint32::encode(5, &r.line, &mut buf);
    }
    if !r.msg.is_empty() {
        prost::encoding::string::encode(6, &r.msg, &mut buf);
    }
    for f in &r.fields {
        let mut inner = Vec::new();
        prost::encoding::int32::encode(1, &f.kind, &mut inner);
        prost::encoding::string::encode(2, &f.key, &mut inner);
        prost::encoding::string::encode(3, &f.val, &mut inner);
        encode_key(7, WireType::LengthDelimited, &mut buf);
        encode_varint(inner.len() as u64, &mut buf);
        buf.extend_from_slice(&inner);
    }
    buf
}

#[test]
fn test_len() {
    let mut record = coral::stdlog::Record::new();
    record.thread_name = "thread name".to_string();
    let data = encode_log_record(&record);
    let buf = frame_record(&data);
    assert_eq!(buf.len() - 4, data.len());
    let len_bytes: [u8; 4] = buf[..4].try_into().unwrap();
    let dec_len = u32::from_be_bytes(len_bytes) as usize;
    assert_eq!(dec_len, data.len());
    let dec = read_string(&buf[4..dec_len + 4], 3).unwrap();
    assert_eq!(dec, "thread name");
}

#[test]
fn framed_log_record_reads_back() {
    let mut record = coral::stdlog::Record::new();
    record.fill(LogLevel::Warn, Some("worker-3"), Some("io.rs"), Some(42), "disk full".to_string());
    record.visit_pair("free", KvValue::U64(0));
    let data = encode_log_record(&record);
    let framed = frame_record(&data);
    let frames = parse_frames(&framed, usize::MAX).unwrap();
    assert_eq!(frames, vec![data.clone()]);
    assert_eq!(read_string(&frames[0], 1).unwrap(), record.timestamp);
    assert_eq!(read_string(&frames[0], 3).unwrap(), "worker-3");
    assert_eq!(read_string(&frames[0], 4).unwrap(), "io.rs");
    assert_eq!(read_string(&frames[0], 6).unwrap(), "disk full");
    let field = read_string(&frames[0], 7).map(|s| s.into_bytes()).unwrap();
    assert_eq!(read_string(&field, 2).unwrap(), "free");
    assert_eq!(read_string(&field, 3).unwrap(), "0");
}

#[test]
fn frame_prefixes_are_big_endian() {
    let payload = vec![7u8; 300];
    let f32 = frame_u32(&payload);
    assert_eq!(&f32[..4], &[0, 0, 1, 44]);
    assert_eq!(&f32[4..], &payload[..]);
    let f64 = frame_u64(&payload);
    assert_eq!(&f64[..8], &[0, 0, 0, 0, 0, 0, 1, 44]);
    assert_eq!(f64.len(), 308);
}

#[test]
fn frames_roundtrip_on_values() {
    let payloads: Vec<Vec<u8>> = vec![vec![1, 2, 3], vec![], vec![9; 70000]];
    let mut data = Vec::new();
    for p in &payloads {
        data.extend(frame_u32(p));
    }
    assert_eq!(parse_frames(&data, usize::MAX).unwrap(), payloads);
    assert_eq!(parse_frames(&data, 2).unwrap(), payloads[..2].to_vec());
    let mut data64 = Vec::new();
    for p in &payloads {
        data64.extend(frame_u64(p));
    }
    assert_eq!(parse_frames64(&data64, 3).unwrap(), payloads);
}

#[test]
fn cut_frame_is_refused() {
    let mut data = frame_u32(&[1, 2, 3, 4]);
    data.pop();
    assert!(parse_frames(&data, 5).is_none());
    assert!(parse_frames(&[0, 0], 1).is_none());
    assert_eq!(parse_frames(&[], 3).unwrap().len(), 0);
    assert_eq!(parse_frames(&data, 0).unwrap().len(), 0);
    let data64 = frame_u64(&[5, 6]);
    assert!(parse_frames64(&data64[..9], 1).is_none());
}

#[test]
fn level_names_and_numbers() {
    let all = [Level::Trace, Level::Debug, Level::Info, Level::Warn, Level::Error];
    let names = ["TRACE", "DEBUG", "INFO", "WARN", "ERROR"];
    for (i, l) in all.iter().enumerate() {
        assert_eq!(l.as_str_name(), names[i]);
        assert_eq!(l.number(), i as i32);
        assert_eq!(Level::from_str_name(names[i]), Some(*l));
        assert_eq!(Level::from_number(i as i32), Some(*l));
    }
    assert_eq!(Level::from_str_name("info"), None);
    assert_eq!(Level::from_number(5), None);
    assert_eq!(Level::from_number(-1), None);
}

#[test]
fn type_names_and_numbers() {
    assert_eq!(Type::I.as_str_name(), "I");
    assert_eq!(Type::F.as_str_name(), "F");
    assert_eq!(Type::S.as_str_name(), "S");
    assert_eq!(Type::from_str_name("F"), Some(Type::F));
    assert_eq!(Type::from_str_name("X"), None);
    assert_eq!(Type::S.number(), 2);
}

#[test]
fn record_metadata_and_event() {
    let mut r = Record::new();
    r.format_metadata("WARN", Some("a.rs"), Some(12));
    assert_eq!(r.level, 3);
    assert_eq!(r.file, "a.rs");
    assert_eq!(r.line, 12);
    assert!(!r.timestamp.is_empty());
    r.format_level("LOUD");
    assert_eq!(r.level, 3);
    r.format_file(None);
    r.format_line(None);
    assert_eq!(r.file, "a.rs");
    assert_eq!(r.line, 12);
    r.format_thread_name(None);
    assert_eq!(r.thread_name, "");
    let mut fields = Fields::new();
    fields.record_i64("a", -5);
    fields.record_u64("b", 7);
    fields.record_bool("c", true);
    fields.record_str("d", "text");
    r.format_event("ev", fields);
    let ev = r.event.unwrap();
    assert_eq!(ev.name, "ev");
    let got: Vec<(i32, String, String)> =
        ev.fields.iter().map(|f| (f.kind, f.key.clone(), f.val.clone())).collect();
    assert_eq!(
        got,
        vec![
            (1, "a".to_string(), "-5".to_string()),
            (1, "b".to_string(), "7".to_string()),
            (0, "c".to_string(), "true".to_string()),
            (3, "d".to_string(), "text".to_string()),
        ]
    );
}

#[test]
fn fields_take_empties() {
    let mut fields = create_sync_fields();
    fields.add_field(3, "k", "v".to_string());
    let taken = fields.take();
    assert_eq!(taken.len(), 1);
    assert_eq!(taken[0].duplicate().key, "k");
    assert!(fields.inner().is_empty());
}

#[test]
fn layer_settings() {
    let layer: Layer<(), u8> = Layer::new(5);
    assert_eq!(*layer.get_writer(), 5);
    assert!(layer.log_internal_errors());
    let quiet: Layer<(), u8> = Layer::default();
    assert!(!quiet.log_internal_errors());
}

#[test]
fn stdlog_levels() {
    assert!(LogLevel::Info.enabled(LogLevel::Error));
    assert!(LogLevel::Info.enabled(LogLevel::Info));
    assert!(!LogLevel::Info.enabled(LogLevel::Debug));
    assert_eq!(LogLevel::Trace.rank(), 5);
    assert_eq!(Level::from(LogLevel::Warn), Level::Warn);
    assert_eq!(Kind::F.value(), 2);
    assert_eq!(queue_capacity(None), 4096);
    assert_eq!(queue_capacity(Some(16)), 16);
}

#[test]
fn stdlog_record_fields() {
    let mut r = coral::stdlog::Record::new();
    r.fill(LogLevel::Error, Some("worker-1"), Some("m.rs"), Some(3), "hello 11".to_string());
    assert_eq!(r.level, 4);
    assert_eq!(r.thread_name, "worker-1");
    assert_eq!(r.msg, "hello 11");
    r.visit_pair("n", KvValue::U64(18446744073709551615));
    r.visit_pair("i", KvValue::I64(i64::MIN));
    r.visit_pair("big", KvValue::I128(i128::MIN));
    r.visit_pair("u", KvValue::U128(0));
    r.visit_pair("f", KvValue::Float("1.5".to_string()));
    r.visit_pair("b", KvValue::Bool(false));
    r.visit_pair("c", KvValue::Char('x'));
    r.visit_pair("z", KvValue::Null);
    let got: Vec<(i32, &str, &str)> =
        r.fields.iter().map(|f| (f.kind, f.key.as_str(), f.val.as_str())).collect();
    assert_eq!(
        got,
        vec![
            (1, "n", "18446744073709551615"),
            (1, "i", "-9223372036854775808"),
            (1, "big", "-170141183460469231731687303715884105728"),
            (1, "u", "0"),
            (2, "f", "1.5"),
            (0, "b", "false"),
            (3, "c", "x"),
            (3, "z", "None"),
        ]
    );
}

#[test]
fn event_records_carry_spans_in_order() {
    let mut fields = Fields::new();
    fields.record_u64("n", 11);
    let spans = vec![Meta::new("root"), Meta::new("child")];
    let r = coral::proto::event_record("DEBUG", Some("worker-2"), None, Some(9), "hello", fields, spans);
    assert_eq!(r.level, 1);
    assert_eq!(r.thread_name, "worker-2");
    assert_eq!(r.file, "");
    assert_eq!(r.line, 9);
    let names: Vec<&str> = r.spans.iter().map(|s| s.name.as_str()).collect();
    assert_eq!(names, vec!["root", "child"]);
    let ev = r.event.as_ref().unwrap();
    assert_eq!(ev.name, "hello");
    assert_eq!(ev.fields[0].val, "11");
    let unknown = coral::proto::event_record("LOUD", None, None, None, "e", Fields::new(), Vec::new());
    assert_eq!(unknown.level, 0);
}

#[test]
fn timestamps_end_with_numeric_offset() {
    let r = coral::proto::event_record("INFO", None, None, None, "e", Fields::new(), Vec::new());
    let t: Vec<char> = r.timestamp.chars().collect();
    let n = t.len();
    assert!(n >= 25);
    assert!(t[n - 6] == '+' || t[n - 6] == '-');
    assert_eq!(t[n - 3], ':');
    for i in [n - 5, n - 4, n - 2, n - 1] {
        assert!(t[i].is_ascii_digit());
    }
}
