use coral::envconf::{env_key, field_keys, select_variant};
use coral::trace_log::{parse_log, Level, Log, MacroToken, MacroValue};

#[test]
fn env_keys_of_nested_items() {
    let root = Some("CORAL_CONF");
    assert_eq!(env_key(root, "item1"), "CORAL_CONF_ITEM1");
    let enum1 = env_key(root, "enum1");
    assert_eq!(env_key(Some(&enum1), "Item1"), "CORAL_CONF_ENUM1_ITEM1");
    let enum2 = env_key(root, "enum2");
    let item2 = env_key(Some(&enum2), "Item2");
    assert_eq!(env_key(Some(&item2), "val"), "CORAL_CONF_ENUM2_ITEM2_VAL");
    let sub1 = env_key(root, "sub1");
    assert_eq!(env_key(Some(&sub1), "val"), "CORAL_CONF_SUB1_VAL");
    let pe = env_key(root, "pe");
    assert_eq!(pe, "CORAL_CONF_PE");
    let variants = vec!["Val1".to_string(), "Val2".to_string(), "Val3".to_string()];
    assert_eq!(select_variant("Val1", &variants), Some(0));
}

#[test]
fn env_keys_of_fields() {
    let names = vec!["dir".to_string(), "otel_endpoint".to_string()];
    assert_eq!(field_keys(Some("LOG"), &names), vec!["LOG_DIR", "LOG_OTEL_ENDPOINT"]);
    assert_eq!(field_keys(None, &names), vec!["DIR", "OTEL_ENDPOINT"]);
    assert_eq!(env_key(None, "port"), "PORT");
}

#[test]
fn variant_selection_is_exact() {
    let variants = vec!["Val1".to_string(), "Val2".to_string(), "Val1".to_string()];
    assert_eq!(select_variant("Val2", &variants), Some(1));
    assert_eq!(select_variant("val2", &variants), None);
    assert_eq!(select_variant("", &variants), None);
    assert_eq!(select_variant("Val1", &variants), Some(0));
}

fn id(s: &str) -> MacroToken {
    MacroToken::Ident(s.to_string())
}

fn lit(s: &str) -> MacroToken {
    MacroToken::Lit(s.to_string())
}

fn text(s: &str) -> MacroToken {
    MacroToken::Str(s.to_string())
}

fn value_text(v: &MacroValue) -> (bool, String) {
    match v {
        MacroValue::Lit(t) => (true, t.clone()),
        MacroValue::Expr(t) => (false, t.clone()),
    }
}

#[test]
fn log_macro_with_pairs_and_args() {
    // state = c; "failed to compare exchange {}", c
    let toks = vec![id("state"), MacroToken::Eq, id("c"), MacroToken::Semi, text("failed {}"), MacroToken::Comma, id("c")];
    let log = parse_log(&toks, Level::Error).unwrap();
    assert_eq!(log.level, Level::Error);
    assert!(log.target.is_none());
    assert_eq!(log.kvs.len(), 1);
    assert_eq!(log.kvs[0].0, "state");
    assert_eq!(value_text(&log.kvs[0].1), (false, "c".to_string()));
    assert_eq!(log.msg, "failed {}");
    assert_eq!(log.args, vec!["c"]);
}

#[test]
fn log_macro_with_target() {
    let toks = vec![
        id("target"),
        MacroToken::Colon,
        text("net"),
        MacroToken::Comma,
        id("a"),
        MacroToken::Eq,
        lit("11"),
        MacroToken::Comma,
        id("b"),
        MacroToken::Eq,
        MacroToken::Expr("x.len()".to_string()),
        text("hello"),
    ];
    let log = Log::parse(&toks).unwrap();
    assert_eq!(log.level, Level::Trace);
    assert_eq!(value_text(log.target.as_ref().unwrap()), (true, "net".to_string()));
    let pairs: Vec<(String, (bool, String))> = log.kvs.iter().map(|(k, v)| (k.clone(), value_text(v))).collect();
    assert_eq!(
        pairs,
        vec![("a".to_string(), (true, "11".to_string())), ("b".to_string(), (false, "x.len()".to_string()))]
    );
    assert!(log.args.is_empty());
}

#[test]
fn log_macro_message_only() {
    let log = Log::parse(&vec![text("hello")]).unwrap();
    assert!(log.kvs.is_empty());
    assert_eq!(log.msg, "hello");
    let in_span: Vec<(String, (bool, String))> =
        log.call_pairs(true).iter().map(|(k, v)| (k.clone(), value_text(v))).collect();
    assert_eq!(in_span, vec![("trace_id".to_string(), (false, "span.trace_id.0".to_string()))]);
    assert!(log.call_pairs(false).is_empty());
}

#[test]
fn log_macro_rejects_bad_calls() {
    assert!(Log::parse(&vec![]).is_none());
    assert!(Log::parse(&vec![id("a"), MacroToken::Eq, id("b")]).is_none());
    assert!(Log::parse(&vec![id("a"), MacroToken::Colon, id("b"), text("m")]).is_none());
    assert!(Log::parse(&vec![id("target"), MacroToken::Colon, text("t"), text("m")]).is_none());
    assert!(Log::parse(&vec![text("m"), MacroToken::Comma]).is_none());
    assert!(Log::parse(&vec![text("m"), id("x")]).is_none());
    assert!(Log::parse(&vec![lit("1")]).is_none());
    assert!(Log::parse(&vec![text("m"), MacroToken::Comma, MacroToken::Other]).is_none());
}

#[test]
fn log_pairs_keep_order_in_span() {
    let toks = vec![id("a"), MacroToken::Eq, lit("1"), id("b"), MacroToken::Eq, lit("2"), MacroToken::Semi, text("m")];
    let log = parse_log(&toks, Level::Info).unwrap();
    let keys: Vec<String> = log.call_pairs(true).iter().map(|(k, _)| k.clone()).collect();
    assert_eq!(keys, vec!["a", "b", "trace_id"]);
    assert_eq!(Level::Info.macro_name(), "info");
}

#[test]
fn binding_accessor_names() {
    let names = coral::wasm::accessor_names(&vec!["width".to_string(), "txt_size".to_string()]);
    assert_eq!(
        names,
        vec![("width".to_string(), "set_width".to_string()), ("txt_size".to_string(), "set_txt_size".to_string())]
    );
    assert!(coral::wasm::accessor_names(&Vec::new()).is_empty());
}

#[test]
fn ascii_names_upper_case_plainly() {
    assert_eq!(env_key(Some("CORAL_CONF"), "item1"), "CORAL_CONF_ITEM1");
    assert_eq!(field_keys(Some("A"), &vec!["b_c".to_string()]), vec!["A_B_C"]);
}
