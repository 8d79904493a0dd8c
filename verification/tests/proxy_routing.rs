use coral::relay::{relay_step, BodyFrame, RelayStep};
use coral::discover::{endpoints_to_apply, Fetched};
use coral::discover::split_endpoints;
use coral::midware::{parse_span_id, trace_decision, CoralTraceId, HeaderText};
use coral::util::{redirect_req, route_h3, 
    get_modify_path_url, is_valid_ipv4_with_port, is_websocket_upgrade, origin_path, reset_uri_path, UriError,
    UriParts,
};

#[test]
fn test_is_valid_ipv4_with_port() {
    let valid_addrs = vec!["1.1.1.1:9001", "127.0.0.1:9999", "0.0.0.0:9212"];
    let invalid_addrs = vec!["asdasd.asd.asd.123", "qq.ww.ee.rr", "192.168.1.1", "127.0.0.1:9001/"];
    for addr in valid_addrs {
        assert!(is_valid_ipv4_with_port(addr));
    }
    for addr in invalid_addrs {
        assert!(!is_valid_ipv4_with_port(addr));
    }
}

#[test]
fn address_edge_cases() {
    assert!(is_valid_ipv4_with_port("255.255.255.255:65535"));
    assert!(!is_valid_ipv4_with_port("256.1.1.1:80"));
    assert!(!is_valid_ipv4_with_port("1.1.1.1:123456"));
    assert!(!is_valid_ipv4_with_port(""));
}

fn parts(scheme: Option<&str>, authority: Option<&str>, pq: Option<&str>) -> UriParts {
    UriParts {
        scheme: scheme.map(|s| s.to_string()),
        authority: authority.map(|s| s.to_string()),
        path_and_query: pq.map(|s| s.to_string()),
    }
}

#[test]
fn uri_rewrite_keeps_authority() {
    let uri = parts(Some("https"), Some("example.com:8443"), Some("/old/path?x=1"));
    let r = reset_uri_path(&uri, "/new?y=2").unwrap();
    assert_eq!(r.scheme.as_deref(), Some("https"));
    assert_eq!(r.authority.as_deref(), Some("example.com:8443"));
    assert_eq!(r.path_and_query.as_deref(), Some("/new?y=2"));
    let (orig, r2) = get_modify_path_url(&uri, "/v2").unwrap();
    assert_eq!(orig, "/old/path?x=1");
    assert_eq!(r2.path_and_query.as_deref(), Some("/v2"));
}

#[test]
fn uri_rewrite_without_scheme() {
    let uri = parts(None, Some("example.com"), Some("/a"));
    let r = reset_uri_path(&uri, "/b").unwrap();
    assert_eq!(r.scheme, None);
    assert_eq!(r.authority, None);
    assert_eq!(r.path_and_query.as_deref(), Some("/b"));
}

#[test]
fn uri_rewrite_errors() {
    let no_authority = parts(Some("http"), None, Some("/a"));
    assert!(matches!(reset_uri_path(&no_authority, "/b"), Err(UriError::NoneOption("uri.authority"))));
    let no_path = parts(Some("http"), Some("h"), None);
    assert!(matches!(get_modify_path_url(&no_path, "/b"), Err(UriError::NoneOption("uri.path_and_query"))));
    let uri = parts(Some("http"), Some("h"), Some("/a"));
    assert!(matches!(reset_uri_path(&uri, "/a b"), Err(UriError::InvalidUri)));
}

#[test]
fn origin_path_defaults_to_root() {
    assert_eq!(origin_path(&parts(Some("http"), Some("h"), Some("/x?q"))), "/x?q");
    assert_eq!(origin_path(&parts(Some("http"), Some("h"), None)), "/");
}

#[test]
fn websocket_upgrade_detection() {
    assert!(is_websocket_upgrade(Some("Upgrade"), Some("WebSocket"), true, true));
    assert!(!is_websocket_upgrade(Some("keep-alive"), Some("websocket"), true, true));
    assert!(!is_websocket_upgrade(Some("upgrade"), Some("websocket"), false, true));
    assert!(!is_websocket_upgrade(Some("upgrade"), Some("websocket"), true, false));
    assert!(!is_websocket_upgrade(None, Some("websocket"), true, true));
}

#[test]
fn trace_ids_from_headers() {
    let id = CoralTraceId::from_str("0123456789abcdef");
    assert_eq!(id.0, u128::from_be_bytes(*b"0123456789abcdef"));
    let short = CoralTraceId::from_str("ab");
    let mut padded = [0u8; 16];
    padded[0] = b'a';
    padded[1] = b'b';
    assert_eq!(short.0, u128::from_be_bytes(padded));
    assert_eq!(CoralTraceId::from_str("").0, 0);
    assert_eq!(parse_span_id("42"), Some(42));
    assert_eq!(parse_span_id("x"), None);
    assert_eq!(parse_span_id("18446744073709551616"), None);

    let d = trace_decision(HeaderText::Text("ab"), "unused", HeaderText::Text("7"));
    assert_eq!(d.trace_id, Some(short.0));
    assert!(!d.insert_trace_header);
    assert_eq!(d.span_id, Some(7));
    let d = trace_decision(HeaderText::Absent, "ab", HeaderText::Absent);
    assert_eq!(d.trace_id, Some(short.0));
    assert!(d.insert_trace_header);
    assert_eq!(d.span_id, None);
    let d = trace_decision(HeaderText::Unreadable, "ab", HeaderText::Unreadable);
    assert_eq!(d.trace_id, None);
    assert!(!d.insert_trace_header);
}

#[test]
fn endpoint_lists() {
    assert_eq!(split_endpoints(b"10.0.0.1:80,10.0.0.2:81"), vec!["10.0.0.1:80", "10.0.0.2:81"]);
    assert_eq!(split_endpoints(b""), vec![""]);
    assert_eq!(split_endpoints(b"a,,b,"), vec!["a", "", "b", ""]);
    assert_eq!(split_endpoints(&[b'a', b',', 0xff, b',', b'c']), vec!["a", "c"]);
}

#[test]
fn discovery_rounds() {
    assert_eq!(endpoints_to_apply(Fetched::Value(b"1.1.1.1:1,2.2.2.2:2".to_vec())).unwrap(), vec!["1.1.1.1:1", "2.2.2.2:2"]);
    assert_eq!(endpoints_to_apply(Fetched::Value(Vec::new())).unwrap(), vec![""]);
    assert!(endpoints_to_apply(Fetched::Value(vec![0xff])).is_none());
    assert!(endpoints_to_apply(Fetched::Missing).is_none());
    assert!(endpoints_to_apply(Fetched::Failed).is_none());
}

#[test]
fn relay_steps() {
    assert_eq!(relay_step(Some(BodyFrame::Data), true), RelayStep::SendData);
    assert_eq!(relay_step(Some(BodyFrame::Trailers), false), RelayStep::SendTrailers);
    assert_eq!(relay_step(Some(BodyFrame::Malformed), true), RelayStep::Reset);
    assert_eq!(relay_step(Some(BodyFrame::Failed), false), RelayStep::Finish);
    assert_eq!(relay_step(None, true), RelayStep::Finish);
    let frames = [BodyFrame::Data, BodyFrame::Trailers, BodyFrame::Failed, BodyFrame::Data];
    let mut steps = Vec::new();
    for f in frames.iter() {
        let s = relay_step(Some(*f), true);
        steps.push(s);
        if s != RelayStep::SendData && s != RelayStep::SendTrailers {
            break;
        }
    }
    assert_eq!(steps, vec![RelayStep::SendData, RelayStep::SendTrailers, RelayStep::Reset]);
}

#[test]
fn h3_routing() {
    let mut feed = parts(Some("https"), Some("proxy:9001"), Some("/coral-proxy-endpoints?x=1"));
    assert!(route_h3(&mut feed).is_none());
    assert_eq!(feed.path_and_query.as_deref(), Some("/coral-proxy-endpoints?x=1"));
    let mut other = parts(Some("https"), Some("proxy:9001"), Some("/api/v1?q=2"));
    assert_eq!(route_h3(&mut other).as_deref(), Some("/api/v1?q=2"));
    assert_eq!(other.path_and_query.as_deref(), Some("/reset"));
    assert_eq!(other.authority.as_deref(), Some("proxy:9001"));
    let mut bare = parts(None, None, None);
    assert_eq!(route_h3(&mut bare).as_deref(), Some("/"));
    assert!(bare.path_and_query.is_none());
}

#[test]
fn redirect_keeps_unrewritable_uri() {
    let mut uri = parts(Some("http"), None, Some("/a"));
    assert_eq!(redirect_req(&mut uri, "/b"), "/a");
    assert_eq!(uri.path_and_query.as_deref(), Some("/a"));
    let mut ok = parts(None, Some("h"), Some("/a"));
    assert_eq!(redirect_req(&mut ok, "/b"), "/a");
    assert_eq!(ok.path_and_query.as_deref(), Some("/b"));
}

#[test]
fn fresh_trace_ids_are_uuids() {
    let (d, header) = coral::midware::request_trace(HeaderText::Absent, HeaderText::Text("12"));
    let g = header.unwrap();
    assert_eq!(g.len(), 36);
    for (i, c) in g.chars().enumerate() {
        if i == 8 || i == 13 || i == 18 || i == 23 {
            assert_eq!(c, '-');
        } else {
            assert!(c.is_ascii_digit() || ('a'..='f').contains(&c));
        }
    }
    assert_eq!(d.trace_id, Some(CoralTraceId::from_str(&g).0));
    assert!(d.insert_trace_header);
    assert_eq!(d.span_id, Some(12));
    let (d, header) = coral::midware::request_trace(HeaderText::Text("abc"), HeaderText::Unreadable);
    assert!(header.is_none());
    assert_eq!(d.trace_id, Some(CoralTraceId::from_str("abc").0));
    assert_eq!(d.span_id, None);
}
