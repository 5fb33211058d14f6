use std::sync::Arc;

use revproxy::ProxyError;
use revproxy::bytes::{bytes_eq, to_ascii_lower};
use revproxy::handler::{InboundRequest, ProxyAction, ProxyHandler, handle_request, relay};
use revproxy::headers::{Header, is_forbidden_header, sanitize_headers};
use revproxy::rewrite::{build_outbound, rewrite_uri_bytes};
use revproxy::stats::{SharedStats, StatsCounter};

fn header(name: &[u8], value: &[u8]) -> Header {
    Header { name: name.to_vec(), value: value.to_vec() }
}

fn plain_request(path: &[u8]) -> InboundRequest {
    InboundRequest { path: path.to_vec(), query: None, headers: Vec::new() }
}

#[test]
fn ascii_lower_and_eq() {
    assert_eq!(to_ascii_lower(b"AbC-09z").as_slice(), b"abc-09z");
    assert!(bytes_eq(b"same", b"same"));
    assert!(!bytes_eq(b"same", b"sane"));
    assert!(!bytes_eq(b"same", b"sam"));
}

#[test]
fn forbidden_names_any_case() {
    assert!(is_forbidden_header(&b"content-length".to_vec()));
    assert!(is_forbidden_header(&b"CoNtEnT-LeNgTh".to_vec()));
    assert!(is_forbidden_header(&b"TRANSFER-ENCODING".to_vec()));
    assert!(is_forbidden_header(&b"accept-ENCODING".to_vec()));
    assert!(is_forbidden_header(&b"Content-Encoding".to_vec()));
    assert!(!is_forbidden_header(&b"content-length-x".to_vec()));
    assert!(!is_forbidden_header(&b"accept".to_vec()));
}

#[test]
fn sanitize_removes_forbidden_keeps_others_in_order() {
    let input = vec![
        header(b"Content-Length", b"10"),
        header(b"accept", b"text/html"),
        header(b"TRANSFER-ENCODING", b"chunked"),
        header(b"x-custom", b"one"),
        header(b"Accept-Encoding", b"gzip"),
        header(b"content-encoding", b"br"),
        header(b"host", b"example.test"),
    ];
    let out = sanitize_headers(&input);
    assert_eq!(out.len(), 3);
    assert_eq!(out[0].name.as_slice(), b"accept");
    assert_eq!(out[0].value.as_slice(), b"text/html");
    assert_eq!(out[1].name.as_slice(), b"x-custom");
    assert_eq!(out[1].value.as_slice(), b"one");
    assert_eq!(out[2].name.as_slice(), b"host");
    assert_eq!(out[2].value.as_slice(), b"example.test");
}

#[test]
fn rewrite_without_query() {
    let uri = rewrite_uri_bytes(&b"https://example.test".to_vec(), &b"/blog".to_vec(), &None);
    assert_eq!(uri.as_slice(), b"https://example.test/blog");
}

#[test]
fn rewrite_with_query() {
    let uri = rewrite_uri_bytes(
        &b"https://example.test".to_vec(),
        &b"/blog".to_vec(),
        &Some(b"x=1".to_vec()),
    );
    assert_eq!(uri.as_slice(), b"https://example.test/blog?x=1");
}

#[test]
fn build_outbound_parses_real_uri() {
    let out = build_outbound(
        &b"https://example.test".to_vec(),
        &b"/blog".to_vec(),
        &Some(b"x=1".to_vec()),
        &Vec::new(),
    )
    .unwrap();
    assert_eq!(out.uri_bytes.as_slice(), b"https://example.test/blog?x=1");
    // The parsed URI really is what the bytes spell out.
    assert_eq!(out.uri.to_string(), "https://example.test/blog?x=1");
    assert_eq!(out.uri.host(), Some("example.test"));
    assert_eq!(out.uri.path(), "/blog");
    assert_eq!(out.uri.query(), Some("x=1"));
}

#[test]
fn build_outbound_rejects_invalid_uri() {
    let r = build_outbound(
        &b"https://example.test".to_vec(),
        &vec![b'/', 0xff],
        &None,
        &Vec::new(),
    );
    match r {
        Err(ProxyError::UriConstruction) => {}
        _ => panic!("an invalid rewritten target must be reported"),
    }
}

#[test]
fn status_request_reads_counter_without_counting() {
    let mut stats = StatsCounter::new();
    let base = b"https://example.test".to_vec();
    let r = handle_request(plain_request(b"/status"), &mut stats, &base).unwrap();
    match r {
        ProxyAction::Status { body } => assert_eq!(body.as_slice(), b"Stats { proxied: 0 }"),
        _ => panic!("a status request must be answered locally"),
    }
    assert_eq!(stats.snapshot(), 0);
    let again = handle_request(plain_request(b"/status"), &mut stats, &base).unwrap();
    match again {
        ProxyAction::Status { body } => assert_eq!(body.as_slice(), b"Stats { proxied: 0 }"),
        _ => panic!("a status request must be answered locally"),
    }
    assert_eq!(stats.snapshot(), 0);
}

#[test]
fn each_forwarding_attempt_is_counted_once() {
    let mut stats = StatsCounter::new();
    let base = b"https://example.test".to_vec();
    for i in 1..=3usize {
        let r = handle_request(plain_request(b"/a"), &mut stats, &base);
        assert!(r.is_ok());
        assert_eq!(stats.snapshot(), i);
    }
}

#[test]
fn failed_rewrite_still_counts_the_attempt() {
    let mut stats = StatsCounter::new();
    let base = b"https://example.test".to_vec();
    let r = handle_request(plain_request(&[b'/', 0xff]), &mut stats, &base);
    match r {
        Err(ProxyError::UriConstruction) => {}
        _ => panic!("an invalid rewritten target must be reported"),
    }
    assert_eq!(stats.snapshot(), 1);
}

#[test]
fn scenario_blog_query_with_headers() {
    let mut stats = StatsCounter::new();
    let base = b"https://example.test".to_vec();
    let req = InboundRequest {
        path: b"/blog".to_vec(),
        query: Some(b"x=1".to_vec()),
        headers: vec![header(b"content-length", b"10"), header(b"accept", b"text/html")],
    };
    let r = handle_request(req, &mut stats, &base).unwrap();
    match r {
        ProxyAction::Forward { outbound } => {
            assert_eq!(outbound.uri_bytes.as_slice(), b"https://example.test/blog?x=1");
            assert_eq!(outbound.uri.to_string(), "https://example.test/blog?x=1");
            assert_eq!(outbound.headers.len(), 1);
            assert_eq!(outbound.headers[0].name.as_slice(), b"accept");
            assert_eq!(outbound.headers[0].value.as_slice(), b"text/html");
        }
        _ => panic!("a non-status request must be forwarded"),
    }
    assert_eq!(stats.snapshot(), 1);
}

#[test]
fn scenario_status_after_five_requests() {
    let mut stats = StatsCounter::new();
    let base = b"https://example.test".to_vec();
    for _ in 0..5 {
        let r = handle_request(plain_request(b"/blog"), &mut stats, &base);
        assert!(r.is_ok());
    }
    let r = handle_request(plain_request(b"/status"), &mut stats, &base).unwrap();
    match r {
        ProxyAction::Status { body } => assert_eq!(body.as_slice(), b"Stats { proxied: 5 }"),
        _ => panic!("a status request must be answered locally"),
    }
    assert_eq!(stats.snapshot(), 5);
}

#[test]
fn counter_rendering_exact() {
    let mut stats = StatsCounter::new();
    assert_eq!(stats.render().as_slice(), b"Stats { proxied: 0 }");
    for _ in 0..42 {
        stats.increment();
    }
    assert_eq!(stats.render().as_slice(), b"Stats { proxied: 42 }");
    for _ in 0..958 {
        stats.increment();
    }
    assert_eq!(stats.render().as_slice(), b"Stats { proxied: 1000 }");
}

#[test]
fn shared_counter_loses_no_update_over_thousand_attempts() {
    let shared = SharedStats::new();
    for _ in 0..1000 {
        shared.increment();
    }
    assert_eq!(shared.snapshot_text().as_slice(), b"Stats { proxied: 1000 }");
}

#[test]
fn handler_thousand_requests_each_counted() {
    let handler = ProxyHandler::new(b"https://example.test".to_vec());
    for _ in 0..1000 {
        let r = handler.handle(plain_request(b"/a"));
        assert!(r.is_ok());
    }
    assert_eq!(handler.status_text().as_slice(), b"Stats { proxied: 1000 }");
    let r = handler.handle(plain_request(b"/status")).unwrap();
    match r {
        ProxyAction::Status { body } => assert_eq!(body.as_slice(), b"Stats { proxied: 1000 }"),
        _ => panic!("a status request must be answered locally"),
    }
}

#[test]
fn relay_passes_response_and_reports_unreachable() {
    assert_eq!(relay(Some(7u8)), Ok(7u8));
    assert_eq!(relay(None::<u8>), Err(ProxyError::UpstreamUnreachable));
}

#[test]
fn concurrent_attempts_all_counted() {
    let handler = Arc::new(ProxyHandler::new(b"https://example.test".to_vec()));
    let runtime = tokio::runtime::Runtime::new().unwrap();
    runtime.block_on(async {
        let mut joins = Vec::new();
        for _ in 0..1000 {
            let handler = handler.clone();
            joins.push(tokio::spawn(async move {
                let r = handler.handle(InboundRequest {
                    path: b"/a".to_vec(),
                    query: None,
                    headers: Vec::new(),
                });
                assert!(r.is_ok());
            }));
        }
        for join in joins {
            join.await.unwrap();
        }
    });
    assert_eq!(handler.status_text().as_slice(), b"Stats { proxied: 1000 }");
}
