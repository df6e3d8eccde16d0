use zoraxy_plugin::dynamic_router::{
    DynamicSniffForwardRequest, SniffDecision, SniffExtractorError, DEFAULT_SNIFF_BODY_LIMIT,
};

fn sniff_body() -> String {
    let body = r#"{
        "method": "GET",
        "hostname": "example.com",
        "url": "http://example.com/test",
        "header": {},
        "remote_addr": "127.0.0.1:8080",
        "host": "example.com",
        "request_uri": "/test",
        "proto": "HTTP/1.1",
        "proto_major": 1,
        "proto_minor": 1
    }"#;
    body.to_string()
}

#[test]
fn parses_sniff_payload_and_request_id() {
    let mut payload = DynamicSniffForwardRequest::from_body_text(&sniff_body()).unwrap();
    payload.set_request_uuid(Some("abc123".to_string()));
    assert_eq!(payload.method, "GET");
    assert_eq!(payload.request_uuid().as_deref(), Some("abc123"));
}

#[test]
fn parses_sniff_payload_fields() {
    let payload = DynamicSniffForwardRequest::from_body_text(&sniff_body()).unwrap();
    assert_eq!(payload.hostname, "example.com");
    assert_eq!(payload.url, "http://example.com/test");
    assert_eq!(payload.remote_addr, "127.0.0.1:8080");
    assert_eq!(payload.host, "example.com");
    assert_eq!(payload.request_uri, "/test");
    assert_eq!(payload.proto, "HTTP/1.1");
    assert_eq!(payload.proto_major, 1);
    assert_eq!(payload.proto_minor, 1);
    assert!(payload.header.is_empty());
    assert!(payload.request_uuid().is_none());
}

#[test]
fn parses_sniff_header_map() {
    let body = r#"{
        "method": "GET",
        "hostname": "h",
        "url": "u",
        "header": {"Accept": ["text/html", "text/plain"]},
        "remote_addr": "r",
        "host": "h",
        "request_uri": "/",
        "proto": "HTTP/1.1",
        "proto_major": 1,
        "proto_minor": 1
    }"#;
    let payload = DynamicSniffForwardRequest::from_body_text(body).unwrap();
    assert_eq!(payload.header.len(), 1);
    assert_eq!(payload.header[0].0, "Accept");
    assert_eq!(
        payload.header[0].1,
        vec!["text/html".to_string(), "text/plain".to_string()]
    );
}

#[test]
fn malformed_sniff_body_is_a_json_error() {
    let result = DynamicSniffForwardRequest::from_body_text("{oops");
    match result {
        Err(e @ SniffExtractorError::Json(_)) => {
            assert_eq!(e.status_code(), 500);
            assert!(e.message().starts_with("failed to decode sniff payload: "));
        }
        other => panic!("expected a decode error, got {:?}", other),
    }
}

#[test]
fn sniff_body_missing_field_is_a_json_error() {
    let body = r#"{"method": "GET"}"#;
    assert!(DynamicSniffForwardRequest::from_body_text(body).is_err());
}

#[test]
fn sniff_decision_wire_mapping() {
    assert_eq!(SniffDecision::Accept.status_code(), 200);
    assert_eq!(SniffDecision::Skip.status_code(), 501);
    assert_eq!(SniffDecision::Accept.body_text(), "OK");
    assert_eq!(SniffDecision::Skip.body_text(), "SKIP");
}

#[test]
fn sniff_body_limit_is_a_quarter_megabyte() {
    assert_eq!(DEFAULT_SNIFF_BODY_LIMIT, 256 * 1024);
}
