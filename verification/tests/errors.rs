use scanii::error::{
    error_from_response, error_message_from, error_text_of, parse_error_message, parse_retry_after,
    JsonShape,
};
use scanii::models::{
    attach_auth_token_headers, attach_pending_headers, attach_processing_headers, ResponseHeaders,
};
use scanii::{ScaniiAuthToken, ScaniiError, ScaniiPendingResult, ScaniiProcessingResult};

#[test]
fn error_message_from_body() {
    assert_eq!(parse_error_message(""), None);
    assert_eq!(parse_error_message("{\"error\":\"bad key\"}"), Some("bad key".to_string()));
    assert_eq!(parse_error_message("plain text"), Some("plain text".to_string()));
    assert_eq!(
        parse_error_message("{\"error\":42}"),
        Some("{\"error\":42}".to_string())
    );
    assert_eq!(parse_error_message("[1]"), Some("[1]".to_string()));
    assert_eq!(parse_error_message("{\"error\":\"\"}"), Some(String::new()));
    assert_eq!(
        parse_error_message("{\"message\":\"m\"}"),
        Some("{\"message\":\"m\"}".to_string())
    );
    let object = JsonShape::Object(vec![
        ("code".to_string(), None),
        ("error".to_string(), Some("x".to_string())),
    ]);
    assert_eq!(error_message_from("", &object), None);
    assert_eq!(error_message_from("body", &object), Some("x".to_string()));
    assert_eq!(error_message_from("body", &JsonShape::NotJson), Some("body".to_string()));
    assert_eq!(error_message_from("body", &JsonShape::NotObject), Some("body".to_string()));
    let not_text = JsonShape::Object(vec![("error".to_string(), None)]);
    assert_eq!(error_message_from("body", &not_text), Some("body".to_string()));
}

#[test]
fn retry_after_values() {
    assert_eq!(parse_retry_after("120"), Some(120));
    assert_eq!(parse_retry_after("+7"), Some(7));
    assert_eq!(parse_retry_after("007"), Some(7));
    assert_eq!(parse_retry_after("18446744073709551615"), Some(u64::MAX));
    assert_eq!(parse_retry_after("18446744073709551616"), None);
    assert_eq!(parse_retry_after(""), None);
    assert_eq!(parse_retry_after("+"), None);
    assert_eq!(parse_retry_after("-1"), None);
    assert_eq!(parse_retry_after(" 5"), None);
    assert_eq!(parse_retry_after("Wed, 21 Oct 2015 07:28:00 GMT"), None);
    for s in ["0", "1", "99", "+12", "4294967296", "x", "1x", "99999999999999999999"] {
        assert_eq!(parse_retry_after(s), s.parse::<u64>().ok(), "{s}");
    }
}

#[test]
fn status_to_error_variant() {
    match error_from_response(401, Some("r1".to_string()), None, "{\"error\":\"nope\"}") {
        ScaniiError::Auth { message, request_id } => {
            assert_eq!(message, "nope");
            assert_eq!(request_id, Some("r1".to_string()));
        }
        other => panic!("expected Auth, got {other:?}"),
    }
    assert!(matches!(
        error_from_response(403, None, None, ""),
        ScaniiError::Auth { ref message, .. } if message == "HTTP 403"
    ));
    match error_from_response(429, None, Some("30"), "slow down") {
        ScaniiError::RateLimit { retry_after, message, request_id } => {
            assert_eq!(retry_after, Some(30));
            assert_eq!(message, "slow down");
            assert_eq!(request_id, None);
        }
        other => panic!("expected RateLimit, got {other:?}"),
    }
    assert!(matches!(
        error_from_response(429, None, Some("soon"), ""),
        ScaniiError::RateLimit { retry_after: None, .. }
    ));
    match error_from_response(404, None, None, "") {
        ScaniiError::Http { status, message, .. } => {
            assert_eq!(status, 404);
            assert_eq!(message, "HTTP 404");
        }
        other => panic!("expected Http, got {other:?}"),
    }
    assert!(matches!(
        error_from_response(200, None, None, "x"),
        ScaniiError::Http { status: 200, .. }
    ));
}

#[test]
fn error_text() {
    assert_eq!(
        ScaniiError::Config("x".to_string()).to_string(),
        "configuration error: x"
    );
    assert_eq!(
        ScaniiError::Auth { message: "m".to_string(), request_id: None }.to_string(),
        "authentication failed: m"
    );
    assert_eq!(
        ScaniiError::RateLimit { retry_after: Some(5), message: "m".to_string(), request_id: None }
            .to_string(),
        "rate limited (retry after 5s): m"
    );
    assert_eq!(
        ScaniiError::RateLimit { retry_after: None, message: "m".to_string(), request_id: None }
            .to_string(),
        "rate limited: m"
    );
    assert_eq!(
        ScaniiError::Http { status: 500, message: "m".to_string(), request_id: None }.to_string(),
        "HTTP 500: m"
    );
    assert_eq!(ScaniiError::Transport("t".to_string()).to_string(), "transport error: t");
    assert_eq!(ScaniiError::Serde("s".to_string()).to_string(), "deserialization error: s");
    let io = std::io::Error::new(std::io::ErrorKind::NotFound, "gone");
    let e = ScaniiError::from(io);
    assert!(matches!(e, ScaniiError::Io(_)));
    assert_eq!(e.to_string(), "I/O error: gone");
}

fn headers() -> ResponseHeaders {
    ResponseHeaders {
        request_id: Some("req".to_string()),
        host_id: Some("host".to_string()),
        location: Some("/files/1".to_string()),
    }
}

#[test]
fn headers_are_attached() {
    let mut p = ScaniiProcessingResult::default();
    p.id = "1".to_string();
    p.findings = vec!["f".to_string()];
    attach_processing_headers(&mut p, headers());
    assert_eq!(p.id, "1");
    assert_eq!(p.findings, vec!["f".to_string()]);
    assert_eq!(p.request_id.as_deref(), Some("req"));
    assert_eq!(p.host_id.as_deref(), Some("host"));
    assert_eq!(p.resource_location.as_deref(), Some("/files/1"));

    let mut q = ScaniiPendingResult { id: "2".to_string(), ..Default::default() };
    attach_pending_headers(&mut q, headers());
    assert_eq!(q.id, "2");
    assert_eq!(q.request_id.as_deref(), Some("req"));

    let mut t = ScaniiAuthToken {
        id: "3".to_string(),
        expiration_date: Some("later".to_string()),
        ..Default::default()
    };
    attach_auth_token_headers(&mut t, ResponseHeaders::default());
    assert_eq!(t.id, "3");
    assert_eq!(t.expiration_date.as_deref(), Some("later"));
    assert_eq!(t.request_id, None);
}

#[test]
fn error_member_lookup() {
    let shape = JsonShape::Object(vec![
        ("a".to_string(), Some("1".to_string())),
        ("error".to_string(), Some("boom".to_string())),
    ]);
    assert_eq!(error_text_of(&shape), Some("boom".to_string()));
    assert_eq!(error_text_of(&JsonShape::Object(vec![])), None);
    assert_eq!(error_text_of(&JsonShape::NotObject), None);
    assert_eq!(error_text_of(&JsonShape::NotJson), None);
}
