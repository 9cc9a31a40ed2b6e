use std::time::Duration;

use scanii::client::{
    accepts_status, filename_or_upload, upload_fields, Operation, ScaniiClientBuilder,
};
use scanii::{ScaniiClient, ScaniiError, ScaniiTarget, VERSION};

#[test]
fn builder_rejects_empty_key() {
    let err = ScaniiClient::builder()
        .key("")
        .secret("s")
        .build()
        .unwrap_err();
    assert!(matches!(err, ScaniiError::Config(_)), "got {err:?}");
}

#[test]
fn builder_rejects_colon_in_key() {
    let err = ScaniiClient::builder()
        .key("a:b")
        .secret("s")
        .build()
        .unwrap_err();
    assert!(matches!(err, ScaniiError::Config(_)));
}

#[test]
fn builder_rejects_missing_secret() {
    let err = ScaniiClient::builder().key("k").build().unwrap_err();
    assert!(matches!(err, ScaniiError::Config(_)));
}

#[test]
fn builder_rejects_token_plus_key() {
    let err = ScaniiClient::builder()
        .token("t")
        .key("k")
        .secret("s")
        .build()
        .unwrap_err();
    assert!(matches!(err, ScaniiError::Config(_)));
}

#[test]
fn builder_token_only_succeeds() {
    let _ = ScaniiClient::builder().token("tok").build().unwrap();
}

#[test]
fn version_constant_matches_cargo_pkg_version() {
    assert_eq!(VERSION, "1.3.0");
}

fn config_message(r: Result<ScaniiClient, ScaniiError>) -> String {
    match r {
        Err(ScaniiError::Config(m)) => m,
        Err(other) => panic!("expected a configuration error, got {other:?}"),
        Ok(_) => panic!("expected a configuration error, got a client"),
    }
}

#[test]
fn builder_error_messages() {
    assert_eq!(
        config_message(ScaniiClient::builder().build()),
        "key must be set (or use token for auth-token mode)"
    );
    assert_eq!(
        config_message(ScaniiClient::builder().key("").secret("s").build()),
        "key must not be empty"
    );
    assert_eq!(
        config_message(ScaniiClient::builder().key("a:b").secret("s").build()),
        "key must not contain a colon"
    );
    assert_eq!(
        config_message(ScaniiClient::builder().key("k").build()),
        "secret must be set when using key auth"
    );
    assert_eq!(
        config_message(ScaniiClient::builder().token("t").secret("s").build()),
        "supply either token or key+secret, not both"
    );
    assert_eq!(
        config_message(ScaniiClient::builder().token("").build()),
        "token must not be empty"
    );
}

#[test]
fn builder_key_secret_auth_header() {
    let c = ScaniiClient::builder().key("key").secret("secret").build().unwrap();
    assert_eq!(c.auth_header(), "Basic a2V5OnNlY3JldA==");
    // An empty secret is accepted: only the key is checked.
    let c = ScaniiClient::builder().key("k").secret("").build().unwrap();
    assert_eq!(c.auth_header(), "Basic azo=");
}

#[test]
fn builder_token_auth_header() {
    let c = ScaniiClient::builder().token("tok").build().unwrap();
    assert_eq!(c.auth_header(), "Basic dG9rOg==");
}

#[test]
fn builder_default_endpoint_and_user_agent() {
    let c = ScaniiClient::builder().key("k").secret("s").build().unwrap();
    assert_eq!(c.base_url(), "https://api.scanii.com/v2.2");
    assert_eq!(c.user_agent(), "scanii-rust/1.3.0");
}

#[test]
fn builder_trims_trailing_slashes_of_endpoint() {
    let a = ScaniiClient::builder()
        .key("k")
        .secret("s")
        .endpoint("http://localhost:4000///")
        .build()
        .unwrap();
    let b = ScaniiClient::builder()
        .key("k")
        .secret("s")
        .endpoint("http://localhost:4000")
        .build()
        .unwrap();
    assert_eq!(a.base_url(), "http://localhost:4000/v2.2");
    assert_eq!(a.base_url(), b.base_url());
}

#[test]
fn builder_target_sets_endpoint() {
    let c = ScaniiClient::builder()
        .key("k")
        .secret("s")
        .target(ScaniiTarget::eu1())
        .build()
        .unwrap();
    assert_eq!(c.base_url(), "https://api-eu1.scanii.com/v2.2");
}

#[test]
fn builder_user_agent_prefix() {
    let c = ScaniiClient::builder()
        .key("k")
        .secret("s")
        .user_agent("my-app/2")
        .build()
        .unwrap();
    assert_eq!(c.user_agent(), "my-app/2 scanii-rust/1.3.0");
    let c = ScaniiClient::builder()
        .key("k")
        .secret("s")
        .user_agent("")
        .build()
        .unwrap();
    assert_eq!(c.user_agent(), "scanii-rust/1.3.0");
}

#[test]
fn builder_accepts_timeout() {
    let b: ScaniiClientBuilder = ScaniiClient::builder()
        .key("k")
        .secret("s")
        .timeout(Duration::from_secs(2));
    assert!(b.build().is_ok());
}

#[test]
fn request_carries_standard_headers() {
    let c = ScaniiClient::builder()
        .key("key")
        .secret("secret")
        .endpoint("http://localhost:4000")
        .build()
        .unwrap();
    let r = c.prepare_ping();
    assert_eq!(r.method, "GET");
    assert_eq!(r.url, "http://localhost:4000/v2.2/ping");
    assert_eq!(
        r.headers,
        vec![
            ("Authorization".to_string(), "Basic a2V5OnNlY3JldA==".to_string()),
            ("User-Agent".to_string(), "scanii-rust/1.3.0".to_string()),
            ("Accept".to_string(), "application/json".to_string()),
        ]
    );
}

fn local_client() -> ScaniiClient {
    ScaniiClient::builder()
        .key("key")
        .secret("secret")
        .endpoint("http://localhost:4000")
        .build()
        .unwrap()
}

#[test]
fn retrieve_percent_encodes_the_id() {
    let c = local_client();
    let r = c.prepare_retrieve("a/b c").unwrap();
    assert_eq!(r.method, "GET");
    assert_eq!(r.url, "http://localhost:4000/v2.2/files/a%2Fb%20c");
    let e = c.prepare_retrieve("").err().unwrap();
    assert!(matches!(e, ScaniiError::Config(ref m) if m == "id must not be empty"));
}

#[test]
fn auth_token_requests() {
    let c = local_client();
    let r = c.prepare_retrieve_auth_token("t1").unwrap();
    assert_eq!(r.method, "GET");
    assert_eq!(r.url, "http://localhost:4000/v2.2/auth/tokens/t1");
    let d = c.prepare_delete_auth_token("t1").unwrap();
    assert_eq!(d.method, "DELETE");
    assert_eq!(d.url, "http://localhost:4000/v2.2/auth/tokens/t1");
    assert!(matches!(
        c.prepare_delete_auth_token("").err().unwrap(),
        ScaniiError::Config(_)
    ));
    let f = c.prepare_create_auth_token(300).unwrap();
    assert_eq!(f.request.method, "POST");
    assert_eq!(f.request.url, "http://localhost:4000/v2.2/auth/tokens");
    assert_eq!(f.form, vec![("timeout".to_string(), "300".to_string())]);
    let e = c.prepare_create_auth_token(0).err().unwrap();
    assert!(matches!(e, ScaniiError::Config(ref m) if m == "timeout_seconds must be positive"));
}

#[test]
fn fetch_form_order() {
    let c = local_client();
    let md = vec![("source".to_string(), "unit".to_string())];
    let f = c
        .prepare_fetch("https://example.com/test.txt", Some(&md), Some("https://cb"))
        .unwrap();
    assert_eq!(f.request.method, "POST");
    assert_eq!(f.request.url, "http://localhost:4000/v2.2/files/fetch");
    assert_eq!(
        f.form,
        vec![
            ("location".to_string(), "https://example.com/test.txt".to_string()),
            ("callback".to_string(), "https://cb".to_string()),
            ("metadata[source]".to_string(), "unit".to_string()),
        ]
    );
    let e = c.prepare_fetch("", None, None).err().unwrap();
    assert!(matches!(e, ScaniiError::Config(ref m) if m == "location must not be empty"));
}

#[test]
fn upload_request_framing() {
    let c = local_client();
    let md = vec![("k".to_string(), "v".to_string())];
    let u = c.prepare_process("b0", "f.txt", None, Some(&md), Some("http://cb"));
    assert_eq!(u.request.method, "POST");
    assert_eq!(u.request.url, "http://localhost:4000/v2.2/files");
    assert_eq!(
        u.request.headers.last().unwrap(),
        &(
            "Content-Type".to_string(),
            "multipart/form-data; boundary=b0".to_string()
        )
    );
    let prologue = String::from_utf8(u.prologue).unwrap();
    assert_eq!(
        prologue,
        "--b0\r\nContent-Disposition: form-data; name=\"metadata[k]\"\r\nContent-Type: text/plain; charset=UTF-8\r\n\r\nv\r\n\
         --b0\r\nContent-Disposition: form-data; name=\"callback\"\r\nContent-Type: text/plain; charset=UTF-8\r\n\r\nhttp://cb\r\n\
         --b0\r\nContent-Disposition: form-data; name=\"file\"; filename=\"f.txt\"\r\nContent-Type: application/octet-stream\r\n\r\n"
    );
    assert_eq!(u.epilogue, b"\r\n--b0--\r\n".to_vec());
    let a = c.prepare_process_async("b0", "f.txt", Some("text/plain"), None, None);
    assert_eq!(a.request.url, "http://localhost:4000/v2.2/files/async");
    assert!(String::from_utf8(a.prologue)
        .unwrap()
        .ends_with("Content-Type: text/plain\r\n\r\n"));
}

#[test]
fn upload_fields_order() {
    let md = vec![
        ("a".to_string(), "1".to_string()),
        ("b".to_string(), "2".to_string()),
    ];
    assert_eq!(
        upload_fields(Some(&md), Some("cb")),
        vec![
            ("metadata[a]".to_string(), "1".to_string()),
            ("metadata[b]".to_string(), "2".to_string()),
            ("callback".to_string(), "cb".to_string()),
        ]
    );
    assert!(upload_fields(None, None).is_empty());
}

#[test]
fn success_statuses() {
    assert!(accepts_status(Operation::Process, 201));
    assert!(!accepts_status(Operation::Process, 200));
    assert!(accepts_status(Operation::ProcessAsync, 202));
    assert!(accepts_status(Operation::Fetch, 202));
    assert!(accepts_status(Operation::Retrieve, 200));
    assert!(!accepts_status(Operation::Retrieve, 404));
    assert!(accepts_status(Operation::Ping, 200));
    assert!(accepts_status(Operation::CreateAuthToken, 200));
    assert!(accepts_status(Operation::CreateAuthToken, 201));
    assert!(!accepts_status(Operation::CreateAuthToken, 202));
    assert!(accepts_status(Operation::RetrieveAuthToken, 200));
    assert!(accepts_status(Operation::DeleteAuthToken, 204));
    assert!(!accepts_status(Operation::DeleteAuthToken, 200));
}

#[test]
fn upload_file_names() {
    assert_eq!(scanii::client::path_filename("/tmp/dir/report.pdf"), "report.pdf");
    assert_eq!(scanii::client::path_filename("/"), "upload");
    assert_eq!(filename_or_upload(None), "upload");
    assert_eq!(filename_or_upload(Some("x".to_string())), "x");
}

#[test]
fn targets() {
    assert_eq!(ScaniiTarget::us1().url(), "https://api-us1.scanii.com");
    assert_eq!(ScaniiTarget::eu1().url(), "https://api-eu1.scanii.com");
    assert_eq!(ScaniiTarget::eu2().url(), "https://api-eu2.scanii.com");
    assert_eq!(ScaniiTarget::ap1().url(), "https://api-ap1.scanii.com");
    assert_eq!(ScaniiTarget::ap2().url(), "https://api-ap2.scanii.com");
    assert_eq!(ScaniiTarget::ca1().url(), "https://api-ca1.scanii.com");
    assert_eq!(
        ScaniiTarget::from_url("http://localhost:4000").url(),
        "http://localhost:4000"
    );
    assert_eq!(ScaniiTarget::from_url("x"), ScaniiTarget::from_url("x"));
}

#[test]
fn url_submission_request() {
    let c = local_client();
    let md = vec![("k".to_string(), "v".to_string())];
    let b = c.prepare_process_from_url("B", "https://x/y", Some(&md));
    assert_eq!(b.request.method, "POST");
    assert_eq!(b.request.url, "http://localhost:4000/v2.2/files");
    assert_eq!(
        b.request.headers.last().unwrap().1,
        "multipart/form-data; boundary=B"
    );
    assert_eq!(
        String::from_utf8(b.body).unwrap(),
        "--B\r\nContent-Disposition: form-data; name=\"location\"\r\nContent-Type: text/plain; charset=UTF-8\r\n\r\nhttps://x/y\r\n\
         --B\r\nContent-Disposition: form-data; name=\"metadata[k]\"\r\nContent-Type: text/plain; charset=UTF-8\r\n\r\nv\r\n\
         --B--\r\n"
    );
    assert!(accepts_status(Operation::ProcessFromUrl, 201));
}

#[test]
fn distinct_credentials_give_distinct_headers() {
    let h = |k: &str, s: &str| {
        ScaniiClient::builder()
            .key(k)
            .secret(s)
            .build()
            .unwrap()
            .auth_header()
            .to_string()
    };
    assert_ne!(h("ab", "c"), h("a", "bc"));
    assert_ne!(h("a", "b:c"), h("a", "bc"));
    // The split that would be ambiguous is refused.
    assert!(ScaniiClient::builder().key("a:b").secret("c").build().is_err());
}

#[test]
fn timeout_is_carried_on_requests() {
    let c = ScaniiClient::builder()
        .key("k")
        .secret("s")
        .timeout(Duration::from_secs(2))
        .build()
        .unwrap();
    assert_eq!(c.timeout(), Duration::from_secs(2));
    assert_eq!(c.prepare_ping().timeout, Duration::from_secs(2));
    assert_eq!(c.prepare_retrieve("x").unwrap().timeout, Duration::from_secs(2));
    assert_eq!(
        c.prepare_process("b", "f", None, None, None).request.timeout,
        Duration::from_secs(2)
    );
    let d = ScaniiClient::builder().key("k").secret("s").build().unwrap();
    assert_eq!(d.timeout(), Duration::from_secs(60));
    assert_eq!(d.prepare_ping().timeout, Duration::from_secs(60));
}

#[test]
fn auto_endpoint_detection() {
    assert!(ScaniiClient::builder().key("k").uses_auto_endpoint());
    assert!(!ScaniiClient::builder().endpoint("http://x").uses_auto_endpoint());
    assert!(!ScaniiClient::builder().target(ScaniiTarget::ca1()).uses_auto_endpoint());
}
