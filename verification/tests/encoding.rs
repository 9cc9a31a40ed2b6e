use scanii::codec::{base64_encode, u128_to_hex, u64_to_decimal, url_encode};
use scanii::multipart::{
    ascii_lowercase, boundary_from_parts, build_epilogue, build_prologue, build_text_only_body,
    content_type_for_extension, guess_content_type, make_content_type, text_eq,
};

#[test]
fn base64_known_vectors() {
    assert_eq!(base64_encode(""), "");
    assert_eq!(base64_encode("f"), "Zg==");
    assert_eq!(base64_encode("fo"), "Zm8=");
    assert_eq!(base64_encode("foo"), "Zm9v");
    assert_eq!(base64_encode("foob"), "Zm9vYg==");
    assert_eq!(base64_encode("fooba"), "Zm9vYmE=");
    assert_eq!(base64_encode("foobar"), "Zm9vYmFy");
    assert_eq!(base64_encode("key:secret"), "a2V5OnNlY3JldA==");
}

#[test]
fn base64_full_alphabet_and_length() {
    // U+0FFF is E0 BF BF in UTF-8, which uses the last two alphabet characters.
    assert_eq!(base64_encode("\u{fff}"), "4L+/");
    assert_eq!(base64_encode("~~~"), "fn5+");
    assert_eq!(base64_encode("\u{7f}"), "fw==");
    assert_eq!(base64_encode("é"), "w6k=");
    for n in 0..20usize {
        let s = "a".repeat(n);
        assert_eq!(base64_encode(&s).len(), 4 * ((n + 2) / 3));
    }
}

#[test]
fn url_encode_basic() {
    assert_eq!(url_encode("abc"), "abc");
    assert_eq!(url_encode("a/b"), "a%2Fb");
    assert_eq!(url_encode("a b"), "a%20b");
}

#[test]
fn url_encode_unreserved_and_utf8() {
    assert_eq!(url_encode("AZaz09-_.~"), "AZaz09-_.~");
    assert_eq!(url_encode("é"), "%C3%A9");
    assert_eq!(url_encode("?#%"), "%3F%23%25");
    assert_eq!(url_encode(""), "");
}

#[test]
fn decimal_and_hex() {
    assert_eq!(u64_to_decimal(0), "0");
    assert_eq!(u64_to_decimal(429), "429");
    assert_eq!(u64_to_decimal(u64::MAX), "18446744073709551615");
    assert_eq!(u128_to_hex(0), "0");
    assert_eq!(u128_to_hex(255), "ff");
    assert_eq!(u128_to_hex(u128::MAX), format!("{:x}", u128::MAX));
}

fn assemble(prologue: &[u8], content: &[u8], epilogue: &[u8]) -> Vec<u8> {
    let mut out: Vec<u8> = Vec::with_capacity(prologue.len() + content.len() + epilogue.len());
    out.extend_from_slice(prologue);
    out.extend_from_slice(content);
    out.extend_from_slice(epilogue);
    out
}

#[test]
fn encode_emits_well_formed_body() {
    let boundary = "test-boundary-123";
    let fields = vec![("metadata[source]".to_string(), "unit".to_string())];

    let prologue = build_prologue(boundary, "hello.txt", "text/plain", &fields);
    let epilogue = build_epilogue(boundary);
    let content = b"hello world";

    let body = assemble(&prologue, content, &epilogue);
    let body_str = String::from_utf8_lossy(&body);

    assert!(body_str.contains("name=\"metadata[source]\""));
    assert!(body_str.contains("name=\"file\"; filename=\"hello.txt\""));
    assert!(body_str.contains("hello world"));
    assert!(body_str.ends_with("--\r\n"));
    assert!(body_str.contains(&format!("--{boundary}--\r\n")));
}

#[test]
fn prologue_exact_bytes() {
    let prologue = build_prologue("B", "a.bin", "application/octet-stream", &[]);
    assert_eq!(
        prologue,
        b"--B\r\nContent-Disposition: form-data; name=\"file\"; filename=\"a.bin\"\r\nContent-Type: application/octet-stream\r\n\r\n".to_vec()
    );
    assert_eq!(build_epilogue("B"), b"\r\n--B--\r\n".to_vec());
}

#[test]
fn text_only_body() {
    let fields = vec![("location".to_string(), "https://x".to_string())];
    let body = build_text_only_body("B", &fields);
    assert_eq!(
        String::from_utf8(body).unwrap(),
        "--B\r\nContent-Disposition: form-data; name=\"location\"\r\nContent-Type: text/plain; charset=UTF-8\r\n\r\nhttps://x\r\n--B--\r\n"
    );
    assert_eq!(build_text_only_body("B", &[]), b"--B--\r\n".to_vec());
}

#[test]
fn make_content_type_includes_boundary() {
    let ct = make_content_type("xyz");
    assert_eq!(ct, "multipart/form-data; boundary=xyz");
}

#[test]
fn boundary_parts_are_distinct() {
    let a = boundary_from_parts(0x1234, 0);
    let b = boundary_from_parts(0x1234, 1);
    assert_ne!(a, b);
    assert_eq!(a, "----scanii-rust-boundary-1234-0");
    // (0x1, 0x23) and (0x12, 0x3) must not collide.
    assert_ne!(boundary_from_parts(0x1, 0x23), boundary_from_parts(0x12, 0x3));
}

#[test]
fn guess_content_type_known_extensions() {
    assert_eq!(guess_content_type("a.txt"), "text/plain");
    assert_eq!(guess_content_type("a.PDF"), "application/pdf");
    assert_eq!(guess_content_type("nope"), "application/octet-stream");
}

#[test]
fn content_type_table() {
    assert_eq!(content_type_for_extension(Some("HTM")), "text/html");
    assert_eq!(content_type_for_extension(Some("jpeg")), "image/jpeg");
    assert_eq!(
        content_type_for_extension(Some("docx")),
        "application/vnd.openxmlformats-officedocument.wordprocessingml.document"
    );
    assert_eq!(content_type_for_extension(Some("tar")), "application/octet-stream");
    assert_eq!(content_type_for_extension(None), "application/octet-stream");
    assert_eq!(guess_content_type("/x/.hidden"), "application/octet-stream");
    assert_eq!(guess_content_type("archive.tar.GZ"), "application/gzip");
}

#[test]
fn lowercase_and_equality() {
    assert_eq!(ascii_lowercase("AbÉZ"), "abÉz");
    assert!(text_eq("abc", "abc"));
    assert!(!text_eq("abc", "abd"));
    assert!(!text_eq("abc", "ab"));
}

#[test]
fn url_encoding_keeps_ids_apart() {
    assert_ne!(url_encode("%41"), url_encode("A"));
    assert_eq!(url_encode("%41"), "%2541");
    assert_ne!(url_encode("a b"), url_encode("a%20b"));
}
