//! `multipart/form-data` encoding (RFC 7578) of the upload request.
//!
//! The body is split into a small prologue (text fields and the file part
//! header) and a small epilogue (closing boundary); the file content itself
//! is streamed in between by the caller.
use vstd::prelude::*;
use vstd::string::StringExecFns;
use vstd::string::StrSliceExecFns;
use vstd::utf8::encode_utf8;

use crate::codec::{hex_text, lemma_hex_text_injective, lemma_hex_text_no_dash, u128_to_hex};

verus! {

// ---------------------------------------------------------------------------
// Text model of the body
// ---------------------------------------------------------------------------

/// One text field part: boundary line, `Content-Disposition` with the field
/// name, `Content-Type: text/plain; charset=UTF-8`, blank line, value, CRLF.
pub open spec fn text_part_text(boundary: Seq<char>, name: Seq<char>, value: Seq<char>) -> Seq<
    char,
> {
    "--"@ + boundary + "\r\n"@ + "Content-Disposition: form-data; name=\""@ + name + "\"\r\n"@
        + "Content-Type: text/plain; charset=UTF-8\r\n\r\n"@ + value + "\r\n"@
}

/// The text parts of all fields, in order.
pub open spec fn fields_text(boundary: Seq<char>, fields: Seq<(Seq<char>, Seq<char>)>) -> Seq<
    char,
>
    decreases fields.len(),
{
    if fields.len() == 0 {
        seq![]
    } else {
        fields_text(boundary, fields.drop_last()) + text_part_text(
            boundary,
            fields.last().0,
            fields.last().1,
        )
    }
}

/// Header of the file part, up to and including the blank line that
/// precedes the file content.
pub open spec fn file_part_header_text(
    boundary: Seq<char>,
    filename: Seq<char>,
    content_type: Seq<char>,
) -> Seq<char> {
    "--"@ + boundary + "\r\n"@ + "Content-Disposition: form-data; name=\"file\"; filename=\""@
        + filename + "\"\r\n"@ + "Content-Type: "@ + content_type + "\r\n\r\n"@
}

/// Everything before the file content.
pub open spec fn prologue_text(
    boundary: Seq<char>,
    filename: Seq<char>,
    content_type: Seq<char>,
    fields: Seq<(Seq<char>, Seq<char>)>,
) -> Seq<char> {
    fields_text(boundary, fields) + file_part_header_text(boundary, filename, content_type)
}

/// The closing delimiter line `--{boundary}--` followed by CRLF.
pub open spec fn closing_delimiter_text(boundary: Seq<char>) -> Seq<char> {
    "--"@ + boundary + "--\r\n"@
}

/// Everything after the file content: the CRLF ending the file part, then the
/// closing delimiter.
pub open spec fn epilogue_text(boundary: Seq<char>) -> Seq<char> {
    "\r\n"@ + closing_delimiter_text(boundary)
}

/// A body made only of text fields, closed by the closing delimiter.
pub open spec fn text_only_body_text(boundary: Seq<char>, fields: Seq<(Seq<char>, Seq<char>)>) -> Seq<
    char,
> {
    fields_text(boundary, fields) + closing_delimiter_text(boundary)
}

/// Law: UTF-8 encoding distributes over concatenation.
pub proof fn lemma_encode_utf8_concat(a: Seq<char>, b: Seq<char>)
    ensures
        encode_utf8(a + b) == encode_utf8(a) + encode_utf8(b),
    decreases a.len(),
{
    if a.len() == 0 {
        assert(a + b =~= b);
        assert(encode_utf8(a) + encode_utf8(b) =~= encode_utf8(b));
    } else {
        assert((a + b).drop_first() =~= a.drop_first() + b);
        assert((a + b)[0] == a[0]);
        lemma_encode_utf8_concat(a.drop_first(), b);
        assert(encode_utf8(a + b) =~= encode_utf8(a) + encode_utf8(b));
    }
}

/// Appends the UTF-8 bytes of `s` to `out`.
fn push_text(out: &mut Vec<u8>, s: &str)
    ensures
        final(out)@ == old(out)@ + encode_utf8(s@),
{
    let bytes = s.as_bytes();
    let ghost before = out@;
    out.extend_from_slice(bytes);
    assert(out@ =~= before + bytes@);
}

/// Bytes followed by the encoding of `t`, then by the encoding of `s`, are
/// those bytes followed by the encoding of `t + s`.
proof fn lemma_extend_text(start: Seq<u8>, t: Seq<char>, s: Seq<char>)
    ensures
        (start + encode_utf8(t)) + encode_utf8(s) == start + encode_utf8(t + s),
{
    lemma_encode_utf8_concat(t, s);
    assert((start + encode_utf8(t)) + encode_utf8(s) =~= start + (encode_utf8(t) + encode_utf8(s)));
}

/// The bytes of a whole upload: the prologue, the file content, the epilogue.
pub open spec fn upload_body(
    boundary: Seq<char>,
    filename: Seq<char>,
    content_type: Seq<char>,
    fields: Seq<(Seq<char>, Seq<char>)>,
    content: Seq<u8>,
) -> Seq<u8> {
    encode_utf8(prologue_text(boundary, filename, content_type, fields)) + content + encode_utf8(
        epilogue_text(boundary),
    )
}

/// Law: whatever the file content, an upload body starts with the parts of
/// its text fields and ends with the closing delimiter `--{boundary}--`
/// followed by CRLF.
pub proof fn lemma_upload_body_framing(
    boundary: Seq<char>,
    filename: Seq<char>,
    content_type: Seq<char>,
    fields: Seq<(Seq<char>, Seq<char>)>,
    content: Seq<u8>,
)
    ensures
        encode_utf8(fields_text(boundary, fields)).is_prefix_of(
            upload_body(boundary, filename, content_type, fields, content),
        ),
        encode_utf8(closing_delimiter_text(boundary)).is_suffix_of(
            upload_body(boundary, filename, content_type, fields, content),
        ),
{
    let f = encode_utf8(fields_text(boundary, fields));
    let h = encode_utf8(file_part_header_text(boundary, filename, content_type));
    let c = encode_utf8(closing_delimiter_text(boundary));
    let crlf = encode_utf8("\r\n"@);
    lemma_encode_utf8_concat(fields_text(boundary, fields), file_part_header_text(boundary, filename, content_type));
    lemma_encode_utf8_concat("\r\n"@, closing_delimiter_text(boundary));
    let body = upload_body(boundary, filename, content_type, fields, content);
    assert(body =~= f + (h + content + crlf + c));
    assert(body =~= (f + h + content + crlf) + c);
    assert(body.subrange(0, f.len() as int) =~= f);
    assert(body.subrange(body.len() - c.len(), body.len() as int) =~= c);
}

// ---------------------------------------------------------------------------
// Body pieces
// ---------------------------------------------------------------------------

/// Appends one text field part to `out`.
fn write_text_part(out: &mut Vec<u8>, boundary: &str, name: &str, value: &str)
    ensures
        final(out)@ == old(out)@ + encode_utf8(text_part_text(boundary@, name@, value@)),
{
    let ghost start = out@;
    let ghost mut t = Seq::<char>::empty();
    assert(out@ =~= start + encode_utf8(t));
    push_text(out, "--");
    proof {
        lemma_extend_text(start, t, "--"@);
        t = t + "--"@;
    }
    push_text(out, boundary);
    proof {
        lemma_extend_text(start, t, boundary@);
        t = t + boundary@;
    }
    push_text(out, "\r\n");
    proof {
        lemma_extend_text(start, t, "\r\n"@);
        t = t + "\r\n"@;
    }
    push_text(out, "Content-Disposition: form-data; name=\"");
    proof {
        lemma_extend_text(start, t, "Content-Disposition: form-data; name=\""@);
        t = t + "Content-Disposition: form-data; name=\""@;
    }
    push_text(out, name);
    proof {
        lemma_extend_text(start, t, name@);
        t = t + name@;
    }
    push_text(out, "\"\r\n");
    proof {
        lemma_extend_text(start, t, "\"\r\n"@);
        t = t + "\"\r\n"@;
    }
    push_text(out, "Content-Type: text/plain; charset=UTF-8\r\n\r\n");
    proof {
        lemma_extend_text(start, t, "Content-Type: text/plain; charset=UTF-8\r\n\r\n"@);
        t = t + "Content-Type: text/plain; charset=UTF-8\r\n\r\n"@;
    }
    push_text(out, value);
    proof {
        lemma_extend_text(start, t, value@);
        t = t + value@;
    }
    push_text(out, "\r\n");
    proof {
        lemma_extend_text(start, t, "\r\n"@);
        t = t + "\r\n"@;
    }
    assert(t =~= text_part_text(boundary@, name@, value@));
}

/// Appends the text parts of all `fields`, in order.
fn write_fields(out: &mut Vec<u8>, boundary: &str, fields: &[(String, String)])
    ensures
        final(out)@ == old(out)@ + encode_utf8(fields_text(boundary@, fields.deep_view())),
{
    let n = fields.len();
    let mut i: usize = 0;
    let ghost start = out@;
    let ghost f = fields.deep_view();
    assert(f.take(0) =~= Seq::<(Seq<char>, Seq<char>)>::empty());
    assert(out@ =~= start + encode_utf8(fields_text(boundary@, f.take(0))));
    while i < n
        invariant
            n == fields@.len(),
            f == fields.deep_view(),
            i <= n,
            out@ == start + encode_utf8(fields_text(boundary@, f.take(i as int))),
        decreases n - i,
    {
        let (name, value) = &fields[i];
        let ghost t = fields_text(boundary@, f.take(i as int));
        write_text_part(out, boundary, name.as_str(), value.as_str());
        proof {
            lemma_extend_text(start, t, text_part_text(boundary@, name@, value@));
            let next = f.take(i + 1);
            assert(next.drop_last() =~= f.take(i as int));
            assert(next.last() == f[i as int]);
            assert(f[i as int] == (name@, value@));
            assert(fields_text(boundary@, next) =~= t + text_part_text(boundary@, name@, value@));
        }
        i = i + 1;
    }
    assert(f.take(n as int) =~= f);
}

/// Bytes that go before the file content: the text field parts, then the
/// file part header (boundary, `Content-Disposition` with `filename`,
/// `Content-Type`, blank line).
pub fn build_prologue(
    boundary: &str,
    filename: &str,
    content_type: &str,
    text_fields: &[(String, String)],
) -> (out: Vec<u8>)
    ensures
        out@ == encode_utf8(prologue_text(boundary@, filename@, content_type@, text_fields.deep_view())),
{
    let mut out: Vec<u8> = Vec::new();
    let ghost start = out@;
    write_fields(&mut out, boundary, text_fields);
    let ghost mut t = fields_text(boundary@, text_fields.deep_view());
    push_text(&mut out, "--");
    proof {
        lemma_extend_text(start, t, "--"@);
        t = t + "--"@;
    }
    push_text(&mut out, boundary);
    proof {
        lemma_extend_text(start, t, boundary@);
        t = t + boundary@;
    }
    push_text(&mut out, "\r\n");
    proof {
        lemma_extend_text(start, t, "\r\n"@);
        t = t + "\r\n"@;
    }
    push_text(&mut out, "Content-Disposition: form-data; name=\"file\"; filename=\"");
    proof {
        lemma_extend_text(start, t, "Content-Disposition: form-data; name=\"file\"; filename=\""@);
        t = t + "Content-Disposition: form-data; name=\"file\"; filename=\""@;
    }
    push_text(&mut out, filename);
    proof {
        lemma_extend_text(start, t, filename@);
        t = t + filename@;
    }
    push_text(&mut out, "\"\r\n");
    proof {
        lemma_extend_text(start, t, "\"\r\n"@);
        t = t + "\"\r\n"@;
    }
    push_text(&mut out, "Content-Type: ");
    proof {
        lemma_extend_text(start, t, "Content-Type: "@);
        t = t + "Content-Type: "@;
    }
    push_text(&mut out, content_type);
    proof {
        lemma_extend_text(start, t, content_type@);
        t = t + content_type@;
    }
    push_text(&mut out, "\r\n\r\n");
    proof {
        lemma_extend_text(start, t, "\r\n\r\n"@);
        t = t + "\r\n\r\n"@;
    }
    assert(start =~= Seq::<u8>::empty());
    assert(out@ =~= encode_utf8(t));
    assert(t =~= prologue_text(boundary@, filename@, content_type@, text_fields.deep_view()));
    out
}

/// Bytes that go after the file content: the CRLF that ends the file part,
/// then the closing boundary `--{boundary}--` and CRLF.
pub fn build_epilogue(boundary: &str) -> (out: Vec<u8>)
    ensures
        out@ == encode_utf8(epilogue_text(boundary@)),
{
    let mut out: Vec<u8> = Vec::new();
    let ghost start = out@;
    let ghost mut t = Seq::<char>::empty();
    assert(out@ =~= start + encode_utf8(t));
    push_text(&mut out, "\r\n");
    proof {
        lemma_extend_text(start, t, "\r\n"@);
        t = t + "\r\n"@;
    }
    push_text(&mut out, "--");
    proof {
        lemma_extend_text(start, t, "--"@);
        t = t + "--"@;
    }
    push_text(&mut out, boundary);
    proof {
        lemma_extend_text(start, t, boundary@);
        t = t + boundary@;
    }
    push_text(&mut out, "--\r\n");
    proof {
        lemma_extend_text(start, t, "--\r\n"@);
        t = t + "--\r\n"@;
    }
    assert(start =~= Seq::<u8>::empty());
    assert(out@ =~= encode_utf8(t));
    assert(t =~= epilogue_text(boundary@));
    out
}

/// A complete body holding only text fields and no file part, closed by the
/// closing boundary (no extra CRLF: each text part already ends with one).
pub fn build_text_only_body(boundary: &str, text_fields: &[(String, String)]) -> (out: Vec<u8>)
    ensures
        out@ == encode_utf8(text_only_body_text(boundary@, text_fields.deep_view())),
{
    let mut out: Vec<u8> = Vec::new();
    let ghost start = out@;
    write_fields(&mut out, boundary, text_fields);
    let ghost mut t = fields_text(boundary@, text_fields.deep_view());
    push_text(&mut out, "--");
    proof {
        lemma_extend_text(start, t, "--"@);
        t = t + "--"@;
    }
    push_text(&mut out, boundary);
    proof {
        lemma_extend_text(start, t, boundary@);
        t = t + boundary@;
    }
    push_text(&mut out, "--\r\n");
    proof {
        lemma_extend_text(start, t, "--\r\n"@);
        t = t + "--\r\n"@;
    }
    assert(start =~= Seq::<u8>::empty());
    assert(out@ =~= encode_utf8(t));
    assert(t =~= text_only_body_text(boundary@, text_fields.deep_view()));
    out
}

/// `Content-Type` header value of a multipart request with `boundary`.
pub fn make_content_type(boundary: &str) -> (s: String)
    ensures
        s@ == "multipart/form-data; boundary="@ + boundary@,
{
    let mut s = "multipart/form-data; boundary=".to_owned();
    s.append(boundary);
    s
}

// ---------------------------------------------------------------------------
// Boundaries
// ---------------------------------------------------------------------------

/// The fixed start of every boundary this client generates.
pub open spec fn boundary_prefix() -> Seq<char> {
    "----scanii-rust-boundary-"@
}

/// Boundary made from a clock reading and a counter:
/// `----scanii-rust-boundary-{nanos:x}-{counter:x}`.
pub open spec fn boundary_text(nanos: nat, counter: nat) -> Seq<char> {
    boundary_prefix() + hex_text(nanos) + "-"@ + hex_text(counter)
}

/// Formats a boundary from the current time in nanoseconds and a
/// per-process counter value.
pub fn boundary_from_parts(nanos: u128, counter: u64) -> (s: String)
    ensures
        s@ == boundary_text(nanos as nat, counter as nat),
{
    let mut s = "----scanii-rust-boundary-".to_owned();
    let n = u128_to_hex(nanos);
    s.append(n.as_str());
    s.append("-");
    let c = u128_to_hex(counter as u128);
    s.append(c.as_str());
    s
}

/// Law: boundaries made from distinct (time, counter) pairs are distinct, so
/// two boundaries drawn with distinct counter values never collide.
pub proof fn lemma_boundary_unique(n1: nat, c1: nat, n2: nat, c2: nat)
    requires
        boundary_text(n1, c1) == boundary_text(n2, c2),
    ensures
        n1 == n2 && c1 == c2,
{
    reveal_strlit("-");
    let p = boundary_prefix();
    let h1 = hex_text(n1);
    let h2 = hex_text(n2);
    let k1 = hex_text(c1);
    let k2 = hex_text(c2);
    let s1 = h1 + "-"@ + k1;
    let s2 = h2 + "-"@ + k2;
    assert(boundary_text(n1, c1) =~= p + s1);
    assert(boundary_text(n2, c2) =~= p + s2);
    assert(s1 =~= (p + s1).skip(p.len() as int));
    assert(s2 =~= (p + s2).skip(p.len() as int));
    assert(s1 == s2);
    lemma_hex_text_no_dash(n1);
    lemma_hex_text_no_dash(n2);
    if h1.len() < h2.len() {
        assert(s1[h1.len() as int] == '-');
        assert(s2[h1.len() as int] == h2[h1.len() as int]);
        assert(h2.contains('-'));
    } else if h2.len() < h1.len() {
        assert(s2[h2.len() as int] == '-');
        assert(s1[h2.len() as int] == h1[h2.len() as int]);
        assert(h1.contains('-'));
    } else {
        assert(h1 =~= s1.take(h1.len() as int));
        assert(h2 =~= s2.take(h2.len() as int));
        assert(k1 =~= s1.skip(h1.len() as int + 1));
        assert(k2 =~= s2.skip(h2.len() as int + 1));
        lemma_hex_text_injective(n1, n2);
        lemma_hex_text_injective(c1, c2);
    }
}

// ---------------------------------------------------------------------------
// Content type by file extension
// ---------------------------------------------------------------------------

/// ASCII lowercase of one char; other chars are unchanged.
pub open spec fn ascii_lower_char(c: char) -> char {
    if 'A' <= c <= 'Z' {
        ((c as int) + 32) as char
    } else {
        c
    }
}

/// ASCII lowercase of a string, as `str::to_ascii_lowercase`.
pub open spec fn ascii_lower(s: Seq<char>) -> Seq<char> {
    s.map_values(|c: char| ascii_lower_char(c))
}

/// Content type for a lowercase extension; `application/octet-stream` for
/// anything not in the table.
pub open spec fn content_type_for_lower(e: Seq<char>) -> Seq<char> {
    if e == "txt"@ {
        "text/plain"@
    } else if e == "html"@ || e == "htm"@ {
        "text/html"@
    } else if e == "css"@ {
        "text/css"@
    } else if e == "csv"@ {
        "text/csv"@
    } else if e == "json"@ {
        "application/json"@
    } else if e == "xml"@ {
        "application/xml"@
    } else if e == "pdf"@ {
        "application/pdf"@
    } else if e == "zip"@ {
        "application/zip"@
    } else if e == "gz"@ {
        "application/gzip"@
    } else if e == "jpg"@ || e == "jpeg"@ {
        "image/jpeg"@
    } else if e == "png"@ {
        "image/png"@
    } else if e == "gif"@ {
        "image/gif"@
    } else if e == "webp"@ {
        "image/webp"@
    } else if e == "svg"@ {
        "image/svg+xml"@
    } else if e == "mp3"@ {
        "audio/mpeg"@
    } else if e == "mp4"@ {
        "video/mp4"@
    } else if e == "mov"@ {
        "video/quicktime"@
    } else if e == "doc"@ {
        "application/msword"@
    } else if e == "docx"@ {
        "application/vnd.openxmlformats-officedocument.wordprocessingml.document"@
    } else if e == "xls"@ {
        "application/vnd.ms-excel"@
    } else if e == "xlsx"@ {
        "application/vnd.openxmlformats-officedocument.spreadsheetml.sheet"@
    } else {
        "application/octet-stream"@
    }
}

/// Content type for an optional extension, compared case-insensitively.
pub open spec fn content_type_spec(ext: Option<Seq<char>>) -> Seq<char> {
    match ext {
        Some(e) => content_type_for_lower(ascii_lower(e)),
        None => "application/octet-stream"@,
    }
}

/// ASCII-lowercases `s` (non-ASCII chars are kept).
pub fn ascii_lowercase(s: &str) -> (out: String)
    ensures
        out@ == ascii_lower(s@),
{
    let n = s.unicode_len();
    let mut out = String::new();
    let mut i: usize = 0;
    while i < n
        invariant
            n == s@.len(),
            i <= n,
            out@ == ascii_lower(s@.take(i as int)),
        decreases n - i,
    {
        let c = s.get_char(i);
        let l = if 'A' <= c && c <= 'Z' {
            ((c as u32 + 32) as u8) as char
        } else {
            c
        };
        assert(l == ascii_lower_char(c));
        crate::codec::push_char(&mut out, l);
        assert(ascii_lower(s@.take(i + 1)) =~= ascii_lower(s@.take(i as int)).push(l));
        i = i + 1;
    }
    assert(s@.take(n as int) =~= s@);
    out
}

/// Whether two strings hold the same chars.
pub fn text_eq(a: &str, b: &str) -> (r: bool)
    ensures
        r == (a@ == b@),
{
    let n = a.unicode_len();
    let m = b.unicode_len();
    if n != m {
        return false;
    }
    let mut i: usize = 0;
    while i < n
        invariant
            n == a@.len(),
            m == b@.len(),
            n == m,
            i <= n,
            forall|j: int| 0 <= j < i ==> a@[j] == b@[j],
        decreases n - i,
    {
        if a.get_char(i) != b.get_char(i) {
            return false;
        }
        i = i + 1;
    }
    assert(a@ =~= b@);
    true
}

fn content_type_for_lowercase(e: &str) -> (r: &'static str)
    ensures
        r@ == content_type_for_lower(e@),
{
    if text_eq(e, "txt") {
        "text/plain"
    } else if text_eq(e, "html") || text_eq(e, "htm") {
        "text/html"
    } else if text_eq(e, "css") {
        "text/css"
    } else if text_eq(e, "csv") {
        "text/csv"
    } else if text_eq(e, "json") {
        "application/json"
    } else if text_eq(e, "xml") {
        "application/xml"
    } else if text_eq(e, "pdf") {
        "application/pdf"
    } else if text_eq(e, "zip") {
        "application/zip"
    } else if text_eq(e, "gz") {
        "application/gzip"
    } else if text_eq(e, "jpg") || text_eq(e, "jpeg") {
        "image/jpeg"
    } else if text_eq(e, "png") {
        "image/png"
    } else if text_eq(e, "gif") {
        "image/gif"
    } else if text_eq(e, "webp") {
        "image/webp"
    } else if text_eq(e, "svg") {
        "image/svg+xml"
    } else if text_eq(e, "mp3") {
        "audio/mpeg"
    } else if text_eq(e, "mp4") {
        "video/mp4"
    } else if text_eq(e, "mov") {
        "video/quicktime"
    } else if text_eq(e, "doc") {
        "application/msword"
    } else if text_eq(e, "docx") {
        "application/vnd.openxmlformats-officedocument.wordprocessingml.document"
    } else if text_eq(e, "xls") {
        "application/vnd.ms-excel"
    } else if text_eq(e, "xlsx") {
        "application/vnd.openxmlformats-officedocument.spreadsheetml.sheet"
    } else {
        "application/octet-stream"
    }
}

/// Content type for a file extension (case-insensitive);
/// `application/octet-stream` when there is none or it is unknown.
pub fn content_type_for_extension(ext: Option<&str>) -> (r: &'static str)
    ensures
        r@ == content_type_spec(
            match ext {
                Some(e) => Some(e@),
                None => None,
            },
        ),
{
    match ext {
        Some(e) => {
            let lower = ascii_lowercase(e);
            content_type_for_lowercase(lower.as_str())
        },
        None => "application/octet-stream",
    }
}

/// The extension of the last component of `path`, as
/// `std::path::Path::extension` computes it, when it is valid UTF-8.
pub uninterp spec fn path_extension_of(path: Seq<char>) -> Option<Seq<char>>;

/// Trusted: `std::path::Path::new(path).extension()`, converted to an owned
/// `String`. The contract claims only that the result is determined by the
/// path text (the name `path_extension_of`); the splitting rules of
/// `Path::extension` are not restated.
#[verifier::external_body]
fn path_extension(path: &str) -> (r: Option<String>)
    ensures
        r.deep_view() == path_extension_of(path@),
{
    std::path::Path::new(path).extension().and_then(|e| e.to_str()).map(|e| e.to_owned())
}

/// Best-effort content type of a file from its extension (case-insensitive).
/// The API inspects the bytes itself, so a short table is enough.
pub fn guess_content_type(path: &str) -> (r: &'static str)
    ensures
        r@ == content_type_spec(path_extension_of(path@)),
{
    let ext = path_extension(path);
    match ext {
        Some(e) => content_type_for_extension(Some(e.as_str())),
        None => content_type_for_extension(None),
    }
}

/// Lowercase ASCII text is its own ASCII lowercase.
proof fn lemma_ascii_lower_of_lower(e: Seq<char>)
    requires
        forall|i: int| 0 <= i < e.len() ==> !('A' <= #[trigger] e[i] <= 'Z'),
    ensures
        ascii_lower(e) == e,
{
    assert(ascii_lower(e) =~= e);
}

proof fn lemma_content_type_txt()
    ensures
        content_type_spec(Some("txt"@)) == "text/plain"@,
{
    reveal_strlit("txt");
    lemma_ascii_lower_of_lower("txt"@);
}

proof fn lemma_content_type_html()
    ensures
        content_type_spec(Some("html"@)) == "text/html"@,
{
    reveal_strlit("txt");
    reveal_strlit("html");
    lemma_ascii_lower_of_lower("html"@);
}

proof fn lemma_content_type_htm()
    ensures
        content_type_spec(Some("htm"@)) == "text/html"@,
{
    reveal_strlit("txt");
    reveal_strlit("html");
    reveal_strlit("htm");
    assert("htm"@[0] != "txt"@[0]);
    lemma_ascii_lower_of_lower("htm"@);
}

proof fn lemma_content_type_css()
    ensures
        content_type_spec(Some("css"@)) == "text/css"@,
{
    reveal_strlit("txt");
    reveal_strlit("html");
    reveal_strlit("htm");
    reveal_strlit("css");
    assert("css"@[0] != "txt"@[0]);
    assert("css"@[0] != "htm"@[0]);
    lemma_ascii_lower_of_lower("css"@);
}

proof fn lemma_content_type_csv()
    ensures
        content_type_spec(Some("csv"@)) == "text/csv"@,
{
    reveal_strlit("txt");
    reveal_strlit("html");
    reveal_strlit("htm");
    reveal_strlit("css");
    reveal_strlit("csv");
    assert("csv"@[0] != "txt"@[0]);
    assert("csv"@[0] != "htm"@[0]);
    assert("csv"@[2] != "css"@[2]);
    lemma_ascii_lower_of_lower("csv"@);
}

proof fn lemma_content_type_json()
    ensures
        content_type_spec(Some("json"@)) == "application/json"@,
{
    reveal_strlit("txt");
    reveal_strlit("html");
    reveal_strlit("htm");
    reveal_strlit("css");
    reveal_strlit("csv");
    reveal_strlit("json");
    assert("json"@[0] != "html"@[0]);
    lemma_ascii_lower_of_lower("json"@);
}

proof fn lemma_content_type_xml()
    ensures
        content_type_spec(Some("xml"@)) == "application/xml"@,
{
    reveal_strlit("txt");
    reveal_strlit("html");
    reveal_strlit("htm");
    reveal_strlit("css");
    reveal_strlit("csv");
    reveal_strlit("json");
    reveal_strlit("xml");
    assert("xml"@[0] != "txt"@[0]);
    assert("xml"@[0] != "htm"@[0]);
    assert("xml"@[0] != "css"@[0]);
    assert("xml"@[0] != "csv"@[0]);
    lemma_ascii_lower_of_lower("xml"@);
}

proof fn lemma_content_type_pdf()
    ensures
        content_type_spec(Some("pdf"@)) == "application/pdf"@,
{
    reveal_strlit("txt");
    reveal_strlit("html");
    reveal_strlit("htm");
    reveal_strlit("css");
    reveal_strlit("csv");
    reveal_strlit("json");
    reveal_strlit("xml");
    reveal_strlit("pdf");
    assert("pdf"@[0] != "txt"@[0]);
    assert("pdf"@[0] != "htm"@[0]);
    assert("pdf"@[0] != "css"@[0]);
    assert("pdf"@[0] != "csv"@[0]);
    assert("pdf"@[0] != "xml"@[0]);
    lemma_ascii_lower_of_lower("pdf"@);
}

proof fn lemma_content_type_zip()
    ensures
        content_type_spec(Some("zip"@)) == "application/zip"@,
{
    reveal_strlit("txt");
    reveal_strlit("html");
    reveal_strlit("htm");
    reveal_strlit("css");
    reveal_strlit("csv");
    reveal_strlit("json");
    reveal_strlit("xml");
    reveal_strlit("pdf");
    reveal_strlit("zip");
    assert("zip"@[0] != "txt"@[0]);
    assert("zip"@[0] != "htm"@[0]);
    assert("zip"@[0] != "css"@[0]);
    assert("zip"@[0] != "csv"@[0]);
    assert("zip"@[0] != "xml"@[0]);
    assert("zip"@[0] != "pdf"@[0]);
    lemma_ascii_lower_of_lower("zip"@);
}

proof fn lemma_content_type_gz()
    ensures
        content_type_spec(Some("gz"@)) == "application/gzip"@,
{
    reveal_strlit("txt");
    reveal_strlit("html");
    reveal_strlit("htm");
    reveal_strlit("css");
    reveal_strlit("csv");
    reveal_strlit("json");
    reveal_strlit("xml");
    reveal_strlit("pdf");
    reveal_strlit("zip");
    reveal_strlit("gz");
    lemma_ascii_lower_of_lower("gz"@);
}

proof fn lemma_content_type_jpg()
    ensures
        content_type_spec(Some("jpg"@)) == "image/jpeg"@,
{
    reveal_strlit("txt");
    reveal_strlit("html");
    reveal_strlit("htm");
    reveal_strlit("css");
    reveal_strlit("csv");
    reveal_strlit("json");
    reveal_strlit("xml");
    reveal_strlit("pdf");
    reveal_strlit("zip");
    reveal_strlit("gz");
    reveal_strlit("jpg");
    assert("jpg"@[0] != "txt"@[0]);
    assert("jpg"@[0] != "htm"@[0]);
    assert("jpg"@[0] != "css"@[0]);
    assert("jpg"@[0] != "csv"@[0]);
    assert("jpg"@[0] != "xml"@[0]);
    assert("jpg"@[0] != "pdf"@[0]);
    assert("jpg"@[0] != "zip"@[0]);
    lemma_ascii_lower_of_lower("jpg"@);
}

proof fn lemma_content_type_jpeg()
    ensures
        content_type_spec(Some("jpeg"@)) == "image/jpeg"@,
{
    reveal_strlit("txt");
    reveal_strlit("html");
    reveal_strlit("htm");
    reveal_strlit("css");
    reveal_strlit("csv");
    reveal_strlit("json");
    reveal_strlit("xml");
    reveal_strlit("pdf");
    reveal_strlit("zip");
    reveal_strlit("gz");
    reveal_strlit("jpg");
    reveal_strlit("jpeg");
    assert("jpeg"@[0] != "html"@[0]);
    assert("jpeg"@[1] != "json"@[1]);
    lemma_ascii_lower_of_lower("jpeg"@);
}

proof fn lemma_content_type_png()
    ensures
        content_type_spec(Some("png"@)) == "image/png"@,
{
    reveal_strlit("txt");
    reveal_strlit("html");
    reveal_strlit("htm");
    reveal_strlit("css");
    reveal_strlit("csv");
    reveal_strlit("json");
    reveal_strlit("xml");
    reveal_strlit("pdf");
    reveal_strlit("zip");
    reveal_strlit("gz");
    reveal_strlit("jpg");
    reveal_strlit("jpeg");
    reveal_strlit("png");
    assert("png"@[0] != "txt"@[0]);
    assert("png"@[0] != "htm"@[0]);
    assert("png"@[0] != "css"@[0]);
    assert("png"@[0] != "csv"@[0]);
    assert("png"@[0] != "xml"@[0]);
    assert("png"@[1] != "pdf"@[1]);
    assert("png"@[0] != "zip"@[0]);
    assert("png"@[0] != "jpg"@[0]);
    lemma_ascii_lower_of_lower("png"@);
}

proof fn lemma_content_type_gif()
    ensures
        content_type_spec(Some("gif"@)) == "image/gif"@,
{
    reveal_strlit("txt");
    reveal_strlit("html");
    reveal_strlit("htm");
    reveal_strlit("css");
    reveal_strlit("csv");
    reveal_strlit("json");
    reveal_strlit("xml");
    reveal_strlit("pdf");
    reveal_strlit("zip");
    reveal_strlit("gz");
    reveal_strlit("jpg");
    reveal_strlit("jpeg");
    reveal_strlit("png");
    reveal_strlit("gif");
    assert("gif"@[0] != "txt"@[0]);
    assert("gif"@[0] != "htm"@[0]);
    assert("gif"@[0] != "css"@[0]);
    assert("gif"@[0] != "csv"@[0]);
    assert("gif"@[0] != "xml"@[0]);
    assert("gif"@[0] != "pdf"@[0]);
    assert("gif"@[0] != "zip"@[0]);
    assert("gif"@[0] != "jpg"@[0]);
    assert("gif"@[0] != "png"@[0]);
    lemma_ascii_lower_of_lower("gif"@);
}

proof fn lemma_content_type_webp()
    ensures
        content_type_spec(Some("webp"@)) == "image/webp"@,
{
    reveal_strlit("txt");
    reveal_strlit("html");
    reveal_strlit("htm");
    reveal_strlit("css");
    reveal_strlit("csv");
    reveal_strlit("json");
    reveal_strlit("xml");
    reveal_strlit("pdf");
    reveal_strlit("zip");
    reveal_strlit("gz");
    reveal_strlit("jpg");
    reveal_strlit("jpeg");
    reveal_strlit("png");
    reveal_strlit("gif");
    reveal_strlit("webp");
    assert("webp"@[0] != "html"@[0]);
    assert("webp"@[0] != "json"@[0]);
    assert("webp"@[0] != "jpeg"@[0]);
    lemma_ascii_lower_of_lower("webp"@);
}

proof fn lemma_content_type_svg()
    ensures
        content_type_spec(Some("svg"@)) == "image/svg+xml"@,
{
    reveal_strlit("txt");
    reveal_strlit("html");
    reveal_strlit("htm");
    reveal_strlit("css");
    reveal_strlit("csv");
    reveal_strlit("json");
    reveal_strlit("xml");
    reveal_strlit("pdf");
    reveal_strlit("zip");
    reveal_strlit("gz");
    reveal_strlit("jpg");
    reveal_strlit("jpeg");
    reveal_strlit("png");
    reveal_strlit("gif");
    reveal_strlit("webp");
    reveal_strlit("svg");
    assert("svg"@[0] != "txt"@[0]);
    assert("svg"@[0] != "htm"@[0]);
    assert("svg"@[0] != "css"@[0]);
    assert("svg"@[0] != "csv"@[0]);
    assert("svg"@[0] != "xml"@[0]);
    assert("svg"@[0] != "pdf"@[0]);
    assert("svg"@[0] != "zip"@[0]);
    assert("svg"@[0] != "jpg"@[0]);
    assert("svg"@[0] != "png"@[0]);
    assert("svg"@[0] != "gif"@[0]);
    lemma_ascii_lower_of_lower("svg"@);
}

proof fn lemma_content_type_mp3()
    ensures
        content_type_spec(Some("mp3"@)) == "audio/mpeg"@,
{
    reveal_strlit("txt");
    reveal_strlit("html");
    reveal_strlit("htm");
    reveal_strlit("css");
    reveal_strlit("csv");
    reveal_strlit("json");
    reveal_strlit("xml");
    reveal_strlit("pdf");
    reveal_strlit("zip");
    reveal_strlit("gz");
    reveal_strlit("jpg");
    reveal_strlit("jpeg");
    reveal_strlit("png");
    reveal_strlit("gif");
    reveal_strlit("webp");
    reveal_strlit("svg");
    reveal_strlit("mp3");
    assert("mp3"@[0] != "txt"@[0]);
    assert("mp3"@[0] != "htm"@[0]);
    assert("mp3"@[0] != "css"@[0]);
    assert("mp3"@[0] != "csv"@[0]);
    assert("mp3"@[0] != "xml"@[0]);
    assert("mp3"@[0] != "pdf"@[0]);
    assert("mp3"@[0] != "zip"@[0]);
    assert("mp3"@[0] != "jpg"@[0]);
    assert("mp3"@[0] != "png"@[0]);
    assert("mp3"@[0] != "gif"@[0]);
    assert("mp3"@[0] != "svg"@[0]);
    lemma_ascii_lower_of_lower("mp3"@);
}

proof fn lemma_content_type_mp4()
    ensures
        content_type_spec(Some("mp4"@)) == "video/mp4"@,
{
    reveal_strlit("txt");
    reveal_strlit("html");
    reveal_strlit("htm");
    reveal_strlit("css");
    reveal_strlit("csv");
    reveal_strlit("json");
    reveal_strlit("xml");
    reveal_strlit("pdf");
    reveal_strlit("zip");
    reveal_strlit("gz");
    reveal_strlit("jpg");
    reveal_strlit("jpeg");
    reveal_strlit("png");
    reveal_strlit("gif");
    reveal_strlit("webp");
    reveal_strlit("svg");
    reveal_strlit("mp3");
    reveal_strlit("mp4");
    assert("mp4"@[0] != "txt"@[0]);
    assert("mp4"@[0] != "htm"@[0]);
    assert("mp4"@[0] != "css"@[0]);
    assert("mp4"@[0] != "csv"@[0]);
    assert("mp4"@[0] != "xml"@[0]);
    assert("mp4"@[0] != "pdf"@[0]);
    assert("mp4"@[0] != "zip"@[0]);
    assert("mp4"@[0] != "jpg"@[0]);
    assert("mp4"@[0] != "png"@[0]);
    assert("mp4"@[0] != "gif"@[0]);
    assert("mp4"@[0] != "svg"@[0]);
    assert("mp4"@[2] != "mp3"@[2]);
    lemma_ascii_lower_of_lower("mp4"@);
}

proof fn lemma_content_type_mov()
    ensures
        content_type_spec(Some("mov"@)) == "video/quicktime"@,
{
    reveal_strlit("txt");
    reveal_strlit("html");
    reveal_strlit("htm");
    reveal_strlit("css");
    reveal_strlit("csv");
    reveal_strlit("json");
    reveal_strlit("xml");
    reveal_strlit("pdf");
    reveal_strlit("zip");
    reveal_strlit("gz");
    reveal_strlit("jpg");
    reveal_strlit("jpeg");
    reveal_strlit("png");
    reveal_strlit("gif");
    reveal_strlit("webp");
    reveal_strlit("svg");
    reveal_strlit("mp3");
    reveal_strlit("mp4");
    reveal_strlit("mov");
    assert("mov"@[0] != "txt"@[0]);
    assert("mov"@[0] != "htm"@[0]);
    assert("mov"@[0] != "css"@[0]);
    assert("mov"@[0] != "csv"@[0]);
    assert("mov"@[0] != "xml"@[0]);
    assert("mov"@[0] != "pdf"@[0]);
    assert("mov"@[0] != "zip"@[0]);
    assert("mov"@[0] != "jpg"@[0]);
    assert("mov"@[0] != "png"@[0]);
    assert("mov"@[0] != "gif"@[0]);
    assert("mov"@[0] != "svg"@[0]);
    assert("mov"@[1] != "mp3"@[1]);
    assert("mov"@[1] != "mp4"@[1]);
    lemma_ascii_lower_of_lower("mov"@);
}

proof fn lemma_content_type_doc()
    ensures
        content_type_spec(Some("doc"@)) == "application/msword"@,
{
    reveal_strlit("txt");
    reveal_strlit("html");
    reveal_strlit("htm");
    reveal_strlit("css");
    reveal_strlit("csv");
    reveal_strlit("json");
    reveal_strlit("xml");
    reveal_strlit("pdf");
    reveal_strlit("zip");
    reveal_strlit("gz");
    reveal_strlit("jpg");
    reveal_strlit("jpeg");
    reveal_strlit("png");
    reveal_strlit("gif");
    reveal_strlit("webp");
    reveal_strlit("svg");
    reveal_strlit("mp3");
    reveal_strlit("mp4");
    reveal_strlit("mov");
    reveal_strlit("doc");
    assert("doc"@[0] != "txt"@[0]);
    assert("doc"@[0] != "htm"@[0]);
    assert("doc"@[0] != "css"@[0]);
    assert("doc"@[0] != "csv"@[0]);
    assert("doc"@[0] != "xml"@[0]);
    assert("doc"@[0] != "pdf"@[0]);
    assert("doc"@[0] != "zip"@[0]);
    assert("doc"@[0] != "jpg"@[0]);
    assert("doc"@[0] != "png"@[0]);
    assert("doc"@[0] != "gif"@[0]);
    assert("doc"@[0] != "svg"@[0]);
    assert("doc"@[0] != "mp3"@[0]);
    assert("doc"@[0] != "mp4"@[0]);
    assert("doc"@[0] != "mov"@[0]);
    lemma_ascii_lower_of_lower("doc"@);
}

proof fn lemma_content_type_docx()
    ensures
        content_type_spec(Some("docx"@)) == "application/vnd.openxmlformats-officedocument.wordprocessingml.document"@,
{
    reveal_strlit("txt");
    reveal_strlit("html");
    reveal_strlit("htm");
    reveal_strlit("css");
    reveal_strlit("csv");
    reveal_strlit("json");
    reveal_strlit("xml");
    reveal_strlit("pdf");
    reveal_strlit("zip");
    reveal_strlit("gz");
    reveal_strlit("jpg");
    reveal_strlit("jpeg");
    reveal_strlit("png");
    reveal_strlit("gif");
    reveal_strlit("webp");
    reveal_strlit("svg");
    reveal_strlit("mp3");
    reveal_strlit("mp4");
    reveal_strlit("mov");
    reveal_strlit("doc");
    reveal_strlit("docx");
    assert("docx"@[0] != "html"@[0]);
    assert("docx"@[0] != "json"@[0]);
    assert("docx"@[0] != "jpeg"@[0]);
    assert("docx"@[0] != "webp"@[0]);
    lemma_ascii_lower_of_lower("docx"@);
}

proof fn lemma_content_type_xls()
    ensures
        content_type_spec(Some("xls"@)) == "application/vnd.ms-excel"@,
{
    reveal_strlit("txt");
    reveal_strlit("html");
    reveal_strlit("htm");
    reveal_strlit("css");
    reveal_strlit("csv");
    reveal_strlit("json");
    reveal_strlit("xml");
    reveal_strlit("pdf");
    reveal_strlit("zip");
    reveal_strlit("gz");
    reveal_strlit("jpg");
    reveal_strlit("jpeg");
    reveal_strlit("png");
    reveal_strlit("gif");
    reveal_strlit("webp");
    reveal_strlit("svg");
    reveal_strlit("mp3");
    reveal_strlit("mp4");
    reveal_strlit("mov");
    reveal_strlit("doc");
    reveal_strlit("docx");
    reveal_strlit("xls");
    assert("xls"@[0] != "txt"@[0]);
    assert("xls"@[0] != "htm"@[0]);
    assert("xls"@[0] != "css"@[0]);
    assert("xls"@[0] != "csv"@[0]);
    assert("xls"@[1] != "xml"@[1]);
    assert("xls"@[0] != "pdf"@[0]);
    assert("xls"@[0] != "zip"@[0]);
    assert("xls"@[0] != "jpg"@[0]);
    assert("xls"@[0] != "png"@[0]);
    assert("xls"@[0] != "gif"@[0]);
    assert("xls"@[0] != "svg"@[0]);
    assert("xls"@[0] != "mp3"@[0]);
    assert("xls"@[0] != "mp4"@[0]);
    assert("xls"@[0] != "mov"@[0]);
    assert("xls"@[0] != "doc"@[0]);
    lemma_ascii_lower_of_lower("xls"@);
}

proof fn lemma_content_type_xlsx()
    ensures
        content_type_spec(Some("xlsx"@)) == "application/vnd.openxmlformats-officedocument.spreadsheetml.sheet"@,
{
    reveal_strlit("txt");
    reveal_strlit("html");
    reveal_strlit("htm");
    reveal_strlit("css");
    reveal_strlit("csv");
    reveal_strlit("json");
    reveal_strlit("xml");
    reveal_strlit("pdf");
    reveal_strlit("zip");
    reveal_strlit("gz");
    reveal_strlit("jpg");
    reveal_strlit("jpeg");
    reveal_strlit("png");
    reveal_strlit("gif");
    reveal_strlit("webp");
    reveal_strlit("svg");
    reveal_strlit("mp3");
    reveal_strlit("mp4");
    reveal_strlit("mov");
    reveal_strlit("doc");
    reveal_strlit("docx");
    reveal_strlit("xls");
    reveal_strlit("xlsx");
    assert("xlsx"@[0] != "html"@[0]);
    assert("xlsx"@[0] != "json"@[0]);
    assert("xlsx"@[0] != "jpeg"@[0]);
    assert("xlsx"@[0] != "webp"@[0]);
    assert("xlsx"@[0] != "docx"@[0]);
    lemma_ascii_lower_of_lower("xlsx"@);
}

/// Law: the extension table. Each listed extension (compared without regard
/// to ASCII case) gives its content type; `jpg` and `jpeg` are both
/// `image/jpeg`, `html` and `htm` both `text/html`; no extension gives
/// `application/octet-stream`.
pub proof fn law_content_type_table()
    ensures
        content_type_spec(Some("txt"@)) == "text/plain"@,
        content_type_spec(Some("html"@)) == "text/html"@,
        content_type_spec(Some("htm"@)) == "text/html"@,
        content_type_spec(Some("css"@)) == "text/css"@,
        content_type_spec(Some("csv"@)) == "text/csv"@,
        content_type_spec(Some("json"@)) == "application/json"@,
        content_type_spec(Some("xml"@)) == "application/xml"@,
        content_type_spec(Some("pdf"@)) == "application/pdf"@,
        content_type_spec(Some("zip"@)) == "application/zip"@,
        content_type_spec(Some("gz"@)) == "application/gzip"@,
        content_type_spec(Some("jpg"@)) == "image/jpeg"@,
        content_type_spec(Some("jpeg"@)) == "image/jpeg"@,
        content_type_spec(Some("png"@)) == "image/png"@,
        content_type_spec(Some("gif"@)) == "image/gif"@,
        content_type_spec(Some("webp"@)) == "image/webp"@,
        content_type_spec(Some("svg"@)) == "image/svg+xml"@,
        content_type_spec(Some("mp3"@)) == "audio/mpeg"@,
        content_type_spec(Some("mp4"@)) == "video/mp4"@,
        content_type_spec(Some("mov"@)) == "video/quicktime"@,
        content_type_spec(Some("doc"@)) == "application/msword"@,
        content_type_spec(Some("docx"@)) == "application/vnd.openxmlformats-officedocument.wordprocessingml.document"@,
        content_type_spec(Some("xls"@)) == "application/vnd.ms-excel"@,
        content_type_spec(Some("xlsx"@)) == "application/vnd.openxmlformats-officedocument.spreadsheetml.sheet"@,
        content_type_spec(None) == "application/octet-stream"@,
{
    lemma_content_type_txt();
    lemma_content_type_html();
    lemma_content_type_htm();
    lemma_content_type_css();
    lemma_content_type_csv();
    lemma_content_type_json();
    lemma_content_type_xml();
    lemma_content_type_pdf();
    lemma_content_type_zip();
    lemma_content_type_gz();
    lemma_content_type_jpg();
    lemma_content_type_jpeg();
    lemma_content_type_png();
    lemma_content_type_gif();
    lemma_content_type_webp();
    lemma_content_type_svg();
    lemma_content_type_mp3();
    lemma_content_type_mp4();
    lemma_content_type_mov();
    lemma_content_type_doc();
    lemma_content_type_docx();
    lemma_content_type_xls();
    lemma_content_type_xlsx();
}

/// Law: the content type does not depend on the case of the extension.
pub proof fn lemma_content_type_case_insensitive(e: Seq<char>)
    ensures
        content_type_spec(Some(ascii_lower(e))) == content_type_spec(Some(e)),
{
    assert(ascii_lower(ascii_lower(e)) =~= ascii_lower(e));
}

} // verus!
