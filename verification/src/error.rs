//! The error type of the client, and the rules that turn a non-success HTTP
//! reply into one of its variants.
use vstd::prelude::*;
use vstd::string::StringExecFns;
use vstd::string::StringSliceAdditionalSpecFns;

use serde_json::Value;

use crate::codec::{decimal_text, u64_to_decimal};

verus! {

/// Declares `std::io::Error` (carried by [`ScaniiError::Io`]) as an opaque type.
#[verifier::external_type_specification]
#[verifier::external_body]
pub struct ExIoError(std::io::Error);

/// Errors returned by the client.
///
/// HTTP-status-bearing variants (`Auth`, `RateLimit`, `Http`) carry the
/// API-supplied error message and the optional `X-Scanii-Request-Id`.
/// The client never retries on the caller's behalf.
#[derive(Debug)]
pub enum ScaniiError {
    /// Configuration error in the client builder or in an argument.
    Config(String),
    /// HTTP 401 / 403: the credentials were rejected.
    Auth {
        /// Error message returned by the API (or `HTTP {status}`).
        message: String,
        /// `X-Scanii-Request-Id` response header, when present.
        request_id: Option<String>,
    },
    /// HTTP 429: rate limited; `retry_after` is the `Retry-After` header in seconds.
    RateLimit {
        /// Value of the `Retry-After` response header, in seconds.
        retry_after: Option<u64>,
        /// Error message returned by the API.
        message: String,
        /// `X-Scanii-Request-Id` response header, when present.
        request_id: Option<String>,
    },
    /// Any other non-success HTTP status.
    Http {
        /// HTTP status code returned by the API.
        status: u16,
        /// Error message returned by the API.
        message: String,
        /// `X-Scanii-Request-Id` response header, when present.
        request_id: Option<String>,
    },
    /// Transport-level failure (DNS, TLS, connection, timeout).
    Transport(String),
    /// The API response could not be deserialized.
    Serde(String),
    /// Local I/O error, typically while reading a file to upload.
    Io(std::io::Error),
}

// ---------------------------------------------------------------------------
// Error message of an error reply body
// ---------------------------------------------------------------------------

/// What a JSON text holds, as far as error bodies are concerned: not JSON at
/// all, a JSON value other than an object, or an object given by its
/// members in order, each member's value being `Some(text)` exactly when it
/// is a JSON string.
#[derive(Debug)]
pub enum JsonShape {
    NotJson,
    NotObject,
    Object(Vec<(String, Option<String>)>),
}

/// The model of a [`JsonShape`].
pub enum JsonShapeView {
    NotJson,
    NotObject,
    Object(Seq<(Seq<char>, Option<Seq<char>>)>),
}

impl View for JsonShape {
    type V = JsonShapeView;

    open spec fn view(&self) -> JsonShapeView {
        match self {
            JsonShape::NotJson => JsonShapeView::NotJson,
            JsonShape::NotObject => JsonShapeView::NotObject,
            JsonShape::Object(members) => JsonShapeView::Object(members.deep_view()),
        }
    }
}

/// The shape of the JSON value that `serde_json` parses from `body`.
pub uninterp spec fn json_shape_of(body: Seq<char>) -> JsonShapeView;

/// Trusted: `serde_json::from_str::<serde_json::Value>` on the body, with
/// the parsed value converted variant by variant into a [`JsonShape`]
/// (members of an object moved over in the map's order). The contract
/// claims only that the result is determined by the body's text (the name
/// `json_shape_of`); JSON syntax is not restated.
#[verifier::external_body]
fn parse_json_shape(body: &str) -> (r: JsonShape)
    ensures
        r@ == json_shape_of(body@),
{
    match serde_json::from_str::<Value>(body) {
        Err(_) => JsonShape::NotJson,
        Ok(Value::Object(map)) => {
            let mut members = Vec::new();
            for (name, value) in map {
                let text = match value {
                    Value::String(text) => Some(text),
                    Value::Null | Value::Bool(_) | Value::Number(_) | Value::Array(_) | Value::Object(_) => None,
                };
                members.push((name, text));
            }
            JsonShape::Object(members)
        },
        Ok(Value::Null | Value::Bool(_) | Value::Number(_) | Value::String(_) | Value::Array(_)) => JsonShape::NotObject,
    }
}

/// The value of the first member named `name`.
pub open spec fn member_value(
    members: Seq<(Seq<char>, Option<Seq<char>>)>,
    name: Seq<char>,
) -> Option<Seq<char>>
    decreases members.len(),
{
    if members.len() == 0 {
        None
    } else if members[0].0 == name {
        members[0].1
    } else {
        member_value(members.drop_first(), name)
    }
}

/// The error message a JSON shape carries: the `"error"` member of an
/// object, when that member is a JSON string.
pub open spec fn shape_error_text(shape: JsonShapeView) -> Option<Seq<char>> {
    match shape {
        JsonShapeView::Object(members) => member_value(members, "error"@),
        _ => None,
    }
}

/// Reads the `"error"` string member of a parsed JSON object.
pub fn error_text_of(shape: &JsonShape) -> (r: Option<String>)
    ensures
        r.deep_view() == shape_error_text(shape@),
{
    match shape {
        JsonShape::Object(members) => {
            let n = members.len();
            let ghost m = members.deep_view();
            let mut i: usize = 0;
            assert(m.skip(0) =~= m);
            assert(shape@ == JsonShapeView::Object(m));
            while i < n
                invariant
                    n == members@.len(),
                    m == members.deep_view(),
                    i <= n,
                    shape_error_text(shape@) == member_value(m, "error"@),
                    member_value(m, "error"@) == member_value(m.skip(i as int), "error"@),
                decreases n - i,
            {
                let (name, value) = &members[i];
                assert(m.skip(i as int)[0] == (name@, value.deep_view()));
                if crate::multipart::text_eq(name.as_str(), "error") {
                    assert(member_value(m.skip(i as int), "error"@) == value.deep_view());
                    return match value {
                        Some(text) => Some(text.clone()),
                        None => None,
                    };
                }
                assert(m.skip(i as int).drop_first() =~= m.skip(i + 1));
                i = i + 1;
            }
            assert(m.skip(n as int).len() == 0);
            None
        },
        JsonShape::NotJson => None,
        JsonShape::NotObject => None,
    }
}

/// Message of an error body, given what its JSON `"error"` member holds:
/// nothing for an empty body, the JSON message when there is one, else the
/// body text verbatim.
pub open spec fn error_message_spec(body: Seq<char>, json_error: Option<Seq<char>>) -> Option<
    Seq<char>,
> {
    if body.len() == 0 {
        None
    } else {
        match json_error {
            Some(e) => Some(e),
            None => Some(body),
        }
    }
}

/// Chooses the message of an error body from the body and the shape of the
/// JSON it holds.
pub fn error_message_from(body: &str, shape: &JsonShape) -> (r: Option<String>)
    ensures
        r.deep_view() == error_message_spec(body@, shape_error_text(shape@)),
{
    if body.is_empty() {
        return None;
    }
    match error_text_of(shape) {
        Some(e) => Some(e),
        None => Some(body.to_owned()),
    }
}

/// Extracts the human-readable message from an error body: `None` for an
/// empty body, the JSON `"error"` string when the body is such an object,
/// else the whole body.
pub fn parse_error_message(body: &str) -> (r: Option<String>)
    ensures
        r.deep_view() == error_message_spec(body@, shape_error_text(json_shape_of(body@))),
        body@.len() == 0 <==> r is None,
{
    if body.is_empty() {
        return None;
    }
    let shape = parse_json_shape(body);
    error_message_from(body, &shape)
}

/// The message stored in an error: the body's message, else `HTTP {status}`.
pub open spec fn message_or_status(message: Option<Seq<char>>, status: u16) -> Seq<char> {
    match message {
        Some(m) => m,
        None => "HTTP "@ + decimal_text(status as nat),
    }
}

// ---------------------------------------------------------------------------
// Retry-After header
// ---------------------------------------------------------------------------

/// ASCII digit byte.
pub open spec fn is_ascii_digit(b: u8) -> bool {
    48 <= b <= 57
}

/// Value of a sequence of decimal digit bytes.
pub open spec fn digits_value(d: Seq<u8>) -> nat
    decreases d.len(),
{
    if d.len() == 0 {
        0
    } else {
        digits_value(d.drop_last()) * 10 + (d.last() - 48) as nat
    }
}

/// The digits part of an unsigned number: the bytes after an optional `+`.
pub open spec fn unsigned_digits(b: Seq<u8>) -> Seq<u8> {
    if b.len() > 0 && b[0] == 43 {
        b.skip(1)
    } else {
        b
    }
}

/// Every byte is an ASCII digit.
pub open spec fn all_digits(d: Seq<u8>) -> bool {
    forall|i: int| 0 <= i < d.len() ==> is_ascii_digit(#[trigger] d[i])
}

/// Unsigned decimal parse, as `str::parse::<u64>`: an optional `+`, then one
/// or more ASCII digits whose value fits in a `u64`; anything else is `None`.
pub open spec fn parse_u64_spec(b: Seq<u8>) -> Option<u64> {
    let d = unsigned_digits(b);
    if d.len() > 0 && all_digits(d) && digits_value(d) <= u64::MAX {
        Some(digits_value(d) as u64)
    } else {
        None
    }
}

proof fn lemma_digits_value_prefix(d: Seq<u8>, k: int)
    requires
        0 <= k <= d.len(),
        forall|i: int| 0 <= i < d.len() ==> is_ascii_digit(#[trigger] d[i]),
    ensures
        digits_value(d.take(k)) <= digits_value(d),
    decreases d.len(),
{
    if k == d.len() {
        assert(d.take(k) =~= d);
    } else {
        let p = d.drop_last();
        assert forall|i: int| 0 <= i < p.len() implies is_ascii_digit(#[trigger] p[i]) by {
            assert(p[i] == d[i]);
        }
        lemma_digits_value_prefix(p, k);
        assert(p.take(k) =~= d.take(k));
    }
}

/// Parses a `Retry-After` header value as whole seconds (as
/// `str::parse::<u64>` does); `None` when it is not such a number.
pub fn parse_retry_after(s: &str) -> (r: Option<u64>)
    ensures
        r == parse_u64_spec(s.spec_bytes()),
{
    let bytes = s.as_bytes();
    let len = bytes.len();
    let ghost b = bytes@;
    let mut start: usize = 0;
    if len > 0 && bytes[0] == 43 {
        start = 1;
    }
    let ghost d = unsigned_digits(b);
    assert(d =~= b.skip(start as int));
    if start >= len {
        return None;
    }
    let mut value: u64 = 0;
    let mut i: usize = start;
    assert(d.take(0) =~= Seq::<u8>::empty());
    while i < len
        invariant
            b == bytes@,
            b == s.spec_bytes(),
            d == unsigned_digits(b),
            len == b.len(),
            start <= i <= len,
            d == b.skip(start as int),
            forall|j: int| 0 <= j < i - start ==> is_ascii_digit(#[trigger] d[j]),
            value == digits_value(d.take(i - start)),
        decreases len - i,
    {
        let byte = bytes[i];
        let ghost k = i - start;
        assert(d[k] == byte);
        if byte < 48 || byte > 57 {
            assert(!is_ascii_digit(d[k]));
            return None;
        }
        assert(d.take(k + 1).drop_last() =~= d.take(k));
        let digit = (byte - 48) as u64;
        match value.checked_mul(10) {
            None => {
                proof {
                    if all_digits(d) {
                        lemma_digits_value_prefix(d, k + 1);
                    }
                }
                return None;
            },
            Some(v) => match v.checked_add(digit) {
                None => {
                    proof {
                        if all_digits(d) {
                            lemma_digits_value_prefix(d, k + 1);
                        }
                    }
                    return None;
                },
                Some(w) => {
                    value = w;
                },
            },
        }
        i = i + 1;
    }
    assert(d.take(len - start) =~= d);
    Some(value)
}

// ---------------------------------------------------------------------------
// Mapping a non-success reply to an error
// ---------------------------------------------------------------------------

/// The error for an unexpected reply with status `status`, request id
/// header `request_id`, `Retry-After` header `retry_after` and body whose
/// message is `message`: 401/403 give `Auth`, 429 gives `RateLimit`, any
/// other status gives `Http`.
pub open spec fn is_reply_error(
    e: ScaniiError,
    status: u16,
    request_id: Option<Seq<char>>,
    retry_after: Option<u64>,
    message: Seq<char>,
) -> bool {
    if status == 401 || status == 403 {
        e matches ScaniiError::Auth { message: m, request_id: r } && m@ == message
            && r.deep_view() == request_id
    } else if status == 429 {
        e matches ScaniiError::RateLimit { retry_after: ra, message: m, request_id: r } && ra
            == retry_after && m@ == message && r.deep_view() == request_id
    } else {
        e matches ScaniiError::Http { status: s, message: m, request_id: r } && s == status && m@
            == message && r.deep_view() == request_id
    }
}

/// Law: the variant of a reply error is decided by the status alone: 401 and
/// 403 give `Auth`, 429 gives `RateLimit`, and every other status (any 4xx
/// or 5xx, or an unexpected 2xx/3xx) gives `Http` carrying that very status;
/// each keeps the message and the request id.
pub proof fn law_reply_error_variant(
    e: ScaniiError,
    status: u16,
    request_id: Option<Seq<char>>,
    retry_after: Option<u64>,
    message: Seq<char>,
)
    requires
        is_reply_error(e, status, request_id, retry_after, message),
    ensures
        (status == 401 || status == 403) <==> e is Auth,
        status == 429 <==> e is RateLimit,
        (status != 401 && status != 403 && status != 429) <==> e is Http,
        !(e is Config || e is Transport || e is Serde || e is Io),
        e is Auth ==> e->Auth_message@ == message && e->Auth_request_id.deep_view()
            == request_id,
        e is RateLimit ==> e->RateLimit_message@ == message
            && e->RateLimit_request_id.deep_view() == request_id && e->RateLimit_retry_after
            == retry_after,
        e is Http ==> e->Http_status == status && e->Http_message@ == message
            && e->Http_request_id.deep_view() == request_id,
{
}

/// Seconds of a `Retry-After` header, when it holds a number.
pub open spec fn retry_after_spec(header: Option<Seq<u8>>) -> Option<u64> {
    match header {
        Some(h) => parse_u64_spec(h),
        None => None,
    }
}

/// Builds the error for a reply whose status was not the expected one, from
/// the status, the `X-Scanii-Request-Id` and `Retry-After` header values and
/// the reply body.
pub fn error_from_response(
    status: u16,
    request_id: Option<String>,
    retry_after: Option<&str>,
    body: &str,
) -> (e: ScaniiError)
    ensures
        is_reply_error(
            e,
            status,
            request_id.deep_view(),
            retry_after_spec(
                match retry_after {
                    Some(h) => Some(h.spec_bytes()),
                    None => None,
                },
            ),
            message_or_status(
                error_message_spec(body@, shape_error_text(json_shape_of(body@))),
                status,
            ),
        ),
{
    let message = match parse_error_message(body) {
        Some(m) => m,
        None => {
            let mut m = "HTTP ".to_owned();
            let digits = u64_to_decimal(status as u64);
            m.append(digits.as_str());
            m
        },
    };
    if status == 401 || status == 403 {
        ScaniiError::Auth { message, request_id }
    } else if status == 429 {
        let seconds = match retry_after {
            Some(h) => parse_retry_after(h),
            None => None,
        };
        ScaniiError::RateLimit { retry_after: seconds, message, request_id }
    } else {
        ScaniiError::Http { status, message, request_id }
    }
}

// ---------------------------------------------------------------------------
// Human-readable text
// ---------------------------------------------------------------------------

/// Human-readable text of an error other than `Io`.
pub open spec fn error_text(e: ScaniiError) -> Seq<char> {
    match e {
        ScaniiError::Config(m) => "configuration error: "@ + m@,
        ScaniiError::Auth { message, .. } => "authentication failed: "@ + message@,
        ScaniiError::RateLimit { retry_after, message, .. } => match retry_after {
            Some(s) => "rate limited (retry after "@ + decimal_text(s as nat) + "s): "@ + message@,
            None => "rate limited: "@ + message@,
        },
        ScaniiError::Http { status, message, .. } => "HTTP "@ + decimal_text(status as nat)
            + ": "@ + message@,
        ScaniiError::Transport(m) => "transport error: "@ + m@,
        ScaniiError::Serde(m) => "deserialization error: "@ + m@,
        ScaniiError::Io(_) => "I/O error: "@,
    }
}

/// Trusted: renders a `std::io::Error` with its `Display` impl
/// (`format!("{e}")`). The text depends on the operating system, so
/// nothing is claimed about it.
#[verifier::external_body]
fn io_error_text(e: &std::io::Error) -> String {
    format!("{e}")
}

impl ScaniiError {
    /// Human-readable description of the error (what `Display` would print).
    pub fn to_string(&self) -> (s: String)
        ensures
            !(self is Io) ==> s@ == error_text(*self),
            self is Io ==> error_text(*self).is_prefix_of(s@),
    {
        match self {
            ScaniiError::Config(m) => {
                let mut s = "configuration error: ".to_owned();
                s.append(m.as_str());
                s
            },
            ScaniiError::Auth { message, .. } => {
                let mut s = "authentication failed: ".to_owned();
                s.append(message.as_str());
                s
            },
            ScaniiError::RateLimit { retry_after, message, .. } => match retry_after {
                Some(secs) => {
                    let mut s = "rate limited (retry after ".to_owned();
                    let digits = u64_to_decimal(*secs);
                    s.append(digits.as_str());
                    s.append("s): ");
                    s.append(message.as_str());
                    s
                },
                None => {
                    let mut s = "rate limited: ".to_owned();
                    s.append(message.as_str());
                    s
                },
            },
            ScaniiError::Http { status, message, .. } => {
                let mut s = "HTTP ".to_owned();
                let digits = u64_to_decimal(*status as u64);
                s.append(digits.as_str());
                s.append(": ");
                s.append(message.as_str());
                s
            },
            ScaniiError::Transport(m) => {
                let mut s = "transport error: ".to_owned();
                s.append(m.as_str());
                s
            },
            ScaniiError::Serde(m) => {
                let mut s = "deserialization error: ".to_owned();
                s.append(m.as_str());
                s
            },
            ScaniiError::Io(e) => {
                let mut s = "I/O error: ".to_owned();
                let text = io_error_text(e);
                s.append(text.as_str());
                s
            },
        }
    }
}

impl From<std::io::Error> for ScaniiError {
    fn from(e: std::io::Error) -> (r: Self) {
        ScaniiError::Io(e)
    }
}

impl vstd::std_specs::convert::FromSpecImpl<std::io::Error> for ScaniiError {
    open spec fn obeys_from_spec() -> bool {
        true
    }

    open spec fn from_spec(e: std::io::Error) -> Self {
        ScaniiError::Io(e)
    }
}

} // verus!
