//! The client: its builder, the validated configuration, and the requests it
//! issues for each API operation.
//!
//! Every operation maps to exactly one HTTP request. This module decides
//! what that request is (method, URL, headers, form or multipart body) and
//! which reply statuses count as success; the transport carries it out.
use std::time::Duration;
use vstd::prelude::*;
use vstd::string::StrSliceExecFns;
use vstd::string::StringExecFns;
use vstd::string::StringSliceAdditionalSpecFns;
use vstd::utf8::{encode_utf8, encode_utf8_decode_utf8};

use crate::codec::{
    base64_encode, base64_spec, decimal_text, lemma_base64_injective, u64_to_decimal, url_encode,
    url_encode_spec,
};
use crate::error::ScaniiError;
use crate::multipart::{
    build_epilogue, build_prologue, build_text_only_body, epilogue_text, make_content_type,
    prologue_text, text_only_body_text,
};
use crate::target::ScaniiTarget;

verus! {

/// Crate version.
pub const VERSION: &'static str = "1.3.0";

/// Endpoint used when none is configured (latency-based routing).
pub const DEFAULT_ENDPOINT: &'static str = "https://api.scanii.com";

/// Path prefix of API version 2.2.
pub const API_VERSION_PATH: &'static str = "/v2.2";

/// Request timeout used when none is configured, in seconds.
pub const DEFAULT_TIMEOUT_SECS: u64 = 60;

// ---------------------------------------------------------------------------
// Trusted items of the HTTP transport and std
// ---------------------------------------------------------------------------

/// Declares `ureq::Agent` (the HTTP connection pool) as an opaque type.
#[verifier::external_type_specification]
#[verifier::external_body]
pub struct ExAgent(ureq::Agent);

/// Declares `ureq::AgentBuilder` as an opaque type.
#[verifier::external_type_specification]
#[verifier::external_body]
pub struct ExAgentBuilder(ureq::AgentBuilder);

/// Trusted: `ureq::AgentBuilder::new`, a builder with ureq's defaults. It
/// does not fail; the agent is opaque here, so nothing is claimed of it.
pub assume_specification[ ureq::AgentBuilder::new ]() -> ureq::AgentBuilder;

/// Trusted: `ureq::AgentBuilder::timeout`, which records the overall request
/// timeout. Nothing is claimed of the opaque builder it returns.
pub assume_specification[ ureq::AgentBuilder::timeout ](
    builder: ureq::AgentBuilder,
    timeout: Duration,
) -> ureq::AgentBuilder;

/// Trusted: `ureq::AgentBuilder::build`, which makes the agent (connection
/// pool and TLS configuration). Nothing is claimed of the opaque agent.
pub assume_specification[ ureq::AgentBuilder::build ](builder: ureq::AgentBuilder) -> ureq::Agent;

/// Trusted: `Clone` of `ureq::Agent`, a handle sharing the same connection
/// pool. Nothing is claimed of the opaque copy.
pub assume_specification[ <ureq::Agent as Clone>::clone ](agent: &ureq::Agent) -> ureq::Agent;

/// Trusted: `Clone` of `std::time::Duration`, a `Copy` type whose clone is
/// a copy of the same value.
pub assume_specification[ <Duration as Clone>::clone ](d: &Duration) -> (r: Duration)
    ensures
        r == *d,
;

/// The duration of `secs` whole seconds, as `Duration::from_secs` makes it.
pub uninterp spec fn duration_from_secs(secs: u64) -> Duration;

/// Trusted: `std::time::Duration::from_secs`, which std documents as making
/// a duration of the given whole seconds; it cannot fail. Durations are
/// opaque here, so the contract only names the result (`duration_from_secs`).
pub assume_specification[ Duration::from_secs ](secs: u64) -> (d: Duration)
    ensures
        d == duration_from_secs(secs),
;

// ---------------------------------------------------------------------------
// Small text helpers
// ---------------------------------------------------------------------------

/// Whether `s` holds the char `c`.
fn contains_char(s: &str, c: char) -> (r: bool)
    ensures
        r == s@.contains(c),
{
    let n = s.unicode_len();
    let mut i: usize = 0;
    while i < n
        invariant
            n == s@.len(),
            i <= n,
            forall|j: int| 0 <= j < i ==> s@[j] != c,
        decreases n - i,
    {
        if s.get_char(i) == c {
            return true;
        }
        i = i + 1;
    }
    false
}

/// `s` without any trailing `/` (as `str::trim_end_matches('/')`).
pub open spec fn trim_trailing_slashes(s: Seq<char>) -> Seq<char>
    decreases s.len(),
{
    if s.len() > 0 && s.last() == '/' {
        trim_trailing_slashes(s.drop_last())
    } else {
        s
    }
}

fn trim_end_slashes(s: &str) -> (r: String)
    ensures
        r@ == trim_trailing_slashes(s@),
{
    let len = s.unicode_len();
    let mut n: usize = len;
    assert(s@.take(len as int) =~= s@);
    loop
        invariant
            len == s@.len(),
            n <= len,
            trim_trailing_slashes(s@) == trim_trailing_slashes(s@.take(n as int)),
        ensures
            n <= len,
            trim_trailing_slashes(s@) == trim_trailing_slashes(s@.take(n as int)),
            n == 0 || s@[n - 1] != '/',
        decreases n,
    {
        if n == 0 {
            break;
        }
        if s.get_char(n - 1) != '/' {
            break;
        }
        assert(s@.take(n as int).drop_last() =~= s@.take(n - 1));
        n = n - 1;
    }
    let t = s.substring_char(0, n);
    assert(t@ =~= s@.take(n as int));
    t.to_owned()
}

/// Concatenation of two strings.
fn concat(a: &str, b: &str) -> (r: String)
    ensures
        r@ == a@ + b@,
{
    let mut r = a.to_owned();
    r.append(b);
    r
}

// ---------------------------------------------------------------------------
// File names
// ---------------------------------------------------------------------------

/// The last component of `path`, as `std::path::Path::file_name` computes
/// it (`None` when the path ends in `..` or has no component).
pub uninterp spec fn path_file_name_of(path: Seq<char>) -> Option<Seq<char>>;

/// Trusted: `std::path::Path::new(path).file_name()`, converted to an owned
/// `String`. The contract claims only that the result is determined by the
/// path text (the name `path_file_name_of`); the component rules of
/// `Path::file_name` are not restated.
#[verifier::external_body]
fn path_file_name(path: &str) -> (r: Option<String>)
    ensures
        r.deep_view() == path_file_name_of(path@),
{
    std::path::Path::new(path).file_name().map(|n| n.to_string_lossy().into_owned())
}

/// The upload file name for a path's last component: the component itself,
/// or `upload` when there is none.
pub open spec fn upload_filename_spec(name: Option<Seq<char>>) -> Seq<char> {
    match name {
        Some(n) => n,
        None => "upload"@,
    }
}

/// Chooses the upload file name from a path's last component, when any.
pub fn filename_or_upload(name: Option<String>) -> (r: String)
    ensures
        r@ == upload_filename_spec(name.deep_view()),
{
    match name {
        Some(n) => n,
        None => "upload".to_owned(),
    }
}

/// The file name sent for an upload of the file at `path`.
pub fn path_filename(path: &str) -> (r: String)
    ensures
        r@ == upload_filename_spec(path_file_name_of(path@)),
{
    filename_or_upload(path_file_name(path))
}

// ---------------------------------------------------------------------------
// Builder
// ---------------------------------------------------------------------------

/// What a builder holds.
pub struct BuilderSettings {
    pub key: Option<Seq<char>>,
    pub secret: Option<Seq<char>>,
    pub token: Option<Seq<char>>,
    pub endpoint: Option<Seq<char>>,
    pub user_agent: Option<Seq<char>>,
    pub timeout: Option<Duration>,
}

/// Builder for [`ScaniiClient`].
///
/// Set either `key` + `secret` (HTTP Basic auth) or `token` (auth-token
/// authentication); mixing the two is a configuration error.
#[derive(Debug, Clone)]
pub struct ScaniiClientBuilder {
    key: Option<String>,
    secret: Option<String>,
    token: Option<String>,
    endpoint: Option<String>,
    user_agent: Option<String>,
    timeout: Option<Duration>,
}

impl View for ScaniiClientBuilder {
    type V = BuilderSettings;

    closed spec fn view(&self) -> BuilderSettings {
        BuilderSettings {
            key: self.key.deep_view(),
            secret: self.secret.deep_view(),
            token: self.token.deep_view(),
            endpoint: self.endpoint.deep_view(),
            user_agent: self.user_agent.deep_view(),
            timeout: self.timeout,
        }
    }
}

/// A builder with nothing set.
pub open spec fn empty_settings() -> BuilderSettings {
    BuilderSettings {
        key: None,
        secret: None,
        token: None,
        endpoint: None,
        user_agent: None,
        timeout: None,
    }
}

impl Default for ScaniiClientBuilder {
    fn default() -> (b: Self)
        ensures
            b@ == empty_settings(),
    {
        ScaniiClientBuilder {
            key: None,
            secret: None,
            token: None,
            endpoint: None,
            user_agent: None,
            timeout: None,
        }
    }
}

impl ScaniiClientBuilder {
    /// Sets the API key. It must not be empty nor contain a colon.
    pub fn key(self, key: &str) -> (b: Self)
        ensures
            b@ == (BuilderSettings { key: Some(key@), ..self@ }),
    {
        ScaniiClientBuilder { key: Some(key.to_owned()), ..self }
    }

    /// Sets the API secret; pair it with [`Self::key`].
    pub fn secret(self, secret: &str) -> (b: Self)
        ensures
            b@ == (BuilderSettings { secret: Some(secret@), ..self@ }),
    {
        ScaniiClientBuilder { secret: Some(secret.to_owned()), ..self }
    }

    /// Authenticates with a previously minted auth-token id instead of
    /// `key` + `secret`.
    pub fn token(self, token: &str) -> (b: Self)
        ensures
            b@ == (BuilderSettings { token: Some(token@), ..self@ }),
    {
        ScaniiClientBuilder { token: Some(token.to_owned()), ..self }
    }

    /// Overrides the API endpoint (default `https://api.scanii.com`), e.g.
    /// a regional host or `http://localhost:4000` for scanii-cli.
    pub fn endpoint(self, endpoint: &str) -> (b: Self)
        ensures
            b@ == (BuilderSettings { endpoint: Some(endpoint@), ..self@ }),
    {
        ScaniiClientBuilder { endpoint: Some(endpoint.to_owned()), ..self }
    }

    /// Sets the API endpoint from a typed regional target.
    pub fn target(self, target: ScaniiTarget) -> (b: Self)
        ensures
            b@ == (BuilderSettings { endpoint: Some(target@), ..self@ }),
    {
        let url = target.url().to_owned();
        ScaniiClientBuilder { endpoint: Some(url), ..self }
    }

    /// Optional user-agent fragment prepended to the SDK's own.
    pub fn user_agent(self, ua: &str) -> (b: Self)
        ensures
            b@ == (BuilderSettings { user_agent: Some(ua@), ..self@ }),
    {
        ScaniiClientBuilder { user_agent: Some(ua.to_owned()), ..self }
    }

    /// Overrides the request timeout (default 60 seconds).
    pub fn timeout(self, timeout: Duration) -> (b: Self)
        ensures
            b@ == (BuilderSettings { timeout: Some(timeout), ..self@ }),
    {
        ScaniiClientBuilder { timeout: Some(timeout), ..self }
    }

    /// Whether no endpoint was chosen, so that the client would use the
    /// deprecated latency-based routing of `https://api.scanii.com`.
    pub fn uses_auto_endpoint(&self) -> (r: bool)
        ensures
            r == (self@.endpoint is None),
    {
        self.endpoint.is_none()
    }

    /// Validates the settings and assembles the client.
    pub fn build(self) -> (r: Result<ScaniiClient, ScaniiError>)
        ensures
            match auth_header_spec(self@) {
                Ok(h) => r matches Ok(c) && c@ == (ClientSettings {
                    base_url: base_url_spec(self@.endpoint),
                    auth_header: h,
                    user_agent: user_agent_spec(self@.user_agent),
                    timeout: timeout_spec(self@.timeout),
                }),
                Err(m) => r matches Err(ScaniiError::Config(msg)) && msg@ == m,
            },
    {
        let auth_header = match &self.token {
            Some(token) => {
                if self.key.is_some() || self.secret.is_some() {
                    return Err(
                        ScaniiError::Config(
                            "supply either token or key+secret, not both".to_owned(),
                        ),
                    );
                }
                if token.as_str().is_empty() {
                    return Err(ScaniiError::Config("token must not be empty".to_owned()));
                }
                let credentials = concat(token.as_str(), ":");
                let encoded = base64_encode(credentials.as_str());
                concat("Basic ", encoded.as_str())
            },
            None => {
                let key = match &self.key {
                    Some(k) => k,
                    None => {
                        return Err(
                            ScaniiError::Config(
                                "key must be set (or use token for auth-token mode)".to_owned(),
                            ),
                        );
                    },
                };
                if key.as_str().is_empty() {
                    return Err(ScaniiError::Config("key must not be empty".to_owned()));
                }
                if contains_char(key.as_str(), ':') {
                    return Err(ScaniiError::Config("key must not contain a colon".to_owned()));
                }
                let secret = match &self.secret {
                    Some(s) => s,
                    None => {
                        return Err(
                            ScaniiError::Config(
                                "secret must be set when using key auth".to_owned(),
                            ),
                        );
                    },
                };
                let mut credentials = concat(key.as_str(), ":");
                credentials.append(secret.as_str());
                let encoded = base64_encode(credentials.as_str());
                concat("Basic ", encoded.as_str())
            },
        };
        let endpoint = match &self.endpoint {
            Some(e) => trim_end_slashes(e.as_str()),
            None => trim_end_slashes(DEFAULT_ENDPOINT),
        };
        let base_url = concat(endpoint.as_str(), API_VERSION_PATH);
        let default_ua = concat("scanii-rust/", VERSION);
        let user_agent = match &self.user_agent {
            Some(prefix) => {
                if prefix.as_str().is_empty() {
                    default_ua
                } else {
                    let mut ua = concat(prefix.as_str(), " ");
                    ua.append(default_ua.as_str());
                    ua
                }
            },
            None => default_ua,
        };
        let timeout = match self.timeout {
            Some(t) => t,
            None => Duration::from_secs(DEFAULT_TIMEOUT_SECS),
        };
        let agent = ureq::AgentBuilder::new().timeout(timeout).build();
        Ok(ScaniiClient { agent, base_url, auth_header, user_agent, timeout })
    }
}

/// `Authorization` header for the settings, or the configuration error
/// message: token mode (`Basic base64("{token}:")`) excludes key and
/// secret; key mode needs a non-empty key without `:` and a secret
/// (`Basic base64("{key}:{secret}")`).
pub open spec fn auth_header_spec(s: BuilderSettings) -> Result<Seq<char>, Seq<char>> {
    match s.token {
        Some(t) => if s.key is Some || s.secret is Some {
            Err("supply either token or key+secret, not both"@)
        } else if t.len() == 0 {
            Err("token must not be empty"@)
        } else {
            Ok("Basic "@ + base64_spec(encode_utf8(t + ":"@)))
        },
        None => match s.key {
            None => Err("key must be set (or use token for auth-token mode)"@),
            Some(k) => if k.len() == 0 {
                Err("key must not be empty"@)
            } else if k.contains(':') {
                Err("key must not contain a colon"@)
            } else {
                match s.secret {
                    None => Err("secret must be set when using key auth"@),
                    Some(sec) => Ok("Basic "@ + base64_spec(encode_utf8(k + ":"@ + sec))),
                }
            },
        },
    }
}

/// Base URL: the endpoint (default `https://api.scanii.com`) without
/// trailing slashes, followed by `/v2.2`.
pub open spec fn base_url_spec(endpoint: Option<Seq<char>>) -> Seq<char> {
    match endpoint {
        Some(e) => trim_trailing_slashes(e) + API_VERSION_PATH@,
        None => trim_trailing_slashes(DEFAULT_ENDPOINT@) + API_VERSION_PATH@,
    }
}

/// User agent: `scanii-rust/{VERSION}`, preceded by a non-empty caller
/// fragment and a space when one was given.
pub open spec fn user_agent_spec(prefix: Option<Seq<char>>) -> Seq<char> {
    match prefix {
        Some(p) => if p.len() > 0 {
            p + " "@ + ("scanii-rust/"@ + VERSION@)
        } else {
            "scanii-rust/"@ + VERSION@
        },
        None => "scanii-rust/"@ + VERSION@,
    }
}

/// Request timeout: the configured one, else 60 seconds.
pub open spec fn timeout_spec(timeout: Option<Duration>) -> Duration {
    match timeout {
        Some(t) => t,
        None => duration_from_secs(DEFAULT_TIMEOUT_SECS),
    }
}

/// Law: token auth and key auth cannot be mixed; setting a token together
/// with a key or a secret is always a configuration error.
pub proof fn lemma_token_excludes_key(s: BuilderSettings)
    requires
        s.token is Some,
        s.key is Some || s.secret is Some,
    ensures
        auth_header_spec(s) is Err,
{
}

/// Law: in key mode the `Authorization` header determines the key and the
/// secret, which is why a key may not contain `:`; distinct credentials
/// always give distinct headers.
pub proof fn lemma_key_credentials_recoverable(
    k1: Seq<char>,
    s1: Seq<char>,
    k2: Seq<char>,
    s2: Seq<char>,
)
    requires
        !k1.contains(':'),
        !k2.contains(':'),
        "Basic "@ + base64_spec(encode_utf8(k1 + ":"@ + s1)) == "Basic "@ + base64_spec(
            encode_utf8(k2 + ":"@ + s2),
        ),
    ensures
        k1 == k2,
        s1 == s2,
{
    reveal_strlit(":");
    let p = "Basic "@;
    let e1 = base64_spec(encode_utf8(k1 + ":"@ + s1));
    let e2 = base64_spec(encode_utf8(k2 + ":"@ + s2));
    assert(e1 =~= (p + e1).skip(p.len() as int));
    assert(e2 =~= (p + e2).skip(p.len() as int));
    lemma_base64_injective(encode_utf8(k1 + ":"@ + s1), encode_utf8(k2 + ":"@ + s2));
    let t1 = k1 + ":"@ + s1;
    let t2 = k2 + ":"@ + s2;
    encode_utf8_decode_utf8(t1);
    encode_utf8_decode_utf8(t2);
    assert(t1 == t2);
    if k1.len() < k2.len() {
        assert(t1[k1.len() as int] == ':');
        assert(t2[k1.len() as int] == k2[k1.len() as int]);
        assert(k2.contains(':'));
    } else if k2.len() < k1.len() {
        assert(t2[k2.len() as int] == ':');
        assert(t1[k2.len() as int] == k1[k2.len() as int]);
        assert(k1.contains(':'));
    } else {
        assert(k1 =~= t1.take(k1.len() as int));
        assert(k2 =~= t2.take(k2.len() as int));
        assert(s1 =~= t1.skip(k1.len() as int + 1));
        assert(s2 =~= t2.skip(k2.len() as int + 1));
    }
}

/// Law: trailing slashes on the endpoint do not change the base URL.
pub proof fn lemma_endpoint_trailing_slash(e: Seq<char>)
    ensures
        base_url_spec(Some(e.push('/'))) == base_url_spec(Some(e)),
{
    assert(e.push('/').drop_last() =~= e);
}

// ---------------------------------------------------------------------------
// Client
// ---------------------------------------------------------------------------

/// The validated configuration of a client.
pub struct ClientSettings {
    pub base_url: Seq<char>,
    pub auth_header: Seq<char>,
    pub user_agent: Seq<char>,
    pub timeout: Duration,
}

/// Synchronous client for the Scanii REST API v2.2.
///
/// Construct it with [`ScaniiClient::builder`]. It does not retry, batch or
/// paginate: each operation maps to exactly one HTTP request.
#[derive(Debug, Clone)]
pub struct ScaniiClient {
    agent: ureq::Agent,
    base_url: String,
    auth_header: String,
    user_agent: String,
    timeout: Duration,
}

impl View for ScaniiClient {
    type V = ClientSettings;

    closed spec fn view(&self) -> ClientSettings {
        ClientSettings {
            base_url: self.base_url@,
            auth_header: self.auth_header@,
            user_agent: self.user_agent@,
            timeout: self.timeout,
        }
    }
}

impl ScaniiClient {
    /// The HTTP agent (connection pool) the client holds.
    pub closed spec fn http_agent(&self) -> ureq::Agent {
        self.agent
    }
}

/// A request to send: method, absolute URL and headers, in order.
#[derive(Debug)]
pub struct PreparedRequest {
    pub method: String,
    pub url: String,
    pub headers: Vec<(String, String)>,
    /// Overall timeout of the request.
    pub timeout: Duration,
}

/// A request with a form-urlencoded body of `form` pairs, in order.
#[derive(Debug)]
pub struct FormRequest {
    pub request: PreparedRequest,
    pub form: Vec<(String, String)>,
}

/// A multipart upload: the request, and the bytes to send before and after
/// the streamed file content.
#[derive(Debug)]
pub struct UploadRequest {
    pub request: PreparedRequest,
    pub prologue: Vec<u8>,
    pub epilogue: Vec<u8>,
}

/// A request whose whole body is given.
#[derive(Debug)]
pub struct BodyRequest {
    pub request: PreparedRequest,
    pub body: Vec<u8>,
}

/// The API operations, each one HTTP request.
#[derive(Debug, Clone, Copy)]
pub enum Operation {
    /// `POST /files`
    Process,
    /// `POST /files/async`
    ProcessAsync,
    /// `POST /files` with a `location` field instead of a file
    ProcessFromUrl,
    /// `POST /files/fetch`
    Fetch,
    /// `GET /files/{id}`
    Retrieve,
    /// `GET /ping`
    Ping,
    /// `POST /auth/tokens`
    CreateAuthToken,
    /// `GET /auth/tokens/{id}`
    RetrieveAuthToken,
    /// `DELETE /auth/tokens/{id}`
    DeleteAuthToken,
}

/// The success statuses of each operation.
pub open spec fn accepts_status_spec(op: Operation, status: u16) -> bool {
    match op {
        Operation::Process => status == 201,
        Operation::ProcessAsync => status == 202,
        Operation::ProcessFromUrl => status == 201,
        Operation::Fetch => status == 202,
        Operation::Retrieve => status == 200,
        Operation::Ping => status == 200,
        Operation::CreateAuthToken => status == 200 || status == 201,
        Operation::RetrieveAuthToken => status == 200,
        Operation::DeleteAuthToken => status == 204,
    }
}

/// Whether `status` is a success reply for `op`; any other status is turned
/// into an error with [`crate::error::error_from_response`].
pub fn accepts_status(op: Operation, status: u16) -> (r: bool)
    ensures
        r == accepts_status_spec(op, status),
{
    match op {
        Operation::Process => status == 201,
        Operation::ProcessAsync => status == 202,
        Operation::ProcessFromUrl => status == 201,
        Operation::Fetch => status == 202,
        Operation::Retrieve => status == 200,
        Operation::Ping => status == 200,
        Operation::CreateAuthToken => status == 200 || status == 201,
        Operation::RetrieveAuthToken => status == 200,
        Operation::DeleteAuthToken => status == 204,
    }
}

/// Headers sent with every request: credentials, user agent, and JSON as
/// the accepted reply type.
pub open spec fn standard_headers(c: ClientSettings) -> Seq<(Seq<char>, Seq<char>)> {
    seq![
        ("Authorization"@, c.auth_header),
        ("User-Agent"@, c.user_agent),
        ("Accept"@, "application/json"@),
    ]
}

/// The request for `method` and API path `path` of client `c`.
pub open spec fn is_request(
    r: PreparedRequest,
    c: ClientSettings,
    method: Seq<char>,
    path: Seq<char>,
) -> bool {
    &&& r.method@ == method
    &&& r.url@ == c.base_url + path
    &&& r.headers.deep_view() == standard_headers(c)
    &&& r.timeout == c.timeout
}

/// Form field name of a metadata entry: `metadata[{key}]`.
pub open spec fn metadata_name(key: Seq<char>) -> Seq<char> {
    "metadata["@ + key + "]"@
}

/// Form pairs of metadata entries, in order.
pub open spec fn metadata_pairs(m: Seq<(Seq<char>, Seq<char>)>) -> Seq<(Seq<char>, Seq<char>)> {
    m.map_values(|p: (Seq<char>, Seq<char>)| (metadata_name(p.0), p.1))
}

/// Pairs of optional metadata.
pub open spec fn opt_metadata_pairs(m: Option<Seq<(Seq<char>, Seq<char>)>>) -> Seq<
    (Seq<char>, Seq<char>),
> {
    match m {
        Some(s) => metadata_pairs(s),
        None => seq![],
    }
}

/// The `callback` pair, when a callback is given.
pub open spec fn callback_pairs(callback: Option<Seq<char>>) -> Seq<(Seq<char>, Seq<char>)> {
    match callback {
        Some(cb) => seq![("callback"@, cb)],
        None => seq![],
    }
}

/// View of an optional string argument.
pub open spec fn opt_str(o: Option<&str>) -> Option<Seq<char>> {
    match o {
        Some(s) => Some(s@),
        None => None,
    }
}

/// View of optional metadata.
pub open spec fn opt_pairs(o: Option<&[(String, String)]>) -> Option<Seq<(Seq<char>, Seq<char>)>> {
    match o {
        Some(m) => Some(m.deep_view()),
        None => None,
    }
}

/// Text fields of an upload: one `metadata[{key}]` field per metadata entry,
/// then `callback` when given.
pub open spec fn upload_fields_spec(
    metadata: Option<Seq<(Seq<char>, Seq<char>)>>,
    callback: Option<Seq<char>>,
) -> Seq<(Seq<char>, Seq<char>)> {
    opt_metadata_pairs(metadata) + callback_pairs(callback)
}

/// Text fields of a URL submission: `location`, then one `metadata[{key}]`
/// field per metadata entry.
pub open spec fn url_submission_fields_spec(
    location: Seq<char>,
    metadata: Option<Seq<(Seq<char>, Seq<char>)>>,
) -> Seq<(Seq<char>, Seq<char>)> {
    seq![("location"@, location)] + opt_metadata_pairs(metadata)
}

/// Form of a fetch: `location`, then `callback` when given, then one
/// `metadata[{key}]` pair per metadata entry.
pub open spec fn fetch_form_spec(
    location: Seq<char>,
    metadata: Option<Seq<(Seq<char>, Seq<char>)>>,
    callback: Option<Seq<char>>,
) -> Seq<(Seq<char>, Seq<char>)> {
    seq![("location"@, location)] + callback_pairs(callback) + opt_metadata_pairs(metadata)
}

/// Number of metadata entries given.
pub open spec fn metadata_count(metadata: Option<Seq<(Seq<char>, Seq<char>)>>) -> int {
    match metadata {
        Some(m) => m.len() as int,
        None => 0,
    }
}

/// Law: the text fields of an upload hold one `metadata[{key}]` field per
/// metadata entry, in order, followed by the `callback` field exactly when a
/// callback is given, whether or not there is metadata.
pub proof fn law_upload_fields(
    metadata: Option<Seq<(Seq<char>, Seq<char>)>>,
    callback: Option<Seq<char>>,
)
    ensures
        upload_fields_spec(metadata, callback).len() == metadata_count(metadata) + (
        if callback is Some {
            1int
        } else {
            0int
        }),
        forall|i: int|
            0 <= i < metadata_count(metadata) ==> #[trigger] upload_fields_spec(
                metadata,
                callback,
            )[i] == ("metadata["@ + metadata->0[i].0 + "]"@, metadata->0[i].1),
        forall|c: Seq<char>|
            callback == Some(c) ==> upload_fields_spec(metadata, callback)[metadata_count(
                metadata,
            )] == ("callback"@, c),
{
}

/// Law: a fetch form starts with `location`, then holds `callback` exactly
/// when one is given, then one `metadata[{key}]` pair per metadata entry in
/// order, whether or not a callback is given.
pub proof fn law_fetch_form(
    location: Seq<char>,
    metadata: Option<Seq<(Seq<char>, Seq<char>)>>,
    callback: Option<Seq<char>>,
)
    ensures
        ({
            let f = fetch_form_spec(location, metadata, callback);
            let k: int = if callback is Some {
                1
            } else {
                0
            };
            &&& f.len() == 1 + k + metadata_count(metadata)
            &&& f[0] == ("location"@, location)
            &&& (forall|c: Seq<char>| callback == Some(c) ==> f[1] == ("callback"@, c))
            &&& (forall|i: int|
                0 <= i < metadata_count(metadata) ==> #[trigger] f[1 + k + i] == (
                    "metadata["@ + metadata->0[i].0 + "]"@,
                    metadata->0[i].1,
                ))
        }),
{
}

/// Law: only 2xx statuses are ever successes; a ping succeeds on 200 and on
/// nothing else, so rejected credentials (401/403) are never a success.
pub proof fn law_success_statuses(op: Operation, status: u16)
    ensures
        accepts_status_spec(op, status) ==> 200 <= status < 300,
        accepts_status_spec(Operation::Ping, status) <==> status == 200,
        accepts_status_spec(Operation::Process, status) <==> status == 201,
        accepts_status_spec(Operation::ProcessAsync, status) <==> status == 202,
        accepts_status_spec(Operation::Fetch, status) <==> status == 202,
        accepts_status_spec(Operation::Retrieve, status) <==> status == 200,
        accepts_status_spec(Operation::RetrieveAuthToken, status) <==> status == 200,
        accepts_status_spec(Operation::CreateAuthToken, status) <==> (status == 200 || status
            == 201),
        accepts_status_spec(Operation::DeleteAuthToken, status) <==> status == 204,
{
}

fn pair(a: &str, b: &str) -> (p: (String, String))
    ensures
        p.0@ == a@,
        p.1@ == b@,
{
    (a.to_owned(), b.to_owned())
}

/// Appends one `metadata[{key}]` pair per metadata entry.
fn push_metadata(out: &mut Vec<(String, String)>, metadata: &[(String, String)])
    ensures
        final(out).deep_view() == old(out).deep_view() + metadata_pairs(metadata.deep_view()),
{
    let n = metadata.len();
    let mut i: usize = 0;
    let ghost start = out.deep_view();
    let ghost m = metadata.deep_view();
    assert(metadata_pairs(m.take(0)) =~= Seq::<(Seq<char>, Seq<char>)>::empty());
    assert(start + metadata_pairs(m.take(0)) =~= start);
    while i < n
        invariant
            n == metadata@.len(),
            m == metadata.deep_view(),
            i <= n,
            out.deep_view() == start + metadata_pairs(m.take(i as int)),
        decreases n - i,
    {
        let (k, v) = &metadata[i];
        let mut name = concat("metadata[", k.as_str());
        name.append("]");
        let ghost before = out.deep_view();
        out.push((name, v.clone()));
        proof {
            assert(out.deep_view() =~= before.push((metadata_name(k@), v@)));
            assert(m[i as int] == (k@, v@));
            assert(metadata_pairs(m.take(i + 1)) =~= metadata_pairs(m.take(i as int)).push(
                (metadata_name(k@), v@),
            ));
        }
        i = i + 1;
    }
    assert(m.take(n as int) =~= m);
}

/// Text fields of an upload: one `metadata[{key}]` field per metadata entry,
/// then `callback` when given.
pub fn upload_fields(metadata: Option<&[(String, String)]>, callback: Option<&str>) -> (f: Vec<
    (String, String),
>)
    ensures
        f.deep_view() == upload_fields_spec(opt_pairs(metadata), opt_str(callback)),
{
    let mut fields: Vec<(String, String)> = Vec::new();
    assert(fields.deep_view() =~= Seq::<(Seq<char>, Seq<char>)>::empty());
    match metadata {
        Some(m) => push_metadata(&mut fields, m),
        None => {},
    }
    assert(fields.deep_view() =~= opt_metadata_pairs(opt_pairs(metadata)));
    let ghost before = fields.deep_view();
    match callback {
        Some(cb) => {
            fields.push(pair("callback", cb));
        },
        None => {},
    }
    assert(fields.deep_view() =~= before + callback_pairs(opt_str(callback)));
    fields
}

impl ScaniiClient {
    /// Starts building a client.
    pub fn builder() -> (b: ScaniiClientBuilder)
        ensures
            b@ == empty_settings(),
    {
        ScaniiClientBuilder::default()
    }

    /// The base URL requests go to (endpoint followed by `/v2.2`).
    pub fn base_url(&self) -> (u: &str)
        ensures
            u@ == self@.base_url,
    {
        self.base_url.as_str()
    }

    /// The `Authorization` header value sent with every request.
    pub fn auth_header(&self) -> (h: &str)
        ensures
            h@ == self@.auth_header,
    {
        self.auth_header.as_str()
    }

    /// The `User-Agent` header value sent with every request.
    pub fn user_agent(&self) -> (h: &str)
        ensures
            h@ == self@.user_agent,
    {
        self.user_agent.as_str()
    }

    /// The overall timeout every request of this client carries.
    pub fn timeout(&self) -> (t: Duration)
        ensures
            t == self@.timeout,
    {
        self.timeout
    }

    /// The HTTP agent (connection pool) requests are sent with.
    pub fn agent(&self) -> (a: &ureq::Agent)
        ensures
            *a == self.http_agent(),
    {
        &self.agent
    }

    /// The request for `method` on API path `path`: the base URL followed by
    /// the path, with the standard headers.
    pub fn request(&self, method: &str, path: &str) -> (r: PreparedRequest)
        ensures
            is_request(r, self@, method@, path@),
    {
        let url = concat(self.base_url.as_str(), path);
        let mut headers: Vec<(String, String)> = Vec::new();
        headers.push(pair("Authorization", self.auth_header.as_str()));
        headers.push(pair("User-Agent", self.user_agent.as_str()));
        headers.push(pair("Accept", "application/json"));
        assert(headers.deep_view() =~= standard_headers(self@));
        PreparedRequest { method: method.to_owned(), url, headers, timeout: self.timeout }
    }

    fn prepare_upload(
        &self,
        path: &str,
        boundary: &str,
        filename: &str,
        content_type: Option<&str>,
        metadata: Option<&[(String, String)]>,
        callback: Option<&str>,
    ) -> (u: UploadRequest)
        ensures
            is_upload(u, self@, path@, boundary@, filename@, opt_str(content_type), opt_pairs(metadata), opt_str(callback)),
    {
        let ct = match content_type {
            Some(c) => c,
            None => "application/octet-stream",
        };
        let fields = upload_fields(metadata, callback);
        let field_slice = fields.as_slice();
        assert(field_slice.deep_view() =~= fields.deep_view());
        let prologue = build_prologue(boundary, filename, ct, field_slice);
        let epilogue = build_epilogue(boundary);
        let mut request = self.request("POST", path);
        let ghost before = request.headers.deep_view();
        let multipart = make_content_type(boundary);
        request.headers.push(pair("Content-Type", multipart.as_str()));
        assert(request.headers.deep_view() =~= before.push(
            ("Content-Type"@, "multipart/form-data; boundary="@ + boundary@),
        ));
        UploadRequest { request, prologue, epilogue }
    }

    /// The synchronous scan request (`POST /files`) for content streamed
    /// between the returned prologue and epilogue. `content_type` defaults to
    /// `application/octet-stream`; `filename` goes verbatim into the
    /// `Content-Disposition` header.
    pub fn prepare_process(
        &self,
        boundary: &str,
        filename: &str,
        content_type: Option<&str>,
        metadata: Option<&[(String, String)]>,
        callback: Option<&str>,
    ) -> (u: UploadRequest)
        ensures
            is_upload(u, self@, "/files"@, boundary@, filename@, opt_str(content_type), opt_pairs(metadata), opt_str(callback)),
    {
        self.prepare_upload("/files", boundary, filename, content_type, metadata, callback)
    }

    /// The asynchronous scan request (`POST /files/async`); as
    /// [`Self::prepare_process`] otherwise.
    pub fn prepare_process_async(
        &self,
        boundary: &str,
        filename: &str,
        content_type: Option<&str>,
        metadata: Option<&[(String, String)]>,
        callback: Option<&str>,
    ) -> (u: UploadRequest)
        ensures
            is_upload(u, self@, "/files/async"@, boundary@, filename@, opt_str(content_type), opt_pairs(metadata), opt_str(callback)),
    {
        self.prepare_upload("/files/async", boundary, filename, content_type, metadata, callback)
    }

    /// The request asking the API to download `location` and scan it
    /// asynchronously (`POST /files/fetch`); an empty location is a
    /// configuration error.
    pub fn prepare_fetch(
        &self,
        location: &str,
        metadata: Option<&[(String, String)]>,
        callback: Option<&str>,
    ) -> (r: Result<FormRequest, ScaniiError>)
        ensures
            location@.len() == 0 ==> (r matches Err(ScaniiError::Config(m)) && m@
                == "location must not be empty"@),
            location@.len() > 0 ==> (r matches Ok(f) && is_request(
                f.request,
                self@,
                "POST"@,
                "/files/fetch"@,
            ) && f.form.deep_view() == fetch_form_spec(
                location@,
                opt_pairs(metadata),
                opt_str(callback),
            )),
    {
        if location.is_empty() {
            return Err(ScaniiError::Config("location must not be empty".to_owned()));
        }
        let mut form: Vec<(String, String)> = Vec::new();
        form.push(pair("location", location));
        let ghost first = form.deep_view();
        match callback {
            Some(cb) => {
                form.push(pair("callback", cb));
            },
            None => {},
        }
        assert(form.deep_view() =~= first + callback_pairs(opt_str(callback)));
        let ghost second = form.deep_view();
        match metadata {
            Some(m) => push_metadata(&mut form, m),
            None => {},
        }
        assert(form.deep_view() =~= second + opt_metadata_pairs(opt_pairs(metadata)));
        assert(form.deep_view() =~= fetch_form_spec(
            location@,
            opt_pairs(metadata),
            opt_str(callback),
        ));
        let request = self.request("POST", "/files/fetch");
        Ok(FormRequest { request, form })
    }

    /// The synchronous scan of a remote URL (`POST /files` with a multipart
    /// body of text fields only: `location`, then the metadata): the server
    /// downloads the URL and scans it.
    pub fn prepare_process_from_url(
        &self,
        boundary: &str,
        location: &str,
        metadata: Option<&[(String, String)]>,
    ) -> (b: BodyRequest)
        ensures
            b.request.method@ == "POST"@,
            b.request.url@ == self@.base_url + "/files"@,
            b.request.timeout == self@.timeout,
            b.request.headers.deep_view() == standard_headers(self@).push(
                ("Content-Type"@, "multipart/form-data; boundary="@ + boundary@),
            ),
            b.body@ == encode_utf8(
                text_only_body_text(
                    boundary@,
                    url_submission_fields_spec(location@, opt_pairs(metadata)),
                ),
            ),
    {
        let mut fields: Vec<(String, String)> = Vec::new();
        fields.push(pair("location", location));
        let ghost first = fields.deep_view();
        match metadata {
            Some(m) => push_metadata(&mut fields, m),
            None => {},
        }
        assert(fields.deep_view() =~= first + opt_metadata_pairs(opt_pairs(metadata)));
        assert(fields.deep_view() =~= url_submission_fields_spec(location@, opt_pairs(metadata)));
        let field_slice = fields.as_slice();
        assert(field_slice.deep_view() =~= fields.deep_view());
        let body = build_text_only_body(boundary, field_slice);
        let mut request = self.request("POST", "/files");
        let ghost before = request.headers.deep_view();
        let multipart = make_content_type(boundary);
        request.headers.push(pair("Content-Type", multipart.as_str()));
        assert(request.headers.deep_view() =~= before.push(
            ("Content-Type"@, "multipart/form-data; boundary="@ + boundary@),
        ));
        BodyRequest { request, body }
    }

    fn prepare_by_id(&self, method: &str, prefix: &str, id: &str) -> (r: Result<
        PreparedRequest,
        ScaniiError,
    >)
        ensures
            id@.len() == 0 ==> (r matches Err(ScaniiError::Config(m)) && m@
                == "id must not be empty"@),
            id@.len() > 0 ==> (r matches Ok(q) && is_request(
                q,
                self@,
                method@,
                prefix@ + url_encode_spec(id.spec_bytes()),
            )),
    {
        if id.is_empty() {
            return Err(ScaniiError::Config("id must not be empty".to_owned()));
        }
        let encoded = url_encode(id);
        let path = concat(prefix, encoded.as_str());
        Ok(self.request(method, path.as_str()))
    }

    /// The request retrieving a scan result (`GET /files/{id}`, the id
    /// percent-encoded); an empty id is a configuration error.
    pub fn prepare_retrieve(&self, id: &str) -> (r: Result<PreparedRequest, ScaniiError>)
        ensures
            id@.len() == 0 ==> (r matches Err(ScaniiError::Config(m)) && m@
                == "id must not be empty"@),
            id@.len() > 0 ==> (r matches Ok(q) && is_request(
                q,
                self@,
                "GET"@,
                "/files/"@ + url_encode_spec(id.spec_bytes()),
            )),
    {
        self.prepare_by_id("GET", "/files/", id)
    }

    /// The credentials check request (`GET /ping`).
    pub fn prepare_ping(&self) -> (r: PreparedRequest)
        ensures
            is_request(r, self@, "GET"@, "/ping"@),
    {
        self.request("GET", "/ping")
    }

    /// The request minting an auth token valid for `timeout_seconds`
    /// (`POST /auth/tokens`, form `timeout={seconds}`); zero seconds is a
    /// configuration error.
    pub fn prepare_create_auth_token(&self, timeout_seconds: u64) -> (r: Result<
        FormRequest,
        ScaniiError,
    >)
        ensures
            timeout_seconds == 0 ==> (r matches Err(ScaniiError::Config(m)) && m@
                == "timeout_seconds must be positive"@),
            timeout_seconds > 0 ==> (r matches Ok(f) && is_request(
                f.request,
                self@,
                "POST"@,
                "/auth/tokens"@,
            ) && f.form.deep_view() == seq![("timeout"@, decimal_text(timeout_seconds as nat))]),
    {
        if timeout_seconds == 0 {
            return Err(ScaniiError::Config("timeout_seconds must be positive".to_owned()));
        }
        let seconds = u64_to_decimal(timeout_seconds);
        let mut form: Vec<(String, String)> = Vec::new();
        form.push(pair("timeout", seconds.as_str()));
        assert(form.deep_view() =~= seq![("timeout"@, decimal_text(timeout_seconds as nat))]);
        let request = self.request("POST", "/auth/tokens");
        Ok(FormRequest { request, form })
    }

    /// The request inspecting an auth token (`GET /auth/tokens/{id}`); an
    /// empty id is a configuration error.
    pub fn prepare_retrieve_auth_token(&self, id: &str) -> (r: Result<
        PreparedRequest,
        ScaniiError,
    >)
        ensures
            id@.len() == 0 ==> (r matches Err(ScaniiError::Config(m)) && m@
                == "id must not be empty"@),
            id@.len() > 0 ==> (r matches Ok(q) && is_request(
                q,
                self@,
                "GET"@,
                "/auth/tokens/"@ + url_encode_spec(id.spec_bytes()),
            )),
    {
        self.prepare_by_id("GET", "/auth/tokens/", id)
    }

    /// The request revoking an auth token (`DELETE /auth/tokens/{id}`); an
    /// empty id is a configuration error.
    pub fn prepare_delete_auth_token(&self, id: &str) -> (r: Result<
        PreparedRequest,
        ScaniiError,
    >)
        ensures
            id@.len() == 0 ==> (r matches Err(ScaniiError::Config(m)) && m@
                == "id must not be empty"@),
            id@.len() > 0 ==> (r matches Ok(q) && is_request(
                q,
                self@,
                "DELETE"@,
                "/auth/tokens/"@ + url_encode_spec(id.spec_bytes()),
            )),
    {
        self.prepare_by_id("DELETE", "/auth/tokens/", id)
    }
}

/// The multipart upload to API path `path`: a `POST` with the standard
/// headers plus `Content-Type: multipart/form-data; boundary={boundary}`,
/// whose prologue holds the text fields and the file part header (content
/// type defaulting to `application/octet-stream`) and whose epilogue closes
/// the body.
pub open spec fn is_upload(
    u: UploadRequest,
    c: ClientSettings,
    path: Seq<char>,
    boundary: Seq<char>,
    filename: Seq<char>,
    content_type: Option<Seq<char>>,
    metadata: Option<Seq<(Seq<char>, Seq<char>)>>,
    callback: Option<Seq<char>>,
) -> bool {
    let ct = match content_type {
        Some(t) => t,
        None => "application/octet-stream"@,
    };
    &&& u.request.method@ == "POST"@
    &&& u.request.url@ == c.base_url + path
    &&& u.request.timeout == c.timeout
    &&& u.request.headers.deep_view() == standard_headers(c).push(
        ("Content-Type"@, "multipart/form-data; boundary="@ + boundary),
    )
    &&& u.prologue@ == encode_utf8(
        prologue_text(boundary, filename, ct, upload_fields_spec(metadata, callback)),
    )
    &&& u.epilogue@ == encode_utf8(epilogue_text(boundary))
}

} // verus!
