//! Results returned by the API, and the response headers the client copies
//! into them.
use std::collections::HashMap;
use vstd::prelude::*;

verus! {

/// Result of a synchronous scan (`POST /files`, `GET /files/{id}`).
///
/// `findings` is always populated: empty when the content is clean.
#[derive(Debug, Clone, Default)]
pub struct ScaniiProcessingResult {
    /// Resource id assigned by the API.
    pub id: String,
    /// Detection findings, e.g. `content.malicious.local-test-file`. Empty when clean.
    pub findings: Vec<String>,
    /// SHA-1 checksum of the uploaded content, when reported.
    pub checksum: Option<String>,
    /// Size of the uploaded content in bytes, when reported.
    pub content_length: Option<u64>,
    /// MIME type detected by the API, when reported.
    pub content_type: Option<String>,
    /// Caller-supplied metadata echoed back by the API.
    pub metadata: HashMap<String, String>,
    /// Server-side creation timestamp (ISO 8601), when reported.
    pub creation_date: Option<String>,
    /// Server-supplied error message; the server does not populate it on a
    /// successful response (errors arrive as non-2xx replies).
    pub error: Option<String>,
    /// `X-Scanii-Request-Id` response header.
    pub request_id: Option<String>,
    /// `X-Scanii-Host-Id` response header.
    pub host_id: Option<String>,
    /// `Location` response header.
    pub resource_location: Option<String>,
}

/// Result of an asynchronous submission (`POST /files/async`,
/// `POST /files/fetch`); the scan result is fetched later by id.
#[derive(Debug, Clone, Default)]
pub struct ScaniiPendingResult {
    /// Resource id assigned by the API; pass it to `retrieve`.
    pub id: String,
    /// `X-Scanii-Request-Id` response header.
    pub request_id: Option<String>,
    /// `X-Scanii-Host-Id` response header.
    pub host_id: Option<String>,
    /// `Location` response header.
    pub resource_location: Option<String>,
}

/// Short-lived auth token (`POST /auth/tokens`, `GET /auth/tokens/{id}`).
#[derive(Debug, Clone, Default)]
pub struct ScaniiAuthToken {
    /// Token id, the opaque credential.
    pub id: String,
    /// Server-side creation timestamp (ISO 8601), when reported.
    pub creation_date: Option<String>,
    /// Token expiry timestamp (ISO 8601), when reported.
    pub expiration_date: Option<String>,
    /// `X-Scanii-Request-Id` response header.
    pub request_id: Option<String>,
    /// `X-Scanii-Host-Id` response header.
    pub host_id: Option<String>,
    /// `Location` response header.
    pub resource_location: Option<String>,
}

/// The response headers the client records on every result.
#[derive(Debug, Clone, Default)]
pub struct ResponseHeaders {
    /// `X-Scanii-Request-Id`.
    pub request_id: Option<String>,
    /// `X-Scanii-Host-Id`.
    pub host_id: Option<String>,
    /// `Location`.
    pub location: Option<String>,
}

/// Copies the response headers into a processing result; every other field
/// is left as the body gave it.
pub fn attach_processing_headers(result: &mut ScaniiProcessingResult, h: ResponseHeaders)
    ensures
        final(result).request_id == h.request_id,
        final(result).host_id == h.host_id,
        final(result).resource_location == h.location,
        final(result).id == old(result).id,
        final(result).findings == old(result).findings,
        final(result).checksum == old(result).checksum,
        final(result).content_length == old(result).content_length,
        final(result).content_type == old(result).content_type,
        final(result).metadata == old(result).metadata,
        final(result).creation_date == old(result).creation_date,
        final(result).error == old(result).error,
{
    result.request_id = h.request_id;
    result.host_id = h.host_id;
    result.resource_location = h.location;
}

/// Copies the response headers into a pending result; the id is kept.
pub fn attach_pending_headers(result: &mut ScaniiPendingResult, h: ResponseHeaders)
    ensures
        final(result).request_id == h.request_id,
        final(result).host_id == h.host_id,
        final(result).resource_location == h.location,
        final(result).id == old(result).id,
{
    result.request_id = h.request_id;
    result.host_id = h.host_id;
    result.resource_location = h.location;
}

/// Copies the response headers into an auth token; the body fields are kept.
pub fn attach_auth_token_headers(result: &mut ScaniiAuthToken, h: ResponseHeaders)
    ensures
        final(result).request_id == h.request_id,
        final(result).host_id == h.host_id,
        final(result).resource_location == h.location,
        final(result).id == old(result).id,
        final(result).creation_date == old(result).creation_date,
        final(result).expiration_date == old(result).expiration_date,
{
    result.request_id = h.request_id;
    result.host_id = h.host_id;
    result.resource_location = h.location;
}

} // verus!
