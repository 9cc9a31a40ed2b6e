# scanii

Client for the [Scanii](https://www.scanii.com) content security API (v2.2),
with its logic verified by Verus.

## Layout

- `src/` — the verified library (crate `scanii`):
  - `codec.rs`: Base64 for the `Authorization` header, percent-encoding of
    path segments, decimal and hexadecimal rendering.
  - `multipart.rs`: the `multipart/form-data` body (prologue, epilogue,
    text-only body), boundaries, content type by file extension.
  - `error.rs`: `ScaniiError`, the message of an error body, the
    `Retry-After` header, and the mapping of a refused reply to an error
    (401/403 `Auth`, 429 `RateLimit`, anything else `Http`).
  - `client.rs`: the builder and its validation, the client configuration,
    and the exact request of every operation with its success statuses.
  - `models.rs`, `target.rs`: result types and regional endpoints.
- `app/` — the transport: sends the prepared requests with `ureq`, streams
  upload bodies, deserializes JSON replies with `serde`, and exposes the
  operations (`process`, `fetch`, `retrieve`, `ping`, auth tokens, ...)
  through the `ScaniiApi` trait on `ScaniiClient`.
- `tests/` — tests of the library.

The client does not retry, batch or paginate: each operation is one HTTP
request.
