//! Verified core of a client for the Scanii content security API (v2.2).
//!
//! The library decides everything about a call: the validated client
//! configuration and its `Authorization` header, the exact request of each
//! operation (method, URL, headers, form or multipart body), which reply
//! statuses are successes, and how an error reply becomes a [`ScaniiError`].
//! Sending the bytes and reading the reply are left to the transport.

pub mod client;
pub mod codec;
pub mod error;
pub mod models;
pub mod multipart;
pub mod target;

pub use client::{ScaniiClient, ScaniiClientBuilder, VERSION};
pub use error::ScaniiError;
pub use models::{ScaniiAuthToken, ScaniiPendingResult, ScaniiProcessingResult};
pub use target::ScaniiTarget;
