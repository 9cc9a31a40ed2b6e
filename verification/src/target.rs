//! Regional API endpoints.
use vstd::prelude::*;

verus! {

/// A Scanii API endpoint: one of the regional hosts, or any base URL (for
/// instance a local scanii-cli at `http://localhost:4000`).
///
/// Latency-based routing to `https://api.scanii.com` is deliberately absent:
/// explicit regional selection keeps data residency under the caller's
/// control.
#[derive(Debug, Clone, PartialEq, Eq, Hash)]
pub struct ScaniiTarget {
    pub(crate) url: String,
}

impl View for ScaniiTarget {
    type V = Seq<char>;

    /// The base URL of the target.
    closed spec fn view(&self) -> Seq<char> {
        self.url@
    }
}

impl ScaniiTarget {
    /// US East (N. Virginia): `https://api-us1.scanii.com`.
    pub fn us1() -> (t: Self)
        ensures
            t@ == "https://api-us1.scanii.com"@,
    {
        Self::from_url("https://api-us1.scanii.com")
    }

    /// EU West (Ireland): `https://api-eu1.scanii.com`.
    pub fn eu1() -> (t: Self)
        ensures
            t@ == "https://api-eu1.scanii.com"@,
    {
        Self::from_url("https://api-eu1.scanii.com")
    }

    /// EU Central (Frankfurt): `https://api-eu2.scanii.com`.
    pub fn eu2() -> (t: Self)
        ensures
            t@ == "https://api-eu2.scanii.com"@,
    {
        Self::from_url("https://api-eu2.scanii.com")
    }

    /// Asia Pacific (Singapore): `https://api-ap1.scanii.com`.
    pub fn ap1() -> (t: Self)
        ensures
            t@ == "https://api-ap1.scanii.com"@,
    {
        Self::from_url("https://api-ap1.scanii.com")
    }

    /// Asia Pacific (Tokyo): `https://api-ap2.scanii.com`.
    pub fn ap2() -> (t: Self)
        ensures
            t@ == "https://api-ap2.scanii.com"@,
    {
        Self::from_url("https://api-ap2.scanii.com")
    }

    /// Canada (Central): `https://api-ca1.scanii.com`.
    pub fn ca1() -> (t: Self)
        ensures
            t@ == "https://api-ca1.scanii.com"@,
    {
        Self::from_url("https://api-ca1.scanii.com")
    }

    /// A target pointing at any base URL.
    pub fn from_url(url: &str) -> (t: Self)
        ensures
            t@ == url@,
    {
        ScaniiTarget { url: url.to_owned() }
    }

    /// The base URL this target points at.
    pub fn url(&self) -> (u: &str)
        ensures
            u@ == self@,
    {
        self.url.as_str()
    }
}

} // verus!
