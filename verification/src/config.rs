//! Static configuration.

use crate::endpoint::EndpointSet;
use vstd::prelude::*;

verus! {

/// The local port on which inbound calls are accepted.
pub const LISTEN_PORT: u16 = 8965;

/// The client string sent as the transport-level user agent.
pub const USER_AGENT: &'static str = "antigravity/1.15.8 windows/amd64";

/// The minimum interval between the starts of two dispatch sequences.
pub const MIN_REQUEST_INTERVAL_MS: u64 = 500;

/// The same interval in nanoseconds, the unit of the rate limiter.
pub const MIN_REQUEST_INTERVAL_NANOS: u64 = MIN_REQUEST_INTERVAL_MS * 1_000_000;

/// How long connecting to an endpoint may take.
pub const CONNECT_TIMEOUT_SECS: u64 = 20;

/// How long one attempt may take in all.
pub const REQUEST_TIMEOUT_SECS: u64 = 600;

/// How many idle connections are kept per host.
pub const POOL_MAX_IDLE_PER_HOST: usize = 16;

/// How long an idle connection is kept.
pub const POOL_IDLE_TIMEOUT_SECS: u64 = 90;

/// The primary upstream endpoint.
pub const PRIMARY_ENDPOINT: &'static str =
    "https://cloudcode-pa.googleapis.com/v1internal:streamGenerateContent?alt=sse";

/// The endpoint attempted when the primary one fails transiently.
pub const FALLBACK_ENDPOINT: &'static str =
    "https://daily-cloudcode-pa.sandbox.googleapis.com/v1internal:streamGenerateContent?alt=sse";

/// The configured endpoint set: the primary endpoint, then the fallback.
pub fn endpoints() -> (set: EndpointSet)
    ensures
        set@ == seq![PRIMARY_ENDPOINT@, FALLBACK_ENDPOINT@],
{
    let mut addresses: Vec<String> = Vec::new();
    addresses.push(PRIMARY_ENDPOINT.to_owned());
    addresses.push(FALLBACK_ENDPOINT.to_owned());
    EndpointSet::new(addresses)
}

} // verus!
