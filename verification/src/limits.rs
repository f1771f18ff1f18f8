//! The fixed limits of the client.

use vstd::prelude::*;

verus! {

/// How many requests may be in flight at once, waiting ones included.
pub const MAX_IN_FLIGHT_REQUESTS: u64 = 1024;

/// How many requests may use the network at once.
pub const MAX_CONCURRENT_REQUESTS: usize = 256;

/// The largest request or response body, in bytes: 20 MB.
pub const MAX_BODY_SIZE: usize = 20 * 1024 * 1024;

/// How many body bytes may be buffered over all requests: 64 MB.
pub const MAX_BUFFERED_BODY: usize = 64 * 1024 * 1024;

/// The most retries that a request can ask for.
pub const MAX_RETRIES: usize = 5;

/// The retries of an idempotent request that does not ask for a number.
pub const DEFAULT_RETRIES: usize = 2;

/// The longest pause between two attempts, in seconds.
pub const MAX_RETRY_DELAY_SECS: u64 = 30;

/// The longest pause between two attempts, in nanoseconds.
pub const MAX_RETRY_DELAY_NANOS: u64 = 30_000_000_000;

/// The base pause of a request that does not ask for one, in nanoseconds: a
/// quarter of a second.
pub const DEFAULT_RETRY_DELAY_NANOS: u64 = 250_000_000;

/// The shortest base pause, in nanoseconds: a twentieth of a second.
pub const MIN_RETRY_DELAY_NANOS: u64 = 50_000_000;

/// Nanoseconds in one second.
pub const NANOS_PER_SEC: u64 = 1_000_000_000;

/// The timeout of an attempt that does not ask for one, in seconds.
pub const DEFAULT_TIMEOUT_SECS: u64 = 30;

/// The timeout for a connection, in seconds.
pub const CONNECT_TIMEOUT_SECS: u64 = 5;

/// How many redirects are followed.
pub const MAX_REDIRECTS: usize = 10;

/// How long one frame may spend on finished requests, in nanoseconds: two
/// milliseconds.
pub const CALLBACK_BUDGET_NANOS: u128 = 2_000_000;

/// How many finished callbacks may wait for the next frame.
pub const CALLBACK_QUEUE_SIZE: usize = 4096;

/// The limits: 256 requests on the network and 1024 in flight, 20 MB for a body
/// and 64 MB for all, five retries with two by default, pauses of at most 30
/// seconds, a timeout of 30 seconds and of 5 for a connection, ten redirects, and
/// two milliseconds of a frame.
pub proof fn law_limits()
    ensures
        MAX_CONCURRENT_REQUESTS == 256,
        MAX_IN_FLIGHT_REQUESTS == 1024,
        MAX_BODY_SIZE == 20_971_520,
        MAX_BUFFERED_BODY == 67_108_864,
        MAX_RETRIES == 5,
        DEFAULT_RETRIES == 2,
        MAX_RETRY_DELAY_SECS == 30,
        MAX_RETRY_DELAY_NANOS == MAX_RETRY_DELAY_SECS * NANOS_PER_SEC,
        DEFAULT_RETRY_DELAY_NANOS * 4 == NANOS_PER_SEC,
        MIN_RETRY_DELAY_NANOS * 20 == NANOS_PER_SEC,
        NANOS_PER_SEC == 1_000_000_000,
        DEFAULT_TIMEOUT_SECS == 30,
        CONNECT_TIMEOUT_SECS == 5,
        MAX_REDIRECTS == 10,
        CALLBACK_BUDGET_NANOS == 2_000_000,
        CALLBACK_QUEUE_SIZE == 4096,
{
}

} // verus!
