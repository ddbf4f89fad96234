//! The rate limiter of the service, kept by the `governor` crate.

use std::sync::Arc;
use vstd::prelude::*;
use crate::config::Config;

verus! {

/// Counts requests per key against one quota.
///
/// The limiter is `governor`'s keyed rate limiter over a concurrent map and
/// the system's clock.
#[verifier::external_body]
pub struct RateLimitService {
    limiter: Arc<
        governor::RateLimiter<
            String,
            governor::state::keyed::DashMapStateStore<String>,
            governor::clock::DefaultClock,
        >,
    >,
}

/// Whether `governor` can keep a quota of one request per `window_ms`
/// milliseconds with a burst of `max_requests`: neither is zero, and the
/// time in which a whole burst and one request more are replenished, in
/// nanoseconds, is at most 2^63 - 1.
///
/// The crate counts time in nanoseconds since the limiter was made, in 64
/// bits, and adds that time to the time since then. With this bound a
/// limiter can run for 292 years.
pub open spec fn valid_quota(window_ms: u64, max_requests: u32) -> bool {
    &&& window_ms > 0
    &&& max_requests > 0
    &&& window_ms * 1_000_000 * (max_requests + 1) <= i64::MAX
}

/// The quota that a service was made with: the milliseconds in which one
/// request is replenished, and the number of requests of a burst. A limiter
/// keeps the quota that it was made with for as long as it lives.
pub uninterp spec fn quota_of(service: &RateLimitService) -> (u64, u32);

/// Makes a keyed limiter with `governor::RateLimiter::dashmap`, for the
/// quota that `governor::Quota::with_period` and `allow_burst` make of one
/// request per `window_ms` milliseconds and a burst of `max_requests`. The
/// crate has no quota for a period of zero and none for a burst of zero,
/// and it gives up on a burst that takes more than 2^64 nanoseconds to
/// replenish. The limiter holds the quota that it is given; the contract
/// gives that quota its name.
#[verifier::external_body]
fn keyed_limiter(window_ms: u64, max_requests: u32) -> (r: RateLimitService)
    requires
        valid_quota(window_ms, max_requests),
    ensures
        quota_of(&r) == (window_ms, max_requests),
{
    let quota = governor::Quota::with_period(std::time::Duration::from_millis(window_ms))
        .unwrap()
        .allow_burst(std::num::NonZeroU32::new(max_requests).unwrap());
    RateLimitService { limiter: Arc::new(governor::RateLimiter::dashmap(quota)) }
}

/// Calls `governor::RateLimiter::check_key`, which lets one request through
/// for the key if the quota allows it now. The answer depends on the clock
/// and on the requests counted so far. A service is only ever made by
/// `keyed_limiter`, so its quota is one that the crate can keep.
#[verifier::external_body]
fn check_key(service: &RateLimitService, key: &String) -> (r: bool) {
    service.limiter.check_key(key).is_ok()
}

impl RateLimitService {
    /// Whether a limiter can be made for the quota of `config`.
    pub fn accepts(config: &Config) -> (r: bool)
        ensures
            r == valid_quota(config.rate_limit.window_ms, config.rate_limit.max_requests),
    {
        let window_ms = config.rate_limit.window_ms;
        let max_requests = config.rate_limit.max_requests;
        if window_ms == 0 || max_requests == 0 {
            return false;
        }
        let nanos: u64 = match window_ms.checked_mul(1_000_000) {
            Some(nanos) => nanos,
            None => {
                assert(window_ms * 1_000_000 * (max_requests + 1) >= window_ms * 1_000_000)
                    by (nonlinear_arith)
                    requires
                        max_requests >= 0,
                        window_ms >= 0,
                ;
                return false;
            },
        };
        let rounds: u64 = max_requests as u64 + 1;
        match nanos.checked_mul(rounds) {
            Some(total) => total <= i64::MAX as u64,
            None => false,
        }
    }

    /// A limiter for the quota of `config`, which has to be one that the
    /// limiter can keep: one request is replenished in every window, and as
    /// many requests as the configuration allows make a burst.
    pub fn new(config: Config) -> (r: Self)
        requires
            valid_quota(config.rate_limit.window_ms, config.rate_limit.max_requests),
        ensures
            quota_of(&r) == (config.rate_limit.window_ms, config.rate_limit.max_requests),
    {
        keyed_limiter(config.rate_limit.window_ms, config.rate_limit.max_requests)
    }

    /// Counts one request under `key` and says whether it may pass.
    pub fn check_rate_limit(&self, key: String) -> (r: bool) {
        check_key(self, &key)
    }
}

} // verus!
