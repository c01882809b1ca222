//! The rate limiter that all sandboxed runs of one runtime share.

use std::sync::Arc;
use vstd::prelude::*;

verus! {

/// Outbound calls that the shared limiter admits per second.
pub const HTTP_CALLS_PER_SECOND: u32 = 2;

/// A handle to the token bucket that paces outbound calls. Every handle made
/// by `share` draws on the same bucket. The bucket is `governor`'s. What it
/// admits at a given moment depends on the clock, so of that nothing is
/// stated: only the quota it was made with.
#[verifier::external_body]
pub struct HttpRateLimiter {
    bucket: Arc<governor::DefaultDirectRateLimiter>,
}

/// `governor::RateLimiter::direct` on `governor::Quota::per_second`: a new
/// bucket for `burst` cells per second. Neither panics for a burst above
/// zero.
#[verifier::external_body]
fn direct_per_second(burst: u32) -> (limiter: HttpRateLimiter)
    requires
        burst > 0,
    ensures
        quota_per_second(limiter) == burst,
{
    let burst = std::num::NonZeroU32::new(burst).unwrap();
    HttpRateLimiter {
        bucket: Arc::new(governor::RateLimiter::direct(governor::Quota::per_second(burst))),
    }
}

/// `Arc::clone` on the bucket: one more handle to it. A handle stands for
/// the bucket it draws on, so the two are equal.
#[verifier::external_body]
fn share_bucket(limiter: &HttpRateLimiter) -> (shared: HttpRateLimiter)
    ensures
        shared == *limiter,
{
    HttpRateLimiter { bucket: Arc::clone(&limiter.bucket) }
}

/// `governor::RateLimiter::check`: takes a token if one is at hand now, and
/// says whether it did. It never waits.
#[verifier::external_body]
fn check_bucket(limiter: &HttpRateLimiter) -> (admitted: bool) {
    limiter.bucket.check().is_ok()
}

impl HttpRateLimiter {
    /// A limiter that admits `per_second` calls per second, with bursts of
    /// as many. A rate of zero admits nothing and makes no limiter.
    pub fn with_rate(per_second: u32) -> (limiter: Option<HttpRateLimiter>)
        ensures
            limiter is Some <==> per_second > 0,
            limiter matches Some(made) ==> quota_per_second(made) == per_second,
    {
        if per_second == 0 {
            None
        } else {
            Some(direct_per_second(per_second))
        }
    }

    /// The limiter of a runtime, at the default rate.
    pub fn new() -> (limiter: HttpRateLimiter)
        ensures
            quota_per_second(limiter) == HTTP_CALLS_PER_SECOND,
    {
        direct_per_second(HTTP_CALLS_PER_SECOND)
    }

    /// Another handle to the same bucket.
    pub fn share(&self) -> (shared: HttpRateLimiter)
        ensures
            shared == *self,
    {
        share_bucket(self)
    }

    /// Takes a token without waiting, if one is at hand.
    pub fn try_acquire(&self) -> bool {
        check_bucket(self)
    }
}

/// The quota that the bucket of a limiter was made with: the number of
/// calls per second, and in one burst, that was given to
/// `governor::Quota::per_second`.
pub uninterp spec fn quota_per_second(limiter: HttpRateLimiter) -> u32;

} // verus!
