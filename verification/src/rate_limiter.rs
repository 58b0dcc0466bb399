//! Sliding-window rate limits for API requests: 50 market requests and 500
//! order requests per 10 seconds.
use vstd::prelude::*;
use std::collections::VecDeque;
use crate::error::BettingPlatformError;

verus! {

/// Length of the longest prefix of `s` made of times before `cutoff`.
pub open spec fn spec_expired_prefix(s: Seq<i64>, cutoff: int) -> nat
    decreases s.len(),
{
    if s.len() == 0 {
        0
    } else if s[0] < cutoff {
        1 + spec_expired_prefix(s.drop_first(), cutoff)
    } else {
        0
    }
}

/// A request log after dropping the leading requests older than `cutoff`.
pub open spec fn spec_cleaned(s: Seq<i64>, cutoff: int) -> Seq<i64> {
    s.skip(spec_expired_prefix(s, cutoff) as int)
}

proof fn lemma_expired_prefix_le(s: Seq<i64>, cutoff: int)
    ensures
        spec_expired_prefix(s, cutoff) <= s.len(),
    decreases s.len(),
{
    if s.len() > 0 && s[0] < cutoff {
        lemma_expired_prefix_le(s.drop_first(), cutoff);
    }
}

/// Rate limiter over the times of recent requests.
#[derive(Clone, Debug)]
pub struct RateLimiter {
    market_requests: VecDeque<i64>,
    order_requests: VecDeque<i64>,
}

impl RateLimiter {
    /// Market requests per window.
    pub const MARKET_LIMIT: usize = 50;
    /// Order requests per window.
    pub const ORDER_LIMIT: usize = 500;
    /// Window length in seconds.
    pub const WINDOW_SECONDS: i64 = 10;

    /// Times of the logged market requests, oldest first.
    pub closed spec fn market_log(&self) -> Seq<i64> {
        self.market_requests@
    }

    /// Times of the logged order requests, oldest first.
    pub closed spec fn order_log(&self) -> Seq<i64> {
        self.order_requests@
    }

    /// No requests logged.
    pub fn new() -> (r: Self)
        ensures
            r.market_log().len() == 0,
            r.order_log().len() == 0,
    {
        RateLimiter { market_requests: VecDeque::new(), order_requests: VecDeque::new() }
    }

    fn cleanup_old_requests(requests: &mut VecDeque<i64>, now: i64)
        requires
            now >= i64::MIN + Self::WINDOW_SECONDS,
        ensures
            final(requests)@ == spec_cleaned(old(requests)@, now - Self::WINDOW_SECONDS),
    {
        let cutoff = now - Self::WINDOW_SECONDS;
        let ghost orig = requests@;
        let ghost mut dropped: int = 0;
        while requests.len() > 0
            invariant_except_break
                0 <= dropped <= orig.len(),
                requests@ == orig.skip(dropped),
                spec_expired_prefix(orig, cutoff as int) == dropped + spec_expired_prefix(requests@, cutoff as int),
            ensures
                requests@ == spec_cleaned(orig, cutoff as int),
            decreases requests@.len(),
        {
            let front = requests[0];
            if front < cutoff {
                assert(requests@.drop_first() =~= orig.skip(dropped + 1));
                requests.pop_front();
                proof {
                    dropped = dropped + 1;
                }
            } else {
                assert(spec_expired_prefix(requests@, cutoff as int) == 0);
                break;
            }
        }
        proof {
            if requests@.len() == 0 {
                assert(spec_expired_prefix(requests@, cutoff as int) == 0);
            }
        }
    }

    /// Admits a market request at `now` if fewer than `MARKET_LIMIT`
    /// requests remain in the window after dropping expired ones.
    pub fn check_market_limit(&mut self, now: i64) -> (r: Result<(), BettingPlatformError>)
        requires
            now >= i64::MIN + Self::WINDOW_SECONDS,
        ensures
            ({
                let kept = spec_cleaned(old(self).market_log(), now - Self::WINDOW_SECONDS);
                &&& final(self).order_log() == old(self).order_log()
                &&& kept.len() >= Self::MARKET_LIMIT ==> r == Err::<(), BettingPlatformError>(
                    BettingPlatformError::RateLimitExceeded) && final(self).market_log() == kept
                &&& kept.len() < Self::MARKET_LIMIT ==> r is Ok && final(self).market_log() == kept.push(now)
            }),
    {
        Self::cleanup_old_requests(&mut self.market_requests, now);
        if self.market_requests.len() >= Self::MARKET_LIMIT {
            return Err(BettingPlatformError::RateLimitExceeded);
        }
        self.market_requests.push_back(now);
        Ok(())
    }

    /// Admits an order request at `now` if fewer than `ORDER_LIMIT`
    /// requests remain in the window after dropping expired ones.
    pub fn check_order_limit(&mut self, now: i64) -> (r: Result<(), BettingPlatformError>)
        requires
            now >= i64::MIN + Self::WINDOW_SECONDS,
        ensures
            ({
                let kept = spec_cleaned(old(self).order_log(), now - Self::WINDOW_SECONDS);
                &&& final(self).market_log() == old(self).market_log()
                &&& kept.len() >= Self::ORDER_LIMIT ==> r == Err::<(), BettingPlatformError>(
                    BettingPlatformError::RateLimitExceeded) && final(self).order_log() == kept
                &&& kept.len() < Self::ORDER_LIMIT ==> r is Ok && final(self).order_log() == kept.push(now)
            }),
    {
        Self::cleanup_old_requests(&mut self.order_requests, now);
        if self.order_requests.len() >= Self::ORDER_LIMIT {
            return Err(BettingPlatformError::RateLimitExceeded);
        }
        self.order_requests.push_back(now);
        Ok(())
    }

    /// Market and order requests in the window at `now`, after dropping
    /// expired ones.
    pub fn get_usage(&mut self, now: i64) -> (r: (usize, usize))
        requires
            now >= i64::MIN + Self::WINDOW_SECONDS,
        ensures
            final(self).market_log() == spec_cleaned(old(self).market_log(), now - Self::WINDOW_SECONDS),
            final(self).order_log() == spec_cleaned(old(self).order_log(), now - Self::WINDOW_SECONDS),
            r.0 == final(self).market_log().len(),
            r.1 == final(self).order_log().len(),
    {
        Self::cleanup_old_requests(&mut self.market_requests, now);
        Self::cleanup_old_requests(&mut self.order_requests, now);
        (self.market_requests.len(), self.order_requests.len())
    }

    /// Requests currently logged.
    pub fn get_current_requests(&self) -> (r: usize)
        requires
            self.market_log().len() + self.order_log().len() <= usize::MAX,
        ensures
            r == self.market_log().len() + self.order_log().len(),
    {
        self.market_requests.len() + self.order_requests.len()
    }

    /// Requests allowed per window, markets and orders together.
    pub fn get_requests_per_window(&self) -> (r: usize)
        ensures
            r == Self::MARKET_LIMIT + Self::ORDER_LIMIT,
    {
        Self::MARKET_LIMIT + Self::ORDER_LIMIT
    }

    /// Forgets all requests.
    pub fn reset(&mut self)
        ensures
            final(self).market_log().len() == 0,
            final(self).order_log().len() == 0,
    {
        self.market_requests = VecDeque::new();
        self.order_requests = VecDeque::new();
    }
}

/// Fixed-window request counters.
#[derive(Clone, Copy, Debug)]
pub struct RateLimiterState {
    pub authority: [u8; 32],
    pub market_request_count: u32,
    pub order_request_count: u32,
    pub window_start: i64,
    pub total_requests: u64,
    pub total_rejections: u64,
}

impl RateLimiterState {
    pub const SIZE: usize = 32 + 4 + 4 + 8 + 8 + 8;

    /// Counts a market or order request at `now`: the window restarts once
    /// it is over; a request past its kind's limit is refused and counted
    /// as a rejection.
    pub fn check_and_update(&mut self, is_market_request: bool, now: i64) -> (r: Result<(), BettingPlatformError>)
        requires
            i64::MIN <= now - old(self).window_start <= i64::MAX,
            old(self).total_requests < u64::MAX,
            old(self).total_rejections < u64::MAX,
        ensures
            ({
                let expired = now - old(self).window_start >= RateLimiter::WINDOW_SECONDS;
                let mc = if expired { 0 } else { old(self).market_request_count };
                let oc = if expired { 0 } else { old(self).order_request_count };
                let full = if is_market_request { mc >= RateLimiter::MARKET_LIMIT } else { oc
                    >= RateLimiter::ORDER_LIMIT };
                &&& final(self).window_start == (if expired { now } else { old(self).window_start })
                &&& final(self).authority == old(self).authority
                &&& full ==> r == Err::<(), BettingPlatformError>(BettingPlatformError::RateLimitExceeded)
                    && final(self).total_rejections == old(self).total_rejections + 1
                    && final(self).total_requests == old(self).total_requests
                    && final(self).market_request_count == mc && final(self).order_request_count == oc
                &&& !full ==> r is Ok && final(self).total_requests == old(self).total_requests + 1
                    && final(self).total_rejections == old(self).total_rejections
                    && final(self).market_request_count == (if is_market_request { mc + 1 } else { mc as int })
                    && final(self).order_request_count == (if is_market_request { oc as int } else { oc + 1 })
            }),
    {
        if now - self.window_start >= RateLimiter::WINDOW_SECONDS {
            self.window_start = now;
            self.market_request_count = 0;
            self.order_request_count = 0;
        }
        if is_market_request {
            if self.market_request_count >= RateLimiter::MARKET_LIMIT as u32 {
                self.total_rejections = self.total_rejections + 1;
                return Err(BettingPlatformError::RateLimitExceeded);
            }
            self.market_request_count = self.market_request_count + 1;
        } else {
            if self.order_request_count >= RateLimiter::ORDER_LIMIT as u32 {
                self.total_rejections = self.total_rejections + 1;
                return Err(BettingPlatformError::RateLimitExceeded);
            }
            self.order_request_count = self.order_request_count + 1;
        }
        self.total_requests = self.total_requests + 1;
        Ok(())
    }
}

} // verus!
