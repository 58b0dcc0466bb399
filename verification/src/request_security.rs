//! Request security: signed requests, timestamp windows, nonce replay
//! protection, per-key rate limits and an audit log.
use std::collections::VecDeque;
use vstd::prelude::*;
use crate::api_key_manager::ApiProvider;
use crate::bytes::{append_bytes, bytes_eq, le_bytes_i64, le_bytes_u64, slice_to_vec, spec_le_bytes_i64, spec_le_bytes_u64};
use crate::crypto::{keccak_hashv, spec_keccak_hashv};
use crate::error::BettingPlatformError;

verus! {

/// Seconds after which a request is too old.
pub const REQUEST_TIMEOUT_SECONDS: i64 = 300;
/// Capacity of the nonce cache.
pub const NONCE_CACHE_SIZE: usize = 10000;
/// Tolerated clock drift into the future.
pub const MAX_CLOCK_DRIFT_SECONDS: i64 = 60;
/// Days an audit entry is kept.
pub const AUDIT_LOG_RETENTION_DAYS: i64 = 90;

/// Bytes of the label `REQUEST_SIGNATURE`.
pub open spec fn spec_signature_label() -> Seq<u8> {
    seq![82u8, 69, 81, 85, 69, 83, 84, 95, 83, 73, 71, 78, 65, 84, 85, 82, 69]
}

/// The signature of a message: the Keccak digest of the key, the message
/// followed by the timestamp and nonce, and a fixed label.
pub open spec fn spec_signature(message: Seq<u8>, key: Seq<u8>, timestamp: i64, nonce: Seq<u8>) -> Seq<u8> {
    spec_keccak_hashv(seq![key, message + spec_le_bytes_i64(timestamp) + nonce, spec_signature_label()])
}

/// Request signature for authentication.
#[derive(Clone, Debug)]
pub struct RequestSignature {
    pub signature: [u8; 32],
    pub timestamp: i64,
    pub nonce: [u8; 16],
    pub key_id: [u8; 16],
}

impl RequestSignature {
    /// Signs `message` with `api_key`.
    pub fn new(message: &[u8], api_key: &[u8], timestamp: i64, nonce: [u8; 16], key_id: [u8; 16]) -> (r: Self)
        ensures
            r.signature@ == spec_signature(message@, api_key@, timestamp, nonce@),
            r.timestamp == timestamp,
            r.nonce == nonce,
            r.key_id == key_id,
    {
        let signature = Self::compute_signature(message, api_key, timestamp, &nonce);
        RequestSignature { signature, timestamp, nonce, key_id }
    }

    fn compute_signature(message: &[u8], key: &[u8], timestamp: i64, nonce: &[u8; 16]) -> (r: [u8; 32])
        ensures
            r@ == spec_signature(message@, key@, timestamp, nonce@),
    {
        let mut payload: Vec<u8> = Vec::new();
        append_bytes(&mut payload, message);
        let ts = le_bytes_i64(timestamp);
        append_bytes(&mut payload, ts.as_slice());
        append_bytes(&mut payload, nonce.as_slice());
        let label = vec![82u8, 69, 81, 85, 69, 83, 84, 95, 83, 73, 71, 78, 65, 84, 85, 82, 69];
        assert(label@ =~= spec_signature_label());
        let mut parts: Vec<Vec<u8>> = Vec::new();
        parts.push(slice_to_vec(key));
        parts.push(payload);
        parts.push(label);
        assert(parts@.map_values(|p: Vec<u8>| p@) =~= seq![
            key@,
            message@ + spec_le_bytes_i64(timestamp) + nonce@,
            spec_signature_label(),
        ]);
        keccak_hashv(&parts)
    }

    /// Checks the signature against `message` signed with `api_key`.
    pub fn verify(&self, message: &[u8], api_key: &[u8]) -> (r: Result<(), BettingPlatformError>)
        ensures
            r is Ok <==> self.signature@ == spec_signature(message@, api_key@, self.timestamp, self.nonce@),
            r matches Err(e) ==> e == BettingPlatformError::SecurityCheckFailed,
    {
        let expected = Self::compute_signature(message, api_key, self.timestamp, &self.nonce);
        if !bytes_eq(&expected, &self.signature) {
            return Err(BettingPlatformError::SecurityCheckFailed);
        }
        Ok(())
    }
}

/// A request is timely when it is at most `request_timeout` seconds old and
/// at most `max_clock_drift` seconds in the future.
pub open spec fn spec_timestamp_ok(v: TimestampValidator, request: i64, current: i64) -> bool {
    current - request <= v.request_timeout && request <= current + v.max_clock_drift
}

/// Timestamp validator.
#[derive(Clone, Copy, Debug)]
pub struct TimestampValidator {
    pub max_clock_drift: i64,
    pub request_timeout: i64,
}

impl TimestampValidator {
    /// Validator with the default timeout and drift.
    pub fn new() -> (r: Self)
        ensures
            r.max_clock_drift == MAX_CLOCK_DRIFT_SECONDS,
            r.request_timeout == REQUEST_TIMEOUT_SECONDS,
    {
        TimestampValidator { max_clock_drift: MAX_CLOCK_DRIFT_SECONDS, request_timeout: REQUEST_TIMEOUT_SECONDS }
    }

    /// Accepts a request timestamp that is neither too old nor too far ahead.
    pub fn validate(&self, request_timestamp: i64, current_timestamp: i64) -> (r: Result<(), BettingPlatformError>)
        ensures
            r is Ok <==> spec_timestamp_ok(*self, request_timestamp, current_timestamp),
            r matches Err(e) ==> e == BettingPlatformError::SecurityCheckFailed,
    {
        let age: i128 = current_timestamp as i128 - request_timestamp as i128;
        if age > self.request_timeout as i128 {
            return Err(BettingPlatformError::SecurityCheckFailed);
        }
        if request_timestamp as i128 > current_timestamp as i128 + self.max_clock_drift as i128 {
            return Err(BettingPlatformError::SecurityCheckFailed);
        }
        Ok(())
    }
}

/// The nonces of a cache's entries, in order.
pub open spec fn spec_nonces(cache: Seq<([u8; 16], i64)>) -> Seq<[u8; 16]> {
    cache.map_values(|e: ([u8; 16], i64)| e.0)
}

/// The entries left after dropping entries from the front while there are
/// more than `max`.
pub open spec fn spec_keep_last(s: Seq<([u8; 16], i64)>, max: usize) -> Seq<([u8; 16], i64)> {
    if s.len() > max { s.subrange(s.len() - max, s.len() as int) } else { s }
}

/// The entries left after dropping expired entries from the front.
pub open spec fn spec_drop_expired(s: Seq<([u8; 16], i64)>, expiry: int) -> Seq<([u8; 16], i64)>
    decreases s.len(),
{
    if s.len() > 0 && s[0].1 < expiry {
        spec_drop_expired(s.drop_first(), expiry)
    } else {
        s
    }
}

/// Nonce cache for replay prevention.
#[derive(Clone)]
pub struct NonceCache {
    /// (nonce, timestamp), oldest first.
    pub cache: VecDeque<([u8; 16], i64)>,
    /// The nonces of `cache`, in the same order.
    pub lookup: Vec<[u8; 16]>,
    pub max_size: usize,
}

impl NonceCache {
    /// The lookup list mirrors the cache.
    pub open spec fn wf(&self) -> bool {
        self.lookup@ == spec_nonces(self.cache@)
    }

    /// An empty cache holding at most `max_size` nonces.
    pub fn new(max_size: usize) -> (r: Self)
        ensures
            r.wf(),
            r.cache@ == Seq::<([u8; 16], i64)>::empty(),
            r.max_size == max_size,
    {
        let r = NonceCache { cache: VecDeque::new(), lookup: Vec::new(), max_size };
        assert(r.lookup@ =~= spec_nonces(r.cache@));
        r
    }

    /// Whether the nonce is in the cache.
    pub fn contains(&self, nonce: &[u8; 16]) -> (r: bool)
        requires
            self.wf(),
        ensures
            r == spec_nonces(self.cache@).contains(*nonce),
    {
        let mut i: usize = 0;
        while i < self.lookup.len()
            invariant
                self.wf(),
                i <= self.lookup@.len(),
                forall|j: int| 0 <= j < i ==> self.lookup@[j] != *nonce,
            decreases self.lookup@.len() - i,
        {
            if bytes_eq(&self.lookup[i], nonce) {
                assert(self.lookup@[i as int]@ == nonce@);
                assert(self.lookup@[i as int] =~= *nonce);
                return true;
            }
            assert(self.lookup@[i as int] != *nonce);
            i = i + 1;
        }
        false
    }

    /// Adds a nonce seen at `timestamp`. Returns `false` for a nonce already
    /// in the cache (a replay) and leaves the cache unchanged; otherwise
    /// appends it and evicts the oldest entries beyond `max_size`.
    pub fn check_and_add(&mut self, nonce: &[u8; 16], timestamp: i64) -> (r: bool)
        requires
            old(self).wf(),
        ensures
            final(self).wf(),
            final(self).max_size == old(self).max_size,
            r == !spec_nonces(old(self).cache@).contains(*nonce),
            r ==> final(self).cache@ == spec_keep_last(old(self).cache@.push((*nonce, timestamp)), old(self).max_size),
            !r ==> final(self).cache@ == old(self).cache@,
    {
        if self.contains(nonce) {
            return false;
        }
        self.cache.push_back((*nonce, timestamp));
        self.lookup.push(*nonce);
        assert(self.lookup@ =~= spec_nonces(self.cache@));
        let ghost pushed = self.cache@;
        while self.cache.len() > self.max_size
            invariant
                self.wf(),
                self.max_size == old(self).max_size,
                pushed.len() > 0,
                self.cache@.len() <= pushed.len(),
                self.cache@.len() >= self.max_size || self.cache@.len() == pushed.len(),
                self.cache@ == pushed.subrange(pushed.len() - self.cache@.len(), pushed.len() as int),
            decreases self.cache@.len(),
        {
            let ghost before = self.cache@;
            self.cache.pop_front();
            self.lookup.remove(0);
            assert(self.cache@ =~= before.drop_first());
            assert(self.lookup@ =~= spec_nonces(self.cache@));
            assert(self.cache@ =~= pushed.subrange(pushed.len() - self.cache@.len(), pushed.len() as int));
        }
        assert(self.cache@ =~= spec_keep_last(pushed, self.max_size));
        true
    }

    /// Drops entries older than the request timeout from the front.
    pub fn clean_expired(&mut self, current_timestamp: i64)
        requires
            old(self).wf(),
            current_timestamp >= i64::MIN + REQUEST_TIMEOUT_SECONDS,
        ensures
            final(self).wf(),
            final(self).max_size == old(self).max_size,
            final(self).cache@ == spec_drop_expired(old(self).cache@, current_timestamp - REQUEST_TIMEOUT_SECONDS),
    {
        let expiry = current_timestamp - REQUEST_TIMEOUT_SECONDS;
        loop
            invariant
                self.wf(),
                self.max_size == old(self).max_size,
                spec_drop_expired(self.cache@, expiry as int) == spec_drop_expired(old(self).cache@, expiry as int),
            ensures
                self.wf(),
                self.max_size == old(self).max_size,
                self.cache@ == spec_drop_expired(old(self).cache@, expiry as int),
            decreases self.cache@.len(),
        {
            if self.cache.len() == 0 {
                break;
            }
            let front = self.cache[0];
            if front.1 < expiry {
                let ghost before = self.cache@;
                self.cache.pop_front();
                self.lookup.remove(0);
                assert(self.cache@ =~= before.drop_first());
                assert(self.lookup@ =~= spec_nonces(self.cache@));
            } else {
                break;
            }
        }
    }
}

/// Per-key request counter.
#[derive(Clone, Copy, Debug)]
pub struct RateLimitBucket {
    pub count: u64,
    pub window_start: i64,
}

/// `i` is the first position of key `k` in the bucket list.
pub open spec fn spec_first_key_at(s: Seq<([u8; 16], RateLimitBucket)>, k: [u8; 16], i: int) -> bool {
    0 <= i < s.len() && s[i].0 == k && forall|j: int| 0 <= j < i ==> s[j].0 != k
}

/// The bucket before the check: the stored one, or a fresh one opened now.
pub open spec fn spec_current_bucket(s: Seq<([u8; 16], RateLimitBucket)>, k: [u8; 16], now: i64) -> RateLimitBucket {
    if exists|i: int| spec_first_key_at(s, k, i) {
        s[choose|i: int| spec_first_key_at(s, k, i)].1
    } else {
        RateLimitBucket { count: 0, window_start: now }
    }
}

/// The bucket after its window is reset when expired.
pub open spec fn spec_rolled_bucket(b: RateLimitBucket, now: i64, window: i64) -> RateLimitBucket {
    if now - b.window_start >= window { RateLimitBucket { count: 0, window_start: now } } else { b }
}

/// Request rate limiter.
#[derive(Clone)]
pub struct RequestRateLimiter {
    pub request_counts: Vec<([u8; 16], RateLimitBucket)>,
    pub global_limit: u64,
    pub window_seconds: i64,
}

impl RequestRateLimiter {
    pub const DEFAULT_LIMIT_PER_MINUTE: u64 = 60;
    pub const WINDOW_SIZE: i64 = 60;

    /// A limiter with no buckets, 60 requests per 60-second window.
    pub fn new() -> (r: Self)
        ensures
            r.request_counts@ == Seq::<([u8; 16], RateLimitBucket)>::empty(),
            r.global_limit == 60,
            r.window_seconds == 60,
    {
        RequestRateLimiter {
            request_counts: Vec::new(),
            global_limit: Self::DEFAULT_LIMIT_PER_MINUTE,
            window_seconds: Self::WINDOW_SIZE,
        }
    }

    fn find_key(&self, key_id: &[u8; 16]) -> (r: Option<usize>)
        ensures
            match r {
                Some(i) => spec_first_key_at(self.request_counts@, *key_id, i as int),
                None => forall|j: int| 0 <= j < self.request_counts@.len() ==> self.request_counts@[j].0 != *key_id,
            },
    {
        let mut i: usize = 0;
        while i < self.request_counts.len()
            invariant
                i <= self.request_counts@.len(),
                forall|j: int| 0 <= j < i ==> self.request_counts@[j].0 != *key_id,
            decreases self.request_counts@.len() - i,
        {
            if bytes_eq(&self.request_counts[i].0, key_id) {
                assert(self.request_counts@[i as int].0 =~= *key_id);
                return Some(i);
            }
            assert(self.request_counts@[i as int].0 != *key_id);
            i = i + 1;
        }
        None
    }

    /// Counts one request of `key_id` at `current_time`. The key's bucket is
    /// created, or reset when its window has passed; the request is refused
    /// when the bucket already holds `global_limit` requests.
    pub fn check_rate_limit(&mut self, key_id: &[u8; 16], current_time: i64) -> (r: Result<(), BettingPlatformError>)
        ensures
            final(self).global_limit == old(self).global_limit,
            final(self).window_seconds == old(self).window_seconds,
            ({
                let b = spec_rolled_bucket(
                    spec_current_bucket(old(self).request_counts@, *key_id, current_time),
                    current_time,
                    old(self).window_seconds,
                );
                let nb = if b.count >= old(self).global_limit { b } else {
                    RateLimitBucket { count: (b.count + 1) as u64, window_start: b.window_start }
                };
                &&& (r is Ok <==> b.count < old(self).global_limit)
                &&& (r matches Err(e) ==> e == BettingPlatformError::RateLimited)
                &&& if exists|i: int| spec_first_key_at(old(self).request_counts@, *key_id, i) {
                    final(self).request_counts@ == old(self).request_counts@.update(
                        choose|i: int| spec_first_key_at(old(self).request_counts@, *key_id, i),
                        (*key_id, nb),
                    )
                } else {
                    final(self).request_counts@ == old(self).request_counts@.push((*key_id, nb))
                }
            }),
    {
        let idx = match self.find_key(key_id) {
            Some(i) => {
                proof {
                    let c = choose|j: int| spec_first_key_at(old(self).request_counts@, *key_id, j);
                    assert(spec_first_key_at(old(self).request_counts@, *key_id, i as int));
                    assert(c == i as int) by {
                        if c < i as int { assert(old(self).request_counts@[c].0 != *key_id); }
                        if c > i as int { assert(old(self).request_counts@[i as int].0 != *key_id); }
                    }
                }
                i
            },
            None => {
                self.request_counts.push((*key_id, RateLimitBucket { count: 0, window_start: current_time }));
                proof {
                    assert forall|i: int| !spec_first_key_at(old(self).request_counts@, *key_id, i) by {}
                }
                self.request_counts.len() - 1
            },
        };
        let mut bucket = self.request_counts[idx].1;
        if current_time as i128 - bucket.window_start as i128 >= self.window_seconds as i128 {
            bucket = RateLimitBucket { count: 0, window_start: current_time };
        }
        if bucket.count >= self.global_limit {
            self.request_counts.set(idx, (*key_id, bucket));
            return Err(BettingPlatformError::RateLimited);
        }
        bucket.count = bucket.count + 1;
        self.request_counts.set(idx, (*key_id, bucket));
        Ok(())
    }

    /// Keeps the buckets whose window started less than two windows ago.
    pub fn clean_expired(&mut self, current_timestamp: i64)
        ensures
            final(self).global_limit == old(self).global_limit,
            final(self).window_seconds == old(self).window_seconds,
            final(self).request_counts@ == old(self).request_counts@.filter(
                |e: ([u8; 16], RateLimitBucket)| current_timestamp - e.1.window_start < old(self).window_seconds * 2,
            ),
    {
        let ghost keep = |e: ([u8; 16], RateLimitBucket)| current_timestamp - e.1.window_start < old(self).window_seconds * 2;
        let mut kept: Vec<([u8; 16], RateLimitBucket)> = Vec::new();
        let mut i: usize = 0;
        let limit: i128 = self.window_seconds as i128 * 2;
        while i < self.request_counts.len()
            invariant
                i <= self.request_counts@.len(),
                self.request_counts@ == old(self).request_counts@,
                self.window_seconds == old(self).window_seconds,
                limit == self.window_seconds * 2,
                keep == (|e: ([u8; 16], RateLimitBucket)| current_timestamp - e.1.window_start < old(self).window_seconds * 2),
                kept@ == self.request_counts@.subrange(0, i as int).filter(keep),
            decreases self.request_counts@.len() - i,
        {
            let e = self.request_counts[i];
            proof {
                reveal_with_fuel(Seq::filter, 1);
                assert(self.request_counts@.subrange(0, i + 1).drop_last() =~= self.request_counts@.subrange(0, i as int));
            }
            let ghost s = self.request_counts@.subrange(0, i + 1);
            assert(s.last() == e);
            assert(keep(e) == ((current_timestamp as i128 - e.1.window_start as i128) < limit));
            if (current_timestamp as i128 - e.1.window_start as i128) < limit {
                kept.push(e);
            }
            assert(s.filter(keep) == s.drop_last().filter(keep) + (if keep(s.last()) { seq![s.last()] } else { Seq::empty() }));
            assert(kept@ =~= s.filter(keep));
            i = i + 1;
        }
        assert(self.request_counts@.subrange(0, i as int) =~= self.request_counts@);
        self.request_counts = kept;
    }
}


/// Request validator for security checks.
#[derive(Clone)]
pub struct RequestValidator {
    pub nonce_cache: NonceCache,
    pub timestamp_validator: TimestampValidator,
    pub rate_limiter: RequestRateLimiter,
    /// Blocked key ids.
    pub blocked_keys: Vec<[u8; 16]>,
}

impl RequestValidator {
    pub const SIZE: usize = 16384;

    /// A validator with empty caches and no blocked keys.
    pub fn new() -> (r: Self)
        ensures
            r.nonce_cache.wf(),
            r.nonce_cache.cache@.len() == 0,
            r.nonce_cache.max_size == NONCE_CACHE_SIZE,
            r.timestamp_validator.max_clock_drift == MAX_CLOCK_DRIFT_SECONDS,
            r.timestamp_validator.request_timeout == REQUEST_TIMEOUT_SECONDS,
            r.rate_limiter.request_counts@.len() == 0,
            r.rate_limiter.global_limit == 60,
            r.rate_limiter.window_seconds == 60,
            r.blocked_keys@.len() == 0,
    {
        RequestValidator {
            nonce_cache: NonceCache::new(NONCE_CACHE_SIZE),
            timestamp_validator: TimestampValidator::new(),
            rate_limiter: RequestRateLimiter::new(),
            blocked_keys: Vec::new(),
        }
    }

    fn is_blocked(&self, key_id: &[u8; 16]) -> (r: bool)
        ensures
            r == self.blocked_keys@.contains(*key_id),
    {
        let mut i: usize = 0;
        while i < self.blocked_keys.len()
            invariant
                i <= self.blocked_keys@.len(),
                forall|j: int| 0 <= j < i ==> self.blocked_keys@[j] != *key_id,
            decreases self.blocked_keys@.len() - i,
        {
            if bytes_eq(&self.blocked_keys[i], key_id) {
                assert(self.blocked_keys@[i as int] =~= *key_id);
                return true;
            }
            assert(self.blocked_keys@[i as int] != *key_id);
            i = i + 1;
        }
        false
    }

    /// Validates a request at `current_timestamp`, in order: the key is not
    /// blocked, the signature matches, the timestamp is in the window, the
    /// nonce is new (and is recorded), and the key is within its rate limit
    /// (and the request is counted).
    pub fn validate_request(
        &mut self,
        signature: &RequestSignature,
        message: &[u8],
        api_key: &[u8],
        current_timestamp: i64,
    ) -> (r: Result<(), BettingPlatformError>)
        requires
            old(self).nonce_cache.wf(),
        ensures
            final(self).nonce_cache.wf(),
            final(self).blocked_keys@ == old(self).blocked_keys@,
            final(self).timestamp_validator == old(self).timestamp_validator,
            ({
                let blocked = old(self).blocked_keys@.contains(signature.key_id);
                let signed = signature.signature@ == spec_signature(message@, api_key@, signature.timestamp, signature.nonce@);
                let timely = spec_timestamp_ok(old(self).timestamp_validator, signature.timestamp, current_timestamp);
                let fresh = !spec_nonces(old(self).nonce_cache.cache@).contains(signature.nonce);
                &&& blocked ==> r == Err::<(), BettingPlatformError>(BettingPlatformError::Unauthorized)
                &&& !blocked && !(signed && timely && fresh) ==> r == Err::<(), BettingPlatformError>(BettingPlatformError::SecurityCheckFailed)
                &&& !(!blocked && signed && timely) ==> final(self).nonce_cache == old(self).nonce_cache
                &&& !(!blocked && signed && timely && fresh) ==> final(self).rate_limiter == old(self).rate_limiter
                &&& (!blocked && signed && timely && fresh) ==> {
                    &&& final(self).nonce_cache.cache@ == spec_keep_last(
                        old(self).nonce_cache.cache@.push((signature.nonce, current_timestamp)),
                        old(self).nonce_cache.max_size,
                    )
                    &&& (r is Ok <==> spec_rolled_bucket(
                        spec_current_bucket(old(self).rate_limiter.request_counts@, signature.key_id, current_timestamp),
                        current_timestamp,
                        old(self).rate_limiter.window_seconds,
                    ).count < old(self).rate_limiter.global_limit)
                }
            }),
    {
        if self.is_blocked(&signature.key_id) {
            return Err(BettingPlatformError::Unauthorized);
        }
        signature.verify(message, api_key)?;
        self.timestamp_validator.validate(signature.timestamp, current_timestamp)?;
        if !self.nonce_cache.check_and_add(&signature.nonce, current_timestamp) {
            return Err(BettingPlatformError::SecurityCheckFailed);
        }
        self.rate_limiter.check_rate_limit(&signature.key_id, current_timestamp)
    }

    /// Adds a key to the blocked list (once).
    pub fn block_key(&mut self, key_id: [u8; 16])
        ensures
            final(self).blocked_keys@.to_set() == old(self).blocked_keys@.to_set().insert(key_id),
            final(self).nonce_cache == old(self).nonce_cache,
            final(self).rate_limiter == old(self).rate_limiter,
            final(self).timestamp_validator == old(self).timestamp_validator,
    {
        if !self.is_blocked(&key_id) {
            self.blocked_keys.push(key_id);
            proof { lemma_push_to_set(old(self).blocked_keys@, key_id); }
        } else {
            assert(self.blocked_keys@.to_set() =~= self.blocked_keys@.to_set().insert(key_id));
        }
    }

    /// Removes a key from the blocked list.
    pub fn unblock_key(&mut self, key_id: [u8; 16])
        ensures
            final(self).blocked_keys@ == old(self).blocked_keys@.filter(|k: [u8; 16]| k != key_id),
            final(self).nonce_cache == old(self).nonce_cache,
            final(self).rate_limiter == old(self).rate_limiter,
            final(self).timestamp_validator == old(self).timestamp_validator,
    {
        let ghost keep = |k: [u8; 16]| k != key_id;
        let mut kept: Vec<[u8; 16]> = Vec::new();
        let mut i: usize = 0;
        while i < self.blocked_keys.len()
            invariant
                i <= self.blocked_keys@.len(),
                self.blocked_keys@ == old(self).blocked_keys@,
                keep == (|k: [u8; 16]| k != key_id),
                kept@ == self.blocked_keys@.subrange(0, i as int).filter(keep),
            decreases self.blocked_keys@.len() - i,
        {
            let k = self.blocked_keys[i];
            let ghost s = self.blocked_keys@.subrange(0, i + 1);
            proof {
                reveal_with_fuel(Seq::filter, 1);
                assert(s.drop_last() =~= self.blocked_keys@.subrange(0, i as int));
            }
            let same = bytes_eq(&k, &key_id);
            proof { if same { assert(k =~= key_id); } }
            if !same {
                kept.push(k);
            }
            assert(kept@ =~= s.filter(keep));
            i = i + 1;
        }
        assert(self.blocked_keys@.subrange(0, i as int) =~= self.blocked_keys@);
        self.blocked_keys = kept;
    }
}

/// Pushing an element adds it to the set of elements.
pub proof fn lemma_push_to_set<A>(s: Seq<A>, x: A)
    ensures
        s.push(x).to_set() == s.to_set().insert(x),
{
    assert forall|y: A| s.push(x).to_set().contains(y) <==> s.to_set().insert(x).contains(y) by {
        if s.push(x).contains(y) && y != x {
            let i = choose|i: int| 0 <= i < s.push(x).len() && s.push(x)[i] == y;
            assert(i < s.len());
            assert(s.contains(y));
        }
        if s.contains(y) {
            let i = choose|i: int| 0 <= i < s.len() && s[i] == y;
            assert(s.push(x)[i] == y);
        }
        if y == x {
            assert(s.push(x)[s.len() as int] == x);
        }
    }
    assert(s.push(x).to_set() =~= s.to_set().insert(x));
}


/// Audit log entry.
#[derive(Clone, Debug)]
pub struct AuditLogEntry {
    pub timestamp: i64,
    pub request_id: [u8; 16],
    pub key_id: [u8; 16],
    pub action: AuditAction,
    pub result: AuditResult,
    pub ip_hash: Option<[u8; 16]>,
    pub details: String,
}

/// Audited actions.
#[derive(Clone, Debug)]
pub enum AuditAction {
    ApiRequest { provider: ApiProvider, method: String },
    KeyRotation,
    SecurityViolation { violation_type: String },
    RateLimitExceeded,
    AuthenticationFailed,
}

/// Outcome of an audited action.
#[derive(Clone, Copy, Debug)]
pub enum AuditResult {
    Success,
    Failed { error_code: u16 },
    Blocked,
}

/// The request id of an entry: the first 16 bytes of the Keccak digest of
/// the key id, the timestamp and the 8 bytes of the random word.
pub open spec fn spec_request_id(key_id: Seq<u8>, timestamp: i64, random_word: u64) -> Seq<u8> {
    spec_keccak_hashv(seq![key_id, spec_le_bytes_i64(timestamp), spec_le_bytes_u64(random_word)]).take(16)
}

/// Whether an action is a security violation or a failed authentication.
pub open spec fn spec_is_violation(a: AuditAction) -> bool {
    a is SecurityViolation || a is AuthenticationFailed
}

/// The entries kept after dropping those before `cutoff` from the front.
pub open spec fn spec_drop_before(s: Seq<AuditLogEntry>, cutoff: int) -> Seq<AuditLogEntry>
    decreases s.len(),
{
    if s.len() > 0 && s[0].timestamp < cutoff { spec_drop_before(s.drop_first(), cutoff) } else { s }
}

/// Audit logger.
#[derive(Clone)]
pub struct AuditLogger {
    pub logs: VecDeque<AuditLogEntry>,
    pub max_entries: usize,
    pub total_logged: u64,
}

impl AuditLogger {
    pub const SIZE: usize = 65536;
    pub const DEFAULT_MAX_ENTRIES: usize = 5000;

    /// An empty log keeping at most 5000 entries.
    pub fn new() -> (r: Self)
        ensures
            r.logs@.len() == 0,
            r.max_entries == 5000,
            r.total_logged == 0,
    {
        AuditLogger { logs: VecDeque::new(), max_entries: Self::DEFAULT_MAX_ENTRIES, total_logged: 0 }
    }

    /// Appends an entry stamped `timestamp` and evicts the oldest entries
    /// beyond `max_entries`.
    pub fn log(&mut self, key_id: [u8; 16], action: AuditAction, result: AuditResult, details: String, timestamp: i64)
        requires
            old(self).total_logged < u64::MAX,
        ensures
            final(self).total_logged == old(self).total_logged + 1,
            final(self).max_entries == old(self).max_entries,
            ({
                let pushed_len: int = (old(self).logs@.len() + 1) as int;
                let kept = if pushed_len > old(self).max_entries { old(self).max_entries as int } else { pushed_len };
                &&& final(self).logs@.len() == kept
                &&& forall|i: int| 0 <= i < kept - 1 ==> #[trigger] final(self).logs@[i] == old(self).logs@[pushed_len - kept + i]
                &&& kept > 0 ==> {
                    let e = final(self).logs@[kept - 1];
                    &&& e.timestamp == timestamp
                    &&& e.key_id == key_id
                    &&& e.request_id@ == spec_request_id(key_id@, timestamp, 0)
                    &&& e.action == action
                    &&& e.result == result
                    &&& e.ip_hash is None
                    &&& e.details == details
                }
            }),
    {
        let request_id = Self::generate_request_id(&key_id, timestamp);
        let entry = AuditLogEntry { timestamp, request_id, key_id, action, result, ip_hash: None, details };
        self.logs.push_back(entry);
        self.total_logged = self.total_logged + 1;
        let ghost pushed = self.logs@;
        while self.logs.len() > self.max_entries
            invariant
                self.max_entries == old(self).max_entries,
                self.total_logged == old(self).total_logged + 1,
                pushed == old(self).logs@.push(entry),
                self.logs@.len() <= pushed.len(),
                self.logs@.len() >= self.max_entries || self.logs@.len() == pushed.len(),
                self.logs@ == pushed.subrange(pushed.len() - self.logs@.len(), pushed.len() as int),
            decreases self.logs@.len(),
        {
            let ghost before = self.logs@;
            self.logs.pop_front();
            assert(self.logs@ =~= pushed.subrange(pushed.len() - self.logs@.len(), pushed.len() as int));
        }
    }

    fn generate_request_id(key_id: &[u8; 16], timestamp: i64) -> (r: [u8; 16])
        ensures
            r@ == spec_request_id(key_id@, timestamp, 0),
    {
        let mut parts: Vec<Vec<u8>> = Vec::new();
        parts.push(slice_to_vec(key_id.as_slice()));
        parts.push(le_bytes_i64(timestamp));
        parts.push(le_bytes_u64(crate::rand::random()));
        assert(parts@.map_values(|p: Vec<u8>| p@) =~= seq![key_id@, spec_le_bytes_i64(timestamp), spec_le_bytes_u64(0)]);
        let hash = keccak_hashv(&parts);
        let mut id = [0u8; 16];
        let mut i: usize = 0;
        while i < 16
            invariant
                i <= 16,
                hash@.len() == 32,
                id@.len() == 16,
                forall|j: int| 0 <= j < i ==> id@[j] == hash@[j],
            decreases 16 - i,
        {
            id[i] = hash[i];
            i = i + 1;
        }
        assert(id@ =~= hash@.take(16));
        id
    }

    /// Entries of the given key, oldest first.
    pub fn query_by_key(&self, key_id: &[u8; 16]) -> (r: Vec<&AuditLogEntry>)
        ensures
            r@.map_values(|e: &AuditLogEntry| *e) == self.logs@.filter(|e: AuditLogEntry| e.key_id == *key_id),
    {
        let ghost keep = |e: AuditLogEntry| e.key_id == *key_id;
        let mut out: Vec<&AuditLogEntry> = Vec::new();
        let mut i: usize = 0;
        while i < self.logs.len()
            invariant
                i <= self.logs@.len(),
                keep == (|e: AuditLogEntry| e.key_id == *key_id),
                out@.map_values(|e: &AuditLogEntry| *e) == self.logs@.subrange(0, i as int).filter(keep),
            decreases self.logs@.len() - i,
        {
            let e = &self.logs[i];
            let ghost s = self.logs@.subrange(0, i + 1);
            proof {
                reveal_with_fuel(Seq::filter, 1);
                assert(s.drop_last() =~= self.logs@.subrange(0, i as int));
            }
            let same = bytes_eq(&e.key_id, key_id);
            proof { if same { assert(e.key_id =~= *key_id); } }
            if same {
                out.push(e);
            }
            assert(out@.map_values(|e: &AuditLogEntry| *e) =~= s.filter(keep));
            i = i + 1;
        }
        assert(self.logs@.subrange(0, i as int) =~= self.logs@);
        out
    }

    /// Entries stamped within `[start, end]`, oldest first.
    pub fn query_by_time_range(&self, start: i64, end: i64) -> (r: Vec<&AuditLogEntry>)
        ensures
            r@.map_values(|e: &AuditLogEntry| *e) == self.logs@.filter(|e: AuditLogEntry| start <= e.timestamp <= end),
    {
        let ghost keep = |e: AuditLogEntry| start <= e.timestamp <= end;
        let mut out: Vec<&AuditLogEntry> = Vec::new();
        let mut i: usize = 0;
        while i < self.logs.len()
            invariant
                i <= self.logs@.len(),
                keep == (|e: AuditLogEntry| start <= e.timestamp <= end),
                out@.map_values(|e: &AuditLogEntry| *e) == self.logs@.subrange(0, i as int).filter(keep),
            decreases self.logs@.len() - i,
        {
            let e = &self.logs[i];
            let ghost s = self.logs@.subrange(0, i + 1);
            proof {
                reveal_with_fuel(Seq::filter, 1);
                assert(s.drop_last() =~= self.logs@.subrange(0, i as int));
            }
            if e.timestamp >= start && e.timestamp <= end {
                out.push(e);
            }
            assert(out@.map_values(|e: &AuditLogEntry| *e) =~= s.filter(keep));
            i = i + 1;
        }
        assert(self.logs@.subrange(0, i as int) =~= self.logs@);
        out
    }

    /// Entries that record a security violation or a failed authentication.
    pub fn get_security_violations(&self) -> (r: Vec<&AuditLogEntry>)
        ensures
            r@.map_values(|e: &AuditLogEntry| *e) == self.logs@.filter(|e: AuditLogEntry| spec_is_violation(e.action)),
    {
        let ghost keep = |e: AuditLogEntry| spec_is_violation(e.action);
        let mut out: Vec<&AuditLogEntry> = Vec::new();
        let mut i: usize = 0;
        while i < self.logs.len()
            invariant
                i <= self.logs@.len(),
                keep == (|e: AuditLogEntry| spec_is_violation(e.action)),
                out@.map_values(|e: &AuditLogEntry| *e) == self.logs@.subrange(0, i as int).filter(keep),
            decreases self.logs@.len() - i,
        {
            let e = &self.logs[i];
            let ghost s = self.logs@.subrange(0, i + 1);
            proof {
                reveal_with_fuel(Seq::filter, 1);
                assert(s.drop_last() =~= self.logs@.subrange(0, i as int));
            }
            let is_violation = match &e.action {
                AuditAction::SecurityViolation { .. } => true,
                AuditAction::AuthenticationFailed => true,
                _ => false,
            };
            if is_violation {
                out.push(e);
            }
            assert(out@.map_values(|e: &AuditLogEntry| *e) =~= s.filter(keep));
            i = i + 1;
        }
        assert(self.logs@.subrange(0, i as int) =~= self.logs@);
        out
    }

    /// Drops entries older than the retention period from the front.
    pub fn clean_old_entries(&mut self, current_timestamp: i64)
        requires
            current_timestamp >= i64::MIN + AUDIT_LOG_RETENTION_DAYS * 86400,
        ensures
            final(self).max_entries == old(self).max_entries,
            final(self).total_logged == old(self).total_logged,
            final(self).logs@ == spec_drop_before(old(self).logs@, current_timestamp - AUDIT_LOG_RETENTION_DAYS * 86400),
    {
        let cutoff = current_timestamp - AUDIT_LOG_RETENTION_DAYS * 86400;
        loop
            invariant
                self.max_entries == old(self).max_entries,
                self.total_logged == old(self).total_logged,
                spec_drop_before(self.logs@, cutoff as int) == spec_drop_before(old(self).logs@, cutoff as int),
            ensures
                self.max_entries == old(self).max_entries,
                self.total_logged == old(self).total_logged,
                self.logs@ == spec_drop_before(old(self).logs@, cutoff as int),
            decreases self.logs@.len(),
        {
            if self.logs.len() == 0 {
                break;
            }
            if self.logs[0].timestamp < cutoff {
                let ghost before = self.logs@;
                self.logs.pop_front();
                assert(self.logs@ =~= before.drop_first());
            } else {
                break;
            }
        }
    }
}

/// Security metrics tracker.
#[derive(Clone, Copy)]
pub struct SecurityMetrics {
    pub total_requests: u64,
    pub successful_requests: u64,
    pub failed_auth: u64,
    pub rate_limit_hits: u64,
    pub replay_attempts: u64,
    pub security_violations: u64,
    pub last_violation: Option<i64>,
}

impl SecurityMetrics {
    /// All counters zero, no violation seen.
    pub fn new() -> (r: Self)
        ensures
            r.total_requests == 0,
            r.successful_requests == 0,
            r.failed_auth == 0,
            r.rate_limit_hits == 0,
            r.replay_attempts == 0,
            r.security_violations == 0,
            r.last_violation is None,
    {
        SecurityMetrics {
            total_requests: 0,
            successful_requests: 0,
            failed_auth: 0,
            rate_limit_hits: 0,
            replay_attempts: 0,
            security_violations: 0,
            last_violation: None,
        }
    }

    /// Counts one audited request whose outcome is `result` at
    /// `current_timestamp`.
    pub fn update(&mut self, result: &AuditResult, action: &AuditAction, current_timestamp: i64)
        requires
            old(self).total_requests < u64::MAX,
            old(self).successful_requests < u64::MAX,
            old(self).failed_auth < u64::MAX,
            old(self).rate_limit_hits < u64::MAX,
            old(self).security_violations < u64::MAX,
        ensures
            final(self).total_requests == old(self).total_requests + 1,
            final(self).replay_attempts == old(self).replay_attempts,
            final(self).successful_requests == old(self).successful_requests + (if *result is Success { 1int } else { 0 }),
            final(self).failed_auth == old(self).failed_auth
                + (if *result is Failed && *action is AuthenticationFailed { 1int } else { 0 }),
            final(self).rate_limit_hits == old(self).rate_limit_hits
                + (if *result is Failed && *action is RateLimitExceeded { 1int } else { 0 }),
            final(self).security_violations == old(self).security_violations
                + (if *result is Blocked || (*result is Failed && *action is SecurityViolation) { 1int } else { 0 }),
            final(self).last_violation == (if *result is Failed && *action is SecurityViolation {
                Some(current_timestamp)
            } else {
                old(self).last_violation
            }),
    {
        self.total_requests = self.total_requests + 1;
        match result {
            AuditResult::Success => self.successful_requests = self.successful_requests + 1,
            AuditResult::Failed { .. } => match action {
                AuditAction::AuthenticationFailed => self.failed_auth = self.failed_auth + 1,
                AuditAction::RateLimitExceeded => self.rate_limit_hits = self.rate_limit_hits + 1,
                AuditAction::SecurityViolation { .. } => {
                    self.security_violations = self.security_violations + 1;
                    self.last_violation = Some(current_timestamp);
                },
                _ => {},
            },
            AuditResult::Blocked => self.security_violations = self.security_violations + 1,
        }
    }
}

} // verus!
