//! API key handling: key records with expiry, per-key usage statistics,
//! key encryption and environment access rules.
use std::collections::HashMap;
use vstd::prelude::*;
use vstd::std_specs::hash::*;
use vstd::utf8::*;
use crate::bytes::{append_bytes, le_bytes_i64, le_bytes_u32, le_bytes_u64, slice_to_vec, spec_le_bytes_i64, spec_le_bytes_u32, spec_le_bytes_u64};
use crate::crypto::{keccak_hashv, spec_keccak_hashv};
use crate::error::BettingPlatformError;

verus! {

broadcast use group_hash_axioms;

/// Maximum number of API keys per provider.
pub const MAX_KEYS_PER_PROVIDER: usize = 10;
/// Days between key rotations.
pub const KEY_ROTATION_INTERVAL_DAYS: i64 = 30;
/// Daily request budget of one key.
pub const MAX_USAGE_PER_DAY: u64 = 100_000;
/// Seconds in a day.
pub const SECONDS_PER_DAY: i64 = 86400;
/// Lifetime of a key in seconds.
pub const KEY_LIFETIME_SECONDS: i64 = 2_592_000;

/// API provider types.
#[derive(Clone, Debug, PartialEq, Eq, Hash, PartialOrd, Ord)]
pub enum ApiProvider {
    Polymarket,
    PythNetwork,
    Chainlink,
    Custom(String),
}

/// Environment types.
#[derive(Clone, Copy, Debug, PartialEq, Eq, Hash, PartialOrd, Ord, Structural)]
pub enum Environment {
    Development,
    Staging,
    Production,
}

/// Borsh image of a provider; a custom name longer than `u32::MAX` bytes has
/// no image, and the empty sequence stands for it.
pub open spec fn spec_provider_bytes(p: ApiProvider) -> Seq<u8> {
    match p {
        ApiProvider::Polymarket => seq![0u8],
        ApiProvider::PythNetwork => seq![1u8],
        ApiProvider::Chainlink => seq![2u8],
        ApiProvider::Custom(s) => {
            let b = encode_utf8(s@);
            if b.len() <= u32::MAX {
                seq![3u8] + spec_le_bytes_u32(b.len() as u32) + b
            } else {
                Seq::empty()
            }
        },
    }
}

/// Borsh image of an environment.
pub open spec fn spec_environment_bytes(e: Environment) -> Seq<u8> {
    match e {
        Environment::Development => seq![0u8],
        Environment::Staging => seq![1u8],
        Environment::Production => seq![2u8],
    }
}

/// Serializes a provider in Borsh layout (empty when it has no image).
pub fn provider_bytes(p: &ApiProvider) -> (r: Vec<u8>)
    ensures
        r@ == spec_provider_bytes(*p),
{
    match p {
        ApiProvider::Polymarket => vec![0u8],
        ApiProvider::PythNetwork => vec![1u8],
        ApiProvider::Chainlink => vec![2u8],
        ApiProvider::Custom(s) => {
            let b = s.as_str().as_bytes();
            if b.len() <= 0xffff_ffffusize {
                let mut r: Vec<u8> = vec![3u8];
                let len_bytes = le_bytes_u32(b.len() as u32);
                append_bytes(&mut r, len_bytes.as_slice());
                append_bytes(&mut r, b);
                r
            } else {
                Vec::new()
            }
        },
    }
}

/// Serializes an environment in Borsh layout.
pub fn environment_bytes(e: &Environment) -> (r: Vec<u8>)
    ensures
        r@ == spec_environment_bytes(*e),
{
    match e {
        Environment::Development => vec![0u8],
        Environment::Staging => vec![1u8],
        Environment::Production => vec![2u8],
    }
}

/// The id of a key: the first 16 bytes of the Keccak digest of the provider,
/// the environment and the creation time.
pub open spec fn spec_key_id(p: ApiProvider, e: Environment, timestamp: i64) -> Seq<u8> {
    spec_keccak_hashv(
        seq![spec_provider_bytes(p), spec_environment_bytes(e), spec_le_bytes_i64(timestamp)],
    ).take(16)
}

/// Start of the day that holds `ts`, rounding toward zero as integer
/// division does.
pub open spec fn spec_day_start(ts: i64) -> int {
    if ts >= 0 {
        (ts as int / 86400) * 86400
    } else {
        -(((-(ts as int)) / 86400) * 86400)
    }
}

/// Computes the start of the day that holds `ts`.
pub fn day_start(ts: i64) -> (r: i64)
    ensures
        r == spec_day_start(ts),
{
    if ts >= 0 {
        (ts / 86400) * 86400
    } else {
        let neg: i128 = -(ts as i128);
        let d: i128 = (neg / 86400) * 86400;
        (-d) as i64
    }
}

/// Key usage statistics.
#[derive(Clone, Debug)]
pub struct KeyUsageStats {
    pub total_requests: u64,
    pub successful_requests: u64,
    pub failed_requests: u64,
    pub last_used: i64,
    /// Day start timestamp -> requests that day.
    pub daily_usage: HashMap<i64, u64>,
    /// Error code -> occurrences.
    pub error_counts: HashMap<u16, u32>,
}

/// The requests recorded for a day in a usage map (zero when absent).
pub open spec fn spec_usage_on(m: Map<i64, u64>, day: i64) -> u64 {
    if m.contains_key(day) { m[day] } else { 0 }
}

impl KeyUsageStats {
    /// Creates empty statistics.
    pub fn new() -> (r: Self)
        ensures
            r.total_requests == 0,
            r.successful_requests == 0,
            r.failed_requests == 0,
            r.last_used == 0,
            r.daily_usage@ == Map::<i64, u64>::empty(),
            r.error_counts@ == Map::<u16, u32>::empty(),
    {
        KeyUsageStats {
            total_requests: 0,
            successful_requests: 0,
            failed_requests: 0,
            last_used: 0,
            daily_usage: HashMap::new(),
            error_counts: HashMap::new(),
        }
    }

    /// Records one request made at `timestamp`.
    pub fn record_usage(&mut self, success: bool, error_code: Option<u16>, timestamp: i64)
        requires
            old(self).total_requests < u64::MAX,
            old(self).successful_requests < u64::MAX,
            old(self).failed_requests < u64::MAX,
            spec_usage_on(old(self).daily_usage@, spec_day_start(timestamp) as i64) < u64::MAX,
            (match error_code {
                Some(c) => old(self).error_counts@.contains_key(c) ==> old(self).error_counts@[c] < u32::MAX,
                None => true,
            }),
        ensures
            final(self).total_requests == old(self).total_requests + 1,
            final(self).last_used == timestamp,
            final(self).successful_requests == old(self).successful_requests + (if success { 1int } else { 0 }),
            final(self).failed_requests == old(self).failed_requests + (if success { 0int } else { 1 }),
            final(self).error_counts@ == (match error_code {
                Some(c) if !success => old(self).error_counts@.insert(
                    c,
                    (if old(self).error_counts@.contains_key(c) { old(self).error_counts@[c] + 1 } else { 1 }) as u32,
                ),
                _ => old(self).error_counts@,
            }),
            final(self).daily_usage@ == old(self).daily_usage@.insert(
                spec_day_start(timestamp) as i64,
                (spec_usage_on(old(self).daily_usage@, spec_day_start(timestamp) as i64) + 1) as u64,
            ),
    {
        self.total_requests = self.total_requests + 1;
        self.last_used = timestamp;
        if success {
            self.successful_requests = self.successful_requests + 1;
        } else {
            self.failed_requests = self.failed_requests + 1;
            if let Some(code) = error_code {
                let count: u32 = match self.error_counts.get(&code) {
                    Some(c) => *c,
                    None => 0,
                };
                self.error_counts.insert(code, count + 1);
            }
        }
        let day = day_start(timestamp);
        let used: u64 = match self.daily_usage.get(&day) {
            Some(u) => *u,
            None => 0,
        };
        self.daily_usage.insert(day, used + 1);
    }

    /// Requests recorded on the day that starts at `day_timestamp`.
    pub fn get_daily_usage(&self, day_timestamp: i64) -> (r: u64)
        ensures
            r == spec_usage_on(self.daily_usage@, day_timestamp),
    {
        match self.daily_usage.get(&day_timestamp) {
            Some(u) => *u,
            None => 0,
        }
    }

    /// Whether the daily budget of the day holding `current_timestamp` is spent.
    pub fn is_rate_limited(&self, current_timestamp: i64) -> (r: bool)
        ensures
            r == (spec_usage_on(self.daily_usage@, spec_day_start(current_timestamp) as i64)
                >= MAX_USAGE_PER_DAY),
    {
        let day = day_start(current_timestamp);
        self.get_daily_usage(day) >= MAX_USAGE_PER_DAY
    }
}

/// Encrypted API key storage.
#[derive(Clone)]
pub struct EncryptedApiKey {
    pub key_id: [u8; 16],
    pub provider: ApiProvider,
    pub environment: Environment,
    pub encrypted_key: Vec<u8>,
    pub encryption_nonce: [u8; 12],
    pub created_at: i64,
    pub last_rotated: i64,
    pub expires_at: i64,
    pub is_active: bool,
    pub usage_stats: KeyUsageStats,
}

impl EncryptedApiKey {
    /// Creates an active key that expires `KEY_ROTATION_INTERVAL_DAYS` after
    /// `timestamp`.
    pub fn new(
        provider: ApiProvider,
        environment: Environment,
        encrypted_key: Vec<u8>,
        nonce: [u8; 12],
        timestamp: i64,
    ) -> (r: Self)
        requires
            timestamp + KEY_LIFETIME_SECONDS <= i64::MAX,
        ensures
            r.key_id@ == spec_key_id(provider, environment, timestamp),
            r.provider == provider,
            r.environment == environment,
            r.encrypted_key@ == encrypted_key@,
            r.encryption_nonce@ == nonce@,
            r.created_at == timestamp,
            r.last_rotated == timestamp,
            r.expires_at == timestamp + KEY_LIFETIME_SECONDS,
            r.is_active,
            r.usage_stats.total_requests == 0,
            r.usage_stats.successful_requests == 0,
            r.usage_stats.failed_requests == 0,
            r.usage_stats.daily_usage@ == Map::<i64, u64>::empty(),
            r.usage_stats.error_counts@ == Map::<u16, u32>::empty(),
    {
        let key_id = Self::generate_key_id(&provider, &environment, timestamp);
        let expires_at = timestamp + KEY_ROTATION_INTERVAL_DAYS * SECONDS_PER_DAY;
        EncryptedApiKey {
            key_id,
            provider,
            environment,
            encrypted_key,
            encryption_nonce: nonce,
            created_at: timestamp,
            last_rotated: timestamp,
            expires_at,
            is_active: true,
            usage_stats: KeyUsageStats::new(),
        }
    }

    /// Derives the key id from the provider, environment and timestamp.
    fn generate_key_id(provider: &ApiProvider, environment: &Environment, timestamp: i64) -> (r: [u8; 16])
        ensures
            r@ == spec_key_id(*provider, *environment, timestamp),
    {
        let mut parts: Vec<Vec<u8>> = Vec::new();
        parts.push(provider_bytes(provider));
        parts.push(environment_bytes(environment));
        parts.push(le_bytes_i64(timestamp));
        proof {
            assert(parts@.map_values(|p: Vec<u8>| p@) =~= seq![
                spec_provider_bytes(*provider),
                spec_environment_bytes(*environment),
                spec_le_bytes_i64(timestamp),
            ]);
        }
        let hash = keccak_hashv(&parts);
        let mut id = [0u8; 16];
        let mut i: usize = 0;
        while i < 16
            invariant
                i <= 16,
                hash@.len() == 32,
                id@.len() == 16,
                forall|j: int| 0 <= j < i ==> id@[j] == hash@[j],
            decreases 16 - i,
        {
            id[i] = hash[i];
            i = i + 1;
        }
        assert(id@ =~= hash@.take(16));
        id
    }

    /// Whether the key has reached its expiry time.
    pub fn needs_rotation(&self, current_timestamp: i64) -> (r: bool)
        ensures
            r == (current_timestamp >= self.expires_at),
    {
        current_timestamp >= self.expires_at
    }

    /// Whether the key is active and not yet expired.
    pub fn is_valid(&self, current_timestamp: i64) -> (r: bool)
        ensures
            r == (self.is_active && current_timestamp < self.expires_at),
    {
        self.is_active && current_timestamp < self.expires_at
    }
}

/// The key stream that protects API keys: the Keccak digest of the program
/// id, a fixed label and the nonce.
pub open spec fn spec_key_material(program_id: Seq<u8>, nonce: Seq<u8>) -> Seq<u8> {
    spec_keccak_hashv(seq![program_id, spec_encryption_label(), nonce])
}

/// Bytes of the label `API_KEY_ENCRYPTION`.
pub open spec fn spec_encryption_label() -> Seq<u8> {
    seq![65u8, 80, 73, 95, 75, 69, 89, 95, 69, 78, 67, 82, 89, 80, 84, 73, 79, 78]
}

/// XOR of `data` with the key stream `k` repeated every 32 bytes.
pub open spec fn spec_xor_stream(data: Seq<u8>, k: Seq<u8>) -> Seq<u8> {
    Seq::new(data.len(), |i: int| data[i] ^ k[i % 32])
}

/// Key encryption utilities.
pub struct KeyEncryption;

impl KeyEncryption {
    fn encryption_label() -> (r: Vec<u8>)
        ensures
            r@ == spec_encryption_label(),
    {
        let r = vec![65u8, 80, 73, 95, 75, 69, 89, 95, 69, 78, 67, 82, 89, 80, 84, 73, 79, 78];
        assert(r@ =~= spec_encryption_label());
        r
    }

    fn key_material(program_id: &[u8; 32], nonce: &[u8; 12]) -> (r: [u8; 32])
        ensures
            r@ == spec_key_material(program_id@, nonce@),
    {
        let mut parts: Vec<Vec<u8>> = Vec::new();
        parts.push(slice_to_vec(program_id.as_slice()));
        parts.push(Self::encryption_label());
        parts.push(slice_to_vec(nonce.as_slice()));
        assert(parts@.map_values(|p: Vec<u8>| p@) =~= seq![program_id@, spec_encryption_label(), nonce@]);
        keccak_hashv(&parts)
    }

    fn xor_stream(data: &[u8], k: &[u8; 32]) -> (r: Vec<u8>)
        ensures
            r@ == spec_xor_stream(data@, k@),
    {
        let mut out: Vec<u8> = Vec::new();
        let mut i: usize = 0;
        while i < data.len()
            invariant
                i <= data@.len(),
                k@.len() == 32,
                out@ == spec_xor_stream(data@.subrange(0, i as int), k@),
            decreases data@.len() - i,
        {
            out.push(data[i] ^ k[i % 32]);
            i = i + 1;
            assert(out@ =~= spec_xor_stream(data@.subrange(0, i as int), k@));
        }
        assert(data@.subrange(0, data@.len() as int) =~= data@);
        out
    }

    /// Encrypts a key's text with the stream derived from the program id and
    /// nonce.
    pub fn encrypt_key(plaintext: &str, program_id: &[u8; 32], nonce: &[u8; 12]) -> (r: Result<Vec<u8>, BettingPlatformError>)
        ensures
            r matches Ok(c) && c@ == spec_xor_stream(
                encode_utf8(plaintext@),
                spec_key_material(program_id@, nonce@),
            ),
    {
        let k = Self::key_material(program_id, nonce);
        Ok(Self::xor_stream(plaintext.as_bytes(), &k))
    }

    /// Decrypts a ciphertext; fails when the result is not UTF-8 text.
    pub fn decrypt_key(ciphertext: &[u8], program_id: &[u8; 32], nonce: &[u8; 12]) -> (r: Result<String, BettingPlatformError>)
        ensures
            ({
                let plain = spec_xor_stream(ciphertext@, spec_key_material(program_id@, nonce@));
                match r {
                    Ok(s) => valid_utf8(plain) && s@ == decode_utf8(plain),
                    Err(e) => !valid_utf8(plain) && e == BettingPlatformError::InvalidInput,
                }
            }),
    {
        let k = Self::key_material(program_id, nonce);
        let plain = Self::xor_stream(ciphertext, &k);
        match string_from_utf8(plain) {
            Some(s) => Ok(s),
            None => Err(BettingPlatformError::InvalidInput),
        }
    }

    /// Builds a nonce from the timestamp's 8 bytes and the low 4 bytes of the
    /// counter, both little-endian.
    pub fn generate_nonce(timestamp: i64, counter: u64) -> (r: [u8; 12])
        ensures
            r@ == spec_le_bytes_i64(timestamp) + spec_le_bytes_u64(counter).take(4),
    {
        let t = le_bytes_i64(timestamp);
        let c = le_bytes_u64(counter);
        let r: [u8; 12] = [t[0], t[1], t[2], t[3], t[4], t[5], t[6], t[7], c[0], c[1], c[2], c[3]];
        assert(r@ =~= spec_le_bytes_i64(timestamp) + spec_le_bytes_u64(counter).take(4));
        r
    }
}

/// Calls `String::from_utf8`: `Some` exactly when the bytes are valid UTF-8,
/// holding the text they encode.
#[verifier::external_body]
fn string_from_utf8(bytes: Vec<u8>) -> (r: Option<String>)
    ensures
        r is Some <==> valid_utf8(bytes@),
        r matches Some(s) ==> s@ == decode_utf8(bytes@),
{
    String::from_utf8(bytes).ok()
}

/// XOR with the same stream twice gives the data back.
pub proof fn lemma_xor_stream_involution(data: Seq<u8>, k: Seq<u8>)
    ensures
        spec_xor_stream(spec_xor_stream(data, k), k) == data,
{
    assert forall|i: int| 0 <= i < data.len() implies
        #[trigger] spec_xor_stream(spec_xor_stream(data, k), k)[i] == data[i] by {
        let b = data[i];
        let x = k[i % 32];
        assert((b ^ x) ^ x == b) by (bit_vector);
    }
    assert(spec_xor_stream(spec_xor_stream(data, k), k) =~= data);
}

/// Decrypting what `encrypt_key` produced, with the same program id and
/// nonce, gives back the original text.
pub proof fn lemma_encrypt_decrypt_round_trip(plaintext: Seq<char>, program_id: Seq<u8>, nonce: Seq<u8>)
    ensures
        ({
            let k = spec_key_material(program_id, nonce);
            let plain = spec_xor_stream(spec_xor_stream(encode_utf8(plaintext), k), k);
            valid_utf8(plain) && decode_utf8(plain) == plaintext
        }),
{
    let k = spec_key_material(program_id, nonce);
    lemma_xor_stream_involution(encode_utf8(plaintext), k);
    encode_utf8_valid_utf8(plaintext);
    encode_utf8_decode_utf8(plaintext);
}

/// API key access control.
pub struct KeyAccessControl;

impl KeyAccessControl {
    /// A key of `environment` may be used from `caller_environment` when the
    /// two match, or when the key is a development key.
    pub fn verify_environment_access(environment: &Environment, caller_environment: &Environment) -> (r: Result<(), BettingPlatformError>)
        ensures
            r is Ok <==> (*environment == Environment::Development || *environment == *caller_environment),
            r matches Err(e) ==> e == BettingPlatformError::Unauthorized,
    {
        match (environment, caller_environment) {
            (Environment::Production, Environment::Production) => Ok(()),
            (Environment::Staging, Environment::Staging) => Ok(()),
            (Environment::Development, _) => Ok(()),
            _ => Err(BettingPlatformError::Unauthorized),
        }
    }
}

/// A provider as a value: its variant and, for a custom one, its name.
pub open spec fn spec_provider_model(p: ApiProvider) -> (int, Seq<char>) {
    match p {
        ApiProvider::Polymarket => (0, Seq::empty()),
        ApiProvider::PythNetwork => (1, Seq::empty()),
        ApiProvider::Chainlink => (2, Seq::empty()),
        ApiProvider::Custom(s) => (3, s@),
    }
}

/// Whether two providers are the same.
pub fn provider_eq(a: &ApiProvider, b: &ApiProvider) -> (r: bool)
    ensures
        r == (spec_provider_model(*a) == spec_provider_model(*b)),
{
    match (a, b) {
        (ApiProvider::Polymarket, ApiProvider::Polymarket) => true,
        (ApiProvider::PythNetwork, ApiProvider::PythNetwork) => true,
        (ApiProvider::Chainlink, ApiProvider::Chainlink) => true,
        (ApiProvider::Custom(x), ApiProvider::Custom(y)) => *x == *y,
        _ => false,
    }
}

/// Copies a provider.
pub fn clone_provider(p: &ApiProvider) -> (r: ApiProvider)
    ensures
        spec_provider_model(r) == spec_provider_model(*p),
{
    match p {
        ApiProvider::Polymarket => ApiProvider::Polymarket,
        ApiProvider::PythNetwork => ApiProvider::PythNetwork,
        ApiProvider::Chainlink => ApiProvider::Chainlink,
        ApiProvider::Custom(s) => ApiProvider::Custom(s.clone()),
    }
}

/// Whether a key with id `id` is stored.
pub open spec fn key_stored(keys: Seq<EncryptedApiKey>, id: Seq<u8>) -> bool {
    exists|i: int| 0 <= i < keys.len() && keys[i].key_id@ == id
}

/// Stored keys after `k` is stored: it replaces the key with its id, or is
/// appended.
pub open spec fn keys_after_store(old_k: Seq<EncryptedApiKey>, new_k: Seq<EncryptedApiKey>, k: EncryptedApiKey) -> bool {
    if key_stored(old_k, k.key_id@) {
        forall|i: int| 0 <= i < old_k.len() && old_k[i].key_id@ == k.key_id@ ==> new_k == old_k.update(i, k)
    } else {
        new_k == old_k.push(k)
    }
}

/// Active-key table entry for a provider and environment.
pub open spec fn active_listed(a: Seq<(ApiProvider, Environment, [u8; 16])>, p: ApiProvider, e: Environment) -> bool {
    exists|i: int| 0 <= i < a.len() && spec_provider_model(a[i].0) == spec_provider_model(p) && a[i].1 == e
}

/// Active-key table after (provider, environment) is pointed at `id`.
pub open spec fn active_after_set(
    old_a: Seq<(ApiProvider, Environment, [u8; 16])>,
    new_a: Seq<(ApiProvider, Environment, [u8; 16])>,
    p: ApiProvider,
    e: Environment,
    id: [u8; 16],
) -> bool {
    if active_listed(old_a, p, e) {
        &&& new_a.len() == old_a.len()
        &&& forall|i: int| 0 <= i < old_a.len() ==> {
            if spec_provider_model(old_a[i].0) == spec_provider_model(p) && old_a[i].1 == e {
                new_a[i].0 == old_a[i].0 && new_a[i].1 == e && new_a[i].2@ == id@
            } else {
                new_a[i] == old_a[i]
            }
        }
    } else {
        &&& new_a.len() == old_a.len() + 1
        &&& new_a.subrange(0, old_a.len() as int) == old_a
        &&& spec_provider_model(new_a.last().0) == spec_provider_model(p)
        &&& new_a.last().1 == e
        &&& new_a.last().2@ == id@
    }
}

/// Whether the schedule holds an entry for `id`.
pub open spec fn scheduled(s: Seq<([u8; 16], i64)>, id: Seq<u8>) -> bool {
    exists|i: int| 0 <= i < s.len() && s[i].0@ == id
}

/// Schedule after `id` is set to rotate at `at`.
pub open spec fn schedule_after_set(old_s: Seq<([u8; 16], i64)>, new_s: Seq<([u8; 16], i64)>, id: [u8; 16], at: i64) -> bool {
    if scheduled(old_s, id@) {
        forall|i: int| 0 <= i < old_s.len() && old_s[i].0@ == id@ ==> new_s == old_s.update(i, (old_s[i].0, at))
    } else {
        new_s == old_s.push((id, at))
    }
}

/// Number of stored keys of a provider.
pub open spec fn provider_key_count(keys: Seq<EncryptedApiKey>, p: ApiProvider) -> nat {
    keys.filter(|k: EncryptedApiKey| spec_provider_model(k.provider) == spec_provider_model(p)).len()
}

/// API key manager state. Each table is keyed: key ids are unique among the
/// stored keys and in the schedule, and (provider, environment) pairs are
/// unique among the active keys.
pub struct ApiKeyManager {
    pub authority: [u8; 32],
    pub keys: Vec<EncryptedApiKey>,
    /// (provider, environment, id of its active key).
    pub active_keys: Vec<(ApiProvider, Environment, [u8; 16])>,
    /// (key id, time of its next rotation).
    pub rotation_schedule: Vec<([u8; 16], i64)>,
    pub total_keys: u32,
    pub last_rotation_check: i64,
}

impl ApiKeyManager {
    pub const SIZE: usize = 32768;

    /// The tables hold at most one entry per key.
    pub open spec fn wf(&self) -> bool {
        &&& forall|i: int, j: int| 0 <= i < j < self.keys@.len() ==> self.keys@[i].key_id@ != self.keys@[j].key_id@
        &&& forall|i: int, j: int| 0 <= i < j < self.rotation_schedule@.len() ==> self.rotation_schedule@[i].0@
            != self.rotation_schedule@[j].0@
        &&& forall|i: int, j: int| 0 <= i < j < self.active_keys@.len() ==> !(spec_provider_model(
            self.active_keys@[i].0,
        ) == spec_provider_model(self.active_keys@[j].0) && self.active_keys@[i].1 == self.active_keys@[j].1)
    }

    /// A manager with no keys.
    pub fn new(authority: [u8; 32]) -> (r: Self)
        ensures
            r.wf(),
            r.authority == authority,
            r.keys@.len() == 0,
            r.active_keys@.len() == 0,
            r.rotation_schedule@.len() == 0,
            r.total_keys == 0,
            r.last_rotation_check == 0,
    {
        ApiKeyManager {
            authority,
            keys: Vec::new(),
            active_keys: Vec::new(),
            rotation_schedule: Vec::new(),
            total_keys: 0,
            last_rotation_check: 0,
        }
    }

    fn find_key(&self, id: &[u8; 16]) -> (r: Option<usize>)
        ensures
            r is None <==> !key_stored(self.keys@, id@),
            r matches Some(i) ==> i < self.keys@.len() && self.keys@[i as int].key_id@ == id@,
    {
        let mut i: usize = 0;
        while i < self.keys.len()
            invariant
                i <= self.keys@.len(),
                forall|j: int| 0 <= j < i ==> self.keys@[j].key_id@ != id@,
            decreases self.keys@.len() - i,
        {
            if crate::bytes::bytes_eq(&self.keys[i].key_id, id) {
                return Some(i);
            }
            i = i + 1;
        }
        None
    }

    fn count_provider_keys(&self, p: &ApiProvider) -> (r: usize)
        ensures
            r == provider_key_count(self.keys@, *p),
    {
        let ghost pred = |k: EncryptedApiKey| spec_provider_model(k.provider) == spec_provider_model(*p);
        let mut count: usize = 0;
        let mut i: usize = 0;
        while i < self.keys.len()
            invariant
                i <= self.keys@.len(),
                pred == (|k: EncryptedApiKey| spec_provider_model(k.provider) == spec_provider_model(*p)),
                count == self.keys@.subrange(0, i as int).filter(pred).len(),
                count <= i,
            decreases self.keys@.len() - i,
        {
            proof {
                reveal_with_fuel(Seq::filter, 1);
                assert(self.keys@.subrange(0, i + 1).drop_last() =~= self.keys@.subrange(0, i as int));
            }
            if provider_eq(&self.keys[i].provider, p) {
                count = count + 1;
            }
            i = i + 1;
        }
        assert(self.keys@.subrange(0, i as int) =~= self.keys@);
        count
    }

    /// Stores `key`, replacing a stored key with the same id.
    fn store_key(&mut self, key: EncryptedApiKey)
        requires
            old(self).wf(),
        ensures
            final(self).wf(),
            keys_after_store(old(self).keys@, final(self).keys@, key),
            final(self).active_keys@ == old(self).active_keys@,
            final(self).rotation_schedule@ == old(self).rotation_schedule@,
            final(self).authority == old(self).authority,
            final(self).total_keys == old(self).total_keys,
            final(self).last_rotation_check == old(self).last_rotation_check,
    {
        match self.find_key(&key.key_id) {
            Some(i) => {
                let ghost k = key;
                let _old = self.keys.remove(i);
                self.keys.insert(i, key);
                assert(self.keys@ =~= old(self).keys@.update(i as int, k));
                assert forall|j: int| 0 <= j < old(self).keys@.len() && old(self).keys@[j].key_id@ == k.key_id@
                    implies self.keys@ == old(self).keys@.update(j, k) by {
                    if j != i as int {
                        assert(old(self).keys@[j].key_id@ == old(self).keys@[i as int].key_id@);
                    }
                }
            },
            None => {
                self.keys.push(key);
            },
        }
    }

    /// Points (provider, environment) at key `id`.
    fn set_active(&mut self, p: &ApiProvider, e: Environment, id: [u8; 16])
        requires
            old(self).wf(),
        ensures
            final(self).wf(),
            active_after_set(old(self).active_keys@, final(self).active_keys@, *p, e, id),
            final(self).keys@ == old(self).keys@,
            final(self).rotation_schedule@ == old(self).rotation_schedule@,
            final(self).authority == old(self).authority,
            final(self).total_keys == old(self).total_keys,
            final(self).last_rotation_check == old(self).last_rotation_check,
    {
        let mut i: usize = 0;
        while i < self.active_keys.len()
            invariant
                i <= self.active_keys@.len(),
                self.active_keys@ == old(self).active_keys@,
                self.keys@ == old(self).keys@,
                self.rotation_schedule@ == old(self).rotation_schedule@,
                self.authority == old(self).authority,
                self.total_keys == old(self).total_keys,
                self.last_rotation_check == old(self).last_rotation_check,
                self.wf(),
                forall|j: int| 0 <= j < i ==> !(spec_provider_model(self.active_keys@[j].0) == spec_provider_model(*p)
                    && self.active_keys@[j].1 == e),
            decreases self.active_keys@.len() - i,
        {
            if provider_eq(&self.active_keys[i].0, p) && self.active_keys[i].1 == e {
                let ghost a0 = self.active_keys@;
                let (prov, env, _old_id) = self.active_keys.remove(i);
                self.active_keys.insert(i, (prov, env, id));
                assert(self.active_keys@ =~= a0.update(i as int, (a0[i as int].0, a0[i as int].1, id)));
                assert(active_listed(a0, *p, e));
                assert forall|j: int| 0 <= j < a0.len() && j != i as int implies !(spec_provider_model(a0[j].0)
                    == spec_provider_model(*p) && a0[j].1 == e) by {
                    if j < i as int {
                    } else {
                        assert(!(spec_provider_model(a0[i as int].0) == spec_provider_model(a0[j].0) && a0[i as int].1 == a0[j].1));
                    }
                }
                return;
            }
            i = i + 1;
        }
        let ghost a0 = self.active_keys@;
        self.active_keys.push((clone_provider(p), e, id));
        assert(self.active_keys@.subrange(0, a0.len() as int) =~= a0);
    }

    /// Sets the rotation time of key `id`.
    fn schedule_rotation(&mut self, id: [u8; 16], at: i64)
        requires
            old(self).wf(),
        ensures
            final(self).wf(),
            schedule_after_set(old(self).rotation_schedule@, final(self).rotation_schedule@, id, at),
            final(self).keys@ == old(self).keys@,
            final(self).active_keys@ == old(self).active_keys@,
            final(self).authority == old(self).authority,
            final(self).total_keys == old(self).total_keys,
            final(self).last_rotation_check == old(self).last_rotation_check,
    {
        let mut i: usize = 0;
        while i < self.rotation_schedule.len()
            invariant
                i <= self.rotation_schedule@.len(),
                self.rotation_schedule@ == old(self).rotation_schedule@,
                self.active_keys@ == old(self).active_keys@,
                self.keys@ == old(self).keys@,
                self.authority == old(self).authority,
                self.total_keys == old(self).total_keys,
                self.last_rotation_check == old(self).last_rotation_check,
                self.wf(),
                forall|j: int| 0 <= j < i ==> self.rotation_schedule@[j].0@ != id@,
            decreases self.rotation_schedule@.len() - i,
        {
            if crate::bytes::bytes_eq(&self.rotation_schedule[i].0, &id) {
                let ghost s0 = self.rotation_schedule@;
                let (kid, _t) = self.rotation_schedule.remove(i);
                self.rotation_schedule.insert(i, (kid, at));
                assert(self.rotation_schedule@ =~= s0.update(i as int, (s0[i as int].0, at)));
                assert forall|j: int| 0 <= j < s0.len() && s0[j].0@ == id@
                    implies self.rotation_schedule@ == s0.update(j, (s0[j].0, at)) by {
                    if j != i as int {
                        assert(s0[j].0@ == s0[i as int].0@);
                    }
                }
                return;
            }
            i = i + 1;
        }
        self.rotation_schedule.push((id, at));
    }
}

/// Whether `k` is a key just made by rotation: provider and environment of
/// the key it replaces, the new ciphertext and nonce, created at `now`.
pub open spec fn fresh_rotated_key(
    k: EncryptedApiKey,
    from: EncryptedApiKey,
    data: Seq<u8>,
    nonce: Seq<u8>,
    now: i64,
) -> bool {
    &&& k.key_id@ == spec_key_id(from.provider, from.environment, now)
    &&& spec_provider_model(k.provider) == spec_provider_model(from.provider)
    &&& k.environment == from.environment
    &&& k.encrypted_key@ == data
    &&& k.encryption_nonce@ == nonce
    &&& k.created_at == now
    &&& k.last_rotated == now
    &&& k.expires_at == now + KEY_LIFETIME_SECONDS
    &&& k.is_active
    &&& k.usage_stats.total_requests == 0
    &&& k.usage_stats.successful_requests == 0
    &&& k.usage_stats.failed_requests == 0
    &&& k.usage_stats.daily_usage@ == Map::<i64, u64>::empty()
    &&& k.usage_stats.error_counts@ == Map::<u16, u32>::empty()
}

/// Whether the stored key with id `id` is active.
pub open spec fn key_active(keys: Seq<EncryptedApiKey>, id: Seq<u8>) -> bool {
    exists|j: int| 0 <= j < keys.len() && keys[j].key_id@ == id && keys[j].is_active
}

/// Whether an active-table entry is for provider `p` and environment `e`.
pub open spec fn entry_for(a: (ApiProvider, Environment, [u8; 16]), p: ApiProvider, e: Environment) -> bool {
    spec_provider_model(a.0) == spec_provider_model(p) && a.1 == e
}

impl ApiKeyManager {
    /// Stores a new key and makes it the active key of its provider and
    /// environment; refused when the provider already has
    /// `MAX_KEYS_PER_PROVIDER` keys.
    pub fn add_key(&mut self, key: EncryptedApiKey, current_timestamp: i64) -> (r: Result<(), BettingPlatformError>)
        requires
            old(self).wf(),
            old(self).total_keys < u32::MAX,
            current_timestamp + KEY_LIFETIME_SECONDS <= i64::MAX,
        ensures
            final(self).wf(),
            final(self).authority == old(self).authority,
            final(self).last_rotation_check == old(self).last_rotation_check,
            r is Err <==> provider_key_count(old(self).keys@, key.provider) >= MAX_KEYS_PER_PROVIDER,
            r is Err ==> r == Err::<(), BettingPlatformError>(BettingPlatformError::AccountDataTooSmall)
                && final(self).keys@ == old(self).keys@
                && final(self).active_keys@ == old(self).active_keys@
                && final(self).rotation_schedule@ == old(self).rotation_schedule@
                && final(self).total_keys == old(self).total_keys,
            r is Ok ==> keys_after_store(old(self).keys@, final(self).keys@, key)
                && active_after_set(old(self).active_keys@, final(self).active_keys@, key.provider, key.environment, key.key_id)
                && schedule_after_set(old(self).rotation_schedule@, final(self).rotation_schedule@, key.key_id,
                    (current_timestamp + KEY_LIFETIME_SECONDS) as i64)
                && final(self).total_keys == old(self).total_keys + 1,
            r is Ok ==> exists|i: int, j: int| {
                &&& 0 <= i < final(self).active_keys@.len()
                &&& entry_for(final(self).active_keys@[i], key.provider, key.environment)
                &&& final(self).active_keys@[i].2@ == key.key_id@
                &&& 0 <= j < final(self).keys@.len()
                &&& final(self).keys@[j] == key
            },
    {
        let count = self.count_provider_keys(&key.provider);
        if count >= MAX_KEYS_PER_PROVIDER {
            return Err(BettingPlatformError::AccountDataTooSmall);
        }
        let key_id = key.key_id;
        let provider = clone_provider(&key.provider);
        let environment = key.environment;
        let ghost k = key;
        self.store_key(key);
        self.set_active(&provider, environment, key_id);
        self.schedule_rotation(key_id, current_timestamp + KEY_ROTATION_INTERVAL_DAYS * SECONDS_PER_DAY);
        self.total_keys = self.total_keys + 1;
        proof {
            assert(active_listed(old(self).active_keys@, provider, environment) == active_listed(old(self).active_keys@, k.provider, environment));
            let ok = old(self).keys@;
            let nk = self.keys@;
            if key_stored(ok, k.key_id@) {
                let j = choose|j: int| 0 <= j < ok.len() && ok[j].key_id@ == k.key_id@;
                assert(keys_after_store(ok, nk, k));
                assert(nk == ok.update(j, k));
                assert(nk[j] == k);
            } else {
                assert(nk[ok.len() as int] == k);
            }
            let oa = old(self).active_keys@;
            let na = self.active_keys@;
            if active_listed(oa, k.provider, environment) {
                let i = choose|i: int| 0 <= i < oa.len() && spec_provider_model(oa[i].0) == spec_provider_model(k.provider) && oa[i].1 == environment;
                assert(entry_for(na[i], k.provider, k.environment));
            } else {
                assert(entry_for(na[oa.len() as int], k.provider, k.environment));
            }
        }
        Ok(())
    }

    /// Deactivates key `key_id` and stores a fresh key for the same provider
    /// and environment, made active and scheduled for rotation.
    pub fn rotate_key(
        &mut self,
        key_id: [u8; 16],
        new_encrypted_key: Vec<u8>,
        new_nonce: [u8; 12],
        current_timestamp: i64,
    ) -> (r: Result<(), BettingPlatformError>)
        requires
            old(self).wf(),
            current_timestamp + KEY_LIFETIME_SECONDS <= i64::MAX,
        ensures
            final(self).wf(),
            final(self).authority == old(self).authority,
            final(self).total_keys == old(self).total_keys,
            final(self).last_rotation_check == old(self).last_rotation_check,
            r is Err <==> !key_stored(old(self).keys@, key_id@),
            r is Err ==> r == Err::<(), BettingPlatformError>(BettingPlatformError::InvalidInput)
                && final(self).keys@ == old(self).keys@
                && final(self).active_keys@ == old(self).active_keys@
                && final(self).rotation_schedule@ == old(self).rotation_schedule@,
            r is Ok ==> exists|i: int, nk: EncryptedApiKey| {
                &&& 0 <= i < old(self).keys@.len()
                &&& old(self).keys@[i].key_id@ == key_id@
                &&& fresh_rotated_key(nk, old(self).keys@[i], new_encrypted_key@, new_nonce@, current_timestamp)
                &&& keys_after_store(
                    old(self).keys@.update(i, EncryptedApiKey { is_active: false, ..old(self).keys@[i] }),
                    final(self).keys@, nk)
                &&& active_after_set(old(self).active_keys@, final(self).active_keys@, nk.provider, nk.environment, nk.key_id)
                &&& schedule_after_set(old(self).rotation_schedule@, final(self).rotation_schedule@, nk.key_id,
                    (current_timestamp + KEY_LIFETIME_SECONDS) as i64)
            },
    {
        let i = match self.find_key(&key_id) {
            Some(i) => i,
            None => return Err(BettingPlatformError::InvalidInput),
        };
        let ghost k0 = self.keys@[i as int];
        let mut old_key = self.keys.remove(i);
        old_key.is_active = false;
        let provider = clone_provider(&old_key.provider);
        let environment = old_key.environment;
        self.keys.insert(i, old_key);
        let ghost mid = self.keys@;
        assert(mid =~= old(self).keys@.update(i as int, EncryptedApiKey { is_active: false, ..k0 }));
        assert(self.wf()) by {
            assert forall|a: int, b: int| 0 <= a < b < mid.len() implies mid[a].key_id@ != mid[b].key_id@ by {
                assert(old(self).keys@[a].key_id@ != old(self).keys@[b].key_id@);
            }
        }
        let new_key = EncryptedApiKey::new(provider, environment, new_encrypted_key, new_nonce, current_timestamp);
        let new_id = new_key.key_id;
        let p2 = clone_provider(&new_key.provider);
        let ghost nk = new_key;
        self.set_active(&p2, environment, new_id);
        self.store_key(new_key);
        self.schedule_rotation(new_id, current_timestamp + KEY_ROTATION_INTERVAL_DAYS * SECONDS_PER_DAY);
        proof {
            assert(active_listed(old(self).active_keys@, p2, environment) == active_listed(old(self).active_keys@, nk.provider, environment));
            assert(fresh_rotated_key(nk, old(self).keys@[i as int], new_encrypted_key@, new_nonce@, current_timestamp));
        }
        Ok(())
    }

    /// The active key of a provider and environment, when its entry points at
    /// a stored key that is still active.
    pub fn get_active_key(&self, provider: &ApiProvider, environment: &Environment) -> (r: Option<&EncryptedApiKey>)
        requires
            self.wf(),
        ensures
            r matches Some(k) ==> exists|i: int, j: int| {
                &&& 0 <= i < self.active_keys@.len()
                &&& entry_for(self.active_keys@[i], *provider, *environment)
                &&& 0 <= j < self.keys@.len()
                &&& self.keys@[j].key_id@ == self.active_keys@[i].2@
                &&& self.keys@[j].is_active
                &&& *k == self.keys@[j]
            },
            r is None ==> forall|i: int, j: int|
                0 <= i < self.active_keys@.len() && entry_for(self.active_keys@[i], *provider, *environment)
                && 0 <= j < self.keys@.len() && self.keys@[j].key_id@ == self.active_keys@[i].2@
                ==> !self.keys@[j].is_active,
    {
        let mut i: usize = 0;
        while i < self.active_keys.len()
            invariant
                i <= self.active_keys@.len(),
                self.wf(),
                forall|a: int| 0 <= a < i ==> !entry_for(self.active_keys@[a], *provider, *environment),
            decreases self.active_keys@.len() - i,
        {
            if provider_eq(&self.active_keys[i].0, provider) && self.active_keys[i].1 == *environment {
                let id = self.active_keys[i].2;
                match self.find_key(&id) {
                    Some(j) => {
                        if self.keys[j].is_active {
                            return Some(&self.keys[j]);
                        }
                        proof {
                            assert forall|a: int, b: int|
                                0 <= a < self.active_keys@.len() && entry_for(self.active_keys@[a], *provider, *environment)
                                && 0 <= b < self.keys@.len() && self.keys@[b].key_id@ == self.active_keys@[a].2@
                                implies !self.keys@[b].is_active by {
                                if a != i as int {
                                    if a < i as int {
                                    } else {
                                        assert(!(spec_provider_model(self.active_keys@[i as int].0)
                                            == spec_provider_model(self.active_keys@[a].0)
                                            && self.active_keys@[i as int].1 == self.active_keys@[a].1));
                                    }
                                }
                                if b != j as int {
                                    assert(self.keys@[b].key_id@ != self.keys@[j as int].key_id@ || a != i as int);
                                }
                            }
                        }
                        return None;
                    },
                    None => {
                        proof {
                            assert forall|a: int, b: int|
                                0 <= a < self.active_keys@.len() && entry_for(self.active_keys@[a], *provider, *environment)
                                && 0 <= b < self.keys@.len() && self.keys@[b].key_id@ == self.active_keys@[a].2@
                                implies !self.keys@[b].is_active by {
                                if a != i as int {
                                    if a > i as int {
                                        assert(!(spec_provider_model(self.active_keys@[i as int].0)
                                            == spec_provider_model(self.active_keys@[a].0)
                                            && self.active_keys@[i as int].1 == self.active_keys@[a].1));
                                    }
                                }
                            }
                        }
                        return None;
                    },
                }
            }
            i = i + 1;
        }
        None
    }

    /// Usage statistics of key `key_id`, when it is stored.
    pub fn get_usage_stats(&self, key_id: &[u8; 16]) -> (r: Option<&KeyUsageStats>)
        ensures
            r is None <==> !key_stored(self.keys@, key_id@),
            r matches Some(st) ==> exists|j: int|
                0 <= j < self.keys@.len() && self.keys@[j].key_id@ == key_id@ && *st == self.keys@[j].usage_stats,
    {
        match self.find_key(key_id) {
            Some(j) => Some(&self.keys[j].usage_stats),
            None => None,
        }
    }
}

impl KeyAccessControl {
    /// Only the manager's authority may use a key, and only a stored one.
    pub fn verify_access(manager: &ApiKeyManager, caller: &[u8; 32], key_id: &[u8; 16]) -> (r: Result<(), BettingPlatformError>)
        ensures
            caller@ != manager.authority@ ==> r == Err::<(), BettingPlatformError>(BettingPlatformError::Unauthorized),
            caller@ == manager.authority@ && !key_stored(manager.keys@, key_id@) ==> r == Err::<(), BettingPlatformError>(
                BettingPlatformError::InvalidInput),
            caller@ == manager.authority@ && key_stored(manager.keys@, key_id@) ==> r is Ok,
    {
        if !crate::bytes::bytes_eq(caller, &manager.authority) {
            return Err(BettingPlatformError::Unauthorized);
        }
        match manager.find_key(key_id) {
            Some(_) => Ok(()),
            None => Err(BettingPlatformError::InvalidInput),
        }
    }
}

/// Whether `KeyUsageStats::record_usage` can count one more request.
pub open spec fn usage_recordable(st: KeyUsageStats, success: bool, error_code: Option<u16>, timestamp: i64) -> bool {
    &&& st.total_requests < u64::MAX
    &&& st.successful_requests < u64::MAX
    &&& st.failed_requests < u64::MAX
    &&& spec_usage_on(st.daily_usage@, spec_day_start(timestamp) as i64) < u64::MAX
    &&& (match error_code {
        Some(c) => st.error_counts@.contains_key(c) ==> st.error_counts@[c] < u32::MAX,
        None => true,
    })
}

/// The statistics after one request is recorded.
pub open spec fn usage_recorded(o: KeyUsageStats, n: KeyUsageStats, success: bool, error_code: Option<u16>, timestamp: i64) -> bool {
    &&& n.total_requests == o.total_requests + 1
    &&& n.last_used == timestamp
    &&& n.successful_requests == o.successful_requests + (if success { 1int } else { 0 })
    &&& n.failed_requests == o.failed_requests + (if success { 0int } else { 1 })
    &&& n.error_counts@ == (match error_code {
        Some(c) if !success => o.error_counts@.insert(
            c,
            (if o.error_counts@.contains_key(c) { o.error_counts@[c] + 1 } else { 1 }) as u32,
        ),
        _ => o.error_counts@,
    })
    &&& n.daily_usage@ == o.daily_usage@.insert(
        spec_day_start(timestamp) as i64,
        (spec_usage_on(o.daily_usage@, spec_day_start(timestamp) as i64) + 1) as u64,
    )
}

/// Whether a key is inactive and past its expiry by more than the seven-day
/// grace period.
pub open spec fn key_expired(k: EncryptedApiKey, now: i64) -> bool {
    !k.is_active && now > k.expires_at + 7 * 86400
}

/// Whether the stored key with id `id` is expired.
pub open spec fn id_expired(keys: Seq<EncryptedApiKey>, id: Seq<u8>, now: i64) -> bool {
    exists|j: int| 0 <= j < keys.len() && keys[j].key_id@ == id && key_expired(keys[j], now)
}

/// Schedule entries due at `now` whose key is stored and active.
pub open spec fn due_entries(s: Seq<([u8; 16], i64)>, keys: Seq<EncryptedApiKey>, now: i64) -> Seq<([u8; 16], i64)> {
    s.filter(|e: ([u8; 16], i64)| now >= e.1 && key_active(keys, e.0@))
}

impl ApiKeyManager {
    fn key_is_active(&self, id: &[u8; 16]) -> (r: bool)
        requires
            self.wf(),
        ensures
            r == key_active(self.keys@, id@),
    {
        match self.find_key(id) {
            Some(j) => {
                proof {
                    if !self.keys@[j as int].is_active {
                        assert forall|b: int| 0 <= b < self.keys@.len() && self.keys@[b].key_id@ == id@
                            implies !self.keys@[b].is_active by {
                            if b != j as int {
                                if b < j as int {
                                    assert(self.keys@[b].key_id@ != self.keys@[j as int].key_id@);
                                } else {
                                    assert(self.keys@[j as int].key_id@ != self.keys@[b].key_id@);
                                }
                            }
                        }
                    }
                }
                self.keys[j].is_active
            },
            None => false,
        }
    }

    /// Ids of the keys due for rotation at `current_timestamp`: scheduled at
    /// or before it and still active, in schedule order.
    pub fn check_rotation_needed(&self, current_timestamp: i64) -> (r: Vec<[u8; 16]>)
        requires
            self.wf(),
        ensures
            r@ == due_entries(self.rotation_schedule@, self.keys@, current_timestamp).map_values(
                |e: ([u8; 16], i64)| e.0,
            ),
    {
        let ghost s = self.rotation_schedule@;
        let ghost pred = |e: ([u8; 16], i64)| current_timestamp >= e.1 && key_active(self.keys@, e.0@);
        let mut out: Vec<[u8; 16]> = Vec::new();
        let mut i: usize = 0;
        while i < self.rotation_schedule.len()
            invariant
                s == self.rotation_schedule@,
                i <= s.len(),
                self.wf(),
                pred == (|e: ([u8; 16], i64)| current_timestamp >= e.1 && key_active(self.keys@, e.0@)),
                out@ == s.subrange(0, i as int).filter(pred).map_values(|e: ([u8; 16], i64)| e.0),
            decreases s.len() - i,
        {
            let (id, next) = self.rotation_schedule[i];
            proof {
                reveal_with_fuel(Seq::filter, 1);
                assert(s.subrange(0, i + 1).drop_last() =~= s.subrange(0, i as int));
            }
            if current_timestamp >= next && self.key_is_active(&id) {
                out.push(id);
            }
            i = i + 1;
            assert(out@ =~= s.subrange(0, i as int).filter(pred).map_values(|e: ([u8; 16], i64)| e.0));
        }
        assert(s.subrange(0, i as int) =~= s);
        assert(pred =~= (|e: ([u8; 16], i64)| current_timestamp >= e.1 && key_active(self.keys@, e.0@)));
        out
    }

    /// Counts one request on key `key_id`; fails when the key is unknown, and
    /// when, with this request counted, the key's daily budget is spent.
    pub fn record_usage(
        &mut self,
        key_id: [u8; 16],
        success: bool,
        error_code: Option<u16>,
        timestamp: i64,
    ) -> (r: Result<(), BettingPlatformError>)
        requires
            old(self).wf(),
            forall|j: int| 0 <= j < old(self).keys@.len() && old(self).keys@[j].key_id@ == key_id@ ==> usage_recordable(
                #[trigger] old(self).keys@[j].usage_stats, success, error_code, timestamp),
        ensures
            final(self).wf(),
            final(self).active_keys@ == old(self).active_keys@,
            final(self).rotation_schedule@ == old(self).rotation_schedule@,
            final(self).authority == old(self).authority,
            final(self).total_keys == old(self).total_keys,
            final(self).last_rotation_check == old(self).last_rotation_check,
            !key_stored(old(self).keys@, key_id@) ==> r == Err::<(), BettingPlatformError>(BettingPlatformError::InvalidInput)
                && final(self).keys@ == old(self).keys@,
            key_stored(old(self).keys@, key_id@) ==> exists|i: int| {
                &&& 0 <= i < old(self).keys@.len()
                &&& old(self).keys@[i].key_id@ == key_id@
                &&& final(self).keys@ == old(self).keys@.update(
                    i, EncryptedApiKey { usage_stats: final(self).keys@[i].usage_stats, ..old(self).keys@[i] })
                &&& usage_recorded(old(self).keys@[i].usage_stats, final(self).keys@[i].usage_stats, success, error_code, timestamp)
                &&& (if spec_usage_on(final(self).keys@[i].usage_stats.daily_usage@, spec_day_start(timestamp) as i64)
                    >= MAX_USAGE_PER_DAY {
                    r == Err::<(), BettingPlatformError>(BettingPlatformError::RateLimited)
                } else {
                    r is Ok
                })
            },
    {
        let i = match self.find_key(&key_id) {
            Some(i) => i,
            None => return Err(BettingPlatformError::InvalidInput),
        };
        let ghost k0 = self.keys@[i as int];
        let mut key = self.keys.remove(i);
        key.usage_stats.record_usage(success, error_code, timestamp);
        let limited = key.usage_stats.is_rate_limited(timestamp);
        let ghost k1 = key;
        self.keys.insert(i, key);
        assert(self.keys@ =~= old(self).keys@.update(i as int, EncryptedApiKey { usage_stats: k1.usage_stats, ..k0 }));
        assert(self.wf()) by {
            let ks = self.keys@;
            assert forall|a: int, b: int| 0 <= a < b < ks.len() implies ks[a].key_id@ != ks[b].key_id@ by {
                assert(old(self).keys@[a].key_id@ != old(self).keys@[b].key_id@);
            }
        }
        if limited {
            return Err(BettingPlatformError::RateLimited);
        }
        Ok(())
    }

    /// Removes the keys that are inactive and more than seven days past
    /// expiry, with their schedule entries; returns how many were removed.
    pub fn cleanup_expired_keys(&mut self, current_timestamp: i64) -> (r: u32)
        requires
            old(self).wf(),
            old(self).keys@.len() <= u32::MAX,
        ensures
            final(self).wf(),
            final(self).keys@ == old(self).keys@.filter(|k: EncryptedApiKey| !key_expired(k, current_timestamp)),
            final(self).rotation_schedule@ == old(self).rotation_schedule@.filter(
                |e: ([u8; 16], i64)| !id_expired(old(self).keys@, e.0@, current_timestamp),
            ),
            r == old(self).keys@.len() - final(self).keys@.len(),
            final(self).active_keys@ == old(self).active_keys@,
            final(self).authority == old(self).authority,
            final(self).total_keys == old(self).total_keys,
            final(self).last_rotation_check == old(self).last_rotation_check,
    {
        let ghost ks = old(self).keys@;
        let ghost keep = |k: EncryptedApiKey| !key_expired(k, current_timestamp);
        let mut expired_ids: Vec<[u8; 16]> = Vec::new();
        let mut removed: u32 = 0;
        let mut i: usize = 0;
        let ghost mut done: int = 0;
        while i < self.keys.len()
            invariant
                0 <= done <= ks.len(),
                i <= done,
                ks == old(self).keys@,
                keep == (|k: EncryptedApiKey| !key_expired(k, current_timestamp)),
                self.keys@ == ks.subrange(0, done).filter(keep) + ks.subrange(done, ks.len() as int),
                i == ks.subrange(0, done).filter(keep).len(),
                removed == done - i,
                ks.len() <= u32::MAX,
                self.wf(),
                forall|x: int| 0 <= x < expired_ids@.len() ==> id_expired(ks, #[trigger] expired_ids@[x]@, current_timestamp),
                forall|j: int| 0 <= j < done && key_expired(ks[j], current_timestamp) ==> id_listed(expired_ids@, ks[j].key_id@),
                self.active_keys@ == old(self).active_keys@,
                self.rotation_schedule@ == old(self).rotation_schedule@,
                self.authority == old(self).authority,
                self.total_keys == old(self).total_keys,
                self.last_rotation_check == old(self).last_rotation_check,
            decreases ks.len() - done,
        {
            proof {
                reveal_with_fuel(Seq::filter, 1);
                assert(ks.subrange(0, done + 1).drop_last() =~= ks.subrange(0, done));
                assert(self.keys@[i as int] == ks[done]);
            }
            let expired = !self.keys[i].is_active && (current_timestamp as i128) > (self.keys[i].expires_at as i128) + 604800;
            if expired {
                let ghost k0 = self.keys@;
                let k = self.keys.remove(i);
                let ghost before = expired_ids@;
                expired_ids.push(k.key_id);
                removed = removed + 1;
                proof {
                    assert(self.keys@ =~= ks.subrange(0, done + 1).filter(keep) + ks.subrange(done + 1, ks.len() as int));
                    assert(expired_ids@[before.len() as int]@ == ks[done].key_id@);
                    assert forall|j: int| 0 <= j < done + 1 && key_expired(ks[j], current_timestamp)
                        implies id_listed(expired_ids@, ks[j].key_id@) by {
                        if j < done {
                            let x = choose|x: int| 0 <= x < before.len() && before[x]@ == ks[j].key_id@;
                            assert(expired_ids@[x] == before[x]);
                        } else {
                            assert(expired_ids@[before.len() as int]@ == ks[j].key_id@);
                        }
                    }
                    assert forall|x: int| 0 <= x < expired_ids@.len() implies id_expired(ks, #[trigger] expired_ids@[x]@, current_timestamp) by {
                        if x < before.len() {
                            assert(expired_ids@[x] == before[x]);
                        } else {
                            assert(0 <= done < ks.len() && ks[done].key_id@ == expired_ids@[x]@ && key_expired(ks[done], current_timestamp));
                        }
                    }
                    assert forall|a: int, b: int| 0 <= a < b < self.keys@.len() implies self.keys@[a].key_id@ != self.keys@[b].key_id@ by {
                        let a2 = if a < i { a } else { a + 1 };
                        let b2 = if b < i { b } else { b + 1 };
                        assert(self.keys@[a] == k0[a2]);
                        assert(self.keys@[b] == k0[b2]);
                    }
                }
            } else {
                proof {
                    assert(self.keys@ =~= ks.subrange(0, done + 1).filter(keep) + ks.subrange(done + 1, ks.len() as int));
                }
                i = i + 1;
            }
            proof {
                done = done + 1;
            }
        }
        proof {
            assert(ks.subrange(0, done) =~= ks);
            assert(ks.subrange(done, ks.len() as int) =~= Seq::<EncryptedApiKey>::empty());
            assert(self.keys@ =~= ks.filter(keep));
        }
        self.remove_scheduled(&expired_ids, Ghost(ks), current_timestamp);
        removed
    }

    /// Drops the schedule entries of the listed ids, which are exactly the
    /// expired keys of `ks`.
    fn remove_scheduled(&mut self, ids: &Vec<[u8; 16]>, Ghost(ks): Ghost<Seq<EncryptedApiKey>>, now: i64)
        requires
            old(self).wf(),
            forall|x: int| 0 <= x < ids@.len() ==> id_expired(ks, #[trigger] ids@[x]@, now),
            forall|j: int| 0 <= j < ks.len() && key_expired(ks[j], now) ==> id_listed(ids@, ks[j].key_id@),
        ensures
            final(self).wf(),
            final(self).rotation_schedule@ == old(self).rotation_schedule@.filter(
                |e: ([u8; 16], i64)| !id_expired(ks, e.0@, now),
            ),
            final(self).keys@ == old(self).keys@,
            final(self).active_keys@ == old(self).active_keys@,
            final(self).authority == old(self).authority,
            final(self).total_keys == old(self).total_keys,
            final(self).last_rotation_check == old(self).last_rotation_check,
    {
        let ghost ss = old(self).rotation_schedule@;
        let ghost keep = |e: ([u8; 16], i64)| !id_expired(ks, e.0@, now);
        let mut i: usize = 0;
        let ghost mut done: int = 0;
        while i < self.rotation_schedule.len()
            invariant
                0 <= done <= ss.len(),
                i <= done,
                ss == old(self).rotation_schedule@,
                keep == (|e: ([u8; 16], i64)| !id_expired(ks, e.0@, now)),
                self.rotation_schedule@ == ss.subrange(0, done).filter(keep) + ss.subrange(done, ss.len() as int),
                i == ss.subrange(0, done).filter(keep).len(),
                self.wf(),
                forall|x: int| 0 <= x < ids@.len() ==> id_expired(ks, #[trigger] ids@[x]@, now),
                forall|j: int| 0 <= j < ks.len() && key_expired(ks[j], now) ==> id_listed(ids@, ks[j].key_id@),
                self.keys@ == old(self).keys@,
                self.active_keys@ == old(self).active_keys@,
                self.authority == old(self).authority,
                self.total_keys == old(self).total_keys,
                self.last_rotation_check == old(self).last_rotation_check,
            decreases ss.len() - done,
        {
            proof {
                reveal_with_fuel(Seq::filter, 1);
                assert(ss.subrange(0, done + 1).drop_last() =~= ss.subrange(0, done));
                assert(self.rotation_schedule@[i as int] == ss[done]);
            }
            let id = self.rotation_schedule[i].0;
            let listed = id_in(ids, &id);
            proof {
                if listed {
                    let x = choose|x: int| 0 <= x < ids@.len() && ids@[x]@ == id@;
                    assert(id_expired(ks, ids@[x]@, now));
                } else {
                    if id_expired(ks, id@, now) {
                        let j = choose|j: int| 0 <= j < ks.len() && ks[j].key_id@ == id@ && key_expired(ks[j], now);
                        assert(id_listed(ids@, ks[j].key_id@));
                    }
                }
            }
            if listed {
                let ghost s0 = self.rotation_schedule@;
                let _e = self.rotation_schedule.remove(i);
                proof {
                    assert(self.rotation_schedule@ =~= ss.subrange(0, done + 1).filter(keep) + ss.subrange(done + 1, ss.len() as int));
                    assert forall|a: int, b: int| 0 <= a < b < self.rotation_schedule@.len()
                        implies self.rotation_schedule@[a].0@ != self.rotation_schedule@[b].0@ by {
                        let a2 = if a < i { a } else { a + 1 };
                        let b2 = if b < i { b } else { b + 1 };
                        assert(self.rotation_schedule@[a] == s0[a2]);
                        assert(self.rotation_schedule@[b] == s0[b2]);
                    }
                }
            } else {
                proof {
                    assert(self.rotation_schedule@ =~= ss.subrange(0, done + 1).filter(keep) + ss.subrange(done + 1, ss.len() as int));
                }
                i = i + 1;
            }
            proof {
                done = done + 1;
            }
        }
        proof {
            assert(ss.subrange(0, done) =~= ss);
            assert(ss.subrange(done, ss.len() as int) =~= Seq::<([u8; 16], i64)>::empty());
            assert(self.rotation_schedule@ =~= ss.filter(keep));
        }
    }
}

/// Whether `id` is in the list.
pub open spec fn id_listed(ids: Seq<[u8; 16]>, id: Seq<u8>) -> bool {
    exists|x: int| 0 <= x < ids.len() && ids[x]@ == id
}

fn id_in(ids: &Vec<[u8; 16]>, id: &[u8; 16]) -> (r: bool)
    ensures
        r == id_listed(ids@, id@),
{
    let mut x: usize = 0;
    while x < ids.len()
        invariant
            x <= ids@.len(),
            forall|y: int| 0 <= y < x ==> ids@[y]@ != id@,
        decreases ids@.len() - x,
    {
        if crate::bytes::bytes_eq(&ids[x], id) {
            return true;
        }
        x = x + 1;
    }
    false
}

} // verus!
