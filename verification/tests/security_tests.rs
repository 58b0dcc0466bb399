use betting_platform::api_key_manager::{ApiProvider, EncryptedApiKey, Environment, KeyEncryption, KeyUsageStats};
use betting_platform::error::BettingPlatformError;
use betting_platform::request_security::{
    AuditAction, AuditLogger, AuditResult, NonceCache, RequestSignature, TimestampValidator,
};

#[test]
fn test_request_signature() {
    let message = b"test message";
    let api_key = b"secret_key";
    let timestamp = 100;
    let nonce = [1u8; 16];
    let key_id = [2u8; 16];
    let sig = RequestSignature::new(message, api_key, timestamp, nonce, key_id);
    assert!(sig.verify(message, api_key).is_ok());
    assert!(sig.verify(b"wrong message", api_key).is_err());
}

#[test]
fn signature_depends_on_key() {
    let sig = RequestSignature::new(b"m", b"k1", 5, [0u8; 16], [0u8; 16]);
    assert_eq!(sig.verify(b"m", b"k2"), Err(BettingPlatformError::SecurityCheckFailed));
}

#[test]
fn test_nonce_cache() {
    let mut cache = NonceCache::new(3);
    let nonce1 = [1u8; 16];
    let nonce2 = [2u8; 16];
    assert!(cache.check_and_add(&nonce1, 10));
    assert!(!cache.check_and_add(&nonce1, 11));
    assert!(cache.check_and_add(&nonce2, 12));
}

#[test]
fn nonce_cache_evicts_oldest() {
    let mut cache = NonceCache::new(2);
    assert!(cache.check_and_add(&[1u8; 16], 1));
    assert!(cache.check_and_add(&[2u8; 16], 2));
    assert!(cache.check_and_add(&[3u8; 16], 3));
    assert!(!cache.contains(&[1u8; 16]));
    assert!(cache.contains(&[3u8; 16]));
}

#[test]
fn test_timestamp_validation() {
    let validator = TimestampValidator::new();
    assert!(validator.validate(100, 150).is_ok());
    assert!(validator.validate(100, 500).is_err());
    assert!(validator.validate(200, 100).is_err());
}

#[test]
fn test_audit_logger() {
    let mut logger = AuditLogger::new();
    logger.log(
        [1u8; 16],
        AuditAction::ApiRequest { provider: ApiProvider::Polymarket, method: "GET".to_string() },
        AuditResult::Success,
        "Test request".to_string(),
        0,
    );
    assert_eq!(logger.total_logged, 1);
    assert_eq!(logger.logs.len(), 1);
    let violations = logger.get_security_violations();
    assert_eq!(violations.len(), 0);
}

#[test]
fn test_api_key_creation() {
    let key = EncryptedApiKey::new(ApiProvider::Polymarket, Environment::Production, vec![1, 2, 3, 4], [0u8; 12], 100);
    assert!(key.is_valid(150));
    assert!(!key.needs_rotation(150));
    assert!(key.needs_rotation(100 + 31 * 86400));
}

#[test]
fn test_usage_tracking() {
    let mut stats = KeyUsageStats::new();
    stats.record_usage(true, None, 100);
    assert_eq!(stats.total_requests, 1);
    assert_eq!(stats.successful_requests, 1);
    stats.record_usage(false, Some(429), 200);
    assert_eq!(stats.failed_requests, 1);
    assert_eq!(*stats.error_counts.get(&429).unwrap(), 1);
}

#[test]
fn test_encryption() {
    let program_id = [5u8; 32];
    let nonce = KeyEncryption::generate_nonce(100, 1);
    let plaintext = "sk_test_12345";
    let encrypted = KeyEncryption::encrypt_key(plaintext, &program_id, &nonce).unwrap();
    assert_ne!(encrypted, plaintext.as_bytes().to_vec());
    let decrypted = KeyEncryption::decrypt_key(&encrypted, &program_id, &nonce).unwrap();
    assert_eq!(decrypted, plaintext);
}

#[test]
fn nonce_layout() {
    let nonce = KeyEncryption::generate_nonce(0x0102, 0x0a0b0c0d0e);
    assert_eq!(nonce, [2, 1, 0, 0, 0, 0, 0, 0, 0x0e, 0x0d, 0x0c, 0x0b]);
}
