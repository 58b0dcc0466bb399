use betting_platform::api_key_manager::{
    ApiKeyManager, ApiProvider, EncryptedApiKey, Environment, KeyAccessControl, MAX_USAGE_PER_DAY,
};
use betting_platform::error::BettingPlatformError;

fn new_key(provider: ApiProvider, env: Environment, ts: i64) -> EncryptedApiKey {
    EncryptedApiKey::new(provider, env, vec![1, 2, 3, 4], [0u8; 12], ts)
}

#[test]
fn test_key_rotation() {
    let mut manager = ApiKeyManager::new([7u8; 32]);
    let key = new_key(ApiProvider::Polymarket, Environment::Production, 100);
    manager.add_key(key.clone(), 100).unwrap();
    let keys_to_rotate = manager.check_rotation_needed(100 + 31 * 86400);
    assert_eq!(keys_to_rotate.len(), 1);
}

#[test]
fn key_manager_add_then_lookup_finds_key() {
    let mut m = ApiKeyManager::new([7u8; 32]);
    let key = new_key(ApiProvider::Chainlink, Environment::Staging, 500);
    let id = key.key_id;
    m.add_key(key, 500).unwrap();
    let found = m.get_active_key(&ApiProvider::Chainlink, &Environment::Staging).unwrap();
    assert_eq!(found.key_id, id);
    assert!(m.get_active_key(&ApiProvider::Chainlink, &Environment::Production).is_none());
    assert_eq!(m.total_keys, 1);
    // not yet due
    assert!(m.check_rotation_needed(500 + 29 * 86400).is_empty());
}

#[test]
fn key_manager_limits_keys_per_provider() {
    let mut m = ApiKeyManager::new([7u8; 32]);
    for t in 0..10i64 {
        m.add_key(new_key(ApiProvider::PythNetwork, Environment::Development, t), t).unwrap();
    }
    let extra = new_key(ApiProvider::PythNetwork, Environment::Development, 99);
    assert_eq!(m.add_key(extra, 99), Err(BettingPlatformError::AccountDataTooSmall));
    assert_eq!(m.keys.len(), 10);
    // another provider is still accepted
    m.add_key(new_key(ApiProvider::Polymarket, Environment::Development, 99), 99).unwrap();
    assert_eq!(m.keys.len(), 11);
}

#[test]
fn key_manager_rotation_replaces_active_key() {
    let mut m = ApiKeyManager::new([7u8; 32]);
    let key = new_key(ApiProvider::Polymarket, Environment::Production, 100);
    let old_id = key.key_id;
    m.add_key(key, 100).unwrap();
    m.rotate_key(old_id, vec![9, 9], [1u8; 12], 200).unwrap();
    let active = m.get_active_key(&ApiProvider::Polymarket, &Environment::Production).unwrap();
    assert_ne!(active.key_id, old_id);
    assert_eq!(active.encrypted_key, vec![9, 9]);
    assert_eq!(active.created_at, 200);
    assert_eq!(m.keys.len(), 2);
    // the old key is kept, inactive, and no longer due for rotation
    let due = m.check_rotation_needed(200 + 31 * 86400);
    assert_eq!(due, vec![active.key_id]);
    assert_eq!(m.rotate_key([0u8; 16], vec![], [0u8; 12], 300), Err(BettingPlatformError::InvalidInput));
}

#[test]
fn key_manager_usage_and_rate_limit() {
    let mut m = ApiKeyManager::new([7u8; 32]);
    let key = new_key(ApiProvider::Polymarket, Environment::Production, 100);
    let id = key.key_id;
    m.add_key(key, 100).unwrap();
    assert_eq!(m.record_usage(id, true, None, 1000), Ok(()));
    assert_eq!(m.get_usage_stats(&id).unwrap().total_requests, 1);
    assert_eq!(m.record_usage([3u8; 16], true, None, 1000), Err(BettingPlatformError::InvalidInput));
    assert!(m.get_usage_stats(&[3u8; 16]).is_none());
    // bring the day's usage to one under the budget, then one more request spends it
    let k = m.keys.iter_mut().find(|k| k.key_id == id).unwrap();
    k.usage_stats.daily_usage.insert(0, MAX_USAGE_PER_DAY - 1);
    assert_eq!(m.record_usage(id, false, Some(429), 1000), Err(BettingPlatformError::RateLimited));
    assert_eq!(m.get_usage_stats(&id).unwrap().failed_requests, 1);
}

#[test]
fn key_manager_cleanup_removes_only_expired_inactive_keys() {
    let mut m = ApiKeyManager::new([7u8; 32]);
    let key = new_key(ApiProvider::Polymarket, Environment::Production, 100);
    let old_id = key.key_id;
    m.add_key(key, 100).unwrap();
    m.rotate_key(old_id, vec![9], [1u8; 12], 200).unwrap();
    // old key expires at 100 + 30 days; grace period 7 days
    assert_eq!(m.cleanup_expired_keys(100 + 37 * 86400), 0);
    assert_eq!(m.cleanup_expired_keys(100 + 37 * 86400 + 1), 1);
    assert_eq!(m.keys.len(), 1);
    assert!(m.rotation_schedule.iter().all(|(id, _)| *id != old_id));
    assert_eq!(m.rotation_schedule.len(), 1);
}

#[test]
fn key_access_control_checks_authority_and_key() {
    let mut m = ApiKeyManager::new([7u8; 32]);
    let key = new_key(ApiProvider::Polymarket, Environment::Production, 100);
    let id = key.key_id;
    m.add_key(key, 100).unwrap();
    assert_eq!(KeyAccessControl::verify_access(&m, &[7u8; 32], &id), Ok(()));
    assert_eq!(KeyAccessControl::verify_access(&m, &[8u8; 32], &id), Err(BettingPlatformError::Unauthorized));
    assert_eq!(KeyAccessControl::verify_access(&m, &[7u8; 32], &[0u8; 16]), Err(BettingPlatformError::InvalidInput));
}
