use betting_platform::dispute_evidence_system::{
    EvidenceAggregator, EvidenceChain, EvidenceFormat, EvidenceHistory, EvidenceMetadata, EvidenceValidator,
    HistoryAction, VerificationStatus,
};
use betting_platform::error::BettingPlatformError;

fn text(s: &str) -> EvidenceFormat {
    EvidenceFormat::Text { content: s.to_string() }
}

#[test]
fn test_evidence_chain() {
    let mut chain = EvidenceChain::new("dispute-123".to_string());
    let evidence1 = EvidenceMetadata::new("dispute-123".to_string(), [1u8; 32], text("Evidence 1"), 100, 1000, None);
    chain.add_evidence(evidence1.clone(), 100).unwrap();
    assert_eq!(chain.total_evidence, 1);
    let evidence2 =
        EvidenceMetadata::new("dispute-123".to_string(), [2u8; 32], text("Evidence 2"), 200, 2000, Some(evidence1.hash));
    chain.add_evidence(evidence2, 200).unwrap();
    assert_eq!(chain.total_evidence, 2);
    assert!(chain.verify_chain().is_ok());
}

#[test]
fn dispute_evidence_system_test_evidence_validation() {
    let validator = EvidenceValidator::new();
    let text_format = EvidenceFormat::Text { content: "Valid evidence".to_string() };
    assert!(validator.validate_format(&text_format).is_ok());
    let url_format = EvidenceFormat::Url { url: "http://insecure.com".to_string(), hash: None };
    assert!(validator.validate_format(&url_format).is_err());
    assert!(validator.validate_age(100, 200).is_ok());
    let stale_timestamp = 100;
    let current = stale_timestamp + (31 * 86400);
    assert!(validator.validate_age(stale_timestamp, current).is_err());
}

#[test]
fn test_evidence_weight_calculation() {
    let validator = EvidenceValidator::new();
    let oracle_evidence = EvidenceMetadata {
        evidence_id: [0u8; 16],
        dispute_id: "test".to_string(),
        submitter: [3u8; 32],
        format: EvidenceFormat::OracleAttestation { oracle: [4u8; 32], signature: [0u8; 64] },
        timestamp: 100,
        block_height: 1000,
        hash: [0u8; 32],
        previous_hash: None,
        verification_status: VerificationStatus::Verified { verifier: [5u8; 32], timestamp: 200 },
        weight: 0,
    };
    let weight = validator.calculate_weight(&oracle_evidence);
    assert_eq!(weight, 1500);
}

#[test]
fn evidence_chain_refuses_bad_records() {
    let mut chain = EvidenceChain::new("d".to_string());
    let mut tampered = EvidenceMetadata::new("d".to_string(), [1u8; 32], text("a"), 1, 1, None);
    tampered.hash[0] ^= 1;
    assert_eq!(chain.add_evidence(tampered, 1), Err(BettingPlatformError::InvalidProof));
    let orphan = EvidenceMetadata::new("d".to_string(), [1u8; 32], text("a"), 1, 1, Some([9u8; 32]));
    assert_eq!(chain.add_evidence(orphan, 1), Err(BettingPlatformError::InvalidEvidenceOrder));
    let first = EvidenceMetadata::new("d".to_string(), [1u8; 32], text("a"), 1, 1, None);
    chain.add_evidence(first.clone(), 1).unwrap();
    let wrong_link = EvidenceMetadata::new("d".to_string(), [2u8; 32], text("b"), 2, 2, Some([9u8; 32]));
    assert_eq!(chain.add_evidence(wrong_link, 2), Err(BettingPlatformError::InvalidEvidenceOrder));
    assert_eq!(chain.total_evidence, 1);
    assert_eq!(chain.get_evidence(&first.evidence_id).unwrap().timestamp, 1);
    assert!(chain.get_evidence(&[0u8; 16]).is_none());
    // an unlinked second record is accepted but breaks the chain check
    let unlinked = EvidenceMetadata::new("d".to_string(), [2u8; 32], text("b"), 2, 2, None);
    chain.add_evidence(unlinked, 2).unwrap();
    assert_eq!(chain.verify_chain(), Err(BettingPlatformError::InvalidEvidenceOrder));
    assert_eq!(chain.get_chronological_evidence().len(), 2);
}

#[test]
fn evidence_integrity_detects_changes() {
    let e = EvidenceMetadata::new("d".to_string(), [1u8; 32], text("a"), 5, 1, None);
    assert!(e.verify_integrity().is_ok());
    let mut changed = e.clone();
    changed.timestamp = 6;
    assert_eq!(changed.verify_integrity(), Err(BettingPlatformError::InvalidProof));
    let other = EvidenceMetadata::new("d".to_string(), [1u8; 32], text("a"), 6, 1, None);
    assert_ne!(other.evidence_id, e.evidence_id);
}

#[test]
fn evidence_format_rules() {
    let v = EvidenceValidator::new();
    assert!(v.validate_format(&text("")).is_err());
    assert!(v.validate_format(&EvidenceFormat::Url { url: "https://ok.example".to_string(), hash: None }).is_ok());
    assert!(v.validate_format(&EvidenceFormat::Image { ipfs_hash: [0u8; 32], format: "webp".to_string() }).is_ok());
    assert!(v.validate_format(&EvidenceFormat::Image { ipfs_hash: [0u8; 32], format: "bmp".to_string() }).is_err());
    assert!(v.validate_format(&EvidenceFormat::Document { ipfs_hash: [0u8; 32], mime_type: "application/json".to_string() }).is_ok());
    assert!(v.validate_format(&EvidenceFormat::Document { ipfs_hash: [0u8; 32], mime_type: "image/png".to_string() }).is_err());
    assert!(v.validate_format(&EvidenceFormat::OnChainData { account: [0u8; 32], offset: 0, length: 0 }).is_ok());
    assert_eq!(v.validate_age(0, 30 * 86400 + 86399), Ok(()));
    assert_eq!(v.validate_age(0, 31 * 86400), Err(BettingPlatformError::StaleEvidence));
}

#[test]
fn evidence_chain_completeness_and_scores() {
    let v = EvidenceValidator::new();
    let mut chain = EvidenceChain::new("d".to_string());
    assert_eq!(v.validate_chain_completeness(&chain), Ok(false));
    let e1 = EvidenceMetadata::new("d".to_string(), [1u8; 32], text("outcome YES"), 1, 1, None);
    chain.add_evidence(e1.clone(), 1).unwrap();
    assert_eq!(v.validate_chain_completeness(&chain), Ok(true));
    let e2 = EvidenceMetadata::new("d".to_string(), [2u8; 32], text("clearly NO"), 2, 2, Some(e1.hash));
    chain.add_evidence(e2.clone(), 2).unwrap();
    let e3 = EvidenceMetadata::new("d".to_string(), [3u8; 32], text("YES again"), 3, 3, Some(e2.hash));
    chain.add_evidence(e3, 3).unwrap();
    let scores = EvidenceAggregator::aggregate_evidence_scores(&chain, &v);
    assert_eq!(scores, vec![("YES".to_string(), 200), ("NO".to_string(), 100)]);
    assert_eq!(EvidenceAggregator::determine_consensus(&scores, 60), Some("YES".to_string()));
    assert_eq!(EvidenceAggregator::determine_consensus(&scores, 70), None);
    assert_eq!(EvidenceAggregator::determine_consensus(&vec![], 10), None);
}

#[test]
fn evidence_history_keeps_latest_entries() {
    let mut h = EvidenceHistory::new();
    h.add_entry(HistoryAction::Submitted, [1u8; 32], [7u8; 16], "first".to_string(), 50).unwrap();
    h.add_entry(HistoryAction::Verified, [1u8; 32], [8u8; 16], "second".to_string(), 20).unwrap();
    h.add_entry(HistoryAction::Rejected, [1u8; 32], [7u8; 16], "third".to_string(), 90).unwrap();
    assert_eq!(h.total_entries, 3);
    assert_eq!(h.oldest_entry, 20);
    assert_eq!(h.newest_entry, 90);
    let mine = h.get_evidence_history(&[7u8; 16]);
    assert_eq!(mine.len(), 2);
    assert_eq!(mine[1].details, "third");
    for t in 0..1000i64 {
        h.add_entry(HistoryAction::Updated, [1u8; 32], [9u8; 16], String::new(), 100 + t).unwrap();
    }
    assert_eq!(h.entries.len(), EvidenceHistory::MAX_ENTRIES);
    assert!(h.get_evidence_history(&[7u8; 16]).is_empty());
}
