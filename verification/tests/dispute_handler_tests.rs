use betting_platform::error::BettingPlatformError;
use betting_platform::polymarket_dispute_handler::{
    DisputeAction, DisputeEvidence, DisputeInfo, EvidenceValidator, PolymarketDisputeHandler,
};

fn sample_dispute() -> DisputeInfo {
    DisputeInfo {
        dispute_id: "dispute-123".to_string(),
        market_id: "market-456".to_string(),
        disputer: "user-789".to_string(),
        proposed_outcome: "No".to_string(),
        original_outcome: "Yes".to_string(),
        dispute_bond: 1000000000,
        status: "Active".to_string(),
        created_at: 100,
        deadline: 1000,
        evidence_count: 0,
        has_votes: false,
    }
}

fn evidence(id: &str, kind: &str, url: Option<&str>, timestamp: i64) -> DisputeEvidence {
    DisputeEvidence {
        id: id.to_string(),
        submitter: "user".to_string(),
        evidence_type: kind.to_string(),
        content: "content".to_string(),
        url: url.map(|u| u.to_string()),
        timestamp,
    }
}

#[test]
fn test_dispute_detection() {
    let mut handler = PolymarketDisputeHandler::new();
    let dispute = sample_dispute();
    let action = handler.process_dispute_update(dispute, 200).unwrap();
    match action {
        DisputeAction::FreezePositions { market_id: _ } => {
            assert_eq!(handler.sync_state.active_disputes.len(), 1);
            assert_eq!(handler.sync_state.total_disputes_tracked, 1);
        }
        _ => panic!("Expected FreezePositions action"),
    }
}

#[test]
fn test_dispute_resolution() {
    let mut handler = PolymarketDisputeHandler::new();
    let mut dispute = sample_dispute();
    handler.process_dispute_update(dispute.clone(), 200).unwrap();
    dispute.status = "Resolved".to_string();
    let action = handler.process_dispute_update(dispute, 300).unwrap();
    match action {
        DisputeAction::ReversePositions { original_outcome, new_outcome, .. } => {
            assert_eq!(original_outcome, "Yes");
            assert_eq!(new_outcome, "No");
            assert_eq!(handler.sync_state.resolved_disputes.len(), 1);
            assert_eq!(handler.sync_state.total_reversals, 1);
        }
        _ => panic!("Expected ReversePositions action"),
    }
}

#[test]
fn polymarket_dispute_handler_test_evidence_validation() {
    let evidence = vec![
        DisputeEvidence {
            id: "ev1".to_string(),
            submitter: "user1".to_string(),
            evidence_type: "document".to_string(),
            content: "Evidence 1".to_string(),
            url: Some("https://example.com/1".to_string()),
            timestamp: 100,
        },
        DisputeEvidence {
            id: "ev2".to_string(),
            submitter: "user2".to_string(),
            evidence_type: "image".to_string(),
            content: "Evidence 2".to_string(),
            url: None,
            timestamp: 200,
        },
    ];
    assert!(EvidenceValidator::validate_chain_of_custody(&evidence).is_ok());
    let tenths = EvidenceValidator::evidence_score_tenths(&evidence);
    let strength = (tenths as f64 / 10.0 / evidence.len() as f64).min(1.0);
    assert!(strength > 0.5);
}

#[test]
fn market_key_is_padded_prefix_of_market_id() {
    let mut handler = PolymarketDisputeHandler::new();
    let action = handler.process_dispute_update(sample_dispute(), 200).unwrap();
    let mut expected = [0u8; 16];
    expected[..10].copy_from_slice(b"market-456");
    match action {
        DisputeAction::FreezePositions { market_id } => assert_eq!(market_id, expected),
        _ => panic!("expected a freeze"),
    }
    let t = handler.active_dispute("dispute-123").unwrap();
    assert_eq!(t.local_market_id, expected);
    assert_eq!(t.update_count, 1);
    assert_eq!(t.tracking_started, 200);
    assert_eq!(t.original_outcome, "Yes");
    assert!(handler.active_dispute("other").is_none());
}

#[test]
fn long_market_id_keeps_first_sixteen_bytes() {
    let mut handler = PolymarketDisputeHandler::new();
    let mut d = sample_dispute();
    d.market_id = "0123456789abcdefXYZ".to_string();
    match handler.process_dispute_update(d, 1).unwrap() {
        DisputeAction::FreezePositions { market_id } => assert_eq!(&market_id, b"0123456789abcdef"),
        _ => panic!("expected a freeze"),
    }
}

#[test]
fn plain_update_refreshes_record_without_action() {
    let mut handler = PolymarketDisputeHandler::new();
    let mut d = sample_dispute();
    handler.process_dispute_update(d.clone(), 200).unwrap();
    d.evidence_count = 3;
    let action = handler.process_dispute_update(d, 250).unwrap();
    assert!(matches!(action, DisputeAction::NoAction));
    let t = handler.active_dispute("dispute-123").unwrap();
    assert_eq!(t.update_count, 2);
    assert_eq!(t.last_update, 250);
    assert_eq!(t.dispute_info.evidence_count, 3);
    assert_eq!(handler.sync_state.total_disputes_tracked, 1);
}

#[test]
fn rejection_unfreezes_and_keeps_original_outcome() {
    let mut handler = PolymarketDisputeHandler::new();
    let mut d = sample_dispute();
    handler.process_dispute_update(d.clone(), 200).unwrap();
    d.status = "Rejected".to_string();
    let action = handler.process_dispute_update(d, 400).unwrap();
    assert!(matches!(action, DisputeAction::UnfreezePositions { .. }));
    assert_eq!(handler.sync_state.active_disputes.len(), 0);
    assert_eq!(handler.sync_state.resolved_disputes.len(), 1);
    let r = &handler.sync_state.resolved_disputes[0];
    assert_eq!(r.final_outcome, "Yes");
    assert_eq!(r.original_outcome, "Yes");
    assert_eq!(r.resolution_timestamp, 400);
    assert_eq!(handler.sync_state.total_reversals, 0);
}

#[test]
fn resolution_upholding_original_unfreezes() {
    let mut handler = PolymarketDisputeHandler::new();
    let mut d = sample_dispute();
    d.proposed_outcome = "Yes".to_string();
    handler.process_dispute_update(d.clone(), 200).unwrap();
    d.status = "Resolved".to_string();
    let action = handler.process_dispute_update(d, 300).unwrap();
    assert!(matches!(action, DisputeAction::UnfreezePositions { .. }));
    assert_eq!(handler.sync_state.total_reversals, 0);
    assert_eq!(handler.sync_state.resolved_disputes[0].positions_reversed, 0);
}

#[test]
fn resolving_same_id_twice_keeps_one_record() {
    let mut handler = PolymarketDisputeHandler::new();
    for ts in [200i64, 500] {
        let mut d = sample_dispute();
        handler.process_dispute_update(d.clone(), ts).unwrap();
        d.status = "Resolved".to_string();
        handler.process_dispute_update(d, ts + 100).unwrap();
    }
    assert_eq!(handler.sync_state.resolved_disputes.len(), 1);
    assert_eq!(handler.sync_state.resolved_disputes[0].resolution_timestamp, 600);
    assert_eq!(handler.sync_state.total_disputes_tracked, 2);
    assert_eq!(handler.sync_state.total_reversals, 2);
    let stats = handler.get_stats();
    assert_eq!(stats.active_disputes, 0);
    assert_eq!(stats.resolved_disputes, 1);
    assert_eq!(stats.total_tracked, 2);
}

#[test]
fn new_dispute_already_resolved_is_frozen_first() {
    let mut handler = PolymarketDisputeHandler::new();
    let mut d = sample_dispute();
    d.status = "Resolved".to_string();
    let action = handler.process_dispute_update(d, 10).unwrap();
    assert!(matches!(action, DisputeAction::FreezePositions { .. }));
}

#[test]
fn polling_interval_and_time() {
    let mut handler = PolymarketDisputeHandler::new();
    assert!(handler.should_poll(300));
    assert!(!handler.should_poll(299));
    handler.update_poll_time(1000);
    assert!(!handler.should_poll(1299));
    assert!(handler.should_poll(1300));
}

#[test]
fn evidence_age_and_type_checks() {
    let handler = PolymarketDisputeHandler::new();
    let ok = evidence("a", "text", None, 0);
    assert!(handler.validate_evidence(&ok, 30 * 86400 + 86399).is_ok());
    assert_eq!(handler.validate_evidence(&ok, 31 * 86400), Err(BettingPlatformError::StaleEvidence));
    let bad = evidence("b", "video", None, 0);
    assert_eq!(handler.validate_evidence(&bad, 10), Err(BettingPlatformError::InvalidEvidenceType));
}

#[test]
fn chain_of_custody_errors() {
    let out_of_order = vec![evidence("a", "text", None, 200), evidence("b", "text", None, 100)];
    assert_eq!(
        EvidenceValidator::validate_chain_of_custody(&out_of_order),
        Err(BettingPlatformError::InvalidEvidenceOrder)
    );
    let duplicated = vec![evidence("a", "text", None, 100), evidence("a", "url", None, 100)];
    assert_eq!(
        EvidenceValidator::validate_chain_of_custody(&duplicated),
        Err(BettingPlatformError::DuplicateEvidence)
    );
    assert!(EvidenceValidator::validate_chain_of_custody(&[]).is_ok());
}

#[test]
fn evidence_score_in_tenths() {
    let es = vec![
        evidence("a", "document", Some("u"), 1),
        evidence("b", "image", None, 2),
        evidence("c", "url", None, 3),
        evidence("d", "text", Some("u"), 4),
        evidence("e", "other", None, 5),
    ];
    assert_eq!(EvidenceValidator::evidence_score_tenths(&es), 12 + 8 + 6 + 6 + 2);
    assert_eq!(EvidenceValidator::evidence_score_tenths(&[]), 0);
}
