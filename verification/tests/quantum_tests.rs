use betting_platform::quantum_collapse_handler::{
    CoherenceMetrics, CorrelationData, EntanglementType, MarketState, QuantumCollapseHandler,
    QuantumEntanglement, ResolutionOutcome, WaveFunctionState,
};

fn handler() -> QuantumCollapseHandler {
    let mut h = QuantumCollapseHandler {
        total_collapses_handled: 3,
        active_entanglements: Vec::new(),
        collapse_history: Vec::new(),
        wave_function_state: WaveFunctionState::default(),
        coherence_metrics: CoherenceMetrics::default(),
        last_measurement_slot: 0,
        measurement_backlog: Vec::new(),
        superposition_count: 0,
    };
    h.initialize(77).unwrap();
    h
}

fn market(id: u8, volume: u64) -> MarketState {
    MarketState { market_id: [id; 32], volume, price: 5000, volatility: 0 }
}

fn link(a: u8, b: u8, corr: u16, coherence: u16) -> QuantumEntanglement {
    QuantumEntanglement {
        market_a: [a; 32],
        market_b: [b; 32],
        correlation_strength: corr,
        entanglement_type: QuantumCollapseHandler::classify_entanglement(corr),
        creation_slot: 0,
        coherence_level: coherence,
        measurement_count: 0,
        last_interaction: 0,
    }
}

#[test]
fn initialize_sets_slot() {
    let h = handler();
    assert_eq!(h.total_collapses_handled, 0);
    assert_eq!(h.last_measurement_slot, 77);
}

#[test]
fn volume_correlation_and_class() {
    assert_eq!(QuantumCollapseHandler::calculate_volume_correlation(2_000_000_000_000, 1_000_000_000_000, 9000), 7000);
    assert_eq!(QuantumCollapseHandler::classify_entanglement(9900), EntanglementType::Strong);
    assert_eq!(QuantumCollapseHandler::classify_entanglement(9700), EntanglementType::Moderate);
    assert_eq!(QuantumCollapseHandler::classify_entanglement(9699), EntanglementType::Weak);
}

#[test]
fn entanglement_detection() {
    let mut h = handler();
    let data = CorrelationData { price_history_a: vec![], price_history_b: vec![], volume_correlation: 10000, sentiment_correlation: 10000 };
    let a = market(1, 1_000_000_000_000);
    let b = market(2, 1_000_000_000_000);
    assert!(h.detect_entanglement(&a, &b, &data, 10000, 9).unwrap());
    assert_eq!(h.active_entanglements.len(), 1);
    assert_eq!(h.active_entanglements[0].entanglement_type, EntanglementType::Strong);
    assert_eq!(h.active_entanglements[0].coherence_level, 10000);
    assert_eq!(h.superposition_count, 1);
    // too little volume
    let small = market(3, 10);
    assert!(!h.detect_entanglement(&a, &small, &data, 10000, 9).unwrap());
    // weighted correlation below 95%: (9000*5 + 10000*3 + 10000*2) / 10 = 9500 is enough, 8990 is not
    assert!(h.detect_entanglement(&a, &b, &data, 9000, 9).unwrap());
    assert!(!h.detect_entanglement(&a, &b, &data, 8990, 9).unwrap());
    assert_eq!(h.active_entanglements.len(), 2);
}

#[test]
fn collapse_suggests_outcomes_and_drops_links() {
    let mut h = handler();
    h.active_entanglements.push(link(1, 2, 9900, 40));
    h.active_entanglements.push(link(3, 4, 9900, 40));
    h.active_entanglements.push(link(5, 1, 9600, 40));
    h.superposition_count = 1;
    let out = h.handle_collapse(&[1u8; 32], ResolutionOutcome::Yes, 500).unwrap();
    assert_eq!(out.len(), 2);
    assert_eq!(out[0].market_id, [2u8; 32]);
    assert_eq!(out[0].collapse_probability, 39);
    assert_eq!(out[0].suggested_outcome, ResolutionOutcome::Yes);
    assert_eq!(out[0].confidence_level, 36);
    assert!(!out[0].should_auto_resolve);
    assert_eq!(out[1].market_id, [5u8; 32]);
    assert_eq!(out[1].suggested_outcome, ResolutionOutcome::Invalid);
    assert_eq!(h.active_entanglements.len(), 1);
    assert_eq!(h.collapse_history.len(), 1);
    assert_eq!(h.collapse_history[0].affected_markets, 2);
    assert_eq!(h.collapse_history[0].total_correlation, 9750);
    assert_eq!(h.collapse_history[0].collapse_slot, 500);
    assert_eq!(h.total_collapses_handled, 1);
    assert_eq!(h.superposition_count, 0);
    assert_eq!(h.wave_function_state.collapse_count, 2);
    assert_eq!(h.coherence_metrics.total_coherence, 80);
    assert_eq!(h.coherence_metrics.decoherence_events, 2);
}

#[test]
fn coherence_decays_and_weak_links_drop() {
    let mut h = handler();
    h.active_entanglements.push(link(1, 2, 9900, 10000));
    h.active_entanglements.push(link(3, 4, 9900, 1500));
    h.update_coherence(36_000).unwrap();
    assert_eq!(h.active_entanglements.len(), 1);
    assert_eq!(h.active_entanglements[0].coherence_level, 9000);
    assert_eq!(h.active_entanglements[0].last_interaction, 36_000);
}

#[test]
fn measurement_of_a_market() {
    let mut h = handler();
    h.active_entanglements.push(link(1, 2, 3, 10000));
    h.active_entanglements.push(link(4, 1, 4, 10000));
    h.active_entanglements.push(link(5, 6, 9, 10000));
    let m = h.measure_state(&[1u8; 32], 900).unwrap();
    assert!(m.is_superposition);
    assert_eq!(m.entanglement_count, 2);
    assert_eq!(m.average_correlation, 3);
    assert_eq!(m.wave_function_amplitude, 5);
    assert_eq!(m.measurement_slot, 900);
    assert_eq!(h.active_entanglements[0].measurement_count, 1);
    assert_eq!(h.active_entanglements[2].measurement_count, 0);
    assert_eq!(h.last_measurement_slot, 900);
    let none = h.measure_state(&[9u8; 32], 901).unwrap();
    assert!(!none.is_superposition);
    assert_eq!(none.wave_function_amplitude, 0);
}

#[test]
fn cascade_prediction_along_a_chain() {
    let mut h = handler();
    h.active_entanglements.push(link(1, 2, 9600, 10000));
    h.active_entanglements.push(link(2, 3, 9800, 10000));
    h.active_entanglements.push(link(4, 3, 9700, 10000));
    let p = h.predict_cascade(&[1u8; 32]).unwrap();
    assert_eq!(p.total_affected, 3);
    assert_eq!(p.max_depth, 4);
    let ids: Vec<u8> = p.affected_markets.iter().map(|m| m.market_id[0]).collect();
    assert_eq!(ids, vec![2, 3, 4]);
    let probs: Vec<u16> = p.affected_markets.iter().map(|m| m.cascade_probability).collect();
    assert_eq!(probs, vec![9600, 7840, 5820]);
    assert_eq!(p.affected_markets[2].depth, 3);
    assert_eq!(p.cascade_probability, 7753);
    let alone = h.predict_cascade(&[8u8; 32]).unwrap();
    assert_eq!(alone.total_affected, 0);
    assert_eq!(alone.max_depth, 1);
    assert_eq!(alone.cascade_probability, 0);
}
