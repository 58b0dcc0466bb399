//! Collapse of correlated markets: markets whose prices, volumes and
//! sentiment move together above 95% are entangled; when one resolves, the
//! markets entangled with it get a suggested outcome, and a cascade through
//! chains of entanglements can be predicted. Entanglements lose coherence
//! over time and are dropped once it falls to 10%.
use vstd::prelude::*;
use crate::bytes::bytes_eq;
use crate::error::BettingPlatformError;

verus! {

/// Most markets one market can be entangled with.
pub const MAX_ENTANGLED_MARKETS: usize = 10;
/// Correlation that entangles two markets (95%).
pub const COLLAPSE_THRESHOLD_BPS: u16 = 9500;
/// Slots within which markets resolve together (~1 minute).
pub const QUANTUM_RESOLUTION_WINDOW: u64 = 150;
/// Volume each market needs before it can be entangled ($1M).
pub const MIN_ENTANGLEMENT_VOLUME: u64 = 1_000_000_000_000;
/// Samples of the wave function.
pub const WAVE_FUNCTION_SAMPLES: u32 = 1000;
/// Coherence lost per hour, in basis points.
pub const COHERENCE_DECAY_RATE: u64 = 100;

/// Market as the correlation analysis sees it.
#[derive(Clone, Copy, Debug)]
pub struct MarketState {
    pub market_id: [u8; 32],
    pub volume: u64,
    pub price: u64,
    pub volatility: u16,
}

/// Observed co-movement of two markets.
#[derive(Clone, Debug)]
pub struct CorrelationData {
    pub price_history_a: Vec<u64>,
    pub price_history_b: Vec<u64>,
    pub volume_correlation: u16,
    pub sentiment_correlation: u16,
}

/// Strength class of an entanglement.
#[derive(Clone, Copy, Debug, PartialEq, Eq, Structural)]
pub enum EntanglementType {
    /// 99% correlation and above.
    Strong,
    /// 97% to 99%.
    Moderate,
    /// 95% to 97%.
    Weak,
}

/// Outcome a market resolved to.
#[derive(Clone, Copy, Debug, PartialEq, Eq, Structural)]
pub enum ResolutionOutcome {
    Yes,
    No,
    Invalid,
}

/// Two markets entangled by correlation.
#[derive(Clone, Copy, Debug)]
pub struct QuantumEntanglement {
    pub market_a: [u8; 32],
    pub market_b: [u8; 32],
    pub correlation_strength: u16,
    pub entanglement_type: EntanglementType,
    pub creation_slot: u64,
    pub coherence_level: u16,
    pub measurement_count: u32,
    pub last_interaction: u64,
}

impl QuantumEntanglement {
    pub const SIZE: usize = 95;
}

/// What a collapse suggests for an entangled market.
#[derive(Clone, Copy, Debug)]
pub struct CollapsedMarket {
    pub market_id: [u8; 32],
    pub collapse_probability: u16,
    pub suggested_outcome: ResolutionOutcome,
    pub confidence_level: u16,
    pub should_auto_resolve: bool,
}

/// Record of a collapse.
#[derive(Clone, Copy, Debug)]
pub struct CollapseEvent {
    pub triggering_market: [u8; 32],
    pub affected_markets: u32,
    pub collapse_slot: u64,
    pub total_correlation: u32,
    pub outcome: ResolutionOutcome,
}

impl CollapseEvent {
    pub const SIZE: usize = 49;
}

/// Wave function counters.
#[derive(Clone, Copy, Debug)]
pub struct WaveFunctionState {
    pub superposition_count: u32,
    pub collapse_count: u32,
    pub total_measurements: u64,
    pub average_coherence: u16,
}

impl WaveFunctionState {
    pub const SIZE: usize = 18;
}

impl Default for WaveFunctionState {
    fn default() -> (r: Self)
        ensures
            r.superposition_count == 0,
            r.collapse_count == 0,
            r.total_measurements == 0,
            r.average_coherence == 0,
    {
        WaveFunctionState { superposition_count: 0, collapse_count: 0, total_measurements: 0, average_coherence: 0 }
    }
}

/// Coherence seen at collapses.
#[derive(Clone, Copy, Debug)]
pub struct CoherenceMetrics {
    pub total_coherence: u64,
    pub measurements: u32,
    pub decoherence_events: u32,
}

impl CoherenceMetrics {
    pub const SIZE: usize = 16;

    /// Adds the coherence of a collapsed entanglement; below 50% it counts
    /// as a decoherence event.
    pub fn update_post_collapse(&mut self, coherence_level: u16)
        requires
            old(self).total_coherence + coherence_level <= u64::MAX,
            old(self).measurements < u32::MAX,
            coherence_level < 5000 ==> old(self).decoherence_events < u32::MAX,
        ensures
            final(self).total_coherence == old(self).total_coherence + coherence_level,
            final(self).measurements == old(self).measurements + 1,
            final(self).decoherence_events == old(self).decoherence_events + (if coherence_level < 5000 { 1int } else { 0int }),
    {
        self.total_coherence = self.total_coherence + coherence_level as u64;
        self.measurements = self.measurements + 1;
        if coherence_level < 5000 {
            self.decoherence_events = self.decoherence_events + 1;
        }
    }
}

impl Default for CoherenceMetrics {
    fn default() -> (r: Self)
        ensures
            r.total_coherence == 0,
            r.measurements == 0,
            r.decoherence_events == 0,
    {
        CoherenceMetrics { total_coherence: 0, measurements: 0, decoherence_events: 0 }
    }
}

/// A measurement waiting to be taken.
#[derive(Clone, Copy, Debug)]
pub struct PendingMeasurement {
    pub market_id: [u8; 32],
    pub requested_slot: u64,
    pub priority: u8,
}

impl PendingMeasurement {
    pub const SIZE: usize = 41;
}

/// Result of measuring a market.
#[derive(Clone, Copy, Debug)]
pub struct QuantumMeasurement {
    pub market_id: [u8; 32],
    pub is_superposition: bool,
    pub entanglement_count: u32,
    pub average_correlation: u16,
    pub measurement_slot: u64,
    pub wave_function_amplitude: u64,
}

/// A market a cascade reaches.
#[derive(Clone, Copy, Debug)]
pub struct CascadeMarket {
    pub market_id: [u8; 32],
    pub cascade_probability: u16,
    pub depth: u32,
}

/// Predicted cascade of a resolution.
#[derive(Clone, Debug)]
pub struct CascadePrediction {
    pub triggering_market: [u8; 32],
    pub affected_markets: Vec<CascadeMarket>,
    pub total_affected: u32,
    pub max_depth: u32,
    pub cascade_probability: u16,
}

/// Entanglements, collapse history and counters.
#[derive(Clone, Debug)]
pub struct QuantumCollapseHandler {
    pub total_collapses_handled: u64,
    pub active_entanglements: Vec<QuantumEntanglement>,
    pub collapse_history: Vec<CollapseEvent>,
    pub wave_function_state: WaveFunctionState,
    pub coherence_metrics: CoherenceMetrics,
    pub last_measurement_slot: u64,
    pub measurement_backlog: Vec<PendingMeasurement>,
    pub superposition_count: u32,
}

/// Similarity of two volumes with the historical correlation: the smaller
/// volume as a share of the larger (basis points), averaged with it.
pub open spec fn spec_volume_correlation(volume_a: u64, volume_b: u64, historical: u16) -> int {
    (spec_volume_ratio(volume_a, volume_b) + historical) / 2
}

/// The smaller of two volumes as a share of the larger, in basis points.
pub open spec fn spec_volume_ratio(volume_a: u64, volume_b: u64) -> int {
    if volume_a > volume_b {
        (volume_b as int) * 10000 / (volume_a as int)
    } else {
        (volume_a as int) * 10000 / (volume_b as int)
    }
}

/// Weighted correlation: price 50%, volume 30%, sentiment 20%.
pub open spec fn spec_quantum_correlation(price: int, volume: int, sentiment: int) -> int {
    (price * 5 + volume * 3 + sentiment * 2) / 10
}

/// Class of an entanglement by its correlation.
pub open spec fn spec_classify(correlation: u16) -> EntanglementType {
    if correlation >= 9900 {
        EntanglementType::Strong
    } else if correlation >= 9700 {
        EntanglementType::Moderate
    } else {
        EntanglementType::Weak
    }
}

/// Whether an entanglement involves a market.
pub open spec fn spec_touches(e: QuantumEntanglement, market: Seq<u8>) -> bool {
    e.market_a@ == market || e.market_b@ == market
}

/// The entanglements that involve a market, in order.
pub open spec fn spec_entangled(es: Seq<QuantumEntanglement>, market: Seq<u8>) -> Seq<QuantumEntanglement> {
    es.filter(|e: QuantumEntanglement| spec_touches(e, market))
}

/// The entanglements that do not involve a market, in order.
pub open spec fn spec_untouched(es: Seq<QuantumEntanglement>, market: Seq<u8>) -> Seq<QuantumEntanglement> {
    es.filter(|e: QuantumEntanglement| !spec_touches(e, market))
}

/// Sum of `f` over a list of entanglements.
pub open spec fn spec_sum_by(es: Seq<QuantumEntanglement>, f: spec_fn(QuantumEntanglement) -> int) -> int
    decreases es.len(),
{
    if es.len() == 0 {
        0
    } else {
        spec_sum_by(es.drop_last(), f) + f(es.last())
    }
}

/// Correlation of an entanglement.
pub open spec fn spec_corr(e: QuantumEntanglement) -> int {
    e.correlation_strength as int
}

/// Coherence of an entanglement.
pub open spec fn spec_coherence(e: QuantumEntanglement) -> int {
    e.coherence_level as int
}

/// One for an entanglement below 50% coherence, else zero.
pub open spec fn spec_decoherent(e: QuantumEntanglement) -> int {
    if e.coherence_level < 5000 { 1 } else { 0 }
}

/// Weight of a resolution outcome: a clear outcome counts fully, Invalid half.
pub open spec fn spec_outcome_factor(outcome: ResolutionOutcome) -> int {
    match outcome {
        ResolutionOutcome::Invalid => 5000,
        _ => 10000,
    }
}

/// Product of correlation, coherence and outcome weight of a collapse.
pub open spec fn spec_collapse_product(e: QuantumEntanglement, outcome: ResolutionOutcome) -> int {
    e.correlation_strength * e.coherence_level * spec_outcome_factor(outcome)
}

/// Probability that a collapse carries over an entanglement, in basis points.
pub open spec fn spec_collapse_probability(e: QuantumEntanglement, outcome: ResolutionOutcome) -> u16 {
    let p = spec_collapse_product(e, outcome) / 100_000_000;
    (if p < 10000 { p } else { 10000 }) as u16
}

/// Outcome suggested for the other market: the same outcome for a strong
/// entanglement, or a moderate one above 75%; Invalid otherwise.
pub open spec fn spec_collapsed_state(prob: u16, outcome: ResolutionOutcome, t: EntanglementType) -> ResolutionOutcome {
    match t {
        EntanglementType::Strong => outcome,
        EntanglementType::Moderate => if prob > 7500 { outcome } else { ResolutionOutcome::Invalid },
        EntanglementType::Weak => ResolutionOutcome::Invalid,
    }
}

/// Confidence in a suggestion: 90%, 70% or 50% by class, scaled by coherence.
pub open spec fn spec_confidence(e: QuantumEntanglement) -> u16 {
    let base: int = match e.entanglement_type {
        EntanglementType::Strong => 9000,
        EntanglementType::Moderate => 7000,
        EntanglementType::Weak => 5000,
    };
    (base * e.coherence_level / 10000) as u16
}

/// The other market of an entanglement that involves `market`.
pub open spec fn spec_other(e: QuantumEntanglement, market: Seq<u8>) -> [u8; 32] {
    if e.market_a@ == market { e.market_b } else { e.market_a }
}

/// What a collapse of `market` suggests through one entanglement.
pub open spec fn spec_collapsed(e: QuantumEntanglement, market: Seq<u8>, outcome: ResolutionOutcome) -> CollapsedMarket {
    let prob = spec_collapse_probability(e, outcome);
    CollapsedMarket {
        market_id: spec_other(e, market),
        collapse_probability: prob,
        suggested_outcome: spec_collapsed_state(prob, outcome, e.entanglement_type),
        confidence_level: spec_confidence(e),
        should_auto_resolve: prob > 9000 && e.entanglement_type == EntanglementType::Strong,
    }
}

/// The counters a collapse of `market` raises stay within their types, and
/// at least one entanglement involves it.
pub open spec fn spec_collapse_fits(h: QuantumCollapseHandler, market: Seq<u8>, outcome: ResolutionOutcome) -> bool {
    let ent = spec_entangled(h.active_entanglements@, market);
    &&& ent.len() > 0
    &&& forall|i: int| 0 <= i < ent.len() ==> spec_collapse_product(#[trigger] ent[i], outcome) <= u32::MAX
    &&& spec_sum_by(ent, |e: QuantumEntanglement| spec_corr(e)) <= u32::MAX
    &&& h.wave_function_state.collapse_count + ent.len() <= u32::MAX
    &&& h.coherence_metrics.total_coherence + spec_sum_by(ent, |e: QuantumEntanglement| spec_coherence(e)) <= u64::MAX
    &&& h.coherence_metrics.measurements + ent.len() <= u32::MAX
    &&& h.coherence_metrics.decoherence_events + spec_sum_by(ent, |e: QuantumEntanglement| spec_decoherent(e)) <= u32::MAX
    &&& h.total_collapses_handled < u64::MAX
}

proof fn lemma_sum_by_step(es: Seq<QuantumEntanglement>, f: spec_fn(QuantumEntanglement) -> int, j: int)
    requires
        0 <= j < es.len(),
    ensures
        spec_sum_by(es.take(j + 1), f) == spec_sum_by(es.take(j), f) + f(es[j]),
{
    assert(es.take(j + 1).drop_last() =~= es.take(j));
}

proof fn lemma_sum_by_take_le(es: Seq<QuantumEntanglement>, f: spec_fn(QuantumEntanglement) -> int, j: int)
    requires
        0 <= j <= es.len(),
        forall|e: QuantumEntanglement| #[trigger] f(e) >= 0,
    ensures
        spec_sum_by(es.take(j), f) <= spec_sum_by(es, f),
    decreases es.len() - j,
{
    if j < es.len() {
        lemma_sum_by_step(es, f, j);
        lemma_sum_by_take_le(es, f, j + 1);
    } else {
        assert(es.take(j) =~= es);
    }
}

/// An entanglement after coherence decay up to `slot`: it loses 100 basis
/// points per 3600 slots since its last interaction, at most 1000 at once.
pub open spec fn spec_decayed(e: QuantumEntanglement, slot: u64) -> QuantumEntanglement {
    let elapsed: int = if slot >= e.last_interaction { slot - e.last_interaction } else { 0 };
    let decay: int = elapsed * 100 / 3600;
    let loss: int = if decay < 1000 { decay } else { 1000 };
    QuantumEntanglement {
        coherence_level: (if e.coherence_level >= loss { e.coherence_level - loss } else { 0 }) as u16,
        last_interaction: slot,
        ..e
    }
}

/// Whether an entanglement keeps more than 10% coherence.
pub open spec fn spec_coherent(e: QuantumEntanglement) -> bool {
    e.coherence_level > 1000
}

/// Square of an entanglement's correlation.
pub open spec fn spec_corr_squared(e: QuantumEntanglement) -> int {
    e.correlation_strength * e.correlation_strength
}

/// An entanglement after a measurement of `market`: counted once more when
/// it involves the market.
pub open spec fn spec_measured(e: QuantumEntanglement, market: Seq<u8>) -> QuantumEntanglement {
    if spec_touches(e, market) {
        QuantumEntanglement { measurement_count: (e.measurement_count + 1) as u32, ..e }
    } else {
        e
    }
}

/// Integer square root: the largest `r` with `r * r <= n`.
fn integer_sqrt(n: u64) -> (r: u64)
    ensures
        r * r <= n < (r + 1) * (r + 1),
{
    let mut lo: u64 = 0;
    let mut hi: u64 = 0x1_0000_0000;
    assert(n < hi * hi) by (nonlinear_arith)
        requires
            hi == 0x1_0000_0000,
    ;
    while hi - lo > 1
        invariant
            lo < hi <= 0x1_0000_0000,
            lo * lo <= n,
            n < hi * hi,
        decreases hi - lo,
    {
        let mid = lo + (hi - lo) / 2;
        assert(mid * mid <= 0xffff_ffff * 0xffff_ffff) by (nonlinear_arith)
            requires
                mid < 0x1_0000_0000,
        ;
        if mid * mid <= n {
            lo = mid;
        } else {
            hi = mid;
        }
    }
    assert(hi == lo + 1);
    lo
}

/// The market an entanglement leads to from `market`, if it involves it.
pub open spec fn spec_connected(e: QuantumEntanglement, market: Seq<u8>) -> Option<[u8; 32]> {
    if e.market_a@ == market {
        Some(e.market_b)
    } else if e.market_b@ == market {
        Some(e.market_a)
    } else {
        None
    }
}

/// Whether a market is among those seen.
pub open spec fn spec_seen(v: Seq<[u8; 32]>, market: Seq<u8>) -> bool {
    exists|i: int| 0 <= i < v.len() && v[i]@ == market
}

/// Probability that a cascade carries over a correlation at a depth: 20
/// points less per level, in basis points.
pub open spec fn spec_cascade_probability(correlation: u16, depth: u32) -> u16 {
    let factor: int = if depth * 2000 <= 10000 { 10000 - depth * 2000 } else { 0 };
    let p = correlation * factor / 10000;
    (if p < 10000 { p } else { 10000 }) as u16
}

/// Search state: the markets seen, the next layer, the markets reached.
pub type CascadeSearch = (Seq<[u8; 32]>, Seq<[u8; 32]>, Seq<CascadeMarket>);

/// Scans the entanglements in order from `market` at `depth`: each market
/// they lead to that was not seen yet is seen, joins the next layer and is
/// reached, with the probability of the entanglement that led to it.
pub open spec fn spec_scan(es: Seq<QuantumEntanglement>, market: Seq<u8>, depth: u32, st: CascadeSearch) -> CascadeSearch
    decreases es.len(),
{
    if es.len() == 0 {
        st
    } else {
        let prev = spec_scan(es.drop_last(), market, depth, st);
        let e = es.last();
        match spec_connected(e, market) {
            Some(c) => if spec_seen(prev.0, c@) {
                prev
            } else {
                (
                    prev.0.push(c),
                    prev.1.push(c),
                    prev.2.push(
                        CascadeMarket {
                            market_id: c,
                            cascade_probability: spec_cascade_probability(e.correlation_strength, depth),
                            depth: (depth + 1) as u32,
                        },
                    ),
                )
            },
            None => prev,
        }
    }
}

/// Scans from every market of a layer, in order.
pub open spec fn spec_layer(es: Seq<QuantumEntanglement>, layer: Seq<[u8; 32]>, depth: u32, st: CascadeSearch) -> CascadeSearch
    decreases layer.len(),
{
    if layer.len() == 0 {
        st
    } else {
        spec_scan(es, layer.last()@, depth, spec_layer(es, layer.drop_last(), depth, st))
    }
}

/// Breadth-first search from a layer, at most five levels deep: the markets
/// seen, the markets reached and the depth where it stopped.
pub open spec fn spec_cascade(
    es: Seq<QuantumEntanglement>,
    layer: Seq<[u8; 32]>,
    seen: Seq<[u8; 32]>,
    reached: Seq<CascadeMarket>,
    depth: u32,
) -> (Seq<[u8; 32]>, Seq<CascadeMarket>, u32)
    decreases 5 - depth,
{
    if layer.len() == 0 || depth >= 5 {
        (seen, reached, depth)
    } else {
        let st = spec_layer(es, layer, depth, (seen, Seq::empty(), reached));
        spec_cascade(es, st.1, st.0, st.2, (depth + 1) as u32)
    }
}

/// The cascade from one market.
pub open spec fn spec_cascade_from(es: Seq<QuantumEntanglement>, market: [u8; 32]) -> (Seq<[u8; 32]>, Seq<CascadeMarket>, u32) {
    spec_cascade(es, seq![market], seq![market], Seq::empty(), 0)
}

/// Sum of the probabilities of the markets reached.
pub open spec fn spec_probability_sum(ms: Seq<CascadeMarket>) -> int
    decreases ms.len(),
{
    if ms.len() == 0 {
        0
    } else {
        spec_probability_sum(ms.drop_last()) + ms.last().cascade_probability
    }
}

proof fn lemma_probability_sum_take(ms: Seq<CascadeMarket>, j: int)
    requires
        0 <= j <= ms.len(),
    ensures
        spec_probability_sum(ms.take(j)) <= spec_probability_sum(ms),
        j < ms.len() ==> spec_probability_sum(ms.take(j + 1)) == spec_probability_sum(ms.take(j))
            + ms[j].cascade_probability,
    decreases ms.len() - j,
{
    if j < ms.len() {
        assert(ms.take(j + 1).drop_last() =~= ms.take(j));
        lemma_probability_sum_take(ms, j + 1);
    } else {
        assert(ms.take(j) =~= ms);
    }
}

/// The search so far: the markets seen are the starting market followed by
/// the markets reached, with no market twice.
pub open spec fn spec_search_ok(start: [u8; 32], seen: Seq<[u8; 32]>, reached: Seq<CascadeMarket>) -> bool {
    &&& seen == seq![start] + reached.map_values(|m: CascadeMarket| m.market_id)
    &&& forall|i: int, j: int| 0 <= i < j < seen.len() ==> seen[i]@ != seen[j]@
}

proof fn lemma_scan_keeps_search_ok(es: Seq<QuantumEntanglement>, market: Seq<u8>, depth: u32, st: CascadeSearch, start: [u8; 32])
    requires
        spec_search_ok(start, st.0, st.2),
    ensures
        spec_search_ok(start, spec_scan(es, market, depth, st).0, spec_scan(es, market, depth, st).2),
    decreases es.len(),
{
    if es.len() > 0 {
        lemma_scan_keeps_search_ok(es.drop_last(), market, depth, st, start);
        let prev = spec_scan(es.drop_last(), market, depth, st);
        let e = es.last();
        match spec_connected(e, market) {
            Some(c) => {
                if !spec_seen(prev.0, c@) {
                    let nm = CascadeMarket {
                        market_id: c,
                        cascade_probability: spec_cascade_probability(e.correlation_strength, depth),
                        depth: (depth + 1) as u32,
                    };
                    assert(prev.2.push(nm).map_values(|m: CascadeMarket| m.market_id) =~= prev.2.map_values(
                        |m: CascadeMarket| m.market_id,
                    ).push(c));
                    assert(prev.0.push(c) =~= seq![start] + prev.2.push(nm).map_values(|m: CascadeMarket| m.market_id));
                    let v = prev.0.push(c);
                    assert forall|i: int, j: int| 0 <= i < j < v.len() implies v[i]@ != v[j]@ by {
                        if j == v.len() - 1 {
                            assert(v[i] == prev.0[i]);
                        }
                    }
                }
            },
            None => {},
        }
    }
}

proof fn lemma_layer_keeps_search_ok(es: Seq<QuantumEntanglement>, layer: Seq<[u8; 32]>, depth: u32, st: CascadeSearch, start: [u8; 32])
    requires
        spec_search_ok(start, st.0, st.2),
    ensures
        spec_search_ok(start, spec_layer(es, layer, depth, st).0, spec_layer(es, layer, depth, st).2),
    decreases layer.len(),
{
    if layer.len() > 0 {
        lemma_layer_keeps_search_ok(es, layer.drop_last(), depth, st, start);
        lemma_scan_keeps_search_ok(es, layer.last()@, depth, spec_layer(es, layer.drop_last(), depth, st), start);
    }
}

proof fn lemma_cascade_keeps_search_ok(
    es: Seq<QuantumEntanglement>,
    layer: Seq<[u8; 32]>,
    seen: Seq<[u8; 32]>,
    reached: Seq<CascadeMarket>,
    depth: u32,
    start: [u8; 32],
)
    requires
        spec_search_ok(start, seen, reached),
    ensures
        spec_search_ok(start, spec_cascade(es, layer, seen, reached, depth).0, spec_cascade(es, layer, seen, reached, depth).1),
    decreases 5 - depth,
{
    if !(layer.len() == 0 || depth >= 5) {
        let st = spec_layer(es, layer, depth, (seen, Seq::empty(), reached));
        lemma_layer_keeps_search_ok(es, layer, depth, (seen, Seq::empty(), reached), start);
        lemma_cascade_keeps_search_ok(es, st.1, st.0, st.2, (depth + 1) as u32, start);
    }
}

/// A cascade reaches each market at most once and never the market it
/// starts from; the markets counted as affected are exactly those reached.
pub proof fn lemma_cascade_reaches_each_market_once(es: Seq<QuantumEntanglement>, start: [u8; 32])
    ensures
        ({
            let c = spec_cascade_from(es, start);
            &&& c.0.len() == c.1.len() + 1
            &&& forall|i: int| 0 <= i < c.1.len() ==> (#[trigger] c.1[i]).market_id@ != start@
            &&& forall|i: int, j: int| 0 <= i < j < c.1.len() ==> (#[trigger] c.1[i]).market_id@ != (#[trigger] c.1[j]).market_id@
        }),
{
    assert(seq![start] =~= seq![start] + Seq::<CascadeMarket>::empty().map_values(|m: CascadeMarket| m.market_id));
    lemma_cascade_keeps_search_ok(es, seq![start], seq![start], Seq::empty(), 0, start);
    let c = spec_cascade_from(es, start);
    let ids = c.1.map_values(|m: CascadeMarket| m.market_id);
    assert(c.0 == seq![start] + ids);
    assert forall|i: int| 0 <= i < c.1.len() implies (#[trigger] c.1[i]).market_id@ != start@ by {
        assert(c.0[i + 1] == c.1[i].market_id);
        assert(c.0[0] == start);
    }
    assert forall|i: int, j: int| 0 <= i < j < c.1.len() implies (#[trigger] c.1[i]).market_id@ != (
    #[trigger] c.1[j]).market_id@ by {
        assert(c.0[i + 1] == c.1[i].market_id);
        assert(c.0[j + 1] == c.1[j].market_id);
    }
}

fn seen(v: &Vec<[u8; 32]>, market: &[u8; 32]) -> (r: bool)
    ensures
        r == spec_seen(v@, market@),
{
    let mut i: usize = 0;
    while i < v.len()
        invariant
            i <= v@.len(),
            forall|j: int| 0 <= j < i ==> v@[j]@ != market@,
        decreases v@.len() - i,
    {
        if bytes_eq(&v[i], market) {
            return true;
        }
        i = i + 1;
    }
    false
}

/// Keeps the entanglements that do not involve `market`, in order.
fn entanglements_without(es: &Vec<QuantumEntanglement>, market: &[u8; 32]) -> (r: Vec<QuantumEntanglement>)
    ensures
        r@ == spec_untouched(es@, market@),
{
    let ghost keep = |e: QuantumEntanglement| !spec_touches(e, market@);
    let mut out: Vec<QuantumEntanglement> = Vec::new();
    let mut i: usize = 0;
    while i < es.len()
        invariant
            i <= es@.len(),
            keep == (|e: QuantumEntanglement| !spec_touches(e, market@)),
            out@ == es@.take(i as int).filter(keep),
        decreases es@.len() - i,
    {
        let e = es[i];
        proof {
            reveal_with_fuel(Seq::filter, 1);
            assert(es@.take(i + 1).drop_last() =~= es@.take(i as int));
        }
        if !(bytes_eq(&e.market_a, market) || bytes_eq(&e.market_b, market)) {
            out.push(e);
        }
        i = i + 1;
    }
    assert(es@.take(i as int) =~= es@);
    out
}

/// The entanglements that involve `market`, in order.
fn entanglements_with(es: &Vec<QuantumEntanglement>, market: &[u8; 32]) -> (r: Vec<QuantumEntanglement>)
    ensures
        r@ == spec_entangled(es@, market@),
{
    let ghost keep = |e: QuantumEntanglement| spec_touches(e, market@);
    let mut out: Vec<QuantumEntanglement> = Vec::new();
    let mut i: usize = 0;
    while i < es.len()
        invariant
            i <= es@.len(),
            keep == (|e: QuantumEntanglement| spec_touches(e, market@)),
            out@ == es@.take(i as int).filter(keep),
        decreases es@.len() - i,
    {
        let e = es[i];
        proof {
            reveal_with_fuel(Seq::filter, 1);
            assert(es@.take(i + 1).drop_last() =~= es@.take(i as int));
        }
        if bytes_eq(&e.market_a, market) || bytes_eq(&e.market_b, market) {
            out.push(e);
        }
        i = i + 1;
    }
    assert(es@.take(i as int) =~= es@);
    out
}

impl QuantumCollapseHandler {
    /// Space of the handler's account.
    pub const SIZE: usize = 8 + 4 + 10 * 95 + 4 + 100 * 49 + 18 + 16 + 8 + 4 + 50 * 41 + 4;

    /// Clears all state; the last measurement is the current slot.
    pub fn initialize(&mut self, current_slot: u64) -> (r: Result<(), BettingPlatformError>)
        ensures
            r is Ok,
            final(self).total_collapses_handled == 0,
            final(self).active_entanglements@.len() == 0,
            final(self).collapse_history@.len() == 0,
            final(self).wave_function_state.superposition_count == 0,
            final(self).wave_function_state.collapse_count == 0,
            final(self).wave_function_state.total_measurements == 0,
            final(self).wave_function_state.average_coherence == 0,
            final(self).coherence_metrics.total_coherence == 0,
            final(self).coherence_metrics.measurements == 0,
            final(self).coherence_metrics.decoherence_events == 0,
            final(self).last_measurement_slot == current_slot,
            final(self).measurement_backlog@.len() == 0,
            final(self).superposition_count == 0,
    {
        self.total_collapses_handled = 0;
        self.active_entanglements = Vec::new();
        self.collapse_history = Vec::new();
        self.wave_function_state = WaveFunctionState::default();
        self.coherence_metrics = CoherenceMetrics::default();
        self.last_measurement_slot = current_slot;
        self.measurement_backlog = Vec::new();
        self.superposition_count = 0;
        Ok(())
    }

    /// Volume similarity of two markets combined with their historical
    /// volume correlation.
    pub fn calculate_volume_correlation(volume_a: u64, volume_b: u64, historical_correlation: u16) -> (r: u16)
        requires
            volume_a > 0 || volume_b > 0,
            spec_volume_ratio(volume_a, volume_b) + historical_correlation <= u16::MAX,
        ensures
            r == spec_volume_correlation(volume_a, volume_b, historical_correlation),
    {
        let ratio: u128 = if volume_a > volume_b {
            (volume_b as u128 * 10000) / volume_a as u128
        } else {
            (volume_a as u128 * 10000) / volume_b as u128
        };
        assert(ratio <= 10000) by (nonlinear_arith)
            requires
                ratio == spec_volume_ratio(volume_a, volume_b),
                volume_a > 0 || volume_b > 0,
        ;
        (ratio as u16 + historical_correlation) / 2
    }

    /// Weighted correlation of two markets from their price correlation
    /// (basis points), volume similarity and sentiment correlation.
    pub fn calculate_quantum_correlation(
        market_a: &MarketState,
        market_b: &MarketState,
        correlation_data: &CorrelationData,
        price_correlation: u16,
    ) -> (r: u16)
        requires
            market_a.volume > 0 || market_b.volume > 0,
            spec_volume_ratio(market_a.volume, market_b.volume) + correlation_data.volume_correlation <= u16::MAX,
        ensures
            r == spec_quantum_correlation(
                price_correlation as int,
                spec_volume_correlation(market_a.volume, market_b.volume, correlation_data.volume_correlation),
                correlation_data.sentiment_correlation as int,
            ),
    {
        let volume_corr = Self::calculate_volume_correlation(
            market_a.volume,
            market_b.volume,
            correlation_data.volume_correlation,
        );
        let sentiment_corr = correlation_data.sentiment_correlation;
        let quantum_corr = (price_correlation as u32 * 5 + volume_corr as u32 * 3 + sentiment_corr as u32 * 2) / 10;
        quantum_corr as u16
    }

    /// Class of an entanglement: Strong from 99%, Moderate from 97%, else Weak.
    pub fn classify_entanglement(correlation: u16) -> (r: EntanglementType)
        ensures
            r == spec_classify(correlation),
    {
        if correlation >= 9900 {
            EntanglementType::Strong
        } else if correlation >= 9700 {
            EntanglementType::Moderate
        } else {
            EntanglementType::Weak
        }
    }

    /// Entangles two markets when both have the minimum volume and their
    /// weighted correlation reaches 95%: the entanglement starts at full
    /// coherence at the current slot. `price_correlation` is the correlation
    /// of the two price histories in basis points.
    pub fn detect_entanglement(
        &mut self,
        market_a: &MarketState,
        market_b: &MarketState,
        correlation_data: &CorrelationData,
        price_correlation: u16,
        current_slot: u64,
    ) -> (r: Result<bool, BettingPlatformError>)
        requires
            (market_a.volume >= MIN_ENTANGLEMENT_VOLUME && market_b.volume >= MIN_ENTANGLEMENT_VOLUME)
                ==> spec_volume_ratio(market_a.volume, market_b.volume) + correlation_data.volume_correlation <= u16::MAX,
            old(self).superposition_count < u32::MAX,
        ensures
            ({
                let corr = spec_quantum_correlation(
                    price_correlation as int,
                    spec_volume_correlation(market_a.volume, market_b.volume, correlation_data.volume_correlation),
                    correlation_data.sentiment_correlation as int,
                );
                let entangles = market_a.volume >= MIN_ENTANGLEMENT_VOLUME && market_b.volume >= MIN_ENTANGLEMENT_VOLUME
                    && corr >= COLLAPSE_THRESHOLD_BPS;
                &&& r == Ok::<bool, BettingPlatformError>(entangles)
                &&& if entangles {
                    let e = final(self).active_entanglements@.last();
                    &&& final(self).active_entanglements@ == old(self).active_entanglements@.push(e)
                    &&& e.market_a == market_a.market_id
                    &&& e.market_b == market_b.market_id
                    &&& e.correlation_strength == corr
                    &&& e.entanglement_type == spec_classify(corr as u16)
                    &&& e.creation_slot == current_slot
                    &&& e.coherence_level == 10000
                    &&& e.measurement_count == 0
                    &&& e.last_interaction == current_slot
                    &&& final(self).superposition_count == old(self).superposition_count + 1
                } else {
                    &&& final(self).active_entanglements == old(self).active_entanglements
                    &&& final(self).superposition_count == old(self).superposition_count
                }
            }),
            final(self).total_collapses_handled == old(self).total_collapses_handled,
            final(self).collapse_history == old(self).collapse_history,
            final(self).wave_function_state == old(self).wave_function_state,
            final(self).coherence_metrics == old(self).coherence_metrics,
            final(self).last_measurement_slot == old(self).last_measurement_slot,
            final(self).measurement_backlog == old(self).measurement_backlog,
    {
        if market_a.volume < MIN_ENTANGLEMENT_VOLUME || market_b.volume < MIN_ENTANGLEMENT_VOLUME {
            return Ok(false);
        }
        let correlation = Self::calculate_quantum_correlation(market_a, market_b, correlation_data, price_correlation);
        if correlation >= COLLAPSE_THRESHOLD_BPS {
            let entanglement = QuantumEntanglement {
                market_a: market_a.market_id,
                market_b: market_b.market_id,
                correlation_strength: correlation,
                entanglement_type: Self::classify_entanglement(correlation),
                creation_slot: current_slot,
                coherence_level: 10000,
                measurement_count: 0,
                last_interaction: current_slot,
            };
            self.active_entanglements.push(entanglement);
            self.superposition_count = self.superposition_count + 1;
            Ok(true)
        } else {
            Ok(false)
        }
    }

    /// Probability that a collapse carries over an entanglement.
    pub fn calculate_collapse_probability(entanglement: &QuantumEntanglement, outcome: &ResolutionOutcome) -> (r: u16)
        requires
            spec_collapse_product(*entanglement, *outcome) <= u32::MAX,
        ensures
            r == spec_collapse_probability(*entanglement, *outcome),
    {
        let base_prob = entanglement.correlation_strength;
        let coherence_factor = entanglement.coherence_level;
        let outcome_factor: u32 = match outcome {
            ResolutionOutcome::Yes => 10000,
            ResolutionOutcome::No => 10000,
            ResolutionOutcome::Invalid => 5000,
        };
        assert(base_prob as u32 * coherence_factor as u32 * outcome_factor == spec_collapse_product(*entanglement, *outcome));
        let collapse_prob = (base_prob as u32 * coherence_factor as u32 * outcome_factor) / 100_000_000;
        if collapse_prob < 10000 {
            collapse_prob as u16
        } else {
            10000
        }
    }

    /// Outcome suggested for the other market of an entanglement.
    pub fn determine_collapsed_state(
        collapse_prob: u16,
        trigger_outcome: &ResolutionOutcome,
        entanglement_type: EntanglementType,
    ) -> (r: ResolutionOutcome)
        ensures
            r == spec_collapsed_state(collapse_prob, *trigger_outcome, entanglement_type),
    {
        match entanglement_type {
            EntanglementType::Strong => *trigger_outcome,
            EntanglementType::Moderate => if collapse_prob > 7500 {
                *trigger_outcome
            } else {
                ResolutionOutcome::Invalid
            },
            EntanglementType::Weak => ResolutionOutcome::Invalid,
        }
    }

    /// Confidence in a suggestion made through an entanglement.
    pub fn calculate_confidence(entanglement: &QuantumEntanglement) -> (r: u16)
        ensures
            r == spec_confidence(*entanglement),
    {
        let base_confidence: u32 = match entanglement.entanglement_type {
            EntanglementType::Strong => 9000,
            EntanglementType::Moderate => 7000,
            EntanglementType::Weak => 5000,
        };
        let confidence = (base_confidence * entanglement.coherence_level as u32) / 10000;
        confidence as u16
    }

    /// Resolution of `triggering_market` collapses every entanglement that
    /// involves it: each other market gets a suggested outcome, the
    /// collapse is recorded with the mean correlation, and those
    /// entanglements are dropped.
    pub fn handle_collapse(
        &mut self,
        triggering_market: &[u8; 32],
        resolution_outcome: ResolutionOutcome,
        current_slot: u64,
    ) -> (r: Result<Vec<CollapsedMarket>, BettingPlatformError>)
        requires
            spec_collapse_fits(*old(self), triggering_market@, resolution_outcome),
        ensures
            ({
                let ent = spec_entangled(old(self).active_entanglements@, triggering_market@);
                let n = ent.len();
                &&& r matches Ok(v) && v@ == ent.map_values(
                    |e: QuantumEntanglement| spec_collapsed(e, triggering_market@, resolution_outcome),
                )
                &&& final(self).active_entanglements@ == spec_untouched(old(self).active_entanglements@, triggering_market@)
                &&& final(self).collapse_history@ == old(self).collapse_history@.push(
                    CollapseEvent {
                        triggering_market: *triggering_market,
                        affected_markets: n as u32,
                        collapse_slot: current_slot,
                        total_correlation: (spec_sum_by(ent, |e: QuantumEntanglement| spec_corr(e)) / (n as int)) as u32,
                        outcome: resolution_outcome,
                    },
                )
                &&& final(self).wave_function_state.collapse_count == old(self).wave_function_state.collapse_count + n
                &&& final(self).coherence_metrics.total_coherence == old(self).coherence_metrics.total_coherence
                    + spec_sum_by(ent, |e: QuantumEntanglement| spec_coherence(e))
                &&& final(self).coherence_metrics.measurements == old(self).coherence_metrics.measurements + n
                &&& final(self).coherence_metrics.decoherence_events == old(self).coherence_metrics.decoherence_events
                    + spec_sum_by(ent, |e: QuantumEntanglement| spec_decoherent(e))
                &&& final(self).superposition_count == (if old(self).superposition_count >= n {
                    old(self).superposition_count - n
                } else {
                    0
                })
            }),
            final(self).total_collapses_handled == old(self).total_collapses_handled + 1,
            final(self).wave_function_state.superposition_count == old(self).wave_function_state.superposition_count,
            final(self).wave_function_state.total_measurements == old(self).wave_function_state.total_measurements,
            final(self).wave_function_state.average_coherence == old(self).wave_function_state.average_coherence,
            final(self).last_measurement_slot == old(self).last_measurement_slot,
            final(self).measurement_backlog == old(self).measurement_backlog,
    {
        let ghost o = *self;
        let entangled = entanglements_with(&self.active_entanglements, triggering_market);
        let ghost ent = entangled@;
        let ghost fcorr = |e: QuantumEntanglement| spec_corr(e);
        let ghost fcoh = |e: QuantumEntanglement| spec_coherence(e);
        let ghost fdec = |e: QuantumEntanglement| spec_decoherent(e);
        let mut collapsed_markets: Vec<CollapsedMarket> = Vec::new();
        let mut corr_sum: u32 = 0;
        let mut j: usize = 0;
        while j < entangled.len()
            invariant
                j <= ent.len(),
                ent == entangled@,
                ent == spec_entangled(o.active_entanglements@, triggering_market@),
                spec_collapse_fits(o, triggering_market@, resolution_outcome),
                fcorr == (|e: QuantumEntanglement| spec_corr(e)),
                fcoh == (|e: QuantumEntanglement| spec_coherence(e)),
                fdec == (|e: QuantumEntanglement| spec_decoherent(e)),
                collapsed_markets@ == ent.take(j as int).map_values(
                    |e: QuantumEntanglement| spec_collapsed(e, triggering_market@, resolution_outcome),
                ),
                corr_sum == spec_sum_by(ent.take(j as int), fcorr),
                self.wave_function_state.collapse_count == o.wave_function_state.collapse_count + j,
                self.coherence_metrics.total_coherence == o.coherence_metrics.total_coherence + spec_sum_by(ent.take(j as int), fcoh),
                self.coherence_metrics.measurements == o.coherence_metrics.measurements + j,
                self.coherence_metrics.decoherence_events == o.coherence_metrics.decoherence_events + spec_sum_by(
                    ent.take(j as int),
                    fdec,
                ),
                self.active_entanglements == o.active_entanglements,
                self.collapse_history == o.collapse_history,
                self.total_collapses_handled == o.total_collapses_handled,
                self.superposition_count == o.superposition_count,
                self.last_measurement_slot == o.last_measurement_slot,
                self.measurement_backlog == o.measurement_backlog,
                self.wave_function_state.superposition_count == o.wave_function_state.superposition_count,
                self.wave_function_state.total_measurements == o.wave_function_state.total_measurements,
                self.wave_function_state.average_coherence == o.wave_function_state.average_coherence,
            decreases ent.len() - j,
        {
            let e = entangled[j];
            proof {
                lemma_sum_by_step(ent, fcorr, j as int);
                lemma_sum_by_step(ent, fcoh, j as int);
                lemma_sum_by_step(ent, fdec, j as int);
                lemma_sum_by_take_le(ent, fcorr, j + 1);
                lemma_sum_by_take_le(ent, fcoh, j + 1);
                lemma_sum_by_take_le(ent, fdec, j + 1);
                assert(spec_collapse_product(ent[j as int], resolution_outcome) <= u32::MAX);
            }
            let affected_market = if bytes_eq(&e.market_a, triggering_market) {
                e.market_b
            } else {
                e.market_a
            };
            let collapse_prob = Self::calculate_collapse_probability(&e, &resolution_outcome);
            let collapsed_state = Self::determine_collapsed_state(collapse_prob, &resolution_outcome, e.entanglement_type);
            let confidence = Self::calculate_confidence(&e);
            let strong = match e.entanglement_type {
                EntanglementType::Strong => true,
                _ => false,
            };
            collapsed_markets.push(
                CollapsedMarket {
                    market_id: affected_market,
                    collapse_probability: collapse_prob,
                    suggested_outcome: collapsed_state,
                    confidence_level: confidence,
                    should_auto_resolve: collapse_prob > 9000 && strong,
                },
            );
            corr_sum = corr_sum + e.correlation_strength as u32;
            self.wave_function_state.collapse_count = self.wave_function_state.collapse_count + 1;
            self.coherence_metrics.update_post_collapse(e.coherence_level);
            proof {
                assert(ent.take(j + 1) =~= ent.take(j as int).push(ent[j as int]));
                assert(collapsed_markets@ =~= ent.take(j + 1).map_values(
                    |e: QuantumEntanglement| spec_collapsed(e, triggering_market@, resolution_outcome),
                ));
            }
            j = j + 1;
        }
        proof {
            assert(ent.take(j as int) =~= ent);
        }
        let n = entangled.len() as u32;
        self.collapse_history.push(
            CollapseEvent {
                triggering_market: *triggering_market,
                affected_markets: collapsed_markets.len() as u32,
                collapse_slot: current_slot,
                total_correlation: corr_sum / n,
                outcome: resolution_outcome,
            },
        );
        self.active_entanglements = entanglements_without(&self.active_entanglements, triggering_market);
        self.total_collapses_handled = self.total_collapses_handled + 1;
        self.superposition_count = self.superposition_count.saturating_sub(n);
        Ok(collapsed_markets)
    }


    /// Decays the coherence of every entanglement up to `current_slot` and
    /// drops those left at 10% or less.
    pub fn update_coherence(&mut self, current_slot: u64) -> (r: Result<(), BettingPlatformError>)
        requires
            forall|i: int| 0 <= i < old(self).active_entanglements@.len() ==> (if current_slot
                >= (#[trigger] old(self).active_entanglements@[i]).last_interaction {
                current_slot - old(self).active_entanglements@[i].last_interaction
            } else {
                0
            }) * 100 <= u64::MAX,
        ensures
            r is Ok,
            final(self).active_entanglements@ == old(self).active_entanglements@.map_values(
                |e: QuantumEntanglement| spec_decayed(e, current_slot),
            ).filter(|e: QuantumEntanglement| spec_coherent(e)),
            final(self).total_collapses_handled == old(self).total_collapses_handled,
            final(self).collapse_history == old(self).collapse_history,
            final(self).wave_function_state == old(self).wave_function_state,
            final(self).coherence_metrics == old(self).coherence_metrics,
            final(self).last_measurement_slot == old(self).last_measurement_slot,
            final(self).measurement_backlog == old(self).measurement_backlog,
            final(self).superposition_count == old(self).superposition_count,
    {
        let ghost es = self.active_entanglements@;
        let ghost dec = |e: QuantumEntanglement| spec_decayed(e, current_slot);
        let ghost keep = |e: QuantumEntanglement| spec_coherent(e);
        let mut out: Vec<QuantumEntanglement> = Vec::new();
        let mut i: usize = 0;
        while i < self.active_entanglements.len()
            invariant
                i <= es.len(),
                es == self.active_entanglements@,
                dec == (|e: QuantumEntanglement| spec_decayed(e, current_slot)),
                keep == (|e: QuantumEntanglement| spec_coherent(e)),
                forall|k: int| 0 <= k < es.len() ==> (if current_slot >= (#[trigger] es[k]).last_interaction {
                    current_slot - es[k].last_interaction
                } else {
                    0
                }) * 100 <= u64::MAX,
                out@ == es.take(i as int).map_values(dec).filter(keep),
            decreases es.len() - i,
        {
            let mut e = self.active_entanglements[i];
            let ghost e0 = e;
            assert((if current_slot >= es[i as int].last_interaction {
                current_slot - es[i as int].last_interaction
            } else {
                0
            }) * 100 <= u64::MAX);
            let slots_elapsed = current_slot.saturating_sub(e.last_interaction);
            let decay = (slots_elapsed * COHERENCE_DECAY_RATE) / 3600;
            let loss: u64 = if decay < 1000 { decay } else { 1000 };
            e.coherence_level = e.coherence_level.saturating_sub(loss as u16);
            e.last_interaction = current_slot;
            proof {
                assert(e == spec_decayed(e0, current_slot));
                reveal_with_fuel(Seq::filter, 1);
                assert(es.take(i + 1).map_values(dec) =~= es.take(i as int).map_values(dec).push(e));
                assert(es.take(i + 1).map_values(dec).drop_last() =~= es.take(i as int).map_values(dec));
            }
            if e.coherence_level > 1000 {
                out.push(e);
            }
            i = i + 1;
        }
        proof {
            assert(es.take(i as int) =~= es);
        }
        self.active_entanglements = out;
        Ok(())
    }

    /// Measures a market: whether it is entangled, with how many markets,
    /// their mean correlation and the wave function amplitude (the integer
    /// square root of the summed squared correlations); each entanglement
    /// of the market counts one more measurement.
    pub fn measure_state(&mut self, market_id: &[u8; 32], current_slot: u64) -> (r: Result<QuantumMeasurement, BettingPlatformError>)
        requires
            spec_sum_by(spec_entangled(old(self).active_entanglements@, market_id@), |e: QuantumEntanglement| spec_corr_squared(e))
                <= u64::MAX,
            spec_sum_by(spec_entangled(old(self).active_entanglements@, market_id@), |e: QuantumEntanglement| spec_corr(e))
                <= u32::MAX,
            spec_entangled(old(self).active_entanglements@, market_id@).len() <= u32::MAX,
            forall|i: int| 0 <= i < old(self).active_entanglements@.len() && spec_touches(
                #[trigger] old(self).active_entanglements@[i],
                market_id@,
            ) ==> old(self).active_entanglements@[i].measurement_count < u32::MAX,
        ensures
            ({
                let ent = spec_entangled(old(self).active_entanglements@, market_id@);
                let sq = spec_sum_by(ent, |e: QuantumEntanglement| spec_corr_squared(e));
                &&& r matches Ok(m) && {
                    &&& m.market_id == *market_id
                    &&& m.is_superposition == (ent.len() > 0)
                    &&& m.entanglement_count == ent.len()
                    &&& m.average_correlation == (if ent.len() > 0 {
                        spec_sum_by(ent, |e: QuantumEntanglement| spec_corr(e)) / (ent.len() as int)
                    } else {
                        0
                    })
                    &&& m.measurement_slot == current_slot
                    &&& m.wave_function_amplitude * m.wave_function_amplitude <= sq
                    &&& sq < (m.wave_function_amplitude + 1) * (m.wave_function_amplitude + 1)
                }
                &&& final(self).active_entanglements@ == old(self).active_entanglements@.map_values(
                    |e: QuantumEntanglement| spec_measured(e, market_id@),
                )
            }),
            final(self).last_measurement_slot == current_slot,
            final(self).total_collapses_handled == old(self).total_collapses_handled,
            final(self).collapse_history == old(self).collapse_history,
            final(self).wave_function_state == old(self).wave_function_state,
            final(self).coherence_metrics == old(self).coherence_metrics,
            final(self).measurement_backlog == old(self).measurement_backlog,
            final(self).superposition_count == old(self).superposition_count,
    {
        let entanglements = entanglements_with(&self.active_entanglements, market_id);
        let ghost ent = entanglements@;
        let ghost fcorr = |e: QuantumEntanglement| spec_corr(e);
        let ghost fsq = |e: QuantumEntanglement| spec_corr_squared(e);
        let entanglement_count = entanglements.len() as u32;
        let mut corr_sum: u32 = 0;
        let mut sum_squares: u64 = 0;
        let mut j: usize = 0;
        while j < entanglements.len()
            invariant
                j <= ent.len(),
                ent == entanglements@,
                ent.len() <= u32::MAX,
                fcorr == (|e: QuantumEntanglement| spec_corr(e)),
                fsq == (|e: QuantumEntanglement| spec_corr_squared(e)),
                spec_sum_by(ent, fsq) <= u64::MAX,
                spec_sum_by(ent, fcorr) <= u32::MAX,
                corr_sum == spec_sum_by(ent.take(j as int), fcorr),
                corr_sum <= j * 65535,
                sum_squares == spec_sum_by(ent.take(j as int), fsq),
            decreases ent.len() - j,
        {
            let c = entanglements[j].correlation_strength;
            proof {
                lemma_sum_by_step(ent, fcorr, j as int);
                lemma_sum_by_step(ent, fsq, j as int);
                lemma_sum_by_take_le(ent, fsq, j + 1);
                lemma_sum_by_take_le(ent, fcorr, j + 1);
                assert(c as u64 * c as u64 == spec_corr_squared(ent[j as int]));
            }
            corr_sum = corr_sum + c as u32;
            sum_squares = sum_squares + c as u64 * c as u64;
            j = j + 1;
        }
        proof {
            assert(ent.take(j as int) =~= ent);
        }
        let avg_correlation: u32 = if entanglement_count > 0 {
            corr_sum / entanglement_count
        } else {
            0
        };
        assert(avg_correlation <= 65535) by (nonlinear_arith)
            requires
                entanglement_count > 0 ==> avg_correlation == corr_sum / entanglement_count,
                entanglement_count == 0 ==> avg_correlation == 0,
                corr_sum <= entanglement_count * 65535,
        ;
        let amplitude = if entanglements.len() == 0 {
            0
        } else {
            integer_sqrt(sum_squares)
        };
        let measurement = QuantumMeasurement {
            market_id: *market_id,
            is_superposition: entanglements.len() > 0,
            entanglement_count,
            average_correlation: avg_correlation as u16,
            measurement_slot: current_slot,
            wave_function_amplitude: amplitude,
        };
        let ghost es = self.active_entanglements@;
        let ghost meas = |e: QuantumEntanglement| spec_measured(e, market_id@);
        let mut updated: Vec<QuantumEntanglement> = Vec::new();
        let mut i: usize = 0;
        while i < self.active_entanglements.len()
            invariant
                i <= es.len(),
                es == self.active_entanglements@,
                meas == (|e: QuantumEntanglement| spec_measured(e, market_id@)),
                forall|k: int| 0 <= k < es.len() && spec_touches(#[trigger] es[k], market_id@) ==> es[k].measurement_count
                    < u32::MAX,
                updated@ == es.take(i as int).map_values(meas),
            decreases es.len() - i,
        {
            let mut e = self.active_entanglements[i];
            let ghost e0 = e;
            if bytes_eq(&e.market_a, market_id) || bytes_eq(&e.market_b, market_id) {
                assert(spec_touches(es[i as int], market_id@));
                e.measurement_count = e.measurement_count + 1;
            }
            assert(e == spec_measured(e0, market_id@));
            updated.push(e);
            assert(updated@ =~= es.take(i + 1).map_values(meas));
            i = i + 1;
        }
        proof {
            assert(es.take(i as int) =~= es);
        }
        self.active_entanglements = updated;
        self.last_measurement_slot = current_slot;
        Ok(measurement)
    }


    /// Probability that a cascade carries over a correlation at a depth.
    pub fn calculate_cascade_probability(correlation: u16, depth: u32) -> (r: u16)
        requires
            depth * 2000 <= u32::MAX,
        ensures
            r == spec_cascade_probability(correlation, depth),
            r <= 10000,
    {
        let depth_factor = 10000u32.saturating_sub(depth * 2000);
        assert(correlation as u32 * depth_factor <= 65535 * 10000) by (nonlinear_arith)
            requires
                depth_factor <= 10000,
        ;
        let cascade_prob = (correlation as u32 * depth_factor) / 10000;
        if cascade_prob < 10000 {
            cascade_prob as u16
        } else {
            10000
        }
    }

    /// Predicts how a resolution of `triggering_market` cascades: a
    /// breadth-first search over the entanglements, at most five levels
    /// deep, that reaches each market once, through the first entanglement
    /// found; the cascade probability is the mean over the markets reached.
    pub fn predict_cascade(&self, triggering_market: &[u8; 32]) -> (r: Result<CascadePrediction, BettingPlatformError>)
        requires
            spec_cascade_from(self.active_entanglements@, *triggering_market).0.len() <= u32::MAX,
            spec_probability_sum(spec_cascade_from(self.active_entanglements@, *triggering_market).1) <= u32::MAX,
        ensures
            ({
                let c = spec_cascade_from(self.active_entanglements@, *triggering_market);
                r matches Ok(p) && {
                    &&& p.triggering_market == *triggering_market
                    &&& p.affected_markets@ == c.1
                    &&& p.total_affected == c.0.len() - 1
                    &&& p.max_depth == c.2
                    &&& p.cascade_probability == (if c.1.len() == 0 {
                        0
                    } else {
                        spec_probability_sum(c.1) / (c.1.len() as int)
                    })
                }
            }),
    {
        let ghost es = self.active_entanglements@;
        let ghost goal = spec_cascade_from(es, *triggering_market);
        let mut affected_markets: Vec<CascadeMarket> = Vec::new();
        let mut visited: Vec<[u8; 32]> = Vec::new();
        visited.push(*triggering_market);
        let mut to_visit: Vec<[u8; 32]> = Vec::new();
        to_visit.push(*triggering_market);
        let mut cascade_depth: u32 = 0;
        proof {
            assert(visited@ =~= seq![*triggering_market]);
            assert(to_visit@ =~= seq![*triggering_market]);
            assert(affected_markets@ =~= Seq::<CascadeMarket>::empty());
        }
        while to_visit.len() > 0 && cascade_depth < 5
            invariant
                es == self.active_entanglements@,
                cascade_depth <= 5,
                spec_cascade(es, to_visit@, visited@, affected_markets@, cascade_depth) == goal,
                visited@.len() == affected_markets@.len() + 1,
                forall|q: int| 0 <= q < affected_markets@.len() ==> #[trigger] affected_markets@[q].cascade_probability <= 10000,
            decreases 5 - cascade_depth,
        {
            let ghost v0 = visited@;
            let ghost a0 = affected_markets@;
            let mut next_layer: Vec<[u8; 32]> = Vec::new();
            let mut m: usize = 0;
            while m < to_visit.len()
                invariant
                    es == self.active_entanglements@,
                    cascade_depth < 5,
                    m <= to_visit@.len(),
                    (visited@, next_layer@, affected_markets@) == spec_layer(
                        es,
                        to_visit@.take(m as int),
                        cascade_depth,
                        (v0, Seq::empty(), a0),
                    ),
                    visited@.len() == affected_markets@.len() + 1,
                    forall|q: int| 0 <= q < affected_markets@.len() ==> #[trigger] affected_markets@[q].cascade_probability <= 10000,
                decreases to_visit@.len() - m,
            {
                let market = to_visit[m];
                let ghost st_m = (visited@, next_layer@, affected_markets@);
                proof {
                    assert(to_visit@.take(m + 1).drop_last() =~= to_visit@.take(m as int));
                }
                let mut k: usize = 0;
                while k < self.active_entanglements.len()
                    invariant
                        es == self.active_entanglements@,
                        cascade_depth < 5,
                        k <= es.len(),
                        (visited@, next_layer@, affected_markets@) == spec_scan(es.take(k as int), market@, cascade_depth, st_m),
                        visited@.len() == affected_markets@.len() + 1,
                        forall|q: int| 0 <= q < affected_markets@.len() ==> #[trigger] affected_markets@[q].cascade_probability <= 10000,
                    decreases es.len() - k,
                {
                    let e = self.active_entanglements[k];
                    proof {
                        assert(es.take(k + 1).drop_last() =~= es.take(k as int));
                    }
                    let connected: Option<[u8; 32]> = if bytes_eq(&e.market_a, &market) {
                        Some(e.market_b)
                    } else if bytes_eq(&e.market_b, &market) {
                        Some(e.market_a)
                    } else {
                        None
                    };
                    if let Some(connected_market) = connected {
                        if !seen(&visited, &connected_market) {
                            visited.push(connected_market);
                            next_layer.push(connected_market);
                            let p = Self::calculate_cascade_probability(e.correlation_strength, cascade_depth);
                            affected_markets.push(
                                CascadeMarket { market_id: connected_market, cascade_probability: p, depth: cascade_depth + 1 },
                            );
                        }
                    }
                    k = k + 1;
                }
                proof {
                    assert(es.take(k as int) =~= es);
                }
                m = m + 1;
            }
            proof {
                assert(to_visit@.take(m as int) =~= to_visit@);
            }
            to_visit = next_layer;
            cascade_depth = cascade_depth + 1;
        }
        proof {
            assert(goal == (visited@, affected_markets@, cascade_depth));
        }
        let n = affected_markets.len();
        let mut prob_sum: u32 = 0;
        let mut i: usize = 0;
        while i < n
            invariant
                n == affected_markets@.len(),
                i <= n,
                affected_markets@ == goal.1,
                spec_probability_sum(goal.1) <= u32::MAX,
                prob_sum == spec_probability_sum(affected_markets@.take(i as int)),
                prob_sum <= 10000 * i,
                forall|q: int| 0 <= q < affected_markets@.len() ==> #[trigger] affected_markets@[q].cascade_probability <= 10000,
            decreases n - i,
        {
            proof {
                lemma_probability_sum_take(affected_markets@, i as int);
                lemma_probability_sum_take(affected_markets@, i + 1);
            }
            prob_sum = prob_sum + affected_markets[i].cascade_probability as u32;
            i = i + 1;
        }
        proof {
            assert(affected_markets@.take(i as int) =~= affected_markets@);
        }
        let cascade_probability: u16 = if n == 0 {
            0
        } else {
            let avg = prob_sum / n as u32;
            assert(avg <= 10000) by (nonlinear_arith)
                requires
                    avg == prob_sum / (n as u32),
                    prob_sum <= 10000 * n,
                    n > 0,
                    n <= u32::MAX,
            ;
            avg as u16
        };
        let total_affected = visited.len() as u32 - 1;
        Ok(
            CascadePrediction {
                triggering_market: *triggering_market,
                affected_markets,
                total_affected,
                max_depth: cascade_depth,
                cascade_probability,
            },
        )
    }

}

} // verus!
