//! Mirroring of Polymarket dispute outcomes: disputes reported by the feed
//! are tracked, their market's positions are frozen, and when a dispute is
//! resolved or rejected the positions are unfrozen or reversed exactly as
//! Polymarket decided. Evidence submitted with a dispute is checked for age,
//! type and chain of custody.
use vstd::prelude::*;
use vstd::utf8::*;
use crate::dispute_evidence_system::spec_whole_days;
use crate::error::BettingPlatformError;
use crate::text::matches_literal;
use vstd::string::StringExecFns;

verus! {

/// Dispute as the feed reports it, in storable form.
#[derive(Clone, Debug)]
pub struct DisputeInfo {
    pub dispute_id: String,
    pub market_id: String,
    pub disputer: String,
    pub proposed_outcome: String,
    pub original_outcome: String,
    /// In lamports.
    pub dispute_bond: u64,
    /// The status by name ("Active", "Resolved", "Rejected", ...).
    pub status: String,
    pub created_at: i64,
    pub deadline: i64,
    pub evidence_count: u32,
    pub has_votes: bool,
}

/// One piece of evidence submitted with a dispute.
#[derive(Clone, Debug)]
pub struct DisputeEvidence {
    pub id: String,
    pub submitter: String,
    /// "url", "text", "image" or "document".
    pub evidence_type: String,
    pub content: String,
    pub url: Option<String>,
    pub timestamp: i64,
}

/// A dispute being followed, with local state.
#[derive(Clone, Debug)]
pub struct TrackedDispute {
    pub dispute_info: DisputeInfo,
    pub local_market_id: [u8; 16],
    pub positions_frozen: Vec<[u8; 32]>,
    pub original_outcome: String,
    pub tracking_started: i64,
    pub last_update: i64,
    pub update_count: u32,
}

/// Record of a dispute that ended.
#[derive(Clone, Debug)]
pub struct ResolvedDispute {
    pub dispute_id: String,
    pub market_id: [u8; 16],
    pub original_outcome: String,
    pub final_outcome: String,
    pub resolution_timestamp: i64,
    pub positions_reversed: u32,
    pub total_volume_affected: u64,
}

/// Disputes followed and ended, keyed by dispute id, with totals.
#[derive(Clone, Debug)]
pub struct DisputeSyncState {
    pub last_poll_timestamp: i64,
    pub active_disputes: Vec<TrackedDispute>,
    pub resolved_disputes: Vec<ResolvedDispute>,
    pub total_disputes_tracked: u64,
    pub total_positions_affected: u64,
    pub total_reversals: u32,
}

/// What the platform does in answer to a dispute update.
#[derive(Clone, Debug)]
pub enum DisputeAction {
    NoAction,
    FreezePositions { market_id: [u8; 16] },
    UnfreezePositions { market_id: [u8; 16] },
    ReversePositions {
        market_id: [u8; 16],
        original_outcome: String,
        new_outcome: String,
        affected_positions: Vec<[u8; 32]>,
    },
    ProcessEvidence { dispute_id: String, evidence_count: u32 },
}

/// Dispute statistics.
#[derive(Clone, Copy, Debug)]
pub struct DisputeStats {
    pub active_disputes: u32,
    pub resolved_disputes: u32,
    pub total_tracked: u64,
    pub total_reversals: u32,
    pub positions_affected: u64,
}

/// Dispute handler.
#[derive(Clone, Debug)]
pub struct PolymarketDisputeHandler {
    pub sync_state: DisputeSyncState,
    pub poll_interval_seconds: i64,
}

/// Evidence checks.
pub struct EvidenceValidator;

/// Ids of the followed disputes, in order.
pub open spec fn spec_active_ids(ds: Seq<TrackedDispute>) -> Seq<Seq<char>> {
    ds.map_values(|t: TrackedDispute| t.dispute_info.dispute_id@)
}

/// Ids of the ended disputes, in order.
pub open spec fn spec_resolved_ids(rs: Seq<ResolvedDispute>) -> Seq<Seq<char>> {
    rs.map_values(|r: ResolvedDispute| r.dispute_id@)
}

/// No id occurs twice.
pub open spec fn spec_distinct(ids: Seq<Seq<char>>) -> bool {
    forall|i: int, j: int| 0 <= i < j < ids.len() ==> ids[i] != ids[j]
}

/// Position of `id` in `ids`, or -1 when it is not there.
pub open spec fn spec_index_of(ids: Seq<Seq<char>>, id: Seq<char>) -> int {
    if exists|i: int| 0 <= i < ids.len() && ids[i] == id {
        choose|i: int| 0 <= i < ids.len() && ids[i] == id
    } else {
        -1
    }
}

/// The local market key of a feed market id: its first 16 UTF-8 bytes,
/// padded with zeros.
pub open spec fn spec_market_key(market_id: Seq<char>) -> Seq<u8> {
    let b = encode_utf8(market_id);
    Seq::new(16, |i: int| if i < b.len() { b[i] } else { 0u8 })
}

/// `rs` with `r` stored under its id: in place of the record of that id
/// where there is one, else appended.
pub open spec fn spec_put_resolved(rs: Seq<ResolvedDispute>, r: ResolvedDispute) -> Seq<ResolvedDispute> {
    let j = spec_index_of(spec_resolved_ids(rs), r.dispute_id@);
    if j >= 0 { rs.update(j, r) } else { rs.push(r) }
}

/// Where a record for `id` lands when stored in `rs`.
pub open spec fn spec_put_pos(rs: Seq<ResolvedDispute>, id: Seq<char>) -> int {
    let j = spec_index_of(spec_resolved_ids(rs), id);
    if j >= 0 { j } else { rs.len() as int }
}

/// A record of an ended dispute with the given fields (no volume counted).
pub open spec fn spec_resolved_record(
    r: ResolvedDispute,
    id: Seq<char>,
    market_id: [u8; 16],
    original: Seq<char>,
    final_outcome: Seq<char>,
    ts: i64,
    reversed: u32,
) -> bool {
    &&& r.dispute_id@ == id
    &&& r.market_id == market_id
    &&& r.original_outcome@ == original
    &&& r.final_outcome@ == final_outcome
    &&& r.resolution_timestamp == ts
    &&& r.positions_reversed == reversed
    &&& r.total_volume_affected == 0
}

/// The record a newly detected dispute starts with.
pub open spec fn spec_new_tracked(t: TrackedDispute, info: DisputeInfo, now: i64) -> bool {
    &&& t.dispute_info == info
    &&& t.local_market_id@ == spec_market_key(info.market_id@)
    &&& t.positions_frozen@ == Seq::<[u8; 32]>::empty()
    &&& t.original_outcome@ == info.original_outcome@
    &&& t.tracking_started == now
    &&& t.last_update == now
    &&& t.update_count == 1
}

/// Whether an update is a status change to `status`.
pub open spec fn spec_changes_to(t: TrackedDispute, info: DisputeInfo, status: Seq<char>) -> bool {
    t.dispute_info.status@ != info.status@ && info.status@ == status
}

/// Whether a resolution overturns the outcome the dispute started from.
pub open spec fn spec_overturns(t: TrackedDispute, info: DisputeInfo) -> bool {
    t.original_outcome@ != info.proposed_outcome@
}

/// The counters an update of `info` raises stay within their types.
pub open spec fn spec_update_fits(s: DisputeSyncState, info: DisputeInfo) -> bool {
    let k = spec_index_of(spec_active_ids(s.active_disputes@), info.dispute_id@);
    if k < 0 {
        s.total_disputes_tracked < u64::MAX
    } else {
        let t = s.active_disputes@[k];
        &&& t.update_count < u32::MAX
        &&& (spec_changes_to(t, info, "Resolved"@) && spec_overturns(t, info)) ==> s.total_reversals < u32::MAX
    }
}

/// Effect of a dispute update on the state and the action answered.
pub open spec fn spec_dispute_step(
    o: DisputeSyncState,
    info: DisputeInfo,
    now: i64,
    n: DisputeSyncState,
    a: DisputeAction,
) -> bool {
    let k = spec_index_of(spec_active_ids(o.active_disputes@), info.dispute_id@);
    let t = o.active_disputes@[k];
    let pos = spec_put_pos(o.resolved_disputes@, info.dispute_id@);
    &&& n.last_poll_timestamp == o.last_poll_timestamp
    &&& n.total_positions_affected == o.total_positions_affected
    &&& if k < 0 {
        // a new dispute: follow it and freeze its market
        &&& n.active_disputes@.len() == o.active_disputes@.len() + 1
        &&& n.active_disputes@.drop_last() == o.active_disputes@
        &&& spec_new_tracked(n.active_disputes@.last(), info, now)
        &&& n.resolved_disputes@ == o.resolved_disputes@
        &&& n.total_disputes_tracked == o.total_disputes_tracked + 1
        &&& n.total_reversals == o.total_reversals
        &&& a == DisputeAction::FreezePositions { market_id: n.active_disputes@.last().local_market_id }
    } else if spec_changes_to(t, info, "Resolved"@) {
        // resolved: the proposed outcome is final
        let reversal = spec_overturns(t, info);
        &&& n.active_disputes@ == o.active_disputes@.remove(k)
        &&& n.resolved_disputes@ == spec_put_resolved(o.resolved_disputes@, n.resolved_disputes@[pos])
        &&& spec_resolved_record(
            n.resolved_disputes@[pos],
            info.dispute_id@,
            t.local_market_id,
            t.original_outcome@,
            info.proposed_outcome@,
            now,
            if reversal { t.positions_frozen@.len() as u32 } else { 0 },
        )
        &&& n.total_disputes_tracked == o.total_disputes_tracked
        &&& n.total_reversals == (if reversal { o.total_reversals + 1 } else { o.total_reversals as int })
        &&& if reversal {
            &&& a is ReversePositions
            &&& a->ReversePositions_market_id == t.local_market_id
            &&& a->ReversePositions_original_outcome@ == t.original_outcome@
            &&& a->ReversePositions_new_outcome@ == info.proposed_outcome@
            &&& a->ReversePositions_affected_positions@ == t.positions_frozen@
        } else {
            a == DisputeAction::UnfreezePositions { market_id: t.local_market_id }
        }
    } else if spec_changes_to(t, info, "Rejected"@) {
        // rejected: the original outcome stands
        &&& n.active_disputes@ == o.active_disputes@.remove(k)
        &&& n.resolved_disputes@ == spec_put_resolved(o.resolved_disputes@, n.resolved_disputes@[pos])
        &&& spec_resolved_record(
            n.resolved_disputes@[pos],
            info.dispute_id@,
            t.local_market_id,
            t.original_outcome@,
            t.original_outcome@,
            now,
            0,
        )
        &&& n.total_disputes_tracked == o.total_disputes_tracked
        &&& n.total_reversals == o.total_reversals
        &&& a == DisputeAction::UnfreezePositions { market_id: t.local_market_id }
    } else {
        // any other update refreshes the record
        let u = n.active_disputes@[k];
        &&& n.active_disputes@.len() == o.active_disputes@.len()
        &&& forall|i: int| 0 <= i < o.active_disputes@.len() && i != k ==> n.active_disputes@[i] == o.active_disputes@[i]
        &&& u.dispute_info == info
        &&& u.local_market_id == t.local_market_id
        &&& u.positions_frozen == t.positions_frozen
        &&& u.original_outcome == t.original_outcome
        &&& u.tracking_started == t.tracking_started
        &&& u.last_update == now
        &&& u.update_count == t.update_count + 1
        &&& n.resolved_disputes@ == o.resolved_disputes@
        &&& n.total_disputes_tracked == o.total_disputes_tracked
        &&& n.total_reversals == o.total_reversals
        &&& a == DisputeAction::NoAction
    }
}

proof fn lemma_index_of_found(ids: Seq<Seq<char>>, id: Seq<char>, k: int)
    requires
        spec_distinct(ids),
        0 <= k < ids.len(),
        ids[k] == id,
    ensures
        spec_index_of(ids, id) == k,
{
    let c = choose|i: int| 0 <= i < ids.len() && ids[i] == id;
    assert(0 <= c < ids.len() && ids[c] == id);
    if c < k {
        assert(ids[c] != ids[k]);
    } else if c > k {
        assert(ids[k] != ids[c]);
    }
}

proof fn lemma_index_of_absent(ids: Seq<Seq<char>>, id: Seq<char>)
    requires
        forall|i: int| 0 <= i < ids.len() ==> ids[i] != id,
    ensures
        spec_index_of(ids, id) == -1,
{
}

/// A dispute that a resolving or rejecting update ends is no longer
/// followed, and the ended disputes hold a record under its id.
pub proof fn lemma_ended_dispute_leaves_active(
    o: DisputeSyncState,
    info: DisputeInfo,
    now: i64,
    n: DisputeSyncState,
    a: DisputeAction,
)
    requires
        o.wf(),
        spec_dispute_step(o, info, now, n, a),
        spec_index_of(spec_active_ids(o.active_disputes@), info.dispute_id@) >= 0,
        ({
            let t = o.active_disputes@[spec_index_of(spec_active_ids(o.active_disputes@), info.dispute_id@)];
            spec_changes_to(t, info, "Resolved"@) || spec_changes_to(t, info, "Rejected"@)
        }),
    ensures
        spec_index_of(spec_active_ids(n.active_disputes@), info.dispute_id@) == -1,
        spec_index_of(spec_resolved_ids(n.resolved_disputes@), info.dispute_id@) >= 0,
{
    let ids = spec_active_ids(o.active_disputes@);
    let k = spec_index_of(ids, info.dispute_id@);
    assert(0 <= k < ids.len() && ids[k] == info.dispute_id@);
    let nids = spec_active_ids(n.active_disputes@);
    assert(nids =~= ids.remove(k));
    assert forall|i: int| 0 <= i < nids.len() implies nids[i] != info.dispute_id@ by {
        if i < k {
            assert(ids[i] != ids[k]);
        } else {
            assert(ids[k] != ids[i + 1]);
        }
    }
    lemma_index_of_absent(nids, info.dispute_id@);
    let pos = spec_put_pos(o.resolved_disputes@, info.dispute_id@);
    let rids = spec_resolved_ids(n.resolved_disputes@);
    let j = spec_index_of(spec_resolved_ids(o.resolved_disputes@), info.dispute_id@);
    if j >= 0 {
        assert(0 <= j < o.resolved_disputes@.len());
    }
    assert(0 <= pos < n.resolved_disputes@.len());
    assert(rids[pos] == info.dispute_id@);
}

fn market_key(market_id: &String) -> (r: [u8; 16])
    ensures
        r@ == spec_market_key(market_id@),
{
    let b = market_id.as_str().as_bytes();
    let mut key = [0u8; 16];
    let mut i: usize = 0;
    while i < 16
        invariant
            i <= 16,
            b@ == encode_utf8(market_id@),
            key@.len() == 16,
            forall|j: int| 0 <= j < i ==> key@[j] == spec_market_key(market_id@)[j],
            forall|j: int| i <= j < 16 ==> key@[j] == 0u8,
        decreases 16 - i,
    {
        if i < b.len() {
            key[i] = b[i];
        }
        i = i + 1;
    }
    assert(key@ =~= spec_market_key(market_id@));
    key
}

fn find_active(ds: &Vec<TrackedDispute>, id: &String) -> (r: Option<usize>)
    ensures
        match r {
            Some(k) => k < ds@.len() && ds@[k as int].dispute_info.dispute_id@ == id@,
            None => forall|i: int| 0 <= i < ds@.len() ==> ds@[i].dispute_info.dispute_id@ != id@,
        },
{
    let mut i: usize = 0;
    while i < ds.len()
        invariant
            i <= ds@.len(),
            forall|j: int| 0 <= j < i ==> ds@[j].dispute_info.dispute_id@ != id@,
        decreases ds@.len() - i,
    {
        if ds[i].dispute_info.dispute_id == *id {
            return Some(i);
        }
        i = i + 1;
    }
    None
}

/// Stores a record under its id, replacing the record of that id if any.
fn put_resolved(rs: &mut Vec<ResolvedDispute>, r: ResolvedDispute)
    requires
        spec_distinct(spec_resolved_ids(old(rs)@)),
    ensures
        final(rs)@ == spec_put_resolved(old(rs)@, r),
        spec_distinct(spec_resolved_ids(final(rs)@)),
{
    let ghost ids = spec_resolved_ids(rs@);
    let ghost id = r.dispute_id@;
    let mut i: usize = 0;
    while i < rs.len()
        invariant
            i <= rs@.len(),
            rs@ == old(rs)@,
            ids == spec_resolved_ids(rs@),
            id == r.dispute_id@,
            spec_distinct(ids),
            forall|j: int| 0 <= j < i ==> ids[j] != id,
        decreases rs@.len() - i,
    {
        if rs[i].dispute_id == r.dispute_id {
            proof {
                lemma_index_of_found(ids, id, i as int);
            }
            rs.set(i, r);
            assert(spec_resolved_ids(rs@) =~= ids);
            return;
        }
        i = i + 1;
    }
    proof {
        lemma_index_of_absent(ids, id);
    }
    rs.push(r);
    assert(spec_resolved_ids(rs@) =~= ids.push(id));
}

impl DisputeSyncState {
    /// Space reserved for dispute tracking (32KB).
    pub const SIZE: usize = 32768;

    /// Neither list holds an id twice.
    pub open spec fn wf(&self) -> bool {
        &&& spec_distinct(spec_active_ids(self.active_disputes@))
        &&& spec_distinct(spec_resolved_ids(self.resolved_disputes@))
    }

    /// An empty state.
    pub fn new() -> (r: Self)
        ensures
            r.wf(),
            r.last_poll_timestamp == 0,
            r.active_disputes@.len() == 0,
            r.resolved_disputes@.len() == 0,
            r.total_disputes_tracked == 0,
            r.total_positions_affected == 0,
            r.total_reversals == 0,
    {
        DisputeSyncState {
            last_poll_timestamp: 0,
            active_disputes: Vec::new(),
            resolved_disputes: Vec::new(),
            total_disputes_tracked: 0,
            total_positions_affected: 0,
            total_reversals: 0,
        }
    }
}

proof fn lemma_distinct_remove(ids: Seq<Seq<char>>, k: int)
    requires
        spec_distinct(ids),
        0 <= k < ids.len(),
    ensures
        spec_distinct(ids.remove(k)),
{
    let r = ids.remove(k);
    assert forall|i: int, j: int| 0 <= i < j < r.len() implies r[i] != r[j] by {
        let oi = if i < k { i } else { i + 1 };
        let oj = if j < k { j } else { j + 1 };
        assert(r[i] == ids[oi] && r[j] == ids[oj]);
    }
}

/// Evidence types the handler accepts.
pub open spec fn spec_known_evidence_type(t: Seq<char>) -> bool {
    t == "url"@ || t == "text"@ || t == "image"@ || t == "document"@
}

/// Ids of a list of evidence, in order.
pub open spec fn spec_evidence_ids(es: Seq<DisputeEvidence>) -> Seq<Seq<char>> {
    es.map_values(|e: DisputeEvidence| e.id@)
}

/// No piece of evidence is older than the one before it.
pub open spec fn spec_in_order(es: Seq<DisputeEvidence>) -> bool {
    forall|i: int| 0 < i < es.len() ==> es[i - 1].timestamp <= #[trigger] es[i].timestamp
}

/// Strength weight of an evidence type, in tenths.
pub open spec fn spec_type_tenths(t: Seq<char>) -> int {
    if t == "document"@ {
        10
    } else if t == "image"@ {
        8
    } else if t == "url"@ {
        6
    } else if t == "text"@ {
        4
    } else {
        2
    }
}

/// Strength of one piece of evidence in tenths: its type's weight, and two
/// more when it links a URL.
pub open spec fn spec_item_tenths(e: DisputeEvidence) -> int {
    spec_type_tenths(e.evidence_type@) + if e.url is Some { 2int } else { 0int }
}

/// Summed strength of a list of evidence, in tenths.
pub open spec fn spec_score_tenths(es: Seq<DisputeEvidence>) -> int
    decreases es.len(),
{
    if es.len() == 0 {
        0
    } else {
        spec_score_tenths(es.drop_last()) + spec_item_tenths(es.last())
    }
}

impl PolymarketDisputeHandler {
    /// Seconds between polls (5 minutes).
    pub const POLL_INTERVAL: i64 = 300;
    /// Evidence older than this many whole days is stale.
    pub const MAX_EVIDENCE_AGE_DAYS: i64 = 30;

    /// A handler with empty state that polls every 5 minutes.
    pub fn new() -> (r: Self)
        ensures
            r.sync_state.wf(),
            r.sync_state.last_poll_timestamp == 0,
            r.sync_state.active_disputes@.len() == 0,
            r.sync_state.resolved_disputes@.len() == 0,
            r.sync_state.total_disputes_tracked == 0,
            r.sync_state.total_positions_affected == 0,
            r.sync_state.total_reversals == 0,
            r.poll_interval_seconds == 300,
    {
        PolymarketDisputeHandler { sync_state: DisputeSyncState::new(), poll_interval_seconds: Self::POLL_INTERVAL }
    }

    /// Applies a dispute update from the feed: a dispute not yet followed
    /// is followed and its market frozen; a change of status to "Resolved"
    /// ends it with the proposed outcome (reversing positions when that
    /// overturns the original outcome, else unfreezing them); a change to
    /// "Rejected" ends it with the original outcome and unfreezes; any
    /// other update refreshes the record and asks for nothing.
    pub fn process_dispute_update(
        &mut self,
        dispute_info: DisputeInfo,
        current_timestamp: i64,
    ) -> (r: Result<DisputeAction, BettingPlatformError>)
        requires
            old(self).sync_state.wf(),
            spec_update_fits(old(self).sync_state, dispute_info),
        ensures
            final(self).sync_state.wf(),
            final(self).poll_interval_seconds == old(self).poll_interval_seconds,
            r matches Ok(a) && spec_dispute_step(old(self).sync_state, dispute_info, current_timestamp, final(self).sync_state, a),
    {
        let found = find_active(&self.sync_state.active_disputes, &dispute_info.dispute_id);
        match found {
            None => {
                proof {
                    lemma_index_of_absent(spec_active_ids(self.sync_state.active_disputes@), dispute_info.dispute_id@);
                }
                Ok(self.handle_new_dispute(dispute_info, current_timestamp))
            },
            Some(k) => {
                proof {
                    lemma_index_of_found(spec_active_ids(self.sync_state.active_disputes@), dispute_info.dispute_id@, k as int);
                }
                Ok(self.handle_dispute_update(k, dispute_info, current_timestamp))
            },
        }
    }

    fn handle_new_dispute(&mut self, dispute_info: DisputeInfo, current_timestamp: i64) -> (a: DisputeAction)
        requires
            old(self).sync_state.wf(),
            spec_index_of(spec_active_ids(old(self).sync_state.active_disputes@), dispute_info.dispute_id@) == -1,
            old(self).sync_state.total_disputes_tracked < u64::MAX,
        ensures
            final(self).sync_state.wf(),
            final(self).poll_interval_seconds == old(self).poll_interval_seconds,
            spec_dispute_step(old(self).sync_state, dispute_info, current_timestamp, final(self).sync_state, a),
    {
        let ghost ids = spec_active_ids(self.sync_state.active_disputes@);
        let ghost info = dispute_info;
        let local_market_id = market_key(&dispute_info.market_id);
        let original = dispute_info.original_outcome.clone();
        let record = TrackedDispute {
            dispute_info,
            local_market_id,
            positions_frozen: Vec::new(),
            original_outcome: original,
            tracking_started: current_timestamp,
            last_update: current_timestamp,
            update_count: 1,
        };
        self.sync_state.active_disputes.push(record);
        self.sync_state.total_disputes_tracked = self.sync_state.total_disputes_tracked + 1;
        proof {
            assert(spec_active_ids(self.sync_state.active_disputes@) =~= ids.push(info.dispute_id@));
            assert(forall|i: int| 0 <= i < ids.len() ==> ids[i] != info.dispute_id@);
            assert(self.sync_state.active_disputes@.drop_last() =~= old(self).sync_state.active_disputes@);
        }
        DisputeAction::FreezePositions { market_id: local_market_id }
    }

    fn handle_dispute_update(&mut self, k: usize, dispute_info: DisputeInfo, current_timestamp: i64) -> (a: DisputeAction)
        requires
            old(self).sync_state.wf(),
            k < old(self).sync_state.active_disputes@.len(),
            spec_index_of(spec_active_ids(old(self).sync_state.active_disputes@), dispute_info.dispute_id@) == k,
            spec_update_fits(old(self).sync_state, dispute_info),
        ensures
            final(self).sync_state.wf(),
            final(self).poll_interval_seconds == old(self).poll_interval_seconds,
            spec_dispute_step(old(self).sync_state, dispute_info, current_timestamp, final(self).sync_state, a),
    {
        let ghost o = self.sync_state;
        let ghost ids = spec_active_ids(o.active_disputes@);
        let ghost info = dispute_info;
        let ghost t0 = o.active_disputes@[k as int];
        proof {
            assert(ids[k as int] == t0.dispute_info.dispute_id@);
        }
        let status_changed = !(self.sync_state.active_disputes[k].dispute_info.status == dispute_info.status);
        let to_resolved = status_changed && matches_literal(&dispute_info.status, "Resolved");
        let to_rejected = status_changed && matches_literal(&dispute_info.status, "Rejected");
        let id = dispute_info.dispute_id.clone();
        let mut t = self.sync_state.active_disputes.remove(k);
        t.dispute_info = dispute_info;
        t.last_update = current_timestamp;
        t.update_count = t.update_count + 1;
        proof {
            assert(spec_active_ids(self.sync_state.active_disputes@) =~= ids.remove(k as int));
            lemma_distinct_remove(ids, k as int);
        }
        if to_resolved {
            let market = t.local_market_id;
            let final_outcome = t.dispute_info.proposed_outcome.clone();
            let requires_reversal = !(t.original_outcome == final_outcome);
            let reversed: u32 = if requires_reversal { t.positions_frozen.len() as u32 } else { 0 };
            let rec = ResolvedDispute {
                dispute_id: id,
                market_id: market,
                original_outcome: t.original_outcome.clone(),
                final_outcome: final_outcome.clone(),
                resolution_timestamp: current_timestamp,
                positions_reversed: reversed,
                total_volume_affected: 0,
            };
            let ghost rec_v = rec;
            put_resolved(&mut self.sync_state.resolved_disputes, rec);
            proof {
                let pos = spec_put_pos(o.resolved_disputes@, info.dispute_id@);
                assert(self.sync_state.resolved_disputes@[pos] == rec_v);
            }
            if requires_reversal {
                self.sync_state.total_reversals = self.sync_state.total_reversals + 1;
                DisputeAction::ReversePositions {
                    market_id: market,
                    original_outcome: t.original_outcome,
                    new_outcome: final_outcome,
                    affected_positions: t.positions_frozen,
                }
            } else {
                DisputeAction::UnfreezePositions { market_id: market }
            }
        } else if to_rejected {
            let market = t.local_market_id;
            let rec = ResolvedDispute {
                dispute_id: id,
                market_id: market,
                original_outcome: t.original_outcome.clone(),
                final_outcome: t.original_outcome,
                resolution_timestamp: current_timestamp,
                positions_reversed: 0,
                total_volume_affected: 0,
            };
            let ghost rec_v = rec;
            put_resolved(&mut self.sync_state.resolved_disputes, rec);
            proof {
                let pos = spec_put_pos(o.resolved_disputes@, info.dispute_id@);
                assert(self.sync_state.resolved_disputes@[pos] == rec_v);
            }
            DisputeAction::UnfreezePositions { market_id: market }
        } else {
            self.sync_state.active_disputes.insert(k, t);
            proof {
                assert(spec_active_ids(self.sync_state.active_disputes@) =~= ids);
            }
            DisputeAction::NoAction
        }
    }

    /// Whether a poll is due: at least the poll interval has passed since
    /// the last one.
    pub fn should_poll(&self, current_timestamp: i64) -> (r: bool)
        requires
            i64::MIN <= self.sync_state.last_poll_timestamp + self.poll_interval_seconds <= i64::MAX,
        ensures
            r == (current_timestamp >= self.sync_state.last_poll_timestamp + self.poll_interval_seconds),
    {
        current_timestamp >= self.sync_state.last_poll_timestamp + self.poll_interval_seconds
    }

    /// Records the time of a poll.
    pub fn update_poll_time(&mut self, timestamp: i64)
        ensures
            final(self).sync_state.last_poll_timestamp == timestamp,
            final(self).sync_state.active_disputes == old(self).sync_state.active_disputes,
            final(self).sync_state.resolved_disputes == old(self).sync_state.resolved_disputes,
            final(self).sync_state.total_disputes_tracked == old(self).sync_state.total_disputes_tracked,
            final(self).sync_state.total_positions_affected == old(self).sync_state.total_positions_affected,
            final(self).sync_state.total_reversals == old(self).sync_state.total_reversals,
            final(self).poll_interval_seconds == old(self).poll_interval_seconds,
    {
        self.sync_state.last_poll_timestamp = timestamp;
    }

    /// Counts of followed and ended disputes, with the totals.
    pub fn get_stats(&self) -> (r: DisputeStats)
        ensures
            r.active_disputes == self.sync_state.active_disputes@.len() as u32,
            r.resolved_disputes == self.sync_state.resolved_disputes@.len() as u32,
            r.total_tracked == self.sync_state.total_disputes_tracked,
            r.total_reversals == self.sync_state.total_reversals,
            r.positions_affected == self.sync_state.total_positions_affected,
    {
        DisputeStats {
            active_disputes: self.sync_state.active_disputes.len() as u32,
            resolved_disputes: self.sync_state.resolved_disputes.len() as u32,
            total_tracked: self.sync_state.total_disputes_tracked,
            total_reversals: self.sync_state.total_reversals,
            positions_affected: self.sync_state.total_positions_affected,
        }
    }

    /// The followed dispute with the given id, if any.
    pub fn active_dispute(&self, dispute_id: &str) -> (r: Option<&TrackedDispute>)
        requires
            self.sync_state.wf(),
        ensures
            ({
                let k = spec_index_of(spec_active_ids(self.sync_state.active_disputes@), dispute_id@);
                match r {
                    Some(t) => k >= 0 && *t == self.sync_state.active_disputes@[k],
                    None => k == -1,
                }
            }),
    {
        let id = String::from_str(dispute_id);
        match find_active(&self.sync_state.active_disputes, &id) {
            Some(k) => {
                proof {
                    lemma_index_of_found(spec_active_ids(self.sync_state.active_disputes@), dispute_id@, k as int);
                }
                Some(&self.sync_state.active_disputes[k])
            },
            None => {
                proof {
                    lemma_index_of_absent(spec_active_ids(self.sync_state.active_disputes@), dispute_id@);
                }
                None
            },
        }
    }

    /// Evidence is stale after `MAX_EVIDENCE_AGE_DAYS` whole days; its type
    /// must be "url", "text", "image" or "document".
    pub fn validate_evidence(&self, evidence: &DisputeEvidence, current_timestamp: i64) -> (r: Result<(), BettingPlatformError>)
        requires
            i64::MIN <= current_timestamp - evidence.timestamp <= i64::MAX,
        ensures
            r == (if spec_whole_days(current_timestamp - evidence.timestamp) > 30 {
                Err(BettingPlatformError::StaleEvidence)
            } else if spec_known_evidence_type(evidence.evidence_type@) {
                Ok(())
            } else {
                Err(BettingPlatformError::InvalidEvidenceType)
            }),
    {
        let age_seconds = current_timestamp - evidence.timestamp;
        let age_days: i64 = if age_seconds >= 0 {
            age_seconds / 86400
        } else {
            let neg: i128 = -(age_seconds as i128);
            (-(neg / 86400)) as i64
        };
        if age_days > Self::MAX_EVIDENCE_AGE_DAYS {
            return Err(BettingPlatformError::StaleEvidence);
        }
        let t = &evidence.evidence_type;
        if matches_literal(t, "url") || matches_literal(t, "text") || matches_literal(t, "image") || matches_literal(
            t,
            "document",
        ) {
            Ok(())
        } else {
            Err(BettingPlatformError::InvalidEvidenceType)
        }
    }
}

impl EvidenceValidator {
    /// Chain of custody: evidence must come in time order, and no id may
    /// occur twice.
    pub fn validate_chain_of_custody(evidence: &[DisputeEvidence]) -> (r: Result<(), BettingPlatformError>)
        ensures
            r == (if !spec_in_order(evidence@) {
                Err(BettingPlatformError::InvalidEvidenceOrder)
            } else if !spec_distinct(spec_evidence_ids(evidence@)) {
                Err(BettingPlatformError::DuplicateEvidence)
            } else {
                Ok(())
            }),
    {
        let ghost es = evidence@;
        let ghost ids = spec_evidence_ids(es);
        if evidence.len() == 0 {
            return Ok(());
        }
        let mut prev = evidence[0].timestamp;
        let mut i: usize = 1;
        while i < evidence.len()
            invariant
                1 <= i <= es.len(),
                es == evidence@,
                prev == es[i - 1].timestamp,
                forall|j: int| 0 < j < i ==> es[j - 1].timestamp <= #[trigger] es[j].timestamp,
            decreases es.len() - i,
        {
            if evidence[i].timestamp < prev {
                assert(!(es[i - 1].timestamp <= es[i as int].timestamp));
                return Err(BettingPlatformError::InvalidEvidenceOrder);
            }
            prev = evidence[i].timestamp;
            i = i + 1;
        }
        let mut a: usize = 0;
        while a < evidence.len()
            invariant
                a <= es.len(),
                es == evidence@,
                ids == spec_evidence_ids(es),
                spec_in_order(es),
                forall|p: int, q: int| 0 <= p < a && p < q < es.len() ==> ids[p] != ids[q],
            decreases es.len() - a,
        {
            let mut b: usize = a + 1;
            while b < evidence.len()
                invariant
                    a < es.len(),
                    a + 1 <= b <= es.len(),
                    es == evidence@,
                    ids == spec_evidence_ids(es),
                    spec_in_order(es),
                    forall|q: int| a < q < b ==> ids[a as int] != ids[q],
                decreases es.len() - b,
            {
                if evidence[a].id == evidence[b].id {
                    assert(ids[a as int] == ids[b as int]);
                    return Err(BettingPlatformError::DuplicateEvidence);
                }
                b = b + 1;
            }
            a = a + 1;
        }
        Ok(())
    }

    /// Summed strength of a list of evidence in tenths (a document 10, an
    /// image 8, a URL 6, a text 4, anything else 2, and 2 more for a linked
    /// URL); divided by the count and capped at 1 it is the list's strength.
    pub fn evidence_score_tenths(evidence: &[DisputeEvidence]) -> (r: u64)
        requires
            12 * evidence@.len() <= u64::MAX,
        ensures
            r == spec_score_tenths(evidence@),
    {
        let ghost es = evidence@;
        let mut sum: u64 = 0;
        let mut i: usize = 0;
        while i < evidence.len()
            invariant
                i <= es.len(),
                es == evidence@,
                12 * es.len() <= u64::MAX,
                sum == spec_score_tenths(es.take(i as int)),
                sum <= 12 * i,
            decreases es.len() - i,
        {
            let e = &evidence[i];
            let t = &e.evidence_type;
            let w: u64 = if matches_literal(t, "document") {
                10
            } else if matches_literal(t, "image") {
                8
            } else if matches_literal(t, "url") {
                6
            } else if matches_literal(t, "text") {
                4
            } else {
                2
            };
            let bonus: u64 = if e.url.is_some() { 2 } else { 0 };
            assert(es.take(i + 1).drop_last() =~= es.take(i as int));
            sum = sum + w + bonus;
            i = i + 1;
        }
        assert(es.take(i as int) =~= es);
        sum
    }
}

} // verus!
