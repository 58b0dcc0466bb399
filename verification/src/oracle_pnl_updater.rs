//! Profit-and-loss statistics over positions after oracle price updates.
use vstd::prelude::*;
use crate::error::BettingPlatformError;

verus! {

/// A price update for one proposal.
#[derive(Clone, Copy, Debug)]
pub struct OraclePriceUpdate {
    pub proposal_id: u128,
    pub new_price: u64,
    pub timestamp: i64,
    pub confidence: u64,
}

/// The result of a PnL update.
#[derive(Clone, Debug)]
pub struct PnLUpdateResult {
    pub positions_updated: u32,
    pub liquidatable_positions: Vec<[u8; 32]>,
    pub total_unrealized_pnl: i64,
}

/// What the statistics read of a position.
#[derive(Clone, Copy, Debug)]
pub struct PositionPnl {
    pub is_closed: bool,
    pub unrealized_pnl: i64,
    pub notional: u64,
}

/// Aggregate PnL statistics.
#[derive(Clone, Copy, Debug, PartialEq, Eq, Structural)]
pub struct AggregatePnLStats {
    pub total_unrealized_pnl: i64,
    pub profitable_positions: u32,
    pub losing_positions: u32,
    pub total_notional: u64,
    /// Basis points.
    pub average_pnl_pct: i64,
}

/// Sum of the unrealised PnL of the open positions.
pub open spec fn spec_total_pnl(ps: Seq<PositionPnl>) -> int
    decreases ps.len(),
{
    if ps.len() == 0 { 0 } else {
        spec_total_pnl(ps.drop_last()) + if ps.last().is_closed { 0 } else { ps.last().unrealized_pnl as int }
    }
}

/// Sum of the notional of the open positions.
pub open spec fn spec_total_notional(ps: Seq<PositionPnl>) -> int
    decreases ps.len(),
{
    if ps.len() == 0 { 0 } else {
        spec_total_notional(ps.drop_last()) + if ps.last().is_closed { 0 } else { ps.last().notional as int }
    }
}

/// Open positions with a profit (`sign` 1) or a loss (`sign` -1).
pub open spec fn spec_count_sign(ps: Seq<PositionPnl>, sign: int) -> nat
    decreases ps.len(),
{
    if ps.len() == 0 { 0 } else {
        spec_count_sign(ps.drop_last(), sign) + if !ps.last().is_closed && ((sign > 0 && ps.last().unrealized_pnl > 0)
            || (sign < 0 && ps.last().unrealized_pnl < 0)) {
            1nat
        } else {
            0nat
        }
    }
}

/// Integer division rounding toward zero, as Rust divides.
pub open spec fn spec_trunc_div(a: int, b: int) -> int {
    let q = (if a >= 0 { a } else { -a }) / (if b >= 0 { b } else { -b });
    if (a >= 0) == (b >= 0) { q } else { -q }
}

/// The sums stay within their machine types at every step.
pub open spec fn spec_sums_fit(ps: Seq<PositionPnl>) -> bool {
    forall|k: int| 0 <= k <= ps.len() ==> {
        &&& i64::MIN <= #[trigger] spec_total_pnl(ps.take(k)) <= i64::MAX
        &&& spec_total_notional(ps.take(k)) <= u64::MAX
        &&& spec_count_sign(ps.take(k), 1) <= u32::MAX
        &&& spec_count_sign(ps.take(k), -1) <= u32::MAX
    }
}

/// Aggregates the PnL of the open positions: total PnL and notional, how
/// many gain and lose, and the average PnL in basis points of notional.
pub fn calculate_aggregate_pnl_stats(positions: &[PositionPnl]) -> (r: Result<AggregatePnLStats, BettingPlatformError>)
    requires
        spec_sums_fit(positions@),
        spec_total_notional(positions@) > 0 ==> i64::MIN <= spec_total_pnl(positions@) * 10000 <= i64::MAX,
    ensures
        ({
            let ps = positions@;
            let n = spec_total_notional(ps);
            r == Ok::<AggregatePnLStats, BettingPlatformError>(AggregatePnLStats {
                total_unrealized_pnl: spec_total_pnl(ps) as i64,
                profitable_positions: spec_count_sign(ps, 1) as u32,
                losing_positions: spec_count_sign(ps, -1) as u32,
                total_notional: n as u64,
                average_pnl_pct: if n > 0 {
                    spec_trunc_div(spec_total_pnl(ps) * 10000, (n as u64) as i64 as int) as i64
                } else {
                    0
                },
            })
        }),
{
    let ghost ps = positions@;
    let mut total_unrealized_pnl: i64 = 0;
    let mut profitable_positions: u32 = 0;
    let mut losing_positions: u32 = 0;
    let mut total_notional: u64 = 0;
    let mut i: usize = 0;
    while i < positions.len()
        invariant
            ps == positions@,
            i <= ps.len(),
            spec_sums_fit(ps),
            total_unrealized_pnl == spec_total_pnl(ps.take(i as int)),
            total_notional == spec_total_notional(ps.take(i as int)),
            profitable_positions == spec_count_sign(ps.take(i as int), 1),
            losing_positions == spec_count_sign(ps.take(i as int), -1),
        decreases ps.len() - i,
    {
        let ghost t = ps.take(i as int + 1);
        assert(t.drop_last() =~= ps.take(i as int));
        assert(t.last() == ps[i as int]);
        assert(i64::MIN <= spec_total_pnl(t) <= i64::MAX);
        assert(spec_total_notional(t) <= u64::MAX);
        assert(spec_count_sign(t, 1) <= u32::MAX);
        assert(spec_count_sign(t, -1) <= u32::MAX);
        let p = positions[i];
        if !p.is_closed {
            total_unrealized_pnl = total_unrealized_pnl + p.unrealized_pnl;
            total_notional = total_notional + p.notional;
            if p.unrealized_pnl > 0 {
                profitable_positions = profitable_positions + 1;
            } else if p.unrealized_pnl < 0 {
                losing_positions = losing_positions + 1;
            }
        }
        i = i + 1;
    }
    assert(ps.take(ps.len() as int) =~= ps);
    let average_pnl_pct: i64 = if total_notional > 0 {
        let scaled = total_unrealized_pnl * 10000;
        let n = total_notional as i64;
        assert(total_notional > 0 ==> (total_notional as i64) != 0) by (bit_vector);
        let a: i128 = if scaled >= 0 { scaled as i128 } else { -(scaled as i128) };
        let b: i128 = if n >= 0 { n as i128 } else { -(n as i128) };
        let q = a / b;
        proof {
            assert(q <= a) by (nonlinear_arith)
                requires q == a / b, a >= 0, b >= 1;
        }
        let signed_q: i128 = if (scaled >= 0) == (n >= 0) { q } else { -q };
        signed_q as i64
    } else {
        0
    };
    Ok(AggregatePnLStats {
        total_unrealized_pnl,
        profitable_positions,
        losing_positions,
        total_notional,
        average_pnl_pct,
    })
}

} // verus!
