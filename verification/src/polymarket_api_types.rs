//! Data shapes exchanged with the Polymarket integration.
use vstd::prelude::*;

verus! {

/// Internal market data as kept on chain.
#[derive(Clone, Copy, Debug)]
pub struct InternalMarketData {
    pub market_id: [u8; 16],
    pub yes_price_bps: u64,
    pub no_price_bps: u64,
    pub volume_24h: u64,
    pub liquidity: u64,
    pub last_update_slot: u64,
    pub market_type: u8,
    pub status: u8,
    pub spread_bps: u16,
}

/// Polymarket market response.
#[derive(Clone, Debug)]
pub struct PolymarketMarketResponse {
    pub id: String,
    pub title: String,
    pub description: String,
    pub outcomes: Vec<String>,
    pub end_date: i64,
    pub volume: u64,
    pub liquidity: u64,
}

/// Paginated response wrapper.
#[derive(Clone, Debug)]
pub struct PaginatedResponse<T> {
    pub data: Vec<T>,
    pub next_cursor: Option<String>,
    pub has_more: bool,
}

/// Declares `std::io::Error`, the error of a response parser.
#[verifier::external_type_specification]
#[verifier::external_body]
pub struct ExIoError(std::io::Error);

/// Parser of raw API responses, implemented by clients.
pub trait ApiResponseParser {
    fn parse_market_response(&self, data: &[u8]) -> Result<PolymarketMarketResponse, std::io::Error>;
}

/// Maps API error codes to messages, implemented by clients.
pub trait ErrorCodeMapper {
    fn map_error_code(&self, code: u32) -> String;
}

/// Dispute status.
#[derive(Clone, Copy, Debug, PartialEq, Eq, Structural)]
pub enum DisputeStatus {
    Pending,
    UnderReview,
    Resolved,
    Rejected,
}

/// Dispute evidence.
#[derive(Clone, Debug)]
pub struct DisputeEvidence {
    pub evidence_type: String,
    pub evidence_url: String,
    pub evidence_hash: [u8; 32],
    pub submitted_at: i64,
}

/// Dispute votes.
#[derive(Clone, Copy, Debug)]
pub struct DisputeVotes {
    pub for_votes: u64,
    pub against_votes: u64,
    pub total_weight: u64,
}

/// Dispute information.
#[derive(Clone, Debug)]
pub struct DisputeInfo {
    pub dispute_id: [u8; 32],
    pub market_id: [u8; 32],
    pub disputer: [u8; 32],
    pub reason: String,
    pub evidence: DisputeEvidence,
    pub status: DisputeStatus,
    pub created_at: i64,
}

} // verus!
